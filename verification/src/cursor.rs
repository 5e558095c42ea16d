//! A read position over an immutable sequence of characters.

use vstd::prelude::*;

verus! {

/// What a cursor is, mathematically: the input and a position in it.
pub struct CursorView {
    pub input: Seq<char>,
    pub pos: nat,
}

impl CursorView {
    /// The character at the position, if there is one.
    pub open spec fn peek(self) -> Option<char> {
        self.peek_at(0)
    }

    /// The character `offset` places after the position, if there is one.
    pub open spec fn peek_at(self, offset: nat) -> Option<char> {
        if self.pos + offset < self.input.len() {
            Some(self.input[(self.pos + offset) as int])
        } else {
            None
        }
    }

    /// The cursor after one `advance`: one place further, unless at the end.
    pub open spec fn advance(self) -> CursorView {
        if self.pos < self.input.len() {
            CursorView { input: self.input, pos: self.pos + 1 }
        } else {
            self
        }
    }

    /// The cursor after `n` calls of `advance`.
    pub open spec fn advance_n(self, n: nat) -> CursorView
        decreases n,
    {
        if n == 0 {
            self
        } else {
            self.advance().advance_n((n - 1) as nat)
        }
    }

    /// The position lies within `[0, length]`.
    pub open spec fn in_bounds(self) -> bool {
        self.pos <= self.input.len()
    }
}

/// Owns the input and a zero-based read position bounded by the input's
/// length. The position only moves forward.
pub struct Cursor {
    chars: Vec<char>,
    pos: usize,
}

impl View for Cursor {
    type V = CursorView;

    closed spec fn view(&self) -> CursorView {
        CursorView { input: self.chars@, pos: self.pos as nat }
    }
}

impl Cursor {
    #[verifier::type_invariant]
    spec fn well_formed(self) -> bool {
        self.pos <= self.chars.len()
    }

    /// A cursor at the start of `chars`.
    pub fn new(chars: Vec<char>) -> (cursor: Cursor)
        ensures
            cursor@.input == chars@,
            cursor@.pos == 0,
    {
        Cursor { chars, pos: 0 }
    }

    /// A cursor at the start of the characters of `text`.
    pub fn from_text(text: &str) -> (cursor: Cursor)
        ensures
            cursor@.input == text@,
            cursor@.pos == 0,
    {
        let mut chars: Vec<char> = Vec::new();
        for c in it: text.chars()
            invariant
                it.seq() == text@,
                chars@ == it.seq().take(it.index() as int),
        {
            chars.push(c);
        }
        Cursor { chars, pos: 0 }
    }

    /// The character at the position, without moving; `None` at the end.
    pub fn peek(&self) -> (c: Option<char>)
        ensures
            c == self@.peek(),
    {
        proof {
            use_type_invariant(self);
        }
        if self.pos < self.chars.len() {
            Some(self.chars[self.pos])
        } else {
            None
        }
    }

    /// The character `offset` places after the position, without moving;
    /// `None` past the end.
    pub fn peek_at(&self, offset: usize) -> (c: Option<char>)
        ensures
            c == self@.peek_at(offset as nat),
    {
        proof {
            use_type_invariant(self);
        }
        if offset < self.chars.len() - self.pos {
            Some(self.chars[self.pos + offset])
        } else {
            None
        }
    }

    /// Returns the character at the position and moves one place forward;
    /// at the end it returns `None` and does not move.
    pub fn advance(&mut self) -> (c: Option<char>)
        ensures
            c == old(self)@.peek(),
            final(self)@ == old(self)@.advance(),
            final(self)@.in_bounds(),
        no_unwind
    {
        proof {
            use_type_invariant(&*self);
        }
        if self.pos < self.chars.len() {
            let c = self.chars[self.pos];
            self.pos = self.pos + 1;
            Some(c)
        } else {
            None
        }
    }

    /// The current offset from the start of the input.
    pub fn position(&self) -> (pos: usize)
        ensures
            pos == self@.pos,
            self@.in_bounds(),
    {
        proof {
            use_type_invariant(self);
        }
        self.pos
    }

    /// The number of characters in the input.
    pub fn len(&self) -> (len: usize)
        ensures
            len == self@.input.len(),
    {
        self.chars.len()
    }
}

/// After `n` calls of `advance` the cursor stands `n` places further, or at
/// the end of the input if that is nearer; the input is unchanged.
pub proof fn lemma_advance_n(v: CursorView, n: nat)
    requires
        v.in_bounds(),
    ensures
        v.advance_n(n).input == v.input,
        v.advance_n(n).pos == if v.pos + n <= v.input.len() {
            v.pos + n
        } else {
            v.input.len()
        },
    decreases n,
{
    if n > 0 {
        lemma_advance_n(v.advance(), (n - 1) as nat);
    }
}

/// Across any sequence of calls of `advance` the position never decreases
/// and never exceeds the length of the input.
pub proof fn lemma_advance_is_monotonic(v: CursorView, m: nat, n: nat)
    requires
        v.in_bounds(),
        m <= n,
    ensures
        v.pos <= v.advance_n(m).pos <= v.advance_n(n).pos <= v.input.len(),
{
    lemma_advance_n(v, m);
    lemma_advance_n(v, n);
}

} // verus!
