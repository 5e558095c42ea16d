//! Functions on text: the first word of a text, the longer of two texts,
//! and texts that are handed over or changed in place.

use vstd::prelude::*;
use vstd::string::{StrSliceExecFns, StringExecFns, StringSliceAdditionalSpecFns};
use crate::cursor::Cursor;

verus! {

/// Whether a character is whitespace: a character with the Unicode property
/// `White_Space`.
pub open spec fn is_blank(c: char) -> bool {
    let n = c as u32;
    ||| 0x09 <= n <= 0x0d
    ||| n == 0x20
    ||| n == 0x85
    ||| n == 0xa0
    ||| n == 0x1680
    ||| 0x2000 <= n <= 0x200a
    ||| n == 0x2028
    ||| n == 0x2029
    ||| n == 0x202f
    ||| n == 0x205f
    ||| n == 0x3000
}

/// Whether a character is whitespace.
pub fn char_is_blank(c: char) -> (b: bool)
    ensures
        b == is_blank(c),
{
    let n = c as u32;
    (0x09 <= n && n <= 0x0d) || n == 0x20 || n == 0x85 || n == 0xa0 || n == 0x1680 || (0x2000 <= n
        && n <= 0x200a) || n == 0x2028 || n == 0x2029 || n == 0x202f || n == 0x205f || n == 0x3000
}

/// The end of the maximal run in `s` that starts at `from` and consists of
/// whitespace if `blank` is set, of other characters if it is not.
pub open spec fn stretch_end(s: Seq<char>, blank: bool, from: int) -> int
    decreases s.len() - from,
{
    if 0 <= from < s.len() && is_blank(s[from]) == blank {
        stretch_end(s, blank, from + 1)
    } else {
        from
    }
}

/// The run that `stretch_end` ends lies within the text, holds only
/// characters of its kind, and cannot be extended.
pub proof fn lemma_stretch_end(s: Seq<char>, blank: bool, from: int)
    requires
        0 <= from <= s.len(),
    ensures
        from <= stretch_end(s, blank, from) <= s.len(),
        forall|i: int| from <= i < stretch_end(s, blank, from) ==> is_blank(#[trigger] s[i]) == blank,
        stretch_end(s, blank, from) < s.len() ==> is_blank(s[stretch_end(s, blank, from)]) != blank,
    decreases s.len() - from,
{
    if from < s.len() && is_blank(s[from]) == blank {
        lemma_stretch_end(s, blank, from + 1);
    }
}

/// The first word of a text: the first maximal run of characters that are
/// not whitespace, if the text holds any.
pub open spec fn first_word(s: Seq<char>) -> Option<Seq<char>> {
    let start = stretch_end(s, true, 0);
    if start >= s.len() {
        None
    } else {
        Some(s.subrange(start, stretch_end(s, false, start)))
    }
}

/// Moves a cursor to the end of the run of whitespace, or of other
/// characters, at its position.
fn skip_stretch(cursor: &mut Cursor, blank: bool)
    requires
        old(cursor)@.in_bounds(),
    ensures
        final(cursor)@.input == old(cursor)@.input,
        final(cursor)@.pos == stretch_end(old(cursor)@.input, blank, old(cursor)@.pos as int),
{
    let ghost input = cursor@.input;
    let ghost from = cursor@.pos as int;
    loop
        invariant
            input == old(cursor)@.input,
            from == old(cursor)@.pos,
            cursor@.input == input,
            cursor@.in_bounds(),
            from <= cursor@.pos,
            stretch_end(input, blank, cursor@.pos as int) == stretch_end(input, blank, from),
        ensures
            cursor@.input == input,
            cursor@.pos == stretch_end(input, blank, from),
        decreases cursor@.input.len() - cursor@.pos,
    {
        match cursor.peek() {
            Some(c) => {
                if char_is_blank(c) == blank {
                    cursor.advance();
                } else {
                    break ;
                }
            },
            None => {
                break ;
            },
        }
    }
}

/// The first word of a text, or `None` where the text is empty or all
/// whitespace.
pub fn find_first_word(s: &str) -> (word: Option<&str>)
    ensures
        match word {
            Some(text) => first_word(s@) == Some(text@),
            None => first_word(s@) is None,
        },
{
    let mut cursor = Cursor::from_text(s);
    skip_stretch(&mut cursor, true);
    let start = cursor.position();
    proof {
        lemma_stretch_end(s@, true, 0);
        lemma_stretch_end(s@, false, start as int);
    }
    if start == cursor.len() {
        None
    } else {
        skip_stretch(&mut cursor, false);
        let end = cursor.position();
        Some(s.substring_char(start, end))
    }
}

/// The number of bytes of a text in UTF-8.
pub open spec fn byte_len(s: &str) -> nat {
    s.spec_bytes().len()
}

/// The longer of two texts, by their length in bytes; the second where
/// neither is longer.
pub fn longest<'a>(s1: &'a str, s2: &'a str) -> (text: &'a str)
    ensures
        text == if byte_len(s1) > byte_len(s2) {
            s1
        } else {
            s2
        },
{
    if s1.as_bytes().len() > s2.as_bytes().len() {
        s1
    } else {
        s2
    }
}

/// A text made here and handed over to the caller.
pub fn safe_return() -> (text: String)
    ensures
        text@ == "I live on the heap"@,
{
    "I live on the heap".to_owned()
}

/// Appends a mark to a text in place.
pub fn modify_string(s: &mut String)
    ensures
        final(s)@ == old(s)@ + " [modified]"@,
{
    s.append(" [modified]");
}

} // verus!
