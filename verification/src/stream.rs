//! The whole scan of an input: the sequence of its lexemes, the function that
//! computes it, and what holds of every scan.

use vstd::prelude::*;
use crate::classes::is_space;
use crate::grammar::{is_maximal_run, lemma_lexeme_bounds, lexeme_at, Run};
use crate::scanner::{Scanner, ScannerView};
use crate::token::{LexemeView, ScanError, Token, TokenView};

verus! {

/// The lexemes that a scan of `s` from offset `pos` yields, up to and
/// including the end marker.
pub open spec fn lexemes(s: Seq<char>, pos: int) -> Seq<LexemeView>
    decreases s.len() - pos,
    when 0 <= pos <= s.len()
    via lexemes_decreases
{
    let lexeme = lexeme_at(s, pos);
    if lexeme.is_end() {
        seq![lexeme]
    } else {
        seq![lexeme] + lexemes(s, lexeme.end)
    }
}

/// Each lexeme but the end marker ends after the offset it was scanned from.
#[via_fn]
proof fn lexemes_decreases(s: Seq<char>, pos: int) {
    lemma_lexeme_bounds(s, pos);
}

/// The tokens among a sequence of lexemes, in order.
pub open spec fn tokens_in(stream: Seq<LexemeView>) -> Seq<TokenView>
    decreases stream.len(),
{
    if stream.len() == 0 {
        Seq::empty()
    } else {
        match stream.last().outcome {
            Ok(token) => tokens_in(stream.drop_last()).push(token),
            Err(_) => tokens_in(stream.drop_last()),
        }
    }
}

/// The first failure among a sequence of lexemes, if there is one.
pub open spec fn failure_in(stream: Seq<LexemeView>) -> Option<ScanError>
    decreases stream.len(),
{
    if stream.len() == 0 {
        None
    } else {
        match failure_in(stream.drop_last()) {
            Some(error) => Some(error),
            None => match stream.last().outcome {
                Ok(_) => None,
                Err(error) => Some(error),
            },
        }
    }
}

/// The views of a sequence of tokens.
pub open spec fn token_views(tokens: Seq<Token>) -> Seq<TokenView> {
    Seq::new(tokens.len(), |i: int| tokens[i]@)
}

/// The result of scanning a whole input: the tokens in order, the last of
/// them the end marker, and the failure of the scan if there was one.
#[derive(Debug, PartialEq, Eq)]
pub struct Scan {
    pub tokens: Vec<Token>,
    pub failure: Option<ScanError>,
}

/// Scans `text` to its end. The tokens are those of the input's lexemes, in
/// order; a string literal that the input ends in yields no token and is
/// reported as the failure.
pub fn tokenize(text: &str) -> (scan: Scan)
    ensures
        token_views(scan.tokens@) == tokens_in(lexemes(text@, 0)),
        scan.failure == failure_in(lexemes(text@, 0)),
{
    let mut scanner = Scanner::new(text);
    let mut tokens: Vec<Token> = Vec::new();
    let mut failure: Option<ScanError> = None;
    let ghost input = text@;
    let ghost mut seen: Seq<LexemeView> = Seq::empty();
    loop
        invariant_except_break
            !scanner@.done,
            seen + lexemes(input, scanner@.pos as int) == lexemes(input, 0),
        invariant
            scanner@.input == input,
            scanner@.wf(),
            failure is Some ==> scanner@.pos == input.len(),
            token_views(tokens@) == tokens_in(seen),
            failure == failure_in(seen),
        ensures
            seen == lexemes(input, 0),
            token_views(tokens@) == tokens_in(seen),
            failure == failure_in(seen),
        decreases input.len() - scanner@.pos,
    {
        let ghost pos = scanner@.pos as int;
        let ghost before = seen;
        let ghost views = token_views(tokens@);
        let lexeme = scanner.next_lexeme();
        proof {
            lemma_lexeme_bounds(input, pos);
            seen = seen.push(lexeme@);
            assert(seen.drop_last() == before);
            if lexeme@.is_end() {
                assert(seen == before + lexemes(input, pos));
            } else {
                assert(seen + lexemes(input, lexeme@.end) == before + lexemes(input, pos));
            }
        }
        let ended = scanner.is_done();
        match lexeme.outcome {
            Ok(token) => {
                tokens.push(token);
                assert(token_views(tokens@) == views.push(token@));
            },
            Err(error) => {
                failure = Some(error);
            },
        }
        if ended {
            break ;
        }
    }
    Scan { tokens, failure }
}

/// Every scan is finite: the stream of lexemes from any offset has at most
/// one lexeme per remaining character and the end marker, which is its last
/// element and occurs nowhere before.
pub proof fn lemma_scan_is_finite(s: Seq<char>, pos: int)
    requires
        0 <= pos <= s.len(),
    ensures
        1 <= lexemes(s, pos).len() <= s.len() - pos + 1,
        lexemes(s, pos).last().is_end(),
        forall|i: int| 0 <= i < lexemes(s, pos).len() - 1 ==> !(#[trigger] lexemes(s, pos)[i]).is_end(),
    decreases s.len() - pos,
{
    lemma_lexeme_bounds(s, pos);
    let lexeme = lexeme_at(s, pos);
    if !lexeme.is_end() {
        lemma_scan_is_finite(s, lexeme.end);
        let rest = lexemes(s, lexeme.end);
        assert forall|i: int| 0 <= i < lexemes(s, pos).len() - 1 implies !(#[trigger] lexemes(
            s,
            pos,
        )[i]).is_end() by {
            if i > 0 {
                assert(lexemes(s, pos)[i] == rest[i - 1]);
            }
        }
    }
}

/// The lexemes of a scan stand in the input in order and apart: each but the
/// end marker spans at least one character, the next one is read from where
/// it ends, and only whitespace lies between the two.
pub proof fn lemma_spans_in_order(s: Seq<char>, pos: int, i: int)
    requires
        0 <= pos <= s.len(),
        0 <= i,
        i + 1 < lexemes(s, pos).len(),
    ensures
        pos <= lexemes(s, pos)[i].start < lexemes(s, pos)[i].end <= lexemes(s, pos)[i + 1].start,
        lexemes(s, pos)[i + 1] == lexeme_at(s, lexemes(s, pos)[i].end),
        is_maximal_run(s, Run::Spaces, lexemes(s, pos)[i].end, lexemes(s, pos)[i + 1].start),
    decreases i,
{
    lemma_lexeme_bounds(s, pos);
    let lexeme = lexeme_at(s, pos);
    let stream = lexemes(s, pos);
    let rest = lexemes(s, lexeme.end);
    assert(stream == seq![lexeme] + rest);
    assert(stream[i + 1] == rest[i]);
    if i == 0 {
        lemma_lexeme_bounds(s, lexeme.end);
    } else {
        assert(stream[i] == rest[i - 1]);
        lemma_spans_in_order(s, lexeme.end, i - 1);
    }
}

/// Lexemes that are not the end marker yield no end marker among their
/// tokens, and at most one token each.
proof fn lemma_tokens_before_end(stream: Seq<LexemeView>)
    requires
        forall|j: int| 0 <= j < stream.len() ==> !(#[trigger] stream[j]).is_end(),
    ensures
        tokens_in(stream).len() <= stream.len(),
        forall|i: int|
            0 <= i < tokens_in(stream).len() ==> #[trigger] tokens_in(stream)[i]
                != TokenView::EndOfInput,
    decreases stream.len(),
{
    if stream.len() > 0 {
        let front = stream.drop_last();
        assert forall|j: int| 0 <= j < front.len() implies !(#[trigger] front[j]).is_end() by {
            assert(front[j] == stream[j]);
        }
        lemma_tokens_before_end(front);
        assert(!stream[stream.len() - 1].is_end());
    }
}

/// The tokens of every scan end in the end marker, which occurs exactly
/// once; there is at most one token for each character of the input beside
/// it.
pub proof fn lemma_tokens_end_once(s: Seq<char>)
    ensures
        1 <= tokens_in(lexemes(s, 0)).len() <= s.len() + 1,
        tokens_in(lexemes(s, 0)).last() == TokenView::EndOfInput,
        forall|i: int|
            0 <= i < tokens_in(lexemes(s, 0)).len() - 1 ==> #[trigger] tokens_in(lexemes(s, 0))[i]
                != TokenView::EndOfInput,
{
    lemma_scan_is_finite(s, 0);
    let stream = lexemes(s, 0);
    let front = stream.drop_last();
    assert forall|j: int| 0 <= j < front.len() implies !(#[trigger] front[j]).is_end() by {
        assert(front[j] == stream[j]);
    }
    lemma_tokens_before_end(front);
    assert(tokens_in(stream) == tokens_in(front).push(TokenView::EndOfInput));
}

/// Repeated calls yield the stream of lexemes in order and then the end
/// marker for ever: call number `n`, counted from zero, yields the `n`-th
/// lexeme of the stream while there is one, the end marker from the last
/// element of the stream on, and leaves a scanner that is done and changes
/// no more.
pub proof fn lemma_calls_yield_stream(v: ScannerView, n: nat)
    requires
        v.wf(),
    ensures
        v.after(n).wf(),
        v.after(n).input == v.input,
        n < lexemes(v.input, v.pos as int).len() ==> v.after(n).lexeme() == lexemes(
            v.input,
            v.pos as int,
        )[n as int],
        n >= lexemes(v.input, v.pos as int).len() - 1 ==> v.after(n).lexeme().is_end(),
        n >= lexemes(v.input, v.pos as int).len() ==> v.after(n).done,
        v.done ==> v.after(n) == v,
    decreases n,
{
    lemma_lexeme_bounds(v.input, v.pos as int);
    lemma_scan_is_finite(v.input, v.pos as int);
    if n > 0 {
        let lexeme = v.lexeme();
        let stream = lexemes(v.input, v.pos as int);
        let rest = lexemes(v.input, lexeme.end);
        lemma_calls_yield_stream(v.next(), (n - 1) as nat);
        if !lexeme.is_end() {
            assert(stream == seq![lexeme] + rest);
            if n < stream.len() {
                assert(stream[n as int] == rest[n - 1]);
            }
        }
    }
}

/// Across any sequence of calls the position never decreases and never
/// exceeds the length of the input.
pub proof fn lemma_position_is_monotonic(v: ScannerView, m: nat, n: nat)
    requires
        v.wf(),
        m <= n,
    ensures
        v.pos <= v.after(m).pos <= v.after(n).pos <= v.input.len(),
    decreases m, n,
{
    lemma_calls_yield_stream(v, n);
    lemma_lexeme_bounds(v.input, v.pos as int);
    if m > 0 {
        lemma_calls_yield_stream(v.next(), 0);
        lemma_position_is_monotonic(v.next(), (m - 1) as nat, (n - 1) as nat);
    } else if n > 0 {
        lemma_calls_yield_stream(v.next(), 0);
        lemma_position_is_monotonic(v.next(), 0, (n - 1) as nat);
    }
}

/// Once a call has yielded the end marker, every later call yields it again
/// and leaves the scanner as the first such call left it.
pub proof fn lemma_end_is_absorbing(v: ScannerView, n: nat)
    requires
        v.wf(),
        v.lexeme().is_end(),
    ensures
        v.after(n).lexeme().is_end(),
        n >= 1 ==> v.after(n) == v.next() && v.after(n).done,
{
    lemma_lexeme_bounds(v.input, v.pos as int);
    lemma_calls_yield_stream(v, n);
    if n >= 1 {
        lemma_calls_yield_stream(v.next(), (n - 1) as nat);
    }
}

/// A text with its whitespace removed.
pub open spec fn strip(s: Seq<char>) -> Seq<char>
    decreases s.len(),
{
    if s.len() == 0 {
        s
    } else if is_space(s.last()) {
        strip(s.drop_last())
    } else {
        strip(s.drop_last()).push(s.last())
    }
}

/// The concatenation of the spans of a sequence of lexemes of `s`.
pub open spec fn spanned_text(s: Seq<char>, stream: Seq<LexemeView>) -> Seq<char>
    decreases stream.len(),
{
    if stream.len() == 0 {
        Seq::empty()
    } else {
        stream.first().text(s) + spanned_text(s, stream.drop_first())
    }
}

/// Whether the span of a lexeme of `s` holds no whitespace.
pub open spec fn is_solid(s: Seq<char>, lexeme: LexemeView) -> bool {
    forall|i: int| lexeme.start <= i < lexeme.end ==> !is_space(#[trigger] s[i])
}

/// Removing whitespace from a concatenation removes it from each part.
proof fn lemma_strip_concat(a: Seq<char>, b: Seq<char>)
    ensures
        strip(a + b) == strip(a) + strip(b),
    decreases b.len(),
{
    if b.len() == 0 {
        assert(a + b == a);
    } else {
        assert((a + b).drop_last() == a + b.drop_last());
        lemma_strip_concat(a, b.drop_last());
    }
}

/// Nothing is left of a text that is all whitespace.
proof fn lemma_strip_spaces(a: Seq<char>)
    requires
        forall|i: int| 0 <= i < a.len() ==> is_space(#[trigger] a[i]),
    ensures
        strip(a) == Seq::<char>::empty(),
    decreases a.len(),
{
    if a.len() > 0 {
        lemma_strip_spaces(a.drop_last());
    }
}

/// A text without whitespace is left as it is.
proof fn lemma_strip_solid(a: Seq<char>)
    requires
        forall|i: int| 0 <= i < a.len() ==> !is_space(#[trigger] a[i]),
    ensures
        strip(a) == a,
    decreases a.len(),
{
    if a.len() > 0 {
        lemma_strip_solid(a.drop_last());
    }
}

/// The spans of the lexemes from `pos` on differ from the rest of the input
/// only in whitespace.
proof fn lemma_stream_covers_rest(s: Seq<char>, pos: int)
    requires
        0 <= pos <= s.len(),
    ensures
        strip(spanned_text(s, lexemes(s, pos))) == strip(s.subrange(pos, s.len() as int)),
    decreases s.len() - pos,
{
    lemma_lexeme_bounds(s, pos);
    let lexeme = lexeme_at(s, pos);
    let stream = lexemes(s, pos);
    let gap = s.subrange(pos, lexeme.start);
    let text = lexeme.text(s);
    let tail = s.subrange(lexeme.end, s.len() as int);
    assert(s.subrange(pos, s.len() as int) == gap + (text + tail));
    lemma_strip_spaces(gap);
    lemma_strip_concat(gap, text + tail);
    lemma_strip_concat(text, tail);
    assert(strip(s.subrange(pos, s.len() as int)) == strip(text) + strip(tail));
    if lexeme.is_end() {
        assert(stream.drop_first() == Seq::<LexemeView>::empty());
        assert(spanned_text(s, stream.drop_first()) == Seq::<char>::empty());
        assert(spanned_text(s, stream) == text);
        assert(strip(text) + strip(tail) == strip(text));
    } else {
        let rest = lexemes(s, lexeme.end);
        assert(stream.drop_first() == rest);
        lemma_stream_covers_rest(s, lexeme.end);
        lemma_strip_concat(text, spanned_text(s, rest));
    }
}

/// The spans of the lexemes of an input, concatenated, hold every character
/// of the input that is not whitespace, in order: they differ from the input
/// only in whitespace. The span of a string literal that the input ends in
/// counts among them.
pub proof fn lemma_spans_cover_input(s: Seq<char>)
    ensures
        strip(spanned_text(s, lexemes(s, 0))) == strip(s),
{
    lemma_stream_covers_rest(s, 0);
    assert(s.subrange(0, s.len() as int) == s);
}

/// Spans without whitespace, concatenated, hold no whitespace.
proof fn lemma_solid_spans(s: Seq<char>, pos: int)
    requires
        0 <= pos <= s.len(),
        forall|i: int| 0 <= i < lexemes(s, pos).len() ==> is_solid(s, #[trigger] lexemes(s, pos)[i]),
    ensures
        strip(spanned_text(s, lexemes(s, pos))) == spanned_text(s, lexemes(s, pos)),
    decreases s.len() - pos,
{
    lemma_lexeme_bounds(s, pos);
    let lexeme = lexeme_at(s, pos);
    let stream = lexemes(s, pos);
    let text = lexeme.text(s);
    assert(stream[0] == lexeme);
    assert(is_solid(s, lexeme));
    assert forall|i: int| 0 <= i < text.len() implies !is_space(#[trigger] text[i]) by {
        assert(text[i] == s[lexeme.start + i]);
    }
    lemma_strip_solid(text);
    if lexeme.is_end() {
        assert(stream.drop_first() == Seq::<LexemeView>::empty());
        assert(spanned_text(s, stream.drop_first()) == Seq::<char>::empty());
        assert(spanned_text(s, stream) == text);
    } else {
        let rest = lexemes(s, lexeme.end);
        assert(stream.drop_first() == rest);
        assert forall|i: int| 0 <= i < rest.len() implies is_solid(s, #[trigger] rest[i]) by {
            assert(rest[i] == stream[i + 1]);
        }
        lemma_solid_spans(s, lexeme.end);
        lemma_strip_concat(text, spanned_text(s, rest));
    }
}

/// Where no lexeme of an input holds whitespace within its span, the spans
/// concatenated are exactly the input with its whitespace removed. Only a
/// string literal can hold whitespace within its span.
pub proof fn lemma_spans_reconstruct_input(s: Seq<char>)
    requires
        forall|i: int| 0 <= i < lexemes(s, 0).len() ==> is_solid(s, #[trigger] lexemes(s, 0)[i]),
    ensures
        spanned_text(s, lexemes(s, 0)) == strip(s),
{
    lemma_solid_spans(s, 0);
    lemma_spans_cover_input(s);
}

} // verus!
