//! The lexical grammar, stated over sequences of characters: where a run of
//! one character class ends, what a run of digits is worth, where a string
//! literal closes and what it decodes to, and which lexeme stands at a
//! position.

use vstd::prelude::*;
use crate::classes::{
    char_is_digit, char_is_ident_part, char_is_space, class_of, digit_value, is_digit,
    is_ident_part, is_space, CharClass,
};
use crate::token::{LexemeView, ScanError, TokenView};

verus! {

/// The kinds of maximal runs that the scanner reads.
#[derive(Clone, Copy, Debug, PartialEq, Eq, Structural)]
pub enum Run {
    Spaces,
    Digits,
    Name,
}

impl Run {
    /// Whether a character belongs to a run of this kind.
    pub open spec fn admits(self, c: char) -> bool {
        match self {
            Run::Spaces => is_space(c),
            Run::Digits => is_digit(c),
            Run::Name => is_ident_part(c),
        }
    }

    /// Whether a character belongs to a run of this kind.
    pub fn accepts(self, c: char) -> (b: bool)
        ensures
            b == self.admits(c),
    {
        match self {
            Run::Spaces => char_is_space(c),
            Run::Digits => char_is_digit(c),
            Run::Name => char_is_ident_part(c),
        }
    }
}

/// Whether `[from, end)` is the maximal run of `run` in `s` that starts at
/// `from`: every character in it belongs to the run, and the run cannot be
/// extended.
pub open spec fn is_maximal_run(s: Seq<char>, run: Run, from: int, end: int) -> bool {
    &&& 0 <= from <= end <= s.len()
    &&& forall|i: int| from <= i < end ==> run.admits(#[trigger] s[i])
    &&& end < s.len() ==> !run.admits(s[end])
}

/// The end of the maximal run of `run` in `s` that starts at `from`.
pub open spec fn run_end(s: Seq<char>, run: Run, from: int) -> int
    decreases s.len() - from,
{
    if 0 <= from < s.len() && run.admits(s[from]) {
        run_end(s, run, from + 1)
    } else {
        from
    }
}

/// `run_end` is the end of the maximal run.
pub proof fn lemma_run_end_is_maximal(s: Seq<char>, run: Run, from: int)
    requires
        0 <= from <= s.len(),
    ensures
        is_maximal_run(s, run, from, run_end(s, run, from)),
    decreases s.len() - from,
{
    if from < s.len() && run.admits(s[from]) {
        lemma_run_end_is_maximal(s, run, from + 1);
    }
}

/// A maximal run has one end only.
pub proof fn lemma_maximal_run_unique(s: Seq<char>, run: Run, from: int, end: int)
    requires
        is_maximal_run(s, run, from, end),
    ensures
        end == run_end(s, run, from),
    decreases end - from,
{
    if from < end {
        assert(run.admits(s[from]));
        lemma_maximal_run_unique(s, run, from + 1, end);
    }
}

/// The number that a sequence of decimal digits denotes.
pub open spec fn decimal_value(digits: Seq<char>) -> int
    decreases digits.len(),
{
    if digits.len() == 0 {
        0
    } else {
        10 * decimal_value(digits.drop_last()) + digit_value(digits.last())
    }
}

/// The largest value a number token carries.
pub open spec fn number_max() -> int {
    i64::MAX as int
}

/// A numeric value as a number token carries it: values beyond `i64::MAX`
/// saturate there.
pub open spec fn saturate(value: int) -> int {
    if value > number_max() {
        number_max()
    } else {
        value
    }
}

/// Inside a string literal a backslash escapes the character after it. The
/// letters `n`, `t`, `r` and the digit `0` stand for line feed, tab, carriage
/// return and the null character; any other escaped character stands for
/// itself, so `\"` is a quote and `\\` a backslash.
pub open spec fn unescape(c: char) -> char {
    if c == 'n' {
        '\n'
    } else if c == 't' {
        '\t'
    } else if c == 'r' {
        '\r'
    } else if c == '0' {
        '\0'
    } else {
        c
    }
}

/// The decoded value of an escaped character.
pub fn unescape_char(c: char) -> (decoded: char)
    ensures
        decoded == unescape(c),
{
    if c == 'n' {
        '\n'
    } else if c == 't' {
        '\t'
    } else if c == 'r' {
        '\r'
    } else if c == '0' {
        '\0'
    } else {
        c
    }
}

/// The offset of the first unescaped double quote at or after `from`, where
/// `from` is not itself escaped; `None` if the input ends before one.
pub open spec fn closing_quote(s: Seq<char>, from: int) -> Option<int>
    decreases s.len() - from,
{
    if from < 0 || from >= s.len() {
        None
    } else if s[from] == '"' {
        Some(from)
    } else if s[from] == '\\' {
        if from + 1 < s.len() {
            closing_quote(s, from + 2)
        } else {
            None
        }
    } else {
        closing_quote(s, from + 1)
    }
}

/// A closing quote stands at or after the offset that the search began at,
/// within the input, and is a double quote.
pub proof fn lemma_closing_quote_bounds(s: Seq<char>, from: int)
    ensures
        closing_quote(s, from) matches Some(close) ==> from <= close < s.len() && s[close] == '"',
    decreases s.len() - from,
{
    if 0 <= from < s.len() && s[from] != '"' {
        if s[from] == '\\' {
            if from + 1 < s.len() {
                lemma_closing_quote_bounds(s, from + 2);
            }
        } else {
            lemma_closing_quote_bounds(s, from + 1);
        }
    }
}

/// The decoded contents of the raw text `s[from..to)` of a string literal.
pub open spec fn decode(s: Seq<char>, from: int, to: int) -> Seq<char>
    decreases to - from,
{
    if from < 0 || from >= to || to > s.len() {
        Seq::empty()
    } else if s[from] == '\\' && from + 1 < to {
        seq![unescape(s[from + 1])] + decode(s, from + 2, to)
    } else {
        seq![s[from]] + decode(s, from + 1, to)
    }
}

/// The token of a single-character operator.
pub open spec fn operator_token(c: char) -> TokenView {
    if c == '+' {
        TokenView::Plus
    } else if c == '-' {
        TokenView::Minus
    } else if c == '*' {
        TokenView::Star
    } else {
        TokenView::Slash
    }
}

/// The lexeme that starts at `start`, decided by the class of the character
/// there. `start` is the offset of a character that is not whitespace.
pub open spec fn lexeme_from(s: Seq<char>, start: int) -> LexemeView {
    let c = s[start];
    match class_of(c) {
        CharClass::Digit => {
            let end = run_end(s, Run::Digits, start);
            LexemeView {
                start,
                end,
                outcome: Ok(TokenView::Number(saturate(decimal_value(s.subrange(start, end))))),
            }
        },
        CharClass::IdentStart => {
            let end = run_end(s, Run::Name, start);
            LexemeView { start, end, outcome: Ok(TokenView::Identifier(s.subrange(start, end))) }
        },
        CharClass::Quote => match closing_quote(s, start + 1) {
            Some(close) => LexemeView {
                start,
                end: close + 1,
                outcome: Ok(TokenView::StringLiteral(decode(s, start + 1, close))),
            },
            None => LexemeView {
                start,
                end: s.len() as int,
                outcome: Err(ScanError::UnterminatedString { start: start as usize }),
            },
        },
        CharClass::Operator => LexemeView { start, end: start + 1, outcome: Ok(operator_token(c)) },
        _ => LexemeView { start, end: start + 1, outcome: Ok(TokenView::Unknown(c)) },
    }
}

/// The lexeme that a scan at offset `pos` yields: whitespace is skipped, then
/// either the input has ended, or the lexeme at the first character that is
/// not whitespace is read.
pub open spec fn lexeme_at(s: Seq<char>, pos: int) -> LexemeView {
    let start = run_end(s, Run::Spaces, pos);
    if start >= s.len() {
        LexemeView { start, end: start, outcome: Ok(TokenView::EndOfInput) }
    } else {
        lexeme_from(s, start)
    }
}

/// Where the lexeme at a position lies: after a maximal run of whitespace,
/// within the input, and over at least one character unless it is the end
/// marker, which stands at the end of the input and nowhere else.
pub proof fn lemma_lexeme_bounds(s: Seq<char>, pos: int)
    requires
        0 <= pos <= s.len(),
    ensures
        ({
            let lexeme = lexeme_at(s, pos);
            &&& is_maximal_run(s, Run::Spaces, pos, lexeme.start)
            &&& lexeme.start <= lexeme.end <= s.len()
            &&& lexeme.is_end() <==> lexeme.start == s.len()
            &&& lexeme.is_end() <==> lexeme.start == lexeme.end
            &&& lexeme.outcome is Err ==> lexeme.end == s.len()
        }),
{
    lemma_run_end_is_maximal(s, Run::Spaces, pos);
    let start = run_end(s, Run::Spaces, pos);
    if start < s.len() {
        lemma_run_end_is_maximal(s, Run::Digits, start);
        lemma_run_end_is_maximal(s, Run::Name, start);
        lemma_closing_quote_bounds(s, start + 1);
    }
}

} // verus!
