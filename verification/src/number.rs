//! Reading a 32-bit integer from its decimal notation.

use vstd::prelude::*;
use crate::classes::{char_digit_value, char_is_digit, is_digit};
use crate::cursor::Cursor;
use crate::grammar::decimal_value;
use crate::text::{push_text, string_from_chars};

verus! {

/// The result of reading a number: the number, or why there is none.
#[derive(Clone, Debug, PartialEq, Eq)]
pub enum ParseResult {
    Success(i32),
    Error(String),
}

/// What a result of reading a number is, mathematically.
pub enum ParseResultView {
    Success(int),
    Error(Seq<char>),
}

impl View for ParseResult {
    type V = ParseResultView;

    open spec fn view(&self) -> ParseResultView {
        match self {
            ParseResult::Success(n) => ParseResultView::Success(*n as int),
            ParseResult::Error(message) => ParseResultView::Error(message@),
        }
    }
}

/// Whether a text is a sequence of one or more decimal digits.
pub open spec fn is_digits(s: Seq<char>) -> bool {
    &&& s.len() > 0
    &&& forall|i: int| 0 <= i < s.len() ==> is_digit(#[trigger] s[i])
}

/// Whether a text begins with a sign.
pub open spec fn has_sign(s: Seq<char>) -> bool {
    s.len() > 0 && (s[0] == '-' || s[0] == '+')
}

/// The 32-bit integer that a text denotes: an optional sign, `+` or `-`,
/// then one or more decimal digits and nothing else, with a value that fits
/// in 32 bits. Any other text denotes none.
pub open spec fn parsed_i32(s: Seq<char>) -> Option<int> {
    let digits = if has_sign(s) {
        s.subrange(1, s.len() as int)
    } else {
        s
    };
    let value = if has_sign(s) && s[0] == '-' {
        -decimal_value(digits)
    } else {
        decimal_value(digits)
    };
    if is_digits(digits) && i32::MIN <= value <= i32::MAX {
        Some(value)
    } else {
        None
    }
}

/// The result of reading a number from a text: the number that the text
/// denotes, or a message that quotes the text.
pub open spec fn parse_outcome(s: Seq<char>) -> ParseResultView {
    match parsed_i32(s) {
        Some(n) => ParseResultView::Success(n),
        None => ParseResultView::Error("'"@ + s + "' is not a valid number"@),
    }
}

/// The value of a sequence of digits is at least the value of each of its
/// prefixes, and not negative.
proof fn lemma_decimal_value_grows(digits: Seq<char>, k: int)
    requires
        0 <= k <= digits.len(),
        forall|i: int| 0 <= i < digits.len() ==> is_digit(#[trigger] digits[i]),
    ensures
        0 <= decimal_value(digits.take(k)) <= decimal_value(digits),
    decreases digits.len(),
{
    if digits.len() == 0 {
        assert(digits.take(k) == digits);
    } else if k == digits.len() {
        assert(digits.take(k) == digits);
        lemma_decimal_value_grows(digits.drop_last(), 0);
    } else {
        assert(digits.drop_last().take(k) == digits.take(k));
        lemma_decimal_value_grows(digits.drop_last(), k);
    }
}

/// Reads the 32-bit integer that a text denotes, if it denotes one.
pub fn parse_i32(s: &str) -> (result: Option<i32>)
    ensures
        match result {
            Some(n) => parsed_i32(s@) == Some(n as int),
            None => parsed_i32(s@) is None,
        },
{
    let mut cursor = Cursor::from_text(s);
    let negative = match cursor.peek() {
        Some(c) => {
            if c == '-' || c == '+' {
                cursor.advance();
                c == '-'
            } else {
                false
            }
        },
        None => false,
    };
    let start = cursor.position();
    let ghost digits = s@.subrange(start as int, s@.len() as int);
    let mut magnitude: i64 = 0;
    loop
        invariant
            cursor@.input == s@,
            cursor@.in_bounds(),
            start <= cursor@.pos,
            start == if has_sign(s@) { 1int } else { 0int },
            negative == (has_sign(s@) && s@[0] == '-'),
            digits == s@.subrange(start as int, s@.len() as int),
            forall|i: int| start <= i < cursor@.pos ==> is_digit(#[trigger] s@[i]),
            magnitude == decimal_value(s@.subrange(start as int, cursor@.pos as int)),
            0 <= magnitude <= 2147483648,
        ensures
            cursor@.pos == s@.len(),
        decreases s@.len() - cursor@.pos,
    {
        let ghost pos = cursor@.pos as int;
        match cursor.advance() {
            None => {
                break ;
            },
            Some(c) => {
                if !char_is_digit(c) {
                    assert(!is_digit(digits[pos - start]));
                    return None;
                }
                proof {
                    let read = s@.subrange(start as int, pos);
                    let more = s@.subrange(start as int, pos + 1);
                    assert(more.drop_last() == read);
                    assert(more.last() == c);
                }
                magnitude = magnitude * 10 + char_digit_value(c);
                if magnitude > 2147483648 {
                    proof {
                        assert(digits == if has_sign(s@) {
                            s@.subrange(1, s@.len() as int)
                        } else {
                            s@
                        });
                        if is_digits(digits) {
                            assert(digits.take(pos + 1 - start) == s@.subrange(
                                start as int,
                                pos + 1,
                            ));
                            lemma_decimal_value_grows(digits, pos + 1 - start);
                            assert(decimal_value(digits) > 2147483648);
                        }
                    }
                    return None;
                }
            },
        }
    }
    proof {
        assert(s@.subrange(start as int, cursor@.pos as int) == digits);
        assert(magnitude == decimal_value(digits));
        assert forall|i: int| 0 <= i < digits.len() implies is_digit(#[trigger] digits[i]) by {
            assert(digits[i] == s@[start + i]);
        }
        assert(is_digits(digits) <==> digits.len() > 0);
        assert(digits == if has_sign(s@) { s@.subrange(1, s@.len() as int) } else { s@ });
    }
    if start == cursor.position() {
        None
    } else if negative {
        Some((-magnitude) as i32)
    } else if magnitude > 2147483647 {
        None
    } else {
        Some(magnitude as i32)
    }
}

/// Reads a number from a text. A text that denotes no 32-bit integer gives
/// an error whose message quotes the text.
pub fn parse_number(s: &str) -> (result: ParseResult)
    ensures
        result@ == parse_outcome(s@),
{
    match parse_i32(s) {
        Some(n) => ParseResult::Success(n),
        None => {
            let mut buffer: Vec<char> = Vec::new();
            push_text(&mut buffer, "'");
            push_text(&mut buffer, s);
            push_text(&mut buffer, "' is not a valid number");
            ParseResult::Error(string_from_chars(&buffer))
        },
    }
}

} // verus!
