//! Building text: characters collected in a vector and turned into a string,
//! and the decimal notation of integers.

use vstd::prelude::*;

verus! {

/// Collects characters into a `String` with `String::from_iter`: the string
/// holds exactly the given characters, in order.
#[verifier::external_body]
pub(crate) fn string_from_chars(chars: &Vec<char>) -> (text: String)
    ensures
        text@ == chars@,
{
    String::from_iter(chars.iter())
}

/// Appends the characters of `text` to `buffer`.
pub fn push_text(buffer: &mut Vec<char>, text: &str)
    ensures
        final(buffer)@ == old(buffer)@ + text@,
{
    let ghost before = buffer@;
    for c in it: text.chars()
        invariant
            it.seq() == text@,
            buffer@ == before + it.seq().take(it.index() as int),
    {
        buffer.push(c);
    }
}

/// The character of a decimal digit.
pub open spec fn digit_char(d: int) -> char {
    if d == 0 {
        '0'
    } else if d == 1 {
        '1'
    } else if d == 2 {
        '2'
    } else if d == 3 {
        '3'
    } else if d == 4 {
        '4'
    } else if d == 5 {
        '5'
    } else if d == 6 {
        '6'
    } else if d == 7 {
        '7'
    } else if d == 8 {
        '8'
    } else {
        '9'
    }
}

/// The decimal notation of a natural number, without leading zeros.
pub open spec fn digits_text(n: nat) -> Seq<char>
    decreases n,
{
    if n < 10 {
        seq![digit_char(n as int)]
    } else {
        digits_text(n / 10).push(digit_char((n % 10) as int))
    }
}

/// The decimal notation of an integer: a minus sign before the digits of a
/// negative number.
pub open spec fn decimal_text(n: int) -> Seq<char> {
    if n < 0 {
        seq!['-'] + digits_text((-n) as nat)
    } else {
        digits_text(n as nat)
    }
}

/// The character of a decimal digit.
pub fn digit_to_char(d: u64) -> (c: char)
    requires
        d < 10,
    ensures
        c == digit_char(d as int),
{
    if d == 0 {
        '0'
    } else if d == 1 {
        '1'
    } else if d == 2 {
        '2'
    } else if d == 3 {
        '3'
    } else if d == 4 {
        '4'
    } else if d == 5 {
        '5'
    } else if d == 6 {
        '6'
    } else if d == 7 {
        '7'
    } else if d == 8 {
        '8'
    } else {
        '9'
    }
}

/// Appends the decimal notation of `n` to `buffer`.
pub fn push_decimal(buffer: &mut Vec<char>, n: i64)
    ensures
        final(buffer)@ == old(buffer)@ + decimal_text(n as int),
{
    let ghost before = buffer@;
    let magnitude: u64 = if n < 0 {
        buffer.push('-');
        (-(n + 1)) as u64 + 1
    } else {
        n as u64
    };
    let ghost prefix = buffer@;
    let at = buffer.len();
    let mut rest = magnitude;
    while rest >= 10
        invariant
            at == prefix.len(),
            buffer@.len() >= at,
            buffer@.subrange(0, at as int) == prefix,
            digits_text(magnitude as nat) == digits_text(rest as nat) + buffer@.subrange(
                at as int,
                buffer@.len() as int,
            ),
        decreases rest,
    {
        let ghost low = buffer@.subrange(at as int, buffer@.len() as int);
        buffer.insert(at, digit_to_char(rest % 10));
        proof {
            let digit = digit_char((rest % 10) as int);
            assert(buffer@.subrange(at as int, buffer@.len() as int) == seq![digit] + low);
            assert(digits_text(rest as nat) + low == digits_text((rest / 10) as nat) + (seq![digit]
                + low));
        }
        rest = rest / 10;
    }
    let ghost low = buffer@.subrange(at as int, buffer@.len() as int);
    buffer.insert(at, digit_to_char(rest));
    proof {
        assert(buffer@.subrange(at as int, buffer@.len() as int) == digits_text(rest as nat) + low);
        assert(buffer@ == prefix + digits_text(magnitude as nat));
    }
}

/// The decimal notation of `n`.
pub fn decimal_string(n: i64) -> (text: String)
    ensures
        text@ == decimal_text(n as int),
{
    let mut buffer: Vec<char> = Vec::new();
    push_decimal(&mut buffer, n);
    string_from_chars(&buffer)
}

} // verus!
