//! Character classes. The classes are ASCII-only and pairwise disjoint; any
//! character outside all of them is reported by the scanner as unknown.

use vstd::prelude::*;

verus! {

/// Space, tab, line feed, form feed and carriage return.
pub open spec fn is_space(c: char) -> bool {
    c == ' ' || c == '\t' || c == '\n' || c == '\x0c' || c == '\r'
}

/// The decimal digits `0` to `9`.
pub open spec fn is_digit(c: char) -> bool {
    '0' <= c <= '9'
}

/// An ASCII letter or an underscore: what an identifier may start with.
pub open spec fn is_ident_start(c: char) -> bool {
    'a' <= c <= 'z' || 'A' <= c <= 'Z' || c == '_'
}

/// What an identifier may continue with: a letter, a digit or an underscore.
pub open spec fn is_ident_part(c: char) -> bool {
    is_ident_start(c) || is_digit(c)
}

/// One of the four single-character operators.
pub open spec fn is_operator(c: char) -> bool {
    c == '+' || c == '-' || c == '*' || c == '/'
}

/// The numeric value of a decimal digit.
pub open spec fn digit_value(c: char) -> int {
    c as int - '0' as int
}

/// The class that decides how a lexeme starting with a character is scanned.
#[derive(Clone, Copy, Debug, PartialEq, Eq, Structural)]
pub enum CharClass {
    Space,
    Digit,
    IdentStart,
    Quote,
    Operator,
    Other,
}

/// The class of a character. Exactly one class applies to each character.
pub open spec fn class_of(c: char) -> CharClass {
    if is_space(c) {
        CharClass::Space
    } else if is_digit(c) {
        CharClass::Digit
    } else if is_ident_start(c) {
        CharClass::IdentStart
    } else if c == '"' {
        CharClass::Quote
    } else if is_operator(c) {
        CharClass::Operator
    } else {
        CharClass::Other
    }
}

pub fn char_is_space(c: char) -> (b: bool)
    ensures
        b == is_space(c),
{
    c == ' ' || c == '\t' || c == '\n' || c == '\x0c' || c == '\r'
}

pub fn char_is_digit(c: char) -> (b: bool)
    ensures
        b == is_digit(c),
{
    '0' <= c && c <= '9'
}

pub fn char_is_ident_start(c: char) -> (b: bool)
    ensures
        b == is_ident_start(c),
{
    ('a' <= c && c <= 'z') || ('A' <= c && c <= 'Z') || c == '_'
}

pub fn char_is_ident_part(c: char) -> (b: bool)
    ensures
        b == is_ident_part(c),
{
    char_is_ident_start(c) || char_is_digit(c)
}

/// The value of a decimal digit, between 0 and 9.
pub fn char_digit_value(c: char) -> (d: i64)
    requires
        is_digit(c),
    ensures
        d == digit_value(c),
        0 <= d <= 9,
{
    (c as u32 - '0' as u32) as i64
}

/// Classifies a character.
pub fn classify(c: char) -> (class: CharClass)
    ensures
        class == class_of(c),
{
    if char_is_space(c) {
        CharClass::Space
    } else if char_is_digit(c) {
        CharClass::Digit
    } else if char_is_ident_start(c) {
        CharClass::IdentStart
    } else if c == '"' {
        CharClass::Quote
    } else if c == '+' || c == '-' || c == '*' || c == '/' {
        CharClass::Operator
    } else {
        CharClass::Other
    }
}

/// The classes are mutually exclusive: a character of one class is in no
/// other, and a character in none of them is `Other`.
pub proof fn lemma_classes_disjoint(c: char)
    ensures
        is_space(c) <==> class_of(c) == CharClass::Space,
        is_digit(c) <==> class_of(c) == CharClass::Digit,
        is_ident_start(c) <==> class_of(c) == CharClass::IdentStart,
        c == '"' <==> class_of(c) == CharClass::Quote,
        is_operator(c) <==> class_of(c) == CharClass::Operator,
{
}

} // verus!
