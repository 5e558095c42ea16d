use tokenizer::grammar::unescape_char;
use tokenizer::scanner::Scanner;
use tokenizer::stream::{tokenize, Scan};
use tokenizer::token::{Lexeme, ScanError, Token};

fn ident(name: &str) -> Token {
    Token::Identifier(name.to_string())
}

fn text(content: &str) -> Token {
    Token::StringLiteral(content.to_string())
}

fn ok(tokens: Vec<Token>) -> Scan {
    Scan { tokens, failure: None }
}

#[test]
fn scans_numbers_and_operators() {
    assert_eq!(
        tokenize("12 + 34 - 5"),
        ok(vec![
            Token::Number(12),
            Token::Plus,
            Token::Number(34),
            Token::Minus,
            Token::Number(5),
            Token::EndOfInput,
        ])
    );
}

#[test]
fn scans_identifier_with_digits_and_underscore() {
    assert_eq!(
        tokenize("foo_1 + 2"),
        ok(vec![ident("foo_1"), Token::Plus, Token::Number(2), Token::EndOfInput])
    );
}

#[test]
fn scans_string_literal() {
    assert_eq!(tokenize("\"hi\""), ok(vec![text("hi"), Token::EndOfInput]));
}

#[test]
fn unknown_characters_do_not_stop_the_scan() {
    assert_eq!(
        tokenize("@@"),
        ok(vec![Token::Unknown('@'), Token::Unknown('@'), Token::EndOfInput])
    );
    assert_eq!(
        tokenize("a # 1"),
        ok(vec![ident("a"), Token::Unknown('#'), Token::Number(1), Token::EndOfInput])
    );
}

#[test]
fn empty_input_yields_only_the_end_marker() {
    assert_eq!(tokenize(""), ok(vec![Token::EndOfInput]));
    assert_eq!(tokenize(" \t\r\n\x0c"), ok(vec![Token::EndOfInput]));
}

#[test]
fn unterminated_string_is_reported_and_yields_no_literal() {
    assert_eq!(
        tokenize("\"unterminated"),
        Scan {
            tokens: vec![Token::EndOfInput],
            failure: Some(ScanError::UnterminatedString { start: 0 }),
        }
    );
    let mut scanner = Scanner::new("\"unterminated");
    assert_eq!(scanner.next_token(), Err(ScanError::UnterminatedString { start: 0 }));
    assert!(!scanner.is_done());
    assert_eq!(scanner.next_token(), Ok(Token::EndOfInput));
    assert!(scanner.is_done());
}

#[test]
fn unterminated_string_keeps_the_tokens_before_it() {
    assert_eq!(
        tokenize("x = \"abc"),
        Scan {
            tokens: vec![ident("x"), Token::Unknown('='), Token::EndOfInput],
            failure: Some(ScanError::UnterminatedString { start: 4 }),
        }
    );
}

#[test]
fn backslash_at_end_of_input_leaves_the_string_unterminated() {
    assert_eq!(
        tokenize("\"abc\\"),
        Scan {
            tokens: vec![Token::EndOfInput],
            failure: Some(ScanError::UnterminatedString { start: 0 }),
        }
    );
    assert_eq!(
        tokenize("\"abc\\\""),
        Scan {
            tokens: vec![Token::EndOfInput],
            failure: Some(ScanError::UnterminatedString { start: 0 }),
        }
    );
}

#[test]
fn all_four_operators() {
    assert_eq!(
        tokenize("+-*/"),
        ok(vec![Token::Plus, Token::Minus, Token::Star, Token::Slash, Token::EndOfInput])
    );
}

#[test]
fn adjacent_lexemes_need_no_whitespace() {
    assert_eq!(
        tokenize("a1+22b\"s\"c"),
        ok(vec![
            ident("a1"),
            Token::Plus,
            Token::Number(22),
            ident("b"),
            text("s"),
            ident("c"),
            Token::EndOfInput,
        ])
    );
}

#[test]
fn identifier_may_start_with_underscore_or_capital() {
    assert_eq!(
        tokenize("_x Y9 __"),
        ok(vec![ident("_x"), ident("Y9"), ident("__"), Token::EndOfInput])
    );
}

#[test]
fn number_keeps_leading_zeros_out_of_the_value() {
    assert_eq!(tokenize("007"), ok(vec![Token::Number(7), Token::EndOfInput]));
    assert_eq!(tokenize("0"), ok(vec![Token::Number(0), Token::EndOfInput]));
}

#[test]
fn number_saturates_at_the_largest_value() {
    assert_eq!(
        tokenize("9223372036854775807"),
        ok(vec![Token::Number(i64::MAX), Token::EndOfInput])
    );
    assert_eq!(
        tokenize("9223372036854775806"),
        ok(vec![Token::Number(i64::MAX - 1), Token::EndOfInput])
    );
    assert_eq!(
        tokenize("9223372036854775808"),
        ok(vec![Token::Number(i64::MAX), Token::EndOfInput])
    );
    assert_eq!(
        tokenize("99999999999999999999999999 1"),
        ok(vec![Token::Number(i64::MAX), Token::Number(1), Token::EndOfInput])
    );
}

#[test]
fn string_escapes_are_decoded() {
    assert_eq!(
        tokenize("\"a\\\"b\""),
        ok(vec![text("a\"b"), Token::EndOfInput])
    );
    assert_eq!(
        tokenize("\"a\\\\\" x"),
        ok(vec![text("a\\"), ident("x"), Token::EndOfInput])
    );
    assert_eq!(
        tokenize("\"l1\\nl2\\t\\r\\0\\q\""),
        ok(vec![text("l1\nl2\t\r\0q"), Token::EndOfInput])
    );
}

#[test]
fn unescape_char_decodes_the_named_escapes() {
    assert_eq!(unescape_char('n'), '\n');
    assert_eq!(unescape_char('t'), '\t');
    assert_eq!(unescape_char('r'), '\r');
    assert_eq!(unescape_char('0'), '\0');
    assert_eq!(unescape_char('"'), '"');
    assert_eq!(unescape_char('\\'), '\\');
    assert_eq!(unescape_char('x'), 'x');
}

#[test]
fn string_may_hold_whitespace_and_be_empty() {
    assert_eq!(
        tokenize("\"\" \"a b\""),
        ok(vec![text(""), text("a b"), Token::EndOfInput])
    );
}

#[test]
fn non_ascii_characters_are_unknown() {
    assert_eq!(
        tokenize("é1"),
        ok(vec![Token::Unknown('é'), Token::Number(1), Token::EndOfInput])
    );
    assert_eq!(
        tokenize("\u{a0}"),
        ok(vec![Token::Unknown('\u{a0}'), Token::EndOfInput])
    );
}

#[test]
fn end_marker_repeats_for_ever() {
    let mut scanner = Scanner::new("a ");
    assert_eq!(scanner.next_token(), Ok(ident("a")));
    assert!(!scanner.is_done());
    for _ in 0..5 {
        assert_eq!(scanner.next_token(), Ok(Token::EndOfInput));
        assert!(scanner.is_done());
        assert_eq!(scanner.position(), 2);
    }
}

#[test]
fn every_scan_ends_within_one_call_per_character() {
    let inputs = ["", "a", "1+2", "\"x", "@ @ @", "  ", "\"a\" \"b", "ab cd ef"];
    for input in inputs {
        let mut scanner = Scanner::new(input);
        let limit = input.chars().count() + 1;
        let mut calls = 0;
        loop {
            calls += 1;
            if scanner.next_token() == Ok(Token::EndOfInput) {
                break;
            }
            assert!(calls < limit);
        }
        assert_eq!(tokenize(input).tokens.last(), Some(&Token::EndOfInput));
    }
}

#[test]
fn lexemes_carry_their_spans() {
    let mut scanner = Scanner::new("  ab + \"c d\" ");
    assert_eq!(scanner.next_lexeme(), Lexeme { start: 2, end: 4, outcome: Ok(ident("ab")) });
    assert_eq!(scanner.position(), 4);
    assert_eq!(scanner.next_lexeme(), Lexeme { start: 5, end: 6, outcome: Ok(Token::Plus) });
    assert_eq!(scanner.next_lexeme(), Lexeme { start: 7, end: 12, outcome: Ok(text("c d")) });
    assert_eq!(
        scanner.next_lexeme(),
        Lexeme { start: 13, end: 13, outcome: Ok(Token::EndOfInput) }
    );
    assert_eq!(
        scanner.next_lexeme(),
        Lexeme { start: 13, end: 13, outcome: Ok(Token::EndOfInput) }
    );
}

#[test]
fn unterminated_lexeme_spans_the_rest_of_the_input() {
    let mut scanner = Scanner::new("a \"bc ");
    scanner.next_lexeme();
    assert_eq!(
        scanner.next_lexeme(),
        Lexeme { start: 2, end: 6, outcome: Err(ScanError::UnterminatedString { start: 2 }) }
    );
    assert_eq!(scanner.position(), 6);
}

#[test]
fn spans_concatenated_are_the_input_without_whitespace() {
    let input = " foo_1+ 22\t* @ / x \n";
    let chars: Vec<char> = input.chars().collect();
    let mut scanner = Scanner::from_chars(chars.clone());
    let mut covered = String::new();
    loop {
        let lexeme = scanner.next_lexeme();
        covered.extend(&chars[lexeme.start..lexeme.end]);
        if lexeme.outcome == Ok(Token::EndOfInput) {
            break;
        }
    }
    assert_eq!(covered, "foo_1+22*@/x");
}

#[test]
fn from_chars_scans_like_new() {
    let mut a = Scanner::new("x1 7");
    let mut b = Scanner::from_chars(vec!['x', '1', ' ', '7']);
    for _ in 0..4 {
        assert_eq!(a.next_token(), b.next_token());
    }
}
