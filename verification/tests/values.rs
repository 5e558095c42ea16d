use tokenizer::coin::{coin_value, Coin};
use tokenizer::counter::Counter;
use tokenizer::describe::describe_token;
use tokenizer::direction::{describe_direction, turn_right, Direction};
use tokenizer::event::{describe_event, WebEvent};
use tokenizer::message::{describe_message, Message};
use tokenizer::number::{parse_i32, parse_number, ParseResult};
use tokenizer::person::Person;
use tokenizer::request::RequestBuilder;
use tokenizer::search::{find_index, largest};
use tokenizer::text::{decimal_string, digit_to_char, push_decimal, push_text};
use tokenizer::token::Token;
use tokenizer::words::{char_is_blank, find_first_word, longest, modify_string, safe_return};

#[test]
fn directions_are_described() {
    assert_eq!(describe_direction(&Direction::North), "heading north");
    assert_eq!(describe_direction(&Direction::East), "heading east");
    assert_eq!(describe_direction(&Direction::South), "heading south");
    assert_eq!(describe_direction(&Direction::West), "heading west");
}

#[test]
fn right_turns_go_round_the_compass() {
    assert_eq!(turn_right(Direction::North), Direction::East);
    assert_eq!(turn_right(Direction::East), Direction::South);
    assert_eq!(turn_right(Direction::South), Direction::West);
    assert_eq!(turn_right(Direction::West), Direction::North);
    let mut dir = Direction::North;
    for _ in 0..4 {
        dir = turn_right(dir);
    }
    assert_eq!(dir, Direction::North);
}

#[test]
fn coins_have_their_values() {
    assert_eq!(coin_value(&Coin::Penny), 1);
    assert_eq!(coin_value(&Coin::Nickel), 5);
    assert_eq!(coin_value(&Coin::Dime), 10);
    assert_eq!(coin_value(&Coin::Quarter), 25);
}

#[test]
fn events_are_described() {
    assert_eq!(describe_event(&WebEvent::PageLoad), "Page loaded");
    assert_eq!(describe_event(&WebEvent::KeyPress('a')), "Key pressed: 'a'");
    assert_eq!(describe_event(&WebEvent::Click { x: 100, y: 200 }), "Clicked at (100, 200)");
    assert_eq!(describe_event(&WebEvent::Click { x: -3, y: 0 }), "Clicked at (-3, 0)");
    assert_eq!(describe_event(&WebEvent::Paste("Hello".to_string())), "Pasted: Hello");
}

#[test]
fn messages_are_reported() {
    assert_eq!(describe_message(&Message::Quit), "Received Quit message");
    assert_eq!(describe_message(&Message::Move { x: 10, y: 20 }), "Move to (10, 20)");
    assert_eq!(describe_message(&Message::Move { x: -1, y: i32::MIN }), "Move to (-1, -2147483648)");
    assert_eq!(describe_message(&Message::Write("Hello!".to_string())), "Write: Hello!");
    assert_eq!(
        describe_message(&Message::ChangeColor(255, 128, 0)),
        "Change color to RGB(255, 128, 0)"
    );
}

#[test]
fn tokens_are_described() {
    assert_eq!(describe_token(&Token::EndOfInput), "end of file");
    assert_eq!(describe_token(&Token::Plus), "plus operator");
    assert_eq!(describe_token(&Token::Minus), "minus operator");
    assert_eq!(describe_token(&Token::Star), "star operator");
    assert_eq!(describe_token(&Token::Slash), "slash operator");
    assert_eq!(describe_token(&Token::Number(42)), "number: 42");
    assert_eq!(describe_token(&Token::Identifier("foo".to_string())), "identifier: foo");
    assert_eq!(describe_token(&Token::StringLiteral("hi".to_string())), "string: \"hi\"");
    assert_eq!(describe_token(&Token::Unknown('@')), "unknown character: @");
}

#[test]
fn tokens_have_labels() {
    assert_eq!(Token::Number(42).label(), "NUMBER(42)");
    assert_eq!(Token::Plus.label(), "PLUS");
    assert_eq!(Token::Minus.label(), "MINUS");
    assert_eq!(Token::Star.label(), "STAR");
    assert_eq!(Token::Slash.label(), "SLASH");
    assert_eq!(Token::EndOfInput.label(), "EOF");
    assert_eq!(Token::Identifier("x".to_string()).label(), "IDENT(x)");
    assert_eq!(Token::StringLiteral("a b".to_string()).label(), "STRING(a b)");
    assert_eq!(Token::Unknown('#').label(), "UNKNOWN(#)");
}

#[test]
fn numbers_are_parsed() {
    assert_eq!(parse_number("42"), ParseResult::Success(42));
    assert_eq!(parse_number("-17"), ParseResult::Success(-17));
    assert_eq!(parse_number("+5"), ParseResult::Success(5));
    assert_eq!(parse_number("007"), ParseResult::Success(7));
    assert_eq!(parse_number("-0"), ParseResult::Success(0));
    assert_eq!(parse_number("2147483647"), ParseResult::Success(i32::MAX));
    assert_eq!(parse_number("-2147483648"), ParseResult::Success(i32::MIN));
}

#[test]
fn what_is_no_number_gives_an_error_that_quotes_it() {
    assert_eq!(
        parse_number("hello"),
        ParseResult::Error("'hello' is not a valid number".to_string())
    );
    assert_eq!(
        parse_number("3.14"),
        ParseResult::Error("'3.14' is not a valid number".to_string())
    );
    assert_eq!(parse_number(""), ParseResult::Error("'' is not a valid number".to_string()));
}

#[test]
fn parse_i32_agrees_with_the_standard_parser() {
    let inputs = [
        "", "+", "-", "0", "-0", "+0", "12", "+12", "-12", "1a", "a1", " 1", "1 ", "--1", "+-1",
        "2147483647", "2147483648", "-2147483648", "-2147483649", "99999999999999999999",
        "00000000000000000000001", "1_000", "١٢", "1e3", "0x10",
    ];
    for input in inputs {
        assert_eq!(parse_i32(input), input.parse::<i32>().ok(), "input {:?}", input);
    }
}

#[test]
fn decimal_notation_matches_the_standard_one() {
    let values = [
        0, 1, 9, 10, 11, 99, 100, 101, 12345, -1, -9, -10, -12345, i64::MAX, i64::MIN,
        i64::MIN + 1, 1000000007,
    ];
    for value in values {
        assert_eq!(decimal_string(value), format!("{}", value));
    }
    assert_eq!(decimal_string(-42), "-42");
    assert_eq!(decimal_string(9223372036854775807), "9223372036854775807");
}

#[test]
fn buffers_grow_by_what_is_pushed() {
    let mut buffer = vec!['a'];
    push_text(&mut buffer, "bç");
    push_decimal(&mut buffer, -305);
    push_text(&mut buffer, "");
    assert_eq!(buffer, vec!['a', 'b', 'ç', '-', '3', '0', '5']);
}

#[test]
fn digits_have_their_characters() {
    let expected = ['0', '1', '2', '3', '4', '5', '6', '7', '8', '9'];
    for d in 0..10u64 {
        assert_eq!(digit_to_char(d), expected[d as usize]);
    }
}

#[test]
fn person_greets_and_ages() {
    let mut alice = Person::new("Alice", 30);
    assert_eq!(alice.name(), "Alice");
    assert_eq!(alice.age(), 30);
    assert_eq!(alice.greet(), "Hello, I'm Alice and I'm 30 years old");
    assert_eq!(alice.have_birthday(), "Alice is now 31 years old!");
    assert_eq!(alice.age(), 31);
    assert_eq!(alice.greet(), "Hello, I'm Alice and I'm 31 years old");
}

#[test]
fn counter_counts() {
    let mut counter = Counter::new("clicks");
    assert_eq!(counter.get_value(), 0);
    assert_eq!(counter.display(), "clicks: 0");
    counter.increment();
    assert_eq!(counter.get_value(), 1);
    counter.add(5);
    assert_eq!(counter.get_value(), 6);
    assert_eq!(counter.display(), "clicks: 6");
    counter.add(-10);
    assert_eq!(counter.get_value(), -4);
    counter.reset();
    assert_eq!(counter.get_value(), 0);
}

#[test]
fn counter_is_given_up_for_its_value_or_its_summary() {
    let counter = Counter::new("requests");
    let mut copy = counter.clone();
    copy.add(42);
    assert_eq!(copy.into_value(), 42);
    assert_eq!(counter.get_value(), 0);
    assert_eq!(counter.into_string(), "Counter 'requests' had value 0");
}

#[test]
fn request_is_built_in_steps() {
    let request = RequestBuilder::new("https://api.example.com").method("POST").timeout(60).build();
    assert_eq!(request, "POST https://api.example.com (timeout: 60s)");
    assert_eq!(RequestBuilder::new("u").build(), "GET u (timeout: 30s)");
    assert_eq!(RequestBuilder::new("u").timeout(0).build(), "GET u (timeout: 0s)");
    assert_eq!(
        RequestBuilder::new("u").method("PUT").method("HEAD").build(),
        "HEAD u (timeout: 30s)"
    );
}

#[test]
fn first_word_is_found() {
    assert_eq!(find_first_word("hello world"), Some("hello"));
    assert_eq!(find_first_word("  "), None);
    assert_eq!(find_first_word("rust"), Some("rust"));
    assert_eq!(find_first_word(""), None);
    assert_eq!(find_first_word("\t naïve\u{a0}café "), Some("naïve"));
    assert_eq!(find_first_word("\u{3000}x"), Some("x"));
}

#[test]
fn first_word_agrees_with_the_standard_split() {
    let inputs = ["", " ", "a", " a", "a ", " ab  cd ", "\n\tx\ry", "\u{2003}é\u{2028}z", "a\u{200b}b c"];
    for input in inputs {
        assert_eq!(find_first_word(input), input.split_whitespace().next());
    }
}

#[test]
fn blank_characters_are_those_of_the_standard() {
    for code in 0..0x3100u32 {
        if let Some(c) = char::from_u32(code) {
            assert_eq!(char_is_blank(c), c.is_whitespace(), "code {:x}", code);
        }
    }
}

#[test]
fn index_of_first_occurrence_is_found() {
    let numbers = [10, 20, 30, 40, 50];
    assert_eq!(find_index(&numbers, 30), Some(2));
    assert_eq!(find_index(&numbers, 99), None);
    assert_eq!(find_index(&[7, 7, 7], 7), Some(0));
    assert_eq!(find_index(&[], 7), None);
}

#[test]
fn largest_element_is_found() {
    assert_eq!(*largest(&[34, 50, 25, 100, 65]), 100);
    assert_eq!(*largest(&['y', 'm', 'a', 'q']), 'y');
    assert_eq!(*largest(&[3]), 3);
    let list = [(1, 'a'), (2, 'b'), (2, 'b')];
    assert!(std::ptr::eq(largest(&list), &list[1]));
}

#[test]
fn longer_text_is_chosen_by_bytes() {
    assert_eq!(longest("hello", "world!"), "world!");
    assert_eq!(longest("abc", "ab"), "abc");
    assert_eq!(longest("one", "two"), "two");
    assert_eq!(longest("é", "z"), "é");
}

#[test]
fn texts_are_handed_over_and_changed() {
    assert_eq!(safe_return(), "I live on the heap");
    let mut s = String::from("Heap string");
    modify_string(&mut s);
    assert_eq!(s, "Heap string [modified]");
}
