use tokenizer::cursor::Cursor;

#[test]
fn peek_does_not_move() {
    let c = Cursor::new(vec!['a', 'b']);
    assert_eq!(c.peek(), Some('a'));
    assert_eq!(c.peek(), Some('a'));
    assert_eq!(c.position(), 0);
}

#[test]
fn advance_returns_each_character_once() {
    let mut c = Cursor::from_text("héy");
    assert_eq!(c.len(), 3);
    assert_eq!(c.advance(), Some('h'));
    assert_eq!(c.position(), 1);
    assert_eq!(c.advance(), Some('é'));
    assert_eq!(c.position(), 2);
    assert_eq!(c.advance(), Some('y'));
    assert_eq!(c.position(), 3);
}

#[test]
fn advance_at_end_returns_none_and_stays() {
    let mut c = Cursor::from_text("x");
    assert_eq!(c.advance(), Some('x'));
    assert_eq!(c.advance(), None);
    assert_eq!(c.advance(), None);
    assert_eq!(c.position(), 1);
    assert_eq!(c.peek(), None);
}

#[test]
fn empty_input_has_nothing_to_read() {
    let mut c = Cursor::from_text("");
    assert_eq!(c.len(), 0);
    assert_eq!(c.peek(), None);
    assert_eq!(c.peek_at(0), None);
    assert_eq!(c.advance(), None);
    assert_eq!(c.position(), 0);
}

#[test]
fn peek_at_looks_ahead_without_moving() {
    let mut c = Cursor::from_text("a/b");
    assert_eq!(c.peek_at(0), Some('a'));
    assert_eq!(c.peek_at(1), Some('/'));
    assert_eq!(c.peek_at(2), Some('b'));
    assert_eq!(c.peek_at(3), None);
    assert_eq!(c.peek_at(usize::MAX), None);
    assert_eq!(c.position(), 0);
    c.advance();
    assert_eq!(c.peek_at(1), Some('b'));
    assert_eq!(c.peek_at(2), None);
    assert_eq!(c.peek_at(usize::MAX), None);
}

#[test]
fn position_never_decreases_and_stays_in_bounds() {
    let mut c = Cursor::from_text("abc");
    let mut last = c.position();
    for _ in 0..10 {
        c.advance();
        let now = c.position();
        assert!(now >= last);
        assert!(now <= c.len());
        last = now;
    }
    assert_eq!(last, 3);
}

#[test]
fn from_text_and_new_agree() {
    let mut a = Cursor::from_text("a b");
    let mut b = Cursor::new(vec!['a', ' ', 'b']);
    for _ in 0..4 {
        assert_eq!(a.advance(), b.advance());
    }
}
