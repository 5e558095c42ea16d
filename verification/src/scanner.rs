//! The scanner: drives a cursor over the input and yields one lexeme per
//! call, as the lexical grammar defines it.

use vstd::prelude::*;
use crate::classes::{char_digit_value, char_is_digit, char_is_ident_part, classify, CharClass};
use crate::cursor::Cursor;
use crate::grammar::{
    closing_quote, decimal_value, decode, lemma_closing_quote_bounds, lemma_lexeme_bounds,
    lexeme_at, operator_token, run_end, saturate, unescape_char, Run,
};
use crate::text::string_from_chars;
use crate::token::{outcome_view, Lexeme, LexemeView, ScanError, Token};

verus! {

/// What a scanner is, mathematically: the input, the offset up to which it
/// has been read, and whether the end marker has been produced.
pub struct ScannerView {
    pub input: Seq<char>,
    pub pos: nat,
    pub done: bool,
}

impl ScannerView {
    /// The position lies within the input, and once the end marker has been
    /// produced the whole input has been read.
    pub open spec fn wf(self) -> bool {
        &&& self.pos <= self.input.len()
        &&& self.done ==> self.pos == self.input.len()
    }

    /// A scanner that has read nothing of `input` yet.
    pub open spec fn start(input: Seq<char>) -> ScannerView {
        ScannerView { input, pos: 0, done: false }
    }

    /// The lexeme that the next call yields.
    pub open spec fn lexeme(self) -> LexemeView {
        lexeme_at(self.input, self.pos as int)
    }

    /// The scanner after the next call: it has read up to the end of the
    /// lexeme, and is done once that lexeme is the end marker.
    pub open spec fn next(self) -> ScannerView {
        ScannerView {
            input: self.input,
            pos: self.lexeme().end as nat,
            done: self.done || self.lexeme().is_end(),
        }
    }

    /// The scanner after `n` calls.
    pub open spec fn after(self, n: nat) -> ScannerView
        decreases n,
    {
        if n == 0 {
            self
        } else {
            self.next().after((n - 1) as nat)
        }
    }
}

/// The token of an operator character.
fn operator_of(c: char) -> (token: Token)
    ensures
        token@ == operator_token(c),
{
    if c == '+' {
        Token::Plus
    } else if c == '-' {
        Token::Minus
    } else if c == '*' {
        Token::Star
    } else {
        Token::Slash
    }
}

/// A single-pass scanner over one input text. It yields the lexemes of the
/// input in order, then the end marker on every further call.
pub struct Scanner {
    cursor: Cursor,
    done: bool,
}

impl View for Scanner {
    type V = ScannerView;

    closed spec fn view(&self) -> ScannerView {
        ScannerView { input: self.cursor@.input, pos: self.cursor@.pos, done: self.done }
    }
}

impl Scanner {
    #[verifier::type_invariant]
    spec fn well_formed(self) -> bool {
        self@.wf()
    }

    /// A scanner at the start of `text`.
    pub fn new(text: &str) -> (scanner: Scanner)
        ensures
            scanner@ == ScannerView::start(text@),
    {
        Scanner { cursor: Cursor::from_text(text), done: false }
    }

    /// A scanner at the start of `chars`.
    pub fn from_chars(chars: Vec<char>) -> (scanner: Scanner)
        ensures
            scanner@ == ScannerView::start(chars@),
    {
        Scanner { cursor: Cursor::new(chars), done: false }
    }

    /// The offset up to which the input has been read.
    pub fn position(&self) -> (pos: usize)
        ensures
            pos == self@.pos,
            self@.wf(),
    {
        proof {
            use_type_invariant(self);
        }
        self.cursor.position()
    }

    /// Whether the end marker has been produced.
    pub fn is_done(&self) -> (done: bool)
        ensures
            done == self@.done,
            self@.wf(),
    {
        proof {
            use_type_invariant(self);
        }
        self.done
    }

    /// Moves past the maximal run of `run` at the position.
    fn skip_run(&mut self, run: Run)
        ensures
            final(self)@.input == old(self)@.input,
            final(self)@.done == old(self)@.done,
            final(self)@.pos == run_end(old(self)@.input, run, old(self)@.pos as int),
            final(self)@.wf(),
    {
        proof {
            use_type_invariant(&*self);
        }
        let ghost input = self@.input;
        let ghost from = self@.pos as int;
        let ghost done = self@.done;
        loop
            invariant
                input == old(self)@.input,
                from == old(self)@.pos,
                done == old(self)@.done,
                self@.input == input,
                self@.done == done,
                self@.wf(),
                from <= self@.pos,
                run_end(input, run, self@.pos as int) == run_end(input, run, from),
            ensures
                self@.pos == run_end(input, run, from),
            decreases self@.input.len() - self@.pos,
        {
            match self.cursor.peek() {
                Some(c) => {
                    if run.accepts(c) {
                        self.cursor.advance();
                    } else {
                        break ;
                    }
                },
                None => {
                    break ;
                },
            }
        }
    }

    /// Reads the maximal run of digits at the position and returns its value,
    /// saturated at `i64::MAX`.
    fn scan_number(&mut self) -> (value: i64)
        ensures
            final(self)@.input == old(self)@.input,
            final(self)@.done == old(self)@.done,
            final(self)@.pos == run_end(old(self)@.input, Run::Digits, old(self)@.pos as int),
            final(self)@.wf(),
            value == saturate(
                decimal_value(
                    old(self)@.input.subrange(old(self)@.pos as int, final(self)@.pos as int),
                ),
            ),
    {
        proof {
            use_type_invariant(&*self);
        }
        let ghost input = self@.input;
        let ghost from = self@.pos as int;
        let ghost done = self@.done;
        let mut value: i64 = 0;
        loop
            invariant
                input == old(self)@.input,
                from == old(self)@.pos,
                done == old(self)@.done,
                self@.input == input,
                self@.done == done,
                self@.wf(),
                from <= self@.pos,
                run_end(input, Run::Digits, self@.pos as int) == run_end(input, Run::Digits, from),
                0 <= decimal_value(input.subrange(from, self@.pos as int)),
                value == saturate(decimal_value(input.subrange(from, self@.pos as int))),
            ensures
                self@.pos == run_end(input, Run::Digits, from),
            decreases self@.input.len() - self@.pos,
        {
            match self.cursor.peek() {
                Some(c) => {
                    if char_is_digit(c) {
                        let digit = char_digit_value(c);
                        proof {
                            let pos = self@.pos as int;
                            let read = input.subrange(from, pos);
                            let more = input.subrange(from, pos + 1);
                            assert(more.drop_last() == read);
                            assert(more.last() == c);
                        }
                        value = if value > (i64::MAX - digit) / 10 {
                            i64::MAX
                        } else {
                            value * 10 + digit
                        };
                        self.cursor.advance();
                    } else {
                        break ;
                    }
                },
                None => {
                    break ;
                },
            }
        }
        value
    }

    /// Reads the maximal run of identifier characters at the position and
    /// returns its text.
    fn scan_name(&mut self) -> (name: String)
        ensures
            final(self)@.input == old(self)@.input,
            final(self)@.done == old(self)@.done,
            final(self)@.pos == run_end(old(self)@.input, Run::Name, old(self)@.pos as int),
            final(self)@.wf(),
            name@ == old(self)@.input.subrange(old(self)@.pos as int, final(self)@.pos as int),
    {
        proof {
            use_type_invariant(&*self);
        }
        let ghost input = self@.input;
        let ghost from = self@.pos as int;
        let ghost done = self@.done;
        let mut text: Vec<char> = Vec::new();
        loop
            invariant
                input == old(self)@.input,
                from == old(self)@.pos,
                done == old(self)@.done,
                self@.input == input,
                self@.done == done,
                self@.wf(),
                from <= self@.pos,
                run_end(input, Run::Name, self@.pos as int) == run_end(input, Run::Name, from),
                text@ == input.subrange(from, self@.pos as int),
            ensures
                self@.pos == run_end(input, Run::Name, from),
            decreases self@.input.len() - self@.pos,
        {
            match self.cursor.peek() {
                Some(c) => {
                    if char_is_ident_part(c) {
                        text.push(c);
                        self.cursor.advance();
                    } else {
                        break ;
                    }
                },
                None => {
                    break ;
                },
            }
        }
        string_from_chars(&text)
    }

    /// Reads the rest of a string literal whose opening quote, at offset
    /// `quote_at`, has just been passed. Up to the closing quote it returns
    /// the decoded contents; if the input ends first it reads to the end and
    /// reports the literal as unterminated.
    fn scan_string(&mut self, quote_at: usize) -> (result: Result<String, ScanError>)
        ensures
            final(self)@.input == old(self)@.input,
            final(self)@.done == old(self)@.done,
            final(self)@.wf(),
            match closing_quote(old(self)@.input, old(self)@.pos as int) {
                Some(close) => {
                    &&& final(self)@.pos == close + 1
                    &&& result matches Ok(text)
                    &&& text@ == decode(old(self)@.input, old(self)@.pos as int, close)
                },
                None => {
                    &&& final(self)@.pos == old(self)@.input.len()
                    &&& result == Err::<String, ScanError>(
                        ScanError::UnterminatedString { start: quote_at },
                    )
                },
            },
    {
        proof {
            use_type_invariant(&*self);
        }
        let ghost input = self@.input;
        let ghost from = self@.pos as int;
        let ghost done = self@.done;
        let ghost target = closing_quote(input, from);
        let mut text: Vec<char> = Vec::new();
        loop
            invariant
                input == old(self)@.input,
                from == old(self)@.pos,
                done == old(self)@.done,
                self@.input == input,
                self@.done == done,
                self@.wf(),
                from <= self@.pos,
                target == closing_quote(input, from),
                closing_quote(input, self@.pos as int) == target,
                target matches Some(close) ==> text@ + decode(input, self@.pos as int, close)
                    == decode(input, from, close),
            decreases self@.input.len() - self@.pos,
        {
            let ghost pos = self@.pos as int;
            let ghost read = text@;
            match self.cursor.advance() {
                None => {
                    return Err(ScanError::UnterminatedString { start: quote_at });
                },
                Some(c) => {
                    if c == '"' {
                        return Ok(string_from_chars(&text));
                    } else if c == '\\' {
                        match self.cursor.advance() {
                            None => {
                                return Err(ScanError::UnterminatedString { start: quote_at });
                            },
                            Some(escaped) => {
                                text.push(unescape_char(escaped));
                                proof {
                                    lemma_closing_quote_bounds(input, pos + 2);
                                    if let Some(close) = target {
                                        assert(text@ + decode(input, pos + 2, close) == read
                                            + decode(input, pos, close));
                                    }
                                }
                            },
                        }
                    } else {
                        text.push(c);
                        proof {
                            lemma_closing_quote_bounds(input, pos + 1);
                            if let Some(close) = target {
                                assert(text@ + decode(input, pos + 1, close) == read + decode(
                                    input,
                                    pos,
                                    close,
                                ));
                            }
                        }
                    }
                },
            }
        }
    }

    /// Scans the next lexeme: skips whitespace, then reads the lexeme that the
    /// first character decides. At the end of the input it yields the end
    /// marker, on this call and on every later one.
    pub fn next_lexeme(&mut self) -> (lexeme: Lexeme)
        ensures
            lexeme@ == old(self)@.lexeme(),
            final(self)@ == old(self)@.next(),
            final(self)@.wf(),
            old(self)@.pos <= final(self)@.pos,
            !lexeme@.is_end() ==> old(self)@.pos < final(self)@.pos,
            old(self)@.done ==> lexeme@.is_end() && final(self)@ == old(self)@,
    {
        proof {
            use_type_invariant(&*self);
            lemma_lexeme_bounds(self@.input, self@.pos as int);
        }
        self.skip_run(Run::Spaces);
        let start = self.cursor.position();
        match self.cursor.peek() {
            None => {
                self.done = true;
                Lexeme { start, end: start, outcome: Ok(Token::EndOfInput) }
            },
            Some(c) => {
                let outcome = match classify(c) {
                    CharClass::Digit => Ok(Token::Number(self.scan_number())),
                    CharClass::IdentStart => Ok(Token::Identifier(self.scan_name())),
                    CharClass::Quote => {
                        self.cursor.advance();
                        match self.scan_string(start) {
                            Ok(text) => Ok(Token::StringLiteral(text)),
                            Err(error) => Err(error),
                        }
                    },
                    CharClass::Operator => {
                        self.cursor.advance();
                        Ok(operator_of(c))
                    },
                    _ => {
                        self.cursor.advance();
                        Ok(Token::Unknown(c))
                    },
                };
                let end = self.cursor.position();
                Lexeme { start, end, outcome }
            },
        }
    }

    /// Scans the next token, or reports the failure of the scan. After the
    /// end marker has been returned once, every call returns it again.
    pub fn next_token(&mut self) -> (result: Result<Token, ScanError>)
        ensures
            outcome_view(result) == old(self)@.lexeme().outcome,
            final(self)@ == old(self)@.next(),
            final(self)@.wf(),
            old(self)@.pos <= final(self)@.pos,
            !old(self)@.lexeme().is_end() ==> old(self)@.pos < final(self)@.pos,
            old(self)@.done ==> result == Ok::<Token, ScanError>(Token::EndOfInput) && final(self)@
                == old(self)@,
    {
        self.next_lexeme().outcome
    }
}

} // verus!
