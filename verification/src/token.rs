//! Tokens, scan failures and lexemes, with their mathematical views.

use vstd::prelude::*;

verus! {

/// A classified unit of lexical output.
#[derive(Clone, Debug, PartialEq, Eq)]
pub enum Token {
    /// The end marker: last of every token sequence.
    EndOfInput,
    Plus,
    Minus,
    Star,
    Slash,
    /// The value of a maximal run of decimal digits, saturated at `i64::MAX`.
    Number(i64),
    /// The exact text of a maximal run of identifier characters.
    Identifier(String),
    /// The decoded contents between two unescaped double quotes.
    StringLiteral(String),
    /// A character that starts no lexeme.
    Unknown(char),
}

/// What a token is, mathematically: text is a sequence of characters.
pub enum TokenView {
    EndOfInput,
    Plus,
    Minus,
    Star,
    Slash,
    Number(int),
    Identifier(Seq<char>),
    StringLiteral(Seq<char>),
    Unknown(char),
}

impl View for Token {
    type V = TokenView;

    open spec fn view(&self) -> TokenView {
        match self {
            Token::EndOfInput => TokenView::EndOfInput,
            Token::Plus => TokenView::Plus,
            Token::Minus => TokenView::Minus,
            Token::Star => TokenView::Star,
            Token::Slash => TokenView::Slash,
            Token::Number(value) => TokenView::Number(*value as int),
            Token::Identifier(name) => TokenView::Identifier(name@),
            Token::StringLiteral(content) => TokenView::StringLiteral(content@),
            Token::Unknown(c) => TokenView::Unknown(*c),
        }
    }
}

/// A structural failure of the scan, distinct from every token.
#[derive(Clone, Copy, Debug, PartialEq, Eq, Structural)]
pub enum ScanError {
    /// The input ended inside a string literal whose opening quote stands at
    /// offset `start`.
    UnterminatedString { start: usize },
}

/// The outcome of scanning one lexeme: a token or a failure.
pub type Outcome = Result<TokenView, ScanError>;

/// One lexeme, mathematically: the span `[start, end)` of the input that it
/// was read from, and what it was classified as.
pub struct LexemeView {
    pub start: int,
    pub end: int,
    pub outcome: Outcome,
}

impl LexemeView {
    /// Whether this lexeme is the end marker.
    pub open spec fn is_end(self) -> bool {
        self.outcome == Ok::<TokenView, ScanError>(TokenView::EndOfInput)
    }

    /// The characters of `input` that this lexeme spans.
    pub open spec fn text(self, input: Seq<char>) -> Seq<char> {
        input.subrange(self.start, self.end)
    }
}

/// One scanned lexeme: its outcome and the span of the input it was read from.
#[derive(Debug, PartialEq, Eq)]
pub struct Lexeme {
    pub start: usize,
    pub end: usize,
    pub outcome: Result<Token, ScanError>,
}

/// The view of an outcome: the token's view, or the failure as it is.
pub open spec fn outcome_view(outcome: Result<Token, ScanError>) -> Outcome {
    match outcome {
        Ok(token) => Ok(token@),
        Err(error) => Err(error),
    }
}

impl View for Lexeme {
    type V = LexemeView;

    open spec fn view(&self) -> LexemeView {
        LexemeView {
            start: self.start as int,
            end: self.end as int,
            outcome: outcome_view(self.outcome),
        }
    }
}

} // verus!
