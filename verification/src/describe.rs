//! Descriptions of tokens in words.

use vstd::prelude::*;
use crate::text::{decimal_text, push_decimal, push_text, string_from_chars};
use crate::token::{Token, TokenView};

verus! {

/// The description of a token in words.
pub open spec fn token_description(token: TokenView) -> Seq<char> {
    match token {
        TokenView::EndOfInput => "end of file"@,
        TokenView::Plus => "plus operator"@,
        TokenView::Minus => "minus operator"@,
        TokenView::Star => "star operator"@,
        TokenView::Slash => "slash operator"@,
        TokenView::Number(value) => "number: "@ + decimal_text(value),
        TokenView::Identifier(name) => "identifier: "@ + name,
        TokenView::StringLiteral(content) => "string: \""@ + content + "\""@,
        TokenView::Unknown(c) => "unknown character: "@ + seq![c],
    }
}

/// Describes a token in words.
pub fn describe_token(token: &Token) -> (text: String)
    ensures
        text@ == token_description(token@),
{
    let mut buffer: Vec<char> = Vec::new();
    match token {
        Token::EndOfInput => {
            push_text(&mut buffer, "end of file");
        },
        Token::Plus => {
            push_text(&mut buffer, "plus operator");
        },
        Token::Minus => {
            push_text(&mut buffer, "minus operator");
        },
        Token::Star => {
            push_text(&mut buffer, "star operator");
        },
        Token::Slash => {
            push_text(&mut buffer, "slash operator");
        },
        Token::Number(value) => {
            push_text(&mut buffer, "number: ");
            push_decimal(&mut buffer, *value);
        },
        Token::Identifier(name) => {
            push_text(&mut buffer, "identifier: ");
            push_text(&mut buffer, name.as_str());
        },
        Token::StringLiteral(content) => {
            push_text(&mut buffer, "string: \"");
            push_text(&mut buffer, content.as_str());
            push_text(&mut buffer, "\"");
        },
        Token::Unknown(c) => {
            push_text(&mut buffer, "unknown character: ");
            buffer.push(*c);
        },
    }
    string_from_chars(&buffer)
}

/// The label of a token: its kind in capitals, with what it carries in
/// parentheses.
pub open spec fn token_label(token: TokenView) -> Seq<char> {
    match token {
        TokenView::EndOfInput => "EOF"@,
        TokenView::Plus => "PLUS"@,
        TokenView::Minus => "MINUS"@,
        TokenView::Star => "STAR"@,
        TokenView::Slash => "SLASH"@,
        TokenView::Number(value) => "NUMBER("@ + decimal_text(value) + ")"@,
        TokenView::Identifier(name) => "IDENT("@ + name + ")"@,
        TokenView::StringLiteral(content) => "STRING("@ + content + ")"@,
        TokenView::Unknown(c) => "UNKNOWN("@ + seq![c] + ")"@,
    }
}

impl Token {
    /// The label of the token.
    pub fn label(&self) -> (text: String)
        ensures
            text@ == token_label(self@),
    {
        let mut buffer: Vec<char> = Vec::new();
        match self {
            Token::EndOfInput => {
                push_text(&mut buffer, "EOF");
            },
            Token::Plus => {
                push_text(&mut buffer, "PLUS");
            },
            Token::Minus => {
                push_text(&mut buffer, "MINUS");
            },
            Token::Star => {
                push_text(&mut buffer, "STAR");
            },
            Token::Slash => {
                push_text(&mut buffer, "SLASH");
            },
            Token::Number(value) => {
                push_text(&mut buffer, "NUMBER(");
                push_decimal(&mut buffer, *value);
                push_text(&mut buffer, ")");
            },
            Token::Identifier(name) => {
                push_text(&mut buffer, "IDENT(");
                push_text(&mut buffer, name.as_str());
                push_text(&mut buffer, ")");
            },
            Token::StringLiteral(content) => {
                push_text(&mut buffer, "STRING(");
                push_text(&mut buffer, content.as_str());
                push_text(&mut buffer, ")");
            },
            Token::Unknown(c) => {
                push_text(&mut buffer, "UNKNOWN(");
                buffer.push(*c);
                push_text(&mut buffer, ")");
            },
        }
        string_from_chars(&buffer)
    }
}

} // verus!
