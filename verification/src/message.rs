//! Messages and what they say.

use vstd::prelude::*;
use crate::text::{decimal_text, push_decimal, push_text, string_from_chars};

verus! {

/// A message to a window.
#[derive(Clone, Debug, PartialEq, Eq)]
pub enum Message {
    Quit,
    Move { x: i32, y: i32 },
    Write(String),
    ChangeColor(u8, u8, u8),
}

impl Message {
    /// The line that reports the message.
    pub open spec fn report(self) -> Seq<char> {
        match self {
            Message::Quit => "Received Quit message"@,
            Message::Move { x, y } => "Move to ("@ + decimal_text(x as int) + ", "@ + decimal_text(
                y as int,
            ) + ")"@,
            Message::Write(text) => "Write: "@ + text@,
            Message::ChangeColor(r, g, b) => "Change color to RGB("@ + decimal_text(r as int)
                + ", "@ + decimal_text(g as int) + ", "@ + decimal_text(b as int) + ")"@,
        }
    }
}

/// The line that reports a message.
pub fn describe_message(msg: &Message) -> (text: String)
    ensures
        text@ == msg.report(),
{
    let mut buffer: Vec<char> = Vec::new();
    match msg {
        Message::Quit => {
            push_text(&mut buffer, "Received Quit message");
        },
        Message::Move { x, y } => {
            push_text(&mut buffer, "Move to (");
            push_decimal(&mut buffer, *x as i64);
            push_text(&mut buffer, ", ");
            push_decimal(&mut buffer, *y as i64);
            push_text(&mut buffer, ")");
        },
        Message::Write(text) => {
            push_text(&mut buffer, "Write: ");
            push_text(&mut buffer, text.as_str());
        },
        Message::ChangeColor(r, g, b) => {
            push_text(&mut buffer, "Change color to RGB(");
            push_decimal(&mut buffer, *r as i64);
            push_text(&mut buffer, ", ");
            push_decimal(&mut buffer, *g as i64);
            push_text(&mut buffer, ", ");
            push_decimal(&mut buffer, *b as i64);
            push_text(&mut buffer, ")");
        },
    }
    string_from_chars(&buffer)
}

} // verus!
