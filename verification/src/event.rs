//! Events of a web page and their descriptions.

use vstd::prelude::*;
use crate::text::{decimal_text, push_decimal, push_text, string_from_chars};

verus! {

/// Something that happened on a page.
#[derive(Clone, Debug, PartialEq, Eq)]
pub enum WebEvent {
    PageLoad,
    KeyPress(char),
    Click { x: i32, y: i32 },
    Paste(String),
}

impl WebEvent {
    /// The description of the event.
    pub open spec fn description(self) -> Seq<char> {
        match self {
            WebEvent::PageLoad => "Page loaded"@,
            WebEvent::KeyPress(c) => "Key pressed: '"@ + seq![c] + "'"@,
            WebEvent::Click { x, y } => "Clicked at ("@ + decimal_text(x as int) + ", "@
                + decimal_text(y as int) + ")"@,
            WebEvent::Paste(text) => "Pasted: "@ + text@,
        }
    }
}

/// Describes an event.
pub fn describe_event(event: &WebEvent) -> (text: String)
    ensures
        text@ == event.description(),
{
    let mut buffer: Vec<char> = Vec::new();
    match event {
        WebEvent::PageLoad => {
            push_text(&mut buffer, "Page loaded");
        },
        WebEvent::KeyPress(c) => {
            push_text(&mut buffer, "Key pressed: '");
            buffer.push(*c);
            push_text(&mut buffer, "'");
        },
        WebEvent::Click { x, y } => {
            push_text(&mut buffer, "Clicked at (");
            push_decimal(&mut buffer, *x as i64);
            push_text(&mut buffer, ", ");
            push_decimal(&mut buffer, *y as i64);
            push_text(&mut buffer, ")");
        },
        WebEvent::Paste(text) => {
            push_text(&mut buffer, "Pasted: ");
            push_text(&mut buffer, text.as_str());
        },
    }
    string_from_chars(&buffer)
}

} // verus!
