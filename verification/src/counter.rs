//! A named counter.

use vstd::prelude::*;
use crate::text::{decimal_text, push_decimal, push_text, string_from_chars};

verus! {

/// A counter with a name.
#[derive(Clone, Debug, PartialEq, Eq)]
pub struct Counter {
    value: i32,
    name: String,
}

/// What a counter is, mathematically.
pub struct CounterView {
    pub value: int,
    pub name: Seq<char>,
}

impl CounterView {
    /// The counter in one line: its name and its value.
    pub open spec fn line(self) -> Seq<char> {
        self.name + ": "@ + decimal_text(self.value)
    }

    /// The words that sum up a counter that is given up.
    pub open spec fn summary(self) -> Seq<char> {
        "Counter '"@ + self.name + "' had value "@ + decimal_text(self.value)
    }

    /// The counter with another value.
    pub open spec fn with_value(self, value: int) -> CounterView {
        CounterView { value, name: self.name }
    }
}

impl View for Counter {
    type V = CounterView;

    closed spec fn view(&self) -> CounterView {
        CounterView { value: self.value as int, name: self.name@ }
    }
}

impl Counter {
    /// A counter of the given name, at zero.
    pub fn new(name: &str) -> (counter: Counter)
        ensures
            counter@ == (CounterView { value: 0, name: name@ }),
    {
        Counter { value: 0, name: name.to_owned() }
    }

    /// The value of the counter.
    pub fn get_value(&self) -> (value: i32)
        ensures
            value == self@.value,
    {
        self.value
    }

    /// The counter in one line: its name and its value.
    pub fn display(&self) -> (text: String)
        ensures
            text@ == self@.line(),
    {
        let mut buffer: Vec<char> = Vec::new();
        push_text(&mut buffer, self.name.as_str());
        push_text(&mut buffer, ": ");
        push_decimal(&mut buffer, self.value as i64);
        string_from_chars(&buffer)
    }

    /// Counts one up.
    pub fn increment(&mut self)
        requires
            old(self)@.value < i32::MAX,
        ensures
            final(self)@ == old(self)@.with_value(old(self)@.value + 1),
    {
        self.value = self.value + 1;
    }

    /// Adds `amount`, which may be negative, to the value.
    pub fn add(&mut self, amount: i32)
        requires
            i32::MIN <= old(self)@.value + amount <= i32::MAX,
        ensures
            final(self)@ == old(self)@.with_value(old(self)@.value + amount),
    {
        self.value = self.value + amount;
    }

    /// Sets the value back to zero.
    pub fn reset(&mut self)
        ensures
            final(self)@ == old(self)@.with_value(0),
    {
        self.value = 0;
    }

    /// Gives the counter up for its value.
    pub fn into_value(self) -> (value: i32)
        ensures
            value == self@.value,
    {
        self.value
    }

    /// Gives the counter up for the words that sum it up.
    pub fn into_string(self) -> (text: String)
        ensures
            text@ == self@.summary(),
    {
        let mut buffer: Vec<char> = Vec::new();
        push_text(&mut buffer, "Counter '");
        push_text(&mut buffer, self.name.as_str());
        push_text(&mut buffer, "' had value ");
        push_decimal(&mut buffer, self.value as i64);
        string_from_chars(&buffer)
    }
}

} // verus!
