//! A person with a name and an age.

use vstd::prelude::*;
use crate::text::{decimal_text, push_decimal, push_text, string_from_chars};

verus! {

/// A person.
#[derive(Clone, Debug, PartialEq, Eq)]
pub struct Person {
    name: String,
    age: u32,
}

/// What a person is, mathematically.
pub struct PersonView {
    pub name: Seq<char>,
    pub age: nat,
}

impl PersonView {
    /// The words with which the person introduces themself.
    pub open spec fn greeting(self) -> Seq<char> {
        "Hello, I'm "@ + self.name + " and I'm "@ + decimal_text(self.age as int) + " years old"@
    }

    /// The words that announce the person's age.
    pub open spec fn announcement(self) -> Seq<char> {
        self.name + " is now "@ + decimal_text(self.age as int) + " years old!"@
    }
}

impl View for Person {
    type V = PersonView;

    closed spec fn view(&self) -> PersonView {
        PersonView { name: self.name@, age: self.age as nat }
    }
}

impl Person {
    /// A person of the given name and age.
    pub fn new(name: &str, age: u32) -> (person: Person)
        ensures
            person@ == (PersonView { name: name@, age: age as nat }),
    {
        Person { name: name.to_owned(), age }
    }

    /// The person's name.
    pub fn name(&self) -> (name: &str)
        ensures
            name@ == self@.name,
    {
        self.name.as_str()
    }

    /// The person's age in years.
    pub fn age(&self) -> (age: u32)
        ensures
            age == self@.age,
    {
        self.age
    }

    /// The words with which the person introduces themself.
    pub fn greet(&self) -> (text: String)
        ensures
            text@ == self@.greeting(),
    {
        let mut buffer: Vec<char> = Vec::new();
        push_text(&mut buffer, "Hello, I'm ");
        push_text(&mut buffer, self.name.as_str());
        push_text(&mut buffer, " and I'm ");
        push_decimal(&mut buffer, self.age as i64);
        push_text(&mut buffer, " years old");
        string_from_chars(&buffer)
    }

    /// Makes the person a year older and returns the words that announce the
    /// new age.
    pub fn have_birthday(&mut self) -> (text: String)
        requires
            old(self)@.age < u32::MAX,
        ensures
            final(self)@ == (PersonView { name: old(self)@.name, age: old(self)@.age + 1 }),
            text@ == final(self)@.announcement(),
    {
        self.age = self.age + 1;
        let mut buffer: Vec<char> = Vec::new();
        push_text(&mut buffer, self.name.as_str());
        push_text(&mut buffer, " is now ");
        push_decimal(&mut buffer, self.age as i64);
        push_text(&mut buffer, " years old!");
        string_from_chars(&buffer)
    }
}

} // verus!
