//! A single-pass lexical scanner: a cursor over a sequence of characters and
//! a scanner that classifies maximal runs of characters into tokens. Beside
//! it stand small types and functions on directions, coins, events, messages,
//! counters and text.

pub mod classes;
pub mod coin;
pub mod counter;
pub mod cursor;
pub mod describe;
pub mod direction;
pub mod event;
pub mod grammar;
pub mod message;
pub mod number;
pub mod person;
pub mod request;
pub mod scanner;
pub mod search;
pub mod stream;
pub mod text;
pub mod token;
pub mod words;
