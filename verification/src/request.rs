//! A request put together step by step.

use vstd::prelude::*;
use crate::text::{decimal_text, push_decimal, push_text, string_from_chars};

verus! {

/// Builds the line of a request: each step takes the builder and returns it
/// changed, so that steps can be chained.
#[derive(Debug)]
pub struct RequestBuilder {
    url: String,
    method: String,
    timeout: u32,
}

/// What a request builder is, mathematically.
pub struct RequestView {
    pub url: Seq<char>,
    pub method: Seq<char>,
    pub timeout: nat,
}

impl RequestView {
    /// The request that a new builder for `url` stands for: a `GET` with a
    /// timeout of 30 seconds.
    pub open spec fn initial(url: Seq<char>) -> RequestView {
        RequestView { url, method: "GET"@, timeout: 30 }
    }

    /// The line of the request: method, address and timeout in seconds.
    pub open spec fn line(self) -> Seq<char> {
        self.method + " "@ + self.url + " (timeout: "@ + decimal_text(self.timeout as int) + "s)"@
    }
}

impl View for RequestBuilder {
    type V = RequestView;

    closed spec fn view(&self) -> RequestView {
        RequestView { url: self.url@, method: self.method@, timeout: self.timeout as nat }
    }
}

impl RequestBuilder {
    /// A builder for a request to `url`.
    pub fn new(url: &str) -> (builder: RequestBuilder)
        ensures
            builder@ == RequestView::initial(url@),
    {
        RequestBuilder { url: url.to_owned(), method: "GET".to_owned(), timeout: 30 }
    }

    /// Sets the method.
    pub fn method(self, method: &str) -> (builder: RequestBuilder)
        ensures
            builder@ == (RequestView { method: method@, ..self@ }),
    {
        let mut builder = self;
        builder.method = method.to_owned();
        builder
    }

    /// Sets the timeout in seconds.
    pub fn timeout(self, seconds: u32) -> (builder: RequestBuilder)
        ensures
            builder@ == (RequestView { timeout: seconds as nat, ..self@ }),
    {
        let mut builder = self;
        builder.timeout = seconds;
        builder
    }

    /// The line of the request.
    pub fn build(self) -> (text: String)
        ensures
            text@ == self@.line(),
    {
        let mut buffer: Vec<char> = Vec::new();
        push_text(&mut buffer, self.method.as_str());
        push_text(&mut buffer, " ");
        push_text(&mut buffer, self.url.as_str());
        push_text(&mut buffer, " (timeout: ");
        push_decimal(&mut buffer, self.timeout as i64);
        push_text(&mut buffer, "s)");
        string_from_chars(&buffer)
    }
}

} // verus!
