//! Top-level error types

use vstd::prelude::*;

verus! {

/// The application failed.
#[derive(Debug, Clone, Copy, PartialEq, Eq, Structural)]
pub struct AppError;

/// A suggestion for resolving an application error
#[derive(Debug, Clone, Copy)]
pub struct Suggestion(pub &'static str);

/// `String::push_str`: appends `tail` to `text`, as std documents.
#[verifier::external_body]
fn push_str(text: &mut String, tail: &str)
    ensures
        final(text)@ == old(text)@ + tail@,
{
    text.push_str(tail)
}

impl Suggestion {
    /// The text that an error report shows for this suggestion: `suggestion: `
    /// followed by the suggestion.
    pub fn body(&self) -> (body: String)
        ensures
            body@ == "suggestion: "@ + self.0@,
    {
        let mut body = "suggestion: ".to_owned();
        push_str(&mut body, self.0);
        body
    }
}

} // verus!
