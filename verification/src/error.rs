//! The error that a malformed day specifier gives.

use vstd::prelude::*;
use vstd::string::*;

verus! {

/// What stands before the message when a `ParseDayError` is shown.
pub const DISPLAY_PREFIX: &'static str = "ParseDayError: ";

/// A day specifier that could not be read. Its view is the message that says why.
#[derive(Debug)]
pub struct ParseDayError {
    details: String,
}

impl View for ParseDayError {
    type V = Seq<char>;

    closed spec fn view(&self) -> Seq<char> {
        self.details@
    }
}

impl ParseDayError {
    /// An error that carries `msg`.
    pub fn new(msg: &str) -> (error: ParseDayError)
        ensures
            error@ == msg@,
    {
        ParseDayError { details: String::from_str(msg) }
    }

    /// The message alone.
    pub fn description(&self) -> (text: &str)
        ensures
            text@ == self@,
    {
        self.details.as_str()
    }

    /// The message as it is shown to a user: the type's name, a colon and the message.
    pub fn to_string(&self) -> (text: String)
        ensures
            text@ == DISPLAY_PREFIX@ + self@,
    {
        let mut text = String::from_str(DISPLAY_PREFIX);
        text.append(self.details.as_str());
        text
    }
}

} // verus!
