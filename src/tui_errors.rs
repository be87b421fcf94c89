use vstd::prelude::*;

use crate::string_plus::char_to_string;
use vstd::string::StringExecFns;

verus! {

/// An error that the operating system reported, with its description.
#[derive(Clone, Debug)]
pub struct CError {
    pub error_string: String,
}

impl CError {
    pub fn new(error_string: String) -> (r: CError)
        ensures
            r.error_string@ == error_string@,
    {
        CError { error_string }
    }

    /// The description of the error.
    pub fn message(&self) -> (r: String)
        ensures
            r@ == self.error_string@,
    {
        self.error_string.clone()
    }
}

/// Reading from the terminal failed.
#[derive(Clone, Copy, PartialEq, Eq, Debug, Structural)]
pub struct IOError {}

impl IOError {
    pub fn message(&self) -> (r: String)
        ensures
            r@ == "IO Error"@,
    {
        String::from_str("IO Error")
    }
}

/// A number in a terminal report does not fit in a `u16`.
#[derive(Clone, Copy, PartialEq, Eq, Debug, Structural)]
pub struct OverflowError {}

impl OverflowError {
    pub fn message(&self) -> (r: String)
        ensures
            r@ == "Overflow"@,
    {
        String::from_str("Overflow")
    }
}

/// The terminal sent `recieved` where `expected` belonged.
#[derive(Clone, Copy, PartialEq, Eq, Debug, Structural)]
pub struct TuiUnexpectedInputError {
    pub expected: char,
    pub recieved: char,
}

impl TuiUnexpectedInputError {
    /// `Expected: <expected>` and `Got: <recieved>` on two lines.
    pub fn message(&self) -> (r: String)
        ensures
            r@ == "Expected: "@ + seq![self.expected] + "\nGot: "@ + seq![self.recieved],
    {
        let mut s = String::from_str("Expected: ");
        let expected = char_to_string(self.expected);
        s.append(expected.as_str());
        s.append("\nGot: ");
        let recieved = char_to_string(self.recieved);
        s.append(recieved.as_str());
        s
    }
}

} // verus!
