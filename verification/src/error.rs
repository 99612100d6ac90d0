//! The error that handlers report.

use vstd::prelude::*;

verus! {

/// A failure of a message handler, described for the user.
#[derive(Debug, Clone, PartialEq, Eq)]
pub struct GuiError {
    message: String,
}

impl View for GuiError {
    type V = Seq<char>;

    /// The description, as a sequence of characters.
    closed spec fn view(&self) -> Seq<char> {
        self.message@
    }
}

impl GuiError {
    /// An error with the given description.
    pub fn new(message: String) -> (error: GuiError)
        ensures
            error@ == message@,
    {
        GuiError { message }
    }

    /// The description of the error.
    pub fn message(&self) -> (message: &String)
        ensures
            message@ == self@,
    {
        &self.message
    }

    /// The description, owned: what the error modal shows as the cause.
    pub fn to_string(&self) -> (cause: String)
        ensures
            cause@ == self@,
    {
        self.message.clone()
    }
}

} // verus!
