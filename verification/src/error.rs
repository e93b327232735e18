//! The error value returned by every fallible operation of this crate.

use vstd::prelude::*;
use vstd::string::StringExecFns;

verus! {

/// Ghost description of an [`Error`]: its message and, when a caller
/// captured one, the stack trace attached at construction.
pub struct ErrorSpec {
    pub message: Seq<char>,
    pub backtrace: Option<Seq<char>>,
}

/// A general error with a human-readable message and an optional backtrace.
///
/// The taxonomy of failures (out-of-range conversion, overflow, domain
/// errors) lives entirely in the message text; callers who need to branch on
/// the failure kind match on the message.
#[derive(Debug)]
pub struct Error {
    message: String,
    backtrace: Option<String>,
}

impl View for Error {
    type V = ErrorSpec;

    closed spec fn view(&self) -> ErrorSpec {
        ErrorSpec {
            message: self.message@,
            backtrace: match self.backtrace {
                Some(ref b) => Some(b@),
                None => None,
            },
        }
    }
}

impl Error {
    /// Creates a new error carrying `message` and no backtrace.
    pub fn new(message: String) -> (r: Self)
        ensures
            r@.message == message@,
            r@.backtrace is None,
    {
        Error { message, backtrace: None }
    }

    /// Creates a new error carrying `message` and the given captured trace.
    pub fn new_with_backtrace(message: String, backtrace: String) -> (r: Self)
        ensures
            r@.message == message@,
            r@.backtrace == Some(backtrace@),
    {
        Error { message, backtrace: Some(backtrace) }
    }

    /// Description of the error.
    pub fn message(&self) -> (r: &str)
        ensures
            r@ == self@.message,
    {
        self.message.as_str()
    }

    /// Backtrace to where the error was created, when one was captured.
    pub fn backtrace(&self) -> (r: &Option<String>)
        ensures
            match r {
                Some(b) => self@.backtrace == Some(b@),
                None => self@.backtrace is None,
            },
    {
        &self.backtrace
    }

    /// The full diagnostic rendering: the message, followed by the backtrace
    /// section when a trace was captured.
    pub fn display_string(&self) -> (r: String)
        ensures
            r@ == self@.rendered(),
    {
        let mut out = self.message.clone();
        match &self.backtrace {
            Some(b) => {
                out.append("\nstack backtrace:\n");
                out.append(b.as_str());
            },
            None => {},
        }
        out
    }
}

impl ErrorSpec {
    /// What [`Error::display_string`] returns: the message alone, or the
    /// message followed by the backtrace section.
    pub open spec fn rendered(self) -> Seq<char> {
        match self.backtrace {
            Some(b) => self.message + "\nstack backtrace:\n"@ + b,
            None => self.message,
        }
    }
}

} // verus!
