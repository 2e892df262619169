//! The error type of the budget guards.
use vstd::prelude::*;

verus! {

/// What went wrong, in one word.
#[derive(Clone, Copy, Debug, PartialEq, Eq, Structural)]
pub enum ErrorKind {
    /// An operation was attempted that is not possible.
    InvalidOperation,
    /// A method was called that the value does not have.
    UnknownMethod,
}

/// An error with its kind and a text that tells the details.
#[derive(Debug)]
pub struct Error {
    kind: ErrorKind,
    detail: String,
}

/// What an [`Error`] says.
pub struct ErrorView {
    pub kind: ErrorKind,
    pub detail: Seq<char>,
}

impl View for Error {
    type V = ErrorView;

    closed spec fn view(&self) -> ErrorView {
        ErrorView { kind: self.kind, detail: self.detail@ }
    }
}

impl Error {
    /// Creates an error of the given kind with the given details.
    pub fn new(kind: ErrorKind, detail: &str) -> (error: Error)
        ensures
            error@ == (ErrorView { kind, detail: detail@ }),
    {
        Error { kind, detail: detail.to_owned() }
    }

    /// Returns the kind of the error.
    pub fn kind(&self) -> (kind: ErrorKind)
        ensures
            kind == self@.kind,
    {
        self.kind
    }

    /// Returns the details of the error.
    pub fn detail(&self) -> (detail: &str)
        ensures
            detail@ == self@.detail,
    {
        self.detail.as_str()
    }
}

} // verus!
