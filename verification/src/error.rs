//! The error taxonomy shared by every operation.

use vstd::prelude::*;

verus! {

/// The kind of an [`Error`], without its message.
#[derive(Debug, Clone, Copy, PartialEq, Eq, Structural)]
pub enum ErrorKind {
    Unspecified,
    ParseError,
    SerializationError,
    NetworkError,
    ApiError,
    ArgumentError,
}

/// What went wrong, with a human-readable message.
#[derive(Debug, Clone)]
pub enum Error {
    /// An internal or unexpected condition.
    Unspecified(String),
    /// A body or a value could not be decoded, or an expected key was absent.
    ParseError(String),
    /// An outbound value could not be encoded.
    SerializationError(String),
    /// The transport did not complete the request.
    NetworkError(String),
    /// The server answered with a status other than 200.
    ApiError(String),
    /// An argument of the caller violates a precondition.
    ArgumentError(String),
}

/// The mathematical content of an [`Error`]: its kind and the characters of its message.
pub struct ErrorView {
    pub kind: ErrorKind,
    pub message: Seq<char>,
}

impl View for Error {
    type V = ErrorView;

    open spec fn view(&self) -> ErrorView {
        match *self {
            Error::Unspecified(m) => ErrorView { kind: ErrorKind::Unspecified, message: m@ },
            Error::ParseError(m) => ErrorView { kind: ErrorKind::ParseError, message: m@ },
            Error::SerializationError(m) => ErrorView {
                kind: ErrorKind::SerializationError,
                message: m@,
            },
            Error::NetworkError(m) => ErrorView { kind: ErrorKind::NetworkError, message: m@ },
            Error::ApiError(m) => ErrorView { kind: ErrorKind::ApiError, message: m@ },
            Error::ArgumentError(m) => ErrorView { kind: ErrorKind::ArgumentError, message: m@ },
        }
    }
}

impl Error {
    /// Builds the error of the given kind with the given message.
    pub fn new(kind: ErrorKind, message: String) -> (e: Error)
        ensures
            e@ == (ErrorView { kind, message: message@ }),
    {
        match kind {
            ErrorKind::Unspecified => Error::Unspecified(message),
            ErrorKind::ParseError => Error::ParseError(message),
            ErrorKind::SerializationError => Error::SerializationError(message),
            ErrorKind::NetworkError => Error::NetworkError(message),
            ErrorKind::ApiError => Error::ApiError(message),
            ErrorKind::ArgumentError => Error::ArgumentError(message),
        }
    }

    /// The kind of this error.
    pub fn kind(&self) -> (k: ErrorKind)
        ensures
            k == self@.kind,
    {
        match self {
            Error::Unspecified(_) => ErrorKind::Unspecified,
            Error::ParseError(_) => ErrorKind::ParseError,
            Error::SerializationError(_) => ErrorKind::SerializationError,
            Error::NetworkError(_) => ErrorKind::NetworkError,
            Error::ApiError(_) => ErrorKind::ApiError,
            Error::ArgumentError(_) => ErrorKind::ArgumentError,
        }
    }

    /// The text that describes this error: the message it carries, whatever its kind.
    pub fn message(&self) -> (text: String)
        ensures
            text@ == self@.message,
    {
        match self {
            Error::Unspecified(m) => m.clone(),
            Error::ParseError(m) => m.clone(),
            Error::SerializationError(m) => m.clone(),
            Error::NetworkError(m) => m.clone(),
            Error::ApiError(m) => m.clone(),
            Error::ArgumentError(m) => m.clone(),
        }
    }
}

} // verus!
