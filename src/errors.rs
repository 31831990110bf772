//! Errors that reach the caller of the library.
use vstd::prelude::*;

verus! {

/// What can go wrong when a request is handled.
#[derive(Clone, Copy, Debug, PartialEq, Eq, Structural)]
pub enum Error {
    /// The caller may not invoke the write path.
    Unauthorized,
    /// The requested item does not exist.
    NotFound,
    /// The submitted URL is not an absolute URL.
    InvalidUrl,
    /// The entry store could not take the entry.
    Storage,
}

impl Error {
    /// The HTTP status that reports this error.
    pub fn status_code(&self) -> (r: u16)
        ensures
            r == match *self {
                Error::Unauthorized => 401u16,
                Error::NotFound => 404u16,
                Error::InvalidUrl => 400u16,
                Error::Storage => 500u16,
            },
    {
        match self {
            Error::Unauthorized => 401,
            Error::NotFound => 404,
            Error::InvalidUrl => 400,
            Error::Storage => 500,
        }
    }

    /// The message shown to the caller.
    pub fn message(&self) -> (r: String)
        ensures
            r@ == match *self {
                Error::Unauthorized => "Unauthorized"@,
                Error::NotFound => "Not found"@,
                Error::InvalidUrl => "Invalid URL"@,
                Error::Storage => "Storage error"@,
            },
    {
        match self {
            Error::Unauthorized => String::from_str("Unauthorized"),
            Error::NotFound => String::from_str("Not found"),
            Error::InvalidUrl => String::from_str("Invalid URL"),
            Error::Storage => String::from_str("Storage error"),
        }
    }
}

} // verus!
