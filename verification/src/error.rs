//! The errors of building, running and decoding.

use vstd::prelude::*;

verus! {

/// What can go wrong between handing a statement to an executor and holding
/// its decoded result. Nothing here is ever recovered from or retried: every
/// error reaches the caller as the result of the operation that met it.
#[derive(Debug, PartialEq, Eq)]
pub enum Error {
    /// Exactly one row was asked for and the backend returned none.
    NotFound,
    /// A row could not be converted into the requested output type. The
    /// message is the decoder's own.
    Decode(String),
    /// The backend or the transport below it failed. The message is opaque
    /// to this crate and is handed on as the executor gave it.
    Backend(String),
}

impl Clone for Error {
    fn clone(&self) -> (copy: Self)
        ensures
            copy == *self,
    {
        match self {
            Error::NotFound => Error::NotFound,
            Error::Decode(message) => Error::Decode(message.clone()),
            Error::Backend(message) => Error::Backend(message.clone()),
        }
    }
}

} // verus!
