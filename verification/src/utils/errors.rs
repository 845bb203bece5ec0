//! The error that a request handler answers with.

use vstd::prelude::*;
use vstd::string::*;

verus! {

/// The request succeeded.
pub const OK: u16 = 200;

/// The answer is found elsewhere: a redirect.
pub const FOUND: u16 = 302;

/// The request was not understood or not accepted.
pub const BAD_REQUEST: u16 = 400;

/// The request lacks valid credentials.
pub const UNAUTHORIZED: u16 = 401;

/// Nothing is found at that place.
pub const NOT_FOUND: u16 = 404;

/// The request is at odds with what is stored.
pub const CONFLICT: u16 = 409;

/// The server failed.
pub const INTERNAL_SERVER_ERROR: u16 = 500;

/// A failed request: the HTTP status to answer with, and a message for the
/// log. The answer carries the status alone.
#[derive(Debug)]
pub struct RyobError(pub u16, pub String);

impl RyobError {
    /// The error of the given status whose message is what `value` displays.
    pub fn from_display<T: std::fmt::Display>(code: u16, value: T) -> (r: RyobError)
        ensures
            r.0 == code,
            to_string_from_display_ensures::<T>(&value, r.1),
    {
        RyobError(code, value.to_string())
    }

    /// The message of the error.
    pub fn to_string(&self) -> (r: String)
        ensures
            r@ == self.1@,
    {
        self.1.clone()
    }
}

} // verus!
