//! Error values shared by the transport layer.
//!
//! Every failure is reported as an [`Error`] carrying a message. The two
//! helper constructors mirror the two families of failure: OS-level socket
//! errors (with a caller-supplied description) and the contract violation of
//! operating on a socket that is not bound.

use vstd::prelude::*;

verus! {

/// The message every not-bound failure carries.
pub open spec fn not_bound_msg() -> Seq<char> {
    "socket is not bound"@
}

/// The message a second start of a running server carries.
pub open spec fn already_running_msg() -> Seq<char> {
    "server is already running"@
}

/// An error of the transport layer: a plain message.
#[derive(Debug, Clone)]
pub struct Error {
    pub msg: String,
}

impl View for Error {
    type V = Seq<char>;

    open spec fn view(&self) -> Seq<char> {
        self.msg@
    }
}

impl Error {
    /// Creates a new `Error` with the specified string.
    pub fn from_str(s: &str) -> (r: Error)
        ensures
            r@ == s@,
    {
        Error { msg: s.to_owned() }
    }

    /// Creates a new `Error` with the specified string.
    pub fn from_string(s: &String) -> (r: Error)
        ensures
            r@ == s@,
    {
        Error { msg: s.clone() }
    }

    /// Returns the error message.
    pub fn message(&self) -> (r: &str)
        ensures
            r@ == self@,
    {
        self.msg.as_str()
    }
}

/// An OS-level socket failure, described by a caller-supplied message.
pub struct ScoketError {}

impl ScoketError {
    pub fn new(msg: &str) -> (r: Error)
        ensures
            r@ == msg@,
    {
        Error::from_str(msg)
    }
}

/// The error returned when a socket operation requires a bound socket.
pub struct BindError {}

impl BindError {
    pub fn new() -> (r: Error)
        ensures
            r@ == not_bound_msg(),
    {
        ScoketError::new("socket is not bound")
    }
}

} // verus!
