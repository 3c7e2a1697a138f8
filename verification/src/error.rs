//! The checked-call convention.
//!
//! Every fallible native call writes its status into an error
//! out-parameter.  Immediately after the call the out-parameter is
//! inspected: if it is set, a structured error (kind plus message) is
//! extracted and the call's primary return value is never interpreted.

use vstd::prelude::*;

verus! {

/// The failure classifier the native layer attaches to an error.
#[derive(Clone, Copy, Debug, PartialEq, Eq, Structural)]
pub enum ErrorKind {
    Unknown,
    CameraDisconnected,
    Backend,
    InvalidValue,
    WrongApiCallSequence,
    NotImplemented,
    DeviceInRecoveryMode,
    Io,
}

/// A structured error: the kind classifier and the human-readable message
/// that a native call left in its error out-parameter.
#[derive(Debug)]
pub struct RsError {
    pub kind: ErrorKind,
    pub message: String,
}

impl Clone for RsError {
    fn clone(&self) -> (r: Self)
        ensures
            r == *self,
    {
        RsError { kind: self.kind, message: self.message.clone() }
    }
}

/// The state of an error out-parameter after a native call returned:
/// either still clear (the call succeeded) or set with a kind and message.
#[derive(Debug)]
pub enum ErrorBuffer {
    Clear,
    Filled { kind: ErrorKind, message: String },
}

/// Result type of every fallible operation in this crate.
pub type RsResult<T> = Result<T, RsError>;

/// Inspects the error out-parameter a native call left behind.
///
/// A set out-parameter becomes a failure carrying exactly the recorded
/// kind and message; a clear one certifies that the call's primary return
/// value may be trusted.
pub fn check(buf: ErrorBuffer) -> (r: RsResult<()>)
    ensures
        match buf {
            ErrorBuffer::Clear => r is Ok,
            ErrorBuffer::Filled { kind, message } => (r matches Err(e) && e.kind == kind
                && e.message == message),
        },
{
    match buf {
        ErrorBuffer::Clear => Ok(()),
        ErrorBuffer::Filled { kind, message } => Err(RsError { kind, message }),
    }
}

} // verus!
