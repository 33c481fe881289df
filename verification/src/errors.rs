//! Error taxonomy: construction failures, embedded-NUL argument failures,
//! and native-call failures carrying the error code captured at the moment
//! of failure.

use vstd::prelude::*;

verus! {

/// A process-wide error code captured immediately after a failing native
/// call, comparable against the host platform's error-code constants.
#[derive(Clone, Copy, PartialEq, Eq, Structural, Debug)]
pub struct Errno(pub i32);

/// What went wrong in an operation against the module database.
#[derive(Clone, Copy, PartialEq, Eq, Structural, Debug)]
pub enum Error {
    /// Session or handle creation returned an invalid handle with no
    /// further diagnostic available.
    Construction,
    /// A caller-supplied string contains an embedded NUL byte; detected
    /// locally, before any call reaches the module database.
    Nul,
    /// A native call reported failure; carries the error code read at the
    /// moment of failure.
    Errno(Errno),
}

impl Error {
    /// The captured error code, if this error came from a failed native call.
    pub fn errno(&self) -> (r: Option<Errno>)
        ensures
            r == (match *self {
                Error::Errno(e) => Some(e),
                _ => None::<Errno>,
            }),
    {
        match *self {
            Error::Errno(e) => Some(e),
            _ => None,
        }
    }
}

} // verus!
