//! Error values and the readiness result used by the non-blocking
//! stream operations.

use vstd::prelude::*;

verus! {

/// The category of an I/O failure.
#[derive(Clone, Copy, Debug, PartialEq, Eq, Structural)]
pub enum IoErrorKind {
    /// The peer closed the connection before the operation could finish.
    UnexpectedEof,
    /// The proxy answered the CONNECT request with something other than a
    /// `200` status line.
    TunnelRejected,
    /// An input (for example a destination URI) was rejected before any
    /// I/O was attempted.
    InvalidInput,
    /// Any other failure; the collapsed category used at the connector
    /// boundary.
    Other,
}

/// An I/O failure, carrying its category.
#[derive(Clone, Copy, Debug, PartialEq, Eq, Structural)]
pub struct IoError {
    pub kind: IoErrorKind,
}

impl IoError {
    /// Builds an error of the given category.
    pub fn new(kind: IoErrorKind) -> (r: IoError)
        ensures
            r.kind == kind,
    {
        IoError { kind }
    }
}

/// The result of one step of a non-blocking operation: either the
/// operation completed with a value, or it must be retried once the
/// underlying transport is ready.
#[derive(Clone, Copy, Debug, PartialEq, Eq, Structural)]
pub enum Async<T> {
    Ready(T),
    NotReady,
}

} // verus!
