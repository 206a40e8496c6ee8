//! Peer credentials: the identity of the process on the other end of a
//! connected local socket.

use vstd::prelude::*;

verus! {

/// The peer credential reported for one end of a connected stream.
#[derive(Clone, Copy, Debug, PartialEq, Eq, Structural)]
pub enum Pid {
    /// The transport could have produced a credential but did not.
    Absent,
    /// The transport categorically has no peer-credential notion
    /// (TCP, named pipes).
    Any,
    /// A concrete OS process id recovered from the socket.
    Value(i32),
}

} // verus!
