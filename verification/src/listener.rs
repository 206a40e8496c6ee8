//! The emulated Unix-domain socket listener: part of the same stub
//! boundary as [`crate::unix::UnixStream`].  Binding always succeeds
//! and every accept yields a fresh stub stream with an unnamed peer
//! address.

use crate::addr::SocketAddr;
use crate::error::{Async, IoError};
use crate::unix::UnixStream;
use vstd::prelude::*;

verus! {

/// A bound listener on the emulated Unix-domain transport.
#[derive(Debug)]
pub struct UnixListener;

impl UnixListener {
    /// Binds the emulated listener; on this platform the bind itself
    /// cannot fail, whatever the path.
    pub fn bind(path: &str) -> (r: Result<UnixListener, IoError>)
        ensures
            r is Ok,
    {
        let _ = path;
        Ok(UnixListener)
    }

    /// Accepts the next connection: always ready at once, yielding a
    /// stub stream and an unnamed, well-formed peer address.
    pub fn poll_accept(&self) -> (r: Result<Async<(UnixStream, SocketAddr)>, IoError>)
        ensures
            (r matches Ok(Async::Ready(p)) && p.1.wf() && !p.1.is_named()),
    {
        Ok(Async::Ready((UnixStream, SocketAddr::new())))
    }
}

} // verus!
