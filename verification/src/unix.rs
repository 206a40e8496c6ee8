//! The emulated Unix-domain socket transport for the platform that has
//! no native one.
//!
//! This is an explicit stub boundary, not a real transport: it
//! implements only the shape of the stream contract.  Reads report an
//! empty stream, writes report success without accepting bytes, and
//! the peer credential resolves to a fixed placeholder process id.
//! Real byte transfer on that platform is deferred to the named-pipe
//! path, never to this shim.

use crate::error::{Async, IoError};
use crate::pid::Pid;
use crate::stream::AsyncStream;
use vstd::prelude::*;

verus! {

/// The placeholder process id the stub reports as peer credential.
pub const STUB_PEER_PID: i32 = 1;

/// A connected Unix socket, in name only: see the module comment.
#[derive(Debug)]
pub struct UnixStream;

/// A pending connection attempt on the emulated transport.
#[derive(Debug)]
pub struct ConnectFuture {
    inner: State,
}

#[derive(Debug)]
enum State {
    Waiting(UnixStream),
    Failed(IoError),
    Empty,
}

impl UnixStream {
    /// Starts a connection attempt; on this emulation it is complete at
    /// once, whatever the path.
    pub fn connect(path: &str) -> (r: ConnectFuture)
        ensures
            r.pending(),
            r.will_yield_stream(),
    {
        let _ = path;
        let res: Result<UnixStream, IoError> = Ok(UnixStream);
        let inner = match res {
            Ok(stream) => State::Waiting(stream),
            Err(e) => State::Failed(e),
        };
        ConnectFuture { inner }
    }

    /// A pair of connected anonymous sockets — both stubs, so both
    /// ends report the same placeholder peer credential.
    pub fn pair() -> (r: (UnixStream, UnixStream))
        ensures
            r.0.pid_spec() == r.1.pid_spec(),
            r.0.pid_spec() is Value,
    {
        (UnixStream, UnixStream)
    }

    /// The peer credential this end reports.
    pub open spec fn pid_spec(&self) -> Pid {
        Pid::Value(STUB_PEER_PID)
    }

    /// The peer credential: the emulation always resolves the fixed
    /// placeholder id, and never errs.
    pub fn pid(&self) -> (r: Result<Pid, IoError>)
        ensures
            r == Ok::<Pid, IoError>(self.pid_spec()),
            self.pid_spec() is Value,
    {
        Ok(Pid::Value(STUB_PEER_PID))
    }

    /// Immediate read: the stub stream is always empty, so this
    /// appends nothing and reports zero bytes — success, not an error.
    pub fn read(&mut self, buf: &mut Vec<u8>, cap: usize) -> (r: Result<usize, IoError>)
        ensures
            r == Ok::<usize, IoError>(0),
            final(buf)@ == old(buf)@,
            *final(self) == *old(self),
    {
        let _ = cap;
        let _ = buf;
        Ok(0)
    }

    /// Immediate write: reports nominal success while accepting no
    /// bytes.
    pub fn write(&mut self, buf: &Vec<u8>) -> (r: Result<usize, IoError>)
        ensures
            r == Ok::<usize, IoError>(0),
            *final(self) == *old(self),
    {
        let _ = buf;
        Ok(0)
    }

    /// Flushing the stub does nothing, successfully.
    pub fn flush(&mut self) -> (r: Result<(), IoError>)
        ensures
            r is Ok,
            *final(self) == *old(self),
    {
        Ok(())
    }
}

impl AsyncStream for UnixStream {
    /// Nothing is ever delivered on the stub.
    open spec fn readable(&self) -> Seq<u8> {
        Seq::empty()
    }

    /// The stub behaves as a stream at end of input.
    open spec fn read_closed(&self) -> bool {
        true
    }

    /// Nothing is ever accepted for sending.
    open spec fn written(&self) -> Seq<u8> {
        Seq::empty()
    }

    open spec fn shut(&self) -> bool {
        true
    }

    fn read_buf(&mut self, buf: &mut Vec<u8>) -> (r: Result<Async<usize>, IoError>)
        ensures
            r == Ok::<Async<usize>, IoError>(Async::Ready(0)),
    {
        let _ = buf;
        assert(old(buf)@ + self.readable().take(0) =~= old(buf)@);
        Ok(Async::Ready(0))
    }

    fn write_buf(&mut self, buf: &Vec<u8>, from: usize) -> (r: Result<Async<usize>, IoError>)
        ensures
            r == Ok::<Async<usize>, IoError>(Async::Ready(0)),
    {
        let _ = buf;
        let _ = from;
        assert(self.written() + buf@.subrange(from as int, from as int) =~= self.written());
        Ok(Async::Ready(0))
    }

    fn flush(&mut self) -> (r: Result<(), IoError>) {
        Ok(())
    }

    /// Shutdown on the stub is a best-effort no-op success.
    fn shutdown(&mut self) -> (r: Result<Async<()>, IoError>)
        ensures
            r matches Ok(Async::Ready(_)),
    {
        Ok(Async::Ready(()))
    }
}

impl ConnectFuture {
    /// Whether the attempt is still pending; polling a finished
    /// attempt is a contract violation, not a recoverable state.
    pub closed spec fn pending(&self) -> bool {
        !(self.inner is Empty)
    }

    /// Whether polling will yield a connected stream.
    pub closed spec fn will_yield_stream(&self) -> bool {
        self.inner is Waiting
    }

    /// Drives the attempt: yields the stream, or the failure, exactly
    /// once.
    pub fn poll(&mut self) -> (r: Result<Async<UnixStream>, IoError>)
        requires
            old(self).pending(),
        ensures
            !final(self).pending(),
            old(self).will_yield_stream() ==> (r matches Ok(Async::Ready(_))),
            !old(self).will_yield_stream() ==> r is Err,
    {
        let mut inner = State::Empty;
        core::mem::swap(&mut inner, &mut self.inner);
        match inner {
            State::Waiting(stream) => Ok(Async::Ready(stream)),
            State::Failed(e) => Err(e),
            State::Empty => Err(IoError::new(crate::error::IoErrorKind::Other)),
        }
    }
}

/// Peer-credential symmetry: for the two ends of one connected pair,
/// both sides resolve their peer's credential to a concrete process
/// id, never to an absent or indeterminate one, and the two ids agree.
pub proof fn lemma_pair_pid_symmetry(a: UnixStream, b: UnixStream)
    ensures
        a.pid_spec() == b.pid_spec(),
        a.pid_spec() is Value,
        b.pid_spec() is Value,
{
}

} // verus!
