//! The tagged union over the concrete stream types the listeners
//! produce: the single type the rest of the server programs against.
//! Every I/O operation dispatches exhaustively over the variants, and
//! peer-credential extraction is offered uniformly: transports without
//! a credential notion answer `Pid::Any` rather than erring.

use crate::error::{Async, IoError};
use crate::pid::Pid;
use crate::stream::{AsyncStream, PipeStream, TcpStream};
use crate::unix::UnixStream;
use vstd::prelude::*;

verus! {

/// One accepted connection, from whichever listener produced it.
#[derive(Debug)]
pub enum StreamSelector {
    Tcp(TcpStream),
    Pipe(PipeStream),
    Unix(UnixStream),
}

/// The peer credential each variant reports: TCP and named pipes have
/// no peer-credential notion; the emulated Unix stream resolves its
/// placeholder id.
pub open spec fn selector_pid_spec(s: &StreamSelector) -> Pid {
    match s {
        StreamSelector::Tcp(_) => Pid::Any,
        StreamSelector::Pipe(_) => Pid::Any,
        StreamSelector::Unix(u) => u.pid_spec(),
    }
}

/// How many bytes an immediate write on this variant accepts: all of
/// them, except on the no-op Unix stub, which accepts none.
pub open spec fn selector_write_len(s: &StreamSelector, len: nat) -> nat {
    match s {
        StreamSelector::Tcp(_) => len,
        StreamSelector::Pipe(_) => len,
        StreamSelector::Unix(_) => 0,
    }
}

impl StreamSelector {
    /// Resolves the peer credential; this never fails on any of these
    /// variants (the stub's query cannot fail, and the others answer
    /// `Any` unconditionally).
    pub fn pid(&self) -> (r: Result<Pid, IoError>)
        ensures
            r == Ok::<Pid, IoError>(selector_pid_spec(self)),
    {
        match self {
            StreamSelector::Tcp(_) => Ok(Pid::Any),
            StreamSelector::Pipe(_) => Ok(Pid::Any),
            StreamSelector::Unix(stream) => stream.pid(),
        }
    }

    /// Immediate read of up to `cap` bytes, appended to `buf`,
    /// dispatched to the underlying transport.  Reading zero bytes —
    /// in particular from a freshly accepted, never-written
    /// connection — is a successful empty read, never an error.
    pub fn read(&mut self, buf: &mut Vec<u8>, cap: usize) -> (r: Result<usize, IoError>)
        ensures
            (r matches Ok(n) ==> {
                &&& n == vstd::math::min(cap as int, old(self).readable().len() as int)
                &&& final(buf)@ == old(buf)@ + old(self).readable().take(n as int)
                &&& final(self).readable() == old(self).readable().skip(n as int)
                &&& final(self).written() == old(self).written()
            }),
            r is Ok,
    {
        match self {
            StreamSelector::Tcp(stream) => stream.read(buf, cap),
            StreamSelector::Pipe(stream) => stream.read(buf, cap),
            StreamSelector::Unix(stream) => {
                let r = stream.read(buf, cap);
                assert(old(buf)@ + Seq::<u8>::empty().take(0) =~= old(buf)@);
                r
            },
        }
    }

    /// Immediate write, dispatched to the underlying transport.
    pub fn write(&mut self, buf: &Vec<u8>) -> (r: Result<usize, IoError>)
        ensures
            r == Ok::<usize, IoError>(selector_write_len(old(self), buf@.len() as nat) as usize),
            final(self).written() == old(self).written() + buf@.take(
                selector_write_len(old(self), buf@.len() as nat) as int,
            ),
            final(self).readable() == old(self).readable(),
    {
        match self {
            StreamSelector::Tcp(stream) => {
                let r = stream.write(buf);
                assert(buf@.take(buf@.len() as int) =~= buf@);
                r
            },
            StreamSelector::Pipe(stream) => {
                let r = stream.write(buf);
                assert(buf@.take(buf@.len() as int) =~= buf@);
                r
            },
            StreamSelector::Unix(stream) => {
                let r = stream.write(buf);
                assert(old(self).written() + buf@.take(0) =~= old(self).written());
                r
            },
        }
    }

    /// Flush, dispatched to the underlying transport; always succeeds
    /// on these variants.
    pub fn flush(&mut self) -> (r: Result<(), IoError>)
        ensures
            r is Ok,
    {
        match self {
            StreamSelector::Tcp(stream) => stream.flush(),
            StreamSelector::Pipe(stream) => stream.flush(),
            StreamSelector::Unix(stream) => stream.flush(),
        }
    }
}

impl AsyncStream for StreamSelector {
    open spec fn readable(&self) -> Seq<u8> {
        match self {
            StreamSelector::Tcp(s) => s.readable(),
            StreamSelector::Pipe(s) => s.readable(),
            StreamSelector::Unix(s) => s.readable(),
        }
    }

    open spec fn read_closed(&self) -> bool {
        match self {
            StreamSelector::Tcp(s) => s.read_closed(),
            StreamSelector::Pipe(s) => s.read_closed(),
            StreamSelector::Unix(s) => s.read_closed(),
        }
    }

    open spec fn written(&self) -> Seq<u8> {
        match self {
            StreamSelector::Tcp(s) => s.written(),
            StreamSelector::Pipe(s) => s.written(),
            StreamSelector::Unix(s) => s.written(),
        }
    }

    open spec fn shut(&self) -> bool {
        match self {
            StreamSelector::Tcp(s) => s.shut(),
            StreamSelector::Pipe(s) => s.shut(),
            StreamSelector::Unix(s) => s.shut(),
        }
    }

    fn read_buf(&mut self, buf: &mut Vec<u8>) -> (r: Result<Async<usize>, IoError>) {
        match self {
            StreamSelector::Tcp(stream) => stream.read_buf(buf),
            StreamSelector::Pipe(stream) => stream.read_buf(buf),
            StreamSelector::Unix(stream) => stream.read_buf(buf),
        }
    }

    fn write_buf(&mut self, buf: &Vec<u8>, from: usize) -> (r: Result<Async<usize>, IoError>) {
        match self {
            StreamSelector::Tcp(stream) => stream.write_buf(buf, from),
            StreamSelector::Pipe(stream) => stream.write_buf(buf, from),
            StreamSelector::Unix(stream) => stream.write_buf(buf, from),
        }
    }

    fn flush(&mut self) -> (r: Result<(), IoError>) {
        match self {
            StreamSelector::Tcp(stream) => AsyncStream::flush(stream),
            StreamSelector::Pipe(stream) => AsyncStream::flush(stream),
            StreamSelector::Unix(stream) => AsyncStream::flush(stream),
        }
    }

    /// Shutdown dispatches to the transport's half-close; on every
    /// variant here it completes at once.
    fn shutdown(&mut self) -> (r: Result<Async<()>, IoError>)
        ensures
            r matches Ok(Async::Ready(_)),
    {
        match self {
            StreamSelector::Tcp(stream) => stream.shutdown(),
            StreamSelector::Pipe(stream) => stream.shutdown(),
            StreamSelector::Unix(stream) => stream.shutdown(),
        }
    }
}

} // verus!
