//! The uniform non-blocking stream contract, and the connection models
//! for the transports whose byte transfer is performed by the OS.
//!
//! Every operation either completes at once or reports `NotReady`; no
//! operation may block the calling thread.  A connection's transfer
//! state is modelled explicitly: the bytes the OS has delivered from
//! the peer but the library has not yet consumed (`readable`), whether
//! the peer has closed its side (`read_closed`), and the bytes this
//! side has handed to the OS for sending (`written`).  The executor
//! that owns the OS handles feeds delivered bytes in and drains written
//! bytes out; everything the library decides about those bytes is
//! verified here.

use crate::error::{Async, IoError};
use vstd::prelude::*;

verus! {

/// The uniform non-blocking duplex stream contract.
///
/// `read_buf` and `write_buf` are the cooperative, readiness-based
/// variants: they complete with `Async::Ready` or report
/// `Async::NotReady` without blocking.  A completed read of zero bytes
/// signals end of stream and happens only once nothing is left to
/// deliver.
pub trait AsyncStream: Sized {
    /// Bytes delivered by the peer and not yet read.
    spec fn readable(&self) -> Seq<u8>;

    /// Whether the peer has closed its sending side.
    spec fn read_closed(&self) -> bool;

    /// Bytes this side has accepted for sending, in order.
    spec fn written(&self) -> Seq<u8>;

    /// Whether this side has shut its sending half down.
    spec fn shut(&self) -> bool;

    /// Reads available bytes, appending them to `buf`.  `NotReady` is
    /// only for a silent peer: never while delivered bytes wait, nor
    /// after the peer has closed.
    fn read_buf(&mut self, buf: &mut Vec<u8>) -> (r: Result<Async<usize>, IoError>)
        ensures
            (r matches Ok(Async::NotReady) ==> old(self).readable().len() == 0 && !old(
                self,
            ).read_closed()),
            (r matches Ok(Async::Ready(n)) ==> {
                &&& n <= old(self).readable().len()
                &&& final(buf)@ == old(buf)@ + old(self).readable().take(n as int)
                &&& final(self).readable() == old(self).readable().skip(n as int)
                &&& (n == 0 ==> old(self).readable().len() == 0)
                &&& final(self).written() == old(self).written()
                &&& final(self).read_closed() == old(self).read_closed()
                &&& final(self).shut() == old(self).shut()
            }),
            (!(r matches Ok(Async::Ready(_))) ==> *final(self) == *old(self) && final(buf)@ == old(
                buf,
            )@),
    ;

    /// Writes bytes starting at offset `from` of `buf`.
    fn write_buf(&mut self, buf: &Vec<u8>, from: usize) -> (r: Result<Async<usize>, IoError>)
        requires
            from <= buf.len(),
        ensures
            (r matches Ok(Async::Ready(n)) ==> {
                &&& n <= buf@.len() - from
                &&& final(self).written() == old(self).written() + buf@.subrange(
                    from as int,
                    from + n,
                )
                &&& final(self).readable() == old(self).readable()
                &&& final(self).read_closed() == old(self).read_closed()
                &&& final(self).shut() == old(self).shut()
            }),
            (!(r matches Ok(Async::Ready(_))) ==> *final(self) == *old(self)),
    ;

    /// Flushes buffered writes; the models buffer nothing beyond what
    /// `written` reports, so this always succeeds without effect.
    fn flush(&mut self) -> (r: Result<(), IoError>)
        ensures
            r is Ok,
            *final(self) == *old(self),
    ;

    /// Shuts the sending half down.
    fn shutdown(&mut self) -> (r: Result<Async<()>, IoError>)
        ensures
            (r matches Ok(Async::Ready(_)) ==> {
                &&& final(self).shut()
                &&& final(self).readable() == old(self).readable()
                &&& final(self).read_closed() == old(self).read_closed()
                &&& final(self).written() == old(self).written()
            }),
            (!(r matches Ok(Async::Ready(_))) ==> *final(self) == *old(self)),
    ;
}

/// The transfer state of one connected duplex byte channel.
#[derive(Debug)]
pub struct ByteChannel {
    inbox: Vec<u8>,
    peer_closed: bool,
    outbox: Vec<u8>,
    is_shut: bool,
}

impl ByteChannel {
    pub closed spec fn readable(&self) -> Seq<u8> {
        self.inbox@
    }

    pub closed spec fn read_closed(&self) -> bool {
        self.peer_closed
    }

    pub closed spec fn written(&self) -> Seq<u8> {
        self.outbox@
    }

    pub closed spec fn shut(&self) -> bool {
        self.is_shut
    }

    /// A freshly established connection: nothing delivered, nothing
    /// written, both sides open.
    pub fn new() -> (r: ByteChannel)
        ensures
            r.readable() == Seq::<u8>::empty(),
            !r.read_closed(),
            r.written() == Seq::<u8>::empty(),
            !r.shut(),
    {
        ByteChannel { inbox: Vec::new(), peer_closed: false, outbox: Vec::new(), is_shut: false }
    }

    /// The OS delivered bytes from the peer.
    pub fn deliver(&mut self, data: Vec<u8>)
        ensures
            final(self).readable() == old(self).readable() + data@,
            final(self).read_closed() == old(self).read_closed(),
            final(self).written() == old(self).written(),
            final(self).shut() == old(self).shut(),
    {
        let mut data = data;
        self.inbox.append(&mut data);
    }

    /// The peer closed its sending side.
    pub fn close_peer(&mut self)
        ensures
            final(self).read_closed(),
            final(self).readable() == old(self).readable(),
            final(self).written() == old(self).written(),
            final(self).shut() == old(self).shut(),
    {
        self.peer_closed = true;
    }

    /// The bytes handed to the OS for sending so far.
    pub fn output(&self) -> (r: &Vec<u8>)
        ensures
            r@ == self.written(),
    {
        &self.outbox
    }

    /// Reads everything available, appending it to `buf`: zero bytes
    /// only at end of stream, `NotReady` while the peer is silent.
    pub fn read_buf(&mut self, buf: &mut Vec<u8>) -> (r: Result<Async<usize>, IoError>)
        ensures
            (r matches Ok(Async::Ready(n)) ==> {
                &&& n == old(self).readable().len()
                &&& final(buf)@ == old(buf)@ + old(self).readable()
                &&& final(self).readable() == Seq::<u8>::empty()
                &&& (n == 0 ==> old(self).read_closed())
                &&& final(self).written() == old(self).written()
                &&& final(self).read_closed() == old(self).read_closed()
                &&& final(self).shut() == old(self).shut()
            }),
            (r matches Ok(Async::NotReady) ==> *final(self) == *old(self) && final(buf)@ == old(
                buf,
            )@ && old(self).readable().len() == 0 && !old(self).read_closed()),
            r is Err ==> *final(self) == *old(self) && final(buf)@ == old(buf)@,
            r is Ok,
    {
        if self.inbox.len() == 0 {
            if self.peer_closed {
                Ok(Async::Ready(0))
            } else {
                Ok(Async::NotReady)
            }
        } else {
            let n = self.inbox.len();
            buf.append(&mut self.inbox);
            assert(self.inbox@ =~= Seq::<u8>::empty());
            Ok(Async::Ready(n))
        }
    }

    /// Accepts all remaining bytes of `buf` from offset `from` for
    /// sending.
    pub fn write_buf(&mut self, buf: &Vec<u8>, from: usize) -> (r: Result<Async<usize>, IoError>)
        requires
            from <= buf.len(),
        ensures
            (r matches Ok(Async::Ready(n)) ==> {
                &&& n == buf@.len() - from
                &&& final(self).written() == old(self).written() + buf@.subrange(
                    from as int,
                    buf@.len() as int,
                )
                &&& final(self).readable() == old(self).readable()
                &&& final(self).read_closed() == old(self).read_closed()
                &&& final(self).shut() == old(self).shut()
            }),
            r is Ok && (r matches Ok(Async::Ready(_))),
    {
        let n = buf.len() - from;
        let mut i: usize = from;
        while i < buf.len()
            invariant
                from <= i <= buf@.len(),
                self.outbox@ == old(self).outbox@ + buf@.subrange(from as int, i as int),
                self.inbox@ == old(self).inbox@,
                self.peer_closed == old(self).peer_closed,
                self.is_shut == old(self).is_shut,
            decreases buf@.len() - i,
        {
            self.outbox.push(buf[i]);
            assert(self.outbox@ =~= old(self).outbox@ + buf@.subrange(from as int, i as int + 1));
            i = i + 1;
        }
        Ok(Async::Ready(n))
    }

    /// Shuts the sending half down.
    pub fn shutdown(&mut self) -> (r: Result<Async<()>, IoError>)
        ensures
            r == Ok::<Async<()>, IoError>(Async::Ready(())),
            final(self).shut(),
            final(self).readable() == old(self).readable(),
            final(self).read_closed() == old(self).read_closed(),
            final(self).written() == old(self).written(),
    {
        self.is_shut = true;
        Ok(Async::Ready(()))
    }

    /// Immediate read of up to `cap` bytes, appended to `buf`; reading
    /// zero bytes is a successful empty read, never an error.
    pub fn read(&mut self, buf: &mut Vec<u8>, cap: usize) -> (r: Result<usize, IoError>)
        ensures
            (r matches Ok(n) ==> {
                &&& n == vstd::math::min(cap as int, old(self).readable().len() as int)
                &&& final(buf)@ == old(buf)@ + old(self).readable().take(n as int)
                &&& final(self).readable() == old(self).readable().skip(n as int)
                &&& final(self).written() == old(self).written()
                &&& final(self).read_closed() == old(self).read_closed()
                &&& final(self).shut() == old(self).shut()
            }),
            r is Ok,
    {
        let mut n: usize = cap;
        if self.inbox.len() < cap {
            n = self.inbox.len();
        }
        let mut i: usize = 0;
        while i < n
            invariant
                i <= n,
                n <= old(self).inbox@.len(),
                self.inbox@ == old(self).inbox@.skip(i as int),
                buf@ == old(buf)@ + old(self).inbox@.take(i as int),
                n == vstd::math::min(cap as int, old(self).inbox@.len() as int),
                self.outbox@ == old(self).outbox@,
                self.peer_closed == old(self).peer_closed,
                self.is_shut == old(self).is_shut,
            decreases n - i,
        {
            let b = self.inbox.remove(0);
            buf.push(b);
            proof {
                assert(self.inbox@ =~= old(self).inbox@.skip(i as int + 1));
                assert(buf@ =~= old(buf)@ + old(self).inbox@.take(i as int + 1));
            }
            i = i + 1;
        }
        Ok(n)
    }

    /// Immediate write: accepts all of `buf` for sending.
    pub fn write(&mut self, buf: &Vec<u8>) -> (r: Result<usize, IoError>)
        ensures
            r == Ok::<usize, IoError>(buf.len()),
            final(self).written() == old(self).written() + buf@,
            final(self).readable() == old(self).readable(),
            final(self).read_closed() == old(self).read_closed(),
            final(self).shut() == old(self).shut(),
    {
        let r = self.write_buf(buf, 0);
        assert(buf@.subrange(0, buf@.len() as int) =~= buf@);
        match r {
            Ok(Async::Ready(n)) => Ok(n),
            _ => unreached(),
        }
    }
}

/// An accepted or dialled TCP connection, by its transfer state; the
/// socket itself lives with the executor that feeds this model.
#[derive(Debug)]
pub struct TcpStream {
    chan: ByteChannel,
}

/// An accepted named-pipe connection, by its transfer state; the pipe
/// handle lives with the executor that feeds this model.
#[derive(Debug)]
pub struct PipeStream {
    chan: ByteChannel,
}

impl TcpStream {
    pub fn new() -> (r: TcpStream)
        ensures
            r.readable() == Seq::<u8>::empty(),
            !r.read_closed(),
            r.written() == Seq::<u8>::empty(),
            !r.shut(),
    {
        TcpStream { chan: ByteChannel::new() }
    }

    /// The OS delivered bytes from the peer.
    pub fn deliver(&mut self, data: Vec<u8>)
        ensures
            final(self).readable() == old(self).readable() + data@,
            final(self).read_closed() == old(self).read_closed(),
            final(self).written() == old(self).written(),
            final(self).shut() == old(self).shut(),
    {
        self.chan.deliver(data)
    }

    /// The peer closed its sending side.
    pub fn close_peer(&mut self)
        ensures
            final(self).read_closed(),
            final(self).readable() == old(self).readable(),
            final(self).written() == old(self).written(),
            final(self).shut() == old(self).shut(),
    {
        self.chan.close_peer()
    }

    /// The bytes handed to the OS for sending so far.
    pub fn output(&self) -> (r: &Vec<u8>)
        ensures
            r@ == self.written(),
    {
        self.chan.output()
    }

    /// Immediate read of up to `cap` bytes, appended to `buf`; reading
    /// zero bytes is a successful empty read, never an error.
    pub fn read(&mut self, buf: &mut Vec<u8>, cap: usize) -> (r: Result<usize, IoError>)
        ensures
            (r matches Ok(n) ==> {
                &&& n == vstd::math::min(cap as int, old(self).readable().len() as int)
                &&& final(buf)@ == old(buf)@ + old(self).readable().take(n as int)
                &&& final(self).readable() == old(self).readable().skip(n as int)
                &&& final(self).written() == old(self).written()
                &&& final(self).read_closed() == old(self).read_closed()
                &&& final(self).shut() == old(self).shut()
            }),
            r is Ok,
    {
        self.chan.read(buf, cap)
    }

    /// Immediate write: accepts all of `buf` for sending.
    pub fn write(&mut self, buf: &Vec<u8>) -> (r: Result<usize, IoError>)
        ensures
            r == Ok::<usize, IoError>(buf.len()),
            final(self).written() == old(self).written() + buf@,
            final(self).readable() == old(self).readable(),
            final(self).read_closed() == old(self).read_closed(),
            final(self).shut() == old(self).shut(),
    {
        self.chan.write(buf)
    }
}

impl AsyncStream for TcpStream {
    closed spec fn readable(&self) -> Seq<u8> {
        self.chan.readable()
    }

    closed spec fn read_closed(&self) -> bool {
        self.chan.read_closed()
    }

    closed spec fn written(&self) -> Seq<u8> {
        self.chan.written()
    }

    closed spec fn shut(&self) -> bool {
        self.chan.shut()
    }

    fn read_buf(&mut self, buf: &mut Vec<u8>) -> (r: Result<Async<usize>, IoError>)
        ensures
            r is Ok,
            (r matches Ok(Async::NotReady) ==> old(self).readable().len() == 0 && !old(
                self,
            ).read_closed()),
            (r matches Ok(Async::Ready(n)) ==> n == old(self).readable().len()),
    {
        self.chan.read_buf(buf)
    }

    fn write_buf(&mut self, buf: &Vec<u8>, from: usize) -> (r: Result<Async<usize>, IoError>)
        ensures
            (r matches Ok(Async::Ready(n)) && n == buf@.len() - from),
    {
        self.chan.write_buf(buf, from)
    }

    fn flush(&mut self) -> (r: Result<(), IoError>) {
        Ok(())
    }

    fn shutdown(&mut self) -> (r: Result<Async<()>, IoError>)
        ensures
            r matches Ok(Async::Ready(_)),
    {
        self.chan.shutdown()
    }
}

impl PipeStream {
    pub fn new() -> (r: PipeStream)
        ensures
            r.readable() == Seq::<u8>::empty(),
            !r.read_closed(),
            r.written() == Seq::<u8>::empty(),
            !r.shut(),
    {
        PipeStream { chan: ByteChannel::new() }
    }

    /// The OS delivered bytes from the peer.
    pub fn deliver(&mut self, data: Vec<u8>)
        ensures
            final(self).readable() == old(self).readable() + data@,
            final(self).read_closed() == old(self).read_closed(),
            final(self).written() == old(self).written(),
            final(self).shut() == old(self).shut(),
    {
        self.chan.deliver(data)
    }

    /// The peer closed its sending side.
    pub fn close_peer(&mut self)
        ensures
            final(self).read_closed(),
            final(self).readable() == old(self).readable(),
            final(self).written() == old(self).written(),
            final(self).shut() == old(self).shut(),
    {
        self.chan.close_peer()
    }

    /// The bytes handed to the OS for sending so far.
    pub fn output(&self) -> (r: &Vec<u8>)
        ensures
            r@ == self.written(),
    {
        self.chan.output()
    }

    /// Immediate read of up to `cap` bytes, appended to `buf`; reading
    /// zero bytes is a successful empty read, never an error.
    pub fn read(&mut self, buf: &mut Vec<u8>, cap: usize) -> (r: Result<usize, IoError>)
        ensures
            (r matches Ok(n) ==> {
                &&& n == vstd::math::min(cap as int, old(self).readable().len() as int)
                &&& final(buf)@ == old(buf)@ + old(self).readable().take(n as int)
                &&& final(self).readable() == old(self).readable().skip(n as int)
                &&& final(self).written() == old(self).written()
                &&& final(self).read_closed() == old(self).read_closed()
                &&& final(self).shut() == old(self).shut()
            }),
            r is Ok,
    {
        self.chan.read(buf, cap)
    }

    /// Immediate write: accepts all of `buf` for sending.
    pub fn write(&mut self, buf: &Vec<u8>) -> (r: Result<usize, IoError>)
        ensures
            r == Ok::<usize, IoError>(buf.len()),
            final(self).written() == old(self).written() + buf@,
            final(self).readable() == old(self).readable(),
            final(self).read_closed() == old(self).read_closed(),
            final(self).shut() == old(self).shut(),
    {
        self.chan.write(buf)
    }
}

impl AsyncStream for PipeStream {
    closed spec fn readable(&self) -> Seq<u8> {
        self.chan.readable()
    }

    closed spec fn read_closed(&self) -> bool {
        self.chan.read_closed()
    }

    closed spec fn written(&self) -> Seq<u8> {
        self.chan.written()
    }

    closed spec fn shut(&self) -> bool {
        self.chan.shut()
    }

    fn read_buf(&mut self, buf: &mut Vec<u8>) -> (r: Result<Async<usize>, IoError>)
        ensures
            r is Ok,
            (r matches Ok(Async::NotReady) ==> old(self).readable().len() == 0 && !old(
                self,
            ).read_closed()),
            (r matches Ok(Async::Ready(n)) ==> n == old(self).readable().len()),
    {
        self.chan.read_buf(buf)
    }

    fn write_buf(&mut self, buf: &Vec<u8>, from: usize) -> (r: Result<Async<usize>, IoError>)
        ensures
            (r matches Ok(Async::Ready(n)) && n == buf@.len() - from),
    {
        self.chan.write_buf(buf, from)
    }

    fn flush(&mut self) -> (r: Result<(), IoError>) {
        Ok(())
    }

    fn shutdown(&mut self) -> (r: Result<Async<()>, IoError>)
        ensures
            r matches Ok(Async::Ready(_)),
    {
        self.chan.shutdown()
    }
}

} // verus!
