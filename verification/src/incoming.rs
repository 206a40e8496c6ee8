//! The incoming dispatcher: owns exactly one bound listener and
//! produces accepted connections one at a time, in arrival order.
//! A transient accept failure is swallowed and accepting continues; a
//! failure that invalidates the listener itself ends the sequence with
//! an error.  No accept is taken ahead of the consumer: each poll
//! yields at most one connection.

use crate::addr::{IncomingSocketAddr, TcpAddr};
use crate::error::{Async, IoError, IoErrorKind};
use crate::listener::UnixListener;
use crate::selector::StreamSelector;
use crate::stream::TcpStream;
use vstd::prelude::*;

verus! {

/// One event the OS reported on a TCP listener: an established
/// connection, a transient accept failure (for example a connection
/// reset before establishment), or a failure that invalidates the
/// listening handle itself.
#[derive(Debug)]
pub enum AcceptEvent {
    Session(TcpStream, TcpAddr),
    Transient,
    Fatal,
}

/// A bound TCP listener, by the queue of accept events the OS has
/// delivered and the dispatcher has not yet consumed; the socket
/// itself lives with the executor that feeds this model.
#[derive(Debug)]
pub struct TcpListener {
    pending: Vec<AcceptEvent>,
}

/// The pending events with their leading transient failures removed:
/// what the accept loop acts on.
pub open spec fn skip_transient(q: Seq<AcceptEvent>) -> Seq<AcceptEvent>
    decreases q.len(),
{
    if q.len() == 0 {
        q
    } else if q[0] is Transient {
        skip_transient(q.drop_first())
    } else {
        q
    }
}

impl TcpListener {
    /// The accept events not yet consumed, oldest first.
    pub closed spec fn queue(&self) -> Seq<AcceptEvent> {
        self.pending@
    }

    /// A freshly bound listener with nothing pending.
    pub fn bind() -> (r: TcpListener)
        ensures
            r.queue() == Seq::<AcceptEvent>::empty(),
    {
        TcpListener { pending: Vec::new() }
    }

    /// The OS reported an accept event.
    pub fn push_event(&mut self, ev: AcceptEvent)
        ensures
            final(self).queue() == old(self).queue().push(ev),
    {
        self.pending.push(ev);
    }

    /// Accepts the next connection: transient failures are skipped, an
    /// established connection is yielded with its peer address, a
    /// fatal event ends the sequence with an error, and an empty queue
    /// reports `NotReady`.
    pub fn poll_accept(&mut self) -> (r: Result<Async<(TcpStream, TcpAddr)>, IoError>)
        ensures
            ({
                let q = skip_transient(old(self).queue());
                &&& (q.len() == 0 ==> r == Ok::<Async<(TcpStream, TcpAddr)>, IoError>(
                    Async::NotReady,
                ) && final(self).queue() == q)
                &&& (q.len() != 0 ==> final(self).queue() == q.drop_first())
                &&& (q.len() != 0 ==> (q[0] matches AcceptEvent::Session(t, a) ==> r == Ok::<
                    Async<(TcpStream, TcpAddr)>,
                    IoError,
                >(Async::Ready((t, a)))))
                &&& (q.len() != 0 && q[0] is Fatal ==> r is Err)
            }),
    {
        loop
            invariant
                skip_transient(self.pending@) == skip_transient(old(self).queue()),
            decreases self.pending@.len(),
        {
            if self.pending.len() == 0 {
                assert(self.pending@ =~= skip_transient(old(self).queue()));
                return Ok(Async::NotReady);
            }
            let ghost prev = self.pending@;
            let ev = self.pending.remove(0);
            proof {
                assert(self.pending@ =~= prev.drop_first());
            }
            match ev {
                AcceptEvent::Transient => {
                },
                AcceptEvent::Session(t, a) => {
                    return Ok(Async::Ready((t, a)));
                },
                AcceptEvent::Fatal => {
                    return Err(IoError::new(IoErrorKind::Other));
                },
            }
        }
    }
}

/// The incoming dispatcher: one bound listener of exactly one
/// transport kind.
#[derive(Debug)]
pub enum Incoming {
    Tcp(TcpListener),
    Unix(UnixListener),
}

impl Incoming {
    /// Accepts the next connection and presents it uniformly: the
    /// stream as a [`StreamSelector`] and its peer address for
    /// logging.
    pub fn poll_accept(&mut self) -> (r: Result<
        Async<(StreamSelector, IncomingSocketAddr)>,
        IoError,
    >)
        ensures
            (*old(self)) is Unix ==> (r matches Ok(Async::Ready(p)) && p.0 is Unix && (
            p.1 matches IncomingSocketAddr::Unix(a) && a.wf() && !a.is_named())),
            ((*old(self)) matches Incoming::Tcp(l) ==> ({
                let q = skip_transient(l.queue());
                &&& (q.len() == 0 ==> r == Ok::<Async<(StreamSelector, IncomingSocketAddr)>, IoError>(
                    Async::NotReady,
                ))
                &&& (q.len() != 0 ==> (q[0] matches AcceptEvent::Session(t, a) ==> (
                r matches Ok(Async::Ready(p)) && p.0 == StreamSelector::Tcp(t) && p.1
                    == IncomingSocketAddr::Tcp(a))))
                &&& (q.len() != 0 && q[0] is Fatal ==> r is Err)
            })),
            (*final(self)) is Tcp <==> (*old(self)) is Tcp,
    {
        match self {
            Incoming::Tcp(listener) => match listener.poll_accept() {
                Ok(Async::Ready((stream, addr))) => Ok(
                    Async::Ready(
                        (StreamSelector::Tcp(stream), IncomingSocketAddr::Tcp(addr)),
                    ),
                ),
                Ok(Async::NotReady) => Ok(Async::NotReady),
                Err(e) => Err(e),
            },
            Incoming::Unix(listener) => match listener.poll_accept() {
                Ok(Async::Ready((stream, addr))) => Ok(
                    Async::Ready(
                        (StreamSelector::Unix(stream), IncomingSocketAddr::Unix(addr)),
                    ),
                ),
                Ok(Async::NotReady) => Ok(Async::NotReady),
                Err(e) => Err(e),
            },
        }
    }
}

/// Binds the Unix-domain listener for the given path and wraps it as
/// an incoming dispatcher.
pub fn listener(path: &str) -> (r: Result<Incoming, IoError>)
    ensures
        r matches Ok(inc) && inc is Unix,
{
    let l = match UnixListener::bind(path) {
        Ok(l) => l,
        Err(e) => {
            return Err(e);
        },
    };
    Ok(Incoming::Unix(l))
}

} // verus!
