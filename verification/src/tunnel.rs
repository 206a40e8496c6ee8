//! The CONNECT tunnel handshake: a small state machine that asks an
//! HTTP proxy, over an already-established byte stream, to open a raw
//! byte pipe to the final destination.
//!
//! The request `CONNECT host:port HTTP/1.1\r\nHost: host:port\r\n\r\n`
//! (host and port are the destination's, not the proxy's) is written
//! first, completely; only then is the response read.  A response is
//! judged once at least 13 bytes have arrived and it ends with the
//! blank-line terminator: it must begin with `HTTP/1.1 200` or
//! `HTTP/1.0 200`.  On success the underlying stream is handed back to
//! the caller; the two failure modes are an unexpected end of stream
//! and a rejection by the proxy.

use crate::codec::{dec_bytes, push_dec_u16, push_str_bytes};
use crate::error::{Async, IoError, IoErrorKind};
use crate::stream::AsyncStream;
use vstd::prelude::*;
use vstd::string::StringSliceAdditionalSpecFns;
use vstd::utf8::encode_utf8;

verus! {

/// The exact bytes of the CONNECT request for a destination.
pub open spec fn connect_request(host: Seq<char>, port: u16) -> Seq<u8> {
    encode_utf8("CONNECT "@) + encode_utf8(host) + encode_utf8(":"@) + dec_bytes(port as nat)
        + encode_utf8(" HTTP/1.1\r\nHost: "@) + encode_utf8(host) + encode_utf8(":"@) + dec_bytes(
        port as nat,
    ) + encode_utf8("\r\n\r\n"@)
}

/// The 12-byte status-line prefix that is accepted, for an HTTP minor
/// version digit.
pub open spec fn status_200_prefix(version: u8) -> Seq<u8> {
    seq![
        'H' as u8,
        'T' as u8,
        'T' as u8,
        'P' as u8,
        '/' as u8,
        '1' as u8,
        '.' as u8,
        version,
        ' ' as u8,
        '2' as u8,
        '0' as u8,
        '0' as u8,
    ]
}

/// Whether a response buffer begins with an accepted status line.
pub open spec fn starts_200(s: Seq<u8>) -> bool {
    s.len() >= 12 && (s.take(12) == status_200_prefix('1' as u8) || s.take(12)
        == status_200_prefix('0' as u8))
}

/// The blank-line terminator that ends the proxy's response head.
pub open spec fn crlf2() -> Seq<u8> {
    seq!['\r' as u8, '\n' as u8, '\r' as u8, '\n' as u8]
}

/// Whether a response buffer ends with the blank-line terminator.
pub open spec fn ends_terminator(s: Seq<u8>) -> bool {
    s.len() >= 4 && s.skip(s.len() - 4) == crlf2()
}

/// A complete, accepted proxy response: enough bytes to judge the
/// status line, an accepted status, and the terminator.
pub open spec fn accepted_response(s: Seq<u8>) -> bool {
    s.len() > 12 && starts_200(s) && ends_terminator(s)
}

/// A response the handshake rejects: once enough bytes have arrived,
/// the status line is not an accepted one.
pub open spec fn rejected_response(s: Seq<u8>) -> bool {
    s.len() > 12 && !starts_200(s)
}

/// Builds the CONNECT request for a destination, byte-exactly.
pub fn build_connect_request(host: &str, port: u16) -> (r: Vec<u8>)
    ensures
        r@ == connect_request(host@, port),
{
    let mut out: Vec<u8> = Vec::new();
    push_str_bytes(&mut out, "CONNECT ");
    push_str_bytes(&mut out, host);
    push_str_bytes(&mut out, ":");
    push_dec_u16(&mut out, port);
    push_str_bytes(&mut out, " HTTP/1.1\r\nHost: ");
    push_str_bytes(&mut out, host);
    push_str_bytes(&mut out, ":");
    push_dec_u16(&mut out, port);
    push_str_bytes(&mut out, "\r\n\r\n");
    assert(out@ =~= connect_request(host@, port));
    out
}

/// Whether the buffer begins with an accepted status line.
fn starts_with_200(v: &Vec<u8>) -> (b: bool)
    ensures
        b == starts_200(v@),
{
    if v.len() < 12 {
        return false;
    }
    proof {
        let t = v@.take(12);
        assert(forall|i: int| 0 <= i < 12 ==> t[i] == v@[i]);
    }
    let b = v[0] == 'H' as u8 && v[1] == 'T' as u8 && v[2] == 'T' as u8 && v[3] == 'P' as u8 && v[4]
        == '/' as u8 && v[5] == '1' as u8 && v[6] == '.' as u8 && (v[7] == '1' as u8 || v[7]
        == '0' as u8) && v[8] == ' ' as u8 && v[9] == '2' as u8 && v[10] == '0' as u8 && v[11]
        == '0' as u8;
    proof {
        if b {
            if v@[7] == '1' as u8 {
                assert(v@.take(12) =~= status_200_prefix('1' as u8));
            } else {
                assert(v@.take(12) =~= status_200_prefix('0' as u8));
            }
        }
    }
    b
}

/// Whether the buffer ends with the blank-line terminator.
fn ends_with_terminator(v: &Vec<u8>) -> (b: bool)
    ensures
        b == ends_terminator(v@),
{
    if v.len() < 4 {
        return false;
    }
    let n = v.len();
    proof {
        let t = v@.skip(n as int - 4);
        assert(forall|i: int| 0 <= i < 4 ==> t[i] == v@[n - 4 + i]);
    }
    let b = v[n - 4] == '\r' as u8 && v[n - 3] == '\n' as u8 && v[n - 2] == '\r' as u8 && v[n - 1]
        == '\n' as u8;
    proof {
        if b {
            assert(v@.skip(n as int - 4) =~= crlf2());
        }
    }
    b
}

/// The judgement of a response buffer at one point of the read phase.
#[derive(Clone, Copy, Debug, PartialEq, Eq, Structural)]
pub enum ResponseStatus {
    /// Too few bytes to judge, or no terminator yet: keep reading.
    Incomplete,
    /// An accepted status line with the terminator: tunnel established.
    Accepted,
    /// Enough bytes to judge, and the status line is not an accepted
    /// one: the tunnel was rejected.
    Rejected,
}

/// Judges the response bytes accumulated so far, exactly as the
/// handshake's read phase does; an executor that owns the socket
/// itself decides with this.
pub fn classify_response(v: &Vec<u8>) -> (r: ResponseStatus)
    ensures
        r is Accepted <==> accepted_response(v@),
        r is Rejected <==> rejected_response(v@),
        r is Incomplete <==> (!accepted_response(v@) && !rejected_response(v@)),
{
    if v.len() > 12 {
        if starts_with_200(v) {
            if ends_with_terminator(v) {
                ResponseStatus::Accepted
            } else {
                ResponseStatus::Incomplete
            }
        } else {
            ResponseStatus::Rejected
        }
    } else {
        ResponseStatus::Incomplete
    }
}

/// The two phases of the handshake: the request is written completely
/// before any of the response is read.
#[derive(Clone, Copy, Debug)]
pub enum TunnelState {
    Writing,
    Reading,
}

/// An in-flight CONNECT handshake over a stream of type `T`.  The
/// buffer is owned exclusively by the handshake: it holds the pending
/// request while writing and is reused for the accumulated response
/// while reading.
#[derive(Debug)]
pub struct Tunnel<T> {
    buf: Vec<u8>,
    pos: usize,
    conn: Option<T>,
    state: TunnelState,
}

impl<T: AsyncStream> Tunnel<T> {
    /// Whether the handshake may still be polled; a completed or
    /// failed handshake must never be polled again.
    pub closed spec fn pending(&self) -> bool {
        self.conn is Some
    }

    pub closed spec fn wf(&self) -> bool {
        self.pos <= self.buf@.len()
    }

    /// The stream the handshake currently owns.
    pub closed spec fn peer(&self) -> Option<T> {
        self.conn
    }

    /// Whether the write phase is over and the response is being read.
    pub closed spec fn reading(&self) -> bool {
        self.state is Reading
    }

    /// The part of the request not yet handed to the stream.
    pub closed spec fn request_remaining(&self) -> Seq<u8> {
        if self.state is Writing {
            self.buf@.skip(self.pos as int)
        } else {
            Seq::empty()
        }
    }

    /// The response bytes accumulated so far.
    pub closed spec fn response_partial(&self) -> Seq<u8> {
        if self.state is Reading {
            self.buf@
        } else {
            Seq::empty()
        }
    }

    /// The buffer as a response, meaningful once the write phase is
    /// over.
    pub closed spec fn response(&self) -> Seq<u8> {
        self.buf@
    }

    /// Drives the handshake as far as the stream allows.
    ///
    /// On `Ready` the stream is handed back: the full pending request
    /// was written to it, and an accepted response — everything the
    /// peer had delivered up to its terminator — was consumed from it.
    /// On an error the handshake is over: the proxy either closed the
    /// stream too early (`UnexpectedEof`) or answered with a status
    /// line other than a 200 (`TunnelRejected`).  On `NotReady` the
    /// handshake stays pending, its progress recorded.
    pub fn poll(&mut self) -> (r: Result<Async<T>, IoError>)
        requires
            old(self).pending(),
            old(self).wf(),
        ensures
            (r matches Ok(Async::Ready(t)) ==> {
                let c0 = old(self).peer()->0;
                let part0 = old(self).response_partial();
                &&& !final(self).pending()
                &&& accepted_response(final(self).response())
                &&& final(self).response().len() >= part0.len()
                &&& final(self).response().take(part0.len() as int) == part0
                &&& t.written() == c0.written() + old(self).request_remaining()
                &&& c0.readable() == final(self).response().skip(part0.len() as int)
                    + t.readable()
                &&& t.read_closed() == c0.read_closed()
                &&& t.shut() == c0.shut()
            }),
            (r matches Ok(Async::NotReady) ==> {
                let c0 = old(self).peer()->0;
                let c1 = final(self).peer()->0;
                let part0 = old(self).response_partial();
                &&& final(self).pending()
                &&& final(self).wf()
                &&& c1.written() + final(self).request_remaining() == c0.written() + old(
                    self,
                ).request_remaining()
                &&& final(self).response_partial().len() >= part0.len()
                &&& final(self).response_partial().take(part0.len() as int) == part0
                &&& c0.readable() == final(self).response_partial().skip(part0.len() as int)
                    + c1.readable()
                &&& c1.read_closed() == c0.read_closed()
                &&& c1.shut() == c0.shut()
                &&& (final(self).reading() ==> c1.readable().len() == 0 && !c1.read_closed())
            }),
            (r matches Err(e) ==> {
                &&& !final(self).pending()
                &&& (e.kind == IoErrorKind::UnexpectedEof || e.kind == IoErrorKind::TunnelRejected)
                &&& (e.kind == IoErrorKind::TunnelRejected ==> rejected_response(
                    final(self).response(),
                ))
            }),
    {
        loop
            invariant
                self.pending(),
                self.wf(),
                old(self).state is Reading ==> self.state is Reading,
                ({
                    let c0 = old(self).peer()->0;
                    let c = self.peer()->0;
                    let part0 = old(self).response_partial();
                    &&& c.written() + self.request_remaining() == c0.written() + old(
                        self,
                    ).request_remaining()
                    &&& self.response_partial().len() >= part0.len()
                    &&& self.response_partial().take(part0.len() as int) == part0
                    &&& c0.readable() == self.response_partial().skip(part0.len() as int)
                        + c.readable()
                    &&& c.read_closed() == c0.read_closed()
                    &&& c.shut() == c0.shut()
                }),
            decreases (if self.state is Writing {
                1int
            } else {
                0int
            }), (if self.state is Writing {
                self.buf@.len() - self.pos
            } else {
                self.peer()->0.readable().len() as int
            }),
        {
            match self.state {
                TunnelState::Writing => {
                    let r = if let Some(conn) = &mut self.conn {
                        conn.write_buf(&self.buf, self.pos)
                    } else {
                        unreached()
                    };
                    match r {
                        Ok(Async::Ready(n)) => {
                            let blen = self.buf.len();
                            proof {
                                assert(self.buf@.subrange(
                                    self.pos as int,
                                    self.pos + n,
                                ) + self.buf@.skip(self.pos + n) =~= self.buf@.skip(
                                    self.pos as int,
                                ));
                            }
                            let new_pos = self.pos + n;
                            self.pos = new_pos;
                            if new_pos == blen {
                                proof {
                                    assert(self.buf@.skip(new_pos as int) =~= Seq::<u8>::empty());
                                }
                                self.state = TunnelState::Reading;
                                self.buf.truncate(0);
                                self.pos = 0;
                                proof {
                                    assert(self.response_partial() =~= Seq::<u8>::empty());
                                    assert(self.response_partial().take(0) =~= Seq::<
                                        u8,
                                    >::empty());
                                    assert(self.response_partial().skip(0) =~= Seq::<
                                        u8,
                                    >::empty());
                                }
                            } else if n == 0 {
                                self.conn = None;
                                return Err(tunnel_eof());
                            }
                        },
                        Ok(Async::NotReady) => {
                            return Ok(Async::NotReady);
                        },
                        Err(_) => {
                            self.conn = None;
                            return Err(tunnel_eof());
                        },
                    }
                },
                TunnelState::Reading => {
                    let r = if let Some(conn) = &mut self.conn {
                        conn.read_buf(&mut self.buf)
                    } else {
                        unreached()
                    };
                    match r {
                        Ok(Async::Ready(n)) => {
                            proof {
                                let c0 = old(self).peer()->0;
                                let part0 = old(self).response_partial();
                                let c = self.peer()->0;
                                assert(self.response_partial().take(part0.len() as int)
                                    =~= part0);
                                assert(c0.readable() =~= self.response_partial().skip(
                                    part0.len() as int,
                                ) + c.readable());
                            }
                            if n == 0 {
                                self.conn = None;
                                return Err(tunnel_eof());
                            }
                            if self.buf.len() > 12 {
                                if starts_with_200(&self.buf) {
                                    if ends_with_terminator(&self.buf) {
                                        match self.conn.take() {
                                            Some(t) => {
                                                return Ok(Async::Ready(t));
                                            },
                                            _ => {
                                                return unreached();
                                            },
                                        }
                                    }
                                    // else: keep reading until the terminator arrives
                                } else {
                                    self.conn = None;
                                    return Err(IoError::new(IoErrorKind::TunnelRejected));
                                }
                            }
                        },
                        Ok(Async::NotReady) => {
                            return Ok(Async::NotReady);
                        },
                        Err(_) => {
                            self.conn = None;
                            return Err(tunnel_eof());
                        },
                    }
                },
            }
        }
    }
}

/// Starts a CONNECT handshake for `host:port` over `conn`: the exact
/// request is queued and nothing has been transferred yet.
pub fn tunnel<T: AsyncStream>(conn: T, host: &str, port: u16) -> (r: Tunnel<T>)
    ensures
        r.pending(),
        r.wf(),
        r.peer() == Some(conn),
        r.request_remaining() == connect_request(host@, port),
        r.response_partial() == Seq::<u8>::empty(),
{
    let buf = build_connect_request(host, port);
    let r = Tunnel { buf, pos: 0, conn: Some(conn), state: TunnelState::Writing };
    assert(r.request_remaining() =~= connect_request(host@, port));
    r
}

/// The error reported when the peer ends the stream mid-handshake.
pub fn tunnel_eof() -> (r: IoError)
    ensures
        r.kind == IoErrorKind::UnexpectedEof,
{
    IoError::new(IoErrorKind::UnexpectedEof)
}

} // verus!
