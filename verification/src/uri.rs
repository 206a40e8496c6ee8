//! Connecting over Unix-domain sockets through a URI scheme of the
//! form `unix://{hex-encoded socket path}:0{request path}`: the socket
//! path is carried as the URI's host, hex-encoded so that it survives
//! URI syntax, with a fixed port of zero.

use crate::codec::{hex_chars, hex_decode, hex_encode, hex_ok, unhex_chars, utf8_lossy_string};
use crate::error::{Async, IoError, IoErrorKind};
use crate::proxy::{Connect, Connected, Destination, DestinationView};
use crate::unix;
use crate::unix::UnixStream;
use vstd::prelude::*;
use vstd::string::{StrSliceExecFns, StringExecFns, StringSliceAdditionalSpecFns};
use vstd::utf8::{decode_utf8, encode_utf8, valid_utf8};

verus! {

/// The URI rendering of a socket path and a request path.
pub open spec fn unix_uri_chars(socket: Seq<char>, path: Seq<char>) -> Seq<char> {
    "unix://"@ + hex_chars(encode_utf8(socket)) + ":0"@ + path
}

/// How many leading characters of `s` belong to a URI's host: up to
/// the first `:` or `/`.
pub open spec fn host_len(s: Seq<char>) -> int
    decreases s.len(),
{
    if s.len() == 0 {
        0
    } else if s[0] == ':' || s[0] == '/' {
        0
    } else {
        1 + host_len(s.drop_first())
    }
}

/// The host of a `unix://` URI, if the URI carries that scheme.
pub open spec fn parse_unix_host(s: Seq<char>) -> Option<Seq<char>> {
    if s.len() >= 7 && s.take(7) == "unix://"@ {
        Some(s.skip(7).take(host_len(s.skip(7))))
    } else {
        None
    }
}

/// A URI targeting a Unix-domain socket, presentable to an HTTP
/// client: the request path (with its leading slash and query) is
/// carried verbatim after the encoded host.
#[derive(Debug)]
pub struct Uri {
    encoded: String,
}

impl View for Uri {
    type V = Seq<char>;

    closed spec fn view(&self) -> Seq<char> {
        self.encoded@
    }
}

impl Uri {
    /// Produces the URI for a socket path and a request path.
    pub fn new(socket: &str, path: &str) -> (r: Uri)
        ensures
            r@ == unix_uri_chars(socket@, path@),
    {
        let host = hex_encode(&socket.as_bytes_vec());
        let mut s = String::from_str("unix://");
        s.append(host.as_str());
        s.append(":0");
        s.append(path);
        assert(s@ =~= unix_uri_chars(socket@, path@));
        Uri { encoded: s }
    }

    /// The URI as the string an HTTP client parses.
    pub fn into_string(self) -> (r: String)
        ensures
            r@ == self@,
    {
        self.encoded
    }

    /// Recovers the socket path from a `unix://` URI: the hex-decoded
    /// host.  `None` exactly when the URI does not carry the scheme or
    /// its host is not well-formed hex.
    pub fn socket_path(uri: &Uri) -> (r: Option<String>)
        ensures
            r is Some <==> (parse_unix_host(uri@) matches Some(h) && hex_ok(h)),
            (r matches Some(p) ==> (parse_unix_host(uri@) matches Some(h) && (valid_utf8(
                unhex_chars(h),
            ) ==> p@ == decode_utf8(unhex_chars(h))))),
    {
        let s = uri.encoded.as_str();
        let n = s.unicode_len();
        proof {
            reveal_strlit("unix://");
        }
        if n < 7 || !(s.get_char(0) == 'u' && s.get_char(1) == 'n' && s.get_char(2) == 'i'
            && s.get_char(3) == 'x' && s.get_char(4) == ':' && s.get_char(5) == '/' && s.get_char(6)
            == '/') {
            proof {
                if uri@.len() >= 7 && uri@.take(7) == "unix://"@ {
                    assert(uri@.take(7)[0] == 'u' && uri@.take(7)[1] == 'n' && uri@.take(7)[2]
                        == 'i' && uri@.take(7)[3] == 'x' && uri@.take(7)[4] == ':' && uri@.take(
                        7,
                    )[5] == '/' && uri@.take(7)[6] == '/');
                }
            }
            return None;
        }
        assert(uri@.take(7) =~= "unix://"@);
        let mut i: usize = 7;
        while i < n && s.get_char(i) != ':' && s.get_char(i) != '/'
            invariant
                7 <= i <= n,
                n == uri@.len(),
                s@ == uri@,
                forall|j: int| 7 <= j < i ==> uri@[j] != ':' && uri@[j] != '/',
            decreases n - i,
        {
            i = i + 1;
        }
        proof {
            lemma_host_len_exact(uri@.skip(7), i - 7);
        }
        let host = s.substring_char(7, i);
        assert(host@ =~= uri@.skip(7).take(host_len(uri@.skip(7))));
        match hex_decode(host) {
            Some(bytes) => Some(utf8_lossy_string(&bytes)),
            None => None,
        }
    }

    /// Recovers the socket path from a destination whose host carries
    /// the hex encoding.
    pub fn socket_path_dest(dest: &Destination) -> (r: Option<String>)
        ensures
            r is Some <==> hex_ok(dest@.host),
            (r matches Some(p) ==> (valid_utf8(unhex_chars(dest@.host)) ==> p@ == decode_utf8(
                unhex_chars(dest@.host),
            ))),
    {
        match hex_decode(dest.host.as_str()) {
            Some(bytes) => Some(utf8_lossy_string(&bytes)),
            None => None,
        }
    }
}

/// A scan that stopped at position `k` (at a delimiter, or at the
/// end) found the host.
proof fn lemma_host_len_exact(s: Seq<char>, k: int)
    requires
        0 <= k <= s.len(),
        forall|j: int| 0 <= j < k ==> s[j] != ':' && s[j] != '/',
        k < s.len() ==> s[k] == ':' || s[k] == '/',
    ensures
        host_len(s) == k,
    decreases s.len(),
{
    if s.len() != 0 && k != 0 {
        assert(forall|j: int| 0 <= j < k - 1 ==> s.drop_first()[j] != ':' && s.drop_first()[j]
            != '/');
        lemma_host_len_exact(s.drop_first(), k - 1);
    }
}

/// Appending anything delimited to a delimiter-free sequence leaves
/// the host at exactly that sequence.
proof fn lemma_host_len_aligned(a: Seq<char>, b: Seq<char>)
    requires
        forall|j: int| 0 <= j < a.len() ==> a[j] != ':' && a[j] != '/',
        b.len() > 0,
        b[0] == ':' || b[0] == '/',
    ensures
        host_len(a + b) == a.len(),
{
    assert((a + b).len() == a.len() + b.len());
    assert(forall|j: int| 0 <= j < a.len() ==> (a + b)[j] != ':' && (a + b)[j] != '/');
    assert((a + b)[a.len() as int] == b[0]);
    lemma_host_len_exact(a + b, a.len() as int);
}

/// Hex digits are never URI delimiters.
proof fn lemma_hex_chars_no_delims(b: Seq<u8>)
    ensures
        forall|j: int|
            0 <= j < hex_chars(b).len() ==> hex_chars(b)[j] != ':' && hex_chars(b)[j] != '/',
    decreases b.len(),
{
    if b.len() != 0 {
        lemma_hex_chars_no_delims(b.drop_first());
        assert forall|j: int| 0 <= j < hex_chars(b).len() implies hex_chars(b)[j] != ':'
            && hex_chars(b)[j] != '/' by {
            if j >= 2 {
                assert(hex_chars(b)[j] == hex_chars(b.drop_first())[j - 2]);
            }
        }
    }
}

/// Encoding a socket path into a URI and parsing it back yields the
/// path again: the URI's host is exactly the hex rendering, it is
/// well-formed hex, and decoding it restores the socket path.
pub proof fn lemma_uri_round_trip(socket: Seq<char>, path: Seq<char>)
    ensures
        parse_unix_host(unix_uri_chars(socket, path)) == Some(hex_chars(encode_utf8(socket))),
        hex_ok(hex_chars(encode_utf8(socket))),
        unhex_chars(hex_chars(encode_utf8(socket))) == encode_utf8(socket),
        valid_utf8(encode_utf8(socket)),
        decode_utf8(encode_utf8(socket)) == socket,
{
    let u = unix_uri_chars(socket, path);
    let hexpart = hex_chars(encode_utf8(socket));
    reveal_strlit("unix://");
    reveal_strlit(":0");
    assert(u.take(7) =~= "unix://"@);
    crate::codec::lemma_hex_round_trip(encode_utf8(socket));
    lemma_hex_chars_no_delims(encode_utf8(socket));
    assert(":0"@[0] == ':');
    assert(u.skip(7) =~= hexpart + (":0"@ + path));
    lemma_host_len_aligned(hexpart, ":0"@ + path);
    assert(u.skip(7).take(host_len(u.skip(7))) =~= hexpart);
    vstd::utf8::encode_utf8_valid_utf8(socket);
    vstd::utf8::encode_utf8_decode_utf8(socket);
}

/// The connector for Unix-domain socket URIs: destinations must carry
/// the `unix` scheme with a hex-encoded host.
#[derive(Debug, Clone, Copy)]
pub struct UnixConnector;

impl UnixConnector {
    pub fn new() -> (r: UnixConnector) {
        UnixConnector
    }
}

/// A pending connection attempt for a Unix-domain socket URI.
#[derive(Debug)]
pub enum ConnectFuture {
    Start(Destination),
    Connect(unix::ConnectFuture),
}

impl ConnectFuture {
    /// Whether the attempt may still be polled.
    pub open spec fn pending(&self) -> bool {
        match self {
            ConnectFuture::Start(_) => true,
            ConnectFuture::Connect(f) => f.pending(),
        }
    }

    /// Drives the attempt.  From its starting state it validates the
    /// destination before any I/O: a scheme other than `unix`, or a
    /// host that is not well-formed hex, is rejected as invalid input;
    /// otherwise the emulated connect completes with a fresh stream.
    pub fn poll(&mut self) -> (r: Result<Async<(UnixStream, Connected)>, IoError>)
        requires
            old(self).pending(),
        ensures
            ((*old(self)) matches ConnectFuture::Start(d) ==> {
                &&& ((d@.scheme == "unix"@ && hex_ok(d@.host)) <==> (
                r matches Ok(Async::Ready(_))))
                &&& (r matches Ok(Async::Ready(p)) ==> p.1 == Connected::fresh_spec())
                &&& (!(d@.scheme == "unix"@ && hex_ok(d@.host)) ==> (r matches Err(e) && e.kind
                    == IoErrorKind::InvalidInput))
            }),
            ((*old(self)) matches ConnectFuture::Connect(f) ==> (f.will_yield_stream() ==> (
            r matches Ok(Async::Ready(p)) && p.1 == Connected::fresh_spec()))),
    {
        match self {
            ConnectFuture::Start(dest) => {
                let unix_scheme = String::from_str("unix");
                if !(dest.scheme == unix_scheme) {
                    return Err(IoError::new(IoErrorKind::InvalidInput));
                }
                let path = match Uri::socket_path_dest(dest) {
                    Some(path) => path,
                    None => {
                        return Err(IoError::new(IoErrorKind::InvalidInput));
                    },
                };
                let mut f = UnixStream::connect(path.as_str());
                let polled = f.poll();
                *self = ConnectFuture::Connect(f);
                match polled {
                    Ok(Async::Ready(stream)) => Ok(Async::Ready((stream, Connected::new()))),
                    Ok(Async::NotReady) => Ok(Async::NotReady),
                    Err(e) => Err(e),
                }
            },
            ConnectFuture::Connect(f) => {
                match f.poll() {
                    Ok(Async::Ready(stream)) => Ok(Async::Ready((stream, Connected::new()))),
                    Ok(Async::NotReady) => Ok(Async::NotReady),
                    Err(e) => Err(e),
                }
            },
        }
    }
}

impl Connect for UnixConnector {
    type Transport = UnixStream;

    open spec fn connect_spec(&self, dst: DestinationView) -> Result<
        (UnixStream, Connected),
        IoError,
    > {
        if dst.scheme == "unix"@ && hex_ok(dst.host) {
            Ok((UnixStream, Connected::fresh_spec()))
        } else {
            Err(IoError { kind: IoErrorKind::InvalidInput })
        }
    }

    fn connect(&self, dst: &Destination) -> (r: Result<(UnixStream, Connected), IoError>) {
        let mut f = ConnectFuture::Start(dst.clone());
        match f.poll() {
            Ok(Async::Ready(p)) => {
                assert(p.0 == UnixStream);
                Ok(p)
            },
            Ok(Async::NotReady) => unreached(),
            Err(e) => {
                assert(e == IoError { kind: IoErrorKind::InvalidInput });
                Err(e)
            },
        }
    }
}

} // verus!
