//! Peer addresses of accepted connections.
//!
//! `SocketAddr` is the structural emulation of a Unix-domain socket
//! address on the platform that lacks native Unix sockets: a 2-byte
//! address-family tag followed by a fixed 108-byte, NUL-terminated path
//! buffer, mirroring the POSIX `sockaddr_un` layout for tooling
//! compatibility.

use crate::codec::{append_dec_u16, utf8_to_string};
use vstd::prelude::*;
use vstd::string::{StrSliceExecFns, StringExecFns, StringSliceAdditionalSpecFns};
use vstd::utf8::{decode_utf8, valid_utf8};

verus! {

/// The address-family tag for Unix-domain sockets.
pub const AF_UNIX: u16 = 1;

/// The size of the fixed path buffer in a `sockaddr_un`.
pub const SUN_PATH_LEN: usize = 108;

/// The number of leading bytes of `s` before its first NUL (all of `s`
/// if it has none).
pub open spec fn nul_prefix_len(s: Seq<u8>) -> int
    decreases s.len(),
{
    if s.len() == 0 {
        0
    } else if s[0] == 0 {
        0
    } else {
        1 + nul_prefix_len(s.drop_first())
    }
}

/// An emulated Unix-domain socket address.
#[derive(Clone, Debug)]
pub struct SocketAddr {
    family: u16,
    path: Vec<u8>,
    len: u32,
}

impl SocketAddr {
    /// Structural well-formedness: the POSIX layout is kept.
    pub closed spec fn wf(&self) -> bool {
        &&& self.family == AF_UNIX
        &&& self.path@.len() == SUN_PATH_LEN
        &&& self.len <= SUN_PATH_LEN + 1
    }

    /// Whether the address names a filesystem path (as opposed to an
    /// anonymous/unnamed address).
    pub closed spec fn is_named(&self) -> bool {
        self.len != 0
    }

    /// The path bytes: the buffer up to its first NUL.
    pub closed spec fn path_bytes(&self) -> Seq<u8> {
        self.path@.take(nul_prefix_len(self.path@))
    }

    /// The pathname this address denotes, if it is named and its bytes
    /// are valid UTF-8.
    pub closed spec fn pathname_spec(&self) -> Option<Seq<char>> {
        if self.is_named() && valid_utf8(self.path_bytes()) {
            Some(decode_utf8(self.path_bytes()))
        } else {
            None
        }
    }

    /// A fresh, unnamed address, as an accept on the emulated listener
    /// yields it: family tag set, path buffer zeroed.
    pub fn new() -> (r: SocketAddr)
        ensures
            r.wf(),
            !r.is_named(),
            r.pathname_spec() is None,
    {
        let mut path: Vec<u8> = Vec::new();
        let mut i: usize = 0;
        while i < SUN_PATH_LEN
            invariant
                i <= SUN_PATH_LEN,
                path@.len() == i,
            decreases SUN_PATH_LEN - i,
        {
            path.push(0);
            i = i + 1;
        }
        SocketAddr { family: AF_UNIX, path, len: 0 }
    }

    /// Builds a named address from a path. Fails exactly when the path
    /// does not fit the 108-byte buffer beside its NUL terminator, or
    /// contains an interior NUL.
    pub fn from_pathname(p: &str) -> (r: Option<SocketAddr>)
        ensures
            r is Some <==> (p.spec_bytes().len() < SUN_PATH_LEN && (forall|i: int|
                0 <= i < p.spec_bytes().len() ==> p.spec_bytes()[i] != 0)),
            r is Some ==> r->0.wf() && r->0.pathname_spec() == Some(p@),
    {
        let bytes = p.as_bytes_vec();
        if bytes.len() >= SUN_PATH_LEN {
            return None;
        }
        let mut i: usize = 0;
        while i < bytes.len()
            invariant
                i <= bytes.len(),
                bytes@ == p.spec_bytes(),
                forall|j: int| 0 <= j < i ==> bytes@[j] != 0,
            decreases bytes.len() - i,
        {
            if bytes[i] == 0 {
                assert(p.spec_bytes()[i as int] == 0);
                return None;
            }
            i = i + 1;
        }
        let n = bytes.len();
        let mut path = bytes;
        let mut k: usize = n;
        while k < SUN_PATH_LEN
            invariant
                n <= k <= SUN_PATH_LEN,
                path@.len() == k,
                path@.take(n as int) == p.spec_bytes(),
                forall|j: int| n <= j < k ==> path@[j] == 0,
            decreases SUN_PATH_LEN - k,
        {
            path.push(0);
            k = k + 1;
        }
        let r = SocketAddr { family: AF_UNIX, path, len: (n + 1) as u32 };
        proof {
            assert forall|j: int| 0 <= j < n implies r.path@[j] != 0 by {
                assert(r.path@[j] == p.spec_bytes()[j]);
            }
            lemma_nul_prefix_aligned(r.path@, n as int);
            assert(r.path_bytes() =~= p.spec_bytes());
            vstd::utf8::encode_utf8_valid_utf8(p@);
            vstd::utf8::encode_utf8_decode_utf8(p@);
        }
        Some(r)
    }

    /// The filesystem path this address names: `None` for an unnamed
    /// address, and for path bytes that are not valid UTF-8.
    pub fn as_pathname(&self) -> (r: Option<String>)
        requires
            self.wf(),
        ensures
            r is Some <==> self.pathname_spec() is Some,
            r is Some ==> r->0@ == self.pathname_spec()->0,
    {
        if self.len == 0 {
            return None;
        }
        let mut prefix: Vec<u8> = Vec::new();
        let mut i: usize = 0;
        while i < self.path.len() && self.path[i] != 0
            invariant
                self.wf(),
                i <= self.path@.len(),
                prefix@ == self.path@.take(i as int),
                forall|j: int| 0 <= j < i ==> self.path@[j] != 0,
            decreases self.path@.len() - i,
        {
            let b = self.path[i];
            prefix.push(b);
            assert(prefix@ =~= self.path@.take(i as int + 1));
            i = i + 1;
        }
        proof {
            lemma_nul_prefix_exact(self.path@, i as int);
            assert(prefix@ =~= self.path_bytes());
        }
        utf8_to_string(prefix)
    }
}

/// If position `n` of `s` holds the first NUL, the NUL-free prefix of
/// `s` is exactly `n` bytes long.
proof fn lemma_nul_prefix_aligned(s: Seq<u8>, n: int)
    requires
        0 <= n < s.len(),
        s[n] == 0,
        forall|i: int| 0 <= i < n ==> s[i] != 0,
    ensures
        nul_prefix_len(s) == n,
    decreases s.len(),
{
    if n > 0 {
        assert(forall|i: int| 0 <= i < n - 1 ==> s.drop_first()[i] != 0);
        lemma_nul_prefix_aligned(s.drop_first(), n - 1);
    }
}

/// A scan that stopped at position `i` (at a NUL, or at the end) found
/// the NUL-free prefix.
proof fn lemma_nul_prefix_exact(s: Seq<u8>, i: int)
    requires
        0 <= i <= s.len(),
        forall|j: int| 0 <= j < i ==> s[j] != 0,
        i < s.len() ==> s[i] == 0,
    ensures
        nul_prefix_len(s) == i,
    decreases s.len(),
{
    if i < s.len() {
        lemma_nul_prefix_aligned(s, i);
    } else if s.len() > 0 {
        assert(forall|j: int| 0 <= j < s.len() - 1 ==> s.drop_first()[j] != 0);
        lemma_nul_prefix_exact(s.drop_first(), i - 1);
    }
}

/// An IPv4 endpoint, the peer address of an accepted TCP connection.
#[derive(Clone, Copy, Debug, PartialEq, Eq, Structural)]
pub struct TcpAddr {
    pub a: u8,
    pub b: u8,
    pub c: u8,
    pub d: u8,
    pub port: u16,
}

/// The rendering of an IPv4 endpoint: dotted quad, a colon, the port.
pub open spec fn tcp_display_chars(t: TcpAddr) -> Seq<char> {
    crate::codec::dec_chars(t.a as nat) + "."@ + crate::codec::dec_chars(t.b as nat) + "."@
        + crate::codec::dec_chars(t.c as nat) + "."@ + crate::codec::dec_chars(t.d as nat) + ":"@
        + crate::codec::dec_chars(t.port as nat)
}

impl TcpAddr {
    /// Renders the endpoint as `a.b.c.d:port`.
    pub fn display_string(&self) -> (r: String)
        ensures
            r@ == tcp_display_chars(*self),
    {
        let mut s = String::new();
        append_dec_u16(&mut s, self.a as u16);
        s.append(".");
        append_dec_u16(&mut s, self.b as u16);
        s.append(".");
        append_dec_u16(&mut s, self.c as u16);
        s.append(".");
        append_dec_u16(&mut s, self.d as u16);
        s.append(":");
        append_dec_u16(&mut s, self.port);
        s
    }
}

/// The peer address of an accepted connection, used only for display
/// and logging.
#[derive(Clone, Debug)]
pub enum IncomingSocketAddr {
    Tcp(TcpAddr),
    Unix(SocketAddr),
}

/// What `display_string` renders: the TCP endpoint, the named Unix
/// path, or a fixed placeholder for an unnamed Unix address.
pub open spec fn incoming_display_spec(addr: IncomingSocketAddr) -> Seq<char> {
    match addr {
        IncomingSocketAddr::Tcp(t) => tcp_display_chars(t),
        IncomingSocketAddr::Unix(u) => match u.pathname_spec() {
            Some(p) => p,
            None => "unknown"@,
        },
    }
}

impl IncomingSocketAddr {
    pub closed spec fn wf(&self) -> bool {
        match self {
            IncomingSocketAddr::Tcp(_) => true,
            IncomingSocketAddr::Unix(u) => u.wf(),
        }
    }

    /// Renders the address: a named Unix path renders exactly that
    /// path; an unnamed one renders the placeholder `unknown`.
    pub fn display_string(&self) -> (r: String)
        requires
            self.wf(),
        ensures
            r@ == incoming_display_spec(*self),
    {
        match self {
            IncomingSocketAddr::Tcp(t) => t.display_string(),
            IncomingSocketAddr::Unix(u) => match u.as_pathname() {
                Some(p) => p,
                None => String::from_str("unknown"),
            },
        }
    }
}

} // verus!
