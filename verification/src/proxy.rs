//! The outbound proxy-tunnelling connector.
//!
//! `ProxyConnector` wraps a lower connector and routes every outbound
//! connection through a configured HTTP forward proxy: the wrapped
//! connector dials the proxy's endpoint instead of the destination's.
//! For an `https` destination a CONNECT tunnel is driven through the
//! proxy and a TLS client handshake is layered on top, named after the
//! original destination's host; plain `http` traffic is handed to the
//! proxy as-is.  The uniform result is a `ProxyStream`.

use crate::error::{Async, IoError, IoErrorKind};
use crate::stream::AsyncStream;
use crate::tunnel::{accepted_response, connect_request, rejected_response, tunnel, Tunnel};
use vstd::prelude::*;
use vstd::string::StringExecFns;

verus! {

/// The plain values of a destination: scheme, host, optional port.
pub struct DestinationView {
    pub scheme: Seq<char>,
    pub host: Seq<char>,
    pub port: Option<u16>,
}

/// A destination a connector is asked to reach.
#[derive(Debug)]
pub struct Destination {
    pub scheme: String,
    pub host: String,
    pub port: Option<u16>,
}

impl View for Destination {
    type V = DestinationView;

    open spec fn view(&self) -> DestinationView {
        DestinationView { scheme: self.scheme@, host: self.host@, port: self.port }
    }
}

impl Clone for Destination {
    fn clone(&self) -> (r: Self)
        ensures
            r@ == self@,
    {
        Destination { scheme: self.scheme.clone(), host: self.host.clone(), port: self.port }
    }
}

impl Destination {
    pub fn new(scheme: String, host: String, port: Option<u16>) -> (r: Destination)
        ensures
            r@ == (DestinationView { scheme: scheme@, host: host@, port }),
    {
        Destination { scheme, host, port }
    }

    pub fn scheme(&self) -> (r: &str)
        ensures
            r@ == self@.scheme,
    {
        self.scheme.as_str()
    }

    pub fn host(&self) -> (r: &str)
        ensures
            r@ == self@.host,
    {
        self.host.as_str()
    }

    pub fn port(&self) -> (r: Option<u16>)
        ensures
            r == self@.port,
    {
        self.port
    }

    pub fn set_scheme(&mut self, scheme: &str)
        ensures
            final(self)@ == (DestinationView {
                scheme: scheme@,
                host: old(self)@.host,
                port: old(self)@.port,
            }),
    {
        self.scheme = String::from_str(scheme);
    }

    pub fn set_host(&mut self, host: &str)
        ensures
            final(self)@ == (DestinationView {
                scheme: old(self)@.scheme,
                host: host@,
                port: old(self)@.port,
            }),
    {
        self.host = String::from_str(host);
    }

    pub fn set_port(&mut self, port: Option<u16>)
        ensures
            final(self)@ == (DestinationView {
                scheme: old(self)@.scheme,
                host: old(self)@.host,
                port,
            }),
    {
        self.port = port;
    }
}

/// Extra information about an established connection, handed to the
/// caller beside the stream: for now, whether it runs via a proxy.
#[derive(Debug, Clone, Copy, PartialEq, Eq, Structural)]
pub struct Connected {
    proxied: bool,
}

impl Connected {
    /// Whether the connection was made through a proxy.
    pub closed spec fn proxied_spec(&self) -> bool {
        self.proxied
    }

    /// The value `Connected::new` yields.
    pub closed spec fn fresh_spec() -> Connected {
        Connected { proxied: false }
    }

    pub fn new() -> (r: Connected)
        ensures
            r == Connected::fresh_spec(),
            !r.proxied_spec(),
    {
        Connected { proxied: false }
    }

    /// Records whether the connection runs via a proxy.
    pub fn proxy(self, is_proxied: bool) -> (r: Connected)
        ensures
            r.proxied_spec() == is_proxied,
    {
        Connected { proxied: is_proxied }
    }

    /// Whether the connection was made through a proxy.
    pub fn is_proxied(&self) -> (r: bool)
        ensures
            r == self.proxied_spec(),
    {
        self.proxied
    }
}

/// The connector contract: asked for a destination, a connector either
/// yields a transport to it or fails.  What a connector yields is a
/// function of the destination's plain values, given by
/// `connect_spec`.
pub trait Connect: Sized {
    type Transport: AsyncStream;

    /// The outcome of connecting to a destination.
    spec fn connect_spec(&self, dst: DestinationView) -> Result<
        (Self::Transport, Connected),
        IoError,
    >;

    fn connect(&self, dst: &Destination) -> (r: Result<(Self::Transport, Connected), IoError>)
        ensures
            r == self.connect_spec(dst@),
    ;
}

/// The rule deciding which destinations are routed through the proxy;
/// interception of all of them is the only rule implemented.
#[derive(Debug)]
pub enum Intercept {
    All,
}

/// The plain values of the proxy's own URI.
pub struct ProxyUriView {
    pub scheme: Option<Seq<char>>,
    pub host: Seq<char>,
    pub port: Option<u16>,
}

/// The proxy's own URI: scheme, host, optional port.
#[derive(Debug)]
pub struct ProxyUri {
    pub scheme: Option<String>,
    pub host: String,
    pub port: Option<u16>,
}

impl View for ProxyUri {
    type V = ProxyUriView;

    open spec fn view(&self) -> ProxyUriView {
        ProxyUriView {
            scheme: if self.scheme is Some {
                Some(self.scheme->0@)
            } else {
                None
            },
            host: self.host@,
            port: self.port,
        }
    }
}

/// The immutable proxy configuration: the proxy's URI and the
/// intercept rule; shared read-only across all connection attempts.
#[derive(Debug)]
pub struct Proxy {
    uri: ProxyUri,
}

impl Proxy {
    pub closed spec fn uri_view(&self) -> ProxyUriView {
        self.uri@
    }

    pub fn new(intercept: Intercept, uri: ProxyUri) -> (r: Proxy)
        ensures
            r.uri_view() == uri@,
    {
        let _ = intercept;
        Proxy { uri }
    }
}

/// The client-side TLS configuration, built once per connector and
/// shared read-only by its connection attempts.  The cryptography
/// itself is outside work performed by the executor; the library
/// models its result as a transparent layering over the transport.
#[derive(Debug, Clone, Copy)]
pub struct TlsClientConfig;

impl TlsClientConfig {
    /// Builds the shared TLS client configuration.
    pub fn build() -> (r: Result<TlsClientConfig, IoError>)
        ensures
            r is Ok,
    {
        Ok(TlsClientConfig)
    }
}

/// A TLS client session layered over a transport `T`, named after the
/// host whose certificate the session verifies.  The byte-transfer
/// model is transparent: the modelled channel carries the plaintext,
/// and the record protection is the executor's outside work.
#[derive(Debug)]
pub struct TlsStream<T> {
    domain: String,
    plain: T,
}

impl<T: AsyncStream> TlsStream<T> {
    /// The host name the session verifies the peer's certificate
    /// against.
    pub closed spec fn domain_spec(&self) -> Seq<char> {
        self.domain@
    }

    /// The transport under the session.
    pub closed spec fn plain_spec(&self) -> T {
        self.plain
    }

    /// Opens a client session over `stream`, verifying the peer as
    /// `domain`.
    pub fn client_handshake(domain: &str, stream: T) -> (r: TlsStream<T>)
        ensures
            r.domain_spec() == domain@,
            r.plain_spec() == stream,
    {
        TlsStream { domain: String::from_str(domain), plain: stream }
    }
}

impl<T: AsyncStream> AsyncStream for TlsStream<T> {
    closed spec fn readable(&self) -> Seq<u8> {
        self.plain.readable()
    }

    closed spec fn read_closed(&self) -> bool {
        self.plain.read_closed()
    }

    closed spec fn written(&self) -> Seq<u8> {
        self.plain.written()
    }

    closed spec fn shut(&self) -> bool {
        self.plain.shut()
    }

    fn read_buf(&mut self, buf: &mut Vec<u8>) -> (r: Result<Async<usize>, IoError>) {
        self.plain.read_buf(buf)
    }

    fn write_buf(&mut self, buf: &Vec<u8>, from: usize) -> (r: Result<Async<usize>, IoError>) {
        self.plain.write_buf(buf, from)
    }

    fn flush(&mut self) -> (r: Result<(), IoError>) {
        self.plain.flush()
    }

    fn shutdown(&mut self) -> (r: Result<Async<()>, IoError>) {
        self.plain.shutdown()
    }
}

/// The uniform result of the proxy connector: the raw proxied stream,
/// or the TLS session established through the tunnel.  Once
/// constructed the variant never changes; every operation forwards to
/// whichever is populated.
#[derive(Debug)]
pub enum ProxyStream<T> {
    Regular(T),
    Secured(TlsStream<T>),
}

impl<T: AsyncStream> AsyncStream for ProxyStream<T> {
    open spec fn readable(&self) -> Seq<u8> {
        match self {
            ProxyStream::Regular(s) => s.readable(),
            ProxyStream::Secured(s) => s.readable(),
        }
    }

    open spec fn read_closed(&self) -> bool {
        match self {
            ProxyStream::Regular(s) => s.read_closed(),
            ProxyStream::Secured(s) => s.read_closed(),
        }
    }

    open spec fn written(&self) -> Seq<u8> {
        match self {
            ProxyStream::Regular(s) => s.written(),
            ProxyStream::Secured(s) => s.written(),
        }
    }

    open spec fn shut(&self) -> bool {
        match self {
            ProxyStream::Regular(s) => s.shut(),
            ProxyStream::Secured(s) => s.shut(),
        }
    }

    fn read_buf(&mut self, buf: &mut Vec<u8>) -> (r: Result<Async<usize>, IoError>) {
        match self {
            ProxyStream::Regular(s) => s.read_buf(buf),
            ProxyStream::Secured(s) => s.read_buf(buf),
        }
    }

    fn write_buf(&mut self, buf: &Vec<u8>, from: usize) -> (r: Result<Async<usize>, IoError>) {
        match self {
            ProxyStream::Regular(s) => s.write_buf(buf, from),
            ProxyStream::Secured(s) => s.write_buf(buf, from),
        }
    }

    fn flush(&mut self) -> (r: Result<(), IoError>) {
        match self {
            ProxyStream::Regular(s) => s.flush(),
            ProxyStream::Secured(s) => s.flush(),
        }
    }

    fn shutdown(&mut self) -> (r: Result<Async<()>, IoError>) {
        match self {
            ProxyStream::Regular(s) => s.shutdown(),
            ProxyStream::Secured(s) => s.shutdown(),
        }
    }
}

/// The destination the wrapped connector is actually asked to dial:
/// the destination's scheme, host and port replaced with the proxy's
/// own (an absent proxy scheme defaults to `http`).
pub open spec fn proxy_destination_view(uri: ProxyUriView, dst: DestinationView)
    -> DestinationView {
    DestinationView {
        scheme: match uri.scheme {
            Some(s) => s,
            None => "http"@,
        },
        host: uri.host,
        port: uri.port,
    }
}

/// The port a tunnel is asked for when the destination names none.
pub open spec fn port_or_https_default(port: Option<u16>) -> u16 {
    match port {
        Some(p) => p,
        None => 443,
    }
}

/// A connector that routes everything through the configured proxy.
pub struct ProxyConnector<C> {
    connector: C,
    proxy: Proxy,
    tls: TlsClientConfig,
}

impl<C> ProxyConnector<C> {
    /// The wrapped connector.
    pub closed spec fn connector_spec(&self) -> C {
        self.connector
    }

    /// The configured proxy endpoint.
    pub closed spec fn proxy_uri(&self) -> ProxyUriView {
        self.proxy.uri_view()
    }

    /// Wraps a connector with a proxy configuration, building the
    /// shared TLS client configuration.
    pub fn from_proxy(connector: C, proxy: Proxy) -> (r: Result<ProxyConnector<C>, IoError>)
        ensures
            (r matches Ok(pc) && pc.connector_spec() == connector && pc.proxy_uri()
                == proxy.uri_view()),
    {
        let tls = match TlsClientConfig::build() {
            Ok(t) => t,
            Err(e) => {
                return Err(e);
            },
        };
        Ok(ProxyConnector { connector, proxy, tls })
    }

    /// Builds the destination the wrapped connector will dial.
    pub fn proxy_destination(&self, dst: &Destination) -> (r: Destination)
        ensures
            r@ == proxy_destination_view(self.proxy_uri(), dst@),
    {
        let mut proxy_dst = dst.clone();
        let scheme: &str = match &self.proxy.uri.scheme {
            Some(s) => s.as_str(),
            None => "http",
        };
        proxy_dst.set_scheme(scheme);
        proxy_dst.set_host(self.proxy.uri.host.as_str());
        proxy_dst.set_port(self.proxy.uri.port);
        proxy_dst
    }
}

/// A connection attempt through the proxy, driven by polling.
#[derive(Debug)]
pub enum ProxyConnectFuture<T> {
    /// An `https` destination: the CONNECT handshake is in flight, to
    /// be followed by the TLS session named `domain`.
    Tunneling { handshake: Tunnel<T>, domain: String, connected: Connected },
    /// A plain `http` destination: the proxied stream is handed back
    /// as-is.
    Plain { item: Option<(T, Connected)> },
    /// The dial of the proxy itself failed.
    Failed { error: Option<IoError> },
}

impl<T: AsyncStream> ProxyConnectFuture<T> {
    /// Whether the attempt may still be polled.
    pub open spec fn pending(&self) -> bool {
        match self {
            ProxyConnectFuture::Tunneling { handshake, .. } => handshake.pending()
                && handshake.wf(),
            ProxyConnectFuture::Plain { item } => item is Some,
            ProxyConnectFuture::Failed { error } => error is Some,
        }
    }

    /// Drives the attempt one step.
    ///
    /// A plain attempt completes at once with the `Regular` stream; a
    /// tunnelling attempt completes, once the handshake does, with the
    /// `Secured` TLS session over the tunnelled stream; a failed dial
    /// reports its error.
    pub fn poll(&mut self) -> (r: Result<Async<(ProxyStream<T>, Connected)>, IoError>)
        requires
            old(self).pending(),
        ensures
            ((*old(self)) matches ProxyConnectFuture::Plain { item } ==> (
            r matches Ok(Async::Ready(p)) && p.0 == ProxyStream::Regular((item->0).0) && p.1
                == (item->0).1 && !final(self).pending())),
            ((*old(self)) matches ProxyConnectFuture::Failed { error } ==> r == Err::<
                Async<(ProxyStream<T>, Connected)>,
                IoError,
            >(error->0) && !final(self).pending()),
            ((*old(self)) matches ProxyConnectFuture::Tunneling { handshake, domain, connected }
                ==> {
                &&& (r matches Ok(Async::Ready(p)) ==> ({
                    let c0 = handshake.peer()->0;
                    let part0 = handshake.response_partial();
                    &&& p.1 == connected
                    &&& (p.0 matches ProxyStream::Secured(tls) && tls.domain_spec() == domain@ && (
                    (*final(self)) matches ProxyConnectFuture::Tunneling { handshake: h1, .. } && {
                        &&& accepted_response(h1.response())
                        &&& h1.response().take(part0.len() as int) == part0
                        &&& tls.plain_spec().written() == c0.written()
                            + handshake.request_remaining()
                        &&& c0.readable() == h1.response().skip(part0.len() as int)
                            + tls.plain_spec().readable()
                    }))
                    &&& !final(self).pending()
                }))
                &&& (r matches Ok(Async::NotReady) ==> final(self).pending())
                &&& (r matches Err(e) ==> (e.kind == IoErrorKind::UnexpectedEof || e.kind
                    == IoErrorKind::TunnelRejected) && !final(self).pending())
                &&& (r matches Err(e) ==> (e.kind == IoErrorKind::TunnelRejected ==> (
                (*final(self)) matches ProxyConnectFuture::Tunneling { handshake: h1, .. }
                    && rejected_response(h1.response()))))
            }),
    {
        match self {
            ProxyConnectFuture::Tunneling { handshake, domain, connected } => {
                match handshake.poll() {
                    Ok(Async::Ready(conn)) => {
                        let tls = TlsStream::client_handshake(domain.as_str(), conn);
                        Ok(Async::Ready((ProxyStream::Secured(tls), *connected)))
                    },
                    Ok(Async::NotReady) => Ok(Async::NotReady),
                    Err(e) => Err(e),
                }
            },
            ProxyConnectFuture::Plain { item } => {
                match item.take() {
                    Some((conn, connected)) => Ok(
                        Async::Ready((ProxyStream::Regular(conn), connected)),
                    ),
                    _ => unreached(),
                }
            },
            ProxyConnectFuture::Failed { error } => {
                match error.take() {
                    Some(e) => Err(e),
                    _ => unreached(),
                }
            },
        }
    }
}

impl<C: Connect> ProxyConnector<C> {
    /// Starts a connection to `dst` through the proxy.
    ///
    /// The wrapped connector is asked for the proxy's endpoint, never
    /// the destination's.  For an `https` destination the attempt
    /// tunnels to the destination's own host and port and will layer
    /// TLS named after that host; for any other scheme the proxied
    /// stream will be handed back as-is, with no tunnel attempted.
    /// Either way the connection is flagged as running via a proxy.
    pub fn connect(&self, dst: &Destination) -> (r: ProxyConnectFuture<C::Transport>)
        ensures
            ({
                let outcome = self.connector_spec().connect_spec(
                    proxy_destination_view(self.proxy_uri(), dst@),
                );
                &&& (outcome is Err ==> (r matches ProxyConnectFuture::Failed { error }
                    && error is Some))
                &&& (outcome matches Ok(p) ==> (if dst@.scheme == "https"@ {
                    r matches ProxyConnectFuture::Tunneling { handshake, domain, connected }
                        && handshake.pending() && handshake.wf() && handshake.peer() == Some(p.0)
                        && handshake.request_remaining() == connect_request(
                        dst@.host,
                        port_or_https_default(dst@.port),
                    ) && handshake.response_partial() == Seq::<u8>::empty() && domain@ == dst@.host
                        && connected.proxied_spec()
                } else {
                    r matches ProxyConnectFuture::Plain { item } && (item matches Some(pair)
                        && pair.0 == p.0 && pair.1.proxied_spec())
                }))
            }),
    {
        let proxy_dst = self.proxy_destination(dst);
        match self.connector.connect(&proxy_dst) {
            Err(_) => ProxyConnectFuture::Failed {
                error: Some(IoError::new(IoErrorKind::Other)),
            },
            Ok((conn, connected)) => {
                let https = String::from_str("https");
                if dst.scheme == https {
                    let port = match dst.port {
                        Some(p) => p,
                        None => 443,
                    };
                    let handshake = tunnel(conn, dst.host.as_str(), port);
                    ProxyConnectFuture::Tunneling {
                        handshake,
                        domain: dst.host.clone(),
                        connected: connected.proxy(true),
                    }
                } else {
                    ProxyConnectFuture::Plain { item: Some((conn, connected.proxy(true))) }
                }
            },
        }
    }
}

} // verus!
