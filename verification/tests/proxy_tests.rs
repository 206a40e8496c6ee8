use std::cell::RefCell;
use std::rc::Rc;

use edgelet_transport::error::Async;
use edgelet_transport::stream::{AsyncStream, TcpStream};
use edgelet_transport::proxy::{
    Connect, Connected, Destination, DestinationView, Intercept, Proxy, ProxyConnector,
    ProxyStream, ProxyUri,
};
use edgelet_transport::error::IoError;

/// A lower connector for the tests: it records the destination it is
/// asked for and yields a connection on which the peer's response has
/// already arrived.
struct MockConnector {
    dialed: Rc<RefCell<Vec<(String, String, Option<u16>)>>>,
    response: Vec<u8>,
}

impl MockConnector {
    fn new(response: Vec<u8>) -> Self {
        MockConnector { dialed: Rc::new(RefCell::new(Vec::new())), response }
    }

    fn dial_log(&self) -> Rc<RefCell<Vec<(String, String, Option<u16>)>>> {
        self.dialed.clone()
    }
}

impl Connect for MockConnector {
    type Transport = TcpStream;

    // the compiled form of the trait's specification function; it is
    // never called at run time
    fn connect_spec(&self, _dst: DestinationView) -> Result<(TcpStream, Connected), IoError> {
        Ok((TcpStream::new(), Connected::new()))
    }

    fn connect(&self, dst: &Destination) -> Result<(TcpStream, Connected), IoError> {
        self.dialed.borrow_mut().push((
            dst.scheme().to_string(),
            dst.host().to_string(),
            dst.port(),
        ));
        let mut stream = TcpStream::new();
        stream.deliver(self.response.clone());
        Ok((stream, Connected::new()))
    }
}

fn proxy_at_8080() -> Proxy {
    Proxy::new(
        Intercept::All,
        ProxyUri {
            scheme: Some("http".to_string()),
            host: "proxy.example".to_string(),
            port: Some(8080),
        },
    )
}

#[test]
fn https_routing_tunnels_and_secures() {
    let connector =
        MockConnector::new(b"HTTP/1.1 200 Connection established\r\n\r\n".to_vec());
    let pc = ProxyConnector::from_proxy(connector, proxy_at_8080()).unwrap();
    let dest = Destination::new(
        "https".to_string(),
        "dest.example".to_string(),
        Some(443),
    );
    let mut attempt = pc.connect(&dest);
    match attempt.poll() {
        Ok(Async::Ready((stream, connected))) => {
            assert!(matches!(stream, ProxyStream::Secured(_)));
            assert!(connected.is_proxied());
        }
        _ => panic!("the https attempt must complete with the secured stream"),
    }
}

#[test]
fn https_routing_dials_the_proxy_not_the_destination() {
    let connector =
        MockConnector::new(b"HTTP/1.1 200 Connection established\r\n\r\n".to_vec());
    let log = connector.dial_log();
    let pc = ProxyConnector::from_proxy(connector, proxy_at_8080()).unwrap();
    let dest = Destination::new(
        "https".to_string(),
        "dest.example".to_string(),
        Some(443),
    );
    let mut attempt = pc.connect(&dest);
    let _ = attempt.poll();
    let dialed = log.borrow();
    assert_eq!(dialed.len(), 1);
    assert_eq!(
        dialed[0],
        ("http".to_string(), "proxy.example".to_string(), Some(8080))
    );
}

#[test]
fn http_routing_dials_the_proxy_endpoint() {
    let connector = MockConnector::new(Vec::new());
    let log = connector.dial_log();
    let pc = ProxyConnector::from_proxy(connector, proxy_at_8080()).unwrap();
    let dest = Destination::new("http".to_string(), "dest.example".to_string(), Some(80));
    let mut attempt = pc.connect(&dest);
    let _ = attempt.poll();
    let dialed = log.borrow();
    assert_eq!(dialed.len(), 1);
    assert_eq!(
        dialed[0],
        ("http".to_string(), "proxy.example".to_string(), Some(8080))
    );
}

#[test]
fn http_routing_returns_regular_with_no_tunnel() {
    let connector = MockConnector::new(Vec::new());
    let pc = ProxyConnector::from_proxy(connector, proxy_at_8080()).unwrap();
    let dest = Destination::new("http".to_string(), "dest.example".to_string(), Some(80));
    let mut attempt = pc.connect(&dest);
    match attempt.poll() {
        Ok(Async::Ready((stream, connected))) => {
            assert!(connected.is_proxied());
            match stream {
            ProxyStream::Regular(s) => {
                // no CONNECT handshake was attempted: nothing written
                assert!(s.output().is_empty());
            }
            ProxyStream::Secured(_) => panic!("http traffic must not be tunneled"),
            }
        }
        _ => panic!("the http attempt must complete at once"),
    }
}

#[test]
fn proxy_destination_substitutes_endpoint() {
    let connector = MockConnector::new(Vec::new());
    let pc = ProxyConnector::from_proxy(connector, proxy_at_8080()).unwrap();
    let dest = Destination::new(
        "https".to_string(),
        "dest.example".to_string(),
        Some(443),
    );
    let pd = pc.proxy_destination(&dest);
    assert_eq!(pd.scheme(), "http");
    assert_eq!(pd.host(), "proxy.example");
    assert_eq!(pd.port(), Some(8080));
}

#[test]
fn connected_carries_the_proxied_flag() {
    let c = Connected::new();
    assert!(!c.is_proxied());
    let c = c.proxy(true);
    assert!(c.is_proxied());
    assert!(!c.proxy(false).is_proxied());
}

#[test]
fn secured_stream_forwards_operations() {
    let connector =
        MockConnector::new(b"HTTP/1.1 200 Connection established\r\n\r\n".to_vec());
    let pc = ProxyConnector::from_proxy(connector, proxy_at_8080()).unwrap();
    let dest = Destination::new(
        "https".to_string(),
        "dest.example".to_string(),
        Some(443),
    );
    let mut attempt = pc.connect(&dest);
    match attempt.poll() {
        Ok(Async::Ready((mut stream, _))) => {
            let mut buf: Vec<u8> = Vec::new();
            // the response was consumed by the handshake; the secured
            // stream has nothing further to deliver yet
            assert!(matches!(stream.read_buf(&mut buf), Ok(Async::NotReady)));
            assert!(buf.is_empty());
            assert!(matches!(stream.shutdown(), Ok(Async::Ready(()))));
        }
        _ => panic!("the https attempt must complete"),
    }
}
