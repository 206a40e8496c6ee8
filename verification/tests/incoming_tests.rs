use edgelet_transport::addr::{IncomingSocketAddr, TcpAddr};
use edgelet_transport::client::{APIClient, Configuration};
use edgelet_transport::error::Async;
use edgelet_transport::incoming::{listener, AcceptEvent, Incoming, TcpListener};
use edgelet_transport::selector::StreamSelector;
use edgelet_transport::stream::TcpStream;
use edgelet_transport::uri::UnixConnector;

#[test]
fn unix_listener_accepts_immediately() {
    let mut incoming = listener("/var/run/mgmt.sock").unwrap();
    match incoming.poll_accept() {
        Ok(Async::Ready((stream, addr))) => {
            assert!(matches!(stream, StreamSelector::Unix(_)));
            assert_eq!(addr.display_string(), "unknown".to_string());
        }
        _ => panic!("the emulated listener accepts at once"),
    }
}

#[test]
fn tcp_listener_skips_transient_failures() {
    let mut l = TcpListener::bind();
    l.push_event(AcceptEvent::Transient);
    l.push_event(AcceptEvent::Transient);
    l.push_event(AcceptEvent::Session(
        TcpStream::new(),
        TcpAddr { a: 10, b: 0, c: 0, d: 7, port: 49152 },
    ));
    let mut incoming = Incoming::Tcp(l);
    match incoming.poll_accept() {
        Ok(Async::Ready((stream, addr))) => {
            assert!(matches!(stream, StreamSelector::Tcp(_)));
            match addr {
                IncomingSocketAddr::Tcp(t) => assert_eq!(t.port, 49152),
                _ => panic!("a TCP accept carries a TCP address"),
            }
        }
        _ => panic!("the queued session must be yielded"),
    }
}

#[test]
fn tcp_listener_fatal_event_ends_the_sequence() {
    let mut l = TcpListener::bind();
    l.push_event(AcceptEvent::Transient);
    l.push_event(AcceptEvent::Fatal);
    let mut incoming = Incoming::Tcp(l);
    assert!(incoming.poll_accept().is_err());
}

#[test]
fn tcp_listener_with_nothing_pending_is_not_ready() {
    let mut incoming = Incoming::Tcp(TcpListener::bind());
    match incoming.poll_accept() {
        Ok(Async::NotReady) => {}
        _ => panic!("an idle listener reports not-ready"),
    }
}

#[test]
fn accepts_arrive_in_order() {
    let mut l = TcpListener::bind();
    l.push_event(AcceptEvent::Session(
        TcpStream::new(),
        TcpAddr { a: 1, b: 1, c: 1, d: 1, port: 1000 },
    ));
    l.push_event(AcceptEvent::Session(
        TcpStream::new(),
        TcpAddr { a: 2, b: 2, c: 2, d: 2, port: 2000 },
    ));
    let mut incoming = Incoming::Tcp(l);
    let first = match incoming.poll_accept() {
        Ok(Async::Ready((_, IncomingSocketAddr::Tcp(t)))) => t.port,
        _ => panic!("first accept"),
    };
    let second = match incoming.poll_accept() {
        Ok(Async::Ready((_, IncomingSocketAddr::Tcp(t)))) => t.port,
        _ => panic!("second accept"),
    };
    assert_eq!((first, second), (1000, 2000));
}

#[test]
fn api_client_shares_one_configuration() {
    let configuration = Configuration::new(UnixConnector::new(), "/mgmt/v1".to_string());
    let client = APIClient::new(configuration);
    assert_eq!(client.identity_api().configuration().base_path, "/mgmt/v1".to_string());
    assert_eq!(client.module_api().configuration().base_path, "/mgmt/v1".to_string());
    assert_eq!(
        client.system_information_api().configuration().base_path,
        "/mgmt/v1".to_string()
    );
}
