use edgelet_transport::error::{Async, IoErrorKind};
use edgelet_transport::stream::TcpStream;
use edgelet_transport::tunnel::{
    build_connect_request, classify_response, tunnel, tunnel_eof, ResponseStatus,
};

#[test]
fn request_is_bit_exact() {
    let req = build_connect_request("example.com", 443);
    let expected = b"CONNECT example.com:443 HTTP/1.1\r\nHost: example.com:443\r\n\r\n".to_vec();
    assert_eq!(req, expected);
}

#[test]
fn request_for_port_with_several_digits() {
    let req = build_connect_request("proxy.example", 8080);
    let expected =
        b"CONNECT proxy.example:8080 HTTP/1.1\r\nHost: proxy.example:8080\r\n\r\n".to_vec();
    assert_eq!(req, expected);
}

#[test]
fn tunnel_success() {
    let mut stream = TcpStream::new();
    stream.deliver(b"HTTP/1.1 200 Connection established\r\n\r\n".to_vec());
    let mut handshake = tunnel(stream, "example.com", 443);
    match handshake.poll() {
        Ok(Async::Ready(stream)) => {
            let expected =
                b"CONNECT example.com:443 HTTP/1.1\r\nHost: example.com:443\r\n\r\n".to_vec();
            assert_eq!(stream.output(), &expected);
        }
        _ => panic!("handshake should yield the stream"),
    }
}

#[test]
fn tunnel_success_http_1_0() {
    let mut stream = TcpStream::new();
    stream.deliver(b"HTTP/1.0 200 Connection established\r\n\r\n".to_vec());
    let mut handshake = tunnel(stream, "example.com", 443);
    match handshake.poll() {
        Ok(Async::Ready(_)) => {}
        _ => panic!("an HTTP/1.0 200 response is accepted too"),
    }
}

#[test]
fn tunnel_rejection() {
    let mut stream = TcpStream::new();
    stream.deliver(b"HTTP/1.1 407 Proxy Authentication Required\r\n\r\n".to_vec());
    let mut handshake = tunnel(stream, "example.com", 443);
    match handshake.poll() {
        Err(e) => assert_eq!(e.kind, IoErrorKind::TunnelRejected),
        _ => panic!("a 407 response must fail the handshake"),
    }
}

#[test]
fn tunnel_eof_before_response() {
    let mut stream = TcpStream::new();
    stream.close_peer();
    let mut handshake = tunnel(stream, "example.com", 443);
    match handshake.poll() {
        Err(e) => assert_eq!(e.kind, IoErrorKind::UnexpectedEof),
        _ => panic!("a closed peer must fail the handshake"),
    }
}

#[test]
fn tunnel_waits_for_terminator() {
    let mut stream = TcpStream::new();
    stream.deliver(b"HTTP/1.1 200 Connection established\r\n".to_vec());
    let mut handshake = tunnel(stream, "example.com", 443);
    match handshake.poll() {
        Ok(Async::NotReady) => {}
        _ => panic!("without the blank line the handshake must stay pending"),
    }
}

#[test]
fn tunnel_waits_while_peer_is_silent() {
    let stream = TcpStream::new();
    let mut handshake = tunnel(stream, "example.com", 443);
    match handshake.poll() {
        Ok(Async::NotReady) => {}
        _ => panic!("with no response bytes the handshake must stay pending"),
    }
}

#[test]
fn tunnel_eof_error_value() {
    assert_eq!(tunnel_eof().kind, IoErrorKind::UnexpectedEof);
}

#[test]
fn response_classification() {
    let empty: Vec<u8> = Vec::new();
    assert_eq!(classify_response(&empty), ResponseStatus::Incomplete);
    let short = b"HTTP/1.1 200".to_vec();
    assert_eq!(classify_response(&short), ResponseStatus::Incomplete);
    let unfinished = b"HTTP/1.1 200 OK\r\n".to_vec();
    assert_eq!(classify_response(&unfinished), ResponseStatus::Incomplete);
    let accepted = b"HTTP/1.1 200 OK\r\n\r\n".to_vec();
    assert_eq!(classify_response(&accepted), ResponseStatus::Accepted);
    let rejected = b"HTTP/1.1 500 Internal Server Error\r\n\r\n".to_vec();
    assert_eq!(classify_response(&rejected), ResponseStatus::Rejected);
}
