use edgelet_transport::addr::{IncomingSocketAddr, SocketAddr, TcpAddr};

#[test]
fn named_unix_path_renders_exactly() {
    let addr = SocketAddr::from_pathname("/var/run/mgmt.sock").unwrap();
    assert_eq!(addr.as_pathname().unwrap(), "/var/run/mgmt.sock".to_string());
    let incoming = IncomingSocketAddr::Unix(addr);
    assert_eq!(incoming.display_string(), "/var/run/mgmt.sock".to_string());
}

#[test]
fn unnamed_unix_address_renders_placeholder() {
    let addr = SocketAddr::new();
    assert!(addr.as_pathname().is_none());
    let incoming = IncomingSocketAddr::Unix(addr);
    assert_eq!(incoming.display_string(), "unknown".to_string());
}

#[test]
fn display_is_idempotent() {
    let incoming =
        IncomingSocketAddr::Unix(SocketAddr::from_pathname("/tmp/workload.sock").unwrap());
    let first = incoming.display_string();
    let second = incoming.display_string();
    assert_eq!(first, second);
    assert_eq!(first, "/tmp/workload.sock".to_string());
}

#[test]
fn tcp_address_renders_dotted_quad_and_port() {
    let addr = TcpAddr { a: 127, b: 0, c: 0, d: 1, port: 8080 };
    let incoming = IncomingSocketAddr::Tcp(addr);
    assert_eq!(incoming.display_string(), "127.0.0.1:8080".to_string());
}

#[test]
fn tcp_address_renders_largest_values() {
    let addr = TcpAddr { a: 255, b: 255, c: 255, d: 255, port: 65535 };
    assert_eq!(addr.display_string(), "255.255.255.255:65535".to_string());
}

#[test]
fn pathname_must_fit_the_buffer() {
    let longest = "a".repeat(107);
    let addr = SocketAddr::from_pathname(&longest).unwrap();
    assert_eq!(addr.as_pathname().unwrap(), longest);
    let too_long = "a".repeat(108);
    assert!(SocketAddr::from_pathname(&too_long).is_none());
}

#[test]
fn tcp_address_renders_zero_port() {
    let addr = TcpAddr { a: 0, b: 0, c: 0, d: 0, port: 0 };
    assert_eq!(addr.display_string(), "0.0.0.0:0".to_string());
}

#[test]
fn pathname_rejects_interior_nul() {
    assert!(SocketAddr::from_pathname("/run/\0bad").is_none());
}
