use edgelet_transport::error::{Async, IoErrorKind};
use edgelet_transport::proxy::{Connect, Destination};
use edgelet_transport::uri::{ConnectFuture, UnixConnector, Uri};

#[test]
fn uri_encodes_socket_path_as_hex_host() {
    let uri = Uri::new("/tmp/sock", "/modules?api-version=1");
    assert_eq!(
        uri.into_string(),
        "unix://2f746d702f736f636b:0/modules?api-version=1".to_string()
    );
}

#[test]
fn socket_path_round_trip() {
    let uri = Uri::new("/var/run/mgmt.sock", "/identities");
    assert_eq!(Uri::socket_path(&uri).unwrap(), "/var/run/mgmt.sock".to_string());
}

#[test]
fn socket_path_dest_decodes_hex_host() {
    let dest = Destination::new(
        "unix".to_string(),
        hex::encode("/tmp/sock".as_bytes()),
        Some(0),
    );
    assert_eq!(Uri::socket_path_dest(&dest).unwrap(), "/tmp/sock".to_string());
}

#[test]
fn socket_path_dest_rejects_bad_hex() {
    let dest = Destination::new("unix".to_string(), "nothex!".to_string(), Some(0));
    assert!(Uri::socket_path_dest(&dest).is_none());
}

#[test]
fn connector_rejects_wrong_scheme() {
    let dest = Destination::new(
        "http".to_string(),
        hex::encode("/tmp/sock".as_bytes()),
        Some(0),
    );
    let mut f = ConnectFuture::Start(dest);
    match f.poll() {
        Err(e) => assert_eq!(e.kind, IoErrorKind::InvalidInput),
        _ => panic!("a non-unix scheme must be rejected before any I/O"),
    }
}

#[test]
fn connector_rejects_undecodable_host() {
    let dest = Destination::new("unix".to_string(), "zz!".to_string(), Some(0));
    let mut f = ConnectFuture::Start(dest);
    match f.poll() {
        Err(e) => assert_eq!(e.kind, IoErrorKind::InvalidInput),
        _ => panic!("a host that is not hex must be rejected"),
    }
}

#[test]
fn connector_yields_stream_for_valid_destination() {
    let dest = Destination::new(
        "unix".to_string(),
        hex::encode("/tmp/sock".as_bytes()),
        Some(0),
    );
    let mut f = ConnectFuture::Start(dest.clone());
    match f.poll() {
        Ok(Async::Ready((_stream, connected))) => {
            assert!(!connected.is_proxied());
        }
        _ => panic!("a valid unix destination must connect"),
    }
    let direct = UnixConnector::new().connect(&dest);
    assert!(direct.is_ok());
}
