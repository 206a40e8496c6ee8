use edgelet_transport::error::Async;
use edgelet_transport::pid::Pid;
use edgelet_transport::selector::StreamSelector;
use edgelet_transport::stream::{AsyncStream, ByteChannel, PipeStream, TcpStream};
use edgelet_transport::unix::UnixStream;

#[test]
fn test_pid() {
    let (a, b) = UnixStream::pair();
    assert_eq!(a.pid().unwrap(), b.pid().unwrap());
    match a.pid().unwrap() {
        Pid::Absent => panic!("no pid 'a'"),
        Pid::Any => panic!("any pid 'a'"),
        Pid::Value(_) => (),
    }
    match b.pid().unwrap() {
        Pid::Absent => panic!("no pid 'b'"),
        Pid::Any => panic!("any pid 'b'"),
        Pid::Value(_) => (),
    }
}

#[test]
fn selector_pid_per_variant() {
    let tcp = StreamSelector::Tcp(TcpStream::new());
    let pipe = StreamSelector::Pipe(PipeStream::new());
    let unix = StreamSelector::Unix(UnixStream);
    assert_eq!(tcp.pid().unwrap(), Pid::Any);
    assert_eq!(pipe.pid().unwrap(), Pid::Any);
    assert_eq!(unix.pid().unwrap(), Pid::Value(1));
}

#[test]
fn fresh_read_returns_zero_on_every_variant() {
    let mut selectors = vec![
        StreamSelector::Tcp(TcpStream::new()),
        StreamSelector::Pipe(PipeStream::new()),
        StreamSelector::Unix(UnixStream),
    ];
    for s in selectors.iter_mut() {
        let mut buf: Vec<u8> = Vec::new();
        let n = s.read(&mut buf, 64).unwrap();
        assert_eq!(n, 0);
        assert!(buf.is_empty());
    }
}

#[test]
fn write_flush_shutdown_on_every_variant() {
    let mut selectors = vec![
        StreamSelector::Tcp(TcpStream::new()),
        StreamSelector::Pipe(PipeStream::new()),
        StreamSelector::Unix(UnixStream),
    ];
    let payload = b"ping".to_vec();
    for s in selectors.iter_mut() {
        let n = s.write(&payload).unwrap();
        assert!(n == payload.len() || n == 0);
        s.flush().unwrap();
        match s.shutdown() {
            Ok(Async::Ready(())) => {}
            _ => panic!("shutdown must complete on every variant"),
        }
    }
}

#[test]
fn tcp_stream_transfers_bytes_in_order() {
    let mut s = TcpStream::new();
    s.deliver(b"hello ".to_vec());
    s.deliver(b"world".to_vec());
    let mut buf: Vec<u8> = Vec::new();
    let n = s.read(&mut buf, 6).unwrap();
    assert_eq!(n, 6);
    assert_eq!(buf, b"hello ".to_vec());
    let n = s.read(&mut buf, 64).unwrap();
    assert_eq!(n, 5);
    assert_eq!(buf, b"hello world".to_vec());
    let written = s.write(&b"response".to_vec()).unwrap();
    assert_eq!(written, 8);
    assert_eq!(s.output(), &b"response".to_vec());
}

#[test]
fn channel_read_buf_distinguishes_silence_from_eof() {
    let mut c = ByteChannel::new();
    let mut buf: Vec<u8> = Vec::new();
    match c.read_buf(&mut buf) {
        Ok(Async::NotReady) => {}
        _ => panic!("an open silent channel is not ready"),
    }
    c.close_peer();
    match c.read_buf(&mut buf) {
        Ok(Async::Ready(0)) => {}
        _ => panic!("a closed drained channel reads zero bytes"),
    }
}

#[test]
fn unix_stub_reads_empty_and_accepts_nothing() {
    let mut s = UnixStream;
    let mut buf: Vec<u8> = Vec::new();
    assert_eq!(s.read(&mut buf, 16).unwrap(), 0);
    assert!(buf.is_empty());
    assert_eq!(s.write(&b"data".to_vec()).unwrap(), 0);
    s.flush().unwrap();
}
