use psp_net::socket::error::SocketError;
use psp_net::socket::sce::{Status, Syscall, Transfer};
use psp_net::socket::state::Connected;
use psp_net::socket::tcp::TcpSocket;
use psp_net::socket::{Ipv4Addr, Ipv6Addr, SocketAddr, SocketAddrV4, SocketAddrV6};
use psp_net::traits::io::{Open, Read, Write};
use psp_net::types::{SocketOptions, SocketRecvFlags, SocketSendFlags};

/// A platform with one listener that sends back what it receives.
struct FakePlatform {
    listener: [u8; 6],
    next_fd: i32,
    calls: usize,
    closes: Vec<i32>,
    connected: Vec<i32>,
    echo: Vec<u8>,
    send_limit: usize,
}

impl FakePlatform {
    fn listening_at(a: u8, b: u8, c: u8, d: u8, port: u16) -> Self {
        FakePlatform {
            listener: [(port >> 8) as u8, port as u8, a, b, c, d],
            next_fd: 3,
            calls: 0,
            closes: Vec::new(),
            connected: Vec::new(),
            echo: Vec::new(),
            send_limit: usize::MAX,
        }
    }

    fn status(&mut self, call: Syscall) -> Status {
        self.calls += 1;
        match call {
            Syscall::Socket { domain: 2, kind: 1, protocol: 0 } => {
                let fd = self.next_fd;
                self.next_fd += 1;
                Status { value: fd, errno: 0 }
            }
            Syscall::Connect { fd, addr, addr_len: 16 } => {
                if addr.sa_len == 16 && addr.sa_family == 2 && addr.sa_data[..6] == self.listener {
                    self.connected.push(fd);
                    Status { value: 0, errno: 0 }
                } else {
                    Status { value: -1, errno: 111 }
                }
            }
            Syscall::Close { fd } => {
                self.closes.push(fd);
                Status { value: 0, errno: 0 }
            }
            other => panic!("unexpected call {:?}", other),
        }
    }

    fn send(&mut self, call: Syscall, data: &[u8]) -> Transfer {
        self.calls += 1;
        match call {
            Syscall::Send { fd, len, flags: _ } => {
                assert!(self.connected.contains(&fd));
                assert_eq!(len, data.len());
                let n = len.min(self.send_limit);
                self.echo.extend_from_slice(&data[..n]);
                Transfer { count: n as isize, errno: 0 }
            }
            other => panic!("unexpected call {:?}", other),
        }
    }

    fn recv(&mut self, call: Syscall, buf: &mut [u8]) -> Transfer {
        self.calls += 1;
        match call {
            Syscall::Recv { fd, len, flags: _ } => {
                assert!(self.connected.contains(&fd));
                let n = len.min(buf.len()).min(self.echo.len());
                buf[..n].copy_from_slice(&self.echo[..n]);
                self.echo.drain(..n);
                Transfer { count: n as isize, errno: 0 }
            }
            other => panic!("unexpected call {:?}", other),
        }
    }
}

fn v4(a: u8, b: u8, c: u8, d: u8, port: u16) -> SocketAddr {
    SocketAddr::V4(SocketAddrV4::new(Ipv4Addr::new(a, b, c, d), port))
}

fn v6() -> SocketAddr {
    SocketAddr::V6(SocketAddrV6 { ip: Ipv6Addr { octets: [0; 16] }, port: 443 })
}

fn connected(platform: &mut FakePlatform, remote: SocketAddr) -> TcpSocket<Connected> {
    let socket = TcpSocket::new(platform.status(TcpSocket::new_call())).unwrap();
    let call = socket.connect_call(remote).unwrap();
    let ret = platform.status(call);
    socket.connect(remote, ret).unwrap()
}

#[test]
fn tcp_new_asks_for_a_stream_socket() {
    assert!(matches!(
        TcpSocket::new_call(),
        Syscall::Socket { domain: 2, kind: 1, protocol: 0 }
    ));
    let socket = TcpSocket::new(Status { value: 7, errno: 0 }).unwrap();
    assert_eq!(socket.fd(), 7);
    assert_eq!(socket.send_flags(), SocketSendFlags::empty());
    assert_eq!(socket.recv_flags(), SocketRecvFlags::empty());
    let socket = TcpSocket::new(Status { value: 0, errno: 5 }).unwrap();
    assert_eq!(socket.fd(), 0);
}

#[test]
fn tcp_new_fails_with_errno_and_description() {
    let error = TcpSocket::new(Status { value: -1, errno: 24 }).unwrap_err();
    assert_eq!(
        error,
        SocketError::ErrnoWithDescription(24, "failed to create socket".to_string())
    );
    assert_eq!(error.to_string(), "Errno: 24 (failed to create socket)");
}

#[test]
fn tcp_connect_call_holds_the_address_in_network_order() {
    let socket = TcpSocket::new(Status { value: 4, errno: 0 }).unwrap();
    match socket.connect_call(v4(127, 0, 0, 1, 9999)).unwrap() {
        Syscall::Connect { fd, addr, addr_len } => {
            assert_eq!(fd, 4);
            assert_eq!(addr_len, 16);
            assert_eq!(addr.sa_len, 16);
            assert_eq!(addr.sa_family, 2);
            assert_eq!(addr.sa_data, [0x27, 0x0f, 127, 0, 0, 1, 0, 0, 0, 0, 0, 0, 0, 0]);
        }
        other => panic!("unexpected call {:?}", other),
    }
}

#[test]
fn tcp_connect_with_ipv6_fails_without_a_call() {
    let mut platform = FakePlatform::listening_at(127, 0, 0, 1, 9999);
    let socket = TcpSocket::new(platform.status(TcpSocket::new_call())).unwrap();
    let calls = platform.calls;
    assert_eq!(
        socket.connect_call(v6()).unwrap_err(),
        SocketError::UnsupportedAddressFamily
    );
    let fd = socket.fd();
    let failure = socket.connect(v6(), Status { value: 0, errno: 0 }).unwrap_err();
    assert_eq!(failure.error, SocketError::UnsupportedAddressFamily);
    assert_eq!(platform.calls, calls);
    // the socket is used up: all that is left to do is to close its descriptor
    assert!(matches!(failure.close, Syscall::Close { fd: closed } if closed == fd));
}

#[test]
fn tcp_connect_failure_gives_the_errno() {
    let mut platform = FakePlatform::listening_at(127, 0, 0, 1, 9999);
    let socket = TcpSocket::new(platform.status(TcpSocket::new_call())).unwrap();
    let remote = v4(127, 0, 0, 1, 80);
    let ret = platform.status(socket.connect_call(remote).unwrap());
    let fd = socket.fd();
    let failure = socket.connect(remote, ret).unwrap_err();
    assert_eq!(failure.error, SocketError::Errno(111));
    platform.status(failure.close);
    assert_eq!(platform.closes, vec![fd]);
}

#[test]
fn tcp_ping_is_echoed() {
    let mut platform = FakePlatform::listening_at(127, 0, 0, 1, 9999);
    let mut socket = connected(&mut platform, v4(127, 0, 0, 1, 9999));

    let call = socket.internal_write_call(b"ping");
    let ret = platform.send(call, socket.buffer());
    assert_eq!(socket.internal_write(ret), Ok(4));

    while let Some(call) = socket.internal_flush_call() {
        let ret = platform.send(call, socket.buffer());
        socket.internal_flush(ret).unwrap();
    }
    assert!(socket.buffer().is_empty());

    let mut buf = [0u8; 16];
    let call = socket.internal_read_call(buf.len());
    let ret = platform.recv(call, &mut buf);
    let n = socket.internal_read(ret).unwrap();
    assert_eq!(n, 4);
    assert_eq!(&buf[..n], b"ping");
}

#[test]
fn tcp_partial_send_keeps_the_rest_for_the_flush() {
    let mut platform = FakePlatform::listening_at(10, 0, 0, 2, 7);
    platform.send_limit = 3;
    let mut socket = connected(&mut platform, v4(10, 0, 0, 2, 7));

    let call = socket.internal_write_call(b"hello world");
    assert!(matches!(call, Syscall::Send { len: 11, flags: 0, .. }));
    let ret = platform.send(call, socket.buffer());
    assert_eq!(socket.internal_write(ret), Ok(3));
    assert_eq!(socket.buffer(), b"lo world");

    let mut sends = 0;
    while let Some(call) = socket.internal_flush_call() {
        let ret = platform.send(call, socket.buffer());
        socket.internal_flush(ret).unwrap();
        sends += 1;
    }
    assert_eq!(sends, 3);
    assert!(socket.buffer().is_empty());
    assert_eq!(platform.echo, b"hello world");
}

#[test]
fn tcp_flush_after_any_partial_write_delivers_once_and_in_order() {
    for written in 0..=4usize {
        for step in 1..=4usize {
            let mut platform = FakePlatform::listening_at(127, 0, 0, 1, 9999);
            let mut socket = connected(&mut platform, v4(127, 0, 0, 1, 9999));

            platform.send_limit = written;
            let call = socket.internal_write_call(b"ping");
            let ret = platform.send(call, socket.buffer());
            assert_eq!(socket.internal_write(ret), Ok(written));
            assert_eq!(socket.buffer(), &b"ping"[written..]);

            platform.send_limit = step;
            while let Some(call) = socket.internal_flush_call() {
                let ret = platform.send(call, socket.buffer());
                socket.internal_flush(ret).unwrap();
            }
            assert!(socket.buffer().is_empty());
            assert_eq!(platform.echo, b"ping");
        }
    }
}

#[test]
fn tcp_write_appends_to_what_is_queued() {
    let mut platform = FakePlatform::listening_at(10, 0, 0, 2, 7);
    let mut socket = connected(&mut platform, v4(10, 0, 0, 2, 7));
    let _ = socket.internal_write_call(b"ab");
    assert_eq!(socket.internal_write(Transfer { count: 0, errno: 0 }), Ok(0));
    let call = socket.internal_write_call(b"cd");
    assert!(matches!(call, Syscall::Send { len: 4, .. }));
    assert_eq!(socket.buffer(), b"abcd");
    assert_eq!(socket.internal_write(Transfer { count: 100, errno: 0 }), Ok(100));
    assert!(socket.buffer().is_empty());
}

#[test]
fn tcp_failed_send_keeps_the_queue() {
    let mut platform = FakePlatform::listening_at(10, 0, 0, 2, 7);
    let mut socket = connected(&mut platform, v4(10, 0, 0, 2, 7));
    let _ = socket.internal_write_call(b"abc");
    assert_eq!(
        socket.internal_write(Transfer { count: -1, errno: 32 }),
        Err(SocketError::Errno(32))
    );
    assert_eq!(socket.buffer(), b"abc");
    assert_eq!(
        socket.internal_flush(Transfer { count: -1, errno: 32 }),
        Err(SocketError::Errno(32))
    );
    assert_eq!(socket.buffer(), b"abc");
}

#[test]
fn tcp_flush_of_nothing_asks_for_no_call() {
    let mut platform = FakePlatform::listening_at(10, 0, 0, 2, 7);
    let socket = connected(&mut platform, v4(10, 0, 0, 2, 7));
    assert!(socket.internal_flush_call().is_none());
}

#[test]
fn tcp_read_of_zero_bytes_is_no_error() {
    let mut platform = FakePlatform::listening_at(10, 0, 0, 2, 7);
    let socket = connected(&mut platform, v4(10, 0, 0, 2, 7));
    assert_eq!(socket.internal_read(Transfer { count: 0, errno: 0 }), Ok(0));
    assert_eq!(socket.internal_read(Transfer { count: 12, errno: 9 }), Ok(12));
    assert_eq!(
        socket.internal_read(Transfer { count: -1, errno: 104 }),
        Err(SocketError::Errno(104))
    );
}

#[test]
fn tcp_flags_go_into_the_calls() {
    let mut platform = FakePlatform::listening_at(10, 0, 0, 2, 7);
    let mut socket = TcpSocket::new(platform.status(TcpSocket::new_call())).unwrap();
    socket.set_send_flags(SocketSendFlags::from_bits(SocketSendFlags::MSG_EOR).unwrap());
    socket.set_recv_flags(SocketRecvFlags::from_bits_truncate(
        SocketRecvFlags::MSG_PEEK | SocketRecvFlags::MSG_WAITALL,
    ));
    let remote = v4(10, 0, 0, 2, 7);
    let ret = platform.status(socket.connect_call(remote).unwrap());
    let mut socket = socket.connect(remote, ret).unwrap();
    assert_eq!(socket.send_flags().bits(), 0x8);
    assert_eq!(socket.recv_flags().bits(), 0x42);
    assert!(matches!(
        socket.internal_read_call(64),
        Syscall::Recv { len: 64, flags: 0x42, .. }
    ));
    assert!(matches!(
        socket.internal_write_call(b"x"),
        Syscall::Send { len: 1, flags: 0x8, .. }
    ));
}

#[test]
fn tcp_descriptor_is_closed_once() {
    let mut platform = FakePlatform::listening_at(127, 0, 0, 1, 9999);
    let socket = TcpSocket::new(platform.status(TcpSocket::new_call())).unwrap();
    let fd = socket.fd();
    let remote = v4(127, 0, 0, 1, 9999);
    let ret = platform.status(socket.connect_call(remote).unwrap());
    let mut socket = socket.connect(remote, ret).unwrap();
    assert_eq!(socket.fd(), fd);
    let call = socket.internal_write_call(b"bye");
    let ret = platform.send(call, socket.buffer());
    socket.internal_write(ret).unwrap();
    assert_eq!(socket.fd(), fd);

    let call = socket.close();
    assert!(matches!(call, Syscall::Close { fd: closed } if closed == fd));
    platform.status(call);
    assert_eq!(platform.closes, vec![fd]);
}

#[test]
fn tcp_open_connects_to_the_remote_of_the_options() {
    let mut platform = FakePlatform::listening_at(127, 0, 0, 1, 9999);
    let socket = TcpSocket::new(platform.status(TcpSocket::new_call())).unwrap();
    let options = SocketOptions::new(v4(127, 0, 0, 1, 9999));
    assert_eq!(options.remote(), v4(127, 0, 0, 1, 9999));
    let mut answers = Vec::new();
    while let Some(call) = socket.open_call(&options, &answers).unwrap() {
        answers.push(platform.status(call));
    }
    assert_eq!(answers.len(), 1);
    let mut socket = socket.open(&options, &answers).unwrap();
    assert!(platform.connected.contains(&socket.fd()));

    let call = socket.write_call(b"ping");
    let ret = platform.send(call, socket.buffer());
    assert_eq!(socket.write(ret), Ok(4));
    assert!(socket.flush_call().is_none());
    let mut buf = [0u8; 4];
    let ret = platform.recv(socket.read_call(4), &mut buf);
    assert_eq!(socket.read(ret), Ok(4));
    assert_eq!(&buf, b"ping");
}

#[test]
fn tcp_open_fails_as_connect_does() {
    let options = SocketOptions::new(v6());
    let socket = TcpSocket::new(Status { value: 3, errno: 0 }).unwrap();
    assert_eq!(
        socket.open_call(&options, &[]).unwrap_err(),
        SocketError::UnsupportedAddressFamily
    );
    let failure = socket.open(&options, &[]).unwrap_err();
    assert_eq!(failure.error, SocketError::UnsupportedAddressFamily);
    assert!(matches!(failure.close, Syscall::Close { fd: 3 }));

    let options = SocketOptions::new(v4(1, 2, 3, 4, 5));
    let socket = TcpSocket::new(Status { value: 3, errno: 0 }).unwrap();
    assert_eq!(socket.open(&options, &[]).unwrap_err().error, SocketError::NotConnected);
    let socket = TcpSocket::new(Status { value: 3, errno: 0 }).unwrap();
    let failure = socket.open(&options, &[Status { value: -1, errno: 110 }]).unwrap_err();
    assert_eq!(failure.error, SocketError::Errno(110));
    assert!(matches!(failure.close, Syscall::Close { fd: 3 }));
}
