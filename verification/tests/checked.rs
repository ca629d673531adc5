use psp_net::socket::checked::{CheckedUdpSocket, UdpSocketState};
use psp_net::socket::error::SocketError;
use psp_net::socket::sce::{Status, Syscall, Transfer};
use psp_net::socket::{Ipv4Addr, Ipv6Addr, SocketAddr, SocketAddrV4, SocketAddrV6};

const OK: Status = Status { value: 0, errno: 0 };
const SENT: Transfer = Transfer { count: 4, errno: 0 };

fn v4(a: u8, b: u8, c: u8, d: u8, port: u16) -> SocketAddr {
    SocketAddr::V4(SocketAddrV4::new(Ipv4Addr::new(a, b, c, d), port))
}

fn v6() -> SocketAddr {
    SocketAddr::V6(SocketAddrV6 { ip: Ipv6Addr { octets: [0; 16] }, port: 53 })
}

fn unbound() -> CheckedUdpSocket {
    CheckedUdpSocket::new(Status { value: 4, errno: 0 }).unwrap()
}

fn bound() -> CheckedUdpSocket {
    let mut socket = unbound();
    socket.bind(None, OK).unwrap();
    socket
}

fn connected() -> CheckedUdpSocket {
    let mut socket = bound();
    socket.connect(v4(8, 8, 8, 8, 53), OK).unwrap();
    socket
}

#[test]
fn checked_socket_goes_through_its_states() {
    assert!(matches!(
        CheckedUdpSocket::new_call(),
        Syscall::Socket { domain: 2, kind: 2, protocol: 0 }
    ));
    assert_eq!(
        CheckedUdpSocket::new(Status { value: -1, errno: 12 }).unwrap_err(),
        SocketError::Errno(12)
    );
    let mut socket = unbound();
    assert_eq!(socket.state(), UdpSocketState::Unbound);
    assert_eq!(socket.fd(), 4);
    assert!(socket.remote().is_none());
    assert!(matches!(socket.bind_call(None), Ok(Syscall::Bind { fd: 4, addr_len: 16, .. })));
    socket.bind(None, OK).unwrap();
    assert_eq!(socket.state(), UdpSocketState::Bound);
    assert_eq!(socket.remote().unwrap().sa_data, [0u8; 14]);
    let remote = v4(8, 8, 8, 8, 53);
    assert!(matches!(
        socket.connect_call(remote),
        Ok(Syscall::Connect { fd: 4, addr_len: 16, .. })
    ));
    socket.connect(remote, OK).unwrap();
    assert_eq!(socket.state(), UdpSocketState::Connected);
    assert_eq!(socket.remote().unwrap().sa_data[..6], [0, 53, 8, 8, 8, 8]);
    assert_eq!(socket.fd(), 4);
    assert!(matches!(socket.close(), Syscall::Close { fd: 4 }));
}

#[test]
fn bound_socket_refuses_write_flush_and_read() {
    let mut socket = bound();
    assert_eq!(socket.write_call(b"data").unwrap_err(), SocketError::NotConnected);
    assert!(socket.buffer().is_empty());
    assert_eq!(socket.write(SENT).unwrap_err(), SocketError::NotConnected);
    assert_eq!(socket.flush_call().unwrap_err(), SocketError::NotConnected);
    assert_eq!(socket.flush(SENT).unwrap_err(), SocketError::NotConnected);
    assert_eq!(socket.read_call(16).unwrap_err(), SocketError::NotConnected);
    assert_eq!(socket.read(SENT).unwrap_err(), SocketError::NotConnected);
    assert_eq!(socket.state(), UdpSocketState::Bound);
}

#[test]
fn unbound_socket_refuses_write_flush_and_read() {
    let mut socket = unbound();
    assert_eq!(socket.write_call(b"data").unwrap_err(), SocketError::NotConnected);
    assert_eq!(socket.write(SENT).unwrap_err(), SocketError::NotConnected);
    assert_eq!(socket.flush_call().unwrap_err(), SocketError::NotConnected);
    assert_eq!(socket.flush(SENT).unwrap_err(), SocketError::NotConnected);
    assert_eq!(socket.read_call(16).unwrap_err(), SocketError::NotConnected);
    assert_eq!(socket.read(SENT).unwrap_err(), SocketError::NotConnected);
}

#[test]
fn connect_in_the_wrong_state_is_named() {
    let mut socket = unbound();
    let remote = v4(1, 1, 1, 1, 53);
    assert_eq!(socket.connect_call(remote).unwrap_err(), SocketError::NotBound);
    assert_eq!(socket.connect(remote, OK).unwrap_err(), SocketError::NotBound);
    assert_eq!(socket.state(), UdpSocketState::Unbound);

    let mut socket = connected();
    assert_eq!(socket.connect_call(remote).unwrap_err(), SocketError::AlreadyConnected);
    assert_eq!(socket.connect(remote, OK).unwrap_err(), SocketError::AlreadyConnected);
    assert_eq!(socket.remote().unwrap().sa_data[..6], [0, 53, 8, 8, 8, 8]);
}

#[test]
fn bind_in_the_wrong_state_is_named() {
    let mut socket = bound();
    assert_eq!(socket.bind_call(None).unwrap_err(), SocketError::AlreadyBound);
    assert_eq!(socket.bind(None, OK).unwrap_err(), SocketError::AlreadyBound);
    let mut socket = connected();
    assert_eq!(socket.bind(None, OK).unwrap_err(), SocketError::AlreadyBound);
    assert_eq!(socket.state(), UdpSocketState::Connected);
}

#[test]
fn ipv6_is_refused_in_every_state() {
    for mut socket in [unbound(), bound(), connected()] {
        let state = socket.state();
        assert_eq!(
            socket.connect_call(v6()).unwrap_err(),
            SocketError::UnsupportedAddressFamily
        );
        assert_eq!(
            socket.connect(v6(), OK).unwrap_err(),
            SocketError::UnsupportedAddressFamily
        );
        assert_eq!(
            socket.bind_call(Some(v6())).unwrap_err(),
            SocketError::UnsupportedAddressFamily
        );
        assert_eq!(
            socket.bind(Some(v6()), OK).unwrap_err(),
            SocketError::UnsupportedAddressFamily
        );
        assert_eq!(socket.state(), state);
    }
}

#[test]
fn failed_bind_and_connect_leave_the_socket() {
    let mut socket = unbound();
    assert_eq!(
        socket.bind(None, Status { value: -1, errno: 98 }).unwrap_err(),
        SocketError::Errno(98)
    );
    assert_eq!(socket.state(), UdpSocketState::Unbound);
    let mut socket = bound();
    assert_eq!(
        socket
            .connect(v4(1, 1, 1, 1, 53), Status { value: -1, errno: 101 })
            .unwrap_err(),
        SocketError::Errno(101)
    );
    assert_eq!(socket.state(), UdpSocketState::Bound);
    socket.connect(v4(1, 1, 1, 1, 53), OK).unwrap();
    assert_eq!(socket.state(), UdpSocketState::Connected);
}

#[test]
fn connected_socket_writes_flushes_and_reads() {
    let mut socket = connected();
    assert!(matches!(
        socket.write_call(b"abcdef"),
        Ok(Syscall::Send { fd: 4, len: 6, flags: 0 })
    ));
    assert_eq!(socket.write(SENT), Ok(4));
    assert_eq!(socket.buffer(), b"ef");
    assert!(matches!(
        socket.flush_call(),
        Ok(Some(Syscall::Send { fd: 4, len: 2, flags: 0 }))
    ));
    assert_eq!(
        socket.flush(Transfer { count: -1, errno: 55 }).unwrap_err(),
        SocketError::Errno(55)
    );
    assert_eq!(socket.buffer(), b"ef");
    socket.flush(Transfer { count: 2, errno: 0 }).unwrap();
    assert!(matches!(socket.flush_call(), Ok(None)));
    assert!(matches!(
        socket.read_call(1024),
        Ok(Syscall::Recv { fd: 4, len: 1024, flags: 0 })
    ));
    assert_eq!(socket.read(Transfer { count: 0, errno: 0 }), Ok(0));
    assert_eq!(
        socket.read(Transfer { count: -1, errno: 11 }).unwrap_err(),
        SocketError::Errno(11)
    );
}
