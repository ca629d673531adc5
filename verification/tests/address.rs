use psp_net::netc::{in_addr, sockaddr, sockaddr_in, AF_INET, SOCK_DGRAM, SOCK_STREAM};
use psp_net::socket::{
    sockaddr_in_to_sockaddr, socket_addr_v4_to_sockaddr, socket_addr_v4_to_sockaddr_in, Ipv4Addr,
    SocketAddr, SocketAddrV4, ToSockaddr, ToSocketAddr,
};

#[test]
fn constants_of_the_platform() {
    assert_eq!(AF_INET, 2);
    assert_eq!(SOCK_STREAM, 1);
    assert_eq!(SOCK_DGRAM, 2);
}

#[test]
fn sockaddr_of_an_address_is_in_network_order() {
    let addr = SocketAddrV4::new(Ipv4Addr::new(192, 168, 0, 1), 8080);
    let s = socket_addr_v4_to_sockaddr(addr);
    assert_eq!(s.sa_len, 16);
    assert_eq!(s.sa_family, 2);
    assert_eq!(s.sa_data, [0x1f, 0x90, 192, 168, 0, 1, 0, 0, 0, 0, 0, 0, 0, 0]);
    let t = addr.to_sockaddr();
    assert_eq!(t.sa_data, s.sa_data);
}

#[test]
fn sockaddr_in_holds_the_numbers_of_a_little_endian_platform() {
    let addr = SocketAddrV4::new(Ipv4Addr::new(1, 2, 3, 4), 0x1234);
    let s = socket_addr_v4_to_sockaddr_in(addr);
    assert_eq!(s.sin_len, 16);
    assert_eq!(s.sin_family, 2);
    assert_eq!(s.sin_port, 0x3412);
    assert_eq!(s.sin_addr, in_addr(0x0403_0201));
    assert_eq!(s.sin_zero, [0u8; 8]);
    let copy = s.clone();
    assert_eq!(copy.sin_port, 0x3412);
    assert_eq!(copy.sin_addr, in_addr(0x0403_0201));
    let generic = sockaddr_in_to_sockaddr(s);
    assert_eq!(generic.sa_data, [0x12, 0x34, 1, 2, 3, 4, 0, 0, 0, 0, 0, 0, 0, 0]);
}

#[test]
fn sockaddr_in_with_other_bytes_is_viewed_as_it_lies() {
    let s = sockaddr_in {
        sin_len: 9,
        sin_family: 7,
        sin_port: 0xabcd,
        sin_addr: in_addr(0xdead_beef),
        sin_zero: [1, 2, 3, 4, 5, 6, 7, 8],
    };
    let generic = sockaddr_in_to_sockaddr(s);
    assert_eq!(generic.sa_len, 9);
    assert_eq!(generic.sa_family, 7);
    assert_eq!(
        generic.sa_data,
        [0xcd, 0xab, 0xef, 0xbe, 0xad, 0xde, 1, 2, 3, 4, 5, 6, 7, 8]
    );
}

#[test]
fn extreme_addresses() {
    let addr = SocketAddrV4::new(Ipv4Addr::new(255, 255, 255, 255), 65535);
    let s = socket_addr_v4_to_sockaddr(addr);
    assert_eq!(s.sa_data[..6], [255; 6]);
    let addr = SocketAddrV4::new(Ipv4Addr::new(0, 0, 0, 0), 0);
    let s = socket_addr_v4_to_sockaddr(addr);
    assert_eq!(s.sa_data, [0; 14]);
}

#[test]
fn in_addr_gives_its_bytes_most_significant_first() {
    assert_eq!(
        in_addr(0x5db8_d822).to_socket_addr(),
        SocketAddr::V4(SocketAddrV4::new(Ipv4Addr::new(93, 184, 216, 34), 0))
    );
    assert_eq!(
        in_addr(0).to_socket_addr(),
        SocketAddr::V4(SocketAddrV4::new(Ipv4Addr::new(0, 0, 0, 0), 0))
    );
    assert_eq!(
        in_addr(u32::MAX).to_socket_addr(),
        SocketAddr::V4(SocketAddrV4::new(Ipv4Addr::new(255, 255, 255, 255), 0))
    );
}

#[test]
fn sockaddr_is_read_in_its_order_in_memory() {
    let s = sockaddr {
        sa_len: 16,
        sa_family: 2,
        sa_data: [0x00, 0x35, 8, 8, 4, 4, 0, 0, 0, 0, 0, 0, 0, 0],
    };
    assert_eq!(
        s.to_socket_addr(),
        SocketAddr::V4(SocketAddrV4::new(Ipv4Addr::new(8, 8, 4, 4), 53))
    );
}

#[test]
fn address_survives_the_way_to_a_sockaddr_and_back() {
    let addr = SocketAddrV4::new(Ipv4Addr::new(1, 2, 3, 4), 80);
    assert_eq!(socket_addr_v4_to_sockaddr(addr).to_socket_addr(), SocketAddr::V4(addr));
    let addr = SocketAddrV4::new(Ipv4Addr::new(10, 20, 30, 40), 443);
    assert_eq!(addr.to_sockaddr().to_socket_addr(), SocketAddr::V4(addr));
    let addr = SocketAddrV4::new(Ipv4Addr::new(255, 0, 128, 1), 65535);
    assert_eq!(addr.to_sockaddr().to_socket_addr(), SocketAddr::V4(addr));
    let addr = SocketAddrV4::new(Ipv4Addr::new(0, 0, 0, 0), 0);
    assert_eq!(addr.to_sockaddr().to_socket_addr(), SocketAddr::V4(addr));
}

#[test]
fn address_accessors() {
    let ip = Ipv4Addr::new(1, 2, 3, 4);
    assert_eq!(ip.octets(), [1, 2, 3, 4]);
    let addr = SocketAddrV4::new(ip, 77);
    assert_eq!(addr.ip(), ip);
    assert_eq!(addr.port(), 77);
}
