//! This module contains the socket types.
//! Currently, three socket types are provided:
//! - [`udp::UdpSocket`] – a UDP socket
//! - [`tcp::TcpSocket`] – a TCP socket
//! - [`tls::TlsSocket`] – a TCP socket wrapper that provides a TLS connection
//!
//! It also holds the address types and their conversions to and from the
//! platform's address structures.

use super::netc;
use super::netc::{in_addr, sockaddr};
use vstd::prelude::*;

pub mod checked;
pub mod error;
pub mod sce;
pub mod state;
pub mod tcp;
pub mod tls;
pub mod udp;

verus! {

/// An IPv4 address
#[derive(Clone, Copy, Debug, PartialEq, Eq)]
pub struct Ipv4Addr {
    /// The four octets, the most significant first
    pub octets: [u8; 4],
}

impl Ipv4Addr {
    /// The address `a.b.c.d`
    pub fn new(a: u8, b: u8, c: u8, d: u8) -> (r: Self)
        ensures
            r.octets@ == seq![a, b, c, d],
    {
        Ipv4Addr { octets: [a, b, c, d] }
    }

    /// The four octets of the address
    pub fn octets(&self) -> (r: [u8; 4])
        ensures
            r == self.octets,
    {
        self.octets
    }
}

/// An IPv6 address. The platform has no IPv6: the type exists so that such an
/// address can be named and refused.
#[derive(Clone, Copy, Debug, PartialEq, Eq)]
pub struct Ipv6Addr {
    /// The sixteen octets, the most significant first
    pub octets: [u8; 16],
}

/// An IPv4 address with a port
#[derive(Clone, Copy, Debug, PartialEq, Eq)]
pub struct SocketAddrV4 {
    /// The address
    pub ip: Ipv4Addr,
    /// The port
    pub port: u16,
}

impl SocketAddrV4 {
    /// The socket address of `ip` and `port`
    pub fn new(ip: Ipv4Addr, port: u16) -> (r: Self)
        ensures
            r.ip == ip,
            r.port == port,
    {
        SocketAddrV4 { ip, port }
    }

    /// The address
    pub fn ip(&self) -> (r: Ipv4Addr)
        ensures
            r == self.ip,
    {
        self.ip
    }

    /// The port
    pub fn port(&self) -> (r: u16)
        ensures
            r == self.port,
    {
        self.port
    }
}

/// An IPv6 address with a port
#[derive(Clone, Copy, Debug, PartialEq, Eq)]
pub struct SocketAddrV6 {
    /// The address
    pub ip: Ipv6Addr,
    /// The port
    pub port: u16,
}

/// A socket address of either family
#[derive(Clone, Copy, Debug, PartialEq, Eq)]
pub enum SocketAddr {
    /// An IPv4 socket address
    V4(SocketAddrV4),
    /// An IPv6 socket address
    V6(SocketAddrV6),
}

/// The two bytes of `x` in the other order
pub open spec fn swapped_u16(x: u16) -> u16 {
    ((x % 256) * 256 + x / 256) as u16
}

/// The four bytes of `x`, the least significant first
pub open spec fn le_bytes_u32(x: u32) -> Seq<u8> {
    seq![
        (x % 256) as u8,
        ((x / 0x100) % 256) as u8,
        ((x / 0x1_0000) % 256) as u8,
        (x / 0x100_0000) as u8,
    ]
}

/// The four bytes of `x`, the most significant first
pub open spec fn be_bytes_u32(x: u32) -> Seq<u8> {
    seq![
        (x / 0x100_0000) as u8,
        ((x / 0x1_0000) % 256) as u8,
        ((x / 0x100) % 256) as u8,
        (x % 256) as u8,
    ]
}

/// The number whose four bytes, the least significant first, are `b`
pub open spec fn u32_of_le_bytes(b: Seq<u8>) -> u32 {
    (b[0] + b[1] * 0x100 + b[2] * 0x1_0000 + b[3] * 0x100_0000) as u32
}

/// The number whose four bytes, the most significant first, are `b`
pub open spec fn u32_of_be_bytes(b: Seq<u8>) -> u32 {
    (b[3] + b[2] * 0x100 + b[1] * 0x1_0000 + b[0] * 0x100_0000) as u32
}

/// Whether `s` is the `sockaddr_in` of an IPv4 socket address: the port with
/// its bytes swapped, the address as the number that the platform reads from
/// the four octets in memory.
pub open spec fn is_sockaddr_in_of(s: netc::sockaddr_in, addr: SocketAddrV4) -> bool {
    &&& s.sin_len == netc::SOCKADDR_LEN
    &&& s.sin_family == netc::AF_INET
    &&& s.sin_port == swapped_u16(addr.port)
    &&& s.sin_addr.0 == u32_of_le_bytes(addr.ip.octets@)
    &&& s.sin_zero@ == Seq::new(8, |i: int| 0u8)
}

/// The bytes of a `sockaddr_in` behind its two leading bytes, as they lie in
/// the platform's memory
pub open spec fn sockaddr_in_data(s: netc::sockaddr_in) -> Seq<u8> {
    seq![(s.sin_port % 256) as u8, (s.sin_port / 256) as u8] + le_bytes_u32(s.sin_addr.0)
        + s.sin_zero@
}

/// The fourteen data bytes of the `sockaddr` of an IPv4 socket address: the
/// port and the four octets, each the most significant byte first, then eight
/// zero bytes.
pub open spec fn sockaddr_data_of(addr: SocketAddrV4) -> Seq<u8> {
    seq![
        (addr.port / 256) as u8,
        (addr.port % 256) as u8,
        addr.ip.octets[0],
        addr.ip.octets[1],
        addr.ip.octets[2],
        addr.ip.octets[3],
        0u8,
        0u8,
        0u8,
        0u8,
        0u8,
        0u8,
        0u8,
        0u8,
    ]
}

/// Whether `s` is the `sockaddr` that stands for `addr`
pub open spec fn is_sockaddr_of(s: sockaddr, addr: SocketAddrV4) -> bool {
    &&& s.sa_len == netc::SOCKADDR_LEN
    &&& s.sa_family == netc::AF_INET
    &&& s.sa_data@ == sockaddr_data_of(addr)
}

/// The IPv4 socket address that the platform's `sockaddr` is read as: the
/// port and the four octets, each the most significant byte first, in their
/// order in memory.
pub open spec fn socket_addr_of_sockaddr(s: sockaddr) -> SocketAddrV4 {
    SocketAddrV4 {
        ip: Ipv4Addr { octets: [s.sa_data[2], s.sa_data[3], s.sa_data[4], s.sa_data[5]] },
        port: (s.sa_data[0] * 256 + s.sa_data[1]) as u16,
    }
}

/// Whether two IPv4 socket addresses are the same: the same port and the
/// same four octets
pub open spec fn same_address(a: SocketAddrV4, b: SocketAddrV4) -> bool {
    a.port == b.port && a.ip.octets@ == b.ip.octets@
}

/// Four bytes put together, the first the least significant, come apart
/// into the same four bytes.
pub proof fn lemma_bytes_of_sum(a: int, b: int, c: int, d: int)
    requires
        0 <= a < 256,
        0 <= b < 256,
        0 <= c < 256,
        0 <= d < 256,
    ensures
        0 <= a + b * 0x100 + c * 0x1_0000 + d * 0x100_0000 < 0x1_0000_0000,
        (a + b * 0x100 + c * 0x1_0000 + d * 0x100_0000) % 256 == a,
        ((a + b * 0x100 + c * 0x1_0000 + d * 0x100_0000) / 0x100) % 256 == b,
        ((a + b * 0x100 + c * 0x1_0000 + d * 0x100_0000) / 0x1_0000) % 256 == c,
        (a + b * 0x100 + c * 0x1_0000 + d * 0x100_0000) / 0x100_0000 == d,
{
}

/// A 32-bit number is the sum of its four bytes, each at its place.
pub proof fn lemma_sum_of_bytes(x: int)
    requires
        0 <= x < 0x1_0000_0000,
    ensures
        x == x % 256 + ((x / 0x100) % 256) * 0x100 + ((x / 0x1_0000) % 256) * 0x1_0000 + (x
            / 0x100_0000) * 0x100_0000,
        0 <= x / 0x100_0000 < 256,
{
}

/// View a `sockaddr_in` as a `sockaddr`: the same sixteen bytes of the
/// platform's memory.
pub fn sockaddr_in_to_sockaddr(s: netc::sockaddr_in) -> (r: sockaddr)
    ensures
        r.sa_len == s.sin_len,
        r.sa_family == s.sin_family,
        r.sa_data@ == sockaddr_in_data(s),
{
    let a: u32 = s.sin_addr.0;
    let z = s.sin_zero;
    let data: [u8; 14] = [
        (s.sin_port % 256) as u8,
        (s.sin_port / 256) as u8,
        (a % 256) as u8,
        ((a / 0x100) % 256) as u8,
        ((a / 0x1_0000) % 256) as u8,
        (a / 0x100_0000) as u8,
        z[0],
        z[1],
        z[2],
        z[3],
        z[4],
        z[5],
        z[6],
        z[7],
    ];
    assert(data@ =~= sockaddr_in_data(s));
    sockaddr { sa_len: s.sin_len, sa_family: s.sin_family, sa_data: data }
}

/// The `sockaddr_in` of an IPv4 socket address
pub fn socket_addr_v4_to_sockaddr_in(addr: SocketAddrV4) -> (r: netc::sockaddr_in)
    ensures
        is_sockaddr_in_of(r, addr),
{
    let octets = addr.ip().octets();
    let sin_addr: u32 = (octets[0] as u32) + (octets[1] as u32) * 0x100 + (octets[2] as u32)
        * 0x1_0000 + (octets[3] as u32) * 0x100_0000;
    let port: u16 = (addr.port() % 256) * 256 + addr.port() / 256;
    let zero: [u8; 8] = [0u8; 8];
    assert(zero@ =~= Seq::new(8, |i: int| 0u8));
    netc::sockaddr_in {
        sin_len: netc::SOCKADDR_LEN,
        sin_family: netc::AF_INET,
        sin_port: port,
        sin_addr: in_addr(sin_addr),
        sin_zero: zero,
    }
}

/// Convert a [`SocketAddrV4`] to a [`sockaddr`]
pub fn socket_addr_v4_to_sockaddr(addr: SocketAddrV4) -> (r: sockaddr)
    ensures
        is_sockaddr_of(r, addr),
{
    let sockaddr_in = socket_addr_v4_to_sockaddr_in(addr);
    let r = sockaddr_in_to_sockaddr(sockaddr_in);
    proof {
        let o = addr.ip.octets@;
        lemma_bytes_of_sum(o[0] as int, o[1] as int, o[2] as int, o[3] as int);
        let p = addr.port as int;
        assert(((p % 256) * 256 + p / 256) % 256 == p / 256);
        assert(((p % 256) * 256 + p / 256) / 256 == p % 256);
        assert(r.sa_data@ =~= sockaddr_data_of(addr));
    }
    r
}

/// Convert to a [`sockaddr`]
pub trait ToSockaddr {
    /// Convert to a [`sockaddr`]
    fn to_sockaddr(&self) -> sockaddr;
}

impl ToSockaddr for SocketAddrV4 {
    fn to_sockaddr(&self) -> (r: sockaddr)
        ensures
            is_sockaddr_of(r, *self),
    {
        socket_addr_v4_to_sockaddr(*self)
    }
}

/// Convert to a [`SocketAddr`]
pub trait ToSocketAddr {
    /// Convert to a [`SocketAddr`]
    fn to_socket_addr(&self) -> SocketAddr;
}

impl ToSocketAddr for in_addr {
    /// The address whose octets are the bytes of the number, the most
    /// significant first, with port 0
    fn to_socket_addr(&self) -> (r: SocketAddr)
        ensures
            r matches SocketAddr::V4(v4) && v4.port == 0 && v4.ip.octets@ == be_bytes_u32(self.0),
    {
        let a: u32 = self.0;
        let ip = Ipv4Addr::new(
            (a / 0x100_0000) as u8,
            ((a / 0x1_0000) % 256) as u8,
            ((a / 0x100) % 256) as u8,
            (a % 256) as u8,
        );
        SocketAddr::V4(SocketAddrV4::new(ip, 0))
    }
}

impl ToSocketAddr for sockaddr {
    /// The address whose port and octets are the first six data bytes. It is
    /// the address that the `sockaddr` was made of, where it was made of one.
    fn to_socket_addr(&self) -> (r: SocketAddr)
        ensures
            r matches SocketAddr::V4(v4) && same_address(v4, socket_addr_of_sockaddr(*self)),
            forall|addr: SocketAddrV4| #[trigger]
                is_sockaddr_of(*self, addr) ==> (r matches SocketAddr::V4(v4) && same_address(
                    v4,
                    addr,
                )),
    {
        let d = self.sa_data;
        let ip = Ipv4Addr::new(d[2], d[3], d[4], d[5]);
        let port: u16 = (d[0] as u16) * 256 + (d[1] as u16);
        proof {
            assert forall|addr: SocketAddrV4| #[trigger] is_sockaddr_of(*self, addr) implies ip.octets@
                == addr.ip.octets@ && port == addr.port by {
                lemma_sockaddr_read_back(addr, *self);
            }
        }
        SocketAddr::V4(SocketAddrV4::new(ip, port))
    }
}

/// Reading back the `sockaddr` of an IPv4 socket address gives that address:
/// the same port and the same four octets.
pub proof fn lemma_sockaddr_read_back(addr: SocketAddrV4, s: sockaddr)
    requires
        is_sockaddr_of(s, addr),
    ensures
        same_address(socket_addr_of_sockaddr(s), addr),
        socket_addr_of_sockaddr(s).port == addr.port,
        socket_addr_of_sockaddr(s).ip.octets@ == addr.ip.octets@,
{
    assert(s.sa_data@[0] == (addr.port / 256) as u8);
    assert(s.sa_data@[1] == (addr.port % 256) as u8);
    assert(s.sa_data@[2] == addr.ip.octets[0]);
    assert(s.sa_data@[3] == addr.ip.octets[1]);
    assert(s.sa_data@[4] == addr.ip.octets[2]);
    assert(s.sa_data@[5] == addr.ip.octets[3]);
    assert(socket_addr_of_sockaddr(s).ip.octets@ =~= addr.ip.octets@);
}

/// The number made of four bytes, the most significant first, has those four
/// bytes, and the other way round.
pub proof fn lemma_be_bytes_round_trip(b: Seq<u8>, x: u32)
    requires
        b.len() == 4,
    ensures
        be_bytes_u32(u32_of_be_bytes(b)) == b,
        u32_of_be_bytes(be_bytes_u32(x)) == x,
{
    lemma_bytes_of_sum(b[3] as int, b[2] as int, b[1] as int, b[0] as int);
    assert(be_bytes_u32(u32_of_be_bytes(b)) =~= b);
    lemma_sum_of_bytes(x as int);
}

} // verus!
