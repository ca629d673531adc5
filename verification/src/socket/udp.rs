//! The UDP socket.
#![allow(clippy::module_name_repetitions)]

use super::error::{failure, Failure, SocketError};
use super::sce::{SocketFileDescriptor, Status, Syscall, Transfer};
use super::state::{Bound, Connected, SocketState, Unbound};
use super::tcp::{buffer_after_send, transfer_result};
use super::{
    is_sockaddr_of, same_address, socket_addr_of_sockaddr, Ipv4Addr, SocketAddr, SocketAddrV4,
    ToSockaddr, ToSocketAddr,
};
use crate::netc;
use crate::netc::sockaddr;
use crate::traits::io::{EasySocket, ErrorType, Open, OptionType, Read, Write};
use crate::traits::{shifted_left, SocketBuffer};
use crate::types::{SocketOptions, SocketRecvFlags, SocketSendFlags};
use vstd::prelude::*;

verus! {

/// What a [`UdpSocket`] stands for
pub struct UdpSocketView {
    /// The number of the descriptor
    pub fd: i32,
    /// The address that the socket is bound to, until it is connected; then
    /// the address of the remote host
    pub remote: Option<sockaddr>,
    /// The bytes that wait to be sent, oldest first
    pub buffer: Seq<u8>,
    /// The bits of the flags for send calls
    pub send_flags: u32,
    /// The bits of the flags for receive calls
    pub recv_flags: u32,
}

/// A UDP socket
///
/// # Notes
/// - Remote host ([`Self::remote`]) is set when the socket is bound calling [`bind()`](UdpSocket::bind)
///   and set anew when the socket is connected.
/// - The state of the socket is part of its type. A socket is created unbound,
///   is then bound, and is then connected, by [`connect`](UdpSocket::connect)
///   or by its first datagram.
/// - The socket does not call the platform. For each operation it describes
///   the call to make, and takes the platform's answer.
#[derive(Debug)]
pub struct UdpSocket<S: SocketState = Unbound, B: SocketBuffer = Vec<u8>> {
    /// The socket file descriptor
    fd: SocketFileDescriptor,
    /// The remote host to connect to
    remote: Option<sockaddr>,
    /// The buffer to store data to send
    buffer: B,
    /// flags for send calls
    send_flags: SocketSendFlags,
    /// flags for recv calls
    recv_flags: SocketRecvFlags,
    /// marker for the socket state
    _marker: core::marker::PhantomData<S>,
}

impl<S: SocketState, B: SocketBuffer> View for UdpSocket<S, B> {
    type V = UdpSocketView;

    closed spec fn view(&self) -> UdpSocketView {
        UdpSocketView {
            fd: self.fd@,
            remote: self.remote,
            buffer: self.buffer.bytes(),
            send_flags: self.send_flags@,
            recv_flags: self.recv_flags@,
        }
    }
}

/// The address that a socket is bound to where none is given: `0.0.0.0:0`
pub open spec fn wildcard_address() -> SocketAddrV4 {
    SocketAddrV4 { ip: Ipv4Addr { octets: [0u8, 0u8, 0u8, 0u8] }, port: 0 }
}

/// The address that [`UdpSocket::bind`] binds to: the one given, or the
/// wildcard
pub open spec fn bind_address(addr: Option<SocketAddr>) -> SocketAddr {
    match addr {
        Some(a) => a,
        None => SocketAddr::V4(wildcard_address()),
    }
}

/// What a socket stands for once it is bound to `to`: the same descriptor
/// and flags, `to` as its remote, and nothing queued
pub open spec fn bound_view(v: UdpSocketView, to: sockaddr) -> UdpSocketView {
    UdpSocketView { remote: Some(to), buffer: Seq::<u8>::empty(), ..v }
}

/// What a socket stands for once it is connected to `to` with `queued`
/// waiting to be sent: the same descriptor and flags, and `to` as its remote
/// in place of the address that it was bound to
pub open spec fn connected_view(v: UdpSocketView, to: sockaddr, queued: Seq<u8>) -> UdpSocketView {
    UdpSocketView { remote: Some(to), buffer: queued, ..v }
}

impl UdpSocket {
    /// The call that creates the descriptor of a UDP socket
    pub fn new_call() -> (call: Syscall)
        ensures
            call == (Syscall::Socket { domain: 2, kind: netc::SOCK_DGRAM, protocol: 0 }),
    {
        Syscall::Socket { domain: netc::AF_INET as i32, kind: netc::SOCK_DGRAM, protocol: 0 }
    }

    /// Create a socket
    ///
    /// # Arguments
    /// - `ret`: the answer to [`new_call`](Self::new_call)
    ///
    /// # Notes
    /// - Creating a new socket is not sufficient to start sending/receiving data.
    ///   It has to be opened, or bound and then connected.
    ///
    /// # Errors
    /// - [`SocketError::Errno`] if the socket could not be created
    pub fn new(ret: Status) -> (r: Result<UdpSocket<Unbound>, SocketError>)
        ensures
            ret.value < 0 ==> (r matches Err(e) && e == SocketError::Errno(ret.errno)),
            ret.value >= 0 ==> (r matches Ok(socket) && socket@ == UdpSocketView {
                fd: ret.value,
                remote: None,
                buffer: Seq::<u8>::empty(),
                send_flags: 0,
                recv_flags: 0,
            }),
    {
        if ret.value < 0 {
            Err(SocketError::Errno(ret.errno))
        } else {
            let fd = SocketFileDescriptor::new(ret.value);
            Ok(
                UdpSocket {
                    fd,
                    remote: None,
                    buffer: Vec::new(),
                    send_flags: SocketSendFlags::empty(),
                    recv_flags: SocketRecvFlags::empty(),
                    _marker: core::marker::PhantomData,
                },
            )
        }
    }
}

impl<S: SocketState, B: SocketBuffer> UdpSocket<S, B> {
    /// The length of a socket address, as the platform's calls take it
    fn socket_len() -> (r: u32)
        ensures
            r == 16,
    {
        netc::SOCKADDR_LEN as u32
    }

    /// Get the file descriptor of the socket
    #[must_use]
    pub fn fd(&self) -> (r: i32)
        ensures
            r == self@.fd,
            r >= 0,
    {
        self.fd.as_raw()
    }

    /// Get the remote address of the socket: the address that the socket is
    /// bound to, until it is connected; then the address of the remote host
    #[must_use]
    pub fn remote(&self) -> (r: Option<SocketAddr>)
        ensures
            self@.remote is None ==> r is None,
            self@.remote matches Some(s) ==> (r matches Some(SocketAddr::V4(v4))
                && same_address(v4, socket_addr_of_sockaddr(s))),
            forall|addr: SocketAddrV4|
                self@.remote is Some && #[trigger] is_sockaddr_of(self@.remote->0, addr) ==> (
                r matches Some(SocketAddr::V4(v4)) && same_address(v4, addr)),
    {
        match &self.remote {
            Some(sockaddr) => Some(sockaddr.to_socket_addr()),
            None => None,
        }
    }

    /// Flags used when sending data
    #[must_use]
    pub fn send_flags(&self) -> (r: SocketSendFlags)
        ensures
            r@ == self@.send_flags,
    {
        self.send_flags
    }

    /// Set the flags used when sending data
    pub fn set_send_flags(&mut self, send_flags: SocketSendFlags)
        ensures
            final(self)@ == (UdpSocketView { send_flags: send_flags@, ..old(self)@ }),
    {
        self.send_flags = send_flags;
    }

    /// Flags used when receiving data
    #[must_use]
    pub fn recv_flags(&self) -> (r: SocketRecvFlags)
        ensures
            r@ == self@.recv_flags,
    {
        self.recv_flags
    }

    /// Set the flags used when receiving data
    pub fn set_recv_flags(&mut self, recv_flags: SocketRecvFlags)
        ensures
            final(self)@ == (UdpSocketView { recv_flags: recv_flags@, ..old(self)@ }),
    {
        self.recv_flags = recv_flags;
    }
}

impl<S: SocketState, B: SocketBuffer> UdpSocket<S, B> {
    /// Give the socket up. The result is the call that closes its descriptor.
    /// The socket is used up, so that no second close can be asked for.
    pub fn close(self) -> (call: Syscall)
        ensures
            call == (Syscall::Close { fd: self@.fd }),
    {
        Syscall::Close { fd: self.fd.as_raw() }
    }
}

impl<B: SocketBuffer> UdpSocket<Unbound, B> {
    /// Transition the socket to `Bound` state
    fn transition(self, remote: Option<sockaddr>) -> (r: UdpSocket<Bound, B>)
        ensures
            r@ == (UdpSocketView { remote, buffer: Seq::<u8>::empty(), ..self@ }),
    {
        UdpSocket {
            fd: self.fd,
            remote,
            buffer: B::new(),
            send_flags: self.send_flags,
            recv_flags: self.recv_flags,
            _marker: core::marker::PhantomData,
        }
    }

    /// The call that binds the socket to `addr`, or to `0.0.0.0:0` if `addr`
    /// is `None`
    ///
    /// # Errors
    /// - [`SocketError::UnsupportedAddressFamily`] if `addr` is not an IPv4
    ///   address: no call is to be made
    pub fn bind_call(&self, addr: Option<SocketAddr>) -> (r: Result<Syscall, SocketError>)
        ensures
            bind_address(addr) is V6 ==> (r matches Err(e) && e
                == SocketError::UnsupportedAddressFamily),
            bind_address(addr) matches SocketAddr::V4(v4) ==> (r matches Ok(
                Syscall::Bind { fd, addr: to, addr_len },
            ) && fd == self@.fd && is_sockaddr_of(to, v4) && addr_len == 16),
    {
        let addr = Self::address_or_wildcard(addr);
        match addr {
            SocketAddr::V4(v4) => {
                let sockaddr = v4.to_sockaddr();
                Ok(Syscall::Bind { fd: self.fd.as_raw(), addr: sockaddr, addr_len: 16 })
            },
            SocketAddr::V6(_) => Err(SocketError::UnsupportedAddressFamily),
        }
    }

    /// Bind the socket
    ///
    /// # Parameters
    /// - `addr`: The address to bind to, if `None` binds to `0.0.0.0:0`
    /// - `ret`: The answer to [`bind_call`](Self::bind_call); it is not looked
    ///   at where that gave no call
    ///
    /// # Returns
    /// - `Ok(UdpSocket<Bound>)` if the binding was successful. Its remote is
    ///   the address that it is bound to.
    /// - `Err(SocketError)` if the binding was unsuccessful.
    ///
    /// # Errors
    /// The socket is used up, and the failure holds the close of its
    /// descriptor, with
    /// - [`SocketError::UnsupportedAddressFamily`] if `addr` is not an IPv4
    ///   address
    /// - [`SocketError::Errno`] if the binding was unsuccessful
    pub fn bind(self, addr: Option<SocketAddr>, ret: Status) -> (r: Result<
        UdpSocket<Bound, B>,
        Failure,
    >)
        ensures
            bind_address(addr) is V6 ==> (r matches Err(f) && f == failure(
                SocketError::UnsupportedAddressFamily,
                self@.fd,
            )),
            bind_address(addr) is V4 && ret.value != 0 ==> (r matches Err(f) && f == failure(
                SocketError::Errno(ret.errno),
                self@.fd,
            )),
            bind_address(addr) matches SocketAddr::V4(v4) ==> (ret.value == 0 ==> (
            r matches Ok(socket) && socket@.remote matches Some(bound) && is_sockaddr_of(
                bound,
                v4,
            ) && socket@ == bound_view(self@, bound))),
    {
        let addr = Self::address_or_wildcard(addr);
        match addr {
            SocketAddr::V4(v4) => {
                let sockaddr = v4.to_sockaddr();
                if ret.value != 0 {
                    Err(Failure { error: SocketError::Errno(ret.errno), close: self.close() })
                } else {
                    Ok(self.transition(Some(sockaddr)))
                }
            },
            SocketAddr::V6(_) => Err(
                Failure { error: SocketError::UnsupportedAddressFamily, close: self.close() },
            ),
        }
    }

    /// The address given, or `0.0.0.0:0`
    fn address_or_wildcard(addr: Option<SocketAddr>) -> (r: SocketAddr)
        ensures
            addr is Some ==> r == addr->0,
            addr is None ==> (r matches SocketAddr::V4(v4) && v4.port == 0 && v4.ip.octets@
                == wildcard_address().ip.octets@),
            r is V6 <==> bind_address(addr) is V6,
    {
        match addr {
            Some(a) => a,
            None => SocketAddr::V4(SocketAddrV4::new(Ipv4Addr::new(0, 0, 0, 0), 0)),
        }
    }
}

impl<B: SocketBuffer> UdpSocket<Bound, B> {
    /// Transition the socket to `Connected` state
    fn transition(self, remote: sockaddr, buf: Option<B>) -> (r: UdpSocket<Connected, B>)
        ensures
            r@ == (UdpSocketView {
                remote: Some(remote),
                buffer: match buf {
                    Some(b) => b.bytes(),
                    None => Seq::<u8>::empty(),
                },
                ..self@
            }),
    {
        let buffer = match buf {
            Some(b) => b,
            None => B::new(),
        };
        UdpSocket {
            fd: self.fd,
            remote: Some(remote),
            buffer,
            send_flags: self.send_flags,
            recv_flags: self.recv_flags,
            _marker: core::marker::PhantomData,
        }
    }

    /// The call that connects the socket to `addr`
    ///
    /// # Errors
    /// - [`SocketError::UnsupportedAddressFamily`] if `addr` is not an IPv4
    ///   address: no call is to be made
    pub fn connect_call(&self, addr: SocketAddr) -> (r: Result<Syscall, SocketError>)
        ensures
            addr is V6 ==> (r matches Err(e) && e == SocketError::UnsupportedAddressFamily),
            addr matches SocketAddr::V4(v4) ==> (r matches Ok(
                Syscall::Connect { fd, addr: to, addr_len },
            ) && fd == self@.fd && is_sockaddr_of(to, v4) && addr_len == 16),
    {
        match addr {
            SocketAddr::V4(v4) => {
                let sockaddr = v4.to_sockaddr();
                Ok(
                    Syscall::Connect {
                        fd: self.fd.as_raw(),
                        addr: sockaddr,
                        addr_len: Self::socket_len(),
                    },
                )
            },
            SocketAddr::V6(_) => Err(SocketError::UnsupportedAddressFamily),
        }
    }

    /// Connect to a remote host
    ///
    /// # Parameters
    /// - `addr`: The remote host
    /// - `ret`: The answer to [`connect_call`](Self::connect_call); it is not
    ///   looked at where that gave no call
    ///
    /// # Returns
    /// - `Ok(UdpSocket<Connected>)` if the connection was successful. Its
    ///   remote is `addr`, in place of the address that the socket is bound to.
    /// - `Err(SocketError)` if the connection was unsuccessful
    ///
    /// # Errors
    /// The socket is used up, and the failure holds the close of its
    /// descriptor, with
    /// - [`SocketError::UnsupportedAddressFamily`] if `addr` is not an IPv4
    ///   address
    /// - [`SocketError::Errno`] if the connection was unsuccessful
    pub fn connect(self, addr: SocketAddr, ret: Status) -> (r: Result<
        UdpSocket<Connected, B>,
        Failure,
    >)
        ensures
            addr is V6 ==> (r matches Err(f) && f == failure(
                SocketError::UnsupportedAddressFamily,
                self@.fd,
            )),
            addr is V4 && ret.value != 0 ==> (r matches Err(f) && f == failure(
                SocketError::Errno(ret.errno),
                self@.fd,
            )),
            addr matches SocketAddr::V4(v4) ==> (ret.value == 0 ==> (r matches Ok(socket)
                && socket@.remote matches Some(to) && is_sockaddr_of(to, v4) && socket@
                == connected_view(self@, to, Seq::<u8>::empty()))),
    {
        match addr {
            SocketAddr::V4(v4) => {
                let sockaddr = v4.to_sockaddr();
                if ret.value != 0 {
                    Err(Failure { error: SocketError::Errno(ret.errno), close: self.close() })
                } else {
                    Ok(self.transition(sockaddr, None))
                }
            },
            SocketAddr::V6(_) => Err(
                Failure { error: SocketError::UnsupportedAddressFamily, close: self.close() },
            ),
        }
    }

    /// The call that receives one datagram of up to `len` bytes and the
    /// address of its sender
    ///
    /// # Errors
    /// - [`SocketError::NotBound`] if the socket holds no address
    pub fn _read_from_call(&self, len: usize) -> (r: Result<Syscall, SocketError>)
        ensures
            self@.remote is None ==> (r matches Err(e) && e == SocketError::NotBound),
            self@.remote matches Some(from) ==> r == Ok::<Syscall, SocketError>(
                Syscall::Recvfrom {
                    fd: self@.fd,
                    len,
                    flags: self@.recv_flags as i32,
                    from,
                    from_len: 16,
                },
            ),
    {
        match self.remote {
            Some(from) => Ok(
                Syscall::Recvfrom {
                    fd: self.fd.as_raw(),
                    len,
                    flags: self.recv_flags.as_i32(),
                    from,
                    from_len: Self::socket_len(),
                },
            ),
            None => Err(SocketError::NotBound),
        }
    }

    /// Read from a bound socket
    ///
    /// # Parameters
    /// - `ret`: The answer to [`_read_from_call`](Self::_read_from_call)
    /// - `from`: The sender's address, as the platform left it
    ///
    /// # Returns
    /// - `Ok((usize, UdpSocket<Connected>))` if the read was successful. The
    ///   number of bytes read, and the socket, connected, with the sender as
    ///   its remote
    /// - `Err(SocketError)` if the read was unsuccessful.
    ///
    /// # Errors
    /// The socket is used up, and the failure holds the close of its
    /// descriptor, with
    /// - [`SocketError::NotBound`] if the socket holds no address
    /// - [`SocketError::Errno`] if the read was unsuccessful
    pub fn _read_from(self, ret: Transfer, from: sockaddr) -> (r: Result<
        (usize, UdpSocket<Connected, B>),
        Failure,
    >)
        ensures
            self@.remote is None ==> (r matches Err(f) && f == failure(
                SocketError::NotBound,
                self@.fd,
            )),
            self@.remote is Some && ret.count < 0 ==> (r matches Err(f) && f == failure(
                SocketError::Errno(ret.errno),
                self@.fd,
            )),
            self@.remote is Some && ret.count >= 0 ==> (r matches Ok((n, socket)) && n
                == ret.count as usize && socket@ == connected_view(
                self@,
                from,
                Seq::<u8>::empty(),
            )),
    {
        if self.remote.is_none() {
            return Err(Failure { error: SocketError::NotBound, close: self.close() });
        }
        if ret.count < 0 {
            Err(Failure { error: SocketError::Errno(ret.errno), close: self.close() })
        } else {
            Ok((ret.count as usize, self.transition(from, None)))
        }
    }

    /// The call that sends the first `len` bytes of `buf` to `to`
    ///
    /// # Errors
    /// - [`SocketError::UnsupportedAddressFamily`] if `to` is not an IPv4
    ///   address: no call is to be made
    pub fn _write_to_call(&self, buf: &[u8], len: usize, to: SocketAddr) -> (r: Result<
        Syscall,
        SocketError,
    >)
        requires
            len <= buf@.len(),
        ensures
            to is V6 ==> (r matches Err(e) && e == SocketError::UnsupportedAddressFamily),
            to matches SocketAddr::V4(v4) ==> (r matches Ok(
                Syscall::Sendto { fd, len: n, flags, to: dest, to_len },
            ) && fd == self@.fd && n == len && flags == self@.send_flags as i32
                && is_sockaddr_of(dest, v4) && to_len == 16),
    {
        match to {
            SocketAddr::V4(v4) => {
                let sockaddr = super::socket_addr_v4_to_sockaddr(v4);
                Ok(
                    Syscall::Sendto {
                        fd: self.fd.as_raw(),
                        len,
                        flags: self.send_flags.as_i32(),
                        to: sockaddr,
                        to_len: Self::socket_len(),
                    },
                )
            },
            SocketAddr::V6(_) => Err(SocketError::UnsupportedAddressFamily),
        }
    }

    /// Write to a bound socket
    ///
    /// # Parameters
    /// - `buf`: The buffer containing the data to send
    /// - `to`: The host to send to
    /// - `ret`: The answer to [`_write_to_call`](Self::_write_to_call); it is
    ///   not looked at where that gave no call
    ///
    /// # Returns
    /// - `Ok((usize, UdpSocket<Connected>))` if the send was successful. The
    ///   number of bytes sent, and the socket, connected, with `to` as its
    ///   remote. What was not sent of `buf` waits in the socket to be sent.
    /// - `Err(SocketError)` if the send was unsuccessful.
    ///
    /// # Errors
    /// The socket is used up, and the failure holds the close of its
    /// descriptor, with
    /// - [`SocketError::UnsupportedAddressFamily`] if `to` is not an IPv4
    ///   address
    /// - [`SocketError::Errno`] if the send was unsuccessful
    pub fn _write_to(self, buf: &[u8], to: SocketAddr, ret: Transfer) -> (r: Result<
        (usize, UdpSocket<Connected, B>),
        Failure,
    >)
        ensures
            to is V6 ==> (r matches Err(f) && f == failure(
                SocketError::UnsupportedAddressFamily,
                self@.fd,
            )),
            to is V4 && ret.count < 0 ==> (r matches Err(f) && f == failure(
                SocketError::Errno(ret.errno),
                self@.fd,
            )),
            to matches SocketAddr::V4(v4) ==> (ret.count >= 0 ==> (r matches Ok((n, socket))
                && socket@.remote matches Some(dest) && n == ret.count as usize
                && is_sockaddr_of(dest, v4) && socket@ == connected_view(
                self@,
                dest,
                shifted_left(buf@, ret.count as nat),
            ))),
    {
        let sockaddr = match to {
            SocketAddr::V4(v4) => super::socket_addr_v4_to_sockaddr(v4),
            SocketAddr::V6(_) => {
                return Err(
                    Failure { error: SocketError::UnsupportedAddressFamily, close: self.close() },
                );
            },
        };
        let mut buffer = B::new();
        buffer.append_buffer(buf);
        assert(buffer.bytes() =~= buf@);

        if ret.count < 0 {
            Err(Failure { error: SocketError::Errno(ret.errno), close: self.close() })
        } else {
            buffer.shift_left_buffer(ret.count as usize);
            Ok((ret.count as usize, self.transition(sockaddr, Some(buffer))))
        }
    }
}

impl<B: SocketBuffer> UdpSocket<Connected, B> {
    /// The bytes that wait to be sent, oldest first
    pub fn buffer(&self) -> (r: &[u8])
        ensures
            r@ == self@.buffer,
    {
        self.buffer.as_slice()
    }

    /// The call that reads up to `len` bytes from the socket
    pub fn internal_read_call(&self, len: usize) -> (call: Syscall)
        ensures
            call == (Syscall::Recv { fd: self@.fd, len, flags: self@.recv_flags as i32 }),
    {
        Syscall::Recv { fd: self.fd.as_raw(), len, flags: self.recv_flags.as_i32() }
    }

    /// Read from a socket
    ///
    /// # Parameters
    /// - `ret`: The answer to [`internal_read_call`](Self::internal_read_call)
    ///
    /// # Returns
    /// - `Ok(usize)` if the read was successful. The number of bytes read
    /// - `Err(SocketError)` if the read was unsuccessful.
    ///
    /// # Errors
    /// - [`SocketError::Errno`] if the read was unsuccessful
    pub fn internal_read(&mut self, ret: Transfer) -> (r: Result<usize, SocketError>)
        ensures
            r == transfer_result(ret),
            final(self)@ == old(self)@,
    {
        if ret.count < 0 {
            Err(SocketError::Errno(ret.errno))
        } else {
            Ok(ret.count as usize)
        }
    }

    /// Queue `buf` behind what waits to be sent. The result is the call that
    /// attempts, once, to send all that is queued.
    pub fn internal_write_call(&mut self, buf: &[u8]) -> (call: Syscall)
        ensures
            final(self)@ == (UdpSocketView { buffer: old(self)@.buffer + buf@, ..old(self)@ }),
            call == (Syscall::Send {
                fd: old(self)@.fd,
                len: (old(self)@.buffer.len() + buf@.len()) as usize,
                flags: old(self)@.send_flags as i32,
            }),
    {
        self.buffer.append_buffer(buf);
        self.send_call()
    }

    /// Write to a socket
    ///
    /// # Parameters
    /// - `ret`: The answer to [`internal_write_call`](Self::internal_write_call)
    ///
    /// # Returns
    /// - `Ok(usize)` if the send was successful. The number of bytes sent.
    ///   They leave the queue; the rest stays for a later write or flush.
    /// - `Err(SocketError)` if the send was unsuccessful.
    ///
    /// # Errors
    /// - [`SocketError::Errno`] if the send was unsuccessful
    pub fn internal_write(&mut self, ret: Transfer) -> (r: Result<usize, SocketError>)
        ensures
            r == transfer_result(ret),
            final(self)@ == (UdpSocketView {
                buffer: buffer_after_send(old(self)@.buffer, ret),
                ..old(self)@
            }),
    {
        self.send(ret)
    }

    /// The next call of a flush: the send of all that is queued, or `None`
    /// where nothing is queued and the flush is complete.
    pub fn internal_flush_call(&self) -> (r: Option<Syscall>)
        ensures
            self@.buffer.len() == 0 ==> r is None,
            self@.buffer.len() > 0 ==> r == Some(
                Syscall::Send {
                    fd: self@.fd,
                    len: self@.buffer.len() as usize,
                    flags: self@.send_flags as i32,
                },
            ),
    {
        if self.buffer.is_empty() {
            None
        } else {
            Some(self.send_call())
        }
    }

    /// Flush the send buffer: take the answer to a call of a flush. The bytes
    /// that were sent leave the queue;
    /// [`internal_flush_call`](Self::internal_flush_call) then says whether
    /// the flush goes on.
    ///
    /// # Errors
    /// - [`SocketError::Errno`] if the send was unsuccessful
    pub fn internal_flush(&mut self, ret: Transfer) -> (r: Result<(), SocketError>)
        ensures
            ret.count < 0 ==> r == Err::<(), SocketError>(SocketError::Errno(ret.errno)),
            ret.count >= 0 ==> r is Ok,
            final(self)@ == (UdpSocketView {
                buffer: buffer_after_send(old(self)@.buffer, ret),
                ..old(self)@
            }),
    {
        match self.send(ret) {
            Ok(_) => Ok(()),
            Err(e) => Err(e),
        }
    }

    /// The call that sends all that is queued
    fn send_call(&self) -> (call: Syscall)
        ensures
            call == (Syscall::Send {
                fd: self@.fd,
                len: self@.buffer.len() as usize,
                flags: self@.send_flags as i32,
            }),
    {
        Syscall::Send {
            fd: self.fd.as_raw(),
            len: self.buffer.len(),
            flags: self.send_flags.as_i32(),
        }
    }

    /// Take the answer to a send: the bytes that were sent leave the queue.
    fn send(&mut self, ret: Transfer) -> (r: Result<usize, SocketError>)
        ensures
            r == transfer_result(ret),
            final(self)@ == (UdpSocketView {
                buffer: buffer_after_send(old(self)@.buffer, ret),
                ..old(self)@
            }),
    {
        if ret.count < 0 {
            Err(SocketError::Errno(ret.errno))
        } else {
            self.buffer.shift_left_buffer(ret.count as usize);
            Ok(ret.count as usize)
        }
    }
}

impl<S: SocketState, B: SocketBuffer> OptionType for UdpSocket<S, B> {
    type Options<'a> = SocketOptions;
}

impl<S: SocketState, B: SocketBuffer> ErrorType for UdpSocket<S, B> {
    type Error = SocketError;
}

impl<B: SocketBuffer> Open<'_, '_> for UdpSocket<Unbound, B> {
    type Return = UdpSocket<Connected, B>;

    type Call = Syscall;

    type Answer = Status;

    type Failure = Failure;

    /// Opening asks for two calls: the bind to `0.0.0.0:0`, and, once that
    /// has succeeded, the connect to the remote of `options`.
    fn open_call(&self, options: &'_ Self::Options<'_>, answers: &[Status]) -> (r: Result<
        Option<Syscall>,
        SocketError,
    >)
        ensures
            answers@.len() == 0 ==> (r matches Ok(Some(Syscall::Bind { fd, addr, addr_len }))
                && fd == self@.fd && is_sockaddr_of(addr, wildcard_address()) && addr_len
                == 16),
            answers@.len() == 1 && answers@[0].value != 0 ==> r == Ok::<
                Option<Syscall>,
                SocketError,
            >(None),
            answers@.len() == 1 && answers@[0].value == 0 && options@ is V6 ==> (
            r matches Err(e) && e == SocketError::UnsupportedAddressFamily),
            options@ matches SocketAddr::V4(v4) ==> (answers@.len() == 1 && answers@[0].value
                == 0 ==> (r matches Ok(Some(Syscall::Connect { fd, addr, addr_len })) && fd
                == self@.fd && is_sockaddr_of(addr, v4) && addr_len == 16)),
            answers@.len() >= 2 ==> r == Ok::<Option<Syscall>, SocketError>(None),
    {
        if answers.len() == 0 {
            let call = self.bind_call(None)?;
            Ok(Some(call))
        } else if answers.len() == 1 && answers[0].value == 0 {
            match options.remote() {
                SocketAddr::V4(v4) => {
                    let sockaddr = v4.to_sockaddr();
                    Ok(
                        Some(
                            Syscall::Connect {
                                fd: self.fd.as_raw(),
                                addr: sockaddr,
                                addr_len: Self::socket_len(),
                            },
                        ),
                    )
                },
                SocketAddr::V6(_) => Err(SocketError::UnsupportedAddressFamily),
            }
        } else {
            Ok(None)
        }
    }

    /// Open the socket: bind it to `0.0.0.0:0`, then connect it to the remote
    /// of `options`.
    ///
    /// # Parameters
    /// - `options`: The options to use when opening the socket.
    /// - `answers`: The answer to the bind and, where that succeeded, the
    ///   answer to the connect
    ///
    /// # Returns
    /// - `Ok(UdpSocket<Connected>)` if the socket was opened successfully
    /// - `Err(SocketError)` if the socket failed to open: the error of the
    ///   first step that failed.
    ///
    /// # Errors
    /// The socket is used up, and the failure holds the close of its
    /// descriptor, with
    /// - [`SocketError::NotBound`] if `answers` is empty: the bind was not made
    /// - [`SocketError::Errno`] if the platform refused the bind or the connect
    /// - [`SocketError::UnsupportedAddressFamily`] if the bind succeeded and
    ///   the remote is not an IPv4 address
    /// - [`SocketError::NotConnected`] if the bind succeeded and `answers`
    ///   holds no answer to the connect
    fn open(self, options: &'_ Self::Options<'_>, answers: &[Status]) -> (r: Result<
        Self::Return,
        Failure,
    >)
        ensures
            answers@.len() == 0 ==> (r matches Err(f) && f == failure(
                SocketError::NotBound,
                self@.fd,
            )),
            answers@.len() >= 1 && answers@[0].value != 0 ==> (r matches Err(f) && f == failure(
                SocketError::Errno(answers@[0].errno),
                self@.fd,
            )),
            answers@.len() >= 1 && answers@[0].value == 0 && options@ is V6 ==> (
            r matches Err(f) && f == failure(SocketError::UnsupportedAddressFamily, self@.fd)),
            answers@.len() == 1 && answers@[0].value == 0 && options@ is V4 ==> (
            r matches Err(f) && f == failure(SocketError::NotConnected, self@.fd)),
            answers@.len() >= 2 && answers@[0].value == 0 && options@ is V4 && answers@[1].value
                != 0 ==> (r matches Err(f) && f == failure(
                SocketError::Errno(answers@[1].errno),
                self@.fd,
            )),
            options@ matches SocketAddr::V4(v4) ==> (answers@.len() >= 2 && answers@[0].value
                == 0 && answers@[1].value == 0 ==> (r matches Ok(socket)
                && socket@.remote matches Some(to) && is_sockaddr_of(to, v4) && socket@
                == connected_view(self@, to, Seq::<u8>::empty()))),
    {
        if answers.len() == 0 {
            return Err(Failure { error: SocketError::NotBound, close: self.close() });
        }
        let sock = self.bind(None, answers[0])?;
        let remote = options.remote();
        if answers.len() == 1 {
            let error = match remote {
                SocketAddr::V4(_) => SocketError::NotConnected,
                SocketAddr::V6(_) => SocketError::UnsupportedAddressFamily,
            };
            return Err(Failure { error, close: sock.close() });
        }
        let sock = sock.connect(remote, answers[1])?;
        Ok(sock)
    }
}

impl<B: SocketBuffer> Read for UdpSocket<Connected, B> {
    fn read_call(&self, len: usize) -> (call: Syscall)
        ensures
            call == (Syscall::Recv { fd: self@.fd, len, flags: self@.recv_flags as i32 }),
    {
        self.internal_read_call(len)
    }

    /// Read from the socket
    ///
    /// # Returns
    /// - `Ok(usize)` if the read was successful. The number of bytes read
    /// - `Err(SocketError)` if the read was unsuccessful.
    fn read(&mut self, ret: Transfer) -> (r: Result<usize, Self::Error>)
        ensures
            r == transfer_result(ret),
            final(self)@ == old(self)@,
    {
        self.internal_read(ret)
    }
}

impl<B: SocketBuffer> Write for UdpSocket<Connected, B> {
    fn write_call(&mut self, buf: &[u8]) -> (call: Syscall)
        ensures
            final(self)@ == (UdpSocketView { buffer: old(self)@.buffer + buf@, ..old(self)@ }),
            call == (Syscall::Send {
                fd: old(self)@.fd,
                len: (old(self)@.buffer.len() + buf@.len()) as usize,
                flags: old(self)@.send_flags as i32,
            }),
    {
        self.internal_write_call(buf)
    }

    /// Write to the socket
    ///
    /// # Returns
    /// - `Ok(usize)` if the write was successful. The number of bytes written
    /// - `Err(SocketError)` if the write was unsuccessful.
    fn write(&mut self, ret: Transfer) -> (r: Result<usize, Self::Error>)
        ensures
            r == transfer_result(ret),
            final(self)@ == (UdpSocketView {
                buffer: buffer_after_send(old(self)@.buffer, ret),
                ..old(self)@
            }),
    {
        self.internal_write(ret)
    }

    fn flush_call(&self) -> (r: Option<Syscall>)
        ensures
            self@.buffer.len() == 0 ==> r is None,
            self@.buffer.len() > 0 ==> r == Some(
                Syscall::Send {
                    fd: self@.fd,
                    len: self@.buffer.len() as usize,
                    flags: self@.send_flags as i32,
                },
            ),
    {
        self.internal_flush_call()
    }

    /// Flush the socket
    ///
    /// # Errors
    /// - [`SocketError::Errno`] if the flush was unsuccessful.
    fn flush(&mut self, ret: Transfer) -> (r: Result<(), Self::Error>)
        ensures
            ret.count < 0 ==> r == Err::<(), SocketError>(SocketError::Errno(ret.errno)),
            ret.count >= 0 ==> r is Ok,
            final(self)@ == (UdpSocketView {
                buffer: buffer_after_send(old(self)@.buffer, ret),
                ..old(self)@
            }),
    {
        self.internal_flush(ret)
    }
}

impl<B: SocketBuffer> EasySocket for UdpSocket<Connected, B> {

}

/// The descriptor of a socket leaves it once. A socket that was created with
/// a descriptor, then bound and then connected, still has that descriptor and
/// its flags; the close that ends its life closes that descriptor; and a
/// bind or a connect that fails asks for the close of that descriptor. The
/// remote of the connected socket is the address that it was connected to,
/// not the one that it was bound to.
pub proof fn lemma_descriptor_leaves_once(
    created: UdpSocketView,
    bound_to: sockaddr,
    connected_to: sockaddr,
    queued: Seq<u8>,
    error: SocketError,
)
    ensures
        bound_view(created, bound_to).fd == created.fd,
        connected_view(bound_view(created, bound_to), connected_to, queued).fd == created.fd,
        connected_view(bound_view(created, bound_to), connected_to, queued).send_flags
            == created.send_flags,
        connected_view(bound_view(created, bound_to), connected_to, queued).recv_flags
            == created.recv_flags,
        connected_view(bound_view(created, bound_to), connected_to, queued).remote == Some(
            connected_to,
        ),
        failure(error, bound_view(created, bound_to).fd).close == (Syscall::Close {
            fd: created.fd,
        }),
{
}

} // verus!
