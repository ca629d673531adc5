//! A UDP socket whose state is checked when it is used.
//!
//! [`UdpSocket`](super::udp::UdpSocket) records its state in its type, and an
//! operation that the state forbids does not compile. Where the state is only
//! known as the program runs, as with a socket that is connected when it is
//! first needed, [`CheckedUdpSocket`] holds the state as a value. Every
//! operation tests it first: in the wrong state it fails with the error that
//! names the state, asks for no call and leaves the socket as it was.
#![allow(clippy::module_name_repetitions)]

use super::error::SocketError;
use super::sce::{SocketFileDescriptor, Status, Syscall, Transfer};
use super::tcp::{buffer_after_send, transfer_result};
use super::udp::{bind_address, UdpSocketView};
use super::{is_sockaddr_of, Ipv4Addr, SocketAddr, SocketAddrV4, ToSockaddr};
use crate::netc;
use crate::netc::sockaddr;
use crate::traits::SocketBuffer;
use crate::types::{SocketRecvFlags, SocketSendFlags};
use vstd::prelude::*;

verus! {

/// The state of a UDP socket
#[derive(Debug, Clone, Copy, PartialEq, Eq, Structural)]
pub enum UdpSocketState {
    /// Created, not bound yet
    Unbound,
    /// Bound to a local address
    Bound,
    /// Connected to a remote host
    Connected,
}

/// What a [`CheckedUdpSocket`] stands for
pub struct CheckedUdpSocketView {
    /// The state
    pub state: UdpSocketState,
    /// The descriptor, the remote, the queue and the flags
    pub socket: UdpSocketView,
}

/// A UDP socket that holds its state as a value
#[derive(Debug)]
pub struct CheckedUdpSocket {
    /// The socket file descriptor
    fd: SocketFileDescriptor,
    /// The state of the socket
    state: UdpSocketState,
    /// The address bound to, then the remote host
    remote: Option<sockaddr>,
    /// The buffer to store data to send
    buffer: Vec<u8>,
    /// flags for send calls
    send_flags: SocketSendFlags,
    /// flags for recv calls
    recv_flags: SocketRecvFlags,
}

impl View for CheckedUdpSocket {
    type V = CheckedUdpSocketView;

    closed spec fn view(&self) -> CheckedUdpSocketView {
        CheckedUdpSocketView {
            state: self.state,
            socket: UdpSocketView {
                fd: self.fd@,
                remote: self.remote,
                buffer: self.buffer@,
                send_flags: self.send_flags@,
                recv_flags: self.recv_flags@,
            },
        }
    }
}

/// The error with which a bind to `addr` fails before any call is made, if it
/// does: the address family is tested first, then the state.
pub open spec fn bind_refusal(state: UdpSocketState, addr: Option<SocketAddr>) -> Option<
    SocketError,
> {
    if bind_address(addr) is V6 {
        Some(SocketError::UnsupportedAddressFamily)
    } else if state != UdpSocketState::Unbound {
        Some(SocketError::AlreadyBound)
    } else {
        None
    }
}

/// The error with which a connect to `addr` fails before any call is made, if
/// it does: the address family is tested first, then the state.
pub open spec fn connect_refusal(state: UdpSocketState, addr: SocketAddr) -> Option<SocketError> {
    if addr is V6 {
        Some(SocketError::UnsupportedAddressFamily)
    } else if state == UdpSocketState::Unbound {
        Some(SocketError::NotBound)
    } else if state == UdpSocketState::Connected {
        Some(SocketError::AlreadyConnected)
    } else {
        None
    }
}

/// The error with which a read, a write or a flush fails before any call is
/// made, if it does: the socket has to be connected.
pub open spec fn io_refusal(state: UdpSocketState) -> Option<SocketError> {
    if state != UdpSocketState::Connected {
        Some(SocketError::NotConnected)
    } else {
        None
    }
}

impl CheckedUdpSocket {
    /// The call that creates the descriptor of a UDP socket
    pub fn new_call() -> (call: Syscall)
        ensures
            call == (Syscall::Socket { domain: 2, kind: netc::SOCK_DGRAM, protocol: 0 }),
    {
        Syscall::Socket { domain: netc::AF_INET as i32, kind: netc::SOCK_DGRAM, protocol: 0 }
    }

    /// Create a socket, unbound
    ///
    /// # Arguments
    /// - `ret`: the answer to [`new_call`](Self::new_call)
    ///
    /// # Errors
    /// - [`SocketError::Errno`] if the socket could not be created
    pub fn new(ret: Status) -> (r: Result<CheckedUdpSocket, SocketError>)
        ensures
            ret.value < 0 ==> (r matches Err(e) && e == SocketError::Errno(ret.errno)),
            ret.value >= 0 ==> (r matches Ok(socket) && socket@ == CheckedUdpSocketView {
                state: UdpSocketState::Unbound,
                socket: UdpSocketView {
                    fd: ret.value,
                    remote: None,
                    buffer: Seq::<u8>::empty(),
                    send_flags: 0,
                    recv_flags: 0,
                },
            }),
    {
        if ret.value < 0 {
            Err(SocketError::Errno(ret.errno))
        } else {
            Ok(
                CheckedUdpSocket {
                    fd: SocketFileDescriptor::new(ret.value),
                    state: UdpSocketState::Unbound,
                    remote: None,
                    buffer: Vec::new(),
                    send_flags: SocketSendFlags::empty(),
                    recv_flags: SocketRecvFlags::empty(),
                },
            )
        }
    }

    /// The state of the socket
    pub fn state(&self) -> (r: UdpSocketState)
        ensures
            r == self@.state,
    {
        self.state
    }

    /// Get the file descriptor of the socket
    #[must_use]
    pub fn fd(&self) -> (r: i32)
        ensures
            r == self@.socket.fd,
            r >= 0,
    {
        self.fd.as_raw()
    }

    /// The address bound to, then the remote host, as the platform holds it
    pub fn remote(&self) -> (r: Option<sockaddr>)
        ensures
            r == self@.socket.remote,
    {
        self.remote
    }

    /// The bytes that wait to be sent, oldest first
    pub fn buffer(&self) -> (r: &[u8])
        ensures
            r@ == self@.socket.buffer,
    {
        self.buffer.as_slice()
    }

    /// Give the socket up. The result is the call that closes its descriptor.
    /// The socket is used up, so that no second close can be asked for.
    pub fn close(self) -> (call: Syscall)
        ensures
            call == (Syscall::Close { fd: self@.socket.fd }),
    {
        Syscall::Close { fd: self.fd.as_raw() }
    }

    /// The call that binds the socket to `addr`, or to `0.0.0.0:0` if `addr`
    /// is `None`
    ///
    /// # Errors
    /// - [`SocketError::UnsupportedAddressFamily`] if `addr` is not an IPv4
    ///   address
    /// - [`SocketError::AlreadyBound`] if the socket is not unbound
    pub fn bind_call(&self, addr: Option<SocketAddr>) -> (r: Result<Syscall, SocketError>)
        ensures
            bind_refusal(self@.state, addr) matches Some(refusal) ==> (r matches Err(e) && e
                == refusal),
            bind_address(addr) matches SocketAddr::V4(v4) ==> (bind_refusal(self@.state, addr)
                is None ==> (r matches Ok(Syscall::Bind { fd, addr: to, addr_len }) && fd
                == self@.socket.fd && is_sockaddr_of(to, v4) && addr_len == 16)),
    {
        let sockaddr = self.bind_target(addr)?;
        Ok(Syscall::Bind { fd: self.fd.as_raw(), addr: sockaddr, addr_len: 16 })
    }

    /// Bind the socket
    ///
    /// # Parameters
    /// - `addr`: The address to bind to, if `None` binds to `0.0.0.0:0`
    /// - `ret`: The answer to [`bind_call`](Self::bind_call); it is not looked
    ///   at where that gave no call
    ///
    /// # Errors
    /// - [`SocketError::UnsupportedAddressFamily`] if `addr` is not an IPv4
    ///   address
    /// - [`SocketError::AlreadyBound`] if the socket is not unbound
    /// - [`SocketError::Errno`] if the binding was unsuccessful
    ///
    /// On an error the socket stays as it was.
    pub fn bind(&mut self, addr: Option<SocketAddr>, ret: Status) -> (r: Result<(), SocketError>)
        ensures
            bind_refusal(old(self)@.state, addr) matches Some(refusal) ==> (r matches Err(e)
                && e == refusal),
            bind_refusal(old(self)@.state, addr) is None && ret.value != 0 ==> (
            r matches Err(e) && e == SocketError::Errno(ret.errno)),
            bind_refusal(old(self)@.state, addr) is None && ret.value == 0 ==> r is Ok,
            r is Err ==> final(self)@ == old(self)@,
            bind_address(addr) matches SocketAddr::V4(v4) ==> (r is Ok ==> (
            final(self)@.socket.remote matches Some(to) && is_sockaddr_of(to, v4)
                && final(self)@ == (CheckedUdpSocketView {
                state: UdpSocketState::Bound,
                socket: super::udp::bound_view(old(self)@.socket, to),
            }))),
    {
        let sockaddr = self.bind_target(addr)?;
        if ret.value != 0 {
            Err(SocketError::Errno(ret.errno))
        } else {
            self.remote = Some(sockaddr);
            self.buffer.clear();
            self.state = UdpSocketState::Bound;
            Ok(())
        }
    }

    /// The call that connects the socket to `addr`
    ///
    /// # Errors
    /// - [`SocketError::UnsupportedAddressFamily`] if `addr` is not an IPv4
    ///   address
    /// - [`SocketError::NotBound`] if the socket is unbound
    /// - [`SocketError::AlreadyConnected`] if the socket is connected
    pub fn connect_call(&self, addr: SocketAddr) -> (r: Result<Syscall, SocketError>)
        ensures
            connect_refusal(self@.state, addr) matches Some(refusal) ==> (r matches Err(e) && e
                == refusal),
            addr matches SocketAddr::V4(v4) ==> (connect_refusal(self@.state, addr) is None
                ==> (r matches Ok(Syscall::Connect { fd, addr: to, addr_len }) && fd
                == self@.socket.fd && is_sockaddr_of(to, v4) && addr_len == 16)),
    {
        let sockaddr = self.connect_target(addr)?;
        Ok(Syscall::Connect { fd: self.fd.as_raw(), addr: sockaddr, addr_len: 16 })
    }

    /// Connect to a remote host
    ///
    /// # Parameters
    /// - `addr`: The remote host
    /// - `ret`: The answer to [`connect_call`](Self::connect_call); it is not
    ///   looked at where that gave no call
    ///
    /// # Errors
    /// - [`SocketError::UnsupportedAddressFamily`] if `addr` is not an IPv4
    ///   address
    /// - [`SocketError::NotBound`] if the socket is unbound
    /// - [`SocketError::AlreadyConnected`] if the socket is connected
    /// - [`SocketError::Errno`] if the connection was unsuccessful
    ///
    /// On an error the socket stays as it was.
    pub fn connect(&mut self, addr: SocketAddr, ret: Status) -> (r: Result<(), SocketError>)
        ensures
            connect_refusal(old(self)@.state, addr) matches Some(refusal) ==> (r matches Err(e)
                && e == refusal),
            connect_refusal(old(self)@.state, addr) is None && ret.value != 0 ==> (
            r matches Err(e) && e == SocketError::Errno(ret.errno)),
            connect_refusal(old(self)@.state, addr) is None && ret.value == 0 ==> r is Ok,
            r is Err ==> final(self)@ == old(self)@,
            addr matches SocketAddr::V4(v4) ==> (r is Ok ==> (
            final(self)@.socket.remote matches Some(to) && is_sockaddr_of(to, v4)
                && final(self)@ == (CheckedUdpSocketView {
                state: UdpSocketState::Connected,
                socket: super::udp::connected_view(old(self)@.socket, to, Seq::<u8>::empty()),
            }))),
    {
        let sockaddr = self.connect_target(addr)?;
        if ret.value != 0 {
            Err(SocketError::Errno(ret.errno))
        } else {
            self.remote = Some(sockaddr);
            self.buffer.clear();
            self.state = UdpSocketState::Connected;
            Ok(())
        }
    }

    /// The call that reads up to `len` bytes from the socket
    ///
    /// # Errors
    /// - [`SocketError::NotConnected`] if the socket is not connected
    pub fn read_call(&self, len: usize) -> (r: Result<Syscall, SocketError>)
        ensures
            io_refusal(self@.state) matches Some(refusal) ==> (r matches Err(e) && e
                == refusal),
            io_refusal(self@.state) is None ==> r == Ok::<Syscall, SocketError>(
                Syscall::Recv {
                    fd: self@.socket.fd,
                    len,
                    flags: self@.socket.recv_flags as i32,
                },
            ),
    {
        if self.state != UdpSocketState::Connected {
            return Err(SocketError::NotConnected);
        }
        Ok(Syscall::Recv { fd: self.fd.as_raw(), len, flags: self.recv_flags.as_i32() })
    }

    /// Read from the socket
    ///
    /// # Parameters
    /// - `ret`: The answer to [`read_call`](Self::read_call); it is not looked
    ///   at where that gave no call
    ///
    /// # Errors
    /// - [`SocketError::NotConnected`] if the socket is not connected
    /// - [`SocketError::Errno`] if the read was unsuccessful
    pub fn read(&mut self, ret: Transfer) -> (r: Result<usize, SocketError>)
        ensures
            io_refusal(old(self)@.state) matches Some(refusal) ==> (r matches Err(e) && e
                == refusal),
            io_refusal(old(self)@.state) is None ==> r == transfer_result(ret),
            final(self)@ == old(self)@,
    {
        if self.state != UdpSocketState::Connected {
            return Err(SocketError::NotConnected);
        }
        if ret.count < 0 {
            Err(SocketError::Errno(ret.errno))
        } else {
            Ok(ret.count as usize)
        }
    }

    /// Queue `buf` behind what waits to be sent. The result is the call that
    /// attempts, once, to send all that is queued.
    ///
    /// # Errors
    /// - [`SocketError::NotConnected`] if the socket is not connected:
    ///   nothing is queued
    pub fn write_call(&mut self, buf: &[u8]) -> (r: Result<Syscall, SocketError>)
        ensures
            io_refusal(old(self)@.state) matches Some(refusal) ==> (r matches Err(e) && e
                == refusal) && final(self)@ == old(self)@,
            io_refusal(old(self)@.state) is None ==> r == Ok::<Syscall, SocketError>(
                Syscall::Send {
                    fd: old(self)@.socket.fd,
                    len: (old(self)@.socket.buffer.len() + buf@.len()) as usize,
                    flags: old(self)@.socket.send_flags as i32,
                },
            ) && final(self)@ == (CheckedUdpSocketView {
                socket: UdpSocketView {
                    buffer: old(self)@.socket.buffer + buf@,
                    ..old(self)@.socket
                },
                ..old(self)@
            }),
    {
        if self.state != UdpSocketState::Connected {
            return Err(SocketError::NotConnected);
        }
        self.buffer.append_buffer(buf);
        Ok(
            Syscall::Send {
                fd: self.fd.as_raw(),
                len: self.buffer.len(),
                flags: self.send_flags.as_i32(),
            },
        )
    }

    /// Write to the socket
    ///
    /// # Parameters
    /// - `ret`: The answer to [`write_call`](Self::write_call); it is not
    ///   looked at where that gave no call
    ///
    /// # Returns
    /// The number of bytes that were sent. They leave the queue.
    ///
    /// # Errors
    /// - [`SocketError::NotConnected`] if the socket is not connected
    /// - [`SocketError::Errno`] if the send was unsuccessful
    pub fn write(&mut self, ret: Transfer) -> (r: Result<usize, SocketError>)
        ensures
            io_refusal(old(self)@.state) matches Some(refusal) ==> (r matches Err(e) && e
                == refusal) && final(self)@ == old(self)@,
            io_refusal(old(self)@.state) is None ==> r == transfer_result(ret)
                && final(self)@ == (CheckedUdpSocketView {
                socket: UdpSocketView {
                    buffer: buffer_after_send(old(self)@.socket.buffer, ret),
                    ..old(self)@.socket
                },
                ..old(self)@
            }),
    {
        if self.state != UdpSocketState::Connected {
            return Err(SocketError::NotConnected);
        }
        if ret.count < 0 {
            Err(SocketError::Errno(ret.errno))
        } else {
            self.buffer.shift_left_buffer(ret.count as usize);
            Ok(ret.count as usize)
        }
    }

    /// The next call of a flush: the send of all that is queued, or `None`
    /// where nothing is queued and the flush is complete.
    ///
    /// # Errors
    /// - [`SocketError::NotConnected`] if the socket is not connected
    pub fn flush_call(&self) -> (r: Result<Option<Syscall>, SocketError>)
        ensures
            io_refusal(self@.state) matches Some(refusal) ==> (r matches Err(e) && e
                == refusal),
            io_refusal(self@.state) is None && self@.socket.buffer.len() == 0 ==> r
                == Ok::<Option<Syscall>, SocketError>(None),
            io_refusal(self@.state) is None && self@.socket.buffer.len() > 0 ==> r
                == Ok::<Option<Syscall>, SocketError>(
                Some(
                    Syscall::Send {
                        fd: self@.socket.fd,
                        len: self@.socket.buffer.len() as usize,
                        flags: self@.socket.send_flags as i32,
                    },
                ),
            ),
    {
        if self.state != UdpSocketState::Connected {
            return Err(SocketError::NotConnected);
        }
        if self.buffer.len() == 0 {
            Ok(None)
        } else {
            Ok(
                Some(
                    Syscall::Send {
                        fd: self.fd.as_raw(),
                        len: self.buffer.len(),
                        flags: self.send_flags.as_i32(),
                    },
                ),
            )
        }
    }

    /// Take the answer to a call of a flush. The bytes that were sent leave
    /// the queue; [`flush_call`](Self::flush_call) then says whether the flush
    /// goes on.
    ///
    /// # Errors
    /// - [`SocketError::NotConnected`] if the socket is not connected
    /// - [`SocketError::Errno`] if the send was unsuccessful
    pub fn flush(&mut self, ret: Transfer) -> (r: Result<(), SocketError>)
        ensures
            io_refusal(old(self)@.state) matches Some(refusal) ==> (r matches Err(e) && e
                == refusal) && final(self)@ == old(self)@,
            io_refusal(old(self)@.state) is None && ret.count < 0 ==> (
            r matches Err(e) && e == SocketError::Errno(ret.errno)),
            io_refusal(old(self)@.state) is None && ret.count >= 0 ==> r is Ok,
            io_refusal(old(self)@.state) is None ==> final(self)@ == (
            CheckedUdpSocketView {
                socket: UdpSocketView {
                    buffer: buffer_after_send(old(self)@.socket.buffer, ret),
                    ..old(self)@.socket
                },
                ..old(self)@
            }),
    {
        match self.write(ret) {
            Ok(_) => Ok(()),
            Err(e) => Err(e),
        }
    }

    /// The address to bind to, as the platform takes it, unless the bind is
    /// refused
    fn bind_target(&self, addr: Option<SocketAddr>) -> (r: Result<sockaddr, SocketError>)
        ensures
            bind_refusal(self@.state, addr) matches Some(refusal) ==> (r matches Err(e) && e
                == refusal),
            bind_address(addr) matches SocketAddr::V4(v4) ==> (bind_refusal(self@.state, addr)
                is None ==> (r matches Ok(to) && is_sockaddr_of(to, v4))),
    {
        let addr = match addr {
            Some(a) => a,
            None => SocketAddr::V4(SocketAddrV4::new(Ipv4Addr::new(0, 0, 0, 0), 0)),
        };
        match addr {
            SocketAddr::V6(_) => Err(SocketError::UnsupportedAddressFamily),
            SocketAddr::V4(v4) => {
                if self.state != UdpSocketState::Unbound {
                    Err(SocketError::AlreadyBound)
                } else {
                    Ok(v4.to_sockaddr())
                }
            },
        }
    }

    /// The address to connect to, as the platform takes it, unless the
    /// connect is refused
    fn connect_target(&self, addr: SocketAddr) -> (r: Result<sockaddr, SocketError>)
        ensures
            connect_refusal(self@.state, addr) matches Some(refusal) ==> (r matches Err(e) && e
                == refusal),
            addr matches SocketAddr::V4(v4) ==> (connect_refusal(self@.state, addr) is None
                ==> (r matches Ok(to) && is_sockaddr_of(to, v4))),
    {
        match addr {
            SocketAddr::V6(_) => Err(SocketError::UnsupportedAddressFamily),
            SocketAddr::V4(v4) => {
                if self.state == UdpSocketState::Unbound {
                    Err(SocketError::NotBound)
                } else if self.state == UdpSocketState::Connected {
                    Err(SocketError::AlreadyConnected)
                } else {
                    Ok(v4.to_sockaddr())
                }
            },
        }
    }
}

/// A socket that is bound and not yet connected, and one that is not even
/// bound, refuse to read, to write and to flush, with the error that says
/// that the socket is not connected; a connected socket does not refuse.
pub proof fn lemma_only_connected_moves_bytes(state: UdpSocketState)
    ensures
        state != UdpSocketState::Connected ==> io_refusal(state) == Some(
            SocketError::NotConnected,
        ),
        state == UdpSocketState::Connected ==> io_refusal(state) is None,
        io_refusal(UdpSocketState::Bound) == Some(SocketError::NotConnected),
{
}

/// An IPv6 address is refused in every state, by a bind and by a connect,
/// with the error that says that the address family is not supported, and
/// before the state is looked at.
pub proof fn lemma_ipv6_is_refused_in_every_state(state: UdpSocketState, addr: SocketAddr)
    requires
        addr is V6,
    ensures
        connect_refusal(state, addr) == Some(SocketError::UnsupportedAddressFamily),
        bind_refusal(state, Some(addr)) == Some(SocketError::UnsupportedAddressFamily),
{
}

/// Each state but the one that an operation is made for refuses it with an
/// error of its own.
pub proof fn lemma_wrong_state_is_named(state: UdpSocketState, addr: SocketAddr)
    requires
        addr is V4,
    ensures
        connect_refusal(UdpSocketState::Unbound, addr) == Some(SocketError::NotBound),
        connect_refusal(UdpSocketState::Bound, addr) is None,
        connect_refusal(UdpSocketState::Connected, addr) == Some(SocketError::AlreadyConnected),
        bind_refusal(UdpSocketState::Unbound, Some(addr)) is None,
        state != UdpSocketState::Unbound ==> bind_refusal(state, Some(addr)) == Some(
            SocketError::AlreadyBound,
        ),
        state != UdpSocketState::Unbound ==> bind_refusal(state, None) == Some(
            SocketError::AlreadyBound,
        ),
{
}

} // verus!
