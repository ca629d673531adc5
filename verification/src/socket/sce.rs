//! The platform's socket interface, as values.
//!
//! A [`Syscall`] says which call of the platform a driver has to make, with
//! which arguments. A [`Status`] or a [`Transfer`] holds what the platform
//! answered. Together with [`SocketFileDescriptor`] they are all that the
//! sockets know of the platform.

use crate::netc::sockaddr;
use vstd::prelude::*;

verus! {

/// A call of the platform's network interface
#[derive(Debug, Clone, Copy)]
pub enum Syscall {
    /// Create a descriptor (`sceNetInetSocket`)
    Socket { domain: i32, kind: i32, protocol: i32 },
    /// Bind a descriptor to a local address (`sceNetInetBind`)
    Bind { fd: i32, addr: sockaddr, addr_len: u32 },
    /// Connect a descriptor to a remote address (`sceNetInetConnect`)
    Connect { fd: i32, addr: sockaddr, addr_len: u32 },
    /// Send the first `len` bytes of the socket's outbound buffer
    /// (`sceNetInetSend`)
    Send { fd: i32, len: usize, flags: i32 },
    /// Receive up to `len` bytes (`sceNetInetRecv`)
    Recv { fd: i32, len: usize, flags: i32 },
    /// Send the first `len` bytes of the caller's data to `to`
    /// (`sceNetInetSendto`)
    Sendto { fd: i32, len: usize, flags: i32, to: sockaddr, to_len: u32 },
    /// Receive up to `len` bytes and the sender's address, for which `from`
    /// is the value to start with (`sceNetInetRecvfrom`)
    Recvfrom { fd: i32, len: usize, flags: i32, from: sockaddr, from_len: u32 },
    /// Close a descriptor (`sceNetInetClose`)
    Close { fd: i32 },
}

/// The platform's answer to a call that returns a status or a descriptor
#[derive(Debug, Clone, Copy, PartialEq, Eq)]
pub struct Status {
    /// What the call returned
    pub value: i32,
    /// The platform's error number after the call; it counts only where the
    /// call failed
    pub errno: i32,
}

/// The platform's answer to a call that moves bytes
#[derive(Debug, Clone, Copy, PartialEq, Eq)]
pub struct Transfer {
    /// The number of bytes moved, or a negative number where the call failed
    pub count: isize,
    /// The platform's error number after the call; it counts only where the
    /// call failed
    pub errno: i32,
}

/// What a driver hands to a function that runs an exchange of several calls:
/// the answer to the call that the function asked for last
#[derive(Debug, Clone, Copy)]
pub enum Answer<'a> {
    /// Nothing yet: the exchange is to begin
    Start,
    /// The answer to a call that returns a status
    Status(Status),
    /// The answer to a call that sends bytes
    Transfer(Transfer),
    /// The answer to a call that receives bytes, and the buffer that the
    /// bytes were received into
    Received(Transfer, &'a [u8]),
}

/// What a function that runs an exchange of several calls hands to its
/// driver
#[derive(Debug)]
pub enum Progress<T, E> {
    /// The call to make next; its answer goes to the same function
    Call(Syscall),
    /// The exchange is over, with this result
    Done(Result<T, E>),
}

/// Socket file descriptor
///
/// The one owner of a descriptor of the platform. It is neither copied nor
/// cloned: a socket hands it on to the socket that a state transition makes.
#[derive(Debug, PartialEq, Eq, Hash)]
pub struct SocketFileDescriptor(i32);

impl View for SocketFileDescriptor {
    type V = i32;

    closed spec fn view(&self) -> i32 {
        self.0
    }
}

impl SocketFileDescriptor {
    #[verifier::type_invariant]
    spec fn valid(self) -> bool {
        self.0 >= 0
    }

    /// Create a new socket file descriptor.
    ///
    /// # Arguments
    /// - `fd`: socket's file descriptor to wrap, which the platform gave: it
    ///   is not negative
    pub fn new(fd: i32) -> (r: Self)
        requires
            fd >= 0,
        ensures
            r@ == fd,
    {
        SocketFileDescriptor(fd)
    }

    /// The number of the descriptor
    pub fn as_raw(&self) -> (r: i32)
        ensures
            r == self@,
            r >= 0,
    {
        proof {
            use_type_invariant(self);
        }
        self.0
    }
}

impl core::ops::Deref for SocketFileDescriptor {
    type Target = i32;

    fn deref(&self) -> (r: &i32)
        ensures
            *r == self@,
    {
        &self.0
    }
}

} // verus!
