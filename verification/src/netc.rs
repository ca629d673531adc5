//! Constants and address structures of the platform's C interface.
//!
//! The platform is little-endian. Wherever a structure holds a number in the
//! platform's memory order, the functions of this crate compute that order
//! themselves, so that they give the same bytes on every host.
#![allow(non_camel_case_types)]

use vstd::prelude::*;

verus! {

/// IPv4 address family
pub const AF_INET: u8 = 2;

/// Stream socket (TCP)
pub const SOCK_STREAM: i32 = 1;

/// Datagram socket (UDP)
pub const SOCK_DGRAM: i32 = 2;

/// Size in bytes of [`sockaddr`] and of [`sockaddr_in`]
pub const SOCKADDR_LEN: u8 = 16;

/// An IPv4 address as one number
#[derive(Clone, Copy, Debug, PartialEq, Eq, Structural)]
pub struct in_addr(pub u32);

/// A generic socket address, as the platform's calls take it
#[derive(Clone, Copy, Debug)]
pub struct sockaddr {
    /// Total length
    pub sa_len: u8,
    /// Address family
    pub sa_family: u8,
    /// Address value
    pub sa_data: [u8; 14],
}

/// A structure like Linux's `sockaddr_in`
#[derive(Debug)]
pub struct sockaddr_in {
    pub sin_len: u8,
    pub sin_family: u8,
    pub sin_port: u16,
    pub sin_addr: in_addr,
    pub sin_zero: [u8; 8],
}

impl Clone for sockaddr_in {
    fn clone(&self) -> (r: Self)
        ensures
            r == *self,
    {
        sockaddr_in {
            sin_len: self.sin_len,
            sin_family: self.sin_family,
            sin_port: self.sin_port,
            sin_addr: in_addr(self.sin_addr.0),
            sin_zero: self.sin_zero,
        }
    }
}

} // verus!
