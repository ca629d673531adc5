//! Capabilities of a resolver of names.

use crate::netc::in_addr;
use crate::socket::sce::{Answer, Progress};
use crate::socket::SocketAddr;
use vstd::prelude::*;

verus! {

/// Trait for resolving hostnames
///
/// A type implementing this trait can resolve a hostname to an IP address.
pub trait ResolveHostname {
    type Error;

    /// Resolve a hostname to an IP address, one step at a time: the result is
    /// the call that the driver has to make next, whose answer goes to the
    /// next step as `answer`, or the end of the resolution.
    ///
    /// # Errors
    /// An error will be returned if the hostname could not be resolved.
    fn resolve_hostname(&mut self, hostname: &str, answer: Answer<'_>) -> Progress<
        SocketAddr,
        Self::Error,
    >;
}

/// Trait for resolving IP addresses
///
/// A type implementing this trait can resolve an IP address to a hostname.
pub trait ResolveAddr {
    type Error;

    /// Resolve an IP address to a hostname, one step at a time: the result is
    /// the call that the driver has to make next, whose answer goes to the
    /// next step as `answer`, or the end of the resolution.
    ///
    /// # Errors
    /// An error will be returned if the IP address could not be resolved.
    fn resolve_addr(&mut self, addr: in_addr, answer: Answer<'_>) -> Progress<String, Self::Error>;
}

/// Trait for resolving hostnames and IP addresses.
///
/// This trait combines [`ResolveHostname`] and [`ResolveAddr`].
pub trait DnsResolver: ResolveHostname + ResolveAddr {

}

} // verus!
