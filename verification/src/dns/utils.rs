//! Constants and questions of the resolver.

use crate::socket::{Ipv4Addr, SocketAddr, SocketAddrV4};
use vstd::prelude::*;
use vstd::string::*;

verus! {

/// The port of the domain name system
pub const DNS_PORT: u16 = 53;

/// The identifier that a resolver gives its queries unless it is told another
pub const DEFAULT_QUERY_ID: u16 = 0x42;

/// The class of the Internet
pub const CLASS_IN: u16 = 1;

/// The address of Google's DNS server, `8.8.8.8:53`
pub fn google_dns_host() -> (r: SocketAddr)
    ensures
        r matches SocketAddr::V4(v4) && v4.port == 53 && v4.ip.octets@ == seq![8u8, 8u8, 8u8, 8u8],
{
    SocketAddr::V4(SocketAddrV4::new(Ipv4Addr::new(8, 8, 8, 8), DNS_PORT))
}

/// The types of record that the resolver asks for
#[derive(Debug, Clone, Copy, PartialEq, Eq, Structural)]
pub enum ResourceType {
    /// The IPv4 address of a host
    A,
    /// The name that an address points to
    Ptr,
}

impl ResourceType {
    /// The number of the type on the wire
    pub open spec fn spec_code(self) -> u16 {
        match self {
            ResourceType::A => 1,
            ResourceType::Ptr => 12,
        }
    }

    /// The number of the type on the wire
    #[verifier::when_used_as_spec(spec_code)]
    pub fn code(self) -> (r: u16)
        ensures
            r == self.spec_code(),
    {
        match self {
            ResourceType::A => 1,
            ResourceType::Ptr => 12,
        }
    }
}

/// A question of a DNS query
#[derive(Debug, Clone, PartialEq, Eq)]
pub struct Question {
    /// The name that is asked about
    pub name: String,
    /// The type of record that is asked for
    pub ty: ResourceType,
    /// The class of the question
    pub class: u16,
}

/// Create a DNS query for an A record
#[must_use]
pub fn create_a_type_query(domain: &str) -> (r: Question)
    ensures
        r.name@ == domain@,
        r.ty == ResourceType::A,
        r.class == 1,
{
    Question { name: String::from_str(domain), ty: ResourceType::A, class: CLASS_IN }
}

/// Create a DNS query for a PTR record
#[must_use]
pub fn create_ptr_type_query(ip: &str) -> (r: Question)
    ensures
        r.name@ == ip@,
        r.ty == ResourceType::Ptr,
        r.class == 1,
{
    Question { name: String::from_str(ip), ty: ResourceType::Ptr, class: CLASS_IN }
}

} // verus!
