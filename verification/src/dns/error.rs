//! The errors of the DNS resolver.

use vstd::prelude::*;

verus! {

/// An error that can occur when using a DNS resolver
#[derive(Debug, Clone, PartialEq, Eq)]
pub enum DnsError {
    /// The DNS resolver failed to create
    FailedToCreate,
    /// The hostname could not be resolved
    HostnameResolutionFailed(String),
    /// The IP address could not be resolved
    AddressResolutionFailed(String),
}

/// What a [`DnsError`] stands for: the error with its text as characters
pub enum DnsErrorView {
    /// The DNS resolver failed to create
    FailedToCreate,
    /// The hostname could not be resolved
    HostnameResolutionFailed(Seq<char>),
    /// The IP address could not be resolved
    AddressResolutionFailed(Seq<char>),
}

impl View for DnsError {
    type V = DnsErrorView;

    open spec fn view(&self) -> DnsErrorView {
        match self {
            DnsError::FailedToCreate => DnsErrorView::FailedToCreate,
            DnsError::HostnameResolutionFailed(text) => DnsErrorView::HostnameResolutionFailed(
                text@,
            ),
            DnsError::AddressResolutionFailed(text) => DnsErrorView::AddressResolutionFailed(
                text@,
            ),
        }
    }
}

} // verus!
