//! Constants of the protocols.

use vstd::prelude::*;

verus! {

/// The port of HTTP over TLS
pub const HTTPS_PORT: u16 = 443;

} // verus!
