//! Flag sets for the platform's send and receive calls.
//!
//! A set holds only bits that have a name. The names are constants of the bit
//! type; a set is made from them with `from_bits` or `from_bits_truncate` and
//! joined with `union`.

use vstd::prelude::*;

verus! {

/// Socket flags to use in send calls
#[derive(Clone, Copy, Debug, PartialEq, Eq, Hash)]
pub struct SocketSendFlags {
    bits: u32,
}

impl View for SocketSendFlags {
    type V = u32;

    closed spec fn view(&self) -> u32 {
        self.bits
    }
}

impl SocketSendFlags {
    /// No flags passed. Equivalent to `0x0`.
    pub const NONE: u32 = 0x0;

    /// Send out-of-band data
    pub const MSG_OOB: u32 = 0x1;

    /// End of record
    pub const MSG_EOR: u32 = 0x8;

    /// Every bit that has a name
    pub const ALL: u32 = 0x9;

    #[verifier::type_invariant]
    spec fn only_known_bits(self) -> bool {
        self.bits & !0x9u32 == 0
    }

    /// The set without any flag
    pub fn empty() -> (r: Self)
        ensures
            r@ == 0,
    {
        assert(0u32 & !0x9u32 == 0) by (bit_vector);
        SocketSendFlags { bits: 0 }
    }

    /// The set of every flag
    pub fn all() -> (r: Self)
        ensures
            r@ == 0x9,
    {
        assert(0x9u32 & !0x9u32 == 0) by (bit_vector);
        SocketSendFlags { bits: 0x9 }
    }

    /// The set that holds exactly `bits`, if each of them has a name
    pub fn from_bits(bits: u32) -> (r: Option<Self>)
        ensures
            bits & !0x9u32 == 0 ==> (r matches Some(flags) && flags@ == bits),
            bits & !0x9u32 != 0 ==> r is None,
    {
        if bits & !0x9u32 == 0 {
            Some(SocketSendFlags { bits })
        } else {
            None
        }
    }

    /// The set that holds those of `bits` that have a name
    pub fn from_bits_truncate(bits: u32) -> (r: Self)
        ensures
            r@ == bits & 0x9u32,
    {
        assert((bits & 0x9u32) & !0x9u32 == 0) by (bit_vector);
        SocketSendFlags { bits: bits & 0x9u32 }
    }

    /// The bits of the set
    pub fn bits(&self) -> (r: u32)
        ensures
            r == self@,
            r & !0x9u32 == 0,
            r <= 0x9,
    {
        proof {
            use_type_invariant(self);
        }
        let bits = self.bits;
        assert(bits & !0x9u32 == 0 ==> bits <= 0x9) by (bit_vector);
        bits
    }

    /// Whether no flag is set
    pub fn is_empty(&self) -> (r: bool)
        ensures
            r == (self@ == 0),
    {
        self.bits == 0
    }

    /// Whether every flag of `other` is set in `self`
    pub fn contains(&self, other: Self) -> (r: bool)
        ensures
            r == (self@ & other@ == other@),
    {
        self.bits & other.bits == other.bits
    }

    /// The flags that are set in `self` or in `other`
    pub fn union(self, other: Self) -> (r: Self)
        ensures
            r@ == self@ | other@,
    {
        proof {
            use_type_invariant(self);
            use_type_invariant(other);
        }
        let a = self.bits;
        let b = other.bits;
        assert(a & !0x9u32 == 0 && b & !0x9u32 == 0 ==> (a | b) & !0x9u32 == 0) by (bit_vector);
        SocketSendFlags { bits: a | b }
    }

    /// Convert a [`SocketSendFlags`] into a [`i32`]
    #[must_use]
    pub fn as_i32(self) -> (r: i32)
        ensures
            r == self@,
            0 <= r <= 0x9,
    {
        let bits = self.bits();
        bits as i32
    }
}

impl Default for SocketSendFlags {
    fn default() -> (r: Self)
        ensures
            r@ == 0,
    {
        SocketSendFlags::empty()
    }
}

/// Socket flags to use in recv calls
#[derive(Clone, Copy, Debug, PartialEq, Eq, Hash)]
pub struct SocketRecvFlags {
    bits: u32,
}

impl View for SocketRecvFlags {
    type V = u32;

    closed spec fn view(&self) -> u32 {
        self.bits
    }
}

impl SocketRecvFlags {
    /// No flags passed. Equivalent to `0x0`.
    pub const NONE: u32 = 0x0;

    /// Process out-of-band data
    pub const MSG_OOB: u32 = 0x1;

    /// Peek at the incoming message
    pub const MSG_PEEK: u32 = 0x2;

    /// Wait for full message
    pub const MSG_WAITALL: u32 = 0x40;

    /// Every bit that has a name
    pub const ALL: u32 = 0x43;

    #[verifier::type_invariant]
    spec fn only_known_bits(self) -> bool {
        self.bits & !0x43u32 == 0
    }

    /// The set without any flag
    pub fn empty() -> (r: Self)
        ensures
            r@ == 0,
    {
        assert(0u32 & !0x43u32 == 0) by (bit_vector);
        SocketRecvFlags { bits: 0 }
    }

    /// The set of every flag
    pub fn all() -> (r: Self)
        ensures
            r@ == 0x43,
    {
        assert(0x43u32 & !0x43u32 == 0) by (bit_vector);
        SocketRecvFlags { bits: 0x43 }
    }

    /// The set that holds exactly `bits`, if each of them has a name
    pub fn from_bits(bits: u32) -> (r: Option<Self>)
        ensures
            bits & !0x43u32 == 0 ==> (r matches Some(flags) && flags@ == bits),
            bits & !0x43u32 != 0 ==> r is None,
    {
        if bits & !0x43u32 == 0 {
            Some(SocketRecvFlags { bits })
        } else {
            None
        }
    }

    /// The set that holds those of `bits` that have a name
    pub fn from_bits_truncate(bits: u32) -> (r: Self)
        ensures
            r@ == bits & 0x43u32,
    {
        assert((bits & 0x43u32) & !0x43u32 == 0) by (bit_vector);
        SocketRecvFlags { bits: bits & 0x43u32 }
    }

    /// The bits of the set
    pub fn bits(&self) -> (r: u32)
        ensures
            r == self@,
            r & !0x43u32 == 0,
            r <= 0x43,
    {
        proof {
            use_type_invariant(self);
        }
        let bits = self.bits;
        assert(bits & !0x43u32 == 0 ==> bits <= 0x43) by (bit_vector);
        bits
    }

    /// Whether no flag is set
    pub fn is_empty(&self) -> (r: bool)
        ensures
            r == (self@ == 0),
    {
        self.bits == 0
    }

    /// Whether every flag of `other` is set in `self`
    pub fn contains(&self, other: Self) -> (r: bool)
        ensures
            r == (self@ & other@ == other@),
    {
        self.bits & other.bits == other.bits
    }

    /// The flags that are set in `self` or in `other`
    pub fn union(self, other: Self) -> (r: Self)
        ensures
            r@ == self@ | other@,
    {
        proof {
            use_type_invariant(self);
            use_type_invariant(other);
        }
        let a = self.bits;
        let b = other.bits;
        assert(a & !0x43u32 == 0 && b & !0x43u32 == 0 ==> (a | b) & !0x43u32 == 0)
            by (bit_vector);
        SocketRecvFlags { bits: a | b }
    }

    /// Convert a [`SocketRecvFlags`] into a [`i32`]
    #[must_use]
    pub fn as_i32(self) -> (r: i32)
        ensures
            r == self@,
            0 <= r <= 0x43,
    {
        let bits = self.bits();
        bits as i32
    }
}

impl Default for SocketRecvFlags {
    fn default() -> (r: Self)
        ensures
            r@ == 0,
    {
        SocketRecvFlags::empty()
    }
}

} // verus!
