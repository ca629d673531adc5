//! Traits implemented by the crate types.

pub mod dns;
pub mod io;

use vstd::prelude::*;

verus! {

/// A trait for a buffer that can be used with a socket.
///
/// It can be used by either a read or write buffer of a socket.
pub trait SocketBuffer: Clone + core::fmt::Debug + Default {
    /// The bytes that the buffer holds, oldest first
    spec fn bytes(&self) -> Seq<u8>;

    /// Create a new buffer
    fn new() -> (r: Self)
        ensures
            r.bytes() == Seq::<u8>::empty(),
    ;

    /// Append a buffer to the end.
    ///
    /// # Arguments
    /// - `buf`: buffer containing the data to be appended
    fn append_buffer(&mut self, buf: &[u8])
        ensures
            final(self).bytes() == old(self).bytes() + buf@,
    ;

    /// Shift the buffer to the left by amount
    ///
    /// This is used to remove data from the buffer. An amount of at least the
    /// buffer's length empties it.
    fn shift_left_buffer(&mut self, amount: usize)
        ensures
            final(self).bytes() == shifted_left(old(self).bytes(), amount as nat),
    ;

    /// Clear the buffer
    fn clear(&mut self)
        ensures
            final(self).bytes() == Seq::<u8>::empty(),
    {
        let len = self.len();
        self.shift_left_buffer(len);
    }

    /// Check if the buffer is empty
    fn is_empty(&self) -> (r: bool)
        ensures
            r == (self.bytes().len() == 0),
    {
        self.len() == 0
    }

    /// Get the buffer as a slice
    ///
    /// # Returns
    /// - The buffer as a slice of bytes
    fn as_slice(&self) -> (r: &[u8])
        ensures
            r@ == self.bytes(),
    ;

    /// Get the length of the buffer
    fn len(&self) -> (r: usize)
        ensures
            r == self.bytes().len(),
    ;
}

/// What is left of `bytes` once its first `amount` bytes are taken away:
/// nothing, where `amount` reaches the length.
pub open spec fn shifted_left(bytes: Seq<u8>, amount: nat) -> Seq<u8> {
    if amount >= bytes.len() {
        Seq::<u8>::empty()
    } else {
        bytes.skip(amount as int)
    }
}

impl SocketBuffer for Vec<u8> {
    open spec fn bytes(&self) -> Seq<u8> {
        self@
    }

    #[inline]
    fn new() -> (r: Self) {
        Vec::new()
    }

    #[inline]
    fn append_buffer(&mut self, buf: &[u8]) {
        self.extend_from_slice(buf);
        assert(self@ =~= old(self)@ + buf@);
    }

    fn shift_left_buffer(&mut self, amount: usize) {
        if self.len() <= amount {
            self.clear();
        } else {
            let rest = self.split_off(amount);
            *self = rest;
        }
    }

    #[inline]
    fn len(&self) -> (r: usize) {
        self.len()
    }

    #[inline]
    fn clear(&mut self) {
        self.clear();
    }

    #[inline]
    fn as_slice(&self) -> (r: &[u8]) {
        self.as_slice()
    }
}

/// Appending `data` and then shifting by `amount` empties the buffer where
/// `amount` is at least the length after the append, and otherwise leaves
/// exactly the bytes from offset `amount` on, `amount` fewer than before.
pub proof fn lemma_append_then_shift(before: Seq<u8>, data: Seq<u8>, amount: nat)
    ensures
        amount >= (before + data).len() ==> shifted_left(before + data, amount).len() == 0,
        amount < (before + data).len() ==> {
            &&& shifted_left(before + data, amount).len() == (before + data).len() - amount
            &&& shifted_left(before + data, amount) == (before + data).subrange(
                amount as int,
                (before + data).len() as int,
            )
            &&& forall|i: int|
                0 <= i < (before + data).len() - amount ==> shifted_left(before + data, amount)[i]
                    == (before + data)[i + amount]
        },
{
}

} // verus!
