//! Capabilities of the sockets: opening with options, reading, writing.
//!
//! Every operation comes as a pair. The function whose name ends in `_call`
//! describes the call that a driver has to make. The other takes the answer to
//! that call and completes the operation.

use crate::socket::sce::{Syscall, Transfer};
use vstd::prelude::*;

verus! {

/// Types that are configured through options
pub trait OptionType {
    type Options<'b>: ?Sized;
}

/// Types that name the error of their operations
pub trait ErrorType {
    type Error;
}

/// Type implementing this trait support a Open semantics.
pub trait Open<'a, 'b>: ErrorType + OptionType {
    /// What a successful opening gives
    type Return;

    /// A call that opening asks for
    type Call;

    /// The answer to such a call
    type Answer;

    /// What a failed opening gives: the resource is used up
    type Failure;

    /// The next call that opening asks for, once the calls before it were
    /// answered with `answers`, in order. `Ok(None)` says that no further call
    /// is needed, and that [`open`](Self::open) can be given `answers`.
    ///
    /// # Errors
    /// The error with which opening fails, where it fails before this call.
    fn open_call(&self, options: &'b Self::Options<'b>, answers: &[Self::Answer]) -> Result<
        Option<Self::Call>,
        Self::Error,
    >;

    /// Open a resource, using options for configuration.
    ///
    /// # Arguments
    /// - `options`: The options to use to configure the resource
    /// - `answers`: The answers to the calls that
    ///   [`open_call`](Self::open_call) asked for, in order
    ///
    /// # Errors
    /// This function can return an error if the resource could not be opened.
    /// The resource is then used up.
    fn open(self, options: &'b Self::Options<'b>, answers: &[Self::Answer]) -> Result<
        Self::Return,
        Self::Failure,
    > where Self: Sized, 'b: 'a;
}

/// Types that receive bytes
pub trait Read: ErrorType {
    /// The call that receives up to `len` bytes
    fn read_call(&self, len: usize) -> Syscall;

    /// Complete a read with the answer to its call
    ///
    /// # Errors
    /// The error of the call, where it failed.
    fn read(&mut self, ret: Transfer) -> Result<usize, Self::Error>;
}

/// Types that send bytes
pub trait Write: ErrorType {
    /// Queue `buf` for sending; the result is the call that attempts to send
    /// what is queued.
    fn write_call(&mut self, buf: &[u8]) -> Syscall;

    /// Complete a write with the answer to its call
    ///
    /// # Errors
    /// The error of the call, where it failed.
    fn write(&mut self, ret: Transfer) -> Result<usize, Self::Error>;

    /// The next call of a flush, or `None` where nothing is queued
    fn flush_call(&self) -> Option<Syscall>;

    /// Take the answer to a call of a flush
    ///
    /// # Errors
    /// The error of the call, where it failed.
    fn flush(&mut self, ret: Transfer) -> Result<(), Self::Error>;
}

/// Types implementing this trait support a simplified socket use.
///
/// [`EasySocket`] types support sockets with an Open/Close, Read/Write semantics.
///
/// As usual in Rust, no `close` method is needed: a socket that goes out of
/// use is given up by the driver that owns its descriptor.
pub trait EasySocket: Write + Read {

}

} // verus!
