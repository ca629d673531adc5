//! The errors of the sockets.

use super::sce::Syscall;
use crate::decimal::{decimal_int, push_decimal_i32};
use embedded_tls::TlsError;
use vstd::prelude::*;
use vstd::string::*;

verus! {

/// An error that can occur with a socket
#[derive(Debug, Clone, PartialEq, Eq)]
pub enum SocketError {
    /// Unsupported address family
    UnsupportedAddressFamily,
    /// The operation needs a bound socket, and the socket is not bound
    NotBound,
    /// The operation needs a connected socket, and the socket is not connected
    NotConnected,
    /// The socket is bound already
    AlreadyBound,
    /// The socket is connected already
    AlreadyConnected,
    /// Socket error with errno
    Errno(i32),
    /// Socket error with errno and a description
    ErrnoWithDescription(i32, String),
    /// Other error
    Other(String),
    /// Unknown error
    Unknown,
}

impl SocketError {
    /// Create a new [`SocketError::ErrnoWithDescription`]
    #[must_use]
    pub fn new_errno_with_description(errno: i32, description: &str) -> (r: Self)
        ensures
            r matches SocketError::ErrnoWithDescription(e, d) && e == errno && d@
                == description@,
    {
        SocketError::ErrnoWithDescription(errno, String::from_str(description))
    }

    /// The text of the error
    pub open spec fn message(&self) -> Seq<char> {
        match self {
            SocketError::UnsupportedAddressFamily => "Unsupported address family"@,
            SocketError::NotBound => "Socket not bound"@,
            SocketError::NotConnected => "Socket not connected"@,
            SocketError::AlreadyBound => "Socket already bound"@,
            SocketError::AlreadyConnected => "Socket already connected"@,
            SocketError::Errno(errno) => "Errno: "@ + decimal_int(*errno as int),
            SocketError::ErrnoWithDescription(errno, description) => "Errno: "@ + decimal_int(
                *errno as int,
            ) + " ("@ + description@ + ")"@,
            SocketError::Other(text) => text@,
            SocketError::Unknown => "Unknown error"@,
        }
    }

    /// Whether the error says that the socket was in the wrong state for the
    /// operation
    pub open spec fn is_wrong_state(&self) -> bool {
        self is NotBound || self is NotConnected || self is AlreadyBound
            || self is AlreadyConnected
    }

    /// The text of the error, as a string
    pub fn to_string(&self) -> (r: String)
        ensures
            r@ == self.message(),
    {
        match self {
            SocketError::UnsupportedAddressFamily => String::from_str(
                "Unsupported address family",
            ),
            SocketError::NotBound => String::from_str("Socket not bound"),
            SocketError::NotConnected => String::from_str("Socket not connected"),
            SocketError::AlreadyBound => String::from_str("Socket already bound"),
            SocketError::AlreadyConnected => String::from_str("Socket already connected"),
            SocketError::Errno(errno) => {
                let mut out = String::from_str("Errno: ");
                push_decimal_i32(&mut out, *errno);
                out
            },
            SocketError::ErrnoWithDescription(errno, description) => {
                let mut out = String::from_str("Errno: ");
                push_decimal_i32(&mut out, *errno);
                out.append(" (");
                out.append(description.as_str());
                out.append(")");
                out
            },
            SocketError::Other(text) => text.clone(),
            SocketError::Unknown => String::from_str("Unknown error"),
        }
    }
}

impl Default for SocketError {
    fn default() -> (r: Self)
        ensures
            r is Unknown,
    {
        SocketError::Unknown
    }
}

/// The failure of an operation that uses its socket up: the error, and the
/// call that closes the descriptor of the socket, which the driver has to
/// make
#[derive(Debug)]
pub struct Failure {
    /// What went wrong
    pub error: SocketError,
    /// The close of the descriptor of the socket that was used up
    pub close: Syscall,
}

/// The failure with `error` of an operation on the socket with the
/// descriptor `fd`
pub open spec fn failure(error: SocketError, fd: i32) -> Failure {
    Failure { error, close: Syscall::Close { fd } }
}

/// The error type of `embedded_tls`. Nothing is known of a value of it but
/// that it is one.
#[verifier::external_type_specification]
#[verifier::external_body]
pub struct ExTlsError(embedded_tls::TlsError);

/// `embedded_tls` derives `Clone` for its error type, which is `Copy` too:
/// the clone is the value.
pub assume_specification[ <embedded_tls::TlsError as Clone>::clone ](
    e: &embedded_tls::TlsError,
) -> (r: embedded_tls::TlsError)
    ensures
        r == *e,
;

/// An error that can occur with a TLS socket.
///
/// It can either be a [`TlsError`] or a [`SocketError`] from the
/// underlying socket.
#[derive(Debug, Clone)]
pub enum TlsSocketError {
    /// TLS error
    TlsError(TlsError),
    /// An error with the underlying socket
    SocketError(SocketError),
}

impl TlsSocketError {
    /// Returns `true` if the error is a [`TlsError`].
    ///
    /// [`TlsError`]: TlsSocketError::TlsError
    #[must_use]
    pub fn is_tls_error(&self) -> (r: bool)
        ensures
            r == (self is TlsError),
    {
        matches!(self, Self::TlsError(..))
    }

    /// Returns `true` if the error is a [`SocketError`].
    ///
    /// [`SocketError`]: TlsSocketError::SocketError
    #[must_use]
    pub fn is_socket_error(&self) -> (r: bool)
        ensures
            r == (self is SocketError),
    {
        matches!(self, Self::SocketError(..))
    }
}

impl From<TlsError> for TlsSocketError {
    fn from(value: TlsError) -> (r: Self) {
        TlsSocketError::TlsError(value)
    }
}

impl vstd::std_specs::convert::FromSpecImpl<TlsError> for TlsSocketError {
    open spec fn obeys_from_spec() -> bool {
        true
    }

    open spec fn from_spec(value: TlsError) -> TlsSocketError {
        TlsSocketError::TlsError(value)
    }
}

impl From<SocketError> for TlsSocketError {
    fn from(value: SocketError) -> (r: Self) {
        TlsSocketError::SocketError(value)
    }
}

impl vstd::std_specs::convert::FromSpecImpl<SocketError> for TlsSocketError {
    open spec fn obeys_from_spec() -> bool {
        true
    }

    open spec fn from_spec(value: SocketError) -> TlsSocketError {
        TlsSocketError::SocketError(value)
    }
}

/// An error is of exactly one of the two kinds.
pub proof fn lemma_tls_socket_error_kinds(e: TlsSocketError)
    ensures
        (e is TlsError) != (e is SocketError),
{
}

} // verus!
