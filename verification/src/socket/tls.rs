//! The TLS socket.
#![allow(clippy::module_name_repetitions)]

use super::error::{SocketError, TlsSocketError};
use super::state::{NotReady, Ready, SocketState};
use crate::text::{from_utf8_lossy, utf8_lossy};
use crate::traits::io::{ErrorType, Open, OptionType};
use crate::types::{Certificate, TlsSocketOptions};
use embedded_tls::TlsError;
use regex::Regex;
use vstd::prelude::*;
use vstd::string::*;

verus! {

/// The length of a record buffer: the greatest length of a fragment
pub const MAX_FRAGMENT_LENGTH: usize = 16_384;

/// A TLS socket.
/// This is a wrapper around a record-layer session that provides a TLS
/// connection.
///
/// The socket records in its type whether the handshake was made. It owns the
/// session `C`, which in turn owns the connected TCP socket and the two
/// record buffers. The socket never looks into the session: a driver works
/// with it through [`connection_mut`](Self::connection_mut).
#[derive(Debug)]
pub struct TlsSocket<S: SocketState = NotReady, C = ()> {
    /// The TLS connection
    tls_connection: C,
    /// marker for the socket state
    _marker: core::marker::PhantomData<S>,
}

impl<S: SocketState, C> View for TlsSocket<S, C> {
    type V = C;

    closed spec fn view(&self) -> C {
        self.tls_connection
    }
}

/// What a handshake is made with: the seed of the pseudo-random generator and
/// the settings of the session
#[derive(Debug, Clone, Copy)]
pub struct TlsHandshake<'a> {
    /// The seed of the pseudo-random generator
    pub seed: u64,
    /// The name of the server
    pub server_name: &'a str,
    /// Whether RSA signatures are enabled
    pub enable_rsa_signatures: bool,
    /// Whether the max fragment length is reset
    pub reset_max_fragment_length: bool,
    /// The certificate, if there is one
    pub cert: Option<Certificate<'a>>,
    /// The CA, if there is one
    pub ca: Option<Certificate<'a>>,
}

impl TlsSocket {
    /// Create a new buffer.
    /// It is a utility function to create the read/write buffer of a session.
    ///
    /// # Returns
    /// A new buffer of `16_384` bytes.
    #[must_use]
    pub fn new_buffer() -> (r: [u8; 16_384])
        ensures
            forall|i: int| 0 <= i < 16_384 ==> r@[i] == 0u8,
    {
        [0;16_384]
    }
}

impl<C> TlsSocket<NotReady, C> {
    /// Create a new TLS socket.
    ///
    /// # Parameters
    /// - `tls_connection`: The session, made of the connected TCP socket and
    ///   of a buffer to read and a buffer to write records
    ///
    /// # Returns
    /// A new TLS socket in the [`NotReady`] state. Use [`TlsSocket::open()`] to get a
    /// ready socket.
    pub fn new(tls_connection: C) -> (r: TlsSocket<NotReady, C>)
        ensures
            r@ == tls_connection,
    {
        TlsSocket { tls_connection, _marker: core::marker::PhantomData }
    }
}

impl<S: SocketState, C> TlsSocket<S, C> {
    /// The session
    pub fn connection(&self) -> (r: &C)
        ensures
            *r == self@,
    {
        &self.tls_connection
    }

    /// The session, to work with
    pub fn connection_mut(&mut self) -> (r: &mut C)
        ensures
            *r == old(self)@,
            final(self)@ == *final(r),
    {
        &mut self.tls_connection
    }

    /// Give the socket up for its session
    pub fn into_connection(self) -> (r: C)
        ensures
            r == self@,
    {
        self.tls_connection
    }
}

/// The handshake that `options` ask for
pub open spec fn handshake_of<'a>(options: TlsSocketOptions<'a>, handshake: TlsHandshake<'a>) -> bool {
    &&& handshake.seed == options@.seed
    &&& handshake.server_name@ == options@.server_name
    &&& handshake.enable_rsa_signatures == options@.enable_rsa_signatures
    &&& handshake.reset_max_fragment_length == options@.reset_max_fragment_length
    &&& handshake.cert == options@.cert
    &&& handshake.ca == options@.ca
}

impl<S: SocketState, C> ErrorType for TlsSocket<S, C> {
    /// The error type for the TLS socket.
    type Error = TlsSocketError;
}

impl<S: SocketState, C> OptionType for TlsSocket<S, C> {
    /// The options type for the TLS socket.
    type Options<'b> = TlsSocketOptions<'b>;
}

impl<'a, 'b, C> Open<'a, 'b> for TlsSocket<NotReady, C> {
    type Return = TlsSocket<Ready, C>;

    type Call = TlsHandshake<'b>;

    type Answer = Result<(), TlsError>;

    type Failure = TlsSocketError;

    /// Opening asks for one call: the handshake with the seed and the
    /// settings of `options`.
    fn open_call(&self, options: &'b Self::Options<'b>, answers: &[Result<(), TlsError>]) -> (r:
        Result<Option<TlsHandshake<'b>>, TlsSocketError>)
        ensures
            answers@.len() == 0 ==> (r matches Ok(Some(handshake)) && handshake_of(
                *options,
                handshake,
            )),
            answers@.len() > 0 ==> (r matches Ok(call) && call is None),
    {
        if answers.len() == 0 {
            let cert = match options.cert() {
                Some(cert) => Some(*cert),
                None => None,
            };
            let ca = match options.ca() {
                Some(ca) => Some(*ca),
                None => None,
            };
            Ok(
                Some(
                    TlsHandshake {
                        seed: options.seed(),
                        server_name: options.server_name(),
                        enable_rsa_signatures: options.rsa_signatures_enabled(),
                        reset_max_fragment_length: options.reset_max_fragment_length(),
                        cert,
                        ca,
                    },
                ),
            )
        } else {
            Ok(None)
        }
    }

    /// Open the TLS connection.
    ///
    /// # Parameters
    /// - `options`: The TLS options, of type [`TlsSocketOptions`].
    /// - `answers`: The outcome of the handshake that
    ///   [`open_call`](Self::open_call) asked for
    ///
    /// # Returns
    /// A new [`TlsSocket<Ready>`] with the session of this one, or an error if
    /// opening fails.
    ///
    /// # Errors
    /// - [`TlsSocketError::TlsError`] with the error of the handshake, if it
    ///   failed
    /// - [`TlsSocketError::SocketError`] with [`SocketError::NotConnected`] if
    ///   `answers` is empty: the handshake was not made
    ///
    /// # Notes
    /// The function takes ownership of the socket, and returns a new socket of type [`TlsSocket<Ready>`].
    /// Therefore, you must assign the returned socket to a variable in order to use it.
    /// On an error the socket is used up, and its session with it.
    fn open(self, options: &'b Self::Options<'b>, answers: &[Result<(), TlsError>]) -> (r:
        Result<Self::Return, TlsSocketError>) where 'b: 'a
        ensures
            answers@.len() == 0 ==> (r matches Err(TlsSocketError::SocketError(e)) && e
                == SocketError::NotConnected),
            answers@.len() > 0 ==> (match answers@[0] {
                Ok(_) => r matches Ok(socket) && socket@ == self@,
                Err(e) => r matches Err(TlsSocketError::TlsError(x)) && x == e,
            }),
    {
        if answers.len() == 0 {
            return Err(TlsSocketError::SocketError(SocketError::NotConnected));
        }
        match answers[0] {
            Ok(_) => Ok(
                TlsSocket {
                    tls_connection: self.tls_connection,
                    _marker: core::marker::PhantomData,
                },
            ),
            Err(e) => Err(TlsSocketError::TlsError(e)),
        }
    }
}

/// Whether a character stays in the text that a TLS socket reads: all but the
/// carriage return and the NUL character
pub open spec fn is_kept(c: char) -> bool {
    c != '\r' && c != '\0'
}

/// The text of the bytes that were read: the bytes decoded, with the
/// replacement character for what does not decode, without carriage returns
/// and NUL characters.
pub open spec fn text_of(bytes: Seq<u8>) -> Seq<char> {
    utf8_lossy(bytes).filter(|c: char| is_kept(c))
}

/// Compiles `pattern` with `regex::Regex::new` and calls
/// `Regex::replace_all` on `text` with `replacement`. The pattern asked for is
/// the carriage return, the bar and the NUL character, and the replacement is
/// empty: each match is one carriage return or one NUL character, so that
/// what comes back is `text` without these.
#[verifier::external_body]
fn replace_all(pattern: &str, text: &str, replacement: &str) -> (r: String)
    requires
        pattern@ == seq!['\r', '|', '\0'],
        replacement@.len() == 0,
    ensures
        r@ == text@.filter(|c: char| is_kept(c)),
{
    Regex::new(pattern).unwrap().replace_all(text, replacement).into_owned()
}

/// The text of the bytes that were read: the bytes decoded, with the
/// replacement character for what does not decode, without carriage returns
/// and NUL characters. This fits a protocol of lines of text. It does not
/// keep binary data.
pub fn decode_text(bytes: &[u8]) -> (r: String)
    ensures
        r@ == text_of(bytes@),
{
    let text = from_utf8_lossy(bytes);
    proof {
        reveal_strlit("\r|\0");
        reveal_strlit("");
        assert("\r|\0"@ =~= seq!['\r', '|', '\0']);
    }
    replace_all("\r|\0", text.as_str(), "")
}

impl<C> TlsSocket<Ready, C> {
    /// Read data from the TLS connection and converts it to a [`String`].
    ///
    /// # Parameters
    /// - `outcome`: What the session answered to a read into `buf`
    /// - `buf`: The buffer that was read into, all of it
    ///
    /// # Returns
    /// - `Ok(String)` if the read was successful: the text of the whole
    ///   buffer, as [`decode_text`] gives it.
    /// - `Err(TlsError)` if the read was unsuccessful.
    ///
    /// # Errors
    /// [`embedded_tls::TlsError`] if the read fails.
    pub fn read_string(&self, outcome: Result<usize, TlsError>, buf: &[u8]) -> (r: Result<
        String,
        TlsError,
    >)
        ensures
            match outcome {
                Ok(_) => r matches Ok(text) && text@ == text_of(buf@),
                Err(e) => r matches Err(x) && x == e,
            },
    {
        match outcome {
            Ok(_) => Ok(decode_text(buf)),
            Err(e) => Err(e),
        }
    }
}

} // verus!
