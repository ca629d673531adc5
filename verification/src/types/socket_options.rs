//! Options for opening a socket.
#![allow(clippy::module_name_repetitions)]

use crate::socket::SocketAddr;
use vstd::prelude::*;
use vstd::string::*;

verus! {

/// Socket options, such as remote address to connect to.
///
/// This is used by [`TcpSocket`](crate::socket::tcp::TcpSocket) and
/// [`UdpSocket`](crate::socket::udp::UdpSocket) when they are opened through
/// [`Open`](crate::traits::io::Open).
///
/// # Fields
/// - [`remote`](Self::remote): Remote address to connect to
#[derive(Clone, Copy, Debug, PartialEq, Eq)]
pub struct SocketOptions {
    /// Remote address to connect to
    remote: SocketAddr,
}

impl View for SocketOptions {
    type V = SocketAddr;

    closed spec fn view(&self) -> SocketAddr {
        self.remote
    }
}

impl SocketOptions {
    /// Create a new socket options
    #[must_use]
    pub fn new(remote: SocketAddr) -> (r: SocketOptions)
        ensures
            r@ == remote,
    {
        Self { remote }
    }

    /// Get the remote address
    #[must_use]
    pub fn remote(&self) -> (r: SocketAddr)
        ensures
            r == self@,
    {
        self.remote
    }
}

/// A certificate, as the bytes that encode it
#[derive(Clone, Copy, Debug)]
pub enum Certificate<'a> {
    /// An X.509 certificate
    X509(&'a [u8]),
    /// A raw public key
    RawPublicKey(&'a [u8]),
}

/// TLS socket options.
///
/// This is used by [`TlsSocket`](crate::socket::tls::TlsSocket) when it is
/// opened.
#[derive(Clone, Debug)]
pub struct TlsSocketOptions<'a> {
    /// The seed to use for the RNG
    seed: u64,
    /// The server name to use
    server_name: String,
    /// The certificate
    cert: Option<Certificate<'a>>,
    /// The CA
    ca: Option<Certificate<'a>>,
    /// Whether RSA signatures should be enabled
    enable_rsa_signatures: bool,
    /// Whether the max fragment length should be reset
    reset_max_fragment_length: bool,
}

/// What a [`TlsSocketOptions`] stands for
pub struct TlsSocketOptionsView<'a> {
    /// The seed to use for the RNG
    pub seed: u64,
    /// The server name to use
    pub server_name: Seq<char>,
    /// The certificate
    pub cert: Option<Certificate<'a>>,
    /// The CA
    pub ca: Option<Certificate<'a>>,
    /// Whether RSA signatures should be enabled
    pub enable_rsa_signatures: bool,
    /// Whether the max fragment length should be reset
    pub reset_max_fragment_length: bool,
}

impl<'a> View for TlsSocketOptions<'a> {
    type V = TlsSocketOptionsView<'a>;

    closed spec fn view(&self) -> TlsSocketOptionsView<'a> {
        TlsSocketOptionsView {
            seed: self.seed,
            server_name: self.server_name@,
            cert: self.cert,
            ca: self.ca,
            enable_rsa_signatures: self.enable_rsa_signatures,
            reset_max_fragment_length: self.reset_max_fragment_length,
        }
    }
}

impl<'a> TlsSocketOptions<'a> {
    /// Create a new socket options
    ///
    /// # Arguments
    /// - `seed`: The seed to use for the RNG
    /// - `server_name`: The server name to use
    ///
    /// # Returns
    /// - A new socket options object
    ///
    /// # Notes
    /// By default
    /// - RSA signatures are enabled
    /// - The max fragment length is not reset
    /// - The certificate and CA are not set.
    #[must_use]
    pub fn new(seed: u64, server_name: &str) -> (r: Self)
        ensures
            r@ == (TlsSocketOptionsView {
                seed,
                server_name: server_name@,
                cert: None,
                ca: None,
                enable_rsa_signatures: true,
                reset_max_fragment_length: false,
            }),
    {
        Self {
            seed,
            server_name: String::from_str(server_name),
            cert: None,
            ca: None,
            enable_rsa_signatures: true,
            reset_max_fragment_length: false,
        }
    }

    /// Create a new socket options with a seed based on the current time
    ///
    /// # Arguments
    /// - `server_name`: The server name to use
    /// - `current_tick`: The current tick of the platform's clock, which the
    ///   driver reads
    ///
    /// # Returns
    /// - A new socket options object
    ///
    /// # Notes
    /// Like [`TlsSocketOptions::new`], but the seed is the current tick.
    #[must_use]
    pub fn new_with_seed_from_time(server_name: &str, current_tick: u64) -> (r: Self)
        ensures
            r@ == (TlsSocketOptionsView {
                seed: current_tick,
                server_name: server_name@,
                cert: None,
                ca: None,
                enable_rsa_signatures: true,
                reset_max_fragment_length: false,
            }),
    {
        let seed = current_tick;
        Self::new(seed, server_name)
    }

    /// Disable RSA signatures
    ///
    /// By default, RSA signatures are enabled.
    pub fn disable_rsa_signatures(&mut self)
        ensures
            final(self)@ == (TlsSocketOptionsView { enable_rsa_signatures: false, ..old(self)@ }),
    {
        self.enable_rsa_signatures = false;
    }

    /// Set the certificate
    ///
    /// # Arguments
    /// - `cert`: The certificate
    pub fn set_cert(&mut self, cert: Option<Certificate<'a>>)
        ensures
            final(self)@ == (TlsSocketOptionsView { cert, ..old(self)@ }),
    {
        self.cert = cert;
    }

    /// Get the seed
    #[must_use]
    pub fn seed(&self) -> (r: u64)
        ensures
            r == self@.seed,
    {
        self.seed
    }

    /// Set the seed
    ///
    /// # Arguments
    /// - `seed`: The seed
    pub fn set_seed(&mut self, seed: u64)
        ensures
            final(self)@ == (TlsSocketOptionsView { seed, ..old(self)@ }),
    {
        self.seed = seed;
    }

    /// Get the server name
    #[must_use]
    pub fn server_name(&self) -> (r: &str)
        ensures
            r@ == self@.server_name,
    {
        self.server_name.as_str()
    }

    /// Get the certificate
    #[must_use]
    pub fn cert(&self) -> (r: Option<&Certificate<'a>>)
        ensures
            match r {
                Some(cert) => self@.cert == Some(*cert),
                None => self@.cert is None,
            },
    {
        self.cert.as_ref()
    }

    /// Return whether RSA signatures are enabled
    #[must_use]
    pub fn rsa_signatures_enabled(&self) -> (r: bool)
        ensures
            r == self@.enable_rsa_signatures,
    {
        self.enable_rsa_signatures
    }

    /// Return whether the max fragment length should be reset
    #[must_use]
    pub fn reset_max_fragment_length(&self) -> (r: bool)
        ensures
            r == self@.reset_max_fragment_length,
    {
        self.reset_max_fragment_length
    }

    /// Set whether the max fragment length should be reset
    ///
    /// By default, the max fragment length is not reset.
    pub fn set_reset_max_fragment_length(&mut self, reset_max_fragment_length: bool)
        ensures
            final(self)@ == (TlsSocketOptionsView { reset_max_fragment_length, ..old(self)@ }),
    {
        self.reset_max_fragment_length = reset_max_fragment_length;
    }

    /// Get the CA
    #[must_use]
    pub fn ca(&self) -> (r: Option<&Certificate<'a>>)
        ensures
            match r {
                Some(ca) => self@.ca == Some(*ca),
                None => self@.ca is None,
            },
    {
        self.ca.as_ref()
    }

    /// Set the CA (certificate authority)
    ///
    /// # Arguments
    /// - `ca`: The CA
    pub fn set_ca(&mut self, ca: Option<Certificate<'a>>)
        ensures
            final(self)@ == (TlsSocketOptionsView { ca, ..old(self)@ }),
    {
        self.ca = ca;
    }

    /// Set whether RSA signatures should be enabled
    ///
    /// # Arguments
    /// - `enable_rsa_signatures`: Whether RSA signatures should be enabled
    pub fn set_enable_rsa_signatures(&mut self, enable_rsa_signatures: bool)
        ensures
            final(self)@ == (TlsSocketOptionsView { enable_rsa_signatures, ..old(self)@ }),
    {
        self.enable_rsa_signatures = enable_rsa_signatures;
    }

    /// Set the server name
    ///
    /// # Arguments
    /// - `server_name`: The server name
    pub fn set_server_name(&mut self, server_name: &str)
        ensures
            final(self)@ == (TlsSocketOptionsView {
                server_name: server_name@,
                ..old(self)@
            }),
    {
        self.server_name = String::from_str(server_name);
    }
}

impl Default for TlsSocketOptions<'_> {
    /// The options without a server name, with the seed 0, and with nothing
    /// enabled
    fn default() -> (r: Self)
        ensures
            r@ == (TlsSocketOptionsView {
                seed: 0,
                server_name: Seq::<char>::empty(),
                cert: None,
                ca: None,
                enable_rsa_signatures: false,
                reset_max_fragment_length: false,
            }),
    {
        Self {
            seed: 0,
            server_name: String::new(),
            cert: None,
            ca: None,
            enable_rsa_signatures: false,
            reset_max_fragment_length: false,
        }
    }
}

} // verus!
