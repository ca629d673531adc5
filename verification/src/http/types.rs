//! The authorization and the content type of a request.

use base64::Engine;
use vstd::prelude::*;
use vstd::string::*;
use vstd::utf8::encode_utf8;

verus! {

/// The text that `base64` gives for `bytes` with the standard alphabet and
/// padding
pub uninterp spec fn base64_standard(bytes: Seq<u8>) -> Seq<char>;

/// Calls `base64::Engine::encode` on the engine
/// `base64::engine::general_purpose::STANDARD`. The contract claims only that
/// the text depends on the bytes alone. The call fails only on an input of
/// more than three quarters of `usize::MAX` bytes, which no slice has.
#[verifier::external_body]
fn encode_standard(input: &[u8]) -> (r: String)
    ensures
        r@ == base64_standard(input@),
{
    base64::engine::general_purpose::STANDARD.encode(input)
}

/// HTTP basic authorization type
#[derive(Debug, Clone, PartialEq, Eq)]
pub enum BasicAuthorization {
    /// Provide ID and password. Calling [`to_string`](Self::to_string) will return the encoded string.
    IdPassword(String, String),
    /// Provide the already encoded string "ID:Password"
    Encoded(String),
}

impl BasicAuthorization {
    /// Create a new basic authorization using ID and password.
    ///
    /// In particular, it returns a [`BasicAuthorization::IdPassword`] variant
    /// of the [`BasicAuthorization`] enum.
    #[must_use]
    pub fn new(id: &str, password: &str) -> (r: Self)
        ensures
            r matches BasicAuthorization::IdPassword(i, p) && i@ == id@ && p@ == password@,
    {
        BasicAuthorization::IdPassword(String::from_str(id), String::from_str(password))
    }

    /// Create a new basic authorization using the already encoded string
    ///
    /// In particular, it returns a [`BasicAuthorization::Encoded`] variant
    /// of the [`BasicAuthorization`] enum.
    #[must_use]
    pub fn new_encoded(encoded: &str) -> (r: Self)
        ensures
            r matches BasicAuthorization::Encoded(e) && e@ == encoded@,
    {
        BasicAuthorization::Encoded(String::from_str(encoded))
    }

    /// The credentials as a request gives them: the encoded string, or the
    /// encoding of the ID, a colon and the password
    pub open spec fn text(&self) -> Seq<char> {
        match self {
            BasicAuthorization::IdPassword(id, password) => base64_standard(
                encode_utf8(id@ + ":"@ + password@),
            ),
            BasicAuthorization::Encoded(encoded) => encoded@,
        }
    }

    /// The credentials as a request gives them, as a string
    pub fn to_string(&self) -> (r: String)
        ensures
            r@ == self.text(),
    {
        match self {
            BasicAuthorization::IdPassword(id, password) => {
                let mut joined = id.clone();
                joined.append(":");
                joined.append(password.as_str());
                encode_standard(joined.as_str().as_bytes())
            },
            BasicAuthorization::Encoded(encoded) => encoded.clone(),
        }
    }
}

impl From<&str> for BasicAuthorization {
    fn from(id: &str) -> (r: Self)
        ensures
            r matches BasicAuthorization::Encoded(e) && e@ == id@,
    {
        BasicAuthorization::new_encoded(id)
    }
}

impl vstd::std_specs::convert::FromSpecImpl<&str> for BasicAuthorization {
    open spec fn obeys_from_spec() -> bool {
        false
    }

    open spec fn from_spec(id: &str) -> BasicAuthorization {
        arbitrary()
    }
}

/// HTTP authorization type
///
/// Defaults to [`Authorization::NoAuthorization`]
#[derive(Debug, Clone, PartialEq, Eq)]
pub enum Authorization {
    /// No authorization
    NoAuthorization,
    /// Basic authorization
    ///
    /// # Fields
    /// - first: ID
    /// - second: Password
    Basic(BasicAuthorization),
    /// Bearer authorization
    ///
    /// # Fields
    /// - first: Bearer token
    Bearer(String),
    /// Any other authorization, as a string
    Other(String),
}

impl Authorization {
    /// The authorization as a request gives it
    pub open spec fn text(&self) -> Seq<char> {
        match self {
            Authorization::NoAuthorization => Seq::<char>::empty(),
            Authorization::Basic(basic_authorization) => "Basic "@ + basic_authorization.text(),
            Authorization::Bearer(token) => "Bearer "@ + token@,
            Authorization::Other(s) => s@,
        }
    }

    /// The authorization as a request gives it, as a string
    pub fn to_string(&self) -> (r: String)
        ensures
            r@ == self.text(),
    {
        match self {
            Authorization::NoAuthorization => String::new(),
            Authorization::Basic(basic_authorization) => {
                let mut out = String::from_str("Basic ");
                let credentials = basic_authorization.to_string();
                out.append(credentials.as_str());
                out
            },
            Authorization::Bearer(token) => {
                let mut out = String::from_str("Bearer ");
                out.append(token.as_str());
                out
            },
            Authorization::Other(s) => s.clone(),
        }
    }
}

impl Default for Authorization {
    fn default() -> (r: Self)
        ensures
            r is NoAuthorization,
    {
        Authorization::NoAuthorization
    }
}

/// Content Type of the HTTP packet's body.
#[derive(Debug, Clone, PartialEq, Eq)]
pub enum ContentType {
    /// text/plain
    TextPlain,
    /// application/json
    ApplicationJson,
    /// application/octet-stream
    OctetStream,
    /// Any other content type, as a string
    Other(String),
}

impl ContentType {
    /// The content type as a request gives it
    pub open spec fn text(&self) -> Seq<char> {
        match self {
            ContentType::TextPlain => "text/plain"@,
            ContentType::ApplicationJson => "application/json"@,
            ContentType::OctetStream => "application/octet-stream"@,
            ContentType::Other(s) => s@,
        }
    }

    /// The content type as a request gives it, as a string
    pub fn to_string(&self) -> (r: String)
        ensures
            r@ == self.text(),
    {
        match self {
            ContentType::TextPlain => String::from_str("text/plain"),
            ContentType::ApplicationJson => String::from_str("application/json"),
            ContentType::OctetStream => String::from_str("application/octet-stream"),
            ContentType::Other(s) => s.clone(),
        }
    }
}

impl Default for ContentType {
    fn default() -> (r: Self)
        ensures
            r is TextPlain,
    {
        ContentType::TextPlain
    }
}

} // verus!
