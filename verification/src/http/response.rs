//! The response.

use super::HttpVersion;
use vstd::prelude::*;
use vstd::utf8::encode_utf8;

verus! {

/// HTTP response
#[derive(Debug, Clone, PartialEq, Eq)]
pub struct Response {
    pub http_version: HttpVersion,
    pub status: Code,
    pub headers: Vec<(String, String)>,
    pub body: Vec<u8>,
}

/// The status of a response
#[derive(Debug, Clone, Copy, PartialEq, Eq, Structural)]
pub enum Code {
    OK,
    Created,
    Accepted,
    NonAuthoritativeInformation,
    NoContent,
    ResetContent,
    PartialContent,
    MultipleChoices,
    MovedPermanently,
    Found,
    SeeOther,
    NotModified,
    UseProxy,
    TemporaryRedirect,
    PermanentRedirect,
    BadRequest,
    Unauthorized,
    PaymentRequired,
    Forbidden,
    NotFound,
    MethodNotAllowed,
    InternalServerError,
    Other(u16),
    Unparsable,
}

/// The status that a number stands for
pub open spec fn code_of(value: u16) -> Code {
    if value == 200 {
        Code::OK
    } else if value == 201 {
        Code::Created
    } else if value == 202 {
        Code::Accepted
    } else if value == 203 {
        Code::NonAuthoritativeInformation
    } else if value == 204 {
        Code::NoContent
    } else if value == 205 {
        Code::ResetContent
    } else if value == 206 {
        Code::PartialContent
    } else if value == 300 {
        Code::MultipleChoices
    } else if value == 301 {
        Code::MovedPermanently
    } else if value == 302 {
        Code::Found
    } else if value == 303 {
        Code::SeeOther
    } else if value == 304 {
        Code::NotModified
    } else if value == 305 {
        Code::UseProxy
    } else if value == 307 {
        Code::TemporaryRedirect
    } else if value == 308 {
        Code::PermanentRedirect
    } else if value == 400 {
        Code::BadRequest
    } else if value == 401 {
        Code::Unauthorized
    } else if value == 402 {
        Code::PaymentRequired
    } else if value == 403 {
        Code::Forbidden
    } else if value == 404 {
        Code::NotFound
    } else if value == 405 {
        Code::MethodNotAllowed
    } else if value == 500 {
        Code::InternalServerError
    } else {
        Code::Other(value)
    }
}

/// The number of a status; 0 for a status that could not be read
pub open spec fn number_of(code: Code) -> u16 {
    match code {
        Code::OK => 200,
        Code::Created => 201,
        Code::Accepted => 202,
        Code::NonAuthoritativeInformation => 203,
        Code::NoContent => 204,
        Code::ResetContent => 205,
        Code::PartialContent => 206,
        Code::MultipleChoices => 300,
        Code::MovedPermanently => 301,
        Code::Found => 302,
        Code::SeeOther => 303,
        Code::NotModified => 304,
        Code::UseProxy => 305,
        Code::TemporaryRedirect => 307,
        Code::PermanentRedirect => 308,
        Code::BadRequest => 400,
        Code::Unauthorized => 401,
        Code::PaymentRequired => 402,
        Code::Forbidden => 403,
        Code::NotFound => 404,
        Code::MethodNotAllowed => 405,
        Code::InternalServerError => 500,
        Code::Other(x) => x,
        Code::Unparsable => 0,
    }
}

impl From<u16> for Code {
    fn from(value: u16) -> (r: Self) {
        match value {
            200 => Code::OK,
            201 => Code::Created,
            202 => Code::Accepted,
            203 => Code::NonAuthoritativeInformation,
            204 => Code::NoContent,
            205 => Code::ResetContent,
            206 => Code::PartialContent,
            300 => Code::MultipleChoices,
            301 => Code::MovedPermanently,
            302 => Code::Found,
            303 => Code::SeeOther,
            304 => Code::NotModified,
            305 => Code::UseProxy,
            307 => Code::TemporaryRedirect,
            308 => Code::PermanentRedirect,
            400 => Code::BadRequest,
            401 => Code::Unauthorized,
            402 => Code::PaymentRequired,
            403 => Code::Forbidden,
            404 => Code::NotFound,
            405 => Code::MethodNotAllowed,
            500 => Code::InternalServerError,
            x => Code::Other(x),
        }
    }
}

impl vstd::std_specs::convert::FromSpecImpl<u16> for Code {
    open spec fn obeys_from_spec() -> bool {
        true
    }

    open spec fn from_spec(value: u16) -> Code {
        code_of(value)
    }
}

impl From<Option<u16>> for Code {
    fn from(value: Option<u16>) -> (r: Self) {
        match value {
            Some(x) => Code::from(x),
            None => Code::Unparsable,
        }
    }
}

impl vstd::std_specs::convert::FromSpecImpl<Option<u16>> for Code {
    open spec fn obeys_from_spec() -> bool {
        true
    }

    open spec fn from_spec(value: Option<u16>) -> Code {
        match value {
            Some(x) => code_of(x),
            None => Code::Unparsable,
        }
    }
}

impl From<Code> for u16 {
    fn from(value: Code) -> (r: Self) {
        match value {
            Code::OK => 200,
            Code::Created => 201,
            Code::Accepted => 202,
            Code::NonAuthoritativeInformation => 203,
            Code::NoContent => 204,
            Code::ResetContent => 205,
            Code::PartialContent => 206,
            Code::MultipleChoices => 300,
            Code::MovedPermanently => 301,
            Code::Found => 302,
            Code::SeeOther => 303,
            Code::NotModified => 304,
            Code::UseProxy => 305,
            Code::TemporaryRedirect => 307,
            Code::PermanentRedirect => 308,
            Code::BadRequest => 400,
            Code::Unauthorized => 401,
            Code::PaymentRequired => 402,
            Code::Forbidden => 403,
            Code::NotFound => 404,
            Code::MethodNotAllowed => 405,
            Code::InternalServerError => 500,
            Code::Other(x) => x,
            Code::Unparsable => 0,
        }
    }
}

impl vstd::std_specs::convert::FromSpecImpl<Code> for u16 {
    open spec fn obeys_from_spec() -> bool {
        true
    }

    open spec fn from_spec(value: Code) -> u16 {
        number_of(value)
    }
}

/// How far the parse of a response came
#[derive(Debug, Clone, Copy, PartialEq, Eq, Structural)]
pub enum ParseStatus {
    /// The head of the response is complete and this number of bytes long
    Complete(usize),
    /// The bytes end before the head of the response does
    Partial,
}

/// What the parse of a response found to be wrong
#[derive(Debug, Clone, Copy, PartialEq, Eq, Structural)]
pub enum ParseError {
    /// Invalid byte in header name.
    HeaderName,
    /// Invalid byte in header value.
    HeaderValue,
    /// Invalid byte in new line.
    NewLine,
    /// Invalid byte in Response status.
    Status,
    /// Invalid byte where token is required.
    Token,
    /// Parsed more headers than provided buffer can contain.
    TooManyHeaders,
    /// Invalid byte in HTTP version.
    Version,
}

/// The number of headers that a response is parsed with room for, unless
/// another number is given
pub const DEFAULT_MAX_HEADERS: usize = 16;

/// Whether this number of headers can be allocated: a header is four machine
/// words long, and no allocation is longer than `isize::MAX` bytes.
pub open spec fn headers_fit(max_headers: usize) -> bool {
    max_headers * 4 * (usize::BITS / 8) <= isize::MAX
}

/// What `httparse` gives for the parse of `bytes` as a response, with room
/// for `max_headers` headers
pub uninterp spec fn response_parse(bytes: Seq<u8>, max_headers: usize) -> Result<
    ParseStatus,
    ParseError,
>;

/// Calls `httparse::ParserConfig::parse_response`, on the default
/// configuration, with a `httparse::Response` over `max_headers` empty
/// headers. The contract claims only that the status, or the error, depends
/// on the bytes and on the number of headers alone. The headers are
/// allocated before the call, which is possible for a number that fits.
#[verifier::external_body]
fn parse_with_httparse(response: &[u8], max_headers: usize) -> (r: Result<
    ParseStatus,
    ParseError,
>)
    requires
        headers_fit(max_headers),
    ensures
        r == response_parse(response@, max_headers),
{
    let mut headers = vec![httparse::EMPTY_HEADER; max_headers];
    let mut parsed = httparse::Response::new(&mut headers);
    match httparse::ParserConfig::default().parse_response(&mut parsed, response) {
        Ok(httparse::Status::Complete(n)) => Ok(ParseStatus::Complete(n)),
        Ok(httparse::Status::Partial) => Ok(ParseStatus::Partial),
        Err(httparse::Error::HeaderName) => Err(ParseError::HeaderName),
        Err(httparse::Error::HeaderValue) => Err(ParseError::HeaderValue),
        Err(httparse::Error::NewLine) => Err(ParseError::NewLine),
        Err(httparse::Error::Status) => Err(ParseError::Status),
        Err(httparse::Error::Token) => Err(ParseError::Token),
        Err(httparse::Error::TooManyHeaders) => Err(ParseError::TooManyHeaders),
        Err(httparse::Error::Version) => Err(ParseError::Version),
    }
}

/// Parse the head of a response
///
/// # Parameters
/// - `response`: The text of the response, as far as it was received
/// - `max_headers`: The number of headers to parse at most, which has to
///   be a number of headers that can be allocated; 16 if `None`
///
/// # Returns
/// How far the parse came: to the end of the head, with its length in bytes,
/// or to the end of the text.
///
/// # Errors
/// What the parse found to be wrong
pub fn parse_response(response: &str, max_headers: Option<usize>) -> (r: Result<
    ParseStatus,
    ParseError,
>)
    requires
        max_headers matches Some(n) ==> headers_fit(n),
    ensures
        r == response_parse(
            encode_utf8(response@),
            match max_headers {
                Some(n) => n,
                None => 16,
            },
        ),
{
    let me = match max_headers {
        Some(n) => n,
        None => DEFAULT_MAX_HEADERS,
    };
    parse_with_httparse(response.as_bytes(), me)
}

/// A status that has a name of its own is the status of its number, and a
/// number is the number of its status.
pub proof fn lemma_code_round_trip(value: u16, code: Code)
    ensures
        number_of(code_of(value)) == value,
        !(code is Other) && !(code is Unparsable) ==> code_of(number_of(code)) == code,
{
}

} // verus!
