//! Requests and responses of HTTP, as text.
#![allow(clippy::module_name_repetitions)]

use vstd::prelude::*;
use vstd::string::*;

mod request;
mod response;
pub mod types;

pub use request::{header_line, headers_text, Method, Request};
pub use response::{
    code_of, headers_fit, number_of, parse_response, response_parse, Code, ParseError, ParseStatus, Response,
    DEFAULT_MAX_HEADERS,
};

verus! {

/// Enum for different supported HTTP versions
#[derive(Debug, Clone, Copy, PartialEq, Eq, Structural)]
pub enum HttpVersion {
    /// HTTP/1
    V1,
    /// HTTP/1.1
    V1_1,
}

impl HttpVersion {
    /// The version as a request names it
    pub open spec fn text(&self) -> Seq<char> {
        match self {
            HttpVersion::V1 => "HTTP/1"@,
            HttpVersion::V1_1 => "HTTP/1.1"@,
        }
    }

    /// The version as a request names it
    pub fn as_str(&self) -> (r: &'static str)
        ensures
            r@ == self.text(),
    {
        match self {
            HttpVersion::V1 => "HTTP/1",
            HttpVersion::V1_1 => "HTTP/1.1",
        }
    }

    /// The version as a request names it, as a string
    pub fn to_string(&self) -> (r: String)
        ensures
            r@ == self.text(),
    {
        String::from_str(self.as_str())
    }
}

impl Default for HttpVersion {
    fn default() -> (r: Self)
        ensures
            r == HttpVersion::V1_1,
    {
        HttpVersion::V1_1
    }
}

/// A body without bytes
pub fn empty_body() -> (r: Vec<u8>)
    ensures
        r@.len() == 0,
{
    Vec::new()
}

/// The request to `host`: its headers are the header `Host` with `host` as
/// its value, and then `headers`.
pub fn request(
    http_version: HttpVersion,
    host: &str,
    path: &str,
    method: Method,
    authorization: types::Authorization,
    content_type: Option<types::ContentType>,
    body: Vec<u8>,
    headers: Vec<(String, String)>,
) -> (r: Request)
    ensures
        r.method == method,
        r.http_version == http_version,
        r.authorization == authorization,
        r.path@ == path@,
        r.content_type == content_type,
        r.body == body,
        r.headers@.len() == headers@.len() + 1,
        r.headers@[0].0@ == "Host"@,
        r.headers@[0].1@ == host@,
        r.headers@.skip(1) == headers@,
{
    let mut all: Vec<(String, String)> = Vec::new();
    all.push((String::from_str("Host"), String::from_str(host)));
    let mut rest = headers;
    all.append(&mut rest);
    assert(all@.skip(1) =~= headers@);
    Request {
        method,
        http_version,
        authorization,
        path: String::from_str(path),
        headers: all,
        body,
        content_type,
    }
}

} // verus!
