//! The request.

use super::types::{Authorization, ContentType};
use super::HttpVersion;
use crate::decimal::{decimal_nat, push_decimal_u64};
use crate::text::{from_utf8_lossy, utf8_lossy};
use vstd::prelude::*;
use vstd::string::*;

verus! {

/// HTTP request method
///
/// Defaults to [`Method::Get`]
#[derive(Debug, Clone, Copy, PartialEq, Eq, Structural)]
pub enum Method {
    /// GET
    Get,
    /// POST
    Post,
    /// PUT
    Put,
    /// DELETE
    Delete,
}

impl Method {
    /// The method as a request names it
    pub open spec fn text(&self) -> Seq<char> {
        match self {
            Method::Get => "GET"@,
            Method::Post => "POST"@,
            Method::Put => "PUT"@,
            Method::Delete => "DELETE"@,
        }
    }

    /// The method as a request names it
    pub fn as_str(&self) -> (r: &'static str)
        ensures
            r@ == self.text(),
    {
        match self {
            Method::Get => "GET",
            Method::Post => "POST",
            Method::Put => "PUT",
            Method::Delete => "DELETE",
        }
    }

    /// The method as a request names it, as a string
    pub fn to_string(&self) -> (r: String)
        ensures
            r@ == self.text(),
    {
        String::from_str(self.as_str())
    }
}

impl Default for Method {
    fn default() -> (r: Self)
        ensures
            r == Method::Get,
    {
        Method::Get
    }
}

/// HTTP request
///
/// # Fields
/// - [`method`]: HTTP request method
/// - [`http_version`]: HTTP version
/// - [`path`]: HTTP path
/// - [`headers`]: HTTP headers
/// - [`body`]: HTTP body
#[derive(Debug, Clone, PartialEq, Eq)]
pub struct Request {
    pub method: Method,
    pub http_version: HttpVersion,
    pub authorization: Authorization,
    pub path: String,
    pub headers: Vec<(String, String)>,
    pub body: Vec<u8>,
    pub content_type: Option<ContentType>,
}

/// The line of one header: its name, a colon and a space, its value, and a
/// line feed
pub open spec fn header_line(header: (String, String)) -> Seq<char> {
    header.0@ + ": "@ + header.1@ + "\n"@
}

/// The lines of the headers, in their order
pub open spec fn headers_text(headers: Seq<(String, String)>) -> Seq<char>
    decreases headers.len(),
{
    if headers.len() == 0 {
        Seq::<char>::empty()
    } else {
        headers_text(headers.drop_last()) + header_line(headers.last())
    }
}

impl Request {
    /// The line of the authorization; nothing without an authorization
    pub open spec fn authorization_text(&self) -> Seq<char> {
        if self.authorization is NoAuthorization {
            Seq::<char>::empty()
        } else {
            "Authorization: "@ + self.authorization.text() + "\n"@
        }
    }

    /// The line of the content type; nothing without a content type
    pub open spec fn content_type_text(&self) -> Seq<char> {
        match self.content_type {
            Some(content_type) => "Content-Type: "@ + content_type.text() + "\n"@,
            None => Seq::<char>::empty(),
        }
    }

    /// The line of the length of the body, an empty line, the body as text
    /// and a line feed; nothing without a body
    pub open spec fn body_text(&self) -> Seq<char> {
        if self.body@.len() == 0 {
            Seq::<char>::empty()
        } else {
            "Content-Length: "@ + decimal_nat(self.body@.len()) + "\n"@ + "\n"@ + utf8_lossy(
                self.body@,
            ) + "\n"@
        }
    }

    /// The request as text: the request line; the lines of the
    /// authorization, of the headers, of the content type and of the body,
    /// as far as the request has them; and a line feed
    pub open spec fn text(&self) -> Seq<char> {
        self.method.text() + " "@ + self.path@ + " "@ + self.http_version.text() + "\n"@
            + self.authorization_text() + headers_text(self.headers@) + self.content_type_text()
            + self.body_text() + "\n"@
    }

    /// The request as text, as a string
    pub fn to_string(&self) -> (r: String)
        ensures
            r@ == self.text(),
    {
        let mut out = String::from_str(self.method.as_str());
        out.append(" ");
        out.append(self.path.as_str());
        out.append(" ");
        out.append(self.http_version.as_str());
        out.append("\n");
        let ghost request_line = out@;
        assert(request_line =~= self.method.text() + " "@ + self.path@ + " "@
            + self.http_version.text() + "\n"@);

        match &self.authorization {
            Authorization::NoAuthorization => {},
            authorization => {
                out.append("Authorization: ");
                let text = authorization.to_string();
                out.append(text.as_str());
                out.append("\n");
            },
        }
        assert(out@ =~= request_line + self.authorization_text());
        let ghost before_headers = out@;

        let mut i: usize = 0;
        while i < self.headers.len()
            invariant
                i <= self.headers@.len(),
                out@ == before_headers + headers_text(self.headers@.take(i as int)),
            decreases self.headers@.len() - i,
        {
            let header = &self.headers[i];
            out.append(header.0.as_str());
            out.append(": ");
            out.append(header.1.as_str());
            out.append("\n");
            proof {
                let next = self.headers@.take(i + 1);
                assert(next.drop_last() =~= self.headers@.take(i as int));
                assert(next.last() == self.headers@[i as int]);
                assert(out@ =~= before_headers + headers_text(next));
            }
            i += 1;
        }
        assert(self.headers@.take(i as int) =~= self.headers@);

        match &self.content_type {
            Some(content_type) => {
                out.append("Content-Type: ");
                let text = content_type.to_string();
                out.append(text.as_str());
                out.append("\n");
            },
            None => {},
        }
        assert(out@ =~= before_headers + headers_text(self.headers@)
            + self.content_type_text());
        let ghost before_body = out@;

        if self.body.len() != 0 {
            out.append("Content-Length: ");
            push_decimal_u64(&mut out, self.body.len() as u64);
            out.append("\n");
            out.append("\n");
            let body = from_utf8_lossy(self.body.as_slice());
            out.append(body.as_str());
            out.append("\n");
        }
        assert(out@ =~= before_body + self.body_text());

        out.append("\n");
        assert(out@ =~= self.text());
        out
    }

    /// Render the request as a vector of bytes
    ///
    /// # Returns
    /// A vector of bytes, representing the request: its text in UTF-8
    pub fn render(&self) -> (r: Vec<u8>)
        ensures
            r@ == vstd::utf8::encode_utf8(self.text()),
    {
        let text = self.to_string();
        text.as_str().as_bytes_vec()
    }
}

impl From<Request> for Vec<u8> {
    fn from(req: Request) -> (r: Self)
        ensures
            r@ == vstd::utf8::encode_utf8(req.text()),
    {
        req.render()
    }
}

impl From<Request> for String {
    fn from(req: Request) -> (r: Self)
        ensures
            r@ == req.text(),
    {
        req.to_string()
    }
}

impl vstd::std_specs::convert::FromSpecImpl<Request> for Vec<u8> {
    open spec fn obeys_from_spec() -> bool {
        false
    }

    open spec fn from_spec(req: Request) -> Vec<u8> {
        arbitrary()
    }
}

impl vstd::std_specs::convert::FromSpecImpl<Request> for String {
    open spec fn obeys_from_spec() -> bool {
        false
    }

    open spec fn from_spec(req: Request) -> String {
        arbitrary()
    }
}

} // verus!
