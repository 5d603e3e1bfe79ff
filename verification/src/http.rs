//! The reply a handler produces: a status code, headers and a body.

use vstd::prelude::*;
use vstd::string::*;
use vstd::utf8::encode_utf8;

verus! {

/// An HTTP-like reply.
pub struct Response {
    pub status: u16,
    pub headers: Vec<(String, String)>,
    pub body: Vec<u8>,
}

/// The mathematical content of a [`Response`].
pub struct ResponseView {
    pub status: int,
    pub headers: Seq<(Seq<char>, Seq<char>)>,
    pub body: Seq<u8>,
}

/// The header list of a reply, as pairs of character sequences.
pub open spec fn header_views(headers: Seq<(String, String)>) -> Seq<(Seq<char>, Seq<char>)> {
    Seq::new(headers.len(), |i: int| (headers[i].0@, headers[i].1@))
}

impl View for Response {
    type V = ResponseView;

    open spec fn view(&self) -> ResponseView {
        ResponseView {
            status: self.status as int,
            headers: header_views(self.headers@),
            body: self.body@,
        }
    }
}

/// A reply with one header and the given body bytes.
pub open spec fn reply(
    status: int,
    name: Seq<char>,
    value: Seq<char>,
    body: Seq<u8>,
) -> ResponseView {
    ResponseView { status, headers: seq![(name, value)], body }
}

/// A reply whose body is the UTF-8 encoding of `text`, labelled with its content type.
pub open spec fn text_reply(status: int, content_type: Seq<char>, text: Seq<char>) -> ResponseView {
    reply(status, "content-type"@, content_type, encode_utf8(text))
}

/// A 302 redirect to `location`, with an empty body.
pub open spec fn redirect_reply(location: Seq<char>) -> ResponseView {
    reply(302, "Location"@, location, Seq::empty())
}

impl Response {
    /// Builds a reply with a single header.
    pub fn with_header(status: u16, name: &str, value: String, body: Vec<u8>) -> (r: Response)
        ensures
            r@ == reply(status as int, name@, value@, body@),
    {
        let mut headers: Vec<(String, String)> = Vec::new();
        headers.push((name.to_owned(), value));
        let r = Response { status, headers, body };
        assert(r@.headers =~= seq![(name@, value@)]);
        r
    }

    /// Builds a reply whose body is `text`, with the given content type.
    pub fn text(status: u16, content_type: &str, text: &str) -> (r: Response)
        ensures
            r@ == text_reply(status as int, content_type@, text@),
    {
        Response::with_header(status, "content-type", content_type.to_owned(), text.as_bytes_vec())
    }

    /// Builds a 302 redirect to `location`.
    pub fn redirect(location: String) -> (r: Response)
        ensures
            r@ == redirect_reply(location@),
    {
        Response::with_header(302, "Location", location, Vec::new())
    }
}

} // verus!
