//! The HTTP side of the event server: the request head (parsed by
//! `httparse`), the body length it announces, and the response text.

use vstd::prelude::*;
use vstd::string::{StringExecFns, StringSliceAdditionalSpecFns};

use crate::text::{
    decimal, decimal_spec, eq_ignore_ascii_case, eq_ignore_ascii_case_spec, parse_usize,
    parse_usize_spec,
};

verus! {

/// The head of a request: method, path and headers. `complete` holds the
/// length of the head when the parser saw all of it; it is `None` when the
/// buffer ended inside the head, and `headers` then lists every header slot.
pub struct HttpHead {
    pub method: Option<String>,
    pub path: Option<String>,
    pub headers: Vec<(String, Vec<u8>)>,
    pub complete: Option<usize>,
}

/// The request head could not be parsed.
#[derive(Clone, Copy, Debug, PartialEq, Eq, Structural)]
pub struct HeadError;

pub open spec fn opt_text(o: Option<String>) -> Option<Seq<char>> {
    match o {
        Some(s) => Some(s@),
        None => None,
    }
}

pub open spec fn headers_view(h: Seq<(String, Vec<u8>)>) -> Seq<(Seq<char>, Seq<u8>)> {
    h.map_values(|p: (String, Vec<u8>)| (p.0@, p.1@))
}

impl HttpHead {
    /// The plain value of a head.
    pub open spec fn head_view(&self) -> (Option<Seq<char>>, Option<Seq<char>>, Seq<(Seq<char>, Seq<u8>)>, Option<usize>) {
        (opt_text(self.method), opt_text(self.path), headers_view(self.headers@), self.complete)
    }
}

/// The most header slots a request head is parsed with; the slots are
/// allocated before parsing.
pub const MAX_HEADER_SLOTS: usize = 4096;

/// What `httparse::Request::parse` makes of `buf` with `max_headers` header
/// slots: method, path, headers and completion (`None` on a parse error).
pub uninterp spec fn httparse_request(buf: Seq<u8>, max_headers: usize) -> Option<(Option<Seq<char>>, Option<Seq<char>>, Seq<(Seq<char>, Seq<u8>)>, Option<usize>)>;

/// Parses a request head with `httparse::Request::parse`, into
/// `max_headers` empty header slots. The contract claims only that the
/// result is the named `httparse` outcome for these arguments, with the
/// method, path and headers copied out; what `httparse` accepts is not
/// restated.
#[verifier::external_body]
pub(crate) fn parse_head(buf: &[u8], max_headers: usize) -> (r: Result<HttpHead, HeadError>)
    requires
        max_headers <= MAX_HEADER_SLOTS,
    ensures
        match r {
            Ok(h) => httparse_request(buf@, max_headers) == Some(h.head_view()),
            Err(_) => httparse_request(buf@, max_headers) is None,
        },
{
    let mut slots = vec![httparse::EMPTY_HEADER; max_headers];
    let mut req = httparse::Request::new(&mut slots);
    let status = req.parse(buf).map_err(|_| HeadError)?;
    let complete = match status {
        httparse::Status::Complete(n) => Some(n),
        httparse::Status::Partial => None,
    };
    let headers = req.headers.iter().map(|h| (h.name.to_string(), h.value.to_vec())).collect();
    let method = req.method.map(|m| m.to_string());
    Ok(HttpHead { method, path: req.path.map(|p| p.to_string()), headers, complete })
}

/// The value of the first header named `content-length` (in any case).
pub open spec fn content_length_value(h: Seq<(Seq<char>, Seq<u8>)>) -> Option<Seq<u8>>
    decreases h.len(),
{
    if h.len() == 0 {
        None
    } else if eq_ignore_ascii_case_spec(h[0].0, "content-length"@) {
        Some(h[0].1)
    } else {
        content_length_value(h.drop_first())
    }
}

/// Why a request body could not be located.
#[derive(Clone, Copy, Debug, PartialEq, Eq, Structural)]
pub enum BodyError {
    /// No `Content-Length` header.
    MissingContentLength,
    /// The `Content-Length` value is not an unsigned decimal number.
    InvalidContentLength,
}

/// The body length announced by the first `Content-Length` header.
pub fn content_length(headers: &Vec<(String, Vec<u8>)>) -> (r: Result<usize, BodyError>)
    ensures
        match content_length_value(headers_view(headers@)) {
            None => r == Err::<usize, BodyError>(BodyError::MissingContentLength),
            Some(v) => match parse_usize_spec(v) {
                Some(n) => r == Ok::<usize, BodyError>(n),
                None => r == Err::<usize, BodyError>(BodyError::InvalidContentLength),
            },
        },
{
    let ghost hv = headers_view(headers@);
    assert(hv.skip(0) =~= hv);
    let mut i: usize = 0;
    while i < headers.len()
        invariant
            i <= headers@.len(),
            hv == headers_view(headers@),
            content_length_value(hv) == content_length_value(hv.skip(i as int)),
        decreases headers.len() - i,
    {
        proof {
            assert(hv.skip(i as int).drop_first() =~= hv.skip(i + 1));
        }
        if eq_ignore_ascii_case(headers[i].0.as_str(), "content-length") {
            return match parse_usize(headers[i].1.as_slice()) {
                Some(n) => Ok(n),
                None => Err(BodyError::InvalidContentLength),
            };
        }
        i = i + 1;
    }
    assert(hv.skip(i as int) =~= Seq::<(Seq<char>, Seq<u8>)>::empty());
    Err(BodyError::MissingContentLength)
}

/// The body: `len` bytes of `buffer` from `offset`.
pub fn body_bytes(buffer: &[u8], offset: usize, len: usize) -> (b: &[u8])
    requires
        offset + len <= buffer@.len(),
    ensures
        b@ == buffer@.subrange(offset as int, offset + len),
{
    let n = buffer.len();
    assert(offset + len <= n);
    &buffer[offset..offset + len]
}

/// Where the body of a request starts: after its head, or, when the head
/// is incomplete, at the number of header slots.
pub open spec fn body_offset_spec(head: &HttpHead) -> usize {
    match head.complete {
        Some(n) => n,
        None => head.headers@.len() as usize,
    }
}

/// The body length a head announces, when it announces a valid one.
pub open spec fn announced_length(head: &HttpHead) -> Option<usize> {
    match content_length_value(headers_view(head.headers@)) {
        Some(v) => parse_usize_spec(v),
        None => None,
    }
}

/// The body of a request: as many bytes as its `Content-Length` announces,
/// after its head. The announced body must lie within `buffer`.
pub fn request_body<'a>(head: &HttpHead, buffer: &'a [u8]) -> (r: Result<&'a [u8], BodyError>)
    requires
        announced_length(head) matches Some(n) ==> body_offset_spec(head) + n <= buffer@.len(),
    ensures
        match content_length_value(headers_view(head.headers@)) {
            None => r == Err::<&[u8], BodyError>(BodyError::MissingContentLength),
            Some(v) => match parse_usize_spec(v) {
                Some(n) => r matches Ok(b) && b@ == buffer@.subrange(
                    body_offset_spec(head) as int,
                    body_offset_spec(head) + n,
                ),
                None => r == Err::<&[u8], BodyError>(BodyError::InvalidContentLength),
            },
        },
{
    let len = content_length(&head.headers)?;
    let offset = match head.complete {
        Some(n) => n,
        None => head.headers.len(),
    };
    Ok(body_bytes(buffer, offset, len))
}

/// Status of a response.
#[derive(Clone, Copy, Debug, PartialEq, Eq, Structural)]
pub enum StatusCode {
    S200,
    S202,
    S404,
    S418,
    S500,
}

impl StatusCode {
    pub open spec fn text_spec(self) -> Seq<char> {
        match self {
            StatusCode::S200 => "200 OK"@,
            StatusCode::S202 => "202 ACCEPTED"@,
            StatusCode::S404 => "404 NOT FOUND"@,
            StatusCode::S418 => "418 I'M A TEAPOT"@,
            StatusCode::S500 => "500 INTERNAL SERVER ERROR"@,
        }
    }

    /// The status line text, e.g. `200 OK`.
    pub fn as_str(self) -> (s: &'static str)
        ensures
            s@ == self.text_spec(),
    {
        match self {
            StatusCode::S200 => "200 OK",
            StatusCode::S202 => "202 ACCEPTED",
            StatusCode::S404 => "404 NOT FOUND",
            StatusCode::S418 => "418 I'M A TEAPOT",
            StatusCode::S500 => "500 INTERNAL SERVER ERROR",
        }
    }
}

/// A full HTTP response carrying a JSON `content`, whose length in bytes
/// is announced.
pub open spec fn response_spec(status: StatusCode, content: &str) -> Seq<char> {
    "HTTP/1.1 "@ + status.text_spec() + "\r\nContent-Type: application/json\r\nContent-Length: "@
        + decimal_spec((content.spec_bytes().len() as usize) as nat) + "\r\n\r\n"@ + content@
}

/// The response text for a status and JSON content.
pub fn serialize_response(status: StatusCode, content: &str) -> (s: String)
    ensures
        s@ == response_spec(status, content),
{
    let length = content.len();
    let mut s = String::from_str("HTTP/1.1 ");
    s.append(status.as_str());
    s.append("\r\nContent-Type: application/json\r\nContent-Length: ");
    let n = decimal(length as u64);
    s.append(n.as_str());
    s.append("\r\n\r\n");
    s.append(content);
    s
}

} // verus!
