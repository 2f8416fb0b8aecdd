//! Responses: status, headers and body as plain values, and the headers that
//! every served asset carries.

use vstd::prelude::*;
use vstd::string::*;

verus! {

/// Status of a served body.
pub const STATUS_OK: u16 = 200;

/// Status of an answer to a conditional request whose validator matched.
pub const STATUS_NOT_MODIFIED: u16 = 304;

/// Status when the origin does not know the identifier.
pub const STATUS_NOT_FOUND: u16 = 404;

/// Status when the fetched bytes are no image that can be decoded.
pub const STATUS_UNSUPPORTED_MEDIA_TYPE: u16 = 415;

/// Status when the resized picture could not be encoded.
pub const STATUS_INTERNAL_ERROR: u16 = 500;

/// Status when the origin could not be reached or answered with a failure.
pub const STATUS_BAD_GATEWAY: u16 = 502;

/// A response: the status code, the headers in order, and the body.
#[derive(Debug)]
pub struct Response {
    pub status: u16,
    pub headers: Vec<(String, String)>,
    pub body: Vec<u8>,
}

/// A response as mathematical values.
pub struct ResponseView {
    pub status: u16,
    pub headers: Seq<(Seq<char>, Seq<char>)>,
    pub body: Seq<u8>,
}

/// Header pairs as pairs of character sequences.
pub open spec fn header_views(headers: Seq<(String, String)>) -> Seq<(Seq<char>, Seq<char>)> {
    Seq::new(headers.len(), |i: int| (headers[i].0@, headers[i].1@))
}

impl View for Response {
    type V = ResponseView;

    open spec fn view(&self) -> ResponseView {
        ResponseView {
            status: self.status,
            headers: header_views(self.headers@),
            body: self.body@,
        }
    }
}

/// The value of a request header that may be absent, as characters.
pub open spec fn header_value(header: Option<&str>) -> Option<Seq<char>> {
    match header {
        Some(h) => Some(h@),
        None => None,
    }
}

/// The four headers of a served asset: the media type, the caching
/// directives, the validator, and the origin URL or `-` where none applies.
pub open spec fn common_headers(etag: Seq<char>, src: Option<Seq<char>>) -> Seq<
    (Seq<char>, Seq<char>),
> {
    seq![
        ("content-type"@, "image/webp"@),
        ("cache-control"@, "public, max-age=86400, stale-while-revalidate=600"@),
        ("etag"@, etag),
        (
            "x-source-url"@,
            match src {
                Some(url) => url,
                None => "-"@,
            },
        ),
    ]
}

/// The one header of a plain-text answer.
pub open spec fn text_headers() -> Seq<(Seq<char>, Seq<char>)> {
    seq![("content-type"@, "text/plain; charset=utf-8"@)]
}

/// A plain-text answer with the given status.
pub open spec fn text_response(status: u16, text: Seq<char>) -> ResponseView {
    ResponseView { status, headers: text_headers(), body: vstd::utf8::encode_utf8(text) }
}

/// Builds the headers of a served asset from its validator and, where one
/// applies, the origin URL.
pub fn with_common_headers(etag: String, src: Option<&str>) -> (headers: Vec<(String, String)>)
    ensures
        header_views(headers@) == common_headers(etag@, header_value(src)),
{
    let source: String = match src {
        Some(url) => String::from_str(url),
        None => String::from_str("-"),
    };
    let mut headers: Vec<(String, String)> = Vec::new();
    headers.push((String::from_str("content-type"), String::from_str("image/webp")));
    headers.push(
        (
            String::from_str("cache-control"),
            String::from_str("public, max-age=86400, stale-while-revalidate=600"),
        ),
    );
    headers.push((String::from_str("etag"), etag));
    headers.push((String::from_str("x-source-url"), source));
    assert(header_views(headers@) =~= common_headers(etag@, header_value(src)));
    headers
}

/// Builds a plain-text answer.
pub fn text_answer(status: u16, text: &str) -> (response: Response)
    ensures
        response@ == text_response(status, text@),
{
    let mut headers: Vec<(String, String)> = Vec::new();
    headers.push((String::from_str("content-type"), String::from_str("text/plain; charset=utf-8")));
    assert(header_views(headers@) =~= text_headers());
    Response { status, headers, body: text.as_bytes_vec() }
}

} // verus!
