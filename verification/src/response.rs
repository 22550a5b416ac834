//! Status codes, content types and the plain parts of an HTTP response.

use vstd::prelude::*;
use vstd::string::*;
use vstd::utf8::encode_utf8;

verus! {

/// 200 OK
pub const OK: u16 = 200;

/// 415 Unsupported Media Type
pub const UNSUPPORTED_MEDIA_TYPE: u16 = 415;

/// 422 Unprocessable Entity
pub const UNPROCESSABLE_ENTITY: u16 = 422;

/// 500 Internal Server Error
pub const INTERNAL_SERVER_ERROR: u16 = 500;

/// The content type of a YAML body.
pub const APPLICATION_YAML: &'static str = "application/yaml";

/// The content type of a plain text body.
pub const TEXT_PLAIN_UTF_8: &'static str = "text/plain; charset=utf-8";

/// Whether `code` lies in the range that HTTP gives to status codes.
pub open spec fn is_status_code(code: u16) -> bool {
    100 <= code <= 999
}

/// What a handler hands to the transport: a status code, the value of the
/// `Content-Type` header and the bytes of the body.
#[derive(Debug, Clone, PartialEq, Eq)]
pub struct ResponseParts {
    pub status: u16,
    pub content_type: &'static str,
    pub body: Vec<u8>,
}

/// The mathematical value of a [`ResponseParts`].
pub struct ResponsePartsView {
    pub status: u16,
    pub content_type: Seq<char>,
    pub body: Seq<u8>,
}

impl View for ResponseParts {
    type V = ResponsePartsView;

    open spec fn view(&self) -> ResponsePartsView {
        ResponsePartsView {
            status: self.status,
            content_type: self.content_type@,
            body: self.body@,
        }
    }
}

impl ResponsePartsView {
    /// The response with `status` whose body is `text`, sent as plain text.
    pub open spec fn text(status: u16, text: Seq<char>) -> ResponsePartsView {
        ResponsePartsView {
            status,
            content_type: TEXT_PLAIN_UTF_8@,
            body: encode_utf8(text),
        }
    }

    /// The successful response whose body is the YAML document `body`.
    pub open spec fn yaml(body: Seq<u8>) -> ResponsePartsView {
        ResponsePartsView { status: OK, content_type: APPLICATION_YAML@, body }
    }
}

impl ResponseParts {
    /// A response is well formed when its status is an HTTP status code.
    pub open spec fn wf(&self) -> bool {
        is_status_code(self.status)
    }

    /// The response with `status` whose body is the UTF-8 encoding of `text`,
    /// sent as plain text. It is well formed if `status` is a status code.
    pub fn text(status: u16, text: &str) -> (response: ResponseParts)
        ensures
            response@ == ResponsePartsView::text(status, text@),
            response.wf() == is_status_code(status),
    {
        ResponseParts { status, content_type: TEXT_PLAIN_UTF_8, body: text.as_bytes_vec() }
    }

    /// The successful response whose body is the YAML document `body`.
    pub fn yaml(body: Vec<u8>) -> (response: ResponseParts)
        ensures
            response@ == ResponsePartsView::yaml(body@),
            response.wf(),
    {
        ResponseParts { status: OK, content_type: APPLICATION_YAML, body }
    }
}

} // verus!
