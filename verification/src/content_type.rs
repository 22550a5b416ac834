//! The content-type rule: a request body is decoded as YAML only if the
//! `Content-Type` header of the request names a YAML media type.

use vstd::prelude::*;
use http::header::{HeaderMap, HeaderValue};
use crate::media_type::{mime_parse, parse_mime, MediaTypeView};

verus! {

/// `http::header::HeaderMap`: the header fields of a request or response.
#[verifier::external_type_specification]
#[verifier::external_body]
#[verifier::reject_recursive_types(T)]
pub struct ExHeaderMap<T>(HeaderMap<T>);

/// `http::header::HeaderValue`: the value of one header field.
#[verifier::external_type_specification]
#[verifier::external_body]
pub struct ExHeaderValue(HeaderValue);

/// What a header map holds: under each field name, in lower case, the
/// values of the fields of that name, in the order in which they were added.
pub uninterp spec fn header_fields(headers: HeaderMap) -> Map<Seq<char>, Seq<Seq<u8>>>;

/// The bytes of a header value.
pub uninterp spec fn header_value_bytes(value: HeaderValue) -> Seq<u8>;

/// The name of the header field that tells the media type of the body.
pub const CONTENT_TYPE: &'static str = "content-type";

/// The first value that `fields` holds under `name`, if it holds any.
pub open spec fn first_value(fields: Map<Seq<char>, Seq<Seq<u8>>>, name: Seq<char>) -> Option<
    Seq<u8>,
> {
    if fields.contains_key(name) && fields[name].len() > 0 {
        Some(fields[name][0])
    } else {
        None
    }
}

/// Whether `byte` is a visible ASCII character, a space or a tab.
pub open spec fn is_visible_ascii(byte: u8) -> bool {
    32 <= byte < 127 || byte == 9
}

/// The text that `bytes` spell, where every byte is a visible ASCII
/// character, a space or a tab; none where one is not.
pub open spec fn visible_text(bytes: Seq<u8>) -> Option<Seq<char>> {
    if forall|i: int| 0 <= i < bytes.len() ==> is_visible_ascii(#[trigger] bytes[i]) {
        Some(Seq::new(bytes.len(), |i: int| bytes[i] as char))
    } else {
        None
    }
}

/// Whether `parsed` holds the names of a YAML media type.
pub open spec fn names_yaml(parsed: Option<MediaTypeView>) -> bool {
    match parsed {
        Some(media) => media.is_yaml(),
        None => false,
    }
}

/// Whether the first `Content-Type` value among `fields` is text that spells
/// a YAML media type.
pub open spec fn accepts_yaml(fields: Map<Seq<char>, Seq<Seq<u8>>>) -> bool {
    match first_value(fields, CONTENT_TYPE@) {
        Some(bytes) => match visible_text(bytes) {
            Some(text) => names_yaml(mime_parse(text)),
            None => false,
        },
        None => false,
    }
}

/// `HeaderMap::get` with the key `http::header::CONTENT_TYPE`: the first
/// value that the map holds under `content-type`, none if it holds no such
/// field.
#[verifier::external_body]
fn content_type_value(headers: &HeaderMap) -> (value: Option<&HeaderValue>)
    ensures
        match value {
            Some(v) => first_value(header_fields(*headers), CONTENT_TYPE@) == Some(
                header_value_bytes(*v),
            ),
            None => first_value(header_fields(*headers), CONTENT_TYPE@) is None,
        },
{
    headers.get(http::header::CONTENT_TYPE)
}

/// `HeaderValue::to_str`: the value as text, where each of its bytes is a
/// visible ASCII character, a space or a tab; none where one is not. The
/// text has one character for each byte.
#[verifier::external_body]
fn header_text(value: &HeaderValue) -> (text: Option<&str>)
    ensures
        match text {
            Some(s) => visible_text(header_value_bytes(*value)) == Some(s@),
            None => visible_text(header_value_bytes(*value)) is None,
        },
{
    value.to_str().ok()
}

/// Whether `text`, the value of a `Content-Type` header, spells a YAML media
/// type: `application/yaml`, or an `application` type with the suffix
/// `+yaml`, with or without parameters.
pub fn is_yaml_content_type(text: &str) -> (yaml: bool)
    ensures
        yaml == names_yaml(mime_parse(text@)),
{
    match parse_mime(text) {
        Some(media) => media.is_yaml(),
        None => false,
    }
}

/// Whether `headers` announce a YAML body: whether their first
/// `Content-Type` value is text that spells a YAML media type.
pub fn yaml_content_type(headers: &HeaderMap) -> (accepted: bool)
    ensures
        accepted == accepts_yaml(header_fields(*headers)),
{
    let Some(content_type) = content_type_value(headers) else {
        return false;
    };
    let Some(content_type) = header_text(content_type) else {
        return false;
    };
    is_yaml_content_type(content_type)
}

} // verus!
