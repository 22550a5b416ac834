//! Media types: the names that a `Content-Type` header value is made of.

use vstd::prelude::*;
use vstd::string::*;

verus! {

/// The lower-case form of `c` where `c` is an ASCII upper-case letter, else
/// `c` itself.
pub open spec fn ascii_lower(c: char) -> char {
    if 'A' <= c <= 'Z' {
        ((c as u8) + 32) as char
    } else {
        c
    }
}

/// Whether `a` and `b` are the same text but for the case of ASCII letters.
pub open spec fn eq_ignore_ascii_case(a: Seq<char>, b: Seq<char>) -> bool {
    &&& a.len() == b.len()
    &&& forall|i: int| 0 <= i < a.len() ==> ascii_lower(#[trigger] a[i]) == ascii_lower(b[i])
}

/// The lower-case form of `c` where `c` is an ASCII upper-case letter, else
/// `c` itself.
pub fn to_ascii_lower(c: char) -> (lower: char)
    ensures
        lower == ascii_lower(c),
{
    if 'A' <= c && c <= 'Z' {
        ((c as u8) + 32) as char
    } else {
        c
    }
}

/// Whether `name` and `tag` are the same text but for the case of ASCII
/// letters.
///
/// Texts of different lengths are told apart at once. Texts of one length are
/// compared character by character, and each character is found by walking
/// its text from the start: that suits names as short as a media type's.
pub fn name_is(name: &str, tag: &str) -> (same: bool)
    ensures
        same == eq_ignore_ascii_case(name@, tag@),
{
    let len = name.unicode_len();
    if len != tag.unicode_len() {
        return false;
    }
    let mut i: usize = 0;
    while i < len
        invariant
            i <= len,
            len == name@.len(),
            len == tag@.len(),
            forall|j: int| 0 <= j < i ==> ascii_lower(#[trigger] name@[j]) == ascii_lower(tag@[j]),
        decreases len - i,
    {
        if to_ascii_lower(name.get_char(i)) != to_ascii_lower(tag.get_char(i)) {
            return false;
        }
        i += 1;
    }
    true
}

/// The top-level type of every YAML media type.
pub const APPLICATION: &'static str = "application";

/// The subtype, or the structured syntax suffix, that marks a media type as
/// YAML.
pub const YAML: &'static str = "yaml";

/// The names of a media type: of `application/vnd.api+yaml; charset=utf-8`
/// the type `application`, the subtype `vnd.api` and the suffix `yaml`.
/// Parameters are not kept.
#[derive(Debug, Clone, PartialEq, Eq)]
pub struct MediaType {
    pub kind: String,
    pub subtype: String,
    pub suffix: Option<String>,
}

/// The mathematical value of a [`MediaType`].
pub struct MediaTypeView {
    pub kind: Seq<char>,
    pub subtype: Seq<char>,
    pub suffix: Option<Seq<char>>,
}

impl View for MediaType {
    type V = MediaTypeView;

    open spec fn view(&self) -> MediaTypeView {
        MediaTypeView {
            kind: self.kind@,
            subtype: self.subtype@,
            suffix: match self.suffix {
                Some(suffix) => Some(suffix@),
                None => None,
            },
        }
    }
}

impl MediaTypeView {
    /// A media type names YAML when its type is `application` and its subtype
    /// or its suffix is `yaml`, whatever the case of the letters.
    pub open spec fn is_yaml(self) -> bool {
        &&& eq_ignore_ascii_case(self.kind, APPLICATION@)
        &&& (eq_ignore_ascii_case(self.subtype, YAML@) || (self.suffix matches Some(suffix)
            && eq_ignore_ascii_case(suffix, YAML@)))
    }
}

/// What `mime` makes of `text`: the names of the media type that `text`
/// spells, or none where `text` spells no media type.
pub uninterp spec fn mime_parse(text: Seq<char>) -> Option<MediaTypeView>;

/// Parses `text` with `<mime::Mime as FromStr>::from_str` and, where that
/// succeeds, reads the names with `Mime::type_`, `Mime::subtype` and
/// `Mime::suffix`. The contract says only that the outcome is
/// [`mime_parse`] of the text: the same text always gives the same names.
#[verifier::external_body]
pub(crate) fn parse_mime(text: &str) -> (parsed: Option<MediaType>)
    ensures
        match parsed {
            Some(media) => mime_parse(text@) == Some(media@),
            None => mime_parse(text@) is None,
        },
{
    match text.parse::<mime::Mime>() {
        Ok(mime) => Some(
            MediaType {
                kind: mime.type_().as_str().to_owned(),
                subtype: mime.subtype().as_str().to_owned(),
                suffix: match mime.suffix() {
                    Some(suffix) => Some(suffix.as_str().to_owned()),
                    None => None,
                },
            },
        ),
        Err(_) => None,
    }
}

impl MediaType {
    /// Whether this media type names YAML.
    pub fn is_yaml(&self) -> (yaml: bool)
        ensures
            yaml == self@.is_yaml(),
    {
        name_is(self.kind.as_str(), APPLICATION) && (name_is(self.subtype.as_str(), YAML)
            || match &self.suffix {
            Some(suffix) => name_is(suffix.as_str(), YAML),
            None => false,
        })
    }
}

} // verus!
