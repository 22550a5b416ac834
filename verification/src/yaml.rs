//! The [`Yaml`] wrapper: a value decoded from a YAML request body, or to be
//! encoded as a YAML response body.

use vstd::prelude::*;
use vstd::std_specs::convert::FromSpecImpl;
use http::header::HeaderMap;
use serde::de::DeserializeOwned;
use serde::Serialize;
use crate::content_type::{accepts_yaml, header_fields, yaml_content_type};
use crate::rejection::{BytesRejection, MissingYamlContentType, YamlError, YamlRejection};
use crate::response::{ResponseParts, ResponsePartsView, INTERNAL_SERVER_ERROR};

verus! {

/// YAML extractor and response.
///
/// As an extractor it holds the value that the request body was deserialized
/// into; the request is rejected if its `Content-Type` header does not name
/// YAML, if the body cannot be buffered or if the body cannot be
/// deserialized into `T`.
///
/// As a response it serializes the value it holds to YAML and announces the
/// body as `application/yaml`.
#[derive(Debug, Clone, Copy, Default)]
pub struct Yaml<T>(pub T);

impl<T> std::ops::Deref for Yaml<T> {
    type Target = T;

    #[inline]
    fn deref(&self) -> (inner: &T)
        ensures
            *inner == self.0,
    {
        &self.0
    }
}

impl<T> std::ops::DerefMut for Yaml<T> {
    #[inline]
    fn deref_mut(&mut self) -> (inner: &mut T)
        ensures
            *inner == old(self).0,
            final(self).0 == *final(inner),
    {
        &mut self.0
    }
}

impl<T> From<T> for Yaml<T> {
    fn from(inner: T) -> (wrapped: Yaml<T>) {
        Yaml(inner)
    }
}

impl<T> FromSpecImpl<T> for Yaml<T> {
    open spec fn obeys_from_spec() -> bool {
        true
    }

    open spec fn from_spec(inner: T) -> Yaml<T> {
        Yaml(inner)
    }
}

/// `serde_path_to_error::Error`: a deserializer's error together with the
/// path in the document at which it occurred.
#[verifier::external_type_specification]
#[verifier::external_body]
#[verifier::reject_recursive_types(E)]
pub struct ExPathError<E>(serde_path_to_error::Error<E>);

/// `serde_yaml::Error`: why a YAML document could not be read or written.
#[verifier::external_type_specification]
#[verifier::external_body]
pub struct ExYamlError(serde_yaml::Error);

/// `serde_path_to_error::deserialize` on `serde_yaml::Deserializer::from_slice`:
/// reads `bytes` as a YAML document and deserializes it into a `T`. What
/// comes back is decided by the document and by how `T` deserializes, so the
/// contract promises nothing.
#[verifier::external_body]
fn deserialize<T: DeserializeOwned>(bytes: &[u8]) -> (decoded: Result<
    T,
    serde_path_to_error::Error<serde_yaml::Error>,
>) {
    serde_path_to_error::deserialize(serde_yaml::Deserializer::from_slice(bytes))
}

/// `serde_yaml::to_writer` into a fresh `bytes::BytesMut`: the YAML document
/// that `value` serializes to. What comes back is decided by how `T`
/// serializes, so the contract promises nothing.
#[verifier::external_body]
fn serialize<T: Serialize>(value: &T) -> (encoded: Result<Vec<u8>, serde_yaml::Error>) {
    let mut buf = bytes::BufMut::writer(bytes::BytesMut::with_capacity(128));
    match serde_yaml::to_writer(&mut buf, value) {
        Ok(()) => Ok(Vec::from(buf.into_inner())),
        Err(err) => Err(err),
    }
}

/// What the decoder's outcome becomes: the value, wrapped; or the rejection
/// that keeps the text of the decoder's error.
pub open spec fn decoded_as<T>(
    decoded: Result<T, Seq<char>>,
    outcome: Result<Yaml<T>, YamlRejection>,
) -> bool {
    match decoded {
        Ok(value) => outcome == Ok::<Yaml<T>, YamlRejection>(Yaml(value)),
        Err(cause) => outcome matches Err(YamlRejection::YamlError(rejection)) && rejection@
            == cause,
    }
}

/// The response for the encoder's outcome: the document as a YAML body; or
/// status 500 with the text of the encoder's error as a plain text body.
pub open spec fn encoded_as(encoded: Result<Seq<u8>, Seq<char>>) -> ResponsePartsView {
    match encoded {
        Ok(body) => ResponsePartsView::yaml(body),
        Err(cause) => ResponsePartsView::text(INTERNAL_SERVER_ERROR, cause),
    }
}

/// What is decided before the body is read: the request passes if `headers`
/// announce a YAML body, and is rejected with [`MissingYamlContentType`] if
/// they do not.
pub fn require_yaml_content_type(headers: &HeaderMap) -> (verdict: Result<(), YamlRejection>)
    ensures
        verdict is Ok <==> accepts_yaml(header_fields(*headers)),
        verdict matches Err(rejection) ==> rejection is MissingYamlContentType,
{
    if yaml_content_type(headers) {
        Ok(())
    } else {
        Err(YamlRejection::MissingYamlContentType(MissingYamlContentType::default()))
    }
}

impl<T> Yaml<T> {
    /// Wraps the decoder's outcome: the value on success, else a
    /// [`YamlError`] that keeps the text of the decoder's error.
    pub fn from_decoded(decoded: Result<T, String>) -> (outcome: Result<Yaml<T>, YamlRejection>)
        ensures
            decoded_as(
                match decoded {
                    Ok(value) => Ok(value),
                    Err(cause) => Err(cause@),
                },
                outcome,
            ),
    {
        match decoded {
            Ok(value) => Ok(Yaml(value)),
            Err(cause) => Err(YamlRejection::YamlError(YamlError::new(cause))),
        }
    }
}

impl<T: DeserializeOwned> Yaml<T> {
    /// Construct a `Yaml<T>` from a byte slice that holds a YAML document.
    ///
    /// Whether the bytes deserialize is for the YAML parser and for `T` to
    /// say. Whatever they say, a failure is reported as a [`YamlError`].
    pub fn from_bytes(bytes: &[u8]) -> (outcome: Result<Yaml<T>, YamlRejection>)
        ensures
            outcome matches Err(rejection) ==> rejection is YamlError,
    {
        let decoded = match deserialize::<T>(bytes) {
            Ok(value) => Ok(value),
            Err(err) => Err(err.to_string()),
        };
        Yaml::from_decoded(decoded)
    }

    /// What follows once the content type has passed: `body` is what
    /// buffering the request body gave.
    /// A failure to buffer is passed on as it is; a buffered body is decoded
    /// with [`Yaml::from_bytes`].
    pub fn from_body(body: Result<&[u8], BytesRejection>) -> (outcome: Result<
        Yaml<T>,
        YamlRejection,
    >)
        ensures
            match body {
                Ok(_) => outcome matches Err(rejection) ==> rejection is YamlError,
                Err(rejection) => outcome == Err::<Yaml<T>, YamlRejection>(
                    YamlRejection::BytesRejection(rejection),
                ),
            },
    {
        match body {
            Ok(bytes) => Yaml::from_bytes(bytes),
            Err(rejection) => Err(YamlRejection::BytesRejection(rejection)),
        }
    }
}

/// The response for the encoder's outcome: the document as a YAML body; or
/// status 500 with the text of the encoder's error as a plain text body.
pub fn encoded_response(encoded: Result<Vec<u8>, String>) -> (response: ResponseParts)
    ensures
        response@ == encoded_as(
            match encoded {
                Ok(body) => Ok(body@),
                Err(cause) => Err(cause@),
            },
        ),
        response.wf(),
{
    match encoded {
        Ok(body) => ResponseParts::yaml(body),
        Err(cause) => ResponseParts::text(INTERNAL_SERVER_ERROR, cause.as_str()),
    }
}

impl<T: Serialize> Yaml<T> {
    /// Serializes the value to YAML and builds the response.
    ///
    /// Whether the value serializes is for `T` to say. If it does, the
    /// response is the document with status 200 and content type
    /// `application/yaml`; if it does not, status 500 and the error's text as
    /// plain text.
    pub fn into_response(self) -> (response: ResponseParts)
        ensures
            exists|encoded: Result<Seq<u8>, Seq<char>>| response@ == encoded_as(encoded),
            response.wf(),
    {
        let encoded = match serialize(&self.0) {
            Ok(body) => Ok(body),
            Err(err) => Err(err.to_string()),
        };
        encoded_response(encoded)
    }
}

} // verus!
