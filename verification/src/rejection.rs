//! Rejections: the reasons for which a request is not turned into a value,
//! each with its status code and its message.

use vstd::prelude::*;
use vstd::string::*;
use vstd::std_specs::convert::FromSpecImpl;
use crate::response::{
    is_status_code, ResponseParts, ResponsePartsView, UNPROCESSABLE_ENTITY,
    UNSUPPORTED_MEDIA_TYPE,
};

verus! {

/// What every [`YamlError`] says, before the text of its cause.
pub const YAML_ERROR_BODY: &'static str =
    "Failed to deserialize the YAML body into the target type";

/// What a [`MissingYamlContentType`] says.
pub const MISSING_YAML_CONTENT_TYPE_BODY: &'static str =
    "Expected request with `Content-Type: application/yaml`";

/// Rejection used when the request body is not syntactically valid YAML or
/// cannot be deserialized into the target type.
///
/// It keeps the text of the deserializer's error, which names the place in
/// the document where the deserializer gave up.
#[derive(Debug)]
pub struct YamlError {
    cause: String,
}

impl View for YamlError {
    type V = Seq<char>;

    /// The text of the deserializer's error.
    closed spec fn view(&self) -> Seq<char> {
        self.cause@
    }
}

impl YamlError {
    /// The rejection for a deserializer error that reads `cause`.
    pub fn new(cause: String) -> (rejection: YamlError)
        ensures
            rejection@ == cause@,
    {
        YamlError { cause }
    }

    /// The text of the deserializer's error.
    pub fn cause(&self) -> (cause: &str)
        ensures
            cause@ == self@,
    {
        self.cause.as_str()
    }

    /// The body text of this rejection: [`YAML_ERROR_BODY`], a colon and a
    /// space, then the cause.
    pub open spec fn spec_body_text(&self) -> Seq<char> {
        YAML_ERROR_BODY@ + ": "@ + self@
    }

    /// Get the response body text used for this rejection.
    pub fn body_text(&self) -> (text: String)
        ensures
            text@ == self.spec_body_text(),
    {
        let mut text = String::from_str(YAML_ERROR_BODY);
        text.append(": ");
        text.append(self.cause.as_str());
        text
    }

    /// Get the status code used for this rejection.
    pub fn status(&self) -> (status: u16)
        ensures
            status == UNPROCESSABLE_ENTITY,
    {
        UNPROCESSABLE_ENTITY
    }

    /// What this rejection displays as: [`YAML_ERROR_BODY`], without the cause.
    pub fn to_string(&self) -> (text: String)
        ensures
            text@ == YAML_ERROR_BODY@,
    {
        String::from_str(YAML_ERROR_BODY)
    }

    /// The response that reports this rejection to the client.
    pub fn into_response(self) -> (response: ResponseParts)
        ensures
            response@ == ResponsePartsView::text(UNPROCESSABLE_ENTITY, self.spec_body_text()),
            response.wf(),
    {
        let text = self.body_text();
        ResponseParts::text(self.status(), text.as_str())
    }
}

/// Rejection used when the `Content-Type` header is missing or does not name
/// YAML.
#[derive(Debug)]
#[non_exhaustive]
pub struct MissingYamlContentType;

impl MissingYamlContentType {
    /// Get the response body text used for this rejection.
    pub fn body_text(&self) -> (text: String)
        ensures
            text@ == MISSING_YAML_CONTENT_TYPE_BODY@,
    {
        String::from_str(MISSING_YAML_CONTENT_TYPE_BODY)
    }

    /// Get the status code used for this rejection.
    pub fn status(&self) -> (status: u16)
        ensures
            status == UNSUPPORTED_MEDIA_TYPE,
    {
        UNSUPPORTED_MEDIA_TYPE
    }

    /// What this rejection displays as: its body text.
    pub fn to_string(&self) -> (text: String)
        ensures
            text@ == MISSING_YAML_CONTENT_TYPE_BODY@,
    {
        String::from_str(MISSING_YAML_CONTENT_TYPE_BODY)
    }

    /// The response that reports this rejection to the client.
    pub fn into_response(self) -> (response: ResponseParts)
        ensures
            response@ == ResponsePartsView::text(
                UNSUPPORTED_MEDIA_TYPE,
                MISSING_YAML_CONTENT_TYPE_BODY@,
            ),
            response.wf(),
    {
        ResponseParts::text(UNSUPPORTED_MEDIA_TYPE, MISSING_YAML_CONTENT_TYPE_BODY)
    }
}

impl Default for MissingYamlContentType {
    fn default() -> (rejection: MissingYamlContentType)
        ensures
            rejection == MissingYamlContentType,
    {
        MissingYamlContentType
    }
}

/// Rejection used when the transport could not buffer the request body, for
/// instance because the body is longer than the limit or the connection
/// broke.
///
/// The transport decides the status code and both texts; this type carries
/// them.
#[derive(Debug)]
pub struct BytesRejection {
    status: u16,
    summary: String,
    body_text: String,
}

/// The mathematical value of a [`BytesRejection`].
pub struct BytesRejectionView {
    pub status: u16,
    pub summary: Seq<char>,
    pub body_text: Seq<char>,
}

impl View for BytesRejection {
    type V = BytesRejectionView;

    closed spec fn view(&self) -> BytesRejectionView {
        BytesRejectionView {
            status: self.status,
            summary: self.summary@,
            body_text: self.body_text@,
        }
    }
}

impl BytesRejection {
    #[verifier::type_invariant]
    spec fn status_in_range(self) -> bool {
        is_status_code(self.status)
    }

    /// The rejection that the transport reports with `status`, displays as
    /// `summary` and explains to the client with `body_text`; none if `status`
    /// is no HTTP status code.
    pub fn new(status: u16, summary: String, body_text: String) -> (rejection: Option<
        BytesRejection,
    >)
        ensures
            rejection is Some <==> is_status_code(status),
            rejection matches Some(r) ==> r@ == (BytesRejectionView {
                status,
                summary: summary@,
                body_text: body_text@,
            }),
    {
        if 100 <= status && status <= 999 {
            Some(BytesRejection { status, summary, body_text })
        } else {
            None
        }
    }

    /// Get the response body text used for this rejection.
    pub fn body_text(&self) -> (text: String)
        ensures
            text@ == self@.body_text,
    {
        self.body_text.clone()
    }

    /// Get the status code used for this rejection.
    pub fn status(&self) -> (status: u16)
        ensures
            status == self@.status,
            is_status_code(status),
    {
        proof {
            use_type_invariant(self);
        }
        self.status
    }

    /// What this rejection displays as.
    pub fn to_string(&self) -> (text: String)
        ensures
            text@ == self@.summary,
    {
        self.summary.clone()
    }

    /// The response that reports this rejection to the client.
    pub fn into_response(self) -> (response: ResponseParts)
        ensures
            response@ == ResponsePartsView::text(self@.status, self@.body_text),
            response.wf(),
    {
        ResponseParts::text(self.status(), self.body_text.as_str())
    }
}

/// Every reason for which the YAML extractor rejects a request.
#[derive(Debug)]
#[non_exhaustive]
pub enum YamlRejection {
    YamlError(YamlError),
    MissingYamlContentType(MissingYamlContentType),
    BytesRejection(BytesRejection),
}

impl YamlRejection {
    /// The status code of this rejection: that of the rejection inside.
    pub open spec fn spec_status(&self) -> u16 {
        match self {
            YamlRejection::YamlError(_) => UNPROCESSABLE_ENTITY,
            YamlRejection::MissingYamlContentType(_) => UNSUPPORTED_MEDIA_TYPE,
            YamlRejection::BytesRejection(inner) => inner@.status,
        }
    }

    /// The body text of this rejection: that of the rejection inside.
    pub open spec fn spec_body_text(&self) -> Seq<char> {
        match self {
            YamlRejection::YamlError(inner) => inner.spec_body_text(),
            YamlRejection::MissingYamlContentType(_) => MISSING_YAML_CONTENT_TYPE_BODY@,
            YamlRejection::BytesRejection(inner) => inner@.body_text,
        }
    }

    /// What this rejection displays as: what the rejection inside displays as.
    pub open spec fn spec_to_string(&self) -> Seq<char> {
        match self {
            YamlRejection::YamlError(_) => YAML_ERROR_BODY@,
            YamlRejection::MissingYamlContentType(_) => MISSING_YAML_CONTENT_TYPE_BODY@,
            YamlRejection::BytesRejection(inner) => inner@.summary,
        }
    }

    /// Get the response body text used for this rejection.
    pub fn body_text(&self) -> (text: String)
        ensures
            text@ == self.spec_body_text(),
    {
        match self {
            YamlRejection::YamlError(inner) => inner.body_text(),
            YamlRejection::MissingYamlContentType(inner) => inner.body_text(),
            YamlRejection::BytesRejection(inner) => inner.body_text(),
        }
    }

    /// Get the status code used for this rejection.
    pub fn status(&self) -> (status: u16)
        ensures
            status == self.spec_status(),
            is_status_code(status),
    {
        match self {
            YamlRejection::YamlError(inner) => inner.status(),
            YamlRejection::MissingYamlContentType(inner) => inner.status(),
            YamlRejection::BytesRejection(inner) => inner.status(),
        }
    }

    /// What this rejection displays as.
    pub fn to_string(&self) -> (text: String)
        ensures
            text@ == self.spec_to_string(),
    {
        match self {
            YamlRejection::YamlError(inner) => inner.to_string(),
            YamlRejection::MissingYamlContentType(inner) => inner.to_string(),
            YamlRejection::BytesRejection(inner) => inner.to_string(),
        }
    }

    /// The response that reports this rejection to the client: its status
    /// code, and its body text as plain text.
    pub fn into_response(self) -> (response: ResponseParts)
        ensures
            response@ == ResponsePartsView::text(self.spec_status(), self.spec_body_text()),
            response.wf(),
    {
        match self {
            YamlRejection::YamlError(inner) => inner.into_response(),
            YamlRejection::MissingYamlContentType(inner) => inner.into_response(),
            YamlRejection::BytesRejection(inner) => inner.into_response(),
        }
    }
}

impl From<YamlError> for YamlRejection {
    fn from(inner: YamlError) -> (rejection: YamlRejection) {
        YamlRejection::YamlError(inner)
    }
}

impl FromSpecImpl<YamlError> for YamlRejection {
    open spec fn obeys_from_spec() -> bool {
        true
    }

    open spec fn from_spec(inner: YamlError) -> YamlRejection {
        YamlRejection::YamlError(inner)
    }
}

impl From<MissingYamlContentType> for YamlRejection {
    fn from(inner: MissingYamlContentType) -> (rejection: YamlRejection) {
        YamlRejection::MissingYamlContentType(inner)
    }
}

impl FromSpecImpl<MissingYamlContentType> for YamlRejection {
    open spec fn obeys_from_spec() -> bool {
        true
    }

    open spec fn from_spec(inner: MissingYamlContentType) -> YamlRejection {
        YamlRejection::MissingYamlContentType(inner)
    }
}

impl From<BytesRejection> for YamlRejection {
    fn from(inner: BytesRejection) -> (rejection: YamlRejection) {
        YamlRejection::BytesRejection(inner)
    }
}

impl FromSpecImpl<BytesRejection> for YamlRejection {
    open spec fn obeys_from_spec() -> bool {
        true
    }

    open spec fn from_spec(inner: BytesRejection) -> YamlRejection {
        YamlRejection::BytesRejection(inner)
    }
}

} // verus!
