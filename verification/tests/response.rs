use axum_yaml::rejection::{
    BytesRejection, MissingYamlContentType, YamlError, YamlRejection,
    MISSING_YAML_CONTENT_TYPE_BODY, YAML_ERROR_BODY,
};
use axum_yaml::response::{
    ResponseParts, APPLICATION_YAML, INTERNAL_SERVER_ERROR, OK, TEXT_PLAIN_UTF_8,
    UNPROCESSABLE_ENTITY, UNSUPPORTED_MEDIA_TYPE,
};
use axum_yaml::yaml::encoded_response;
use axum_yaml::Yaml;
use serde::ser::{Error, Serialize, Serializer};
use std::collections::BTreeMap;

struct Unwritable;

impl Serialize for Unwritable {
    fn serialize<S: Serializer>(&self, _serializer: S) -> Result<S::Ok, S::Error> {
        Err(S::Error::custom("this value has no YAML form"))
    }
}

#[test]
fn constants_have_their_values() {
    assert_eq!(OK, 200);
    assert_eq!(UNSUPPORTED_MEDIA_TYPE, 415);
    assert_eq!(UNPROCESSABLE_ENTITY, 422);
    assert_eq!(INTERNAL_SERVER_ERROR, 500);
    assert_eq!(APPLICATION_YAML, "application/yaml");
    assert_eq!(TEXT_PLAIN_UTF_8, "text/plain; charset=utf-8");
    assert_eq!(
        YAML_ERROR_BODY,
        "Failed to deserialize the YAML body into the target type"
    );
    assert_eq!(
        MISSING_YAML_CONTENT_TYPE_BODY,
        "Expected request with `Content-Type: application/yaml`"
    );
}

#[test]
fn constants_agree_with_http_and_mime() {
    assert_eq!(OK, http::StatusCode::OK.as_u16());
    assert_eq!(UNSUPPORTED_MEDIA_TYPE, http::StatusCode::UNSUPPORTED_MEDIA_TYPE.as_u16());
    assert_eq!(UNPROCESSABLE_ENTITY, http::StatusCode::UNPROCESSABLE_ENTITY.as_u16());
    assert_eq!(INTERNAL_SERVER_ERROR, http::StatusCode::INTERNAL_SERVER_ERROR.as_u16());
    assert_eq!(TEXT_PLAIN_UTF_8, mime::TEXT_PLAIN_UTF_8.as_ref());
    assert_eq!(axum_yaml::content_type::CONTENT_TYPE, http::header::CONTENT_TYPE.as_str());
    assert_eq!(axum_yaml::media_type::APPLICATION, mime::APPLICATION.as_str());
    assert_eq!(axum_yaml::media_type::YAML, "yaml");
    assert!(http::HeaderValue::from_str(APPLICATION_YAML).is_ok());
    assert!(http::HeaderValue::from_str(TEXT_PLAIN_UTF_8).is_ok());
}

#[test]
fn serializes_a_value_into_a_yaml_response() {
    let mut user = BTreeMap::new();
    user.insert("id".to_string(), "7".to_string());
    user.insert("username".to_string(), "ferris".to_string());
    let response = Yaml(user).into_response();
    assert_eq!(response.status, 200);
    assert_eq!(response.content_type, "application/yaml");
    assert_eq!(response.body, b"id: '7'\nusername: ferris\n".to_vec());
}

#[test]
fn serializes_plain_values() {
    let response = Yaml(vec![1u8, 2, 3]).into_response();
    assert_eq!(response.status, 200);
    assert_eq!(response.content_type, "application/yaml");
    assert_eq!(response.body, b"- 1\n- 2\n- 3\n".to_vec());

    let response = Yaml("text").into_response();
    assert_eq!(response.body, b"text\n".to_vec());
}

#[test]
fn a_value_that_does_not_serialize_is_a_server_error() {
    let response = Yaml(Unwritable).into_response();
    assert_eq!(response.status, 500);
    assert_eq!(response.content_type, "text/plain; charset=utf-8");
    assert_eq!(response.body, b"this value has no YAML form".to_vec());
}

#[test]
fn response_for_each_outcome_of_the_encoder() {
    let response = encoded_response(Ok(b"foo: bar\n".to_vec()));
    assert_eq!(
        response,
        ResponseParts {
            status: 200,
            content_type: "application/yaml",
            body: b"foo: bar\n".to_vec(),
        }
    );

    let response = encoded_response(Err("no luck: \u{e9}".to_string()));
    assert_eq!(
        response,
        ResponseParts {
            status: 500,
            content_type: "text/plain; charset=utf-8",
            body: b"no luck: \xc3\xa9".to_vec(),
        }
    );

    let response = encoded_response(Ok(Vec::new()));
    assert_eq!(response.status, 200);
    assert!(response.body.is_empty());
}

#[test]
fn response_constructors() {
    let response = ResponseParts::text(404, "gone");
    assert_eq!(response.status, 404);
    assert_eq!(response.content_type, "text/plain; charset=utf-8");
    assert_eq!(response.body, b"gone".to_vec());

    let response = ResponseParts::yaml(b"a: 1\n".to_vec());
    assert_eq!(response.status, 200);
    assert_eq!(response.content_type, "application/yaml");
    assert_eq!(response.body, b"a: 1\n".to_vec());
}

#[test]
fn yaml_error_has_its_status_and_text() {
    let rejection = YamlError::new("b[0]: missing field `y`".to_string());
    assert_eq!(rejection.status(), 422);
    assert_eq!(rejection.cause(), "b[0]: missing field `y`");
    assert_eq!(
        rejection.body_text(),
        "Failed to deserialize the YAML body into the target type: b[0]: missing field `y`"
    );
    assert_eq!(
        rejection.to_string(),
        "Failed to deserialize the YAML body into the target type"
    );
    let response = rejection.into_response();
    assert_eq!(response.status, 422);
    assert_eq!(response.content_type, "text/plain; charset=utf-8");
    assert_eq!(
        response.body,
        b"Failed to deserialize the YAML body into the target type: b[0]: missing field `y`"
            .to_vec()
    );
}

#[test]
fn yaml_error_with_an_empty_cause() {
    let rejection = YamlError::new(String::new());
    assert_eq!(
        rejection.body_text(),
        "Failed to deserialize the YAML body into the target type: "
    );
}

#[test]
fn missing_content_type_has_its_status_and_text() {
    let rejection = MissingYamlContentType::default();
    assert_eq!(rejection.status(), 415);
    assert_eq!(
        rejection.body_text(),
        "Expected request with `Content-Type: application/yaml`"
    );
    assert_eq!(
        rejection.to_string(),
        "Expected request with `Content-Type: application/yaml`"
    );
    let response = rejection.into_response();
    assert_eq!(response.status, 415);
    assert_eq!(response.content_type, "text/plain; charset=utf-8");
    assert_eq!(
        response.body,
        b"Expected request with `Content-Type: application/yaml`".to_vec()
    );
}

#[test]
fn bytes_rejection_carries_what_the_transport_said() {
    let rejection = BytesRejection::new(
        400,
        "Failed to buffer the request body".to_string(),
        "Failed to buffer the request body: connection reset".to_string(),
    )
    .unwrap();
    assert_eq!(rejection.status(), 400);
    assert_eq!(
        rejection.body_text(),
        "Failed to buffer the request body: connection reset"
    );
    assert_eq!(rejection.to_string(), "Failed to buffer the request body");
    let response = rejection.into_response();
    assert_eq!(response.status, 400);
    assert_eq!(response.content_type, "text/plain; charset=utf-8");
    assert_eq!(
        response.body,
        b"Failed to buffer the request body: connection reset".to_vec()
    );
}

#[test]
fn bytes_rejection_needs_a_status_code() {
    assert!(BytesRejection::new(99, String::new(), String::new()).is_none());
    assert!(BytesRejection::new(0, String::new(), String::new()).is_none());
    assert!(BytesRejection::new(1000, String::new(), String::new()).is_none());
    assert!(BytesRejection::new(u16::MAX, String::new(), String::new()).is_none());
    assert!(BytesRejection::new(100, String::new(), String::new()).is_some());
    assert!(BytesRejection::new(999, String::new(), String::new()).is_some());
}

#[test]
fn composite_rejection_answers_for_the_rejection_inside() {
    let rejection = YamlRejection::from(YamlError::new("bad indent".to_string()));
    assert!(matches!(rejection, YamlRejection::YamlError(_)));
    assert_eq!(rejection.status(), 422);
    assert_eq!(
        rejection.body_text(),
        "Failed to deserialize the YAML body into the target type: bad indent"
    );
    assert_eq!(
        rejection.to_string(),
        "Failed to deserialize the YAML body into the target type"
    );
    let response = rejection.into_response();
    assert_eq!(response.status, 422);
    assert_eq!(
        response.body,
        b"Failed to deserialize the YAML body into the target type: bad indent".to_vec()
    );

    let rejection = YamlRejection::from(MissingYamlContentType::default());
    assert!(matches!(rejection, YamlRejection::MissingYamlContentType(_)));
    assert_eq!(rejection.status(), 415);
    assert_eq!(
        rejection.body_text(),
        "Expected request with `Content-Type: application/yaml`"
    );
    let response = rejection.into_response();
    assert_eq!(response.status, 415);
    assert_eq!(response.content_type, "text/plain; charset=utf-8");

    let inner = BytesRejection::new(413, "too long".to_string(), "too long: 3 MB".to_string());
    let rejection = YamlRejection::from(inner.unwrap());
    assert!(matches!(rejection, YamlRejection::BytesRejection(_)));
    assert_eq!(rejection.status(), 413);
    assert_eq!(rejection.body_text(), "too long: 3 MB");
    assert_eq!(rejection.to_string(), "too long");
    let response = rejection.into_response();
    assert_eq!(response.status, 413);
    assert_eq!(response.body, b"too long: 3 MB".to_vec());
}

#[test]
fn wrapper_gives_access_to_the_value() {
    let mut wrapped = Yaml::from(vec![1, 2]);
    assert_eq!(wrapped.len(), 2);
    wrapped.push(3);
    assert_eq!(wrapped.0, vec![1, 2, 3]);
    *wrapped = vec![9];
    assert_eq!(*wrapped, vec![9]);

    let copied = Yaml(5u8);
    let again = copied;
    assert_eq!(copied.0, again.0);
    assert_eq!(Yaml::<u32>::default().0, 0);
    assert_eq!(format!("{:?}", Yaml(1)), "Yaml(1)");
}
