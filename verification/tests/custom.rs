//! A custom extractor that reads a JSON header, put behind validation.

use axum::http::{HeaderMap, HeaderValue, StatusCode};
use axum_valid::{HasValidate, Reply, Valid, ValidRejection};
use validator::{Validate, ValidationError, ValidationErrors};

const MY_DATA_HEADER: &str = "My-Data";

#[derive(Debug, Clone, PartialEq)]
struct MyData {
    content: String,
}

impl Validate for MyData {
    fn validate(&self) -> Result<(), ValidationErrors> {
        let mut errors = ValidationErrors::new();
        if !validator::validate_length(self.content.as_str(), Some(1), Some(10), None) {
            errors.add("content", ValidationError::new("length"));
        }
        if errors.is_empty() {
            Ok(())
        } else {
            Err(errors)
        }
    }
}

#[derive(Debug)]
enum MyDataRejection {
    Null,
    InvalidJson(serde_json::Error),
    NoContent,
}

impl MyDataRejection {
    fn answer(self) -> (StatusCode, String) {
        match self {
            MyDataRejection::Null => {
                (StatusCode::BAD_REQUEST, String::from("My-Data header is missing"))
            }
            MyDataRejection::InvalidJson(e) => (
                StatusCode::BAD_REQUEST,
                format!("My-Data is not valid json string: {e}"),
            ),
            MyDataRejection::NoContent => (
                StatusCode::UNPROCESSABLE_ENTITY,
                String::from("My-Data has no content"),
            ),
        }
    }
}

fn extract(headers: &HeaderMap) -> Result<MyData, MyDataRejection> {
    let Some(value) = headers.get(MY_DATA_HEADER) else {
        return Err(MyDataRejection::Null);
    };
    let json: serde_json::Value =
        serde_json::from_slice(value.as_bytes()).map_err(MyDataRejection::InvalidJson)?;
    match json.get("content").and_then(|content| content.as_str()) {
        Some(content) => Ok(MyData { content: String::from(content) }),
        None => Err(MyDataRejection::NoContent),
    }
}

impl HasValidate for MyData {
    type Validate = Self;

    fn get_validate(&self) -> &Self::Validate {
        self
    }
}

fn handler(Valid(my_data): Valid<MyData>) -> StatusCode {
    match my_data.validate() {
        Ok(_) => StatusCode::OK,
        Err(_) => StatusCode::INTERNAL_SERVER_ERROR,
    }
}

fn respond(headers: &HeaderMap) -> (StatusCode, String) {
    match Valid::from_extraction(extract(headers), |data: &MyData| data.validate()) {
        Ok(valid) => (handler(valid), String::new()),
        Err(rejection) => match rejection.into_reply() {
            Reply::Text { status, body } => (StatusCode::from_u16(status).unwrap(), body),
            Reply::Inner(inner) => inner.answer(),
        },
    }
}

fn request(payload: &'static str) -> HeaderMap {
    let mut headers = HeaderMap::new();
    headers.insert(MY_DATA_HEADER, HeaderValue::from_static(payload));
    headers
}

#[test]
fn valid_my_data_reaches_the_handler() {
    let (status, body) = respond(&request(r#"{"content":"hello"}"#));
    assert_eq!(status, StatusCode::OK);
    assert_eq!(body, "");
}

#[test]
fn malformed_json_is_answered_by_the_extractor() {
    let (status, body) = respond(&request("{{}"));
    assert_eq!(status, StatusCode::BAD_REQUEST);
    assert!(body.starts_with("My-Data is not valid json string: "));
}

#[test]
fn empty_content_fails_validation_with_bad_request() {
    let (status, body) = respond(&request(r#"{"content":""}"#));
    assert_eq!(status, StatusCode::BAD_REQUEST);
    assert_eq!(body, "content: Validation error: length [{}]");
}

#[test]
fn content_over_ten_bytes_fails_validation() {
    let (status, _) = respond(&request(r#"{"content":"hello world"}"#));
    assert_eq!(status, StatusCode::BAD_REQUEST);
    let (status, _) = respond(&request(r#"{"content":"helloworld"}"#));
    assert_eq!(status, StatusCode::OK);
}

#[test]
fn missing_header_is_answered_by_the_extractor() {
    let (status, body) = respond(&HeaderMap::new());
    assert_eq!(status, StatusCode::BAD_REQUEST);
    assert_eq!(body, "My-Data header is missing");
}

#[test]
fn extractor_status_is_kept_when_it_is_not_bad_request() {
    let (status, body) = respond(&request(r#"{"other":"hello"}"#));
    assert_eq!(status, StatusCode::UNPROCESSABLE_ENTITY);
    assert_eq!(body, "My-Data has no content");
}

#[test]
fn extractor_rejection_is_wrapped_as_inner() {
    let result = Valid::from_extraction(extract(&request("{{}")), |data: &MyData| data.validate());
    assert!(matches!(
        result,
        Err(ValidRejection::Inner(MyDataRejection::InvalidJson(_)))
    ));
}

#[test]
fn validated_value_is_the_extracted_value() {
    let headers = request(r#"{"content":"hello"}"#);
    let alone = extract(&headers).unwrap();
    let Valid(wrapped) =
        Valid::from_extraction(extract(&headers), |data: &MyData| data.validate()).unwrap();
    assert_eq!(wrapped, alone);
    assert_eq!(wrapped.content, "hello");
}

#[test]
fn repeated_valid_request_gives_the_same_outcome() {
    let headers = request(r#"{"content":"hello"}"#);
    let first = respond(&headers);
    let second = respond(&headers);
    assert_eq!(first, second);
    assert_eq!(first.0, StatusCode::OK);
    let invalid = request(r#"{"content":""}"#);
    assert_eq!(respond(&invalid), respond(&invalid));
    assert_eq!(respond(&headers), first);
}
