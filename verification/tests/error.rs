use speedrun_com_api::error::{describe_status, Error, JsonError, TransportError};
use speedrun_com_api::status::StatusCode;

fn status(code: u16) -> StatusCode {
    StatusCode::from_u16(code).unwrap()
}

#[test]
fn api_error_is_described_by_its_message() {
    let error = Error::Api { status: status(404), message: "bad game id".to_string() };
    assert_eq!(error.description(), "bad game id");
}

#[test]
fn status_error_is_described_by_its_reason() {
    assert_eq!(
        Error::Status { status: status(404) }.description(),
        "HTTP Status Code: Not Found"
    );
    assert_eq!(
        Error::Status { status: status(500) }.description(),
        "HTTP Status Code: Internal Server Error"
    );
    assert_eq!(
        Error::Status { status: status(429) }.description(),
        "HTTP Status Code: Too Many Requests"
    );
}

#[test]
fn status_without_a_reason_is_described_by_its_number() {
    assert_eq!(Error::Status { status: status(799) }.description(), "HTTP Status Code: 799");
    assert_eq!(Error::Status { status: status(420) }.description(), "HTTP Status Code: 420");
    assert_eq!(Error::Status { status: status(100) }.description(), "HTTP Status Code: Continue");
    assert_eq!(Error::Status { status: status(999) }.description(), "HTTP Status Code: 999");
}

#[test]
fn transport_and_json_errors_have_fixed_descriptions() {
    let lost = Error::Response { source: TransportError { message: "reset".to_string() } };
    assert_eq!(lost.description(), "Failed receiving the response from speedrun.com.");
    let malformed = Error::Json {
        source: JsonError { message: "expected value".to_string(), line: 1, column: 1 },
    };
    assert_eq!(malformed.description(), "Failed parsing the response from speedrun.com.");
}

#[test]
fn canonical_reason_comes_from_the_http_crate() {
    assert_eq!(status(200).canonical_reason(), Some("OK"));
    assert_eq!(status(404).canonical_reason(), Some("Not Found"));
    assert_eq!(status(599).canonical_reason(), None);
}

#[test]
fn status_as_text_is_its_number() {
    assert_eq!(status(100).as_str(), "100");
    assert_eq!(status(404).as_str(), "404");
    assert_eq!(status(999).as_str(), "999");
}

#[test]
fn status_in_words() {
    assert_eq!(describe_status(Some("Not Found"), "404"), "HTTP Status Code: Not Found");
    assert_eq!(describe_status(None, "799"), "HTTP Status Code: 799");
    assert_eq!(describe_status(Some(""), "200"), "HTTP Status Code: ");
}
