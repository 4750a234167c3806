use speedrun_com_api::cursor::{Action, Cursor};
use speedrun_com_api::error::{Error, JsonError, TransportError};
use speedrun_com_api::page::{Page, Pagination, PaginationLink};
use speedrun_com_api::response::{
    decode_failure, decode_single, decode_success, expected_body, ApiError, Body, Data, Expect,
};
use speedrun_com_api::status::StatusCode;

fn status(code: u16) -> StatusCode {
    StatusCode::from_u16(code).unwrap()
}

fn json_error(error: serde_json::Error) -> JsonError {
    JsonError { message: error.to_string(), line: error.line(), column: error.column() }
}

fn shape_error(what: &str) -> JsonError {
    JsonError { message: what.to_string(), line: 0, column: 0 }
}

/// Reads the message of the service out of a body, as a caller does.
fn read_message(body: &str) -> Body<ApiError> {
    match serde_json::from_str::<serde_json::Value>(body) {
        Ok(value) => match value.get("message").and_then(|message| message.as_str()) {
            Some(message) => Body::Decoded(ApiError { message: message.to_string() }),
            None => Body::Malformed(shape_error("missing field `message`")),
        },
        Err(error) => Body::Malformed(json_error(error)),
    }
}

/// Reads a single resource with an identifier out of a body.
fn read_single(body: &str) -> Body<Data<String>> {
    match serde_json::from_str::<serde_json::Value>(body) {
        Ok(value) => match value.get("data").and_then(|data| data.get("id")).and_then(|id| id.as_str()) {
            Some(id) => Body::Decoded(Data { data: id.to_string() }),
            None => Body::Malformed(shape_error("missing field `data`")),
        },
        Err(error) => Body::Malformed(json_error(error)),
    }
}

fn read_link(value: &serde_json::Value) -> Option<PaginationLink> {
    let uri = value.get("uri")?.as_str()?.to_string();
    match value.get("rel")?.as_str()? {
        "next" => Some(PaginationLink::Next { uri }),
        "prev" => Some(PaginationLink::Previous { uri }),
        _ => None,
    }
}

fn read_page_value(value: &serde_json::Value) -> Option<Page<String>> {
    let mut data = Vec::new();
    for item in value.get("data")?.as_array()? {
        data.push(item.as_str()?.to_string());
    }
    let pagination = value.get("pagination")?;
    let mut links = Vec::new();
    for link in pagination.get("links")?.as_array()? {
        links.push(read_link(link)?);
    }
    Some(Page {
        data,
        pagination: Pagination {
            offset: pagination.get("offset")?.as_u64()?,
            max: pagination.get("max")?.as_u64()?,
            size: pagination.get("size")?.as_u64()?,
            links,
        },
    })
}

/// Reads a page of strings out of a body.
fn read_page(body: &str) -> Body<Page<String>> {
    match serde_json::from_str::<serde_json::Value>(body) {
        Ok(value) => match read_page_value(&value) {
            Some(page) => Body::Decoded(page),
            None => Body::Malformed(shape_error("not a page")),
        },
        Err(error) => Body::Malformed(json_error(error)),
    }
}

#[test]
fn body_of_a_success_is_a_payload() {
    assert_eq!(expected_body(status(200)), Expect::Payload);
    assert_eq!(expected_body(status(204)), Expect::Payload);
    assert_eq!(expected_body(status(299)), Expect::Payload);
}

#[test]
fn body_of_a_failure_is_a_message() {
    assert_eq!(expected_body(status(100)), Expect::ApiError);
    assert_eq!(expected_body(status(199)), Expect::ApiError);
    assert_eq!(expected_body(status(300)), Expect::ApiError);
    assert_eq!(expected_body(status(404)), Expect::ApiError);
    assert_eq!(expected_body(status(500)), Expect::ApiError);
}

#[test]
fn failure_with_message_is_an_api_error() {
    let body = read_message("{\"message\": \"bad game id\"}");
    assert_eq!(
        decode_failure(status(404), body),
        Error::Api { status: status(404), message: "bad game id".to_string() }
    );
}

#[test]
fn failure_with_unparseable_body_is_a_status_error() {
    let body = read_message("<html>Not Found</html>");
    assert!(matches!(body, Body::Malformed(_)));
    assert_eq!(decode_failure(status(404), body), Error::Status { status: status(404) });
}

#[test]
fn failure_without_message_is_a_status_error() {
    let body = read_message("{\"status\": 404}");
    assert_eq!(decode_failure(status(404), body), Error::Status { status: status(404) });
    let empty = read_message("");
    assert_eq!(decode_failure(status(502), empty), Error::Status { status: status(502) });
}

#[test]
fn failure_with_lost_body_is_a_status_error() {
    let body = Body::Unreadable(TransportError { message: "connection reset".to_string() });
    assert_eq!(decode_failure(status(503), body), Error::Status { status: status(503) });
}

#[test]
fn success_yields_the_payload() {
    assert_eq!(decode_success(Body::Decoded(17u32)), Ok(17));
}

#[test]
fn success_with_lost_body_is_a_response_error() {
    let body: Body<u32> = Body::Unreadable(TransportError { message: "reset".to_string() });
    assert_eq!(
        decode_success(body),
        Err(Error::Response { source: TransportError { message: "reset".to_string() } })
    );
}

#[test]
fn success_with_malformed_body_is_a_json_error() {
    let body = read_single("{\"data\": ");
    let Body::Malformed(reason) = &body else { panic!("the body is not JSON") };
    let expected = JsonError {
        message: reason.message.clone(),
        line: reason.line,
        column: reason.column,
    };
    assert_eq!(expected.line, 1);
    assert_eq!(decode_single(body), Err(Error::Json { source: expected }));
}

#[test]
fn success_of_another_shape_is_a_json_error() {
    let body = read_single("{\"message\": \"bad game id\"}");
    assert!(matches!(decode_single(body), Err(Error::Json { .. })));
}

#[test]
fn single_resource_is_taken_out_of_its_envelope() {
    let body = read_single("{\"data\":{\"id\":\"abc\"}}");
    assert_eq!(expected_body(status(200)), Expect::Payload);
    assert_eq!(decode_single(body), Ok("abc".to_string()));
}

#[test]
fn single_resource_needs_one_request() {
    let mut requests = 0;
    let mut send = |_url: &str| {
        requests += 1;
        (status(200), "{\"data\":{\"id\":\"abc\"}}")
    };
    let (code, text) = send("https://www.speedrun.com/api/v1/games/abc");
    let outcome = match expected_body(code) {
        Expect::Payload => decode_single(read_single(text)),
        Expect::ApiError => Err(decode_failure(code, read_message(text))),
    };
    assert_eq!(outcome, Ok("abc".to_string()));
    assert_eq!(requests, 1);
}

#[test]
fn pages_from_the_wire_are_yielded_in_order() {
    let first = "{\"data\":[\"a\",\"b\"],\"pagination\":{\"offset\":0,\"max\":2,\"size\":3,\
                 \"links\":[{\"rel\":\"next\",\"uri\":\"https://example.com/u2\"}]}}";
    let second = "{\"data\":[\"c\"],\"pagination\":{\"offset\":2,\"max\":2,\"size\":3,\"links\":[]}}";
    let mut requested: Vec<String> = Vec::new();
    let mut produced: Vec<Result<String, Error>> = Vec::new();
    let mut cursor = Cursor::new("https://example.com/u1".to_string());
    let mut action = cursor.pull();
    loop {
        action = match action {
            Action::Yield(item) => {
                produced.push(Ok(item));
                cursor.pull()
            }
            Action::Fail(error) => {
                produced.push(Err(error));
                cursor.pull()
            }
            Action::Fetch(url) => {
                let text = if url == "https://example.com/u1" { first } else { second };
                requested.push(url);
                cursor.deliver(decode_success(read_page(text)))
            }
            Action::End => break,
        };
    }
    assert_eq!(
        produced,
        vec![Ok("a".to_string()), Ok("b".to_string()), Ok("c".to_string())]
    );
    assert_eq!(requested, vec!["https://example.com/u1", "https://example.com/u2"]);
    assert_eq!(cursor.pull(), Action::End);
}

#[test]
fn page_with_a_failing_status_ends_the_sequence_with_the_message() {
    let mut cursor: Cursor<String> = Cursor::new("https://example.com/u1".to_string());
    assert_eq!(cursor.pull(), Action::Fetch("https://example.com/u1".to_string()));
    let code = status(404);
    assert_eq!(expected_body(code), Expect::ApiError);
    let error = decode_failure(code, read_message("{\"message\": \"bad game id\"}"));
    assert_eq!(
        cursor.deliver(Err(error)),
        Action::Fail(Error::Api { status: status(404), message: "bad game id".to_string() })
    );
    assert_eq!(cursor.pull(), Action::End);
}

#[test]
fn page_with_an_unknown_link_is_malformed_as_a_whole() {
    let text = "{\"data\":[\"a\"],\"pagination\":{\"offset\":0,\"max\":2,\"size\":3,\
                \"links\":[{\"rel\":\"first\",\"uri\":\"https://example.com/u0\"}]}}";
    let mut cursor: Cursor<String> = Cursor::new("https://example.com/u1".to_string());
    let action = cursor.deliver(decode_success(read_page(text)));
    assert!(matches!(action, Action::Fail(Error::Json { .. })));
    assert_eq!(cursor.pull(), Action::End);
}
