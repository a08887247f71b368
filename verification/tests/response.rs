use serde_json::{Error as JsonError, Value};
use yupdates::api::{NewInputItemsResponse, PingResponse, ReadFeedItemsResponse};
use yupdates::errors::{api_error, msg_from_api_error_data, ApiErrorData, Error, Kind};
use yupdates::models::FeedItem;
use yupdates::response::{interpret_response, read_items_response};

fn shape_error(text: &str) -> JsonError {
    <JsonError as serde::de::Error>::custom(text)
}

fn text_field(value: &Value, name: &str) -> Result<String, JsonError> {
    match value.get(name).and_then(Value::as_str) {
        Some(text) => Ok(text.to_string()),
        None => Err(shape_error(&format!("missing field `{}`", name))),
    }
}

fn code_field(value: &Value) -> Result<u16, JsonError> {
    match value.get("code").and_then(Value::as_u64) {
        Some(code) => Ok(code as u16),
        None => Err(shape_error("missing field `code`")),
    }
}

/// Reads a body as the payload of a ping.
fn decode_ping(body: &str) -> Result<PingResponse, JsonError> {
    let value: Value = serde_json::from_str(body)?;
    Ok(PingResponse {
        code: code_field(&value)?,
        message: text_field(&value, "message")?,
    })
}

/// Reads a body as the payload of a submission.
fn decode_new_items(body: &str) -> Result<NewInputItemsResponse, JsonError> {
    let value: Value = serde_json::from_str(body)?;
    Ok(NewInputItemsResponse {
        code: code_field(&value)?,
        feed_id: text_field(&value, "feed_id")?,
        message: text_field(&value, "message")?,
    })
}

fn optional_text(value: &Value, name: &str) -> Option<Option<String>> {
    match value.get(name) {
        None | Some(Value::Null) => Some(None),
        Some(Value::String(text)) => Some(Some(text.clone())),
        Some(_) => None,
    }
}

/// Reads a body as an error payload, where it is one.
fn decode_error(body: &str) -> Option<ApiErrorData> {
    let value: Value = serde_json::from_str(body).ok()?;
    if !value.is_object() {
        return None;
    }
    let code = match value.get("code") {
        None | Some(Value::Null) => None,
        Some(other) => Some(u16::try_from(other.as_u64()?).ok()?),
    };
    Some(ApiErrorData {
        code,
        error: optional_text(&value, "error")?,
        error_detail: optional_text(&value, "error_detail")?,
    })
}

fn interpret_ping(code: u16, body: &str) -> Result<PingResponse, Error> {
    interpret_response(code, decode_ping(body), decode_error(body))
}

fn feed_item(title: &str) -> FeedItem {
    FeedItem {
        feed_id: "02fb24a4478462a4491067224b66d9a8b2338ddca2737".to_string(),
        item_id: format!("id-{}", title),
        input_id: "input".to_string(),
        title: title.to_string(),
        content: None,
        canonical_url: format!("https://www.example.com/{}", title),
        item_time: "1661564013555.00003".to_string(),
        item_time_ms: 1661564013555,
        deleted: false,
        associated_files: None,
    }
}

#[test]
fn interpret_status_200_gives_the_payload() {
    let result = interpret_ping(200, r#"{"code":200,"message":"pong"}"#);
    assert_eq!(
        result.unwrap(),
        PingResponse {
            code: 200,
            message: "pong".to_string()
        }
    );
    let body = r#"{"code":200,"feed_id":"abc","message":"OK"}"#;
    let result = interpret_response(200, decode_new_items(body), decode_error(body));
    assert_eq!(result.unwrap().feed_id, "abc");
}

#[test]
fn interpret_status_200_with_another_shape_is_a_deserialization_error() {
    let body = r#"{"unexpected":true}"#;
    let expected = decode_ping(body).unwrap_err().to_string();
    match interpret_ping(200, body).unwrap_err().kind {
        Kind::Deserialization(text) => assert_eq!(text, expected),
        e => panic!("unexpected error type: {:?}", e),
    }
    let body = "<html>not json</html>";
    let expected = decode_ping(body).unwrap_err().to_string();
    assert!(expected.contains("expected value"));
    match interpret_ping(200, body).unwrap_err().kind {
        Kind::Deserialization(text) => assert_eq!(text, expected),
        e => panic!("unexpected error type: {:?}", e),
    }
}

#[test]
fn interpret_status_200_does_not_look_at_the_error_payload() {
    // A body that reads as both shapes is the payload under status 200:
    let body = r#"{"code":200,"message":"pong","error":"ignored"}"#;
    assert!(decode_error(body).is_some());
    assert_eq!(interpret_ping(200, body).unwrap().message, "pong");
}

#[test]
fn interpret_status_404_with_an_error_payload_is_detailed() {
    match interpret_ping(404, r#"{"error":"not found"}"#).unwrap_err().kind {
        Kind::DetailedHttpCode(code, text) => {
            assert_eq!(code, 404);
            assert_eq!(text, "not found");
        }
        e => panic!("unexpected error type: {:?}", e),
    }
}

#[test]
fn interpret_status_500_with_an_unreadable_body_is_the_bare_code() {
    match interpret_ping(500, "<html>...").unwrap_err().kind {
        Kind::HttpCode(code) => assert_eq!(code, 500),
        e => panic!("unexpected error type: {:?}", e),
    }
}

#[test]
fn interpret_other_statuses_are_failures_even_with_a_payload() {
    // Other 2xx and 3xx statuses are failures too, whatever the body holds:
    for code in [0u16, 199, 201, 204, 301, 400, 503, u16::MAX] {
        let body = r#"{"code":200,"message":"pong"}"#;
        match interpret_ping(code, body).unwrap_err().kind {
            Kind::DetailedHttpCode(status, text) => {
                assert_eq!(status, code);
                assert_eq!(text, "");
            }
            e => panic!("unexpected error type: {:?}", e),
        }
    }
}

#[test]
fn interpret_joins_error_and_detail() {
    let body = r#"{"code":403,"error":"forbidden","error_detail":"token is read-only"}"#;
    match interpret_ping(403, body).unwrap_err().kind {
        Kind::DetailedHttpCode(code, text) => {
            assert_eq!(code, 403);
            assert_eq!(text, "forbidden | token is read-only");
        }
        e => panic!("unexpected error type: {:?}", e),
    }
    let body = r#"{"error_detail":"only the detail"}"#;
    match interpret_ping(400, body).unwrap_err().kind {
        Kind::DetailedHttpCode(code, text) => {
            assert_eq!(code, 400);
            assert_eq!(text, "only the detail");
        }
        e => panic!("unexpected error type: {:?}", e),
    }
}

#[test]
fn read_items_response_hands_out_the_items() {
    let items = vec![feed_item("a"), feed_item("b")];
    let payload = ReadFeedItemsResponse {
        code: 200,
        feed_items: items.clone(),
    };
    assert_eq!(read_items_response(200, Ok(payload), None).unwrap(), items);

    let result = read_items_response(200, Err(shape_error("missing field `feed_items`")), None);
    match result.unwrap_err().kind {
        Kind::Deserialization(text) => assert_eq!(text, "missing field `feed_items`"),
        e => panic!("unexpected error type: {:?}", e),
    }

    let payload = ReadFeedItemsResponse {
        code: 200,
        feed_items: items,
    };
    let result = read_items_response(404, Ok(payload), decode_error(r#"{"error":"no such feed"}"#));
    match result.unwrap_err().kind {
        Kind::DetailedHttpCode(code, text) => {
            assert_eq!(code, 404);
            assert_eq!(text, "no such feed");
        }
        e => panic!("unexpected error type: {:?}", e),
    }
}

#[test]
fn message_of_an_error_payload() {
    let data = |error: Option<&str>, detail: Option<&str>| ApiErrorData {
        code: Some(400),
        error: error.map(str::to_string),
        error_detail: detail.map(str::to_string),
    };
    assert_eq!(msg_from_api_error_data(&data(None, None)), "");
    assert_eq!(msg_from_api_error_data(&data(Some("e"), None)), "e");
    assert_eq!(msg_from_api_error_data(&data(None, Some("d"))), "d");
    assert_eq!(msg_from_api_error_data(&data(Some("e"), Some("d"))), "e | d");
    assert_eq!(msg_from_api_error_data(&data(Some(""), Some("d"))), "d");
    assert_eq!(msg_from_api_error_data(&data(Some("e"), Some(""))), "e | ");
    assert_eq!(msg_from_api_error_data(&data(Some(""), None)), "");
}

#[test]
fn api_error_classifies_by_the_payload() {
    let data = ApiErrorData {
        code: None,
        error: Some("not found".to_string()),
        error_detail: None,
    };
    assert!(matches!(
        api_error(404, Some(data)).kind,
        Kind::DetailedHttpCode(404, text) if text == "not found"
    ));
    assert!(matches!(api_error(500, None).kind, Kind::HttpCode(500)));
}
