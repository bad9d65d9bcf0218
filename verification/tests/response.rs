use busstop::error::RequestError;
use busstop::response::{check_status, decode_body, decoded};
use serde_json::{Number, Value};

#[test]
fn check_status_accepts_200_to_299() {
    for status in [200u16, 201, 204, 250, 299] {
        assert_eq!(check_status(status), Ok(()));
    }
}

#[test]
fn check_status_rejects_every_other_status() {
    for status in [0u16, 100, 199, 300, 301, 304, 400, 404, 500, 503, 599, 600, 65535] {
        assert_eq!(check_status(status), Err(RequestError::Status(status)));
    }
}

#[test]
fn decode_body_gives_the_document() {
    let mut object = serde_json::Map::new();
    object.insert("BusStopCode".to_string(), Value::String("65561".to_string()));
    object.insert("Services".to_string(), Value::Array(Vec::new()));
    assert_eq!(
        decode_body(br#"{"BusStopCode": "65561", "Services": []}"#),
        Ok(Value::Object(object))
    );
}

#[test]
fn decode_body_takes_any_json_value() {
    assert_eq!(decode_body(b"null"), Ok(Value::Null));
    assert_eq!(decode_body(b" true "), Ok(Value::Bool(true)));
    assert_eq!(decode_body(b"17"), Ok(Value::Number(Number::from(17u64))));
    assert_eq!(decode_body(b"\"x\""), Ok(Value::String("x".to_string())));
    assert_eq!(decode_body(b"[null]"), Ok(Value::Array(vec![Value::Null])));
}

#[test]
fn decode_body_rejects_what_is_not_json() {
    assert_eq!(
        decode_body(b"<html>"),
        Err(RequestError::Decode("Error(\"expected value\", line: 1, column: 1)".to_string()))
    );
    assert_eq!(
        decode_body(b""),
        Err(RequestError::Decode(
            "Error(\"EOF while parsing a value\", line: 1, column: 0)".to_string()
        ))
    );
    assert_eq!(
        decode_body(b"{} {}"),
        Err(RequestError::Decode("Error(\"trailing characters\", line: 1, column: 4)".to_string()))
    );
}

#[test]
fn decode_body_reports_what_the_parser_reports() {
    for body in [&b"{"[..], b"[1,]", b"{\"a\" 1}", b"\xff", b"nul"] {
        let error = serde_json::from_slice::<Value>(body).unwrap_err();
        assert_eq!(decode_body(body), Err(RequestError::Decode(format!("{:?}", error))));
    }
}

#[test]
fn decoded_passes_a_value_on() {
    let parsed = serde_json::from_slice::<Value>(b"[1, 2]");
    let expected = Value::Array(vec![
        Value::Number(Number::from(1u64)),
        Value::Number(Number::from(2u64)),
    ]);
    assert_eq!(decoded(parsed), Ok(expected));
}

#[test]
fn decoded_turns_an_error_into_its_text() {
    let parsed = serde_json::from_slice::<Value>(b"[1, 2");
    assert_eq!(
        decoded(parsed),
        Err(RequestError::Decode(
            "Error(\"EOF while parsing a list\", line: 1, column: 5)".to_string()
        ))
    );
}
