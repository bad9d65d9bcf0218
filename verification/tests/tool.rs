use busstop::busstop::Stage;
use busstop::error::RequestError;
use busstop::response::decode_body;
use busstop::settings::Setting;
use busstop::tool::{timings_reply, value_reply, BusStopNumberRequest};
use serde_json::Value;

#[test]
fn the_argument_holds_the_stop_code() {
    let request = BusStopNumberRequest { bus_stop_code: "65561".to_string() };
    assert_eq!(request.bus_stop_code, "65561");
}

#[test]
fn the_argument_begins_a_lookup_of_its_stop() {
    let request = BusStopNumberRequest { bus_stop_code: "83139".to_string() };
    let lookup = request.lookup();
    assert_eq!(lookup.stage(), Stage::Unconfigured);
    assert_eq!(lookup.busstopcode(), "83139");
}

#[test]
fn value_reply_is_the_written_text() {
    assert_eq!(value_reply(Ok("{}".to_string())), "{}");
    assert_eq!(value_reply(Ok(String::new())), "");
}

#[test]
fn value_reply_reports_a_serialize_error() {
    assert_eq!(
        value_reply(Err("Error(\"key must be a string\", line: 0, column: 0)".to_string())),
        "Serialize error: Error(\"key must be a string\", line: 0, column: 0)"
    );
}

#[test]
fn timings_reply_writes_indented_json() {
    let value = decode_body(br#"{"Services":[{"ServiceNo":"15"}],"BusStopCode":"65561"}"#);
    assert_eq!(
        timings_reply(&value),
        "{\n  \"BusStopCode\": \"65561\",\n  \"Services\": [\n    {\n      \"ServiceNo\": \"15\"\n    }\n  ]\n}"
    );
}

#[test]
fn timings_reply_agrees_with_the_pretty_printer() {
    let body = br#"{"odata.metadata":"m","BusStopCode":"83139","Services":[{"ServiceNo":"15","Operator":"GAS","NextBus":{"EstimatedArrival":"2024-01-01T10:00:00+08:00","Monitored":1,"Latitude":"1.3","Load":"SEA"}}]}"#;
    let value: Value = serde_json::from_slice(body).unwrap();
    let expected = serde_json::to_string_pretty(&value).unwrap();
    assert_eq!(timings_reply(&Ok(value)), expected);
}

#[test]
fn timings_reply_of_a_scalar() {
    assert_eq!(timings_reply(&Ok(Value::Null)), "null");
    assert_eq!(timings_reply(&Ok(Value::String("a\"b".to_string()))), "\"a\\\"b\"");
    assert_eq!(timings_reply(&Ok(Value::Array(Vec::new()))), "[]");
}

#[test]
fn timings_reply_reports_an_error() {
    assert_eq!(timings_reply(&Err(RequestError::Status(404))), "Error: HTTP status 404");
    assert_eq!(
        timings_reply(&Err(RequestError::MissingSetting(Setting::ApiAccountKey))),
        "Error: missing configuration field \"api_account_key\""
    );
    assert_eq!(
        timings_reply(&Err(RequestError::Network("dns failure".to_string()))),
        "Error: dns failure"
    );
    assert_eq!(
        timings_reply(&Err(RequestError::Configuration("unreadable".to_string()))),
        "Error: unreadable"
    );
}

#[test]
fn timings_reply_reports_a_body_that_is_not_json() {
    assert_eq!(
        timings_reply(&decode_body(b"oops")),
        "Error: error decoding response body: Error(\"expected value\", line: 1, column: 1)"
    );
}

#[test]
fn a_written_reply_parses_back_to_the_same_value() {
    let body = br#"{"BusStopCode":"83139","Services":[{"ServiceNo":"15","NextBus":{"Monitored":1,"Load":"SEA","Latitude":"1.31"},"NextBus2":null}],"extra":[1,-2,3.5,true,null,{"k":"v"}]}"#;
    let value = decode_body(body).unwrap();
    let reply = timings_reply(&Ok(value.clone()));
    assert_eq!(decode_body(reply.as_bytes()), Ok(value));
}
