use busstop::error::{push_decimal, RequestError};
use busstop::settings::Setting;
use busstop::tool::error_reply;

#[test]
fn push_decimal_writes_numerals_without_leading_zeros() {
    for (n, numeral) in [(0u16, "0"), (7, "7"), (10, "10"), (404, "404"), (65535, "65535")] {
        let mut text = String::from("n=");
        push_decimal(&mut text, n);
        assert_eq!(text, format!("n={}", numeral));
    }
}

#[test]
fn push_decimal_agrees_with_the_standard_numeral() {
    for n in [1u16, 9, 99, 100, 101, 999, 1000, 9999, 10000, 12345, 60000] {
        let mut text = String::new();
        push_decimal(&mut text, n);
        assert_eq!(text, n.to_string());
    }
}

#[test]
fn describe_names_the_missing_setting() {
    assert_eq!(
        RequestError::MissingSetting(Setting::ApiKey).describe(),
        "missing configuration field \"api_key\""
    );
    assert_eq!(
        RequestError::MissingSetting(Setting::ApiUrl).describe(),
        "missing configuration field \"api_url\""
    );
    assert_eq!(
        RequestError::MissingSetting(Setting::ApiAccountKey).describe(),
        "missing configuration field \"api_account_key\""
    );
}

#[test]
fn describe_passes_outside_messages_on() {
    assert_eq!(
        RequestError::Configuration("env variable \"x\" contains non-Unicode data".to_string())
            .describe(),
        "env variable \"x\" contains non-Unicode data"
    );
    assert_eq!(
        RequestError::Network("connection refused".to_string()).describe(),
        "connection refused"
    );
    assert_eq!(RequestError::Network(String::new()).describe(), "");
}

#[test]
fn describe_gives_the_status_in_decimal() {
    assert_eq!(RequestError::Status(404).describe(), "HTTP status 404");
    assert_eq!(RequestError::Status(500).describe(), "HTTP status 500");
    assert_eq!(RequestError::Status(0).describe(), "HTTP status 0");
}

#[test]
fn describe_introduces_a_decoding_error() {
    assert_eq!(
        RequestError::Decode("Error(\"expected value\", line: 1, column: 1)".to_string())
            .describe(),
        "error decoding response body: Error(\"expected value\", line: 1, column: 1)"
    );
}

#[test]
fn error_reply_puts_error_before_the_description() {
    assert_eq!(error_reply(&RequestError::Status(503)), "Error: HTTP status 503");
    assert_eq!(
        error_reply(&RequestError::MissingSetting(Setting::ApiUrl)),
        "Error: missing configuration field \"api_url\""
    );
    assert_eq!(error_reply(&RequestError::Network("timed out".to_string())), "Error: timed out");
}
