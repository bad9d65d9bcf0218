use busstop::busstop::{busstop_request, Event, Lookup, Stage, Step};
use busstop::error::RequestError;
use busstop::request::{HttpRequest, Method};
use busstop::settings::Setting;
use serde_json::Value;

fn table(entries: &[(&str, &str)]) -> Vec<(String, String)> {
    entries.iter().map(|(name, value)| (name.to_string(), value.to_string())).collect()
}

fn full_table() -> Vec<(String, String)> {
    table(&[("api_key", "k"), ("api_url", "https://example.test/v3"), ("api_account_key", "acct")])
}

/// A lookup whose request was sent.
fn sent() -> Lookup {
    let mut lookup = Lookup::new("83139");
    assert!(matches!(
        busstop_request(&mut lookup, Event::Configured(full_table())),
        Some(Step::Send(_))
    ));
    lookup
}

/// A lookup whose answer came with an accepted status.
fn accepted() -> Lookup {
    let mut lookup = sent();
    assert_eq!(busstop_request(&mut lookup, Event::Status(200)), Some(Step::ReadBody));
    lookup
}

#[test]
fn a_new_lookup_has_done_nothing() {
    let lookup = Lookup::new("83139");
    assert_eq!(lookup.stage(), Stage::Unconfigured);
    assert_eq!(lookup.busstopcode(), "83139");
}

#[test]
fn a_configured_lookup_sends_the_request() {
    let mut lookup = Lookup::new("83139");
    let step = busstop_request(&mut lookup, Event::Configured(full_table()));
    assert_eq!(
        step,
        Some(Step::Send(HttpRequest {
            method: Method::Get,
            url: "https://example.test/v3/BusArrival".to_string(),
            query: vec![("BusStopCode".to_string(), "83139".to_string())],
            headers: vec![
                ("AccountKey".to_string(), "acct".to_string()),
                ("Accept".to_string(), "application/json".to_string()),
            ],
        }))
    );
    assert_eq!(lookup.stage(), Stage::Sent);
    assert_eq!(lookup.busstopcode(), "83139");
}

#[test]
fn a_missing_setting_fails_the_lookup_before_anything_is_sent() {
    for (entries, missing) in [
        (table(&[("api_url", "u"), ("api_account_key", "a")]), Setting::ApiKey),
        (table(&[("api_key", "k"), ("api_account_key", "a")]), Setting::ApiUrl),
        (table(&[("api_key", "k"), ("api_url", "u")]), Setting::ApiAccountKey),
        (Vec::new(), Setting::ApiKey),
    ] {
        let mut lookup = Lookup::new("83139");
        let step = busstop_request(&mut lookup, Event::Configured(entries));
        assert_eq!(step, Some(Step::Failed(RequestError::MissingSetting(missing))));
        assert_eq!(lookup.stage(), Stage::Ended);
        assert_eq!(busstop_request(&mut lookup, Event::Configured(full_table())), None);
        assert_eq!(busstop_request(&mut lookup, Event::Status(200)), None);
    }
}

#[test]
fn an_unreadable_configuration_fails_the_lookup() {
    let mut lookup = Lookup::new("83139");
    let step = busstop_request(&mut lookup, Event::Unreadable("no environment".to_string()));
    assert_eq!(
        step,
        Some(Step::Failed(RequestError::Configuration("no environment".to_string())))
    );
    assert_eq!(lookup.stage(), Stage::Ended);
}

#[test]
fn an_accepted_status_has_the_body_read() {
    for status in [200u16, 204, 299] {
        let mut lookup = sent();
        assert_eq!(busstop_request(&mut lookup, Event::Status(status)), Some(Step::ReadBody));
        assert_eq!(lookup.stage(), Stage::Accepted);
    }
}

#[test]
fn a_rejected_status_fails_the_lookup_without_reading_the_body() {
    for status in [0u16, 199, 300, 302, 401, 404, 429, 500, 503] {
        let mut lookup = sent();
        assert_eq!(
            busstop_request(&mut lookup, Event::Status(status)),
            Some(Step::Failed(RequestError::Status(status)))
        );
        assert_eq!(lookup.stage(), Stage::Ended);
        assert_eq!(
            busstop_request(&mut lookup, Event::Body(br#"{"BusStopCode":"83139"}"#.to_vec())),
            None
        );
        assert_eq!(lookup.stage(), Stage::Ended);
    }
}

#[test]
fn a_json_body_ends_the_lookup_with_its_value() {
    let mut object = serde_json::Map::new();
    object.insert("BusStopCode".to_string(), Value::String("83139".to_string()));
    let mut lookup = accepted();
    let step = busstop_request(&mut lookup, Event::Body(br#"{"BusStopCode":"83139"}"#.to_vec()));
    assert_eq!(step, Some(Step::Done(Value::Object(object))));
    assert_eq!(lookup.stage(), Stage::Ended);
}

#[test]
fn a_body_that_is_not_json_fails_the_lookup() {
    let mut lookup = accepted();
    let step = busstop_request(&mut lookup, Event::Body(b"Service Unavailable".to_vec()));
    assert_eq!(
        step,
        Some(Step::Failed(RequestError::Decode(
            "Error(\"expected value\", line: 1, column: 1)".to_string()
        )))
    );
    assert_eq!(lookup.stage(), Stage::Ended);
}

#[test]
fn a_transport_failure_fails_the_lookup() {
    for mut lookup in [sent(), accepted()] {
        let step = busstop_request(&mut lookup, Event::Interrupted("connection reset".to_string()));
        assert_eq!(
            step,
            Some(Step::Failed(RequestError::Network("connection reset".to_string())))
        );
        assert_eq!(lookup.stage(), Stage::Ended);
    }
}

#[test]
fn an_event_out_of_turn_is_not_taken() {
    let body = Event::Body(b"{}".to_vec());
    let failure = Event::Interrupted("x".to_string());
    let unreadable = Event::Unreadable("x".to_string());

    let mut lookup = Lookup::new("83139");
    for event in [Event::Status(200), body.clone(), failure.clone()] {
        assert_eq!(busstop_request(&mut lookup, event), None);
        assert_eq!(lookup.stage(), Stage::Unconfigured);
    }

    let mut lookup = sent();
    for event in [Event::Configured(full_table()), unreadable.clone(), body.clone()] {
        assert_eq!(busstop_request(&mut lookup, event), None);
        assert_eq!(lookup.stage(), Stage::Sent);
    }

    let mut lookup = accepted();
    for event in [Event::Configured(full_table()), unreadable.clone(), Event::Status(200)] {
        assert_eq!(busstop_request(&mut lookup, event), None);
        assert_eq!(lookup.stage(), Stage::Accepted);
    }
}

#[test]
fn an_ended_lookup_takes_no_event() {
    let mut lookup = accepted();
    assert!(matches!(
        busstop_request(&mut lookup, Event::Body(b"[]".to_vec())),
        Some(Step::Done(_))
    ));
    for event in [
        Event::Configured(full_table()),
        Event::Unreadable("x".to_string()),
        Event::Status(200),
        Event::Body(b"[]".to_vec()),
        Event::Interrupted("x".to_string()),
    ] {
        assert_eq!(busstop_request(&mut lookup, event), None);
        assert_eq!(lookup.stage(), Stage::Ended);
        assert_eq!(lookup.busstopcode(), "83139");
    }
}

#[test]
fn a_whole_lookup_from_configuration_to_reply() {
    let mut lookup = Lookup::new("65561");
    let mut steps = Vec::new();
    for event in [
        Event::Configured(full_table()),
        Event::Status(200),
        Event::Body(br#"{"BusStopCode":"65561","Services":[]}"#.to_vec()),
    ] {
        steps.push(busstop_request(&mut lookup, event));
    }
    assert!(matches!(steps[0], Some(Step::Send(_))));
    assert_eq!(steps[1], Some(Step::ReadBody));
    let outcome = match steps.pop() {
        Some(Some(Step::Done(value))) => Ok(value),
        other => panic!("the lookup ended with {:?}", other),
    };
    assert_eq!(
        busstop::tool::timings_reply(&outcome),
        "{\n  \"BusStopCode\": \"65561\",\n  \"Services\": []\n}"
    );
}
