use busstop::error::RequestError;
use busstop::settings::{find, load_settings, Setting, Settings};

fn table(entries: &[(&str, &str)]) -> Vec<(String, String)> {
    entries.iter().map(|(name, value)| (name.to_string(), value.to_string())).collect()
}

#[test]
fn setting_names_are_the_configuration_keys() {
    assert_eq!(Setting::ApiKey.name(), "api_key");
    assert_eq!(Setting::ApiUrl.name(), "api_url");
    assert_eq!(Setting::ApiAccountKey.name(), "api_account_key");
}

#[test]
fn find_gives_the_value_of_a_name() {
    let entries = table(&[("home", "/root"), ("api_url", "https://example.test/v3")]);
    assert_eq!(find(&entries, "api_url"), Some("https://example.test/v3".to_string()));
    assert_eq!(find(&entries, "home"), Some("/root".to_string()));
}

#[test]
fn find_of_an_absent_name_is_none() {
    let entries = table(&[("home", "/root")]);
    assert_eq!(find(&entries, "api_url"), None);
    assert_eq!(find(&Vec::new(), "api_url"), None);
}

#[test]
fn find_takes_the_first_of_two_entries() {
    let entries = table(&[("api_key", "first"), ("api_key", "second")]);
    assert_eq!(find(&entries, "api_key"), Some("first".to_string()));
}

#[test]
fn find_compares_names_exactly() {
    let entries = table(&[("API_KEY", "upper"), ("api_key ", "padded")]);
    assert_eq!(find(&entries, "api_key"), None);
}

#[test]
fn find_keeps_an_empty_value() {
    let entries = table(&[("api_key", "")]);
    assert_eq!(find(&entries, "api_key"), Some(String::new()));
}

#[test]
fn load_settings_reads_all_three() {
    let entries = table(&[
        ("api_account_key", "secret"),
        ("path", "/usr/bin"),
        ("api_url", "https://example.test/v3"),
        ("api_key", "key"),
    ]);
    assert_eq!(
        load_settings(&entries),
        Ok(Settings {
            api_key: "key".to_string(),
            api_url: "https://example.test/v3".to_string(),
            api_account_key: "secret".to_string(),
        })
    );
}

#[test]
fn load_settings_reports_a_missing_key() {
    let entries = table(&[("api_url", "u"), ("api_account_key", "a")]);
    assert_eq!(load_settings(&entries), Err(RequestError::MissingSetting(Setting::ApiKey)));
}

#[test]
fn load_settings_reports_a_missing_url() {
    let entries = table(&[("api_key", "k"), ("api_account_key", "a")]);
    assert_eq!(load_settings(&entries), Err(RequestError::MissingSetting(Setting::ApiUrl)));
}

#[test]
fn load_settings_reports_a_missing_account_key() {
    let entries = table(&[("api_key", "k"), ("api_url", "u")]);
    assert_eq!(
        load_settings(&entries),
        Err(RequestError::MissingSetting(Setting::ApiAccountKey))
    );
}

#[test]
fn load_settings_reports_the_first_of_several_missing() {
    assert_eq!(load_settings(&Vec::new()), Err(RequestError::MissingSetting(Setting::ApiKey)));
    let entries = table(&[("api_key", "k")]);
    assert_eq!(load_settings(&entries), Err(RequestError::MissingSetting(Setting::ApiUrl)));
}
