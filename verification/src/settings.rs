//! The settings of a lookup and how they are found in a configuration table.

use vstd::prelude::*;
use vstd::string::StringExecFns;
use crate::error::{ErrorView, RequestError};

verus! {

/// One of the settings a lookup needs.
#[derive(Clone, Copy, Debug, PartialEq, Eq, Structural)]
pub enum Setting {
    ApiKey,
    ApiUrl,
    ApiAccountKey,
}

impl Setting {
    /// The name under which the setting stands in a configuration table.
    pub open spec fn name_spec(self) -> Seq<char> {
        match self {
            Setting::ApiKey => "api_key"@,
            Setting::ApiUrl => "api_url"@,
            Setting::ApiAccountKey => "api_account_key"@,
        }
    }

    /// The name under which the setting stands in a configuration table.
    pub fn name(&self) -> (out: &'static str)
        ensures
            out@ == self.name_spec(),
    {
        match self {
            Setting::ApiKey => "api_key",
            Setting::ApiUrl => "api_url",
            Setting::ApiAccountKey => "api_account_key",
        }
    }
}

/// The three settings, each with the value configured for it.
#[derive(Clone, Debug, PartialEq, Eq)]
pub struct Settings {
    pub api_key: String,
    pub api_url: String,
    pub api_account_key: String,
}

/// What a `Settings` value holds, as sequences of characters.
pub struct SettingsView {
    pub api_key: Seq<char>,
    pub api_url: Seq<char>,
    pub api_account_key: Seq<char>,
}

impl View for Settings {
    type V = SettingsView;

    open spec fn view(&self) -> SettingsView {
        SettingsView {
            api_key: self.api_key@,
            api_url: self.api_url@,
            api_account_key: self.api_account_key@,
        }
    }
}

/// A configuration table: names with their values, in the order given.
pub type Table = Seq<(Seq<char>, Seq<char>)>;

/// The value of the first entry of `table` that is named `name`.
pub open spec fn find_spec(table: Table, name: Seq<char>) -> Option<Seq<char>>
    decreases table.len(),
{
    if table.len() == 0 {
        None
    } else if table[0].0 == name {
        Some(table[0].1)
    } else {
        find_spec(table.drop_first(), name)
    }
}

/// The first of the three settings that `table` has no entry for.
pub open spec fn first_missing(table: Table) -> Option<Setting> {
    if find_spec(table, Setting::ApiKey.name_spec()) is None {
        Some(Setting::ApiKey)
    } else if find_spec(table, Setting::ApiUrl.name_spec()) is None {
        Some(Setting::ApiUrl)
    } else if find_spec(table, Setting::ApiAccountKey.name_spec()) is None {
        Some(Setting::ApiAccountKey)
    } else {
        None
    }
}

/// The settings that `table` gives, or the first setting it lacks.
pub open spec fn settings_spec(table: Table) -> Result<SettingsView, Setting> {
    match first_missing(table) {
        Some(missing) => Err(missing),
        None => Ok(
            SettingsView {
                api_key: find_spec(table, Setting::ApiKey.name_spec())->Some_0,
                api_url: find_spec(table, Setting::ApiUrl.name_spec())->Some_0,
                api_account_key: find_spec(table, Setting::ApiAccountKey.name_spec())->Some_0,
            },
        ),
    }
}

/// What `find_spec` finds is the value of the first entry with the name,
/// and it finds nothing only where no entry has the name.
pub proof fn law_find_is_first_entry(table: Table, name: Seq<char>)
    ensures
        match find_spec(table, name) {
            Some(value) => exists|i: int|
                0 <= i < table.len() && table[i] == (name, value) && forall|j: int|
                    0 <= j < i ==> (#[trigger] table[j]).0 != name,
            None => forall|i: int| 0 <= i < table.len() ==> (#[trigger] table[i]).0 != name,
        },
    decreases table.len(),
{
    if table.len() > 0 && table[0].0 != name {
        let rest = table.drop_first();
        law_find_is_first_entry(rest, name);
        assert forall|i: int| 0 <= i < rest.len() implies rest[i] == table[i + 1] by {}
        match find_spec(rest, name) {
            Some(value) => {
                let i = choose|i: int|
                    0 <= i < rest.len() && rest[i] == (name, value) && forall|j: int|
                        0 <= j < i ==> (#[trigger] rest[j]).0 != name;
                assert(table[i + 1] == (name, value));
                assert forall|j: int| 0 <= j < i + 1 implies (#[trigger] table[j]).0 != name by {
                    if j > 0 {
                        assert(rest[j - 1].0 != name);
                    }
                }
            },
            None => {
                assert forall|i: int| 0 <= i < table.len() implies (#[trigger] table[i]).0
                    != name by {
                    if i > 0 {
                        assert(rest[i - 1].0 != name);
                    }
                }
            },
        }
    } else if table.len() > 0 {
        assert(table[0] == (name, table[0].1));
    }
}

/// An entry with the wanted name decides the search; any other is passed over.
proof fn lemma_find_skip(table: Table, name: Seq<char>, from: int)
    requires
        0 <= from < table.len(),
    ensures
        table[from].0 == name ==> find_spec(table.skip(from), name) == Some(table[from].1),
        table[from].0 != name ==> find_spec(table.skip(from), name) == find_spec(
            table.skip(from + 1),
            name,
        ),
{
    assert(table.skip(from).drop_first() =~= table.skip(from + 1));
}

/// Finds the value of `name` in a configuration table.
pub fn find(entries: &Vec<(String, String)>, name: &str) -> (out: Option<String>)
    ensures
        out.deep_view() == find_spec(entries.deep_view(), name@),
{
    let wanted = String::from_str(name);
    let ghost table = entries.deep_view();
    let mut i: usize = 0;
    assert(table.skip(0) =~= table);
    while i < entries.len()
        invariant
            i <= entries.len(),
            table == entries.deep_view(),
            wanted@ == name@,
            find_spec(table, name@) == find_spec(table.skip(i as int), name@),
        decreases entries.len() - i,
    {
        proof {
            lemma_find_skip(table, name@, i as int);
        }
        if entries[i].0 == wanted {
            return Some(entries[i].1.clone());
        }
        i += 1;
    }
    None
}

/// Reads the three settings from a configuration table.
///
/// The settings are looked up in the order `api_key`, `api_url`,
/// `api_account_key`; the first one without an entry is reported, and
/// nothing is returned unless all three are there.
pub fn load_settings(entries: &Vec<(String, String)>) -> (out: Result<Settings, RequestError>)
    ensures
        match settings_spec(entries.deep_view()) {
            Ok(settings) => out matches Ok(found) && found@ == settings,
            Err(missing) => out matches Err(error) && error@ == ErrorView::MissingSetting(
                missing,
            ),
        },
{
    let api_key = match find(entries, Setting::ApiKey.name()) {
        Some(value) => value,
        None => {
            return Err(RequestError::MissingSetting(Setting::ApiKey));
        },
    };
    let api_url = match find(entries, Setting::ApiUrl.name()) {
        Some(value) => value,
        None => {
            return Err(RequestError::MissingSetting(Setting::ApiUrl));
        },
    };
    let api_account_key = match find(entries, Setting::ApiAccountKey.name()) {
        Some(value) => value,
        None => {
            return Err(RequestError::MissingSetting(Setting::ApiAccountKey));
        },
    };
    Ok(Settings { api_key, api_url, api_account_key })
}

} // verus!
