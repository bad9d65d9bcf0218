//! The bus-timings tool: its argument and the text it replies with.

use vstd::prelude::*;
use vstd::string::StringExecFns;
use crate::busstop::{Lookup, LookupView, Stage};
use crate::error::{describe_spec, ErrorView, RequestError};
use crate::json::{error_text, json_pretty, json_tree, pretty_text};

verus! {

/// What the tool says of itself to a client.
pub const DESCRIPTION: &'static str = "Get bus timings for a bus stop.";

/// The argument of the tool: the code of the bus stop asked about, such as
/// `"65561"`.
#[derive(Clone, Debug, PartialEq, Eq)]
pub struct BusStopNumberRequest {
    pub bus_stop_code: String,
}

impl BusStopNumberRequest {
    /// The lookup that a call of the tool with this argument asks for: one
    /// of the stop named, with nothing done yet.
    pub fn lookup(&self) -> (out: Lookup)
        ensures
            out@ == (LookupView { stage: Stage::Unconfigured, busstopcode: self.bus_stop_code@ }),
    {
        Lookup::new(self.bus_stop_code.as_str())
    }
}

/// The reply for a decoded answer, given what writing it as indented JSON
/// came to: the text itself, or `Serialize error: ` and the text of the
/// error.
pub open spec fn value_reply_spec(written: Result<Seq<char>, Seq<char>>) -> Seq<char> {
    match written {
        Ok(text) => text,
        Err(message) => "Serialize error: "@ + message,
    }
}

/// The reply for a failed lookup: `Error: ` and the text of the error.
pub open spec fn error_reply_spec(error: ErrorView) -> Seq<char> {
    "Error: "@ + describe_spec(error)
}

/// The reply for a decoded answer, given what writing it as indented JSON
/// came to.
pub fn value_reply(written: Result<String, String>) -> (out: String)
    ensures
        match written {
            Ok(text) => out@ == value_reply_spec(Ok(text@)),
            Err(message) => out@ == value_reply_spec(Err(message@)),
        },
{
    match written {
        Ok(text) => text,
        Err(message) => {
            let mut out = String::from_str("Serialize error: ");
            out.append(message.as_str());
            out
        },
    }
}

/// The reply for a failed lookup.
pub fn error_reply(error: &RequestError) -> (out: String)
    ensures
        out@ == error_reply_spec(error@),
{
    let mut out = String::from_str("Error: ");
    let text = error.describe();
    out.append(text.as_str());
    out
}

/// The text the tool replies with when a lookup has ended: the decoded
/// answer as indented JSON, or the error.
///
/// The JSON text is written by `serde_json`; `json_pretty` names what it
/// writes for the value.
pub fn timings_reply(outcome: &Result<serde_json::Value, RequestError>) -> (out: String)
    ensures
        match *outcome {
            Ok(value) => out@ == value_reply_spec(json_pretty(json_tree(value))),
            Err(error) => out@ == error_reply_spec(error@),
        },
{
    match outcome {
        Ok(value) => {
            let written = match pretty_text(value) {
                Ok(text) => Ok(text),
                Err(error) => Err(error_text(&error)),
            };
            value_reply(written)
        },
        Err(error) => error_reply(error),
    }
}

} // verus!
