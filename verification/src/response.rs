//! Judging the answer to a request: its status, then its body.

use vstd::prelude::*;
use crate::error::{ErrorView, RequestError};
use crate::json::{error_text, json_error_text, json_parsed, json_tree, parse_value};

verus! {

/// Whether an answer with this status is read further: the statuses from
/// 200 to 299 are, every other is an error.
pub open spec fn status_accepted(status: u16) -> bool {
    200 <= status <= 299
}

/// Accepts the statuses from 200 to 299 and reports every other as
/// `RequestError::Status`.
pub fn check_status(status: u16) -> (out: Result<(), RequestError>)
    ensures
        match out {
            Ok(_) => status_accepted(status),
            Err(reason) => !status_accepted(status) && reason@ == ErrorView::Status(status),
        },
{
    if 200 <= status && status <= 299 {
        Ok(())
    } else {
        Err(RequestError::Status(status))
    }
}

/// Turns the outcome of parsing a body into the outcome of the lookup: a
/// value is passed on as it is, an error becomes `RequestError::Decode`
/// with the text of the error.
pub fn decoded(parsed: Result<serde_json::Value, serde_json::Error>) -> (out: Result<
    serde_json::Value,
    RequestError,
>)
    ensures
        match parsed {
            Ok(value) => out matches Ok(same) && same == value,
            Err(error) => out matches Err(reason) && reason@ == ErrorView::Decode(
                json_error_text(error),
            ),
        },
{
    match parsed {
        Ok(value) => Ok(value),
        Err(error) => Err(RequestError::Decode(error_text(&error))),
    }
}

/// Decodes the body of an accepted answer as one JSON document.
///
/// The body is parsed by `serde_json`; `json_parsed` names what the parser
/// makes of the bytes, and the result follows it case by case.
pub fn decode_body(body: &[u8]) -> (out: Result<serde_json::Value, RequestError>)
    ensures
        match json_parsed(body@) {
            Ok(tree) => out matches Ok(value) && json_tree(value) == tree,
            Err(text) => out matches Err(reason) && reason@ == ErrorView::Decode(text),
        },
{
    decoded(parse_value(body))
}

} // verus!
