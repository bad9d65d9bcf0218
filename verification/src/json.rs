//! JSON values as `serde_json` holds them, and the mathematical tree that
//! the contracts of this crate read them as.
//!
//! Nothing in this file is proved. The two types are `serde_json`'s own, the
//! four names stand for what its functions compute, and each function below
//! is one call into it whose contract is taken on trust.

use vstd::prelude::*;

verus! {

/// A JSON number as `serde_json` keeps it: a non-negative integer, a
/// negative integer, or a finite binary64 value given by its bit pattern.
pub enum JsonNumber {
    Unsigned(u64),
    Negative(i64),
    Real(u64),
}

/// The mathematical content of a JSON value. An object is a map: it holds
/// each member name once.
pub enum JsonTree {
    Null,
    Bool(bool),
    Number(JsonNumber),
    Text(Seq<char>),
    List(Seq<JsonTree>),
    Object(Map<Seq<char>, JsonTree>),
}

#[verifier::external_type_specification]
#[verifier::external_body]
pub struct ExValue(serde_json::Value);

#[verifier::external_type_specification]
#[verifier::external_body]
pub struct ExJsonError(serde_json::Error);

/// The tree that a `serde_json::Value` holds.
pub uninterp spec fn json_tree(value: serde_json::Value) -> JsonTree;

/// The text that `serde_json::Error` writes of itself when formatted with
/// `{:?}`.
pub uninterp spec fn json_error_text(error: serde_json::Error) -> Seq<char>;

/// What `serde_json::from_slice` makes of a byte string: the tree of the
/// value it returns, or the text of the error it returns.
pub uninterp spec fn json_parsed(bytes: Seq<u8>) -> Result<JsonTree, Seq<char>>;

/// What `serde_json::to_string_pretty` makes of a value that holds `tree`:
/// the text it returns, or the text of the error it returns.
pub uninterp spec fn json_pretty(tree: JsonTree) -> Result<Seq<char>, Seq<char>>;

/// The trees of a sequence of values, in order.
pub open spec fn json_trees(values: Seq<serde_json::Value>) -> Seq<JsonTree> {
    values.map_values(|value: serde_json::Value| json_tree(value))
}

/// Parses a byte string as one JSON document.
///
/// Trusted: calls `serde_json::from_slice` at the type `serde_json::Value`.
/// The contract says nothing of the grammar; it states that the outcome is
/// the one `json_parsed` names for these bytes.
#[verifier::external_body]
pub(crate) fn parse_value(bytes: &[u8]) -> (out: Result<serde_json::Value, serde_json::Error>)
    ensures
        match out {
            Ok(value) => json_parsed(bytes@) matches Ok(tree) && tree == json_tree(value),
            Err(error) => json_parsed(bytes@) matches Err(text) && text == json_error_text(
                error,
            ),
        },
{
    serde_json::from_slice::<serde_json::Value>(bytes)
}

/// Writes a value as indented JSON text.
///
/// Trusted: calls `serde_json::to_string_pretty`. The contract says nothing
/// of the layout; it states that the outcome is the one `json_pretty` names
/// for the tree of the value.
#[verifier::external_body]
pub(crate) fn pretty_text(value: &serde_json::Value) -> (out: Result<String, serde_json::Error>)
    ensures
        match out {
            Ok(text) => json_pretty(json_tree(*value)) matches Ok(written) && written == text@,
            Err(error) => json_pretty(json_tree(*value)) matches Err(text) && text
                == json_error_text(error),
        },
{
    serde_json::to_string_pretty(value)
}

/// The text of an error, as `{:?}` writes it.
///
/// Trusted: formats the error through `serde_json::Error`'s `Debug`. The
/// contract gives the text the name `json_error_text`.
#[verifier::external_body]
pub(crate) fn error_text(error: &serde_json::Error) -> (out: String)
    ensures
        out@ == json_error_text(*error),
{
    format!("{:?}", error)
}

/// The member of an object that is named `name`.
///
/// Trusted: calls `serde_json::Value::get` with a string. In the source it
/// looks the name up in the map of an object and gives `None` for any other
/// kind of value.
#[verifier::external_body]
pub(crate) fn value_member<'a>(value: &'a serde_json::Value, name: &str) -> (out: Option<
    &'a serde_json::Value,
>)
    ensures
        match out {
            Some(child) => json_tree(*value) matches JsonTree::Object(members)
                && members.contains_key(name@) && members[name@] == json_tree(*child),
            None => !(json_tree(*value) matches JsonTree::Object(members) && members.contains_key(
                name@,
            )),
        },
{
    value.get(name)
}

/// The text of a JSON string.
///
/// Trusted: calls `serde_json::Value::as_str`, which in the source gives the
/// text of a string and `None` for any other kind of value.
#[verifier::external_body]
pub(crate) fn value_text<'a>(value: &'a serde_json::Value) -> (out: Option<&'a str>)
    ensures
        match out {
            Some(text) => json_tree(*value) == JsonTree::Text(text@),
            None => !(json_tree(*value) is Text),
        },
{
    value.as_str()
}

/// The elements of a JSON array.
///
/// Trusted: calls `serde_json::Value::as_array`, which in the source gives
/// the vector of an array and `None` for any other kind of value.
#[verifier::external_body]
pub(crate) fn value_items<'a>(value: &'a serde_json::Value) -> (out: Option<
    &'a Vec<serde_json::Value>,
>)
    ensures
        match out {
            Some(items) => json_tree(*value) == JsonTree::List(json_trees(items@)),
            None => !(json_tree(*value) is List),
        },
{
    value.as_array()
}

/// The value of a JSON number that is a non-negative integer.
///
/// Trusted: calls `serde_json::Value::as_u64`, which in the source gives the
/// integer of a number kept as unsigned and `None` for a negative integer, a
/// binary64 number and any other kind of value.
#[verifier::external_body]
pub(crate) fn value_unsigned(value: &serde_json::Value) -> (out: Option<u64>)
    ensures
        match out {
            Some(n) => json_tree(*value) == JsonTree::Number(JsonNumber::Unsigned(n)),
            None => !(json_tree(*value) matches JsonTree::Number(JsonNumber::Unsigned(_))),
        },
{
    value.as_u64()
}

/// Whether a value is the JSON `null`.
///
/// Trusted: calls `serde_json::Value::is_null`.
#[verifier::external_body]
pub(crate) fn value_is_null(value: &serde_json::Value) -> (out: bool)
    ensures
        out == (json_tree(*value) is Null),
{
    value.is_null()
}

/// Whether a value is a JSON object.
///
/// Trusted: calls `serde_json::Value::is_object`.
#[verifier::external_body]
pub(crate) fn value_is_object(value: &serde_json::Value) -> (out: bool)
    ensures
        out == (json_tree(*value) is Object),
{
    value.is_object()
}

} // verus!
