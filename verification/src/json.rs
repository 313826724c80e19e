//! JSON documents as values of this library.

use vstd::prelude::*;

verus! {

/// A JSON value.
#[derive(Debug)]
pub enum JsonValue {
    /// `null`.
    Null,
    /// `true` or `false`.
    Bool(bool),
    /// A number; its value where it is an integer from -2^63 to 2^63 - 1.
    Number(Option<i64>),
    /// A string.
    Text(String),
    /// An array and its items.
    Array(Vec<JsonValue>),
    /// An object and its members; where a key stands more than once, its
    /// first member counts.
    Object(Vec<(String, JsonValue)>),
}

/// `serde_json::Value`, of which nothing is seen here but what `json_of`
/// names.
#[verifier::external_type_specification]
#[verifier::external_body]
pub struct ExValue(serde_json::Value);

/// The value that `serde_json` reads from a text as one JSON document;
/// `None` for a text that it refuses.
pub uninterp spec fn json_document(text: Seq<char>) -> Option<JsonValue>;

/// What a value of `serde_json` holds.
pub uninterp spec fn json_of(value: serde_json::Value) -> JsonValue;

/// Calls `serde_json::from_str` for a `serde_json::Value`, which reads one
/// JSON document from the whole text and fails on anything else. The result
/// depends on the text alone; the contract gives it a name and says no more.
#[verifier::external_body]
fn read_document(text: &str) -> (r: Option<serde_json::Value>)
    ensures
        match r {
            Some(value) => json_document(text@) == Some(json_of(value)),
            None => json_document(text@) is None,
        },
{
    serde_json::from_str::<serde_json::Value>(text).ok()
}

/// Tells the six variants of `serde_json::Value` apart and moves what each
/// holds: a number through `Number::as_i64`, which gives the value of an
/// integer that fits `i64` and nothing for any other number; the members of
/// an object in the order in which `Map::iter` hands them out.
#[verifier::external_body]
fn lower_value(value: &serde_json::Value) -> (r: JsonValue)
    ensures
        r == json_of(*value),
{
    match value {
        serde_json::Value::Null => JsonValue::Null,
        serde_json::Value::Bool(flag) => JsonValue::Bool(*flag),
        serde_json::Value::Number(number) => JsonValue::Number(number.as_i64()),
        serde_json::Value::String(text) => JsonValue::Text(text.clone()),
        serde_json::Value::Array(items) => JsonValue::Array(items.iter().map(lower_value).collect()),
        serde_json::Value::Object(members) => JsonValue::Object(
            members.iter().map(|(key, item)| (key.clone(), lower_value(item))).collect(),
        ),
    }
}

/// The value that `text` is as a JSON document, if it is one.
pub fn parse_json(text: &str) -> (r: Option<JsonValue>)
    ensures
        r == json_document(text@),
{
    match read_document(text) {
        Some(value) => Some(lower_value(&value)),
        None => None,
    }
}

} // verus!
