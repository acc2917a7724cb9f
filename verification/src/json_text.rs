use vstd::prelude::*;

use crate::json::{JsonValue, JsonView};

verus! {

#[verifier::external_type_specification]
#[verifier::external_body]
pub struct ExSerdeJsonValue(serde_json::Value);

/// The document that `serde_json::from_str` reads from a text, or `None` when the text is not
/// valid JSON.
pub uninterp spec fn spec_parse_json(text: Seq<char>) -> Option<JsonView>;

/// Copies a `serde_json` document into a `JsonValue`, value for value: integers (which
/// `serde_json` holds as an `i64` or a `u64`) are kept, other numbers become `Number(None)`,
/// and object members keep the order in which `serde_json` holds them.
#[verifier::external_body]
fn json_value_from_serde(value: serde_json::Value) -> JsonValue {
    match value {
        serde_json::Value::Null => JsonValue::Null,
        serde_json::Value::Bool(b) => JsonValue::Bool(b),
        serde_json::Value::Number(n) => JsonValue::Number(n.as_i128()),
        serde_json::Value::String(s) => JsonValue::Str(s),
        serde_json::Value::Array(items) => JsonValue::Array(items.into_iter().map(json_value_from_serde).collect()),
        serde_json::Value::Object(map) => JsonValue::Object(
            map.into_iter().map(|(k, v)| (k, json_value_from_serde(v))).collect(),
        ),
    }
}

/// Reads a JSON text with `serde_json::from_str` into a `serde_json::Value` and copies it
/// into a `JsonValue`. The contract claims only that the outcome is a function of the text:
/// the document `spec_parse_json` names when the text is valid JSON, and `None` otherwise.
#[verifier::external_body]
pub(crate) fn parse_json_text(text: &str) -> (r: Option<JsonValue>)
    ensures
        match spec_parse_json(text@) {
            Some(v) => r is Some && r.unwrap()@ == v,
            None => r is None,
        },
{
    serde_json::from_str::<serde_json::Value>(text).ok().map(json_value_from_serde)
}

} // verus!
