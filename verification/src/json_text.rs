//! Reading and writing JSON text, which `serde_json` does for this crate.

use vstd::prelude::*;

use crate::json::{Json, JsonNumber, JsonValue};

verus! {

#[verifier::external_type_specification]
#[verifier::external_body]
pub struct ExSerdeJsonValue(serde_json::Value);

/// The compact JSON text that `serde_json` writes for a value: no whitespace,
/// object members ordered by key.
pub uninterp spec fn json_text(j: Json) -> Seq<char>;

/// What `serde_json` reads from a byte string: the value, or the text of the
/// error it reports.
pub uninterp spec fn json_parse(bytes: Seq<u8>) -> Result<Json, Seq<char>>;

/// The compact JSON text of `v`.
///
/// Calls `Display` of `serde_json::Value` on the value that `v` stands for,
/// writing into a `String`. The contract claims that the text is a function of
/// the value alone, and that it holds no raw newline: the compact writer puts
/// no whitespace between tokens and escapes every control character inside a
/// string.
#[verifier::external_body]
pub fn render_json(v: &JsonValue) -> (r: String)
    ensures
        r@ == json_text(v@),
        forall|i: int| 0 <= i < r@.len() ==> r@[i] != '\n',
{
    to_serde_value(v).to_string()
}

/// Reads one JSON value from a byte string.
///
/// Calls `serde_json::from_slice::<serde_json::Value>`; an error becomes the
/// text that its `Display` writes. The contract claims that the outcome, the
/// value or that text, is a function of the bytes alone.
#[verifier::external_body]
pub fn parse_json(bytes: &[u8]) -> (r: Result<JsonValue, String>)
    ensures
        match r {
            Ok(v) => json_parse(bytes@) == Ok::<Json, Seq<char>>(v@),
            Err(e) => json_parse(bytes@) == Err::<Json, Seq<char>>(e@),
        },
{
    match serde_json::from_slice::<serde_json::Value>(bytes) {
        Ok(value) => Ok(from_serde_value(value)),
        Err(error) => Err(error.to_string()),
    }
}

/// The `serde_json::Value` that a [`JsonValue`] stands for, one variant for one
/// variant; a number is read back from its text.
#[verifier::external_body]
fn to_serde_value(v: &JsonValue) -> serde_json::Value {
    match v {
        JsonValue::Null => serde_json::Value::Null,
        JsonValue::Bool(b) => serde_json::Value::Bool(*b),
        JsonValue::Number(n) => n.as_text().parse::<serde_json::Number>().map_or(
            serde_json::Value::Null,
            serde_json::Value::Number,
        ),
        JsonValue::String(s) => serde_json::Value::String(s.clone()),
        JsonValue::Array(items) => serde_json::Value::Array(items.iter().map(to_serde_value).collect()),
        JsonValue::Object(members) => serde_json::Value::Object(
            members.iter().map(|(k, v)| (k.clone(), to_serde_value(v))).collect(),
        ),
    }
}

/// The [`JsonValue`] that stands for a `serde_json::Value`, one variant for one
/// variant; a number is kept as its text.
#[verifier::external_body]
fn from_serde_value(v: serde_json::Value) -> JsonValue {
    match v {
        serde_json::Value::Null => JsonValue::Null,
        serde_json::Value::Bool(b) => JsonValue::Bool(b),
        serde_json::Value::Number(n) => JsonValue::Number(JsonNumber::from_text(n.to_string())),
        serde_json::Value::String(s) => JsonValue::String(s),
        serde_json::Value::Array(items) => JsonValue::Array(items.into_iter().map(from_serde_value).collect()),
        serde_json::Value::Object(map) => JsonValue::Object(
            map.into_iter().map(|(k, v)| (k, from_serde_value(v))).collect(),
        ),
    }
}

} // verus!
