//! JSON text and bytes, read and written by serde_json.
use vstd::prelude::*;
use crate::json::{opt_view, Json, JsonMap, JsonNumber, JsonV};
use serde_json::Value;

verus! {

/// serde_json's JSON value, the form its reader and writer work on.
#[verifier::external_type_specification]
#[verifier::external_body]
pub struct ExJsonValue(Value);

/// The value that the bytes `bytes` parse as; `None` when they are not one
/// JSON value (surrounded by whitespace at most) in UTF-8.
pub uninterp spec fn json_parse(bytes: Seq<u8>) -> Option<JsonV>;

/// The compact JSON text of `v`.
pub uninterp spec fn json_text(v: JsonV) -> Seq<char>;

/// The compact JSON bytes of `v`; `None` when writing fails.
pub uninterp spec fn json_encoding(v: JsonV) -> Option<Seq<u8>>;

/// The library's value of a serde_json value, one for one: numbers as the
/// non-negative integer, negative integer, or other number (by its text)
/// that serde_json holds; object members in serde_json's order, whose map
/// holds each name once, as an object of the library must.
#[verifier::external_body]
fn from_serde(v: &Value) -> Json {
    match v {
        Value::Null => Json::Null,
        Value::Bool(b) => Json::Bool(*b),
        Value::Number(n) => Json::Number(match (n.as_u64(), n.as_i64()) {
            (Some(u), _) => JsonNumber::PosInt(u),
            (None, Some(i)) => JsonNumber::NegInt(i),
            _ => JsonNumber::Float(n.to_string()),
        }),
        Value::String(s) => Json::Str(s.clone()),
        Value::Array(items) => Json::Array(items.iter().map(from_serde).collect()),
        Value::Object(m) => Json::Object(JsonMap { entries: m.iter().map(|(k, x)| (k.clone(), from_serde(x))).collect() }),
    }
}

/// The serde_json value of a library value, one for one; a number text that
/// is not a JSON number becomes `null`.
#[verifier::external_body]
fn to_serde(v: &Json) -> Value {
    match v {
        Json::Null => Value::Null,
        Json::Bool(b) => Value::Bool(*b),
        Json::Number(JsonNumber::PosInt(u)) => Value::from(*u),
        Json::Number(JsonNumber::NegInt(i)) => Value::from(*i),
        Json::Number(JsonNumber::Float(t)) => t.parse::<serde_json::Number>().map(Value::Number).unwrap_or(Value::Null),
        Json::Str(s) => Value::String(s.clone()),
        Json::Array(items) => Value::Array(items.iter().map(to_serde).collect()),
        Json::Object(m) => Value::Object(m.members().iter().map(|(k, x)| (k.clone(), to_serde(x))).collect()),
    }
}

/// `serde_json::from_slice` (serde_json), read as a `serde_json::Value`:
/// the value `bytes` parse as. Claimed: the outcome is a function of the bytes
/// alone.
#[verifier::external_body]
pub(crate) fn parse_json(bytes: &[u8]) -> (r: Option<Json>)
    ensures
        opt_view(r) == json_parse(bytes@),
{
    serde_json::from_slice::<Value>(bytes).ok().map(|v| from_serde(&v))
}

/// `Display` of `serde_json::Value` (serde_json): the compact text of `v`.
/// Claimed: the text is a function of the value alone.
#[verifier::external_body]
pub(crate) fn to_text(v: &Json) -> (r: String)
    ensures
        r@ == json_text(v@),
{
    to_serde(v).to_string()
}

/// `serde_json::to_vec` (serde_json): the compact bytes of `v`, or the
/// description of the failure. Claimed: whether it fails and the bytes are a
/// function of the value alone; the description is not stated.
#[verifier::external_body]
pub(crate) fn encode_json(v: &Json) -> (r: Result<Vec<u8>, String>)
    ensures
        match r {
            Ok(b) => json_encoding(v@) == Some(b@),
            Err(_) => json_encoding(v@) is None,
        },
{
    serde_json::to_vec(&to_serde(v)).map_err(|e| e.to_string())
}

} // verus!
