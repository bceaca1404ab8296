//! Reading JSON text into the library's document model, through serde_json.

use vstd::prelude::*;
use crate::value::{JsonData, JsonValue};

verus! {

#[verifier::external_type_specification]
#[verifier::external_body]
pub struct ExSerdeValue(serde_json::Value);

#[verifier::external_type_specification]
#[verifier::external_body]
pub struct ExSerdeNumber(serde_json::Number);

/// What parsing this text as JSON yields: the document's model, or
/// nothing when the text is not valid JSON. serde_json with its default
/// features parses deterministically — object keys come out sorted and a
/// repeated key keeps its last value — so the result is a function of the
/// text alone.
pub uninterp spec fn json_parse(s: Seq<char>) -> Option<JsonData>;

/// Converts a parsed number, keeping its shape. Relies on
/// `serde_json::Number::as_u64`/`as_i64`/`as_f64`: the first accepts
/// exactly the unsigned integers, the second the remaining signed ones,
/// and the third never fails on a float-shaped number.
#[verifier::external_body]
fn of_serde_num(n: serde_json::Number) -> JsonValue {
    if let Some(u) = n.as_u64() {
        JsonValue::PosInt(u)
    } else if let Some(i) = n.as_i64() {
        JsonValue::NegInt(i)
    } else {
        match n.as_f64() {
            Some(x) => JsonValue::Float(const_soft_float::soft_f64::SoftF64::from_f64(x).to_bits()),
            None => JsonValue::Null,
        }
    }
}

/// Converts a parsed document, one node for one node, in the order
/// serde_json's map iterates (sorted by key). Relies on
/// `serde_json::Value` pattern matching and iteration only.
#[verifier::external_body]
fn of_serde(v: serde_json::Value) -> JsonValue {
    match v {
        serde_json::Value::Null => JsonValue::Null,
        serde_json::Value::Bool(b) => JsonValue::Bool(b),
        serde_json::Value::Number(n) => of_serde_num(n),
        serde_json::Value::String(s) => JsonValue::String(s),
        serde_json::Value::Array(a) => JsonValue::Array(a.into_iter().map(of_serde).collect()),
        serde_json::Value::Object(m) => JsonValue::Object(
            m.into_iter().map(|e| (e.0, of_serde(e.1))).collect(),
        ),
    }
}

/// Relies on `serde_json::from_str`: text parses to a document exactly
/// when it is valid JSON, and what it parses to is a function of the text.
#[verifier::external_body]
pub fn parse_document(text: &str) -> (r: Option<JsonValue>)
    ensures
        r is Some <==> json_parse(text@) is Some,
        r is Some ==> r->0@ == json_parse(text@)->0,
{
    match serde_json::from_str::<serde_json::Value>(text) {
        Ok(v) => Some(of_serde(v)),
        Err(_) => None,
    }
}

} // verus!
