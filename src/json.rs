//! The boundary with serde_json: reading caller input and service results as JSON, and
//! writing JSON values back as text.
use vstd::prelude::*;

use crate::payload::{keys_of, pairs_of, InputPayload};

verus! {

#[verifier::external_type_specification]
#[verifier::external_body]
pub struct ExJsonValue(serde_json::Value);

#[verifier::external_type_specification]
#[verifier::external_body]
pub struct ExJsonError(serde_json::Error);

/// Whether `text` is one well-formed JSON document, as serde_json reads it.
pub uninterp spec fn json_valid(text: Seq<char>) -> bool;

/// Whether `text` reads, with serde_json, as a JSON array.
pub uninterp spec fn json_is_array(text: Seq<char>) -> bool;

/// Whether `text` reads, with serde_json, as a JSON object.
pub uninterp spec fn json_is_object(text: Seq<char>) -> bool;

/// A parsed JSON value, split by its outermost shape.
pub enum JsonShape {
    Array(Vec<serde_json::Value>),
    Object(Vec<(String, serde_json::Value)>),
    Scalar(serde_json::Value),
}

/// Relies on serde_json::from_str::<Value>: whether it succeeds, and the variant of the
/// value it reads, depend on the text alone; an object is a serde_json::Map, which holds
/// each key once.
#[verifier::external_body]
fn parse_json(text: &str) -> (r: Result<JsonShape, serde_json::Error>)
    ensures
        r is Ok <==> json_valid(text@),
        r matches Ok(shape) ==> (shape is Array <==> json_is_array(text@)) && (shape is Object
            <==> json_is_object(text@)),
        r matches Ok(JsonShape::Object(entries)) ==> forall|i: int, j: int|
            0 <= i < entries@.len() && 0 <= j < entries@.len() && i != j ==> entries@[i].0@
                != entries@[j].0@,
{
    match serde_json::from_str::<serde_json::Value>(text) {
        Ok(serde_json::Value::Array(items)) => Ok(JsonShape::Array(items)),
        Ok(serde_json::Value::Object(map)) => Ok(JsonShape::Object(map.into_iter().collect())),
        Ok(other) => Ok(JsonShape::Scalar(other)),
        Err(e) => Err(e),
    }
}

/// Relies on serde_json::to_string, which fails only through a failing `Serialize` impl or
/// a map key that is not a string; a `Value` has neither.
#[verifier::external_body]
fn compact_text(v: &serde_json::Value) -> (r: Result<String, serde_json::Error>)
    ensures
        r is Ok,
{
    serde_json::to_string(v)
}

/// Relies on serde_json::to_string_pretty, on the value put back together from its shape;
/// it fails only through a failing `Serialize` impl or a map key that is not a string, and
/// a `Value` has neither.
#[verifier::external_body]
fn pretty_text(shape: JsonShape) -> (r: Result<String, serde_json::Error>)
    ensures
        r is Ok,
{
    let v = match shape {
        JsonShape::Array(items) => serde_json::Value::Array(items),
        JsonShape::Object(entries) => serde_json::Value::Object(entries.into_iter().collect()),
        JsonShape::Scalar(v) => v,
    };
    serde_json::to_string_pretty(&v)
}

/// Relies on serde_json::Error's Debug output: a description of a parse failure.
#[verifier::external_body]
fn error_text(e: &serde_json::Error) -> (r: String) {
    format!("{:?}", e)
}

/// The compact JSON text of a value.
fn encode(v: &serde_json::Value) -> (r: String) {
    compact_text(v).unwrap()
}

/// Reads caller input: a JSON array or object becomes the positional or named payload,
/// each value held as its compact JSON text; anything else is invalid.
pub fn parse_payload(text: &str) -> (r: InputPayload)
    ensures
        r is Array <==> json_valid(text@) && json_is_array(text@),
        r is Object <==> json_valid(text@) && json_is_object(text@),
        !json_valid(text@) ==> r is Invalid,
        r matches InputPayload::Object(entries) ==> keys_of(pairs_of(entries@)).no_duplicates(),
{
    match parse_json(text) {
        Err(e) => InputPayload::Invalid(error_text(&e)),
        Ok(shape) => match shape {
            JsonShape::Array(items) => {
                let mut out: Vec<String> = Vec::new();
                let mut i: usize = 0;
                while i < items.len()
                    invariant
                        i <= items@.len(),
                    decreases items.len() - i,
                {
                    out.push(encode(&items[i]));
                    i = i + 1;
                }
                InputPayload::Array(out)
            },
            JsonShape::Object(entries) => {
                let mut out: Vec<(String, String)> = Vec::new();
                let mut i: usize = 0;
                while i < entries.len()
                    invariant
                        i <= entries@.len(),
                        out@.len() == i,
                        forall|k: int| 0 <= k < i ==> (#[trigger] out@[k]).0@ == entries@[k].0@,
                        forall|a: int, b: int|
                            0 <= a < entries@.len() && 0 <= b < entries@.len() && a != b
                                ==> entries@[a].0@ != entries@[b].0@,
                    decreases entries.len() - i,
                {
                    let key = entries[i].0.clone();
                    let value = encode(&entries[i].1);
                    out.push((key, value));
                    i = i + 1;
                }
                proof {
                    let keys = keys_of(pairs_of(out@));
                    assert forall|a: int, b: int|
                        0 <= a < keys.len() && 0 <= b < keys.len() && a != b implies keys[a]
                        != keys[b] by {
                        assert(keys[a] == out@[a].0@);
                        assert(keys[b] == out@[b].0@);
                    }
                }
                InputPayload::Object(out)
            },
            JsonShape::Scalar(_) => InputPayload::Invalid(String::from_str("expected a JSON array or object")),
        },
    }
}

/// The service's result re-emitted as indented JSON, exactly when it parses as JSON.
pub fn reformat_pretty(result: &str) -> (r: Option<String>)
    ensures
        r is Some <==> json_valid(result@),
{
    match parse_json(result) {
        Ok(shape) => Some(pretty_text(shape).unwrap()),
        Err(_) => None,
    }
}

} // verus!
