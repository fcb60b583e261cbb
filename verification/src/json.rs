//! A JSON document model and typed field access.
//!
//! Responses arrive as JSON text. The text is parsed (through an outside
//! parser, behind one trusted wrapper) into `JsonValue`, and everything that
//! reads fields out of a document is verified against the exact lookup
//! semantics below. Numbers are modeled as signed 64-bit integers, which is
//! what every field of this API carries; a document with a fractional or
//! out-of-range number is treated as undecodable.

use crate::strutil::str_eq;
use vstd::prelude::*;

verus! {

/// A decoded JSON document.
pub enum JsonValue {
    Null,
    Bool(bool),
    Int(i64),
    Str(String),
    Arr(Vec<JsonValue>),
    Obj(Vec<(String, JsonValue)>),
}

/// First member of an object with key `k`, if any. Later duplicates are
/// shadowed, and members with other keys are ignored, which is what keeps
/// decoding forward-compatible with fields this crate does not know.
pub open spec fn json_get(entries: Seq<(String, JsonValue)>, k: Seq<char>) -> Option<JsonValue>
    decreases entries.len(),
{
    if entries.len() == 0 {
        None
    } else if entries[0].0@ == k {
        Some(entries[0].1)
    } else {
        json_get(entries.drop_first(), k)
    }
}

/// Reference to the first member of an object with key `k`.
pub fn obj_get<'a>(entries: &'a Vec<(String, JsonValue)>, k: &str) -> (r: Option<&'a JsonValue>)
    ensures
        match r {
            Some(v) => json_get(entries@, k@) == Some(*v),
            None => json_get(entries@, k@) is None,
        },
{
    let n = entries.len();
    let mut i: usize = 0;
    proof {
        assert(entries@.skip(0) =~= entries@);
    }
    while i < n
        invariant
            i <= n,
            n == entries@.len(),
            json_get(entries@, k@) == json_get(entries@.skip(i as int), k@),
        decreases n - i,
    {
        proof {
            assert(entries@.skip(i as int)[0] == entries@[i as int]);
            assert(entries@.skip(i as int).drop_first() =~= entries@.skip(i + 1));
        }
        if str_eq(entries[i].0.as_str(), k) {
            return Some(&entries[i].1);
        }
        i += 1;
    }
    proof {
        assert(entries@.skip(n as int) =~= Seq::<(String, JsonValue)>::empty());
    }
    None
}

/// An optional integer field is well-shaped when absent, null, or an integer.
pub open spec fn opt_i64_ok(g: Option<JsonValue>) -> bool {
    match g {
        None => true,
        Some(JsonValue::Null) => true,
        Some(JsonValue::Int(_)) => true,
        _ => false,
    }
}

/// The value of a well-shaped optional integer field.
pub open spec fn opt_i64_val(g: Option<JsonValue>) -> Option<i64> {
    match g {
        Some(JsonValue::Int(n)) => Some(n),
        _ => None,
    }
}

/// Reads an optional integer field; fails exactly on a present, non-null,
/// non-integer member.
pub fn get_opt_i64(entries: &Vec<(String, JsonValue)>, k: &str) -> (r: Result<Option<i64>, ()>)
    ensures
        r is Ok <==> opt_i64_ok(json_get(entries@, k@)),
        r matches Ok(f) ==> f == opt_i64_val(json_get(entries@, k@)),
{
    match obj_get(entries, k) {
        None => Ok(None),
        Some(JsonValue::Null) => Ok(None),
        Some(JsonValue::Int(n)) => Ok(Some(*n)),
        Some(_) => Err(()),
    }
}

/// An optional non-negative integer field: absent, null, or an integer
/// that is not negative.
pub open spec fn opt_u64_ok(g: Option<JsonValue>) -> bool {
    match g {
        None => true,
        Some(JsonValue::Null) => true,
        Some(JsonValue::Int(n)) => n >= 0,
        _ => false,
    }
}

/// The value of a well-shaped optional non-negative integer field.
pub open spec fn opt_u64_val(g: Option<JsonValue>) -> Option<u64> {
    match g {
        Some(JsonValue::Int(n)) => if n >= 0 {
            Some(n as u64)
        } else {
            None
        },
        _ => None,
    }
}

/// Reads an optional non-negative integer field.
pub fn get_opt_u64(entries: &Vec<(String, JsonValue)>, k: &str) -> (r: Result<Option<u64>, ()>)
    ensures
        r is Ok <==> opt_u64_ok(json_get(entries@, k@)),
        r matches Ok(f) ==> f == opt_u64_val(json_get(entries@, k@)),
{
    match obj_get(entries, k) {
        None => Ok(None),
        Some(JsonValue::Null) => Ok(None),
        Some(JsonValue::Int(n)) => if *n >= 0 {
            Ok(Some(*n as u64))
        } else {
            Err(())
        },
        Some(_) => Err(()),
    }
}

/// An optional boolean field: absent, null, or a boolean.
pub open spec fn opt_bool_ok(g: Option<JsonValue>) -> bool {
    match g {
        None => true,
        Some(JsonValue::Null) => true,
        Some(JsonValue::Bool(_)) => true,
        _ => false,
    }
}

/// The value of a well-shaped optional boolean field.
pub open spec fn opt_bool_val(g: Option<JsonValue>) -> Option<bool> {
    match g {
        Some(JsonValue::Bool(b)) => Some(b),
        _ => None,
    }
}

/// Reads an optional boolean field.
pub fn get_opt_bool(entries: &Vec<(String, JsonValue)>, k: &str) -> (r: Result<Option<bool>, ()>)
    ensures
        r is Ok <==> opt_bool_ok(json_get(entries@, k@)),
        r matches Ok(f) ==> f == opt_bool_val(json_get(entries@, k@)),
{
    match obj_get(entries, k) {
        None => Ok(None),
        Some(JsonValue::Null) => Ok(None),
        Some(JsonValue::Bool(b)) => Ok(Some(*b)),
        Some(_) => Err(()),
    }
}

/// An optional string field: absent, null, or a string.
pub open spec fn opt_str_ok(g: Option<JsonValue>) -> bool {
    match g {
        None => true,
        Some(JsonValue::Null) => true,
        Some(JsonValue::Str(_)) => true,
        _ => false,
    }
}

/// Whether an optional string field holds `f`, compared by characters.
pub open spec fn opt_str_matches(f: Option<String>, g: Option<JsonValue>) -> bool {
    match g {
        Some(JsonValue::Str(s)) => f matches Some(t) && t@ == s@,
        _ => f is None,
    }
}

/// Reads an optional string field.
pub fn get_opt_string(entries: &Vec<(String, JsonValue)>, k: &str) -> (r: Result<
    Option<String>,
    (),
>)
    ensures
        r is Ok <==> opt_str_ok(json_get(entries@, k@)),
        r matches Ok(f) ==> opt_str_matches(f, json_get(entries@, k@)),
{
    match obj_get(entries, k) {
        None => Ok(None),
        Some(JsonValue::Null) => Ok(None),
        Some(JsonValue::Str(s)) => Ok(Some(s.clone())),
        Some(_) => Err(()),
    }
}

/// A required string field: present and a string.
pub open spec fn req_str_ok(g: Option<JsonValue>) -> bool {
    g matches Some(v) && v matches JsonValue::Str(_)
}

/// The characters of a required string field.
pub open spec fn req_str_val(g: Option<JsonValue>) -> Seq<char> {
    match g {
        Some(JsonValue::Str(s)) => s@,
        _ => Seq::empty(),
    }
}

/// Reads a required string field.
pub fn get_req_str<'a>(entries: &'a Vec<(String, JsonValue)>, k: &str) -> (r: Result<&'a String, ()>)
    ensures
        r is Ok <==> req_str_ok(json_get(entries@, k@)),
        r matches Ok(s) ==> s@ == req_str_val(json_get(entries@, k@)),
{
    match obj_get(entries, k) {
        Some(JsonValue::Str(s)) => Ok(s),
        _ => Err(()),
    }
}

/// A required boolean field: present and a boolean.
pub open spec fn req_bool_ok(g: Option<JsonValue>) -> bool {
    g matches Some(v) && v matches JsonValue::Bool(_)
}

/// The value of a required boolean field.
pub open spec fn req_bool_val(g: Option<JsonValue>) -> bool {
    match g {
        Some(JsonValue::Bool(b)) => b,
        _ => false,
    }
}

/// Reads a required boolean field.
pub fn get_req_bool(entries: &Vec<(String, JsonValue)>, k: &str) -> (r: Result<bool, ()>)
    ensures
        r is Ok <==> req_bool_ok(json_get(entries@, k@)),
        r matches Ok(b) ==> b == req_bool_val(json_get(entries@, k@)),
{
    match obj_get(entries, k) {
        Some(JsonValue::Bool(b)) => Ok(*b),
        _ => Err(()),
    }
}

/// The JSON document a piece of text denotes, if it is well-formed JSON
/// whose numbers all fit a signed 64-bit integer.
pub uninterp spec fn json_doc_of(s: Seq<char>) -> Option<JsonValue>;

/// The outside parser's document type, opaque to this crate: values of it
/// only pass through the conversion below.
#[verifier::external_type_specification]
#[verifier::external_body]
pub struct ExSerdeValue(serde_json::Value);

/// Relies on `serde_json::from_str::<serde_json::Value>`: the result is the
/// JSON parse of the text, a function of the text alone; parse failures
/// report `Err`. Integer-only conversion of numbers is applied on top, so a
/// document with fractional or oversized numbers is reported as `None`.
#[verifier::external_body]
pub fn parse_json(s: &str) -> (r: Option<JsonValue>)
    ensures
        r == json_doc_of(s@),
{
    match serde_json::from_str::<serde_json::Value>(s) {
        Ok(v) => convert_json(&v),
        Err(_) => None,
    }
}

/// Relies on the shape of `serde_json::Value` alone: each variant is mapped
/// to the matching `JsonValue` variant, fields moved one for one; a number
/// that `as_i64` cannot represent makes the whole conversion `None`.
#[verifier::external_body]
fn convert_json(v: &serde_json::Value) -> Option<JsonValue> {
    match v {
        serde_json::Value::Null => Some(JsonValue::Null),
        serde_json::Value::Bool(b) => Some(JsonValue::Bool(*b)),
        serde_json::Value::Number(n) => n.as_i64().map(JsonValue::Int),
        serde_json::Value::String(s) => Some(JsonValue::Str(s.clone())),
        serde_json::Value::Array(a) => a.iter().map(convert_json).collect::<Option<Vec<_>>>().map(
            JsonValue::Arr,
        ),
        serde_json::Value::Object(m) => m.iter().map(
            |p| convert_json(p.1).map(|j| (p.0.clone(), j)),
        ).collect::<Option<Vec<_>>>().map(JsonValue::Obj),
    }
}

} // verus!
