//! The boundary to serde_json. Frames and payload bodies arrive as JSON
//! text; serde_json parses them into `serde_json::Value` trees, which this
//! library carries opaquely and reads field by field through the wrappers
//! below. `JsonData` is the mathematical model of such a tree: `json_model`
//! names what a value holds and `spec_json_parse` names what a text parses
//! to, and every wrapper's contract speaks over them, so that the verified
//! decoders built on top can promise exactly what they decode.

use vstd::prelude::*;

verus! {

/// Declares `serde_json::Value`, the parsed JSON tree, so that frames and
/// payloads can hold one; the library never looks inside except through
/// the wrappers below.
#[verifier::external_type_specification]
#[verifier::external_body]
pub struct ExValue(serde_json::Value);

/// The model of a JSON value. A number appears as `Int` exactly when it is
/// a non-negative integer representable as `u64` — the one reading this
/// library makes — and as `OtherNum` otherwise.
pub enum JsonData {
    Null,
    Bool(bool),
    Int(u64),
    OtherNum,
    Str(Seq<char>),
    Arr(Seq<JsonData>),
    Obj(Map<Seq<char>, JsonData>),
}

/// What a `serde_json::Value` holds, as its model.
pub uninterp spec fn json_model(v: serde_json::Value) -> JsonData;

/// What JSON text parses to under serde_json: the model of the resulting
/// tree, or `None` for text serde_json rejects.
pub uninterp spec fn spec_json_parse(text: Seq<char>) -> Option<JsonData>;

/// The value under `key` when `d` is an object with that key.
pub open spec fn spec_get(d: JsonData, key: Seq<char>) -> Option<JsonData> {
    match d {
        JsonData::Obj(m) => if m.contains_key(key) {
            Some(m[key])
        } else {
            None
        },
        _ => None,
    }
}

/// The integer under `key`, when present and representable as `u64`.
pub open spec fn spec_u64_field(d: JsonData, key: Seq<char>) -> Option<u64> {
    match spec_get(d, key) {
        Some(JsonData::Int(n)) => Some(n),
        _ => None,
    }
}

/// The text under `key`, when present and a JSON string.
pub open spec fn spec_str_field(d: JsonData, key: Seq<char>) -> Option<Seq<char>> {
    match spec_get(d, key) {
        Some(JsonData::Str(s)) => Some(s),
        _ => None,
    }
}

/// The text under `key` read as an optional field: `Some(None)` when the
/// field is absent or null, `Some(Some(s))` when it is a string, and `None`
/// — a malformed shape — when it is present but something else.
pub open spec fn spec_opt_str_field(d: JsonData, key: Seq<char>) -> Option<Option<Seq<char>>> {
    match spec_get(d, key) {
        None => Some(None),
        Some(JsonData::Null) => Some(None),
        Some(JsonData::Str(s)) => Some(Some(s)),
        Some(_) => None,
    }
}

/// Relies on `serde_json::from_str`: parses JSON text into a value tree
/// modelled by `spec_json_parse`, or reports why the text is not JSON.
#[verifier::external_body]
pub fn json_parse(text: &str) -> (r: Result<serde_json::Value, String>)
    ensures
        r is Ok <==> spec_json_parse(text@) is Some,
        r matches Ok(v) ==> spec_json_parse(text@) == Some(json_model(v)),
{
    serde_json::from_str(text).map_err(|e| e.to_string())
}

/// Relies on `serde_json::Value::get`: the value under `key` when `v` is an
/// object with that key, `None` otherwise.
#[verifier::external_body]
pub fn json_get<'a>(v: &'a serde_json::Value, key: &str) -> (r: Option<&'a serde_json::Value>)
    ensures
        match spec_get(json_model(*v), key@) {
            Some(d) => r matches Some(x) && json_model(*x) == d,
            None => r is None,
        },
{
    v.get(key)
}

/// Relies on `serde_json::Value::as_u64`: the integer when `v` is a number
/// representable as `u64`, `None` otherwise.
#[verifier::external_body]
pub fn json_u64(v: &serde_json::Value) -> (r: Option<u64>)
    ensures
        r == (match json_model(*v) {
            JsonData::Int(n) => Some(n),
            _ => None::<u64>,
        }),
{
    v.as_u64()
}

/// Relies on `serde_json::Value::as_str`: the text when `v` is a JSON
/// string, `None` otherwise.
#[verifier::external_body]
pub fn json_str<'a>(v: &'a serde_json::Value) -> (r: Option<&'a str>)
    ensures
        match json_model(*v) {
            JsonData::Str(s) => r matches Some(t) && t@ == s,
            _ => r is None,
        },
{
    v.as_str()
}

/// Relies on `serde_json::Value::as_array`: the elements when `v` is a JSON
/// array, `None` otherwise; each returned element models the corresponding
/// element of the array.
#[verifier::external_body]
pub fn json_array(v: &serde_json::Value) -> (r: Option<Vec<serde_json::Value>>)
    ensures
        match json_model(*v) {
            JsonData::Arr(elems) => r matches Some(a) && a@.len() == elems.len() && (forall|
                i: int,
            | 0 <= i < elems.len() ==> json_model(#[trigger] a@[i]) == elems[i]),
            _ => r is None,
        },
{
    v.as_array().cloned()
}

/// Relies on `serde_json::Value::is_null`: whether `v` is JSON `null`.
#[verifier::external_body]
pub fn json_is_null(v: &serde_json::Value) -> (r: bool)
    ensures
        r == (json_model(*v) is Null),
{
    v.is_null()
}

/// Relies on `serde_json::Value`'s `Clone`: an owned copy of the value
/// tree, holding the same model.
#[verifier::external_body]
pub fn json_clone(v: &serde_json::Value) -> (r: serde_json::Value)
    ensures
        json_model(r) == json_model(*v),
{
    v.clone()
}

} // verus!
