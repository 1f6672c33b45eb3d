//! JSON values read with `serde_json`: what a value holds, and the few accessors the
//! editor protocol needs.
use vstd::prelude::*;

verus! {

#[verifier::external_type_specification]
#[verifier::external_body]
pub struct ExJsonValue(serde_json::Value);

/// A JSON number as `serde_json` reads it back: as a `u64` where it is a non-negative
/// integer, and as the bit pattern of the `f64` nearest to it.
pub struct JsonNumber {
    pub as_u64: Option<u64>,
    pub as_f64_bits: u64,
}

/// What a JSON value holds.
pub enum JsonModel {
    Null,
    Bool(bool),
    Number(JsonNumber),
    String(Seq<char>),
    Array(Seq<JsonModel>),
    Object(Map<Seq<char>, JsonModel>),
}

/// What a `serde_json::Value` holds.
pub uninterp spec fn json_model(v: serde_json::Value) -> JsonModel;

/// What `serde_json::from_str` reads from `text` into a `serde_json::Value`: `None`
/// where the text is no JSON.
pub uninterp spec fn json_text(text: Seq<char>) -> Option<JsonModel>;

/// The member `key` of an object; `None` for a missing key or a value that is no object.
pub open spec fn json_member(m: JsonModel, key: Seq<char>) -> Option<JsonModel> {
    match m {
        JsonModel::Object(o) => if o.contains_key(key) {
            Some(o[key])
        } else {
            None
        },
        _ => None,
    }
}

/// The text of a string value.
pub open spec fn json_string(m: Option<JsonModel>) -> Option<Seq<char>> {
    match m {
        Some(JsonModel::String(s)) => Some(s),
        _ => None,
    }
}

/// A number value as a `u64`, where it is a non-negative integer.
pub open spec fn json_u64(m: Option<JsonModel>) -> Option<u64> {
    match m {
        Some(JsonModel::Number(n)) => n.as_u64,
        _ => None,
    }
}

/// A number value as the bit pattern of an `f64`.
pub open spec fn json_f64_bits(m: Option<JsonModel>) -> Option<u64> {
    match m {
        Some(JsonModel::Number(n)) => Some(n.as_f64_bits),
        _ => None,
    }
}

/// Parses `text` with `serde_json::from_str` into a `serde_json::Value`; a parse error
/// gives `None`. The contract claims that the outcome depends on the text alone
/// ([`json_text`]).
#[verifier::external_body]
pub(crate) fn parse_json(text: &str) -> (r: Option<serde_json::Value>)
    ensures
        match r {
            Some(v) => json_text(text@) == Some(json_model(v)),
            None => json_text(text@) is None,
        },
{
    serde_json::from_str(text).ok()
}

/// `serde_json::Value::get` with a string key: the member `key` of an object, `None` for
/// a missing key or a value that is no object.
#[verifier::external_body]
pub(crate) fn json_get<'a>(v: &'a serde_json::Value, key: &str) -> (r: Option<&'a serde_json::Value>)
    ensures
        match r {
            Some(x) => json_member(json_model(*v), key@) == Some(json_model(*x)),
            None => json_member(json_model(*v), key@) is None,
        },
{
    v.get(key)
}

/// `serde_json::Value::as_str`: the text of a string value, `None` for any other value.
#[verifier::external_body]
pub(crate) fn json_as_str<'a>(v: &'a serde_json::Value) -> (r: Option<&'a str>)
    ensures
        match r {
            Some(s) => json_string(Some(json_model(*v))) == Some(s@),
            None => json_string(Some(json_model(*v))) is None,
        },
{
    v.as_str()
}

/// `serde_json::Value::as_u64`: a number that is a non-negative integer, `None` for any
/// other value.
#[verifier::external_body]
pub(crate) fn json_as_u64(v: &serde_json::Value) -> (r: Option<u64>)
    ensures
        r == json_u64(Some(json_model(*v))),
{
    v.as_u64()
}

/// `serde_json::Value::as_f64`, as a bit pattern: every number gives its `f64`, any
/// other value `None` (so `serde_json` reads numbers when its `arbitrary_precision`
/// feature is off, as it is in this build).
#[verifier::external_body]
pub(crate) fn json_as_f64_bits(v: &serde_json::Value) -> (r: Option<u64>)
    ensures
        r == json_f64_bits(Some(json_model(*v))),
{
    v.as_f64().map(|x| x.to_bits())
}

} // verus!
