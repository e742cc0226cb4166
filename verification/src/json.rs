//! Trusted boundary around `serde_json`.
//!
//! The engine carries request parameters and result payloads as
//! `serde_json::Value` trees, which Verus treats as opaque. The spec-level
//! model of such a tree is `JsonShape`; the uninterpreted function
//! `json_model` names the shape a given value holds, and every trusted
//! wrapper below states its behaviour over that name.

use vstd::prelude::*;

verus! {

/// Mathematical model of a JSON document.
///
/// Numbers representable as a signed 64-bit integer are modelled exactly;
/// any other number (too large, or not an integer) is collapsed into
/// `OtherNum`, since the engine never reads such a number.
pub enum JsonShape {
    Null,
    Bool(bool),
    Int(int),
    OtherNum,
    Str(Seq<char>),
    Arr(Seq<JsonShape>),
    Obj(Map<Seq<char>, JsonShape>),
}

#[verifier::external_type_specification]
#[verifier::external_body]
pub struct ExValue(serde_json::Value);

/// The shape of the JSON tree a `serde_json::Value` holds.
pub uninterp spec fn json_model(v: serde_json::Value) -> JsonShape;

/// What `serde_json::from_slice::<Value>` parses a byte string into:
/// `Some` shape when it accepts the bytes as a JSON document, `None`
/// when it rejects them.
pub uninterp spec fn json_of(bytes: Seq<u8>) -> Option<JsonShape>;

/// Relies on `serde_json::from_slice::<Value>`: parses a JSON document,
/// failing exactly on input it does not accept.
#[verifier::external_body]
pub(crate) fn parse_json(bytes: &[u8]) -> (r: Result<serde_json::Value, ()>)
    ensures
        match r {
            Ok(v) => json_of(bytes@) == Some(json_model(v)),
            Err(_) => json_of(bytes@) is None,
        },
{
    serde_json::from_slice::<serde_json::Value>(bytes).map_err(|_| ())
}

/// Relies on `serde_json::Value::is_array`.
#[verifier::external_body]
pub(crate) fn value_is_array(v: &serde_json::Value) -> (r: bool)
    ensures
        r == (json_model(*v) is Arr),
{
    v.is_array()
}

/// Relies on `serde_json::Value::is_object`.
#[verifier::external_body]
pub(crate) fn value_is_object(v: &serde_json::Value) -> (r: bool)
    ensures
        r == (json_model(*v) is Obj),
{
    v.is_object()
}

/// Relies on `serde_json::Value::is_null`.
#[verifier::external_body]
pub(crate) fn value_is_null(v: &serde_json::Value) -> (r: bool)
    ensures
        r == (json_model(*v) is Null),
{
    v.is_null()
}

/// Relies on `serde_json::Value::get` with a string index: on an object it
/// looks the key up, on anything else it returns `None`.
#[verifier::external_body]
pub(crate) fn value_get_field<'a>(v: &'a serde_json::Value, key: &str) -> (r: Option<
    &'a serde_json::Value,
>)
    ensures
        match r {
            Some(f) => json_model(*v) is Obj && json_model(*v)->Obj_0.contains_key(key@)
                && json_model(*f) == json_model(*v)->Obj_0[key@],
            None => !(json_model(*v) is Obj) || !json_model(*v)->Obj_0.contains_key(key@),
        },
{
    v.get(key)
}

/// Relies on `serde_json::Value::as_str`: `Some` exactly on a JSON string.
#[verifier::external_body]
pub(crate) fn value_as_string(v: &serde_json::Value) -> (r: Option<String>)
    ensures
        match r {
            Some(s) => json_model(*v) == JsonShape::Str(s@),
            None => !(json_model(*v) is Str),
        },
{
    v.as_str().map(|s| s.to_owned())
}

/// Relies on `serde_json::Value::as_i64`: `Some` exactly on a number
/// representable as `i64`.
#[verifier::external_body]
pub(crate) fn value_as_i64(v: &serde_json::Value) -> (r: Option<i64>)
    ensures
        match r {
            Some(n) => json_model(*v) == JsonShape::Int(n as int),
            None => !(json_model(*v) is Int),
        },
{
    v.as_i64()
}

/// Relies on `serde_json::Value::as_array` and `Vec::<Value>::clone`:
/// `Some` exactly on a JSON array, handing its elements out.
#[verifier::external_body]
pub(crate) fn value_array_elems(v: &serde_json::Value) -> (r: Option<Vec<serde_json::Value>>)
    ensures
        match r {
            Some(elems) => json_model(*v) == JsonShape::Arr(
                elems@.map_values(|e: serde_json::Value| json_model(e)),
            ),
            None => !(json_model(*v) is Arr),
        },
{
    v.as_array().map(|a| a.clone())
}

/// Relies on `serde_json::Value::clone`: a clone holds the same tree.
#[verifier::external_body]
pub(crate) fn clone_value(v: &serde_json::Value) -> (r: serde_json::Value)
    ensures
        json_model(r) == json_model(*v),
{
    v.clone()
}

/// Relies on `serde_json::Value::String` holding the given text.
#[verifier::external_body]
pub(crate) fn string_value(s: &str) -> (r: serde_json::Value)
    ensures
        json_model(r) == JsonShape::Str(s@),
{
    serde_json::Value::String(s.to_owned())
}

/// Relies on `serde_json::Value::from::<i64>` building an integer number.
#[verifier::external_body]
pub(crate) fn i64_value(n: i64) -> (r: serde_json::Value)
    ensures
        json_model(r) == JsonShape::Int(n as int),
{
    serde_json::Value::from(n)
}

/// Relies on `serde_json::Value::Null`.
#[verifier::external_body]
pub(crate) fn null_value() -> (r: serde_json::Value)
    ensures
        json_model(r) == JsonShape::Null,
{
    serde_json::Value::Null
}

/// The object built from a sequence of key/value pairs, a later pair
/// overwriting an earlier one with the same key.
pub open spec fn map_of_pairs(pairs: Seq<(Seq<char>, JsonShape)>) -> Map<Seq<char>, JsonShape>
    decreases pairs.len(),
{
    if pairs.len() == 0 {
        Map::empty()
    } else {
        map_of_pairs(pairs.drop_last()).insert(pairs.last().0, pairs.last().1)
    }
}

/// Relies on `serde_json::Value::Object` and `serde_json::Map::from_iter`,
/// which inserts the pairs in order, a later key overwriting an earlier one.
#[verifier::external_body]
pub(crate) fn object_value(pairs: Vec<(String, serde_json::Value)>) -> (r: serde_json::Value)
    ensures
        json_model(r) == JsonShape::Obj(
            map_of_pairs(
                pairs@.map_values(|p: (String, serde_json::Value)| (p.0@, json_model(p.1))),
            ),
        ),
{
    serde_json::Value::Object(pairs.into_iter().collect())
}

} // verus!
