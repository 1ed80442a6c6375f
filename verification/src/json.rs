//! JSON values carried through the embed layer, and the few `serde_json`
//! operations that the library performs on them.

use vstd::prelude::*;

verus! {

/// `serde_json::Value`, carried through the library without being read.
#[verifier::external_type_specification]
#[verifier::external_body]
pub struct ExJsonValue(serde_json::Value);

/// `serde_json::Map`, the object map of a JSON value.
#[verifier::external_type_specification]
#[verifier::external_body]
#[verifier::reject_recursive_types(K)]
#[verifier::reject_recursive_types(V)]
pub struct ExJsonMap<K, V>(serde_json::Map<K, V>);

/// The keys that a `serde_json::Map` holds.
pub uninterp spec fn json_map_keys(m: serde_json::Map<String, serde_json::Value>) -> Set<Seq<char>>;

/// The entries of a `serde_json::Map` whose values are JSON strings, each
/// key mapped to the text of its string.
pub uninterp spec fn json_map_strings(m: serde_json::Map<String, serde_json::Value>) -> Map<
    Seq<char>,
    Seq<char>,
>;

/// The entries of a `serde_json::Map`, each key mapped to its value.
pub uninterp spec fn json_map_values(m: serde_json::Map<String, serde_json::Value>) -> Map<
    Seq<char>,
    serde_json::Value,
>;

/// Whether a JSON value is an object (`serde_json::Value::is_object`).
pub uninterp spec fn json_value_is_object(v: serde_json::Value) -> bool;

/// The map of a JSON object value (what `serde_json::Value::as_object`
/// gives for an object).
pub uninterp spec fn json_object_map(v: serde_json::Value) -> serde_json::Map<
    String,
    serde_json::Value,
>;

/// `Clone::clone` of `serde_json::Value`: the derived clone gives back an
/// equal value.
pub assume_specification[ <serde_json::Value as Clone>::clone ](v: &serde_json::Value) -> (r:
    serde_json::Value)
    ensures
        r == *v,
;

/// Calls `serde_json::Value::is_object`, which tells whether the value is an
/// object.
#[verifier::external_body]
pub(crate) fn json_is_object(v: &serde_json::Value) -> (r: bool)
    ensures
        r == json_value_is_object(*v),
{
    v.is_object()
}

/// Tells the `Object` variant of a `serde_json::Value` apart from the others:
/// the object's map, or the value itself when it is not an object.
#[verifier::external_body]
pub(crate) fn json_into_object(
    v: serde_json::Value,
) -> (r: Result<serde_json::Map<String, serde_json::Value>, serde_json::Value>)
    ensures
        json_value_is_object(v) ==> r is Ok && r->Ok_0 == json_object_map(v),
        !json_value_is_object(v) ==> r is Err && r->Err_0 == v,
{
    match v {
        serde_json::Value::Object(map) => Ok(map),
        other => Err(other),
    }
}

/// Builds the JSON object value `Value::Object(map)`.
#[verifier::external_body]
pub(crate) fn json_object(map: serde_json::Map<String, serde_json::Value>) -> (r: serde_json::Value)
    ensures
        json_value_is_object(r),
        json_object_map(r) == map,
{
    serde_json::Value::Object(map)
}

/// Calls `serde_json::Map::new`, which makes an empty map.
#[verifier::external_body]
pub(crate) fn json_map_new() -> (m: serde_json::Map<String, serde_json::Value>)
    ensures
        json_map_keys(m) == Set::<Seq<char>>::empty(),
        json_map_strings(m).dom() == Set::<Seq<char>>::empty(),
        json_map_values(m).dom() == Set::<Seq<char>>::empty(),
{
    serde_json::Map::new()
}

/// Calls `serde_json::Map::insert`: afterwards `key` holds `value`, and the
/// other entries are unchanged.
#[verifier::external_body]
pub(crate) fn json_map_insert(
    m: &mut serde_json::Map<String, serde_json::Value>,
    key: String,
    value: serde_json::Value,
)
    ensures
        json_map_keys(*final(m)) == json_map_keys(*old(m)).insert(key@),
        json_map_strings(*final(m)).remove(key@) == json_map_strings(*old(m)).remove(key@),
        json_map_values(*final(m)) == json_map_values(*old(m)).insert(key@, value),
{
    m.insert(key, value);
}

/// Calls `serde_json::Map::insert` with the JSON string `Value::String(value)`:
/// afterwards `key` holds that string, and the other entries are unchanged.
#[verifier::external_body]
pub(crate) fn json_map_insert_string(
    m: &mut serde_json::Map<String, serde_json::Value>,
    key: String,
    value: String,
)
    ensures
        json_map_keys(*final(m)) == json_map_keys(*old(m)).insert(key@),
        json_map_strings(*final(m)) == json_map_strings(*old(m)).insert(key@, value@),
        json_map_values(*final(m)).dom() == json_map_values(*old(m)).dom().insert(key@),
        json_map_values(*final(m)).remove(key@) == json_map_values(*old(m)).remove(key@),
{
    m.insert(key, serde_json::Value::String(value));
}

/// Calls `serde_json::Map::contains_key`, which tells whether the map holds `key`.
#[verifier::external_body]
pub(crate) fn json_map_contains_key(m: &serde_json::Map<String, serde_json::Value>, key: &str) -> (r:
    bool)
    ensures
        r == json_map_keys(*m).contains(key@),
        r == json_map_values(*m).dom().contains(key@),
{
    m.contains_key(key)
}

} // verus!
