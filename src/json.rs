//! The JSON values that the envelope codec reads and builds, as provided by
//! serde_json, with the few operations the codec needs.
use vstd::prelude::*;

use serde_json::{Map as JsonMap, Value};

verus! {

/// serde_json's JSON value, opaque here: what the codec needs of it is stated
/// by the names and wrappers below.
#[verifier::external_type_specification]
#[verifier::external_body]
pub struct ExValue(serde_json::Value);

/// serde_json's object map, opaque here; its entries are `object_entries`.
#[verifier::external_type_specification]
#[verifier::external_body]
#[verifier::reject_recursive_types(K)]
#[verifier::reject_recursive_types(V)]
pub struct ExJsonMap<K, V>(serde_json::Map<K, V>);

/// The entries that a JSON object map holds, by key.
pub uninterp spec fn object_entries(m: JsonMap<String, Value>) -> Map<Seq<char>, Value>;

/// The keys of a JSON object map, in the order the map keeps them (with
/// `preserve_order`, the order of first insertion).
pub uninterp spec fn object_keys(m: JsonMap<String, Value>) -> Seq<Seq<char>>;

/// The keys of a JSON value that is an object, in the order its map keeps them.
pub uninterp spec fn json_keys(v: Value) -> Seq<Seq<char>>;

/// The entries of a JSON value that is an object; `None` for any other value.
pub uninterp spec fn json_object(v: Value) -> Option<Map<Seq<char>, Value>>;

/// The text of a JSON value that is a string; `None` for any other value.
pub uninterp spec fn json_string(v: Value) -> Option<Seq<char>>;

/// The value that JSON text parses to; `None` where the text is not JSON.
pub uninterp spec fn parsed_json(text: Seq<char>) -> Option<Value>;

/// The compact JSON text that a value renders to.
pub uninterp spec fn json_text(v: Value) -> Seq<char>;

/// Relies on serde_json::Map::new: the new map is empty.
#[verifier::external_body]
pub(crate) fn new_object() -> (r: JsonMap<String, Value>)
    ensures
        object_entries(r).is_empty(),
        object_keys(r) == Seq::<Seq<char>>::empty(),
{
    JsonMap::new()
}

/// Relies on serde_json::Map::insert (IndexMap::insert): the key now maps to
/// the value, other keys are untouched; a new key goes last, a present key
/// keeps its place.
#[verifier::external_body]
pub(crate) fn object_insert(m: &mut JsonMap<String, Value>, k: String, v: Value)
    ensures
        object_entries(*final(m)) == object_entries(*old(m)).insert(k@, v),
        !object_entries(*old(m)).contains_key(k@) ==> object_keys(*final(m)) == object_keys(
            *old(m),
        ).push(k@),
        object_entries(*old(m)).contains_key(k@) ==> object_keys(*final(m)) == object_keys(
            *old(m),
        ),
{
    m.insert(k, v);
}

/// Relies on serde_json::Map::shift_remove: the key is gone, other keys are
/// untouched and keep their order.
#[verifier::external_body]
pub(crate) fn object_remove(m: &mut JsonMap<String, Value>, k: &str)
    ensures
        object_entries(*final(m)) == object_entries(*old(m)).remove(k@),
        object_keys(*final(m)) == object_keys(*old(m)).filter(|x: Seq<char>| x != k@),
{
    m.shift_remove(k);
}

/// Relies on serde_json::Map::get: the value under the key, if any (cloned).
#[verifier::external_body]
pub(crate) fn object_get(m: &JsonMap<String, Value>, k: &str) -> (r: Option<Value>)
    ensures
        object_entries(*m).contains_key(k@) ==> r == Some(object_entries(*m)[k@]),
        !object_entries(*m).contains_key(k@) ==> r.is_none(),
{
    m.get(k).cloned()
}

/// Relies on the variants of serde_json::Value: an object hands out its map,
/// any other value is handed back unchanged.
#[verifier::external_body]
pub(crate) fn into_object(v: Value) -> (r: Result<JsonMap<String, Value>, Value>)
    ensures
        r matches Ok(m) ==> json_object(v) == Some(object_entries(m)),
        r matches Ok(m) ==> json_keys(v) == object_keys(m),
        r matches Err(w) ==> json_object(v).is_none() && w == v,
{
    match v {
        Value::Object(m) => Ok(m),
        other => Err(other),
    }
}

/// Relies on serde_json::Value::Object: the value is an object with the
/// map's entries.
#[verifier::external_body]
pub(crate) fn object_value(m: JsonMap<String, Value>) -> (r: Value)
    ensures
        json_object(r) == Some(object_entries(m)),
        json_keys(r) == object_keys(m),
        json_string(r).is_none(),
{
    Value::Object(m)
}

/// Relies on serde_json::Value::String: the value is a string with that text.
#[verifier::external_body]
pub(crate) fn string_value(s: String) -> (r: Value)
    ensures
        json_string(r) == Some(s@),
        json_object(r).is_none(),
{
    Value::String(s)
}

/// Relies on serde_json::Value::as_str: the text of a string value.
#[verifier::external_body]
pub(crate) fn as_string(v: &Value) -> (r: Option<String>)
    ensures
        r matches Some(s) ==> json_string(*v) == Some(s@),
        r is None ==> json_string(*v).is_none(),
{
    v.as_str().map(|s| s.to_string())
}

/// Relies on serde_json::from_str: parses JSON text into a value.
#[verifier::external_body]
pub(crate) fn parse_json(text: &str) -> (r: Option<Value>)
    ensures
        r == parsed_json(text@),
{
    serde_json::from_str::<Value>(text).ok()
}

/// Relies on serde_json::to_string: renders a value as compact JSON text.
/// It fails only for a `Serialize` impl that fails or a map with non-string
/// keys; `Value`'s impl never fails and its maps have string keys.
#[verifier::external_body]
pub(crate) fn render_json(v: &Value) -> (r: Option<String>)
    ensures
        r is Some,
        r matches Some(s) ==> s@ == json_text(*v),
{
    serde_json::to_string(v).ok()
}

} // verus!
