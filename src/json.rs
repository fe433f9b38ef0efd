//! Lookups into JSON text, made by serde_json. Each result is named by a spec
//! function of the text alone: what serde_json parses is not restated here.
use vstd::prelude::*;
use crate::conversation::opt_text;

verus! {

/// The string that the JSON object `text` holds under `key`, if `text` parses
/// as an object and that member is a string.
pub uninterp spec fn json_str_field_of(text: Seq<char>, key: Seq<char>) -> Option<Seq<char>>;

/// The integer that the JSON object `text` holds under `key`, if `text` parses
/// as an object and that member is an integer that fits an `i32`.
pub uninterp spec fn json_i32_field_of(text: Seq<char>, key: Seq<char>) -> Option<i32>;

/// Whether `text` parses as a JSON object that has the member `key`.
pub uninterp spec fn json_has_key_of(text: Seq<char>, key: Seq<char>) -> bool;

/// The string that the JSON object `text` holds under `outer`, then `inner`,
/// if `text` parses, both members exist and the inner one is a string.
pub uninterp spec fn json_nested_str_of(text: Seq<char>, outer: Seq<char>, inner: Seq<char>) -> Option<
    Seq<char>,
>;

/// The JSON text of the object with the one string member `key: value`.
pub uninterp spec fn json_object_of(key: Seq<char>, value: Seq<char>) -> Seq<char>;

/// Relies on `serde_json::from_str`, `Value::get` and `Value::as_str` to read
/// a string member of a JSON object (tool arguments, tool output).
#[verifier::external_body]
pub(crate) fn json_str_field(text: &str, key: &str) -> (r: Option<String>)
    ensures
        opt_text(r) == json_str_field_of(text@, key@),
{
    let v: serde_json::Value = serde_json::from_str(text).ok()?;
    v.get(key)?.as_str().map(|s| s.to_string())
}

/// Relies on `serde_json::from_str`, `Value::get` and `Value::as_i64` to read
/// the exit code of a command result.
#[verifier::external_body]
pub(crate) fn json_i32_field(text: &str, key: &str) -> (r: Option<i32>)
    ensures
        r == json_i32_field_of(text@, key@),
{
    let v: serde_json::Value = serde_json::from_str(text).ok()?;
    i32::try_from(v.get(key)?.as_i64()?).ok()
}

/// Relies on `serde_json::from_str` and `Map::contains_key` to tell whether a
/// tool's output reports an error.
#[verifier::external_body]
pub(crate) fn json_has_key(text: &str, key: &str) -> (r: bool)
    ensures
        r == json_has_key_of(text@, key@),
{
    match serde_json::from_str::<serde_json::Value>(text) {
        Ok(serde_json::Value::Object(map)) => map.contains_key(key),
        _ => false,
    }
}

/// Relies on `serde_json::from_str`, `Value::get` and `Value::as_str` to read
/// a string member of an object member (a provider's error message).
#[verifier::external_body]
pub(crate) fn json_nested_str(text: &str, outer: &str, inner: &str) -> (r: Option<String>)
    ensures
        opt_text(r) == json_nested_str_of(text@, outer@, inner@),
{
    let v: serde_json::Value = serde_json::from_str(text).ok()?;
    v.get(outer)?.get(inner)?.as_str().map(|s| s.to_string())
}

/// Relies on `serde_json::Map::insert` and the `Display` of `serde_json::Value`
/// to encode an object with one string member.
#[verifier::external_body]
pub(crate) fn json_object_text(key: &str, value: &str) -> (r: String)
    ensures
        r@ == json_object_of(key@, value@),
{
    let mut map = serde_json::Map::new();
    map.insert(key.to_string(), serde_json::Value::String(value.to_string()));
    serde_json::Value::Object(map).to_string()
}

} // verus!
