//! The trusted boundary to `serde_json`: reads single fields out of JSON
//! text. Each reader is a deterministic function of the text it is given, so
//! its result is named by an uninterpreted spec function, and the verified
//! decoding logic is stated over those names.

use vstd::prelude::*;

verus! {

/// Whether the text parses as JSON at all.
pub uninterp spec fn json_ok(s: Seq<char>) -> bool;

/// Relies on `serde_json::from_str::<Value>`: parsing is a deterministic
/// function of the text.
#[verifier::external_body]
pub fn json_parses(content: &str) -> (r: bool)
    ensures
        r == json_ok(content@),
{
    serde_json::from_str::<serde_json::Value>(content).is_ok()
}

/// The string under the top-level key `key`, when the text parses, the key
/// is present and its value is a JSON string; absent otherwise.
pub uninterp spec fn str_field_of(s: Seq<char>, key: Seq<char>) -> Option<Seq<char>>;

/// Relies on `serde_json::from_str::<Value>`, `Value::get` and
/// `Value::as_str`: `get` looks a key up in a top-level object, `as_str`
/// accepts only the string variant, and all three are deterministic
/// functions of the text.
#[verifier::external_body]
pub fn json_str_field(content: &str, key: &str) -> (r: Option<String>)
    ensures
        r.deep_view() == str_field_of(content@, key@),
{
    match serde_json::from_str::<serde_json::Value>(content) {
        Ok(v) => v.get(key).and_then(|x| x.as_str()).map(|s| s.to_string()),
        Err(_) => None,
    }
}

/// The elements of the array under the top-level key `key`, when the text
/// parses, the key is present and its value is an array: each element is its
/// string content, or absent where the element is not a JSON string. Absent
/// when the text does not parse, the key is missing, or its value is not an
/// array.
pub uninterp spec fn str_items_of(s: Seq<char>, key: Seq<char>) -> Option<Seq<Option<Seq<char>>>>;

/// Relies on `serde_json::from_str::<Value>`, `Value::get` and
/// `Value::as_str`, and on matching `Value::Array` as `Value::as_array`
/// does; all deterministic functions of the text.
#[verifier::external_body]
pub fn json_str_array_field(content: &str, key: &str) -> (r: Option<Vec<Option<String>>>)
    ensures
        r.deep_view() == str_items_of(content@, key@),
{
    let v = match serde_json::from_str::<serde_json::Value>(content) {
        Ok(v) => v,
        Err(_) => return None,
    };
    match v.get(key) {
        Some(serde_json::Value::Array(items)) => Some(
            items.iter().map(|x| x.as_str().map(|s| s.to_string())).collect(),
        ),
        _ => None,
    }
}

/// The string at the pointer path `/message/content`, when the text parses
/// and that path holds a JSON string; absent otherwise.
pub uninterp spec fn message_content_of(s: Seq<char>) -> Option<Seq<char>>;

/// Relies on `serde_json::from_str::<Value>`, `Value::pointer` and
/// `Value::as_str`: `pointer` walks object keys along the path; all
/// deterministic functions of the text.
#[verifier::external_body]
pub fn json_message_content(body: &str) -> (r: Option<String>)
    ensures
        r.deep_view() == message_content_of(body@),
{
    match serde_json::from_str::<serde_json::Value>(body) {
        Ok(v) => v.pointer("/message/content").and_then(|x| x.as_str()).map(|s| s.to_string()),
        Err(_) => None,
    }
}

} // verus!
