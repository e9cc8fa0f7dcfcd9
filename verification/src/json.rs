//! The JSON values that records are made of.
//!
//! Values are built and rendered by `serde_json`. Verus cannot look inside
//! them, so this module gives their contents a mathematical model,
//! [`JsonTree`], and states for each `serde_json` call used here what it
//! does to that model. Those statements are trusted: they are read off the
//! source of `serde_json`, not proved.

use vstd::prelude::*;
use serde_json::Value;

verus! {

/// The shape of a JSON value: an integer, a boolean, a string, or an object
/// that maps keys to further values.
pub enum JsonTree {
    Number(int),
    Bool(bool),
    Text(Seq<char>),
    Object(Map<Seq<char>, JsonTree>),
}

/// `serde_json::Value`, carried through as an opaque value.
#[verifier::external_type_specification]
#[verifier::external_body]
pub struct ExJsonValue(serde_json::Value);

/// `serde_json::Map`, carried through as an opaque value.
#[verifier::external_type_specification]
#[verifier::external_body]
#[verifier::reject_recursive_types(K)]
#[verifier::reject_recursive_types(V)]
pub struct ExJsonMap<K, V>(serde_json::Map<K, V>);

/// The map type behind a JSON object.
pub type JsonFields = serde_json::Map<String, Value>;

/// The tree that a `serde_json::Value` holds.
pub uninterp spec fn json_tree(value: Value) -> JsonTree;

/// The entries that a `serde_json::Map` holds, by key.
pub uninterp spec fn json_fields(fields: JsonFields) -> Map<Seq<char>, JsonTree>;

/// The compact text that `serde_json` prints for a value holding `tree`.
///
/// This crate builds `serde_json` without its `preserve_order` feature, so
/// the entries of an object are printed in the order of their keys and the
/// text does not depend on the order in which they were inserted.
pub uninterp spec fn json_text(tree: JsonTree) -> Seq<char>;

/// `Value::from(i64)`: a JSON number holding exactly `n`.
#[verifier::external_body]
pub(crate) fn json_number(n: i64) -> (value: Value)
    ensures
        json_tree(value) == JsonTree::Number(n as int),
{
    Value::from(n)
}

/// `Value::from(bool)`: the JSON boolean `b`.
#[verifier::external_body]
pub(crate) fn json_bool(b: bool) -> (value: Value)
    ensures
        json_tree(value) == JsonTree::Bool(b),
{
    Value::from(b)
}

/// `Value::from(&str)`: a JSON string holding the characters of `s`.
#[verifier::external_body]
pub(crate) fn json_string(s: &str) -> (value: Value)
    ensures
        json_tree(value) == JsonTree::Text(s@),
{
    Value::from(s)
}

/// `Map::new`: a map without entries.
#[verifier::external_body]
pub(crate) fn json_map_new() -> (fields: JsonFields)
    ensures
        json_fields(fields) == (Map::<Seq<char>, JsonTree>::empty()),
{
    serde_json::Map::new()
}

/// `Map::insert`: afterwards `key` maps to `value`, whatever it mapped to
/// before, and every other key is as it was.
#[verifier::external_body]
pub(crate) fn json_map_insert(fields: &mut JsonFields, key: &str, value: Value)
    ensures
        json_fields(*final(fields)) == json_fields(*old(fields)).insert(key@, json_tree(value)),
{
    fields.insert(key.to_owned(), value);
}

/// `Value::from(Map)`: the JSON object with exactly the entries of `fields`.
#[verifier::external_body]
pub(crate) fn json_object(fields: JsonFields) -> (value: Value)
    ensures
        json_tree(value) == JsonTree::Object(json_fields(fields)),
{
    Value::from(fields)
}

/// Whether a text holds no line feed.
pub open spec fn has_no_line_feed(text: Seq<char>) -> bool {
    forall|i: int| 0 <= i < text.len() ==> text[i] != '\n'
}

/// `Value`'s `Display`, through `to_string`: the compact rendering, which
/// depends on nothing but what the value holds. The compact form has no
/// white space between tokens and writes a line feed inside a string as an
/// escape, so the text holds no line feed.
#[verifier::external_body]
pub(crate) fn json_render(value: &Value) -> (text: String)
    ensures
        text@ == json_text(json_tree(*value)),
        has_no_line_feed(text@),
{
    value.to_string()
}

} // verus!
