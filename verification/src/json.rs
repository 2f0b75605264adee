//! JSON documents, read and written by `serde_json`.
//!
//! The crate never looks inside a `serde_json::Value` itself. What a value
//! holds is named by [`json_tree`]; the functions below call `serde_json` and
//! state, over that name, what the call did. None of these statements is
//! proved: they are the assumptions under which the rest of the crate is
//! verified.
use vstd::prelude::*;
use serde_json::Value;

verus! {

/// `serde_json::Value`, carried through without a look inside.
#[verifier::external_type_specification]
#[verifier::external_body]
pub struct ExValue(serde_json::Value);

/// `serde_json::Map`, carried through without a look inside.
#[verifier::external_type_specification]
#[verifier::external_body]
#[verifier::reject_recursive_types(K)]
#[verifier::reject_recursive_types(V)]
pub struct ExMap<K, V>(serde_json::Map<K, V>);

/// `serde_json::Error`, of which only the presence is used.
#[verifier::external_type_specification]
#[verifier::external_body]
pub struct ExError(serde_json::Error);

/// A JSON document as a mathematical tree. A number is kept as the text
/// that `serde_json` prints for it; the crate neither reads nor writes one.
pub enum JsonTree {
    Null,
    Bool(bool),
    Number(Seq<char>),
    Text(Seq<char>),
    Array(Seq<JsonTree>),
    Object(Map<Seq<char>, JsonTree>),
}

/// The members of a JSON object while it is being put together.
pub type Fields = serde_json::Map<String, Value>;

/// The tree that a `serde_json::Value` holds.
pub uninterp spec fn json_tree(v: Value) -> JsonTree;

/// The members that a `serde_json::Map` holds, by key.
pub uninterp spec fn json_fields(m: Fields) -> Map<Seq<char>, JsonTree>;

/// The tree that `serde_json::from_str` reads from a text, `None` where it
/// rejects the text.
pub uninterp spec fn json_document(text: Seq<char>) -> Option<JsonTree>;

/// The compact text that `serde_json` prints for a tree.
pub uninterp spec fn json_text(tree: JsonTree) -> Seq<char>;

/// The indented text that `serde_json::to_string_pretty` prints for a tree.
pub uninterp spec fn json_pretty_text(tree: JsonTree) -> Seq<char>;

/// The members of an object that has none.
pub open spec fn no_members() -> Map<Seq<char>, JsonTree> {
    Map::empty()
}

/// The trees of a vector of values, in order.
pub open spec fn json_trees(items: Seq<Value>) -> Seq<JsonTree> {
    Seq::new(items.len(), |i: int| json_tree(items[i]))
}

/// Calls `serde_json::from_str::<Value>`. Assumed: the outcome depends on
/// the text alone, so it is `json_document` of the text.
#[verifier::external_body]
pub(crate) fn parse(text: &str) -> (r: Result<Value, serde_json::Error>)
    ensures
        match r {
            Ok(v) => json_document(text@) == Some(json_tree(v)),
            Err(_) => json_document(text@) is None,
        },
{
    serde_json::from_str::<Value>(text)
}

/// Calls `Value::get` with a string key. Assumed: an object hands out the
/// member under that key if it has one; anything else hands out nothing.
#[verifier::external_body]
pub(crate) fn member<'a>(v: &'a Value, key: &str) -> (r: Option<&'a Value>)
    ensures
        match json_tree(*v) {
            JsonTree::Object(fields) => if fields.contains_key(key@) {
                r matches Some(m) && json_tree(*m) == fields[key@]
            } else {
                r is None
            },
            _ => r is None,
        },
{
    v.get(key)
}

/// Calls `Value::as_str`. Assumed: a JSON string hands out its characters,
/// anything else nothing.
#[verifier::external_body]
pub(crate) fn as_text<'a>(v: &'a Value) -> (r: Option<&'a str>)
    ensures
        match json_tree(*v) {
            JsonTree::Text(s) => r matches Some(t) && t@ == s,
            _ => r is None,
        },
{
    v.as_str()
}

/// Calls `Value::as_bool`. Assumed: a JSON boolean hands out its value,
/// anything else nothing.
#[verifier::external_body]
pub(crate) fn as_flag(v: &Value) -> (r: Option<bool>)
    ensures
        match json_tree(*v) {
            JsonTree::Bool(b) => r == Some(b),
            _ => r is None,
        },
{
    v.as_bool()
}

/// Calls `Value::as_array`. Assumed: a JSON array hands out its items in
/// order, anything else nothing.
#[verifier::external_body]
pub(crate) fn as_items<'a>(v: &'a Value) -> (r: Option<&'a Vec<Value>>)
    ensures
        match json_tree(*v) {
            JsonTree::Array(items) => r matches Some(a) && json_trees(a@) == items,
            _ => r is None,
        },
{
    v.as_array()
}

/// Calls `Value::is_object`. Assumed: it holds of JSON objects and of
/// nothing else.
#[verifier::external_body]
pub(crate) fn is_object(v: &Value) -> (r: bool)
    ensures
        r == (json_tree(*v) is Object),
{
    v.is_object()
}

/// Calls `Value::is_null`. Assumed: it holds of JSON null and of nothing
/// else.
#[verifier::external_body]
pub(crate) fn is_null(v: &Value) -> (r: bool)
    ensures
        r == (json_tree(*v) is Null),
{
    v.is_null()
}

/// Makes `Value::Null`.
#[verifier::external_body]
pub(crate) fn null_value() -> (r: Value)
    ensures
        json_tree(r) == JsonTree::Null,
{
    Value::Null
}

/// Calls `Value::from` on a `bool`, which makes a JSON boolean.
#[verifier::external_body]
pub(crate) fn flag_value(b: bool) -> (r: Value)
    ensures
        json_tree(r) == JsonTree::Bool(b),
{
    Value::from(b)
}

/// Calls `Value::from` on a `String`, which makes a JSON string of the
/// same characters.
#[verifier::external_body]
pub(crate) fn text_value(s: String) -> (r: Value)
    ensures
        json_tree(r) == JsonTree::Text(s@),
{
    Value::from(s)
}

/// Makes `Value::Array` of the items, in order.
#[verifier::external_body]
pub(crate) fn array_value(items: Vec<Value>) -> (r: Value)
    ensures
        json_tree(r) == JsonTree::Array(json_trees(items@)),
{
    Value::Array(items)
}

/// Calls `Value::from` on a `Map`, which makes a JSON object of its
/// members.
#[verifier::external_body]
pub(crate) fn object_value(fields: Fields) -> (r: Value)
    ensures
        json_tree(r) == JsonTree::Object(json_fields(fields)),
{
    Value::from(fields)
}

/// Calls `Map::new`, which makes a map without members.
#[verifier::external_body]
pub(crate) fn no_fields() -> (r: Fields)
    ensures
        json_fields(r) == no_members(),
{
    serde_json::Map::new()
}

/// Calls `Map::insert`. Assumed: the member under the key is the new
/// value afterwards, replacing an earlier one, and no other member changes.
#[verifier::external_body]
pub(crate) fn put_field(fields: &mut Fields, key: String, v: Value)
    ensures
        json_fields(*final(fields)) == json_fields(*old(fields)).insert(key@, json_tree(v)),
{
    fields.insert(key, v);
}

/// Calls `to_string` on a `Value`, which prints it as compact JSON.
/// Assumed: the text depends on the tree alone, so it is `json_text` of it.
#[verifier::external_body]
pub(crate) fn render(v: &Value) -> (r: String)
    ensures
        r@ == json_text(json_tree(*v)),
{
    v.to_string()
}

/// Calls `serde_json::to_string_pretty` on a `Value`. Assumed: it
/// succeeds, since a `Value` has string keys and finite numbers and is
/// written to memory, and the text depends on the tree alone, so it is
/// `json_pretty_text` of it.
#[verifier::external_body]
pub(crate) fn render_pretty(v: &Value) -> (r: Result<String, serde_json::Error>)
    ensures
        r is Ok,
        r matches Ok(s) ==> s@ == json_pretty_text(json_tree(*v)),
{
    serde_json::to_string_pretty(v)
}

} // verus!
