//! JSON values, as `serde_json` holds them, and what the store needs of them.
//!
//! Verus cannot look inside a `serde_json::Value`. This module gives such a
//! value a mathematical reading, the tree [`Json`], and states of each
//! `serde_json` function that the store calls what it does in terms of that
//! tree. None of these statements is proved: they are what the rest of the
//! library takes on trust.

use vstd::prelude::*;

verus! {

/// `serde_json::Value`, opaque to the verifier.
#[verifier::external_type_specification]
#[verifier::external_body]
pub struct ExValue(serde_json::Value);

/// `serde_json::Map`, opaque to the verifier.
#[verifier::external_type_specification]
#[verifier::external_body]
#[verifier::reject_recursive_types(K)]
#[verifier::reject_recursive_types(V)]
pub struct ExMap<K, V>(serde_json::Map<K, V>);

/// `serde_json::Error`, opaque to the verifier.
#[verifier::external_type_specification]
#[verifier::external_body]
pub struct ExError(serde_json::Error);

/// A JSON value as a tree. A number is kept as the text that `serde_json`
/// writes for it; an object is a map from the characters of each key to the
/// member's tree.
pub enum Json {
    Null,
    Bool(bool),
    Number(Seq<char>),
    Text(Seq<char>),
    List(Seq<Json>),
    Record(Map<Seq<char>, Json>),
}

/// What a `serde_json::Value` holds: the tree that it stands for.
pub uninterp spec fn json_tree(v: serde_json::Value) -> Json;

/// What a `serde_json::Map` holds: the tree of each member, by the characters
/// of its key.
pub uninterp spec fn json_members(m: serde_json::Map<String, serde_json::Value>) -> Map<
    Seq<char>,
    Json,
>;

/// What `serde_json::from_slice` makes of a text when asked for a `Value`:
/// the tree of the value it returns, or `None` where it reports an error.
pub uninterp spec fn json_parse(bytes: Seq<u8>) -> Option<Json>;

/// What `serde_json::to_vec` writes for a `Value` with the given tree, or
/// `None` where it reports an error.
pub uninterp spec fn json_render(doc: Json) -> Option<Seq<u8>>;

/// The trees of a sequence of values, in order.
pub open spec fn json_trees(items: Seq<serde_json::Value>) -> Seq<Json> {
    items.map_values(|v: serde_json::Value| json_tree(v))
}

/// The members of an object without members.
pub open spec fn no_members() -> Map<Seq<char>, Json> {
    Map::empty()
}

/// Whether `keys` is a set of exactly `n` keys.
pub open spec fn has_size(keys: Set<Seq<char>>, n: nat) -> bool {
    keys.finite() && keys.len() == n
}

/// Calls `serde_json::from_slice` for a `Value`. The outcome depends on the
/// bytes alone: it is named `json_parse`.
#[verifier::external_body]
pub(crate) fn parse(bytes: &[u8]) -> (r: Result<serde_json::Value, serde_json::Error>)
    ensures
        match r {
            Ok(v) => json_parse(bytes@) == Some(json_tree(v)),
            Err(_) => json_parse(bytes@) is None,
        },
{
    serde_json::from_slice::<serde_json::Value>(bytes)
}

/// Calls `Value::as_bool`: the boolean of a `Value::Bool`, `None` for any
/// other variant.
#[verifier::external_body]
pub(crate) fn as_bool(v: &serde_json::Value) -> (r: Option<bool>)
    ensures
        match r {
            Some(b) => json_tree(*v) == Json::Bool(b),
            None => !(json_tree(*v) is Bool),
        },
{
    v.as_bool()
}

/// Calls `Value::as_str`: the text of a `Value::String`, `None` for any other
/// variant.
#[verifier::external_body]
pub(crate) fn as_str(v: &serde_json::Value) -> (r: Option<&str>)
    ensures
        match r {
            Some(text) => json_tree(*v) == Json::Text(text@),
            None => !(json_tree(*v) is Text),
        },
{
    v.as_str()
}

/// Calls `Value::as_array`: the elements of a `Value::Array`, `None` for any
/// other variant.
#[verifier::external_body]
pub(crate) fn as_array(v: &serde_json::Value) -> (r: Option<&Vec<serde_json::Value>>)
    ensures
        match r {
            Some(items) => json_tree(*v) == Json::List(json_trees(items@)),
            None => !(json_tree(*v) is List),
        },
{
    v.as_array()
}

/// Calls `Value::as_object`: the map of a `Value::Object`, `None` for any
/// other variant.
#[verifier::external_body]
pub(crate) fn as_object(v: &serde_json::Value) -> (r: Option<
    &serde_json::Map<String, serde_json::Value>,
>)
    ensures
        match r {
            Some(m) => json_tree(*v) == Json::Record(json_members(*m)),
            None => !(json_tree(*v) is Record),
        },
{
    v.as_object()
}

/// Calls `Map::len`: the map holds exactly that many keys.
#[verifier::external_body]
pub(crate) fn member_count(m: &serde_json::Map<String, serde_json::Value>) -> (n: usize)
    ensures
        has_size(json_members(*m).dom(), n as nat),
{
    m.len()
}

/// Calls `Map::get` with a string key: the member under that key, `None`
/// where the map has no such key.
#[verifier::external_body]
pub(crate) fn member<'a>(
    m: &'a serde_json::Map<String, serde_json::Value>,
    key: &str,
) -> (r: Option<&'a serde_json::Value>)
    ensures
        match r {
            Some(v) => {
                &&& json_members(*m).dom().contains(key@)
                &&& json_members(*m)[key@] == json_tree(*v)
            },
            None => !json_members(*m).dom().contains(key@),
        },
{
    m.get(key)
}

/// Makes a `Value::Bool`: the value of the given boolean.
#[verifier::external_body]
pub(crate) fn bool_value(b: bool) -> (v: serde_json::Value)
    ensures
        json_tree(v) == Json::Bool(b),
{
    serde_json::Value::Bool(b)
}

/// Makes a `Value::String`: the value of the given text.
#[verifier::external_body]
pub(crate) fn text_value(text: String) -> (v: serde_json::Value)
    ensures
        json_tree(v) == Json::Text(text@),
{
    serde_json::Value::String(text)
}

/// Makes a `Value::Array`: the value of the given elements, in their order.
#[verifier::external_body]
pub(crate) fn list_value(items: Vec<serde_json::Value>) -> (v: serde_json::Value)
    ensures
        json_tree(v) == Json::List(json_trees(items@)),
{
    serde_json::Value::Array(items)
}

/// Makes a `Value::Object`: the value of the given members.
#[verifier::external_body]
pub(crate) fn record_value(m: serde_json::Map<String, serde_json::Value>) -> (v: serde_json::Value)
    ensures
        json_tree(v) == Json::Record(json_members(m)),
{
    serde_json::Value::Object(m)
}

/// Calls `Map::new`: a map without members.
#[verifier::external_body]
pub(crate) fn new_members() -> (members: serde_json::Map<String, serde_json::Value>)
    ensures
        json_members(members) == no_members(),
{
    serde_json::Map::new()
}

/// Calls `Map::insert`: the value stands under the key afterwards, in place
/// of what stood there before, and the other members stay.
#[verifier::external_body]
pub(crate) fn set_member(
    m: &mut serde_json::Map<String, serde_json::Value>,
    key: String,
    value: serde_json::Value,
)
    ensures
        json_members(*final(m)) == json_members(*old(m)).insert(key@, json_tree(value)),
{
    m.insert(key, value);
}

/// Calls `serde_json::to_vec` on a `Value`. The outcome depends on the
/// value's tree alone: it is named `json_render`.
#[verifier::external_body]
pub(crate) fn render(v: &serde_json::Value) -> (r: Result<Vec<u8>, serde_json::Error>)
    ensures
        match r {
            Ok(bytes) => json_render(json_tree(*v)) == Some(bytes@),
            Err(_) => json_render(json_tree(*v)) is None,
        },
{
    serde_json::to_vec(v)
}

/// Calls `to_string` on a `serde_json::Error`: its message, as the error's
/// `Display` writes it. Nothing is claimed of the text.
#[verifier::external_body]
pub(crate) fn error_text(e: &serde_json::Error) -> String {
    e.to_string()
}

} // verus!
