//! JSON documents, parsed by `serde_json` and read through its accessors.
//!
//! Nothing in this file is proved: each function states what the `serde_json`
//! call in its body does, over the tree that a value holds.

use vstd::prelude::*;

verus! {

/// A JSON document as the decoders read it: the kind of each node, the text
/// of a string, the items of an array in order, the members of an object by
/// key. A number is told apart from the other kinds; its value is not held.
pub enum JsonTree {
    Null,
    Bool(bool),
    Number,
    Text(Seq<char>),
    Array(Seq<JsonTree>),
    Object(Map<Seq<char>, JsonTree>),
}

/// `serde_json::Value`, a parsed JSON document.
#[verifier::external_type_specification]
#[verifier::external_body]
pub struct ExValue(serde_json::Value);

/// The tree that a `serde_json::Value` holds.
pub uninterp spec fn json_tree(value: serde_json::Value) -> JsonTree;

/// What `serde_json::from_slice` makes of a byte string: the tree of the
/// document, or the text of the error that it reports.
pub uninterp spec fn parsed_json(bytes: Seq<u8>) -> Result<JsonTree, Seq<char>>;

/// The trees of a list of values, in order.
pub open spec fn json_trees(values: Seq<serde_json::Value>) -> Seq<JsonTree> {
    values.map_values(|value: serde_json::Value| json_tree(value))
}

/// Calls `serde_json::from_slice` for a `Value`. The outcome depends on the
/// bytes alone; an error comes back as the text that it displays.
#[verifier::external_body]
pub(crate) fn parse_json(bytes: &[u8]) -> (outcome: Result<serde_json::Value, String>)
    ensures
        match outcome {
            Ok(value) => parsed_json(bytes@) == Ok::<JsonTree, Seq<char>>(json_tree(value)),
            Err(detail) => parsed_json(bytes@) == Err::<JsonTree, Seq<char>>(detail@),
        },
{
    match serde_json::from_slice::<serde_json::Value>(bytes) {
        Ok(value) => Ok(value),
        Err(error) => Err(error.to_string()),
    }
}

/// Calls `Value::is_object`: whether the value is a JSON object.
#[verifier::external_body]
pub(crate) fn json_is_object(value: &serde_json::Value) -> (yes: bool)
    ensures
        yes == (json_tree(*value) is Object),
{
    value.is_object()
}

/// Calls `Value::get` with a string index: the member under `key` where the
/// value is an object that has one, `None` for an object without it and for
/// any value that is no object.
#[verifier::external_body]
pub(crate) fn json_member<'a>(value: &'a serde_json::Value, key: &str) -> (member: Option<
    &'a serde_json::Value,
>)
    ensures
        match member {
            Some(found) => json_tree(*value) matches JsonTree::Object(members)
                && members.contains_key(key@) && members[key@] == json_tree(*found),
            None => !(json_tree(*value) matches JsonTree::Object(members) && members.contains_key(
                key@,
            )),
        },
{
    value.get(key)
}

/// Calls `Value::as_str`: the text where the value is a JSON string, `None`
/// for any other kind.
#[verifier::external_body]
pub(crate) fn json_text<'a>(value: &'a serde_json::Value) -> (text: Option<&'a str>)
    ensures
        match text {
            Some(found) => json_tree(*value) == JsonTree::Text(found@),
            None => !(json_tree(*value) is Text),
        },
{
    value.as_str()
}

/// Calls `Value::as_array`: the items, in order, where the value is a JSON
/// array, `None` for any other kind.
#[verifier::external_body]
pub(crate) fn json_items<'a>(value: &'a serde_json::Value) -> (items: Option<
    &'a Vec<serde_json::Value>,
>)
    ensures
        match items {
            Some(list) => json_tree(*value) == JsonTree::Array(json_trees(list@)),
            None => !(json_tree(*value) is Array),
        },
{
    value.as_array()
}

} // verus!
