//! JSON documents as the assistant reads them: a mathematical tree that
//! stands for a `serde_json::Value`, and the few operations on such values
//! that the rest of the library relies on.

use vstd::prelude::*;

verus! {

/// The mathematical content of a JSON document. A number is held as the
/// text in which `serde_json` writes it.
pub enum JsonTree {
    Null,
    Bool(bool),
    Number(Seq<char>),
    Text(Seq<char>),
    Array(Seq<JsonTree>),
    Object(Map<Seq<char>, JsonTree>),
}

/// Trusted: `serde_json::Value`, a parsed JSON document. Nothing inside it
/// is visible here; `json_tree` names what it holds.
#[verifier::external_type_specification]
#[verifier::external_body]
pub struct ExJsonValue(serde_json::Value);

/// Trusted: `serde_json::Error`, the parser's reason for rejecting a text.
/// It is carried, never read.
#[verifier::external_type_specification]
#[verifier::external_body]
pub struct ExJsonError(serde_json::Error);

/// The tree that a `serde_json::Value` holds.
pub uninterp spec fn json_tree(v: serde_json::Value) -> JsonTree;

/// What `serde_json::from_str` makes of a text: the tree of the document it
/// reads, or `None` where it rejects the text.
pub uninterp spec fn parsed_json(text: Seq<char>) -> Option<JsonTree>;

/// The member of an object under `key`; `None` for a missing key and for
/// anything that is not an object.
pub open spec fn member_of(t: JsonTree, key: Seq<char>) -> Option<JsonTree> {
    match t {
        JsonTree::Object(m) => if m.dom().contains(key) {
            Some(m[key])
        } else {
            None
        },
        _ => None,
    }
}

/// The element of an array at `i`; `None` past the end and for anything that
/// is not an array.
pub open spec fn element_of(t: JsonTree, i: int) -> Option<JsonTree> {
    match t {
        JsonTree::Array(s) => if 0 <= i < s.len() {
            Some(s[i])
        } else {
            None
        },
        _ => None,
    }
}

/// The characters of a JSON string; `None` for anything else.
pub open spec fn text_of(t: JsonTree) -> Option<Seq<char>> {
    match t {
        JsonTree::Text(s) => Some(s),
        _ => None,
    }
}

/// Trusted: `serde_json::from_str` at type `Value`. The contract only names
/// the outcome: the parser is a function of the text alone, so the same text
/// always gives the same tree or is always rejected.
#[verifier::external_body]
pub(crate) fn parse_json(text: &str) -> (r: Result<serde_json::Value, serde_json::Error>)
    ensures
        r.is_ok() == parsed_json(text@).is_some(),
        r.is_ok() ==> json_tree(r.unwrap()) == parsed_json(text@).unwrap(),
{
    serde_json::from_str::<serde_json::Value>(text)
}

/// Trusted: `serde_json::Value::get` with a string key. It looks the key up
/// when the value is an object and answers `None` otherwise.
#[verifier::external_body]
pub(crate) fn json_member<'a>(v: &'a serde_json::Value, key: &str) -> (r: Option<
    &'a serde_json::Value,
>)
    ensures
        r.is_some() == member_of(json_tree(*v), key@).is_some(),
        r.is_some() ==> json_tree(*r.unwrap()) == member_of(json_tree(*v), key@).unwrap(),
{
    v.get(key)
}

/// Trusted: `serde_json::Value::get` with a position. It indexes the array
/// when the value is one and the position is within it, and answers `None`
/// otherwise.
#[verifier::external_body]
pub(crate) fn json_element<'a>(v: &'a serde_json::Value, i: usize) -> (r: Option<
    &'a serde_json::Value,
>)
    ensures
        r.is_some() == element_of(json_tree(*v), i as int).is_some(),
        r.is_some() ==> json_tree(*r.unwrap()) == element_of(json_tree(*v), i as int).unwrap(),
{
    v.get(i)
}

/// Trusted: `serde_json::Value::as_str`. It hands out the characters of a
/// JSON string and answers `None` for every other kind of value.
#[verifier::external_body]
pub(crate) fn json_text<'a>(v: &'a serde_json::Value) -> (r: Option<&'a str>)
    ensures
        r.is_some() == text_of(json_tree(*v)).is_some(),
        r.is_some() ==> r.unwrap()@ == text_of(json_tree(*v)).unwrap(),
{
    v.as_str()
}

/// Trusted: `serde_json::Value::is_object`. It tells whether the value is
/// an object.
#[verifier::external_body]
pub(crate) fn json_is_object(v: &serde_json::Value) -> (r: bool)
    ensures
        r == (json_tree(*v) is Object),
{
    v.is_object()
}

/// Trusted: `Clone::clone` of `serde_json::Value`. The copy holds the same
/// tree.
pub assume_specification[ <serde_json::Value as Clone>::clone ](v: &serde_json::Value) -> (r:
    serde_json::Value)
    ensures
        json_tree(r) == json_tree(*v),
;

/// Trusted: `serde_json::Map::new` inside `Value::Object`. The value is an
/// object without members.
#[verifier::external_body]
pub(crate) fn json_empty_object() -> (r: serde_json::Value)
    ensures
        json_tree(r) == JsonTree::Object(Map::<Seq<char>, JsonTree>::empty()),
{
    serde_json::Value::Object(serde_json::Map::new())
}

} // verus!
