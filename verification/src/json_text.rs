//! The boundary to `serde_json`: what the library calls there, and what it
//! takes on trust about each call.
//!
//! Nothing in this file is proved. Each contract restates what the source of
//! `serde_json` shows of one function, over the document tree that a parsed
//! value stands for.

use vstd::prelude::*;
use crate::document::Node;

verus! {

/// `serde_json::Value`: a parsed JSON value. It is opaque here; what it holds
/// is spoken of through [`json_tree`].
#[verifier::external_type_specification]
#[verifier::external_body]
pub struct ExJsonValue(serde_json::Value);

/// `serde_json::Error`: what `serde_json` reports of a text that it refuses.
#[verifier::external_type_specification]
#[verifier::external_body]
pub struct ExJsonError(serde_json::Error);

/// The document tree that a `serde_json::Value` stands for.
///
/// A `String` is a [`Node::Text`], an `Array` the [`Node::List`] of its
/// items, an `Object` the [`Node::Table`] of its members under their keys,
/// and a `Number` that is held as an integer a [`Node::Integer`]. `Null`, a
/// `Bool`, and a `Number` that is held as a float are [`Node::Other`].
pub uninterp spec fn json_tree(value: serde_json::Value) -> Node;

/// The document trees of a list of parsed JSON values, in order.
pub open spec fn json_trees(items: Seq<serde_json::Value>) -> Seq<Node> {
    items.map_values(|item: serde_json::Value| json_tree(item))
}

/// What `serde_json::from_str` makes of a text: the tree of the value that
/// it returns, or nothing where it refuses the text.
pub uninterp spec fn json_document(text: Seq<char>) -> Option<Node>;

/// The JSON string literal that `serde_json` writes for a text, with its
/// quotes and escapes.
pub uninterp spec fn json_literal(text: Seq<char>) -> Seq<char>;

/// `serde_json::from_str` at the type `serde_json::Value`. The contract
/// claims only that the outcome is a function of the text: the same text is
/// refused or accepted alike, and accepted as the same tree.
#[verifier::external_body]
pub(crate) fn parse_json(text: &str) -> (parsed: Result<serde_json::Value, serde_json::Error>)
    ensures
        match parsed {
            Ok(value) => json_document(text@) == Some(json_tree(value)),
            Err(_) => json_document(text@) is None,
        },
{
    serde_json::from_str::<serde_json::Value>(text)
}

/// `serde_json::Value::get` with a string for its index: the member under
/// `key` where the value is an object that has one, and nothing in every
/// other case.
#[verifier::external_body]
pub(crate) fn json_member<'a>(value: &'a serde_json::Value, key: &str) -> (found: Option<
    &'a serde_json::Value,
>)
    ensures
        match found {
            Some(inner) => json_tree(*value).member(key@) == Some(json_tree(*inner)),
            None => json_tree(*value).member(key@) is None,
        },
{
    value.get(key)
}

/// `serde_json::Value::is_object` tells whether the value is an object.
pub assume_specification[ serde_json::Value::is_object ](value: &serde_json::Value) -> (yes: bool)
    ensures
        yes == (json_tree(*value) is Table),
;

/// `serde_json::Value::as_str` gives the string of a string value, and
/// nothing for a value of any other kind.
pub assume_specification[ serde_json::Value::as_str ](value: &serde_json::Value) -> (text: Option<
    &str,
>)
    ensures
        match text {
            Some(s) => json_tree(*value) == Node::Text(s@),
            None => !(json_tree(*value) is Text),
        },
;

/// `serde_json::Value::as_i64` gives the number of a value that is held as
/// an integer and fits in an `i64`, and nothing for any other value.
pub assume_specification[ serde_json::Value::as_i64 ](value: &serde_json::Value) -> (number:
    Option<i64>)
    ensures
        match number {
            Some(n) => json_tree(*value) == Node::Integer(n as int),
            None => !(json_tree(*value) matches Node::Integer(k) && i64::MIN <= k <= i64::MAX),
        },
;

/// `serde_json::Value::as_array` gives the items of an array, in order, and
/// nothing for a value of any other kind.
pub assume_specification[ serde_json::Value::as_array ](value: &serde_json::Value) -> (items:
    Option<&Vec<serde_json::Value>>)
    ensures
        match items {
            Some(list) => json_tree(*value) == Node::List(json_trees(list@)),
            None => !(json_tree(*value) is List),
        },
;

/// The message of a `serde_json::Error`, as its `Display` writes it. Nothing
/// is claimed of the text.
#[verifier::external_body]
pub(crate) fn json_fault_text(fault: &serde_json::Error) -> (detail: String) {
    fault.to_string()
}

/// The `Display` of a `serde_json::Value` that holds the string `text`: the
/// compact JSON for it, which is one string literal.
#[verifier::external_body]
pub(crate) fn quote_json(text: &str) -> (literal: String)
    ensures
        literal@ == json_literal(text@),
{
    serde_json::Value::from(text).to_string()
}

} // verus!
