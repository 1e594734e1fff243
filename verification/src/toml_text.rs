//! The boundary to `toml`: what the library calls there, and what it takes
//! on trust about each call.
//!
//! Nothing in this file is proved. Each contract restates what the source of
//! `toml` shows of one function, over the document tree that a parsed value
//! stands for.

use vstd::prelude::*;
use crate::document::Node;

verus! {

/// `toml::Value`: a parsed TOML value. It is opaque here; what it holds is
/// spoken of through [`toml_tree`].
#[verifier::external_type_specification]
#[verifier::external_body]
pub struct ExTomlValue(toml::Value);

/// `toml::de::Error`: what `toml` reports of a text that it refuses.
#[verifier::external_type_specification]
#[verifier::external_body]
pub struct ExTomlError(toml::de::Error);

/// The document tree that a `toml::Value` stands for.
///
/// A `String` is a [`Node::Text`], an `Integer` a [`Node::Integer`], an
/// `Array` the [`Node::List`] of its items, and a `Table` the
/// [`Node::Table`] of its members under their keys. A `Float`, a `Boolean`
/// and a `Datetime` are [`Node::Other`].
pub uninterp spec fn toml_tree(value: toml::Value) -> Node;

/// What `toml::from_str` makes of a text: the tree of the value that it
/// returns, or nothing where it refuses the text.
pub uninterp spec fn toml_document(text: Seq<char>) -> Option<Node>;

/// `toml::from_str` at the type `toml::Value`. The contract claims only that
/// the outcome is a function of the text: the same text is refused or
/// accepted alike, and accepted as the same tree.
#[verifier::external_body]
pub(crate) fn parse_toml(text: &str) -> (parsed: Result<toml::Value, toml::de::Error>)
    ensures
        match parsed {
            Ok(value) => toml_document(text@) == Some(toml_tree(value)),
            Err(_) => toml_document(text@) is None,
        },
{
    toml::from_str::<toml::Value>(text)
}

/// `toml::Value::get` with a string for its index: the member under `key`
/// where the value is a table that has one, and nothing in every other case.
#[verifier::external_body]
pub(crate) fn toml_member<'a>(value: &'a toml::Value, key: &str) -> (found: Option<
    &'a toml::Value,
>)
    ensures
        match found {
            Some(inner) => toml_tree(*value).member(key@) == Some(toml_tree(*inner)),
            None => toml_tree(*value).member(key@) is None,
        },
{
    value.get(key)
}

/// `toml::Value::is_table` tells whether the value is a table.
pub assume_specification[ toml::Value::is_table ](value: &toml::Value) -> (yes: bool)
    ensures
        yes == (toml_tree(*value) is Table),
;

/// `toml::Value::as_str` gives the string of a string value, and nothing for
/// a value of any other kind.
pub assume_specification[ toml::Value::as_str ](value: &toml::Value) -> (text: Option<&str>)
    ensures
        match text {
            Some(s) => toml_tree(*value) == Node::Text(s@),
            None => !(toml_tree(*value) is Text),
        },
;

/// The message of a `toml::de::Error`, as its `Display` writes it. Nothing is
/// claimed of the text.
#[verifier::external_body]
pub(crate) fn toml_fault_text(fault: &toml::de::Error) -> (detail: String) {
    fault.to_string()
}

} // verus!
