//! The mathematical model of a parsed document.
//!
//! JSON and TOML documents are both trees of scalars, lists and keyed tables.
//! Contracts speak of such a tree; the parsers' own values stand for one.

use vstd::prelude::*;

verus! {

/// A document tree, as far as this library reads one.
pub enum Node {
    /// A scalar that is neither an integer nor a text: a null, a boolean, a
    /// number with a fraction or an exponent, a date.
    Other,
    /// An integer number.
    Integer(int),
    /// A string, as the sequence of its characters.
    Text(Seq<char>),
    /// An ordered list of values.
    List(Seq<Node>),
    /// A table of values, each under its own key.
    Table(Map<Seq<char>, Node>),
}

impl Node {
    /// The value under `key`, where the node is a table that has such a key.
    pub open spec fn member(self, key: Seq<char>) -> Option<Node> {
        match self {
            Node::Table(entries) => if entries.contains_key(key) {
                Some(entries[key])
            } else {
                None
            },
            _ => None,
        }
    }
}

} // verus!
