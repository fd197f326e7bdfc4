//! Parsing document bytes with `serde_yaml`.
//!
//! Nothing in this module is proved: it states what the parser is trusted to
//! do, and hands the parsed document over as a [`Node`] for verified code to
//! work on.

use vstd::prelude::*;
use serde_yaml::Value;
use crate::tree::{Node, Tree};

verus! {

/// `serde_yaml::Value`, a parsed document as the parser holds it.
#[verifier::external_type_specification]
#[verifier::external_body]
pub struct ExValue(Value);

/// `serde_yaml::Error`, the parser's error.
#[verifier::external_type_specification]
#[verifier::external_body]
pub struct ExError(serde_yaml::Error);

/// The document that the bytes parse to, or `None` where they do not parse
/// as exactly one document.
pub uninterp spec fn yaml_document(bytes: Seq<u8>) -> Option<Tree>;

/// The tree that a parsed value holds.
pub uninterp spec fn value_tree(value: Value) -> Tree;

/// Calls `serde_yaml::from_slice` for a `serde_yaml::Value`.
///
/// Trusted: parsing is a function of the bytes alone, so the same bytes give
/// the same value or fail alike. Nothing is claimed about which bytes parse.
#[verifier::external_body]
pub(crate) fn parse_value(bytes: &[u8]) -> (parsed: Result<Value, serde_yaml::Error>)
    ensures
        match parsed {
            Ok(value) => yaml_document(bytes@) == Some(value_tree(value)),
            Err(_) => yaml_document(bytes@) is None,
        },
{
    serde_yaml::from_slice::<Value>(bytes)
}

/// Turns a `serde_yaml::Value` into a [`Node`], variant by variant, with
/// `to_string` on a `serde_yaml::Number` and on a `serde_yaml::value::Tag`,
/// and `into_iter` on a `serde_yaml::Mapping`.
///
/// Trusted: the node holds what the value held. Strings, booleans and nulls
/// are moved over, a number and a tag are kept as the text the parser prints
/// for them, and the items of a sequence and the entries of a mapping keep
/// their order.
#[verifier::external_body]
pub(crate) fn node_of(value: Value) -> (node: Node)
    ensures
        node@ == value_tree(value),
{
    match value {
        Value::Null => Node::Null,
        Value::Bool(b) => Node::Bool(b),
        Value::Number(n) => Node::Number(n.to_string()),
        Value::String(s) => Node::Text(s),
        Value::Sequence(items) => Node::List(items.into_iter().map(node_of).collect()),
        Value::Mapping(map) => Node::Table(
            map.into_iter().map(|(k, v)| (node_of(k), node_of(v))).collect(),
        ),
        Value::Tagged(t) => Node::Tagged(t.tag.to_string(), Box::new(node_of(t.value))),
    }
}

} // verus!
