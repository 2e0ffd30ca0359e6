//! Reading and writing JSON text.
//!
//! The text itself is read and written by `serde_json`; this module turns
//! its values into [`Json`] documents and back, one level at a time.

use crate::json::{distinct_keys, Json, JsonField, JsonTree, Member};
use vstd::prelude::*;

verus! {

/// `serde_json::Value`, carried through as a value that cannot be looked
/// into.
#[verifier::external_type_specification]
#[verifier::external_body]
pub struct ExValue(serde_json::Value);

/// The document that a `serde_json::Value` holds. The members of an object
/// stand in the order in which its map yields them.
pub uninterp spec fn value_tree(value: serde_json::Value) -> JsonTree;

/// The document that `serde_json::from_str` reads from a text, or `None`
/// where it reports an error.
pub uninterp spec fn parsed_json(text: Seq<char>) -> Option<JsonTree>;

/// The text that `serde_json::to_string_pretty` writes for a document, or
/// `None` where it reports an error.
pub uninterp spec fn pretty_json(tree: JsonTree) -> Option<Seq<char>>;

/// One level of a `serde_json::Value`: its own kind and payload, with the
/// values below it left as they are.
enum ValueParts {
    Null,
    Bool(bool),
    Unsigned(u64),
    OtherNumber,
    Text(String),
    Array(Vec<serde_json::Value>),
    Object(Vec<(String, serde_json::Value)>),
}

impl ValueParts {
    /// The document that the parts describe, given the documents of the
    /// values below them.
    spec fn tree(self) -> JsonTree {
        match self {
            ValueParts::Null => JsonTree::Null,
            ValueParts::Bool(b) => JsonTree::Bool(b),
            ValueParts::Unsigned(n) => JsonTree::Unsigned(n),
            ValueParts::OtherNumber => JsonTree::OtherNumber,
            ValueParts::Text(s) => JsonTree::Text(s@),
            ValueParts::Array(items) => JsonTree::Array(
                Seq::new(items@.len(), |i: int| value_tree(items@[i])),
            ),
            ValueParts::Object(members) => JsonTree::Object(
                Seq::new(
                    members@.len(),
                    |i: int| JsonField { key: members@[i].0@, value: value_tree(members@[i].1) },
                ),
            ),
        }
    }
}

impl ValueParts {
    /// Parts that a `serde_json::Value` can hold as they are: a number with
    /// its value, an object without a repeated key.
    spec fn sealable(self) -> bool {
        match self {
            ValueParts::OtherNumber => false,
            ValueParts::Object(members) => forall|i: int, j: int|
                0 <= i < j < members@.len() ==> (#[trigger] members@[i]).0@ != (
                #[trigger] members@[j]).0@,
            _ => true,
        }
    }
}

/// Calls `serde_json::from_str` for a `serde_json::Value`. Taken on trust:
/// the result depends on the text alone, so that it can be named, as
/// [`parsed_json`]; which texts are JSON and what they hold is not stated
/// here.
#[verifier::external_body]
fn value_from_text(text: &str) -> (r: Option<serde_json::Value>)
    ensures
        match r {
            Some(value) => parsed_json(text@) == Some(value_tree(value)),
            None => parsed_json(text@) is None,
        },
{
    serde_json::from_str::<serde_json::Value>(text).ok()
}

/// Calls `serde_json::to_string_pretty`. Taken on trust: on a value whose
/// document is writable the text depends on that document alone, so that
/// it can be named, as [`pretty_json`]; the text itself is not stated here.
#[verifier::external_body]
fn value_to_pretty_text(value: &serde_json::Value) -> (r: Option<String>)
    requires
        value_tree(*value).writable(),
    ensures
        match r {
            Some(text) => pretty_json(value_tree(*value)) == Some(text@),
            None => pretty_json(value_tree(*value)) is None,
        },
{
    serde_json::to_string_pretty(value).ok()
}

/// Builds a `serde_json::Value` from its parts, one arm for each variant.
/// Taken on trust: the value holds what the parts describe. For an object
/// this rests on `serde_json::Map` keeping the order of insertion, as it
/// does with the feature `preserve_order`; with no key repeated, that is
/// the order of the members.
#[verifier::external_body]
fn seal_value(parts: ValueParts) -> (value: serde_json::Value)
    requires
        parts.sealable(),
    ensures
        value_tree(value) == parts.tree(),
{
    match parts {
        ValueParts::Null | ValueParts::OtherNumber => serde_json::Value::Null,
        ValueParts::Bool(b) => serde_json::Value::Bool(b),
        ValueParts::Unsigned(n) => serde_json::Value::Number(serde_json::Number::from(n)),
        ValueParts::Text(s) => serde_json::Value::String(s),
        ValueParts::Array(items) => serde_json::Value::Array(items),
        ValueParts::Object(members) => serde_json::Value::Object(members.into_iter().collect()),
    }
}

/// Takes a `serde_json::Value` apart, one arm for each of its variants.
/// Taken on trust: the parts describe what the value holds. A number keeps
/// its value where `Number::as_u64` gives one, and the members of an object
/// come in the order of `Map::into_iter`.
#[verifier::external_body]
fn open_value(value: serde_json::Value) -> (parts: ValueParts)
    ensures
        value_tree(value) == parts.tree(),
{
    match value {
        serde_json::Value::Null => ValueParts::Null,
        serde_json::Value::Bool(b) => ValueParts::Bool(b),
        serde_json::Value::Number(n) => match n.as_u64() {
            Some(u) => ValueParts::Unsigned(u),
            None => ValueParts::OtherNumber,
        },
        serde_json::Value::String(s) => ValueParts::Text(s),
        serde_json::Value::Array(items) => ValueParts::Array(items),
        serde_json::Value::Object(map) => ValueParts::Object(map.into_iter().collect()),
    }
}

/// An item of an array is a smaller document than the array.
proof fn lemma_item_decreases(tree: JsonTree, k: int)
    requires
        tree is Array,
        0 <= k < tree->Array_0.len(),
    ensures
        decreases_to!(tree => tree->Array_0[k]),
{
}

/// The value of a member is a smaller document than the object.
proof fn lemma_member_decreases(tree: JsonTree, k: int)
    requires
        tree is Object,
        0 <= k < tree->Object_0.len(),
    ensures
        decreases_to!(tree => tree->Object_0[k].value),
{
}

/// Turns a value of `serde_json` into a document of this crate.
fn json_from_value(value: serde_json::Value) -> (doc: Json)
    ensures
        doc.tree() == value_tree(value),
    decreases value_tree(value),
{
    let parts = open_value(value);
    match parts {
        ValueParts::Null => Json::Null,
        ValueParts::Bool(b) => Json::Bool(b),
        ValueParts::Unsigned(n) => Json::Unsigned(n),
        ValueParts::OtherNumber => Json::OtherNumber,
        ValueParts::Text(s) => Json::Text(s),
        ValueParts::Array(items) => {
            let ghost trees = Seq::new(items@.len(), |i: int| value_tree(items@[i]));
            let ghost all = items@;
            let mut out: Vec<Json> = Vec::new();
            for item in it: items.into_iter()
                invariant
                    it.seq() == all,
                    value_tree(value) == JsonTree::Array(trees),
                    trees.len() == all.len(),
                    forall|k: int| 0 <= k < all.len() ==> trees[k] == value_tree(all[k]),
                    out@.len() == it.index(),
                    forall|k: int| 0 <= k < out@.len() ==> (#[trigger] out@[k]).tree() == trees[k],
            {
                proof {
                    let k: int = it.index() as int;
                    assert(item == all[k]);
                    lemma_item_decreases(value_tree(value), k);
                }
                let child = json_from_value(item);
                out.push(child);
            }
            let doc = Json::Array(out);
            assert(doc.tree()->Array_0 =~= trees);
            doc
        },
        ValueParts::Object(members) => {
            let ghost fields = Seq::new(
                members@.len(),
                |i: int| JsonField { key: members@[i].0@, value: value_tree(members@[i].1) },
            );
            let ghost all = members@;
            let mut out: Vec<Member> = Vec::new();
            for member in it: members.into_iter()
                invariant
                    it.seq() == all,
                    value_tree(value) == JsonTree::Object(fields),
                    fields.len() == all.len(),
                    forall|k: int|
                        0 <= k < all.len() ==> fields[k] == (JsonField {
                            key: all[k].0@,
                            value: value_tree(all[k].1),
                        }),
                    out@.len() == it.index(),
                    forall|k: int|
                        0 <= k < out@.len() ==> (#[trigger] out@[k]).key@ == fields[k].key
                            && out@[k].value.tree() == fields[k].value,
            {
                let (key, inner) = member;
                proof {
                    let k: int = it.index() as int;
                    assert(member == all[k]);
                    lemma_member_decreases(value_tree(value), k);
                }
                let child = json_from_value(inner);
                out.push(Member { key, value: child });
            }
            let doc = Json::Object(out);
            assert(doc.tree()->Object_0 =~= fields);
            doc
        },
    }
}

/// Turns a document of this crate into a value of `serde_json`.
fn json_to_value(doc: &Json) -> (value: serde_json::Value)
    requires
        doc.tree().writable(),
    ensures
        value_tree(value) == doc.tree(),
    decreases doc,
{
    match doc {
        Json::Null => seal_value(ValueParts::Null),
        Json::Bool(b) => seal_value(ValueParts::Bool(*b)),
        Json::Unsigned(n) => seal_value(ValueParts::Unsigned(*n)),
        // A number without its value is not writable: this arm is never taken.
        Json::OtherNumber => seal_value(ValueParts::Null),
        Json::Text(s) => seal_value(ValueParts::Text(s.clone())),
        Json::Array(items) => {
            let ghost trees = doc.tree()->Array_0;
            let mut out: Vec<serde_json::Value> = Vec::new();
            let mut i: usize = 0;
            while i < items.len()
                invariant
                    0 <= i <= items.len(),
                    *doc == Json::Array(*items),
                    doc.tree() is Array,
                    trees == doc.tree()->Array_0,
                    doc.tree().writable(),
                    trees.len() == items@.len(),
                    out@.len() == i,
                    forall|k: int| 0 <= k < i ==> value_tree(#[trigger] out@[k]) == trees[k],
                decreases items.len() - i,
            {
                assert(trees[i as int] == items@[i as int].tree());
                assert(trees[i as int].writable());
                let child = json_to_value(&items[i]);
                out.push(child);
                i += 1;
            }
            let parts = ValueParts::Array(out);
            assert(parts.tree()->Array_0 =~= trees);
            seal_value(parts)
        },
        Json::Object(members) => {
            let ghost fields = doc.tree()->Object_0;
            let mut out: Vec<(String, serde_json::Value)> = Vec::new();
            let mut i: usize = 0;
            while i < members.len()
                invariant
                    0 <= i <= members.len(),
                    *doc == Json::Object(*members),
                    doc.tree() is Object,
                    fields == doc.tree()->Object_0,
                    doc.tree().writable(),
                    fields.len() == members@.len(),
                    out@.len() == i,
                    forall|k: int|
                        0 <= k < i ==> (#[trigger] out@[k]).0@ == fields[k].key && value_tree(
                            out@[k].1,
                        ) == fields[k].value,
                decreases members.len() - i,
            {
                assert(fields[i as int].value == members@[i as int].value.tree());
                assert(fields[i as int].value.writable());
                let key = members[i].key.clone();
                let child = json_to_value(&members[i].value);
                out.push((key, child));
                i += 1;
            }
            let parts = ValueParts::Object(out);
            assert(parts.tree()->Object_0 =~= fields);
            assert(parts.sealable()) by {
                assert(distinct_keys(fields));
                assert forall|a: int, b: int| 0 <= a < b < out@.len() implies (
                #[trigger] out@[a]).0@ != (#[trigger] out@[b]).0@ by {
                    assert(fields[a].key != fields[b].key);
                }
            }
            seal_value(parts)
        },
    }
}

/// Reads a JSON text. The result is the document that `serde_json` reads
/// from the text, and `None` where it rejects the text.
pub fn parse_json(text: &str) -> (r: Option<Json>)
    ensures
        r.deep_view() == parsed_json(text@),
{
    match value_from_text(text) {
        Some(value) => Some(json_from_value(value)),
        None => None,
    }
}

/// Writes a document as indented JSON text, as `serde_json` writes it.
pub(crate) fn render_json(doc: &Json) -> (r: Option<String>)
    requires
        doc.tree().writable(),
    ensures
        r.deep_view() == pretty_json(doc.tree()),
{
    let value = json_to_value(doc);
    value_to_pretty_text(&value)
}

} // verus!
