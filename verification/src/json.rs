//! JSON documents as trees of plain values.
//!
//! [`Json`] is the document held in memory and [`JsonTree`] its mathematical
//! model. A number keeps its value only when it is a non-negative integer
//! below 2^64, the one kind of number that the quiz schemas read.

use vstd::prelude::*;

verus! {

/// The mathematical model of a JSON document.
pub enum JsonTree {
    Null,
    Bool(bool),
    /// A number that is a non-negative integer below 2^64.
    Unsigned(u64),
    /// Any other number: negative, fractional or too large.
    OtherNumber,
    Text(Seq<char>),
    Array(Seq<JsonTree>),
    /// The members of an object, in the order of the document.
    Object(Seq<JsonField>),
}

/// One member of a JSON object in the model.
pub struct JsonField {
    pub key: Seq<char>,
    pub value: JsonTree,
}

/// A JSON document held in memory.
///
/// A document that was read from text names no member of an object twice.
/// In one that was built by hand and does, the first member of a name is
/// the one that counts.
#[derive(Debug, PartialEq, Eq)]
pub enum Json {
    Null,
    Bool(bool),
    /// A number that is a non-negative integer below 2^64.
    Unsigned(u64),
    /// Any other number; its value is not kept.
    OtherNumber,
    Text(String),
    Array(Vec<Json>),
    /// The members of an object, in the order of the document.
    Object(Vec<Member>),
}

/// One member of a JSON object.
#[derive(Debug, PartialEq, Eq)]
pub struct Member {
    pub key: String,
    pub value: Json,
}

impl Json {
    /// The model of this document.
    pub open spec fn tree(self) -> JsonTree
        decreases self,
    {
        match self {
            Json::Null => JsonTree::Null,
            Json::Bool(b) => JsonTree::Bool(b),
            Json::Unsigned(n) => JsonTree::Unsigned(n),
            Json::OtherNumber => JsonTree::OtherNumber,
            Json::Text(s) => JsonTree::Text(s@),
            Json::Array(items) => JsonTree::Array(
                Seq::new(
                    items@.len(),
                    |i: int|
                        if 0 <= i < items@.len() {
                            items@[i].tree()
                        } else {
                            JsonTree::Null
                        },
                ),
            ),
            Json::Object(members) => JsonTree::Object(
                Seq::new(
                    members@.len(),
                    |i: int|
                        if 0 <= i < members@.len() {
                            JsonField { key: members@[i].key@, value: members@[i].value.tree() }
                        } else {
                            JsonField { key: Seq::empty(), value: JsonTree::Null }
                        },
                ),
            ),
        }
    }
}

impl DeepView for Json {
    type V = JsonTree;

    open spec fn deep_view(&self) -> JsonTree {
        self.tree()
    }
}

/// The value of the first member named `key` among `fields`, if there is one.
pub open spec fn lookup(fields: Seq<JsonField>, key: Seq<char>) -> Option<JsonTree>
    decreases fields.len(),
{
    if fields.len() == 0 {
        None
    } else if fields[0].key == key {
        Some(fields[0].value)
    } else {
        lookup(fields.drop_first(), key)
    }
}

/// Whether no two members of `fields` share a key.
pub open spec fn distinct_keys(fields: Seq<JsonField>) -> bool {
    forall|i: int, j: int|
        0 <= i < j < fields.len() ==> (#[trigger] fields[i]).key != (#[trigger] fields[j]).key
}

impl JsonTree {
    /// The member `key` of an object; `None` when it has no such member or
    /// when the document is no object at all.
    pub open spec fn field(self, key: Seq<char>) -> Option<JsonTree> {
        match self {
            JsonTree::Object(fields) => lookup(fields, key),
            _ => None,
        }
    }

    /// A document that can be written out and read back unchanged: every
    /// number in it kept its value, and no object names a member twice.
    pub open spec fn writable(self) -> bool
        decreases self,
    {
        match self {
            JsonTree::OtherNumber => false,
            JsonTree::Array(items) => forall|i: int|
                0 <= i < items.len() ==> (#[trigger] items[i]).writable(),
            JsonTree::Object(fields) => distinct_keys(fields) && forall|i: int|
                0 <= i < fields.len() ==> (#[trigger] fields[i]).value.writable(),
            _ => true,
        }
    }
}

/// `lookup` skips the members before position `from` when none of them is
/// named `key`.
pub proof fn lemma_lookup_skip(fields: Seq<JsonField>, key: Seq<char>, from: int)
    requires
        0 <= from <= fields.len(),
        forall|j: int| 0 <= j < from ==> (#[trigger] fields[j]).key != key,
    ensures
        lookup(fields, key) == lookup(fields.subrange(from, fields.len() as int), key),
    decreases from,
{
    if from == 0 {
        assert(fields.subrange(0, fields.len() as int) =~= fields);
    } else {
        lemma_lookup_skip(fields.drop_first(), key, from - 1);
        assert(fields.drop_first().subrange(from - 1, fields.len() - 1) =~= fields.subrange(
            from,
            fields.len() as int,
        ));
    }
}

/// Where `lookup` finds nothing, no member has the key.
pub proof fn lemma_lookup_none(fields: Seq<JsonField>, key: Seq<char>)
    requires
        lookup(fields, key) is None,
    ensures
        forall|i: int| 0 <= i < fields.len() ==> (#[trigger] fields[i]).key != key,
    decreases fields.len(),
{
    if fields.len() > 0 {
        lemma_lookup_none(fields.drop_first(), key);
        assert forall|i: int| 0 <= i < fields.len() implies (#[trigger] fields[i]).key != key by {
            if i > 0 {
                assert(fields[i] == fields.drop_first()[i - 1]);
            }
        }
    }
}

/// What `lookup` finds after one more member is appended: what it found
/// before, and otherwise the new member where that has the key.
pub proof fn lemma_lookup_push(fields: Seq<JsonField>, last: JsonField, key: Seq<char>)
    ensures
        lookup(fields.push(last), key) == match lookup(fields, key) {
            Some(value) => Some(value),
            None => if last.key == key {
                Some(last.value)
            } else {
                None
            },
        },
    decreases fields.len(),
{
    if fields.len() == 0 {
        assert(fields.push(last).drop_first() =~= fields);
    } else {
        assert(fields.push(last).drop_first() =~= fields.drop_first().push(last));
        lemma_lookup_push(fields.drop_first(), last, key);
    }
}

/// Appending a member under a key that is not there yet keeps the keys
/// distinct.
pub proof fn lemma_distinct_push(fields: Seq<JsonField>, last: JsonField)
    requires
        distinct_keys(fields),
        lookup(fields, last.key) is None,
    ensures
        distinct_keys(fields.push(last)),
{
    lemma_lookup_none(fields, last.key);
}

impl Json {
    /// The member `key` of an object, by the rule of [`JsonTree::field`].
    pub fn get(&self, key: &str) -> (r: Option<&Json>)
        ensures
            r.deep_view() == self.tree().field(key@),
    {
        match self {
            Json::Object(members) => {
                let wanted = key.to_owned();
                let ghost fields = self.tree()->Object_0;
                let mut i: usize = 0;
                while i < members.len()
                    invariant
                        0 <= i <= members.len(),
                        wanted@ == key@,
                        self.tree() == JsonTree::Object(fields),
                        *self == Json::Object(*members),
                        fields.len() == members.len(),
                        forall|j: int| 0 <= j < i ==> (#[trigger] fields[j]).key != key@,
                    decreases members.len() - i,
                {
                    if members[i].key == wanted {
                        proof {
                            lemma_lookup_skip(fields, key@, i as int);
                            let rest = fields.subrange(i as int, fields.len() as int);
                            assert(rest[0] == fields[i as int]);
                        }
                        return Some(&members[i].value);
                    }
                    i += 1;
                }
                proof {
                    lemma_lookup_skip(fields, key@, fields.len() as int);
                }
                None
            },
            _ => None,
        }
    }
}

} // verus!
