//! JSON documents as trees of plain values.

use vstd::prelude::*;

verus! {

/// A JSON value. A number is held by its value where it is a whole number
/// that is not negative and fits 64 bits, which is all that a document read
/// here holds in numbers; any other number is held as `None`.
#[derive(Debug, PartialEq, Eq)]
pub enum Json {
    Null,
    Bool(bool),
    Number(Option<u64>),
    Text(String),
    Array(Vec<Json>),
    Object(Vec<(String, Json)>),
}

/// The document that serde_json's `from_slice` reads from `bytes`, as a
/// tree; `None` where it refuses them.
pub uninterp spec fn json_decoded(bytes: Seq<u8>) -> Option<Json>;

/// The value of the first member called `name` among `members`.
pub open spec fn member_of(members: Seq<(String, Json)>, name: Seq<char>) -> Option<Json>
    decreases members.len(),
{
    if members.len() == 0 {
        None
    } else if members[0].0@ == name {
        Some(members[0].1)
    } else {
        member_of(members.skip(1), name)
    }
}

impl Json {
    /// The value of the member called `name`, where `self` is an object
    /// that has one.
    pub open spec fn member(self, name: Seq<char>) -> Option<Json> {
        match self {
            Json::Object(members) => member_of(members@, name),
            _ => None,
        }
    }

    /// Looks up the member called `name`.
    pub fn get<'a>(&'a self, name: &str) -> (found: Option<&'a Json>)
        ensures
            match found {
                Some(value) => self.member(name@) == Some(*value),
                None => self.member(name@).is_none(),
            },
    {
        match self {
            Json::Object(members) => find_member(members, name),
            _ => None,
        }
    }
}

/// Looks up the first member called `name` among `members`.
pub fn find_member<'a>(members: &'a Vec<(String, Json)>, name: &str) -> (found: Option<&'a Json>)
    ensures
        match found {
            Some(value) => member_of(members@, name@) == Some(*value),
            None => member_of(members@, name@).is_none(),
        },
{
    let wanted = String::from_str(name);
    let mut at: usize = 0;
    assert(members@.skip(0) =~= members@);
    while at < members.len()
        invariant
            at <= members.len(),
            wanted@ == name@,
            member_of(members@, name@) == member_of(members@.skip(at as int), name@),
        decreases members.len() - at,
    {
        assert(members@.skip(at as int)[0] == members@[at as int]);
        if members[at].0 == wanted {
            return Some(&members[at].1);
        }
        assert(members@.skip(at as int).skip(1) =~= members@.skip(at + 1));
        at += 1;
    }
    None
}

/// serde_json's `Value`, which is carried from the reading of the bytes to
/// the making of the tree and is not looked into elsewhere.
#[verifier::external_type_specification]
#[verifier::external_body]
pub struct ExValue(serde_json::Value);

/// serde_json's `from_slice` at `serde_json::Value`, which reads one JSON
/// document from the bytes and refuses anything else. The value it makes is
/// handed on as a tree.
#[verifier::external_body]
pub(crate) fn tree_of_bytes(bytes: &[u8]) -> (document: Option<Json>)
    ensures
        document == json_decoded(bytes@),
{
    serde_json::from_slice::<serde_json::Value>(bytes).ok().map(|value| tree_of_value(&value))
}

/// Turns a `serde_json::Value` into a tree, variant by variant; of a number
/// it keeps what `Number::as_u64` gives. Members come in the order in which
/// the value's map hands them out.
#[verifier::external_body]
fn tree_of_value(value: &serde_json::Value) -> (tree: Json)
{
    match value {
        serde_json::Value::Null => Json::Null,
        serde_json::Value::Bool(flag) => Json::Bool(*flag),
        serde_json::Value::Number(number) => Json::Number(number.as_u64()),
        serde_json::Value::String(text) => Json::Text(text.clone()),
        serde_json::Value::Array(items) => Json::Array(items.iter().map(tree_of_value).collect()),
        serde_json::Value::Object(members) => Json::Object(
            members.iter().map(|(name, item)| (name.clone(), tree_of_value(item))).collect(),
        ),
    }
}

} // verus!
