//! JSON documents as plain values.
//!
//! Reading JSON text is left to `serde_json`. What it reads is handed over as a
//! [`Json`] tree, and everything that looks into a document works on that tree.

use vstd::prelude::*;

verus! {

/// `serde_json::Value`: a document as `serde_json` holds it. Nothing is seen
/// of what is inside.
#[verifier::external_type_specification]
#[verifier::external_body]
pub struct ExValue(serde_json::Value);

/// `serde_json::Error`: why `serde_json` rejects a text.
#[verifier::external_type_specification]
#[verifier::external_body]
pub struct ExError(serde_json::Error);

/// A JSON value.
#[derive(Debug, PartialEq, Eq)]
pub enum Json {
    Null,
    Bool(bool),
    /// A number: `Some` where it is an integer that fits `i64`, `None` for
    /// every other number.
    Number(Option<i64>),
    Text(String),
    List(Vec<Json>),
    /// The members of an object, each with its key.
    Record(Vec<(String, Json)>),
}

/// The document that `serde_json` reads from `text`, or `None` where it
/// rejects the text.
pub uninterp spec fn json_document(text: Seq<char>) -> Option<Json>;

/// What a value of `serde_json` holds, as a tree of plain values.
pub uninterp spec fn json_content(value: serde_json::Value) -> Json;

/// `serde_json::from_str`, reading one `serde_json::Value`. Nothing is
/// claimed of which texts are accepted: the result is the named document of
/// the text, and an error stands where there is none.
#[verifier::external_body]
pub(crate) fn value_from_text(text: &str) -> (r: Result<serde_json::Value, serde_json::Error>)
    ensures
        r matches Ok(value) ==> json_document(text@) == Some(json_content(value)),
        r is Err ==> json_document(text@) is None,
{
    serde_json::from_str::<serde_json::Value>(text)
}

/// Moves what a `serde_json::Value` holds into a [`Json`], variant by
/// variant: numbers through `Number::as_i64`, the members of an object in the
/// order of `Map::into_iter`. Values come from [`value_from_text`], which
/// nests no deeper than `serde_json` reads.
#[verifier::external_body]
pub(crate) fn json_from_value(value: serde_json::Value) -> (json: Json)
    ensures
        json == json_content(value),
{
    match value {
        serde_json::Value::Null => Json::Null,
        serde_json::Value::Bool(b) => Json::Bool(b),
        serde_json::Value::Number(n) => Json::Number(n.as_i64()),
        serde_json::Value::String(s) => Json::Text(s),
        serde_json::Value::Array(items) => Json::List(
            items.into_iter().map(json_from_value).collect(),
        ),
        serde_json::Value::Object(members) => Json::Record(
            members.into_iter().map(|(key, member)| (key, json_from_value(member))).collect(),
        ),
    }
}

/// The first of `members` whose key is `key`.
pub open spec fn member_of(members: Seq<(String, Json)>, key: Seq<char>) -> Option<Json>
    decreases members.len(),
{
    if members.len() == 0 {
        None
    } else if members[0].0@ == key {
        Some(members[0].1)
    } else {
        member_of(members.skip(1), key)
    }
}

impl Json {
    /// The member of an object under `key`; `None` for a missing key and for
    /// a value that is no object.
    pub open spec fn member(self, key: Seq<char>) -> Option<Json> {
        match self {
            Json::Record(members) => member_of(members@, key),
            _ => None,
        }
    }

    /// The characters of a string; `None` for every other value.
    pub open spec fn text(self) -> Option<Seq<char>> {
        match self {
            Json::Text(s) => Some(s@),
            _ => None,
        }
    }

    /// The integer that a number holds; `None` for a number that is no
    /// integer of `i64` and for every other value.
    pub open spec fn integer(self) -> Option<i64> {
        match self {
            Json::Number(n) => n,
            _ => None,
        }
    }

    /// The elements of an array; `None` for every other value.
    pub open spec fn elements(self) -> Option<Seq<Json>> {
        match self {
            Json::List(items) => Some(items@),
            _ => None,
        }
    }

    /// The member of an object under `key`: the first with that key.
    pub fn get(&self, key: &str) -> (found: Option<&Json>)
        ensures
            match found {
                Some(member) => self.member(key@) == Some(*member),
                None => self.member(key@) is None,
            },
    {
        match self {
            Json::Record(members) => {
                let wanted = key.to_owned();
                let mut at: usize = 0;
                assert(members@.skip(0) == members@);
                while at < members.len()
                    invariant
                        at <= members.len(),
                        wanted@ == key@,
                        self.member(key@) == member_of(members@, key@),
                        member_of(members@.skip(at as int), key@) == member_of(members@, key@),
                    decreases members.len() - at,
                {
                    assert(members@.skip(at as int).skip(1) == members@.skip(at + 1));
                    if members[at].0 == wanted {
                        return Some(&members[at].1);
                    }
                    at += 1;
                }
                None
            },
            _ => None,
        }
    }

    /// The string that the value is, if it is one.
    pub fn as_str(&self) -> (found: Option<&str>)
        ensures
            match found {
                Some(s) => self.text() == Some(s@),
                None => self.text() is None,
            },
    {
        match self {
            Json::Text(s) => Some(s.as_str()),
            _ => None,
        }
    }

    /// The integer that the value is, if it is one that fits `i64`.
    pub fn as_i64(&self) -> (found: Option<i64>)
        ensures
            found == self.integer(),
    {
        match self {
            Json::Number(n) => *n,
            _ => None,
        }
    }

    /// The elements of the array that the value is, if it is one.
    pub fn as_array(&self) -> (found: Option<&Vec<Json>>)
        ensures
            match found {
                Some(items) => self.elements() == Some(items@),
                None => self.elements() is None,
            },
    {
        match self {
            Json::List(items) => Some(items),
            _ => None,
        }
    }
}

/// The document that `text` holds, or `None` where `text` is no JSON document.
pub fn json_from_text(text: &str) -> (r: Option<Json>)
    ensures
        r == json_document(text@),
{
    match value_from_text(text) {
        Ok(value) => Some(json_from_value(value)),
        Err(_) => None,
    }
}

} // verus!
