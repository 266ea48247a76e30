//! JSON documents as plain values, read with `serde_json`.

use crate::text::{chars_of, same};
use vstd::prelude::*;

verus! {

/// A JSON value.
pub enum Json {
    /// `null`.
    Null,
    /// `true` or `false`.
    Bool(bool),
    /// A number: its value where it is a whole number that a `u64` holds,
    /// `None` for any other number.
    Number(Option<u64>),
    /// A string.
    Text(String),
    /// An array, with its items in order.
    Array(Vec<Json>),
    /// An object, with its members in the order in which `serde_json` walks
    /// them; no key occurs twice.
    Object(Vec<(String, Json)>),
}

/// `serde_json::Value`, a JSON value as `serde_json` holds it.
#[verifier::external_type_specification]
#[verifier::external_body]
pub struct ExValue(serde_json::Value);

/// The value that `serde_json::from_str` reads from a text as a
/// `serde_json::Value`, or `None` where it reports an error.
pub uninterp spec fn document(text: Seq<char>) -> Option<serde_json::Value>;

/// What a `serde_json::Value` holds.
pub uninterp spec fn content(value: serde_json::Value) -> Json;

/// `serde_json::from_str`, asked for a `serde_json::Value`: the result, with
/// an error turned into `None`, is named by [`document`].
#[verifier::external_body]
fn read_value(text: &str) -> (r: Option<serde_json::Value>)
    ensures
        r == document(text@),
{
    serde_json::from_str::<serde_json::Value>(text).ok()
}

/// Moves what a `serde_json::Value` holds into a [`Json`], variant by
/// variant; a number goes through `serde_json::Number::as_u64`. The result is
/// named by [`content`].
#[verifier::external_body]
fn to_json(value: &serde_json::Value) -> (r: Json)
    ensures
        r == content(*value),
{
    match value {
        serde_json::Value::Null => Json::Null,
        serde_json::Value::Bool(b) => Json::Bool(*b),
        serde_json::Value::Number(n) => Json::Number(n.as_u64()),
        serde_json::Value::String(s) => Json::Text(s.clone()),
        serde_json::Value::Array(items) => Json::Array(items.iter().map(to_json).collect()),
        serde_json::Value::Object(members) => Json::Object(
            members.iter().map(|(k, v)| (k.clone(), to_json(v))).collect(),
        ),
    }
}

/// The JSON value that a text writes, or `None` where the text is not JSON.
pub open spec fn parsed(text: Seq<char>) -> Option<Json> {
    match document(text) {
        Some(value) => Some(content(value)),
        None => None,
    }
}

/// Reads a text as JSON.
pub fn parse(text: &str) -> (r: Option<Json>)
    ensures
        r == parsed(text@),
{
    match read_value(text) {
        Some(value) => Some(to_json(&value)),
        None => None,
    }
}

/// The value of the first member of that name among `members`.
pub open spec fn lookup(members: Seq<(String, Json)>, key: Seq<char>) -> Option<Json>
    decreases members.len(),
{
    if members.len() == 0 {
        None
    } else if members[0].0@ == key {
        Some(members[0].1)
    } else {
        lookup(members.drop_first(), key)
    }
}

/// The member of that name of an object; `None` for anything but an object
/// and for an object without such a member.
pub open spec fn member(value: Json, key: Seq<char>) -> Option<Json> {
    match value {
        Json::Object(members) => lookup(members@, key),
        _ => None,
    }
}

/// The number that a value holds, where there is a value, it is a number and
/// a `u64` holds it.
pub open spec fn number(value: Option<Json>) -> Option<u64> {
    match value {
        Some(Json::Number(n)) => n,
        _ => None,
    }
}

/// The text that a value holds, where there is a value and it is a string.
pub open spec fn text(value: Option<Json>) -> Option<Seq<char>> {
    match value {
        Some(Json::Text(s)) => Some(s@),
        _ => None,
    }
}

/// The members of a value, where there is a value and it is an object.
pub open spec fn members(value: Option<Json>) -> Option<Seq<(String, Json)>> {
    match value {
        Some(Json::Object(m)) => Some(m@),
        _ => None,
    }
}

/// Whether a value is there and is `true`.
pub open spec fn is_true(value: Option<Json>) -> bool {
    value matches Some(Json::Bool(b)) && b
}

impl Json {
    /// The member of that name, as [`member`] defines it.
    pub fn get(&self, key: &str) -> (r: Option<&Json>)
        ensures
            r is Some == member(*self, key@) is Some,
            r matches Some(found) ==> member(*self, key@) == Some(*found),
    {
        match self {
            Json::Object(members) => {
                let name = chars_of(key);
                let mut i: usize = 0;
                assert(members@.skip(0) == members@);
                while i < members.len()
                    invariant
                        i <= members.len(),
                        name@ == key@,
                        member(*self, key@) == lookup(members@, key@),
                        lookup(members@, key@) == lookup(members@.skip(i as int), key@),
                    decreases members.len() - i,
                {
                    let candidate = chars_of(members[i].0.as_str());
                    if same(candidate.as_slice(), name.as_slice()) {
                        return Some(&members[i].1);
                    }
                    assert(members@.skip(i as int).drop_first() == members@.skip(i + 1));
                    i += 1;
                }
                None
            },
            _ => None,
        }
    }
}

/// The number that a value holds, as [`number`] defines it.
pub fn as_u64(value: Option<&Json>) -> (r: Option<u64>)
    ensures
        r == number(
            match value {
                Some(v) => Some(*v),
                None => None,
            },
        ),
{
    match value {
        Some(Json::Number(n)) => *n,
        _ => None,
    }
}

} // verus!
