//! JSON values, as `serde_json` holds them, and what the crate assumes of the
//! `serde_json` functions that it calls.
//!
//! A `serde_json::Value` is opaque to the verifier. Contracts speak of its
//! content, a `Json`, and the items below say how `serde_json` relates the two.
//! Nothing here is proved: each contract restates the documented behaviour of
//! one `serde_json` function.

use vstd::prelude::*;

verus! {

/// `serde_json::Value`, a JSON value of any shape. The verifier sees nothing
/// inside it.
#[verifier::external_type_specification]
#[verifier::external_body]
pub struct ExValue(serde_json::Value);

/// `serde_json::Error`, what `serde_json` reports of a text that it rejects.
/// The crate only hands it on.
#[verifier::external_type_specification]
#[verifier::external_body]
pub struct ExError(serde_json::Error);

/// The content of a JSON value. A number's magnitude is not modelled.
pub enum Json {
    Null,
    Bool(bool),
    Number,
    String(Seq<char>),
    Array(Seq<Json>),
    Object(Map<Seq<char>, Json>),
}

impl Json {
    /// The member stored under `key`, if this is an object that has one.
    pub open spec fn member(self, key: Seq<char>) -> Option<Json> {
        match self {
            Json::Object(members) => if members.contains_key(key) {
                Some(members[key])
            } else {
                None
            },
            _ => None,
        }
    }

    /// The characters of this value, if it is a string.
    pub open spec fn text(self) -> Option<Seq<char>> {
        match self {
            Json::String(chars) => Some(chars),
            _ => None,
        }
    }

    /// The characters of the string member stored under `key`, if there is one.
    pub open spec fn text_member(self, key: Seq<char>) -> Option<Seq<char>> {
        match self.member(key) {
            Some(inner) => inner.text(),
            None => None,
        }
    }

    /// The object with the single member `key`, a string holding `text`.
    pub open spec fn labelled(key: Seq<char>, text: Seq<char>) -> Json {
        Json::Object(Map::empty().insert(key, Json::String(text)))
    }
}

/// The content of a `serde_json::Value`: what the value holds, as JSON.
pub uninterp spec fn content(value: serde_json::Value) -> Json;

/// The content that `serde_json` reads from a text, or `None` where it rejects
/// the text.
pub uninterp spec fn parsed(text: Seq<char>) -> Option<Json>;

/// `serde_json::from_str::<Value>`: parses a whole text as one JSON value. The
/// outcome depends on the text alone; `parsed` names it.
#[verifier::external_body]
pub(crate) fn parse(text: &str) -> (outcome: Result<serde_json::Value, serde_json::Error>)
    ensures
        match outcome {
            Ok(value) => parsed(text@) == Some(content(value)),
            Err(_) => parsed(text@) is None,
        },
{
    serde_json::from_str::<serde_json::Value>(text)
}

/// `Value::get` with a string index: the member of an object stored under
/// `key`; `None` where the value is no object or has no such member.
#[verifier::external_body]
pub(crate) fn get<'a>(value: &'a serde_json::Value, key: &str) -> (found: Option<
    &'a serde_json::Value,
>)
    ensures
        match found {
            Some(inner) => content(*value).member(key@) == Some(content(*inner)),
            None => content(*value).member(key@) is None,
        },
{
    value.get(key)
}

/// `Value::as_str`: the characters of a JSON string; `None` for any other value.
#[verifier::external_body]
pub(crate) fn as_str<'a>(value: &'a serde_json::Value) -> (found: Option<&'a str>)
    ensures
        match found {
            Some(chars) => content(*value).text() == Some(chars@),
            None => content(*value).text() is None,
        },
{
    value.as_str()
}

/// `Value`'s `FromIterator<(K, V)>`, on one pair of string slices: the object
/// whose only member is `key`, a string holding `text`.
#[verifier::external_body]
pub(crate) fn labelled_object(key: &str, text: &str) -> (value: serde_json::Value)
    ensures
        content(value) == Json::labelled(key@, text@),
{
    std::iter::once((key, text)).collect::<serde_json::Value>()
}

} // verus!
