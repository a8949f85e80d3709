//! JSON documents as plain values, read with `serde_json`.

use crate::text::same_text;
use serde_json::Value;
use vstd::prelude::*;
use vstd::string::*;

verus! {

/// A JSON document held as plain values.
#[derive(Debug, PartialEq, Eq)]
pub enum Json {
    Null,
    Bool(bool),
    /// A number: the integer it stands for, where it is a whole number that
    /// fits in 64 signed bits.
    Number(Option<i64>),
    Text(String),
    Array(Vec<Json>),
    /// The members of an object in the order the document's reader walks them.
    Object(Vec<(String, Json)>),
}

/// The value of the first member named `key`.
pub open spec fn first_named(members: Seq<(String, Json)>, key: Seq<char>) -> Option<Json>
    decreases members.len(),
{
    if members.len() == 0 {
        None
    } else if members[0].0@ == key {
        Some(members[0].1)
    } else {
        first_named(members.drop_first(), key)
    }
}

impl Json {
    /// The member named `key` of an object; nothing for any other value.
    pub open spec fn member(self, key: Seq<char>) -> Option<Json> {
        match self {
            Json::Object(members) => first_named(members@, key),
            _ => None,
        }
    }

    /// Looks up the member named `key`.
    pub fn get(&self, key: &str) -> (r: Option<&Json>)
        ensures
            match r {
                Some(found) => self.member(key@) == Some(*found),
                None => self.member(key@) is None,
            },
    {
        match self {
            Json::Object(members) => {
                let mut i: usize = 0;
                assert(members@.skip(0) =~= members@);
                while i < members.len()
                    invariant
                        i <= members.len(),
                        self.member(key@) == first_named(members@, key@),
                        first_named(members@, key@) == first_named(members@.skip(i as int), key@),
                    decreases members.len() - i,
                {
                    assert(members@.skip(i as int).drop_first() =~= members@.skip(i + 1));
                    assert(members@.skip(i as int)[0] == members@[i as int]);
                    if same_text(members[i].0.as_str(), key) {
                        return Some(&members[i].1);
                    }
                    i = i + 1;
                }
                None
            },
            _ => None,
        }
    }
}

#[verifier::external_type_specification]
#[verifier::external_body]
pub struct ExValue(serde_json::Value);

#[verifier::external_type_specification]
#[verifier::external_body]
pub struct ExJsonError(serde_json::Error);

/// What `serde_json` reads from a text: the document, or the message of the
/// error it reports.
pub uninterp spec fn json_document(text: Seq<char>) -> Result<Json, Seq<char>>;

/// The plain form of a `serde_json` value.
pub uninterp spec fn value_content(value: Value) -> Json;

/// The message that a `serde_json` error displays.
pub uninterp spec fn error_message(error: serde_json::Error) -> Seq<char>;

/// `serde_json::from_str` read as a `Value`. The outcome depends on the text
/// alone: the value's plain form, or the error's message, is what
/// `json_document` names.
#[verifier::external_body]
fn parse_value(text: &str) -> (r: Result<Value, serde_json::Error>)
    ensures
        match r {
            Ok(value) => json_document(text@) == Ok::<Json, Seq<char>>(value_content(value)),
            Err(error) => json_document(text@) == Err::<Json, Seq<char>>(error_message(error)),
        },
{
    serde_json::from_str::<Value>(text)
}

/// Copies a `serde_json::Value` into a `Json`, variant by variant; a number
/// keeps what `Number::as_i64` gives.
#[verifier::external_body]
fn mirror(value: &Value) -> (r: Json)
    ensures
        r == value_content(*value),
{
    match value {
        Value::Null => Json::Null,
        Value::Bool(b) => Json::Bool(*b),
        Value::Number(n) => Json::Number(n.as_i64()),
        Value::String(s) => Json::Text(s.clone()),
        Value::Array(items) => Json::Array(items.iter().map(mirror).collect()),
        Value::Object(members) => Json::Object(
            members.iter().map(|(k, v)| (k.clone(), mirror(v))).collect(),
        ),
    }
}

/// The `Display` text of a `serde_json::Error`.
#[verifier::external_body]
fn describe_error(error: &serde_json::Error) -> (r: String)
    ensures
        r@ == error_message(*error),
{
    error.to_string()
}

/// Reads a JSON document from `text`.
pub fn parse_json(text: &str) -> (r: Result<Json, String>)
    ensures
        match r {
            Ok(doc) => json_document(text@) == Ok::<Json, Seq<char>>(doc),
            Err(message) => json_document(text@) == Err::<Json, Seq<char>>(message@),
        },
{
    match parse_value(text) {
        Ok(value) => Ok(mirror(&value)),
        Err(error) => Err(describe_error(&error)),
    }
}

} // verus!
