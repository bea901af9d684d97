//! JSON documents: their mathematical model, and the decoder behind it.
//!
//! Decoding is done by `serde_json`. Everything in this module that touches it
//! is trusted rather than proved; each such item says what it takes on trust.

use crate::double::Double;
use vstd::prelude::*;

verus! {

/// A JSON number, by what can be read from it.
pub struct JsonNumber {
    /// The number as a signed 64-bit integer, where it is an integer in that range.
    pub integer: Option<i64>,
    /// The number as a double.
    pub double: Double,
}

/// A JSON document.
pub enum Json {
    Null,
    Boolean(bool),
    Number(JsonNumber),
    Text(Seq<char>),
    Array(Seq<Json>),
    Object(Map<Seq<char>, Json>),
}

impl Json {
    /// The member stored under `key`; `Null` where the document is no object
    /// or has no such member.
    pub open spec fn member(self, key: Seq<char>) -> Json {
        match self {
            Json::Object(members) => if members.contains_key(key) {
                members[key]
            } else {
                Json::Null
            },
            _ => Json::Null,
        }
    }

    /// The document as a double, where it is a number.
    pub open spec fn as_double(self) -> Option<Double> {
        match self {
            Json::Number(n) => Some(n.double),
            _ => None,
        }
    }

    /// The document as a signed 64-bit integer, where it is a number with such a value.
    pub open spec fn as_integer(self) -> Option<i64> {
        match self {
            Json::Number(n) => n.integer,
            _ => None,
        }
    }

    /// The document's characters, where it is a string.
    pub open spec fn as_text(self) -> Option<Seq<char>> {
        match self {
            Json::Text(s) => Some(s),
            _ => None,
        }
    }

    /// The document's elements, where it is an array.
    pub open spec fn as_items(self) -> Option<Seq<Json>> {
        match self {
            Json::Array(items) => Some(items),
            _ => None,
        }
    }
}

#[verifier::external_type_specification]
#[verifier::external_body]
pub struct ExValue(serde_json::Value);

#[verifier::external_type_specification]
#[verifier::external_body]
pub struct ExError(serde_json::Error);

/// The document that a decoded value holds.
pub uninterp spec fn document(value: serde_json::Value) -> Json;

/// What decoding a text gives: its document, or nothing where the text is not
/// one well-formed JSON document.
pub uninterp spec fn decoded(text: Seq<char>) -> Option<Json>;

/// The documents that a sequence of decoded values holds, in order.
pub open spec fn documents(values: Seq<serde_json::Value>) -> Seq<Json> {
    values.map_values(|v: serde_json::Value| document(v))
}

/// `serde_json::from_str` at `Value`. Trusted: the outcome depends on the text
/// alone, so it succeeds exactly where `decoded` has a document, and the value
/// it returns holds that document.
#[verifier::external_body]
pub(crate) fn from_str(text: &str) -> (r: Result<serde_json::Value, serde_json::Error>)
    ensures
        match r {
            Ok(value) => decoded(text@) == Some(document(value)),
            Err(_) => decoded(text@) is None,
        },
{
    serde_json::from_str::<serde_json::Value>(text)
}

/// The message of a `serde_json::Error`, as its `Display` writes it. Nothing
/// is claimed of the text.
#[verifier::external_body]
pub(crate) fn error_message(error: &serde_json::Error) -> String {
    error.to_string()
}

/// Indexing a `serde_json::Value` by a string key. Trusted: it yields the
/// member under that key, and a null value where the value is no object or
/// has no such member.
#[verifier::external_body]
pub(crate) fn member<'a>(value: &'a serde_json::Value, key: &str) -> (r: &'a serde_json::Value)
    ensures
        document(*r) == document(*value).member(key@),
{
    &value[key]
}

/// `serde_json::Value::as_f64`, the double handed out as its bit pattern.
/// Trusted: every number has a value as a double, and nothing else has one.
#[verifier::external_body]
pub(crate) fn as_double(value: &serde_json::Value) -> (r: Option<Double>)
    ensures
        r == document(*value).as_double(),
{
    value.as_f64().map(|x| Double { bits: x.to_bits() })
}

/// `serde_json::Value::as_i64`. Trusted: it yields the value of a number that
/// is an integer within the signed 64-bit range, and nothing otherwise.
#[verifier::external_body]
pub(crate) fn as_integer(value: &serde_json::Value) -> (r: Option<i64>)
    ensures
        r == document(*value).as_integer(),
{
    value.as_i64()
}

/// `serde_json::Value::as_str`. Trusted: it yields the characters of a string,
/// and nothing for any other value.
#[verifier::external_body]
pub(crate) fn as_text(value: &serde_json::Value) -> (r: Option<&str>)
    ensures
        match r {
            Some(s) => document(*value).as_text() == Some(s@),
            None => document(*value).as_text() is None,
        },
{
    value.as_str()
}

/// `serde_json::Value::as_array`. Trusted: it yields the elements of an array
/// in order, and nothing for any other value.
#[verifier::external_body]
pub(crate) fn as_items(value: &serde_json::Value) -> (r: Option<&Vec<serde_json::Value>>)
    ensures
        match r {
            Some(items) => document(*value).as_items() == Some(documents(items@)),
            None => document(*value).as_items() is None,
        },
{
    value.as_array()
}

} // verus!
