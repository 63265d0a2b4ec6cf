//! The boundary to `serde_json`: reading JSON text into a [`Json`] document
//! and printing a document back as text.

use crate::json::{Json, JsonNumber, JsonValue};
use serde_json::Value;
use vstd::prelude::*;

verus! {

#[verifier::external_type_specification]
#[verifier::external_body]
pub struct ExSyntaxError(serde_json::Error);

#[verifier::external_type_specification]
#[verifier::external_body]
pub struct ExValue(serde_json::Value);

#[verifier::external_type_specification]
#[verifier::external_body]
pub struct ExNumber(serde_json::Number);

/// The document that `serde_json::from_str` reads from a text as a
/// `serde_json::Value`, copied member by member, or `None` where it rejects
/// the text.
pub uninterp spec fn json_parse(text: Seq<char>) -> Option<JsonValue>;

/// The message with which `serde_json::from_str` rejects a text, as
/// `to_string` of its error prints it. It says nothing of a text that is
/// not rejected.
pub uninterp spec fn json_fault(text: Seq<char>) -> Seq<char>;

/// Whether a text reads as a finite number: whether `str::parse` reads it as
/// a floating-point number and `serde_json::Number::from_f64` takes that
/// number.
pub uninterp spec fn finite_number(text: Seq<char>) -> bool;

/// The compact text that `to_string` of `serde_json::Value` prints for a
/// document, copied member by member into such a value.
pub uninterp spec fn json_text(value: JsonValue) -> Seq<char>;

/// Copies a `serde_json::Number` into a [`JsonNumber`]: what `as_u64` gives,
/// else what `as_i64` gives, else the decimal text that `to_string` prints.
/// Nothing is claimed of the result.
#[verifier::external_body]
fn number_from_outside(number: &serde_json::Number) -> JsonNumber {
    match (number.as_u64(), number.as_i64()) {
        (Some(n), _) => JsonNumber::PosInt(n),
        (None, Some(n)) => JsonNumber::NegInt(n),
        (None, None) => JsonNumber::Float(number.to_string()),
    }
}

/// Copies a `serde_json::Value` into a [`Json`] document, member by member,
/// an object's members in the order in which its map walks them. Nothing is
/// claimed of the result.
#[verifier::external_body]
fn from_outside(value: &Value) -> Json {
    match value {
        Value::Null => Json::Null,
        Value::Bool(b) => Json::Bool(*b),
        Value::Number(n) => Json::Number(number_from_outside(n)),
        Value::String(s) => Json::String(s.clone()),
        Value::Array(items) => Json::Array(items.iter().map(from_outside).collect()),
        Value::Object(members) => Json::Object(
            members.iter().map(|(key, member)| (key.clone(), from_outside(member))).collect(),
        ),
    }
}

/// Reads a text with `str::parse` as a floating-point number and asks
/// `serde_json::Number::from_f64` whether it takes it. The contract claims
/// only that the answer is a function of the text, named by
/// [`finite_number`].
#[verifier::external_body]
pub(crate) fn reads_as_finite_number(text: &str) -> (finite: bool)
    ensures
        finite == finite_number(text@),
{
    text.parse().ok().and_then(serde_json::Number::from_f64).is_some()
}

/// Copies a [`JsonNumber`] into a `serde_json::Value` with `Value::from`; a
/// decimal text is read as a floating-point number first. A text that is no
/// finite number has no copy and gives `null`; [`Json::to_text`] hands over
/// no such text. Nothing is claimed of the result.
#[verifier::external_body]
fn number_to_outside(number: &JsonNumber) -> Value {
    match number {
        JsonNumber::PosInt(n) => Value::from(*n),
        JsonNumber::NegInt(n) => Value::from(*n),
        JsonNumber::Float(text) => text.parse().ok().and_then(serde_json::Number::from_f64).map_or(
            Value::Null,
            Value::Number,
        ),
    }
}

/// Copies a [`Json`] document into a `serde_json::Value`, member by member;
/// an object's members are collected into its map in their order. Nothing is
/// claimed of the result.
#[verifier::external_body]
fn to_outside(json: &Json) -> Value {
    match json {
        Json::Null => Value::Null,
        Json::Bool(b) => Value::Bool(*b),
        Json::Number(n) => number_to_outside(n),
        Json::String(s) => Value::String(s.clone()),
        Json::Array(items) => Value::Array(items.iter().map(to_outside).collect()),
        Json::Object(members) => Value::Object(
            members.iter().map(|(key, member)| (key.clone(), to_outside(member))).collect(),
        ),
    }
}

/// Calls `serde_json::from_str` for a `serde_json::Value` and copies what it
/// read into a [`Json`] document; of an error it hands out the error itself
/// and what its `to_string` prints. The contract claims only that the
/// outcome is a function of the text: the document named by [`json_parse`],
/// or, where that is `None`, an error with the message named by
/// [`json_fault`].
#[verifier::external_body]
pub(crate) fn read_text(text: &str) -> (outcome: Result<Json, (serde_json::Error, String)>)
    ensures
        outcome matches Ok(json) ==> json_parse(text@) == Some(json@),
        outcome matches Err(fault) ==> json_parse(text@) is None && fault.1@ == json_fault(text@),
{
    match serde_json::from_str::<Value>(text) {
        Ok(value) => Ok(from_outside(&value)),
        Err(error) => {
            let message = error.to_string();
            Err((error, message))
        },
    }
}

/// Copies the document into a `serde_json::Value` and calls its `to_string`,
/// which prints compact JSON. The contract claims only that the text is a
/// function of the document, named by [`json_text`].
#[verifier::external_body]
pub(crate) fn print_text(json: &Json) -> (text: String)
    ensures
        text@ == json_text(json@),
{
    to_outside(json).to_string()
}

} // verus!
