//! Reading JSON documents through `serde_json`.
//!
//! The parser and the value tree are `serde_json`'s. This module declares the
//! value type, names what each call gives, and wraps the four calls that the
//! documents of this crate are read with.

use serde_json::Value;
use vstd::prelude::*;

verus! {

/// A parsed JSON value, opaque to the verifier.
#[verifier::external_type_specification]
#[verifier::external_body]
pub struct ExValue(Value);

/// The error of `serde_json`'s parser, carried through unread.
#[verifier::external_type_specification]
#[verifier::external_body]
pub struct ExJsonError(serde_json::Error);

/// The value that `serde_json::from_str` reads out of a text, or `None` where
/// it rejects the text.
pub uninterp spec fn json_document(text: Seq<char>) -> Option<Value>;

/// What `Value::get` finds under a string key: the member of that name if
/// the value is an object that has one.
pub uninterp spec fn json_member(value: Value, key: Seq<char>) -> Option<Value>;

/// What `Value::as_str` gives: the text if the value is a string.
pub uninterp spec fn json_string(value: Value) -> Option<Seq<char>>;

/// What `Value::as_array` gives: the items if the value is an array.
pub uninterp spec fn json_items(value: Value) -> Option<Seq<Value>>;

/// Calls `serde_json::from_str` for a `Value`. The contract only names the
/// outcome.
#[verifier::external_body]
pub(crate) fn parse_json(text: &str) -> (r: Result<Value, serde_json::Error>)
    ensures
        r is Ok <==> json_document(text@) is Some,
        r is Ok ==> r->Ok_0 == json_document(text@)->Some_0,
{
    serde_json::from_str(text)
}

/// Calls `Value::get` with a string key. The contract only names the
/// outcome.
#[verifier::external_body]
pub(crate) fn member<'a>(value: &'a Value, key: &str) -> (r: Option<&'a Value>)
    ensures
        r is Some <==> json_member(*value, key@) is Some,
        r is Some ==> *r->Some_0 == json_member(*value, key@)->Some_0,
{
    value.get(key)
}

/// Calls `Value::as_str`. The contract only names the outcome.
#[verifier::external_body]
pub(crate) fn as_text<'a>(value: &'a Value) -> (r: Option<&'a str>)
    ensures
        r is Some <==> json_string(*value) is Some,
        r is Some ==> r->Some_0@ == json_string(*value)->Some_0,
{
    value.as_str()
}

/// Calls `Value::as_array`. The contract only names the outcome.
#[verifier::external_body]
pub(crate) fn as_items<'a>(value: &'a Value) -> (r: Option<&'a Vec<Value>>)
    ensures
        r is Some <==> json_items(*value) is Some,
        r is Some ==> r->Some_0@ == json_items(*value)->Some_0,
{
    value.as_array()
}

/// The text found in an object under `key`, if the value is an object with a
/// member of that name which is a string.
pub open spec fn text_member(value: Value, key: Seq<char>) -> Option<Seq<char>> {
    match json_member(value, key) {
        Some(found) => json_string(found),
        None => None,
    }
}

/// Reads the string member `key` of `value`.
pub fn read_text_member(value: &Value, key: &str) -> (r: Option<String>)
    ensures
        r is Some <==> text_member(*value, key@) is Some,
        r is Some ==> r->Some_0@ == text_member(*value, key@)->Some_0,
{
    match member(value, key) {
        Some(found) => match as_text(found) {
            Some(text) => Some(text.to_owned()),
            None => None,
        },
        None => None,
    }
}

} // verus!
