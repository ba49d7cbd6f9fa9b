//! Reading JSON documents with `serde_json`.
//!
//! A JSON value is a tree ([`Json`]). The functions marked `external_body`
//! are the only places where `serde_json` is called. Their contracts are
//! believed, not proved: each says how the call's result shows in the tree
//! of the value it was called on. What tree a given text is read as is left
//! open. Everything else in this file is verified against the tree.

use crate::decimal::{decimal_micros, Decimal};
use crate::text::bytes_of;
use serde_json::Value;
use vstd::prelude::*;
use vstd::string::*;

verus! {

/// `serde_json::Value`, of which nothing is seen but through the functions
/// below.
#[verifier::external_type_specification]
#[verifier::external_body]
pub struct ExValue(serde_json::Value);

/// A JSON value.
pub enum Json {
    Null,
    Bool(bool),
    /// A number, written in decimal digits without an exponent.
    Number(Seq<char>),
    Text(Seq<char>),
    Array(Seq<Json>),
    Object(Map<Seq<char>, Json>),
}

/// The tree that a `serde_json::Value` holds. Its numbers are written as
/// `Value::as_f64` gives them.
pub uninterp spec fn json_view(value: Value) -> Json;

/// The tree that `serde_json::from_str::<Value>` reads from `text`, or
/// `None` where it reports an error.
pub uninterp spec fn json_document(text: Seq<char>) -> Option<Json>;

/// The trees of a sequence of values.
pub open spec fn json_views(values: Seq<Value>) -> Seq<Json> {
    values.map_values(|v: Value| json_view(v))
}

/// The member under `key`: `None` where the value is no object or has no
/// such member.
pub open spec fn json_member(value: Json, key: Seq<char>) -> Option<Json> {
    match value {
        Json::Object(members) => if members.contains_key(key) {
            Some(members[key])
        } else {
            None
        },
        _ => None,
    }
}

/// The text of a string: `None` where the value is no string.
pub open spec fn json_string(value: Json) -> Option<Seq<char>> {
    match value {
        Json::Text(text) => Some(text),
        _ => None,
    }
}

/// The digits of a number: `None` where the value is no number.
pub open spec fn json_number(value: Json) -> Option<Seq<char>> {
    match value {
        Json::Number(digits) => Some(digits),
        _ => None,
    }
}

/// The elements of an array: `None` where the value is no array.
pub open spec fn json_elements(value: Json) -> Option<Seq<Json>> {
    match value {
        Json::Array(elements) => Some(elements),
        _ => None,
    }
}

/// Calls `serde_json::from_str::<Value>`. The value that it reads holds
/// `json_document` of the text; the error, where there is one, is dropped.
#[verifier::external_body]
pub(crate) fn parse_document(text: &str) -> (r: Option<Value>)
    ensures
        r matches Some(value) ==> json_document(text@) == Some(json_view(value)),
        r is None ==> json_document(text@) is None,
{
    serde_json::from_str(text).ok()
}

/// Calls `Value::get` with a string key. It finds the member of an object
/// that stands under the key, and nothing in any other value.
#[verifier::external_body]
pub(crate) fn member<'a>(value: &'a Value, key: &str) -> (r: Option<&'a Value>)
    ensures
        r matches Some(m) ==> json_member(json_view(*value), key@) == Some(json_view(*m)),
        r is None ==> json_member(json_view(*value), key@) is None,
{
    value.get(key)
}

/// Calls `Value::as_str` and copies the text. It gives the text of a
/// string, and nothing for any other value.
#[verifier::external_body]
pub(crate) fn string_of(value: &Value) -> (r: Option<String>)
    ensures
        r matches Some(s) ==> json_string(json_view(*value)) == Some(s@),
        r is None ==> json_string(json_view(*value)) is None,
{
    match value.as_str() {
        Some(s) => Some(s.to_string()),
        None => None,
    }
}

/// Calls `Value::as_f64` and writes the number out in decimal digits. It
/// gives the digits of a number, and nothing for any other value.
#[verifier::external_body]
pub(crate) fn number_of(value: &Value) -> (r: Option<String>)
    ensures
        r matches Some(s) ==> json_number(json_view(*value)) == Some(s@),
        r is None ==> json_number(json_view(*value)) is None,
{
    match value.as_f64() {
        Some(x) => Some(x.to_string()),
        None => None,
    }
}

/// Calls `Value::as_array`. It gives the elements of an array, and nothing
/// for any other value.
#[verifier::external_body]
pub(crate) fn elements_of<'a>(value: &'a Value) -> (r: Option<&'a Vec<Value>>)
    ensures
        r matches Some(v) ==> json_elements(json_view(*value)) == Some(json_views(v@)),
        r is None ==> json_elements(json_view(*value)) is None,
{
    value.as_array()
}

/// Calls `Value::is_null`.
#[verifier::external_body]
pub(crate) fn is_null(value: &Value) -> (r: bool)
    ensures
        r == (json_view(*value) is Null),
{
    value.is_null()
}

/// Calls `Value::is_object`.
#[verifier::external_body]
pub(crate) fn is_object(value: &Value) -> (r: bool)
    ensures
        r == (json_view(*value) is Object),
{
    value.is_object()
}

/// The text of the string member `key`; `None` where the member is missing
/// or no string.
pub open spec fn text_member(value: Json, key: Seq<char>) -> Option<Seq<char>> {
    match json_member(value, key) {
        Some(m) => json_string(m),
        None => None,
    }
}

/// The text of the string member `key`, or the empty text where the member
/// is missing; `None` where it is there and no string.
pub open spec fn text_member_or_empty(value: Json, key: Seq<char>) -> Option<Seq<char>> {
    match json_member(value, key) {
        Some(m) => json_string(m),
        None => Some(Seq::<char>::empty()),
    }
}

/// The text of a string member that may be left out or null. The outer
/// `None` says that the member is there and neither null nor a string.
pub open spec fn optional_text_member(value: Json, key: Seq<char>) -> Option<Option<Seq<char>>> {
    match json_member(value, key) {
        None => Some(None),
        Some(m) => if m is Null {
            Some(None)
        } else {
            match json_string(m) {
                Some(s) => Some(Some(s)),
                None => None,
            }
        },
    }
}

/// The amount written by the UTF-8 bytes of `text`, in millionths.
pub open spec fn amount_of_text(text: Seq<char>) -> Option<int> {
    decimal_micros(bytes_of(text))
}

/// The amount held by a string member that writes a decimal number.
pub open spec fn amount_member(value: Json, key: Seq<char>) -> Option<int> {
    match text_member(value, key) {
        Some(s) => amount_of_text(s),
        None => None,
    }
}

/// The amount of a JSON number, in millionths.
pub open spec fn number_amount(value: Json) -> Option<int> {
    match json_number(value) {
        Some(s) => amount_of_text(s),
        None => None,
    }
}

/// Reads the text of the string member `key`.
pub fn read_text(value: &Value, key: &str) -> (r: Option<String>)
    ensures
        r is Some <==> text_member(json_view(*value), key@) is Some,
        r matches Some(s) ==> text_member(json_view(*value), key@) == Some(s@),
{
    match member(value, key) {
        Some(m) => string_of(m),
        None => None,
    }
}

/// Reads the text of the string member `key`, which may be left out.
pub fn read_text_or_empty(value: &Value, key: &str) -> (r: Option<String>)
    ensures
        r is Some <==> text_member_or_empty(json_view(*value), key@) is Some,
        r matches Some(s) ==> text_member_or_empty(json_view(*value), key@) == Some(s@),
{
    match member(value, key) {
        Some(m) => string_of(m),
        None => Some(String::new()),
    }
}

/// Reads the text of the string member `key`, which may be left out or
/// null.
pub fn read_optional_text(value: &Value, key: &str) -> (r: Option<Option<String>>)
    ensures
        r is Some <==> optional_text_member(json_view(*value), key@) is Some,
        r matches Some(o) ==> {
            &&& o is Some <==> optional_text_member(json_view(*value), key@)->0 is Some
            &&& o matches Some(s) ==> optional_text_member(json_view(*value), key@) == Some(Some(s@))
        },
{
    match member(value, key) {
        None => Some(None),
        Some(m) => {
            if is_null(m) {
                Some(None)
            } else {
                match string_of(m) {
                    Some(s) => Some(Some(s)),
                    None => None,
                }
            }
        },
    }
}

/// Reads the amount that the string member `key` writes.
pub fn read_amount(value: &Value, key: &str) -> (r: Option<Decimal>)
    ensures
        r is Some <==> amount_member(json_view(*value), key@) is Some,
        r matches Some(d) ==> amount_member(json_view(*value), key@) == Some(d@) && d == Decimal::of(d@),
{
    match read_text(value, key) {
        Some(s) => Decimal::parse(s.as_str()),
        None => None,
    }
}

/// Reads the amount of a number.
pub fn read_number(value: &Value) -> (r: Option<Decimal>)
    ensures
        r is Some <==> number_amount(json_view(*value)) is Some,
        r matches Some(d) ==> number_amount(json_view(*value)) == Some(d@) && d == Decimal::of(d@),
{
    match number_of(value) {
        Some(s) => Decimal::parse(s.as_str()),
        None => None,
    }
}

} // verus!
