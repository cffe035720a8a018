//! JSON values as the daemon protocol uses them.
//!
//! A frame on the wire is one JSON document. The documents themselves are
//! `serde_json::Value`s: this module gives them a mathematical model
//! ([`JsonModel`]), states what the `serde_json` operations used by the session
//! layer do to that model, and builds verified accessors on top of them.

use vstd::prelude::*;

verus! {

/// `serde_json::Value`: a JSON document. The library never looks inside one
/// but through the `serde_json` operations below; what a value holds is
/// `json_of`.
#[verifier::external_type_specification]
#[verifier::external_body]
pub struct ExValue(serde_json::Value);

/// A JSON number: an integer, or a floating-point number that the model only
/// identifies (by its bit pattern) and never computes with.
pub enum JsonNumber {
    Int(int),
    Float(nat),
}

/// The mathematical content of a JSON document.
pub enum JsonModel {
    Null,
    Bool(bool),
    Number(JsonNumber),
    Str(Seq<char>),
    Array(Seq<JsonModel>),
    Object(Map<Seq<char>, JsonModel>),
}

/// What a `serde_json::Value` holds.
pub uninterp spec fn json_of(v: serde_json::Value) -> JsonModel;

/// The document that `serde_json::from_str` reads from `text`, if it accepts
/// the text.
pub uninterp spec fn json_parse(text: Seq<char>) -> Option<JsonModel>;

/// The compact text that `serde_json::to_string` writes for a document, if it
/// writes one.
pub uninterp spec fn json_text(j: JsonModel) -> Option<Seq<char>>;

/// The members of an object; other documents have none.
pub open spec fn members_of(j: JsonModel) -> Map<Seq<char>, JsonModel> {
    match j {
        JsonModel::Object(m) => m,
        _ => Map::empty(),
    }
}

/// The member `key` of an object, if `j` is an object that has it.
pub open spec fn member(j: JsonModel, key: Seq<char>) -> Option<JsonModel> {
    match j {
        JsonModel::Object(m) => if m.dom().contains(key) {
            Some(m[key])
        } else {
            None
        },
        _ => None,
    }
}

/// The member `key`, or `null` where there is none.
pub open spec fn member_or_null(j: JsonModel, key: Seq<char>) -> JsonModel {
    match member(j, key) {
        Some(m) => m,
        None => JsonModel::Null,
    }
}

/// The text of a JSON string.
pub open spec fn text_of(j: JsonModel) -> Option<Seq<char>> {
    match j {
        JsonModel::Str(s) => Some(s),
        _ => None,
    }
}

/// The value of a JSON boolean.
pub open spec fn bool_of(j: JsonModel) -> Option<bool> {
    match j {
        JsonModel::Bool(b) => Some(b),
        _ => None,
    }
}

/// The value of a JSON integer that fits `u64`.
pub open spec fn unsigned_of(j: JsonModel) -> Option<u64> {
    match j {
        JsonModel::Number(JsonNumber::Int(i)) => if 0 <= i <= u64::MAX {
            Some(i as u64)
        } else {
            None
        },
        _ => None,
    }
}

/// The value of a JSON integer that fits `i64`.
pub open spec fn signed_of(j: JsonModel) -> Option<i64> {
    match j {
        JsonModel::Number(JsonNumber::Int(i)) => if i64::MIN <= i <= i64::MAX {
            Some(i as i64)
        } else {
            None
        },
        _ => None,
    }
}

/// The elements of a JSON array.
pub open spec fn items_of(j: JsonModel) -> Option<Seq<JsonModel>> {
    match j {
        JsonModel::Array(a) => Some(a),
        _ => None,
    }
}

/// The models of a sequence of values, element by element.
pub open spec fn models_of(vs: Seq<serde_json::Value>) -> Seq<JsonModel> {
    Seq::new(vs.len(), |i: int| json_of(vs[i]))
}

/// The text of the string member `key`.
pub open spec fn member_text(j: JsonModel, key: Seq<char>) -> Option<Seq<char>> {
    match member(j, key) {
        Some(m) => text_of(m),
        None => None,
    }
}

/// The value of the boolean member `key`.
pub open spec fn member_bool(j: JsonModel, key: Seq<char>) -> Option<bool> {
    match member(j, key) {
        Some(m) => bool_of(m),
        None => None,
    }
}

/// The value of the member `key` where it is an integer that fits `u64`.
pub open spec fn member_unsigned(j: JsonModel, key: Seq<char>) -> Option<u64> {
    match member(j, key) {
        Some(m) => unsigned_of(m),
        None => None,
    }
}

/// The value of the member `key` where it is an integer that fits `i64`.
pub open spec fn member_signed(j: JsonModel, key: Seq<char>) -> Option<i64> {
    match member(j, key) {
        Some(m) => signed_of(m),
        None => None,
    }
}

/// The elements of the array member `key`.
pub open spec fn member_items(j: JsonModel, key: Seq<char>) -> Option<Seq<JsonModel>> {
    match member(j, key) {
        Some(m) => items_of(m),
        None => None,
    }
}

/// `serde_json::from_str` at type `Value`: the parsed document, or nothing
/// where the text is not one JSON document.
#[verifier::external_body]
pub(crate) fn parse_value(text: &str) -> (r: Option<serde_json::Value>)
    ensures
        match r {
            Some(v) => json_parse(text@) == Some(json_of(v)),
            None => json_parse(text@) is None,
        },
{
    serde_json::from_str::<serde_json::Value>(text).ok()
}

/// `serde_json::to_string` on a `Value`: its compact text, or nothing where
/// the serializer reports an error.
#[verifier::external_body]
pub(crate) fn value_text(v: &serde_json::Value) -> (r: Option<String>)
    ensures
        match r {
            Some(s) => json_text(json_of(*v)) == Some(s@),
            None => json_text(json_of(*v)) is None,
        },
{
    serde_json::to_string(v).ok()
}

/// `serde_json::Value::get` with a string key: the member of that name when
/// the value is an object that has it, nothing otherwise.
#[verifier::external_body]
pub(crate) fn value_get<'a>(v: &'a serde_json::Value, key: &str) -> (r: Option<
    &'a serde_json::Value,
>)
    ensures
        match r {
            Some(m) => member(json_of(*v), key@) == Some(json_of(*m)),
            None => member(json_of(*v), key@) is None,
        },
{
    v.get(key)
}

/// `Value::as_str` gives the text exactly when the value is a string.
pub assume_specification<'a>[ serde_json::Value::as_str ](v: &'a serde_json::Value) -> (r: Option<
    &'a str,
>)
    ensures
        match r {
            Some(s) => text_of(json_of(*v)) == Some(s@),
            None => text_of(json_of(*v)) is None,
        },
;

/// `Value::as_bool` gives the boolean exactly when the value is one.
pub assume_specification[ serde_json::Value::as_bool ](v: &serde_json::Value) -> (r: Option<bool>)
    ensures
        r == bool_of(json_of(*v)),
;

/// `Value::as_u64` gives the integer exactly when the value is an integer
/// that is not negative.
pub assume_specification[ serde_json::Value::as_u64 ](v: &serde_json::Value) -> (r: Option<u64>)
    ensures
        r == unsigned_of(json_of(*v)),
;

/// `Value::as_i64` gives the integer exactly when the value is an integer
/// no greater than `i64::MAX`.
pub assume_specification[ serde_json::Value::as_i64 ](v: &serde_json::Value) -> (r: Option<i64>)
    ensures
        r == signed_of(json_of(*v)),
;

/// `Value::as_array` gives the elements exactly when the value is an array.
pub assume_specification<'a>[ serde_json::Value::as_array ](v: &'a serde_json::Value) -> (r:
    Option<&'a Vec<serde_json::Value>>)
    ensures
        match r {
            Some(a) => items_of(json_of(*v)) == Some(models_of(a@)),
            None => items_of(json_of(*v)) is None,
        },
;

/// Cloning a `Value` gives a value that holds the same document.
pub assume_specification[ <serde_json::Value as Clone>::clone ](v: &serde_json::Value) -> (r:
    serde_json::Value)
    ensures
        json_of(r) == json_of(*v),
;

/// `Value::Null`.
#[verifier::external_body]
pub(crate) fn null_value() -> (r: serde_json::Value)
    ensures
        json_of(r) == JsonModel::Null,
{
    serde_json::Value::Null
}

/// `Value::Bool`.
#[verifier::external_body]
pub(crate) fn bool_value(b: bool) -> (r: serde_json::Value)
    ensures
        json_of(r) == JsonModel::Bool(b),
{
    serde_json::Value::Bool(b)
}

/// `Value::from` on a `u64`: the integer `n`.
#[verifier::external_body]
pub(crate) fn unsigned_value(n: u64) -> (r: serde_json::Value)
    ensures
        json_of(r) == JsonModel::Number(JsonNumber::Int(n as int)),
{
    serde_json::Value::from(n)
}

/// `Value::String` on a copy of `s`.
#[verifier::external_body]
pub(crate) fn text_value(s: &str) -> (r: serde_json::Value)
    ensures
        json_of(r) == JsonModel::Str(s@),
{
    serde_json::Value::String(s.to_owned())
}

/// `Value::Array` on the given elements, in their order.
#[verifier::external_body]
pub(crate) fn array_value(items: Vec<serde_json::Value>) -> (r: serde_json::Value)
    ensures
        json_of(r) == JsonModel::Array(models_of(items@)),
{
    serde_json::Value::Array(items)
}

/// `Value::Object` on `Map::new()`: the object without members.
#[verifier::external_body]
pub(crate) fn empty_object() -> (r: serde_json::Value)
    ensures
        json_of(r) == JsonModel::Object(Map::empty()),
{
    serde_json::Value::Object(serde_json::Map::new())
}

/// `Map::insert` on the members of an object: `key` now maps to `val`,
/// whether or not the object had such a member; the others stay.
#[verifier::external_body]
pub(crate) fn insert_member(obj: &mut serde_json::Value, key: &str, val: serde_json::Value)
    requires
        json_of(*old(obj)) is Object,
    ensures
        json_of(*final(obj)) == JsonModel::Object(
            members_of(json_of(*old(obj))).insert(key@, json_of(val)),
        ),
{
    if let serde_json::Value::Object(members) = obj {
        members.insert(key.to_owned(), val);
    }
}

/// Reads the string member `key` of `v`.
pub fn get_str<'a>(v: &'a serde_json::Value, key: &str) -> (r: Option<&'a str>)
    ensures
        match r {
            Some(s) => member_text(json_of(*v), key@) == Some(s@),
            None => member_text(json_of(*v), key@) is None,
        },
{
    match value_get(v, key) {
        Some(m) => m.as_str(),
        None => None,
    }
}

/// Reads the boolean member `key` of `v`.
pub fn get_bool(v: &serde_json::Value, key: &str) -> (r: Option<bool>)
    ensures
        r == member_bool(json_of(*v), key@),
{
    match value_get(v, key) {
        Some(m) => m.as_bool(),
        None => None,
    }
}

/// Reads the member `key` of `v` as a `u64`.
pub fn get_u64(v: &serde_json::Value, key: &str) -> (r: Option<u64>)
    ensures
        r == member_unsigned(json_of(*v), key@),
{
    match value_get(v, key) {
        Some(m) => m.as_u64(),
        None => None,
    }
}

/// Reads the member `key` of `v` as an `i64`.
pub fn get_i64(v: &serde_json::Value, key: &str) -> (r: Option<i64>)
    ensures
        r == member_signed(json_of(*v), key@),
{
    match value_get(v, key) {
        Some(m) => m.as_i64(),
        None => None,
    }
}

/// Reads the array member `key` of `v`.
pub fn get_array<'a>(v: &'a serde_json::Value, key: &str) -> (r: Option<&'a Vec<serde_json::Value>>)
    ensures
        match r {
            Some(a) => member_items(json_of(*v), key@) == Some(models_of(a@)),
            None => member_items(json_of(*v), key@) is None,
        },
{
    match value_get(v, key) {
        Some(m) => m.as_array(),
        None => None,
    }
}

/// A copy of the member `key` of `v`, or `null` where `v` has none.
pub fn get_or_null(v: &serde_json::Value, key: &str) -> (r: serde_json::Value)
    ensures
        json_of(r) == member_or_null(json_of(*v), key@),
{
    match value_get(v, key) {
        Some(m) => m.clone(),
        None => null_value(),
    }
}

} // verus!
