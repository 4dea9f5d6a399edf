//! The JSON values of `serde_json`, as this crate sees them.
//!
//! `serde_json::Value`, `serde_json::Map` and `serde_json::Number` are opaque to the
//! verifier. This module names what each of them holds, as a [`Json`], and states, without
//! proof, what the methods of `serde_json` that the crate calls do to it. Everything else
//! in the crate is proved from these statements.

use vstd::prelude::*;
use serde_json::{Number, Value};
use crate::json::{Json, Members, Num, insert, lookup};
use crate::text::decimal;

verus! {

/// `serde_json::Value`, a JSON value.
#[verifier::external_type_specification]
#[verifier::external_body]
pub struct ExValue(Value);

/// `serde_json::Number`, a JSON number.
#[verifier::external_type_specification]
#[verifier::external_body]
pub struct ExNumber(Number);

/// `serde_json::Map`, the members of a JSON object.
#[verifier::external_type_specification]
#[verifier::external_body]
#[verifier::reject_recursive_types(K)]
#[verifier::reject_recursive_types(V)]
pub struct ExMap<K, V>(serde_json::Map<K, V>);

/// What a `serde_json::Value` holds.
pub uninterp spec fn json_of(value: Value) -> Json;

/// What a `serde_json::Map` holds: its entries in the order in which it yields them.
pub uninterp spec fn members_of(map: serde_json::Map<String, Value>) -> Members;

/// What a `serde_json::Number` holds.
pub uninterp spec fn number_of(number: Number) -> Num;

/// What `serde_json::from_str` reads from a text: the value of the document, or nothing
/// where the text is no JSON document.
pub uninterp spec fn parsed(text: Seq<char>) -> Option<Json>;

/// The text that `serde_json::to_string` writes for a value: the document without white
/// space, the members of each object in their order.
pub uninterp spec fn printed(json: Json) -> Seq<char>;

/// The text that the `Display` of `serde_json::Number` writes for a number that is no
/// integer, given by the bits of its binary64 value.
pub uninterp spec fn real_text(bits: u64) -> Seq<char>;

/// What a vector of values holds.
pub open spec fn items_of(values: Seq<Value>) -> Seq<Json> {
    values.map_values(|v: Value| json_of(v))
}

/// `serde_json::from_str`, for a `Value`: the value of the document that the text holds,
/// or nothing where it returns an error, the text being no JSON document.
#[verifier::external_body]
pub(crate) fn parse(text: &str) -> (r: Option<Value>)
    ensures
        match parsed(text@) {
            Some(json) => r matches Some(value) && json_of(value) == json,
            None => r is None,
        },
{
    serde_json::from_str(text).ok()
}

/// `serde_json::to_string`, for a `Value`: the text of the document. A `Value` is always
/// written: its keys are strings and its numbers are finite.
#[verifier::external_body]
pub(crate) fn print(value: &Value) -> (r: String)
    ensures
        r@ == printed(json_of(*value)),
{
    serde_json::to_string(value).unwrap_or_default()
}

/// `Value::is_null`: whether the value is `Value::Null`.
pub assume_specification[ Value::is_null ](value: &Value) -> (r: bool)
    ensures
        r == (json_of(*value) is Null),
;

/// `Value::as_bool`: the boolean of a `Value::Bool`, `None` for every other variant.
pub assume_specification[ Value::as_bool ](value: &Value) -> (r: Option<bool>)
    ensures
        r == (match json_of(*value) {
            Json::Bool(b) => Some(b),
            _ => None,
        }),
;

/// `Value::as_i64`: the integer of a `Value::Number` that holds an integer which fits
/// `i64`; `None` for a larger integer, for a number that is no integer and for every
/// other variant.
pub assume_specification[ Value::as_i64 ](value: &Value) -> (r: Option<i64>)
    ensures
        r == (match json_of(*value) {
            Json::Number(Num::Int(i)) if i64::MIN <= i <= i64::MAX => Some(i as i64),
            _ => None,
        }),
;

/// `Value::as_number`: the number of a `Value::Number`, `None` for every other variant.
pub assume_specification<'a>[ Value::as_number ](value: &'a Value) -> (r: Option<
    &'a serde_json::Number,
>)
    ensures
        match json_of(*value) {
            Json::Number(n) => r matches Some(number) && number_of(*number) == n,
            _ => r is None,
        },
;

/// `Value::as_str`: the text of a `Value::String`, `None` for every other variant.
pub assume_specification<'a>[ Value::as_str ](value: &'a Value) -> (r: Option<&'a str>)
    ensures
        match json_of(*value) {
            Json::Text(t) => r matches Some(text) && text@ == t,
            _ => r is None,
        },
;

/// `Value::as_array`: the items of a `Value::Array`, `None` for every other variant.
pub assume_specification<'a>[ Value::as_array ](value: &'a Value) -> (r: Option<&'a Vec<Value>>)
    ensures
        match json_of(*value) {
            Json::Array(items) => r matches Some(values) && items_of(values@) == items,
            _ => r is None,
        },
;

/// `Value::as_object`: the map of a `Value::Object`, `None` for every other variant.
pub assume_specification<'a>[ Value::as_object ](value: &'a Value) -> (r: Option<
    &'a serde_json::Map<String, Value>,
>)
    ensures
        match json_of(*value) {
            Json::Object(members) => r matches Some(map) && members_of(*map) == members,
            _ => r is None,
        },
;

/// `Map::new`: a map without entries.
pub assume_specification[ serde_json::Map::<String, Value>::new ]() -> (r: serde_json::Map<
    String,
    Value,
>)
    ensures
        members_of(r) == Seq::<(Seq<char>, Json)>::empty(),
;

/// `Map::get`: the value under `key`, if the map has an entry of that key.
#[verifier::external_body]
pub(crate) fn map_get<'a>(map: &'a serde_json::Map<String, Value>, key: &str) -> (r: Option<
    &'a Value,
>)
    ensures
        match lookup(members_of(*map), key@) {
            Some(j) => r matches Some(value) && json_of(*value) == j,
            None => r is None,
        },
{
    map.get(key)
}

/// `Map::insert`, for a map built with the feature `preserve_order`: an entry of that key
/// keeps its place and takes the new value, a new entry comes last.
#[verifier::external_body]
pub(crate) fn map_insert(map: &mut serde_json::Map<String, Value>, key: String, value: Value)
    ensures
        members_of(*final(map)) == insert(members_of(*old(map)), key@, json_of(value)),
{
    map.insert(key, value);
}

/// `Clone::clone` of a map: a map of the same entries, in the same order.
pub assume_specification[ <serde_json::Map<String, Value> as Clone>::clone ](
    map: &serde_json::Map<String, Value>,
) -> (r: serde_json::Map<String, Value>)
    ensures
        members_of(r) == members_of(*map),
;

/// `Clone::clone` of a number: the same number.
pub assume_specification[ <serde_json::Number as Clone>::clone ](
    number: &serde_json::Number,
) -> (r: serde_json::Number)
    ensures
        number_of(r) == number_of(*number),
;

/// `Number::from_f64`, given zero: the real number 0.0.
#[verifier::external_body]
pub(crate) fn number_zero() -> (r: Number)
    ensures
        number_of(r) == Num::Real(0),
{
    Number::from_f64(Default::default()).unwrap_or(Number::from(0u8))
}

/// `Number::is_f64`: whether the number is held as a float, which is so for every number
/// that is no integer literal.
pub assume_specification[ serde_json::Number::is_f64 ](number: &serde_json::Number) -> (r: bool)
    ensures
        r == (number_of(*number) is Real),
;

/// `Number::as_i64`: the integer of a number that holds an integer which fits `i64`;
/// `None` for a larger integer and for a number that is held as a float.
pub assume_specification[ serde_json::Number::as_i64 ](number: &serde_json::Number) -> (r: Option<
    i64,
>)
    ensures
        r == (match number_of(*number) {
            Num::Int(i) if i64::MIN <= i <= i64::MAX => Some(i as i64),
            _ => None,
        }),
;

/// `Number::as_f64`, as bits: for a number that is held as a float, the bits of that
/// float. Of an integer nothing is said.
#[verifier::external_body]
pub(crate) fn number_bits(number: &Number) -> (r: Option<u64>)
    ensures
        number_of(*number) matches Num::Real(bits) ==> r == Some(bits),
{
    number.as_f64().map(|x| x.to_bits())
}

/// `ToString::to_string` of a number, which is its `Display`: the decimal numeral of an
/// integer, and for another number the text that a document holds for it.
#[verifier::external_body]
pub(crate) fn number_to_string(number: &Number) -> (r: String)
    ensures
        match number_of(*number) {
            Num::Int(i) => r@ == decimal(i),
            Num::Real(bits) => r@ == real_text(bits),
        },
{
    number.to_string()
}

/// `Value::from` of an `i64`: the number that holds this integer.
#[verifier::external_body]
pub(crate) fn value_from_i64(n: i64) -> (r: Value)
    ensures
        json_of(r) == Json::Number(Num::Int(n as int)),
{
    Value::from(n)
}

/// The variant `Value::Number`.
#[verifier::external_body]
pub(crate) fn value_from_number(number: Number) -> (r: Value)
    ensures
        json_of(r) == Json::Number(number_of(number)),
{
    Value::Number(number)
}

/// The variant `Value::String`.
#[verifier::external_body]
pub(crate) fn value_from_string(text: String) -> (r: Value)
    ensures
        json_of(r) == Json::Text(text@),
{
    Value::String(text)
}

/// The variant `Value::Array`.
#[verifier::external_body]
pub(crate) fn value_from_vec(values: Vec<Value>) -> (r: Value)
    ensures
        json_of(r) == Json::Array(items_of(values@)),
{
    Value::Array(values)
}

/// The variant `Value::Object`.
#[verifier::external_body]
pub(crate) fn value_from_map(map: serde_json::Map<String, Value>) -> (r: Value)
    ensures
        json_of(r) == Json::Object(members_of(map)),
{
    Value::Object(map)
}

} // verus!
