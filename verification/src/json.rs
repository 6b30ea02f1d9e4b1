//! The boundary to `serde_json`: the JSON values this library builds and reads.
//!
//! A `serde_json::Value` is opaque to the verifier. Contracts speak of what it
//! holds through [`value_model`], and every function in this file that calls one
//! of its methods is believed, not proved.

use vstd::prelude::*;

verus! {

/// What a JSON value holds, as far as this library builds or reads it.
///
/// Numbers are told apart only as far as `Value::as_u64` does: a non-negative
/// integer that fits 64 bits is `Unsigned`, every other number is `OtherNumber`.
pub ghost enum Json {
    Null,
    Bool(bool),
    Unsigned(u64),
    OtherNumber,
    Text(Seq<char>),
    Array(Seq<Json>),
    Object(Map<Seq<char>, Json>),
}

/// `serde_json::Value`, a JSON value. Nothing inside it is visible here.
#[verifier::external_type_specification]
#[verifier::external_body]
pub struct ExValue(serde_json::Value);

/// `serde_json::Error`, the error of a failed parse. Nothing inside it is
/// visible here.
#[verifier::external_type_specification]
#[verifier::external_body]
pub struct ExJsonError(serde_json::Error);

/// The contents of a `serde_json::Value`.
pub uninterp spec fn value_model(value: serde_json::Value) -> Json;

/// The document that `serde_json::from_slice` reads from `text`, or `None`
/// where it reports an error.
pub uninterp spec fn parsed_json(text: Seq<u8>) -> Option<Json>;

/// The contents of each value of a sequence, in order.
pub open spec fn value_models(values: Seq<serde_json::Value>) -> Seq<Json> {
    Seq::new(values.len(), |i: int| value_model(values[i]))
}

/// Whether no two entries of a member list share a key.
pub open spec fn distinct_keys(entries: Seq<(String, serde_json::Value)>) -> bool {
    forall|i: int, j: int|
        0 <= i < j < entries.len() ==> (#[trigger] entries[i]).0@ != (#[trigger] entries[j]).0@
}

/// The members of the object made from a member list: each key with the
/// contents of its value.
pub open spec fn object_members(entries: Seq<(String, serde_json::Value)>) -> Map<Seq<char>, Json>
    decreases entries.len(),
{
    if entries.len() == 0 {
        Map::empty()
    } else {
        object_members(entries.drop_last()).insert(
            entries.last().0@,
            value_model(entries.last().1),
        )
    }
}

/// `serde_json::from_slice` for a `Value`: by [`parsed_json`] it returns the
/// document that the text holds, or an error where the text holds none.
#[verifier::external_body]
pub(crate) fn parse_json(text: &[u8]) -> (parsed: Result<serde_json::Value, serde_json::Error>)
    ensures
        match parsed {
            Ok(value) => parsed_json(text@) == Some(value_model(value)),
            Err(_) => parsed_json(text@) is None,
        },
{
    serde_json::from_slice::<serde_json::Value>(text)
}

/// `Value::get` with a string index: the member of that name where the value
/// is an object that has one, `None` for every other value.
#[verifier::external_body]
pub(crate) fn json_member<'a>(value: &'a serde_json::Value, key: &str) -> (member: Option<
    &'a serde_json::Value,
>)
    ensures
        match value_model(*value) {
            Json::Object(members) => if members.contains_key(key@) {
                member matches Some(found) && value_model(*found) == members[key@]
            } else {
                member is None
            },
            _ => member is None,
        },
{
    value.get(key)
}

/// `Value::as_u64`: the number held, where the value is a non-negative integer
/// that fits 64 bits.
pub assume_specification[ serde_json::Value::as_u64 ](value: &serde_json::Value) -> (number:
    Option<u64>)
    ensures
        number == match value_model(*value) {
            Json::Unsigned(n) => Some(n),
            _ => None,
        },
;

/// `Value::as_str`: the text held, where the value is a string.
pub assume_specification<'a>[ serde_json::Value::as_str ](value: &'a serde_json::Value) -> (text:
    Option<&'a str>)
    ensures
        match value_model(*value) {
            Json::Text(held) => text matches Some(s) && s@ == held,
            _ => text is None,
        },
;

/// `Value::is_object`: whether the value is a JSON object.
pub assume_specification[ serde_json::Value::is_object ](value: &serde_json::Value) -> (object:
    bool)
    ensures
        object == (value_model(*value) is Object),
;

/// `Value::clone`: a value with the same contents.
pub assume_specification[ <serde_json::Value as Clone>::clone ](
    value: &serde_json::Value,
) -> (copy: serde_json::Value)
    ensures
        value_model(copy) == value_model(*value),
;

/// `Value::from` for a string slice: the JSON string with that text.
#[verifier::external_body]
pub(crate) fn json_text(text: &str) -> (value: serde_json::Value)
    ensures
        value_model(value) == Json::Text(text@),
{
    serde_json::Value::from(text)
}

/// `Value::from` for a `u64`: the JSON number with that value.
#[verifier::external_body]
pub(crate) fn json_unsigned(number: u64) -> (value: serde_json::Value)
    ensures
        value_model(value) == Json::Unsigned(number),
{
    serde_json::Value::from(number)
}

/// `Value::from` for a vector of values: the JSON array of those values, in
/// order.
#[verifier::external_body]
pub(crate) fn json_array(items: Vec<serde_json::Value>) -> (value: serde_json::Value)
    ensures
        value_model(value) == Json::Array(value_models(items@)),
{
    serde_json::Value::from(items)
}

/// `Value::from_iter` for key-value pairs: the JSON object with those members.
/// Which of two members with one key would stay is left to the map behind it,
/// so the keys are to be distinct.
#[verifier::external_body]
pub(crate) fn json_object(entries: Vec<(String, serde_json::Value)>) -> (value: serde_json::Value)
    requires
        distinct_keys(entries@),
    ensures
        value_model(value) == Json::Object(object_members(entries@)),
{
    serde_json::Value::from_iter(entries)
}

} // verus!
