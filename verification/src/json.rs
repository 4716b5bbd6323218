//! JSON values as `serde_json` parses, reads and prints them.
//!
//! A `serde_json::Value` is carried through this crate as an opaque value.
//! What `serde_json` computes from one is given a name here, and the items
//! below state, without proof, that the corresponding call returns exactly
//! what the name stands for.

use serde_json::Value;
use vstd::prelude::*;

verus! {

/// `serde_json::Value`, of which nothing is known but what the names below
/// say.
#[verifier::external_type_specification]
#[verifier::external_body]
pub struct ExValue(serde_json::Value);

/// The value that `serde_json::from_str` reads from `text`, or `None` where
/// it reports an error.
pub uninterp spec fn json_parse(text: Seq<char>) -> Option<Value>;

/// The member that `Value::get` finds in `value` under the string `key`.
pub uninterp spec fn json_member(value: Value, key: Seq<char>) -> Option<Value>;

/// What `Value::as_u64` returns for `value`.
pub uninterp spec fn json_u64(value: Value) -> Option<u64>;

/// What `Value::as_str` returns for `value`.
pub uninterp spec fn json_str(value: Value) -> Option<Seq<char>>;

/// The compact text that `value` is displayed as.
pub uninterp spec fn json_text(value: Value) -> Seq<char>;

/// The JSON string that `Value::from` makes of `text`.
pub uninterp spec fn json_string(text: Seq<char>) -> Value;

/// The JSON number that `Value::from` makes of `number`.
pub uninterp spec fn json_number(number: u64) -> Value;

/// The items of `value` as `Value::as_array` returns them, or `None` where it
/// returns none.
pub uninterp spec fn json_items(value: Value) -> Option<Seq<Value>>;

/// The entries of `value` in the order in which its map walks them, or `None`
/// where `Value::as_object` returns none.
pub uninterp spec fn json_entries(value: Value) -> Option<Seq<(Seq<char>, Value)>>;

/// The JSON array that holds `items`.
pub uninterp spec fn json_array(items: Seq<Value>) -> Value;

/// The JSON object that a map collected from `entries` makes.
pub uninterp spec fn json_object(entries: Seq<(Seq<char>, Value)>) -> Value;

/// Entries with each key as a sequence of characters.
pub open spec fn entries_view(entries: Seq<(String, Value)>) -> Seq<(Seq<char>, Value)> {
    Seq::new(entries.len(), |i: int| (entries[i].0@, entries[i].1))
}

/// `serde_json::from_str` at the type `Value`: the result is `json_parse` of
/// the text, `None` standing for any error.
#[verifier::external_body]
pub(crate) fn parse_value(text: &str) -> (parsed: Option<Value>)
    ensures
        parsed == json_parse(text@),
{
    serde_json::from_str::<Value>(text).ok()
}

/// `Value::get` with a string key: the result is `json_member` of the value
/// and the key.
#[verifier::external_body]
pub(crate) fn value_member<'a>(value: &'a Value, key: &str) -> (found: Option<&'a Value>)
    ensures
        match found {
            Some(member) => json_member(*value, key@) == Some(*member),
            None => json_member(*value, key@) is None,
        },
{
    value.get(key)
}

/// `Value::as_u64`: the result is `json_u64` of the value.
pub assume_specification[ Value::as_u64 ](value: &Value) -> (number: Option<u64>)
    ensures
        number == json_u64(*value),
;

/// `Value::as_str`: the result is `json_str` of the value.
pub assume_specification<'a>[ Value::as_str ](value: &'a Value) -> (text: Option<&'a str>)
    ensures
        match text {
            Some(s) => json_str(*value) == Some(s@),
            None => json_str(*value) is None,
        },
;

/// `Clone` for `Value`: the copy equals the value that was copied.
pub assume_specification[ <Value as Clone>::clone ](value: &Value) -> (copy: Value)
    ensures
        copy == *value,
;

/// `Display` for `Value`, through `to_string`: the result is `json_text` of
/// the value.
#[verifier::external_body]
pub(crate) fn value_text(value: &Value) -> (text: String)
    ensures
        text@ == json_text(*value),
{
    value.to_string()
}

/// `Value::from` at `String`: the result is `json_string` of the text.
#[verifier::external_body]
pub(crate) fn string_value(text: String) -> (value: Value)
    ensures
        value == json_string(text@),
{
    Value::from(text)
}

/// `Value::from` at `u64`: the result is `json_number` of the number.
#[verifier::external_body]
pub(crate) fn number_value(number: u64) -> (value: Value)
    ensures
        value == json_number(number),
{
    Value::from(number)
}

/// `Value::default`: JSON `null`, which is what the text `null` parses to.
#[verifier::external_body]
pub(crate) fn null_value() -> (value: Value)
    ensures
        json_parse("null"@) == Some(value),
{
    Value::default()
}

/// `Value::as_array`: the vector that is returned holds `json_items` of the
/// value.
pub assume_specification<'a>[ Value::as_array ](value: &'a Value) -> (items: Option<&'a Vec<Value>>)
    ensures
        match items {
            Some(found) => json_items(*value) == Some(found@),
            None => json_items(*value) is None,
        },
;

/// `Value::as_object` and `Map::iter`: a copy of each entry, in the order in
/// which the map walks them.
#[verifier::external_body]
pub(crate) fn value_entries(value: &Value) -> (entries: Option<Vec<(String, Value)>>)
    ensures
        match entries {
            Some(found) => json_entries(*value) == Some(entries_view(found@)),
            None => json_entries(*value) is None,
        },
{
    match value.as_object() {
        Some(map) => Some(map.iter().map(|(key, member)| (key.clone(), member.clone())).collect()),
        None => None,
    }
}

/// `Value::from` at `Vec<Value>`: the result is `json_array` of the items.
#[verifier::external_body]
pub(crate) fn array_value(items: Vec<Value>) -> (value: Value)
    ensures
        value == json_array(items@),
{
    Value::from(items)
}

/// `Map::from_iter` under `Value::Object`: the result is `json_object` of the
/// entries.
#[verifier::external_body]
pub(crate) fn object_value(entries: Vec<(String, Value)>) -> (value: Value)
    ensures
        value == json_object(entries_view(entries@)),
{
    Value::Object(entries.into_iter().collect())
}

} // verus!
