//! JSON documents that serde_json reads.

use vstd::prelude::*;

use crate::json::{
    distinct_keys, key_at, lemma_members, members, Json, JsonNumber, JsonObject, JsonValue,
};

verus! {

/// `serde_json::Value`, whose inside is told by `json_of`.
#[verifier::external_type_specification]
#[verifier::external_body]
pub struct ExValue(serde_json::Value);

/// `serde_json::Number`, whose inside is told by `unsigned_of`, `signed_of` and
/// `double_bits_of`.
#[verifier::external_type_specification]
#[verifier::external_body]
pub struct ExNumber(serde_json::Number);

/// `serde_json::Error`.
#[verifier::external_type_specification]
#[verifier::external_body]
pub struct ExError(serde_json::Error);

/// The document that a `serde_json::Value` holds.
pub uninterp spec fn json_of(value: serde_json::Value) -> Json;

/// What `serde_json::Number::as_u64` gives.
pub uninterp spec fn unsigned_of(number: serde_json::Number) -> Option<u64>;

/// What `serde_json::Number::as_i64` gives.
pub uninterp spec fn signed_of(number: serde_json::Number) -> Option<i64>;

/// The bit pattern of what `serde_json::Number::as_f64` gives.
pub uninterp spec fn double_bits_of(number: serde_json::Number) -> u64;

/// The document that `serde_json::from_str` reads from a text, if it reads one.
pub uninterp spec fn parsed_json(text: Seq<char>) -> Option<Json>;

/// The number that a `serde_json::Number` is.
pub open spec fn number_of(number: serde_json::Number) -> JsonNumber {
    JsonNumber {
        unsigned: unsigned_of(number),
        signed: signed_of(number),
        double_bits: double_bits_of(number),
    }
}

/// The variant of a `serde_json::Value`, with what the variant holds.
pub enum ValueParts {
    Null,
    Bool(bool),
    Number(serde_json::Number),
    Text(String),
    Array(Vec<serde_json::Value>),
    Object(Vec<(String, serde_json::Value)>),
}

/// What the members that `entries` lists are.
pub open spec fn value_pairs(entries: Seq<(String, serde_json::Value)>) -> Seq<
    (Seq<char>, Json),
> {
    Seq::new(entries.len(), |i: int| (entries[i].0@, json_of(entries[i].1)))
}

/// Whether `parts` is the outermost level of `json`.
pub open spec fn is_outermost(parts: ValueParts, json: Json) -> bool {
    match parts {
        ValueParts::Null => json == Json::Null,
        ValueParts::Bool(b) => json == Json::Bool(b),
        ValueParts::Number(number) => json == Json::Number(number_of(number)),
        ValueParts::Text(text) => json == Json::Text(text@),
        ValueParts::Array(items) => json == Json::Array(
            Seq::new(items@.len(), |i: int| json_of(items@[i])),
        ),
        ValueParts::Object(entries) => distinct_keys(value_pairs(entries@)) && json
            == Json::Object(members(value_pairs(entries@))),
    }
}

/// Takes a `serde_json::Value` apart by its variants. An object is handed out
/// by the iterator of `serde_json::Map`, which gives each key once with its
/// value.
#[verifier::external_body]
fn value_parts(value: serde_json::Value) -> (parts: ValueParts)
    ensures
        is_outermost(parts, json_of(value)),
{
    match value {
        serde_json::Value::Null => ValueParts::Null,
        serde_json::Value::Bool(truth) => ValueParts::Bool(truth),
        serde_json::Value::Number(number) => ValueParts::Number(number),
        serde_json::Value::String(text) => ValueParts::Text(text),
        serde_json::Value::Array(items) => ValueParts::Array(items),
        serde_json::Value::Object(map) => ValueParts::Object(map.into_iter().collect()),
    }
}

/// `serde_json::Number::as_u64`: the number as an unsigned integer, where it is
/// one that fits.
pub assume_specification[ serde_json::Number::as_u64 ](number: &serde_json::Number) -> (unsigned:
    Option<u64>)
    ensures
        unsigned == unsigned_of(*number),
;

/// `serde_json::Number::as_i64`: the number as a signed integer, where it is
/// one that fits.
pub assume_specification[ serde_json::Number::as_i64 ](number: &serde_json::Number) -> (signed:
    Option<i64>)
    ensures
        signed == signed_of(*number),
;

/// `serde_json::Number::as_f64`: every number is represented as a double, here
/// by its bit pattern.
#[verifier::external_body]
fn number_as_double(number: &serde_json::Number) -> (bits: Option<u64>)
    ensures
        bits == Some(double_bits_of(*number)),
{
    match number.as_f64() {
        Some(double) => Some(double.to_bits()),
        None => None,
    }
}

/// `serde_json::from_str` to a `serde_json::Value`: whether it reads a document
/// and which one follows from the text alone.
#[verifier::external_body]
fn read_value(text: &str) -> (read: Result<serde_json::Value, serde_json::Error>)
    ensures
        match read {
            Ok(value) => parsed_json(text@) == Some(json_of(value)),
            Err(_) => parsed_json(text@) is None,
        },
{
    serde_json::from_str(text)
}

/// The number that `number` is.
fn convert_number(number: &serde_json::Number) -> (result: JsonNumber)
    ensures
        result == number_of(*number),
{
    let double_bits: u64 = match number_as_double(number) {
        Some(bits) => bits,
        None => 0,
    };
    JsonNumber { unsigned: number.as_u64(), signed: number.as_i64(), double_bits }
}

impl JsonValue {
    /// The document that `value` holds.
    pub fn from_value(value: serde_json::Value) -> (result: JsonValue)
        ensures
            result@ == json_of(value),
        decreases json_of(value),
    {
        let ghost json = json_of(value);
        match value_parts(value) {
            ValueParts::Null => JsonValue::Null,
            ValueParts::Bool(truth) => JsonValue::Bool(truth),
            ValueParts::Number(number) => JsonValue::Number(convert_number(&number)),
            ValueParts::Text(text) => JsonValue::Text(text),
            ValueParts::Array(items) => {
                let ghost given = items@;
                let mut converted: Vec<JsonValue> = Vec::new();
                for item in iter: items
                    invariant
                        json == json_of(value),
                        json == Json::Array(Seq::new(given.len(), |i: int| json_of(given[i]))),
                        iter.seq() == given,
                        converted@.len() == iter.index(),
                        forall|i: int|
                            0 <= i < converted@.len() ==> (#[trigger] converted@[i])@ == json_of(
                                given[i],
                            ),
                {
                    assert(json->Array_0[iter.index()] == json_of(item));
                    converted.push(JsonValue::from_value(item));
                }
                let result = JsonValue::Array(converted);
                assert(result@->Array_0 =~= json->Array_0);
                result
            },
            ValueParts::Object(entries) => {
                let ghost given = value_pairs(entries@);
                proof {
                    lemma_members(given);
                }
                let mut object: JsonObject = JsonObject::new();
                for entry in iter: entries
                    invariant
                        json == json_of(value),
                        json == Json::Object(members(given)),
                        distinct_keys(given),
                        given == value_pairs(iter.seq()),
                        forall|key: Seq<char>| #[trigger]
                            object@.contains_key(key) ==> members(given).contains_key(key)
                                && object@[key] == members(given)[key],
                        forall|i: int|
                            0 <= i < iter.index() ==> object@.contains_key((#[trigger] given[i]).0),
                {
                    let (key, member) = entry;
                    proof {
                        lemma_members(given);
                        assert(given[iter.index()] == (key@, json_of(member)));
                        assert(decreases_to!(json->Object_0 => json->Object_0[key@]));
                    }
                    object.insert(key, JsonValue::from_value(member));
                }
                assert forall|key: Seq<char>| #[trigger]
                    members(given).contains_key(key) implies object@.contains_key(key) by {
                    let i = choose|i: int| key_at(given, key, i);
                    assert(given[i].0 == key);
                }
                assert(object@ =~= members(given));
                JsonValue::Object(object)
            },
        }
    }
}

/// The document that `text` is, if it is one.
pub fn parse_json(text: &str) -> (result: Option<JsonValue>)
    ensures
        match result {
            Some(value) => parsed_json(text@) == Some(value@),
            None => parsed_json(text@) is None,
        },
{
    match read_value(text) {
        Ok(value) => Some(JsonValue::from_value(value)),
        Err(_) => None,
    }
}

} // verus!
