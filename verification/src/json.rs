use vstd::prelude::*;
use serde_json::Value;
use crate::text::text_equals;

verus! {

/// A JSON value as `serde_json` reads it: numbers are kept as the text
/// `serde_json` writes for them, and an object's members come in the order
/// of its (sorted, duplicate-free) map.
pub enum Json {
    Null,
    Bool(bool),
    Number(String),
    Str(String),
    Array(Vec<Json>),
    Object(Vec<(String, Json)>),
}

/// A `serde_json` value.
#[verifier::external_type_specification]
#[verifier::external_body]
pub struct ExValue(Value);

/// What `serde_json::from_slice::<Value>` makes of some bytes, as a [`Json`]:
/// `None` where they are not one JSON text.
pub uninterp spec fn spec_parse_json(bytes: Seq<u8>) -> Option<Json>;

/// What `serde_json::from_str::<Value>` makes of some text, as a [`Json`]:
/// `None` where it is not one JSON text.
pub uninterp spec fn spec_parse_json_text(text: Seq<char>) -> Option<Json>;

/// What `serde_json::to_string` writes for a [`Json`] turned into a
/// `serde_json` value (a number whose text is no JSON number becomes
/// `null`): `None` where it reports an error.
pub uninterp spec fn spec_json_text_of(j: Json) -> Option<Seq<char>>;

/// The value of the first member of `entries` named `key`.
pub open spec fn spec_find(entries: Seq<(String, Json)>, key: Seq<char>) -> Option<Json>
    decreases entries.len(),
{
    if entries.len() == 0 {
        None
    } else if entries[0].0@ == key {
        Some(entries[0].1)
    } else {
        spec_find(entries.drop_first(), key)
    }
}

/// `Value::get(key)`: the member named `key` of an object; `None` for a
/// missing member or a value that is no object.
pub open spec fn spec_member(j: Json, key: Seq<char>) -> Option<Json> {
    match j {
        Json::Object(entries) => spec_find(entries@, key),
        _ => None,
    }
}

/// `value[key]`: the member named `key`, or `null` where there is none.
pub open spec fn spec_at(j: Json, key: Seq<char>) -> Json {
    match spec_member(j, key) {
        Some(v) => v,
        None => Json::Null,
    }
}

/// `Value::as_str`: the text of a string value.
pub open spec fn spec_as_str(j: Json) -> Option<Seq<char>> {
    match j {
        Json::Str(s) => Some(s@),
        _ => None,
    }
}

/// The text of the string member named `key`, `None` where there is no
/// such string member.
pub open spec fn spec_member_str(j: Json, key: Seq<char>) -> Option<Seq<char>> {
    spec_as_str(spec_at(j, key))
}

/// Turns a `serde_json` value into a [`Json`], variant for variant.
#[verifier::external_body]
fn json_from_value(v: &Value) -> (r: Json) {
    match v {
        Value::Null => Json::Null,
        Value::Bool(b) => Json::Bool(*b),
        Value::Number(n) => Json::Number(n.to_string()),
        Value::String(s) => Json::Str(s.clone()),
        Value::Array(a) => Json::Array(a.iter().map(json_from_value).collect()),
        Value::Object(m) => Json::Object(m.iter().map(|(k, x)| (k.clone(), json_from_value(x))).collect()),
    }
}

/// Turns a [`Json`] into a `serde_json` value, variant for variant (a
/// number text that is no JSON number becomes `null`).
#[verifier::external_body]
fn value_from_json(j: &Json) -> (r: Value) {
    match j {
        Json::Null => Value::Null,
        Json::Bool(b) => Value::Bool(*b),
        Json::Number(n) => n.parse::<serde_json::Number>().map(Value::Number).unwrap_or(Value::Null),
        Json::Str(s) => Value::String(s.clone()),
        Json::Array(a) => Value::Array(a.iter().map(value_from_json).collect()),
        Json::Object(m) => Value::Object(m.iter().map(|(k, x)| (k.clone(), value_from_json(x))).collect()),
    }
}

/// `serde_json::to_string` on the value of a [`Json`] (the error value is
/// dropped). Its result is named, not spelled out.
#[verifier::external_body]
pub(crate) fn json_to_text(j: &Json) -> (r: Option<String>)
    ensures
        r is Some <==> spec_json_text_of(*j) is Some,
        r matches Some(s) ==> spec_json_text_of(*j) == Some(s@),
{
    serde_json::to_string(&value_from_json(j)).ok()
}

/// `serde_json::from_slice::<Value>`: reads one JSON text from the bytes
/// (the error value is dropped). Its result is named, not spelled out.
#[verifier::external_body]
pub(crate) fn parse_json(bytes: &[u8]) -> (r: Option<Json>)
    ensures
        r == spec_parse_json(bytes@),
{
    serde_json::from_slice::<Value>(bytes).ok().map(|v| json_from_value(&v))
}

/// `serde_json::from_str::<Value>`: reads one JSON text (the error value is
/// dropped). Its result is named, not spelled out.
#[verifier::external_body]
pub(crate) fn parse_json_text(text: &str) -> (r: Option<Json>)
    ensures
        r == spec_parse_json_text(text@),
{
    serde_json::from_str::<Value>(text).ok().map(|v| json_from_value(&v))
}

/// The value of the member named `key`, if `j` is an object that has one.
pub fn member<'a>(j: &'a Json, key: &str) -> (r: Option<&'a Json>)
    ensures
        r is None <==> spec_member(*j, key@) is None,
        r matches Some(v) ==> spec_member(*j, key@) == Some(*v),
{
    match j {
        Json::Object(entries) => {
            let mut i: usize = 0;
            assert(entries@.skip(0) =~= entries@);
            while i < entries.len()
                invariant
                    i <= entries.len(),
                    spec_member(*j, key@) == spec_find(entries@, key@),
                    spec_find(entries@, key@) == spec_find(entries@.skip(i as int), key@),
                decreases entries.len() - i,
            {
                assert(entries@.skip(i as int).drop_first() =~= entries@.skip(i as int + 1));
                if text_equals(entries[i].0.as_str(), key) {
                    assert(entries@.skip(i as int)[0] == entries@[i as int]);
                    return Some(&entries[i].1);
                }
                i = i + 1;
            }
            None
        },
        _ => None,
    }
}

/// The text of the string member named `key`, if there is one.
pub fn member_str<'a>(j: &'a Json, key: &str) -> (r: Option<&'a String>)
    ensures
        r matches Some(s) ==> spec_member_str(*j, key@) == Some(s@),
        r is None <==> spec_member_str(*j, key@) is None,
{
    match member(j, key) {
        Some(Json::Str(s)) => Some(s),
        _ => None,
    }
}

} // verus!
