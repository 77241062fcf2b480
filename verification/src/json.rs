//! JSON values as the rest of the library sees them. Parsing and the access
//! to a parsed value are `serde_json`'s; this module states what each call
//! returns over a mathematical model of the value.

use vstd::prelude::*;

verus! {

/// `serde_json::Value`, carried through as it is. What a value holds is known
/// through `json_of` alone.
#[verifier::external_type_specification]
#[verifier::external_body]
pub struct ExValue(serde_json::Value);

/// `serde_json::Error`, carried through as it is.
#[verifier::external_type_specification]
#[verifier::external_body]
pub struct ExError(serde_json::Error);

/// What a JSON value holds.
pub enum Json {
    Null,
    Bool(bool),
    /// A number. It carries its value where that is an integer from 0 to
    /// `u64::MAX`; of any other number nothing is recorded.
    Number(Option<u64>),
    Text(Seq<char>),
    Array(Seq<Json>),
    Object(Map<Seq<char>, Json>),
}

/// What the value `v` holds: the model of a `serde_json::Value`, of which
/// the calls below say what they read and what they change.
pub uninterp spec fn json_of(v: serde_json::Value) -> Json;

/// What `text` holds when `serde_json` reads it as one JSON document, `None`
/// when it is not one.
pub uninterp spec fn parsed(text: Seq<char>) -> Option<Json>;

/// What each value of `items` holds, in order.
pub open spec fn json_items(items: Seq<serde_json::Value>) -> Seq<Json> {
    items.map_values(|v: serde_json::Value| json_of(v))
}

/// The member of the object `j` under `key`.
pub open spec fn member(j: Json, key: Seq<char>) -> Option<Json> {
    match j {
        Json::Object(m) => if m.contains_key(key) {
            Some(m[key])
        } else {
            None
        },
        _ => None,
    }
}

/// The text that the object `j` holds under `key`.
pub open spec fn text_at(j: Json, key: Seq<char>) -> Option<Seq<char>> {
    match member(j, key) {
        Some(Json::Text(s)) => Some(s),
        _ => None,
    }
}

/// The integer that the object `j` holds under `key`.
pub open spec fn number_at(j: Json, key: Seq<char>) -> Option<u64> {
    match member(j, key) {
        Some(Json::Number(n)) => n,
        _ => None,
    }
}

/// The boolean that the object `j` holds under `key`.
pub open spec fn flag_at(j: Json, key: Seq<char>) -> Option<bool> {
    match member(j, key) {
        Some(Json::Bool(b)) => Some(b),
        _ => None,
    }
}

/// The object `j` with `text` under `key`; any other value unchanged.
pub open spec fn with_text(j: Json, key: Seq<char>, text: Seq<char>) -> Json {
    match j {
        Json::Object(m) => Json::Object(m.insert(key, Json::Text(text))),
        other => other,
    }
}

/// `serde_json::from_str::<Value>`: reads `text` as one JSON document. The
/// result is a function of the text alone: an error exactly when `parsed`
/// is none, and else a value that holds what `parsed` says.
#[verifier::external_body]
pub(crate) fn parse(text: &str) -> (r: Result<serde_json::Value, serde_json::Error>)
    ensures
        match r {
            Ok(v) => parsed(text@) == Some(json_of(v)),
            Err(_) => parsed(text@) is None,
        },
{
    serde_json::from_str::<serde_json::Value>(text)
}

/// The `Display` of `serde_json::Error`: the error in words. Nothing is
/// claimed of the wording.
#[verifier::external_body]
pub(crate) fn error_text(e: &serde_json::Error) -> (r: String) {
    e.to_string()
}

/// `Value::get` with a string index: the member under `key` when `v` is an
/// object that has one, `None` in every other case.
#[verifier::external_body]
pub(crate) fn field<'a>(v: &'a serde_json::Value, key: &str) -> (r: Option<&'a serde_json::Value>)
    ensures
        match r {
            Some(f) => member(json_of(*v), key@) == Some(json_of(*f)),
            None => member(json_of(*v), key@) is None,
        },
{
    v.get(key)
}

/// `Value::as_str`: the text of a string value, `None` for any other value.
#[verifier::external_body]
pub(crate) fn as_text<'a>(v: &'a serde_json::Value) -> (r: Option<&'a str>)
    ensures
        match r {
            Some(s) => json_of(*v) == Json::Text(s@),
            None => !(json_of(*v) is Text),
        },
{
    v.as_str()
}

/// `Value::as_u64`: the value of a number that is an integer from 0 to
/// `u64::MAX`, `None` for any other value.
#[verifier::external_body]
pub(crate) fn as_number(v: &serde_json::Value) -> (r: Option<u64>)
    ensures
        r == (match json_of(*v) {
            Json::Number(n) => n,
            _ => None,
        }),
{
    v.as_u64()
}

/// `Value::as_bool`: the value of a boolean, `None` for any other value.
#[verifier::external_body]
pub(crate) fn as_flag(v: &serde_json::Value) -> (r: Option<bool>)
    ensures
        match r {
            Some(b) => json_of(*v) == Json::Bool(b),
            None => !(json_of(*v) is Bool),
        },
{
    v.as_bool()
}

/// `Value::as_array`: the items of an array, `None` for any other value.
#[verifier::external_body]
pub(crate) fn as_items<'a>(v: &'a serde_json::Value) -> (r: Option<&'a Vec<serde_json::Value>>)
    ensures
        match r {
            Some(items) => json_of(*v) == Json::Array(json_items(items@)),
            None => !(json_of(*v) is Array),
        },
{
    v.as_array()
}

/// `serde_json::Map::new`, as a value: an object without members.
#[verifier::external_body]
pub(crate) fn empty_object() -> (r: serde_json::Value)
    ensures
        json_of(r) == Json::Object(Map::<Seq<char>, Json>::empty()),
{
    serde_json::Value::Object(serde_json::Map::new())
}

/// `serde_json::Map::insert` on the members of an object: `text` is put
/// under `key`, in place of what was there. A value that is no object is
/// handed back as it came.
#[verifier::external_body]
pub(crate) fn insert_text(v: serde_json::Value, key: &str, text: &str) -> (r: serde_json::Value)
    ensures
        json_of(r) == with_text(json_of(v), key@, text@),
{
    match v {
        serde_json::Value::Object(mut m) => {
            m.insert(key.to_string(), serde_json::Value::String(text.to_string()));
            serde_json::Value::Object(m)
        },
        other => other,
    }
}

/// The text that the object `v` holds under `key`.
pub fn text_field(v: &serde_json::Value, key: &str) -> (r: Option<String>)
    ensures
        r.is_some() == text_at(json_of(*v), key@).is_some(),
        r matches Some(s) ==> text_at(json_of(*v), key@) == Some(s@),
{
    match field(v, key) {
        Some(f) => match as_text(f) {
            Some(s) => Some(s.to_owned()),
            None => None,
        },
        None => None,
    }
}

/// The integer that the object `v` holds under `key`.
pub fn number_field(v: &serde_json::Value, key: &str) -> (r: Option<u64>)
    ensures
        r == number_at(json_of(*v), key@),
{
    match field(v, key) {
        Some(f) => as_number(f),
        None => None,
    }
}

/// The boolean that the object `v` holds under `key`.
pub fn flag_field(v: &serde_json::Value, key: &str) -> (r: Option<bool>)
    ensures
        r == flag_at(json_of(*v), key@),
{
    match field(v, key) {
        Some(f) => as_flag(f),
        None => None,
    }
}

} // verus!
