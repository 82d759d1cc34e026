//! JSON documents, read through `serde_json`.
use vstd::prelude::*;

verus! {

/// A JSON document as `serde_json` holds it.
#[verifier::external_type_specification]
#[verifier::external_body]
pub struct ExValue(serde_json::Value);

/// What a JSON document holds.
pub enum Json {
    /// The null value.
    Null,
    /// A truth value.
    Flag(bool),
    /// A number that is held as an integer from 0 to 2^64 - 1.
    Unsigned(u64),
    /// A number that is held as an integer from -2^63 to -1.
    Negative(i64),
    /// A number that is held in floating point; which one is left unsaid.
    Fraction,
    /// A string.
    Text(Seq<char>),
    /// A list, item by item.
    List(Seq<Json>),
    /// An object, by its keys.
    Object(Map<Seq<char>, Json>),
}

/// What a document holds, by the variant of `serde_json::Value` that it is and
/// by what that carries.
pub uninterp spec fn json_of(value: serde_json::Value) -> Json;

/// What `serde_json::from_str` makes of a text: a document, or what is wrong.
pub uninterp spec fn json_from_text(text: Seq<char>) -> Result<Json, Seq<char>>;

/// What `serde_json::from_slice` makes of bytes: a document, or what is wrong.
pub uninterp spec fn json_from_bytes(bytes: Seq<u8>) -> Result<Json, Seq<char>>;

/// The member of an object.
pub open spec fn member(json: Json, key: Seq<char>) -> Option<Json> {
    match json {
        Json::Object(members) => if members.contains_key(key) {
            Some(members[key])
        } else {
            None
        },
        _ => None,
    }
}

/// The text of a string.
pub open spec fn as_text(json: Json) -> Option<Seq<char>> {
    match json {
        Json::Text(text) => Some(text),
        _ => None,
    }
}

/// The value of an unsigned integer.
pub open spec fn as_unsigned(json: Json) -> Option<u64> {
    match json {
        Json::Unsigned(n) => Some(n),
        _ => None,
    }
}

/// The text of a member that is a string.
pub open spec fn text_member(json: Json, key: Seq<char>) -> Option<Seq<char>> {
    match member(json, key) {
        Some(found) => as_text(found),
        None => None,
    }
}

/// A parsed document, or the words of what is wrong.
pub open spec fn parsed(r: Result<serde_json::Value, String>) -> Result<Json, Seq<char>> {
    match r {
        Ok(value) => Ok(json_of(value)),
        Err(message) => Err(message@),
    }
}

/// `serde_json::from_str`, read into a `Value`, depends on the text alone, as
/// do the words of its error.
#[verifier::external_body]
pub(crate) fn parse_text(text: &str) -> (r: Result<serde_json::Value, String>)
    ensures
        parsed(r) == json_from_text(text@),
{
    serde_json::from_str::<serde_json::Value>(text).map_err(|error| error.to_string())
}

/// `serde_json::from_slice`, read into a `Value`, depends on the bytes alone,
/// as do the words of its error.
#[verifier::external_body]
pub(crate) fn parse_bytes(bytes: &[u8]) -> (r: Result<serde_json::Value, String>)
    ensures
        parsed(r) == json_from_bytes(bytes@),
{
    serde_json::from_slice::<serde_json::Value>(bytes).map_err(|error| error.to_string())
}

/// `serde_json::Value::get` with a key gives the member of an object with that
/// key, and nothing where there is none or the value is no object.
#[verifier::external_body]
pub(crate) fn get_member<'a>(value: &'a serde_json::Value, key: &str) -> (r: Option<
    &'a serde_json::Value,
>)
    ensures
        match r {
            Some(found) => member(json_of(*value), key@) == Some(json_of(*found)),
            None => member(json_of(*value), key@) is None,
        },
{
    value.get(key)
}

/// `serde_json::Value::as_str` gives the text of a string, and nothing for any
/// other value.
#[verifier::external_body]
pub(crate) fn get_text(value: &serde_json::Value) -> (r: Option<&str>)
    ensures
        match r {
            Some(text) => as_text(json_of(*value)) == Some(text@),
            None => as_text(json_of(*value)) is None,
        },
{
    value.as_str()
}

/// `serde_json::Value::as_u64` gives a number that is held as an integer from
/// 0 to 2^64 - 1, and nothing for any other value.
#[verifier::external_body]
pub(crate) fn get_unsigned(value: &serde_json::Value) -> (r: Option<u64>)
    ensures
        r == as_unsigned(json_of(*value)),
{
    value.as_u64()
}

/// `serde_json::Value::clone` gives a document that holds the same.
#[verifier::external_body]
pub(crate) fn copy_value(value: &serde_json::Value) -> (r: serde_json::Value)
    ensures
        json_of(r) == json_of(*value),
{
    value.clone()
}

/// The text of a member that is a string, if there is one.
pub fn get_text_member(value: &serde_json::Value, key: &str) -> (r: Option<String>)
    ensures
        match r {
            Some(text) => text_member(json_of(*value), key@) == Some(text@),
            None => text_member(json_of(*value), key@) is None,
        },
{
    match get_member(value, key) {
        Some(found) => match get_text(found) {
            Some(text) => Some(text.to_owned()),
            None => None,
        },
        None => None,
    }
}

} // verus!
