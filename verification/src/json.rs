//! JSON values, which stay those of `serde_json`. Verus sees nothing inside
//! them: what a value holds is named here as a mathematical tree, and each way of
//! reading a value that the library uses is stated once, unproved, in terms of
//! that tree.

use vstd::prelude::*;
use serde_json::Error as JsonError;
use serde_json::Map as JsonObject;
use serde_json::Value as JsonValue;

verus! {

/// `serde_json::Value`, of which Verus sees nothing.
#[verifier::external_type_specification]
#[verifier::external_body]
pub struct ExJsonValue(JsonValue);

/// `serde_json::Error`, of which Verus sees nothing.
#[verifier::external_type_specification]
#[verifier::external_body]
pub struct ExJsonError(JsonError);

/// `serde_json::Map`, of which Verus sees nothing.
#[verifier::external_type_specification]
#[verifier::external_body]
#[verifier::reject_recursive_types(K)]
#[verifier::reject_recursive_types(V)]
pub struct ExJsonObject<K, V>(JsonObject<K, V>);

/// A JSON object with text for its keys.
pub type JsonMap = JsonObject<String, JsonValue>;

/// A JSON document as a mathematical value.
pub enum Json {
    /// `null`.
    Null,
    /// `true` or `false`.
    Bool(bool),
    /// A whole number.
    Integer(int),
    /// A number that is written with a fraction or an exponent.
    Fraction,
    /// A string.
    Text(Seq<char>),
    /// An array, with its items in order.
    Array(Seq<Json>),
    /// An object, with the value of each of its keys.
    Object(Map<Seq<char>, Json>),
}

impl Json {
    /// The value that an object holds under `key`, if this is an object and has
    /// that key.
    pub open spec fn member(self, key: Seq<char>) -> Option<Json> {
        match self {
            Json::Object(members) => if members.contains_key(key) {
                Some(members[key])
            } else {
                None
            },
            _ => None,
        }
    }
}

/// What a JSON value holds.
pub uninterp spec fn json_of(value: JsonValue) -> Json;

/// What a JSON object holds: the value under each of its keys.
pub uninterp spec fn json_members(object: JsonMap) -> Map<Seq<char>, Json>;

/// The JSON document that a text holds in UTF-8, where it holds one and nothing
/// else.
pub uninterp spec fn parsed_json(bytes: Seq<u8>) -> Option<Json>;

/// The message of a JSON error.
pub uninterp spec fn json_error_text(error: JsonError) -> Seq<char>;

/// `serde_json::from_slice` for a `Value`: the document that the bytes hold, or
/// the parser's error where they hold none.
#[verifier::external_body]
pub(crate) fn value_from_slice(bytes: &[u8]) -> (r: Result<JsonValue, JsonError>)
    ensures
        match r {
            Ok(value) => parsed_json(bytes@) == Some(json_of(value)),
            Err(_) => parsed_json(bytes@) is None,
        },
{
    serde_json::from_slice::<JsonValue>(bytes)
}

/// `Value::as_object`: the object, where the value is one.
#[verifier::external_body]
pub(crate) fn value_as_object<'a>(value: &'a JsonValue) -> (r: Option<&'a JsonMap>)
    ensures
        match r {
            Some(object) => json_of(*value) == Json::Object(json_members(*object)),
            None => !(json_of(*value) is Object),
        },
{
    value.as_object()
}

/// `Value::as_str`: the text, where the value is a string.
#[verifier::external_body]
pub(crate) fn value_as_str<'a>(value: &'a JsonValue) -> (r: Option<&'a str>)
    ensures
        match r {
            Some(text) => json_of(*value) == Json::Text(text@),
            None => !(json_of(*value) is Text),
        },
{
    value.as_str()
}

/// What each of a row of JSON values holds.
pub open spec fn jsons_of(values: Seq<JsonValue>) -> Seq<Json> {
    values.map_values(|value: JsonValue| json_of(value))
}

/// `Value::as_array`: the items, where the value is an array.
#[verifier::external_body]
pub(crate) fn value_as_array<'a>(value: &'a JsonValue) -> (r: Option<&'a Vec<JsonValue>>)
    ensures
        match r {
            Some(items) => json_of(*value) == Json::Array(jsons_of(items@)),
            None => !(json_of(*value) is Array),
        },
{
    value.as_array()
}

/// `Value::as_bool`: the truth value, where the value is `true` or `false`.
#[verifier::external_body]
pub(crate) fn value_as_bool(value: &JsonValue) -> (r: Option<bool>)
    ensures
        match r {
            Some(b) => json_of(*value) == Json::Bool(b),
            None => !(json_of(*value) is Bool),
        },
{
    value.as_bool()
}

/// `Value::as_u64`: the number, where the value is a whole number that is not
/// negative. Such a number always fits 64 bits.
#[verifier::external_body]
pub(crate) fn value_as_u64(value: &JsonValue) -> (r: Option<u64>)
    ensures
        match r {
            Some(n) => json_of(*value) == Json::Integer(n as int),
            None => !(json_of(*value) matches Json::Integer(i) && 0 <= i),
        },
{
    value.as_u64()
}

/// `Value::as_i64`: the number, where the value is a whole number that fits 64
/// bits with a sign.
#[verifier::external_body]
pub(crate) fn value_as_i64(value: &JsonValue) -> (r: Option<i64>)
    ensures
        match r {
            Some(n) => json_of(*value) == Json::Integer(n as int),
            None => !(json_of(*value) matches Json::Integer(i) && i64::MIN <= i <= i64::MAX),
        },
{
    value.as_i64()
}

/// `Value::is_null`: whether the value is `null`.
#[verifier::external_body]
pub(crate) fn value_is_null(value: &JsonValue) -> (r: bool)
    ensures
        r == (json_of(*value) is Null),
{
    value.is_null()
}

/// `Map::get` with a key given as text: the value under the key, where the
/// object has the key.
#[verifier::external_body]
pub(crate) fn object_get<'a>(object: &'a JsonMap, key: &str) -> (r: Option<&'a JsonValue>)
    ensures
        match r {
            Some(value) => json_members(*object).contains_key(key@) && json_members(*object)[key@]
                == json_of(*value),
            None => !json_members(*object).contains_key(key@),
        },
{
    object.get(key)
}

/// `Map::clone`: an object that holds what the first one holds.
#[verifier::external_body]
pub(crate) fn object_clone(object: &JsonMap) -> (r: JsonMap)
    ensures
        json_members(r) == json_members(*object),
{
    object.clone()
}

/// `serde::de::Error::custom` for a `serde_json::Error`: an error of the parser's
/// type made of a message, for a document that is JSON but of the wrong shape.
#[verifier::external_body]
pub(crate) fn custom_json_error(message: &str) -> JsonError {
    <JsonError as serde::de::Error>::custom(message)
}

/// The `Display` text of a `serde_json::Error`.
#[verifier::external_body]
pub(crate) fn json_error_message(error: &JsonError) -> (r: String)
    ensures
        r@ == json_error_text(*error),
{
    error.to_string()
}

} // verus!
