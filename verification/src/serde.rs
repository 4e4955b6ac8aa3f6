//! Reading the fields of a JSON object, each with the value it takes where the
//! object lacks it.

use vstd::prelude::*;
use serde_json::Value as JsonValue;
use crate::json::{
    Json, JsonMap, json_members, json_of, jsons_of, object_clone, object_get, value_as_array,
    value_as_bool, value_as_i64, value_as_object, value_as_str, value_as_u64, value_is_null,
};
use crate::text::{parse_number, parse_u64};

verus! {

/// The value under `key`, where the object has one.
pub open spec fn field(members: Map<Seq<char>, Json>, key: Seq<char>) -> Option<Json> {
    if members.contains_key(key) {
        Some(members[key])
    } else {
        None
    }
}

/// How a text field reads: a missing field is the empty text, a string is its
/// text, and anything else is refused (`None`).
pub open spec fn text_or_empty(field: Option<Json>) -> Option<Seq<char>> {
    match field {
        None => Some(Seq::empty()),
        Some(Json::Text(text)) => Some(text),
        Some(_) => None,
    }
}

/// How an optional text field reads: a missing field and `null` are no text, a
/// string is its text, and anything else is refused (`None`).
pub open spec fn optional_text(field: Option<Json>) -> Option<Option<Seq<char>>> {
    match field {
        None => Some(None),
        Some(Json::Null) => Some(None),
        Some(Json::Text(text)) => Some(Some(text)),
        Some(_) => None,
    }
}

/// How an optional object field reads: a missing field and `null` are no object,
/// an object is itself, and anything else is refused (`None`).
pub open spec fn optional_object(field: Option<Json>) -> Option<Option<Map<Seq<char>, Json>>> {
    match field {
        None => Some(None),
        Some(Json::Null) => Some(None),
        Some(Json::Object(members)) => Some(Some(members)),
        Some(_) => None,
    }
}

/// The text of an optional string.
pub open spec fn text_of(text: Option<String>) -> Option<Seq<char>> {
    match text {
        Some(t) => Some(t@),
        None => None,
    }
}

/// What an optional JSON object holds.
pub open spec fn members_of(object: Option<JsonMap>) -> Option<Map<Seq<char>, Json>> {
    match object {
        Some(o) => Some(json_members(o)),
        None => None,
    }
}

/// Reads a text field of `object` as `text_or_empty` describes it.
pub fn read_text_or_empty(object: &JsonMap, key: &str) -> (r: Option<String>)
    ensures
        text_of(r) == text_or_empty(field(json_members(*object), key@)),
{
    match object_get(object, key) {
        None => Some(String::new()),
        Some(value) => match value_as_str(value) {
            Some(text) => Some(String::from_str(text)),
            None => None,
        },
    }
}

/// Reads an optional text field of `object` as `optional_text` describes it.
pub fn read_optional_text(object: &JsonMap, key: &str) -> (r: Option<Option<String>>)
    ensures
        match r {
            Some(text) => optional_text(field(json_members(*object), key@)) == Some(text_of(text)),
            None => optional_text(field(json_members(*object), key@)) is None,
        },
{
    match object_get(object, key) {
        None => Some(None),
        Some(value) => {
            if value_is_null(value) {
                Some(None)
            } else {
                match value_as_str(value) {
                    Some(text) => Some(Some(String::from_str(text))),
                    None => None,
                }
            }
        },
    }
}

/// Reads an optional object field of `object` as `optional_object` describes it.
pub fn read_optional_object(object: &JsonMap, key: &str) -> (r: Option<Option<JsonMap>>)
    ensures
        match r {
            Some(inner) => optional_object(field(json_members(*object), key@)) == Some(
                members_of(inner),
            ),
            None => optional_object(field(json_members(*object), key@)) is None,
        },
{
    match object_get(object, key) {
        None => Some(None),
        Some(value) => {
            if value_is_null(value) {
                Some(None)
            } else {
                match value_as_object(value) {
                    Some(inner) => Some(Some(object_clone(inner))),
                    None => None,
                }
            }
        },
    }
}

/// A type whose values can be read out of JSON.
pub trait FromJson: Sized {
    /// Whether a JSON value can be read as a value of this type.
    spec fn json_ok(json: Json) -> bool;

    /// Whether this is the value that the JSON value reads as.
    spec fn json_matches(&self, json: Json) -> bool;

    /// Reads a JSON value, or gives `None` where it cannot be read as a value
    /// of this type.
    fn from_json(value: &JsonValue) -> (r: Option<Self>)
        ensures
            r is Some <==> Self::json_ok(json_of(*value)),
            r matches Some(v) ==> v.json_matches(json_of(*value)),
    ;
}

/// Text reads from a JSON string.
impl FromJson for String {
    open spec fn json_ok(json: Json) -> bool {
        json is Text
    }

    open spec fn json_matches(&self, json: Json) -> bool {
        json == Json::Text(self@)
    }

    fn from_json(value: &JsonValue) -> (r: Option<String>) {
        match value_as_str(value) {
            Some(text) => Some(String::from_str(text)),
            None => None,
        }
    }
}

/// A truth value reads from `true` and `false`.
impl FromJson for bool {
    open spec fn json_ok(json: Json) -> bool {
        json is Bool
    }

    open spec fn json_matches(&self, json: Json) -> bool {
        json == Json::Bool(*self)
    }

    fn from_json(value: &JsonValue) -> (r: Option<bool>) {
        value_as_bool(value)
    }
}

/// A `u64` reads from a whole number that is not negative.
impl FromJson for u64 {
    open spec fn json_ok(json: Json) -> bool {
        json matches Json::Integer(i) && 0 <= i
    }

    open spec fn json_matches(&self, json: Json) -> bool {
        json == Json::Integer(*self as int)
    }

    fn from_json(value: &JsonValue) -> (r: Option<u64>) {
        value_as_u64(value)
    }
}

/// A `usize` reads from a whole number in its range.
impl FromJson for usize {
    open spec fn json_ok(json: Json) -> bool {
        json matches Json::Integer(i) && 0 <= i <= usize::MAX
    }

    open spec fn json_matches(&self, json: Json) -> bool {
        json == Json::Integer(*self as int)
    }

    fn from_json(value: &JsonValue) -> (r: Option<usize>) {
        match value_as_u64(value) {
            Some(n) => if n <= usize::MAX as u64 {
                Some(n as usize)
            } else {
                None
            },
            None => None,
        }
    }
}

/// A `u16` reads from a whole number in its range.
impl FromJson for u16 {
    open spec fn json_ok(json: Json) -> bool {
        json matches Json::Integer(i) && 0 <= i <= u16::MAX
    }

    open spec fn json_matches(&self, json: Json) -> bool {
        json == Json::Integer(*self as int)
    }

    fn from_json(value: &JsonValue) -> (r: Option<u16>) {
        match value_as_u64(value) {
            Some(n) => if n <= u16::MAX as u64 {
                Some(n as u16)
            } else {
                None
            },
            None => None,
        }
    }
}

/// A `u8` reads from a whole number in its range.
impl FromJson for u8 {
    open spec fn json_ok(json: Json) -> bool {
        json matches Json::Integer(i) && 0 <= i <= u8::MAX
    }

    open spec fn json_matches(&self, json: Json) -> bool {
        json == Json::Integer(*self as int)
    }

    fn from_json(value: &JsonValue) -> (r: Option<u8>) {
        match value_as_u64(value) {
            Some(n) => if n <= u8::MAX as u64 {
                Some(n as u8)
            } else {
                None
            },
            None => None,
        }
    }
}

/// An `isize` reads from a whole number in its range.
impl FromJson for isize {
    open spec fn json_ok(json: Json) -> bool {
        json matches Json::Integer(i) && isize::MIN <= i <= isize::MAX
    }

    open spec fn json_matches(&self, json: Json) -> bool {
        json == Json::Integer(*self as int)
    }

    fn from_json(value: &JsonValue) -> (r: Option<isize>) {
        match value_as_i64(value) {
            Some(n) => if isize::MIN as i64 <= n && n <= isize::MAX as i64 {
                Some(n as isize)
            } else {
                None
            },
            None => None,
        }
    }
}

/// An optional value reads from `null` as nothing, and from anything else as
/// the value does.
impl<T: FromJson> FromJson for Option<T> {
    open spec fn json_ok(json: Json) -> bool {
        json is Null || T::json_ok(json)
    }

    open spec fn json_matches(&self, json: Json) -> bool {
        match self {
            None => json is Null,
            Some(v) => !(json is Null) && v.json_matches(json),
        }
    }

    fn from_json(value: &JsonValue) -> (r: Option<Option<T>>) {
        if value_is_null(value) {
            Some(None)
        } else {
            match T::from_json(value) {
                Some(v) => Some(Some(v)),
                None => None,
            }
        }
    }
}

/// A list reads from an array, item by item.
impl<T: FromJson> FromJson for Vec<T> {
    open spec fn json_ok(json: Json) -> bool {
        json matches Json::Array(items) && forall|i: int|
            0 <= i < items.len() ==> T::json_ok(#[trigger] items[i])
    }

    open spec fn json_matches(&self, json: Json) -> bool {
        json matches Json::Array(items) && self@.len() == items.len() && forall|i: int|
            0 <= i < items.len() ==> (#[trigger] self@[i]).json_matches(items[i])
    }

    fn from_json(value: &JsonValue) -> (r: Option<Vec<T>>) {
        let items = value_as_array(value)?;
        let mut list: Vec<T> = Vec::new();
        let mut i: usize = 0;
        while i < items.len()
            invariant
                i <= items.len(),
                list@.len() == i,
                json_of(*value) == Json::Array(jsons_of(items@)),
                forall|j: int| 0 <= j < i ==> T::json_ok(#[trigger] jsons_of(items@)[j]),
                forall|j: int|
                    0 <= j < i ==> (#[trigger] list@[j]).json_matches(jsons_of(items@)[j]),
            decreases items.len() - i,
        {
            assert(jsons_of(items@)[i as int] == json_of(items@[i as int]));
            match T::from_json(&items[i]) {
                Some(item) => {
                    list.push(item);
                },
                None => {
                    proof {
                        let rows = json_of(*value)->Array_0;
                        assert(rows == jsons_of(items@));
                        assert(!T::json_ok(rows[i as int]));
                    }
                    return None;
                },
            }
            i = i + 1;
        }
        Some(list)
    }
}

/// Reads the field `key` of `object`: `Some(None)` where the object lacks it,
/// the value where it is there and can be read as a `T`, and `None` where it is
/// there and cannot.
pub fn read_field<T: FromJson>(object: &JsonMap, key: &str) -> (r: Option<Option<T>>)
    ensures
        match field(json_members(*object), key@) {
            None => r matches Some(None),
            Some(json) => if T::json_ok(json) {
                r matches Some(Some(v)) && v.json_matches(json)
            } else {
                r is None
            },
        },
{
    match object_get(object, key) {
        None => Some(None),
        Some(value) => match T::from_json(value) {
            Some(v) => Some(Some(v)),
            None => None,
        },
    }
}

/// Whether the field `key` can be read as a `T` where the object holds it. An
/// object may lack any field.
pub open spec fn field_ok<T: FromJson>(members: Map<Seq<char>, Json>, key: Seq<char>) -> bool {
    members.contains_key(key) ==> T::json_ok(members[key])
}

/// Whether `value` is what the field `key` reads as: the value of the field
/// where the object holds it, and `default` where it does not.
pub open spec fn plain_field<T: FromJson>(
    value: T,
    members: Map<Seq<char>, Json>,
    key: Seq<char>,
    default: T,
) -> bool {
    if members.contains_key(key) {
        value.json_matches(members[key])
    } else {
        value == default
    }
}

/// Whether `value` is what the text field `key` reads as: the text of the field
/// where the object holds it, and the empty text where it does not.
pub open spec fn text_field(value: String, members: Map<Seq<char>, Json>, key: Seq<char>) -> bool {
    if members.contains_key(key) {
        value.json_matches(members[key])
    } else {
        value@.len() == 0
    }
}

/// Whether `value` is what the list field `key` reads as: the items of the field
/// where the object holds it, and no items where it does not.
pub open spec fn list_field<T: FromJson>(
    value: Vec<T>,
    members: Map<Seq<char>, Json>,
    key: Seq<char>,
) -> bool {
    if members.contains_key(key) {
        value.json_matches(members[key])
    } else {
        value@.len() == 0
    }
}

/// Whether `value` is what the optional field `key` reads as: the value of the
/// field where the object holds it, `null` being no value, and no value where it
/// does not.
pub open spec fn optional_field<T: FromJson>(
    value: Option<T>,
    members: Map<Seq<char>, Json>,
    key: Seq<char>,
) -> bool {
    if members.contains_key(key) {
        value.json_matches(members[key])
    } else {
        value is None
    }
}

/// A field that an object lacks never fails the reading, and reads as the
/// default of its kind: the given default for a plain field and for a number,
/// the empty text, no items, no value.
pub proof fn absent_field_takes_default<T: FromJson>(
    members: Map<Seq<char>, Json>,
    key: Seq<char>,
    value: T,
    default: T,
    text: String,
    list: Vec<T>,
    optional: Option<T>,
    number: nat,
    default_number: nat,
    max: nat,
)
    requires
        !members.contains_key(key),
    ensures
        field_ok::<T>(members, key),
        number_field_ok(members, key, max),
        plain_field(value, members, key, default) <==> value == default,
        text_field(text, members, key) <==> text@ == Seq::<char>::empty(),
        list_field(list, members, key) <==> list@ == Seq::<T>::empty(),
        optional_field(optional, members, key) <==> optional is None,
        number_field(number, members, key, default_number, max) <==> number == default_number,
{
    assert(text@.len() == 0 <==> text@ =~= Seq::<char>::empty());
    assert(list@.len() == 0 <==> list@ =~= Seq::<T>::empty());
}

/// Reads the field `key` as `plain_field` describes it, or gives `None` where the
/// field is there and cannot be read as a `T`.
pub fn read_or<T: FromJson>(object: &JsonMap, key: &str, default: T) -> (r: Option<T>)
    ensures
        r is Some <==> field_ok::<T>(json_members(*object), key@),
        r matches Some(v) ==> plain_field(v, json_members(*object), key@, default),
{
    match read_field::<T>(object, key) {
        Some(Some(v)) => Some(v),
        Some(None) => Some(default),
        None => None,
    }
}

/// Reads the text field `key` as `text_field` describes it, or gives `None` where
/// the field is there and is no string.
pub fn read_text(object: &JsonMap, key: &str) -> (r: Option<String>)
    ensures
        r is Some <==> field_ok::<String>(json_members(*object), key@),
        r matches Some(v) ==> text_field(v, json_members(*object), key@),
{
    match read_field::<String>(object, key) {
        Some(Some(v)) => Some(v),
        Some(None) => Some(String::new()),
        None => None,
    }
}

/// Reads the list field `key` as `list_field` describes it, or gives `None` where
/// the field is there and is no array of values that read as `T`.
pub fn read_list<T: FromJson>(object: &JsonMap, key: &str) -> (r: Option<Vec<T>>)
    ensures
        r is Some <==> field_ok::<Vec<T>>(json_members(*object), key@),
        r matches Some(v) ==> list_field(v, json_members(*object), key@),
{
    match read_field::<Vec<T>>(object, key) {
        Some(Some(v)) => Some(v),
        Some(None) => Some(Vec::new()),
        None => None,
    }
}

/// Reads the optional field `key` as `optional_field` describes it, or gives
/// `None` where the field is there and is neither `null` nor a value that reads
/// as `T`.
pub fn read_optional<T: FromJson>(object: &JsonMap, key: &str) -> (r: Option<Option<T>>)
    ensures
        r is Some <==> field_ok::<Option<T>>(json_members(*object), key@),
        r matches Some(v) ==> optional_field(v, json_members(*object), key@),
{
    match read_field::<Option<T>>(object, key) {
        Some(Some(v)) => Some(v),
        Some(None) => Some(None),
        None => None,
    }
}

/// The number that a JSON value gives, be it a number or a string that writes
/// one: a whole number from 0 to `max`, or a string as `parse_number` reads it.
pub open spec fn number_or_text(json: Json, max: nat) -> Option<nat> {
    match json {
        Json::Integer(i) => if 0 <= i <= max {
            Some(i as nat)
        } else {
            None
        },
        Json::Text(text) => parse_number(text, max),
        _ => None,
    }
}

/// Whether `value` is what the field `key` reads as, where it may hold a number
/// or a string that writes one: the number where the object holds the field, and
/// `default` where it does not.
pub open spec fn number_field(
    value: nat,
    members: Map<Seq<char>, Json>,
    key: Seq<char>,
    default: nat,
    max: nat,
) -> bool {
    if members.contains_key(key) {
        number_or_text(members[key], max) == Some(value)
    } else {
        value == default
    }
}

/// Whether the field `key` gives a number up to `max` where the object holds it.
pub open spec fn number_field_ok(members: Map<Seq<char>, Json>, key: Seq<char>, max: nat) -> bool {
    members.contains_key(key) ==> number_or_text(members[key], max) is Some
}

/// Reads a number out of a JSON number or out of a string that writes one, as
/// `number_or_text` describes it.
pub fn deserialize_number_from_string(value: &JsonValue) -> (r: Option<u64>)
    ensures
        match r {
            Some(n) => number_or_text(json_of(*value), u64::MAX as nat) == Some(n as nat),
            None => number_or_text(json_of(*value), u64::MAX as nat) is None,
        },
{
    match value_as_str(value) {
        Some(text) => parse_u64(text),
        None => value_as_u64(value),
    }
}

/// Reads the field `key` as `number_field` describes it, for a `u64`.
pub fn read_number_u64(object: &JsonMap, key: &str, default: u64) -> (r: Option<u64>)
    ensures
        r is Some <==> number_field_ok(json_members(*object), key@, u64::MAX as nat),
        r matches Some(v) ==> number_field(
            v as nat,
            json_members(*object),
            key@,
            default as nat,
            u64::MAX as nat,
        ),
{
    match object_get(object, key) {
        None => Some(default),
        Some(value) => deserialize_number_from_string(value),
    }
}

/// Reads the field `key` as `number_field` describes it, for a `usize`.
pub fn read_number_usize(object: &JsonMap, key: &str, default: usize) -> (r: Option<usize>)
    ensures
        r is Some <==> number_field_ok(json_members(*object), key@, usize::MAX as nat),
        r matches Some(v) ==> number_field(
            v as nat,
            json_members(*object),
            key@,
            default as nat,
            usize::MAX as nat,
        ),
{
    match object_get(object, key) {
        None => Some(default),
        Some(value) => match deserialize_number_from_string(value) {
            Some(n) => if n <= usize::MAX as u64 {
                Some(n as usize)
            } else {
                None
            },
            None => None,
        },
    }
}

} // verus!
