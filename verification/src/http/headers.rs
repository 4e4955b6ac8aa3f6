//! HTTP header maps and header values, which stay those of `reqwest`. Verus sees
//! nothing inside them: what they hold is named here, and each operation on them
//! that the library uses is stated once, unproved, in terms of those names.

use vstd::prelude::*;
use vstd::string::StringSliceAdditionalSpecFns;
use reqwest::header::{HeaderMap, HeaderValue, InvalidHeaderValue};

verus! {

/// `reqwest::header::HeaderMap`, of which Verus sees nothing.
#[verifier::external_type_specification]
#[verifier::external_body]
#[verifier::reject_recursive_types(T)]
pub struct ExHeaderMap<T>(HeaderMap<T>);

/// `reqwest::header::HeaderValue`, of which Verus sees nothing.
#[verifier::external_type_specification]
#[verifier::external_body]
pub struct ExHeaderValue(HeaderValue);

/// `reqwest::header::InvalidHeaderValue`, of which Verus sees nothing.
#[verifier::external_type_specification]
#[verifier::external_body]
pub struct ExInvalidHeaderValue(InvalidHeaderValue);

/// The bytes of a header value.
pub uninterp spec fn header_value_bytes(value: HeaderValue) -> Seq<u8>;

/// What a header map holds: under each header name, written in lower case, the
/// values given for it, the first one first.
pub uninterp spec fn header_values(map: HeaderMap<HeaderValue>) -> Map<Seq<char>, Seq<Seq<u8>>>;

/// The contents of a header map that holds nothing.
pub open spec fn no_headers() -> Map<Seq<char>, Seq<Seq<u8>>> {
    Map::empty()
}

/// How many header names a header map holds.
pub uninterp spec fn header_count(map: HeaderMap<HeaderValue>) -> nat;

/// The most header names that the library puts up with in one map. A header map
/// cannot grow without end, and below this number it never has to refuse a name.
pub const MAX_HEADERS: usize = 1024;

/// Whether a byte may stand in a header value: a tab, or anything from the space
/// on but the delete character.
pub open spec fn is_value_byte(b: u8) -> bool {
    (b >= 32 && b != 127) || b == 9
}

/// Whether a byte is a tab or a printable ASCII character.
pub open spec fn is_visible_byte(b: u8) -> bool {
    (b >= 32 && b < 127) || b == 9
}

/// Whether every byte may stand in a header value.
pub open spec fn is_value_text(bytes: Seq<u8>) -> bool {
    forall|i: int| 0 <= i < bytes.len() ==> is_value_byte(#[trigger] bytes[i])
}

/// Whether every byte is a tab or a printable ASCII character.
pub open spec fn is_visible_text(bytes: Seq<u8>) -> bool {
    forall|i: int| 0 <= i < bytes.len() ==> is_visible_byte(#[trigger] bytes[i])
}

/// Whether a character may stand in the header names that the library uses: a
/// small letter, a digit or a hyphen.
pub open spec fn is_name_char(c: char) -> bool {
    ('a' <= c && c <= 'z') || ('0' <= c && c <= '9') || c == '-'
}

/// Whether `name` is a header name in the form used here: up to 64 small
/// letters, digits and hyphens, and at least one.
pub open spec fn is_header_name(name: Seq<char>) -> bool {
    &&& 0 < name.len() <= 64
    &&& forall|i: int| 0 <= i < name.len() ==> is_name_char(#[trigger] name[i])
}

/// `HeaderMap::with_capacity`: a map that holds nothing. The capacity is kept
/// small, far from the size at which the call would panic.
#[verifier::external_body]
pub(crate) fn new_header_map(capacity: usize) -> (headers: HeaderMap<HeaderValue>)
    requires
        capacity <= MAX_HEADERS,
    ensures
        header_values(headers) == no_headers(),
        header_count(headers) == 0,
{
    HeaderMap::with_capacity(capacity)
}

/// `HeaderMap::keys_len`: the number of header names in the map.
#[verifier::external_body]
pub(crate) fn count_headers(map: &HeaderMap<HeaderValue>) -> (n: usize)
    ensures
        n == header_count(*map),
{
    map.keys_len()
}

/// `HeaderMap::insert` with a name given as text: afterwards the name holds the
/// new value and no other, and the other names hold what they held. The name
/// must be well formed and the map not full, else the call would panic.
#[verifier::external_body]
pub(crate) fn insert_header(
    map: &mut HeaderMap<HeaderValue>,
    name: &'static str,
    value: HeaderValue,
)
    requires
        is_header_name(name@),
        header_count(*old(map)) < 2 * MAX_HEADERS,
    ensures
        header_values(*final(map)) == header_values(*old(map)).insert(
            name@,
            seq![header_value_bytes(value)],
        ),
        header_count(*final(map)) <= header_count(*old(map)) + 1,
{
    map.insert(name, value);
}

/// `HeaderMap::extend` with a copy of another map: each name of `other` ends up
/// with the values it has in `other`, in place of any it had, and the remaining
/// names keep theirs. The two maps must be small enough together, else the call
/// could panic.
#[verifier::external_body]
pub(crate) fn extend_headers(map: &mut HeaderMap<HeaderValue>, other: &HeaderMap<HeaderValue>)
    requires
        header_count(*old(map)) <= MAX_HEADERS,
        header_count(*other) <= MAX_HEADERS,
    ensures
        header_values(*final(map)) == header_values(*old(map)).union_prefer_right(
            header_values(*other),
        ),
        header_count(*final(map)) <= header_count(*old(map)) + header_count(*other),
{
    map.extend(other.clone());
}

/// `HeaderMap::get` with a name given as text: the first value held under the
/// name, or nothing where the map does not hold the name.
#[verifier::external_body]
pub(crate) fn get_header<'a>(map: &'a HeaderMap<HeaderValue>, name: &str) -> (value: Option<
    &'a HeaderValue,
>)
    requires
        is_header_name(name@),
    ensures
        match value {
            Some(v) => header_values(*map).contains_key(name@) && header_values(*map)[name@].len()
                > 0 && header_values(*map)[name@][0] == header_value_bytes(*v),
            None => !header_values(*map).contains_key(name@),
        },
{
    map.get(name)
}

/// `HeaderValue::from_str`: a value with the bytes of the text, which is refused
/// where one of its bytes may not stand in a header value.
#[verifier::external_body]
pub(crate) fn header_value_from_str(text: &str) -> (r: Result<HeaderValue, InvalidHeaderValue>)
    ensures
        r is Ok <==> is_value_text(text.spec_bytes()),
        r matches Ok(value) ==> header_value_bytes(value) == text.spec_bytes(),
{
    HeaderValue::from_str(text)
}

/// `HeaderValue::from_static`: a value with the bytes of the text, which must be
/// tabs and printable ASCII only, else the call would panic.
#[verifier::external_body]
pub(crate) fn header_value_from_static(text: &'static str) -> (value: HeaderValue)
    requires
        is_visible_text(text.spec_bytes()),
    ensures
        header_value_bytes(value) == text.spec_bytes(),
{
    HeaderValue::from_static(text)
}

/// `HeaderValue::to_str`: the value as text, where its bytes are tabs and
/// printable ASCII only, and nothing where they are not.
#[verifier::external_body]
pub(crate) fn header_value_to_str<'a>(value: &'a HeaderValue) -> (text: Option<&'a str>)
    ensures
        text is Some <==> is_visible_text(header_value_bytes(*value)),
        text matches Some(t) ==> t.spec_bytes() == header_value_bytes(*value),
{
    value.to_str().ok()
}

} // verus!
