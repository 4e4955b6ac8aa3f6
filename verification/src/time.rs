//! Contains the `TimeLike` struct, used to indicate strings that contain
//! timestamps, which can be parsed using `TimeLike::parse`.

use vstd::prelude::*;
use chrono::{TimeZone, Utc};
use serde_json::Value as JsonValue;
use crate::clone::FaithfulClone;
use crate::constants::TIMELIKE_FORMAT;
use crate::error::Error;
use crate::json::{Json, value_as_str};
use crate::serde::FromJson;

verus! {

/// A point in time: the seconds since the start of 1970 in UTC, not counting
/// leap seconds, and the nanoseconds since the start of that second.
#[derive(Debug, Clone, Copy, Hash, PartialEq, Eq, Structural)]
pub struct Timestamp {
    /// Whole seconds since 1970-01-01 00:00:00 UTC.
    pub seconds: i64,
    /// Nanoseconds since the start of the second.
    pub nanoseconds: u32,
}

/// The point in time that a text writes in a format of `chrono`, as the seconds
/// and the nanoseconds of a `Timestamp`, or what the parser of `chrono` says
/// where the text does not follow the format.
pub uninterp spec fn parsed_time(text: Seq<char>, format: Seq<char>) -> Result<
    (i64, u32),
    Seq<char>,
>;

/// `TimeZone::datetime_from_str` of `chrono`, for UTC: the point in time that
/// the text writes in the format, handed out as `DateTime::timestamp` and
/// `DateTime::timestamp_subsec_nanos` give it, or the message of the parser's
/// error where the text does not follow the format.
#[verifier::external_body]
#[allow(deprecated)]
fn parse_utc(text: &str, format: &str) -> (r: Result<(i64, u32), String>)
    ensures
        match r {
            Ok(time) => parsed_time(text@, format@) == Ok::<(i64, u32), Seq<char>>(time),
            Err(reason) => parsed_time(text@, format@) == Err::<(i64, u32), Seq<char>>(reason@),
        },
{
    Utc.datetime_from_str(text, format).map(|t| (t.timestamp(), t.timestamp_subsec_nanos())).map_err(
        |e| e.to_string(),
    )
}

/// Represents a timestamp provided by the Brawl API, as the text that the API
/// sent. `TimeLike::parse` reads it as a point in time.
#[derive(Debug, Hash, PartialEq, Eq)]
pub struct TimeLike(pub String);

impl Clone for TimeLike {
    /// A clone holds the same text as this `TimeLike`.
    fn clone(&self) -> (r: TimeLike)
        ensures
            r.same(self),
    {
        TimeLike(self.0.clone())
    }
}

impl FaithfulClone for TimeLike {
    open spec fn same(&self, other: &TimeLike) -> bool {
        self.0@ == other.0@
    }

    proof fn same_is_reflexive(value: TimeLike) {
    }

    proof fn clone_is_same(value: TimeLike, copy: TimeLike) {
    }
}

impl TimeLike {
    /// Whether this is the instance that holds no text.
    pub open spec fn is_default(&self) -> bool {
        self.0@.len() == 0
    }

    /// Returns an immutable reference to the inner string.
    pub fn inner(&self) -> (text: &String)
        ensures
            text@ == self.0@,
    {
        &self.0
    }

    /// Returns a mutable reference to the inner string.
    pub fn inner_mut(&mut self) -> (text: &mut String)
        ensures
            *text == old(self).0,
            final(self).0 == *final(text),
    {
        &mut self.0
    }

    /// Parses this timestamp into a point in time, using the API's format
    /// (see `TIMELIKE_FORMAT`). Where the text does not follow the format, the
    /// result is `Error::ParseTimeLike`, which holds what the parser said as
    /// reason and the text as offender.
    pub fn parse(&self) -> (r: Result<Timestamp, Error>)
        ensures
            match r {
                Ok(time) => parsed_time(self.0@, TIMELIKE_FORMAT@) == Ok::<(i64, u32), Seq<char>>(
                    (time.seconds, time.nanoseconds),
                ),
                Err(Error::ParseTimeLike { reason, offender }) => {
                    &&& parsed_time(self.0@, TIMELIKE_FORMAT@) == Err::<(i64, u32), Seq<char>>(
                        reason@,
                    )
                    &&& offender matches Some(text)
                    &&& text@ == self.0@
                },
                Err(_) => false,
            },
    {
        match parse_utc(self.0.as_str(), TIMELIKE_FORMAT) {
            Ok(time) => Ok(Timestamp { seconds: time.0, nanoseconds: time.1 }),
            Err(reason) => Err(Error::ParseTimeLike { reason, offender: Some(self.0.clone()) }),
        }
    }
}

impl Default for TimeLike {
    /// Returns an initial `TimeLike` instance containing an empty string.
    fn default() -> (r: TimeLike)
        ensures
            r.is_default(),
    {
        TimeLike(String::new())
    }
}

/// A `TimeLike` reads from a JSON string, whatever the string holds.
impl FromJson for TimeLike {
    open spec fn json_ok(json: Json) -> bool {
        json is Text
    }

    open spec fn json_matches(&self, json: Json) -> bool {
        json == Json::Text(self.0@)
    }

    fn from_json(value: &JsonValue) -> (r: Option<TimeLike>) {
        match value_as_str(value) {
            Some(text) => Some(TimeLike(String::from_str(text))),
            None => None,
        }
    }
}

} // verus!
