//! Timestamps of the API.

use brawl_api::error::Error;
use brawl_api::serde::FromJson;
use brawl_api::time::{TimeLike, Timestamp};
use chrono::{TimeZone, Utc};

/// Tests TimeLike to point-in-time conversion.
#[test]
fn timelike_to_datetime_convert() {
    let time_str = "20200129T042143.000Z";
    let time = TimeLike(String::from(time_str));

    let dt = Utc.with_ymd_and_hms(2020, 01, 29, 04, 21, 43).unwrap();

    assert_eq!(
        time.parse().unwrap(),
        Timestamp { seconds: dt.timestamp(), nanoseconds: dt.timestamp_subsec_nanos() }
    );
    assert_eq!(time.parse().unwrap(), Timestamp { seconds: 1580271703, nanoseconds: 0 });
}

#[test]
fn fractions_of_a_second_are_kept_as_nanoseconds() {
    let time = TimeLike(String::from("20200131T003432.250Z"));
    assert_eq!(time.parse().unwrap(), Timestamp { seconds: 1580430872, nanoseconds: 250_000_000 });
}

#[test]
fn a_text_in_another_format_is_the_offender() {
    for text in ["", "2020-01-29T04:21:43Z", "20200129T042143.000", "20201329T042143.000Z"] {
        match TimeLike(String::from(text)).parse() {
            Err(Error::ParseTimeLike { reason, offender }) => {
                assert!(!reason.is_empty());
                assert_eq!(offender, Some(String::from(text)));
            }
            other => panic!("expected a time error, got {:?}", other),
        }
    }
}

#[test]
fn a_timelike_holds_its_text() {
    let mut time = TimeLike::default();
    assert_eq!(time.inner(), "");
    *time.inner_mut() = String::from("20200129T042143.000Z");
    assert_eq!(time.inner(), "20200129T042143.000Z");
    let value = serde_json::Value::String(String::from("whatever"));
    assert_eq!(TimeLike::from_json(&value), Some(TimeLike(String::from("whatever"))));
    assert_eq!(TimeLike::from_json(&serde_json::Value::Null), None);
}
