//! Errors: how a failed response is classified and how an error is described.

use brawl_api::error::{APIError, Error};
use brawl_api::http::response::{Response, StatusCode};
use brawl_api::util::fetch_route;
use brawl_api::{Brawler, Client, Request, TimeLike};
use reqwest::header::{HeaderMap, HeaderValue};
use serde_json::Value;

fn response(status: u16, headers: Vec<(&'static str, &'static str)>, body: &str) -> Response {
    let mut map = HeaderMap::new();
    for (name, value) in headers {
        map.append(name, HeaderValue::from_static(value));
    }
    Response { status: StatusCode(status), headers: map, body: body.as_bytes().to_vec() }
}

fn json(text: &str) -> Value {
    serde_json::from_str::<Value>(text).unwrap()
}

#[test]
fn a_reset_header_means_ratelimited_even_with_status_200() {
    let error = Error::from_response(
        response(200, vec![("x-ratelimit-reset", "1700000000")], "{}"),
        None,
    );
    match error {
        Error::Ratelimited { limit, remaining, time_until_reset } => {
            assert_eq!(limit, None);
            assert_eq!(remaining, None);
            assert_eq!(time_until_reset, Some(String::from("1700000000")));
        }
        other => panic!("expected a ratelimit, got {:?}", other),
    }
}

#[test]
fn no_reset_header_means_a_status_error() {
    let error = Error::from_response(
        response(404, vec![("x-ratelimit-limit", "10")], "{\"reason\": \"notFound\"}"),
        None,
    );
    match error {
        Error::Status(status, api_error, raw) => {
            assert_eq!(status, StatusCode(404));
            assert_eq!(
                api_error,
                Some(APIError { reason: String::from("notFound"), ..APIError::default() })
            );
            assert_eq!(raw, Some(json("{\"reason\": \"notFound\"}")));
        }
        other => panic!("expected a status error, got {:?}", other),
    }
}

#[test]
fn reset_header_without_parseable_limit_gives_no_limit() {
    let error = Error::from_response(
        response(
            429,
            vec![
                ("x-ratelimit-reset", "1700000000"),
                ("x-ratelimit-limit", "many"),
                ("x-ratelimit-remaining", "0"),
            ],
            "",
        ),
        None,
    );
    match error {
        Error::Ratelimited { limit, remaining, time_until_reset } => {
            assert_eq!(limit, None);
            assert_eq!(remaining, Some(0));
            assert_eq!(time_until_reset, Some(String::from("1700000000")));
        }
        other => panic!("expected a ratelimit, got {:?}", other),
    }
}

#[test]
fn ratelimit_numbers_come_from_their_headers() {
    let error = Error::from_response(
        response(
            429,
            vec![
                ("x-ratelimit-remaining", "3"),
                ("x-ratelimit-limit", "100"),
                ("x-ratelimit-reset", "soon"),
            ],
            "",
        ),
        None,
    );
    match error {
        Error::Ratelimited { limit, remaining, time_until_reset } => {
            assert_eq!(limit, Some(100));
            assert_eq!(remaining, Some(3));
            assert_eq!(time_until_reset, Some(String::from("soon")));
        }
        other => panic!("expected a ratelimit, got {:?}", other),
    }
}

#[test]
fn the_first_value_of_a_repeated_header_counts() {
    let error = Error::from_response(
        response(
            429,
            vec![
                ("x-ratelimit-reset", "1"),
                ("x-ratelimit-reset", "2"),
                ("x-ratelimit-limit", "7"),
                ("x-ratelimit-limit", "8"),
            ],
            "",
        ),
        None,
    );
    match error {
        Error::Ratelimited { limit, time_until_reset, .. } => {
            assert_eq!(limit, Some(7));
            assert_eq!(time_until_reset, Some(String::from("1")));
        }
        other => panic!("expected a ratelimit, got {:?}", other),
    }
}

#[test]
fn header_names_are_found_whatever_their_case_was() {
    let mut map = HeaderMap::new();
    map.insert(
        reqwest::header::HeaderName::from_bytes(b"X-RateLimit-Reset").unwrap(),
        HeaderValue::from_static("12"),
    );
    let error = Error::from_response(
        Response { status: StatusCode(429), headers: map, body: vec![] },
        None,
    );
    assert!(matches!(error, Error::Ratelimited { .. }));
}

#[test]
fn a_reset_header_that_is_no_text_is_passed_over() {
    let mut map = HeaderMap::new();
    map.insert("x-ratelimit-reset", HeaderValue::from_bytes(&[0xff, 0xfe]).unwrap());
    let error = Error::from_response(
        Response { status: StatusCode(503), headers: map, body: vec![] },
        None,
    );
    match error {
        Error::Status(status, api_error, raw) => {
            assert_eq!(status, StatusCode(503));
            assert_eq!(api_error, None);
            assert_eq!(raw, None);
        }
        other => panic!("expected a status error, got {:?}", other),
    }
}

#[test]
fn a_body_that_is_no_json_gives_a_bare_status_error() {
    let error = Error::from_response(response(500, vec![], "<html>oops</html>"), None);
    match error {
        Error::Status(status, api_error, raw) => {
            assert_eq!(status, StatusCode(500));
            assert_eq!(api_error, None);
            assert_eq!(raw, None);
        }
        other => panic!("expected a status error, got {:?}", other),
    }
}

#[test]
fn a_json_body_of_another_shape_keeps_the_raw_json_only() {
    for body in ["[1, 2]", "\"text\"", "{\"reason\": 5}", "{\"message\": []}", "{\"detail\": 1}"] {
        let error = Error::from_response(response(400, vec![], body), None);
        match error {
            Error::Status(_, api_error, raw) => {
                assert_eq!(api_error, None);
                assert_eq!(raw, Some(json(body)));
            }
            other => panic!("expected a status error, got {:?}", other),
        }
    }
}

#[test]
fn the_api_error_is_read_with_its_optional_members() {
    let body = "{\"reason\": \"accessDenied\", \"message\": \"Invalid authorization\", \
                \"type\": \"auth\", \"detail\": {\"ip\": \"1.2.3.4\"}, \"more\": true}";
    let error = Error::from_response(response(403, vec![], body), None);
    match error {
        Error::Status(_, Some(api_error), _) => {
            assert_eq!(api_error.reason, "accessDenied");
            assert_eq!(api_error.message, Some(String::from("Invalid authorization")));
            assert_eq!(api_error.err_type, Some(String::from("auth")));
            let detail = api_error.detail.unwrap();
            assert_eq!(detail.len(), 1);
            assert_eq!(detail.get("ip"), Some(&json("\"1.2.3.4\"")));
        }
        other => panic!("expected a status error with an API error, got {:?}", other),
    }
}

#[test]
fn missing_and_null_members_of_the_api_error_take_their_defaults() {
    let api_error = APIError::from_json(&json("{}")).unwrap();
    assert_eq!(api_error, APIError::default());
    assert_eq!(api_error.reason, "");
    let api_error =
        APIError::from_json(&json("{\"message\": null, \"type\": null, \"detail\": null}")).unwrap();
    assert_eq!(api_error, APIError::default());
    assert_eq!(APIError::from_json(&json("{\"reason\": null}")), None);
    assert_eq!(APIError::from_json(&json("null")), None);
}

#[test]
fn a_value_read_before_is_used_in_place_of_the_body() {
    let error = Error::from_response(
        response(400, vec![], "not json"),
        Some(json("{\"reason\": \"badRequest\"}")),
    );
    match error {
        Error::Status(_, Some(api_error), Some(raw)) => {
            assert_eq!(api_error.reason, "badRequest");
            assert_eq!(raw, json("{\"reason\": \"badRequest\"}"));
        }
        other => panic!("expected a status error with an API error, got {:?}", other),
    }
}

#[test]
fn ratelimit_descriptions_tell_what_is_known() {
    let error = Error::Ratelimited { limit: None, remaining: None, time_until_reset: None };
    assert_eq!(error.description(), "Ratelimited.");
    let error = Error::Ratelimited { limit: Some(10), remaining: Some(0), time_until_reset: None };
    assert_eq!(error.description(), "Ratelimited: Limit of 10 requests/min.");
    let error = Error::Ratelimited {
        limit: None,
        remaining: None,
        time_until_reset: Some(String::from("1700000000")),
    };
    assert_eq!(error.description(), "Ratelimited: Resets at timestamp 1700000000.");
    let error = Error::Ratelimited {
        limit: Some(100),
        remaining: Some(0),
        time_until_reset: Some(String::from("1700000000")),
    };
    assert_eq!(
        error.description(),
        "Ratelimited: Limit of 100 requests/min. Resets at timestamp 1700000000."
    );
}

#[test]
fn status_descriptions_are_the_reason_phrases() {
    assert_eq!(Error::Status(StatusCode(404), None, None).description(), "Not Found");
    assert_eq!(Error::Status(StatusCode(503), None, None).description(), "Service Unavailable");
    assert_eq!(
        Error::Status(StatusCode(799), None, None).description(),
        "Unknown HTTP status code error received"
    );
    assert_eq!(
        Error::Status(StatusCode(42), None, None).description(),
        "Unknown HTTP status code error received"
    );
    assert_eq!(StatusCode(200).canonical_reason(), Some("OK"));
    assert_eq!(StatusCode(1000).canonical_reason(), None);
}

#[test]
fn status_codes_from_200_to_299_are_success() {
    assert!(!StatusCode(199).is_success());
    assert!(StatusCode(200).is_success());
    assert!(StatusCode(299).is_success());
    assert!(!StatusCode(300).is_success());
    assert_eq!(StatusCode(204).as_u16(), 204);
}

#[test]
fn url_and_authorization_errors_have_fixed_descriptions() {
    let client = Client::new("key");
    let error = client.build_endpoint_get("no url").unwrap_err();
    assert!(matches!(error, Error::Url(_)));
    assert_eq!(error.description(), "Invalid URL was given/built.");
    let client = Client::new("key\nwith a line break");
    let error = client.build_endpoint_get("https://api.brawlstars.com/v1/brawlers/").unwrap_err();
    assert!(matches!(error, Error::Authorization(_)));
    assert_eq!(error.description(), "Auth key was provided in an invalid format for a header.");
}

#[test]
fn json_errors_are_described_by_the_parser() {
    let expected = serde_json::from_str::<Value>("{\"name\": ").unwrap_err().to_string();
    let error = fetch_route::<Brawler>(response(200, vec![], "{\"name\": ")).unwrap_err();
    assert!(matches!(error, Error::Json(_)));
    assert_eq!(error.description(), expected);
    assert!(!expected.is_empty());
}

#[test]
fn transport_errors_are_described_by_the_transport() {
    let failure = reqwest::blocking::Client::new().get("no url").build().unwrap_err();
    let expected = failure.to_string();
    let error = Error::Request(failure);
    assert_eq!(error.description(), expected);
    assert!(!expected.is_empty());
}

#[test]
fn conversion_and_time_errors_are_described_by_their_text() {
    assert_eq!(Error::FetchFrom(String::from("no tag")).description(), "no tag");
    let error = TimeLike(String::from("yesterday")).parse().unwrap_err();
    match &error {
        Error::ParseTimeLike { reason, offender } => {
            assert_eq!(offender, &Some(String::from("yesterday")));
            assert_eq!(&error.description(), reason);
            assert!(!reason.is_empty());
        }
        other => panic!("expected a time error, got {:?}", other),
    }
}

#[test]
fn a_default_request_is_an_empty_get() {
    let request = Request::default();
    assert_eq!(request.endpoint, "");
    assert_eq!(request.body, None);
    assert_eq!(request.headers, None);
    assert_eq!(request.method, brawl_api::Method::Get);
}
