//! Requests: what is sent for an endpoint, and when building one fails.

use brawl_api::constants::USER_AGENT;
use brawl_api::error::Error;
use brawl_api::http::headers::MAX_HEADERS;
use brawl_api::http::request::{HttpRequest, Method, Request};
use brawl_api::util::fetch_request;
use brawl_api::{Client, Route};
use reqwest::header::{HeaderMap, HeaderName, HeaderValue};

const BRAWLERS: &str = "https://api.brawlstars.com/v1/brawlers/";

fn header<'a>(request: &'a HttpRequest, name: &str) -> &'a str {
    request.headers.get(name).unwrap().to_str().unwrap()
}

#[test]
fn a_client_keeps_its_key_and_completes_tags_by_default() {
    let client = Client::new("my auth key");
    assert_eq!(client.auth_key, "my auth key");
    assert!(client.auto_hashtag);
    let client = Client::with_auto_hashtag("my auth key", false);
    assert_eq!(client.auth_key, "my auth key");
    assert!(!client.auto_hashtag);
}

#[test]
fn an_endpoint_request_is_a_get_without_body_or_headers() {
    let client = Client::new("key");
    let request = client.endpoint_request(BRAWLERS);
    assert_eq!(request.endpoint, BRAWLERS);
    assert_eq!(request.method, Method::Get);
    assert_eq!(request.body, None);
    assert_eq!(request.headers, None);
}

#[test]
fn a_built_request_carries_the_four_standard_headers() {
    let client = Client::new("key");
    let built = client.build_endpoint_get(BRAWLERS).unwrap();
    assert_eq!(built.method, Method::Get);
    assert_eq!(built.url, BRAWLERS);
    assert_eq!(built.body, None);
    assert_eq!(built.headers.len(), 4);
    assert_eq!(header(&built, "user-agent"), USER_AGENT);
    assert_eq!(header(&built, "authorization"), "Bearer key");
    assert_eq!(header(&built, "content-type"), "application/json");
    assert_eq!(header(&built, "content-length"), "0");
}

#[test]
fn a_key_that_begins_with_bearer_is_sent_as_it_is() {
    let built = Client::new("Bearer abc").build_endpoint_get(BRAWLERS).unwrap();
    assert_eq!(header(&built, "authorization"), "Bearer abc");
    let built = Client::new("Bearer").build_endpoint_get(BRAWLERS).unwrap();
    assert_eq!(header(&built, "authorization"), "Bearer Bearer");
    let built = Client::new("bearer abc").build_endpoint_get(BRAWLERS).unwrap();
    assert_eq!(header(&built, "authorization"), "Bearer bearer abc");
    let built = Client::new("").build_endpoint_get(BRAWLERS).unwrap();
    assert_eq!(header(&built, "authorization"), "Bearer ");
}

#[test]
fn a_key_beyond_ascii_is_sent_in_utf8() {
    let built = Client::new("clé").build_endpoint_get(BRAWLERS).unwrap();
    assert_eq!(
        built.headers.get("authorization").unwrap().as_bytes(),
        "Bearer clé".as_bytes()
    );
}

#[test]
fn an_endpoint_that_is_no_url_is_refused_first() {
    let client = Client::new("bad\u{7f}key");
    for endpoint in ["", "players/%23A", "https://", "http://[::1"] {
        assert!(matches!(client.build_endpoint_get(endpoint), Err(Error::Url(_))));
    }
}

#[test]
fn a_key_that_cannot_stand_in_a_header_is_refused() {
    for key in ["a\nb", "a\rb", "\u{0}", "a\u{7f}", "Bearer a\u{1b}"] {
        let result = Client::new(key).build_endpoint_get(BRAWLERS);
        assert!(matches!(result, Err(Error::Authorization(_))));
    }
    assert!(Client::new("a\tb").build_endpoint_get(BRAWLERS).is_ok());
}

#[test]
fn headers_of_the_caller_win_over_the_standard_ones() {
    let client = Client::new("key");
    let mut custom = HeaderMap::new();
    custom.insert("content-type", HeaderValue::from_static("text/plain"));
    custom.append("x-trace", HeaderValue::from_static("one"));
    custom.append("x-trace", HeaderValue::from_static("two"));
    let request = Request {
        headers: Some(custom),
        endpoint: String::from(BRAWLERS),
        ..Request::default()
    };
    let built = request.build(&client).unwrap();
    assert_eq!(built.headers.keys_len(), 5);
    assert_eq!(header(&built, "content-type"), "text/plain");
    assert_eq!(built.headers.get_all("content-type").iter().count(), 1);
    assert_eq!(header(&built, "authorization"), "Bearer key");
    let traces: Vec<&HeaderValue> = built.headers.get_all("x-trace").iter().collect();
    assert_eq!(traces, vec!["one", "two"]);
}

#[test]
fn the_body_and_the_method_are_passed_on() {
    let client = Client::new("key");
    let body = [1u8, 2, 3];
    let request = Request {
        body: Some(&body),
        headers: None,
        endpoint: String::from(BRAWLERS),
        method: Method::Post,
    };
    let built = request.build(&client).unwrap();
    assert_eq!(built.method, Method::Post);
    assert_eq!(built.body, Some(vec![1u8, 2, 3]));
    assert_eq!(built.url, BRAWLERS);
}

#[test]
fn checked_build_refuses_more_headers_than_a_map_takes() {
    let client = Client::new("key");
    let mut custom = HeaderMap::new();
    for i in 0..MAX_HEADERS {
        let name = HeaderName::from_bytes(format!("x-h{}", i).as_bytes()).unwrap();
        custom.insert(name, HeaderValue::from_static("v"));
    }
    let mut request = Request {
        headers: Some(custom.clone()),
        endpoint: String::from(BRAWLERS),
        ..Request::default()
    };
    let built = request.checked_build(&client).unwrap().unwrap();
    assert_eq!(built.headers.keys_len(), MAX_HEADERS + 4);
    custom.insert("x-one-more", HeaderValue::from_static("v"));
    request.headers = Some(custom);
    assert!(request.checked_build(&client).is_none());
    request.headers = None;
    assert!(matches!(request.checked_build(&client), Some(Ok(_))));
    request.endpoint = String::from("nowhere");
    assert!(matches!(request.checked_build(&client), Some(Err(Error::Url(_)))));
}

#[test]
fn the_request_for_a_route_goes_to_its_url() {
    let client = Client::new("key");
    let route = Route::Player(String::from("%232PP"));
    let built = fetch_request(&client, &route).unwrap();
    assert_eq!(built.url, "https://api.brawlstars.com/v1/players/%232PP");
    assert_eq!(built.url, route.to_url_str());
    assert_eq!(built.method, Method::Get);
    assert_eq!(header(&built, "authorization"), "Bearer key");
}
