//! Contains the `Client` class, responsible for API authentication.

use vstd::prelude::*;
use vstd::utf8::encode_utf8;
use crate::error::Error;
use crate::http::headers::{header_values, is_value_text};
use crate::http::request::{
    HttpRequest, Method, Request, bearer_text, is_valid_url, standard_headers,
};

verus! {

/// Holds the user's API auth key, and is required on every fetch for
/// authentication. This is usually the starting point for using this library.
#[derive(Debug, Clone)]
pub struct Client {
    /// The auth key, with or without `Bearer ` in front.
    pub auth_key: String,
    /// Whether a tag that lacks the hash sign gets one wherever a tag is asked
    /// for. Without it, every tag must be given with its hash sign.
    pub auto_hashtag: bool,
}

impl Client {
    /// Creates a new Client with a given API auth key, which completes tags
    /// that lack the hash sign.
    pub fn new(auth_key: &str) -> (client: Client)
        ensures
            client.auth_key@ == auth_key@,
            client.auto_hashtag,
    {
        Client { auth_key: String::from_str(auth_key), auto_hashtag: true }
    }

    /// Creates a new Client with a given API auth key, which completes tags
    /// that lack the hash sign only where `auto_hashtag` is set.
    pub fn with_auto_hashtag(auth_key: &str, auto_hashtag: bool) -> (client: Client)
        ensures
            client.auth_key@ == auth_key@,
            client.auto_hashtag == auto_hashtag,
    {
        Client { auth_key: String::from_str(auth_key), auto_hashtag }
    }

    /// Creates a Request instance for one specific endpoint and returns it.
    pub fn endpoint_request(&self, endpoint: &str) -> (request: Request<'_>)
        ensures
            request.endpoint@ == endpoint@,
            request.body is None,
            request.headers is None,
            request.method == Method::Get,
    {
        let mut request = Request::default();
        request.endpoint = String::from_str(endpoint);
        request
    }

    /// Whether `r` is what comes of asking for `url` with this client. It is a
    /// GET request to that URL with the standard headers and no body, where
    /// `url` is a URL and the auth key can stand in a header; it is `Error::Url`
    /// where `url` is no URL, and `Error::Authorization` where it is one and the
    /// auth key cannot stand in a header.
    pub open spec fn asks_for(&self, url: Seq<char>, r: Result<HttpRequest, Error>) -> bool {
        match r {
            Ok(built) => {
                &&& is_valid_url(url)
                &&& is_value_text(encode_utf8(bearer_text(self.auth_key@)))
                &&& built.method == Method::Get
                &&& built.url@ == url
                &&& header_values(built.headers) == standard_headers(self.auth_key@)
                &&& built.body is None
            },
            Err(Error::Url(_)) => !is_valid_url(url),
            Err(Error::Authorization(_)) => is_valid_url(url) && !is_value_text(
                encode_utf8(bearer_text(self.auth_key@)),
            ),
            Err(_) => false,
        }
    }

    /// Creates a Request instance for one specific endpoint and builds the GET
    /// request that is sent for it (see `Request::build`).
    pub fn build_endpoint_get(&self, endpoint: &str) -> (r: Result<HttpRequest, Error>)
        ensures
            self.asks_for(endpoint@, r),
    {
        self.endpoint_request(endpoint).build(self)
    }
}

} // verus!
