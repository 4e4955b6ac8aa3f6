//! The request to an endpoint: what the caller asks for, and what is sent once
//! the standard headers and the authorization are in place.

use vstd::prelude::*;
use vstd::utf8::{encode_utf8, is_ascii_chars, is_ascii_chars_encode_utf8};
use reqwest::header::{HeaderMap, HeaderValue};
use url::ParseError as UrlError;
use url::Url;
use crate::constants::USER_AGENT;
use crate::error::Error;
use crate::http::client::Client;
use crate::http::headers::{
    MAX_HEADERS, count_headers, extend_headers, header_count, header_value_from_static,
    header_value_from_str, header_values, insert_header, is_header_name, is_value_text,
    is_visible_text, new_header_map, no_headers,
};
use crate::text::starts_with;

verus! {

/// Whether a text can be read as an absolute URL.
pub uninterp spec fn is_valid_url(text: Seq<char>) -> bool;

/// `Url::parse`, of which only the verdict is kept: the text is a URL, or the
/// parser's error says why it is not.
#[verifier::external_body]
fn check_url(text: &str) -> (r: Result<(), UrlError>)
    ensures
        r is Ok <==> is_valid_url(text@),
{
    Url::parse(text).map(|_| ())
}

/// The method of a request.
#[derive(Debug, Clone, Copy, Hash, PartialEq, Eq, Structural)]
pub enum Method {
    Get,
    Post,
    Put,
    Delete,
    Head,
    Options,
    Patch,
    Connect,
    Trace,
}

/// A struct representing a request to some endpoint.
#[derive(Debug, Clone, PartialEq)]
pub struct Request<'a> {
    /// The body of the request. (No endpoint of the API needs one.)
    pub body: Option<&'a [u8]>,
    /// Headers to send besides the standard ones, or in their place.
    pub headers: Option<HeaderMap<HeaderValue>>,
    /// The endpoint, as a full URL.
    pub endpoint: String,
    /// The method (GET/POST/...). Defaults to GET.
    pub method: Method,
}

/// A request that is ready to be sent.
#[derive(Debug)]
pub struct HttpRequest {
    /// The method of the request.
    pub method: Method,
    /// The URL to send it to.
    pub url: String,
    /// All the headers to send.
    pub headers: HeaderMap<HeaderValue>,
    /// The body to send, if any.
    pub body: Option<Vec<u8>>,
}

/// The name of the header that identifies the client.
pub const USER_AGENT_HEADER: &'static str = "user-agent";

/// The name of the header that carries the auth key.
pub const AUTHORIZATION_HEADER: &'static str = "authorization";

/// The name of the header that tells the kind of the body.
pub const CONTENT_TYPE_HEADER: &'static str = "content-type";

/// The name of the header that tells the length of the body.
pub const CONTENT_LENGTH_HEADER: &'static str = "content-length";

/// The kind of body that the API speaks.
pub const JSON_CONTENT_TYPE: &'static str = "application/json";

/// The prefix of the value of an Authorization header that carries a token.
pub const BEARER_PREFIX: &'static str = "Bearer ";

/// The value of the Authorization header for an auth key: the key behind
/// `Bearer `, unless the key begins with that already.
pub open spec fn bearer_text(key: Seq<char>) -> Seq<char> {
    if BEARER_PREFIX@.is_prefix_of(key) {
        key
    } else {
        BEARER_PREFIX@ + key
    }
}

/// The headers that every request carries: the user agent of this library, the
/// authorization for the auth key, JSON as content type and a content length of
/// zero.
pub open spec fn standard_headers(key: Seq<char>) -> Map<Seq<char>, Seq<Seq<u8>>> {
    no_headers().insert(USER_AGENT_HEADER@, seq![encode_utf8(USER_AGENT@)]).insert(
        AUTHORIZATION_HEADER@,
        seq![encode_utf8(bearer_text(key))],
    ).insert(CONTENT_TYPE_HEADER@, seq![encode_utf8(JSON_CONTENT_TYPE@)]).insert(
        CONTENT_LENGTH_HEADER@,
        seq![encode_utf8("0"@)],
    )
}

/// The headers of a request with the headers that the caller added: those of
/// the caller win over the standard ones of the same name.
pub open spec fn request_headers(key: Seq<char>, custom: Option<HeaderMap<HeaderValue>>) -> Map<
    Seq<char>,
    Seq<Seq<u8>>,
> {
    match custom {
        Some(headers) => standard_headers(key).union_prefer_right(header_values(headers)),
        None => standard_headers(key),
    }
}

/// The bytes of an optional body that is borrowed.
pub open spec fn borrowed_body(body: Option<&[u8]>) -> Option<Seq<u8>> {
    match body {
        Some(bytes) => Some(bytes@),
        None => None,
    }
}

/// The bytes of an optional body that is owned.
pub open spec fn owned_body(body: Option<Vec<u8>>) -> Option<Seq<u8>> {
    match body {
        Some(bytes) => Some(bytes@),
        None => None,
    }
}

proof fn lemma_printable_text(chars: Seq<char>)
    requires
        forall|i: int| 0 <= i < chars.len() ==> ' ' <= #[trigger] chars[i] <= '~',
    ensures
        is_visible_text(encode_utf8(chars)),
{
    assert(is_ascii_chars(chars));
    is_ascii_chars_encode_utf8(chars);
    assert forall|i: int| 0 <= i < encode_utf8(chars).len() implies 32 <= #[trigger] encode_utf8(
        chars,
    )[i] < 127 by {
        assert(' ' <= chars[i] <= '~');
        assert(chars[i] as u8 == encode_utf8(chars)[i]);
    }
}

proof fn lemma_standard_names()
    ensures
        is_header_name(USER_AGENT_HEADER@),
        is_header_name(AUTHORIZATION_HEADER@),
        is_header_name(CONTENT_TYPE_HEADER@),
        is_header_name(CONTENT_LENGTH_HEADER@),
{
    reveal_strlit("user-agent");
    reveal_strlit("authorization");
    reveal_strlit("content-type");
    reveal_strlit("content-length");
}

proof fn lemma_standard_values()
    ensures
        is_visible_text(encode_utf8(USER_AGENT@)),
        is_visible_text(encode_utf8(JSON_CONTENT_TYPE@)),
        is_visible_text(encode_utf8("0"@)),
{
    reveal_strlit("Rust (brawl-api crate, 0.1.0 - https://github.com/PgBiel/rust-brawl-api)");
    reveal_strlit("application/json");
    reveal_strlit("0");
    lemma_printable_text(USER_AGENT@);
    lemma_printable_text(JSON_CONTENT_TYPE@);
    lemma_printable_text("0"@);
}

impl<'a> Default for Request<'a> {
    /// A GET request with no endpoint yet, no body and no headers of its own.
    fn default() -> (r: Request<'a>)
        ensures
            r.body is None,
            r.headers is None,
            r.endpoint@ == Seq::<char>::empty(),
            r.method == Method::Get,
    {
        Request { body: None, headers: None, endpoint: String::new(), method: Method::Get }
    }
}

impl<'a> Request<'a> {
    /// Whether the headers that the caller added are few enough for `build`.
    pub open spec fn fits(&self) -> bool {
        match self.headers {
            Some(headers) => header_count(headers) <= MAX_HEADERS,
            None => true,
        }
    }

    /// What `build` hands back where it succeeds: the method, the endpoint as
    /// URL and the body of this request, under the headers of `request_headers`.
    pub open spec fn builds(&self, client: &Client, built: HttpRequest) -> bool {
        &&& built.method == self.method
        &&& built.url@ == self.endpoint@
        &&& header_values(built.headers) == request_headers(client.auth_key@, self.headers)
        &&& owned_body(built.body) == borrowed_body(self.body)
    }

    /// Whether `r` is what building this request comes to. It is the request
    /// of `builds`, where the endpoint is a URL and the auth key, behind
    /// `Bearer `, can stand in a header; it is `Error::Url` where the endpoint is
    /// no URL, and `Error::Authorization` where it is one and the auth key cannot
    /// stand in a header.
    pub open spec fn built_as(&self, client: &Client, r: Result<HttpRequest, Error>) -> bool {
        match r {
            Ok(built) => is_valid_url(self.endpoint@) && is_value_text(
                encode_utf8(bearer_text(client.auth_key@)),
            ) && self.builds(client, built),
            Err(Error::Url(_)) => !is_valid_url(self.endpoint@),
            Err(Error::Authorization(_)) => is_valid_url(self.endpoint@) && !is_value_text(
                encode_utf8(bearer_text(client.auth_key@)),
            ),
            Err(_) => false,
        }
    }

    /// Makes the request that is sent: the endpoint must be a URL, else the
    /// result is `Error::Url`; the auth key, behind `Bearer `, must be able to
    /// stand in a header, else the result is `Error::Authorization`.
    pub fn build(&self, client: &Client) -> (r: Result<HttpRequest, Error>)
        requires
            self.fits(),
        ensures
            self.built_as(client, r),
    {
        match check_url(self.endpoint.as_str()) {
            Ok(_) => {},
            Err(e) => {
                return Err(Error::Url(e));
            },
        }
        let body: Option<Vec<u8>> = match self.body {
            Some(bytes) => Some(vstd::slice::slice_to_vec(bytes)),
            None => None,
        };
        let key: String = if starts_with(client.auth_key.as_str(), BEARER_PREFIX) {
            client.auth_key.clone()
        } else {
            let mut key = String::from_str(BEARER_PREFIX);
            key.append(client.auth_key.as_str());
            key
        };
        assert(key@ == bearer_text(client.auth_key@));
        proof {
            lemma_standard_names();
            lemma_standard_values();
        }
        let authorization = match header_value_from_str(key.as_str()) {
            Ok(value) => value,
            Err(e) => {
                return Err(Error::Authorization(e));
            },
        };
        let mut headers = new_header_map(3);
        insert_header(&mut headers, USER_AGENT_HEADER, header_value_from_static(USER_AGENT));
        insert_header(&mut headers, AUTHORIZATION_HEADER, authorization);
        insert_header(
            &mut headers,
            CONTENT_TYPE_HEADER,
            header_value_from_static(JSON_CONTENT_TYPE),
        );
        insert_header(&mut headers, CONTENT_LENGTH_HEADER, header_value_from_static("0"));
        match &self.headers {
            Some(custom) => {
                extend_headers(&mut headers, custom);
            },
            None => {},
        }
        Ok(HttpRequest { method: self.method, url: self.endpoint.clone(), headers, body })
    }

    /// Like `build`, for a request with any number of headers of its own: where
    /// they are too many for one header map, nothing is built and the result is
    /// `None`.
    pub fn checked_build(&self, client: &Client) -> (r: Option<Result<HttpRequest, Error>>)
        ensures
            r is Some <==> self.fits(),
            r matches Some(built) ==> self.built_as(client, built),
    {
        let fits = match &self.headers {
            Some(headers) => count_headers(headers) <= MAX_HEADERS,
            None => true,
        };
        if fits {
            Some(self.build(client))
        } else {
            None
        }
    }
}

} // verus!
