//! Contains the `Error` enum, used in all functions of the library that may fail,
//! and the reading of a failed response into one.

use vstd::prelude::*;
use vstd::std_specs::convert::FromSpecImpl;
use vstd::utf8::{decode_utf8, encode_utf8_decode_utf8};
use reqwest::Error as TransportError;
use reqwest::header::InvalidHeaderValue;
use reqwest::header::{HeaderMap, HeaderValue};
use serde_json::Error as JsonError;
use serde_json::Value as JsonValue;
use url::ParseError as UrlError;
use crate::http::headers::{
    get_header, header_value_to_str, header_values, is_header_name, is_visible_text,
};
use crate::http::response::{Response, StatusCode, canonical_reason_phrase};
use crate::json::{
    Json, JsonMap, json_error_message, json_error_text, json_of, parsed_json, value_as_object,
    value_from_slice,
};
use crate::serde::{
    field, members_of, optional_object, optional_text, read_optional_object, read_optional_text,
    read_text_or_empty, text_of, text_or_empty,
};
use crate::text::{decimal, decimal_string, parse_unsigned, parse_usize};

verus! {

/// `reqwest::Error`, of which Verus sees nothing.
#[verifier::external_type_specification]
#[verifier::external_body]
pub struct ExTransportError(TransportError);

/// `url::ParseError`, of which Verus sees nothing.
#[verifier::external_type_specification]
#[verifier::external_body]
pub struct ExUrlError(UrlError);

/// The message of a transport error.
pub uninterp spec fn transport_error_text(error: TransportError) -> Seq<char>;

/// The `Display` text of a `reqwest::Error`.
#[verifier::external_body]
fn transport_error_message(error: &TransportError) -> (r: String)
    ensures
        r@ == transport_error_text(*error),
{
    error.to_string()
}

/// Represents an error given by the API, with its specifications.
#[derive(Debug, PartialEq, Clone)]
pub struct APIError {
    /// The reason for the error.
    pub reason: String,
    /// Optionally, a human-readable message for the error.
    pub message: Option<String>,
    /// Optionally, a specific type of this error.
    pub err_type: Option<String>,
    /// Optionally, any extra details about this error.
    pub detail: Option<JsonMap>,
}

/// Represents all possible errors while using methods from this library in
/// functions such as fetches.
#[non_exhaustive]
#[derive(Debug)]
pub enum Error {
    /// A body that is no JSON, or JSON of another shape than the model's.
    Json(JsonError),
    /// A malformed URL.
    Url(UrlError),
    /// An auth key that cannot stand in an Authorization header.
    Authorization(InvalidHeaderValue),
    /// A failure while requesting to the API or while receiving its data.
    Request(TransportError),
    /// An API ratelimit.
    Ratelimited {
        /// Maximum amount of requests per minute allowed, if given.
        limit: Option<usize>,
        /// Amount remaining (normally 0), if given.
        remaining: Option<usize>,
        /// Stringified timestamp (seconds) at which the ratelimit block will be
        /// lifted. Always there when the library makes this error.
        time_until_reset: Option<String>,
    },
    /// An arbitrary status code error received from the API: the status code,
    /// the API's error, where the body can be read as one, and the body as JSON,
    /// where it is JSON.
    Status(StatusCode, Option<APIError>, Option<JsonValue>),
    /// An error while converting one model into another after the fetching is
    /// done, with a description of what occurred.
    FetchFrom(String),
    /// A timestamp that does not follow the format of the API's timestamps.
    ParseTimeLike {
        /// What the parser found wrong.
        reason: String,
        /// The text that could not be read.
        offender: Option<String>,
    },
}

impl FromSpecImpl<JsonError> for Error {
    open spec fn obeys_from_spec() -> bool {
        true
    }

    open spec fn from_spec(err: JsonError) -> Error {
        Error::Json(err)
    }
}

impl From<JsonError> for Error {
    /// An error of the JSON parser is an `Error::Json`.
    fn from(err: JsonError) -> (error: Error) {
        Error::Json(err)
    }
}

impl FromSpecImpl<TransportError> for Error {
    open spec fn obeys_from_spec() -> bool {
        true
    }

    open spec fn from_spec(err: TransportError) -> Error {
        Error::Request(err)
    }
}

impl From<TransportError> for Error {
    /// An error of the transport is an `Error::Request`.
    fn from(err: TransportError) -> (error: Error) {
        Error::Request(err)
    }
}

impl FromSpecImpl<UrlError> for Error {
    open spec fn obeys_from_spec() -> bool {
        true
    }

    open spec fn from_spec(err: UrlError) -> Error {
        Error::Url(err)
    }
}

impl From<UrlError> for Error {
    /// An error of the URL parser is an `Error::Url`.
    fn from(err: UrlError) -> (error: Error) {
        Error::Url(err)
    }
}

/// The header that tells when a ratelimit ends. The API sends it with a
/// ratelimited response and with no other.
pub const RATELIMIT_RESET: &'static str = "x-ratelimit-reset";

/// The header that tells how many requests a minute are allowed.
pub const RATELIMIT_LIMIT: &'static str = "x-ratelimit-limit";

/// The header that tells how many requests are left in this minute.
pub const RATELIMIT_REMAINING: &'static str = "x-ratelimit-remaining";

/// An error of the API as a mathematical value.
pub struct APIErrorView {
    pub reason: Seq<char>,
    pub message: Option<Seq<char>>,
    pub err_type: Option<Seq<char>>,
    pub detail: Option<Map<Seq<char>, Json>>,
}

impl View for APIError {
    type V = APIErrorView;

    open spec fn view(&self) -> APIErrorView {
        APIErrorView {
            reason: self.reason@,
            message: text_of(self.message),
            err_type: text_of(self.err_type),
            detail: members_of(self.detail),
        }
    }
}

/// The view of an optional API error.
pub open spec fn api_error_view(error: Option<APIError>) -> Option<APIErrorView> {
    match error {
        Some(e) => Some(e@),
        None => None,
    }
}

/// What an optional JSON value holds.
pub open spec fn json_view(value: Option<JsonValue>) -> Option<Json> {
    match value {
        Some(v) => Some(json_of(v)),
        None => None,
    }
}

/// The API's error that a JSON body stands for. The body must be an object. Its
/// `reason` is a string and the empty one where it is missing; `message` and
/// `type` are strings that may be missing or `null`; `detail` is an object that
/// may be missing or `null`. Other members are passed over. A body of any other
/// shape stands for no error.
pub open spec fn api_error_of(body: Json) -> Option<APIErrorView> {
    match body {
        Json::Object(members) => {
            let reason = text_or_empty(field(members, "reason"@));
            let message = optional_text(field(members, "message"@));
            let err_type = optional_text(field(members, "type"@));
            let detail = optional_object(field(members, "detail"@));
            if reason is Some && message is Some && err_type is Some && detail is Some {
                Some(
                    APIErrorView {
                        reason: reason->0,
                        message: message->0,
                        err_type: err_type->0,
                        detail: detail->0,
                    },
                )
            } else {
                None
            }
        },
        _ => None,
    }
}

impl APIError {
    /// Reads the API's error out of a JSON body, where the body has the shape of
    /// one (see `api_error_of`).
    pub fn from_json(body: &JsonValue) -> (r: Option<APIError>)
        ensures
            api_error_view(r) == api_error_of(json_of(*body)),
    {
        let object = value_as_object(body)?;
        let reason = read_text_or_empty(object, "reason")?;
        let message = read_optional_text(object, "message")?;
        let err_type = read_optional_text(object, "type")?;
        let detail = read_optional_object(object, "detail")?;
        Some(APIError { reason, message, err_type, detail })
    }
}

impl Default for APIError {
    /// An error of the API with no reason and nothing else.
    fn default() -> (r: APIError)
        ensures
            r.reason@ == Seq::<char>::empty(),
            r.message is None,
            r.err_type is None,
            r.detail is None,
    {
        APIError { reason: String::new(), message: None, err_type: None, detail: None }
    }
}

/// An error of the library as a mathematical value.
pub enum ErrorView {
    Json(JsonError),
    Url(UrlError),
    Authorization(InvalidHeaderValue),
    Request(TransportError),
    Ratelimited {
        limit: Option<usize>,
        remaining: Option<usize>,
        time_until_reset: Option<Seq<char>>,
    },
    Status(StatusCode, Option<APIErrorView>, Option<Json>),
    FetchFrom(Seq<char>),
    ParseTimeLike { reason: Seq<char>, offender: Option<Seq<char>> },
}

impl View for Error {
    type V = ErrorView;

    open spec fn view(&self) -> ErrorView {
        match self {
            Error::Json(e) => ErrorView::Json(*e),
            Error::Url(e) => ErrorView::Url(*e),
            Error::Authorization(e) => ErrorView::Authorization(*e),
            Error::Request(e) => ErrorView::Request(*e),
            Error::Ratelimited { limit, remaining, time_until_reset } => ErrorView::Ratelimited {
                limit: *limit,
                remaining: *remaining,
                time_until_reset: text_of(*time_until_reset),
            },
            Error::Status(status, api_error, body) => ErrorView::Status(
                *status,
                api_error_view(*api_error),
                json_view(*body),
            ),
            Error::FetchFrom(text) => ErrorView::FetchFrom(text@),
            Error::ParseTimeLike { reason, offender } => ErrorView::ParseTimeLike {
                reason: reason@,
                offender: text_of(*offender),
            },
        }
    }
}

impl ErrorView {
    /// What a ratelimit error says of the limit, where it knows one.
    pub open spec fn limit_part(limit: Option<usize>) -> Seq<char> {
        match limit {
            Some(n) => " Limit of "@ + decimal(n as nat) + " requests/min."@,
            None => Seq::empty(),
        }
    }

    /// What a ratelimit error says of the time of the reset, where it knows one.
    pub open spec fn reset_part(time_until_reset: Option<Seq<char>>) -> Seq<char> {
        match time_until_reset {
            Some(time) => " Resets at timestamp "@ + time + "."@,
            None => Seq::empty(),
        }
    }

    /// The description of an error in words. An error that an outside library
    /// made is described by that library's message; a status error by the reason
    /// phrase of its code, where the code has one.
    pub open spec fn description(self) -> Seq<char> {
        match self {
            ErrorView::Json(e) => json_error_text(e),
            ErrorView::Authorization(_) =>
                "Auth key was provided in an invalid format for a header."@,
            ErrorView::Url(_) => "Invalid URL was given/built."@,
            ErrorView::Ratelimited { limit, remaining, time_until_reset } => {
                let mark = if limit is None && time_until_reset is None {
                    "."@
                } else {
                    ":"@
                };
                "Ratelimited"@ + mark + Self::limit_part(limit) + Self::reset_part(time_until_reset)
            },
            ErrorView::Request(e) => transport_error_text(e),
            ErrorView::Status(status, _, _) => match canonical_reason_phrase(status.0) {
                Some(phrase) => phrase,
                None => "Unknown HTTP status code error received"@,
            },
            ErrorView::FetchFrom(text) => text,
            ErrorView::ParseTimeLike { reason, offender } => reason,
        }
    }
}

/// The first value of a header as text: there is none where the header is
/// missing, and none where the value holds a byte that is neither a tab nor a
/// printable ASCII character.
pub open spec fn header_text(headers: Map<Seq<char>, Seq<Seq<u8>>>, name: Seq<char>) -> Option<
    Seq<char>,
> {
    if headers.contains_key(name) && is_visible_text(headers[name][0]) {
        Some(decode_utf8(headers[name][0]))
    } else {
        None
    }
}

/// The first value of a header as a number: there is none where the header has
/// no text, and none where the text is not an unsigned number that fits `usize`.
pub open spec fn header_number(headers: Map<Seq<char>, Seq<Seq<u8>>>, name: Seq<char>) -> Option<
    usize,
> {
    match header_text(headers, name) {
        Some(text) => match parse_unsigned(text, usize::MAX as nat) {
            Some(n) => Some(n as usize),
            None => None,
        },
        None => None,
    }
}

/// The error that a failed response stands for. Where the reset header has a
/// text, it is a ratelimit, whatever the status code: the text is the time of the
/// reset, and the limit and what remains are the numbers of their headers, where
/// they hold numbers. Else it is a status error with the response's code, the
/// body as JSON where there is one, and the API's error where the body has the
/// shape of one.
pub open spec fn classify(
    status: StatusCode,
    headers: Map<Seq<char>, Seq<Seq<u8>>>,
    body: Option<Json>,
) -> ErrorView {
    match header_text(headers, RATELIMIT_RESET@) {
        Some(reset) => ErrorView::Ratelimited {
            limit: header_number(headers, RATELIMIT_LIMIT@),
            remaining: header_number(headers, RATELIMIT_REMAINING@),
            time_until_reset: Some(reset),
        },
        None => ErrorView::Status(
            status,
            match body {
                Some(json) => api_error_of(json),
                None => None,
            },
            body,
        ),
    }
}

/// The reset header alone decides between the two kinds of error. Where it has
/// a text, the response is a ratelimit with that text for the time of the reset,
/// whatever the status code and the body are, a code of success included. Where
/// it has none, the response is a status error with its own code, whatever else
/// its headers hold.
pub proof fn ratelimit_takes_precedence(
    status: StatusCode,
    headers: Map<Seq<char>, Seq<Seq<u8>>>,
    body: Option<Json>,
)
    ensures
        header_text(headers, RATELIMIT_RESET@) is Some ==> {
            &&& classify(status, headers, body) is Ratelimited
            &&& classify(status, headers, body)->time_until_reset == header_text(
                headers,
                RATELIMIT_RESET@,
            )
        },
        header_text(headers, RATELIMIT_RESET@) is None ==> {
            &&& classify(status, headers, body) is Status
            &&& classify(status, headers, body)->Status_0 == status
            &&& classify(status, headers, body)->Status_2 == body
        },
        classify(StatusCode(200), headers, body) is Ratelimited <==> header_text(
            headers,
            RATELIMIT_RESET@,
        ) is Some,
{
}

/// The body of a response as JSON: the value that was read before, where one is
/// handed in, else what the bytes of the body hold, which may be no JSON.
pub open spec fn body_json(value: Option<JsonValue>, body: Seq<u8>) -> Option<Json> {
    match value {
        Some(v) => Some(json_of(v)),
        None => parsed_json(body),
    }
}

proof fn lemma_ratelimit_header_names()
    ensures
        is_header_name(RATELIMIT_RESET@),
        is_header_name(RATELIMIT_LIMIT@),
        is_header_name(RATELIMIT_REMAINING@),
{
    reveal_strlit("x-ratelimit-reset");
    reveal_strlit("x-ratelimit-limit");
    reveal_strlit("x-ratelimit-remaining");
}

fn read_header_text<'a>(headers: &'a HeaderMap<HeaderValue>, name: &str) -> (r: Option<&'a str>)
    requires
        is_header_name(name@),
    ensures
        match r {
            Some(text) => header_text(header_values(*headers), name@) == Some(text@),
            None => header_text(header_values(*headers), name@) is None,
        },
{
    match get_header(headers, name) {
        Some(value) => {
            let text = header_value_to_str(value);
            proof {
                if let Some(t) = text {
                    encode_utf8_decode_utf8(t@);
                }
            }
            text
        },
        None => None,
    }
}

fn read_header_number(headers: &HeaderMap<HeaderValue>, name: &str) -> (r: Option<usize>)
    requires
        is_header_name(name@),
    ensures
        r == header_number(header_values(*headers), name@),
{
    match read_header_text(headers, name) {
        Some(text) => parse_usize(text),
        None => None,
    }
}

impl Error {
    /// Describes the error in words, for a log or a message to the user.
    pub fn description(&self) -> (text: String)
        ensures
            text@ == self@.description(),
    {
        match self {
            Error::Json(e) => json_error_message(e),
            Error::Authorization(_) => String::from_str(
                "Auth key was provided in an invalid format for a header.",
            ),
            Error::Url(_) => String::from_str("Invalid URL was given/built."),
            Error::Ratelimited { limit, remaining, time_until_reset } => {
                let mut text = String::from_str("Ratelimited");
                if limit.is_none() && time_until_reset.is_none() {
                    text.append(".");
                } else {
                    text.append(":");
                }
                let ghost head = text@;
                match limit {
                    Some(n) => {
                        let number = decimal_string(*n);
                        text.append(" Limit of ");
                        text.append(number.as_str());
                        text.append(" requests/min.");
                        assert(text@ =~= head + ErrorView::limit_part(*limit));
                    },
                    None => {
                        assert(text@ =~= head + ErrorView::limit_part(*limit));
                    },
                }
                let ghost middle = text@;
                match time_until_reset {
                    Some(time) => {
                        text.append(" Resets at timestamp ");
                        text.append(time.as_str());
                        text.append(".");
                        assert(text@ =~= middle + ErrorView::reset_part(
                            text_of(*time_until_reset),
                        ));
                    },
                    None => {
                        assert(text@ =~= middle + ErrorView::reset_part(
                            text_of(*time_until_reset),
                        ));
                    },
                }
                text
            },
            Error::Request(e) => transport_error_message(e),
            Error::Status(status, _, _) => match status.canonical_reason() {
                Some(phrase) => String::from_str(phrase),
                None => String::from_str("Unknown HTTP status code error received"),
            },
            Error::FetchFrom(text) => text.clone(),
            Error::ParseTimeLike { reason, offender } => reason.clone(),
        }
    }

    /// Obtains an `Error` from a failed response, as `classify` describes it.
    /// Where the body was read as JSON before, hand the value in; else the body
    /// is read here.
    pub fn from_response(response: Response, value: Option<JsonValue>) -> (error: Error)
        ensures
            error@ == classify(
                response.status,
                header_values(response.headers),
                body_json(value, response.body@),
            ),
    {
        proof {
            lemma_ratelimit_header_names();
        }
        let value: Option<JsonValue> = match value {
            Some(v) => Some(v),
            None => match value_from_slice(response.body.as_slice()) {
                Ok(v) => Some(v),
                Err(_) => None,
            },
        };
        match read_header_text(&response.headers, RATELIMIT_RESET) {
            Some(reset) => {
                return Error::Ratelimited {
                    limit: read_header_number(&response.headers, RATELIMIT_LIMIT),
                    remaining: read_header_number(&response.headers, RATELIMIT_REMAINING),
                    time_until_reset: Some(String::from_str(reset)),
                };
            },
            None => {},
        }
        let api_error: Option<APIError> = match &value {
            Some(body) => APIError::from_json(body),
            None => None,
        };
        Error::Status(response.status, api_error, value)
    }
}

} // verus!
