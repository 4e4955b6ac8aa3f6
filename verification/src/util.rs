//! Tags, as the API wants them written in a URL path, and the two halves of a
//! fetch: the request for a route, and the reading of the response to it.

use vstd::prelude::*;
use crate::error::{Error, classify};
use crate::http::client::Client;
use crate::http::headers::header_values;
use crate::http::request::HttpRequest;
use crate::http::response::Response;
use crate::http::routes::Route;
use crate::json::{Json, custom_json_error, parsed_json, value_from_slice};
use crate::serde::FromJson;
use crate::text::chars_of;

verus! {

/// The hash sign in percent-encoded form.
pub open spec fn encoded_marker() -> Seq<char> {
    seq!['%', '2', '3']
}

/// Whether a tag begins with the hash sign.
pub open spec fn has_marker(tag: Seq<char>) -> bool {
    tag.len() > 0 && tag[0] == '#'
}

/// A tag made ready for a URL path. A leading hash sign is replaced by its
/// percent-encoded form and the rest is kept as it is. A tag without one gets the
/// encoded sign put in front where `auto_insert` is set, and is left alone where
/// it is not.
pub open spec fn encoded_tag(tag: Seq<char>, auto_insert: bool) -> Seq<char> {
    if has_marker(tag) {
        encoded_marker() + tag.subrange(1, tag.len() as int)
    } else if auto_insert {
        encoded_marker() + tag
    } else {
        tag
    }
}

/// Encodes a tag for a URL path, adding the hash sign to a tag that lacks it only
/// where `auto_insert` is set.
pub fn encode_tag(tag: &str, auto_insert: bool) -> (r: String)
    ensures
        r@ == encoded_tag(tag@, auto_insert),
{
    proof {
        reveal_strlit("%23");
        assert("%23"@ =~= encoded_marker());
    }
    let text = chars_of(tag);
    if text.len() > 0 && text[0] == '#' {
        let mut r = String::from_str("%23");
        r.append(tag.substring_char(1, text.len()));
        r
    } else if auto_insert {
        let mut r = String::from_str("%23");
        r.append(tag);
        r
    } else {
        String::from_str(tag)
    }
}

/// Encodes a tag for a URL path, adding the hash sign to a tag that lacks it.
pub fn auto_hashtag(tag: &str) -> (r: String)
    ensures
        r@ == encoded_tag(tag@, true),
{
    encode_tag(tag, true)
}

/// Encoding a tag that begins with the hash sign swaps that one sign for `%23`
/// and changes nothing else, whatever the flag; a tag that does not begin with it
/// gets `%23` in front under the flag and comes back unchanged without it.
pub proof fn tag_encoding(tag: Seq<char>, auto_insert: bool)
    ensures
        has_marker(tag) ==> {
            &&& encoded_tag(tag, auto_insert).take(3) == encoded_marker()
            &&& encoded_tag(tag, auto_insert).skip(3) == tag.skip(1)
        },
        !has_marker(tag) && auto_insert ==> {
            &&& encoded_tag(tag, auto_insert).take(3) == encoded_marker()
            &&& encoded_tag(tag, auto_insert).skip(3) == tag
        },
        !has_marker(tag) && !auto_insert ==> encoded_tag(tag, auto_insert) == tag,
{
    let e = encoded_tag(tag, auto_insert);
    if has_marker(tag) {
        assert(e.take(3) =~= encoded_marker());
        assert(e.skip(3) =~= tag.skip(1));
    } else if auto_insert {
        assert(e.take(3) =~= encoded_marker());
        assert(e.skip(3) =~= tag);
    }
}

/// Whether `r` is what a response reads as, for a model that reads from the
/// JSON values that `ok` accepts, as `holds` says. A response with a status of
/// success reads as the model that its body holds, and as `Error::Json` where
/// the body is no JSON or JSON of another shape. Any other response reads as the
/// error that `classify` makes of it.
pub open spec fn reads_with<T>(
    response: Response,
    r: Result<T, Error>,
    ok: spec_fn(Json) -> bool,
    holds: spec_fn(T, Json) -> bool,
) -> bool {
    if response.status.spec_is_success() {
        match parsed_json(response.body@) {
            Some(json) => if ok(json) {
                r matches Ok(v) && holds(v, json)
            } else {
                r matches Err(Error::Json(_))
            },
            None => r matches Err(Error::Json(_)),
        }
    } else {
        r matches Err(e) && e@ == classify(
            response.status,
            header_values(response.headers),
            parsed_json(response.body@),
        )
    }
}

/// Whether `r` is what a response reads as, for a model `T` that reads from
/// JSON by itself (see `reads_with`).
pub open spec fn reads_as<T: FromJson>(response: Response, r: Result<T, Error>) -> bool {
    reads_with(response, r, |json: Json| T::json_ok(json), |v: T, json: Json| v.json_matches(json))
}

/// The request that fetches what lies at a route: a GET request to the URL of
/// the route, with the client's key.
pub fn fetch_request(client: &Client, route: &Route) -> (r: Result<HttpRequest, Error>)
    ensures
        client.asks_for(route@.url(), r),
{
    let url = route.to_url_str();
    client.build_endpoint_get(url.as_str())
}

/// Reads the response to the request for a route into the model that lies
/// there, or into the error that the response stands for.
pub fn fetch_route<T: FromJson>(response: Response) -> (r: Result<T, Error>)
    ensures
        reads_as(response, r),
{
    if response.status.is_success() {
        match value_from_slice(response.body.as_slice()) {
            Ok(value) => match T::from_json(&value) {
                Some(model) => Ok(model),
                None => Err(
                    Error::Json(custom_json_error("the body has another shape than the model")),
                ),
            },
            Err(e) => Err(Error::Json(e)),
        }
    } else {
        Err(Error::from_response(response, None))
    }
}

} // verus!
