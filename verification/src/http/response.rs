//! What the library reads of an HTTP response: the status code with which the
//! API answered, the headers it sent and the bytes of the body.

use vstd::prelude::*;
use reqwest::header::{HeaderMap, HeaderValue};

verus! {

/// The status code of an HTTP response.
#[derive(Debug, Clone, Copy, PartialEq, Eq, Hash, Structural)]
pub struct StatusCode(pub u16);

/// The reason phrase that goes with a status code by convention, such as
/// `Not Found` with 404, for the codes that have one.
pub uninterp spec fn canonical_reason_phrase(code: u16) -> Option<Seq<char>>;

/// `StatusCode::canonical_reason` of `reqwest`, on the status code that
/// `StatusCode::from_u16` makes of the number: the phrase that goes with the
/// code, where it has one and the number is a status code at all.
#[verifier::external_body]
fn reason_phrase(code: u16) -> (r: Option<&'static str>)
    ensures
        match r {
            Some(phrase) => canonical_reason_phrase(code) == Some(phrase@),
            None => canonical_reason_phrase(code) is None,
        },
{
    reqwest::StatusCode::from_u16(code).ok().and_then(|status| status.canonical_reason())
}

impl StatusCode {
    /// Whether the code stands for success: the codes from 200 to 299.
    pub open spec fn spec_is_success(self) -> bool {
        200 <= self.0 < 300
    }

    /// The code as a number.
    pub fn as_u16(&self) -> (code: u16)
        ensures
            code == self.0,
    {
        self.0
    }

    /// Whether the API answered with success (a code from 200 to 299).
    pub fn is_success(&self) -> (r: bool)
        ensures
            r == self.spec_is_success(),
    {
        200 <= self.0 && self.0 < 300
    }

    /// The reason phrase that goes with this code, where it has one.
    pub fn canonical_reason(&self) -> (r: Option<&'static str>)
        ensures
            match r {
                Some(phrase) => canonical_reason_phrase(self.0) == Some(phrase@),
                None => canonical_reason_phrase(self.0) is None,
            },
    {
        reason_phrase(self.0)
    }
}

/// An HTTP response, once it has been read in full.
#[derive(Debug)]
pub struct Response {
    /// The status code of the response.
    pub status: StatusCode,
    /// The headers of the response.
    pub headers: HeaderMap<HeaderValue>,
    /// The bytes of the body.
    pub body: Vec<u8>,
}

} // verus!
