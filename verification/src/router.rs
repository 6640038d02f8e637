//! The request router: maps (method, path, body) to a response and mutates
//! the counter store where the route calls for it.
//!
//! Routes:
//! - `GET /` is delegated to the static-content collaborator.
//! - `GET /getcount` answers 200 with the counter as JSON.
//! - `POST /addcount` parses `{"value": D}` from the body, adds D and answers
//!   200 with the new value as JSON. A body that does not parse as such an
//!   object is rejected with 400 and the counter is left unchanged; this
//!   includes an empty or missing body (the policy here is to reject rather
//!   than apply a default delta). A delta that would take the value outside
//!   the signed 32-bit range is likewise rejected with 400 and no mutation.
//! - `POST /resetcount` sets the counter to zero and answers 200 with JSON.
//! - Anything else answers 404 with a plain-text body.

use vstd::prelude::*;
use vstd::string::StrSliceExecFns;

use crate::counter::Counter;
use crate::counter::spec_add;
use crate::counter::spec_read;
use crate::counter::spec_reset;
use crate::json::json_count;
use crate::json::json_value_field;
use crate::json::encode_count;
use crate::json::parse_value_field;

verus! {

/// The HTTP method of a request, as far as the router distinguishes them.
#[derive(Clone, Copy, Debug, PartialEq, Eq, Structural)]
pub enum HttpMethod {
    Get,
    Post,
    Other,
}

/// The content type of a response body.
#[derive(Clone, Copy, Debug, PartialEq, Eq, Structural)]
pub enum ContentType {
    Json,
    PlainText,
}

/// A response built by the router: a status code, a content type and a body.
#[derive(Debug)]
pub struct HttpResponse {
    pub status: u16,
    pub content_type: ContentType,
    pub body: String,
}

/// What the router answers: a response of its own, or the instruction to
/// serve the static landing page, which is outside the router's scope.
#[derive(Debug)]
pub enum RouteReply {
    Payload(HttpResponse),
    StaticPage,
}

/// The mathematical model of a response.
#[verifier::ext_equal]
pub struct RespModel {
    pub status: int,
    pub content_type: ContentType,
    pub body: Seq<char>,
}

/// The mathematical model of a router answer.
#[verifier::ext_equal]
pub enum ReplyModel {
    PayloadModel(RespModel),
    StaticPageModel,
}

impl View for HttpResponse {
    type V = RespModel;

    open spec fn view(&self) -> RespModel {
        RespModel { status: self.status as int, content_type: self.content_type, body: self.body@ }
    }
}

impl View for RouteReply {
    type V = ReplyModel;

    open spec fn view(&self) -> ReplyModel {
        match self {
            RouteReply::Payload(resp) => ReplyModel::PayloadModel(resp@),
            RouteReply::StaticPage => ReplyModel::StaticPageModel,
        }
    }
}

/// A 200 response carrying JSON.
pub open spec fn ok_json(body: Seq<char>) -> RespModel {
    RespModel { status: 200, content_type: ContentType::Json, body }
}

/// The 400 response to a body that is not a JSON object with an integer
/// member "value" in range of the counter's type.
pub open spec fn bad_request_invalid() -> RespModel {
    RespModel { status: 400, content_type: ContentType::PlainText, body: "Bad Request (Invalid JSON)"@ }
}

/// The 400 response to a delta that would take the counter outside the
/// signed 32-bit range.
pub open spec fn bad_request_range() -> RespModel {
    RespModel { status: 400, content_type: ContentType::PlainText, body: "Bad Request (value out of range)"@ }
}

/// The 404 response to any unmatched (method, path) pair.
pub open spec fn not_found() -> RespModel {
    RespModel { status: 404, content_type: ContentType::PlainText, body: "Not Found"@ }
}

/// The response to an add request whose body parsed to `parsed`, and the
/// counter value after it, starting from `c0`: the new value as JSON when the
/// delta exists and both it and the new value fit the counter's type, and a
/// 400 with the counter unchanged otherwise.
pub open spec fn spec_add_result(c0: int, parsed: Option<i64>) -> (RespModel, int) {
    match parsed {
        Option::Some(d) => {
            if !(i32::MIN <= d <= i32::MAX) {
                (bad_request_invalid(), c0)
            } else if !(i32::MIN <= spec_add(c0, d as int) <= i32::MAX) {
                (bad_request_range(), c0)
            } else {
                (ok_json(json_count(spec_add(c0, d as int))), spec_add(c0, d as int))
            }
        },
        Option::None => (bad_request_invalid(), c0),
    }
}

/// The router's answer to a request, and the counter value after it:
/// `m` and `path` are the request line, `parsed` is what the body yields as
/// `{"value": D}`, and `c0` is the counter value when the request arrives.
pub open spec fn spec_route(m: HttpMethod, path: Seq<char>, parsed: Option<i64>, c0: int) -> (ReplyModel, int) {
    if m == HttpMethod::Get && path == "/"@ {
        (ReplyModel::StaticPageModel, c0)
    } else if m == HttpMethod::Get && path == "/getcount"@ {
        (ReplyModel::PayloadModel(ok_json(json_count(spec_read(c0)))), c0)
    } else if m == HttpMethod::Post && path == "/addcount"@ {
        let (resp, c1) = spec_add_result(c0, parsed);
        (ReplyModel::PayloadModel(resp), c1)
    } else if m == HttpMethod::Post && path == "/resetcount"@ {
        (ReplyModel::PayloadModel(ok_json(json_count(spec_reset(c0)))), spec_reset(c0))
    } else {
        (ReplyModel::PayloadModel(not_found()), c0)
    }
}

/// Character-for-character equality of two strings.
pub fn str_eq(a: &str, b: &str) -> (r: bool)
    ensures
        r == (a@ == b@),
{
    let alen = a.unicode_len();
    let blen = b.unicode_len();
    if alen != blen {
        return false;
    }
    let mut i: usize = 0;
    while i < alen
        invariant
            alen == a@.len(),
            alen == b@.len(),
            i <= alen,
            forall|j: int| 0 <= j < i ==> a@[j] == b@[j],
        decreases alen - i,
    {
        if a.get_char(i) != b.get_char(i) {
            return false;
        }
        i = i + 1;
    }
    proof {
        assert(a@ =~= b@);
    }
    true
}

/// Applies an add request whose body parsed to `parsed` to the counter,
/// and builds the response.
pub fn apply_add(counter: &mut Counter, parsed: Option<i64>) -> (r: HttpResponse)
    ensures
        (r@, final(counter)@) == spec_add_result(old(counter)@, parsed),
{
    match parsed {
        Option::Some(d) => {
            if d < i32::MIN as i64 || d > i32::MAX as i64 {
                bad_request_invalid_response()
            } else {
                let delta: i32 = d as i32;
                let current = counter.read();
                let overflow = if delta >= 0 {
                    current > i32::MAX - delta
                } else {
                    current < i32::MIN - delta
                };
                if overflow {
                    bad_request_range_response()
                } else {
                    let updated = counter.add(delta);
                    HttpResponse {
                        status: 200,
                        content_type: ContentType::Json,
                        body: encode_count(updated),
                    }
                }
            }
        },
        Option::None => bad_request_invalid_response(),
    }
}

/// Routes one request: dispatches on the method and path, parses the body
/// where the route calls for it, mutates the counter where the route calls
/// for it, and builds the reply.
pub fn route(method: HttpMethod, path: &str, body: &[u8], counter: &mut Counter) -> (r: RouteReply)
    ensures
        (r@, final(counter)@) == spec_route(method, path@, json_value_field(body@), old(counter)@),
{
    proof {
        reveal_strlit("/");
        reveal_strlit("/getcount");
        reveal_strlit("/addcount");
        reveal_strlit("/resetcount");
    }
    if method == HttpMethod::Get && str_eq(path, "/") {
        RouteReply::StaticPage
    } else if method == HttpMethod::Get && str_eq(path, "/getcount") {
        let current = counter.read();
        RouteReply::Payload(HttpResponse {
            status: 200,
            content_type: ContentType::Json,
            body: encode_count(current),
        })
    } else if method == HttpMethod::Post && str_eq(path, "/addcount") {
        let parsed = parse_value_field(body);
        RouteReply::Payload(apply_add(counter, parsed))
    } else if method == HttpMethod::Post && str_eq(path, "/resetcount") {
        let zeroed = counter.reset();
        RouteReply::Payload(HttpResponse {
            status: 200,
            content_type: ContentType::Json,
            body: encode_count(zeroed),
        })
    } else {
        RouteReply::Payload(not_found_response())
    }
}

/// The 400 response to a body without a usable `{"value": D}`.
fn bad_request_invalid_response() -> (r: HttpResponse)
    ensures
        r@ == bad_request_invalid(),
{
    HttpResponse {
        status: 400,
        content_type: ContentType::PlainText,
        body: "Bad Request (Invalid JSON)".to_owned(),
    }
}

/// The 400 response to a delta whose application would overflow.
fn bad_request_range_response() -> (r: HttpResponse)
    ensures
        r@ == bad_request_range(),
{
    HttpResponse {
        status: 400,
        content_type: ContentType::PlainText,
        body: "Bad Request (value out of range)".to_owned(),
    }
}

/// The 404 response.
fn not_found_response() -> (r: HttpResponse)
    ensures
        r@ == not_found(),
{
    HttpResponse { status: 404, content_type: ContentType::PlainText, body: "Not Found".to_owned() }
}

} // verus!
