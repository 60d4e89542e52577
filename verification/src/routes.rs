//! The route table and its dispatch logic.
//!
//! The service registers exactly one route, `GET /`, answered by the
//! health-check handler with the constant greeting. Every other request
//! falls through to the not-found response. The functions here model that
//! decision and are verified against it; the network-facing dispatcher in
//! [`crate::router`] registers the same single route.

use vstd::prelude::*;
use vstd::string::StringSliceAdditionalSpecFns;
use vstd::utf8::encode_utf8;
use vstd::utf8::encode_utf8_decode_utf8;
use vstd::utf8::is_ascii_chars;
use vstd::utf8::is_ascii_chars_encode_utf8;

use crate::AppState;

verus! {

/// An HTTP request method.
#[derive(Clone, Copy, Debug, PartialEq, Eq, Structural)]
pub enum Method {
    Get,
    Head,
    Post,
    Put,
    Delete,
    Connect,
    Options,
    Trace,
    Patch,
}

/// An HTTP response, reduced to what this service ever produces: a status
/// code and a constant body.
#[derive(Debug)]
pub struct Response {
    pub status: u16,
    pub body: &'static str,
}

/// The greeting returned by the health-check route.
pub open spec fn health_body() -> Seq<char> {
    "Hello, World!"@
}

/// The route table has exactly one entry: `GET /`.
pub open spec fn routes_to_health(method: Method, path: Seq<char>) -> bool {
    method is Get && path == "/"@
}

/// The status of the response to a request: 200 on the one registered
/// route, 404 everywhere else.
pub open spec fn response_status(method: Method, path: Seq<char>) -> int {
    if routes_to_health(method, path) {
        200
    } else {
        404
    }
}

/// The body of the response to a request: the greeting on the one
/// registered route, empty everywhere else.
pub open spec fn response_body(method: Method, path: Seq<char>) -> Seq<char> {
    if routes_to_health(method, path) {
        health_body()
    } else {
        Seq::empty()
    }
}

/// The response that the service owes to a request. The request's method
/// and path determine it completely; no state enters.
pub open spec fn response_to(method: Method, path: Seq<char>, r: Response) -> bool {
    &&& r.status == response_status(method, path)
    &&& r.body@ == response_body(method, path)
}

/// The health-check handler: answers every correctly routed request with
/// the constant greeting, independent of request content, time, or state.
pub fn health_check() -> (r: &'static str)
    ensures
        r@ == health_body(),
{
    "Hello, World!"
}

/// Decides whether a request path is the root path `/`, by comparing the
/// path's UTF-8 bytes against the single byte of `/`.
pub fn is_root_path(path: &str) -> (b: bool)
    ensures
        b == (path@ == "/"@),
{
    let bytes = path.as_bytes();
    let root = bytes.len() == 1 && bytes[0] == 47;
    proof {
        reveal_strlit("/");
        assert(is_ascii_chars("/"@));
        is_ascii_chars_encode_utf8("/"@);
        assert(encode_utf8("/"@) =~= seq![47u8]);
        assert(bytes@ == encode_utf8(path@));
        if root {
            assert(encode_utf8(path@) =~= encode_utf8("/"@));
            encode_utf8_decode_utf8(path@);
            encode_utf8_decode_utf8("/"@);
            assert(path@ == "/"@);
        } else {
            assert(path@ != "/"@);
        }
    }
    root
}

/// Dispatches one request against the route table: `GET /` reaches the
/// health-check handler and gets status 200 with the greeting; any other
/// method or path gets the not-found response, whose status is never 200.
///
/// The state handle is what the dispatcher was bound to; the response does
/// not depend on it, as the contract shows.
pub fn dispatch(_state: &AppState, method: Method, path: &str) -> (r: Response)
    ensures
        response_to(method, path@, r),
        r.status == 200 <==> routes_to_health(method, path@),
{
    if matches!(method, Method::Get) && is_root_path(path) {
        Response { status: 200, body: health_check() }
    } else {
        let r = Response { status: 404, body: "" };
        proof {
            reveal_strlit("");
            assert(r.body@ =~= Seq::<char>::empty());
        }
        r
    }
}

/// Requests are served statelessly and deterministically: any two responses
/// to the same method and path — whether issued one after the other or
/// concurrently, and whatever state each dispatcher was bound to — are
/// identical, status and body alike.
pub proof fn lemma_responses_identical(method: Method, path: Seq<char>, r1: Response, r2: Response)
    requires
        response_to(method, path, r1),
        response_to(method, path, r2),
    ensures
        r1.status == r2.status,
        r1.body@ == r2.body@,
{
}

} // verus!
