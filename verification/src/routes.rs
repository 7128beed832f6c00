//! The route table: which response each request receives.
//!
//! The service serves exactly two routes, `GET /` and `GET /health`, each
//! with a fixed text body. A request for any other path is answered 404;
//! a known path asked with a method other than `GET` is answered 405.
//! Every response is a pure function of the request's method and path.

use vstd::prelude::*;

verus! {

/// An HTTP request method.
#[derive(Clone, Copy, PartialEq, Eq, Structural, Debug)]
pub enum Method {
    Get,
    Head,
    Post,
    Put,
    Delete,
    Connect,
    Options,
    Trace,
    Patch,
}

/// A response: a status code and a text body.
pub struct Response {
    pub status: u16,
    pub body: String,
}

/// The greeting served at the root path.
pub open spec fn hello_text() -> Seq<char> {
    "Hello from Rust Cloud Run!"@
}

/// The body served at the health path.
pub open spec fn health_text() -> Seq<char> {
    "OK"@
}

pub open spec fn root_path() -> Seq<char> {
    "/"@
}

pub open spec fn health_path() -> Seq<char> {
    "/health"@
}

/// A path the route table knows.
pub open spec fn is_known_path(path: Seq<char>) -> bool {
    path == root_path() || path == health_path()
}

/// The status the service answers a request with.
pub open spec fn spec_status(m: Method, path: Seq<char>) -> int {
    if !is_known_path(path) {
        404
    } else if m is Get {
        200
    } else {
        405
    }
}

/// The body the service answers a request with.
pub open spec fn spec_body(m: Method, path: Seq<char>) -> Seq<char> {
    if m is Get && path == root_path() {
        hello_text()
    } else if m is Get && path == health_path() {
        health_text()
    } else {
        Seq::empty()
    }
}

/// The handler for `GET /`.
pub fn hello() -> (r: &'static str)
    ensures
        r@ == hello_text(),
{
    "Hello from Rust Cloud Run!"
}

/// The handler for `GET /health`.
pub fn health() -> (r: &'static str)
    ensures
        r@ == health_text(),
{
    "OK"
}

/// Character-for-character string equality.
pub fn str_eq(a: &str, b: &str) -> (r: bool)
    ensures
        r == (a@ == b@),
{
    let alen = a.unicode_len();
    let blen = b.unicode_len();
    if alen != blen {
        return false;
    }
    let mut i: usize = 0;
    while i < alen
        invariant
            alen == a@.len(),
            alen == b@.len(),
            0 <= i <= alen,
            forall|j: int| 0 <= j < i ==> a@[j] == b@[j],
        decreases alen - i,
    {
        if a.get_char(i) != b.get_char(i) {
            return false;
        }
        i = i + 1;
    }
    proof {
        assert(a@ =~= b@);
    }
    true
}

/// Dispatch one request: the response is a function of the method and the
/// path alone.
pub fn route(m: Method, path: &str) -> (r: Response)
    ensures
        r.status as int == spec_status(m, path@),
        r.body@ == spec_body(m, path@),
{
    let is_root = str_eq(path, "/");
    let is_health = str_eq(path, "/health");
    if !is_root && !is_health {
        Response { status: 404, body: String::new() }
    } else {
        match m {
            Method::Get => {
                if is_root {
                    Response { status: 200, body: hello().to_owned() }
                } else {
                    Response { status: 200, body: health().to_owned() }
                }
            },
            _ => Response { status: 405, body: String::new() },
        }
    }
}

/// `GET` on the root path is always answered 200 with the greeting.
pub proof fn lemma_get_root_ok(path: Seq<char>)
    requires
        path == root_path(),
    ensures
        spec_status(Method::Get, path) == 200,
        spec_body(Method::Get, path) == hello_text(),
{
}

/// `GET` on the health path is always answered 200 with the health body.
pub proof fn lemma_get_health_ok(path: Seq<char>)
    requires
        path == health_path(),
    ensures
        spec_status(Method::Get, path) == 200,
        spec_body(Method::Get, path) == health_text(),
{
    reveal_strlit("/");
    reveal_strlit("/health");
    assert(root_path().len() == 1);
    assert(health_path().len() == 7);
    assert(root_path() != health_path());
}

/// A known path asked with any method other than `GET` is answered with a
/// client error: a 4xx status, never 200.
pub proof fn lemma_unsupported_method_client_error(m: Method, path: Seq<char>)
    requires
        is_known_path(path),
        !(m is Get),
    ensures
        400 <= spec_status(m, path) < 500,
        spec_status(m, path) != 200,
{
}

/// A path the route table does not know is answered 404, whatever the
/// method.
pub proof fn lemma_unknown_path_not_found(m: Method, path: Seq<char>)
    requires
        !is_known_path(path),
    ensures
        spec_status(m, path) == 404,
{
}

/// Repeating a request yields the identical response: any two responses
/// that meet `route`'s contract for the same method and path agree in
/// status and body.
pub proof fn lemma_repeat_identical(m: Method, path: Seq<char>, r1: Response, r2: Response)
    requires
        r1.status as int == spec_status(m, path),
        r1.body@ == spec_body(m, path),
        r2.status as int == spec_status(m, path),
        r2.body@ == spec_body(m, path),
    ensures
        r1.status == r2.status,
        r1.body@ == r2.body@,
{
}

/// The responses to a whole batch of requests, answered pointwise.
pub open spec fn spec_responses(batch: Seq<(Method, Seq<char>)>) -> Seq<(int, Seq<char>)> {
    batch.map_values(|req: (Method, Seq<char>)| (spec_status(req.0, req.1), spec_body(req.0, req.1)))
}

/// Requests never interfere: the response each one receives is a function
/// of that request alone, the same in any batch, at any position, beside
/// any other requests.
pub proof fn lemma_requests_independent(
    batch1: Seq<(Method, Seq<char>)>,
    batch2: Seq<(Method, Seq<char>)>,
    i: int,
    j: int,
)
    requires
        0 <= i < batch1.len(),
        0 <= j < batch2.len(),
        batch1[i] == batch2[j],
    ensures
        spec_responses(batch1)[i] == spec_responses(batch2)[j],
{
}

} // verus!
