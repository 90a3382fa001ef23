//! The response model and the health-check handler.

use vstd::prelude::*;

verus! {

/// An HTTP response as this service models it: a status code and the bytes
/// of the body. The Content-Length of a response is the length of its body.
pub struct Response {
    pub status: u16,
    pub body: Vec<u8>,
}

/// The mathematical value of a [`Response`]: its status code as an integer
/// and its body as a sequence of bytes.
#[verifier::ext_equal]
pub struct ResponseView {
    pub status: int,
    pub body: Seq<u8>,
}

impl View for Response {
    type V = ResponseView;

    open spec fn view(&self) -> ResponseView {
        ResponseView { status: self.status as int, body: self.body@ }
    }
}

impl Response {
    /// A response is well formed when its status is a legal HTTP status code.
    pub open spec fn wf(&self) -> bool {
        100 <= self@.status < 600
    }

    /// The number of bytes in the body: the value a Content-Length header
    /// would carry for this response.
    pub fn content_length(&self) -> (n: usize)
        ensures
            n == self@.body.len(),
    {
        self.body.len()
    }
}

/// The one response the health-check endpoint ever gives: status 200 with an
/// empty body, so its Content-Length is 0.
pub open spec fn health_check_view() -> ResponseView {
    ResponseView { status: 200, body: Seq::empty() }
}

/// The health-check handler. It reads nothing from the request, has no side
/// effects and no failure modes: every call returns status 200 with an empty
/// body.
pub fn health_check() -> (r: Response)
    ensures
        r@ == health_check_view(),
        r.wf(),
{
    Response { status: 200, body: Vec::new() }
}

/// Law: the health check is idempotent. Any two responses that the handler
/// can return are equal — each call independently yields status 200 and an
/// empty body, and no state connects one call to the next.
pub proof fn lemma_health_check_idempotent(r1: Response, r2: Response)
    requires
        r1@ == health_check_view(),
        r2@ == health_check_view(),
    ensures
        r1@ == r2@,
        r1@.status == 200,
        r1@.body.len() == 0,
{
}

} // verus!
