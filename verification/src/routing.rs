//! The route table and the dispatch decision.

use vstd::prelude::*;
use crate::response::Response;
use crate::response::health_check;
use crate::response::health_check_view;
use crate::strutil::str_eq;

verus! {

/// A request method. The named variants are the methods of HTTP/1.1;
/// `Other` stands for any extension method.
#[derive(Clone, Copy, PartialEq, Eq, Structural, Debug)]
pub enum Method {
    Get,
    Head,
    Post,
    Put,
    Delete,
    Connect,
    Options,
    Trace,
    Patch,
    Other,
}

/// The route table of the service holds exactly one entry: a request matches
/// it when its method is GET and its path is `/health_check`.
pub open spec fn routes_to_health_check(m: Method, path: Seq<char>) -> bool {
    m is Get && path == "/health_check"@
}

/// Dispatch a request to the route table. Returns the handler's response
/// exactly when the method is GET and the path is `/health_check`; `None`
/// means no route matched, and the server falls through to its default
/// not-found behaviour.
pub fn dispatch(method: Method, path: &str) -> (r: Option<Response>)
    ensures
        r is Some <==> routes_to_health_check(method, path@),
        r matches Some(resp) ==> resp@ == health_check_view() && resp.wf(),
{
    if method == Method::Get && str_eq(path, "/health_check") {
        Some(health_check())
    } else {
        None
    }
}

} // verus!
