use vstd::prelude::*;

verus! {

use crate::ascii::ascii_bytes;
use crate::net::method::Method;
use crate::net::request::Request;
use crate::routes::enroll::EnrollRoute;
use crate::routes::unlock::UnlockRoute;

/// Which route a request selects.
#[derive(Clone, Copy, PartialEq, Eq, Structural, Debug)]
pub enum RouteChoice {
    Enroll,
    Unlock,
    NotFound,
}

/// Whether a request is a POST for the given path.
pub open spec fn spec_selects(req: &Request, path: Seq<u8>) -> bool {
    req.path matches Some(p) && p@ == path && req.method == Some(Method::Post)
}

/// The stateless dispatcher over the three routes plus fallthrough.
pub struct Router {}

impl Router {
    pub fn new() -> (r: Router) {
        Router {}
    }

    /// Pick the route: `POST /enroll`, `POST /unlock`, anything else falls
    /// through to the 404 route.
    pub fn route(&self, req: &Request) -> (r: RouteChoice)
        ensures
            r == (if spec_selects(req, ascii_bytes("/enroll"@)) {
                RouteChoice::Enroll
            } else if spec_selects(req, ascii_bytes("/unlock"@)) {
                RouteChoice::Unlock
            } else {
                RouteChoice::NotFound
            }),
    {
        if EnrollRoute::match_route(req) {
            RouteChoice::Enroll
        } else if UnlockRoute::match_route(req) {
            RouteChoice::Unlock
        } else {
            RouteChoice::NotFound
        }
    }
}

} // verus!
