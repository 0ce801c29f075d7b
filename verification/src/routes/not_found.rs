use vstd::prelude::*;

verus! {

use crate::ascii::{ascii_bytes, str_bytes};
use crate::errors::Error;
use crate::net::headers::headers_view;
use crate::net::request::Request;
use crate::net::response::Response;
use crate::net::status::Status;

/// The fallthrough route: anything that matches no other route is answered
/// with a plain-text 404.
pub struct NotFound {}

impl NotFound {
    pub fn new() -> (r: NotFound) {
        NotFound {}
    }

    /// Answer 404 with `Content-Type: text/plain` and the body
    /// `404 Not Found`, whatever the request was.
    pub fn run(&mut self, _req: &Request) -> (r: Response)
        ensures
            r.status == Status::NotFound,
            headers_view(r.headers@) == seq![
                (ascii_bytes("Content-Type"@), ascii_bytes("text/plain"@)),
            ],
            r.body@ == ascii_bytes("404 Not Found"@),
            r.wf(),
    {
        proof {
            reveal_strlit("Content-Type");
            reveal_strlit("text/plain");
            reveal_strlit("404 Not Found");
            assert(vstd::string::is_ascii("Content-Type"));
            assert(vstd::string::is_ascii("text/plain"));
            assert(vstd::string::is_ascii("404 Not Found"));
        }
        let mut response = Response::new(Status::NotFound);
        let _ = response.add_header(str_bytes("Content-Type"), str_bytes("text/plain"));
        let _ = response.append_body(str_bytes("404 Not Found"));
        proof {
            assert(headers_view(response.headers@) =~= seq![
                (ascii_bytes("Content-Type"@), ascii_bytes("text/plain"@)),
            ]);
        }
        response
    }

    /// Nothing to reconcile after a 404.
    pub fn post_run(&mut self, _response: &Response) -> (r: Result<(), Error>)
        ensures
            r is Ok,
    {
        Ok(())
    }
}

} // verus!
