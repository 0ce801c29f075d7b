use vstd::prelude::*;

verus! {

use crate::ascii::{ascii_bytes, str_bytes};
use crate::enrollment_code::{EnrollmentCode, CODE_LIFETIME_SECS};
use crate::json::{code_expires_body_bytes, spec_code_expires_body};
use crate::net::headers::headers_view;
use crate::net::response::Response;
use crate::net::status::Status;

/// Handle `POST /begin_enroll` on the privileged local channel at time
/// `now`: mint a code that expires 30 minutes later, and answer 200 with the
/// code and its expiry as JSON.  The caller feeds the returned code to the
/// buffer and writes the response back on the local socket.
pub fn handle_begin_enroll(now: i64) -> (r: (Response, EnrollmentCode))
    requires
        0 <= now <= i64::MAX - CODE_LIFETIME_SECS,
    ensures
        r.1.wf(),
        r.1.expires == now + CODE_LIFETIME_SECS,
        r.0.status == Status::Okay,
        r.0.body@ == spec_code_expires_body(r.1.code, r.1.expires),
        headers_view(r.0.headers@) == seq![
            (ascii_bytes("Content-Type"@), ascii_bytes("application/json"@)),
        ],
        r.0.wf(),
{
    proof {
        reveal_strlit("Content-Type");
        reveal_strlit("application/json");
        assert(vstd::string::is_ascii("Content-Type"));
        assert(vstd::string::is_ascii("application/json"));
    }
    let code = EnrollmentCode::new(now);
    let body = code_expires_body_bytes(code.code(), code.expires());
    let mut response = Response::new(Status::Okay);
    let _ = response.add_header(str_bytes("Content-Type"), str_bytes("application/json"));
    let _ = response.append_body(body.as_slice());
    proof {
        assert(headers_view(response.headers@) =~= seq![
            (ascii_bytes("Content-Type"@), ascii_bytes("application/json"@)),
        ]);
    }
    (response, code)
}

} // verus!
