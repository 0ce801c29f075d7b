use vstd::prelude::*;

verus! {

use crate::ascii::{ascii_bytes, compare_bytes, str_bytes};
use crate::code_buffer::spec_find_match;
use crate::enroll_request::EnrollmentRequest;
use crate::enroll_response::EnrollmentResponse;
use crate::enrollment_code::EnrollmentCode;
use crate::json::{spec_id_body, spec_parse_enroll_body};
use crate::net::headers::headers_view;
use crate::net::method::Method;
use crate::net::request::Request;
use crate::net::response::Response;
use crate::net::status::Status;
use crate::pki::{pem_of_spki, spki_of_pem, PublicKey};
use crate::state::State;

/// A key binding for the store to persist: the minted identity and the
/// canonical PEM to write as `keys/<id hex>.pub`.
pub struct KeyRecord {
    pub id: u128,
    pub pem: Vec<u8>,
}

/// The status an enrollment completion is answered with, given the request
/// body, the buffer slots, and the time.
///   - body that is not a well-formed enrollment body, or a key over 1 KiB:
///     400;
///   - no live code with matching digits: 403;
///   - code consumed but the key does not decode as a PEM `PUBLIC KEY`: 500;
///   - otherwise: 200.
pub open spec fn spec_enroll_status(
    body: Seq<u8>,
    slots: Seq<Option<EnrollmentCode>>,
    now: i64,
) -> Status {
    match spec_parse_enroll_body(body) {
        None => Status::BadRequest,
        Some((code, pem)) => {
            if pem.len() > 1024 {
                Status::BadRequest
            } else if spec_find_match(slots, code, now, 0) is None {
                Status::Forbidden
            } else if spki_of_pem(pem) is None {
                Status::InternalServerError
            } else {
                Status::Okay
            }
        },
    }
}

/// Which buffer slot the request consumes, if any: the first live match once
/// the body has passed parsing.  Consumption is deliberately decided before
/// the key is examined, so a failed completion burns the code.
pub open spec fn spec_enroll_consumed(
    body: Seq<u8>,
    slots: Seq<Option<EnrollmentCode>>,
    now: i64,
) -> Option<int> {
    match spec_parse_enroll_body(body) {
        None => None,
        Some((code, pem)) => {
            if pem.len() > 1024 {
                None
            } else {
                spec_find_match(slots, code, now, 0)
            }
        },
    }
}

/// The `/enroll` route: consume a one-time code and bind the posted public
/// key to a fresh identity.
pub struct EnrollRoute {}

impl EnrollRoute {
    pub fn new() -> (r: EnrollRoute) {
        EnrollRoute {}
    }

    /// Whether a request selects this route: `POST /enroll`.
    pub fn match_route(req: &Request) -> (r: bool)
        ensures
            r == (req.path matches Some(p) && p@ == ascii_bytes("/enroll"@) && req.method
                == Some(Method::Post)),
    {
        proof {
            reveal_strlit("/enroll");
            assert(vstd::string::is_ascii("/enroll"));
        }
        let path_matches = match &req.path {
            Some(p) => compare_bytes(p.as_bytes(), str_bytes("/enroll")),
            None => false,
        };
        let method_matches = match &req.method {
            Some(m) => matches!(m, Method::Post),
            None => false,
        };
        path_matches && method_matches
    }

    /// Handle `POST /enroll` at time `now`.  The status is exactly
    /// [`spec_enroll_status`]; the matching code slot, if any, is cleared
    /// (one-shot consumption, kept even when the key then fails to decode);
    /// on 200 the response body carries the fresh identity as JSON and the
    /// canonical PEM is handed out for the store to persist.  The nonce
    /// ledger is never touched.
    pub fn run(&mut self, state: &mut State, req: &Request, now: i64) -> (r: (
        Response,
        Option<KeyRecord>,
    ))
        requires
            old(state).wf(),
        ensures
            final(state).wf(),
            final(state).nonce_map() == old(state).nonce_map(),
            final(state).pending_map() == old(state).pending_map(),
            r.0.wf(),
            r.0.status == spec_enroll_status(req.body@, old(state).buffer().slots(), now),
            match spec_enroll_consumed(req.body@, old(state).buffer().slots(), now) {
                Some(ix) => final(state).buffer().slots() == old(state).buffer().slots().update(
                    ix,
                    None::<EnrollmentCode>,
                ),
                None => final(state).buffer().slots() == old(state).buffer().slots(),
            },
            r.0.status == Status::Okay ==> ({
                let (code, pem) = spec_parse_enroll_body(req.body@)->Some_0;
                let der = spki_of_pem(pem)->Some_0;
                &&& (r.1 matches Some(k) && k.pem@ == pem_of_spki(der) && spki_of_pem(k.pem@)
                    == Some(der) && r.0.body@ == spec_id_body(k.id))
                &&& headers_view(r.0.headers@) == seq![
                    (ascii_bytes("Content-Type"@), ascii_bytes("application/json"@)),
                ]
            }),
            r.0.status != Status::Okay ==> r.1 is None && r.0.headers@.len() == 0
                && r.0.body@.len() == 0,
    {
        let enroll_req = match EnrollmentRequest::from_bytes(req.body.as_bytes()) {
            Ok(e) => e,
            Err(_) => {
                return (Response::new(Status::BadRequest), None);
            },
        };
        let code: u32 = *enroll_req.code();
        let buffer = state.code_buffer();
        if !buffer.verify(&code, now) {
            return (Response::new(Status::Forbidden), None);
        }
        let minted = EnrollmentResponse::new();
        let pubkey = match PublicKey::from_pem(enroll_req.pubkey_pem().as_bytes()) {
            Ok(k) => k,
            Err(_) => {
                return (Response::new(Status::InternalServerError), None);
            },
        };
        proof {
            reveal_strlit("Content-Type");
            reveal_strlit("application/json");
            assert(vstd::string::is_ascii("Content-Type"));
            assert(vstd::string::is_ascii("application/json"));
        }
        let body = minted.to_bytes();
        let mut response = Response::new(Status::Okay);
        let _ = response.add_header(str_bytes("Content-Type"), str_bytes("application/json"));
        let _ = response.append_body(body.as_slice());
        proof {
            assert(headers_view(response.headers@) =~= seq![
                (ascii_bytes("Content-Type"@), ascii_bytes("application/json"@)),
            ]);
        }
        let mut pem: Vec<u8> = Vec::new();
        pem.extend_from_slice(pubkey.pem().as_slice());
        (response, Some(KeyRecord { id: minted.id(), pem }))
    }
}

/// One-shot consumption at the route surface: when exactly one buffer slot
/// held the code a completed enrollment consumed, repeating the same request
/// against the swept-out buffer is answered 403.
pub proof fn lemma_enroll_replay_rejected(
    body: Seq<u8>,
    slots: Seq<Option<EnrollmentCode>>,
    now: i64,
    ix: int,
)
    requires
        spec_enroll_consumed(body, slots, now) == Some(ix),
        forall|j: int|
            0 <= j < slots.len() && j != ix ==> !crate::code_buffer::slot_matches(
                #[trigger] slots[j],
                spec_parse_enroll_body(body)->Some_0.0,
                now,
            ),
    ensures
        spec_enroll_status(body, slots.update(ix, None::<EnrollmentCode>), now)
            == Status::Forbidden,
{
    let (code, pem) = spec_parse_enroll_body(body)->Some_0;
    crate::code_buffer::lemma_code_one_shot(slots, code, now, ix);
}

} // verus!
