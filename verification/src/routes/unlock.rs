use vstd::prelude::*;

verus! {

use crate::ascii::{ascii_bytes, compare_bytes, str_bytes};
use crate::errors::{Error, ErrorKind};
use crate::hex_id::{parse_id, spec_parse_id};
use crate::json::spec_parse_unlock_body;
use crate::net::headers::{headers_view, spec_find_header};
use crate::net::method::Method;
use crate::net::request::Request;
use crate::net::response::Response;
use crate::net::status::Status;
use crate::pki::{b64_of, decode_base64, sig_ok, sig_parses, spki_of_pem, PublicKey};
use crate::state::State;
use crate::unlock_request::UnlockRequestBody;

/// Longest base64-decoded signature accepted, in bytes.
pub const SIGNATURE_SIZE: usize = 1024;

/// The status an unlock request is answered with, given the request, the key
/// the store holds for the named identity (`None` when there is no key
/// file), the ledger state, and the identity's on-disk nonce (`stored`).
///   - body that is not a well-formed unlock body, missing signature header,
///     signature that is not base64, over 1 KiB, or not DER: 400;
///   - identity not in 32-hex form, or no key on file: 404;
///   - key file that no longer decodes: 500;
///   - signature that does not verify over the body bytes as transmitted, or
///     a nonce below the next acceptable value: 403;
///   - otherwise: 200.
pub open spec fn spec_unlock_status(
    body: Seq<u8>,
    headers: Seq<(Seq<u8>, Seq<u8>)>,
    key_pem: Option<Seq<u8>>,
    s: State,
    stored: u128,
) -> Status {
    match spec_parse_unlock_body(body) {
        None => Status::BadRequest,
        Some((idb, nonce)) => match spec_find_header(
            headers,
            ascii_bytes("X-RemoteUnlock-Signature"@),
        ) {
            None => Status::BadRequest,
            Some(sig64) => match spec_parse_id(idb) {
                None => Status::NotFound,
                Some(id) => match key_pem {
                    None => Status::NotFound,
                    Some(pem) => match spki_of_pem(pem) {
                        None => Status::InternalServerError,
                        Some(der) => match b64_of(sig64) {
                            None => Status::BadRequest,
                            Some(sig) => {
                                if sig.len() > SIGNATURE_SIZE || !sig_parses(sig) {
                                    Status::BadRequest
                                } else if !sig_ok(der, body, sig) {
                                    Status::Forbidden
                                } else if nonce == u128::MAX {
                                    Status::Forbidden
                                } else if nonce >= s.spec_current(id, stored) {
                                    Status::Okay
                                } else {
                                    Status::Forbidden
                                }
                            },
                        },
                    },
                },
            },
        },
    }
}

/// The identity the post-run hook reconciles: present exactly when the body
/// parses and names a well-formed identity.
pub open spec fn spec_unlock_id(body: Seq<u8>) -> Option<u128> {
    match spec_parse_unlock_body(body) {
        None => None,
        Some((idb, _)) => spec_parse_id(idb),
    }
}

/// The `/unlock` route: verify a signed, nonce-bearing request against the
/// bound key, with strict monotonicity and replay defense, in two phases
/// around the response write.
pub struct UnlockRoute {
    pub id: Option<u128>,
}

impl UnlockRoute {
    pub fn new() -> (r: UnlockRoute)
        ensures
            r.id is None,
    {
        UnlockRoute { id: None }
    }

    /// Whether a request selects this route: `POST /unlock`.
    pub fn match_route(req: &Request) -> (r: bool)
        ensures
            r == (req.path matches Some(p) && p@ == ascii_bytes("/unlock"@) && req.method
                == Some(Method::Post)),
    {
        proof {
            reveal_strlit("/unlock");
            assert(vstd::string::is_ascii("/unlock"));
        }
        let path_matches = match &req.path {
            Some(p) => compare_bytes(p.as_bytes(), str_bytes("/unlock")),
            None => false,
        };
        let method_matches = match &req.method {
            Some(m) => matches!(m, Method::Post),
            None => false,
        };
        path_matches && method_matches
    }

    /// Which identity's key file this request needs, so the caller can read
    /// `keys/<id hex>.pub` (and the nonce file) before calling `run`.
    pub fn key_query(req: &Request) -> (r: Option<u128>)
        ensures
            r == spec_unlock_id(req.body@),
    {
        let parsed = match UnlockRequestBody::from_bytes(req.body.as_bytes()) {
            Ok(p) => p,
            Err(_) => {
                return None;
            },
        };
        parse_id(parsed.id())
    }

    /// Decide the response.  `key_pem` is what the store holds for the named
    /// identity, `stored_nonce` the identity's on-disk counter (0 when it has
    /// none; only read when the ledger has no cached entry).  The status is
    /// exactly [`spec_unlock_status`]; on 200 the accepted nonce is staged
    /// (`nonce + 1` pending, ledger entry untouched beyond caching), on
    /// anything else the ledger is exactly as before.
    pub fn run(
        &mut self,
        state: &mut State,
        req: &Request,
        key_pem: Option<&Vec<u8>>,
        stored_nonce: u128,
    ) -> (r: Response)
        ensures
            r.wf(),
            r.headers@.len() == 0,
            r.body@.len() == 0,
            r.status == spec_unlock_status(
                req.body@,
                headers_view(req.headers@),
                (match key_pem {
                    Some(p) => Some(p@),
                    None => None::<Seq<u8>>,
                }),
                *old(state),
                stored_nonce,
            ),
            final(self).id == spec_unlock_id(req.body@),
            final(state).buffer() == old(state).buffer(),
            r.status == Status::Okay ==> ({
                let (idb, nonce) = spec_parse_unlock_body(req.body@)->Some_0;
                let id = spec_parse_id(idb)->Some_0;
                &&& final(state).nonce_map() == old(state).nonce_map().insert(
                    id,
                    old(state).spec_current(id, stored_nonce),
                )
                &&& final(state).pending_map() == old(state).pending_map().insert(
                    id,
                    (nonce + 1) as u128,
                )
            }),
            r.status != Status::Okay ==> final(state).nonce_map() == old(state).nonce_map()
                && final(state).pending_map() == old(state).pending_map(),
    {
        self.id = None;
        let parsed = match UnlockRequestBody::from_bytes(req.body.as_bytes()) {
            Ok(p) => p,
            Err(_) => {
                return Response::new(Status::BadRequest);
            },
        };
        let id_opt = parse_id(parsed.id());
        self.id = id_opt;
        proof {
            reveal_strlit("X-RemoteUnlock-Signature");
            assert(vstd::string::is_ascii("X-RemoteUnlock-Signature"));
        }
        let sig_header = match req.get_header(str_bytes("X-RemoteUnlock-Signature")) {
            Some(h) => h,
            None => {
                return Response::new(Status::BadRequest);
            },
        };
        let id = match id_opt {
            Some(id) => id,
            None => {
                return Response::new(Status::NotFound);
            },
        };
        let pem = match key_pem {
            Some(p) => p,
            None => {
                return Response::new(Status::NotFound);
            },
        };
        let pubkey = match PublicKey::from_pem(pem.as_slice()) {
            Ok(k) => k,
            Err(_) => {
                return Response::new(Status::InternalServerError);
            },
        };
        let sig_bytes = match decode_base64(sig_header.value.as_bytes()) {
            Ok(v) => v,
            Err(_) => {
                return Response::new(Status::BadRequest);
            },
        };
        if sig_bytes.len() > SIGNATURE_SIZE {
            return Response::new(Status::BadRequest);
        }
        let valid = match pubkey.verify(req.body.as_bytes(), sig_bytes.as_slice()) {
            Ok(b) => b,
            Err(_) => {
                return Response::new(Status::BadRequest);
            },
        };
        if !valid {
            return Response::new(Status::Forbidden);
        }
        if parsed.nonce() == u128::MAX {
            return Response::new(Status::Forbidden);
        }
        if state.validate_nonce(id, parsed.nonce(), stored_nonce) {
            Response::new(Status::Okay)
        } else {
            Response::new(Status::Forbidden)
        }
    }

    /// Reconcile the ledger after the response has been written: a 200
    /// commits the staged nonce and hands back the committed value for the
    /// caller to persist and to fire the unlock effector on; anything else
    /// rolls the staged nonce back.  An effector failure after the commit is
    /// the caller's to log — nothing here can take a commit back.
    pub fn post_run(&mut self, state: &mut State, response: &Response) -> (r: Result<
        Option<u128>,
        Error,
    >)
        ensures
            final(self).id == old(self).id,
            final(state).buffer() == old(state).buffer(),
            old(self).id is None ==> (r matches Err(e) && e.spec_kind() == ErrorKind::Server
                && final(state).nonce_map() == old(state).nonce_map() && final(state).pending_map()
                == old(state).pending_map()),
            old(self).id matches Some(id) ==> {
                if response.status == Status::Okay {
                    if old(state).pending_map().contains_key(id) {
                        r == Ok::<Option<u128>, Error>(Some(old(state).pending_map()[id])) && final(state).nonce_map()
                            == old(state).nonce_map().insert(id, old(state).pending_map()[id])
                            && final(state).pending_map() == old(state).pending_map().remove(id)
                    } else {
                        r == Ok::<Option<u128>, Error>(None) && final(state).nonce_map() == old(state).nonce_map()
                            && final(state).pending_map() == old(state).pending_map()
                    }
                } else {
                    r == Ok::<Option<u128>, Error>(None) && final(state).nonce_map() == old(state).nonce_map()
                        && final(state).pending_map() == old(state).pending_map().remove(id)
                }
            },
    {
        let id = match self.id {
            Some(id) => id,
            None => {
                return Err(Error::new(ErrorKind::Server, Some("missing id in unlock route")));
            },
        };
        if response.status() == Status::Okay {
            Ok(state.commit_nonce_update(id))
        } else {
            state.rollback_nonce_update(id);
            Ok(None)
        }
    }
}

/// Replay defense at the route surface: once the ledger demands at least
/// `m` for `id`, no unlock request naming `id` with a nonce below `m` can be
/// answered 200, whatever key file, signature or stored file value it brings.
pub proof fn lemma_unlock_replay_rejected(
    s: State,
    body: Seq<u8>,
    headers: Seq<(Seq<u8>, Seq<u8>)>,
    key_pem: Option<Seq<u8>>,
    stored: u128,
    id: u128,
)
    requires
        s.nonce_map().contains_key(id),
        spec_unlock_id(body) == Some(id),
        spec_parse_unlock_body(body) matches Some((idb, nonce)) && nonce < s.nonce_map()[id],
    ensures
        spec_unlock_status(body, headers, key_pem, s, stored) != Status::Okay,
{
    assert(s.spec_current(id, stored) == s.nonce_map()[id]);
}

} // verus!
