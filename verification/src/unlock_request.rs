use vstd::prelude::*;

verus! {

use crate::errors::{Error, ErrorKind};
use crate::json::{parse_unlock_body, spec_parse_unlock_body, spec_unlock_body, unlock_body_bytes};
use crate::pki::{sig_ok, sig_parses, PublicKey};

/// An unlock request body: the raw identity string as posted, and the nonce.
#[derive(Debug)]
pub struct UnlockRequestBody {
    pub id: Vec<u8>,
    pub nonce: u128,
}

impl UnlockRequestBody {
    /// The identity string as posted.
    pub fn id(&self) -> (r: &[u8])
        ensures
            r@ == self.id@,
    {
        self.id.as_slice()
    }

    pub fn nonce(&self) -> (r: u128)
        ensures
            r == self.nonce,
    {
        self.nonce
    }

    /// Read a request from its JSON body; fails exactly when the body is not
    /// a well-formed unlock body.
    pub fn from_bytes(body: &[u8]) -> (r: Result<UnlockRequestBody, Error>)
        ensures
            match spec_parse_unlock_body(body@) {
                Some((id, n)) => r matches Ok(req) && req.id@ == id && req.nonce == n,
                None => r matches Err(e) && e.spec_kind() == ErrorKind::Parse,
            },
    {
        match parse_unlock_body(body) {
            Some((id, nonce)) => Ok(UnlockRequestBody { id, nonce }),
            None => Err(Error::new(ErrorKind::Parse, Some("malformed unlock body"))),
        }
    }

    /// Write the request as its JSON body: what a controller signs and
    /// transmits.
    pub fn to_bytes(&self) -> (r: Vec<u8>)
        ensures
            r@ == spec_unlock_body(self.id@, self.nonce),
    {
        unlock_body_bytes(self.id.as_slice(), self.nonce)
    }

    /// Check a DER signature over this request's serialized body; fails
    /// exactly when the signature bytes are not well-formed DER.
    pub fn verify(&self, signature: &[u8], pubkey: &PublicKey) -> (r: Result<bool, Error>)
        requires
            pubkey.wf(),
        ensures
            r is Ok <==> sig_parses(signature@),
            r matches Ok(b) ==> b == sig_ok(
                pubkey.spec_der(),
                spec_unlock_body(self.id@, self.nonce),
                signature@,
            ),
            r matches Err(e) ==> e.spec_kind() == ErrorKind::SignatureMalformed,
    {
        let serial = self.to_bytes();
        pubkey.verify(serial.as_slice(), signature)
    }
}

} // verus!
