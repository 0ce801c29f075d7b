use vstd::prelude::*;

verus! {

use crate::byte_array::ByteArray;
use crate::errors::{Error, ErrorKind};
use crate::json::{enroll_body_bytes, parse_enroll_body, spec_enroll_body, spec_parse_enroll_body};

/// An enrollment completion request: the one-time code and the public key to
/// bind, as PEM bytes of at most 1 KiB.
#[derive(Debug)]
pub struct EnrollmentRequest {
    pub code: u32,
    pub pubkey_pem: ByteArray<1024>,
}

impl EnrollmentRequest {
    pub fn new(code: u32, pubkey_pem: ByteArray<1024>) -> (r: EnrollmentRequest)
        ensures
            r.code == code,
            r.pubkey_pem == pubkey_pem,
    {
        EnrollmentRequest { code, pubkey_pem }
    }

    pub fn code(&self) -> (r: &u32)
        ensures
            *r == self.code,
    {
        &self.code
    }

    pub fn pubkey_pem(&self) -> (r: &ByteArray<1024>)
        ensures
            *r == self.pubkey_pem,
    {
        &self.pubkey_pem
    }

    /// Read a request from its JSON body; fails exactly when the body is not
    /// a well-formed enrollment body or the key does not fit 1 KiB.
    pub fn from_bytes(body: &[u8]) -> (r: Result<EnrollmentRequest, Error>)
        ensures
            match spec_parse_enroll_body(body@) {
                Some((c, pem)) => {
                    if pem.len() <= 1024 {
                        r matches Ok(req) && req.code == c && req.pubkey_pem@ == pem
                            && req.pubkey_pem.wf()
                    } else {
                        r matches Err(e) && e.spec_kind() == ErrorKind::Parse
                    }
                },
                None => r matches Err(e) && e.spec_kind() == ErrorKind::Parse,
            },
    {
        let (code, pem) = match parse_enroll_body(body) {
            Some(p) => p,
            None => {
                return Err(Error::new(ErrorKind::Parse, Some("malformed enrollment body")));
            },
        };
        let pubkey_pem = match ByteArray::<1024>::try_make(pem.as_slice()) {
            Some(b) => b,
            None => {
                return Err(Error::new(ErrorKind::Parse, Some("public key too large")));
            },
        };
        Ok(EnrollmentRequest { code, pubkey_pem })
    }

    /// Write the request as its JSON body.
    pub fn to_bytes(&self) -> (r: Vec<u8>)
        ensures
            r@ == spec_enroll_body(self.code, self.pubkey_pem@),
    {
        enroll_body_bytes(self.code, self.pubkey_pem.as_bytes())
    }
}

} // verus!
