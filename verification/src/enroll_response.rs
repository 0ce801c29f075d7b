use vstd::prelude::*;

verus! {

use crate::json::{id_body_bytes, spec_id_body};
use crate::pki::fresh_id;

/// The identity minted when an enrollment completes.
#[derive(Clone, Copy, PartialEq, Eq, Structural, Debug)]
pub struct EnrollmentResponse {
    pub id: u128,
}

impl EnrollmentResponse {
    /// Mint a fresh identity.  The value is random; nothing is promised of
    /// it.
    pub fn new() -> (r: EnrollmentResponse) {
        EnrollmentResponse { id: fresh_id() }
    }

    pub fn id(&self) -> (r: u128)
        ensures
            r == self.id,
    {
        self.id
    }

    /// Write the response as its JSON body, the identity in its 32-digit hex
    /// form.
    pub fn to_bytes(&self) -> (r: Vec<u8>)
        ensures
            r@ == spec_id_body(self.id),
            r@.len() == 41,
    {
        id_body_bytes(self.id)
    }
}

} // verus!
