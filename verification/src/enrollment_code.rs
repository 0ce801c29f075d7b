use vstd::prelude::*;

verus! {

use rand::Rng;

/// Seconds an enrollment code lives after minting: 30 minutes.
pub const CODE_LIFETIME_SECS: i64 = 1800;

/// A one-time enrollment code: six decimal digits paired with the Unix second
/// after which it no longer verifies.
#[derive(Clone, Copy, PartialEq, Eq, Structural, Debug)]
pub struct EnrollmentCode {
    pub code: u32,
    pub expires: i64,
}

/// Relies on rand: `thread_rng().gen_range(100_000..1_000_000)` returns a
/// number drawn uniformly from that non-empty range.
#[verifier::external_body]
fn random_code() -> (r: u32)
    ensures
        100000 <= r < 1000000,
{
    rand::thread_rng().gen_range(100_000..1_000_000)
}

impl EnrollmentCode {
    /// The digits are in the six-digit range.
    pub open spec fn wf(&self) -> bool {
        100000 <= self.code < 1000000
    }

    /// Mint a code at time `now`: fresh random digits, expiring 30 minutes
    /// later.
    pub fn new(now: i64) -> (r: EnrollmentCode)
        requires
            now <= i64::MAX - CODE_LIFETIME_SECS,
        ensures
            r.wf(),
            r.expires == now + CODE_LIFETIME_SECS,
    {
        EnrollmentCode { code: random_code(), expires: now + CODE_LIFETIME_SECS }
    }

    /// Expired: strictly after the expiry second.
    pub open spec fn spec_expired(&self, now: i64) -> bool {
        now > self.expires
    }

    pub fn expired(&self, now: i64) -> (r: bool)
        ensures
            r == self.spec_expired(now),
    {
        now > self.expires
    }

    /// A code verifies iff it is unexpired and the digits match.
    pub open spec fn spec_verify(&self, code: u32, now: i64) -> bool {
        !self.spec_expired(now) && self.code == code
    }

    pub fn verify(&self, code: &u32, now: i64) -> (r: bool)
        ensures
            r == self.spec_verify(*code, now),
    {
        !self.expired(now) && self.code == *code
    }

    pub fn code(&self) -> (r: u32)
        ensures
            r == self.code,
    {
        self.code
    }

    pub fn expires(&self) -> (r: i64)
        ensures
            r == self.expires,
    {
        self.expires
    }
}

/// Thirty minutes after minting, a code verifies no more, matching digits or
/// not: verification at any instant past the lifetime is false.
pub proof fn lemma_code_expiry(c: EnrollmentCode, mint_now: i64, code: u32, now: i64)
    requires
        c.expires == mint_now + CODE_LIFETIME_SECS,
        now > mint_now + CODE_LIFETIME_SECS,
    ensures
        !c.spec_verify(code, now),
{
}

} // verus!
