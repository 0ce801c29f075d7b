use vstd::prelude::*;
use std::collections::HashMap;

verus! {

broadcast use vstd::std_specs::hash::group_hash_axioms;

use crate::code_buffer::CodeBuffer;

/// The server's mutable state: the authoritative nonce ledger, the staged
/// nonce updates of the two-phase unlock, and the enrollment code buffer.
///
/// An enrollment identity is carried as its 128-bit value.  For each identity
/// the ledger holds the next acceptable nonce: the smallest counter a request
/// may present.  Persistence is layered on from outside — a caller resolves a
/// miss by reading the identity's nonce file and passing the stored value in,
/// and writes the file after a commit.
pub struct State {
    nonces: HashMap<u128, u128>,
    code_buffer: CodeBuffer,
    pending_nonce_updates: HashMap<u128, u128>,
}

impl State {
    /// The authoritative in-memory ledger.
    pub closed spec fn nonce_map(self) -> Map<u128, u128> {
        self.nonces@
    }

    /// The staged updates awaiting commit or rollback.
    pub closed spec fn pending_map(self) -> Map<u128, u128> {
        self.pending_nonce_updates@
    }

    /// The enrollment code buffer.
    pub closed spec fn buffer(self) -> CodeBuffer {
        self.code_buffer
    }

    pub open spec fn wf(self) -> bool {
        self.buffer().wf()
    }

    /// The next acceptable nonce for `id`: the ledger entry if the identity
    /// is cached, else `stored`, the value its nonce file holds (0 when there
    /// is no file).
    pub open spec fn spec_current(self, id: u128, stored: u128) -> u128 {
        if self.nonce_map().contains_key(id) {
            self.nonce_map()[id]
        } else {
            stored
        }
    }

    pub fn new() -> (r: State)
        ensures
            r.wf(),
            r.nonce_map() == Map::<u128, u128>::empty(),
            r.pending_map() == Map::<u128, u128>::empty(),
            forall|i: int|
                0 <= i < crate::code_buffer::CODE_BUFFER_CAPACITY ==> r.buffer().slots()[i] is None,
    {
        State {
            nonces: HashMap::new(),
            code_buffer: CodeBuffer::new(),
            pending_nonce_updates: HashMap::new(),
        }
    }

    /// The cached ledger value for `id`, if the identity is cached.
    pub fn get_nonce(&self, id: &u128) -> (r: Option<&u128>)
        ensures
            r matches Some(v) ==> self.nonce_map().contains_key(*id) && *v == self.nonce_map()[*id],
            r is None ==> !self.nonce_map().contains_key(*id),
    {
        self.nonces.get(id)
    }

    /// Set the ledger entry for `id` to `nonce` outright.
    pub fn update_nonce(&mut self, id: u128, nonce: u128)
        ensures
            final(self).nonce_map() == old(self).nonce_map().insert(id, nonce),
            final(self).pending_map() == old(self).pending_map(),
            final(self).buffer() == old(self).buffer(),
    {
        self.nonces.insert(id, nonce);
    }

    /// Advance the ledger entry for `id` by one, from 0 when absent.
    pub fn increment_nonce(&mut self, id: u128)
        requires
            old(self).nonce_map().contains_key(id) ==> old(self).nonce_map()[id] < u128::MAX,
        ensures
            final(self).nonce_map() == old(self).nonce_map().insert(
                id,
                (old(self).spec_current(id, 0) + 1) as u128,
            ),
            final(self).pending_map() == old(self).pending_map(),
            final(self).buffer() == old(self).buffer(),
    {
        let current: u128 = match self.nonces.get(&id) {
            Some(v) => *v,
            None => 0,
        };
        self.nonces.insert(id, current + 1);
    }

    /// Validate `(id, nonce)` against the ledger, resolving a cache miss with
    /// `stored`, the value read from the identity's nonce file (0 when there
    /// is none).  The request is acceptable iff `nonce` is at least the next
    /// acceptable value.  On acceptance the resolved value is cached,
    /// `nonce + 1` is staged as the pending update, and the authoritative
    /// entry is otherwise untouched; on rejection nothing changes at all.
    pub fn validate_nonce(&mut self, id: u128, nonce: u128, stored: u128) -> (r: bool)
        requires
            nonce < u128::MAX,
        ensures
            r == (nonce >= old(self).spec_current(id, stored)),
            r ==> final(self).nonce_map() == old(self).nonce_map().insert(
                id,
                old(self).spec_current(id, stored),
            ) && final(self).pending_map() == old(self).pending_map().insert(
                id,
                (nonce + 1) as u128,
            ),
            !r ==> final(self).nonce_map() == old(self).nonce_map() && final(self).pending_map()
                == old(self).pending_map(),
            final(self).buffer() == old(self).buffer(),
            final(self).spec_current(id, stored) == old(self).spec_current(id, stored),
    {
        let current: u128 = match self.nonces.get(&id) {
            Some(v) => *v,
            None => stored,
        };
        if nonce >= current {
            self.nonces.insert(id, current);
            self.pending_nonce_updates.insert(id, nonce + 1);
            true
        } else {
            false
        }
    }

    /// Commit the staged update for `id`: move it into the authoritative
    /// ledger and hand it back so the caller can persist it.  Without a
    /// staged update nothing changes.
    pub fn commit_nonce_update(&mut self, id: u128) -> (r: Option<u128>)
        ensures
            old(self).pending_map().contains_key(id) ==> (r == Some(old(self).pending_map()[id])
                && final(self).nonce_map() == old(self).nonce_map().insert(
                id,
                old(self).pending_map()[id],
            ) && final(self).pending_map() == old(self).pending_map().remove(id)),
            !old(self).pending_map().contains_key(id) ==> (r is None && final(self).nonce_map()
                == old(self).nonce_map() && final(self).pending_map() == old(self).pending_map()),
            final(self).buffer() == old(self).buffer(),
    {
        match self.pending_nonce_updates.remove(&id) {
            Some(nonce) => {
                self.nonces.insert(id, nonce);
                Some(nonce)
            },
            None => None,
        }
    }

    /// Drop the staged update for `id` without touching the authoritative
    /// ledger.
    pub fn rollback_nonce_update(&mut self, id: u128)
        ensures
            final(self).nonce_map() == old(self).nonce_map(),
            final(self).pending_map() == old(self).pending_map().remove(id),
            final(self).buffer() == old(self).buffer(),
    {
        self.pending_nonce_updates.remove(&id);
    }

    /// The enrollment code buffer, for sweeping, filling and verification.
    pub fn code_buffer(&mut self) -> (r: &mut CodeBuffer)
        ensures
            *r == old(self).buffer(),
            final(self).buffer() == *final(r),
            final(self).nonce_map() == old(self).nonce_map(),
            final(self).pending_map() == old(self).pending_map(),
    {
        &mut self.code_buffer
    }
}

/// After an accepted unlock with nonce `n` for `id` is committed, the ledger
/// demands `n + 1`, and any later request for `id` presenting `n2 < n + 1` is
/// unacceptable, whatever its file fallback reads.
pub proof fn lemma_nonce_monotonic(
    s0: State,
    s1: State,
    s2: State,
    id: u128,
    n: u128,
    stored: u128,
    n2: u128,
    stored2: u128,
)
    requires
        n < u128::MAX,
        n >= s0.spec_current(id, stored),
        s1.nonce_map() == s0.nonce_map().insert(id, s0.spec_current(id, stored)),
        s1.pending_map() == s0.pending_map().insert(id, (n + 1) as u128),
        s2.nonce_map() == s1.nonce_map().insert(id, s1.pending_map()[id]),
    ensures
        s2.nonce_map()[id] == n + 1,
        n2 < n + 1 ==> n2 < s2.spec_current(id, stored2),
{
}

/// Once an accepted unlock is committed, the advance stands whatever happens
/// to the effector afterwards: the only reconciliation the library offers
/// after a commit is a rollback, and a rollback never lowers an authoritative
/// entry.
pub proof fn lemma_effector_failure_keeps_commit(s0: State, s1: State, s2: State, id: u128, n: u128)
    requires
        s0.pending_map().contains_key(id),
        s0.pending_map()[id] == n,
        // after the commit
        s1.nonce_map() == s0.nonce_map().insert(id, n),
        s1.pending_map() == s0.pending_map().remove(id),
        // after any rollback that follows
        s2.nonce_map() == s1.nonce_map(),
        s2.pending_map() == s1.pending_map().remove(id),
    ensures
        s2.nonce_map()[id] == n,
{
}

/// A failed unlock leaves the ledger as it stood before the request: a
/// rejected validation changes nothing, and the rollback that follows only
/// drops a staged update that the request never created.
pub proof fn lemma_failed_unlock_preserves_ledger(
    s0: State,
    s1: State,
    s2: State,
    id: u128,
    n: u128,
    stored: u128,
)
    requires
        n < s0.spec_current(id, stored),
        !s0.pending_map().contains_key(id),
        // after the rejected validation
        s1.nonce_map() == s0.nonce_map(),
        s1.pending_map() == s0.pending_map(),
        // after the rollback
        s2.nonce_map() == s1.nonce_map(),
        s2.pending_map() == s1.pending_map().remove(id),
    ensures
        s2.nonce_map() == s0.nonce_map(),
        s2.pending_map() =~= s0.pending_map(),
{
}

} // verus!
