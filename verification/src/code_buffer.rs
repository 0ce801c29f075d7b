use vstd::prelude::*;

verus! {

use crate::enrollment_code::EnrollmentCode;
use crate::errors::{Error, ErrorKind};

/// Slots in the code buffer; this bounds how many enrollments can be pending
/// at once.
pub const CODE_BUFFER_CAPACITY: usize = 16;

/// Whether a slot holds a code that verifies against `code` at `now`.
pub open spec fn slot_matches(s: Option<EnrollmentCode>, code: u32, now: i64) -> bool {
    s matches Some(c) && c.spec_verify(code, now)
}

/// The first free slot at or after `i`, if any.
pub open spec fn spec_first_free(slots: Seq<Option<EnrollmentCode>>, i: int) -> Option<int>
    decreases slots.len() - i,
{
    if i < 0 || i >= slots.len() {
        None
    } else if slots[i] is None {
        Some(i)
    } else {
        spec_first_free(slots, i + 1)
    }
}

/// The first slot at or after `i` whose code verifies, if any.
pub open spec fn spec_find_match(
    slots: Seq<Option<EnrollmentCode>>,
    code: u32,
    now: i64,
    i: int,
) -> Option<int>
    decreases slots.len() - i,
{
    if i < 0 || i >= slots.len() {
        None
    } else if slot_matches(slots[i], code, now) {
        Some(i)
    } else {
        spec_find_match(slots, code, now, i + 1)
    }
}

/// How many slots are occupied at or after `i`.
pub open spec fn spec_live_count(slots: Seq<Option<EnrollmentCode>>, i: int) -> int
    decreases slots.len() - i,
{
    if i < 0 || i >= slots.len() {
        0
    } else if slots[i] is Some {
        1 + spec_live_count(slots, i + 1)
    } else {
        spec_live_count(slots, i + 1)
    }
}

/// A fixed array of sixteen optional code slots.  Insertion takes the first
/// free slot and fails when none is free; expired slots are reclaimed only by
/// an explicit sweep; verification consumes the matching slot.
pub struct CodeBuffer {
    codes: Vec<Option<EnrollmentCode>>,
}

impl CodeBuffer {
    /// The slots, oldest position first.
    pub closed spec fn slots(&self) -> Seq<Option<EnrollmentCode>> {
        self.codes@
    }

    /// Exactly sixteen slots, always.
    pub open spec fn wf(&self) -> bool {
        self.slots().len() == CODE_BUFFER_CAPACITY
    }

    pub fn new() -> (r: CodeBuffer)
        ensures
            r.wf(),
            forall|i: int| 0 <= i < CODE_BUFFER_CAPACITY ==> r.slots()[i] is None,
    {
        let mut codes: Vec<Option<EnrollmentCode>> = Vec::new();
        let mut i: usize = 0;
        while i < CODE_BUFFER_CAPACITY
            invariant
                codes@.len() == i,
                i <= CODE_BUFFER_CAPACITY,
                forall|j: int| 0 <= j < i ==> codes@[j] is None,
            decreases CODE_BUFFER_CAPACITY - i,
        {
            codes.push(None);
            i += 1;
        }
        CodeBuffer { codes }
    }

    /// Place `code` in the first free slot; when every slot is taken, fail
    /// with `CodeBufferFull` and leave the buffer unchanged.
    pub fn insert(&mut self, code: EnrollmentCode) -> (r: Result<(), Error>)
        requires
            old(self).wf(),
        ensures
            final(self).wf(),
            match spec_first_free(old(self).slots(), 0) {
                Some(ix) => r matches Ok(()) && final(self).slots() == old(self).slots().update(
                    ix,
                    Some(code),
                ),
                None => r matches Err(e) && e.spec_kind() == ErrorKind::CodeBufferFull
                    && final(self).slots() == old(self).slots(),
            },
    {
        let mut i: usize = 0;
        #[verifier::loop_isolation(false)]
        while i < CODE_BUFFER_CAPACITY
            invariant
                0 <= i <= CODE_BUFFER_CAPACITY,
                self.codes@ == old(self).codes@,
                spec_first_free(self.slots(), 0) == spec_first_free(self.slots(), i as int),
            decreases CODE_BUFFER_CAPACITY - i,
        {
            if self.codes[i].is_none() {
                let slot = vstd::std_specs::vec::vec_index_mut(&mut self.codes, i);
                *slot = Some(code);
                return Ok(());
            }
            i += 1;
        }
        Err(Error::new(ErrorKind::CodeBufferFull, Some("no free code slot")))
    }

    /// Sweep: clear every slot whose code has expired at `now`.
    pub fn clear_expired(&mut self, now: i64)
        requires
            old(self).wf(),
        ensures
            final(self).wf(),
            final(self).slots().len() == old(self).slots().len(),
            forall|i: int|
                0 <= i < old(self).slots().len() ==> final(self).slots()[i] == (
                match old(self).slots()[i] {
                    Some(c) => if c.spec_expired(now) {
                        None
                    } else {
                        Some(c)
                    },
                    None => None::<EnrollmentCode>,
                }),
    {
        let mut i: usize = 0;
        #[verifier::loop_isolation(false)]
        while i < CODE_BUFFER_CAPACITY
            invariant
                0 <= i <= CODE_BUFFER_CAPACITY,
                self.codes@.len() == CODE_BUFFER_CAPACITY,
                forall|j: int|
                    i <= j < CODE_BUFFER_CAPACITY ==> self.codes@[j] == old(self).codes@[j],
                forall|j: int|
                    0 <= j < i ==> self.codes@[j] == (match old(self).codes@[j] {
                        Some(c) => if c.spec_expired(now) {
                            None
                        } else {
                            Some(c)
                        },
                        None => None::<EnrollmentCode>,
                    }),
            decreases CODE_BUFFER_CAPACITY - i,
        {
            let expired_here = match &self.codes[i] {
                Some(c) => c.expired(now),
                None => false,
            };
            if expired_here {
                let slot = vstd::std_specs::vec::vec_index_mut(&mut self.codes, i);
                *slot = None;
            }
            i += 1;
        }
    }

    /// One-shot verification: if some live slot's code verifies against
    /// `code` at `now`, clear the first such slot and give true; otherwise
    /// leave the buffer unchanged and give false.  Expired entries never
    /// verify, though only a sweep removes them.
    pub fn verify(&mut self, code: &u32, now: i64) -> (r: bool)
        requires
            old(self).wf(),
        ensures
            final(self).wf(),
            match spec_find_match(old(self).slots(), *code, now, 0) {
                Some(ix) => r == true && final(self).slots() == old(self).slots().update(
                    ix,
                    None::<EnrollmentCode>,
                ),
                None => r == false && final(self).slots() == old(self).slots(),
            },
    {
        let mut i: usize = 0;
        #[verifier::loop_isolation(false)]
        while i < CODE_BUFFER_CAPACITY
            invariant
                0 <= i <= CODE_BUFFER_CAPACITY,
                self.codes@ == old(self).codes@,
                spec_find_match(self.slots(), *code, now, 0) == spec_find_match(
                    self.slots(),
                    *code,
                    now,
                    i as int,
                ),
            decreases CODE_BUFFER_CAPACITY - i,
        {
            let matches_here = match &self.codes[i] {
                Some(c) => c.verify(code, now),
                None => false,
            };
            if matches_here {
                let slot = vstd::std_specs::vec::vec_index_mut(&mut self.codes, i);
                *slot = None;
                return true;
            }
            i += 1;
        }
        false
    }
}

/// At most sixteen codes are ever live at once: the occupied slots of a
/// well-formed buffer never number more than its sixteen slots.
pub proof fn lemma_code_buffer_bounded(b: CodeBuffer)
    requires
        b.wf(),
    ensures
        spec_live_count(b.slots(), 0) <= CODE_BUFFER_CAPACITY,
{
    lemma_live_count_bound(b.slots(), 0);
}

proof fn lemma_live_count_bound(slots: Seq<Option<EnrollmentCode>>, i: int)
    requires
        i >= 0,
    ensures
        spec_live_count(slots, i) <= slots.len() - i || spec_live_count(slots, i) == 0,
        spec_live_count(slots, i) >= 0,
    decreases slots.len() - i,
{
    if 0 <= i < slots.len() {
        lemma_live_count_bound(slots, i + 1);
    }
}

/// A minted code is consumed at most once: when exactly one slot verifies
/// against `code`, a successful verification clears it, and a second
/// verification with the same digits finds no match and gives false.
pub proof fn lemma_code_one_shot(
    slots: Seq<Option<EnrollmentCode>>,
    code: u32,
    now: i64,
    ix: int,
)
    requires
        spec_find_match(slots, code, now, 0) == Some(ix),
        forall|j: int| 0 <= j < slots.len() && j != ix ==> !slot_matches(#[trigger] slots[j], code, now),
    ensures
        spec_find_match(slots.update(ix, None::<EnrollmentCode>), code, now, 0) is None,
{
    lemma_find_match_bounds(slots, code, now, 0);
    lemma_no_match_none(slots.update(ix, None::<EnrollmentCode>), code, now, 0);
}

proof fn lemma_find_match_bounds(slots: Seq<Option<EnrollmentCode>>, code: u32, now: i64, i: int)
    ensures
        spec_find_match(slots, code, now, i) matches Some(j) ==> i <= j < slots.len()
            && slot_matches(slots[j], code, now),
    decreases slots.len() - i,
{
    if !(i < 0 || i >= slots.len()) && !slot_matches(slots[i], code, now) {
        lemma_find_match_bounds(slots, code, now, i + 1);
    }
}

proof fn lemma_no_match_none(slots: Seq<Option<EnrollmentCode>>, code: u32, now: i64, i: int)
    requires
        i >= 0,
        forall|j: int| 0 <= j < slots.len() ==> !slot_matches(#[trigger] slots[j], code, now),
    ensures
        spec_find_match(slots, code, now, i) is None,
    decreases slots.len() - i,
{
    if !(i < 0 || i >= slots.len()) {
        lemma_no_match_none(slots, code, now, i + 1);
    }
}

} // verus!
