use vstd::prelude::*;

verus! {

use crate::byte_array::ByteArray;

/// A raw public-key blob of at most 2 KiB, kept verbatim.
#[derive(Debug)]
pub struct Pubkey {
    raw: ByteArray<2048>,
}

impl Pubkey {
    /// The stored bytes.
    pub closed spec fn spec_raw(&self) -> Seq<u8> {
        self.raw@
    }

    pub open spec fn wf(&self) -> bool {
        self.spec_raw().len() <= 2048
    }

    pub fn new() -> (r: Pubkey)
        ensures
            r.spec_raw() == Seq::<u8>::empty(),
            r.wf(),
    {
        Pubkey { raw: ByteArray::new() }
    }

    /// Replace the stored bytes.
    pub fn read_from_bytes(&mut self, bytes: &[u8])
        requires
            bytes@.len() <= 2048,
        ensures
            final(self).spec_raw() == bytes@,
            final(self).wf(),
    {
        let _ = self.raw.copy_from_slice(bytes);
    }

    pub fn as_bytes(&self) -> (r: &[u8])
        ensures
            r@ == self.spec_raw(),
    {
        self.raw.as_bytes()
    }
}

impl Default for Pubkey {
    fn default() -> (r: Pubkey)
        ensures
            r.spec_raw() == Seq::<u8>::empty(),
    {
        Pubkey::new()
    }
}

} // verus!
