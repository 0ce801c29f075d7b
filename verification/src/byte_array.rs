use vstd::prelude::*;

verus! {

use crate::errors::{Error, ErrorKind};

/// A growable byte buffer with a hard capacity of `N` bytes.
///
/// The service works on fixed-size buffers everywhere: request paths, header
/// names and values, bodies and key material all have compile-time limits, and
/// exceeding a limit is an error rather than a truncation.  `ByteArray`
/// carries that rule: every operation that would push the length past `N`
/// fails and leaves the buffer unchanged.
#[derive(Clone, Debug)]
pub struct ByteArray<const N: usize> {
    data: Vec<u8>,
}

impl<const N: usize> View for ByteArray<N> {
    type V = Seq<u8>;

    closed spec fn view(&self) -> Seq<u8> {
        self.data@
    }
}

impl<const N: usize> ByteArray<N> {
    /// Capacity never exceeded by the contents.
    pub open spec fn spec_capacity() -> int {
        N as int
    }

    /// Well-formed: the contents fit in the capacity.
    pub open spec fn wf(&self) -> bool {
        self@.len() <= N
    }

    pub fn new() -> (r: Self)
        ensures
            r@ == Seq::<u8>::empty(),
            r.wf(),
    {
        ByteArray { data: Vec::new() }
    }

    /// Build a buffer holding exactly `slice`, or `None` iff `slice` is
    /// longer than the capacity.
    pub fn try_make(slice: &[u8]) -> (r: Option<Self>)
        ensures
            slice@.len() <= N ==> (r matches Some(b) && b@ == slice@ && b.wf()),
            slice@.len() > N ==> r is None,
    {
        if slice.len() > N {
            return None;
        }
        let mut data: Vec<u8> = Vec::new();
        data.extend_from_slice(slice);
        Some(ByteArray { data })
    }

    /// Build a buffer holding exactly `slice`; fails iff `slice` is longer
    /// than the capacity.
    pub fn try_from(slice: &[u8]) -> (r: Result<Self, Error>)
        ensures
            slice@.len() <= N ==> (r matches Ok(b) && b@ == slice@ && b.wf()),
            slice@.len() > N ==> (r matches Err(e) && e.spec_kind() == ErrorKind::Server),
    {
        match Self::try_make(slice) {
            Some(b) => Ok(b),
            None => Err(Error::new(ErrorKind::Server, Some("buffer bounds exceeded"))),
        }
    }

    pub fn as_bytes(&self) -> (r: &[u8])
        ensures
            r@ == self@,
    {
        self.data.as_slice()
    }

    pub fn as_slice(&self) -> (r: &[u8])
        ensures
            r@ == self@,
    {
        self.data.as_slice()
    }

    pub fn len(&self) -> (r: usize)
        ensures
            r == self@.len(),
    {
        self.data.len()
    }

    pub fn is_empty(&self) -> (r: bool)
        ensures
            r == (self@.len() == 0),
    {
        self.data.is_empty()
    }

    /// Replace the contents with `slice`; fails iff `slice` does not fit,
    /// and then leaves the buffer unchanged.
    pub fn copy_from_slice(&mut self, slice: &[u8]) -> (r: Result<(), Error>)
        ensures
            slice@.len() <= N ==> (r matches Ok(()) && final(self)@ == slice@),
            slice@.len() > N ==> (r matches Err(e) && e.spec_kind() == ErrorKind::Server
                && *final(self) == *old(self)),
            final(self).wf() == (old(self).wf() || slice@.len() <= N),
    {
        if slice.len() > N {
            return Err(Error::new(ErrorKind::Server, Some("buffer bounds exceeded")));
        }
        self.data.clear();
        self.data.extend_from_slice(slice);
        Ok(())
    }

    /// Append another buffer's contents; fails iff the result would not fit,
    /// and then leaves the buffer unchanged.
    pub fn append(&mut self, other: &Self) -> (r: Result<(), Error>)
        requires
            old(self).wf(),
        ensures
            old(self)@.len() + other@.len() <= N ==> (r matches Ok(())
                && final(self)@ == old(self)@ + other@),
            old(self)@.len() + other@.len() > N ==> (r matches Err(e)
                && e.spec_kind() == ErrorKind::Server && *final(self) == *old(self)),
            final(self).wf(),
    {
        self.append_slice(other.data.as_slice())
    }

    /// Append raw bytes; fails iff the result would not fit, and then leaves
    /// the buffer unchanged.
    pub fn append_slice(&mut self, slice: &[u8]) -> (r: Result<(), Error>)
        requires
            old(self).wf(),
        ensures
            old(self)@.len() + slice@.len() <= N ==> (r matches Ok(())
                && final(self)@ == old(self)@ + slice@),
            old(self)@.len() + slice@.len() > N ==> (r matches Err(e)
                && e.spec_kind() == ErrorKind::Server && *final(self) == *old(self)),
            final(self).wf(),
    {
        if slice.len() > N - self.data.len() {
            return Err(Error::new(ErrorKind::Server, Some("buffer bounds exceeded")));
        }
        self.data.extend_from_slice(slice);
        Ok(())
    }

    /// Append a single byte; fails iff the buffer is full.
    pub fn push(&mut self, byte: u8) -> (r: Result<(), Error>)
        requires
            old(self).wf(),
        ensures
            old(self)@.len() < N ==> (r matches Ok(())
                && final(self)@ == old(self)@.push(byte)),
            old(self)@.len() >= N ==> (r matches Err(e)
                && e.spec_kind() == ErrorKind::Server && *final(self) == *old(self)),
            final(self).wf(),
    {
        if self.data.len() >= N {
            return Err(Error::new(ErrorKind::Server, Some("buffer bounds exceeded")));
        }
        self.data.push(byte);
        Ok(())
    }

    /// Empty the buffer.
    pub fn clear(&mut self)
        ensures
            final(self)@ == Seq::<u8>::empty(),
            final(self).wf(),
    {
        self.data.clear();
    }

    /// The byte at `i`.
    pub fn at(&self, i: usize) -> (r: u8)
        requires
            i < self@.len(),
        ensures
            r == self@[i as int],
    {
        self.data[i]
    }
}

impl<const N: usize> Default for ByteArray<N> {
    fn default() -> (r: Self)
        ensures
            r@ == Seq::<u8>::empty(),
            r.wf(),
    {
        ByteArray::new()
    }
}

} // verus!
