//! Bounded byte storage: transcripts, secrets, certificate chains.

use crate::config::{MAX_MANAGED_BUFFER_SIZE, SPDM_MAX_HASH_SIZE};
use vstd::prelude::*;

verus! {

/// Up to `N` bytes in a fixed-size array: what was appended so far, in order.
/// Nothing is ever allocated, and nothing is written past the array.
#[derive(Debug)]
pub struct BoundedBytes<const N: usize> {
    used: usize,
    data: [u8; N],
}

/// A transcript accumulator: the bytes of the messages hashed so far.
pub type ManagedBuffer = BoundedBytes<MAX_MANAGED_BUFFER_SIZE>;

/// A secret of a session: at most as many bytes as the largest digest.
pub type SpdmSecret = BoundedBytes<SPDM_MAX_HASH_SIZE>;

/// An array of zeroes.
fn zeroes<const N: usize>() -> (data: [u8; N])
    ensures
        forall|k: int| 0 <= k < N ==> data@[k] == 0u8,
{
    let mut data = [0u8; N];
    let mut i: usize = 0;
    while i < N
        invariant
            0 <= i <= N,
            forall|k: int| 0 <= k < i ==> data@[k] == 0u8,
        decreases N - i,
    {
        data[i] = 0;
        i = i + 1;
    }
    data
}

impl<const N: usize> View for BoundedBytes<N> {
    type V = Seq<u8>;

    /// The bytes held.
    closed spec fn view(&self) -> Seq<u8> {
        self.data@.subrange(0, self.used as int)
    }
}

impl<const N: usize> Clone for BoundedBytes<N> {
    fn clone(&self) -> (c: Self)
        ensures
            c == *self,
    {
        proof {
            use_type_invariant(self);
        }
        BoundedBytes { used: self.used, data: self.data }
    }
}

impl<const N: usize> BoundedBytes<N> {
    #[verifier::type_invariant]
    spec fn inv(&self) -> bool {
        self.used <= N
    }

    /// Whether nothing is held and every byte of the storage is zero.
    pub closed spec fn spec_is_zeroed(&self) -> bool {
        self.used == 0 && forall|k: int| 0 <= k < N ==> self.data@[k] == 0
    }

    /// Empty storage, all zero.
    pub fn new() -> (b: Self)
        ensures
            b@ == Seq::<u8>::empty(),
            b.spec_is_zeroed(),
    {
        BoundedBytes { used: 0, data: zeroes() }
    }

    /// Storage that holds `bytes`, or `None` when they are more than `N`.
    pub fn from_slice(bytes: &[u8]) -> (out: Option<Self>)
        ensures
            out is Some <==> bytes@.len() <= N,
            out matches Some(b) ==> b@ == bytes@,
    {
        let mut b = Self::new();
        match b.append_message(bytes) {
            Some(_) => Some(b),
            None => None,
        }
    }

    /// Number of bytes held.
    pub fn len(&self) -> (n: usize)
        ensures
            n == self@.len(),
            n <= N,
    {
        proof {
            use_type_invariant(self);
        }
        self.used
    }

    /// The bytes held.
    pub fn as_slice(&self) -> (out: &[u8])
        ensures
            out@ == self@,
            out@.len() <= N,
    {
        proof {
            use_type_invariant(self);
        }
        vstd::slice::slice_subrange(self.data.as_slice(), 0, self.used)
    }

    /// Appends `bytes`. When they do not fit, nothing is appended and the
    /// result is `None`; otherwise the result is the number of bytes appended.
    pub fn append_message(&mut self, bytes: &[u8]) -> (out: Option<usize>)
        ensures
            out is Some <==> old(self)@.len() + bytes@.len() <= N,
            out matches Some(n) ==> n == bytes@.len() && final(self)@ == old(self)@ + bytes@,
            out is None ==> *final(self) == *old(self),
    {
        proof {
            use_type_invariant(&*self);
        }
        let len = bytes.len();
        if N - self.used < len {
            return None;
        }
        let start = self.used;
        let mut i: usize = 0;
        while i < len
            invariant
                0 <= i <= len,
                len == bytes@.len(),
                start + len <= N,
                self.used == start,
                forall|k: int| 0 <= k < start ==> self.data@[k] == old(self).data@[k],
                forall|k: int| 0 <= k < i ==> self.data@[start + k] == bytes@[k],
            decreases len - i,
        {
            self.data[start + i] = bytes[i];
            i = i + 1;
        }
        self.used = start + len;
        assert(self@ =~= old(self)@ + bytes@);
        Some(len)
    }

    /// Replaces what is held by `bytes`. When they are more than `N` the
    /// result is `false` and the storage stays as it was.
    pub fn set(&mut self, bytes: &[u8]) -> (ok: bool)
        ensures
            ok == (bytes@.len() <= N),
            ok ==> final(self)@ == bytes@,
            !ok ==> *final(self) == *old(self),
    {
        if bytes.len() > N {
            return false;
        }
        self.reset_message();
        let _ = self.append_message(bytes);
        true
    }

    /// Forgets what is held and overwrites the storage with zeroes.
    pub fn reset_message(&mut self)
        ensures
            final(self)@ == Seq::<u8>::empty(),
            final(self).spec_is_zeroed(),
    {
        self.used = 0;
        self.data = zeroes();
    }
}

} // verus!
