//! Length-checked serial reading and writing over byte slices.
//!
//! A [`Reader`] walks a borrowed slice from front to back; a [`Writer`] fills
//! a caller-supplied slice from front to back. Neither allocates, and neither
//! ever touches a byte outside its slice: a read past the end or a write past
//! the capacity yields `None` and leaves the cursor where it was.

use vstd::prelude::*;

verus! {

/// A read cursor over a byte slice.
#[derive(Clone, Copy)]
pub struct Reader<'a> {
    buffer: &'a [u8],
    offs: usize,
}

impl<'a> Reader<'a> {
    #[verifier::type_invariant]
    spec fn inv(&self) -> bool {
        self.offs <= self.buffer@.len()
    }

    /// All bytes of the underlying slice.
    pub closed spec fn buffer(&self) -> Seq<u8> {
        self.buffer@
    }

    /// Number of bytes already consumed.
    pub closed spec fn spec_used(&self) -> nat {
        self.offs as nat
    }

    /// The cursor lies inside the slice.
    pub open spec fn wf(&self) -> bool {
        self.spec_used() <= self.buffer().len()
    }

    /// The bytes not yet consumed.
    pub open spec fn remaining(&self) -> Seq<u8> {
        self.buffer().subrange(self.spec_used() as int, self.buffer().len() as int)
    }

    /// The reader as it stands after `len` more bytes were consumed.
    pub open spec fn advanced(&self, other: &Self, len: nat) -> bool {
        &&& other.buffer() == self.buffer()
        &&& other.spec_used() == self.spec_used() + len
        &&& other.wf()
    }

    /// After `len` bytes were consumed, what is left is what was left before
    /// without its first `len` bytes.
    pub proof fn lemma_advanced(&self, other: &Self, len: nat)
        requires
            self.wf(),
            self.advanced(other, len),
        ensures
            len <= self.remaining().len(),
            other.remaining() == self.remaining().skip(len as int),
    {
        assert(other.remaining() =~= self.remaining().skip(len as int));
    }

    /// Starts reading at the front of `bytes`.
    pub fn init(bytes: &'a [u8]) -> (r: Reader<'a>)
        ensures
            r.buffer() == bytes@,
            r.spec_used() == 0,
            r.wf(),
    {
        Reader { buffer: bytes, offs: 0 }
    }

    /// Number of bytes consumed so far.
    pub fn used(&self) -> (n: usize)
        ensures
            n == self.spec_used(),
            self.wf(),
    {
        proof {
            use_type_invariant(self);
        }
        self.offs
    }

    /// Number of bytes that are left.
    pub fn left(&self) -> (n: usize)
        ensures
            n == self.remaining().len(),
            self.wf(),
    {
        proof {
            use_type_invariant(self);
        }
        self.buffer.len() - self.offs
    }

    /// Whether any byte is left.
    pub fn any_left(&self) -> (b: bool)
        ensures
            b == (self.remaining().len() > 0),
            self.wf(),
    {
        proof {
            use_type_invariant(self);
        }
        self.offs < self.buffer.len()
    }

    /// The next byte, without consuming it.
    pub fn peek_u8(&self) -> (v: Option<u8>)
        ensures
            self.wf(),
            v == if self.remaining().len() > 0 {
                Some(self.remaining()[0])
            } else {
                None
            },
    {
        proof {
            use_type_invariant(self);
        }
        if self.offs < self.buffer.len() {
            Some(self.buffer[self.offs])
        } else {
            None
        }
    }

    /// Consumes the next `len` bytes and returns them, or returns `None` and
    /// consumes nothing when fewer than `len` bytes are left.
    pub fn take(&mut self, len: usize) -> (out: Option<&'a [u8]>)
        ensures
            old(self).wf(),
            out is Some <==> len <= old(self).remaining().len(),
            out matches Some(s) ==> s@ == old(self).remaining().subrange(0, len as int)
                && old(self).advanced(final(self), len as nat),
            out is None ==> *final(self) == *old(self),
    {
        proof {
            use_type_invariant(&*self);
        }
        if self.buffer.len() - self.offs < len {
            return None;
        }
        let current = self.offs;
        self.offs = current + len;
        Some(vstd::slice::slice_subrange(self.buffer, current, current + len))
    }

    /// Consumes and returns everything that is left.
    pub fn rest(&mut self) -> (out: &'a [u8])
        ensures
            old(self).wf(),
            out@ == old(self).remaining(),
            old(self).advanced(final(self), old(self).remaining().len()),
    {
        proof {
            use_type_invariant(&*self);
        }
        let current = self.offs;
        self.offs = self.buffer.len();
        vstd::slice::slice_subrange(self.buffer, current, self.buffer.len())
    }
}

/// A write cursor over a caller-supplied byte slice.
pub struct Writer<'a> {
    buffer: &'a mut [u8],
    used: usize,
}

impl<'a> Writer<'a> {
    #[verifier::type_invariant]
    spec fn inv(&self) -> bool {
        self.used <= self.buffer@.len()
    }

    /// Number of bytes the underlying slice can hold.
    pub closed spec fn capacity(&self) -> nat {
        self.buffer@.len()
    }

    /// The bytes written so far.
    pub closed spec fn written(&self) -> Seq<u8> {
        if self.used <= self.buffer@.len() {
            self.buffer@.subrange(0, self.used as int)
        } else {
            self.buffer@
        }
    }

    /// What has been written fits the slice.
    pub open spec fn wf(&self) -> bool {
        self.written().len() <= self.capacity()
    }

    /// A writer never holds more than its slice can.
    pub proof fn lemma_wf(&self)
        ensures
            self.wf(),
    {
    }

    /// Number of bytes that can still be written.
    pub open spec fn spec_left(&self) -> nat {
        (self.capacity() - self.written().len()) as nat
    }

    /// Starts writing at the front of `buffer`.
    pub fn init(buffer: &'a mut [u8]) -> (w: Writer<'a>)
        ensures
            w.capacity() == old(buffer)@.len(),
            w.written() == Seq::<u8>::empty(),
            w.wf(),
    {
        Writer { buffer, used: 0 }
    }

    /// Number of bytes written so far.
    pub fn used(&self) -> (n: usize)
        ensures
            n == self.written().len(),
            self.wf(),
    {
        proof {
            use_type_invariant(self);
        }
        self.used
    }

    /// Number of bytes that can still be written.
    pub fn left(&self) -> (n: usize)
        ensures
            n == self.spec_left(),
            self.wf(),
    {
        proof {
            use_type_invariant(self);
        }
        self.buffer.len() - self.used
    }

    /// The bytes written so far.
    pub fn used_slice(&self) -> (out: &[u8])
        ensures
            out@ == self.written(),
            self.wf(),
    {
        proof {
            use_type_invariant(self);
        }
        vstd::slice::slice_subrange(self.buffer, 0, self.used)
    }

    /// Forgets what has been written; the capacity stays.
    pub fn clear(&mut self)
        ensures
            final(self).written() == Seq::<u8>::empty(),
            final(self).capacity() == old(self).capacity(),
            final(self).wf(),
    {
        self.used = 0;
    }

    /// Appends one byte, or returns `None` and writes nothing when the slice
    /// is full.
    pub fn push(&mut self, value: u8) -> (out: Option<u8>)
        ensures
            old(self).wf(),
            final(self).wf(),
            final(self).capacity() == old(self).capacity(),
            out is Some <==> old(self).spec_left() >= 1,
            out is Some ==> out == Some(value) && final(self).written() == old(self).written().push(
                value,
            ),
            out is None ==> final(self).written() == old(self).written(),
    {
        proof {
            use_type_invariant(&*self);
        }
        if self.used < self.buffer.len() {
            self.buffer[self.used] = value;
            self.used = self.used + 1;
            assert(self.written() =~= old(self).written().push(value));
            Some(value)
        } else {
            None
        }
    }

    /// Appends `value`, or returns `None` and writes nothing when it does not
    /// fit. On success returns the number of bytes appended.
    pub fn extend_from_slice(&mut self, value: &[u8]) -> (out: Option<usize>)
        ensures
            old(self).wf(),
            final(self).wf(),
            final(self).capacity() == old(self).capacity(),
            out is Some <==> value@.len() <= old(self).spec_left(),
            out matches Some(n) ==> n == value@.len() && final(self).written() ==
                old(self).written() + value@,
            out is None ==> final(self).written() == old(self).written(),
    {
        proof {
            use_type_invariant(&*self);
        }
        let len = value.len();
        if self.buffer.len() - self.used < len {
            return None;
        }
        let start = self.used;
        let mut i: usize = 0;
        while i < len
            invariant
                0 <= i <= len,
                len == value@.len(),
                start + len <= self.buffer@.len() <= usize::MAX,
                self.used == start,
                self.buffer@.len() == old(self).buffer@.len(),
                self.buffer@.subrange(0, start as int) == old(self).buffer@.subrange(
                    0,
                    start as int,
                ),
                self.buffer@.subrange(start as int, start + i) == value@.subrange(0, i as int),
            decreases len - i,
        {
            let ghost before = self.buffer@;
            self.buffer[start + i] = value[i];
            assert(self.buffer@.subrange(0, start as int) =~= before.subrange(0, start as int));
            assert(self.buffer@.subrange(start as int, start + i + 1) =~= value@.subrange(
                0,
                i + 1,
            )) by {
                assert forall|k: int| 0 <= k < i + 1 implies self.buffer@.subrange(
                    start as int,
                    start + i + 1,
                )[k] == value@[k] by {
                    if k < i {
                        assert(before.subrange(start as int, start + i)[k] == value@.subrange(
                            0,
                            i as int,
                        )[k]);
                    }
                }
            }
            i = i + 1;
        }
        self.used = start + len;
        assert(value@.subrange(0, len as int) =~= value@);
        assert(self.written() =~= old(self).written() + value@) by {
            assert forall|k: int| 0 <= k < start + len implies self.written()[k] ==
                (old(self).written() + value@)[k] by {
                if k < start {
                    assert(self.buffer@.subrange(0, start as int)[k] == old(self).buffer@.subrange(
                        0,
                        start as int,
                    )[k]);
                } else {
                    assert(self.buffer@.subrange(start as int, start + len)[k - start] == value@[k
                        - start]);
                }
            }
        }
        Some(len)
    }
}

/// A value with a wire format: a fixed way to write it to a [`Writer`] and to
/// read it back from a [`Reader`]. The format is stated over the value's view.
pub trait Codec: Sized + View {
    /// The bytes that encode a value.
    spec fn spec_encode(v: Self::V) -> Seq<u8>;

    /// The value that `bytes` begins with, and how many bytes it takes; `None`
    /// when `bytes` does not begin with one.
    spec fn spec_read(bytes: Seq<u8>) -> Option<(Self::V, nat)>;

    /// Whether a value is the one that reading its own encoding gives back.
    spec fn spec_canonical(v: Self::V) -> bool;

    /// Appends the encoding of the value. When it does not fit, nothing is
    /// written and the result is `None`.
    fn encode(&self, bytes: &mut Writer) -> (out: Option<usize>)
        ensures
            final(bytes).wf(),
            final(bytes).capacity() == old(bytes).capacity(),
            out is Some <==> Self::spec_encode(self@).len() <= old(bytes).spec_left(),
            out matches Some(n) ==> n == Self::spec_encode(self@).len() && final(bytes).written()
                == old(bytes).written() + Self::spec_encode(self@),
            out is None ==> final(bytes).written() == old(bytes).written(),
    ;

    /// Reads one value from the front of what is left. When what is left
    /// does not begin with one, nothing is consumed and the result is `None`.
    fn read(r: &mut Reader) -> (out: Option<Self>)
        ensures
            old(r).wf(),
            out is Some <==> Self::spec_read(old(r).remaining()) is Some,
            out matches Some(v) ==> Self::spec_read(old(r).remaining()) matches Some((w, n)) && v@
                == w && old(r).advanced(final(r), n),
            out is None ==> *final(r) == *old(r),
    ;

    /// Reading consumes a prefix of the input, yields a canonical value, and
    /// that prefix is the value's encoding.
    proof fn lemma_read_encode(bytes: Seq<u8>)
        ensures
            Self::spec_read(bytes) matches Some((v, n)) ==> n <= bytes.len()
                && Self::spec_canonical(v) && Self::spec_encode(v) == bytes.subrange(0, n as int),
    ;

    /// Reading the encoding of a canonical value, whatever follows it, gives
    /// the value back and consumes exactly the encoding.
    proof fn lemma_encode_read(v: Self::V, rest: Seq<u8>)
        requires
            Self::spec_canonical(v),
        ensures
            Self::spec_read(Self::spec_encode(v) + rest) == Some((v, Self::spec_encode(v).len())),
    ;
}

impl Codec for u8 {
    open spec fn spec_encode(v: u8) -> Seq<u8> {
        seq![v]
    }

    open spec fn spec_read(bytes: Seq<u8>) -> Option<(Self::V, nat)> {
        if bytes.len() >= 1 {
            Some((bytes[0], 1nat))
        } else {
            None
        }
    }

    open spec fn spec_canonical(v: Self::V) -> bool {
        true
    }

    fn encode(&self, bytes: &mut Writer) -> (out: Option<usize>) {
        match bytes.push(*self) {
            Some(_) => {
                assert(old(bytes).written().push(*self) =~= old(bytes).written()
                    + Self::spec_encode(*self));
                Some(1)
            },
            None => None,
        }
    }

    fn read(r: &mut Reader) -> (out: Option<Self>) {
        match r.take(1) {
            Some(s) => Some(s[0]),
            None => None,
        }
    }

    proof fn lemma_read_encode(bytes: Seq<u8>) {
        if bytes.len() >= 1 {
            assert(seq![bytes[0]] =~= bytes.subrange(0, 1));
        }
    }

    proof fn lemma_encode_read(v: Self::V, rest: Seq<u8>) {
    }
}

/// The two bytes of `v`, least significant first.
pub open spec fn spec_u16_le(v: u16) -> Seq<u8> {
    seq![(v % 256) as u8, (v / 256) as u8]
}

/// The four bytes of `v`, least significant first.
pub open spec fn spec_u32_le(v: u32) -> Seq<u8> {
    seq![
        (v % 256) as u8,
        ((v / 256) % 256) as u8,
        ((v / 65536) % 256) as u8,
        (v / 16777216) as u8,
    ]
}

impl Codec for u16 {
    open spec fn spec_encode(v: u16) -> Seq<u8> {
        spec_u16_le(v)
    }

    open spec fn spec_read(bytes: Seq<u8>) -> Option<(Self::V, nat)> {
        if bytes.len() >= 2 {
            Some(((bytes[0] + 256 * bytes[1]) as u16, 2nat))
        } else {
            None
        }
    }

    open spec fn spec_canonical(v: Self::V) -> bool {
        true
    }

    fn encode(&self, bytes: &mut Writer) -> (out: Option<usize>) {
        let v = *self;
        let raw: [u8; 2] = [(v % 256) as u8, (v / 256) as u8];
        assert(raw@ =~= Self::spec_encode(*self));
        bytes.extend_from_slice(&raw)
    }

    fn read(r: &mut Reader) -> (out: Option<Self>) {
        match r.take(2) {
            Some(s) => {
                let lo: u16 = s[0] as u16;
                let hi: u16 = s[1] as u16;
                Some(lo + 256 * hi)
            },
            None => None,
        }
    }

    proof fn lemma_read_encode(bytes: Seq<u8>) {
        if bytes.len() >= 2 {
            let v = (bytes[0] + 256 * bytes[1]) as u16;
            assert(Self::spec_encode(v) =~= bytes.subrange(0, 2));
        }
    }

    proof fn lemma_encode_read(v: Self::V, rest: Seq<u8>) {
    }
}

impl Codec for u32 {
    open spec fn spec_encode(v: u32) -> Seq<u8> {
        spec_u32_le(v)
    }

    open spec fn spec_read(bytes: Seq<u8>) -> Option<(Self::V, nat)> {
        if bytes.len() >= 4 {
            Some(
                (
                    (bytes[0] + 256 * bytes[1] + 65536 * bytes[2] + 16777216 * bytes[3]) as u32,
                    4nat,
                ),
            )
        } else {
            None
        }
    }

    open spec fn spec_canonical(v: Self::V) -> bool {
        true
    }

    fn encode(&self, bytes: &mut Writer) -> (out: Option<usize>) {
        let v = *self;
        let raw: [u8; 4] = [
            (v % 256) as u8,
            ((v / 256) % 256) as u8,
            ((v / 65536) % 256) as u8,
            (v / 16777216) as u8,
        ];
        assert(raw@ =~= Self::spec_encode(*self));
        bytes.extend_from_slice(&raw)
    }

    fn read(r: &mut Reader) -> (out: Option<Self>) {
        match r.take(4) {
            Some(s) => {
                let b0: u32 = s[0] as u32;
                let b1: u32 = s[1] as u32;
                let b2: u32 = s[2] as u32;
                let b3: u32 = s[3] as u32;
                Some(b0 + 256 * b1 + 65536 * b2 + 16777216 * b3)
            },
            None => None,
        }
    }

    proof fn lemma_read_encode(bytes: Seq<u8>) {
        if bytes.len() >= 4 {
            let b0 = bytes[0] as u32;
            let b1 = bytes[1] as u32;
            let b2 = bytes[2] as u32;
            let b3 = bytes[3] as u32;
            let v = (b0 + 256 * b1 + 65536 * b2 + 16777216 * b3) as u32;
            assert(b0 < 256 && b1 < 256 && b2 < 256 && b3 < 256 && v == b0 + 256 * b1 + 65536 * b2
                + 16777216 * b3 ==> v % 256 == b0 && (v / 256) % 256 == b1 && (v / 65536) % 256
                == b2 && v / 16777216 == b3) by (bit_vector);
            assert(Self::spec_encode(v) =~= bytes.subrange(0, 4));
        }
    }

    proof fn lemma_encode_read(v: Self::V, rest: Seq<u8>) {
        let b0 = (v % 256) as u32;
        let b1 = ((v / 256) % 256) as u32;
        let b2 = ((v / 65536) % 256) as u32;
        let b3 = (v / 16777216) as u32;
        assert(v % 256 + 256 * ((v / 256) % 256) + 65536 * ((v / 65536) % 256) + 16777216 * (v
            / 16777216) == v) by (bit_vector);
    }
}

} // verus!
