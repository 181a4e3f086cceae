//! A fixed-capacity byte buffer with a length-prefixed wire format.
//!
//! `FixedByteArray` holds at most `MAX_ARR_SIZE` payload bytes inside a
//! constant-size storage region, so that a value embedded in consensus data
//! has a predictable in-memory size and decoding untrusted bytes can never
//! allocate unbounded memory: the declared length is checked against the
//! capacity before any payload byte is read.

use vstd::prelude::*;
use vstd::slice::slice_subrange;

verus! {

/// The fixed capacity: the largest number of payload bytes a
/// `FixedByteArray` can hold.
pub const MAX_ARR_SIZE: usize = 63;

/// Failures of the bounded codec.
#[derive(Clone, Copy, Debug, PartialEq, Eq, Structural)]
pub enum CodecError {
    /// The declared or actual length exceeds `MAX_ARR_SIZE`.
    CapacityExceeded,
    /// The stream offers fewer bytes than its declared length.
    Truncated,
}

/// A fixed-capacity buffer holding `len` logically valid bytes. Bytes of the
/// storage region beyond `len` are always zero and are never exposed by any
/// read operation.
#[derive(Clone, Copy, Debug, PartialEq, Eq)]
pub struct FixedByteArray {
    elems: [u8; MAX_ARR_SIZE],
    len: u8,
}

impl View for FixedByteArray {
    type V = Seq<u8>;

    /// The logical content: exactly the first `len` stored bytes.
    closed spec fn view(&self) -> Seq<u8> {
        self.elems@.subrange(0, self.len as int)
    }
}

/// The serialized form of a payload `s`: its length as a single byte,
/// followed by the raw payload bytes, nothing more.
pub open spec fn spec_serialize(s: Seq<u8>) -> Seq<u8>
    recommends
        s.len() <= MAX_ARR_SIZE,
{
    seq![s.len() as u8] + s
}

/// What decoding a stream yields: the payload and the number of bytes
/// consumed, or the first failure. A declared length above `MAX_ARR_SIZE`
/// is rejected before any payload byte is looked at.
pub open spec fn spec_deserialize(buf: Seq<u8>) -> Result<(Seq<u8>, int), CodecError> {
    if buf.len() == 0 {
        Err(CodecError::Truncated)
    } else if buf[0] as int > MAX_ARR_SIZE as int {
        Err(CodecError::CapacityExceeded)
    } else if buf.len() < 1 + buf[0] as int {
        Err(CodecError::Truncated)
    } else {
        Ok((buf.subrange(1, 1 + buf[0] as int), 1 + buf[0] as int))
    }
}

impl FixedByteArray {
    #[verifier::type_invariant]
    spec fn inv(self) -> bool {
        self.len as int <= MAX_ARR_SIZE as int && forall|i: int|
            self.len as int <= i < MAX_ARR_SIZE as int ==> self.elems@[i] == 0
    }

    /// An empty buffer.
    pub fn new() -> (r: Self)
        ensures
            r@ == Seq::<u8>::empty(),
    {
        Self::default()
    }

    /// A read-only view of exactly the first `len` bytes; unused storage is
    /// never touched. The view is never longer than the capacity.
    pub fn as_slice(&self) -> (r: &[u8])
        ensures
            r@ == self@,
            r@.len() <= MAX_ARR_SIZE,
    {
        proof {
            use_type_invariant(&*self);
        }
        slice_subrange(self.elems.as_slice(), 0, self.len as usize)
    }

    /// Whether the buffer holds as many bytes as it can.
    #[inline]
    pub fn is_full(&self) -> (r: bool)
        ensures
            r == (self@.len() == MAX_ARR_SIZE as int),
    {
        proof {
            use_type_invariant(&*self);
        }
        self.len as usize == MAX_ARR_SIZE
    }

    /// The number of logically valid bytes; never more than the capacity,
    /// whatever buffer value the caller holds.
    #[inline]
    pub fn len(&self) -> (r: usize)
        ensures
            r == self@.len(),
            r <= MAX_ARR_SIZE,
    {
        proof {
            use_type_invariant(&*self);
        }
        self.len as usize
    }

    /// Whether the buffer holds no bytes.
    #[inline]
    pub fn is_empty(&self) -> (r: bool)
        ensures
            r == (self@.len() == 0),
    {
        proof {
            use_type_invariant(&*self);
        }
        self.len == 0
    }

    /// A buffer holding a copy of `input`; the capacity check has already
    /// been done by the caller.
    fn copy_from(input: &[u8]) -> (r: Self)
        requires
            input@.len() <= MAX_ARR_SIZE as int,
        ensures
            r@ == input@,
    {
        let n: usize = input.len();
        let mut elems: [u8; MAX_ARR_SIZE] = [0u8; MAX_ARR_SIZE];
        let mut i: usize = 0;
        while i < n
            invariant
                i <= n,
                n == input@.len(),
                n <= MAX_ARR_SIZE as int,
                forall|j: int| 0 <= j < i ==> elems@[j] == input@[j],
                forall|j: int| i <= j < MAX_ARR_SIZE as int ==> elems@[j] == 0,
            decreases n - i,
        {
            elems[i] = input[i];
            i += 1;
        }
        let r = FixedByteArray { elems, len: n as u8 };
        proof {
            assert(r@ =~= input@);
        }
        r
    }

    /// A buffer holding a copy of `input`, or `CapacityExceeded` exactly
    /// when `input` is longer than `MAX_ARR_SIZE`.
    pub fn from_bytes(input: &[u8]) -> (r: Result<Self, CodecError>)
        ensures
            input@.len() <= MAX_ARR_SIZE as int ==> (r matches Ok(a) && a@ == input@),
            input@.len() > MAX_ARR_SIZE as int ==> r == Err::<Self, CodecError>(
                CodecError::CapacityExceeded,
            ),
    {
        if input.len() > MAX_ARR_SIZE {
            return Err(CodecError::CapacityExceeded);
        }
        Ok(Self::copy_from(input))
    }

    /// The serialized form: the length as one byte, then exactly the `len`
    /// payload bytes, in order — `1 + len` bytes in all, at most
    /// `1 + MAX_ARR_SIZE`.
    pub fn serialize(&self) -> (r: Vec<u8>)
        ensures
            r@ == spec_serialize(self@),
            self@.len() <= MAX_ARR_SIZE,
            r@.len() == 1 + self@.len(),
    {
        proof {
            use_type_invariant(&*self);
        }
        let data = self.as_slice();
        let mut out: Vec<u8> = Vec::new();
        out.push(self.len);
        let mut i: usize = 0;
        while i < data.len()
            invariant
                i <= data@.len(),
                data@ == self@,
                self.len as int == self@.len(),
                out@ == seq![self.len] + data@.subrange(0, i as int),
            decreases data@.len() - i,
        {
            out.push(data[i]);
            i += 1;
        }
        proof {
            assert(out@ =~= spec_serialize(self@));
        }
        out
    }

    /// Decode a buffer from the front of `buf`: one length byte, then that
    /// many payload bytes. On success the pair holds the buffer and the
    /// number of bytes consumed; the rest of `buf` is left unread. A
    /// declared length above `MAX_ARR_SIZE` is rejected before any payload
    /// byte is read or copied.
    pub fn deserialize(buf: &[u8]) -> (r: Result<(Self, usize), CodecError>)
        ensures
            match r {
                Ok(p) => spec_deserialize(buf@) matches Ok(q) && q.0 == p.0@ && q.1 == p.1 as int,
                Err(e) => spec_deserialize(buf@) == Err::<(Seq<u8>, int), CodecError>(e),
            },
    {
        if buf.len() == 0 {
            return Err(CodecError::Truncated);
        }
        let declared: usize = buf[0] as usize;
        if declared > MAX_ARR_SIZE {
            return Err(CodecError::CapacityExceeded);
        }
        if buf.len() - 1 < declared {
            return Err(CodecError::Truncated);
        }
        let payload = slice_subrange(buf, 1, 1 + declared);
        Ok((Self::copy_from(payload), 1 + declared))
    }
}

impl Default for FixedByteArray {
    /// An empty buffer with zeroed storage.
    fn default() -> (r: Self)
        ensures
            r@ == Seq::<u8>::empty(),
    {
        let r = FixedByteArray { elems: [0u8; MAX_ARR_SIZE], len: 0 };
        proof {
            assert(r@ =~= Seq::<u8>::empty());
        }
        r
    }
}

/// Round trip: serializing a payload of at most `MAX_ARR_SIZE` bytes and
/// decoding the result, with anything at all appended after it, yields the
/// payload back and consumes exactly one byte more than the payload's
/// length, leaving the appended bytes unread.
pub proof fn lemma_serialize_deserialize_round_trip(b: Seq<u8>, rest: Seq<u8>)
    requires
        b.len() <= MAX_ARR_SIZE,
    ensures
        spec_deserialize(spec_serialize(b) + rest) matches Ok(p) && p.0 == b && p.1 == 1 + b.len(),
{
    let stream = spec_serialize(b) + rest;
    assert(stream[0] == b.len() as u8);
    assert(stream.subrange(1, 1 + b.len() as int) =~= b);
}

} // verus!
