//! Zero-copy byte buffers with bounds-checked little-endian primitive access.
//!
//! `ReadBuf` is an immutable view over borrowed bytes; `WriteBuf` owns its
//! byte region. Every access is checked against the region's length by a
//! precondition: an out-of-range access is impossible in verified callers,
//! never silently truncated.

use vstd::bytes::*;
use vstd::pervasive::VecAdditionalExecFns;
use vstd::prelude::*;
use vstd::slice::slice_subrange;

verus! {

/// Little-endian image of a signed 64-bit value: the little-endian bytes of
/// its two's-complement reinterpretation.
pub open spec fn spec_i64_to_le_bytes(x: i64) -> Seq<u8> {
    spec_u64_to_le_bytes(x as u64)
}

/// The signed 64-bit value read from 8 little-endian two's-complement bytes.
pub open spec fn spec_i64_from_le_bytes(s: Seq<u8>) -> i64
    recommends
        s.len() == 8,
{
    spec_u64_from_le_bytes(s) as i64
}

/// Little-endian image of a signed 32-bit value.
pub open spec fn spec_i32_to_le_bytes(x: i32) -> Seq<u8> {
    spec_u32_to_le_bytes(x as u32)
}

/// The signed 32-bit value read from 4 little-endian bytes.
pub open spec fn spec_i32_from_le_bytes(s: Seq<u8>) -> i32
    recommends
        s.len() == 4,
{
    spec_u32_from_le_bytes(s) as i32
}

/// Little-endian image of a signed 16-bit value.
pub open spec fn spec_i16_to_le_bytes(x: i16) -> Seq<u8> {
    spec_u16_to_le_bytes(x as u16)
}

/// The signed 16-bit value read from 2 little-endian bytes.
pub open spec fn spec_i16_from_le_bytes(s: Seq<u8>) -> i16
    recommends
        s.len() == 2,
{
    spec_u16_from_le_bytes(s) as i16
}

pub proof fn lemma_i64_le_bytes_round_trip(x: i64)
    ensures
        spec_i64_to_le_bytes(x).len() == 8,
        spec_i64_from_le_bytes(spec_i64_to_le_bytes(x)) == x,
{
    lemma_auto_spec_u64_to_from_le_bytes();
    let u = x as u64;
    assert(spec_u64_to_le_bytes(u).len() == 8);
    assert(spec_u64_from_le_bytes(spec_u64_to_le_bytes(u)) == u);
    assert((x as u64) as i64 == x) by (bit_vector);
}

pub proof fn lemma_i32_le_bytes_round_trip(x: i32)
    ensures
        spec_i32_to_le_bytes(x).len() == 4,
        spec_i32_from_le_bytes(spec_i32_to_le_bytes(x)) == x,
{
    lemma_auto_spec_u32_to_from_le_bytes();
    let u = x as u32;
    assert(spec_u32_to_le_bytes(u).len() == 4);
    assert(spec_u32_from_le_bytes(spec_u32_to_le_bytes(u)) == u);
    assert((x as u32) as i32 == x) by (bit_vector);
}

pub proof fn lemma_i16_le_bytes_round_trip(x: i16)
    ensures
        spec_i16_to_le_bytes(x).len() == 2,
        spec_i16_from_le_bytes(spec_i16_to_le_bytes(x)) == x,
{
    lemma_auto_spec_u16_to_from_le_bytes();
    let u = x as u16;
    assert(spec_u16_to_le_bytes(u).len() == 2);
    assert(spec_u16_from_le_bytes(spec_u16_to_le_bytes(u)) == u);
    assert((x as u16) as i16 == x) by (bit_vector);
}

/// `post` is `pre` with exactly `bytes` written at `lo`: same length, the
/// written range holds `bytes`, and every byte outside it is unchanged.
pub open spec fn buf_wrote(pre: Seq<u8>, post: Seq<u8>, lo: int, bytes: Seq<u8>) -> bool {
    &&& post.len() == pre.len()
    &&& post.subrange(lo, lo + bytes.len() as int) == bytes
    &&& forall|j: int|
        0 <= j < pre.len() && !(lo <= j < lo + bytes.len()) ==> post[j] == pre[j]
}

/// A byte region seen through a view always fits the machine: its length
/// is bounded by `usize::MAX`.
pub broadcast proof fn lemma_read_buf_len_bound<'a>(b: ReadBuf<'a>)
    ensures
        #[trigger] b@.len() <= usize::MAX,
{
    vstd::slice::axiom_spec_len::<u8>(b.data);
}

/// As `lemma_read_buf_len_bound`, for the owned write buffer.
pub broadcast proof fn lemma_write_buf_len_bound(b: &WriteBuf)
    ensures
        #[trigger] b@.len() <= usize::MAX,
{
    vstd::std_specs::vec::axiom_spec_len(&b.data);
}

/// An immutable view over a caller-owned byte region.
#[derive(Clone, Copy)]
pub struct ReadBuf<'a> {
    data: &'a [u8],
}

impl<'a> View for ReadBuf<'a> {
    type V = Seq<u8>;

    closed spec fn view(&self) -> Seq<u8> {
        self.data@
    }
}

impl<'a> ReadBuf<'a> {
    pub fn new(data: &'a [u8]) -> (r: Self)
        ensures
            r@ == data@,
    {
        Self { data }
    }

    pub fn len(&self) -> (r: usize)
        ensures
            r == self@.len(),
    {
        self.data.len()
    }

    pub fn get_u8_at(&self, index: usize) -> (r: u8)
        requires
            index < self@.len(),
        ensures
            r == self@[index as int],
    {
        self.data[index]
    }

    pub fn get_i8_at(&self, index: usize) -> (r: i8)
        requires
            index < self@.len(),
        ensures
            r == self@[index as int] as i8,
    {
        #[verifier::truncate] (self.data[index] as i8)
    }

    pub fn get_u16_at(&self, index: usize) -> (r: u16)
        requires
            index + 2 <= self@.len(),
        ensures
            r == spec_u16_from_le_bytes(self@.subrange(index as int, index + 2)),
    {
        proof {
            lemma_read_buf_len_bound(*self);
        }
        u16_from_le_bytes(slice_subrange(self.data, index, index + 2))
    }

    pub fn get_i16_at(&self, index: usize) -> (r: i16)
        requires
            index + 2 <= self@.len(),
        ensures
            r == spec_i16_from_le_bytes(self@.subrange(index as int, index + 2)),
    {
        proof {
            lemma_read_buf_len_bound(*self);
        }
        let u = u16_from_le_bytes(slice_subrange(self.data, index, index + 2));
        #[verifier::truncate] (u as i16)
    }

    pub fn get_u32_at(&self, index: usize) -> (r: u32)
        requires
            index + 4 <= self@.len(),
        ensures
            r == spec_u32_from_le_bytes(self@.subrange(index as int, index + 4)),
    {
        proof {
            lemma_read_buf_len_bound(*self);
        }
        u32_from_le_bytes(slice_subrange(self.data, index, index + 4))
    }

    pub fn get_i32_at(&self, index: usize) -> (r: i32)
        requires
            index + 4 <= self@.len(),
        ensures
            r == spec_i32_from_le_bytes(self@.subrange(index as int, index + 4)),
    {
        proof {
            lemma_read_buf_len_bound(*self);
        }
        let u = u32_from_le_bytes(slice_subrange(self.data, index, index + 4));
        #[verifier::truncate] (u as i32)
    }

    pub fn get_u64_at(&self, index: usize) -> (r: u64)
        requires
            index + 8 <= self@.len(),
        ensures
            r == spec_u64_from_le_bytes(self@.subrange(index as int, index + 8)),
    {
        proof {
            lemma_read_buf_len_bound(*self);
        }
        u64_from_le_bytes(slice_subrange(self.data, index, index + 8))
    }

    pub fn get_i64_at(&self, index: usize) -> (r: i64)
        requires
            index + 8 <= self@.len(),
        ensures
            r == spec_i64_from_le_bytes(self@.subrange(index as int, index + 8)),
    {
        proof {
            lemma_read_buf_len_bound(*self);
        }
        let u = u64_from_le_bytes(slice_subrange(self.data, index, index + 8));
        #[verifier::truncate] (u as i64)
    }

    pub fn get_slice_at(&self, index: usize, len: usize) -> (r: &'a [u8])
        requires
            index + len <= self@.len(),
        ensures
            r@ == self@.subrange(index as int, index + len),
    {
        proof {
            lemma_read_buf_len_bound(*self);
        }
        slice_subrange(self.data, index, index + len)
    }
}

/// A mutable byte region with bounds-checked little-endian writes. It owns
/// its bytes; writes never change the region's length.
pub struct WriteBuf {
    data: Vec<u8>,
}

impl View for WriteBuf {
    type V = Seq<u8>;

    closed spec fn view(&self) -> Seq<u8> {
        self.data@
    }
}

impl WriteBuf {
    pub fn new(data: Vec<u8>) -> (r: Self)
        ensures
            r@ == data@,
    {
        Self { data }
    }

    pub fn len(&self) -> (r: usize)
        ensures
            r == self@.len(),
    {
        self.data.len()
    }

    pub fn as_slice(&self) -> (r: &[u8])
        ensures
            r@ == self@,
    {
        self.data.as_slice()
    }

    pub fn into_vec(self) -> (r: Vec<u8>)
        ensures
            r@ == self@,
    {
        self.data
    }

    pub fn put_u8_at(&mut self, index: usize, value: u8)
        requires
            index < old(self)@.len(),
        ensures
            buf_wrote(old(self)@, final(self)@, index as int, seq![value]),
    {
        self.data.set(index, value);
        proof {
            assert(self@.subrange(index as int, index + 1) =~= seq![value]);
        }
    }

    pub fn put_i8_at(&mut self, index: usize, value: i8)
        requires
            index < old(self)@.len(),
        ensures
            buf_wrote(old(self)@, final(self)@, index as int, seq![value as u8]),
    {
        self.data.set(index, #[verifier::truncate] (value as u8));
        proof {
            assert(self@.subrange(index as int, index + 1) =~= seq![value as u8]);
        }
    }

    pub fn put_bytes_at<const COUNT: usize>(&mut self, index: usize, bytes: &[u8; COUNT]) -> (r:
        usize)
        requires
            index + COUNT <= old(self)@.len(),
        ensures
            buf_wrote(old(self)@, final(self)@, index as int, bytes@),
            r == COUNT,
    {
        self.put_slice_at(index, bytes.as_slice())
    }

    pub fn put_slice_at(&mut self, index: usize, src: &[u8]) -> (r: usize)
        requires
            index + src@.len() <= old(self)@.len(),
        ensures
            buf_wrote(old(self)@, final(self)@, index as int, src@),
            r == src@.len(),
    {
        let n = src.len();
        proof {
            lemma_write_buf_len_bound(self);
        }
        let mut k: usize = 0;
        while k < n
            invariant
                n == src@.len(),
                k <= n,
                index + n <= self@.len(),
                self@.len() <= usize::MAX,
                self@.len() == old(self)@.len(),
                forall|j: int| 0 <= j < self@.len() && !(index <= j < index + k) ==> self@[j]
                    == old(self)@[j],
                forall|j: int| 0 <= j < k ==> self@[index + j] == src@[j],
            decreases n - k,
        {
            self.data.set(index + k, src[k]);
            k = k + 1;
        }
        proof {
            assert(self@.subrange(index as int, index + n) =~= src@);
        }
        n
    }

    pub fn put_u16_at(&mut self, index: usize, value: u16)
        requires
            index + 2 <= old(self)@.len(),
        ensures
            buf_wrote(old(self)@, final(self)@, index as int, spec_u16_to_le_bytes(value)),
    {
        proof {
            lemma_auto_spec_u16_to_from_le_bytes();
        }
        let bytes = u16_to_le_bytes(value);
        self.put_slice_at(index, bytes.as_slice());
    }

    pub fn put_i16_at(&mut self, index: usize, value: i16)
        requires
            index + 2 <= old(self)@.len(),
        ensures
            buf_wrote(old(self)@, final(self)@, index as int, spec_i16_to_le_bytes(value)),
    {
        proof {
            lemma_auto_spec_u16_to_from_le_bytes();
        }
        let bytes = u16_to_le_bytes(#[verifier::truncate] (value as u16));
        self.put_slice_at(index, bytes.as_slice());
    }

    pub fn put_u32_at(&mut self, index: usize, value: u32)
        requires
            index + 4 <= old(self)@.len(),
        ensures
            buf_wrote(old(self)@, final(self)@, index as int, spec_u32_to_le_bytes(value)),
    {
        proof {
            lemma_auto_spec_u32_to_from_le_bytes();
        }
        let bytes = u32_to_le_bytes(value);
        self.put_slice_at(index, bytes.as_slice());
    }

    pub fn put_i32_at(&mut self, index: usize, value: i32)
        requires
            index + 4 <= old(self)@.len(),
        ensures
            buf_wrote(old(self)@, final(self)@, index as int, spec_i32_to_le_bytes(value)),
    {
        proof {
            lemma_auto_spec_u32_to_from_le_bytes();
        }
        let bytes = u32_to_le_bytes(#[verifier::truncate] (value as u32));
        self.put_slice_at(index, bytes.as_slice());
    }

    pub fn put_u64_at(&mut self, index: usize, value: u64)
        requires
            index + 8 <= old(self)@.len(),
        ensures
            buf_wrote(old(self)@, final(self)@, index as int, spec_u64_to_le_bytes(value)),
    {
        proof {
            lemma_auto_spec_u64_to_from_le_bytes();
        }
        let bytes = u64_to_le_bytes(value);
        self.put_slice_at(index, bytes.as_slice());
    }

    pub fn put_i64_at(&mut self, index: usize, value: i64)
        requires
            index + 8 <= old(self)@.len(),
        ensures
            buf_wrote(old(self)@, final(self)@, index as int, spec_i64_to_le_bytes(value)),
    {
        proof {
            lemma_auto_spec_u64_to_from_le_bytes();
        }
        let bytes = u64_to_le_bytes(#[verifier::truncate] (value as u64));
        self.put_slice_at(index, bytes.as_slice());
    }
}

} // verus!
