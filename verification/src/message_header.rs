//! The fixed 8-byte preamble carried in front of every message: block
//! length, template id, schema id and schema version, each a little-endian
//! `u16` at offsets 0, 2, 4 and 6.
//!
//! The header is what makes schema evolution work: a decoder reads the
//! sender's block length and version from here and sizes its fixed block by
//! them, not by its own compiled constants.

use crate::buffer::{buf_wrote, ReadBuf, WriteBuf};
use crate::SbeErr;
use vstd::bytes::*;
use vstd::prelude::*;

verus! {

broadcast use {crate::buffer::lemma_read_buf_len_bound, crate::buffer::lemma_write_buf_len_bound};

/// Encoded size of the message header in bytes.
pub const ENCODED_LENGTH: usize = 8;

/// The four header fields of a message.
#[derive(Clone, Copy, Debug, PartialEq, Eq, Structural)]
pub struct MessageHeader {
    pub block_length: u16,
    pub template_id: u16,
    pub schema_id: u16,
    pub version: u16,
}

/// The 8-byte wire image of a header.
pub open spec fn spec_header_bytes(h: MessageHeader) -> Seq<u8> {
    spec_u16_to_le_bytes(h.block_length) + spec_u16_to_le_bytes(h.template_id)
        + spec_u16_to_le_bytes(h.schema_id) + spec_u16_to_le_bytes(h.version)
}

/// The header read from the first 8 bytes of `s`.
pub open spec fn spec_header_from_bytes(s: Seq<u8>) -> MessageHeader
    recommends
        s.len() >= 8,
{
    MessageHeader {
        block_length: spec_u16_from_le_bytes(s.subrange(0, 2)),
        template_id: spec_u16_from_le_bytes(s.subrange(2, 4)),
        schema_id: spec_u16_from_le_bytes(s.subrange(4, 6)),
        version: spec_u16_from_le_bytes(s.subrange(6, 8)),
    }
}

/// Any header tuple encodes to 8 bytes that decode back to the identical
/// tuple.
pub proof fn lemma_header_round_trip(h: MessageHeader)
    ensures
        spec_header_bytes(h).len() == 8,
        spec_header_from_bytes(spec_header_bytes(h)) == h,
{
    lemma_auto_spec_u16_to_from_le_bytes();
    let s = spec_header_bytes(h);
    assert(s.subrange(0, 2) =~= spec_u16_to_le_bytes(h.block_length));
    assert(s.subrange(2, 4) =~= spec_u16_to_le_bytes(h.template_id));
    assert(s.subrange(4, 6) =~= spec_u16_to_le_bytes(h.schema_id));
    assert(s.subrange(6, 8) =~= spec_u16_to_le_bytes(h.version));
}

/// Writes `h` at `offset`, leaving every byte outside `offset..offset + 8`
/// unchanged.
pub fn write_message_header(buf: &mut WriteBuf, offset: usize, h: &MessageHeader)
    requires
        offset + ENCODED_LENGTH <= old(buf)@.len(),
    ensures
        buf_wrote(old(buf)@, final(buf)@, offset as int, spec_header_bytes(*h)),
{
    buf.put_u16_at(offset, h.block_length);
    buf.put_u16_at(offset + 2, h.template_id);
    buf.put_u16_at(offset + 4, h.schema_id);
    buf.put_u16_at(offset + 6, h.version);
    proof {
        lemma_auto_spec_u16_to_from_le_bytes();
        assert(buf@.subrange(offset as int, offset + 2) =~= spec_u16_to_le_bytes(
            h.block_length,
        ));
        assert(buf@.subrange(offset + 2, offset + 4) =~= spec_u16_to_le_bytes(h.template_id));
        assert(buf@.subrange(offset + 4, offset + 6) =~= spec_u16_to_le_bytes(h.schema_id));
        assert(buf@.subrange(offset + 6, offset + 8) =~= spec_u16_to_le_bytes(h.version));
        assert(buf@.subrange(offset as int, offset + 8) =~= spec_header_bytes(*h));
    }
}

/// Reads the header at `offset`.
pub fn read_message_header(buf: &ReadBuf, offset: usize) -> (h: MessageHeader)
    requires
        offset + ENCODED_LENGTH <= buf@.len(),
    ensures
        h == spec_header_from_bytes(buf@.subrange(offset as int, offset + 8)),
{
    let h = MessageHeader {
        block_length: buf.get_u16_at(offset),
        template_id: buf.get_u16_at(offset + 2),
        schema_id: buf.get_u16_at(offset + 4),
        version: buf.get_u16_at(offset + 6),
    };
    proof {
        let s = buf@.subrange(offset as int, offset + 8);
        assert(s.subrange(0, 2) =~= buf@.subrange(offset as int, offset + 2));
        assert(s.subrange(2, 4) =~= buf@.subrange(offset + 2, offset + 4));
        assert(s.subrange(4, 6) =~= buf@.subrange(offset + 4, offset + 6));
        assert(s.subrange(6, 8) =~= buf@.subrange(offset + 6, offset + 8));
    }
    h
}

/// Decode-side view of a message header: wraps the received buffer and hands
/// the fields out, then surrenders the buffer to the body decoder.
#[derive(Clone, Copy)]
pub struct MessageHeaderDecoder<'a> {
    buf: Option<ReadBuf<'a>>,
    offset: usize,
}

impl<'a> MessageHeaderDecoder<'a> {
    /// The buffer this decoder was wrapped around, if any.
    pub closed spec fn spec_buf(&self) -> Option<ReadBuf<'a>> {
        self.buf
    }

    /// Offset of the header within the buffer.
    pub closed spec fn spec_offset(&self) -> int {
        self.offset as int
    }

    /// Wrapped around a buffer, with the whole header in bounds.
    pub open spec fn wf(&self) -> bool {
        self.spec_buf() matches Some(b) && self.spec_offset() + 8 <= b@.len()
    }

    /// The header value this decoder reads.
    pub open spec fn spec_header(&self) -> MessageHeader
        recommends
            self.wf(),
    {
        spec_header_from_bytes(
            self.spec_buf()->Some_0@.subrange(self.spec_offset(), self.spec_offset() + 8),
        )
    }

    /// A decoder with no parent buffer established yet.
    pub fn new() -> (r: Self)
        ensures
            r.spec_buf() is None,
    {
        Self { buf: None, offset: 0 }
    }

    pub fn wrap(self, buf: ReadBuf<'a>, offset: usize) -> (r: Self)
        requires
            offset + ENCODED_LENGTH <= buf@.len(),
        ensures
            r.wf(),
            r.spec_buf() == Some(buf),
            r.spec_offset() == offset as int,
    {
        Self { buf: Some(buf), offset }
    }

    pub fn block_length(&self) -> (r: u16)
        requires
            self.wf(),
        ensures
            r == self.spec_header().block_length,
    {
        let b = self.buf.unwrap();
        let r = b.get_u16_at(self.offset);
        proof {
            let s = self.spec_buf()->Some_0@.subrange(self.spec_offset(), self.spec_offset() + 8);
            assert(s.subrange(0, 2) =~= self.spec_buf()->Some_0@.subrange(
                self.spec_offset(),
                self.spec_offset() + 2,
            ));
        }
        r
    }

    pub fn template_id(&self) -> (r: u16)
        requires
            self.wf(),
        ensures
            r == self.spec_header().template_id,
    {
        let b = self.buf.unwrap();
        let r = b.get_u16_at(self.offset + 2);
        proof {
            let s = self.spec_buf()->Some_0@.subrange(self.spec_offset(), self.spec_offset() + 8);
            assert(s.subrange(2, 4) =~= self.spec_buf()->Some_0@.subrange(
                self.spec_offset() + 2,
                self.spec_offset() + 4,
            ));
        }
        r
    }

    pub fn schema_id(&self) -> (r: u16)
        requires
            self.wf(),
        ensures
            r == self.spec_header().schema_id,
    {
        let b = self.buf.unwrap();
        let r = b.get_u16_at(self.offset + 4);
        proof {
            let s = self.spec_buf()->Some_0@.subrange(self.spec_offset(), self.spec_offset() + 8);
            assert(s.subrange(4, 6) =~= self.spec_buf()->Some_0@.subrange(
                self.spec_offset() + 4,
                self.spec_offset() + 6,
            ));
        }
        r
    }

    pub fn version(&self) -> (r: u16)
        requires
            self.wf(),
        ensures
            r == self.spec_header().version,
    {
        let b = self.buf.unwrap();
        let r = b.get_u16_at(self.offset + 6);
        proof {
            let s = self.spec_buf()->Some_0@.subrange(self.spec_offset(), self.spec_offset() + 8);
            assert(s.subrange(6, 8) =~= self.spec_buf()->Some_0@.subrange(
                self.spec_offset() + 6,
                self.spec_offset() + 8,
            ));
        }
        r
    }

    /// The wrapped buffer, or the header-parent-not-established error.
    pub fn parent(&self) -> (r: Result<ReadBuf<'a>, SbeErr>)
        ensures
            self.spec_buf() matches Some(b) ==> r == Ok::<ReadBuf<'a>, SbeErr>(b),
            self.spec_buf() is None ==> r == Err::<ReadBuf<'a>, SbeErr>(SbeErr::ParentNotSet),
    {
        match &self.buf {
            Some(b) => Ok(*b),
            None => Err(SbeErr::ParentNotSet),
        }
    }
}

} // verus!
