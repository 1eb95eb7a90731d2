//! Codec for the recording descriptor header: catalog entry length, state,
//! checksum and a reserved byte in a 32-byte fixed block.

use crate::buffer::{
    ReadBuf, WriteBuf, buf_wrote, lemma_i32_le_bytes_round_trip, lemma_read_buf_len_bound,
    lemma_write_buf_len_bound, spec_i32_from_le_bytes, spec_i32_to_le_bytes,
};
use crate::message_header;
use crate::message_header::{write_message_header, MessageHeader, MessageHeaderDecoder};
use crate::SbeErr;
use crate::enums::RecordingState;
use vstd::bytes::*;
use vstd::prelude::*;

verus! {

pub const SBE_BLOCK_LENGTH: u16 = 32;

pub const SBE_TEMPLATE_ID: u16 = 21;

pub const SBE_SCHEMA_ID: u16 = 101;

pub const SBE_SCHEMA_VERSION: u16 = 7;

pub const SBE_SEMANTIC_VERSION: &'static str = "5.2";

/// The header this codec writes in front of its messages.
pub open spec fn spec_codec_header() -> MessageHeader {
    MessageHeader {
        block_length: SBE_BLOCK_LENGTH,
        template_id: SBE_TEMPLATE_ID,
        schema_id: SBE_SCHEMA_ID,
        version: SBE_SCHEMA_VERSION,
    }
}

/// Encoder bound to an owned buffer at a fixed offset. The limit starts at
/// `offset + SBE_BLOCK_LENGTH` and advances as variable-length fields are
/// appended.
pub struct RecordingDescriptorHeaderEncoder {
    buf: WriteBuf,
    initial_offset: usize,
    offset: usize,
    limit: usize,
}

impl Default for RecordingDescriptorHeaderEncoder {
    /// An encoder over an empty region; `wrap` gives it a real buffer.
    fn default() -> (r: Self)
        ensures
            r.spec_buf().len() == 0,
    {
        RecordingDescriptorHeaderEncoder { buf: WriteBuf::new(Vec::new()), initial_offset: 0, offset: 0, limit: 0 }
    }
}

impl RecordingDescriptorHeaderEncoder {
    /// Bytes of the underlying buffer.
    pub closed spec fn spec_buf(&self) -> Seq<u8> {
        self.buf@
    }

    /// Start of the fixed block.
    pub closed spec fn spec_offset(&self) -> int {
        self.offset as int
    }

    /// End of what has been encoded so far.
    pub closed spec fn spec_limit(&self) -> int {
        self.limit as int
    }

    pub closed spec fn spec_initial_offset(&self) -> int {
        self.initial_offset as int
    }

    /// Bound to a buffer with the whole fixed block in range and the limit
    /// past the fixed block but inside the buffer.
    pub open spec fn wf(&self) -> bool {
        &&& self.spec_initial_offset() == self.spec_offset()
        &&& self.spec_offset() + SBE_BLOCK_LENGTH <= self.spec_limit()
        &&& self.spec_limit() <= self.spec_buf().len()
    }

    /// Cursor positions are kept and the buffer changed only by writing
    /// `bytes` at `lo`.
    pub open spec fn wrote(pre: Self, post: Self, lo: int, bytes: Seq<u8>) -> bool {
        &&& buf_wrote(pre.spec_buf(), post.spec_buf(), lo, bytes)
        &&& post.spec_offset() == pre.spec_offset()
        &&& post.spec_initial_offset() == pre.spec_initial_offset()
        &&& post.spec_limit() == pre.spec_limit()
    }

    pub fn wrap(self, buf: WriteBuf, offset: usize) -> (r: Self)
        requires
            offset + SBE_BLOCK_LENGTH <= buf@.len(),
        ensures
            r.wf(),
            r.spec_buf() == buf@,
            r.spec_offset() == offset as int,
            r.spec_limit() == offset + SBE_BLOCK_LENGTH,
    {
        proof {
            lemma_write_buf_len_bound(&buf);
        }
        let limit = offset + SBE_BLOCK_LENGTH as usize;
        RecordingDescriptorHeaderEncoder { buf, initial_offset: offset, offset, limit }
    }

    /// Length encoded so far: fixed block plus appended variable fields.
    pub fn encoded_length(&self) -> (r: usize)
        requires
            self.wf(),
        ensures
            r == self.spec_limit() - self.spec_offset(),
    {
        self.limit - self.offset
    }

    /// Writes this codec's constant header at `offset`, usually 0, after
    /// the body has been encoded.
    pub fn header(&mut self, offset: usize)
        requires
            old(self).wf(),
            offset + message_header::ENCODED_LENGTH <= old(self).spec_buf().len(),
        ensures
            final(self).wf(),
            Self::wrote(
                *old(self),
                *final(self),
                offset as int,
                message_header::spec_header_bytes(spec_codec_header()),
            ),
    {
        let h = MessageHeader {
            block_length: SBE_BLOCK_LENGTH,
            template_id: SBE_TEMPLATE_ID,
            schema_id: SBE_SCHEMA_ID,
            version: SBE_SCHEMA_VERSION,
        };
        write_message_header(&mut self.buf, offset, &h);
    }

    /// Fixed field `length` at relative offset 0.
    pub fn length(&mut self, value: i32)
        requires
            old(self).wf(),
        ensures
            final(self).wf(),
            Self::wrote(
                *old(self),
                *final(self),
                old(self).spec_offset(),
                spec_i32_to_le_bytes(value),
            ),
    {
        let offset = self.offset;
        self.buf.put_i32_at(offset, value);
    }

    /// Fixed field `checksum` at relative offset 8.
    pub fn checksum(&mut self, value: i32)
        requires
            old(self).wf(),
        ensures
            final(self).wf(),
            Self::wrote(
                *old(self),
                *final(self),
                old(self).spec_offset() + 8,
                spec_i32_to_le_bytes(value),
            ),
    {
        let offset = self.offset + 8;
        self.buf.put_i32_at(offset, value);
    }

    /// Required enumeration field `state` at relative offset 4,
    /// written as its 4-byte wire code.
    pub fn state(&mut self, value: RecordingState)
        requires
            old(self).wf(),
        ensures
            final(self).wf(),
            Self::wrote(
                *old(self),
                *final(self),
                old(self).spec_offset() + 4,
                spec_i32_to_le_bytes(value.spec_to_i32()),
            ),
    {
        let offset = self.offset + 4;
        let code = value.to_i32();
        self.buf.put_i32_at(offset, code);
    }

    /// Fixed field `reserved` at relative offset 31.
    pub fn reserved(&mut self, value: i8)
        requires
            old(self).wf(),
        ensures
            final(self).wf(),
            Self::wrote(
                *old(self),
                *final(self),
                old(self).spec_offset() + 31,
                seq![value as u8],
            ),
    {
        let offset = self.offset + 31;
        self.buf.put_i8_at(offset, value);
    }

    /// Surrenders the buffer, with everything encoded so far in place.
    pub fn into_buf(self) -> (r: WriteBuf)
        ensures
            r@ == self.spec_buf(),
    {
        self.buf
    }
}

/// Decoder bound to a received buffer. Its limit starts at the sender's
/// block length, so fixed bytes a newer sender appended are skipped and
/// variable-length fields line up.
#[derive(Clone, Copy)]
pub struct RecordingDescriptorHeaderDecoder<'a> {
    buf: ReadBuf<'a>,
    initial_offset: usize,
    offset: usize,
    limit: usize,
    acting_block_length: u16,
    acting_version: u16,
}

impl<'a> Default for RecordingDescriptorHeaderDecoder<'a> {
    /// A decoder over an empty region; `wrap` or `header` binds it to a
    /// real buffer.
    fn default() -> (r: Self)
        ensures
            r.spec_buf().len() == 0,
    {
        RecordingDescriptorHeaderDecoder {
            buf: ReadBuf::new(&[]),
            initial_offset: 0,
            offset: 0,
            limit: 0,
            acting_block_length: 0,
            acting_version: 0,
        }
    }
}

impl<'a> RecordingDescriptorHeaderDecoder<'a> {
    pub closed spec fn spec_buf(&self) -> Seq<u8> {
        self.buf@
    }

    pub closed spec fn spec_offset(&self) -> int {
        self.offset as int
    }

    pub closed spec fn spec_limit(&self) -> int {
        self.limit as int
    }

    pub closed spec fn spec_acting_block_length(&self) -> u16 {
        self.acting_block_length
    }

    pub closed spec fn spec_acting_version(&self) -> u16 {
        self.acting_version
    }

    /// The whole region up to the limit is inside the buffer.
    pub open spec fn wf(&self) -> bool {
        &&& 0 <= self.spec_offset() <= self.spec_limit()
        &&& self.spec_limit() <= self.spec_buf().len()
    }

    pub fn acting_block_length(&self) -> (r: u16)
        ensures
            r == self.spec_acting_block_length(),
    {
        self.acting_block_length
    }

    pub fn acting_version(&self) -> (r: u16)
        ensures
            r == self.spec_acting_version(),
    {
        self.acting_version
    }

    /// Binds the decoder at `offset` with the sender's block length and
    /// version taken from the message header.
    pub fn wrap(
        self,
        buf: ReadBuf<'a>,
        offset: usize,
        acting_block_length: u16,
        acting_version: u16,
    ) -> (r: Self)
        requires
            offset + acting_block_length <= buf@.len(),
        ensures
            r.wf(),
            r.spec_buf() == buf@,
            r.spec_offset() == offset as int,
            r.spec_limit() == offset + acting_block_length,
            r.spec_acting_block_length() == acting_block_length,
            r.spec_acting_version() == acting_version,
    {
        proof {
            lemma_read_buf_len_bound(buf);
        }
        let limit = offset + acting_block_length as usize;
        RecordingDescriptorHeaderDecoder {
            buf,
            initial_offset: offset,
            offset,
            limit,
            acting_block_length,
            acting_version,
        }
    }

    pub fn encoded_length(&self) -> (r: usize)
        requires
            self.wf(),
        ensures
            r == self.spec_limit() - self.spec_offset(),
    {
        self.limit - self.offset
    }

    /// Binds the decoder behind a decoded message header. A header whose
    /// template id selects another message type is a fatal decode error, as
    /// is a header with no parent buffer.
    pub fn header(self, header: MessageHeaderDecoder<'a>) -> (r: Result<Self, SbeErr>)
        requires
            header.wf() ==> message_header::ENCODED_LENGTH + header.spec_header().block_length
                <= header.spec_buf()->Some_0@.len(),
            header.spec_buf() is Some ==> header.wf(),
        ensures
            header.spec_buf() is None ==> r == Err::<Self, SbeErr>(SbeErr::ParentNotSet),
            (header.wf() && header.spec_header().template_id != SBE_TEMPLATE_ID) ==> r == Err::<
                Self,
                SbeErr,
            >(SbeErr::TemplateIdMismatch),
            (header.wf() && header.spec_header().template_id == SBE_TEMPLATE_ID) ==> (r matches Ok(
                d,
            ) && d.wf() && d.spec_buf() == header.spec_buf()->Some_0@ && d.spec_offset()
                == message_header::ENCODED_LENGTH as int && d.spec_acting_block_length()
                == header.spec_header().block_length && d.spec_acting_version()
                == header.spec_header().version && d.spec_limit()
                == message_header::ENCODED_LENGTH + header.spec_header().block_length),
    {
        let parent = match header.parent() {
            Ok(b) => b,
            Err(e) => {
                return Err(e);
            },
        };
        if header.template_id() != SBE_TEMPLATE_ID {
            return Err(SbeErr::TemplateIdMismatch);
        }
        let acting_block_length = header.block_length();
        let acting_version = header.version();
        Ok(self.wrap(parent, message_header::ENCODED_LENGTH, acting_block_length, acting_version))
    }

    /// Fixed field `length`.
    pub fn length(&self) -> (r: i32)
        requires
            self.spec_offset() + 4 <= self.spec_buf().len(),
        ensures
            r == spec_i32_from_le_bytes(
                self.spec_buf().subrange(self.spec_offset(), self.spec_offset() + 4),
            ),
    {
        self.buf.get_i32_at(self.offset)
    }

    /// Fixed field `checksum`.
    pub fn checksum(&self) -> (r: i32)
        requires
            self.spec_offset() + 12 <= self.spec_buf().len(),
        ensures
            r == spec_i32_from_le_bytes(
                self.spec_buf().subrange(self.spec_offset() + 8, self.spec_offset() + 12),
            ),
    {
        proof {
            lemma_read_buf_len_bound(self.buf);
        }
        self.buf.get_i32_at(self.offset + 8)
    }

    /// Required enumeration field `state`: any wire value outside
    /// the enumerated set decodes to the unrecognized variant, never fails.
    pub fn state(&self) -> (r: RecordingState)
        requires
            self.spec_offset() + 8 <= self.spec_buf().len(),
        ensures
            r == RecordingState::spec_from_i32(
                spec_i32_from_le_bytes(
                    self.spec_buf().subrange(self.spec_offset() + 4, self.spec_offset() + 8),
                ),
            ),
    {
        proof {
            lemma_read_buf_len_bound(self.buf);
        }
        let code = self.buf.get_i32_at(self.offset + 4);
        RecordingState::from_i32(code)
    }

    /// Fixed field `reserved`.
    pub fn reserved(&self) -> (r: i8)
        requires
            self.spec_offset() + 32 <= self.spec_buf().len(),
        ensures
            r == self.spec_buf()[self.spec_offset() + 31] as i8,
    {
        proof {
            lemma_read_buf_len_bound(self.buf);
        }
        self.buf.get_i8_at(self.offset + 31)
    }
}

/// Every fixed field of this message round-trips, the recording state
/// through its enumeration codes.
pub proof fn lemma_recording_descriptor_header_fixed_fields_round_trip(
    s: Seq<u8>,
    length: i32,
    state: RecordingState,
    checksum: i32,
    reserved: i8,
)
    requires
        s.len() >= 32,
        s.subrange(0, 4) == spec_i32_to_le_bytes(length),
        s.subrange(4, 8) == spec_i32_to_le_bytes(state.spec_to_i32()),
        s.subrange(8, 12) == spec_i32_to_le_bytes(checksum),
        s[31] == reserved as u8,
        !(state is NullVal),
    ensures
        spec_i32_from_le_bytes(s.subrange(0, 4)) == length,
        RecordingState::spec_from_i32(spec_i32_from_le_bytes(s.subrange(4, 8))) == state,
        spec_i32_from_le_bytes(s.subrange(8, 12)) == checksum,
        s[31] as i8 == reserved,
{
    lemma_i32_le_bytes_round_trip(length);
    lemma_i32_le_bytes_round_trip(state.spec_to_i32());
    lemma_i32_le_bytes_round_trip(checksum);
    assert(reserved as u8 as i8 == reserved) by (bit_vector);
}

} // verus!
