//! Codec for the tagged replicate request: seven fixed identifier and tag
//! fields in a 52-byte block, followed by the source control channel and
//! the live destination as ordered variable-length fields.

use crate::buffer::{
    ReadBuf, WriteBuf, buf_wrote, lemma_i32_le_bytes_round_trip,
    lemma_i64_le_bytes_round_trip, lemma_read_buf_len_bound, lemma_write_buf_len_bound,
    spec_i32_from_le_bytes, spec_i32_to_le_bytes, spec_i64_from_le_bytes,
    spec_i64_to_le_bytes,
};
use crate::message_header;
use crate::message_header::{write_message_header, MessageHeader, MessageHeaderDecoder};
use crate::SbeErr;
use vstd::bytes::*;
use vstd::prelude::*;

verus! {

pub const SBE_BLOCK_LENGTH: u16 = 52;

pub const SBE_TEMPLATE_ID: u16 = 62;

pub const SBE_SCHEMA_ID: u16 = 101;

pub const SBE_SCHEMA_VERSION: u16 = 7;

pub const SBE_SEMANTIC_VERSION: &'static str = "5.2";

/// The header this codec writes in front of its messages.
pub open spec fn spec_codec_header() -> MessageHeader {
    MessageHeader {
        block_length: SBE_BLOCK_LENGTH,
        template_id: SBE_TEMPLATE_ID,
        schema_id: SBE_SCHEMA_ID,
        version: SBE_SCHEMA_VERSION,
    }
}

/// Encoder bound to an owned buffer at a fixed offset. The limit starts at
/// `offset + SBE_BLOCK_LENGTH` and advances as variable-length fields are
/// appended.
pub struct TaggedReplicateRequestEncoder {
    buf: WriteBuf,
    initial_offset: usize,
    offset: usize,
    limit: usize,
}

impl Default for TaggedReplicateRequestEncoder {
    /// An encoder over an empty region; `wrap` gives it a real buffer.
    fn default() -> (r: Self)
        ensures
            r.spec_buf().len() == 0,
    {
        TaggedReplicateRequestEncoder { buf: WriteBuf::new(Vec::new()), initial_offset: 0, offset: 0, limit: 0 }
    }
}

impl TaggedReplicateRequestEncoder {
    /// Bytes of the underlying buffer.
    pub closed spec fn spec_buf(&self) -> Seq<u8> {
        self.buf@
    }

    /// Start of the fixed block.
    pub closed spec fn spec_offset(&self) -> int {
        self.offset as int
    }

    /// End of what has been encoded so far.
    pub closed spec fn spec_limit(&self) -> int {
        self.limit as int
    }

    pub closed spec fn spec_initial_offset(&self) -> int {
        self.initial_offset as int
    }

    /// Bound to a buffer with the whole fixed block in range and the limit
    /// past the fixed block but inside the buffer.
    pub open spec fn wf(&self) -> bool {
        &&& self.spec_initial_offset() == self.spec_offset()
        &&& self.spec_offset() + SBE_BLOCK_LENGTH <= self.spec_limit()
        &&& self.spec_limit() <= self.spec_buf().len()
    }

    /// Cursor positions are kept and the buffer changed only by writing
    /// `bytes` at `lo`.
    pub open spec fn wrote(pre: Self, post: Self, lo: int, bytes: Seq<u8>) -> bool {
        &&& buf_wrote(pre.spec_buf(), post.spec_buf(), lo, bytes)
        &&& post.spec_offset() == pre.spec_offset()
        &&& post.spec_initial_offset() == pre.spec_initial_offset()
        &&& post.spec_limit() == pre.spec_limit()
    }

    pub fn wrap(self, buf: WriteBuf, offset: usize) -> (r: Self)
        requires
            offset + SBE_BLOCK_LENGTH <= buf@.len(),
        ensures
            r.wf(),
            r.spec_buf() == buf@,
            r.spec_offset() == offset as int,
            r.spec_limit() == offset + SBE_BLOCK_LENGTH,
    {
        proof {
            lemma_write_buf_len_bound(&buf);
        }
        let limit = offset + SBE_BLOCK_LENGTH as usize;
        TaggedReplicateRequestEncoder { buf, initial_offset: offset, offset, limit }
    }

    /// Length encoded so far: fixed block plus appended variable fields.
    pub fn encoded_length(&self) -> (r: usize)
        requires
            self.wf(),
        ensures
            r == self.spec_limit() - self.spec_offset(),
    {
        self.limit - self.offset
    }

    /// Writes this codec's constant header at `offset`, usually 0, after
    /// the body has been encoded.
    pub fn header(&mut self, offset: usize)
        requires
            old(self).wf(),
            offset + message_header::ENCODED_LENGTH <= old(self).spec_buf().len(),
        ensures
            final(self).wf(),
            Self::wrote(
                *old(self),
                *final(self),
                offset as int,
                message_header::spec_header_bytes(spec_codec_header()),
            ),
    {
        let h = MessageHeader {
            block_length: SBE_BLOCK_LENGTH,
            template_id: SBE_TEMPLATE_ID,
            schema_id: SBE_SCHEMA_ID,
            version: SBE_SCHEMA_VERSION,
        };
        write_message_header(&mut self.buf, offset, &h);
    }

    /// Fixed field `controlSessionId` at relative offset 0.
    pub fn control_session_id(&mut self, value: i64)
        requires
            old(self).wf(),
        ensures
            final(self).wf(),
            Self::wrote(
                *old(self),
                *final(self),
                old(self).spec_offset(),
                spec_i64_to_le_bytes(value),
            ),
    {
        let offset = self.offset;
        self.buf.put_i64_at(offset, value);
    }

    /// Fixed field `correlationId` at relative offset 8.
    pub fn correlation_id(&mut self, value: i64)
        requires
            old(self).wf(),
        ensures
            final(self).wf(),
            Self::wrote(
                *old(self),
                *final(self),
                old(self).spec_offset() + 8,
                spec_i64_to_le_bytes(value),
            ),
    {
        let offset = self.offset + 8;
        self.buf.put_i64_at(offset, value);
    }

    /// Fixed field `srcRecordingId` at relative offset 16.
    pub fn src_recording_id(&mut self, value: i64)
        requires
            old(self).wf(),
        ensures
            final(self).wf(),
            Self::wrote(
                *old(self),
                *final(self),
                old(self).spec_offset() + 16,
                spec_i64_to_le_bytes(value),
            ),
    {
        let offset = self.offset + 16;
        self.buf.put_i64_at(offset, value);
    }

    /// Fixed field `dstRecordingId` at relative offset 24.
    pub fn dst_recording_id(&mut self, value: i64)
        requires
            old(self).wf(),
        ensures
            final(self).wf(),
            Self::wrote(
                *old(self),
                *final(self),
                old(self).spec_offset() + 24,
                spec_i64_to_le_bytes(value),
            ),
    {
        let offset = self.offset + 24;
        self.buf.put_i64_at(offset, value);
    }

    /// Fixed field `channelTagId` at relative offset 32.
    pub fn channel_tag_id(&mut self, value: i64)
        requires
            old(self).wf(),
        ensures
            final(self).wf(),
            Self::wrote(
                *old(self),
                *final(self),
                old(self).spec_offset() + 32,
                spec_i64_to_le_bytes(value),
            ),
    {
        let offset = self.offset + 32;
        self.buf.put_i64_at(offset, value);
    }

    /// Fixed field `subscriptionTagId` at relative offset 40.
    pub fn subscription_tag_id(&mut self, value: i64)
        requires
            old(self).wf(),
        ensures
            final(self).wf(),
            Self::wrote(
                *old(self),
                *final(self),
                old(self).spec_offset() + 40,
                spec_i64_to_le_bytes(value),
            ),
    {
        let offset = self.offset + 40;
        self.buf.put_i64_at(offset, value);
    }

    /// Fixed field `srcControlStreamId` at relative offset 48.
    pub fn src_control_stream_id(&mut self, value: i32)
        requires
            old(self).wf(),
        ensures
            final(self).wf(),
            Self::wrote(
                *old(self),
                *final(self),
                old(self).spec_offset() + 48,
                spec_i32_to_le_bytes(value),
            ),
    {
        let offset = self.offset + 48;
        self.buf.put_i32_at(offset, value);
    }

    /// Variable-length field `srcControlChannel` (US-ASCII): a 4-byte
    /// little-endian length followed by the raw bytes, appended at the
    /// current limit, which advances past it. Variable fields must be
    /// written in declared order.
    pub fn src_control_channel(&mut self, value: &[u8])
        requires
            old(self).wf(),
            old(self).spec_limit() + 4 + value@.len() <= old(self).spec_buf().len(),
            value@.len() <= u32::MAX,
        ensures
            final(self).wf(),
            final(self).spec_offset() == old(self).spec_offset(),
            final(self).spec_limit() == old(self).spec_limit() + 4 + value@.len(),
            buf_wrote(
                old(self).spec_buf(),
                final(self).spec_buf(),
                old(self).spec_limit(),
                spec_u32_to_le_bytes(value@.len() as u32) + value@,
            ),
    {
        proof {
            lemma_write_buf_len_bound(&self.buf);
        }
        let limit = self.limit;
        let data_length = value.len();
        self.buf.put_u32_at(limit, data_length as u32);
        let ghost mid = self.buf@;
        self.buf.put_slice_at(limit + 4, value);
        self.limit = limit + 4 + data_length;
        proof {
            lemma_auto_spec_u32_to_from_le_bytes();
            let whole = spec_u32_to_le_bytes(data_length as u32) + value@;
            assert(self.spec_buf().subrange(limit as int, limit + 4) =~= mid.subrange(
                limit as int,
                limit + 4,
            ));
            assert(self.spec_buf().subrange(limit as int, limit + 4 + data_length as int)
                =~= whole);
        }
    }

    /// Variable-length field `liveDestination` (US-ASCII): a 4-byte
    /// little-endian length followed by the raw bytes, appended at the
    /// current limit, which advances past it. Variable fields must be
    /// written in declared order.
    pub fn live_destination(&mut self, value: &[u8])
        requires
            old(self).wf(),
            old(self).spec_limit() + 4 + value@.len() <= old(self).spec_buf().len(),
            value@.len() <= u32::MAX,
        ensures
            final(self).wf(),
            final(self).spec_offset() == old(self).spec_offset(),
            final(self).spec_limit() == old(self).spec_limit() + 4 + value@.len(),
            buf_wrote(
                old(self).spec_buf(),
                final(self).spec_buf(),
                old(self).spec_limit(),
                spec_u32_to_le_bytes(value@.len() as u32) + value@,
            ),
    {
        proof {
            lemma_write_buf_len_bound(&self.buf);
        }
        let limit = self.limit;
        let data_length = value.len();
        self.buf.put_u32_at(limit, data_length as u32);
        let ghost mid = self.buf@;
        self.buf.put_slice_at(limit + 4, value);
        self.limit = limit + 4 + data_length;
        proof {
            lemma_auto_spec_u32_to_from_le_bytes();
            let whole = spec_u32_to_le_bytes(data_length as u32) + value@;
            assert(self.spec_buf().subrange(limit as int, limit + 4) =~= mid.subrange(
                limit as int,
                limit + 4,
            ));
            assert(self.spec_buf().subrange(limit as int, limit + 4 + data_length as int)
                =~= whole);
        }
    }

    /// Surrenders the buffer, with everything encoded so far in place.
    pub fn into_buf(self) -> (r: WriteBuf)
        ensures
            r@ == self.spec_buf(),
    {
        self.buf
    }
}

/// Decoder bound to a received buffer. Its limit starts at the sender's
/// block length, so fixed bytes a newer sender appended are skipped and
/// variable-length fields line up.
#[derive(Clone, Copy)]
pub struct TaggedReplicateRequestDecoder<'a> {
    buf: ReadBuf<'a>,
    initial_offset: usize,
    offset: usize,
    limit: usize,
    acting_block_length: u16,
    acting_version: u16,
}

impl<'a> Default for TaggedReplicateRequestDecoder<'a> {
    /// A decoder over an empty region; `wrap` or `header` binds it to a
    /// real buffer.
    fn default() -> (r: Self)
        ensures
            r.spec_buf().len() == 0,
    {
        TaggedReplicateRequestDecoder {
            buf: ReadBuf::new(&[]),
            initial_offset: 0,
            offset: 0,
            limit: 0,
            acting_block_length: 0,
            acting_version: 0,
        }
    }
}

impl<'a> TaggedReplicateRequestDecoder<'a> {
    pub closed spec fn spec_buf(&self) -> Seq<u8> {
        self.buf@
    }

    pub closed spec fn spec_offset(&self) -> int {
        self.offset as int
    }

    pub closed spec fn spec_limit(&self) -> int {
        self.limit as int
    }

    pub closed spec fn spec_acting_block_length(&self) -> u16 {
        self.acting_block_length
    }

    pub closed spec fn spec_acting_version(&self) -> u16 {
        self.acting_version
    }

    /// The whole region up to the limit is inside the buffer.
    pub open spec fn wf(&self) -> bool {
        &&& 0 <= self.spec_offset() <= self.spec_limit()
        &&& self.spec_limit() <= self.spec_buf().len()
    }

    pub fn acting_block_length(&self) -> (r: u16)
        ensures
            r == self.spec_acting_block_length(),
    {
        self.acting_block_length
    }

    pub fn acting_version(&self) -> (r: u16)
        ensures
            r == self.spec_acting_version(),
    {
        self.acting_version
    }

    /// Binds the decoder at `offset` with the sender's block length and
    /// version taken from the message header.
    pub fn wrap(
        self,
        buf: ReadBuf<'a>,
        offset: usize,
        acting_block_length: u16,
        acting_version: u16,
    ) -> (r: Self)
        requires
            offset + acting_block_length <= buf@.len(),
        ensures
            r.wf(),
            r.spec_buf() == buf@,
            r.spec_offset() == offset as int,
            r.spec_limit() == offset + acting_block_length,
            r.spec_acting_block_length() == acting_block_length,
            r.spec_acting_version() == acting_version,
    {
        proof {
            lemma_read_buf_len_bound(buf);
        }
        let limit = offset + acting_block_length as usize;
        TaggedReplicateRequestDecoder {
            buf,
            initial_offset: offset,
            offset,
            limit,
            acting_block_length,
            acting_version,
        }
    }

    pub fn encoded_length(&self) -> (r: usize)
        requires
            self.wf(),
        ensures
            r == self.spec_limit() - self.spec_offset(),
    {
        self.limit - self.offset
    }

    /// Binds the decoder behind a decoded message header. A header whose
    /// template id selects another message type is a fatal decode error, as
    /// is a header with no parent buffer.
    pub fn header(self, header: MessageHeaderDecoder<'a>) -> (r: Result<Self, SbeErr>)
        requires
            header.wf() ==> message_header::ENCODED_LENGTH + header.spec_header().block_length
                <= header.spec_buf()->Some_0@.len(),
            header.spec_buf() is Some ==> header.wf(),
        ensures
            header.spec_buf() is None ==> r == Err::<Self, SbeErr>(SbeErr::ParentNotSet),
            (header.wf() && header.spec_header().template_id != SBE_TEMPLATE_ID) ==> r == Err::<
                Self,
                SbeErr,
            >(SbeErr::TemplateIdMismatch),
            (header.wf() && header.spec_header().template_id == SBE_TEMPLATE_ID) ==> (r matches Ok(
                d,
            ) && d.wf() && d.spec_buf() == header.spec_buf()->Some_0@ && d.spec_offset()
                == message_header::ENCODED_LENGTH as int && d.spec_acting_block_length()
                == header.spec_header().block_length && d.spec_acting_version()
                == header.spec_header().version && d.spec_limit()
                == message_header::ENCODED_LENGTH + header.spec_header().block_length),
    {
        let parent = match header.parent() {
            Ok(b) => b,
            Err(e) => {
                return Err(e);
            },
        };
        if header.template_id() != SBE_TEMPLATE_ID {
            return Err(SbeErr::TemplateIdMismatch);
        }
        let acting_block_length = header.block_length();
        let acting_version = header.version();
        Ok(self.wrap(parent, message_header::ENCODED_LENGTH, acting_block_length, acting_version))
    }

    /// Fixed field `controlSessionId`.
    pub fn control_session_id(&self) -> (r: i64)
        requires
            self.spec_offset() + 8 <= self.spec_buf().len(),
        ensures
            r == spec_i64_from_le_bytes(
                self.spec_buf().subrange(self.spec_offset(), self.spec_offset() + 8),
            ),
    {
        self.buf.get_i64_at(self.offset)
    }

    /// Fixed field `correlationId`.
    pub fn correlation_id(&self) -> (r: i64)
        requires
            self.spec_offset() + 16 <= self.spec_buf().len(),
        ensures
            r == spec_i64_from_le_bytes(
                self.spec_buf().subrange(self.spec_offset() + 8, self.spec_offset() + 16),
            ),
    {
        proof {
            lemma_read_buf_len_bound(self.buf);
        }
        self.buf.get_i64_at(self.offset + 8)
    }

    /// Fixed field `srcRecordingId`.
    pub fn src_recording_id(&self) -> (r: i64)
        requires
            self.spec_offset() + 24 <= self.spec_buf().len(),
        ensures
            r == spec_i64_from_le_bytes(
                self.spec_buf().subrange(self.spec_offset() + 16, self.spec_offset() + 24),
            ),
    {
        proof {
            lemma_read_buf_len_bound(self.buf);
        }
        self.buf.get_i64_at(self.offset + 16)
    }

    /// Fixed field `dstRecordingId`.
    pub fn dst_recording_id(&self) -> (r: i64)
        requires
            self.spec_offset() + 32 <= self.spec_buf().len(),
        ensures
            r == spec_i64_from_le_bytes(
                self.spec_buf().subrange(self.spec_offset() + 24, self.spec_offset() + 32),
            ),
    {
        proof {
            lemma_read_buf_len_bound(self.buf);
        }
        self.buf.get_i64_at(self.offset + 24)
    }

    /// Fixed field `channelTagId`.
    pub fn channel_tag_id(&self) -> (r: i64)
        requires
            self.spec_offset() + 40 <= self.spec_buf().len(),
        ensures
            r == spec_i64_from_le_bytes(
                self.spec_buf().subrange(self.spec_offset() + 32, self.spec_offset() + 40),
            ),
    {
        proof {
            lemma_read_buf_len_bound(self.buf);
        }
        self.buf.get_i64_at(self.offset + 32)
    }

    /// Fixed field `subscriptionTagId`.
    pub fn subscription_tag_id(&self) -> (r: i64)
        requires
            self.spec_offset() + 48 <= self.spec_buf().len(),
        ensures
            r == spec_i64_from_le_bytes(
                self.spec_buf().subrange(self.spec_offset() + 40, self.spec_offset() + 48),
            ),
    {
        proof {
            lemma_read_buf_len_bound(self.buf);
        }
        self.buf.get_i64_at(self.offset + 40)
    }

    /// Fixed field `srcControlStreamId`.
    pub fn src_control_stream_id(&self) -> (r: i32)
        requires
            self.spec_offset() + 52 <= self.spec_buf().len(),
        ensures
            r == spec_i32_from_le_bytes(
                self.spec_buf().subrange(self.spec_offset() + 48, self.spec_offset() + 52),
            ),
    {
        proof {
            lemma_read_buf_len_bound(self.buf);
        }
        self.buf.get_i32_at(self.offset + 48)
    }

    /// First step of reading `srcControlChannel`: reads the 4-byte length at
    /// the current limit, advances the limit past the payload, and returns
    /// `(payload_offset, payload_length)` without touching the payload.
    pub fn src_control_channel_decoder(&mut self) -> (coordinates: (usize, usize))
        requires
            old(self).wf(),
            old(self).spec_limit() + 4 <= old(self).spec_buf().len(),
            old(self).spec_limit() + 4 + spec_u32_from_le_bytes(
                old(self).spec_buf().subrange(old(self).spec_limit(), old(self).spec_limit() + 4),
            ) <= old(self).spec_buf().len(),
        ensures
            final(self).wf(),
            final(self).spec_buf() == old(self).spec_buf(),
            final(self).spec_offset() == old(self).spec_offset(),
            final(self).spec_acting_block_length() == old(self).spec_acting_block_length(),
            final(self).spec_acting_version() == old(self).spec_acting_version(),
            coordinates.0 == old(self).spec_limit() + 4,
            coordinates.1 == spec_u32_from_le_bytes(
                old(self).spec_buf().subrange(old(self).spec_limit(), old(self).spec_limit() + 4),
            ),
            final(self).spec_limit() == coordinates.0 + coordinates.1,
    {
        proof {
            lemma_read_buf_len_bound(self.buf);
        }
        let offset = self.limit;
        let data_length = self.buf.get_u32_at(offset) as usize;
        self.limit = offset + 4 + data_length;
        (offset + 4, data_length)
    }

    /// Second step: materializes the payload the first step located.
    pub fn src_control_channel_slice(&self, coordinates: (usize, usize)) -> (r: &'a [u8])
        requires
            coordinates.0 + coordinates.1 <= self.spec_buf().len(),
        ensures
            r@ == self.spec_buf().subrange(
                coordinates.0 as int,
                coordinates.0 + coordinates.1,
            ),
    {
        self.buf.get_slice_at(coordinates.0, coordinates.1)
    }

    /// First step of reading `liveDestination`: reads the 4-byte length at
    /// the current limit, advances the limit past the payload, and returns
    /// `(payload_offset, payload_length)` without touching the payload.
    pub fn live_destination_decoder(&mut self) -> (coordinates: (usize, usize))
        requires
            old(self).wf(),
            old(self).spec_limit() + 4 <= old(self).spec_buf().len(),
            old(self).spec_limit() + 4 + spec_u32_from_le_bytes(
                old(self).spec_buf().subrange(old(self).spec_limit(), old(self).spec_limit() + 4),
            ) <= old(self).spec_buf().len(),
        ensures
            final(self).wf(),
            final(self).spec_buf() == old(self).spec_buf(),
            final(self).spec_offset() == old(self).spec_offset(),
            final(self).spec_acting_block_length() == old(self).spec_acting_block_length(),
            final(self).spec_acting_version() == old(self).spec_acting_version(),
            coordinates.0 == old(self).spec_limit() + 4,
            coordinates.1 == spec_u32_from_le_bytes(
                old(self).spec_buf().subrange(old(self).spec_limit(), old(self).spec_limit() + 4),
            ),
            final(self).spec_limit() == coordinates.0 + coordinates.1,
    {
        proof {
            lemma_read_buf_len_bound(self.buf);
        }
        let offset = self.limit;
        let data_length = self.buf.get_u32_at(offset) as usize;
        self.limit = offset + 4 + data_length;
        (offset + 4, data_length)
    }

    /// Second step: materializes the payload the first step located.
    pub fn live_destination_slice(&self, coordinates: (usize, usize)) -> (r: &'a [u8])
        requires
            coordinates.0 + coordinates.1 <= self.spec_buf().len(),
        ensures
            r@ == self.spec_buf().subrange(
                coordinates.0 as int,
                coordinates.0 + coordinates.1,
            ),
    {
        self.buf.get_slice_at(coordinates.0, coordinates.1)
    }
}

/// Every fixed field of this message round-trips: a fixed block whose field
/// subranges hold the encodings of given values decodes each value back
/// exactly, for every value including minimum, maximum and null sentinels.
pub proof fn lemma_tagged_replicate_request_fixed_fields_round_trip(
    s: Seq<u8>,
    control_session_id: i64,
    correlation_id: i64,
    src_recording_id: i64,
    dst_recording_id: i64,
    channel_tag_id: i64,
    subscription_tag_id: i64,
    src_control_stream_id: i32,
)
    requires
        s.len() >= 52,
        s.subrange(0, 8) == spec_i64_to_le_bytes(control_session_id),
        s.subrange(8, 16) == spec_i64_to_le_bytes(correlation_id),
        s.subrange(16, 24) == spec_i64_to_le_bytes(src_recording_id),
        s.subrange(24, 32) == spec_i64_to_le_bytes(dst_recording_id),
        s.subrange(32, 40) == spec_i64_to_le_bytes(channel_tag_id),
        s.subrange(40, 48) == spec_i64_to_le_bytes(subscription_tag_id),
        s.subrange(48, 52) == spec_i32_to_le_bytes(src_control_stream_id),
    ensures
        spec_i64_from_le_bytes(s.subrange(0, 8)) == control_session_id,
        spec_i64_from_le_bytes(s.subrange(8, 16)) == correlation_id,
        spec_i64_from_le_bytes(s.subrange(16, 24)) == src_recording_id,
        spec_i64_from_le_bytes(s.subrange(24, 32)) == dst_recording_id,
        spec_i64_from_le_bytes(s.subrange(32, 40)) == channel_tag_id,
        spec_i64_from_le_bytes(s.subrange(40, 48)) == subscription_tag_id,
        spec_i32_from_le_bytes(s.subrange(48, 52)) == src_control_stream_id,
{
    lemma_i64_le_bytes_round_trip(control_session_id);
    lemma_i64_le_bytes_round_trip(correlation_id);
    lemma_i64_le_bytes_round_trip(src_recording_id);
    lemma_i64_le_bytes_round_trip(dst_recording_id);
    lemma_i64_le_bytes_round_trip(channel_tag_id);
    lemma_i64_le_bytes_round_trip(subscription_tag_id);
    lemma_i32_le_bytes_round_trip(src_control_stream_id);
}

/// Coordinates of a variable-length field, given the buffer and the limit
/// it is read at: the payload starts after the 4-byte length and runs for
/// the length the wire gives.
pub open spec fn spec_var_field_coordinates(s: Seq<u8>, limit: int) -> (int, int) {
    (limit + 4, spec_u32_from_le_bytes(s.subrange(limit, limit + 4)) as int)
}

/// Decoding the second variable-length field after only advancing past
/// the first yields the same result as decoding both in full declared
/// order: the second field's coordinates and payload depend on the first
/// field's 4-byte length prefix and on the bytes past its payload alone,
/// never on the payload itself, so materializing or skipping the first
/// payload cannot change what the second field decodes to.
pub proof fn lemma_second_var_field_independent_of_first_payload(
    s1: Seq<u8>,
    s2: Seq<u8>,
    limit0: int,
)
    requires
        s1.len() == s2.len(),
        0 <= limit0,
        limit0 + 4 <= s1.len(),
        s1.subrange(limit0, limit0 + 4) == s2.subrange(limit0, limit0 + 4),
        forall|j: int|
            spec_var_field_coordinates(s1, limit0).0 + spec_var_field_coordinates(s1, limit0).1
                <= j < s1.len() ==> s1[j] == s2[j],
    ensures
        ({
            let (o1, n1) = spec_var_field_coordinates(s1, limit0);
            let (o2, n2) = spec_var_field_coordinates(s1, o1 + n1);
            let (p2, m2) = spec_var_field_coordinates(s2, o1 + n1);
            &&& spec_var_field_coordinates(s2, limit0) == (o1, n1)
            &&& o1 + n1 + 4 <= s1.len() ==> (o2, n2) == (p2, m2)
            &&& (o1 + n1 + 4 <= s1.len() && o2 + n2 <= s1.len()) ==> s1.subrange(o2, o2 + n2)
                =~= s2.subrange(o2, o2 + n2)
        }),
{
    let (o1, n1) = spec_var_field_coordinates(s1, limit0);
    if o1 + n1 >= 0 && o1 + n1 + 4 <= s1.len() {
        assert(s1.subrange(o1 + n1, o1 + n1 + 4) =~= s2.subrange(o1 + n1, o1 + n1 + 4));
        let (o2, n2) = spec_var_field_coordinates(s1, o1 + n1);
        if o2 + n2 <= s1.len() {
            assert(s1.subrange(o2, o2 + n2) =~= s2.subrange(o2, o2 + n2));
        }
    }
}


} // verus!
