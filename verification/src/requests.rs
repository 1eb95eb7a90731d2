//! Wire images and encoders of the control-session requests the proxy
//! sends. Every message is the 8-byte header, the fixed block, then the
//! variable-length fields in declared order; each `is_*` predicate pins the
//! full byte image and each `encode_*` function writes exactly it into the
//! front of the proxy's scratch buffer.

use crate::buffer::{
    buf_wrote, lemma_i32_le_bytes_round_trip, lemma_i64_le_bytes_round_trip,
    lemma_write_buf_len_bound, spec_i32_to_le_bytes, spec_i64_to_le_bytes, WriteBuf,
};
use crate::enums::{BooleanType, SourceLocation};
use crate::message_header::{
    lemma_header_round_trip, spec_header_bytes, write_message_header, MessageHeader,
};
use vstd::bytes::*;
use vstd::prelude::*;

verus! {

/// Schema id of the whole message catalog.
pub const SCHEMA_ID: u16 = 101;

/// Schema version this client encodes with.
pub const SCHEMA_VERSION: u16 = 7;

/// Length of the message header that precedes every request.
pub const HEADER_LENGTH: usize = 8;

/// The header of a request with the given template id and block length.
pub open spec fn spec_request_header(template_id: u16, block_length: u16) -> MessageHeader {
    MessageHeader { block_length, template_id, schema_id: SCHEMA_ID, version: SCHEMA_VERSION }
}

/// Wire image of one variable-length US-ASCII field: a 4-byte
/// little-endian length followed by the raw bytes.
pub open spec fn spec_var_ascii(data: Seq<u8>) -> Seq<u8> {
    spec_u32_to_le_bytes(data.len() as u32) + data
}

pub proof fn lemma_var_ascii_len(data: Seq<u8>)
    ensures
        spec_var_ascii(data).len() == 4 + data.len(),
{
    lemma_auto_spec_u32_to_from_le_bytes();
}

/// Appends one variable-length field at `at`: the 4-byte length, then the
/// bytes. Returns the end of what was written.
fn put_var_ascii(buf: &mut WriteBuf, at: usize, data: &[u8]) -> (end: usize)
    requires
        at + 4 + data@.len() <= old(buf)@.len(),
        data@.len() <= u32::MAX,
    ensures
        buf_wrote(old(buf)@, final(buf)@, at as int, spec_var_ascii(data@)),
        end == at + 4 + data@.len(),
{
    proof {
        lemma_write_buf_len_bound(buf);
    }
    let data_length = data.len();
    buf.put_u32_at(at, data_length as u32);
    let ghost mid = buf@;
    buf.put_slice_at(at + 4, data);
    proof {
        lemma_auto_spec_u32_to_from_le_bytes();
        assert(buf@.subrange(at as int, at + 4) =~= mid.subrange(at as int, at + 4));
        assert(buf@.subrange(at as int, at + 4 + data_length as int) =~= spec_var_ascii(data@));
    }
    at + 4 + data_length
}

pub const AUTH_CONNECT_REQUEST_TEMPLATE_ID: u16 = 58;

pub const AUTH_CONNECT_REQUEST_BLOCK_LENGTH: u16 = 16;

/// The authenticated connect request: response stream details, protocol version, response channel and credentials.
///
/// Holds when `s` is exactly this message's byte image for the given
/// field values.
pub open spec fn is_auth_connect_request(
    s: Seq<u8>,
    correlation_id: i64, response_stream_id: i32, version: i32, response_channel: Seq<u8>, encoded_credentials: Seq<u8>,
) -> bool {
    &&& s.len() == 24 + 4 + response_channel.len() + 4 + encoded_credentials.len()
    &&& s.subrange(0, 8) == spec_header_bytes(spec_request_header(AUTH_CONNECT_REQUEST_TEMPLATE_ID, AUTH_CONNECT_REQUEST_BLOCK_LENGTH))
    &&& s.subrange(8, 16) == spec_i64_to_le_bytes(correlation_id)
    &&& s.subrange(16, 20) == spec_i32_to_le_bytes(response_stream_id)
    &&& s.subrange(20, 24) == spec_i32_to_le_bytes(version)
    &&& s.subrange(24, (24 + 4 + response_channel.len()) as int) == spec_var_ascii(response_channel)
    &&& s.subrange((24 + 4 + response_channel.len()) as int, (24 + 4 + response_channel.len() + 4 + encoded_credentials.len()) as int) == spec_var_ascii(encoded_credentials)
}

/// Encodes the message into the front of `buf`: header, fixed block,
/// variable-length fields in declared order. Returns the total length.
pub fn encode_auth_connect_request(
    buf: &mut WriteBuf,
    correlation_id: i64, response_stream_id: i32, version: i32, response_channel: &[u8], encoded_credentials: &[u8],
) -> (len: usize)
    requires
        24 + 4 + response_channel@.len() + 4 + encoded_credentials@.len() <= old(buf)@.len(),
        response_channel@.len() <= u32::MAX,
        encoded_credentials@.len() <= u32::MAX,
    ensures
        final(buf)@.len() == old(buf)@.len(),
        len == 24 + 4 + response_channel@.len() + 4 + encoded_credentials@.len(),
        is_auth_connect_request(final(buf)@.subrange(0, len as int), correlation_id, response_stream_id, version, response_channel@, encoded_credentials@),
{
    proof {
        lemma_write_buf_len_bound(buf);
        lemma_i64_le_bytes_round_trip(correlation_id);
        lemma_i32_le_bytes_round_trip(response_stream_id);
        lemma_i32_le_bytes_round_trip(version);
        lemma_var_ascii_len(response_channel@);
        lemma_var_ascii_len(encoded_credentials@);
        lemma_header_round_trip(spec_request_header(AUTH_CONNECT_REQUEST_TEMPLATE_ID, AUTH_CONNECT_REQUEST_BLOCK_LENGTH));
    }
    buf.put_i64_at(8, correlation_id);
    buf.put_i32_at(16, response_stream_id);
    proof {
        assert(buf@.subrange(8, 16) =~= spec_i64_to_le_bytes(correlation_id));
    }
    buf.put_i32_at(20, version);
    proof {
        assert(buf@.subrange(8, 16) =~= spec_i64_to_le_bytes(correlation_id));
        assert(buf@.subrange(16, 20) =~= spec_i32_to_le_bytes(response_stream_id));
    }
    let mut pos: usize = 24;
    pos = put_var_ascii(buf, pos, response_channel);
    proof {
        assert(buf@.subrange(8, 16) =~= spec_i64_to_le_bytes(correlation_id));
        assert(buf@.subrange(16, 20) =~= spec_i32_to_le_bytes(response_stream_id));
        assert(buf@.subrange(20, 24) =~= spec_i32_to_le_bytes(version));
    }
    pos = put_var_ascii(buf, pos, encoded_credentials);
    proof {
        assert(buf@.subrange(8, 16) =~= spec_i64_to_le_bytes(correlation_id));
        assert(buf@.subrange(16, 20) =~= spec_i32_to_le_bytes(response_stream_id));
        assert(buf@.subrange(20, 24) =~= spec_i32_to_le_bytes(version));
        assert(buf@.subrange(24, (24 + 4 + response_channel@.len()) as int) =~= spec_var_ascii(response_channel@));
    }
    let h = MessageHeader {
        block_length: AUTH_CONNECT_REQUEST_BLOCK_LENGTH,
        template_id: AUTH_CONNECT_REQUEST_TEMPLATE_ID,
        schema_id: SCHEMA_ID,
        version: SCHEMA_VERSION,
    };
    write_message_header(buf, 0, &h);
    proof {
        assert(buf@.subrange(8, 16) =~= spec_i64_to_le_bytes(correlation_id));
        assert(buf@.subrange(16, 20) =~= spec_i32_to_le_bytes(response_stream_id));
        assert(buf@.subrange(20, 24) =~= spec_i32_to_le_bytes(version));
        assert(buf@.subrange(24, (24 + 4 + response_channel@.len()) as int) =~= spec_var_ascii(response_channel@));
        assert(buf@.subrange((24 + 4 + response_channel@.len()) as int, (24 + 4 + response_channel@.len() + 4 + encoded_credentials@.len()) as int) =~= spec_var_ascii(encoded_credentials@));
    }
    proof {
        let s = buf@.subrange(0, (24 + 4 + response_channel@.len() + 4 + encoded_credentials@.len()) as int);
        assert(s.subrange(0, 8) =~= buf@.subrange(0, 8));
        assert(s.subrange(8, 16) =~= buf@.subrange(8, 16));
        assert(s.subrange(16, 20) =~= buf@.subrange(16, 20));
        assert(s.subrange(20, 24) =~= buf@.subrange(20, 24));
        assert(s.subrange(24, (24 + 4 + response_channel@.len()) as int) =~= buf@.subrange(24, (24 + 4 + response_channel@.len()) as int));
        assert(s.subrange((24 + 4 + response_channel@.len()) as int, (24 + 4 + response_channel@.len() + 4 + encoded_credentials@.len()) as int) =~= buf@.subrange((24 + 4 + response_channel@.len()) as int, (24 + 4 + response_channel@.len() + 4 + encoded_credentials@.len()) as int));
    }
    pos
}

pub const KEEP_ALIVE_REQUEST_TEMPLATE_ID: u16 = 61;

pub const KEEP_ALIVE_REQUEST_BLOCK_LENGTH: u16 = 16;

/// The keep-alive request that holds a control session open.
///
/// Holds when `s` is exactly this message's byte image for the given
/// field values.
pub open spec fn is_keep_alive_request(
    s: Seq<u8>,
    control_session_id: i64, correlation_id: i64,
) -> bool {
    &&& s.len() == 24
    &&& s.subrange(0, 8) == spec_header_bytes(spec_request_header(KEEP_ALIVE_REQUEST_TEMPLATE_ID, KEEP_ALIVE_REQUEST_BLOCK_LENGTH))
    &&& s.subrange(8, 16) == spec_i64_to_le_bytes(control_session_id)
    &&& s.subrange(16, 24) == spec_i64_to_le_bytes(correlation_id)
}

/// Encodes the message into the front of `buf`: header, fixed block,
/// variable-length fields in declared order. Returns the total length.
pub fn encode_keep_alive_request(
    buf: &mut WriteBuf,
    control_session_id: i64, correlation_id: i64,
) -> (len: usize)
    requires
        24 <= old(buf)@.len(),
    ensures
        final(buf)@.len() == old(buf)@.len(),
        len == 24,
        is_keep_alive_request(final(buf)@.subrange(0, len as int), control_session_id, correlation_id),
{
    proof {
        lemma_write_buf_len_bound(buf);
        lemma_i64_le_bytes_round_trip(control_session_id);
        lemma_i64_le_bytes_round_trip(correlation_id);
        lemma_header_round_trip(spec_request_header(KEEP_ALIVE_REQUEST_TEMPLATE_ID, KEEP_ALIVE_REQUEST_BLOCK_LENGTH));
    }
    buf.put_i64_at(8, control_session_id);
    buf.put_i64_at(16, correlation_id);
    proof {
        assert(buf@.subrange(8, 16) =~= spec_i64_to_le_bytes(control_session_id));
    }
    let h = MessageHeader {
        block_length: KEEP_ALIVE_REQUEST_BLOCK_LENGTH,
        template_id: KEEP_ALIVE_REQUEST_TEMPLATE_ID,
        schema_id: SCHEMA_ID,
        version: SCHEMA_VERSION,
    };
    write_message_header(buf, 0, &h);
    proof {
        assert(buf@.subrange(8, 16) =~= spec_i64_to_le_bytes(control_session_id));
        assert(buf@.subrange(16, 24) =~= spec_i64_to_le_bytes(correlation_id));
    }
    proof {
        let s = buf@.subrange(0, 24);
        assert(s.subrange(0, 8) =~= buf@.subrange(0, 8));
        assert(s.subrange(8, 16) =~= buf@.subrange(8, 16));
        assert(s.subrange(16, 24) =~= buf@.subrange(16, 24));
    }
    24
}

pub const CLOSE_SESSION_REQUEST_TEMPLATE_ID: u16 = 3;

pub const CLOSE_SESSION_REQUEST_BLOCK_LENGTH: u16 = 8;

/// The close request for a control session.
///
/// Holds when `s` is exactly this message's byte image for the given
/// field values.
pub open spec fn is_close_session_request(
    s: Seq<u8>,
    control_session_id: i64,
) -> bool {
    &&& s.len() == 16
    &&& s.subrange(0, 8) == spec_header_bytes(spec_request_header(CLOSE_SESSION_REQUEST_TEMPLATE_ID, CLOSE_SESSION_REQUEST_BLOCK_LENGTH))
    &&& s.subrange(8, 16) == spec_i64_to_le_bytes(control_session_id)
}

/// Encodes the message into the front of `buf`: header, fixed block,
/// variable-length fields in declared order. Returns the total length.
pub fn encode_close_session_request(
    buf: &mut WriteBuf,
    control_session_id: i64,
) -> (len: usize)
    requires
        16 <= old(buf)@.len(),
    ensures
        final(buf)@.len() == old(buf)@.len(),
        len == 16,
        is_close_session_request(final(buf)@.subrange(0, len as int), control_session_id),
{
    proof {
        lemma_write_buf_len_bound(buf);
        lemma_i64_le_bytes_round_trip(control_session_id);
        lemma_header_round_trip(spec_request_header(CLOSE_SESSION_REQUEST_TEMPLATE_ID, CLOSE_SESSION_REQUEST_BLOCK_LENGTH));
    }
    buf.put_i64_at(8, control_session_id);
    let h = MessageHeader {
        block_length: CLOSE_SESSION_REQUEST_BLOCK_LENGTH,
        template_id: CLOSE_SESSION_REQUEST_TEMPLATE_ID,
        schema_id: SCHEMA_ID,
        version: SCHEMA_VERSION,
    };
    write_message_header(buf, 0, &h);
    proof {
        assert(buf@.subrange(8, 16) =~= spec_i64_to_le_bytes(control_session_id));
    }
    proof {
        let s = buf@.subrange(0, 16);
        assert(s.subrange(0, 8) =~= buf@.subrange(0, 8));
        assert(s.subrange(8, 16) =~= buf@.subrange(8, 16));
    }
    16
}

pub const CHALLENGE_RESPONSE_TEMPLATE_ID: u16 = 60;

pub const CHALLENGE_RESPONSE_BLOCK_LENGTH: u16 = 16;

/// The response to an authentication challenge, carrying credentials.
///
/// Holds when `s` is exactly this message's byte image for the given
/// field values.
pub open spec fn is_challenge_response(
    s: Seq<u8>,
    control_session_id: i64, correlation_id: i64, encoded_credentials: Seq<u8>,
) -> bool {
    &&& s.len() == 24 + 4 + encoded_credentials.len()
    &&& s.subrange(0, 8) == spec_header_bytes(spec_request_header(CHALLENGE_RESPONSE_TEMPLATE_ID, CHALLENGE_RESPONSE_BLOCK_LENGTH))
    &&& s.subrange(8, 16) == spec_i64_to_le_bytes(control_session_id)
    &&& s.subrange(16, 24) == spec_i64_to_le_bytes(correlation_id)
    &&& s.subrange(24, (24 + 4 + encoded_credentials.len()) as int) == spec_var_ascii(encoded_credentials)
}

/// Encodes the message into the front of `buf`: header, fixed block,
/// variable-length fields in declared order. Returns the total length.
pub fn encode_challenge_response(
    buf: &mut WriteBuf,
    control_session_id: i64, correlation_id: i64, encoded_credentials: &[u8],
) -> (len: usize)
    requires
        24 + 4 + encoded_credentials@.len() <= old(buf)@.len(),
        encoded_credentials@.len() <= u32::MAX,
    ensures
        final(buf)@.len() == old(buf)@.len(),
        len == 24 + 4 + encoded_credentials@.len(),
        is_challenge_response(final(buf)@.subrange(0, len as int), control_session_id, correlation_id, encoded_credentials@),
{
    proof {
        lemma_write_buf_len_bound(buf);
        lemma_i64_le_bytes_round_trip(control_session_id);
        lemma_i64_le_bytes_round_trip(correlation_id);
        lemma_var_ascii_len(encoded_credentials@);
        lemma_header_round_trip(spec_request_header(CHALLENGE_RESPONSE_TEMPLATE_ID, CHALLENGE_RESPONSE_BLOCK_LENGTH));
    }
    buf.put_i64_at(8, control_session_id);
    buf.put_i64_at(16, correlation_id);
    proof {
        assert(buf@.subrange(8, 16) =~= spec_i64_to_le_bytes(control_session_id));
    }
    let mut pos: usize = 24;
    pos = put_var_ascii(buf, pos, encoded_credentials);
    proof {
        assert(buf@.subrange(8, 16) =~= spec_i64_to_le_bytes(control_session_id));
        assert(buf@.subrange(16, 24) =~= spec_i64_to_le_bytes(correlation_id));
    }
    let h = MessageHeader {
        block_length: CHALLENGE_RESPONSE_BLOCK_LENGTH,
        template_id: CHALLENGE_RESPONSE_TEMPLATE_ID,
        schema_id: SCHEMA_ID,
        version: SCHEMA_VERSION,
    };
    write_message_header(buf, 0, &h);
    proof {
        assert(buf@.subrange(8, 16) =~= spec_i64_to_le_bytes(control_session_id));
        assert(buf@.subrange(16, 24) =~= spec_i64_to_le_bytes(correlation_id));
        assert(buf@.subrange(24, (24 + 4 + encoded_credentials@.len()) as int) =~= spec_var_ascii(encoded_credentials@));
    }
    proof {
        let s = buf@.subrange(0, (24 + 4 + encoded_credentials@.len()) as int);
        assert(s.subrange(0, 8) =~= buf@.subrange(0, 8));
        assert(s.subrange(8, 16) =~= buf@.subrange(8, 16));
        assert(s.subrange(16, 24) =~= buf@.subrange(16, 24));
        assert(s.subrange(24, (24 + 4 + encoded_credentials@.len()) as int) =~= buf@.subrange(24, (24 + 4 + encoded_credentials@.len()) as int));
    }
    pos
}

pub const START_RECORDING_REQUEST_TEMPLATE_ID: u16 = 4;

pub const START_RECORDING_REQUEST_BLOCK_LENGTH: u16 = 24;

/// The request to start recording a channel and stream id pairing.
///
/// Holds when `s` is exactly this message's byte image for the given
/// field values.
pub open spec fn is_start_recording_request(
    s: Seq<u8>,
    control_session_id: i64, correlation_id: i64, stream_id: i32, source_location: SourceLocation, channel: Seq<u8>,
) -> bool {
    &&& s.len() == 32 + 4 + channel.len()
    &&& s.subrange(0, 8) == spec_header_bytes(spec_request_header(START_RECORDING_REQUEST_TEMPLATE_ID, START_RECORDING_REQUEST_BLOCK_LENGTH))
    &&& s.subrange(8, 16) == spec_i64_to_le_bytes(control_session_id)
    &&& s.subrange(16, 24) == spec_i64_to_le_bytes(correlation_id)
    &&& s.subrange(24, 28) == spec_i32_to_le_bytes(stream_id)
    &&& s.subrange(28, 32) == spec_i32_to_le_bytes(source_location.spec_to_i32())
    &&& s.subrange(32, (32 + 4 + channel.len()) as int) == spec_var_ascii(channel)
}

/// Encodes the message into the front of `buf`: header, fixed block,
/// variable-length fields in declared order. Returns the total length.
pub fn encode_start_recording_request(
    buf: &mut WriteBuf,
    control_session_id: i64, correlation_id: i64, stream_id: i32, source_location: SourceLocation, channel: &[u8],
) -> (len: usize)
    requires
        32 + 4 + channel@.len() <= old(buf)@.len(),
        channel@.len() <= u32::MAX,
    ensures
        final(buf)@.len() == old(buf)@.len(),
        len == 32 + 4 + channel@.len(),
        is_start_recording_request(final(buf)@.subrange(0, len as int), control_session_id, correlation_id, stream_id, source_location, channel@),
{
    proof {
        lemma_write_buf_len_bound(buf);
        lemma_i64_le_bytes_round_trip(control_session_id);
        lemma_i64_le_bytes_round_trip(correlation_id);
        lemma_i32_le_bytes_round_trip(stream_id);
        lemma_i32_le_bytes_round_trip(source_location.spec_to_i32());
        lemma_var_ascii_len(channel@);
        lemma_header_round_trip(spec_request_header(START_RECORDING_REQUEST_TEMPLATE_ID, START_RECORDING_REQUEST_BLOCK_LENGTH));
    }
    buf.put_i64_at(8, control_session_id);
    buf.put_i64_at(16, correlation_id);
    proof {
        assert(buf@.subrange(8, 16) =~= spec_i64_to_le_bytes(control_session_id));
    }
    buf.put_i32_at(24, stream_id);
    proof {
        assert(buf@.subrange(8, 16) =~= spec_i64_to_le_bytes(control_session_id));
        assert(buf@.subrange(16, 24) =~= spec_i64_to_le_bytes(correlation_id));
    }
    let source_location_code = source_location.to_i32();
    buf.put_i32_at(28, source_location_code);
    proof {
        assert(buf@.subrange(8, 16) =~= spec_i64_to_le_bytes(control_session_id));
        assert(buf@.subrange(16, 24) =~= spec_i64_to_le_bytes(correlation_id));
        assert(buf@.subrange(24, 28) =~= spec_i32_to_le_bytes(stream_id));
    }
    let mut pos: usize = 32;
    pos = put_var_ascii(buf, pos, channel);
    proof {
        assert(buf@.subrange(8, 16) =~= spec_i64_to_le_bytes(control_session_id));
        assert(buf@.subrange(16, 24) =~= spec_i64_to_le_bytes(correlation_id));
        assert(buf@.subrange(24, 28) =~= spec_i32_to_le_bytes(stream_id));
        assert(buf@.subrange(28, 32) =~= spec_i32_to_le_bytes(source_location.spec_to_i32()));
    }
    let h = MessageHeader {
        block_length: START_RECORDING_REQUEST_BLOCK_LENGTH,
        template_id: START_RECORDING_REQUEST_TEMPLATE_ID,
        schema_id: SCHEMA_ID,
        version: SCHEMA_VERSION,
    };
    write_message_header(buf, 0, &h);
    proof {
        assert(buf@.subrange(8, 16) =~= spec_i64_to_le_bytes(control_session_id));
        assert(buf@.subrange(16, 24) =~= spec_i64_to_le_bytes(correlation_id));
        assert(buf@.subrange(24, 28) =~= spec_i32_to_le_bytes(stream_id));
        assert(buf@.subrange(28, 32) =~= spec_i32_to_le_bytes(source_location.spec_to_i32()));
        assert(buf@.subrange(32, (32 + 4 + channel@.len()) as int) =~= spec_var_ascii(channel@));
    }
    proof {
        let s = buf@.subrange(0, (32 + 4 + channel@.len()) as int);
        assert(s.subrange(0, 8) =~= buf@.subrange(0, 8));
        assert(s.subrange(8, 16) =~= buf@.subrange(8, 16));
        assert(s.subrange(16, 24) =~= buf@.subrange(16, 24));
        assert(s.subrange(24, 28) =~= buf@.subrange(24, 28));
        assert(s.subrange(28, 32) =~= buf@.subrange(28, 32));
        assert(s.subrange(32, (32 + 4 + channel@.len()) as int) =~= buf@.subrange(32, (32 + 4 + channel@.len()) as int));
    }
    pos
}

pub const START_RECORDING_REQUEST_2_TEMPLATE_ID: u16 = 63;

pub const START_RECORDING_REQUEST_2_BLOCK_LENGTH: u16 = 28;

/// The newer start-recording request that adds the optional auto-stop flag.
///
/// Holds when `s` is exactly this message's byte image for the given
/// field values.
pub open spec fn is_start_recording_request_2(
    s: Seq<u8>,
    control_session_id: i64, correlation_id: i64, stream_id: i32, source_location: SourceLocation, auto_stop: BooleanType, channel: Seq<u8>,
) -> bool {
    &&& s.len() == 36 + 4 + channel.len()
    &&& s.subrange(0, 8) == spec_header_bytes(spec_request_header(START_RECORDING_REQUEST_2_TEMPLATE_ID, START_RECORDING_REQUEST_2_BLOCK_LENGTH))
    &&& s.subrange(8, 16) == spec_i64_to_le_bytes(control_session_id)
    &&& s.subrange(16, 24) == spec_i64_to_le_bytes(correlation_id)
    &&& s.subrange(24, 28) == spec_i32_to_le_bytes(stream_id)
    &&& s.subrange(28, 32) == spec_i32_to_le_bytes(source_location.spec_to_i32())
    &&& s.subrange(32, 36) == spec_i32_to_le_bytes(auto_stop.spec_to_i32())
    &&& s.subrange(36, (36 + 4 + channel.len()) as int) == spec_var_ascii(channel)
}

/// Encodes the message into the front of `buf`: header, fixed block,
/// variable-length fields in declared order. Returns the total length.
pub fn encode_start_recording_request_2(
    buf: &mut WriteBuf,
    control_session_id: i64, correlation_id: i64, stream_id: i32, source_location: SourceLocation, auto_stop: BooleanType, channel: &[u8],
) -> (len: usize)
    requires
        36 + 4 + channel@.len() <= old(buf)@.len(),
        channel@.len() <= u32::MAX,
    ensures
        final(buf)@.len() == old(buf)@.len(),
        len == 36 + 4 + channel@.len(),
        is_start_recording_request_2(final(buf)@.subrange(0, len as int), control_session_id, correlation_id, stream_id, source_location, auto_stop, channel@),
{
    proof {
        lemma_write_buf_len_bound(buf);
        lemma_i64_le_bytes_round_trip(control_session_id);
        lemma_i64_le_bytes_round_trip(correlation_id);
        lemma_i32_le_bytes_round_trip(stream_id);
        lemma_i32_le_bytes_round_trip(source_location.spec_to_i32());
        lemma_i32_le_bytes_round_trip(auto_stop.spec_to_i32());
        lemma_var_ascii_len(channel@);
        lemma_header_round_trip(spec_request_header(START_RECORDING_REQUEST_2_TEMPLATE_ID, START_RECORDING_REQUEST_2_BLOCK_LENGTH));
    }
    buf.put_i64_at(8, control_session_id);
    buf.put_i64_at(16, correlation_id);
    proof {
        assert(buf@.subrange(8, 16) =~= spec_i64_to_le_bytes(control_session_id));
    }
    buf.put_i32_at(24, stream_id);
    proof {
        assert(buf@.subrange(8, 16) =~= spec_i64_to_le_bytes(control_session_id));
        assert(buf@.subrange(16, 24) =~= spec_i64_to_le_bytes(correlation_id));
    }
    let source_location_code = source_location.to_i32();
    buf.put_i32_at(28, source_location_code);
    proof {
        assert(buf@.subrange(8, 16) =~= spec_i64_to_le_bytes(control_session_id));
        assert(buf@.subrange(16, 24) =~= spec_i64_to_le_bytes(correlation_id));
        assert(buf@.subrange(24, 28) =~= spec_i32_to_le_bytes(stream_id));
    }
    let auto_stop_code = auto_stop.to_i32();
    buf.put_i32_at(32, auto_stop_code);
    proof {
        assert(buf@.subrange(8, 16) =~= spec_i64_to_le_bytes(control_session_id));
        assert(buf@.subrange(16, 24) =~= spec_i64_to_le_bytes(correlation_id));
        assert(buf@.subrange(24, 28) =~= spec_i32_to_le_bytes(stream_id));
        assert(buf@.subrange(28, 32) =~= spec_i32_to_le_bytes(source_location.spec_to_i32()));
    }
    let mut pos: usize = 36;
    pos = put_var_ascii(buf, pos, channel);
    proof {
        assert(buf@.subrange(8, 16) =~= spec_i64_to_le_bytes(control_session_id));
        assert(buf@.subrange(16, 24) =~= spec_i64_to_le_bytes(correlation_id));
        assert(buf@.subrange(24, 28) =~= spec_i32_to_le_bytes(stream_id));
        assert(buf@.subrange(28, 32) =~= spec_i32_to_le_bytes(source_location.spec_to_i32()));
        assert(buf@.subrange(32, 36) =~= spec_i32_to_le_bytes(auto_stop.spec_to_i32()));
    }
    let h = MessageHeader {
        block_length: START_RECORDING_REQUEST_2_BLOCK_LENGTH,
        template_id: START_RECORDING_REQUEST_2_TEMPLATE_ID,
        schema_id: SCHEMA_ID,
        version: SCHEMA_VERSION,
    };
    write_message_header(buf, 0, &h);
    proof {
        assert(buf@.subrange(8, 16) =~= spec_i64_to_le_bytes(control_session_id));
        assert(buf@.subrange(16, 24) =~= spec_i64_to_le_bytes(correlation_id));
        assert(buf@.subrange(24, 28) =~= spec_i32_to_le_bytes(stream_id));
        assert(buf@.subrange(28, 32) =~= spec_i32_to_le_bytes(source_location.spec_to_i32()));
        assert(buf@.subrange(32, 36) =~= spec_i32_to_le_bytes(auto_stop.spec_to_i32()));
        assert(buf@.subrange(36, (36 + 4 + channel@.len()) as int) =~= spec_var_ascii(channel@));
    }
    proof {
        let s = buf@.subrange(0, (36 + 4 + channel@.len()) as int);
        assert(s.subrange(0, 8) =~= buf@.subrange(0, 8));
        assert(s.subrange(8, 16) =~= buf@.subrange(8, 16));
        assert(s.subrange(16, 24) =~= buf@.subrange(16, 24));
        assert(s.subrange(24, 28) =~= buf@.subrange(24, 28));
        assert(s.subrange(28, 32) =~= buf@.subrange(28, 32));
        assert(s.subrange(32, 36) =~= buf@.subrange(32, 36));
        assert(s.subrange(36, (36 + 4 + channel@.len()) as int) =~= buf@.subrange(36, (36 + 4 + channel@.len()) as int));
    }
    pos
}

pub const STOP_RECORDING_SUBSCRIPTION_REQUEST_TEMPLATE_ID: u16 = 14;

pub const STOP_RECORDING_SUBSCRIPTION_REQUEST_BLOCK_LENGTH: u16 = 24;

/// The request to stop a recording by the subscription it was registered with.
///
/// Holds when `s` is exactly this message's byte image for the given
/// field values.
pub open spec fn is_stop_recording_subscription_request(
    s: Seq<u8>,
    control_session_id: i64, correlation_id: i64, subscription_id: i64,
) -> bool {
    &&& s.len() == 32
    &&& s.subrange(0, 8) == spec_header_bytes(spec_request_header(STOP_RECORDING_SUBSCRIPTION_REQUEST_TEMPLATE_ID, STOP_RECORDING_SUBSCRIPTION_REQUEST_BLOCK_LENGTH))
    &&& s.subrange(8, 16) == spec_i64_to_le_bytes(control_session_id)
    &&& s.subrange(16, 24) == spec_i64_to_le_bytes(correlation_id)
    &&& s.subrange(24, 32) == spec_i64_to_le_bytes(subscription_id)
}

/// Encodes the message into the front of `buf`: header, fixed block,
/// variable-length fields in declared order. Returns the total length.
pub fn encode_stop_recording_subscription_request(
    buf: &mut WriteBuf,
    control_session_id: i64, correlation_id: i64, subscription_id: i64,
) -> (len: usize)
    requires
        32 <= old(buf)@.len(),
    ensures
        final(buf)@.len() == old(buf)@.len(),
        len == 32,
        is_stop_recording_subscription_request(final(buf)@.subrange(0, len as int), control_session_id, correlation_id, subscription_id),
{
    proof {
        lemma_write_buf_len_bound(buf);
        lemma_i64_le_bytes_round_trip(control_session_id);
        lemma_i64_le_bytes_round_trip(correlation_id);
        lemma_i64_le_bytes_round_trip(subscription_id);
        lemma_header_round_trip(spec_request_header(STOP_RECORDING_SUBSCRIPTION_REQUEST_TEMPLATE_ID, STOP_RECORDING_SUBSCRIPTION_REQUEST_BLOCK_LENGTH));
    }
    buf.put_i64_at(8, control_session_id);
    buf.put_i64_at(16, correlation_id);
    proof {
        assert(buf@.subrange(8, 16) =~= spec_i64_to_le_bytes(control_session_id));
    }
    buf.put_i64_at(24, subscription_id);
    proof {
        assert(buf@.subrange(8, 16) =~= spec_i64_to_le_bytes(control_session_id));
        assert(buf@.subrange(16, 24) =~= spec_i64_to_le_bytes(correlation_id));
    }
    let h = MessageHeader {
        block_length: STOP_RECORDING_SUBSCRIPTION_REQUEST_BLOCK_LENGTH,
        template_id: STOP_RECORDING_SUBSCRIPTION_REQUEST_TEMPLATE_ID,
        schema_id: SCHEMA_ID,
        version: SCHEMA_VERSION,
    };
    write_message_header(buf, 0, &h);
    proof {
        assert(buf@.subrange(8, 16) =~= spec_i64_to_le_bytes(control_session_id));
        assert(buf@.subrange(16, 24) =~= spec_i64_to_le_bytes(correlation_id));
        assert(buf@.subrange(24, 32) =~= spec_i64_to_le_bytes(subscription_id));
    }
    proof {
        let s = buf@.subrange(0, 32);
        assert(s.subrange(0, 8) =~= buf@.subrange(0, 8));
        assert(s.subrange(8, 16) =~= buf@.subrange(8, 16));
        assert(s.subrange(16, 24) =~= buf@.subrange(16, 24));
        assert(s.subrange(24, 32) =~= buf@.subrange(24, 32));
    }
    32
}

pub const STOP_RECORDING_BY_IDENTITY_REQUEST_TEMPLATE_ID: u16 = 65;

pub const STOP_RECORDING_BY_IDENTITY_REQUEST_BLOCK_LENGTH: u16 = 24;

/// The request to stop an active recording by its recording id.
///
/// Holds when `s` is exactly this message's byte image for the given
/// field values.
pub open spec fn is_stop_recording_by_identity_request(
    s: Seq<u8>,
    control_session_id: i64, correlation_id: i64, recording_id: i64,
) -> bool {
    &&& s.len() == 32
    &&& s.subrange(0, 8) == spec_header_bytes(spec_request_header(STOP_RECORDING_BY_IDENTITY_REQUEST_TEMPLATE_ID, STOP_RECORDING_BY_IDENTITY_REQUEST_BLOCK_LENGTH))
    &&& s.subrange(8, 16) == spec_i64_to_le_bytes(control_session_id)
    &&& s.subrange(16, 24) == spec_i64_to_le_bytes(correlation_id)
    &&& s.subrange(24, 32) == spec_i64_to_le_bytes(recording_id)
}

/// Encodes the message into the front of `buf`: header, fixed block,
/// variable-length fields in declared order. Returns the total length.
pub fn encode_stop_recording_by_identity_request(
    buf: &mut WriteBuf,
    control_session_id: i64, correlation_id: i64, recording_id: i64,
) -> (len: usize)
    requires
        32 <= old(buf)@.len(),
    ensures
        final(buf)@.len() == old(buf)@.len(),
        len == 32,
        is_stop_recording_by_identity_request(final(buf)@.subrange(0, len as int), control_session_id, correlation_id, recording_id),
{
    proof {
        lemma_write_buf_len_bound(buf);
        lemma_i64_le_bytes_round_trip(control_session_id);
        lemma_i64_le_bytes_round_trip(correlation_id);
        lemma_i64_le_bytes_round_trip(recording_id);
        lemma_header_round_trip(spec_request_header(STOP_RECORDING_BY_IDENTITY_REQUEST_TEMPLATE_ID, STOP_RECORDING_BY_IDENTITY_REQUEST_BLOCK_LENGTH));
    }
    buf.put_i64_at(8, control_session_id);
    buf.put_i64_at(16, correlation_id);
    proof {
        assert(buf@.subrange(8, 16) =~= spec_i64_to_le_bytes(control_session_id));
    }
    buf.put_i64_at(24, recording_id);
    proof {
        assert(buf@.subrange(8, 16) =~= spec_i64_to_le_bytes(control_session_id));
        assert(buf@.subrange(16, 24) =~= spec_i64_to_le_bytes(correlation_id));
    }
    let h = MessageHeader {
        block_length: STOP_RECORDING_BY_IDENTITY_REQUEST_BLOCK_LENGTH,
        template_id: STOP_RECORDING_BY_IDENTITY_REQUEST_TEMPLATE_ID,
        schema_id: SCHEMA_ID,
        version: SCHEMA_VERSION,
    };
    write_message_header(buf, 0, &h);
    proof {
        assert(buf@.subrange(8, 16) =~= spec_i64_to_le_bytes(control_session_id));
        assert(buf@.subrange(16, 24) =~= spec_i64_to_le_bytes(correlation_id));
        assert(buf@.subrange(24, 32) =~= spec_i64_to_le_bytes(recording_id));
    }
    proof {
        let s = buf@.subrange(0, 32);
        assert(s.subrange(0, 8) =~= buf@.subrange(0, 8));
        assert(s.subrange(8, 16) =~= buf@.subrange(8, 16));
        assert(s.subrange(16, 24) =~= buf@.subrange(16, 24));
        assert(s.subrange(24, 32) =~= buf@.subrange(24, 32));
    }
    32
}

pub const REPLAY_REQUEST_TEMPLATE_ID: u16 = 6;

pub const REPLAY_REQUEST_BLOCK_LENGTH: u16 = 48;

/// The unbounded replay request.
///
/// Holds when `s` is exactly this message's byte image for the given
/// field values.
pub open spec fn is_replay_request(
    s: Seq<u8>,
    control_session_id: i64, correlation_id: i64, recording_id: i64, position: i64, length: i64, replay_stream_id: i32, file_io_max_length: i32, replay_channel: Seq<u8>,
) -> bool {
    &&& s.len() == 56 + 4 + replay_channel.len()
    &&& s.subrange(0, 8) == spec_header_bytes(spec_request_header(REPLAY_REQUEST_TEMPLATE_ID, REPLAY_REQUEST_BLOCK_LENGTH))
    &&& s.subrange(8, 16) == spec_i64_to_le_bytes(control_session_id)
    &&& s.subrange(16, 24) == spec_i64_to_le_bytes(correlation_id)
    &&& s.subrange(24, 32) == spec_i64_to_le_bytes(recording_id)
    &&& s.subrange(32, 40) == spec_i64_to_le_bytes(position)
    &&& s.subrange(40, 48) == spec_i64_to_le_bytes(length)
    &&& s.subrange(48, 52) == spec_i32_to_le_bytes(replay_stream_id)
    &&& s.subrange(52, 56) == spec_i32_to_le_bytes(file_io_max_length)
    &&& s.subrange(56, (56 + 4 + replay_channel.len()) as int) == spec_var_ascii(replay_channel)
}

/// Encodes the message into the front of `buf`: header, fixed block,
/// variable-length fields in declared order. Returns the total length.
pub fn encode_replay_request(
    buf: &mut WriteBuf,
    control_session_id: i64, correlation_id: i64, recording_id: i64, position: i64, length: i64, replay_stream_id: i32, file_io_max_length: i32, replay_channel: &[u8],
) -> (len: usize)
    requires
        56 + 4 + replay_channel@.len() <= old(buf)@.len(),
        replay_channel@.len() <= u32::MAX,
    ensures
        final(buf)@.len() == old(buf)@.len(),
        len == 56 + 4 + replay_channel@.len(),
        is_replay_request(final(buf)@.subrange(0, len as int), control_session_id, correlation_id, recording_id, position, length, replay_stream_id, file_io_max_length, replay_channel@),
{
    proof {
        lemma_write_buf_len_bound(buf);
        lemma_i64_le_bytes_round_trip(control_session_id);
        lemma_i64_le_bytes_round_trip(correlation_id);
        lemma_i64_le_bytes_round_trip(recording_id);
        lemma_i64_le_bytes_round_trip(position);
        lemma_i64_le_bytes_round_trip(length);
        lemma_i32_le_bytes_round_trip(replay_stream_id);
        lemma_i32_le_bytes_round_trip(file_io_max_length);
        lemma_var_ascii_len(replay_channel@);
        lemma_header_round_trip(spec_request_header(REPLAY_REQUEST_TEMPLATE_ID, REPLAY_REQUEST_BLOCK_LENGTH));
    }
    buf.put_i64_at(8, control_session_id);
    buf.put_i64_at(16, correlation_id);
    proof {
        assert(buf@.subrange(8, 16) =~= spec_i64_to_le_bytes(control_session_id));
    }
    buf.put_i64_at(24, recording_id);
    proof {
        assert(buf@.subrange(8, 16) =~= spec_i64_to_le_bytes(control_session_id));
        assert(buf@.subrange(16, 24) =~= spec_i64_to_le_bytes(correlation_id));
    }
    buf.put_i64_at(32, position);
    proof {
        assert(buf@.subrange(8, 16) =~= spec_i64_to_le_bytes(control_session_id));
        assert(buf@.subrange(16, 24) =~= spec_i64_to_le_bytes(correlation_id));
        assert(buf@.subrange(24, 32) =~= spec_i64_to_le_bytes(recording_id));
    }
    buf.put_i64_at(40, length);
    proof {
        assert(buf@.subrange(8, 16) =~= spec_i64_to_le_bytes(control_session_id));
        assert(buf@.subrange(16, 24) =~= spec_i64_to_le_bytes(correlation_id));
        assert(buf@.subrange(24, 32) =~= spec_i64_to_le_bytes(recording_id));
        assert(buf@.subrange(32, 40) =~= spec_i64_to_le_bytes(position));
    }
    buf.put_i32_at(48, replay_stream_id);
    proof {
        assert(buf@.subrange(8, 16) =~= spec_i64_to_le_bytes(control_session_id));
        assert(buf@.subrange(16, 24) =~= spec_i64_to_le_bytes(correlation_id));
        assert(buf@.subrange(24, 32) =~= spec_i64_to_le_bytes(recording_id));
        assert(buf@.subrange(32, 40) =~= spec_i64_to_le_bytes(position));
        assert(buf@.subrange(40, 48) =~= spec_i64_to_le_bytes(length));
    }
    buf.put_i32_at(52, file_io_max_length);
    proof {
        assert(buf@.subrange(8, 16) =~= spec_i64_to_le_bytes(control_session_id));
        assert(buf@.subrange(16, 24) =~= spec_i64_to_le_bytes(correlation_id));
        assert(buf@.subrange(24, 32) =~= spec_i64_to_le_bytes(recording_id));
        assert(buf@.subrange(32, 40) =~= spec_i64_to_le_bytes(position));
        assert(buf@.subrange(40, 48) =~= spec_i64_to_le_bytes(length));
        assert(buf@.subrange(48, 52) =~= spec_i32_to_le_bytes(replay_stream_id));
    }
    let mut pos: usize = 56;
    pos = put_var_ascii(buf, pos, replay_channel);
    proof {
        assert(buf@.subrange(8, 16) =~= spec_i64_to_le_bytes(control_session_id));
        assert(buf@.subrange(16, 24) =~= spec_i64_to_le_bytes(correlation_id));
        assert(buf@.subrange(24, 32) =~= spec_i64_to_le_bytes(recording_id));
        assert(buf@.subrange(32, 40) =~= spec_i64_to_le_bytes(position));
        assert(buf@.subrange(40, 48) =~= spec_i64_to_le_bytes(length));
        assert(buf@.subrange(48, 52) =~= spec_i32_to_le_bytes(replay_stream_id));
        assert(buf@.subrange(52, 56) =~= spec_i32_to_le_bytes(file_io_max_length));
    }
    let h = MessageHeader {
        block_length: REPLAY_REQUEST_BLOCK_LENGTH,
        template_id: REPLAY_REQUEST_TEMPLATE_ID,
        schema_id: SCHEMA_ID,
        version: SCHEMA_VERSION,
    };
    write_message_header(buf, 0, &h);
    proof {
        assert(buf@.subrange(8, 16) =~= spec_i64_to_le_bytes(control_session_id));
        assert(buf@.subrange(16, 24) =~= spec_i64_to_le_bytes(correlation_id));
        assert(buf@.subrange(24, 32) =~= spec_i64_to_le_bytes(recording_id));
        assert(buf@.subrange(32, 40) =~= spec_i64_to_le_bytes(position));
        assert(buf@.subrange(40, 48) =~= spec_i64_to_le_bytes(length));
        assert(buf@.subrange(48, 52) =~= spec_i32_to_le_bytes(replay_stream_id));
        assert(buf@.subrange(52, 56) =~= spec_i32_to_le_bytes(file_io_max_length));
        assert(buf@.subrange(56, (56 + 4 + replay_channel@.len()) as int) =~= spec_var_ascii(replay_channel@));
    }
    proof {
        let s = buf@.subrange(0, (56 + 4 + replay_channel@.len()) as int);
        assert(s.subrange(0, 8) =~= buf@.subrange(0, 8));
        assert(s.subrange(8, 16) =~= buf@.subrange(8, 16));
        assert(s.subrange(16, 24) =~= buf@.subrange(16, 24));
        assert(s.subrange(24, 32) =~= buf@.subrange(24, 32));
        assert(s.subrange(32, 40) =~= buf@.subrange(32, 40));
        assert(s.subrange(40, 48) =~= buf@.subrange(40, 48));
        assert(s.subrange(48, 52) =~= buf@.subrange(48, 52));
        assert(s.subrange(52, 56) =~= buf@.subrange(52, 56));
        assert(s.subrange(56, (56 + 4 + replay_channel@.len()) as int) =~= buf@.subrange(56, (56 + 4 + replay_channel@.len()) as int));
    }
    pos
}

pub const BOUNDED_REPLAY_REQUEST_TEMPLATE_ID: u16 = 18;

pub const BOUNDED_REPLAY_REQUEST_BLOCK_LENGTH: u16 = 52;

/// The bounded replay request, limited by a counter.
///
/// Holds when `s` is exactly this message's byte image for the given
/// field values.
pub open spec fn is_bounded_replay_request(
    s: Seq<u8>,
    control_session_id: i64, correlation_id: i64, recording_id: i64, position: i64, length: i64, limit_counter_id: i32, replay_stream_id: i32, file_io_max_length: i32, replay_channel: Seq<u8>,
) -> bool {
    &&& s.len() == 60 + 4 + replay_channel.len()
    &&& s.subrange(0, 8) == spec_header_bytes(spec_request_header(BOUNDED_REPLAY_REQUEST_TEMPLATE_ID, BOUNDED_REPLAY_REQUEST_BLOCK_LENGTH))
    &&& s.subrange(8, 16) == spec_i64_to_le_bytes(control_session_id)
    &&& s.subrange(16, 24) == spec_i64_to_le_bytes(correlation_id)
    &&& s.subrange(24, 32) == spec_i64_to_le_bytes(recording_id)
    &&& s.subrange(32, 40) == spec_i64_to_le_bytes(position)
    &&& s.subrange(40, 48) == spec_i64_to_le_bytes(length)
    &&& s.subrange(48, 52) == spec_i32_to_le_bytes(limit_counter_id)
    &&& s.subrange(52, 56) == spec_i32_to_le_bytes(replay_stream_id)
    &&& s.subrange(56, 60) == spec_i32_to_le_bytes(file_io_max_length)
    &&& s.subrange(60, (60 + 4 + replay_channel.len()) as int) == spec_var_ascii(replay_channel)
}

/// Encodes the message into the front of `buf`: header, fixed block,
/// variable-length fields in declared order. Returns the total length.
pub fn encode_bounded_replay_request(
    buf: &mut WriteBuf,
    control_session_id: i64, correlation_id: i64, recording_id: i64, position: i64, length: i64, limit_counter_id: i32, replay_stream_id: i32, file_io_max_length: i32, replay_channel: &[u8],
) -> (len: usize)
    requires
        60 + 4 + replay_channel@.len() <= old(buf)@.len(),
        replay_channel@.len() <= u32::MAX,
    ensures
        final(buf)@.len() == old(buf)@.len(),
        len == 60 + 4 + replay_channel@.len(),
        is_bounded_replay_request(final(buf)@.subrange(0, len as int), control_session_id, correlation_id, recording_id, position, length, limit_counter_id, replay_stream_id, file_io_max_length, replay_channel@),
{
    proof {
        lemma_write_buf_len_bound(buf);
        lemma_i64_le_bytes_round_trip(control_session_id);
        lemma_i64_le_bytes_round_trip(correlation_id);
        lemma_i64_le_bytes_round_trip(recording_id);
        lemma_i64_le_bytes_round_trip(position);
        lemma_i64_le_bytes_round_trip(length);
        lemma_i32_le_bytes_round_trip(limit_counter_id);
        lemma_i32_le_bytes_round_trip(replay_stream_id);
        lemma_i32_le_bytes_round_trip(file_io_max_length);
        lemma_var_ascii_len(replay_channel@);
        lemma_header_round_trip(spec_request_header(BOUNDED_REPLAY_REQUEST_TEMPLATE_ID, BOUNDED_REPLAY_REQUEST_BLOCK_LENGTH));
    }
    buf.put_i64_at(8, control_session_id);
    buf.put_i64_at(16, correlation_id);
    proof {
        assert(buf@.subrange(8, 16) =~= spec_i64_to_le_bytes(control_session_id));
    }
    buf.put_i64_at(24, recording_id);
    proof {
        assert(buf@.subrange(8, 16) =~= spec_i64_to_le_bytes(control_session_id));
        assert(buf@.subrange(16, 24) =~= spec_i64_to_le_bytes(correlation_id));
    }
    buf.put_i64_at(32, position);
    proof {
        assert(buf@.subrange(8, 16) =~= spec_i64_to_le_bytes(control_session_id));
        assert(buf@.subrange(16, 24) =~= spec_i64_to_le_bytes(correlation_id));
        assert(buf@.subrange(24, 32) =~= spec_i64_to_le_bytes(recording_id));
    }
    buf.put_i64_at(40, length);
    proof {
        assert(buf@.subrange(8, 16) =~= spec_i64_to_le_bytes(control_session_id));
        assert(buf@.subrange(16, 24) =~= spec_i64_to_le_bytes(correlation_id));
        assert(buf@.subrange(24, 32) =~= spec_i64_to_le_bytes(recording_id));
        assert(buf@.subrange(32, 40) =~= spec_i64_to_le_bytes(position));
    }
    buf.put_i32_at(48, limit_counter_id);
    proof {
        assert(buf@.subrange(8, 16) =~= spec_i64_to_le_bytes(control_session_id));
        assert(buf@.subrange(16, 24) =~= spec_i64_to_le_bytes(correlation_id));
        assert(buf@.subrange(24, 32) =~= spec_i64_to_le_bytes(recording_id));
        assert(buf@.subrange(32, 40) =~= spec_i64_to_le_bytes(position));
        assert(buf@.subrange(40, 48) =~= spec_i64_to_le_bytes(length));
    }
    buf.put_i32_at(52, replay_stream_id);
    proof {
        assert(buf@.subrange(8, 16) =~= spec_i64_to_le_bytes(control_session_id));
        assert(buf@.subrange(16, 24) =~= spec_i64_to_le_bytes(correlation_id));
        assert(buf@.subrange(24, 32) =~= spec_i64_to_le_bytes(recording_id));
        assert(buf@.subrange(32, 40) =~= spec_i64_to_le_bytes(position));
        assert(buf@.subrange(40, 48) =~= spec_i64_to_le_bytes(length));
        assert(buf@.subrange(48, 52) =~= spec_i32_to_le_bytes(limit_counter_id));
    }
    buf.put_i32_at(56, file_io_max_length);
    proof {
        assert(buf@.subrange(8, 16) =~= spec_i64_to_le_bytes(control_session_id));
        assert(buf@.subrange(16, 24) =~= spec_i64_to_le_bytes(correlation_id));
        assert(buf@.subrange(24, 32) =~= spec_i64_to_le_bytes(recording_id));
        assert(buf@.subrange(32, 40) =~= spec_i64_to_le_bytes(position));
        assert(buf@.subrange(40, 48) =~= spec_i64_to_le_bytes(length));
        assert(buf@.subrange(48, 52) =~= spec_i32_to_le_bytes(limit_counter_id));
        assert(buf@.subrange(52, 56) =~= spec_i32_to_le_bytes(replay_stream_id));
    }
    let mut pos: usize = 60;
    pos = put_var_ascii(buf, pos, replay_channel);
    proof {
        assert(buf@.subrange(8, 16) =~= spec_i64_to_le_bytes(control_session_id));
        assert(buf@.subrange(16, 24) =~= spec_i64_to_le_bytes(correlation_id));
        assert(buf@.subrange(24, 32) =~= spec_i64_to_le_bytes(recording_id));
        assert(buf@.subrange(32, 40) =~= spec_i64_to_le_bytes(position));
        assert(buf@.subrange(40, 48) =~= spec_i64_to_le_bytes(length));
        assert(buf@.subrange(48, 52) =~= spec_i32_to_le_bytes(limit_counter_id));
        assert(buf@.subrange(52, 56) =~= spec_i32_to_le_bytes(replay_stream_id));
        assert(buf@.subrange(56, 60) =~= spec_i32_to_le_bytes(file_io_max_length));
    }
    let h = MessageHeader {
        block_length: BOUNDED_REPLAY_REQUEST_BLOCK_LENGTH,
        template_id: BOUNDED_REPLAY_REQUEST_TEMPLATE_ID,
        schema_id: SCHEMA_ID,
        version: SCHEMA_VERSION,
    };
    write_message_header(buf, 0, &h);
    proof {
        assert(buf@.subrange(8, 16) =~= spec_i64_to_le_bytes(control_session_id));
        assert(buf@.subrange(16, 24) =~= spec_i64_to_le_bytes(correlation_id));
        assert(buf@.subrange(24, 32) =~= spec_i64_to_le_bytes(recording_id));
        assert(buf@.subrange(32, 40) =~= spec_i64_to_le_bytes(position));
        assert(buf@.subrange(40, 48) =~= spec_i64_to_le_bytes(length));
        assert(buf@.subrange(48, 52) =~= spec_i32_to_le_bytes(limit_counter_id));
        assert(buf@.subrange(52, 56) =~= spec_i32_to_le_bytes(replay_stream_id));
        assert(buf@.subrange(56, 60) =~= spec_i32_to_le_bytes(file_io_max_length));
        assert(buf@.subrange(60, (60 + 4 + replay_channel@.len()) as int) =~= spec_var_ascii(replay_channel@));
    }
    proof {
        let s = buf@.subrange(0, (60 + 4 + replay_channel@.len()) as int);
        assert(s.subrange(0, 8) =~= buf@.subrange(0, 8));
        assert(s.subrange(8, 16) =~= buf@.subrange(8, 16));
        assert(s.subrange(16, 24) =~= buf@.subrange(16, 24));
        assert(s.subrange(24, 32) =~= buf@.subrange(24, 32));
        assert(s.subrange(32, 40) =~= buf@.subrange(32, 40));
        assert(s.subrange(40, 48) =~= buf@.subrange(40, 48));
        assert(s.subrange(48, 52) =~= buf@.subrange(48, 52));
        assert(s.subrange(52, 56) =~= buf@.subrange(52, 56));
        assert(s.subrange(56, 60) =~= buf@.subrange(56, 60));
        assert(s.subrange(60, (60 + 4 + replay_channel@.len()) as int) =~= buf@.subrange(60, (60 + 4 + replay_channel@.len()) as int));
    }
    pos
}

pub const STOP_REPLAY_REQUEST_TEMPLATE_ID: u16 = 7;

pub const STOP_REPLAY_REQUEST_BLOCK_LENGTH: u16 = 24;

/// The request to stop one replay session.
///
/// Holds when `s` is exactly this message's byte image for the given
/// field values.
pub open spec fn is_stop_replay_request(
    s: Seq<u8>,
    control_session_id: i64, correlation_id: i64, replay_session_id: i64,
) -> bool {
    &&& s.len() == 32
    &&& s.subrange(0, 8) == spec_header_bytes(spec_request_header(STOP_REPLAY_REQUEST_TEMPLATE_ID, STOP_REPLAY_REQUEST_BLOCK_LENGTH))
    &&& s.subrange(8, 16) == spec_i64_to_le_bytes(control_session_id)
    &&& s.subrange(16, 24) == spec_i64_to_le_bytes(correlation_id)
    &&& s.subrange(24, 32) == spec_i64_to_le_bytes(replay_session_id)
}

/// Encodes the message into the front of `buf`: header, fixed block,
/// variable-length fields in declared order. Returns the total length.
pub fn encode_stop_replay_request(
    buf: &mut WriteBuf,
    control_session_id: i64, correlation_id: i64, replay_session_id: i64,
) -> (len: usize)
    requires
        32 <= old(buf)@.len(),
    ensures
        final(buf)@.len() == old(buf)@.len(),
        len == 32,
        is_stop_replay_request(final(buf)@.subrange(0, len as int), control_session_id, correlation_id, replay_session_id),
{
    proof {
        lemma_write_buf_len_bound(buf);
        lemma_i64_le_bytes_round_trip(control_session_id);
        lemma_i64_le_bytes_round_trip(correlation_id);
        lemma_i64_le_bytes_round_trip(replay_session_id);
        lemma_header_round_trip(spec_request_header(STOP_REPLAY_REQUEST_TEMPLATE_ID, STOP_REPLAY_REQUEST_BLOCK_LENGTH));
    }
    buf.put_i64_at(8, control_session_id);
    buf.put_i64_at(16, correlation_id);
    proof {
        assert(buf@.subrange(8, 16) =~= spec_i64_to_le_bytes(control_session_id));
    }
    buf.put_i64_at(24, replay_session_id);
    proof {
        assert(buf@.subrange(8, 16) =~= spec_i64_to_le_bytes(control_session_id));
        assert(buf@.subrange(16, 24) =~= spec_i64_to_le_bytes(correlation_id));
    }
    let h = MessageHeader {
        block_length: STOP_REPLAY_REQUEST_BLOCK_LENGTH,
        template_id: STOP_REPLAY_REQUEST_TEMPLATE_ID,
        schema_id: SCHEMA_ID,
        version: SCHEMA_VERSION,
    };
    write_message_header(buf, 0, &h);
    proof {
        assert(buf@.subrange(8, 16) =~= spec_i64_to_le_bytes(control_session_id));
        assert(buf@.subrange(16, 24) =~= spec_i64_to_le_bytes(correlation_id));
        assert(buf@.subrange(24, 32) =~= spec_i64_to_le_bytes(replay_session_id));
    }
    proof {
        let s = buf@.subrange(0, 32);
        assert(s.subrange(0, 8) =~= buf@.subrange(0, 8));
        assert(s.subrange(8, 16) =~= buf@.subrange(8, 16));
        assert(s.subrange(16, 24) =~= buf@.subrange(16, 24));
        assert(s.subrange(24, 32) =~= buf@.subrange(24, 32));
    }
    32
}

pub const STOP_ALL_REPLAYS_REQUEST_TEMPLATE_ID: u16 = 19;

pub const STOP_ALL_REPLAYS_REQUEST_BLOCK_LENGTH: u16 = 24;

/// The request to stop every replay session for a recording.
///
/// Holds when `s` is exactly this message's byte image for the given
/// field values.
pub open spec fn is_stop_all_replays_request(
    s: Seq<u8>,
    control_session_id: i64, correlation_id: i64, recording_id: i64,
) -> bool {
    &&& s.len() == 32
    &&& s.subrange(0, 8) == spec_header_bytes(spec_request_header(STOP_ALL_REPLAYS_REQUEST_TEMPLATE_ID, STOP_ALL_REPLAYS_REQUEST_BLOCK_LENGTH))
    &&& s.subrange(8, 16) == spec_i64_to_le_bytes(control_session_id)
    &&& s.subrange(16, 24) == spec_i64_to_le_bytes(correlation_id)
    &&& s.subrange(24, 32) == spec_i64_to_le_bytes(recording_id)
}

/// Encodes the message into the front of `buf`: header, fixed block,
/// variable-length fields in declared order. Returns the total length.
pub fn encode_stop_all_replays_request(
    buf: &mut WriteBuf,
    control_session_id: i64, correlation_id: i64, recording_id: i64,
) -> (len: usize)
    requires
        32 <= old(buf)@.len(),
    ensures
        final(buf)@.len() == old(buf)@.len(),
        len == 32,
        is_stop_all_replays_request(final(buf)@.subrange(0, len as int), control_session_id, correlation_id, recording_id),
{
    proof {
        lemma_write_buf_len_bound(buf);
        lemma_i64_le_bytes_round_trip(control_session_id);
        lemma_i64_le_bytes_round_trip(correlation_id);
        lemma_i64_le_bytes_round_trip(recording_id);
        lemma_header_round_trip(spec_request_header(STOP_ALL_REPLAYS_REQUEST_TEMPLATE_ID, STOP_ALL_REPLAYS_REQUEST_BLOCK_LENGTH));
    }
    buf.put_i64_at(8, control_session_id);
    buf.put_i64_at(16, correlation_id);
    proof {
        assert(buf@.subrange(8, 16) =~= spec_i64_to_le_bytes(control_session_id));
    }
    buf.put_i64_at(24, recording_id);
    proof {
        assert(buf@.subrange(8, 16) =~= spec_i64_to_le_bytes(control_session_id));
        assert(buf@.subrange(16, 24) =~= spec_i64_to_le_bytes(correlation_id));
    }
    let h = MessageHeader {
        block_length: STOP_ALL_REPLAYS_REQUEST_BLOCK_LENGTH,
        template_id: STOP_ALL_REPLAYS_REQUEST_TEMPLATE_ID,
        schema_id: SCHEMA_ID,
        version: SCHEMA_VERSION,
    };
    write_message_header(buf, 0, &h);
    proof {
        assert(buf@.subrange(8, 16) =~= spec_i64_to_le_bytes(control_session_id));
        assert(buf@.subrange(16, 24) =~= spec_i64_to_le_bytes(correlation_id));
        assert(buf@.subrange(24, 32) =~= spec_i64_to_le_bytes(recording_id));
    }
    proof {
        let s = buf@.subrange(0, 32);
        assert(s.subrange(0, 8) =~= buf@.subrange(0, 8));
        assert(s.subrange(8, 16) =~= buf@.subrange(8, 16));
        assert(s.subrange(16, 24) =~= buf@.subrange(16, 24));
        assert(s.subrange(24, 32) =~= buf@.subrange(24, 32));
    }
    32
}

pub const LIST_RECORDINGS_REQUEST_TEMPLATE_ID: u16 = 8;

pub const LIST_RECORDINGS_REQUEST_BLOCK_LENGTH: u16 = 28;

/// The request to list a range of recording descriptors.
///
/// Holds when `s` is exactly this message's byte image for the given
/// field values.
pub open spec fn is_list_recordings_request(
    s: Seq<u8>,
    control_session_id: i64, correlation_id: i64, from_recording_id: i64, record_count: i32,
) -> bool {
    &&& s.len() == 36
    &&& s.subrange(0, 8) == spec_header_bytes(spec_request_header(LIST_RECORDINGS_REQUEST_TEMPLATE_ID, LIST_RECORDINGS_REQUEST_BLOCK_LENGTH))
    &&& s.subrange(8, 16) == spec_i64_to_le_bytes(control_session_id)
    &&& s.subrange(16, 24) == spec_i64_to_le_bytes(correlation_id)
    &&& s.subrange(24, 32) == spec_i64_to_le_bytes(from_recording_id)
    &&& s.subrange(32, 36) == spec_i32_to_le_bytes(record_count)
}

/// Encodes the message into the front of `buf`: header, fixed block,
/// variable-length fields in declared order. Returns the total length.
pub fn encode_list_recordings_request(
    buf: &mut WriteBuf,
    control_session_id: i64, correlation_id: i64, from_recording_id: i64, record_count: i32,
) -> (len: usize)
    requires
        36 <= old(buf)@.len(),
    ensures
        final(buf)@.len() == old(buf)@.len(),
        len == 36,
        is_list_recordings_request(final(buf)@.subrange(0, len as int), control_session_id, correlation_id, from_recording_id, record_count),
{
    proof {
        lemma_write_buf_len_bound(buf);
        lemma_i64_le_bytes_round_trip(control_session_id);
        lemma_i64_le_bytes_round_trip(correlation_id);
        lemma_i64_le_bytes_round_trip(from_recording_id);
        lemma_i32_le_bytes_round_trip(record_count);
        lemma_header_round_trip(spec_request_header(LIST_RECORDINGS_REQUEST_TEMPLATE_ID, LIST_RECORDINGS_REQUEST_BLOCK_LENGTH));
    }
    buf.put_i64_at(8, control_session_id);
    buf.put_i64_at(16, correlation_id);
    proof {
        assert(buf@.subrange(8, 16) =~= spec_i64_to_le_bytes(control_session_id));
    }
    buf.put_i64_at(24, from_recording_id);
    proof {
        assert(buf@.subrange(8, 16) =~= spec_i64_to_le_bytes(control_session_id));
        assert(buf@.subrange(16, 24) =~= spec_i64_to_le_bytes(correlation_id));
    }
    buf.put_i32_at(32, record_count);
    proof {
        assert(buf@.subrange(8, 16) =~= spec_i64_to_le_bytes(control_session_id));
        assert(buf@.subrange(16, 24) =~= spec_i64_to_le_bytes(correlation_id));
        assert(buf@.subrange(24, 32) =~= spec_i64_to_le_bytes(from_recording_id));
    }
    let h = MessageHeader {
        block_length: LIST_RECORDINGS_REQUEST_BLOCK_LENGTH,
        template_id: LIST_RECORDINGS_REQUEST_TEMPLATE_ID,
        schema_id: SCHEMA_ID,
        version: SCHEMA_VERSION,
    };
    write_message_header(buf, 0, &h);
    proof {
        assert(buf@.subrange(8, 16) =~= spec_i64_to_le_bytes(control_session_id));
        assert(buf@.subrange(16, 24) =~= spec_i64_to_le_bytes(correlation_id));
        assert(buf@.subrange(24, 32) =~= spec_i64_to_le_bytes(from_recording_id));
        assert(buf@.subrange(32, 36) =~= spec_i32_to_le_bytes(record_count));
    }
    proof {
        let s = buf@.subrange(0, 36);
        assert(s.subrange(0, 8) =~= buf@.subrange(0, 8));
        assert(s.subrange(8, 16) =~= buf@.subrange(8, 16));
        assert(s.subrange(16, 24) =~= buf@.subrange(16, 24));
        assert(s.subrange(24, 32) =~= buf@.subrange(24, 32));
        assert(s.subrange(32, 36) =~= buf@.subrange(32, 36));
    }
    36
}

pub const LIST_RECORDINGS_FOR_URI_REQUEST_TEMPLATE_ID: u16 = 9;

pub const LIST_RECORDINGS_FOR_URI_REQUEST_BLOCK_LENGTH: u16 = 32;

/// The request to list recording descriptors matching a channel fragment and stream id.
///
/// Holds when `s` is exactly this message's byte image for the given
/// field values.
pub open spec fn is_list_recordings_for_uri_request(
    s: Seq<u8>,
    control_session_id: i64, correlation_id: i64, from_recording_id: i64, record_count: i32, stream_id: i32, channel: Seq<u8>,
) -> bool {
    &&& s.len() == 40 + 4 + channel.len()
    &&& s.subrange(0, 8) == spec_header_bytes(spec_request_header(LIST_RECORDINGS_FOR_URI_REQUEST_TEMPLATE_ID, LIST_RECORDINGS_FOR_URI_REQUEST_BLOCK_LENGTH))
    &&& s.subrange(8, 16) == spec_i64_to_le_bytes(control_session_id)
    &&& s.subrange(16, 24) == spec_i64_to_le_bytes(correlation_id)
    &&& s.subrange(24, 32) == spec_i64_to_le_bytes(from_recording_id)
    &&& s.subrange(32, 36) == spec_i32_to_le_bytes(record_count)
    &&& s.subrange(36, 40) == spec_i32_to_le_bytes(stream_id)
    &&& s.subrange(40, (40 + 4 + channel.len()) as int) == spec_var_ascii(channel)
}

/// Encodes the message into the front of `buf`: header, fixed block,
/// variable-length fields in declared order. Returns the total length.
pub fn encode_list_recordings_for_uri_request(
    buf: &mut WriteBuf,
    control_session_id: i64, correlation_id: i64, from_recording_id: i64, record_count: i32, stream_id: i32, channel: &[u8],
) -> (len: usize)
    requires
        40 + 4 + channel@.len() <= old(buf)@.len(),
        channel@.len() <= u32::MAX,
    ensures
        final(buf)@.len() == old(buf)@.len(),
        len == 40 + 4 + channel@.len(),
        is_list_recordings_for_uri_request(final(buf)@.subrange(0, len as int), control_session_id, correlation_id, from_recording_id, record_count, stream_id, channel@),
{
    proof {
        lemma_write_buf_len_bound(buf);
        lemma_i64_le_bytes_round_trip(control_session_id);
        lemma_i64_le_bytes_round_trip(correlation_id);
        lemma_i64_le_bytes_round_trip(from_recording_id);
        lemma_i32_le_bytes_round_trip(record_count);
        lemma_i32_le_bytes_round_trip(stream_id);
        lemma_var_ascii_len(channel@);
        lemma_header_round_trip(spec_request_header(LIST_RECORDINGS_FOR_URI_REQUEST_TEMPLATE_ID, LIST_RECORDINGS_FOR_URI_REQUEST_BLOCK_LENGTH));
    }
    buf.put_i64_at(8, control_session_id);
    buf.put_i64_at(16, correlation_id);
    proof {
        assert(buf@.subrange(8, 16) =~= spec_i64_to_le_bytes(control_session_id));
    }
    buf.put_i64_at(24, from_recording_id);
    proof {
        assert(buf@.subrange(8, 16) =~= spec_i64_to_le_bytes(control_session_id));
        assert(buf@.subrange(16, 24) =~= spec_i64_to_le_bytes(correlation_id));
    }
    buf.put_i32_at(32, record_count);
    proof {
        assert(buf@.subrange(8, 16) =~= spec_i64_to_le_bytes(control_session_id));
        assert(buf@.subrange(16, 24) =~= spec_i64_to_le_bytes(correlation_id));
        assert(buf@.subrange(24, 32) =~= spec_i64_to_le_bytes(from_recording_id));
    }
    buf.put_i32_at(36, stream_id);
    proof {
        assert(buf@.subrange(8, 16) =~= spec_i64_to_le_bytes(control_session_id));
        assert(buf@.subrange(16, 24) =~= spec_i64_to_le_bytes(correlation_id));
        assert(buf@.subrange(24, 32) =~= spec_i64_to_le_bytes(from_recording_id));
        assert(buf@.subrange(32, 36) =~= spec_i32_to_le_bytes(record_count));
    }
    let mut pos: usize = 40;
    pos = put_var_ascii(buf, pos, channel);
    proof {
        assert(buf@.subrange(8, 16) =~= spec_i64_to_le_bytes(control_session_id));
        assert(buf@.subrange(16, 24) =~= spec_i64_to_le_bytes(correlation_id));
        assert(buf@.subrange(24, 32) =~= spec_i64_to_le_bytes(from_recording_id));
        assert(buf@.subrange(32, 36) =~= spec_i32_to_le_bytes(record_count));
        assert(buf@.subrange(36, 40) =~= spec_i32_to_le_bytes(stream_id));
    }
    let h = MessageHeader {
        block_length: LIST_RECORDINGS_FOR_URI_REQUEST_BLOCK_LENGTH,
        template_id: LIST_RECORDINGS_FOR_URI_REQUEST_TEMPLATE_ID,
        schema_id: SCHEMA_ID,
        version: SCHEMA_VERSION,
    };
    write_message_header(buf, 0, &h);
    proof {
        assert(buf@.subrange(8, 16) =~= spec_i64_to_le_bytes(control_session_id));
        assert(buf@.subrange(16, 24) =~= spec_i64_to_le_bytes(correlation_id));
        assert(buf@.subrange(24, 32) =~= spec_i64_to_le_bytes(from_recording_id));
        assert(buf@.subrange(32, 36) =~= spec_i32_to_le_bytes(record_count));
        assert(buf@.subrange(36, 40) =~= spec_i32_to_le_bytes(stream_id));
        assert(buf@.subrange(40, (40 + 4 + channel@.len()) as int) =~= spec_var_ascii(channel@));
    }
    proof {
        let s = buf@.subrange(0, (40 + 4 + channel@.len()) as int);
        assert(s.subrange(0, 8) =~= buf@.subrange(0, 8));
        assert(s.subrange(8, 16) =~= buf@.subrange(8, 16));
        assert(s.subrange(16, 24) =~= buf@.subrange(16, 24));
        assert(s.subrange(24, 32) =~= buf@.subrange(24, 32));
        assert(s.subrange(32, 36) =~= buf@.subrange(32, 36));
        assert(s.subrange(36, 40) =~= buf@.subrange(36, 40));
        assert(s.subrange(40, (40 + 4 + channel@.len()) as int) =~= buf@.subrange(40, (40 + 4 + channel@.len()) as int));
    }
    pos
}

pub const LIST_RECORDING_REQUEST_TEMPLATE_ID: u16 = 10;

pub const LIST_RECORDING_REQUEST_BLOCK_LENGTH: u16 = 24;

/// The request to list one recording descriptor.
///
/// Holds when `s` is exactly this message's byte image for the given
/// field values.
pub open spec fn is_list_recording_request(
    s: Seq<u8>,
    control_session_id: i64, correlation_id: i64, recording_id: i64,
) -> bool {
    &&& s.len() == 32
    &&& s.subrange(0, 8) == spec_header_bytes(spec_request_header(LIST_RECORDING_REQUEST_TEMPLATE_ID, LIST_RECORDING_REQUEST_BLOCK_LENGTH))
    &&& s.subrange(8, 16) == spec_i64_to_le_bytes(control_session_id)
    &&& s.subrange(16, 24) == spec_i64_to_le_bytes(correlation_id)
    &&& s.subrange(24, 32) == spec_i64_to_le_bytes(recording_id)
}

/// Encodes the message into the front of `buf`: header, fixed block,
/// variable-length fields in declared order. Returns the total length.
pub fn encode_list_recording_request(
    buf: &mut WriteBuf,
    control_session_id: i64, correlation_id: i64, recording_id: i64,
) -> (len: usize)
    requires
        32 <= old(buf)@.len(),
    ensures
        final(buf)@.len() == old(buf)@.len(),
        len == 32,
        is_list_recording_request(final(buf)@.subrange(0, len as int), control_session_id, correlation_id, recording_id),
{
    proof {
        lemma_write_buf_len_bound(buf);
        lemma_i64_le_bytes_round_trip(control_session_id);
        lemma_i64_le_bytes_round_trip(correlation_id);
        lemma_i64_le_bytes_round_trip(recording_id);
        lemma_header_round_trip(spec_request_header(LIST_RECORDING_REQUEST_TEMPLATE_ID, LIST_RECORDING_REQUEST_BLOCK_LENGTH));
    }
    buf.put_i64_at(8, control_session_id);
    buf.put_i64_at(16, correlation_id);
    proof {
        assert(buf@.subrange(8, 16) =~= spec_i64_to_le_bytes(control_session_id));
    }
    buf.put_i64_at(24, recording_id);
    proof {
        assert(buf@.subrange(8, 16) =~= spec_i64_to_le_bytes(control_session_id));
        assert(buf@.subrange(16, 24) =~= spec_i64_to_le_bytes(correlation_id));
    }
    let h = MessageHeader {
        block_length: LIST_RECORDING_REQUEST_BLOCK_LENGTH,
        template_id: LIST_RECORDING_REQUEST_TEMPLATE_ID,
        schema_id: SCHEMA_ID,
        version: SCHEMA_VERSION,
    };
    write_message_header(buf, 0, &h);
    proof {
        assert(buf@.subrange(8, 16) =~= spec_i64_to_le_bytes(control_session_id));
        assert(buf@.subrange(16, 24) =~= spec_i64_to_le_bytes(correlation_id));
        assert(buf@.subrange(24, 32) =~= spec_i64_to_le_bytes(recording_id));
    }
    proof {
        let s = buf@.subrange(0, 32);
        assert(s.subrange(0, 8) =~= buf@.subrange(0, 8));
        assert(s.subrange(8, 16) =~= buf@.subrange(8, 16));
        assert(s.subrange(16, 24) =~= buf@.subrange(16, 24));
        assert(s.subrange(24, 32) =~= buf@.subrange(24, 32));
    }
    32
}

pub const EXTEND_RECORDING_REQUEST_TEMPLATE_ID: u16 = 11;

pub const EXTEND_RECORDING_REQUEST_BLOCK_LENGTH: u16 = 32;

/// The request to extend an existing, non-active recording.
///
/// Holds when `s` is exactly this message's byte image for the given
/// field values.
pub open spec fn is_extend_recording_request(
    s: Seq<u8>,
    control_session_id: i64, correlation_id: i64, recording_id: i64, stream_id: i32, source_location: SourceLocation, channel: Seq<u8>,
) -> bool {
    &&& s.len() == 40 + 4 + channel.len()
    &&& s.subrange(0, 8) == spec_header_bytes(spec_request_header(EXTEND_RECORDING_REQUEST_TEMPLATE_ID, EXTEND_RECORDING_REQUEST_BLOCK_LENGTH))
    &&& s.subrange(8, 16) == spec_i64_to_le_bytes(control_session_id)
    &&& s.subrange(16, 24) == spec_i64_to_le_bytes(correlation_id)
    &&& s.subrange(24, 32) == spec_i64_to_le_bytes(recording_id)
    &&& s.subrange(32, 36) == spec_i32_to_le_bytes(stream_id)
    &&& s.subrange(36, 40) == spec_i32_to_le_bytes(source_location.spec_to_i32())
    &&& s.subrange(40, (40 + 4 + channel.len()) as int) == spec_var_ascii(channel)
}

/// Encodes the message into the front of `buf`: header, fixed block,
/// variable-length fields in declared order. Returns the total length.
pub fn encode_extend_recording_request(
    buf: &mut WriteBuf,
    control_session_id: i64, correlation_id: i64, recording_id: i64, stream_id: i32, source_location: SourceLocation, channel: &[u8],
) -> (len: usize)
    requires
        40 + 4 + channel@.len() <= old(buf)@.len(),
        channel@.len() <= u32::MAX,
    ensures
        final(buf)@.len() == old(buf)@.len(),
        len == 40 + 4 + channel@.len(),
        is_extend_recording_request(final(buf)@.subrange(0, len as int), control_session_id, correlation_id, recording_id, stream_id, source_location, channel@),
{
    proof {
        lemma_write_buf_len_bound(buf);
        lemma_i64_le_bytes_round_trip(control_session_id);
        lemma_i64_le_bytes_round_trip(correlation_id);
        lemma_i64_le_bytes_round_trip(recording_id);
        lemma_i32_le_bytes_round_trip(stream_id);
        lemma_i32_le_bytes_round_trip(source_location.spec_to_i32());
        lemma_var_ascii_len(channel@);
        lemma_header_round_trip(spec_request_header(EXTEND_RECORDING_REQUEST_TEMPLATE_ID, EXTEND_RECORDING_REQUEST_BLOCK_LENGTH));
    }
    buf.put_i64_at(8, control_session_id);
    buf.put_i64_at(16, correlation_id);
    proof {
        assert(buf@.subrange(8, 16) =~= spec_i64_to_le_bytes(control_session_id));
    }
    buf.put_i64_at(24, recording_id);
    proof {
        assert(buf@.subrange(8, 16) =~= spec_i64_to_le_bytes(control_session_id));
        assert(buf@.subrange(16, 24) =~= spec_i64_to_le_bytes(correlation_id));
    }
    buf.put_i32_at(32, stream_id);
    proof {
        assert(buf@.subrange(8, 16) =~= spec_i64_to_le_bytes(control_session_id));
        assert(buf@.subrange(16, 24) =~= spec_i64_to_le_bytes(correlation_id));
        assert(buf@.subrange(24, 32) =~= spec_i64_to_le_bytes(recording_id));
    }
    let source_location_code = source_location.to_i32();
    buf.put_i32_at(36, source_location_code);
    proof {
        assert(buf@.subrange(8, 16) =~= spec_i64_to_le_bytes(control_session_id));
        assert(buf@.subrange(16, 24) =~= spec_i64_to_le_bytes(correlation_id));
        assert(buf@.subrange(24, 32) =~= spec_i64_to_le_bytes(recording_id));
        assert(buf@.subrange(32, 36) =~= spec_i32_to_le_bytes(stream_id));
    }
    let mut pos: usize = 40;
    pos = put_var_ascii(buf, pos, channel);
    proof {
        assert(buf@.subrange(8, 16) =~= spec_i64_to_le_bytes(control_session_id));
        assert(buf@.subrange(16, 24) =~= spec_i64_to_le_bytes(correlation_id));
        assert(buf@.subrange(24, 32) =~= spec_i64_to_le_bytes(recording_id));
        assert(buf@.subrange(32, 36) =~= spec_i32_to_le_bytes(stream_id));
        assert(buf@.subrange(36, 40) =~= spec_i32_to_le_bytes(source_location.spec_to_i32()));
    }
    let h = MessageHeader {
        block_length: EXTEND_RECORDING_REQUEST_BLOCK_LENGTH,
        template_id: EXTEND_RECORDING_REQUEST_TEMPLATE_ID,
        schema_id: SCHEMA_ID,
        version: SCHEMA_VERSION,
    };
    write_message_header(buf, 0, &h);
    proof {
        assert(buf@.subrange(8, 16) =~= spec_i64_to_le_bytes(control_session_id));
        assert(buf@.subrange(16, 24) =~= spec_i64_to_le_bytes(correlation_id));
        assert(buf@.subrange(24, 32) =~= spec_i64_to_le_bytes(recording_id));
        assert(buf@.subrange(32, 36) =~= spec_i32_to_le_bytes(stream_id));
        assert(buf@.subrange(36, 40) =~= spec_i32_to_le_bytes(source_location.spec_to_i32()));
        assert(buf@.subrange(40, (40 + 4 + channel@.len()) as int) =~= spec_var_ascii(channel@));
    }
    proof {
        let s = buf@.subrange(0, (40 + 4 + channel@.len()) as int);
        assert(s.subrange(0, 8) =~= buf@.subrange(0, 8));
        assert(s.subrange(8, 16) =~= buf@.subrange(8, 16));
        assert(s.subrange(16, 24) =~= buf@.subrange(16, 24));
        assert(s.subrange(24, 32) =~= buf@.subrange(24, 32));
        assert(s.subrange(32, 36) =~= buf@.subrange(32, 36));
        assert(s.subrange(36, 40) =~= buf@.subrange(36, 40));
        assert(s.subrange(40, (40 + 4 + channel@.len()) as int) =~= buf@.subrange(40, (40 + 4 + channel@.len()) as int));
    }
    pos
}

pub const EXTEND_RECORDING_REQUEST_2_TEMPLATE_ID: u16 = 64;

pub const EXTEND_RECORDING_REQUEST_2_BLOCK_LENGTH: u16 = 36;

/// The newer extend-recording request that adds the optional auto-stop flag.
///
/// Holds when `s` is exactly this message's byte image for the given
/// field values.
pub open spec fn is_extend_recording_request_2(
    s: Seq<u8>,
    control_session_id: i64, correlation_id: i64, recording_id: i64, stream_id: i32, source_location: SourceLocation, auto_stop: BooleanType, channel: Seq<u8>,
) -> bool {
    &&& s.len() == 44 + 4 + channel.len()
    &&& s.subrange(0, 8) == spec_header_bytes(spec_request_header(EXTEND_RECORDING_REQUEST_2_TEMPLATE_ID, EXTEND_RECORDING_REQUEST_2_BLOCK_LENGTH))
    &&& s.subrange(8, 16) == spec_i64_to_le_bytes(control_session_id)
    &&& s.subrange(16, 24) == spec_i64_to_le_bytes(correlation_id)
    &&& s.subrange(24, 32) == spec_i64_to_le_bytes(recording_id)
    &&& s.subrange(32, 36) == spec_i32_to_le_bytes(stream_id)
    &&& s.subrange(36, 40) == spec_i32_to_le_bytes(source_location.spec_to_i32())
    &&& s.subrange(40, 44) == spec_i32_to_le_bytes(auto_stop.spec_to_i32())
    &&& s.subrange(44, (44 + 4 + channel.len()) as int) == spec_var_ascii(channel)
}

/// Encodes the message into the front of `buf`: header, fixed block,
/// variable-length fields in declared order. Returns the total length.
pub fn encode_extend_recording_request_2(
    buf: &mut WriteBuf,
    control_session_id: i64, correlation_id: i64, recording_id: i64, stream_id: i32, source_location: SourceLocation, auto_stop: BooleanType, channel: &[u8],
) -> (len: usize)
    requires
        44 + 4 + channel@.len() <= old(buf)@.len(),
        channel@.len() <= u32::MAX,
    ensures
        final(buf)@.len() == old(buf)@.len(),
        len == 44 + 4 + channel@.len(),
        is_extend_recording_request_2(final(buf)@.subrange(0, len as int), control_session_id, correlation_id, recording_id, stream_id, source_location, auto_stop, channel@),
{
    proof {
        lemma_write_buf_len_bound(buf);
        lemma_i64_le_bytes_round_trip(control_session_id);
        lemma_i64_le_bytes_round_trip(correlation_id);
        lemma_i64_le_bytes_round_trip(recording_id);
        lemma_i32_le_bytes_round_trip(stream_id);
        lemma_i32_le_bytes_round_trip(source_location.spec_to_i32());
        lemma_i32_le_bytes_round_trip(auto_stop.spec_to_i32());
        lemma_var_ascii_len(channel@);
        lemma_header_round_trip(spec_request_header(EXTEND_RECORDING_REQUEST_2_TEMPLATE_ID, EXTEND_RECORDING_REQUEST_2_BLOCK_LENGTH));
    }
    buf.put_i64_at(8, control_session_id);
    buf.put_i64_at(16, correlation_id);
    proof {
        assert(buf@.subrange(8, 16) =~= spec_i64_to_le_bytes(control_session_id));
    }
    buf.put_i64_at(24, recording_id);
    proof {
        assert(buf@.subrange(8, 16) =~= spec_i64_to_le_bytes(control_session_id));
        assert(buf@.subrange(16, 24) =~= spec_i64_to_le_bytes(correlation_id));
    }
    buf.put_i32_at(32, stream_id);
    proof {
        assert(buf@.subrange(8, 16) =~= spec_i64_to_le_bytes(control_session_id));
        assert(buf@.subrange(16, 24) =~= spec_i64_to_le_bytes(correlation_id));
        assert(buf@.subrange(24, 32) =~= spec_i64_to_le_bytes(recording_id));
    }
    let source_location_code = source_location.to_i32();
    buf.put_i32_at(36, source_location_code);
    proof {
        assert(buf@.subrange(8, 16) =~= spec_i64_to_le_bytes(control_session_id));
        assert(buf@.subrange(16, 24) =~= spec_i64_to_le_bytes(correlation_id));
        assert(buf@.subrange(24, 32) =~= spec_i64_to_le_bytes(recording_id));
        assert(buf@.subrange(32, 36) =~= spec_i32_to_le_bytes(stream_id));
    }
    let auto_stop_code = auto_stop.to_i32();
    buf.put_i32_at(40, auto_stop_code);
    proof {
        assert(buf@.subrange(8, 16) =~= spec_i64_to_le_bytes(control_session_id));
        assert(buf@.subrange(16, 24) =~= spec_i64_to_le_bytes(correlation_id));
        assert(buf@.subrange(24, 32) =~= spec_i64_to_le_bytes(recording_id));
        assert(buf@.subrange(32, 36) =~= spec_i32_to_le_bytes(stream_id));
        assert(buf@.subrange(36, 40) =~= spec_i32_to_le_bytes(source_location.spec_to_i32()));
    }
    let mut pos: usize = 44;
    pos = put_var_ascii(buf, pos, channel);
    proof {
        assert(buf@.subrange(8, 16) =~= spec_i64_to_le_bytes(control_session_id));
        assert(buf@.subrange(16, 24) =~= spec_i64_to_le_bytes(correlation_id));
        assert(buf@.subrange(24, 32) =~= spec_i64_to_le_bytes(recording_id));
        assert(buf@.subrange(32, 36) =~= spec_i32_to_le_bytes(stream_id));
        assert(buf@.subrange(36, 40) =~= spec_i32_to_le_bytes(source_location.spec_to_i32()));
        assert(buf@.subrange(40, 44) =~= spec_i32_to_le_bytes(auto_stop.spec_to_i32()));
    }
    let h = MessageHeader {
        block_length: EXTEND_RECORDING_REQUEST_2_BLOCK_LENGTH,
        template_id: EXTEND_RECORDING_REQUEST_2_TEMPLATE_ID,
        schema_id: SCHEMA_ID,
        version: SCHEMA_VERSION,
    };
    write_message_header(buf, 0, &h);
    proof {
        assert(buf@.subrange(8, 16) =~= spec_i64_to_le_bytes(control_session_id));
        assert(buf@.subrange(16, 24) =~= spec_i64_to_le_bytes(correlation_id));
        assert(buf@.subrange(24, 32) =~= spec_i64_to_le_bytes(recording_id));
        assert(buf@.subrange(32, 36) =~= spec_i32_to_le_bytes(stream_id));
        assert(buf@.subrange(36, 40) =~= spec_i32_to_le_bytes(source_location.spec_to_i32()));
        assert(buf@.subrange(40, 44) =~= spec_i32_to_le_bytes(auto_stop.spec_to_i32()));
        assert(buf@.subrange(44, (44 + 4 + channel@.len()) as int) =~= spec_var_ascii(channel@));
    }
    proof {
        let s = buf@.subrange(0, (44 + 4 + channel@.len()) as int);
        assert(s.subrange(0, 8) =~= buf@.subrange(0, 8));
        assert(s.subrange(8, 16) =~= buf@.subrange(8, 16));
        assert(s.subrange(16, 24) =~= buf@.subrange(16, 24));
        assert(s.subrange(24, 32) =~= buf@.subrange(24, 32));
        assert(s.subrange(32, 36) =~= buf@.subrange(32, 36));
        assert(s.subrange(36, 40) =~= buf@.subrange(36, 40));
        assert(s.subrange(40, 44) =~= buf@.subrange(40, 44));
        assert(s.subrange(44, (44 + 4 + channel@.len()) as int) =~= buf@.subrange(44, (44 + 4 + channel@.len()) as int));
    }
    pos
}

pub const RECORDING_POSITION_REQUEST_TEMPLATE_ID: u16 = 12;

pub const RECORDING_POSITION_REQUEST_BLOCK_LENGTH: u16 = 24;

/// The request for the recorded position of an active recording.
///
/// Holds when `s` is exactly this message's byte image for the given
/// field values.
pub open spec fn is_recording_position_request(
    s: Seq<u8>,
    control_session_id: i64, correlation_id: i64, recording_id: i64,
) -> bool {
    &&& s.len() == 32
    &&& s.subrange(0, 8) == spec_header_bytes(spec_request_header(RECORDING_POSITION_REQUEST_TEMPLATE_ID, RECORDING_POSITION_REQUEST_BLOCK_LENGTH))
    &&& s.subrange(8, 16) == spec_i64_to_le_bytes(control_session_id)
    &&& s.subrange(16, 24) == spec_i64_to_le_bytes(correlation_id)
    &&& s.subrange(24, 32) == spec_i64_to_le_bytes(recording_id)
}

/// Encodes the message into the front of `buf`: header, fixed block,
/// variable-length fields in declared order. Returns the total length.
pub fn encode_recording_position_request(
    buf: &mut WriteBuf,
    control_session_id: i64, correlation_id: i64, recording_id: i64,
) -> (len: usize)
    requires
        32 <= old(buf)@.len(),
    ensures
        final(buf)@.len() == old(buf)@.len(),
        len == 32,
        is_recording_position_request(final(buf)@.subrange(0, len as int), control_session_id, correlation_id, recording_id),
{
    proof {
        lemma_write_buf_len_bound(buf);
        lemma_i64_le_bytes_round_trip(control_session_id);
        lemma_i64_le_bytes_round_trip(correlation_id);
        lemma_i64_le_bytes_round_trip(recording_id);
        lemma_header_round_trip(spec_request_header(RECORDING_POSITION_REQUEST_TEMPLATE_ID, RECORDING_POSITION_REQUEST_BLOCK_LENGTH));
    }
    buf.put_i64_at(8, control_session_id);
    buf.put_i64_at(16, correlation_id);
    proof {
        assert(buf@.subrange(8, 16) =~= spec_i64_to_le_bytes(control_session_id));
    }
    buf.put_i64_at(24, recording_id);
    proof {
        assert(buf@.subrange(8, 16) =~= spec_i64_to_le_bytes(control_session_id));
        assert(buf@.subrange(16, 24) =~= spec_i64_to_le_bytes(correlation_id));
    }
    let h = MessageHeader {
        block_length: RECORDING_POSITION_REQUEST_BLOCK_LENGTH,
        template_id: RECORDING_POSITION_REQUEST_TEMPLATE_ID,
        schema_id: SCHEMA_ID,
        version: SCHEMA_VERSION,
    };
    write_message_header(buf, 0, &h);
    proof {
        assert(buf@.subrange(8, 16) =~= spec_i64_to_le_bytes(control_session_id));
        assert(buf@.subrange(16, 24) =~= spec_i64_to_le_bytes(correlation_id));
        assert(buf@.subrange(24, 32) =~= spec_i64_to_le_bytes(recording_id));
    }
    proof {
        let s = buf@.subrange(0, 32);
        assert(s.subrange(0, 8) =~= buf@.subrange(0, 8));
        assert(s.subrange(8, 16) =~= buf@.subrange(8, 16));
        assert(s.subrange(16, 24) =~= buf@.subrange(16, 24));
        assert(s.subrange(24, 32) =~= buf@.subrange(24, 32));
    }
    32
}

pub const TRUNCATE_RECORDING_REQUEST_TEMPLATE_ID: u16 = 13;

pub const TRUNCATE_RECORDING_REQUEST_BLOCK_LENGTH: u16 = 32;

/// The request to truncate a stopped recording to a position.
///
/// Holds when `s` is exactly this message's byte image for the given
/// field values.
pub open spec fn is_truncate_recording_request(
    s: Seq<u8>,
    control_session_id: i64, correlation_id: i64, recording_id: i64, position: i64,
) -> bool {
    &&& s.len() == 40
    &&& s.subrange(0, 8) == spec_header_bytes(spec_request_header(TRUNCATE_RECORDING_REQUEST_TEMPLATE_ID, TRUNCATE_RECORDING_REQUEST_BLOCK_LENGTH))
    &&& s.subrange(8, 16) == spec_i64_to_le_bytes(control_session_id)
    &&& s.subrange(16, 24) == spec_i64_to_le_bytes(correlation_id)
    &&& s.subrange(24, 32) == spec_i64_to_le_bytes(recording_id)
    &&& s.subrange(32, 40) == spec_i64_to_le_bytes(position)
}

/// Encodes the message into the front of `buf`: header, fixed block,
/// variable-length fields in declared order. Returns the total length.
pub fn encode_truncate_recording_request(
    buf: &mut WriteBuf,
    control_session_id: i64, correlation_id: i64, recording_id: i64, position: i64,
) -> (len: usize)
    requires
        40 <= old(buf)@.len(),
    ensures
        final(buf)@.len() == old(buf)@.len(),
        len == 40,
        is_truncate_recording_request(final(buf)@.subrange(0, len as int), control_session_id, correlation_id, recording_id, position),
{
    proof {
        lemma_write_buf_len_bound(buf);
        lemma_i64_le_bytes_round_trip(control_session_id);
        lemma_i64_le_bytes_round_trip(correlation_id);
        lemma_i64_le_bytes_round_trip(recording_id);
        lemma_i64_le_bytes_round_trip(position);
        lemma_header_round_trip(spec_request_header(TRUNCATE_RECORDING_REQUEST_TEMPLATE_ID, TRUNCATE_RECORDING_REQUEST_BLOCK_LENGTH));
    }
    buf.put_i64_at(8, control_session_id);
    buf.put_i64_at(16, correlation_id);
    proof {
        assert(buf@.subrange(8, 16) =~= spec_i64_to_le_bytes(control_session_id));
    }
    buf.put_i64_at(24, recording_id);
    proof {
        assert(buf@.subrange(8, 16) =~= spec_i64_to_le_bytes(control_session_id));
        assert(buf@.subrange(16, 24) =~= spec_i64_to_le_bytes(correlation_id));
    }
    buf.put_i64_at(32, position);
    proof {
        assert(buf@.subrange(8, 16) =~= spec_i64_to_le_bytes(control_session_id));
        assert(buf@.subrange(16, 24) =~= spec_i64_to_le_bytes(correlation_id));
        assert(buf@.subrange(24, 32) =~= spec_i64_to_le_bytes(recording_id));
    }
    let h = MessageHeader {
        block_length: TRUNCATE_RECORDING_REQUEST_BLOCK_LENGTH,
        template_id: TRUNCATE_RECORDING_REQUEST_TEMPLATE_ID,
        schema_id: SCHEMA_ID,
        version: SCHEMA_VERSION,
    };
    write_message_header(buf, 0, &h);
    proof {
        assert(buf@.subrange(8, 16) =~= spec_i64_to_le_bytes(control_session_id));
        assert(buf@.subrange(16, 24) =~= spec_i64_to_le_bytes(correlation_id));
        assert(buf@.subrange(24, 32) =~= spec_i64_to_le_bytes(recording_id));
        assert(buf@.subrange(32, 40) =~= spec_i64_to_le_bytes(position));
    }
    proof {
        let s = buf@.subrange(0, 40);
        assert(s.subrange(0, 8) =~= buf@.subrange(0, 8));
        assert(s.subrange(8, 16) =~= buf@.subrange(8, 16));
        assert(s.subrange(16, 24) =~= buf@.subrange(16, 24));
        assert(s.subrange(24, 32) =~= buf@.subrange(24, 32));
        assert(s.subrange(32, 40) =~= buf@.subrange(32, 40));
    }
    40
}

pub const PURGE_RECORDING_REQUEST_TEMPLATE_ID: u16 = 66;

pub const PURGE_RECORDING_REQUEST_BLOCK_LENGTH: u16 = 24;

/// The request to purge a stopped recording.
///
/// Holds when `s` is exactly this message's byte image for the given
/// field values.
pub open spec fn is_purge_recording_request(
    s: Seq<u8>,
    control_session_id: i64, correlation_id: i64, recording_id: i64,
) -> bool {
    &&& s.len() == 32
    &&& s.subrange(0, 8) == spec_header_bytes(spec_request_header(PURGE_RECORDING_REQUEST_TEMPLATE_ID, PURGE_RECORDING_REQUEST_BLOCK_LENGTH))
    &&& s.subrange(8, 16) == spec_i64_to_le_bytes(control_session_id)
    &&& s.subrange(16, 24) == spec_i64_to_le_bytes(correlation_id)
    &&& s.subrange(24, 32) == spec_i64_to_le_bytes(recording_id)
}

/// Encodes the message into the front of `buf`: header, fixed block,
/// variable-length fields in declared order. Returns the total length.
pub fn encode_purge_recording_request(
    buf: &mut WriteBuf,
    control_session_id: i64, correlation_id: i64, recording_id: i64,
) -> (len: usize)
    requires
        32 <= old(buf)@.len(),
    ensures
        final(buf)@.len() == old(buf)@.len(),
        len == 32,
        is_purge_recording_request(final(buf)@.subrange(0, len as int), control_session_id, correlation_id, recording_id),
{
    proof {
        lemma_write_buf_len_bound(buf);
        lemma_i64_le_bytes_round_trip(control_session_id);
        lemma_i64_le_bytes_round_trip(correlation_id);
        lemma_i64_le_bytes_round_trip(recording_id);
        lemma_header_round_trip(spec_request_header(PURGE_RECORDING_REQUEST_TEMPLATE_ID, PURGE_RECORDING_REQUEST_BLOCK_LENGTH));
    }
    buf.put_i64_at(8, control_session_id);
    buf.put_i64_at(16, correlation_id);
    proof {
        assert(buf@.subrange(8, 16) =~= spec_i64_to_le_bytes(control_session_id));
    }
    buf.put_i64_at(24, recording_id);
    proof {
        assert(buf@.subrange(8, 16) =~= spec_i64_to_le_bytes(control_session_id));
        assert(buf@.subrange(16, 24) =~= spec_i64_to_le_bytes(correlation_id));
    }
    let h = MessageHeader {
        block_length: PURGE_RECORDING_REQUEST_BLOCK_LENGTH,
        template_id: PURGE_RECORDING_REQUEST_TEMPLATE_ID,
        schema_id: SCHEMA_ID,
        version: SCHEMA_VERSION,
    };
    write_message_header(buf, 0, &h);
    proof {
        assert(buf@.subrange(8, 16) =~= spec_i64_to_le_bytes(control_session_id));
        assert(buf@.subrange(16, 24) =~= spec_i64_to_le_bytes(correlation_id));
        assert(buf@.subrange(24, 32) =~= spec_i64_to_le_bytes(recording_id));
    }
    proof {
        let s = buf@.subrange(0, 32);
        assert(s.subrange(0, 8) =~= buf@.subrange(0, 8));
        assert(s.subrange(8, 16) =~= buf@.subrange(8, 16));
        assert(s.subrange(16, 24) =~= buf@.subrange(16, 24));
        assert(s.subrange(24, 32) =~= buf@.subrange(24, 32));
    }
    32
}

pub const START_POSITION_REQUEST_TEMPLATE_ID: u16 = 52;

pub const START_POSITION_REQUEST_BLOCK_LENGTH: u16 = 24;

/// The request for the start position of a recording.
///
/// Holds when `s` is exactly this message's byte image for the given
/// field values.
pub open spec fn is_start_position_request(
    s: Seq<u8>,
    control_session_id: i64, correlation_id: i64, recording_id: i64,
) -> bool {
    &&& s.len() == 32
    &&& s.subrange(0, 8) == spec_header_bytes(spec_request_header(START_POSITION_REQUEST_TEMPLATE_ID, START_POSITION_REQUEST_BLOCK_LENGTH))
    &&& s.subrange(8, 16) == spec_i64_to_le_bytes(control_session_id)
    &&& s.subrange(16, 24) == spec_i64_to_le_bytes(correlation_id)
    &&& s.subrange(24, 32) == spec_i64_to_le_bytes(recording_id)
}

/// Encodes the message into the front of `buf`: header, fixed block,
/// variable-length fields in declared order. Returns the total length.
pub fn encode_start_position_request(
    buf: &mut WriteBuf,
    control_session_id: i64, correlation_id: i64, recording_id: i64,
) -> (len: usize)
    requires
        32 <= old(buf)@.len(),
    ensures
        final(buf)@.len() == old(buf)@.len(),
        len == 32,
        is_start_position_request(final(buf)@.subrange(0, len as int), control_session_id, correlation_id, recording_id),
{
    proof {
        lemma_write_buf_len_bound(buf);
        lemma_i64_le_bytes_round_trip(control_session_id);
        lemma_i64_le_bytes_round_trip(correlation_id);
        lemma_i64_le_bytes_round_trip(recording_id);
        lemma_header_round_trip(spec_request_header(START_POSITION_REQUEST_TEMPLATE_ID, START_POSITION_REQUEST_BLOCK_LENGTH));
    }
    buf.put_i64_at(8, control_session_id);
    buf.put_i64_at(16, correlation_id);
    proof {
        assert(buf@.subrange(8, 16) =~= spec_i64_to_le_bytes(control_session_id));
    }
    buf.put_i64_at(24, recording_id);
    proof {
        assert(buf@.subrange(8, 16) =~= spec_i64_to_le_bytes(control_session_id));
        assert(buf@.subrange(16, 24) =~= spec_i64_to_le_bytes(correlation_id));
    }
    let h = MessageHeader {
        block_length: START_POSITION_REQUEST_BLOCK_LENGTH,
        template_id: START_POSITION_REQUEST_TEMPLATE_ID,
        schema_id: SCHEMA_ID,
        version: SCHEMA_VERSION,
    };
    write_message_header(buf, 0, &h);
    proof {
        assert(buf@.subrange(8, 16) =~= spec_i64_to_le_bytes(control_session_id));
        assert(buf@.subrange(16, 24) =~= spec_i64_to_le_bytes(correlation_id));
        assert(buf@.subrange(24, 32) =~= spec_i64_to_le_bytes(recording_id));
    }
    proof {
        let s = buf@.subrange(0, 32);
        assert(s.subrange(0, 8) =~= buf@.subrange(0, 8));
        assert(s.subrange(8, 16) =~= buf@.subrange(8, 16));
        assert(s.subrange(16, 24) =~= buf@.subrange(16, 24));
        assert(s.subrange(24, 32) =~= buf@.subrange(24, 32));
    }
    32
}

pub const STOP_POSITION_REQUEST_TEMPLATE_ID: u16 = 15;

pub const STOP_POSITION_REQUEST_BLOCK_LENGTH: u16 = 24;

/// The request for the stop position of a recording.
///
/// Holds when `s` is exactly this message's byte image for the given
/// field values.
pub open spec fn is_stop_position_request(
    s: Seq<u8>,
    control_session_id: i64, correlation_id: i64, recording_id: i64,
) -> bool {
    &&& s.len() == 32
    &&& s.subrange(0, 8) == spec_header_bytes(spec_request_header(STOP_POSITION_REQUEST_TEMPLATE_ID, STOP_POSITION_REQUEST_BLOCK_LENGTH))
    &&& s.subrange(8, 16) == spec_i64_to_le_bytes(control_session_id)
    &&& s.subrange(16, 24) == spec_i64_to_le_bytes(correlation_id)
    &&& s.subrange(24, 32) == spec_i64_to_le_bytes(recording_id)
}

/// Encodes the message into the front of `buf`: header, fixed block,
/// variable-length fields in declared order. Returns the total length.
pub fn encode_stop_position_request(
    buf: &mut WriteBuf,
    control_session_id: i64, correlation_id: i64, recording_id: i64,
) -> (len: usize)
    requires
        32 <= old(buf)@.len(),
    ensures
        final(buf)@.len() == old(buf)@.len(),
        len == 32,
        is_stop_position_request(final(buf)@.subrange(0, len as int), control_session_id, correlation_id, recording_id),
{
    proof {
        lemma_write_buf_len_bound(buf);
        lemma_i64_le_bytes_round_trip(control_session_id);
        lemma_i64_le_bytes_round_trip(correlation_id);
        lemma_i64_le_bytes_round_trip(recording_id);
        lemma_header_round_trip(spec_request_header(STOP_POSITION_REQUEST_TEMPLATE_ID, STOP_POSITION_REQUEST_BLOCK_LENGTH));
    }
    buf.put_i64_at(8, control_session_id);
    buf.put_i64_at(16, correlation_id);
    proof {
        assert(buf@.subrange(8, 16) =~= spec_i64_to_le_bytes(control_session_id));
    }
    buf.put_i64_at(24, recording_id);
    proof {
        assert(buf@.subrange(8, 16) =~= spec_i64_to_le_bytes(control_session_id));
        assert(buf@.subrange(16, 24) =~= spec_i64_to_le_bytes(correlation_id));
    }
    let h = MessageHeader {
        block_length: STOP_POSITION_REQUEST_BLOCK_LENGTH,
        template_id: STOP_POSITION_REQUEST_TEMPLATE_ID,
        schema_id: SCHEMA_ID,
        version: SCHEMA_VERSION,
    };
    write_message_header(buf, 0, &h);
    proof {
        assert(buf@.subrange(8, 16) =~= spec_i64_to_le_bytes(control_session_id));
        assert(buf@.subrange(16, 24) =~= spec_i64_to_le_bytes(correlation_id));
        assert(buf@.subrange(24, 32) =~= spec_i64_to_le_bytes(recording_id));
    }
    proof {
        let s = buf@.subrange(0, 32);
        assert(s.subrange(0, 8) =~= buf@.subrange(0, 8));
        assert(s.subrange(8, 16) =~= buf@.subrange(8, 16));
        assert(s.subrange(16, 24) =~= buf@.subrange(16, 24));
        assert(s.subrange(24, 32) =~= buf@.subrange(24, 32));
    }
    32
}

pub const FIND_LAST_MATCHING_RECORDING_REQUEST_TEMPLATE_ID: u16 = 16;

pub const FIND_LAST_MATCHING_RECORDING_REQUEST_BLOCK_LENGTH: u16 = 32;

/// The request for the last recording matching given criteria.
///
/// Holds when `s` is exactly this message's byte image for the given
/// field values.
pub open spec fn is_find_last_matching_recording_request(
    s: Seq<u8>,
    control_session_id: i64, correlation_id: i64, min_recording_id: i64, session_id: i32, stream_id: i32, channel: Seq<u8>,
) -> bool {
    &&& s.len() == 40 + 4 + channel.len()
    &&& s.subrange(0, 8) == spec_header_bytes(spec_request_header(FIND_LAST_MATCHING_RECORDING_REQUEST_TEMPLATE_ID, FIND_LAST_MATCHING_RECORDING_REQUEST_BLOCK_LENGTH))
    &&& s.subrange(8, 16) == spec_i64_to_le_bytes(control_session_id)
    &&& s.subrange(16, 24) == spec_i64_to_le_bytes(correlation_id)
    &&& s.subrange(24, 32) == spec_i64_to_le_bytes(min_recording_id)
    &&& s.subrange(32, 36) == spec_i32_to_le_bytes(session_id)
    &&& s.subrange(36, 40) == spec_i32_to_le_bytes(stream_id)
    &&& s.subrange(40, (40 + 4 + channel.len()) as int) == spec_var_ascii(channel)
}

/// Encodes the message into the front of `buf`: header, fixed block,
/// variable-length fields in declared order. Returns the total length.
pub fn encode_find_last_matching_recording_request(
    buf: &mut WriteBuf,
    control_session_id: i64, correlation_id: i64, min_recording_id: i64, session_id: i32, stream_id: i32, channel: &[u8],
) -> (len: usize)
    requires
        40 + 4 + channel@.len() <= old(buf)@.len(),
        channel@.len() <= u32::MAX,
    ensures
        final(buf)@.len() == old(buf)@.len(),
        len == 40 + 4 + channel@.len(),
        is_find_last_matching_recording_request(final(buf)@.subrange(0, len as int), control_session_id, correlation_id, min_recording_id, session_id, stream_id, channel@),
{
    proof {
        lemma_write_buf_len_bound(buf);
        lemma_i64_le_bytes_round_trip(control_session_id);
        lemma_i64_le_bytes_round_trip(correlation_id);
        lemma_i64_le_bytes_round_trip(min_recording_id);
        lemma_i32_le_bytes_round_trip(session_id);
        lemma_i32_le_bytes_round_trip(stream_id);
        lemma_var_ascii_len(channel@);
        lemma_header_round_trip(spec_request_header(FIND_LAST_MATCHING_RECORDING_REQUEST_TEMPLATE_ID, FIND_LAST_MATCHING_RECORDING_REQUEST_BLOCK_LENGTH));
    }
    buf.put_i64_at(8, control_session_id);
    buf.put_i64_at(16, correlation_id);
    proof {
        assert(buf@.subrange(8, 16) =~= spec_i64_to_le_bytes(control_session_id));
    }
    buf.put_i64_at(24, min_recording_id);
    proof {
        assert(buf@.subrange(8, 16) =~= spec_i64_to_le_bytes(control_session_id));
        assert(buf@.subrange(16, 24) =~= spec_i64_to_le_bytes(correlation_id));
    }
    buf.put_i32_at(32, session_id);
    proof {
        assert(buf@.subrange(8, 16) =~= spec_i64_to_le_bytes(control_session_id));
        assert(buf@.subrange(16, 24) =~= spec_i64_to_le_bytes(correlation_id));
        assert(buf@.subrange(24, 32) =~= spec_i64_to_le_bytes(min_recording_id));
    }
    buf.put_i32_at(36, stream_id);
    proof {
        assert(buf@.subrange(8, 16) =~= spec_i64_to_le_bytes(control_session_id));
        assert(buf@.subrange(16, 24) =~= spec_i64_to_le_bytes(correlation_id));
        assert(buf@.subrange(24, 32) =~= spec_i64_to_le_bytes(min_recording_id));
        assert(buf@.subrange(32, 36) =~= spec_i32_to_le_bytes(session_id));
    }
    let mut pos: usize = 40;
    pos = put_var_ascii(buf, pos, channel);
    proof {
        assert(buf@.subrange(8, 16) =~= spec_i64_to_le_bytes(control_session_id));
        assert(buf@.subrange(16, 24) =~= spec_i64_to_le_bytes(correlation_id));
        assert(buf@.subrange(24, 32) =~= spec_i64_to_le_bytes(min_recording_id));
        assert(buf@.subrange(32, 36) =~= spec_i32_to_le_bytes(session_id));
        assert(buf@.subrange(36, 40) =~= spec_i32_to_le_bytes(stream_id));
    }
    let h = MessageHeader {
        block_length: FIND_LAST_MATCHING_RECORDING_REQUEST_BLOCK_LENGTH,
        template_id: FIND_LAST_MATCHING_RECORDING_REQUEST_TEMPLATE_ID,
        schema_id: SCHEMA_ID,
        version: SCHEMA_VERSION,
    };
    write_message_header(buf, 0, &h);
    proof {
        assert(buf@.subrange(8, 16) =~= spec_i64_to_le_bytes(control_session_id));
        assert(buf@.subrange(16, 24) =~= spec_i64_to_le_bytes(correlation_id));
        assert(buf@.subrange(24, 32) =~= spec_i64_to_le_bytes(min_recording_id));
        assert(buf@.subrange(32, 36) =~= spec_i32_to_le_bytes(session_id));
        assert(buf@.subrange(36, 40) =~= spec_i32_to_le_bytes(stream_id));
        assert(buf@.subrange(40, (40 + 4 + channel@.len()) as int) =~= spec_var_ascii(channel@));
    }
    proof {
        let s = buf@.subrange(0, (40 + 4 + channel@.len()) as int);
        assert(s.subrange(0, 8) =~= buf@.subrange(0, 8));
        assert(s.subrange(8, 16) =~= buf@.subrange(8, 16));
        assert(s.subrange(16, 24) =~= buf@.subrange(16, 24));
        assert(s.subrange(24, 32) =~= buf@.subrange(24, 32));
        assert(s.subrange(32, 36) =~= buf@.subrange(32, 36));
        assert(s.subrange(36, 40) =~= buf@.subrange(36, 40));
        assert(s.subrange(40, (40 + 4 + channel@.len()) as int) =~= buf@.subrange(40, (40 + 4 + channel@.len()) as int));
    }
    pos
}

pub const LIST_RECORDING_SUBSCRIPTIONS_REQUEST_TEMPLATE_ID: u16 = 17;

pub const LIST_RECORDING_SUBSCRIPTIONS_REQUEST_BLOCK_LENGTH: u16 = 32;

/// The request to list registered recording subscriptions.
///
/// Holds when `s` is exactly this message's byte image for the given
/// field values.
pub open spec fn is_list_recording_subscriptions_request(
    s: Seq<u8>,
    control_session_id: i64, correlation_id: i64, pseudo_index: i32, subscription_count: i32, apply_stream_id: BooleanType, stream_id: i32, channel: Seq<u8>,
) -> bool {
    &&& s.len() == 40 + 4 + channel.len()
    &&& s.subrange(0, 8) == spec_header_bytes(spec_request_header(LIST_RECORDING_SUBSCRIPTIONS_REQUEST_TEMPLATE_ID, LIST_RECORDING_SUBSCRIPTIONS_REQUEST_BLOCK_LENGTH))
    &&& s.subrange(8, 16) == spec_i64_to_le_bytes(control_session_id)
    &&& s.subrange(16, 24) == spec_i64_to_le_bytes(correlation_id)
    &&& s.subrange(24, 28) == spec_i32_to_le_bytes(pseudo_index)
    &&& s.subrange(28, 32) == spec_i32_to_le_bytes(subscription_count)
    &&& s.subrange(32, 36) == spec_i32_to_le_bytes(apply_stream_id.spec_to_i32())
    &&& s.subrange(36, 40) == spec_i32_to_le_bytes(stream_id)
    &&& s.subrange(40, (40 + 4 + channel.len()) as int) == spec_var_ascii(channel)
}

/// Encodes the message into the front of `buf`: header, fixed block,
/// variable-length fields in declared order. Returns the total length.
pub fn encode_list_recording_subscriptions_request(
    buf: &mut WriteBuf,
    control_session_id: i64, correlation_id: i64, pseudo_index: i32, subscription_count: i32, apply_stream_id: BooleanType, stream_id: i32, channel: &[u8],
) -> (len: usize)
    requires
        40 + 4 + channel@.len() <= old(buf)@.len(),
        channel@.len() <= u32::MAX,
    ensures
        final(buf)@.len() == old(buf)@.len(),
        len == 40 + 4 + channel@.len(),
        is_list_recording_subscriptions_request(final(buf)@.subrange(0, len as int), control_session_id, correlation_id, pseudo_index, subscription_count, apply_stream_id, stream_id, channel@),
{
    proof {
        lemma_write_buf_len_bound(buf);
        lemma_i64_le_bytes_round_trip(control_session_id);
        lemma_i64_le_bytes_round_trip(correlation_id);
        lemma_i32_le_bytes_round_trip(pseudo_index);
        lemma_i32_le_bytes_round_trip(subscription_count);
        lemma_i32_le_bytes_round_trip(apply_stream_id.spec_to_i32());
        lemma_i32_le_bytes_round_trip(stream_id);
        lemma_var_ascii_len(channel@);
        lemma_header_round_trip(spec_request_header(LIST_RECORDING_SUBSCRIPTIONS_REQUEST_TEMPLATE_ID, LIST_RECORDING_SUBSCRIPTIONS_REQUEST_BLOCK_LENGTH));
    }
    buf.put_i64_at(8, control_session_id);
    buf.put_i64_at(16, correlation_id);
    proof {
        assert(buf@.subrange(8, 16) =~= spec_i64_to_le_bytes(control_session_id));
    }
    buf.put_i32_at(24, pseudo_index);
    proof {
        assert(buf@.subrange(8, 16) =~= spec_i64_to_le_bytes(control_session_id));
        assert(buf@.subrange(16, 24) =~= spec_i64_to_le_bytes(correlation_id));
    }
    buf.put_i32_at(28, subscription_count);
    proof {
        assert(buf@.subrange(8, 16) =~= spec_i64_to_le_bytes(control_session_id));
        assert(buf@.subrange(16, 24) =~= spec_i64_to_le_bytes(correlation_id));
        assert(buf@.subrange(24, 28) =~= spec_i32_to_le_bytes(pseudo_index));
    }
    let apply_stream_id_code = apply_stream_id.to_i32();
    buf.put_i32_at(32, apply_stream_id_code);
    proof {
        assert(buf@.subrange(8, 16) =~= spec_i64_to_le_bytes(control_session_id));
        assert(buf@.subrange(16, 24) =~= spec_i64_to_le_bytes(correlation_id));
        assert(buf@.subrange(24, 28) =~= spec_i32_to_le_bytes(pseudo_index));
        assert(buf@.subrange(28, 32) =~= spec_i32_to_le_bytes(subscription_count));
    }
    buf.put_i32_at(36, stream_id);
    proof {
        assert(buf@.subrange(8, 16) =~= spec_i64_to_le_bytes(control_session_id));
        assert(buf@.subrange(16, 24) =~= spec_i64_to_le_bytes(correlation_id));
        assert(buf@.subrange(24, 28) =~= spec_i32_to_le_bytes(pseudo_index));
        assert(buf@.subrange(28, 32) =~= spec_i32_to_le_bytes(subscription_count));
        assert(buf@.subrange(32, 36) =~= spec_i32_to_le_bytes(apply_stream_id.spec_to_i32()));
    }
    let mut pos: usize = 40;
    pos = put_var_ascii(buf, pos, channel);
    proof {
        assert(buf@.subrange(8, 16) =~= spec_i64_to_le_bytes(control_session_id));
        assert(buf@.subrange(16, 24) =~= spec_i64_to_le_bytes(correlation_id));
        assert(buf@.subrange(24, 28) =~= spec_i32_to_le_bytes(pseudo_index));
        assert(buf@.subrange(28, 32) =~= spec_i32_to_le_bytes(subscription_count));
        assert(buf@.subrange(32, 36) =~= spec_i32_to_le_bytes(apply_stream_id.spec_to_i32()));
        assert(buf@.subrange(36, 40) =~= spec_i32_to_le_bytes(stream_id));
    }
    let h = MessageHeader {
        block_length: LIST_RECORDING_SUBSCRIPTIONS_REQUEST_BLOCK_LENGTH,
        template_id: LIST_RECORDING_SUBSCRIPTIONS_REQUEST_TEMPLATE_ID,
        schema_id: SCHEMA_ID,
        version: SCHEMA_VERSION,
    };
    write_message_header(buf, 0, &h);
    proof {
        assert(buf@.subrange(8, 16) =~= spec_i64_to_le_bytes(control_session_id));
        assert(buf@.subrange(16, 24) =~= spec_i64_to_le_bytes(correlation_id));
        assert(buf@.subrange(24, 28) =~= spec_i32_to_le_bytes(pseudo_index));
        assert(buf@.subrange(28, 32) =~= spec_i32_to_le_bytes(subscription_count));
        assert(buf@.subrange(32, 36) =~= spec_i32_to_le_bytes(apply_stream_id.spec_to_i32()));
        assert(buf@.subrange(36, 40) =~= spec_i32_to_le_bytes(stream_id));
        assert(buf@.subrange(40, (40 + 4 + channel@.len()) as int) =~= spec_var_ascii(channel@));
    }
    proof {
        let s = buf@.subrange(0, (40 + 4 + channel@.len()) as int);
        assert(s.subrange(0, 8) =~= buf@.subrange(0, 8));
        assert(s.subrange(8, 16) =~= buf@.subrange(8, 16));
        assert(s.subrange(16, 24) =~= buf@.subrange(16, 24));
        assert(s.subrange(24, 28) =~= buf@.subrange(24, 28));
        assert(s.subrange(28, 32) =~= buf@.subrange(28, 32));
        assert(s.subrange(32, 36) =~= buf@.subrange(32, 36));
        assert(s.subrange(36, 40) =~= buf@.subrange(36, 40));
        assert(s.subrange(40, (40 + 4 + channel@.len()) as int) =~= buf@.subrange(40, (40 + 4 + channel@.len()) as int));
    }
    pos
}

pub const REPLICATE_REQUEST_2_TEMPLATE_ID: u16 = 67;

pub const REPLICATE_REQUEST_2_BLOCK_LENGTH: u16 = 64;

/// The replicate request with optional stop position, tags, replication channel and file-I/O bound.
///
/// Holds when `s` is exactly this message's byte image for the given
/// field values.
pub open spec fn is_replicate_request_2(
    s: Seq<u8>,
    control_session_id: i64, correlation_id: i64, src_recording_id: i64, dst_recording_id: i64, stop_position: i64, channel_tag_id: i64, subscription_tag_id: i64, src_control_stream_id: i32, file_io_max_length: i32, src_control_channel: Seq<u8>, live_destination: Seq<u8>, replication_channel: Seq<u8>,
) -> bool {
    &&& s.len() == 72 + 4 + src_control_channel.len() + 4 + live_destination.len() + 4 + replication_channel.len()
    &&& s.subrange(0, 8) == spec_header_bytes(spec_request_header(REPLICATE_REQUEST_2_TEMPLATE_ID, REPLICATE_REQUEST_2_BLOCK_LENGTH))
    &&& s.subrange(8, 16) == spec_i64_to_le_bytes(control_session_id)
    &&& s.subrange(16, 24) == spec_i64_to_le_bytes(correlation_id)
    &&& s.subrange(24, 32) == spec_i64_to_le_bytes(src_recording_id)
    &&& s.subrange(32, 40) == spec_i64_to_le_bytes(dst_recording_id)
    &&& s.subrange(40, 48) == spec_i64_to_le_bytes(stop_position)
    &&& s.subrange(48, 56) == spec_i64_to_le_bytes(channel_tag_id)
    &&& s.subrange(56, 64) == spec_i64_to_le_bytes(subscription_tag_id)
    &&& s.subrange(64, 68) == spec_i32_to_le_bytes(src_control_stream_id)
    &&& s.subrange(68, 72) == spec_i32_to_le_bytes(file_io_max_length)
    &&& s.subrange(72, (72 + 4 + src_control_channel.len()) as int) == spec_var_ascii(src_control_channel)
    &&& s.subrange((72 + 4 + src_control_channel.len()) as int, (72 + 4 + src_control_channel.len() + 4 + live_destination.len()) as int) == spec_var_ascii(live_destination)
    &&& s.subrange((72 + 4 + src_control_channel.len() + 4 + live_destination.len()) as int, (72 + 4 + src_control_channel.len() + 4 + live_destination.len() + 4 + replication_channel.len()) as int) == spec_var_ascii(replication_channel)
}

/// Encodes the message into the front of `buf`: header, fixed block,
/// variable-length fields in declared order. Returns the total length.
pub fn encode_replicate_request_2(
    buf: &mut WriteBuf,
    control_session_id: i64, correlation_id: i64, src_recording_id: i64, dst_recording_id: i64, stop_position: i64, channel_tag_id: i64, subscription_tag_id: i64, src_control_stream_id: i32, file_io_max_length: i32, src_control_channel: &[u8], live_destination: &[u8], replication_channel: &[u8],
) -> (len: usize)
    requires
        72 + 4 + src_control_channel@.len() + 4 + live_destination@.len() + 4 + replication_channel@.len() <= old(buf)@.len(),
        src_control_channel@.len() <= u32::MAX,
        live_destination@.len() <= u32::MAX,
        replication_channel@.len() <= u32::MAX,
    ensures
        final(buf)@.len() == old(buf)@.len(),
        len == 72 + 4 + src_control_channel@.len() + 4 + live_destination@.len() + 4 + replication_channel@.len(),
        is_replicate_request_2(final(buf)@.subrange(0, len as int), control_session_id, correlation_id, src_recording_id, dst_recording_id, stop_position, channel_tag_id, subscription_tag_id, src_control_stream_id, file_io_max_length, src_control_channel@, live_destination@, replication_channel@),
{
    proof {
        lemma_write_buf_len_bound(buf);
        lemma_i64_le_bytes_round_trip(control_session_id);
        lemma_i64_le_bytes_round_trip(correlation_id);
        lemma_i64_le_bytes_round_trip(src_recording_id);
        lemma_i64_le_bytes_round_trip(dst_recording_id);
        lemma_i64_le_bytes_round_trip(stop_position);
        lemma_i64_le_bytes_round_trip(channel_tag_id);
        lemma_i64_le_bytes_round_trip(subscription_tag_id);
        lemma_i32_le_bytes_round_trip(src_control_stream_id);
        lemma_i32_le_bytes_round_trip(file_io_max_length);
        lemma_var_ascii_len(src_control_channel@);
        lemma_var_ascii_len(live_destination@);
        lemma_var_ascii_len(replication_channel@);
        lemma_header_round_trip(spec_request_header(REPLICATE_REQUEST_2_TEMPLATE_ID, REPLICATE_REQUEST_2_BLOCK_LENGTH));
    }
    buf.put_i64_at(8, control_session_id);
    buf.put_i64_at(16, correlation_id);
    proof {
        assert(buf@.subrange(8, 16) =~= spec_i64_to_le_bytes(control_session_id));
    }
    buf.put_i64_at(24, src_recording_id);
    proof {
        assert(buf@.subrange(8, 16) =~= spec_i64_to_le_bytes(control_session_id));
        assert(buf@.subrange(16, 24) =~= spec_i64_to_le_bytes(correlation_id));
    }
    buf.put_i64_at(32, dst_recording_id);
    proof {
        assert(buf@.subrange(8, 16) =~= spec_i64_to_le_bytes(control_session_id));
        assert(buf@.subrange(16, 24) =~= spec_i64_to_le_bytes(correlation_id));
        assert(buf@.subrange(24, 32) =~= spec_i64_to_le_bytes(src_recording_id));
    }
    buf.put_i64_at(40, stop_position);
    proof {
        assert(buf@.subrange(8, 16) =~= spec_i64_to_le_bytes(control_session_id));
        assert(buf@.subrange(16, 24) =~= spec_i64_to_le_bytes(correlation_id));
        assert(buf@.subrange(24, 32) =~= spec_i64_to_le_bytes(src_recording_id));
        assert(buf@.subrange(32, 40) =~= spec_i64_to_le_bytes(dst_recording_id));
    }
    buf.put_i64_at(48, channel_tag_id);
    proof {
        assert(buf@.subrange(8, 16) =~= spec_i64_to_le_bytes(control_session_id));
        assert(buf@.subrange(16, 24) =~= spec_i64_to_le_bytes(correlation_id));
        assert(buf@.subrange(24, 32) =~= spec_i64_to_le_bytes(src_recording_id));
        assert(buf@.subrange(32, 40) =~= spec_i64_to_le_bytes(dst_recording_id));
        assert(buf@.subrange(40, 48) =~= spec_i64_to_le_bytes(stop_position));
    }
    buf.put_i64_at(56, subscription_tag_id);
    proof {
        assert(buf@.subrange(8, 16) =~= spec_i64_to_le_bytes(control_session_id));
        assert(buf@.subrange(16, 24) =~= spec_i64_to_le_bytes(correlation_id));
        assert(buf@.subrange(24, 32) =~= spec_i64_to_le_bytes(src_recording_id));
        assert(buf@.subrange(32, 40) =~= spec_i64_to_le_bytes(dst_recording_id));
        assert(buf@.subrange(40, 48) =~= spec_i64_to_le_bytes(stop_position));
        assert(buf@.subrange(48, 56) =~= spec_i64_to_le_bytes(channel_tag_id));
    }
    buf.put_i32_at(64, src_control_stream_id);
    proof {
        assert(buf@.subrange(8, 16) =~= spec_i64_to_le_bytes(control_session_id));
        assert(buf@.subrange(16, 24) =~= spec_i64_to_le_bytes(correlation_id));
        assert(buf@.subrange(24, 32) =~= spec_i64_to_le_bytes(src_recording_id));
        assert(buf@.subrange(32, 40) =~= spec_i64_to_le_bytes(dst_recording_id));
        assert(buf@.subrange(40, 48) =~= spec_i64_to_le_bytes(stop_position));
        assert(buf@.subrange(48, 56) =~= spec_i64_to_le_bytes(channel_tag_id));
        assert(buf@.subrange(56, 64) =~= spec_i64_to_le_bytes(subscription_tag_id));
    }
    buf.put_i32_at(68, file_io_max_length);
    proof {
        assert(buf@.subrange(8, 16) =~= spec_i64_to_le_bytes(control_session_id));
        assert(buf@.subrange(16, 24) =~= spec_i64_to_le_bytes(correlation_id));
        assert(buf@.subrange(24, 32) =~= spec_i64_to_le_bytes(src_recording_id));
        assert(buf@.subrange(32, 40) =~= spec_i64_to_le_bytes(dst_recording_id));
        assert(buf@.subrange(40, 48) =~= spec_i64_to_le_bytes(stop_position));
        assert(buf@.subrange(48, 56) =~= spec_i64_to_le_bytes(channel_tag_id));
        assert(buf@.subrange(56, 64) =~= spec_i64_to_le_bytes(subscription_tag_id));
        assert(buf@.subrange(64, 68) =~= spec_i32_to_le_bytes(src_control_stream_id));
    }
    let mut pos: usize = 72;
    pos = put_var_ascii(buf, pos, src_control_channel);
    proof {
        assert(buf@.subrange(8, 16) =~= spec_i64_to_le_bytes(control_session_id));
        assert(buf@.subrange(16, 24) =~= spec_i64_to_le_bytes(correlation_id));
        assert(buf@.subrange(24, 32) =~= spec_i64_to_le_bytes(src_recording_id));
        assert(buf@.subrange(32, 40) =~= spec_i64_to_le_bytes(dst_recording_id));
        assert(buf@.subrange(40, 48) =~= spec_i64_to_le_bytes(stop_position));
        assert(buf@.subrange(48, 56) =~= spec_i64_to_le_bytes(channel_tag_id));
        assert(buf@.subrange(56, 64) =~= spec_i64_to_le_bytes(subscription_tag_id));
        assert(buf@.subrange(64, 68) =~= spec_i32_to_le_bytes(src_control_stream_id));
        assert(buf@.subrange(68, 72) =~= spec_i32_to_le_bytes(file_io_max_length));
    }
    pos = put_var_ascii(buf, pos, live_destination);
    proof {
        assert(buf@.subrange(8, 16) =~= spec_i64_to_le_bytes(control_session_id));
        assert(buf@.subrange(16, 24) =~= spec_i64_to_le_bytes(correlation_id));
        assert(buf@.subrange(24, 32) =~= spec_i64_to_le_bytes(src_recording_id));
        assert(buf@.subrange(32, 40) =~= spec_i64_to_le_bytes(dst_recording_id));
        assert(buf@.subrange(40, 48) =~= spec_i64_to_le_bytes(stop_position));
        assert(buf@.subrange(48, 56) =~= spec_i64_to_le_bytes(channel_tag_id));
        assert(buf@.subrange(56, 64) =~= spec_i64_to_le_bytes(subscription_tag_id));
        assert(buf@.subrange(64, 68) =~= spec_i32_to_le_bytes(src_control_stream_id));
        assert(buf@.subrange(68, 72) =~= spec_i32_to_le_bytes(file_io_max_length));
        assert(buf@.subrange(72, (72 + 4 + src_control_channel@.len()) as int) =~= spec_var_ascii(src_control_channel@));
    }
    pos = put_var_ascii(buf, pos, replication_channel);
    proof {
        assert(buf@.subrange(8, 16) =~= spec_i64_to_le_bytes(control_session_id));
        assert(buf@.subrange(16, 24) =~= spec_i64_to_le_bytes(correlation_id));
        assert(buf@.subrange(24, 32) =~= spec_i64_to_le_bytes(src_recording_id));
        assert(buf@.subrange(32, 40) =~= spec_i64_to_le_bytes(dst_recording_id));
        assert(buf@.subrange(40, 48) =~= spec_i64_to_le_bytes(stop_position));
        assert(buf@.subrange(48, 56) =~= spec_i64_to_le_bytes(channel_tag_id));
        assert(buf@.subrange(56, 64) =~= spec_i64_to_le_bytes(subscription_tag_id));
        assert(buf@.subrange(64, 68) =~= spec_i32_to_le_bytes(src_control_stream_id));
        assert(buf@.subrange(68, 72) =~= spec_i32_to_le_bytes(file_io_max_length));
        assert(buf@.subrange(72, (72 + 4 + src_control_channel@.len()) as int) =~= spec_var_ascii(src_control_channel@));
        assert(buf@.subrange((72 + 4 + src_control_channel@.len()) as int, (72 + 4 + src_control_channel@.len() + 4 + live_destination@.len()) as int) =~= spec_var_ascii(live_destination@));
    }
    let h = MessageHeader {
        block_length: REPLICATE_REQUEST_2_BLOCK_LENGTH,
        template_id: REPLICATE_REQUEST_2_TEMPLATE_ID,
        schema_id: SCHEMA_ID,
        version: SCHEMA_VERSION,
    };
    write_message_header(buf, 0, &h);
    proof {
        assert(buf@.subrange(8, 16) =~= spec_i64_to_le_bytes(control_session_id));
        assert(buf@.subrange(16, 24) =~= spec_i64_to_le_bytes(correlation_id));
        assert(buf@.subrange(24, 32) =~= spec_i64_to_le_bytes(src_recording_id));
        assert(buf@.subrange(32, 40) =~= spec_i64_to_le_bytes(dst_recording_id));
        assert(buf@.subrange(40, 48) =~= spec_i64_to_le_bytes(stop_position));
        assert(buf@.subrange(48, 56) =~= spec_i64_to_le_bytes(channel_tag_id));
        assert(buf@.subrange(56, 64) =~= spec_i64_to_le_bytes(subscription_tag_id));
        assert(buf@.subrange(64, 68) =~= spec_i32_to_le_bytes(src_control_stream_id));
        assert(buf@.subrange(68, 72) =~= spec_i32_to_le_bytes(file_io_max_length));
        assert(buf@.subrange(72, (72 + 4 + src_control_channel@.len()) as int) =~= spec_var_ascii(src_control_channel@));
        assert(buf@.subrange((72 + 4 + src_control_channel@.len()) as int, (72 + 4 + src_control_channel@.len() + 4 + live_destination@.len()) as int) =~= spec_var_ascii(live_destination@));
        assert(buf@.subrange((72 + 4 + src_control_channel@.len() + 4 + live_destination@.len()) as int, (72 + 4 + src_control_channel@.len() + 4 + live_destination@.len() + 4 + replication_channel@.len()) as int) =~= spec_var_ascii(replication_channel@));
    }
    proof {
        let s = buf@.subrange(0, (72 + 4 + src_control_channel@.len() + 4 + live_destination@.len() + 4 + replication_channel@.len()) as int);
        assert(s.subrange(0, 8) =~= buf@.subrange(0, 8));
        assert(s.subrange(8, 16) =~= buf@.subrange(8, 16));
        assert(s.subrange(16, 24) =~= buf@.subrange(16, 24));
        assert(s.subrange(24, 32) =~= buf@.subrange(24, 32));
        assert(s.subrange(32, 40) =~= buf@.subrange(32, 40));
        assert(s.subrange(40, 48) =~= buf@.subrange(40, 48));
        assert(s.subrange(48, 56) =~= buf@.subrange(48, 56));
        assert(s.subrange(56, 64) =~= buf@.subrange(56, 64));
        assert(s.subrange(64, 68) =~= buf@.subrange(64, 68));
        assert(s.subrange(68, 72) =~= buf@.subrange(68, 72));
        assert(s.subrange(72, (72 + 4 + src_control_channel@.len()) as int) =~= buf@.subrange(72, (72 + 4 + src_control_channel@.len()) as int));
        assert(s.subrange((72 + 4 + src_control_channel@.len()) as int, (72 + 4 + src_control_channel@.len() + 4 + live_destination@.len()) as int) =~= buf@.subrange((72 + 4 + src_control_channel@.len()) as int, (72 + 4 + src_control_channel@.len() + 4 + live_destination@.len()) as int));
        assert(s.subrange((72 + 4 + src_control_channel@.len() + 4 + live_destination@.len()) as int, (72 + 4 + src_control_channel@.len() + 4 + live_destination@.len() + 4 + replication_channel@.len()) as int) =~= buf@.subrange((72 + 4 + src_control_channel@.len() + 4 + live_destination@.len()) as int, (72 + 4 + src_control_channel@.len() + 4 + live_destination@.len() + 4 + replication_channel@.len()) as int));
    }
    pos
}

pub const STOP_REPLICATION_REQUEST_TEMPLATE_ID: u16 = 51;

pub const STOP_REPLICATION_REQUEST_BLOCK_LENGTH: u16 = 24;

/// The request to stop an active replication.
///
/// Holds when `s` is exactly this message's byte image for the given
/// field values.
pub open spec fn is_stop_replication_request(
    s: Seq<u8>,
    control_session_id: i64, correlation_id: i64, replication_id: i64,
) -> bool {
    &&& s.len() == 32
    &&& s.subrange(0, 8) == spec_header_bytes(spec_request_header(STOP_REPLICATION_REQUEST_TEMPLATE_ID, STOP_REPLICATION_REQUEST_BLOCK_LENGTH))
    &&& s.subrange(8, 16) == spec_i64_to_le_bytes(control_session_id)
    &&& s.subrange(16, 24) == spec_i64_to_le_bytes(correlation_id)
    &&& s.subrange(24, 32) == spec_i64_to_le_bytes(replication_id)
}

/// Encodes the message into the front of `buf`: header, fixed block,
/// variable-length fields in declared order. Returns the total length.
pub fn encode_stop_replication_request(
    buf: &mut WriteBuf,
    control_session_id: i64, correlation_id: i64, replication_id: i64,
) -> (len: usize)
    requires
        32 <= old(buf)@.len(),
    ensures
        final(buf)@.len() == old(buf)@.len(),
        len == 32,
        is_stop_replication_request(final(buf)@.subrange(0, len as int), control_session_id, correlation_id, replication_id),
{
    proof {
        lemma_write_buf_len_bound(buf);
        lemma_i64_le_bytes_round_trip(control_session_id);
        lemma_i64_le_bytes_round_trip(correlation_id);
        lemma_i64_le_bytes_round_trip(replication_id);
        lemma_header_round_trip(spec_request_header(STOP_REPLICATION_REQUEST_TEMPLATE_ID, STOP_REPLICATION_REQUEST_BLOCK_LENGTH));
    }
    buf.put_i64_at(8, control_session_id);
    buf.put_i64_at(16, correlation_id);
    proof {
        assert(buf@.subrange(8, 16) =~= spec_i64_to_le_bytes(control_session_id));
    }
    buf.put_i64_at(24, replication_id);
    proof {
        assert(buf@.subrange(8, 16) =~= spec_i64_to_le_bytes(control_session_id));
        assert(buf@.subrange(16, 24) =~= spec_i64_to_le_bytes(correlation_id));
    }
    let h = MessageHeader {
        block_length: STOP_REPLICATION_REQUEST_BLOCK_LENGTH,
        template_id: STOP_REPLICATION_REQUEST_TEMPLATE_ID,
        schema_id: SCHEMA_ID,
        version: SCHEMA_VERSION,
    };
    write_message_header(buf, 0, &h);
    proof {
        assert(buf@.subrange(8, 16) =~= spec_i64_to_le_bytes(control_session_id));
        assert(buf@.subrange(16, 24) =~= spec_i64_to_le_bytes(correlation_id));
        assert(buf@.subrange(24, 32) =~= spec_i64_to_le_bytes(replication_id));
    }
    proof {
        let s = buf@.subrange(0, 32);
        assert(s.subrange(0, 8) =~= buf@.subrange(0, 8));
        assert(s.subrange(8, 16) =~= buf@.subrange(8, 16));
        assert(s.subrange(16, 24) =~= buf@.subrange(16, 24));
        assert(s.subrange(24, 32) =~= buf@.subrange(24, 32));
    }
    32
}

} // verus!
