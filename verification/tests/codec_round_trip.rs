//! Encode/decode round trips through the per-message codecs.

use aeron_archiver::buffer::{ReadBuf, WriteBuf};
use aeron_archiver::connect_request::{ConnectRequestDecoder, ConnectRequestEncoder};
use aeron_archiver::message_header::MessageHeaderDecoder;
use aeron_archiver::recording_descriptor::{
    RecordingDescriptorDecoder, RecordingDescriptorEncoder,
};
use aeron_archiver::recording_descriptor_header::{
    RecordingDescriptorHeaderDecoder, RecordingDescriptorHeaderEncoder,
};
use aeron_archiver::enums::RecordingState;
use aeron_archiver::tagged_replicate_request::{
    TaggedReplicateRequestDecoder, TaggedReplicateRequestEncoder,
};

/// The example scenario: a connect request with correlation id 42,
/// response stream id 7, the protocol version, and a 33-byte US-ASCII
/// response channel encodes to 8 + 16 + 4 + 33 bytes, and decoding that
/// exact byte sequence reproduces all four values unchanged.
#[test]
fn connect_request_example_byte_layout() {
    let channel = "aeron:udp?endpoint=localhost:8020";
    assert_eq!(channel.len(), 33);
    let version = aeron_archiver::configuration::protocol_semantic_version().version();
    assert_eq!(version, 68096);

    let mut enc = ConnectRequestEncoder::default().wrap(WriteBuf::new(vec![0u8; 64]), 8);
    enc.correlation_id(42);
    enc.response_stream_id(7);
    enc.version(version);
    enc.response_channel(channel.as_bytes());
    let body_len = enc.encoded_length();
    enc.header(0);
    assert_eq!(body_len, 16 + 4 + 33);
    let total = 8 + body_len;
    assert_eq!(total, 61);

    let bytes = enc.into_buf().into_vec();
    let mut expected: Vec<u8> = Vec::new();
    expected.extend_from_slice(&[16, 0, 2, 0, 101, 0, 7, 0]); // header
    expected.extend_from_slice(&[42, 0, 0, 0, 0, 0, 0, 0]); // correlation id
    expected.extend_from_slice(&[7, 0, 0, 0]); // response stream id
    expected.extend_from_slice(&[0, 10, 1, 0]); // protocol version 68096
    expected.extend_from_slice(&[33, 0, 0, 0]); // channel length
    expected.extend_from_slice(channel.as_bytes());
    assert_eq!(&bytes[..61], &expected[..]);

    let read = ReadBuf::new(&bytes[..61]);
    let header = MessageHeaderDecoder::new().wrap(read, 0);
    assert_eq!(header.block_length(), 16);
    assert_eq!(header.template_id(), 2);
    assert_eq!(header.schema_id(), 101);
    assert_eq!(header.version(), 7);
    let mut dec = ConnectRequestDecoder::default().header(header).unwrap();
    assert_eq!(dec.correlation_id(), 42);
    assert_eq!(dec.response_stream_id(), 7);
    assert_eq!(dec.version(), Some(68096));
    let coords = dec.response_channel_decoder();
    assert_eq!(coords.1, 33);
    assert_eq!(dec.response_channel_slice(coords), channel.as_bytes());
}

#[test]
fn connect_request_header_template_mismatch_is_reported() {
    let mut enc = ConnectRequestEncoder::default().wrap(WriteBuf::new(vec![0u8; 64]), 8);
    enc.correlation_id(1);
    enc.response_stream_id(1);
    enc.version(1);
    enc.response_channel(b"x");
    enc.header(0);
    let mut bytes = enc.into_buf().into_vec();
    bytes[2] = 99; // corrupt the template id
    let read = ReadBuf::new(&bytes);
    let header = MessageHeaderDecoder::new().wrap(read, 0);
    let r = ConnectRequestDecoder::default().header(header);
    assert!(matches!(r, Err(aeron_archiver::SbeErr::TemplateIdMismatch)));
}

fn connect_round_trip(corr: i64, stream: i32, version: i32) {
    let mut enc = ConnectRequestEncoder::default().wrap(WriteBuf::new(vec![0u8; 64]), 8);
    enc.correlation_id(corr);
    enc.response_stream_id(stream);
    enc.version(version);
    enc.response_channel(b"ch");
    enc.header(0);
    let bytes = enc.into_buf().into_vec();
    let read = ReadBuf::new(&bytes);
    let dec = ConnectRequestDecoder::default().wrap(read, 8, 16, 7);
    assert_eq!(dec.correlation_id(), corr);
    assert_eq!(dec.response_stream_id(), stream);
    if version == 0 {
        assert_eq!(dec.version(), None);
    } else {
        assert_eq!(dec.version(), Some(version));
    }
}

/// Fixed fields round-trip at minimum, maximum and null-sentinel values.
#[test]
fn connect_request_fixed_field_extremes() {
    connect_round_trip(i64::MIN, i32::MIN, i32::MIN);
    connect_round_trip(i64::MAX, i32::MAX, i32::MAX);
    connect_round_trip(0, 0, 1);
    connect_round_trip(-1, -1, -1);
}

/// The optional version field's null sentinel (zero) decodes to absent;
/// any other legal value decodes to present with that value.
#[test]
fn connect_request_optional_version_sentinel() {
    connect_round_trip(1, 1, 0);
    connect_round_trip(1, 1, 5);
    connect_round_trip(1, 1, i32::MAX);
}

/// A message from a sender older than the version field's introduction
/// decodes the field as absent, whatever the bytes hold.
#[test]
fn connect_request_version_absent_before_schema_version_2() {
    let mut enc = ConnectRequestEncoder::default().wrap(WriteBuf::new(vec![0u8; 64]), 8);
    enc.correlation_id(9);
    enc.response_stream_id(9);
    enc.version(1234);
    enc.response_channel(b"ch");
    enc.header(0);
    let bytes = enc.into_buf().into_vec();
    let read = ReadBuf::new(&bytes);
    let dec = ConnectRequestDecoder::default().wrap(read, 8, 16, 1);
    assert_eq!(dec.version(), None);
    assert_eq!(dec.acting_version(), 1);
    assert_eq!(dec.acting_block_length(), 16);
}

fn descriptor_round_trip(v64: [i64; 7], v32: [i32; 6]) {
    let mut enc =
        RecordingDescriptorEncoder::default().wrap(WriteBuf::new(vec![0u8; 256]), 8);
    enc.control_session_id(v64[0]);
    enc.correlation_id(v64[1]);
    enc.recording_id(v64[2]);
    enc.start_timestamp(v64[3]);
    enc.stop_timestamp(v64[4]);
    enc.start_position(v64[5]);
    enc.stop_position(v64[6]);
    enc.initial_term_id(v32[0]);
    enc.segment_file_length(v32[1]);
    enc.term_buffer_length(v32[2]);
    enc.mtu_length(v32[3]);
    enc.session_id(v32[4]);
    enc.stream_id(v32[5]);
    enc.stripped_channel(b"aeron:ipc");
    enc.original_channel(b"aeron:ipc?alias=x");
    enc.source_identity(b"src");
    enc.header(0);
    let bytes = enc.into_buf().into_vec();
    let read = ReadBuf::new(&bytes);
    let header = MessageHeaderDecoder::new().wrap(read, 0);
    assert_eq!(header.template_id(), 22);
    assert_eq!(header.block_length(), 80);
    let mut dec = RecordingDescriptorDecoder::default().header(header).unwrap();
    assert_eq!(dec.control_session_id(), v64[0]);
    assert_eq!(dec.correlation_id(), v64[1]);
    assert_eq!(dec.recording_id(), v64[2]);
    assert_eq!(dec.start_timestamp(), v64[3]);
    assert_eq!(dec.stop_timestamp(), v64[4]);
    assert_eq!(dec.start_position(), v64[5]);
    assert_eq!(dec.stop_position(), v64[6]);
    assert_eq!(dec.initial_term_id(), v32[0]);
    assert_eq!(dec.segment_file_length(), v32[1]);
    assert_eq!(dec.term_buffer_length(), v32[2]);
    assert_eq!(dec.mtu_length(), v32[3]);
    assert_eq!(dec.session_id(), v32[4]);
    assert_eq!(dec.stream_id(), v32[5]);
    let c1 = dec.stripped_channel_decoder();
    assert_eq!(dec.stripped_channel_slice(c1), b"aeron:ipc");
    let c2 = dec.original_channel_decoder();
    assert_eq!(dec.original_channel_slice(c2), b"aeron:ipc?alias=x");
    let c3 = dec.source_identity_decoder();
    assert_eq!(dec.source_identity_slice(c3), b"src");
}

/// Every fixed field of the recording descriptor round-trips at minimum,
/// maximum and null-sentinel values.
#[test]
fn recording_descriptor_fixed_field_extremes() {
    descriptor_round_trip([i64::MIN; 7], [i32::MIN; 6]);
    descriptor_round_trip([i64::MAX; 7], [i32::MAX; 6]);
    descriptor_round_trip([0, 1, -1, 2, -2, 3, -3], [0, 1, -1, 2, -2, 3]);
}

fn tagged_replicate_encode(v64: [i64; 6], v32: i32) -> Vec<u8> {
    let mut enc =
        TaggedReplicateRequestEncoder::default().wrap(WriteBuf::new(vec![0u8; 256]), 8);
    enc.control_session_id(v64[0]);
    enc.correlation_id(v64[1]);
    enc.src_recording_id(v64[2]);
    enc.dst_recording_id(v64[3]);
    enc.channel_tag_id(v64[4]);
    enc.subscription_tag_id(v64[5]);
    enc.src_control_stream_id(v32);
    enc.src_control_channel(b"aeron:udp?endpoint=src:8010");
    enc.live_destination(b"aeron:udp?endpoint=live:9010");
    enc.header(0);
    enc.into_buf().into_vec()
}

/// Every fixed field of the tagged replicate request round-trips at
/// minimum, maximum and null-sentinel values.
#[test]
fn tagged_replicate_fixed_field_extremes() {
    for (v64, v32) in [
        ([i64::MIN; 6], i32::MIN),
        ([i64::MAX; 6], i32::MAX),
        ([1, 2, 3, 4, 5, 6], 7),
    ] {
        let bytes = tagged_replicate_encode(v64, v32);
        let read = ReadBuf::new(&bytes);
        let header = MessageHeaderDecoder::new().wrap(read, 0);
        assert_eq!(header.template_id(), 62);
        let dec = TaggedReplicateRequestDecoder::default().header(header).unwrap();
        assert_eq!(dec.control_session_id(), v64[0]);
        assert_eq!(dec.correlation_id(), v64[1]);
        assert_eq!(dec.src_recording_id(), v64[2]);
        assert_eq!(dec.dst_recording_id(), v64[3]);
        assert_eq!(dec.channel_tag_id(), v64[4]);
        assert_eq!(dec.subscription_tag_id(), v64[5]);
        assert_eq!(dec.src_control_stream_id(), v32);
    }
}

/// Decoding the second variable field after only advancing past the first
/// (never materializing its payload) yields the same result as decoding
/// both fields in full declared order.
#[test]
fn second_var_field_after_skipping_first() {
    let bytes = tagged_replicate_encode([1, 2, 3, 4, 5, 6], 7);

    // Full decode: materialize field 1, then field 2.
    let read_a = ReadBuf::new(&bytes);
    let mut full = TaggedReplicateRequestDecoder::default().wrap(read_a, 8, 52, 7);
    let c1 = full.src_control_channel_decoder();
    let first = full.src_control_channel_slice(c1).to_vec();
    assert_eq!(first, b"aeron:udp?endpoint=src:8010");
    let c2_full = full.live_destination_decoder();
    let second_full = full.live_destination_slice(c2_full).to_vec();

    // Skipping decode: advance past field 1 without touching its payload.
    let read_b = ReadBuf::new(&bytes);
    let mut skipping = TaggedReplicateRequestDecoder::default().wrap(read_b, 8, 52, 7);
    let _ = skipping.src_control_channel_decoder();
    let c2_skip = skipping.live_destination_decoder();
    let second_skip = skipping.live_destination_slice(c2_skip).to_vec();

    assert_eq!(c2_full, c2_skip);
    assert_eq!(second_full, second_skip);
    assert_eq!(second_skip, b"aeron:udp?endpoint=live:9010");
}

/// Recording descriptor header fields, the state through its enumeration
/// codes, round-trip at extremes.
#[test]
fn recording_descriptor_header_round_trip() {
    for (length, state, checksum, reserved) in [
        (i32::MIN, RecordingState::INVALID, i32::MIN, i8::MIN),
        (i32::MAX, RecordingState::VALID, i32::MAX, i8::MAX),
        (0, RecordingState::VALID, -1, 0),
    ] {
        let mut enc = RecordingDescriptorHeaderEncoder::default()
            .wrap(WriteBuf::new(vec![0u8; 64]), 8);
        enc.length(length);
        enc.state(state);
        enc.checksum(checksum);
        enc.reserved(reserved);
        enc.header(0);
        let bytes = enc.into_buf().into_vec();
        let read = ReadBuf::new(&bytes);
        let header = MessageHeaderDecoder::new().wrap(read, 0);
        assert_eq!(header.template_id(), 21);
        assert_eq!(header.block_length(), 32);
        let dec = RecordingDescriptorHeaderDecoder::default().header(header).unwrap();
        assert_eq!(dec.length(), length);
        assert_eq!(dec.state(), state);
        assert_eq!(dec.checksum(), checksum);
        assert_eq!(dec.reserved(), reserved);
    }
}

/// An empty variable-length string is a length field of 0 with no
/// payload bytes.
#[test]
fn empty_channel_is_length_zero_only() {
    let mut enc = ConnectRequestEncoder::default().wrap(WriteBuf::new(vec![0u8; 32]), 8);
    enc.correlation_id(1);
    enc.response_stream_id(2);
    enc.version(3);
    enc.response_channel(b"");
    let body_len = enc.encoded_length();
    enc.header(0);
    assert_eq!(body_len, 16 + 4);
    let bytes = enc.into_buf().into_vec();
    assert_eq!(&bytes[24..28], &[0, 0, 0, 0]);

    let read = ReadBuf::new(&bytes[..28]);
    let mut dec = ConnectRequestDecoder::default().wrap(read, 8, 16, 7);
    let coords = dec.response_channel_decoder();
    assert_eq!(coords, (28, 0));
    assert_eq!(dec.response_channel_slice(coords), b"");
}

/// Schema evolution forward: a sender one version ahead appended a fixed
/// field, so its block length is larger than this decoder's compiled
/// constant. The decoder sizes its fixed block by the sender's block
/// length from the header, so the unknown trailing fixed bytes are
/// skipped and the variable-length fields still line up.
#[test]
fn newer_sender_trailing_fixed_bytes_are_skipped() {
    let original = tagged_replicate_encode([1, 2, 3, 4, 5, 6], 7);
    let mut newer: Vec<u8> = Vec::new();
    newer.extend_from_slice(&[56, 0, 62, 0, 101, 0, 8, 0]); // block 56, version 8
    newer.extend_from_slice(&original[8..60]); // the fixed block this decoder knows
    newer.extend_from_slice(&[0xAA, 0xBB, 0xCC, 0xDD]); // the field it does not
    newer.extend_from_slice(&original[60..]); // variable-length fields

    let read = ReadBuf::new(&newer);
    let header = MessageHeaderDecoder::new().wrap(read, 0);
    assert_eq!(header.block_length(), 56);
    assert_eq!(header.version(), 8);
    let mut dec = TaggedReplicateRequestDecoder::default().header(header).unwrap();
    assert_eq!(dec.control_session_id(), 1);
    assert_eq!(dec.src_control_stream_id(), 7);
    let c1 = dec.src_control_channel_decoder();
    assert_eq!(dec.src_control_channel_slice(c1), b"aeron:udp?endpoint=src:8010");
    let c2 = dec.live_destination_decoder();
    assert_eq!(dec.live_destination_slice(c2), b"aeron:udp?endpoint=live:9010");
}
