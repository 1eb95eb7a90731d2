//! Message header round trips, enumeration decoding, buffer primitives and
//! the version utilities.

use aeron_archiver::buffer::{ReadBuf, WriteBuf};
use aeron_archiver::enums::{
    BooleanType, ControlResponseCode, RecordingSignal, RecordingState, SourceLocation,
};
use aeron_archiver::message_header::{
    read_message_header, write_message_header, MessageHeader,
};
use aeron_archiver::replay_params::ReplayParams;
use aeron_archiver::semantic_version::{AgronaError, SemanticVersion};

/// Arbitrary valid header tuples encode then decode to the identical
/// tuple.
#[test]
fn message_header_round_trips() {
    for (block_length, template_id, schema_id, version) in [
        (0u16, 0u16, 0u16, 0u16),
        (u16::MAX, u16::MAX, u16::MAX, u16::MAX),
        (16, 2, 101, 7),
        (80, 22, 101, 7),
        (1, 258, 515, 772),
    ] {
        let h = MessageHeader { block_length, template_id, schema_id, version };
        let mut buf = WriteBuf::new(vec![0u8; 16]);
        write_message_header(&mut buf, 4, &h);
        let bytes = buf.into_vec();
        let decoded = read_message_header(&ReadBuf::new(&bytes), 4);
        assert_eq!(decoded, h);
    }
}

/// Decoding any `i32` outside an enumeration's set — negative, the
/// sentinel itself, or out of range — returns the reserved unrecognized
/// variant, never fails.
#[test]
fn enum_decoding_is_total() {
    for v in [-1, i32::MIN, i32::MAX, 100, 8, 2] {
        assert_eq!(BooleanType::from_i32(v), BooleanType::NullVal);
        assert_eq!(SourceLocation::from_i32(v), SourceLocation::NullVal);
        assert_eq!(RecordingState::from_i32(v), RecordingState::NullVal);
    }
    for v in [-1, i32::MIN, i32::MAX, 100, 8] {
        assert_eq!(RecordingSignal::from_i32(v), RecordingSignal::NullVal);
    }
    for v in [-1, i32::MIN, i32::MAX, 100, 4] {
        assert_eq!(ControlResponseCode::from_i32(v), ControlResponseCode::NullVal);
    }
}

#[test]
fn enum_codes_round_trip() {
    assert_eq!(BooleanType::from_i32(0), BooleanType::FALSE);
    assert_eq!(BooleanType::from_i32(1), BooleanType::TRUE);
    assert_eq!(BooleanType::TRUE.to_i32(), 1);
    assert_eq!(SourceLocation::from_i32(0), SourceLocation::LOCAL);
    assert_eq!(SourceLocation::from_i32(1), SourceLocation::REMOTE);
    assert_eq!(RecordingState::from_i32(0), RecordingState::INVALID);
    assert_eq!(RecordingState::from_i32(1), RecordingState::VALID);
    assert_eq!(RecordingSignal::from_i32(7), RecordingSignal::REPLICATE_END);
    assert_eq!(RecordingSignal::SYNC.to_i32(), 5);
    assert_eq!(ControlResponseCode::from_i32(3), ControlResponseCode::SUBSCRIPTION_UNKNOWN);
    assert_eq!(ControlResponseCode::NullVal.to_i32(), i32::MIN);
}

#[test]
fn buffer_primitives_round_trip() {
    let mut buf = WriteBuf::new(vec![0u8; 40]);
    buf.put_u8_at(0, 200);
    buf.put_i8_at(1, -100);
    buf.put_u16_at(2, 0xBEEF);
    buf.put_i16_at(4, -12345);
    buf.put_u32_at(6, 0xDEAD_BEEF);
    buf.put_i32_at(10, -123456789);
    buf.put_u64_at(14, 0x0123_4567_89AB_CDEF);
    buf.put_i64_at(22, i64::MIN + 1);
    buf.put_slice_at(30, &[1, 2, 3]);
    let bytes = buf.into_vec();
    let read = ReadBuf::new(&bytes);
    assert_eq!(read.len(), 40);
    assert_eq!(read.get_u8_at(0), 200);
    assert_eq!(read.get_i8_at(1), -100);
    assert_eq!(read.get_u16_at(2), 0xBEEF);
    assert_eq!(read.get_i16_at(4), -12345);
    assert_eq!(read.get_u32_at(6), 0xDEAD_BEEF);
    assert_eq!(read.get_i32_at(10), -123456789);
    assert_eq!(read.get_u64_at(14), 0x0123_4567_89AB_CDEF);
    assert_eq!(read.get_i64_at(22), i64::MIN + 1);
    assert_eq!(read.get_slice_at(30, 3), &[1, 2, 3]);
}

#[test]
fn little_endian_byte_order_on_the_wire() {
    let mut buf = WriteBuf::new(vec![0u8; 8]);
    buf.put_u32_at(0, 0x0403_0201);
    buf.put_i32_at(4, -2);
    let bytes = buf.into_vec();
    assert_eq!(&bytes[..4], &[1, 2, 3, 4]);
    assert_eq!(&bytes[4..], &[254, 255, 255, 255]);
}

#[test]
fn semantic_version_composes_and_unpacks() {
    let v = SemanticVersion::compose(1, 10, 0).unwrap();
    assert_eq!(v.version(), 68096);
    assert_eq!(v.major(), 1);
    assert_eq!(v.minor(), 10);
    assert_eq!(v.patch(), 0);
    let w = SemanticVersion::compose(255, 255, 255).unwrap();
    assert_eq!(w.major(), 255);
    assert_eq!(w.minor(), 255);
    assert_eq!(w.patch(), 255);
}

#[test]
fn semantic_version_rejects_out_of_range_components() {
    assert_eq!(
        SemanticVersion::compose(-1, 0, 0),
        Err(AgronaError::ArgumentOutOfBounds(-1))
    );
    assert_eq!(
        SemanticVersion::compose(0, 256, 0),
        Err(AgronaError::ArgumentOutOfBounds(256))
    );
    assert_eq!(
        SemanticVersion::compose(0, 0, 1000),
        Err(AgronaError::ArgumentOutOfBounds(1000))
    );
}

#[test]
fn replay_params_builder_and_bounding() {
    let p = ReplayParams::new();
    assert_eq!(p.get_position(), None);
    assert_eq!(p.get_length(), None);
    assert_eq!(p.get_file_io_max_length(), None);
    assert_eq!(p.get_bounded_limit_counter_id(), None);
    assert!(!p.is_bounded());

    let q = p.position(100).length(200).file_io_max_length(300).bounded_limit_counter_id(4);
    assert_eq!(q.get_position(), Some(100));
    assert_eq!(q.get_length(), Some(200));
    assert_eq!(q.get_file_io_max_length(), Some(300));
    assert_eq!(q.get_bounded_limit_counter_id(), Some(4));
    assert!(q.is_bounded());

    let r = q.reset();
    assert!(!r.is_bounded());
    assert_eq!(r.get_position(), None);
}
