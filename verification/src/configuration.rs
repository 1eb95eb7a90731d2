//! Configuration constants of the archive client.

use crate::semantic_version::{spec_compose, SemanticVersion};
use vstd::prelude::*;

verus! {

/// Major version of the network protocol from client to archive. If these
/// don't match then client and archive are not compatible.
pub const PROTOCOL_MAJOR_VERSION: i32 = 1;

/// Minor version of the network protocol from client to archive. If these
/// don't match then some features may not be available.
pub const PROTOCOL_MINOR_VERSION: i32 = 10;

/// Patch version of the network protocol from client to archive. If these
/// don't match then bug fixes may not have been applied.
pub const PROTOCOL_PATCH_VERSION: i32 = 0;

/// The protocol version as its packed 4-byte value.
pub open spec fn spec_protocol_version() -> i32 {
    spec_compose(PROTOCOL_MAJOR_VERSION, PROTOCOL_MINOR_VERSION, PROTOCOL_PATCH_VERSION)
}

/// The protocol's semantic version, sent in every connect request.
pub fn protocol_semantic_version() -> (v: SemanticVersion)
    ensures
        v.spec_version() == spec_protocol_version(),
{
    let composed = SemanticVersion::compose(
        PROTOCOL_MAJOR_VERSION,
        PROTOCOL_MINOR_VERSION,
        PROTOCOL_PATCH_VERSION,
    );
    match composed {
        Ok(v) => v,
        Err(_) => {
            proof {
                assert(false);
            }
            SemanticVersion::compose(0, 0, 1).unwrap()
        },
    }
}

/// Null sentinel for optional numeric request parameters the caller did
/// not supply.
pub const NULL_VALUE: i32 = -1;

/// Timeout in nanoseconds when waiting on a message to be sent or
/// received.
pub const MESSAGE_TIMEOUT_DEFAULT_NS: i64 = 10_000_000_000;

/// Timeout property name when waiting on a message to be sent or received.
pub const MESSAGE_TIMEOUT_PROP_NAME: &'static str = "aeron.archive.message.timeout";

/// Channel property name for sending control messages to an archive.
pub const CONTROL_CHANNEL_PROP_NAME: &'static str = "aeron.archive.control.channel";

/// Stream id property name for sending control messages to an archive.
pub const CONTROL_STREAM_ID_PROP_NAME: &'static str = "aeron.archive.control.stream.id";

/// Stream id within a channel for sending control messages to an archive.
pub const CONTROL_STREAM_ID_DEFAULT: i32 = 10;

/// Channel property name for sending control messages to a driver local
/// archive.
pub const LOCAL_CONTROL_CHANNEL_PROP_NAME: &'static str = "aeron.archive.local.control.channel";

/// Stream id property name for sending control messages to a driver local
/// archive.
pub const LOCAL_CONTROL_STREAM_ID_PROP_NAME: &'static str =
    "aeron.archive.local.control.stream.id";

/// Stream id within a channel for sending control messages to a driver
/// local archive.
pub const LOCAL_CONTROL_STREAM_ID_DEFAULT: i32 = 10;

/// Channel property name for receiving control response messages from an
/// archive.
pub const CONTROL_RESPONSE_CHANNEL_PROP_NAME: &'static str =
    "aeron.archive.control.response.channel";

/// Stream id property name for receiving control messages from an
/// archive.
pub const CONTROL_RESPONSE_STREAM_ID_PROP_NAME: &'static str =
    "aeron.archive.control.response.stream.id";

/// Stream id within a channel for receiving control messages from an
/// archive.
pub const CONTROL_RESPONSE_STREAM_ID_DEFAULT: i32 = 20;

/// Channel property name for receiving progress events of recordings from
/// an archive.
pub const RECORDING_EVENTS_CHANNEL_PROP_NAME: &'static str =
    "aeron.archive.recording.events.channel";

/// Stream id property name for receiving progress of recordings from an
/// archive.
pub const RECORDING_EVENTS_STREAM_ID_PROP_NAME: &'static str =
    "aeron.archive.recording.events.stream.id";

/// Stream id within a channel for receiving progress of recordings from an
/// archive.
pub const RECORDING_EVENTS_STREAM_ID_DEFAULT: i32 = 30;

/// Property name for whether recording progress events are enabled.
pub const RECORDING_EVENTS_ENABLED_PROP_NAME: &'static str =
    "aeron.archive.recording.events.enabled";

/// Whether recording progress events are enabled by default.
pub const RECORDING_EVENTS_ENABLED_DEFAULT: bool = false;

/// Property name of the sparse term buffer indicator for control streams.
pub const CONTROL_TERM_BUFFER_SPARSE_PROP_NAME: &'static str =
    "aeron.archive.control.term.buffer.sparse";

/// Default sparse term buffer indicator for control streams.
pub const CONTROL_TERM_BUFFER_SPARSE_DEFAULT: bool = true;

/// Property name of the term length for control streams.
pub const CONTROL_TERM_BUFFER_LENGTH_PROP_NAME: &'static str =
    "aeron.archive.control.term.buffer.length";

/// Low term length for the control channel, reflecting expected low
/// bandwidth usage.
pub const CONTROL_TERM_BUFFER_LENGTH_DEFAULT: i32 = 65536;

/// Property name of the MTU length for control streams.
pub const CONTROL_MTU_LENGTH_PROP_NAME: &'static str = "aeron.archive.control.mtu.length";

/// Default MTU for the control streams.
pub const CONTROL_MTU_LENGTH_DEFAULT: i32 = 1408;

} // verus!
