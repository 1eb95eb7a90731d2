//! Distinct wrapped identifier types. Each wraps one primitive and is
//! constructed explicitly, so a stream id can never be passed where a
//! session id is expected.

use vstd::prelude::*;

verus! {

/// Caller-chosen identifier pairing a request with its asynchronous
/// response.
#[derive(Clone, Copy, Debug, PartialEq, Eq, Structural)]
pub struct CorrelationId(pub i64);

/// Server-assigned identifier scoping a sequence of requests from one
/// client connection.
#[derive(Clone, Copy, Debug, PartialEq, Eq, Structural)]
pub struct ControlSessionId(pub i64);

/// Registration id of a recording subscription.
#[derive(Clone, Copy, Debug, PartialEq, Eq, Structural)]
pub struct SubscriptionId(pub i64);

/// Identifier of a recording in the archive's catalog.
#[derive(Clone, Copy, Debug, PartialEq, Eq, Structural)]
pub struct RecordingId(pub i64);

/// Stream id within a channel.
#[derive(Clone, Copy, Debug, PartialEq, Eq, Structural)]
pub struct StreamId(pub i32);

/// Session id of one publication image.
#[derive(Clone, Copy, Debug, PartialEq, Eq, Structural)]
pub struct SessionId(pub i32);

/// A channel URI held as its US-ASCII bytes, ready for the wire.
#[derive(Clone, Debug, PartialEq, Eq)]
pub struct ChannelUriStr(pub Vec<u8>);

impl View for ChannelUriStr {
    type V = Seq<u8>;

    open spec fn view(&self) -> Seq<u8> {
        self.0@
    }
}

impl ChannelUriStr {
    pub fn as_bytes(&self) -> (r: &[u8])
        ensures
            r@ == self@,
    {
        self.0.as_slice()
    }
}

/// The identifiers of one established connection.
pub struct ConnectionInfo {
    pub channel_uri: ChannelUriStr,
    pub stream_id: StreamId,
    pub session_id: SessionId,
    pub correlation_id: CorrelationId,
}

} // verus!
