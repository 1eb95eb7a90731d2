//! Wire-protocol core of a client for a recording/archiving service reached
//! over a messaging transport: a schema-driven little-endian binary codec
//! (bounds-checked buffers, the fixed 8-byte message header, per-message
//! encoder/decoder pairs with forward/backward schema-version compatibility)
//! and a control proxy that turns archive operations into wire messages and
//! publishes them under bounded-attempt or deadline-bound retry policies.

use vstd::prelude::*;

pub mod buffer;
pub mod configuration;
pub mod connect_request;
pub mod enums;
pub mod identifiers;
pub mod message_header;
pub mod proxy;
pub mod recording_descriptor;
pub mod recording_descriptor_header;
pub mod recording_signal_consumer;
pub mod replay_params;
pub mod requests;
pub mod security;
pub mod semantic_version;
pub mod tagged_replicate_request;
pub mod time;
pub mod transport;

verus! {

/// Result type of the codec layer.
pub type SbeResult<T> = core::result::Result<T, SbeErr>;

/// One of two alternatives: a general-purpose sum type of the codec API.
#[derive(Clone, Copy, Debug, PartialEq, Eq)]
pub enum Either<L, R> {
    Left(L),
    Right(R),
}

/// Schema and decode errors: programmer or protocol errors that are always
/// reported, never silently ignored.
#[derive(Clone, Copy, Debug, PartialEq, Eq, Structural)]
pub enum SbeErr {
    /// A header codec was asked for its parent buffer before one was wrapped.
    ParentNotSet,
    /// A decoder was handed a header whose template id selects another
    /// message type.
    TemplateIdMismatch,
}

} // verus!
