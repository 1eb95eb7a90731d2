//! Consumer interface for recording lifecycle signals delivered on the
//! response path.

use crate::enums::RecordingSignal;
use crate::identifiers::{ControlSessionId, CorrelationId, RecordingId};
use vstd::prelude::*;

verus! {

/// Handles one recording signal: which session and request it belongs to,
/// the recording and subscription concerned, and the signal itself.
pub trait RecordingSignalHandler {
    fn on_signal(
        &self,
        control_session_id: ControlSessionId,
        correlation_id: CorrelationId,
        recording_id: RecordingId,
        subscription_id: i64,
        signal: RecordingSignal,
    );
}

/// A handler that ignores every signal.
pub struct NoOpRecodingSignalConsumer {}

impl RecordingSignalHandler for NoOpRecodingSignalConsumer {
    fn on_signal(
        &self,
        _control_session_id: ControlSessionId,
        _correlation_id: CorrelationId,
        _recording_id: RecordingId,
        _subscription_id: i64,
        _signal: RecordingSignal,
    ) {
    }
}

} // verus!
