//! The control-session request proxy: one method per archive operation,
//! each encoding one request into the proxy's reusable scratch buffer and
//! handing it to the transport under a retry policy.
//!
//! Two retry policies exist. Bounded-attempt publish, used once a session
//! exists, retries transient conditions up to the configured attempt
//! budget and then reports "not sent" — deliberately not an error.
//! Deadline-bound publish, used only for the pre-session connect
//! handshake, retries until a nanosecond deadline, pumping an optional
//! background-progress capability once per retried iteration. Both
//! surface the two fatal transport conditions immediately.

use crate::buffer::WriteBuf;
use crate::configuration::{protocol_semantic_version, spec_protocol_version, NULL_VALUE};
use crate::enums::{BooleanType, SourceLocation};
use crate::identifiers::{
    ChannelUriStr, ControlSessionId, CorrelationId, RecordingId, SessionId, StreamId,
    SubscriptionId,
};
use crate::replay_params::ReplayParams;
use crate::requests::{
    encode_auth_connect_request, encode_bounded_replay_request, encode_challenge_response,
    encode_close_session_request, encode_extend_recording_request,
    encode_extend_recording_request_2, encode_find_last_matching_recording_request,
    encode_keep_alive_request, encode_list_recording_request,
    encode_list_recording_subscriptions_request, encode_list_recordings_for_uri_request,
    encode_list_recordings_request, encode_purge_recording_request,
    encode_recording_position_request, encode_replay_request, encode_replicate_request_2,
    encode_start_position_request, encode_start_recording_request,
    encode_start_recording_request_2, encode_stop_all_replays_request,
    encode_stop_position_request, encode_stop_recording_by_identity_request,
    encode_stop_recording_subscription_request, encode_stop_replay_request,
    encode_stop_replication_request, encode_truncate_recording_request,
    is_auth_connect_request, is_bounded_replay_request, is_challenge_response,
    is_close_session_request, is_extend_recording_request, is_extend_recording_request_2,
    is_find_last_matching_recording_request, is_keep_alive_request, is_list_recording_request,
    is_list_recording_subscriptions_request, is_list_recordings_for_uri_request,
    is_list_recordings_request, is_purge_recording_request, is_recording_position_request,
    is_replay_request, is_replicate_request_2, is_start_position_request,
    is_start_recording_request, is_start_recording_request_2, is_stop_all_replays_request,
    is_stop_position_request, is_stop_recording_by_identity_request,
    is_stop_recording_subscription_request, is_stop_replay_request,
    is_stop_replication_request, is_truncate_recording_request,
};
use crate::security::CredentialSupplier;
use crate::time::NanoClock;
use crate::transport::{
    evaluate_offer, spec_is_fatal, AgentInvoker, OfferDisposition, Strategy, Transport,
    TransportError,
};
use vstd::prelude::*;
use vstd::string::StringSliceAdditionalSpecFns;

verus! {

/// Default bounded-attempt budget.
pub const DEFAULT_RETRY_ATTEMPTS: i32 = 3;

/// Hard cap on the iterations of one deadline-bound publish loop: the
/// measure that proves the loop terminates even against a clock that
/// never advances. At one attempt per nanosecond it is not reached within
/// five centuries.
pub const DEADLINE_LOOP_ITERATION_CAP: u64 = 0xFFFF_FFFF_FFFF_FFFF;

/// Adds two nanosecond counts, clamping at the representable range
/// instead of wrapping.
fn saturating_add_i64(a: i64, b: i64) -> (r: i64)
    ensures
        a + b > i64::MAX ==> r == i64::MAX,
        a + b < i64::MIN ==> r == i64::MIN,
        (i64::MIN <= a + b <= i64::MAX) ==> r == a + b,
{
    if b >= 0 {
        if a > i64::MAX - b {
            i64::MAX
        } else {
            a + b
        }
    } else {
        if a < i64::MIN - b {
            i64::MIN
        } else {
            a + b
        }
    }
}

/// The request proxy. It owns its scratch buffer exclusively; the
/// transport handle is the explicitly shared, synchronized resource the
/// caller passed in at construction, and all mutation of it is confined
/// to the publish call.
pub struct ArchiveProxy<T, S, C, K> {
    retry_attempts: i32,
    publication: T,
    buffer: WriteBuf,
    retry_idle_strategy: S,
    connect_timeout_ns: i64,
    credential_supplier: C,
    nano_clock: K,
}

impl<T: Transport, S: Strategy, C: CredentialSupplier, K: NanoClock> ArchiveProxy<T, S, C, K> {
    /// Bytes of the scratch buffer.
    pub closed spec fn spec_buffer(&self) -> Seq<u8> {
        self.buffer@
    }

    pub closed spec fn spec_retry_attempts(&self) -> int {
        self.retry_attempts as int
    }

    pub closed spec fn spec_connect_timeout_ns(&self) -> int {
        self.connect_timeout_ns as int
    }

    pub closed spec fn spec_credential_supplier(&self) -> C {
        self.credential_supplier
    }

    pub closed spec fn spec_publication(&self) -> T {
        self.publication
    }

    /// The retry budget is a count.
    pub open spec fn wf(&self) -> bool {
        self.spec_retry_attempts() >= 0
    }

    /// An operation leaves the proxy's configuration alone: same scratch
    /// capacity, same budget, timeout and credential supplier.
    pub open spec fn same_config(pre: Self, post: Self) -> bool {
        &&& post.spec_buffer().len() == pre.spec_buffer().len()
        &&& post.spec_retry_attempts() == pre.spec_retry_attempts()
        &&& post.spec_connect_timeout_ns() == pre.spec_connect_timeout_ns()
        &&& post.spec_credential_supplier() == pre.spec_credential_supplier()
    }

    pub fn new_with_params(
        buffer: WriteBuf,
        publication: T,
        retry_idle_strategy: S,
        retry_attempts: i32,
        connect_timeout_ns: i64,
        credential_supplier: C,
        nano_clock: K,
    ) -> (r: Self)
        requires
            retry_attempts >= 0,
        ensures
            r.wf(),
            r.spec_buffer() == buffer@,
            r.spec_retry_attempts() == retry_attempts as int,
            r.spec_connect_timeout_ns() == connect_timeout_ns as int,
            r.spec_credential_supplier() == credential_supplier,
    {
        ArchiveProxy {
            retry_attempts,
            publication,
            buffer,
            retry_idle_strategy,
            connect_timeout_ns,
            credential_supplier,
            nano_clock,
        }
    }

    pub fn retry_attempts(&self) -> (r: i32)
        ensures
            r as int == self.spec_retry_attempts(),
    {
        self.retry_attempts
    }

    /// The transport handle this proxy publishes through.
    pub fn pubication(&self) -> (r: &T)
        ensures
            *r == self.spec_publication(),
    {
        &self.publication
    }

    /// Bounded-attempt publish: resets the idle strategy, then attempts
    /// until the transport accepts, a fatal condition appears, or the
    /// attempt budget is spent — exhaustion is a boolean "not sent",
    /// deliberately not an error. Transient conditions idle between
    /// attempts.
    fn offer(&mut self, length: usize) -> (r: Result<bool, TransportError>)
        requires
            old(self).wf(),
            length <= old(self).spec_buffer().len(),
        ensures
            final(self).wf(),
            Self::same_config(*old(self), *final(self)),
            final(self).spec_buffer() == old(self).spec_buffer(),
            r matches Err(e) ==> spec_is_fatal(e),
    {
        self.retry_idle_strategy.reset();
        let mut attempts = self.retry_attempts;
        loop
            invariant
                self.wf(),
                attempts >= 0,
                length <= self.spec_buffer().len(),
                self.spec_buffer() == old(self).spec_buffer(),
                Self::same_config(*old(self), *self),
            decreases attempts,
        {
            let result = self.publication.offer(self.buffer.as_slice(), 0, length);
            match evaluate_offer(&result) {
                OfferDisposition::Accepted => {
                    return Ok(true);
                },
                OfferDisposition::Fatal(e) => {
                    return Err(e);
                },
                OfferDisposition::Transient => {
                    attempts = attempts - 1;
                    if attempts <= 0 {
                        return Ok(false);
                    }
                },
            }
            self.retry_idle_strategy.idle();
        }
    }

    /// Deadline-bound publish, used for the pre-session connect
    /// handshake: as `offer`, but bounded by a nanosecond deadline
    /// computed from the connect timeout instead of an attempt budget. On
    /// each retried iteration the background-progress capability, if one
    /// was supplied, is invoked exactly once before idling.
    fn offer_with_timeout<A: AgentInvoker>(
        &mut self,
        length: usize,
        agen_invoker: Option<&A>,
    ) -> (r: Result<bool, TransportError>)
        requires
            old(self).wf(),
            length <= old(self).spec_buffer().len(),
        ensures
            final(self).wf(),
            Self::same_config(*old(self), *final(self)),
            final(self).spec_buffer() == old(self).spec_buffer(),
            r matches Err(e) ==> spec_is_fatal(e),
    {
        self.retry_idle_strategy.reset();
        let now = self.nano_clock.nano_time();
        let dead_line_ns = saturating_add_i64(now, self.connect_timeout_ns);
        let mut iterations_left: u64 = DEADLINE_LOOP_ITERATION_CAP;
        loop
            invariant
                self.wf(),
                length <= self.spec_buffer().len(),
                self.spec_buffer() == old(self).spec_buffer(),
                Self::same_config(*old(self), *self),
            decreases iterations_left,
        {
            let result = self.publication.offer(self.buffer.as_slice(), 0, length);
            match evaluate_offer(&result) {
                OfferDisposition::Accepted => {
                    return Ok(true);
                },
                OfferDisposition::Fatal(e) => {
                    return Err(e);
                },
                OfferDisposition::Transient => {
                    if self.nano_clock.nano_time() > dead_line_ns {
                        return Ok(false);
                    }
                    match agen_invoker {
                        Some(invoker) => invoker.invoke(),
                        None => {},
                    }
                    if iterations_left == 0 {
                        return Ok(false);
                    }
                    iterations_left = iterations_left - 1;
                },
            }
            self.retry_idle_strategy.idle();
        }
    }

    /// Connect to an archive on its control interface providing the
    /// response stream details, publishing under the deadline-bound
    /// policy. The credentials come from the configured supplier.
    pub fn connect<A: AgentInvoker>(
        &mut self,
        response_channel: &str,
        response_stream_id: i32,
        correlation_id: i64,
        agen_invoker: Option<&A>,
    ) -> (r: Result<bool, TransportError>)
        requires
            old(self).wf(),
            response_channel.spec_bytes().len() <= u32::MAX,
            old(self).spec_credential_supplier().spec_max_credentials_length() <= u32::MAX,
            28 + response_channel.spec_bytes().len() + 4 + old(
                self,
            ).spec_credential_supplier().spec_max_credentials_length() <= old(
                self,
            ).spec_buffer().len(),
        ensures
            final(self).wf(),
            Self::same_config(*old(self), *final(self)),
            exists|creds: Seq<u8>|
                #[trigger] is_auth_connect_request(
                    final(self).spec_buffer().subrange(
                        0,
                        (28 + response_channel.spec_bytes().len() + 4 + creds.len()) as int,
                    ),
                    correlation_id,
                    response_stream_id,
                    spec_protocol_version(),
                    response_channel.spec_bytes(),
                    creds,
                ),
            r matches Err(e) ==> spec_is_fatal(e),
    {
        let version = protocol_semantic_version().version();
        let channel_bytes = response_channel.as_bytes();
        let credentials = self.credential_supplier.encoded_credentials();
        let ghost creds = credentials@;
        let length = encode_auth_connect_request(
            &mut self.buffer,
            correlation_id,
            response_stream_id,
            version,
            channel_bytes,
            credentials,
        );
        let r = self.offer_with_timeout(length, agen_invoker);
        proof {
            assert(is_auth_connect_request(
                self.spec_buffer().subrange(
                    0,
                    (28 + response_channel.spec_bytes().len() + 4 + creds.len()) as int,
                ),
                correlation_id,
                response_stream_id,
                spec_protocol_version(),
                response_channel.spec_bytes(),
                creds,
            ));
        }
        r
    }

    /// Try to connect with a single offer attempt, returning the raw
    /// publish outcome: no retry, transient errors included.
    pub fn try_connect(
        &mut self,
        response_channel: ChannelUriStr,
        response_stream_id: StreamId,
        correlation_id: CorrelationId,
    ) -> (r: Result<bool, TransportError>)
        requires
            old(self).wf(),
            response_channel@.len() <= u32::MAX,
            old(self).spec_credential_supplier().spec_max_credentials_length() <= u32::MAX,
            28 + response_channel@.len() + 4 + old(
                self,
            ).spec_credential_supplier().spec_max_credentials_length() <= old(
                self,
            ).spec_buffer().len(),
        ensures
            final(self).wf(),
            Self::same_config(*old(self), *final(self)),
            exists|creds: Seq<u8>|
                #[trigger] is_auth_connect_request(
                    final(self).spec_buffer().subrange(
                        0,
                        (28 + response_channel@.len() + 4 + creds.len()) as int,
                    ),
                    correlation_id.0,
                    response_stream_id.0,
                    spec_protocol_version(),
                    response_channel@,
                    creds,
                ),
    {
        let version = protocol_semantic_version().version();
        let credentials = self.credential_supplier.encoded_credentials();
        let ghost creds = credentials@;
        let length = encode_auth_connect_request(
            &mut self.buffer,
            correlation_id.0,
            response_stream_id.0,
            version,
            response_channel.as_bytes(),
            credentials,
        );
        let result = self.publication.offer(self.buffer.as_slice(), 0, length);
        proof {
            assert(is_auth_connect_request(
                self.spec_buffer().subrange(
                    0,
                    (28 + response_channel@.len() + 4 + creds.len()) as int,
                ),
                correlation_id.0,
                response_stream_id.0,
                spec_protocol_version(),
                response_channel@,
                creds,
            ));
        }
        match result {
            Ok(position) => Ok(position > 0),
            Err(e) => Err(e),
        }
    }

    /// Try to send a challenge response with a single offer attempt,
    /// returning the raw publish outcome.
    pub fn try_challange_response(
        &mut self,
        encoded_credentials: &[u8],
        correlation_id: CorrelationId,
        control_session_id: ControlSessionId,
    ) -> (r: Result<bool, TransportError>)
        requires
            old(self).wf(),
            encoded_credentials@.len() <= u32::MAX,
            28 + encoded_credentials@.len() <= old(self).spec_buffer().len(),
        ensures
            final(self).wf(),
            Self::same_config(*old(self), *final(self)),
            is_challenge_response(
                final(self).spec_buffer().subrange(
                    0,
                    (28 + encoded_credentials@.len()) as int,
                ),
                control_session_id.0,
                correlation_id.0,
                encoded_credentials@,
            ),
    {
        let length = encode_challenge_response(
            &mut self.buffer,
            control_session_id.0,
            correlation_id.0,
            encoded_credentials,
        );
        let result = self.publication.offer(self.buffer.as_slice(), 0, length);
        match result {
            Ok(position) => Ok(position > 0),
            Err(e) => Err(e),
        }
    }

    /// Keep this archive session alive by notifying the archive.
    pub fn keep_alive(
        &mut self,
        control_session_id: ControlSessionId,
        correlation_id: CorrelationId,
    ) -> (r: Result<bool, TransportError>)
        requires
            old(self).wf(),
            24 <= old(self).spec_buffer().len(),
        ensures
            final(self).wf(),
            Self::same_config(*old(self), *final(self)),
            is_keep_alive_request(
                final(self).spec_buffer().subrange(0, 24),
                control_session_id.0,
                correlation_id.0,
            ),
            r matches Err(e) ==> spec_is_fatal(e),
    {
        let length = encode_keep_alive_request(
            &mut self.buffer,
            control_session_id.0,
            correlation_id.0,
        );
        self.offer(length)
    }

    /// Close this control session with the archive.
    pub fn close_session(&mut self, control_session_id: ControlSessionId) -> (r: Result<
        bool,
        TransportError,
    >)
        requires
            old(self).wf(),
            16 <= old(self).spec_buffer().len(),
        ensures
            final(self).wf(),
            Self::same_config(*old(self), *final(self)),
            is_close_session_request(
                final(self).spec_buffer().subrange(0, 16),
                control_session_id.0,
            ),
            r matches Err(e) ==> spec_is_fatal(e),
    {
        let length = encode_close_session_request(&mut self.buffer, control_session_id.0);
        self.offer(length)
    }

    /// Start recording streams for a given channel and stream id pairing.
    /// The newer message variant is sent only when the caller supplies the
    /// optional auto-stop flag.
    pub fn start_recording(
        &mut self,
        channel: ChannelUriStr,
        stream_id: StreamId,
        source_location: SourceLocation,
        correlation_id: CorrelationId,
        control_session_id: ControlSessionId,
        auto_stop: Option<bool>,
    ) -> (r: Result<bool, TransportError>)
        requires
            old(self).wf(),
            channel@.len() <= u32::MAX,
            40 + channel@.len() <= old(self).spec_buffer().len(),
        ensures
            final(self).wf(),
            Self::same_config(*old(self), *final(self)),
            auto_stop matches Some(flag) ==> is_start_recording_request_2(
                final(self).spec_buffer().subrange(0, (40 + channel@.len()) as int),
                control_session_id.0,
                correlation_id.0,
                stream_id.0,
                source_location,
                BooleanType::spec_from_bool(flag),
                channel@,
            ),
            auto_stop is None ==> is_start_recording_request(
                final(self).spec_buffer().subrange(0, (36 + channel@.len()) as int),
                control_session_id.0,
                correlation_id.0,
                stream_id.0,
                source_location,
                channel@,
            ),
            r matches Err(e) ==> spec_is_fatal(e),
    {
        match auto_stop {
            Some(flag) => {
                let length = encode_start_recording_request_2(
                    &mut self.buffer,
                    control_session_id.0,
                    correlation_id.0,
                    stream_id.0,
                    source_location,
                    BooleanType::from_bool(flag),
                    channel.as_bytes(),
                );
                self.offer(length)
            },
            None => {
                let length = encode_start_recording_request(
                    &mut self.buffer,
                    control_session_id.0,
                    correlation_id.0,
                    stream_id.0,
                    source_location,
                    channel.as_bytes(),
                );
                self.offer(length)
            },
        }
    }

    /// Stop a recording by the subscription id it was registered with.
    pub fn stop_recording_subscription(
        &mut self,
        subscription_id: SubscriptionId,
        correlation_id: CorrelationId,
        control_session_id: ControlSessionId,
    ) -> (r: Result<bool, TransportError>)
        requires
            old(self).wf(),
            32 <= old(self).spec_buffer().len(),
        ensures
            final(self).wf(),
            Self::same_config(*old(self), *final(self)),
            is_stop_recording_subscription_request(
                final(self).spec_buffer().subrange(0, 32),
                control_session_id.0,
                correlation_id.0,
                subscription_id.0,
            ),
            r matches Err(e) ==> spec_is_fatal(e),
    {
        let length = encode_stop_recording_subscription_request(
            &mut self.buffer,
            control_session_id.0,
            correlation_id.0,
            subscription_id.0,
        );
        self.offer(length)
    }

    /// Stop an active recording by the recording id in the archive.
    pub fn stop_recording_by_id(
        &mut self,
        recording_id: RecordingId,
        correlation_id: CorrelationId,
        control_session_id: ControlSessionId,
    ) -> (r: Result<bool, TransportError>)
        requires
            old(self).wf(),
            32 <= old(self).spec_buffer().len(),
        ensures
            final(self).wf(),
            Self::same_config(*old(self), *final(self)),
            is_stop_recording_by_identity_request(
                final(self).spec_buffer().subrange(0, 32),
                control_session_id.0,
                correlation_id.0,
                recording_id.0,
            ),
            r matches Err(e) ==> spec_is_fatal(e),
    {
        let length = encode_stop_recording_by_identity_request(
            &mut self.buffer,
            control_session_id.0,
            correlation_id.0,
            recording_id.0,
        );
        self.offer(length)
    }

    /// Replay a recording. The bounded message variant is selected exactly
    /// when the replay parameters carry a bounding counter id; optional
    /// parameters the caller did not supply are encoded as the null
    /// sentinel.
    pub fn reply(
        &mut self,
        recording_id: RecordingId,
        reply_channel: ChannelUriStr,
        reply_stream_id: StreamId,
        reply_params: ReplayParams,
        correlation_id: CorrelationId,
        control_session_id: ControlSessionId,
    ) -> (r: Result<bool, TransportError>)
        requires
            old(self).wf(),
            reply_channel@.len() <= u32::MAX,
            64 + reply_channel@.len() <= old(self).spec_buffer().len(),
        ensures
            final(self).wf(),
            Self::same_config(*old(self), *final(self)),
            reply_params.spec_bounded_limit_counter_id() matches Some(counter_id)
                ==> is_bounded_replay_request(
                final(self).spec_buffer().subrange(0, (64 + reply_channel@.len()) as int),
                control_session_id.0,
                correlation_id.0,
                recording_id.0,
                reply_params.spec_position().unwrap_or(NULL_VALUE as i64),
                reply_params.spec_length().unwrap_or(NULL_VALUE as i64),
                counter_id,
                reply_stream_id.0,
                reply_params.spec_file_io_max_length().unwrap_or(NULL_VALUE),
                reply_channel@,
            ),
            reply_params.spec_bounded_limit_counter_id() is None ==> is_replay_request(
                final(self).spec_buffer().subrange(0, (60 + reply_channel@.len()) as int),
                control_session_id.0,
                correlation_id.0,
                recording_id.0,
                reply_params.spec_position().unwrap_or(NULL_VALUE as i64),
                reply_params.spec_length().unwrap_or(NULL_VALUE as i64),
                reply_stream_id.0,
                reply_params.spec_file_io_max_length().unwrap_or(NULL_VALUE),
                reply_channel@,
            ),
            r matches Err(e) ==> spec_is_fatal(e),
    {
        if reply_params.is_bounded() {
            self.bounded_reply(
                recording_id,
                reply_channel,
                reply_stream_id,
                reply_params,
                correlation_id,
                control_session_id,
            )
        } else {
            self.unbounded_reply(
                recording_id,
                reply_channel,
                reply_stream_id,
                reply_params,
                correlation_id,
                control_session_id,
            )
        }
    }

    /// Called from `reply` only: the bounded variant.
    fn bounded_reply(
        &mut self,
        recording_id: RecordingId,
        reply_channel: ChannelUriStr,
        reply_stream_id: StreamId,
        reply_params: ReplayParams,
        correlation_id: CorrelationId,
        control_session_id: ControlSessionId,
    ) -> (r: Result<bool, TransportError>)
        requires
            old(self).wf(),
            reply_params.spec_bounded_limit_counter_id() is Some,
            reply_channel@.len() <= u32::MAX,
            64 + reply_channel@.len() <= old(self).spec_buffer().len(),
        ensures
            final(self).wf(),
            Self::same_config(*old(self), *final(self)),
            is_bounded_replay_request(
                final(self).spec_buffer().subrange(0, (64 + reply_channel@.len()) as int),
                control_session_id.0,
                correlation_id.0,
                recording_id.0,
                reply_params.spec_position().unwrap_or(NULL_VALUE as i64),
                reply_params.spec_length().unwrap_or(NULL_VALUE as i64),
                reply_params.spec_bounded_limit_counter_id()->0,
                reply_stream_id.0,
                reply_params.spec_file_io_max_length().unwrap_or(NULL_VALUE),
                reply_channel@,
            ),
            r matches Err(e) ==> spec_is_fatal(e),
    {
        let position = reply_params.get_position().unwrap_or(NULL_VALUE as i64);
        let replay_length = reply_params.get_length().unwrap_or(NULL_VALUE as i64);
        let file_io_max_length = reply_params.get_file_io_max_length().unwrap_or(NULL_VALUE);
        let limit_counter_id = reply_params.get_bounded_limit_counter_id().unwrap();
        let length = encode_bounded_replay_request(
            &mut self.buffer,
            control_session_id.0,
            correlation_id.0,
            recording_id.0,
            position,
            replay_length,
            limit_counter_id,
            reply_stream_id.0,
            file_io_max_length,
            reply_channel.as_bytes(),
        );
        self.offer(length)
    }

    /// Called from `reply` only: the unbounded variant.
    fn unbounded_reply(
        &mut self,
        recording_id: RecordingId,
        reply_channel: ChannelUriStr,
        reply_stream_id: StreamId,
        reply_params: ReplayParams,
        correlation_id: CorrelationId,
        control_session_id: ControlSessionId,
    ) -> (r: Result<bool, TransportError>)
        requires
            old(self).wf(),
            reply_channel@.len() <= u32::MAX,
            60 + reply_channel@.len() <= old(self).spec_buffer().len(),
        ensures
            final(self).wf(),
            Self::same_config(*old(self), *final(self)),
            is_replay_request(
                final(self).spec_buffer().subrange(0, (60 + reply_channel@.len()) as int),
                control_session_id.0,
                correlation_id.0,
                recording_id.0,
                reply_params.spec_position().unwrap_or(NULL_VALUE as i64),
                reply_params.spec_length().unwrap_or(NULL_VALUE as i64),
                reply_stream_id.0,
                reply_params.spec_file_io_max_length().unwrap_or(NULL_VALUE),
                reply_channel@,
            ),
            r matches Err(e) ==> spec_is_fatal(e),
    {
        let position = reply_params.get_position().unwrap_or(NULL_VALUE as i64);
        let replay_length = reply_params.get_length().unwrap_or(NULL_VALUE as i64);
        let file_io_max_length = reply_params.get_file_io_max_length().unwrap_or(NULL_VALUE);
        let length = encode_replay_request(
            &mut self.buffer,
            control_session_id.0,
            correlation_id.0,
            recording_id.0,
            position,
            replay_length,
            reply_stream_id.0,
            file_io_max_length,
            reply_channel.as_bytes(),
        );
        self.offer(length)
    }

    /// Stop an existing replay session.
    pub fn stop_replay(
        &mut self,
        replay_session_id: ControlSessionId,
        correlation_id: CorrelationId,
        control_session_id: ControlSessionId,
    ) -> (r: Result<bool, TransportError>)
        requires
            old(self).wf(),
            32 <= old(self).spec_buffer().len(),
        ensures
            final(self).wf(),
            Self::same_config(*old(self), *final(self)),
            is_stop_replay_request(
                final(self).spec_buffer().subrange(0, 32),
                control_session_id.0,
                correlation_id.0,
                replay_session_id.0,
            ),
            r matches Err(e) ==> spec_is_fatal(e),
    {
        let length = encode_stop_replay_request(
            &mut self.buffer,
            control_session_id.0,
            correlation_id.0,
            replay_session_id.0,
        );
        self.offer(length)
    }

    /// Stop any existing replay sessions for a recording id, or all
    /// replay sessions regardless of recording id.
    pub fn stop_all_replay(
        &mut self,
        recording_id: RecordingId,
        correlation_id: CorrelationId,
        control_session_id: ControlSessionId,
    ) -> (r: Result<bool, TransportError>)
        requires
            old(self).wf(),
            32 <= old(self).spec_buffer().len(),
        ensures
            final(self).wf(),
            Self::same_config(*old(self), *final(self)),
            is_stop_all_replays_request(
                final(self).spec_buffer().subrange(0, 32),
                control_session_id.0,
                correlation_id.0,
                recording_id.0,
            ),
            r matches Err(e) ==> spec_is_fatal(e),
    {
        let length = encode_stop_all_replays_request(
            &mut self.buffer,
            control_session_id.0,
            correlation_id.0,
            recording_id.0,
        );
        self.offer(length)
    }

    /// List a range of recording descriptors.
    pub fn list_recordings(
        &mut self,
        from_recording_id: RecordingId,
        record_count: i32,
        correlation_id: CorrelationId,
        control_session_id: ControlSessionId,
    ) -> (r: Result<bool, TransportError>)
        requires
            old(self).wf(),
            36 <= old(self).spec_buffer().len(),
        ensures
            final(self).wf(),
            Self::same_config(*old(self), *final(self)),
            is_list_recordings_request(
                final(self).spec_buffer().subrange(0, 36),
                control_session_id.0,
                correlation_id.0,
                from_recording_id.0,
                record_count,
            ),
            r matches Err(e) ==> spec_is_fatal(e),
    {
        let length = encode_list_recordings_request(
            &mut self.buffer,
            control_session_id.0,
            correlation_id.0,
            from_recording_id.0,
            record_count,
        );
        self.offer(length)
    }

    /// List a range of recording descriptors which match a channel URI
    /// fragment and stream id.
    pub fn list_recordings_from_uri(
        &mut self,
        from_recording_id: RecordingId,
        record_count: i32,
        channel: ChannelUriStr,
        stream_id: StreamId,
        correlation_id: CorrelationId,
        control_session_id: ControlSessionId,
    ) -> (r: Result<bool, TransportError>)
        requires
            old(self).wf(),
            channel@.len() <= u32::MAX,
            44 + channel@.len() <= old(self).spec_buffer().len(),
        ensures
            final(self).wf(),
            Self::same_config(*old(self), *final(self)),
            is_list_recordings_for_uri_request(
                final(self).spec_buffer().subrange(0, (44 + channel@.len()) as int),
                control_session_id.0,
                correlation_id.0,
                from_recording_id.0,
                record_count,
                stream_id.0,
                channel@,
            ),
            r matches Err(e) ==> spec_is_fatal(e),
    {
        let length = encode_list_recordings_for_uri_request(
            &mut self.buffer,
            control_session_id.0,
            correlation_id.0,
            from_recording_id.0,
            record_count,
            stream_id.0,
            channel.as_bytes(),
        );
        self.offer(length)
    }

    /// List a recording descriptor for a given recording id.
    pub fn list_recording(
        &mut self,
        recording_id: RecordingId,
        correlation_id: CorrelationId,
        control_session_id: ControlSessionId,
    ) -> (r: Result<bool, TransportError>)
        requires
            old(self).wf(),
            32 <= old(self).spec_buffer().len(),
        ensures
            final(self).wf(),
            Self::same_config(*old(self), *final(self)),
            is_list_recording_request(
                final(self).spec_buffer().subrange(0, 32),
                control_session_id.0,
                correlation_id.0,
                recording_id.0,
            ),
            r matches Err(e) ==> spec_is_fatal(e),
    {
        let length = encode_list_recording_request(
            &mut self.buffer,
            control_session_id.0,
            correlation_id.0,
            recording_id.0,
        );
        self.offer(length)
    }

    /// Extend an existing, non-active, recorded stream for the same
    /// channel and stream id. The newer message variant is sent only when
    /// the caller supplies the optional auto-stop flag.
    pub fn extend_recording(
        &mut self,
        channel: ChannelUriStr,
        stream_id: StreamId,
        source_location: SourceLocation,
        recording_id: RecordingId,
        correlation_id: CorrelationId,
        control_session_id: ControlSessionId,
        auto_stop: Option<bool>,
    ) -> (r: Result<bool, TransportError>)
        requires
            old(self).wf(),
            channel@.len() <= u32::MAX,
            48 + channel@.len() <= old(self).spec_buffer().len(),
        ensures
            final(self).wf(),
            Self::same_config(*old(self), *final(self)),
            auto_stop matches Some(flag) ==> is_extend_recording_request_2(
                final(self).spec_buffer().subrange(0, (48 + channel@.len()) as int),
                control_session_id.0,
                correlation_id.0,
                recording_id.0,
                stream_id.0,
                source_location,
                BooleanType::spec_from_bool(flag),
                channel@,
            ),
            auto_stop is None ==> is_extend_recording_request(
                final(self).spec_buffer().subrange(0, (44 + channel@.len()) as int),
                control_session_id.0,
                correlation_id.0,
                recording_id.0,
                stream_id.0,
                source_location,
                channel@,
            ),
            r matches Err(e) ==> spec_is_fatal(e),
    {
        match auto_stop {
            Some(flag) => {
                let length = encode_extend_recording_request_2(
                    &mut self.buffer,
                    control_session_id.0,
                    correlation_id.0,
                    recording_id.0,
                    stream_id.0,
                    source_location,
                    BooleanType::from_bool(flag),
                    channel.as_bytes(),
                );
                self.offer(length)
            },
            None => {
                let length = encode_extend_recording_request(
                    &mut self.buffer,
                    control_session_id.0,
                    correlation_id.0,
                    recording_id.0,
                    stream_id.0,
                    source_location,
                    channel.as_bytes(),
                );
                self.offer(length)
            },
        }
    }

    /// Get the recorded position of an active recording.
    pub fn get_recording_position(
        &mut self,
        recording_id: RecordingId,
        correlation_id: CorrelationId,
        control_session_id: ControlSessionId,
    ) -> (r: Result<bool, TransportError>)
        requires
            old(self).wf(),
            32 <= old(self).spec_buffer().len(),
        ensures
            final(self).wf(),
            Self::same_config(*old(self), *final(self)),
            is_recording_position_request(
                final(self).spec_buffer().subrange(0, 32),
                control_session_id.0,
                correlation_id.0,
                recording_id.0,
            ),
            r matches Err(e) ==> spec_is_fatal(e),
    {
        let length = encode_recording_position_request(
            &mut self.buffer,
            control_session_id.0,
            correlation_id.0,
            recording_id.0,
        );
        self.offer(length)
    }

    /// Truncate a stopped recording to a given position that is less than
    /// the stopped position.
    pub fn truncate_recording(
        &mut self,
        recording_id: RecordingId,
        correlation_id: CorrelationId,
        control_session_id: ControlSessionId,
        position: i64,
    ) -> (r: Result<bool, TransportError>)
        requires
            old(self).wf(),
            40 <= old(self).spec_buffer().len(),
        ensures
            final(self).wf(),
            Self::same_config(*old(self), *final(self)),
            is_truncate_recording_request(
                final(self).spec_buffer().subrange(0, 40),
                control_session_id.0,
                correlation_id.0,
                recording_id.0,
                position,
            ),
            r matches Err(e) ==> spec_is_fatal(e),
    {
        let length = encode_truncate_recording_request(
            &mut self.buffer,
            control_session_id.0,
            correlation_id.0,
            recording_id.0,
            position,
        );
        self.offer(length)
    }

    /// Purge a stopped recording: mark it invalid and delete its segment
    /// files.
    pub fn purge_recording(
        &mut self,
        recording_id: RecordingId,
        correlation_id: CorrelationId,
        control_session_id: ControlSessionId,
    ) -> (r: Result<bool, TransportError>)
        requires
            old(self).wf(),
            32 <= old(self).spec_buffer().len(),
        ensures
            final(self).wf(),
            Self::same_config(*old(self), *final(self)),
            is_purge_recording_request(
                final(self).spec_buffer().subrange(0, 32),
                control_session_id.0,
                correlation_id.0,
                recording_id.0,
            ),
            r matches Err(e) ==> spec_is_fatal(e),
    {
        let length = encode_purge_recording_request(
            &mut self.buffer,
            control_session_id.0,
            correlation_id.0,
            recording_id.0,
        );
        self.offer(length)
    }

    /// Get the start position of a recording.
    pub fn get_start_position(
        &mut self,
        recording_id: RecordingId,
        correlation_id: CorrelationId,
        control_session_id: ControlSessionId,
    ) -> (r: Result<bool, TransportError>)
        requires
            old(self).wf(),
            32 <= old(self).spec_buffer().len(),
        ensures
            final(self).wf(),
            Self::same_config(*old(self), *final(self)),
            is_start_position_request(
                final(self).spec_buffer().subrange(0, 32),
                control_session_id.0,
                correlation_id.0,
                recording_id.0,
            ),
            r matches Err(e) ==> spec_is_fatal(e),
    {
        let length = encode_start_position_request(
            &mut self.buffer,
            control_session_id.0,
            correlation_id.0,
            recording_id.0,
        );
        self.offer(length)
    }

    /// Get the stop position of a recording.
    pub fn get_stop_position(
        &mut self,
        recording_id: RecordingId,
        correlation_id: CorrelationId,
        control_session_id: ControlSessionId,
    ) -> (r: Result<bool, TransportError>)
        requires
            old(self).wf(),
            32 <= old(self).spec_buffer().len(),
        ensures
            final(self).wf(),
            Self::same_config(*old(self), *final(self)),
            is_stop_position_request(
                final(self).spec_buffer().subrange(0, 32),
                control_session_id.0,
                correlation_id.0,
                recording_id.0,
            ),
            r matches Err(e) ==> spec_is_fatal(e),
    {
        let length = encode_stop_position_request(
            &mut self.buffer,
            control_session_id.0,
            correlation_id.0,
            recording_id.0,
        );
        self.offer(length)
    }

    /// Find the last recording that matches the given criteria.
    pub fn find_last_matching_recording(
        &mut self,
        min_recording_id: RecordingId,
        channel: ChannelUriStr,
        stream_id: StreamId,
        session_id: SessionId,
        correlation_id: CorrelationId,
        control_session_id: ControlSessionId,
    ) -> (r: Result<bool, TransportError>)
        requires
            old(self).wf(),
            channel@.len() <= u32::MAX,
            44 + channel@.len() <= old(self).spec_buffer().len(),
        ensures
            final(self).wf(),
            Self::same_config(*old(self), *final(self)),
            is_find_last_matching_recording_request(
                final(self).spec_buffer().subrange(0, (44 + channel@.len()) as int),
                control_session_id.0,
                correlation_id.0,
                min_recording_id.0,
                session_id.0,
                stream_id.0,
                channel@,
            ),
            r matches Err(e) ==> spec_is_fatal(e),
    {
        let length = encode_find_last_matching_recording_request(
            &mut self.buffer,
            control_session_id.0,
            correlation_id.0,
            min_recording_id.0,
            session_id.0,
            stream_id.0,
            channel.as_bytes(),
        );
        self.offer(length)
    }

    /// List registered subscriptions in the archive which have been used
    /// to record streams.
    pub fn list_recording_subscriptions(
        &mut self,
        pseudo_index: i32,
        subscription_count: i32,
        channel: ChannelUriStr,
        stream_id: StreamId,
        apply_stream_id: bool,
        correlation_id: CorrelationId,
        control_session_id: ControlSessionId,
    ) -> (r: Result<bool, TransportError>)
        requires
            old(self).wf(),
            channel@.len() <= u32::MAX,
            44 + channel@.len() <= old(self).spec_buffer().len(),
        ensures
            final(self).wf(),
            Self::same_config(*old(self), *final(self)),
            is_list_recording_subscriptions_request(
                final(self).spec_buffer().subrange(0, (44 + channel@.len()) as int),
                control_session_id.0,
                correlation_id.0,
                pseudo_index,
                subscription_count,
                BooleanType::spec_from_bool(apply_stream_id),
                stream_id.0,
                channel@,
            ),
            r matches Err(e) ==> spec_is_fatal(e),
    {
        let length = encode_list_recording_subscriptions_request(
            &mut self.buffer,
            control_session_id.0,
            correlation_id.0,
            pseudo_index,
            subscription_count,
            BooleanType::from_bool(apply_stream_id),
            stream_id.0,
            channel.as_bytes(),
        );
        self.offer(length)
    }

    /// Replicate a recording from a source archive to a destination,
    /// without tags.
    pub fn replicate(
        &mut self,
        src_recording_id: RecordingId,
        dst_recording_id: RecordingId,
        src_control_stream_id: StreamId,
        src_control_channel: ChannelUriStr,
        live_destination: ChannelUriStr,
        correlation_id: CorrelationId,
        control_session_id: ControlSessionId,
    ) -> (r: Result<bool, TransportError>)
        requires
            old(self).wf(),
            src_control_channel@.len() <= u32::MAX,
            live_destination@.len() <= u32::MAX,
            84 + src_control_channel@.len() + live_destination@.len() <= old(
                self,
            ).spec_buffer().len(),
        ensures
            final(self).wf(),
            Self::same_config(*old(self), *final(self)),
            is_replicate_request_2(
                final(self).spec_buffer().subrange(
                    0,
                    (84 + src_control_channel@.len() + live_destination@.len()) as int,
                ),
                control_session_id.0,
                correlation_id.0,
                src_recording_id.0,
                dst_recording_id.0,
                NULL_VALUE as i64,
                NULL_VALUE as i64,
                NULL_VALUE as i64,
                src_control_stream_id.0,
                NULL_VALUE,
                src_control_channel@,
                live_destination@,
                Seq::<u8>::empty(),
            ),
            r matches Err(e) ==> spec_is_fatal(e),
    {
        self.inner_replicate(
            src_recording_id,
            dst_recording_id,
            src_control_stream_id,
            src_control_channel,
            live_destination,
            correlation_id,
            control_session_id,
            None,
            None,
            None,
            None,
            None,
        )
    }

    /// Replicate a recording and tag the archive's subscription with the
    /// provided channel and subscription tags.
    pub fn taged_replicate(
        &mut self,
        src_recording_id: RecordingId,
        dst_recording_id: RecordingId,
        src_control_stream_id: StreamId,
        src_control_channel: ChannelUriStr,
        live_destination: ChannelUriStr,
        correlation_id: CorrelationId,
        control_session_id: ControlSessionId,
        channel_tag_id: i64,
        subscription_tag_id: i64,
    ) -> (r: Result<bool, TransportError>)
        requires
            old(self).wf(),
            src_control_channel@.len() <= u32::MAX,
            live_destination@.len() <= u32::MAX,
            84 + src_control_channel@.len() + live_destination@.len() <= old(
                self,
            ).spec_buffer().len(),
        ensures
            final(self).wf(),
            Self::same_config(*old(self), *final(self)),
            is_replicate_request_2(
                final(self).spec_buffer().subrange(
                    0,
                    (84 + src_control_channel@.len() + live_destination@.len()) as int,
                ),
                control_session_id.0,
                correlation_id.0,
                src_recording_id.0,
                dst_recording_id.0,
                NULL_VALUE as i64,
                channel_tag_id,
                subscription_tag_id,
                src_control_stream_id.0,
                NULL_VALUE,
                src_control_channel@,
                live_destination@,
                Seq::<u8>::empty(),
            ),
            r matches Err(e) ==> spec_is_fatal(e),
    {
        self.inner_replicate(
            src_recording_id,
            dst_recording_id,
            src_control_stream_id,
            src_control_channel,
            live_destination,
            correlation_id,
            control_session_id,
            None,
            Some(channel_tag_id),
            Some(subscription_tag_id),
            None,
            None,
        )
    }

    /// The full replicate request: optional parameters the caller did not
    /// supply go out as the null sentinel, an absent replication channel
    /// as the empty string.
    #[verifier::rlimit(30)]
    fn inner_replicate(
        &mut self,
        src_recording_id: RecordingId,
        dst_recording_id: RecordingId,
        src_control_stream_id: StreamId,
        src_control_channel: ChannelUriStr,
        live_destination: ChannelUriStr,
        correlation_id: CorrelationId,
        control_session_id: ControlSessionId,
        stop_position: Option<i64>,
        channel_tag_id: Option<i64>,
        subscription_tag_id: Option<i64>,
        replication_channel: Option<ChannelUriStr>,
        file_io_max_length: Option<i32>,
    ) -> (r: Result<bool, TransportError>)
        requires
            old(self).wf(),
            src_control_channel@.len() <= u32::MAX,
            live_destination@.len() <= u32::MAX,
            (replication_channel matches Some(uri) ==> uri@.len() <= u32::MAX),
            84 + src_control_channel@.len() + live_destination@.len() + (match replication_channel {
                Some(uri) => uri@.len(),
                None => 0,
            }) <= old(self).spec_buffer().len(),
        ensures
            final(self).wf(),
            Self::same_config(*old(self), *final(self)),
            is_replicate_request_2(
                final(self).spec_buffer().subrange(
                    0,
                    (84 + src_control_channel@.len() + live_destination@.len() + (
                    match replication_channel {
                        Some(uri) => uri@.len(),
                        None => 0,
                    })) as int,
                ),
                control_session_id.0,
                correlation_id.0,
                src_recording_id.0,
                dst_recording_id.0,
                stop_position.unwrap_or(NULL_VALUE as i64),
                channel_tag_id.unwrap_or(NULL_VALUE as i64),
                subscription_tag_id.unwrap_or(NULL_VALUE as i64),
                src_control_stream_id.0,
                file_io_max_length.unwrap_or(NULL_VALUE),
                src_control_channel@,
                live_destination@,
                match replication_channel {
                    Some(uri) => uri@,
                    None => Seq::<u8>::empty(),
                },
            ),
            r matches Err(e) ==> spec_is_fatal(e),
    {
        let stop_position = stop_position.unwrap_or(NULL_VALUE as i64);
        let channel_tag_id = channel_tag_id.unwrap_or(NULL_VALUE as i64);
        let subscription_tag_id = subscription_tag_id.unwrap_or(NULL_VALUE as i64);
        let file_io_max_length = file_io_max_length.unwrap_or(NULL_VALUE);
        let replication_channel_bytes: &[u8] = match &replication_channel {
            Some(uri) => uri.as_bytes(),
            None => &[],
        };
        let length = encode_replicate_request_2(
            &mut self.buffer,
            control_session_id.0,
            correlation_id.0,
            src_recording_id.0,
            dst_recording_id.0,
            stop_position,
            channel_tag_id,
            subscription_tag_id,
            src_control_stream_id.0,
            file_io_max_length,
            src_control_channel.as_bytes(),
            live_destination.as_bytes(),
            replication_channel_bytes,
        );
        self.offer(length)
    }

    /// Stop an active replication by the registration id it was
    /// registered with.
    pub fn stop_replication(
        &mut self,
        replication_id: i64,
        correlation_id: CorrelationId,
        control_session_id: ControlSessionId,
    ) -> (r: Result<bool, TransportError>)
        requires
            old(self).wf(),
            32 <= old(self).spec_buffer().len(),
        ensures
            final(self).wf(),
            Self::same_config(*old(self), *final(self)),
            is_stop_replication_request(
                final(self).spec_buffer().subrange(0, 32),
                control_session_id.0,
                correlation_id.0,
                replication_id,
            ),
            r matches Err(e) ==> spec_is_fatal(e),
    {
        let length = encode_stop_replication_request(
            &mut self.buffer,
            control_session_id.0,
            correlation_id.0,
            replication_id,
        );
        self.offer(length)
    }
}

} // verus!
