//! The proxy's retry policies against scripted transport stubs, and the
//! wire bytes each operation hands to the transport.

use std::cell::Cell;
use std::rc::Rc;

use aeron_archiver::buffer::WriteBuf;
use aeron_archiver::enums::SourceLocation;
use aeron_archiver::identifiers::{
    ChannelUriStr, ControlSessionId, CorrelationId, RecordingId, SessionId, StreamId,
    SubscriptionId,
};
use aeron_archiver::proxy::ArchiveProxy;
use aeron_archiver::replay_params::ReplayParams;
use aeron_archiver::security::NoCredentialsSupplier;
use aeron_archiver::transport::{
    evaluate_offer, AgentInvoker, NoOpIdleStrategy, OfferDisposition, Transport, TransportError,
};
use aeron_archiver::time::NanoClock;

/// Accepts every offer and keeps a copy of the offered bytes.
struct CapturingTransport {
    calls: usize,
    last: Vec<u8>,
}

impl Transport for CapturingTransport {
    fn offer(&mut self, buffer: &[u8], offset: usize, length: usize) -> Result<i64, TransportError> {
        self.calls += 1;
        self.last = buffer[offset..offset + length].to_vec();
        Ok(128)
    }
}

/// Always reports the given error.
struct ErringTransport {
    calls: usize,
    error: TransportError,
}

impl Transport for ErringTransport {
    fn offer(&mut self, _buffer: &[u8], _offset: usize, _length: usize) -> Result<i64, TransportError> {
        self.calls += 1;
        Err(self.error)
    }
}

/// Back-pressured until the k-th attempt, which reports a fatal error.
struct FatalAtTransport {
    calls: usize,
    fatal_at: usize,
}

impl Transport for FatalAtTransport {
    fn offer(&mut self, _buffer: &[u8], _offset: usize, _length: usize) -> Result<i64, TransportError> {
        self.calls += 1;
        if self.calls >= self.fatal_at {
            Err(TransportError::PublicationClosed)
        } else {
            Err(TransportError::BackPressured)
        }
    }
}

/// A clock that returns 0, 1, 2, ... on successive readings.
struct SteppingClock {
    now: Rc<Cell<i64>>,
}

impl NanoClock for SteppingClock {
    fn nano_time(&self) -> i64 {
        let t = self.now.get();
        self.now.set(t + 1);
        t
    }
}

struct FrozenClock;

impl NanoClock for FrozenClock {
    fn nano_time(&self) -> i64 {
        0
    }
}

struct CountingInvoker {
    count: Cell<usize>,
}

impl AgentInvoker for CountingInvoker {
    fn invoke(&self) {
        self.count.set(self.count.get() + 1);
    }
}

fn proxy_with<T: Transport>(
    transport: T,
    retry_attempts: i32,
) -> ArchiveProxy<T, NoOpIdleStrategy, NoCredentialsSupplier, FrozenClock> {
    ArchiveProxy::new_with_params(
        WriteBuf::new(vec![0u8; 1024]),
        transport,
        NoOpIdleStrategy,
        retry_attempts,
        1_000,
        NoCredentialsSupplier,
        FrozenClock,
    )
}

/// Bounded-attempt publish against a transport that always reports
/// back-pressure makes exactly the configured number of attempts and
/// returns "not sent" — a boolean, not an error.
#[test]
fn bounded_publish_exhausts_exactly_the_budget() {
    let mut proxy = proxy_with(
        ErringTransport { calls: 0, error: TransportError::BackPressured },
        3,
    );
    let r = proxy.keep_alive(ControlSessionId(1), CorrelationId(2));
    assert_eq!(r, Ok(false));
    assert_eq!(proxy.pubication().calls, 3);
}

/// A fatal condition on attempt k is returned immediately after attempt
/// k, with no further attempts.
#[test]
fn bounded_publish_stops_at_fatal_error() {
    let mut proxy = proxy_with(FatalAtTransport { calls: 0, fatal_at: 2 }, 5);
    let r = proxy.keep_alive(ControlSessionId(1), CorrelationId(2));
    assert_eq!(r, Err(TransportError::PublicationClosed));
    assert_eq!(proxy.pubication().calls, 2);
}

#[test]
fn bounded_publish_treats_every_transient_alike() {
    for error in [
        TransportError::BackPressured,
        TransportError::AdministrativeAction,
        TransportError::NotConnected,
    ] {
        let mut proxy = proxy_with(ErringTransport { calls: 0, error }, 4);
        let r = proxy.close_session(ControlSessionId(1));
        assert_eq!(r, Ok(false));
        assert_eq!(proxy.pubication().calls, 4);
    }
    let mut proxy = proxy_with(
        ErringTransport { calls: 0, error: TransportError::CapacityExceeded },
        4,
    );
    let r = proxy.close_session(ControlSessionId(1));
    assert_eq!(r, Err(TransportError::CapacityExceeded));
    assert_eq!(proxy.pubication().calls, 1);
}

/// Deadline-bound publish against a stub that always reports
/// back-pressure terminates at (or after) the configured deadline and
/// invokes the background-progress capability exactly once per retried
/// iteration.
#[test]
fn deadline_publish_terminates_at_deadline_and_pumps_invoker() {
    let now = Rc::new(Cell::new(0i64));
    let clock = SteppingClock { now: Rc::clone(&now) };
    let timeout_ns: i64 = 5;
    let mut proxy = ArchiveProxy::new_with_params(
        WriteBuf::new(vec![0u8; 1024]),
        ErringTransport { calls: 0, error: TransportError::BackPressured },
        NoOpIdleStrategy,
        3,
        timeout_ns,
        NoCredentialsSupplier,
        clock,
    );
    let invoker = CountingInvoker { count: Cell::new(0) };
    let r = proxy.connect("aeron:udp?endpoint=localhost:8020", 7, 42, Some(&invoker));
    assert_eq!(r, Ok(false));
    // The base reading was 0, so the deadline was 5; readings 1..=5 retried
    // and reading 6, past the deadline, ended the loop.
    assert_eq!(proxy.pubication().calls, 6);
    assert_eq!(invoker.count.get(), 5);
    assert!(now.get() - 1 >= timeout_ns);
}

/// A fatal condition ends the deadline-bound publish immediately too.
#[test]
fn deadline_publish_stops_at_fatal_error() {
    let mut proxy = ArchiveProxy::new_with_params(
        WriteBuf::new(vec![0u8; 1024]),
        FatalAtTransport { calls: 0, fatal_at: 3 },
        NoOpIdleStrategy,
        3,
        1_000_000,
        NoCredentialsSupplier,
        SteppingClock { now: Rc::new(Cell::new(0)) },
    );
    let invoker = CountingInvoker { count: Cell::new(0) };
    let r = proxy.connect("aeron:ipc", 1, 1, Some(&invoker));
    assert_eq!(r, Err(TransportError::PublicationClosed));
    assert_eq!(proxy.pubication().calls, 3);
    assert_eq!(invoker.count.get(), 2);
}

/// The single-attempt connect returns the raw publish outcome: one offer,
/// transient errors included.
#[test]
fn try_connect_makes_exactly_one_attempt() {
    let mut proxy = proxy_with(
        ErringTransport { calls: 0, error: TransportError::BackPressured },
        3,
    );
    let r = proxy.try_connect(
        ChannelUriStr(b"aeron:udp?endpoint=localhost:8020".to_vec()),
        StreamId(7),
        CorrelationId(42),
    );
    assert_eq!(r, Err(TransportError::BackPressured));
    assert_eq!(proxy.pubication().calls, 1);

    let mut accepted = proxy_with(CapturingTransport { calls: 0, last: Vec::new() }, 3);
    let r = accepted.try_connect(
        ChannelUriStr(b"aeron:ipc".to_vec()),
        StreamId(7),
        CorrelationId(42),
    );
    assert_eq!(r, Ok(true));
    assert_eq!(accepted.pubication().calls, 1);
}

#[test]
fn try_challange_response_sends_credentials_once() {
    let mut proxy = proxy_with(CapturingTransport { calls: 0, last: Vec::new() }, 3);
    let r = proxy.try_challange_response(b"token", CorrelationId(11), ControlSessionId(22));
    assert_eq!(r, Ok(true));
    let sent = &proxy.pubication().last;
    let mut expected: Vec<u8> = Vec::new();
    expected.extend_from_slice(&[16, 0, 60, 0, 101, 0, 7, 0]); // header: challenge response
    expected.extend_from_slice(&22i64.to_le_bytes()); // control session id
    expected.extend_from_slice(&11i64.to_le_bytes()); // correlation id
    expected.extend_from_slice(&5u32.to_le_bytes()); // credentials length
    expected.extend_from_slice(b"token");
    assert_eq!(sent, &expected);
}

/// The keep-alive request's exact wire image.
#[test]
fn keep_alive_wire_bytes() {
    let mut proxy = proxy_with(CapturingTransport { calls: 0, last: Vec::new() }, 3);
    let r = proxy.keep_alive(ControlSessionId(5), CorrelationId(7));
    assert_eq!(r, Ok(true));
    let sent = &proxy.pubication().last;
    let mut expected: Vec<u8> = Vec::new();
    expected.extend_from_slice(&[16, 0, 61, 0, 101, 0, 7, 0]); // header: keep alive
    expected.extend_from_slice(&5i64.to_le_bytes());
    expected.extend_from_slice(&7i64.to_le_bytes());
    assert_eq!(sent, &expected);
}

/// The connect request carries the protocol version and empty credentials
/// from the no-op supplier.
#[test]
fn connect_wire_bytes() {
    let mut proxy = proxy_with(CapturingTransport { calls: 0, last: Vec::new() }, 3);
    let channel = "aeron:udp?endpoint=localhost:8020";
    let r = proxy.connect::<CountingInvoker>(channel, 7, 42, None);
    assert_eq!(r, Ok(true));
    let sent = &proxy.pubication().last;
    let mut expected: Vec<u8> = Vec::new();
    expected.extend_from_slice(&[16, 0, 58, 0, 101, 0, 7, 0]); // header: auth connect
    expected.extend_from_slice(&42i64.to_le_bytes());
    expected.extend_from_slice(&7i32.to_le_bytes());
    expected.extend_from_slice(&68096i32.to_le_bytes()); // protocol version 1.10.0
    expected.extend_from_slice(&33u32.to_le_bytes());
    expected.extend_from_slice(channel.as_bytes());
    expected.extend_from_slice(&0u32.to_le_bytes()); // empty credentials
    assert_eq!(sent, &expected);
}

/// The newer start-recording variant goes out only when the caller
/// supplies the auto-stop flag, and carries it faithfully.
#[test]
fn start_recording_selects_message_variant() {
    let channel = b"aeron:ipc".to_vec();

    let mut plain = proxy_with(CapturingTransport { calls: 0, last: Vec::new() }, 3);
    let r = plain.start_recording(
        ChannelUriStr(channel.clone()),
        StreamId(9),
        SourceLocation::LOCAL,
        CorrelationId(1),
        ControlSessionId(2),
        None,
    );
    assert_eq!(r, Ok(true));
    let sent = &plain.pubication().last;
    assert_eq!(sent.len(), 8 + 24 + 4 + channel.len());
    assert_eq!(&sent[0..8], &[24, 0, 4, 0, 101, 0, 7, 0]); // original variant
    assert_eq!(&sent[24..28], &9i32.to_le_bytes()); // stream id
    assert_eq!(&sent[28..32], &0i32.to_le_bytes()); // source location LOCAL

    let mut newer = proxy_with(CapturingTransport { calls: 0, last: Vec::new() }, 3);
    let r = newer.start_recording(
        ChannelUriStr(channel.clone()),
        StreamId(9),
        SourceLocation::REMOTE,
        CorrelationId(1),
        ControlSessionId(2),
        Some(true),
    );
    assert_eq!(r, Ok(true));
    let sent = &newer.pubication().last;
    assert_eq!(sent.len(), 8 + 28 + 4 + channel.len());
    assert_eq!(&sent[0..8], &[28, 0, 63, 0, 101, 0, 7, 0]); // newer variant
    assert_eq!(&sent[28..32], &1i32.to_le_bytes()); // source location REMOTE
    assert_eq!(&sent[32..36], &1i32.to_le_bytes()); // auto stop TRUE
}

/// The bounded replay variant goes out exactly when a bounding counter id
/// is present; absent optional values go out as the null sentinel.
#[test]
fn reply_selects_bounded_variant_and_null_sentinels() {
    let channel = b"aeron:udp?endpoint=replay:9000".to_vec();

    let mut unbounded = proxy_with(CapturingTransport { calls: 0, last: Vec::new() }, 3);
    let r = unbounded.reply(
        RecordingId(77),
        ChannelUriStr(channel.clone()),
        StreamId(3),
        ReplayParams::new().position(1000),
        CorrelationId(4),
        ControlSessionId(5),
    );
    assert_eq!(r, Ok(true));
    let sent = &unbounded.pubication().last;
    assert_eq!(sent.len(), 8 + 48 + 4 + channel.len());
    assert_eq!(&sent[0..8], &[48, 0, 6, 0, 101, 0, 7, 0]); // replay request
    assert_eq!(&sent[32..40], &1000i64.to_le_bytes()); // position supplied
    assert_eq!(&sent[40..48], &(-1i64).to_le_bytes()); // length absent
    assert_eq!(&sent[52..56], &(-1i32).to_le_bytes()); // file io max absent

    let mut bounded = proxy_with(CapturingTransport { calls: 0, last: Vec::new() }, 3);
    let r = bounded.reply(
        RecordingId(77),
        ChannelUriStr(channel.clone()),
        StreamId(3),
        ReplayParams::new().bounded_limit_counter_id(12),
        CorrelationId(4),
        ControlSessionId(5),
    );
    assert_eq!(r, Ok(true));
    let sent = &bounded.pubication().last;
    assert_eq!(sent.len(), 8 + 52 + 4 + channel.len());
    assert_eq!(&sent[0..8], &[52, 0, 18, 0, 101, 0, 7, 0]); // bounded replay
    assert_eq!(&sent[32..40], &(-1i64).to_le_bytes()); // position absent
    assert_eq!(&sent[48..52], &12i32.to_le_bytes()); // limit counter id
}

/// Untagged replicate encodes the null sentinel for every optional value
/// and an empty replication channel.
#[test]
fn replicate_null_sentinels() {
    let src = b"aeron:udp?endpoint=src:8010".to_vec();
    let live = b"aeron:udp?endpoint=live:9010".to_vec();
    let mut proxy = proxy_with(CapturingTransport { calls: 0, last: Vec::new() }, 3);
    let r = proxy.replicate(
        RecordingId(1),
        RecordingId(2),
        StreamId(3),
        ChannelUriStr(src.clone()),
        ChannelUriStr(live.clone()),
        CorrelationId(4),
        ControlSessionId(5),
    );
    assert_eq!(r, Ok(true));
    let sent = &proxy.pubication().last;
    assert_eq!(sent.len(), 8 + 64 + 4 + src.len() + 4 + live.len() + 4);
    assert_eq!(&sent[0..8], &[64, 0, 67, 0, 101, 0, 7, 0]); // replicate request
    assert_eq!(&sent[40..48], &(-1i64).to_le_bytes()); // stop position absent
    assert_eq!(&sent[48..56], &(-1i64).to_le_bytes()); // channel tag absent
    assert_eq!(&sent[56..64], &(-1i64).to_le_bytes()); // subscription tag absent
    assert_eq!(&sent[68..72], &(-1i32).to_le_bytes()); // file io max absent
    let tail = sent.len() - 4;
    assert_eq!(&sent[tail..], &0u32.to_le_bytes()); // empty replication channel
}

/// The tagged variant carries the caller's tags.
#[test]
fn taged_replicate_carries_tags() {
    let src = b"aeron:ipc".to_vec();
    let live = b"aeron:ipc".to_vec();
    let mut proxy = proxy_with(CapturingTransport { calls: 0, last: Vec::new() }, 3);
    let r = proxy.taged_replicate(
        RecordingId(1),
        RecordingId(2),
        StreamId(3),
        ChannelUriStr(src),
        ChannelUriStr(live),
        CorrelationId(4),
        ControlSessionId(5),
        700,
        800,
    );
    assert_eq!(r, Ok(true));
    let sent = &proxy.pubication().last;
    assert_eq!(&sent[48..56], &700i64.to_le_bytes());
    assert_eq!(&sent[56..64], &800i64.to_le_bytes());
}

/// A sample of the simple fixed-block operations and their template ids.
#[test]
fn simple_request_template_ids() {
    let cases: Vec<(u16, Box<dyn Fn(&mut ArchiveProxy<CapturingTransport, NoOpIdleStrategy, NoCredentialsSupplier, FrozenClock>) -> Result<bool, TransportError>>)> = vec![
        (14, Box::new(|p| p.stop_recording_subscription(SubscriptionId(1), CorrelationId(2), ControlSessionId(3)))),
        (65, Box::new(|p| p.stop_recording_by_id(RecordingId(1), CorrelationId(2), ControlSessionId(3)))),
        (7, Box::new(|p| p.stop_replay(ControlSessionId(1), CorrelationId(2), ControlSessionId(3)))),
        (19, Box::new(|p| p.stop_all_replay(RecordingId(1), CorrelationId(2), ControlSessionId(3)))),
        (8, Box::new(|p| p.list_recordings(RecordingId(1), 10, CorrelationId(2), ControlSessionId(3)))),
        (10, Box::new(|p| p.list_recording(RecordingId(1), CorrelationId(2), ControlSessionId(3)))),
        (12, Box::new(|p| p.get_recording_position(RecordingId(1), CorrelationId(2), ControlSessionId(3)))),
        (13, Box::new(|p| p.truncate_recording(RecordingId(1), CorrelationId(2), ControlSessionId(3), 512))),
        (66, Box::new(|p| p.purge_recording(RecordingId(1), CorrelationId(2), ControlSessionId(3)))),
        (52, Box::new(|p| p.get_start_position(RecordingId(1), CorrelationId(2), ControlSessionId(3)))),
        (15, Box::new(|p| p.get_stop_position(RecordingId(1), CorrelationId(2), ControlSessionId(3)))),
        (51, Box::new(|p| p.stop_replication(1, CorrelationId(2), ControlSessionId(3)))),
    ];
    for (template_id, call) in cases {
        let mut proxy = proxy_with(CapturingTransport { calls: 0, last: Vec::new() }, 3);
        let r = call(&mut proxy);
        assert_eq!(r, Ok(true));
        let sent = &proxy.pubication().last;
        assert_eq!(u16::from_le_bytes([sent[2], sent[3]]), template_id);
        assert_eq!(u16::from_le_bytes([sent[4], sent[5]]), 101);
    }
}

#[test]
fn channel_bearing_request_template_ids() {
    let ch = ChannelUriStr(b"aeron:ipc".to_vec());
    let mut p1 = proxy_with(CapturingTransport { calls: 0, last: Vec::new() }, 3);
    p1.list_recordings_from_uri(RecordingId(1), 5, ch.clone(), StreamId(2), CorrelationId(3), ControlSessionId(4)).unwrap();
    assert_eq!(u16::from_le_bytes([p1.pubication().last[2], p1.pubication().last[3]]), 9);

    let mut p2 = proxy_with(CapturingTransport { calls: 0, last: Vec::new() }, 3);
    p2.find_last_matching_recording(RecordingId(1), ch.clone(), StreamId(2), SessionId(3), CorrelationId(4), ControlSessionId(5)).unwrap();
    assert_eq!(u16::from_le_bytes([p2.pubication().last[2], p2.pubication().last[3]]), 16);

    let mut p3 = proxy_with(CapturingTransport { calls: 0, last: Vec::new() }, 3);
    p3.list_recording_subscriptions(0, 10, ch.clone(), StreamId(2), true, CorrelationId(3), ControlSessionId(4)).unwrap();
    let sent = &p3.pubication().last;
    assert_eq!(u16::from_le_bytes([sent[2], sent[3]]), 17);
    assert_eq!(&sent[32..36], &1i32.to_le_bytes()); // apply stream id TRUE

    let mut p4 = proxy_with(CapturingTransport { calls: 0, last: Vec::new() }, 3);
    let r = p4.extend_recording(ch.clone(), StreamId(2), SourceLocation::LOCAL, RecordingId(9), CorrelationId(3), ControlSessionId(4), Some(false));
    assert_eq!(r, Ok(true));
    let sent = &p4.pubication().last;
    assert_eq!(u16::from_le_bytes([sent[2], sent[3]]), 64); // newer variant
    assert_eq!(&sent[40..44], &0i32.to_le_bytes()); // auto stop FALSE

    let mut p5 = proxy_with(CapturingTransport { calls: 0, last: Vec::new() }, 3);
    let r = p5.extend_recording(ch.clone(), StreamId(2), SourceLocation::LOCAL, RecordingId(9), CorrelationId(3), ControlSessionId(4), None);
    assert_eq!(r, Ok(true));
    assert_eq!(u16::from_le_bytes([p5.pubication().last[2], p5.pubication().last[3]]), 11);
}

#[test]
fn offer_outcome_classification() {
    assert_eq!(evaluate_offer(&Ok(1)), OfferDisposition::Accepted);
    assert_eq!(evaluate_offer(&Ok(i64::MAX)), OfferDisposition::Accepted);
    assert_eq!(evaluate_offer(&Ok(0)), OfferDisposition::Transient);
    assert_eq!(evaluate_offer(&Ok(-5)), OfferDisposition::Transient);
    assert_eq!(
        evaluate_offer(&Err(TransportError::BackPressured)),
        OfferDisposition::Transient
    );
    assert_eq!(
        evaluate_offer(&Err(TransportError::AdministrativeAction)),
        OfferDisposition::Transient
    );
    assert_eq!(
        evaluate_offer(&Err(TransportError::NotConnected)),
        OfferDisposition::Transient
    );
    assert_eq!(
        evaluate_offer(&Err(TransportError::PublicationClosed)),
        OfferDisposition::Fatal(TransportError::PublicationClosed)
    );
    assert_eq!(
        evaluate_offer(&Err(TransportError::CapacityExceeded)),
        OfferDisposition::Fatal(TransportError::CapacityExceeded)
    );
}
