//! The transport collaborator interface and the classification of its
//! outcomes that drives the retry loops.

use vstd::prelude::*;

verus! {

/// The transport's local enqueue errors.
#[derive(Clone, Copy, Debug, PartialEq, Eq, Structural)]
pub enum TransportError {
    /// Subscribers are not keeping up: transient.
    BackPressured,
    /// The publication was administratively paused: transient.
    AdministrativeAction,
    /// The publication is not yet connected: transient.
    NotConnected,
    /// The publication was closed: fatal.
    PublicationClosed,
    /// The transport's capacity was permanently exceeded: fatal.
    CapacityExceeded,
}

/// Fatal, non-retryable conditions: capacity permanently exceeded and
/// publication closed. Everything else is transient and absorbed by a
/// retry loop up to its bound.
pub open spec fn spec_is_fatal(e: TransportError) -> bool {
    e is PublicationClosed || e is CapacityExceeded
}

/// What one publish attempt decided.
#[derive(Clone, Copy, Debug, PartialEq, Eq, Structural)]
pub enum OfferDisposition {
    /// The transport claimed a positive amount of space: the request was
    /// handed over, exactly once.
    Accepted,
    /// A fatal condition: surface it immediately, no further attempts.
    Fatal(TransportError),
    /// A transient condition: retry within the policy's budget.
    Transient,
}

/// Classifies one publish outcome. A claimed position greater than zero is
/// success; the two fatal errors end the loop; every other outcome —
/// not-yet-connected, back-pressure, administrative pause, or a
/// non-positive claimed position — is transient.
pub fn evaluate_offer(outcome: &Result<i64, TransportError>) -> (d: OfferDisposition)
    ensures
        d is Accepted <==> ((*outcome) matches Ok(p) && p > 0),
        d matches OfferDisposition::Fatal(e) ==> *outcome == Err::<i64, TransportError>(e)
            && spec_is_fatal(e),
        (*outcome) matches Err(err) ==> (spec_is_fatal(err) ==> d == OfferDisposition::Fatal(err)),
        d is Transient <==> (((*outcome) matches Ok(p) && p <= 0) || ((*outcome) matches Err(
            err,
        ) && !spec_is_fatal(err))),
{
    match outcome {
        Ok(position) => {
            if *position > 0 {
                OfferDisposition::Accepted
            } else {
                OfferDisposition::Transient
            }
        },
        Err(e) => match e {
            TransportError::PublicationClosed => OfferDisposition::Fatal(
                TransportError::PublicationClosed,
            ),
            TransportError::CapacityExceeded => OfferDisposition::Fatal(
                TransportError::CapacityExceeded,
            ),
            TransportError::BackPressured => OfferDisposition::Transient,
            TransportError::AdministrativeAction => OfferDisposition::Transient,
            TransportError::NotConnected => OfferDisposition::Transient,
        },
    }
}

/// The transport's publish capability: one exclusive handle through which
/// every encoded request is offered. An offer claims a position on success
/// and reports one of the `TransportError` conditions otherwise; this core
/// assumes nothing else of it.
pub trait Transport {
    /// Offers `length` bytes of `buffer` starting at `offset` to the
    /// transport, returning the claimed position or the local enqueue
    /// error.
    fn offer(&mut self, buffer: &[u8], offset: usize, length: usize) -> (r: Result<
        i64,
        TransportError,
    >)
        requires
            offset + length <= buffer@.len(),
    ;
}

/// Idle/backoff strategy a retry loop runs between attempts: spin, yield
/// or park, never a blocking wait on the transport itself.
pub trait Strategy {
    fn reset(&mut self);

    fn idle(&mut self);
}

/// A no-op backoff: retry immediately.
pub struct NoOpIdleStrategy;

impl Strategy for NoOpIdleStrategy {
    fn reset(&mut self) {
    }

    fn idle(&mut self) {
    }
}

/// Background-progress capability: a single-threaded caller supplies one
/// so the deadline-bound publish loop can pump the caller's own transport
/// progress while waiting.
pub trait AgentInvoker {
    fn invoke(&self);
}

} // verus!
