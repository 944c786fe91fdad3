//! The producer-facing client handle.
//!
//! An [`AnalyticsClient`] holds the ingestion base URL and the write end of
//! the ingest queue. `track` enriches one event and hands it to the queue;
//! it never blocks and never raises, even when the dispatcher is gone.
//! The read end of the queue is returned at construction so that the caller
//! can run the dispatch loop around [`crate::dispatch::Dispatcher`].

use vstd::prelude::*;
use vstd::string::StringExecFns;

use crate::events::{AnalyticsEvent, EnrichedEvent, Tags};

verus! {

/// Write end of the ingest queue; envelopes are handed to the dispatcher
/// through it without blocking.
#[verifier::external_type_specification]
#[verifier::external_body]
#[verifier::reject_recursive_types(T)]
pub struct ExUnboundedSender<T>(tokio::sync::mpsc::UnboundedSender<T>);

/// Read end of the ingest queue; the dispatch loop drains it.
#[verifier::external_type_specification]
#[verifier::external_body]
#[verifier::reject_recursive_types(T)]
pub struct ExUnboundedReceiver<T>(tokio::sync::mpsc::UnboundedReceiver<T>);

/// Relies on tokio's `UnboundedSender::clone`: another write end of the same
/// queue. Which queue a sender feeds is not modelled here, so nothing is
/// promised of the clone.
pub assume_specification<T>[ <tokio::sync::mpsc::UnboundedSender<T> as Clone>::clone ](
    sender: &tokio::sync::mpsc::UnboundedSender<T>,
) -> tokio::sync::mpsc::UnboundedSender<T>;

/// Relies on tokio's `mpsc::unbounded_channel`: the two halves of a fresh
/// multi-producer/single-consumer queue with no capacity bound.
#[verifier::external_body]
fn unbounded_envelope_channel() -> (
    tokio::sync::mpsc::UnboundedSender<EnrichedEvent>,
    tokio::sync::mpsc::UnboundedReceiver<EnrichedEvent>,
) {
    tokio::sync::mpsc::unbounded_channel()
}

/// Relies on tokio's `UnboundedSender::send`: it never blocks, and it fails
/// exactly when the receive half is closed, returning the unsent message.
#[verifier::external_body]
fn enqueue_envelope(
    sender: &tokio::sync::mpsc::UnboundedSender<EnrichedEvent>,
    envelope: EnrichedEvent,
) -> (rejected: Option<EnrichedEvent>)
    ensures
        rejected matches Some(e) ==> e == envelope,
{
    match sender.send(envelope) {
        Ok(()) => None,
        Err(tokio::sync::mpsc::error::SendError(e)) => Some(e),
    }
}

/// Client for tracking analytics events.
///
/// Cloning yields another handle to the same queue and configuration, not a
/// new queue. All `track` calls are non-blocking.
#[derive(Clone)]
pub struct AnalyticsClient {
    analytics_url: String,
    sender: tokio::sync::mpsc::UnboundedSender<EnrichedEvent>,
}

impl AnalyticsClient {
    /// The ingestion base URL this client posts batches under.
    pub closed spec fn base_url(&self) -> Seq<char> {
        self.analytics_url@
    }

    /// Create a new analytics client together with the read end of its
    /// ingest queue.
    ///
    /// `analytics_url` is the base URL of the analytics ingestion service
    /// (e.g., "http://localhost:8094"). The caller binds exactly one
    /// dispatch loop to the returned receiver; events are batched and sent
    /// there, away from every producer.
    pub fn new(analytics_url: String) -> (r: (
        Self,
        tokio::sync::mpsc::UnboundedReceiver<EnrichedEvent>,
    ))
        ensures
            r.0.base_url() == analytics_url@,
    {
        let (sender, receiver) = unbounded_envelope_channel();
        (AnalyticsClient { analytics_url, sender }, receiver)
    }

    /// Track an analytics event.
    ///
    /// This is non-blocking and does not fail even if the service is
    /// unavailable. The event is enriched with the capture time and the
    /// given tags before it is handed to the queue; if the dispatcher is
    /// gone, the envelope is silently dropped.
    pub fn track(&self, event: AnalyticsEvent, tags: Tags) {
        let enriched = EnrichedEvent::new(event, tags);
        let _ = enqueue_envelope(&self.sender, enriched);
    }

    /// Track an event only if a condition is true; with a false condition
    /// nothing is enriched and nothing reaches the queue.
    pub fn track_if(&self, condition: bool, event: AnalyticsEvent, tags: Tags) {
        if condition {
            self.track(event, tags);
        }
    }

    /// Create a no-op client for testing or disabled analytics: its endpoint
    /// is deliberately unreachable, so every flush attempt fails and is
    /// discarded while producers stay unaffected.
    pub fn noop() -> (r: (Self, tokio::sync::mpsc::UnboundedReceiver<EnrichedEvent>))
        ensures
            r.0.base_url() == "http://localhost:9999"@,
    {
        Self::new(String::from_str("http://localhost:9999"))
    }
}

/// The URL one batch is posted to: the batch path appended to the base URL.
pub fn batch_endpoint(analytics_url: &str) -> (r: String)
    ensures
        r@ == analytics_url@ + "/events/batch"@,
{
    let mut url = String::from_str(analytics_url);
    url.append("/events/batch");
    url
}

/// The outcome of one transport attempt. Whatever it is, the batch is
/// discarded: there is no retry and no requeue, and nothing is surfaced to
/// producers.
#[derive(Debug, Clone, PartialEq, Eq, Structural)]
pub enum FlushOutcome {
    /// A 2xx response: the batch was accepted (logged at debug level).
    Delivered,
    /// A non-2xx response; carries the HTTP status (logged at warning level).
    Rejected(u16),
    /// The attempt produced no response at all: connection failure, timeout,
    /// DNS failure, or a batch that could not be serialized (logged at
    /// warning level).
    Failed,
}

/// Whether an HTTP status signals success.
pub open spec fn is_success_status(status: u16) -> bool {
    200 <= status < 300
}

/// How one transport attempt is recorded: `status` is the HTTP status of
/// the response, or `None` when no response was obtained.
pub open spec fn attempt_outcome(status: Option<u16>) -> FlushOutcome {
    match status {
        Some(s) => if is_success_status(s) {
            FlushOutcome::Delivered
        } else {
            FlushOutcome::Rejected(s)
        },
        None => FlushOutcome::Failed,
    }
}

/// Classify one transport attempt by the status of its response, if any.
pub fn classify_attempt(status: Option<u16>) -> (r: FlushOutcome)
    ensures
        r == attempt_outcome(status),
{
    match status {
        Some(s) => if 200 <= s && s < 300 {
            FlushOutcome::Delivered
        } else {
            FlushOutcome::Rejected(s)
        },
        None => FlushOutcome::Failed,
    }
}

} // verus!
