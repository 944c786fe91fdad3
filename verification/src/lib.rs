//! Analytics event tracking client.
//!
//! Producers hand domain events to an [`AnalyticsClient`]; a background
//! dispatcher accumulates the enriched events into batches and flushes each
//! batch to an ingestion endpoint over HTTP, governed by a size threshold
//! and a periodic timer.

use vstd::prelude::*;

pub mod client;
pub mod dispatch;
pub mod error;
pub mod events;

pub use client::{batch_endpoint, classify_attempt, AnalyticsClient, FlushOutcome};
pub use dispatch::{DispatchInput, Dispatcher};
pub use error::AnalyticsError;
pub use events::{AnalyticsEvent, EnrichedEvent, Tags};

verus! {

/// Number of envelopes that triggers an immediate, size-triggered flush.
pub const BATCH_THRESHOLD: usize = 100;

/// Length of the periodic flush timer, in seconds.
pub const FLUSH_INTERVAL_SECS: u64 = 10;

} // verus!
