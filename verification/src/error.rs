//! Failures the analytics subsystem can observe.
//!
//! None of these is ever surfaced to a producer: the client degrades to a
//! no-op under sustained ingestion outage without affecting callers.

use vstd::prelude::*;

verus! {

/// Analytics error types.
#[derive(Debug, Clone)]
pub enum AnalyticsError {
    /// A database operation failed; carries the database error's message.
    Database(String),
    /// A batch could not be serialized; carries the serializer's message.
    Serialization(String),
    /// The event channel is closed: the dispatcher is gone, the envelope was
    /// dropped.
    ChannelClosed,
    /// The background worker is not running.
    WorkerNotRunning,
}

/// Result type whose error is an [`AnalyticsError`].
pub type Result<T> = core::result::Result<T, AnalyticsError>;

} // verus!
