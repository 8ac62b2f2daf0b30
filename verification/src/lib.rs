//! Structured observability events for an AWS Kinesis Firehose ingestion
//! source: each runtime outcome (a request arriving, a request failing, a
//! record failing automatic decompression) is translated into one structured
//! log record and one or more counter increments, with label values drawn
//! from a fixed taxonomy.
//!
//! The log sink and the metric sink are modelled as recording values, so that
//! everything an event submits — names, labels, severities, messages and the
//! rate limiting of log output — is stated in contracts and proved.

pub mod events;
pub mod laws;
pub mod sink;
pub mod status;
pub mod taxonomy;

use vstd::prelude::*;

verus! {

/// Window, in seconds, during which repeated log output for one event class
/// is suppressed. Metrics are never suppressed.
pub const LOG_RATE_LIMIT_SECS: u64 = 10;

} // verus!
