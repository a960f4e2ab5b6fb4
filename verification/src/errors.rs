//! Error types.
use vstd::prelude::*;

verus! {

/// Why a webhook was refused.
#[derive(Debug, Clone, Copy, PartialEq, Eq, Structural)]
pub enum WebhookError {
    /// The webhook's timestamp lies further in the past than allowed.
    TooOld { age_seconds: i64, max_seconds: i64 },
    /// The webhook's timestamp lies further in the future than allowed.
    FromFuture { offset_seconds: i64, max_seconds: i64 },
    /// The system clock reads a time before the Unix epoch (or beyond what an `i64`
    /// counts in seconds).
    ClockBeforeEpoch,
    /// The difference between the clock and the timestamp does not fit in an `i64`
    /// whose absolute value is an `i64` too.
    TimestampOutOfRange,
}

} // verus!
