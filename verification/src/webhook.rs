//! Webhook parameter checks.
use std::time::{Duration, SystemTime};
use vstd::prelude::*;
use crate::errors::WebhookError;

verus! {

#[verifier::external_type_specification]
#[verifier::external_body]
pub struct ExSystemTime(SystemTime);

/// `SystemTime::now`: the current time of the system clock. Nothing is promised of it.
#[verifier::external_body]
fn system_time_now() -> SystemTime {
    SystemTime::now()
}

/// `SystemTime::duration_since(UNIX_EPOCH)`: the time elapsed since the Unix epoch, or
/// `None` where `time` lies before it (std's `Err`). Nothing is promised of the value.
#[verifier::external_body]
fn elapsed_since_unix_epoch(time: &SystemTime) -> Option<Duration> {
    match time.duration_since(SystemTime::UNIX_EPOCH) {
        Ok(elapsed) => Some(elapsed),
        Err(_) => None,
    }
}

/// `Duration::as_secs`: the whole seconds of `d`. `Duration` is opaque here, so
/// nothing is promised of the value.
#[verifier::external_body]
fn duration_whole_secs(d: &Duration) -> u64 {
    d.as_secs()
}

/// Return the current Unix timestamp in seconds: `None` where the clock reads a time
/// before the Unix epoch, or more seconds after it than an `i64` holds.
pub fn unix_timestamp_now() -> (r: Option<i64>)
    ensures
        r matches Option::Some(n) ==> n >= 0,
{
    let secs = match elapsed_since_unix_epoch(&system_time_now()) {
        Option::Some(elapsed) => Option::Some(duration_whole_secs(&elapsed)),
        Option::None => Option::None,
    };
    timestamp_from_elapsed_secs(secs)
}

/// The Unix timestamp for a clock reading of `secs` whole seconds after the epoch
/// (`None`: the clock reads before the epoch).
pub open spec fn clock_timestamp(secs: Option<u64>) -> Option<i64> {
    match secs {
        Option::Some(s) => if s <= i64::MAX {
            Option::Some(s as i64)
        } else {
            Option::None
        },
        Option::None => Option::None,
    }
}

/// The Unix timestamp for a clock reading of `secs` whole seconds after the epoch:
/// `None` where the clock reads before the epoch or the seconds exceed `i64::MAX`.
pub fn timestamp_from_elapsed_secs(secs: Option<u64>) -> (r: Option<i64>)
    ensures
        r == clock_timestamp(secs),
{
    match secs {
        Option::Some(s) => {
            if s <= i64::MAX as u64 {
                Option::Some(s as i64)
            } else {
                Option::None
            }
        },
        Option::None => Option::None,
    }
}

/// The value that `timestamp as i64` gives: `timestamp` itself where it fits, else
/// `timestamp` less 2^64 (possible only where `usize` has 64 bits).
pub open spec fn wrapped_i64(timestamp: usize) -> int {
    if timestamp <= i64::MAX {
        timestamp as int
    } else {
        timestamp - 0x1_0000_0000_0000_0000
    }
}

/// The age in seconds that a timestamp has when the clock reads `now`.
pub open spec fn age_at(timestamp: usize, now: int) -> int {
    now - wrapped_i64(timestamp)
}

/// The age is an `i64` whose absolute value is an `i64` too.
pub open spec fn age_in_range(timestamp: usize, now: int) -> bool {
    i64::MIN < age_at(timestamp, now) <= i64::MAX
}

/// The verdict on a timestamp when the clock reads `now`.
pub open spec fn timestamp_verdict(timestamp: usize, max_offset_seconds: i64, now: int) -> Result<
    usize,
    WebhookError,
> {
    let age = age_at(timestamp, now);
    if age > max_offset_seconds {
        Err(WebhookError::TooOld { age_seconds: age as i64, max_seconds: max_offset_seconds })
    } else if age < -max_offset_seconds {
        Err(
            WebhookError::FromFuture {
                offset_seconds: (if age < 0 {
                    -age
                } else {
                    age
                }) as i64,
                max_seconds: max_offset_seconds,
            },
        )
    } else {
        Ok(timestamp)
    }
}

/// A timestamp is accepted exactly when it lies at most `max_offset_seconds` before
/// or after the clock reading, both bounds included, and is then handed back as it is.
pub proof fn law_accepted_exactly_within_window(timestamp: usize, max_offset_seconds: i64, now: int)
    requires
        age_in_range(timestamp, now),
    ensures
        (timestamp_verdict(timestamp, max_offset_seconds, now) is Ok) <==> (-max_offset_seconds
            <= age_at(timestamp, now) <= max_offset_seconds),
        timestamp_verdict(timestamp, max_offset_seconds, now) is Ok ==> timestamp_verdict(
            timestamp,
            max_offset_seconds,
            now,
        ) == Ok::<usize, WebhookError>(timestamp),
{
}

/// `timestamp as i64`.
fn to_wrapped_i64(timestamp: usize) -> (r: i64)
    ensures
        r == wrapped_i64(timestamp),
{
    let t = timestamp as u64;
    if t <= i64::MAX as u64 {
        t as i64
    } else {
        let over = t - i64::MAX as u64 - 1;
        i64::MIN + over as i64
    }
}

/// Check a webhook timestamp against the clock reading `now`.
///
/// Rejects timestamps that are more than `max_offset_seconds` older or newer than
/// `now`, and those whose age in seconds is no `i64` with an `i64` absolute value.
/// Returns the timestamp on success.
pub fn check_timestamp(timestamp: usize, max_offset_seconds: i64, now: i64) -> (r: Result<
    usize,
    WebhookError,
>)
    ensures
        r == (if age_in_range(timestamp, now as int) {
            timestamp_verdict(timestamp, max_offset_seconds, now as int)
        } else {
            Err::<usize, WebhookError>(WebhookError::TimestampOutOfRange)
        }),
{
    let signed = to_wrapped_i64(timestamp);
    if (now as i128) - (signed as i128) <= i64::MIN as i128 || (now as i128) - (signed as i128)
        > i64::MAX as i128 {
        return Err(WebhookError::TimestampOutOfRange);
    }
    let age_seconds = now - signed;
    if age_seconds > max_offset_seconds {
        return Err(WebhookError::TooOld { age_seconds, max_seconds: max_offset_seconds });
    }
    if (age_seconds as i128) < -(max_offset_seconds as i128) {
        let offset_seconds = if age_seconds < 0 {
            -age_seconds
        } else {
            age_seconds
        };
        return Err(WebhookError::FromFuture { offset_seconds, max_seconds: max_offset_seconds });
    }
    Ok(timestamp)
}

/// Validate a webhook timestamp against the system clock to prevent replay attacks.
///
/// Rejects webhooks that are too old or too far in the future based on
/// `max_offset_seconds`. Returns the timestamp on success.
pub fn validate_timestamp(timestamp: usize, max_offset_seconds: i64) -> (r: Result<
    usize,
    WebhookError,
>)
    ensures
        r == Err::<usize, WebhookError>(WebhookError::ClockBeforeEpoch)
            || exists|now: int|
            #![trigger age_in_range(timestamp, now)]
            0 <= now <= i64::MAX && {
                if age_in_range(timestamp, now) {
                    r == timestamp_verdict(timestamp, max_offset_seconds, now)
                } else {
                    r == Err::<usize, WebhookError>(WebhookError::TimestampOutOfRange)
                }
            },
{
    match unix_timestamp_now() {
        Option::None => Err(WebhookError::ClockBeforeEpoch),
        Option::Some(now) => {
            let r = check_timestamp(timestamp, max_offset_seconds, now);
            assert(age_in_range(timestamp, now as int) || !age_in_range(timestamp, now as int));
            r
        },
    }
}

} // verus!
