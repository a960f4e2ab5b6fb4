use threema_gateway_bot::errors::WebhookError;
use threema_gateway_bot::webhook::{
    check_timestamp, timestamp_from_elapsed_secs, unix_timestamp_now, validate_timestamp,
};

const MAX_AGE: i64 = 300;

#[test]
fn current_timestamp_is_valid() {
    let now = unix_timestamp_now().unwrap() as usize;
    assert!(validate_timestamp(now, MAX_AGE).is_ok());
}

#[test]
fn very_old_timestamp_is_rejected() {
    assert!(validate_timestamp(1_000_000_000, MAX_AGE).is_err());
}

#[test]
fn far_future_timestamp_is_rejected() {
    assert!(validate_timestamp(9_999_999_999_999, MAX_AGE).is_err());
}

#[test]
fn exactly_at_boundary_is_valid() {
    let now = unix_timestamp_now().unwrap();
    let at_boundary = now - MAX_AGE;
    assert!(validate_timestamp(at_boundary as usize, MAX_AGE).is_ok());
}

#[test]
fn one_second_beyond_boundary_is_rejected() {
    let now = unix_timestamp_now().unwrap();
    let beyond_boundary = now - MAX_AGE - 1;
    assert!(validate_timestamp(beyond_boundary as usize, MAX_AGE).is_err());
}

#[test]
fn near_future_is_valid() {
    let now = unix_timestamp_now().unwrap();
    let near_future = now + 10;
    assert!(validate_timestamp(near_future as usize, MAX_AGE).is_ok());
}

#[test]
fn far_future_is_rejected() {
    let now = unix_timestamp_now().unwrap();
    let far_future = now + MAX_AGE + 1;
    assert!(validate_timestamp(far_future as usize, MAX_AGE).is_err());
}

#[test]
fn clock_reads_after_the_epoch() {
    assert!(unix_timestamp_now().unwrap() > 1_600_000_000);
}

#[test]
fn check_reports_age_and_offset() {
    assert_eq!(
        check_timestamp(100, MAX_AGE, 500),
        Err(WebhookError::TooOld { age_seconds: 400, max_seconds: 300 })
    );
    assert_eq!(
        check_timestamp(900, MAX_AGE, 500),
        Err(WebhookError::FromFuture { offset_seconds: 400, max_seconds: 300 })
    );
    assert_eq!(check_timestamp(200, MAX_AGE, 500), Ok(200));
    assert_eq!(check_timestamp(800, MAX_AGE, 500), Ok(800));
    assert_eq!(check_timestamp(199, MAX_AGE, 500).is_err(), true);
    assert_eq!(check_timestamp(801, MAX_AGE, 500).is_err(), true);
}

#[test]
fn negative_window_rejects_everything() {
    assert_eq!(
        check_timestamp(500, -1, 500),
        Err(WebhookError::TooOld { age_seconds: 0, max_seconds: -1 })
    );
}

#[test]
fn huge_timestamps_wrap_like_a_signed_cast() {
    if usize::BITS == 64 {
        // usize::MAX reads as -1
        assert_eq!(
            check_timestamp(usize::MAX, MAX_AGE, 500),
            Err(WebhookError::TooOld { age_seconds: 501, max_seconds: 300 })
        );
        // 2^63 reads as i64::MIN: the age does not fit
        assert_eq!(
            check_timestamp(1usize << 63, MAX_AGE, 500),
            Err(WebhookError::TimestampOutOfRange)
        );
        // an age of exactly i64::MIN has no i64 absolute value
        assert_eq!(
            check_timestamp(i64::MAX as usize, MAX_AGE, -1),
            Err(WebhookError::TimestampOutOfRange)
        );
        assert_eq!(
            validate_timestamp(1usize << 63, MAX_AGE),
            Err(WebhookError::TimestampOutOfRange)
        );
    }
}

#[test]
fn clock_readings_convert_to_timestamps() {
    assert_eq!(timestamp_from_elapsed_secs(Some(1_700_000_000)), Some(1_700_000_000));
    assert_eq!(timestamp_from_elapsed_secs(Some(i64::MAX as u64)), Some(i64::MAX));
    assert_eq!(timestamp_from_elapsed_secs(Some(i64::MAX as u64 + 1)), None);
    assert_eq!(timestamp_from_elapsed_secs(None), None);
}
