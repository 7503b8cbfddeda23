use dictation_core::clock::{timestamp_millis, timestamp_secs};

#[test]
fn timestamp_millis_is_the_reading() {
    assert_eq!(timestamp_millis(Some(0)), 0);
    assert_eq!(timestamp_millis(Some(1_700_000_000_123)), 1_700_000_000_123);
    assert_eq!(timestamp_millis(Some(i64::MAX as u128)), i64::MAX);
}

#[test]
fn timestamp_millis_before_the_epoch_is_zero() {
    assert_eq!(timestamp_millis(None), 0);
}

#[test]
fn timestamp_millis_keeps_the_low_64_bits() {
    assert_eq!(timestamp_millis(Some(1u128 << 63)), i64::MIN);
    assert_eq!(timestamp_millis(Some((1u128 << 64) + 5)), 5);
}

#[test]
fn timestamp_secs_rounds_down_to_whole_seconds() {
    assert_eq!(timestamp_secs(Some(0)), 0);
    assert_eq!(timestamp_secs(Some(999)), 0);
    assert_eq!(timestamp_secs(Some(1000)), 1);
    assert_eq!(timestamp_secs(Some(1_700_000_000_999)), 1_700_000_000);
    assert_eq!(timestamp_secs(None), 0);
}
