use rocker::clock::{current_time, time_text};
use std::time::{SystemTime, UNIX_EPOCH};

#[test]
fn moments_are_written_in_utc() {
    assert_eq!(time_text(0, 0), "1970-01-01 00:00:00");
    assert_eq!(time_text(1_704_110_400, 0), "2024-01-01 12:00:00");
    assert_eq!(time_text(1_704_110_400, 999_999_999), "2024-01-01 12:00:00");
    assert_eq!(time_text(1_709_251_199, 0), "2024-02-29 23:59:59");
    assert_eq!(time_text(-1, 0), "1969-12-31 23:59:59");
    assert_eq!(time_text(253_402_300_799, 0), "9999-12-31 23:59:59");
}

#[test]
fn moments_that_chrono_does_not_know_have_no_text() {
    assert_eq!(time_text(i64::MAX, 0), "");
    assert_eq!(time_text(i64::MIN, 0), "");
    assert_eq!(time_text(0, 2_000_000_000), "");
}

#[test]
fn clock_is_read() {
    let before = SystemTime::now().duration_since(UNIX_EPOCH).unwrap().as_secs();
    let text = current_time();
    let after = SystemTime::now().duration_since(UNIX_EPOCH).unwrap().as_secs();
    assert_eq!(text.len(), 19);
    let low = time_text(before as i64, 0);
    let high = time_text(after as i64, 0);
    assert!(low <= text && text <= high);
}
