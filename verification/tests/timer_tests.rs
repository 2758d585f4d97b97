//! The duration line and the capped progress value on concrete inputs.

use quest_passer::timer::{format_duration, progress_value, CAP_SECONDS};

#[test]
fn duration_at_zero() {
    assert_eq!(format_duration(0), "Running: 00:00:00");
}

#[test]
fn duration_just_over_a_minute() {
    assert_eq!(format_duration(61), "Running: 00:01:01");
}

#[test]
fn duration_just_over_an_hour() {
    assert_eq!(format_duration(3661), "Running: 01:01:01");
}

#[test]
fn duration_each_field_padded() {
    assert_eq!(format_duration(9), "Running: 00:00:09");
    assert_eq!(format_duration(600), "Running: 00:10:00");
    assert_eq!(format_duration(35999), "Running: 09:59:59");
}

#[test]
fn duration_hours_can_exceed_two_digits() {
    assert_eq!(format_duration(360000), "Running: 100:00:00");
}

#[test]
fn progress_before_cap() {
    assert_eq!(progress_value(0), 0);
    assert_eq!(progress_value(899), 899);
}

#[test]
fn progress_at_cap() {
    assert_eq!(progress_value(900), 900);
    assert_eq!(CAP_SECONDS, 900);
}

#[test]
fn progress_saturates_past_cap() {
    assert_eq!(progress_value(901), 900);
    assert_eq!(progress_value(5000), 900);
    assert_eq!(progress_value(u64::MAX), 900);
}
