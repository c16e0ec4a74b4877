use std::time::{SystemTime, UNIX_EPOCH};

use restate_toolkit::clock::millis_from_reading;

#[test]
fn the_clock_is_journaled_as_millis_since_the_epoch() {
    let reading = SystemTime::now().duration_since(UNIX_EPOCH).ok().map(|d| d.as_millis());
    let now = millis_from_reading(reading);
    // 2020-01-01 and 2100-01-01.
    assert!((1_577_836_800_000..4_102_444_800_000).contains(&now), "{now}");
}

#[test]
fn readings_outside_the_u64_range_are_clamped() {
    assert_eq!(millis_from_reading(None), 0);
    assert_eq!(millis_from_reading(Some(1_725_029_869_000)), 1_725_029_869_000);
    assert_eq!(millis_from_reading(Some(u64::MAX as u128)), u64::MAX);
    assert_eq!(millis_from_reading(Some(u64::MAX as u128 + 1)), u64::MAX);
}
