use chrono::{DateTime, Datelike, Timelike};
use flipdot_clock::timestamp::{Timestamp, SECONDS_LIMIT};

fn reading(seconds: i64) -> Timestamp {
    Timestamp::new(seconds, 0).expect("in range")
}

#[test]
fn new_keeps_seconds_and_nanos() {
    let t = Timestamp::new(1_735_122_227, 123_456_789).unwrap();
    assert_eq!(t.unix_seconds(), 1_735_122_227);
    assert_eq!(t.subsec_nanos(), 123_456_789);
}

#[test]
fn new_accepts_both_ends_of_the_range() {
    assert!(Timestamp::new(-SECONDS_LIMIT, 0).is_some());
    assert!(Timestamp::new(SECONDS_LIMIT - 1, 999_999_999).is_some());
}

#[test]
fn new_refuses_what_lies_outside_the_range() {
    assert!(Timestamp::new(SECONDS_LIMIT, 0).is_none());
    assert!(Timestamp::new(-SECONDS_LIMIT - 1, 0).is_none());
    assert!(Timestamp::new(i64::MAX, 0).is_none());
    assert!(Timestamp::new(i64::MIN, 0).is_none());
}

#[test]
fn new_refuses_a_whole_second_of_nanos() {
    assert!(Timestamp::new(0, 1_000_000_000).is_none());
    assert!(Timestamp::new(0, u32::MAX).is_none());
}

#[test]
fn fields_of_a_reading() {
    // 2024-12-25 10:23:47, a Wednesday
    let t = reading(1_735_122_227);
    assert_eq!(t.hour(), 10);
    assert_eq!(t.minute(), 23);
    assert_eq!(t.second(), 47);
    assert_eq!(t.weekday(), 3);
}

#[test]
fn the_first_day_is_a_thursday() {
    let t = reading(0);
    assert_eq!((t.hour(), t.minute(), t.second()), (0, 0, 0));
    assert_eq!(t.weekday(), 4);
}

#[test]
fn fields_before_1970() {
    // 1969-12-31 23:59:59, a Wednesday
    let t = reading(-1);
    assert_eq!((t.hour(), t.minute(), t.second()), (23, 59, 59));
    assert_eq!(t.weekday(), 3);
}

#[test]
fn fields_at_the_ends_of_the_range() {
    let first = reading(-SECONDS_LIMIT);
    assert_eq!((first.hour(), first.minute(), first.second()), (0, 0, 0));
    assert_eq!(first.weekday(), 4);
    let last = reading(SECONDS_LIMIT - 1);
    assert_eq!((last.hour(), last.minute(), last.second()), (23, 59, 59));
    assert_eq!(last.weekday(), 3);
}

#[test]
fn start_of_minute_sets_seconds_and_nanos_to_zero() {
    // 10:23:47 and some nanoseconds become 10:23:00
    let now = Timestamp::new(1_735_122_227, 250_000_000).unwrap();
    let start = now.start_of_minute();
    assert_eq!(start.unix_seconds(), 1_735_122_180);
    assert_eq!(start.subsec_nanos(), 0);
    assert_eq!((start.hour(), start.minute(), start.second()), (10, 23, 0));
    assert!(start.unix_seconds() <= now.unix_seconds());
}

#[test]
fn start_of_minute_of_a_start_of_minute() {
    let start = reading(1_735_122_180);
    assert_eq!(start.start_of_minute(), start);
}

#[test]
fn start_of_minute_before_1970_goes_back() {
    let start = reading(-1).start_of_minute();
    assert_eq!(start.unix_seconds(), -60);
    assert_eq!((start.hour(), start.minute(), start.second()), (23, 59, 0));
}

#[test]
fn start_of_minute_at_the_start_of_the_range() {
    let start = reading(-SECONDS_LIMIT + 59).start_of_minute();
    assert_eq!(start.unix_seconds(), -SECONDS_LIMIT);
}

#[test]
fn plus_seconds_adds() {
    let t = Timestamp::new(1_735_122_180, 7).unwrap();
    let later = t.plus_seconds(60).unwrap();
    assert_eq!(later.unix_seconds(), 1_735_122_240);
    assert_eq!(later.subsec_nanos(), 7);
    assert_eq!(t.plus_seconds(0), Some(t));
}

#[test]
fn plus_seconds_stops_at_the_end_of_the_range() {
    let t = reading(SECONDS_LIMIT - 60);
    assert_eq!(t.plus_seconds(59).map(|l| l.unix_seconds()), Some(SECONDS_LIMIT - 1));
    assert_eq!(t.plus_seconds(60), None);
    assert_eq!(t.plus_seconds(u32::MAX), None);
}

#[test]
fn fields_agree_with_chrono() {
    let mut seconds: i64 = -3_000_000_000;
    while seconds < 5_000_000_000 {
        let t = reading(seconds);
        let there = DateTime::from_timestamp(seconds, 0).unwrap().naive_utc();
        assert_eq!(t.hour(), there.hour(), "hour at {seconds}");
        assert_eq!(t.minute(), there.minute(), "minute at {seconds}");
        assert_eq!(t.second(), there.second(), "second at {seconds}");
        assert_eq!(t.weekday(), there.weekday().num_days_from_sunday(), "weekday at {seconds}");
        seconds += 7_654_321;
    }
}

#[test]
fn start_of_minute_agrees_with_chrono() {
    for seconds in [-86_401_i64, -61, -60, -1, 0, 59, 60, 1_709_129_147, 4_102_444_799] {
        let there = DateTime::from_timestamp(seconds, 5).unwrap().naive_utc();
        let even = there.with_second(0).unwrap().with_nanosecond(0).unwrap().and_utc();
        let start = Timestamp::new(seconds, 5).unwrap().start_of_minute();
        assert_eq!(start.unix_seconds(), even.timestamp());
        assert_eq!(start.subsec_nanos(), even.timestamp_subsec_nanos());
    }
}

#[test]
fn the_whole_range_is_one_that_chrono_holds() {
    assert!(DateTime::from_timestamp(-SECONDS_LIMIT, 0).is_some());
    assert!(DateTime::from_timestamp(SECONDS_LIMIT - 1, 999_999_999).is_some());
}
