use linear_tasks::clock::{parse_timestamp, Timestamp, TimestampParseError};

fn at(text: &str) -> Timestamp {
    parse_timestamp(text).expect("a valid RFC 3339 time")
}

#[test]
fn parse_reads_seconds_since_1970() {
    let t = at("1970-01-01T00:00:10Z");
    assert_eq!(t.secs(), 10);
    assert_eq!(t.nanos(), 0);
}

#[test]
fn parse_applies_the_offset() {
    let t = at("2023-05-01T10:00:00+02:00");
    assert_eq!(t, at("2023-05-01T08:00:00Z"));
    assert_eq!(t.secs(), 1_682_928_000);
}

#[test]
fn parse_keeps_the_fraction() {
    let t = at("2023-05-01T08:00:00.25Z");
    assert_eq!(t.secs(), 1_682_928_000);
    assert_eq!(t.nanos(), 250_000_000);
}

#[test]
fn parse_reads_a_leap_second() {
    let t = at("2016-12-31T23:59:60Z");
    assert_eq!(t.secs(), 1_483_228_799);
    assert_eq!(t.nanos(), 1_000_000_000);
}

#[test]
fn parse_reads_times_before_1970() {
    let t = at("1969-12-31T23:59:59Z");
    assert_eq!(t.secs(), -1);
    assert_eq!(t.nanos(), 0);
}

#[test]
fn parse_rejects_what_is_no_time() {
    let error = parse_timestamp("yesterday").unwrap_err();
    assert_eq!(error, TimestampParseError { text: "yesterday".to_string() });
}

#[test]
fn parse_rejects_a_time_without_offset() {
    assert!(parse_timestamp("2023-05-01T10:00:00").is_err());
}

#[test]
fn parse_rejects_an_empty_text() {
    let error = parse_timestamp("").unwrap_err();
    assert_eq!(error.text, "");
}

#[test]
fn parse_rejects_a_day_that_is_not_in_the_month() {
    assert!(parse_timestamp("2023-02-30T10:00:00Z").is_err());
}

#[test]
fn from_parts_accepts_the_epoch() {
    let t = Timestamp::from_parts(0, 0).unwrap();
    assert_eq!(t.secs(), 0);
    assert_eq!(t.nanos(), 0);
    assert_eq!(t, at("1970-01-01T00:00:00Z"));
}

#[test]
fn from_parts_bounds_the_seconds() {
    assert!(Timestamp::from_parts(8_000_000_000_000, 0).is_some());
    assert!(Timestamp::from_parts(8_000_000_000_001, 0).is_none());
    assert!(Timestamp::from_parts(-8_000_000_000_000, 0).is_some());
    assert!(Timestamp::from_parts(-8_000_000_000_001, 0).is_none());
    assert!(Timestamp::from_parts(i64::MAX, 0).is_none());
    assert!(Timestamp::from_parts(i64::MIN, 0).is_none());
}

#[test]
fn from_parts_bounds_the_nanoseconds() {
    assert!(Timestamp::from_parts(0, 999_999_999).is_some());
    assert!(Timestamp::from_parts(0, 1_000_000_000).is_none());
    assert!(Timestamp::from_parts(59, 1_000_000_000).is_some());
    assert!(Timestamp::from_parts(59, 1_999_999_999).is_some());
    assert!(Timestamp::from_parts(59, 2_000_000_000).is_none());
    assert!(Timestamp::from_parts(58, 1_000_000_000).is_none());
    assert!(Timestamp::from_parts(119, 1_500_000_000).is_some());
}

#[test]
fn from_parts_takes_a_leap_second_before_1970() {
    assert!(Timestamp::from_parts(-1, 1_500_000_000).is_some());
    assert!(Timestamp::from_parts(-61, 1_500_000_000).is_some());
    assert!(Timestamp::from_parts(-2, 1_500_000_000).is_none());
    assert!(Timestamp::from_parts(-60, 1_500_000_000).is_none());
}

#[test]
fn hours_since_the_far_ends() {
    let first = Timestamp::from_parts(-8_000_000_000_000, 0).unwrap();
    let last = Timestamp::from_parts(8_000_000_000_000, 0).unwrap();
    assert_eq!(last.hours_since(&first), 4_444_444_444);
    assert_eq!(first.hours_since(&last), -4_444_444_444);
}

#[test]
fn hours_since_counts_whole_hours() {
    let then = at("2023-05-01T10:00:00Z");
    assert_eq!(at("2023-05-01T15:00:00Z").hours_since(&then), 5);
    assert_eq!(at("2023-05-01T15:59:59Z").hours_since(&then), 5);
    assert_eq!(at("2023-05-01T14:59:59.999999999Z").hours_since(&then), 4);
    assert_eq!(at("2023-05-03T02:00:00Z").hours_since(&then), 40);
    assert_eq!(then.hours_since(&then), 0);
}

#[test]
fn hours_since_goes_by_the_instant_not_the_offset() {
    let then = at("2023-05-01T10:00:00+02:00");
    assert_eq!(at("2023-05-01T08:00:00Z").hours_since(&then), 0);
    assert_eq!(at("2023-05-01T10:00:00Z").hours_since(&then), 2);
    assert_eq!(at("2023-05-01T10:00:00-05:00").hours_since(&then), 7);
}

#[test]
fn hours_since_drops_the_fraction_towards_zero() {
    let then = at("2023-05-01T10:00:00Z");
    assert_eq!(at("2023-05-01T09:00:01Z").hours_since(&then), 0);
    assert_eq!(at("2023-05-01T09:00:00Z").hours_since(&then), -1);
    assert_eq!(at("2023-05-01T08:00:00.5Z").hours_since(&then), -1);
    assert_eq!(at("2023-05-01T07:59:59.5Z").hours_since(&then), -2);
    assert_eq!(at("2023-04-30T10:00:00Z").hours_since(&then), -24);
}

#[test]
fn hours_since_counts_a_leap_second_of_the_earlier_time() {
    // An hour less one nanosecond by the clock, and the leap second on top.
    let earlier = Timestamp::from_parts(36_059, 1_000_000_000).unwrap();
    let later = Timestamp::from_parts(39_659, 999_999_999).unwrap();
    assert_eq!(later.hours_since(&earlier), 1);
    let plain = Timestamp::from_parts(36_060, 0).unwrap();
    assert_eq!(later.hours_since(&plain), 0);
}

#[test]
fn hours_since_counts_a_leap_second_of_the_later_time() {
    // The later time lies in a leap second, earlier in its day than the other.
    let later = Timestamp::from_parts(86_400 + 59, 1_000_000_000).unwrap();
    let earlier = Timestamp::from_parts(3_659, 999_999_999).unwrap();
    assert_eq!(later.hours_since(&earlier), 22);
    let plain = Timestamp::from_parts(86_400 + 60, 0).unwrap();
    assert_eq!(plain.hours_since(&earlier), 23);
    let sooner = Timestamp::from_parts(3_660, 0).unwrap();
    assert_eq!(later.hours_since(&sooner), 22);
    assert_eq!(plain.hours_since(&sooner), 23);
}

#[test]
fn hours_since_within_a_leap_second() {
    let start = at("2016-12-31T23:59:60Z");
    let end = at("2017-01-01T00:00:00Z");
    assert_eq!(end.hours_since(&start), 0);
    assert_eq!(at("2017-01-01T01:00:00Z").hours_since(&start), 1);
    assert_eq!(at("2017-01-01T00:59:59Z").hours_since(&start), 0);
}

#[test]
fn within_days_compares_with_the_time_so_many_days_back() {
    let now = at("2023-05-10T12:00:00.5Z");
    assert!(at("2023-05-07T12:00:00.500000001Z").within_days(&now, 3));
    assert!(!at("2023-05-07T12:00:00.5Z").within_days(&now, 3));
    assert!(!at("2023-05-07T12:00:00.4Z").within_days(&now, 3));
    assert!(at("2023-05-07T12:00:01Z").within_days(&now, 3));
    assert!(!at("2023-05-07T11:59:59.9Z").within_days(&now, 3));
    assert!(at("2023-05-10T12:00:00.6Z").within_days(&now, 0));
    assert!(!now.within_days(&now, 0));
    assert!(now.within_days(&now, 1));
    assert!(at("1970-01-01T00:00:00Z").within_days(&now, u32::MAX));
}

#[test]
fn hours_since_takes_leap_seconds_before_1970() {
    let leap = Timestamp::from_parts(-1, 1_500_000_000).unwrap();
    let epoch = Timestamp::from_parts(0, 0).unwrap();
    assert_eq!(epoch.hours_since(&leap), 0);
    let earlier = Timestamp::from_parts(-61, 1_000_000_000).unwrap();
    assert_eq!(leap.hours_since(&earlier), 0);
    let long_before = Timestamp::from_parts(-8_000_000_000_000 + 19, 1_999_999_999).unwrap();
    assert_eq!(epoch.hours_since(&long_before), 2_222_222_222);
}
