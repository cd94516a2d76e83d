use chrono::{DateTime, FixedOffset, NaiveDate};
use sitemap_rs::timestamp::Timestamp;

#[test]
fn a_timestamp_is_written_with_seconds_and_a_numeric_offset() {
    assert_eq!(Timestamp::new(0, 0, 0).unwrap().to_rfc3339(), "1970-01-01T00:00:00+00:00");
    assert_eq!(
        Timestamp::new(1_104_537_600, 0, 0).unwrap().to_rfc3339(),
        "2005-01-01T00:00:00+00:00"
    );
    assert_eq!(
        Timestamp::new(1_104_537_600, 0, 8 * 3600).unwrap().to_rfc3339(),
        "2005-01-01T08:00:00+08:00"
    );
    assert_eq!(
        Timestamp::new(1_104_537_600, 0, -(5 * 3600 + 30 * 60)).unwrap().to_rfc3339(),
        "2004-12-31T18:30:00-05:30"
    );
}

#[test]
fn a_timestamp_drops_the_fraction_of_a_second() {
    assert_eq!(
        Timestamp::new(1_104_537_600, 999_999_999, 0).unwrap().to_rfc3339(),
        "2005-01-01T00:00:00+00:00"
    );
}

#[test]
fn a_timestamp_gives_back_its_parts() {
    let stamp = Timestamp::new(1_104_537_600, 5, 3600).unwrap();
    assert_eq!(stamp.seconds(), 1_104_537_600);
    assert_eq!(stamp.nanoseconds(), 5);
    assert_eq!(stamp.offset_seconds(), 3600);
}

#[test]
fn a_timestamp_agrees_with_the_date_it_was_made_of() {
    let moment: DateTime<FixedOffset> = DateTime::from_naive_utc_and_offset(
        NaiveDate::from_ymd_opt(2021, 11, 5).unwrap().and_hms_opt(11, 20, 30).unwrap(),
        FixedOffset::east_opt(8 * 3600).unwrap(),
    );
    let stamp = Timestamp::new(
        moment.timestamp(),
        moment.timestamp_subsec_nanos(),
        moment.offset().local_minus_utc(),
    )
    .unwrap();
    assert_eq!(stamp.to_rfc3339(), "2021-11-05T19:20:30+08:00");
    assert_eq!(stamp.to_rfc3339(), moment.to_rfc3339_opts(chrono::SecondsFormat::Secs, false));
}

#[test]
fn a_leap_second_is_written_as_second_sixty() {
    // 2016-12-31T23:59:60Z
    let stamp = Timestamp::new(1_483_228_799, 1_000_000_000, 0).unwrap();
    assert_eq!(stamp.to_rfc3339(), "2016-12-31T23:59:60+00:00");
}

#[test]
fn years_beyond_four_digits_carry_a_sign() {
    assert_eq!(
        Timestamp::new(253_402_300_800, 0, 0).unwrap().to_rfc3339(),
        "+10000-01-01T00:00:00+00:00"
    );
}

#[test]
fn what_cannot_be_written_makes_no_timestamp() {
    // an offset of a day or more
    assert!(Timestamp::new(0, 0, 86_400).is_none());
    assert!(Timestamp::new(0, 0, -86_400).is_none());
    assert!(Timestamp::new(0, 0, 86_399).is_some());
    // nanoseconds beyond a leap second
    assert!(Timestamp::new(0, 2_000_000_000, 0).is_none());
    // a leap second that does not end a minute
    assert!(Timestamp::new(0, 1_000_000_000, 0).is_none());
    // an instant outside the range of years
    assert!(Timestamp::new(i64::MAX, 0, 0).is_none());
    assert!(Timestamp::new(i64::MIN, 0, 0).is_none());
    // the last representable instant has no local time east of UTC
    let last = DateTime::<chrono::Utc>::MAX_UTC;
    assert!(Timestamp::new(last.timestamp(), last.timestamp_subsec_nanos(), 0).is_some());
    assert!(Timestamp::new(last.timestamp(), last.timestamp_subsec_nanos(), 3600).is_none());
}
