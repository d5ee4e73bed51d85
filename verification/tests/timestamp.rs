use chat_ingest::timestamp::{Timestamp, MAX_MILLIS, MIN_MILLIS};
use chrono::{DateTime, SecondsFormat, Utc};

fn text_of(millis: i64) -> String {
    Timestamp::from_millis(millis)
        .expect("a representable instant")
        .to_text()
}

#[test]
fn range_is_the_range_of_utc_date_times() {
    assert_eq!(DateTime::<Utc>::MIN_UTC.timestamp_millis(), MIN_MILLIS);
    assert_eq!(DateTime::<Utc>::MAX_UTC.timestamp_millis(), MAX_MILLIS);
    assert!(DateTime::<Utc>::from_timestamp_millis(MIN_MILLIS).is_some());
    assert!(DateTime::<Utc>::from_timestamp_millis(MAX_MILLIS).is_some());
    assert!(DateTime::<Utc>::from_timestamp_millis(MIN_MILLIS - 1).is_none());
    assert!(DateTime::<Utc>::from_timestamp_millis(MAX_MILLIS + 1).is_none());
}

#[test]
fn from_millis_accepts_the_whole_range() {
    assert!(Timestamp::from_millis(MIN_MILLIS).is_some());
    assert!(Timestamp::from_millis(MAX_MILLIS).is_some());
    assert!(Timestamp::from_millis(0).is_some());
    assert!(Timestamp::from_millis(-1).is_some());
}

#[test]
fn from_millis_rejects_instants_outside_the_range() {
    assert_eq!(Timestamp::from_millis(MIN_MILLIS - 1), None);
    assert_eq!(Timestamp::from_millis(MAX_MILLIS + 1), None);
    assert_eq!(Timestamp::from_millis(i64::MIN), None);
    assert_eq!(Timestamp::from_millis(i64::MAX), None);
}

#[test]
fn millis_round_trips() {
    for millis in [MIN_MILLIS, -1, 0, 1, 1_704_067_200_000, MAX_MILLIS] {
        assert_eq!(Timestamp::from_millis(millis).unwrap().millis(), millis);
    }
}

#[test]
fn whole_seconds_have_no_fraction() {
    assert_eq!(text_of(1_704_067_200_000), "2024-01-01T00:00:00Z");
    assert_eq!(text_of(0), "1970-01-01T00:00:00Z");
    assert_eq!(text_of(951_782_400_000), "2000-02-29T00:00:00Z");
}

#[test]
fn milliseconds_are_kept() {
    assert_eq!(text_of(1_594_545_155_039), "2020-07-12T09:12:35.039Z");
    assert_eq!(text_of(947_638_923_004), "2000-01-12T01:02:03.004Z");
    assert_eq!(text_of(1_704_067_200_500), "2024-01-01T00:00:00.500Z");
}

#[test]
fn instants_before_the_epoch() {
    assert_eq!(text_of(-1), "1969-12-31T23:59:59.999Z");
    assert_eq!(text_of(-62_167_219_200_000), "0000-01-01T00:00:00Z");
}

#[test]
fn years_beyond_four_digits_carry_a_sign() {
    assert_eq!(text_of(253_402_300_799_999), "9999-12-31T23:59:59.999Z");
    assert_eq!(text_of(253_402_300_800_000), "+10000-01-01T00:00:00Z");
    assert_eq!(text_of(MIN_MILLIS), "-262143-01-01T00:00:00Z");
    assert_eq!(text_of(MAX_MILLIS), "+262142-12-31T23:59:59.999Z");
}

#[test]
fn text_is_what_the_date_time_writes() {
    for millis in [MIN_MILLIS, -86_400_001, 0, 999, 1_594_555_275_886, MAX_MILLIS] {
        let expected = DateTime::<Utc>::from_timestamp_millis(millis)
            .unwrap()
            .to_rfc3339_opts(SecondsFormat::AutoSi, true);
        assert_eq!(text_of(millis), expected);
    }
}

#[test]
fn equal_instants_have_equal_text() {
    let first = Timestamp::from_millis(1_594_545_155_039).unwrap();
    let second = Timestamp::from_millis(1_594_545_155_039).unwrap();
    assert_eq!(first, second);
    assert_eq!(first.to_text(), second.to_text());
}
