use cargo_dockerize::clock::{current_timestamp, timestamp_text};

#[test]
fn epoch_is_formatted_to_the_second() {
    assert_eq!(timestamp_text(0, 0), Some("1970-01-01T00:00:00Z".to_string()));
}

#[test]
fn known_reading_is_formatted() {
    assert_eq!(timestamp_text(1_431_648_000, 999_999_999), Some("2015-05-15T00:00:00Z".to_string()));
    assert_eq!(timestamp_text(1_714_558_830, 0), Some("2024-05-01T10:20:30Z".to_string()));
}

#[test]
fn last_second_of_year_9999() {
    assert_eq!(timestamp_text(253_402_300_799, 0), Some("9999-12-31T23:59:59Z".to_string()));
}

#[test]
fn reading_beyond_the_calendar_is_none() {
    assert_eq!(timestamp_text(u64::MAX, 0), None);
    assert_eq!(timestamp_text(i64::MAX as u64, 0), None);
}

#[test]
fn current_timestamp_has_the_shape() {
    let now = current_timestamp().expect("the clock reads after 1970");
    assert_eq!(now.len(), 20);
    assert!(now.ends_with('Z'));
    assert_eq!(&now[4..5], "-");
    assert_eq!(&now[10..11], "T");
}
