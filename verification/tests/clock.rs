use promptpuppet::clock::{civil_from_seconds, format_timestamp, stamp_of, CivilTime};

#[test]
fn epoch_is_first_of_january_1970() {
    let c = civil_from_seconds(0);
    assert_eq!(c, CivilTime { year: 1970, month: 1, day: 1, hour: 0, minute: 0 });
    assert_eq!(format_timestamp(0), "1970-01-01  00:00");
}

#[test]
fn leap_day_of_2024() {
    // 2024-02-29 12:34:56 UTC
    assert_eq!(format_timestamp(1709210096), "2024-02-29  12:34");
}

#[test]
fn last_minute_of_a_year() {
    // 1999-12-31 23:59:59 UTC
    assert_eq!(format_timestamp(946684799), "1999-12-31  23:59");
    assert_eq!(format_timestamp(946684800), "2000-01-01  00:00");
}

#[test]
fn no_reading_is_a_dash() {
    assert_eq!(stamp_of(None), "\u{2014}");
    assert_eq!(stamp_of(Some(86400)), "1970-01-02  00:00");
}
