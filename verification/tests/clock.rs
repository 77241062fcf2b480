use courtyard::clock::{display_time, is_version_stamp, version_stamp};
use courtyard::versioning::parse_timestamp_display;

#[test]
fn a_time_is_written_as_the_name_of_a_version() {
    assert_eq!(version_stamp(0, 0).as_deref(), Some("19700101_000000"));
    assert_eq!(version_stamp(1767268800, 0).as_deref(), Some("20260101_120000"));
    assert_eq!(version_stamp(1767268800, 3600).as_deref(), Some("20260101_130000"));
    assert_eq!(version_stamp(1767268800, -8 * 3600).as_deref(), Some("20260101_040000"));
    assert_eq!(version_stamp(1767269101, 0).as_deref(), Some("20260101_120501"));
    assert_eq!(version_stamp(-1, 0).as_deref(), Some("19691231_235959"));
}

#[test]
fn a_time_that_does_not_fit_the_form_has_no_name() {
    assert_eq!(version_stamp(253402300800, 0), None);
    assert_eq!(version_stamp(i64::MAX, 0), None);
    assert_eq!(version_stamp(i64::MIN, 0), None);
    assert_eq!(version_stamp(0, 86400), None);
    assert_eq!(version_stamp(0, -86400), None);
    assert_eq!(version_stamp(-62198755200, 0), None);
}

#[test]
fn a_time_is_written_for_display() {
    assert_eq!(display_time(1767268800, 0).as_deref(), Some("2026-01-01 12:00"));
    assert_eq!(display_time(1767268859, 19800).as_deref(), Some("2026-01-01 17:30"));
    assert_eq!(display_time(0, 86400), None);
    assert_eq!(display_time(i64::MAX, 0), None);
}

#[test]
fn the_name_of_a_version_and_its_display_agree() {
    let stamp = version_stamp(1767268800, 3600).unwrap();
    assert_eq!(Some(parse_timestamp_display(&stamp)), display_time(1767268800, 3600));
}

#[test]
fn the_form_of_a_version_name() {
    assert!(is_version_stamp("20260101_120000"));
    assert!(is_version_stamp("00000000_000000"));
    assert!(!is_version_stamp("20260101-120000"));
    assert!(!is_version_stamp("20260101_12000"));
    assert!(!is_version_stamp("20260101_1200000"));
    assert!(!is_version_stamp("2026010a_120000"));
    assert!(!is_version_stamp("20260101_12000x"));
    assert!(!is_version_stamp("+10000101_00000"));
    assert!(!is_version_stamp("legacy"));
    assert!(!is_version_stamp(""));
    assert!(!is_version_stamp("２０２６0101_120000"));
}
