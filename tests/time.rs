use day_night_cycle::time::{ConfigError, TimeOfDay, NANOS_PER_MINUTE, NANOS_PER_SECOND};

#[test]
fn from_hms_checks_ranges() {
    assert!(TimeOfDay::from_hms(24, 0, 0).is_none());
    assert!(TimeOfDay::from_hms(0, 60, 0).is_none());
    assert!(TimeOfDay::from_hms(0, 0, 60).is_none());
    assert!(TimeOfDay::from_hms_nano(0, 0, 0, 1_000_000_000).is_none());
    let t = TimeOfDay::from_hms_nano(23, 59, 59, 999_999_999).unwrap();
    assert_eq!(t.nanos_of_day(), 86_400_000_000_000 - 1);
    assert_eq!(t.hour(), 23);
    assert_eq!(t.minute(), 59);
    assert_eq!(t.second(), 59);
    assert_eq!(t.nanosecond(), 999_999_999);
}

#[test]
fn parse_reads_hours_and_minutes() {
    let t = TimeOfDay::parse_hh_mm("22:05").unwrap();
    assert_eq!(t, TimeOfDay::from_hms(22, 5, 0).unwrap());
    let t = TimeOfDay::parse_hh_mm("06:00").unwrap();
    assert_eq!(t, TimeOfDay::from_hms(6, 0, 0).unwrap());
}

#[test]
fn parse_rejects_malformed_text() {
    for text in ["", "25:00", "12:60", "noon", "12-30"] {
        match TimeOfDay::parse_hh_mm(text) {
            Err(ConfigError::MalformedTime { text: t }) => assert_eq!(t, text),
            Ok(_) => panic!("accepted {:?}", text),
        }
    }
}

#[test]
fn formats_as_hh_mm() {
    assert_eq!(TimeOfDay::from_hms(6, 5, 59).unwrap().to_hh_mm(), "06:05");
    assert_eq!(TimeOfDay::from_hms(22, 0, 0).unwrap().to_hh_mm(), "22:00");
    assert_eq!(TimeOfDay::midnight().to_hh_mm(), "00:00");
}

#[test]
fn delay_until_next_minute() {
    let t = TimeOfDay::from_hms_nano(10, 15, 30, 250).unwrap();
    assert_eq!(t.nanos_until_next_minute(), 30 * NANOS_PER_SECOND - 250);
    let on_minute = TimeOfDay::from_hms(10, 15, 0).unwrap();
    assert_eq!(on_minute.nanos_until_next_minute(), NANOS_PER_MINUTE);
    let last = TimeOfDay::from_hms_nano(23, 59, 59, 999_999_999).unwrap();
    assert_eq!(last.nanos_until_next_minute(), 1);
}

#[test]
fn clock_reading_folds_leap_second() {
    let t = TimeOfDay::from_clock(86_399, 1_500_000_000);
    assert_eq!(t, TimeOfDay::from_hms_nano(23, 59, 59, 999_999_999).unwrap());
    let u = TimeOfDay::from_clock(3_600, 42);
    assert_eq!(u, TimeOfDay::from_hms_nano(1, 0, 0, 42).unwrap());
}

#[test]
fn now_is_within_the_day() {
    let t = TimeOfDay::now();
    assert!(t.nanos_of_day() < 86_400_000_000_000);
}
