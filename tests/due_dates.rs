use todo_cli::due_date::{parse_due_date, resolve_due_date, DueDate, DueDateError, WallClock, IST_OFFSET_SECONDS};

fn wall(year: i32, month: u32, day: u32, hour: u32, minute: u32) -> WallClock {
    WallClock { year, month, day, hour, minute, second: 0, nanosecond: 0 }
}

#[test]
fn full_date_and_time_parses_at_ist() {
    let d = parse_due_date("2024-03-15 14:30").unwrap();
    assert_eq!(d.local, wall(2024, 3, 15, 14, 30));
    assert_eq!(d.offset_seconds, 5 * 3600 + 30 * 60);
    assert_eq!(d.to_text(), "2024-03-15 14:30 IST");
}

#[test]
fn date_alone_parses_at_midnight() {
    let d = parse_due_date("2024-03-15").unwrap();
    assert_eq!(d.local, wall(2024, 3, 15, 0, 0));
    assert_eq!(d.offset_seconds, IST_OFFSET_SECONDS);
    assert_eq!(d.to_text(), "2024-03-15 00:00 IST");
}

#[test]
fn month_thirteen_is_refused() {
    match parse_due_date("2024-13-01") {
        Err(DueDateError::InvalidFormat { input }) => assert_eq!(input, "2024-13-01"),
        other => panic!("unexpected: {:?}", other),
    }
}

#[test]
fn free_text_is_refused_with_a_message() {
    let e = parse_due_date("not-a-date").unwrap_err();
    assert_eq!(
        e.message(),
        "Invalid date format 'not-a-date'. Expected 'YYYY-MM-DD HH:MM' or 'YYYY-MM-DD'."
    );
}

#[test]
fn leap_day_only_in_leap_years() {
    assert!(parse_due_date("2024-02-29").is_ok());
    assert!(parse_due_date("2023-02-29").is_err());
}

#[test]
fn full_reading_wins_over_date_alone() {
    let r = resolve_due_date("x", Some(wall(2024, 1, 1, 9, 0)), Some((1999, 5, 6)), Some(19800)).unwrap();
    assert_eq!(r, DueDate { local: wall(2024, 1, 1, 9, 0), offset_seconds: 19800 });
}

#[test]
fn date_alone_reading_is_midnight() {
    let r = resolve_due_date("x", None, Some((1999, 5, 6)), Some(19800)).unwrap();
    assert_eq!(r, DueDate { local: wall(1999, 5, 6, 0, 0), offset_seconds: 19800 });
}

#[test]
fn no_reading_is_a_format_error() {
    match resolve_due_date("abc", None, None, Some(19800)) {
        Err(DueDateError::InvalidFormat { input }) => assert_eq!(input, "abc"),
        other => panic!("unexpected: {:?}", other),
    }
}

#[test]
fn missing_offset_is_a_time_zone_error() {
    let e = resolve_due_date("2024-01-01", None, Some((2024, 1, 1)), None).unwrap_err();
    assert!(matches!(e, DueDateError::TimeZone));
    assert_eq!(e.message(), "Failed to create IST offset.");
}

#[test]
fn years_outside_four_digits_carry_a_sign() {
    let mut d = DueDate { local: wall(12345, 1, 2, 3, 4), offset_seconds: 19800 };
    assert_eq!(d.to_text(), "+12345-01-02 03:04 IST");
    d.local.year = -5;
    assert_eq!(d.to_text(), "-0005-01-02 03:04 IST");
    d.local.year = 7;
    assert_eq!(d.to_text(), "0007-01-02 03:04 IST");
}
