use todo_cli::util::{
    combine, format_rfc3339, format_ymd, parse_rfc3339, parse_start_date_time, parse_ymd_hms,
    DateTime,
};
use todo_cli::TodoError;

fn dt(year: u32, month: u32, day: u32, hour: u32, minute: u32, second: u32) -> DateTime {
    DateTime { year, month, day, hour, minute, second }
}

#[test]
fn test_parse_start_date_time() {
    let date = Some("2024-12-31".to_string());
    let time = Some("12:34:56".to_string());
    let dt = parse_start_date_time(date, time).unwrap();

    assert_eq!(dt.year, 2024);
    assert_eq!(dt.month, 12);
    assert_eq!(dt.day, 31);
    assert_eq!(dt.hour, 12);
    assert_eq!(dt.minute, 34);
    assert_eq!(dt.second, 56);
}

#[test]
fn parse_ymd_hms_exact() {
    let r = parse_ymd_hms("2024-02-29", "23:59:59").unwrap();
    assert_eq!(r, dt(2024, 2, 29, 23, 59, 59));
}

#[test]
fn parse_ymd_hms_rejects_bad_dates() {
    assert_eq!(parse_ymd_hms("2024-13-01", "00:00:00"), Err(TodoError::InvalidDate));
    assert_eq!(parse_ymd_hms("2024-02-30", "00:00:00"), Err(TodoError::InvalidDate));
    assert_eq!(parse_ymd_hms("2023-02-29", "00:00:00"), Err(TodoError::InvalidDate));
    assert_eq!(parse_ymd_hms("2024-00-10", "00:00:00"), Err(TodoError::InvalidDate));
    assert_eq!(parse_ymd_hms("2024-1-01", "00:00:00"), Err(TodoError::InvalidDate));
    assert_eq!(parse_ymd_hms("not-a-date", "00:00:00"), Err(TodoError::InvalidDate));
}

#[test]
fn parse_ymd_hms_rejects_bad_times() {
    assert_eq!(parse_ymd_hms("2024-12-31", "24:00:00"), Err(TodoError::InvalidTime));
    assert_eq!(parse_ymd_hms("2024-12-31", "12:60:00"), Err(TodoError::InvalidTime));
    assert_eq!(parse_ymd_hms("2024-12-31", "12:00:60"), Err(TodoError::InvalidTime));
    assert_eq!(parse_ymd_hms("2024-12-31", "12:00"), Err(TodoError::InvalidTime));
}

#[test]
fn combine_follows_the_policy_table() {
    let now = dt(2026, 10, 12, 8, 30, 15);
    // date and time both given: parse both, combine.
    assert_eq!(
        combine(&Some("2024-12-31".to_string()), &Some("12:34:56".to_string()), now),
        Ok(dt(2024, 12, 31, 12, 34, 56))
    );
    // date given, no time: time defaults to midnight.
    assert_eq!(
        combine(&Some("2024-12-31".to_string()), &None, now),
        Ok(dt(2024, 12, 31, 0, 0, 0))
    );
    // time given, no date: date defaults to now's date.
    assert_eq!(
        combine(&None, &Some("06:07:08".to_string()), now),
        Ok(dt(2026, 10, 12, 6, 7, 8))
    );
    // neither given: now itself.
    assert_eq!(combine(&None, &None, now), Ok(now));
}

#[test]
fn combine_reports_the_malformed_part() {
    let now = dt(2026, 10, 12, 8, 30, 15);
    assert_eq!(
        combine(&Some("2024-31-12".to_string()), &Some("12:00:00".to_string()), now),
        Err(TodoError::InvalidDate)
    );
    assert_eq!(
        combine(&Some("2024-12-31".to_string()), &Some("99:00:00".to_string()), now),
        Err(TodoError::InvalidTime)
    );
    assert_eq!(combine(&None, &Some("nonsense".to_string()), now), Err(TodoError::InvalidTime));
}

#[test]
fn parse_start_date_time_without_inputs_is_now() {
    // The clock's exact value cannot be pinned here; the policy row says
    // the call succeeds and returns a valid timestamp.
    let r = parse_start_date_time(None, None).unwrap();
    assert!(r.month >= 1 && r.month <= 12);
    assert!(r.day >= 1 && r.day <= 31);
    assert!(r.hour <= 23 && r.minute <= 59 && r.second <= 59);
    // Two reads of the clock are in order.
    let r2 = parse_start_date_time(None, None).unwrap();
    assert!(r.le(&r2));
}

#[test]
fn parse_start_date_time_takes_time_of_day() {
    let r = parse_start_date_time(None, Some("04:05:06".to_string())).unwrap();
    assert_eq!((r.hour, r.minute, r.second), (4, 5, 6));
    assert_eq!(
        parse_start_date_time(None, Some("4:5:6".to_string())),
        Err(TodoError::InvalidTime)
    );
}

#[test]
fn format_ymd_renders_four_two_two() {
    assert_eq!(format_ymd(&dt(2024, 12, 31, 12, 34, 56)), "2024-12-31");
    assert_eq!(format_ymd(&dt(987, 1, 2, 0, 0, 0)), "0987-01-02");
}

#[test]
fn rfc3339_round_trip() {
    let d = dt(2024, 12, 31, 12, 34, 56);
    let s = format_rfc3339(&d);
    assert_eq!(s, "2024-12-31T12:34:56+00:00");
    assert_eq!(parse_rfc3339(&s), Ok(d));
}

#[test]
fn rfc3339_rejects_malformed_text() {
    assert_eq!(parse_rfc3339("2024-12-31 12:34:56"), Err(TodoError::Storage));
    assert_eq!(parse_rfc3339("2024-12-31T12:34:56Z"), Err(TodoError::Storage));
    assert_eq!(parse_rfc3339("2024-12-31T12:34:56+01:00"), Err(TodoError::Storage));
    assert_eq!(parse_rfc3339(""), Err(TodoError::Storage));
}

#[test]
fn error_descriptions_are_distinct() {
    assert_eq!(TodoError::InvalidDate.describe(), "invalid date (expected YYYY-MM-DD)");
    assert_ne!(TodoError::NotFound.describe(), TodoError::Storage.describe());
}
