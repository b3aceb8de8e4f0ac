use chrono::{NaiveDate, NaiveDateTime};
use shelf::datetime::DateTime;
use shelf::recurrence::{next_occurrence, Recurrence};

fn at(y: i32, m: u32, d: u32, h: u32, mi: u32, s: u32) -> DateTime {
    let n: NaiveDateTime = NaiveDate::from_ymd_opt(y, m, d)
        .unwrap()
        .and_hms_opt(h, mi, s)
        .unwrap();
    DateTime::from_timestamp(n.and_utc().timestamp(), 0).unwrap()
}

fn dt(y: i32, m: u32, d: u32) -> DateTime {
    at(y, m, d, 9, 0, 0)
}

#[test]
fn test_none_returns_none() {
    let result = next_occurrence(dt(2026, 5, 1), &Recurrence::Never, dt(2026, 5, 10));
    assert_eq!(result, None);
}

#[test]
fn test_daily_missed_two_days() {
    let result = next_occurrence(dt(2026, 5, 1), &Recurrence::Daily, dt(2026, 5, 10));
    assert_eq!(result, Some(dt(2026, 5, 11)));
}

#[test]
fn test_weekly_missed() {
    let result = next_occurrence(dt(2026, 5, 1), &Recurrence::Weekly, dt(2026, 5, 10));
    assert_eq!(result, Some(dt(2026, 5, 15)));
}

#[test]
fn test_monthly_missed() {
    let result = next_occurrence(dt(2026, 4, 10), &Recurrence::Monthly, dt(2026, 5, 10));
    assert_eq!(result, Some(dt(2026, 6, 10)));
}

#[test]
fn test_future_occurrence_not_changed() {
    let result = next_occurrence(dt(2026, 5, 15), &Recurrence::Daily, dt(2026, 5, 10));
    assert_eq!(result, Some(dt(2026, 5, 15)));
}

#[test]
fn from_str_reads_rule_names() {
    assert_eq!(Recurrence::from_str("daily"), Recurrence::Daily);
    assert_eq!(Recurrence::from_str("weekly"), Recurrence::Weekly);
    assert_eq!(Recurrence::from_str("monthly"), Recurrence::Monthly);
    assert_eq!(Recurrence::from_str("none"), Recurrence::Never);
    assert_eq!(Recurrence::from_str("yearly"), Recurrence::Never);
    assert_eq!(Recurrence::from_str("Daily"), Recurrence::Never);
    assert_eq!(Recurrence::from_str(""), Recurrence::Never);
}

#[test]
fn same_time_as_now_moves_on() {
    // A date equal to the present moment is not in the future.
    let result = next_occurrence(dt(2026, 5, 10), &Recurrence::Daily, dt(2026, 5, 10));
    assert_eq!(result, Some(dt(2026, 5, 11)));
}

#[test]
fn earlier_time_on_same_day_moves_to_next_day() {
    let result = next_occurrence(dt(2026, 5, 1), &Recurrence::Daily, at(2026, 5, 10, 12, 0, 0));
    assert_eq!(result, Some(dt(2026, 5, 11)));
    let result = next_occurrence(dt(2026, 5, 1), &Recurrence::Daily, at(2026, 5, 10, 8, 59, 59));
    assert_eq!(result, Some(dt(2026, 5, 10)));
}

#[test]
fn monthly_clamps_to_end_of_month() {
    // Jan 31 + 1 month = Feb 28 (2026 is not a leap year), then Mar 28.
    let result = next_occurrence(dt(2026, 1, 31), &Recurrence::Monthly, dt(2026, 3, 1));
    assert_eq!(result, Some(dt(2026, 3, 28)));
}

#[test]
fn weekly_keeps_weekday_across_a_year() {
    let result = next_occurrence(dt(2025, 1, 3), &Recurrence::Weekly, dt(2026, 1, 3));
    // 2025-01-03 is a Friday; the next Friday after 2026-01-03 09:00 is 2026-01-09.
    assert_eq!(result, Some(dt(2026, 1, 9)));
}

#[test]
fn next_occurrence_is_stable() {
    let now = dt(2026, 5, 10);
    let first = next_occurrence(dt(2026, 4, 10), &Recurrence::Monthly, now).unwrap();
    let again = next_occurrence(first, &Recurrence::Monthly, now).unwrap();
    assert_eq!(first, again);
}

#[test]
fn nanoseconds_count_in_ordering() {
    let from = dt(2026, 5, 10);
    let now = DateTime::from_timestamp(from.secs, 500).unwrap();
    let result = next_occurrence(from, &Recurrence::Daily, now);
    assert_eq!(result, Some(dt(2026, 5, 11)));
}

#[test]
fn from_timestamp_checks_range_and_leap_seconds() {
    assert!(DateTime::from_timestamp(shelf::datetime::MAX_TIMESTAMP, 0).is_some());
    assert!(DateTime::from_timestamp(shelf::datetime::MAX_TIMESTAMP + 1, 0).is_none());
    assert!(DateTime::from_timestamp(shelf::datetime::MIN_TIMESTAMP, 0).is_some());
    assert!(DateTime::from_timestamp(shelf::datetime::MIN_TIMESTAMP - 1, 0).is_none());
    // A leap second is only valid on the 59th second of a minute.
    let minute_end = at(2016, 12, 31, 23, 59, 59);
    assert!(DateTime::from_timestamp(minute_end.secs, 1_500_000_000).is_some());
    assert!(DateTime::from_timestamp(minute_end.secs - 1, 1_500_000_000).is_none());
    assert!(DateTime::from_timestamp(0, 2_000_000_000).is_none());
    // The bounds agree with chrono's.
    assert!(chrono::DateTime::from_timestamp(shelf::datetime::MAX_TIMESTAMP, 0).is_some());
    assert!(chrono::DateTime::from_timestamp(shelf::datetime::MAX_TIMESTAMP + 1, 0).is_none());
    assert!(chrono::DateTime::from_timestamp(shelf::datetime::MIN_TIMESTAMP, 0).is_some());
    assert!(chrono::DateTime::from_timestamp(shelf::datetime::MIN_TIMESTAMP - 1, 0).is_none());
}

#[test]
fn leap_second_steps_to_next_day() {
    let leap = DateTime::from_timestamp(at(2016, 12, 31, 23, 59, 59).secs, 1_000_000_000).unwrap();
    let now = at(2017, 1, 1, 0, 0, 0);
    let result = next_occurrence(leap, &Recurrence::Daily, now).unwrap();
    assert_eq!(result, at(2017, 1, 1, 23, 59, 59));
}

#[test]
fn monthly_in_leap_year() {
    // Jan 31 + 1 month in 2024 = Feb 29, then Mar 29.
    let result = next_occurrence(dt(2024, 1, 31), &Recurrence::Monthly, dt(2024, 3, 1));
    assert_eq!(result, Some(dt(2024, 3, 29)));
    let result = next_occurrence(dt(2024, 1, 31), &Recurrence::Monthly, dt(2024, 2, 1));
    assert_eq!(result, Some(dt(2024, 2, 29)));
}
