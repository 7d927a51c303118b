use clockify_cli::moment::{
    compose_on, compose_today, compose_with_offset, date_from_parts, rfc3339_millis, Date, Moment,
    TimeOfDay,
};
use chrono::{Datelike, TimeZone};

fn date(year: u16, month: u8, day: u8) -> Date {
    Date { year, month, day }
}

fn tod(hour: u8, minute: u8) -> TimeOfDay {
    TimeOfDay { hour, minute }
}

#[test]
fn composes_within_the_same_day() {
    let m = compose_with_offset(date(2024, 3, 10), tod(14, 30), 3600);
    assert_eq!(m, Moment { date: date(2024, 3, 10), sod: 48600 });
    assert_eq!(rfc3339_millis(m), "2024-03-10T13:30:00.000Z");
}

#[test]
fn borrows_a_day_for_an_early_local_time() {
    let m = compose_with_offset(date(2024, 3, 10), tod(0, 30), 7200);
    assert_eq!(m, Moment { date: date(2024, 3, 9), sod: 81000 });
    assert_eq!(rfc3339_millis(m), "2024-03-09T22:30:00.000Z");
}

#[test]
fn carries_a_day_over_a_leap_boundary() {
    let m = compose_with_offset(date(2024, 2, 29), tod(23, 30), -3600);
    assert_eq!(m, Moment { date: date(2024, 3, 1), sod: 1800 });
    assert_eq!(rfc3339_millis(m), "2024-03-01T00:30:00.000Z");
}

#[test]
fn borrows_into_february_of_a_plain_year() {
    let m = compose_with_offset(date(2023, 3, 1), tod(0, 0), 60);
    assert_eq!(m, Moment { date: date(2023, 2, 28), sod: 86340 });
    assert_eq!(rfc3339_millis(m), "2023-02-28T23:59:00.000Z");
}

#[test]
fn zero_offset_keeps_the_wall_clock() {
    let m = compose_with_offset(date(2026, 12, 31), tod(23, 59), 0);
    assert_eq!(rfc3339_millis(m), "2026-12-31T23:59:00.000Z");
}

#[test]
fn matches_the_calendar_crate_composition() {
    // The same composition done through chrono, as a cross-check of the
    // library's own calendar arithmetic.
    let d = chrono::NaiveDate::from_ymd_opt(2024, 11, 3).unwrap();
    let t = chrono::NaiveTime::from_hms_opt(9, 15, 0).unwrap();
    let offsets: [i32; 5] = [-86399, -3600, 0, 19800, 86399];
    for off in offsets {
        let fixed = chrono::FixedOffset::east_opt(off).unwrap();
        let local = fixed.from_local_datetime(&chrono::NaiveDateTime::new(d, t)).unwrap();
        let expected = local
            .with_timezone(&chrono::Utc)
            .to_rfc3339_opts(chrono::SecondsFormat::Millis, true);
        let m = compose_with_offset(date(2024, 11, 3), tod(9, 15), off as i64);
        assert_eq!(rfc3339_millis(m), expected);
    }
}

#[test]
fn composing_today_matches_composing_on_todays_date() {
    let t = tod(14, 30);
    let today = chrono::Local::now().date_naive();
    let a = compose_today(t);
    let after = chrono::Local::now().date_naive();
    if today == after {
        let d = date_from_parts(today.year() as i64, today.month() as i64, today.day() as i64)
            .unwrap();
        let b = compose_on(d, t);
        assert_eq!(a, Some(b));
    }
}

#[test]
fn rejects_dates_off_the_calendar() {
    assert!(date_from_parts(2024, 2, 30).is_none());
    assert!(date_from_parts(2023, 2, 29).is_none());
    assert!(date_from_parts(2024, 13, 1).is_none());
    assert!(date_from_parts(2024, 0, 10).is_none());
    assert!(date_from_parts(1600, 1, 1).is_none());
    assert!(date_from_parts(9999, 1, 1).is_none());
    assert!(date_from_parts(2024, 2, 29).is_some());
    assert!(date_from_parts(2000, 2, 29).is_some());
    assert!(date_from_parts(1900, 2, 29).is_none());
}

#[test]
fn rejects_times_off_the_clock() {
    assert!(TimeOfDay::new(24, 0).is_none());
    assert!(TimeOfDay::new(0, 60).is_none());
    assert_eq!(TimeOfDay::new(23, 59), Some(tod(23, 59)));
}
