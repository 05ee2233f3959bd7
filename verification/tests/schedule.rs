use betterwheel::dates::{
    dashed_date, day_of, day_of_week, day_year, dte, expiry_code, month_code, parse_clock, parse_expiry,
    parse_instant, ClockTime,
};
use betterwheel::tui::schedule::{
    eastern_wall, is_us_dst, minutes_since_open, nth_weekday, past_second, past_time_stop,
    should_enter, stop_triggered,
};

const MINUTE: u64 = 60_000_000_000;

fn dt(s: &str) -> ClockTime {
    parse_instant(&format!("{}:00Z", s.replace(' ', "T"))).unwrap()
}

fn et(s: &str) -> ClockTime {
    eastern_wall(dt(s))
}

#[test]
fn dst_boundaries_2026() {
    assert_eq!(et("2026-01-15 14:30").nanos, (9 * 60 + 30) * MINUTE);
    assert_eq!(et("2026-07-15 13:30").nanos, (9 * 60 + 30) * MINUTE);
    // Spring: 07:00 UTC on March 8; autumn: 06:00 UTC on November 1.
    assert!(!is_us_dst(dt("2026-03-08 06:59")));
    assert!(is_us_dst(dt("2026-03-08 07:00")));
    assert!(is_us_dst(dt("2026-11-01 05:59")));
    assert!(!is_us_dst(dt("2026-11-01 06:00")));
}

#[test]
fn rth_window_only_on_weekdays() {
    assert_eq!(minutes_since_open(et("2026-07-15 13:45")), Some(15));
    assert_eq!(minutes_since_open(et("2026-07-15 13:00")), None);
    assert_eq!(minutes_since_open(et("2026-07-15 20:30")), None);
    assert_eq!(minutes_since_open(et("2026-07-18 14:00")), None);
}

#[test]
fn single_entry_fires_once_after_offset() {
    let now = et("2026-07-15 14:20");
    assert!(should_enter(now, 45, 0, None));
    assert!(!should_enter(now, 45, 0, Some(et("2026-07-15 14:15"))));
    let early = et("2026-07-15 14:00");
    assert!(!should_enter(early, 45, 0, None));
}

#[test]
fn meic_re_enters_after_interval() {
    let now = et("2026-07-15 15:30");
    assert!(should_enter(now, 45, 30, Some(et("2026-07-15 15:00"))));
    assert!(!should_enter(now, 45, 30, Some(et("2026-07-15 15:20"))));
}

#[test]
fn time_stop_triggers_at_or_after() {
    let now = et("2026-07-15 19:35");
    assert!(past_time_stop(now, "15:30"));
    assert!(!past_time_stop(now, "15:45"));
    assert!(!past_time_stop(now, "garbage"));
    assert!(past_second(now, Some(15 * 3600 + 35 * 60)));
    assert!(!past_second(now, None));
}

#[test]
fn no_entry_outside_the_session() {
    for t in ["2026-07-15 13:00", "2026-07-15 20:30", "2026-07-18 15:00", "2026-07-19 15:00"] {
        assert!(!should_enter(et(t), 0, 0, None), "{t}");
    }
}

#[test]
fn stops_measure_the_loss_against_the_credit() {
    // Credit 2.00, stop at 1.2 times: a loss of 2.40, a cost of 4.40.
    assert!(stop_triggered(4_400_000, 2_000_000, 1_200_000));
    assert!(!stop_triggered(4_399_999, 2_000_000, 1_200_000));
    assert!(!stop_triggered(9_000_000, 2_000_000, 0));
}

#[test]
fn days_of_the_calendar() {
    assert_eq!(nth_weekday(2026, 3, 0, 2), day_of(2026, 3, 8).unwrap());
    assert_eq!(nth_weekday(2026, 11, 0, 1), day_of(2026, 11, 1).unwrap());
    assert_eq!(day_of(2026, 2, 29), None);
    assert_eq!(day_of(2024, 2, 29).map(|d| d + 1), day_of(2024, 3, 1));
    assert_eq!(day_of(1, 1, 1), Some(1));
    let d = day_of(2026, 7, 18).unwrap();
    assert_eq!(day_of_week(d), 6);
    assert_eq!(day_year(d), 2026);
    assert_eq!(dte(d, d + 32), 32);
    assert_eq!(dte(d, d - 1), -1);
}

#[test]
fn dates_in_text() {
    let d = day_of(2026, 6, 19).unwrap();
    assert_eq!(parse_expiry("20260619"), Some(d));
    assert_eq!(parse_expiry("202606"), None);
    assert_eq!(parse_expiry(""), None);
    assert_eq!(expiry_code(d).as_deref(), Some("20260619"));
    assert_eq!(expiry_code(i32::MAX), None);
    assert_eq!(dashed_date(d), "2026-06-19");
    assert_eq!(dashed_date(i32::MAX), "");
    let written = |y, m, d| expiry_code(day_of(y, m, d).unwrap()).unwrap();
    assert_eq!(written(7, 1, 2), "00070102");
    assert_eq!(written(0, 12, 31), "00001231");
    assert_eq!(written(-1, 2, 28), "-00010228");
    assert_eq!(written(9999, 12, 31), "99991231");
    assert_eq!(written(10_000, 1, 1), "+100000101");
    assert_eq!(month_code(day_of(262_142, 12, 31).unwrap()).as_deref(), Some("+26214212"));
    assert_eq!(month_code(i32::MIN), None);
    assert_eq!(dashed_date(day_of(-262_143, 1, 1).unwrap()), "-262143-01-01");
    assert_eq!(parse_clock("15:30"), Some(55_800));
    assert_eq!(parse_clock("25:00"), None);
}

#[test]
fn instants_are_taken_to_utc() {
    let a = parse_instant("2026-07-15T10:20:30+02:00").unwrap();
    let b = parse_instant("2026-07-15T08:20:30Z").unwrap();
    assert_eq!(a.since(b), 0);
    assert_eq!(a.day, day_of(2026, 7, 15).unwrap());
    assert_eq!(a.nanos, (8 * 60 + 20) * MINUTE + 30_000_000_000);
    assert!(parse_instant("yesterday").is_none());
}
