//! When an automated slot trades: US/Eastern market time, the entry times, and
//! the stops. Market holidays are not known here: on a holiday a scheduled entry
//! is attempted and fails at the broker.

use vstd::prelude::*;
use crate::dates::{
    civil_day, day_of, day_of_week, day_year, is_day, is_nth_weekday, parse_clock, second_of_clock,
    weekday, year_of, ClockTime, DAY, MAX_YEAR, MIN_DAY, MIN_YEAR, SECOND,
};
use crate::fixed::SCALE;

verus! {

/// Minutes from midnight to the open of the regular session (09:30).
pub const OPEN_MINUTES: i64 = 570;

/// Minutes from midnight to its close (16:00).
pub const CLOSE_MINUTES: i64 = 960;

proof fn lemma_shift(first: int, wday: int, shift: int, n: int)
    requires
        0 <= wday < 7,
        shift == (7 + wday - first % 7) % 7,
    ensures
        (first + shift + (n - 1) * 7) % 7 == wday,
        0 <= shift < 7,
{
}

/// The day on which a month's `n`-th given weekday falls (Sunday being 0).
pub fn nth_weekday(year: i32, month: u32, wday: u32, n: u32) -> (r: i32)
    requires
        MIN_YEAR <= year <= MAX_YEAR,
        1 <= month <= 12,
        wday < 7,
        1 <= n <= 4,
        is_day(civil_day(year as int, month as int, 1)),
    ensures
        is_nth_weekday(year as int, month as int, wday as int, n as int, r as int),
{
    let first = match day_of(year, month, 1) {
        Some(d) => d,
        None => 0,
    };
    let start: u32 = day_of_week(first);
    let shift: u32 = (7 + wday - start) % 7;
    proof {
        lemma_shift(first as int, wday as int, shift as int, n as int);
    }
    first + shift as i32 + (n as i32 - 1) * 7
}

/// The second of a day at which the given hour begins, in nanoseconds.
pub open spec fn hour_nanos(h: int) -> int {
    h * 3_600 * SECOND
}

/// Whether US Eastern daylight time holds in `year` at the UTC instant `t`: from
/// 07:00 UTC on the second Sunday of March to 06:00 UTC on the first Sunday of
/// November.
pub open spec fn dst_in_year(year: int, t: ClockTime) -> bool {
    exists|start: int, end: int|
        {
            &&& is_nth_weekday(year, 3, 0, 2, start)
            &&& is_nth_weekday(year, 11, 0, 1, end)
            &&& start * DAY + hour_nanos(7) <= t.instant() < end * DAY + hour_nanos(6)
        }
}

/// Whether a UTC instant falls in US Eastern daylight time.
pub open spec fn us_dst(t: ClockTime) -> bool {
    dst_in_year(year_of(t.day as int), t)
}

/// Whether a UTC instant falls in US Eastern daylight time (four hours behind
/// UTC); otherwise standard time holds, five hours behind.
pub fn is_us_dst(utc: ClockTime) -> (r: bool)
    requires
        is_day(utc.day as int),
    ensures
        r == us_dst(utc),
{
    let y: i32 = day_year(utc.day);
    proof {
        lemma_spring_and_autumn(y as int, utc.day as int);
    }
    let start: i32 = nth_weekday(y, 3, 0, 2);
    let end: i32 = nth_weekday(y, 11, 0, 1);
    let spring = ClockTime { day: start, nanos: 25_200_000_000_000 };
    let autumn = ClockTime { day: end, nanos: 21_600_000_000_000 };
    let r = utc.since(spring) >= 0 && utc.since(autumn) < 0;
    proof {
        assert(spring.instant() == start * DAY + hour_nanos(7));
        assert(autumn.instant() == end * DAY + hour_nanos(6));
        if us_dst(utc) {
            let (s, e) = choose|s: int, e: int|
                {
                    &&& is_nth_weekday(y as int, 3, 0, 2, s)
                    &&& is_nth_weekday(y as int, 11, 0, 1, e)
                    &&& s * DAY + hour_nanos(7) <= utc.instant() < e * DAY + hour_nanos(6)
                };
            assert(s == start);
            assert(e == end);
        }
    }
    r
}

proof fn lemma_spring_and_autumn(y: int, day: int)
    requires
        is_day(day),
        MIN_YEAR <= y <= MAX_YEAR,
        civil_day(y, 1, 1) <= day < civil_day(y + 1, 1, 1),
    ensures
        is_day(civil_day(y, 3, 1)),
        is_day(civil_day(y, 11, 1)),
{
    reveal(civil_day);
}

/// The US Eastern clock time at a UTC instant.
pub open spec fn eastern(t: ClockTime) -> ClockTime {
    let behind = if us_dst(t) {
        hour_nanos(4)
    } else {
        hour_nanos(5)
    };
    if t.nanos >= behind {
        ClockTime { day: t.day, nanos: (t.nanos - behind) as u64 }
    } else {
        ClockTime { day: (t.day - 1) as i32, nanos: (t.nanos + DAY - behind) as u64 }
    }
}

/// The US Eastern clock time at a UTC instant.
pub fn eastern_wall(utc: ClockTime) -> (r: ClockTime)
    requires
        is_day(utc.day as int),
        utc.day > MIN_DAY,
        utc.nanos < DAY + SECOND,
    ensures
        r == eastern(utc),
        is_day(r.day as int),
        r.wf(),
        r.instant() == utc.instant() - (if us_dst(utc) {
            hour_nanos(4)
        } else {
            hour_nanos(5)
        }),
{
    let behind: u64 = if is_us_dst(utc) {
        14_400_000_000_000
    } else {
        18_000_000_000_000
    };
    if utc.nanos >= behind {
        ClockTime { day: utc.day, nanos: utc.nanos - behind }
    } else {
        ClockTime { day: utc.day - 1, nanos: utc.nanos + 86_400_000_000_000 - behind }
    }
}

/// Whole minutes gone of the day.
pub open spec fn minute_of_day(t: ClockTime) -> int {
    t.nanos as int / (60 * SECOND as int)
}

/// Minutes since the open where `t` (Eastern time) lies in a regular session: a
/// weekday, 09:30 to 16:00 to the minute.
pub open spec fn session_minute(t: ClockTime) -> Option<int> {
    let m = minute_of_day(t);
    if 1 <= weekday(t.day as int) <= 5 && OPEN_MINUTES <= m <= CLOSE_MINUTES {
        Some(m - OPEN_MINUTES)
    } else {
        None
    }
}

/// Minutes since the 09:30 open where `et` lies in the regular session of a
/// weekday, `None` otherwise.
pub fn minutes_since_open(et: ClockTime) -> (r: Option<i64>)
    requires
        is_day(et.day as int),
        et.wf(),
    ensures
        r is Some <==> session_minute(et) is Some,
        r is Some ==> r->0 == session_minute(et)->0,
{
    let w: u32 = day_of_week(et.day);
    if w == 0 || w == 6 {
        return None;
    }
    let mins: i64 = (et.nanos / 60_000_000_000) as i64;
    if OPEN_MINUTES <= mins && mins <= CLOSE_MINUTES {
        Some(mins - OPEN_MINUTES)
    } else {
        None
    }
}

/// Whether a slot is due: in the session, at or past its entry offset, and
/// either not entered today or, where it re-enters, no sooner than its interval
/// after the last entry.
pub open spec fn entry_due(
    now: ClockTime,
    entry_minutes: int,
    interval: int,
    last: Option<ClockTime>,
) -> bool {
    &&& session_minute(now) is Some
    &&& session_minute(now)->0 >= entry_minutes
    &&& match last {
        None => true,
        Some(l) => interval > 0 && now.instant() - l.instant() >= interval * 60 * SECOND,
    }
}

/// Whether a slot should open a new position now.
pub fn should_enter(
    now_et: ClockTime,
    entry_minutes: i64,
    meic_interval: i64,
    last_entry_today: Option<ClockTime>,
) -> (r: bool)
    requires
        is_day(now_et.day as int),
        now_et.wf(),
    ensures
        r == entry_due(now_et, entry_minutes as int, meic_interval as int, last_entry_today),
{
    let since_open = match minutes_since_open(now_et) {
        Some(m) => m,
        None => {
            return false;
        },
    };
    if since_open < entry_minutes {
        return false;
    }
    match last_entry_today {
        None => true,
        Some(last) => {
            meic_interval > 0 && now_et.since(last) >= meic_interval as i128 * 60_000_000_000
        },
    }
}

/// Whether the second of the day `stop` is reached; never where there is none.
pub open spec fn stop_reached(now: ClockTime, stop: Option<int>) -> bool {
    match stop {
        Some(s) => now.nanos >= s * SECOND,
        None => false,
    }
}

/// Whether a clock time has reached a second of the day.
pub fn past_second(now_et: ClockTime, stop: Option<u32>) -> (r: bool)
    ensures
        r == stop_reached(
            now_et,
            match stop {
                Some(s) => Some(s as int),
                None => None,
            },
        ),
{
    match stop {
        Some(s) => now_et.nanos >= s as u64 * 1_000_000_000,
        None => false,
    }
}

/// Whether `now_et` has reached the time-stop `hhmm` (`HH:MM`, Eastern time). A
/// text that is no time never triggers.
pub fn past_time_stop(now_et: ClockTime, hhmm: &str) -> (r: bool)
    ensures
        r == stop_reached(now_et, second_of_clock(hhmm@)),
{
    past_second(now_et, parse_clock(hhmm))
}

/// Whether a position's loss, the cost to close it less the credit it brought,
/// has reached `mult` millionths of the credit. A `mult` of zero never triggers.
pub open spec fn stop_hit(cost: int, credit: int, mult: int) -> bool {
    mult > 0 && (cost - credit) * SCALE >= mult * credit
}

/// Whether the stop-loss of an open position has triggered.
pub fn stop_triggered(cost_to_close: i64, entry_credit: i64, stop_mult: i64) -> (r: bool)
    ensures
        r == stop_hit(cost_to_close as int, entry_credit as int, stop_mult as int),
{
    let loss: i128 = cost_to_close as i128 - entry_credit as i128;
    let m: i128 = stop_mult as i128;
    let c: i128 = entry_credit as i128;
    proof {
        assert(-0x4000_0000_0000_0000_0000_0000_0000_0000 <= m * c
            <= 0x4000_0000_0000_0000_0000_0000_0000_0000) by (nonlinear_arith)
            requires
                -0x8000_0000_0000_0000 <= m <= 0x7fff_ffff_ffff_ffff,
                -0x8000_0000_0000_0000 <= c <= 0x7fff_ffff_ffff_ffff,
        ;
    }
    stop_mult > 0 && loss * 1_000_000 >= m * c
}

/// A time outside the regular session is never an entry time, and neither is a
/// time at which a slot that enters once a day has already entered.
pub proof fn law_no_entry_outside_session(
    now: ClockTime,
    entry_minutes: int,
    interval: int,
    last: Option<ClockTime>,
)
    ensures
        session_minute(now) is None ==> !entry_due(now, entry_minutes, interval, last),
        last is Some && interval <= 0 ==> !entry_due(now, entry_minutes, interval, last),
{
}

/// Once a time-stop is reached it stays reached for the rest of the day.
pub proof fn law_time_stop_stays(now: ClockTime, later: ClockTime, stop: Option<int>)
    requires
        now.day == later.day,
        now.instant() <= later.instant(),
        stop_reached(now, stop),
    ensures
        stop_reached(later, stop),
{
}

} // verus!
