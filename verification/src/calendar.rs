//! The proleptic Gregorian calendar: converting a count of days since
//! 1970-01-01 into a year, month and day.

use vstd::prelude::*;
use crate::text::{dec_padded, push_char, push_padded};
use vstd::arithmetic::div_mod::{lemma_hoist_over_denominator, lemma_mod_multiples_vanish};

verus! {

/// Whether `y` is a leap year: divisible by 4, and not by 100 unless also by
/// 400.
pub open spec fn is_leap_year(y: int) -> bool {
    (y % 4 == 0 && y % 100 != 0) || y % 400 == 0
}

/// The number of days in month `m` (1 = January) of year `y`.
pub open spec fn days_in_month(y: int, m: int) -> int {
    if m == 2 {
        if is_leap_year(y) {
            29
        } else {
            28
        }
    } else if m == 4 || m == 6 || m == 9 || m == 11 {
        30
    } else {
        31
    }
}

/// Whether `(y, m, d)` names a day of the calendar.
pub open spec fn valid_date(y: int, m: int, d: int) -> bool {
    1 <= m <= 12 && 1 <= d <= days_in_month(y, m)
}

/// The number of leap years among the years `1 ..= y - 1` (for `y < 1`, the
/// negated count of leap years among `y ..= 0`), so that consecutive values
/// differ by one exactly at leap years.
pub open spec fn leap_years_before(y: int) -> int {
    (y - 1) / 4 - (y - 1) / 100 + (y - 1) / 400
}

/// Days in the months before month `m` in a common year.
pub open spec fn common_days_before_month(m: int) -> int {
    if m <= 1 {
        0
    } else if m == 2 {
        31
    } else if m == 3 {
        59
    } else if m == 4 {
        90
    } else if m == 5 {
        120
    } else if m == 6 {
        151
    } else if m == 7 {
        181
    } else if m == 8 {
        212
    } else if m == 9 {
        243
    } else if m == 10 {
        273
    } else if m == 11 {
        304
    } else {
        334
    }
}

/// Days of year `y` before the first of month `m`.
pub open spec fn days_before_month(y: int, m: int) -> int {
    common_days_before_month(m) + if m > 2 && is_leap_year(y) {
        1int
    } else {
        0int
    }
}

/// The number of days from 1970-01-01 to the date `(y, m, d)` (negative
/// before 1970).
pub open spec fn days_from_epoch(y: int, m: int, d: int) -> int {
    365 * (y - 1970) + (leap_years_before(y) - leap_years_before(1970)) + days_before_month(y, m)
        + d - 1
}

/// The calendar date that lies `days` days after 1970-01-01 (each day count
/// has exactly one, see `lemma_date_unique`).
pub open spec fn date_of_day(days: int) -> (int, int, int) {
    choose|t: (int, int, int)| valid_date(t.0, t.1, t.2) && days_from_epoch(t.0, t.1, t.2) == days
}

/// The largest day count that the conversion accepts: beyond it the shifted
/// day count no longer fits in an `i64`.
pub open spec fn max_days() -> int {
    i64::MAX - 719_468
}

// The conversion counts days from 0000-03-01, so that each year ends with the
// possible leap day, and splits them into 400-year eras of 146,097 days.

proof fn lemma_era_year(doe: u32, yoe: u32)
    by (bit_vector)
    requires
        doe < 146097,
        yoe == (doe - doe / 1460 + doe / 36524 - doe / 146096) / 365,
    ensures
        yoe < 400,
        365 * yoe + yoe / 4 - yoe / 100 <= doe,
        doe - (365 * yoe + yoe / 4 - yoe / 100) <= 365,
        doe - (365 * yoe + yoe / 4 - yoe / 100) <= 364 || yoe % 4 == 3,
        doe - (365 * yoe + yoe / 4 - yoe / 100) <= 364 || yoe % 100 < 99 || yoe == 399,
{
}

proof fn lemma_year_month(doy: int, mp: int, ms: int, next: int)
    requires
        0 <= doy <= 365,
        mp == (5 * doy + 2) / 153,
        ms == (153 * mp + 2) / 5,
        next == (153 * mp + 155) / 5,
    ensures
        0 <= mp <= 11,
        ms <= doy,
        mp < 11 || doy - ms <= 27 || doy == 365,
        mp == 11 || doy < next,
{
}

/// Leap years repeat every 400 years, and an era of 400 years holds 97 of
/// them.
proof fn lemma_era_shift(e: int, k: int)
    requires
        e >= 0,
    ensures
        is_leap_year(400 * e + k) == is_leap_year(k),
        leap_years_before(400 * e + k) == 97 * e + leap_years_before(k),
{
    lemma_mod_multiples_vanish(100 * e, k, 4);
    lemma_mod_multiples_vanish(4 * e, k, 100);
    lemma_mod_multiples_vanish(e, k, 400);
    assert(4 * (100 * e) + k == 400 * e + k);
    assert(100 * (4 * e) + k == 400 * e + k);
    lemma_hoist_over_denominator(k - 1, 100 * e, 4);
    lemma_hoist_over_denominator(k - 1, 4 * e, 100);
    lemma_hoist_over_denominator(k - 1, e, 400);
    assert((k - 1) + (100 * e) * 4 == 400 * e + k - 1);
    assert((k - 1) + (4 * e) * 100 == 400 * e + k - 1);
    assert((k - 1) + e * 400 == 400 * e + k - 1);
}

/// Within the first era, the leap years up to and including year `k` number
/// `k / 4 - k / 100`.
proof fn lemma_leaps_through(k: int)
    requires
        0 <= k < 400,
    ensures
        leap_years_before(k) + (if is_leap_year(k) { 1int } else { 0int }) == k / 4 - k / 100,
        leap_years_before(k + 1) == k / 4 - k / 100,
{
    if k == 0 {
        assert(leap_years_before(0) == -1);
    } else {
        assert(k / 4 - (k - 1) / 4 == if k % 4 == 0 { 1int } else { 0int });
        assert(k / 100 - (k - 1) / 100 == if k % 100 == 0 { 1int } else { 0int });
        assert((k - 1) / 400 == 0);
    }
}

/// The date that Howard Hinnant's day-count algorithm computes is a valid
/// date and lies exactly `days` days after 1970-01-01.
proof fn lemma_civil_date(
    days: int,
    era: int,
    doe: int,
    yoe: int,
    doy: int,
    mp: int,
    ms: int,
    y: int,
    m: int,
    d: int,
)
    requires
        0 <= days <= max_days(),
        era == (days + 719_468) / 146_097,
        doe == days + 719_468 - era * 146_097,
        yoe == (doe - doe / 1460 + doe / 36524 - doe / 146096) / 365,
        doy == doe - (365 * yoe + yoe / 4 - yoe / 100),
        mp == (5 * doy + 2) / 153,
        ms == (153 * mp + 2) / 5,
        d == doy - ms + 1,
        m == if mp < 10 { mp + 3 } else { mp - 9 },
        y == yoe + era * 400 + if m <= 2 { 1int } else { 0int },
    ensures
        valid_date(y, m, d),
        days_from_epoch(y, m, d) == days,
{
    assert(0 <= doe < 146097);
    lemma_era_year(doe as u32, yoe as u32);
    lemma_year_month(doy, mp, ms, (153 * mp + 155) / 5);
    assert(leap_years_before(1970) == 477);
    if m >= 3 {
        lemma_era_shift(era, yoe);
        lemma_leaps_through(yoe);
        assert(common_days_before_month(m) == ms + 59) by {
            if mp == 0 {} else if mp == 1 {} else if mp == 2 {} else if mp == 3 {}
            else if mp == 4 {} else if mp == 5 {} else if mp == 6 {} else if mp == 7 {}
            else if mp == 8 {} else {}
        }
        assert(d <= days_in_month(y, m)) by {
            if mp == 0 {} else if mp == 1 {} else if mp == 2 {} else if mp == 3 {}
            else if mp == 4 {} else if mp == 5 {} else if mp == 6 {} else if mp == 7 {}
            else if mp == 8 {} else {}
        }
    } else {
        lemma_era_shift(era, yoe + 1);
        lemma_leaps_through(yoe);
        assert(common_days_before_month(m) + 306 == ms) by {
            if mp == 10 {} else {}
        }
        assert(d <= days_in_month(y, m)) by {
            if mp == 10 {
            } else {
                if doy == 365 {
                    assert(is_leap_year(yoe + 1));
                }
            }
        }
    }
}

/// Consecutive years start 365 days apart, or 366 after a leap year.
proof fn lemma_year_step(y: int)
    ensures
        days_from_epoch(y + 1, 1, 1) - days_from_epoch(y, 1, 1) == 365 + if is_leap_year(y) {
            1int
        } else {
            0int
        },
{
    lemma_fundamental_div_mod_converse_steps(y);
}

proof fn lemma_fundamental_div_mod_converse_steps(y: int)
    ensures
        y / 4 - (y - 1) / 4 == if y % 4 == 0 { 1int } else { 0int },
        y / 100 - (y - 1) / 100 == if y % 100 == 0 { 1int } else { 0int },
        y / 400 - (y - 1) / 400 == if y % 400 == 0 { 1int } else { 0int },
{
}

/// Later years start later.
proof fn lemma_year_order(y1: int, y2: int)
    requires
        y1 < y2,
    ensures
        days_from_epoch(y1 + 1, 1, 1) <= days_from_epoch(y2, 1, 1),
    decreases y2 - y1,
{
    if y1 + 1 < y2 {
        lemma_year_order(y1, y2 - 1);
        lemma_year_step(y2 - 1);
    }
}

/// A valid date lies within its year.
proof fn lemma_within_year(y: int, m: int, d: int)
    requires
        valid_date(y, m, d),
    ensures
        days_from_epoch(y, 1, 1) <= days_from_epoch(y, m, d) < days_from_epoch(y + 1, 1, 1),
{
    lemma_year_step(y);
}

/// Two valid dates on the same day count are the same date.
pub proof fn lemma_date_unique(y1: int, m1: int, d1: int, y2: int, m2: int, d2: int)
    requires
        valid_date(y1, m1, d1),
        valid_date(y2, m2, d2),
        days_from_epoch(y1, m1, d1) == days_from_epoch(y2, m2, d2),
    ensures
        y1 == y2 && m1 == m2 && d1 == d2,
{
    lemma_within_year(y1, m1, d1);
    lemma_within_year(y2, m2, d2);
    if y1 < y2 {
        lemma_year_order(y1, y2);
    } else if y2 < y1 {
        lemma_year_order(y2, y1);
    }
    assert(y1 == y2);
    assert(m1 == m2) by {
        if m1 < m2 {
            assert(days_before_month(y1, m1) + d1 <= days_before_month(y1, m2));
        } else if m2 < m1 {
            assert(days_before_month(y1, m2) + d2 <= days_before_month(y1, m1));
        }
    }
}

/// The date that `date_of_day` names is the one the conversion found.
proof fn lemma_date_of_day(days: int, y: int, m: int, d: int)
    requires
        valid_date(y, m, d),
        days_from_epoch(y, m, d) == days,
    ensures
        date_of_day(days) == (y, m, d),
{
    let w = (y, m, d);
    assert(valid_date(w.0, w.1, w.2) && days_from_epoch(w.0, w.1, w.2) == days);
    let t = date_of_day(days);
    assert(valid_date(t.0, t.1, t.2) && days_from_epoch(t.0, t.1, t.2) == days);
    lemma_date_unique(t.0, t.1, t.2, y, m, d);
}

/// The calendar day after the date `(y, m, d)`.
pub open spec fn next_date(y: int, m: int, d: int) -> (int, int, int) {
    if d < days_in_month(y, m) {
        (y, m, d + 1)
    } else if m < 12 {
        (y, m + 1, 1)
    } else {
        (y + 1, 1, 1)
    }
}

/// From 1970 on, each year starts at least 365 days after the one before.
proof fn lemma_year_start_bound(y: int)
    requires
        y >= 1970,
    ensures
        days_from_epoch(y, 1, 1) >= 365 * (y - 1970),
    decreases y - 1970,
{
    if y > 1970 {
        lemma_year_start_bound(y - 1);
        lemma_year_step(y - 1);
    }
}

/// The year of a day count `n >= 0` lies between 1970 and `1970 + n / 365`.
proof fn lemma_year_range(y: int, m: int, d: int)
    requires
        valid_date(y, m, d),
        days_from_epoch(y, m, d) >= 0,
    ensures
        1970 <= y <= 1970 + days_from_epoch(y, m, d) / 365,
{
    lemma_within_year(y, m, d);
    if y < 1970 {
        lemma_year_order(y, 1970);
        assert(days_from_epoch(1970, 1, 1) == 0);
    }
    lemma_year_start_bound(y);
}

/// The day after a valid date is a valid date, one day count later.
proof fn lemma_next_date(y: int, m: int, d: int)
    requires
        valid_date(y, m, d),
    ensures
        valid_date(next_date(y, m, d).0, next_date(y, m, d).1, next_date(y, m, d).2),
        days_from_epoch(next_date(y, m, d).0, next_date(y, m, d).1, next_date(y, m, d).2)
            == days_from_epoch(y, m, d) + 1,
{
    if d < days_in_month(y, m) {
    } else if m < 12 {
        assert(days_before_month(y, m + 1) == days_before_month(y, m) + days_in_month(y, m)) by {
            if m == 1 {} else if m == 2 {} else if m == 3 {} else if m == 4 {}
            else if m == 5 {} else if m == 6 {} else if m == 7 {} else if m == 8 {}
            else if m == 9 {} else if m == 10 {} else {}
        }
    } else {
        lemma_year_step(y);
    }
}

/// Every day count from 1970-01-01 up to `max_days()` has its date.
proof fn lemma_date_exists(days: int)
    requires
        0 <= days <= max_days(),
    ensures
        valid_date(date_of_day(days).0, date_of_day(days).1, date_of_day(days).2),
        days_from_epoch(date_of_day(days).0, date_of_day(days).1, date_of_day(days).2) == days,
{
    let era = (days + 719_468) / 146_097;
    let doe = days + 719_468 - era * 146_097;
    let yoe = (doe - doe / 1460 + doe / 36524 - doe / 146096) / 365;
    let doy = doe - (365 * yoe + yoe / 4 - yoe / 100);
    let mp = (5 * doy + 2) / 153;
    let ms = (153 * mp + 2) / 5;
    let d = doy - ms + 1;
    let m = if mp < 10 { mp + 3 } else { mp - 9 };
    let y = yoe + era * 400 + if m <= 2 { 1int } else { 0int };
    lemma_civil_date(days, era, doe, yoe, doy, mp, ms, y, m, d);
    lemma_date_of_day(days, y, m, d);
}

/// Law: the day count after `days` names the calendar day after the date of
/// `days`, so consecutive day counts walk the calendar one day at a time.
pub proof fn lemma_next_day(days: int)
    requires
        0 <= days < max_days(),
    ensures
        date_of_day(days + 1) == next_date(
            date_of_day(days).0,
            date_of_day(days).1,
            date_of_day(days).2,
        ),
{
    lemma_date_exists(days);
    let t = date_of_day(days);
    lemma_next_date(t.0, t.1, t.2);
    let n = next_date(t.0, t.1, t.2);
    lemma_date_of_day(days + 1, n.0, n.1, n.2);
}

/// The date `days` days after 1970-01-01, with the year as a full integer.
pub fn civil_date(days: u64) -> (r: (i64, u32, u32))
    requires
        days <= max_days(),
    ensures
        valid_date(r.0 as int, r.1 as int, r.2 as int),
        days_from_epoch(r.0 as int, r.1 as int, r.2 as int) == days,
        date_of_day(days as int) == (r.0 as int, r.1 as int, r.2 as int),
        1970 <= r.0 <= 1970 + days / 365,
{
    let z: i64 = days as i64 + 719_468;
    let era: i64 = if z >= 0 {
        z
    } else {
        z - 146_096
    } / 146_097;
    let doe = (z - era * 146_097) as u32;
    proof {
        lemma_era_year(doe, ((doe - doe / 1460 + doe / 36524 - doe / 146_096) / 365) as u32);
    }
    let yoe = (doe - doe / 1460 + doe / 36524 - doe / 146_096) / 365;
    let y: i64 = yoe as i64 + era * 400;
    let doy = doe - (365 * yoe + yoe / 4 - yoe / 100);
    let mp = (5 * doy + 2) / 153;
    proof {
        lemma_year_month(doy as int, mp as int, (153 * mp + 2) / 5, (153 * mp + 155) / 5);
    }
    let d = doy - (153 * mp + 2) / 5 + 1;
    let m = if mp < 10 {
        mp + 3
    } else {
        mp - 9
    };
    let y = if m <= 2 {
        y + 1
    } else {
        y
    };
    proof {
        lemma_civil_date(
            days as int,
            era as int,
            doe as int,
            yoe as int,
            doy as int,
            mp as int,
            (153 * mp + 2) / 5,
            y as int,
            m as int,
            d as int,
        );
        lemma_date_of_day(days as int, y as int, m as int, d as int);
        lemma_year_range(y as int, m as int, d as int);
    }
    (y, m, d)
}

/// Converts a count of days since 1970-01-01 into `(year, month, day)`,
/// the year narrowed to an `i32` (it wraps around past `i32::MAX`).
pub fn days_to_ymd(days: u64) -> (r: (i32, u32, u32))
    requires
        days <= max_days(),
    ensures
        r.0 == #[verifier::truncate] (date_of_day(days as int).0 as i32),
        r.1 == date_of_day(days as int).1,
        r.2 == date_of_day(days as int).2,
        1970 <= date_of_day(days as int).0 <= 1970 + days / 365,
        days <= 100_000_000_000 ==> r.0 as int == date_of_day(days as int).0,
{
    let (y, m, d) = civil_date(days);
    (#[verifier::truncate] (y as i32), m, d)
}

/// A year as `format!("{:04}")` writes an `i32`: at least four digits, and
/// for a negative year a minus sign followed by at least three.
pub open spec fn year_text(y: i32) -> Seq<char> {
    if y >= 0 {
        dec_padded(y as nat, 4)
    } else {
        seq!['-'] + dec_padded((-(y as int)) as nat, 3)
    }
}

/// The ISO 8601 UTC timestamp `YYYY-MM-DDTHH:MM:SS.mmmZ` of the instant
/// `secs` seconds and `millis` milliseconds after 1970-01-01T00:00:00Z.
pub open spec fn timestamp_text(secs: nat, millis: nat) -> Seq<char> {
    let days = secs / 86400;
    let rest = secs % 86400;
    let date = date_of_day(days as int);
    year_text(#[verifier::truncate] (date.0 as i32)) + seq!['-'] + dec_padded(date.1 as nat, 2)
        + seq!['-'] + dec_padded(date.2 as nat, 2) + seq!['T'] + dec_padded(rest / 3600, 2)
        + seq![':'] + dec_padded((rest % 3600) / 60, 2) + seq![':'] + dec_padded(rest % 60, 2)
        + seq!['.'] + dec_padded(millis, 3) + seq!['Z']
}

/// Formats the instant `secs` seconds and `millis` milliseconds after the
/// Unix epoch as `YYYY-MM-DDTHH:MM:SS.mmmZ` (UTC).
pub fn format_utc_timestamp(secs: u64, millis: u32) -> (t: String)
    ensures
        t@ == timestamp_text(secs as nat, millis as nat),
{
    let days = secs / 86400;
    let rest = secs % 86400;
    assert(days <= max_days());
    let (year, month, day) = days_to_ymd(days);
    let mut t = String::new();
    if year >= 0 {
        push_padded(&mut t, year as u128, 4);
    } else {
        push_char(&mut t, '-');
        let magnitude: i64 = -(year as i64);
        push_padded(&mut t, magnitude as u128, 3);
    }
    push_char(&mut t, '-');
    push_padded(&mut t, month as u128, 2);
    push_char(&mut t, '-');
    push_padded(&mut t, day as u128, 2);
    push_char(&mut t, 'T');
    push_padded(&mut t, (rest / 3600) as u128, 2);
    push_char(&mut t, ':');
    push_padded(&mut t, ((rest % 3600) / 60) as u128, 2);
    push_char(&mut t, ':');
    push_padded(&mut t, (rest % 60) as u128, 2);
    push_char(&mut t, '.');
    push_padded(&mut t, millis as u128, 3);
    push_char(&mut t, 'Z');
    assert(t@ =~= timestamp_text(secs as nat, millis as nat));
    t
}

} // verus!
