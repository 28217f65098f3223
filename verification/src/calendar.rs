//! Civil calendar arithmetic on unix seconds and the America/New_York clock
//! (US Eastern daylight-saving rules), used for the 09:30 cash-open preset.
use vstd::prelude::*;

verus! {

/// Seconds in one civil day.
pub const SECONDS_PER_DAY: i64 = 86_400;

/// Earliest instant handled by the calendar helpers: day -784350963900 counted from
/// 0000-03-01, the first day of 400-year era -5368700.
///
/// The calendar's years are `i32`, and an era of 400 years times 400 must stay an `i32`
/// too: beyond about 5368709 eras on either side that product overflows. The span kept
/// here, eras -5368700..5368700 (years within about ±2147480000), stays a few eras inside
/// that machine limit, so every intermediate value is proved free of overflow.
pub const MIN_CALENDAR_TS: i64 = -67_767_985_442_995_200;

/// Latest instant handled by the calendar helpers: the last second of era 5368699 (see
/// `MIN_CALENDAR_TS`).
pub const MAX_CALENDAR_TS: i64 = 67_767_861_118_924_799;

/// Bound on the years the calendar gives and takes: `-MAX_CALENDAR_YEAR..=MAX_CALENDAR_YEAR`.
pub const MAX_CALENDAR_YEAR: i32 = 2_147_480_400;

/// Earliest instant accepted by the New York helpers: four eras and a day inside the
/// calendar span, so that the offset lookups around the instant (the DST window of its
/// year, the local day, 09:30 on that day) stay inside `MIN_CALENDAR_TS..=MAX_CALENDAR_TS`.
pub const MIN_NY_TS: i64 = -67_767_934_951_785_600;

/// Latest instant accepted by the New York helpers (see `MIN_NY_TS`).
pub const MAX_NY_TS: i64 = 67_767_810_627_715_199;

/// Bound on the New York calendar years of instants in `MIN_NY_TS..=MAX_NY_TS`.
pub const MAX_NY_YEAR: i32 = 2_147_478_800;

/// Eastern standard time, seconds east of UTC.
pub const EST_OFFSET: i32 = -18_000;

/// Eastern daylight time, seconds east of UTC.
pub const EDT_OFFSET: i32 = -14_400;

/// Day number (days since 1970-01-01) of the civil date `y-m-d` in the
/// proleptic Gregorian calendar (400-year eras of 146097 days, March-based years).
#[verifier::opaque]
pub open spec fn days_from_civil(y: int, m: int, d: int) -> int {
    let yy = if m <= 2 { y - 1 } else { y };
    let era = (if yy >= 0 { yy } else { yy - 399 }) / 400;
    let yoe = yy - era * 400;
    let mp = if m > 2 { m - 3 } else { m + 9 };
    let doy = (153 * mp + 2) / 5 + d - 1;
    let doe = yoe * 365 + yoe / 4 - yoe / 100 + doy;
    era * 146097 + doe - 719468
}

/// Unix seconds of civil date `y-m-d` at `h:mi:s` read as UTC.
pub open spec fn unix_seconds(y: int, m: int, d: int, h: int, mi: int, s: int) -> int {
    days_from_civil(y, m, d) * 86400 + h * 3600 + mi * 60 + s
}

/// Civil date `(year, month, day)` of day number `z` (inverse of `days_from_civil` from
/// 0000-03-01 on). The era of a day before 0000-03-01 is taken one step further down
/// (`zz - 146096` floored), as the terminal's arithmetic does; such days come out one day
/// later than the proleptic Gregorian date, and `days_from_civil` takes the same step.
#[verifier::opaque]
pub open spec fn civil_from_days(z: int) -> (int, int, int) {
    let zz = z + 719468;
    let era = (if zz >= 0 { zz } else { zz - 146096 }) / 146097;
    let doe = zz - era * 146097;
    let yoe = (doe - doe / 1460 + doe / 36524 - doe / 146096) / 365;
    let doy = doe - (365 * yoe + yoe / 4 - yoe / 100);
    let mp = (5 * doy + 2) / 153;
    let d = doy - (153 * mp + 2) / 5 + 1;
    let m = if mp < 10 { mp + 3 } else { mp - 9 };
    let y = yoe + era * 400 + if m <= 2 { 1int } else { 0int };
    (y, m, d)
}

/// Weekday (0 = Sunday) of day number `days`; 1970-01-01 was a Thursday.
pub open spec fn weekday_of_day(days: int) -> int {
    (days + 4) % 7
}

/// Day of month of the `n`-th weekday `wd` (0 = Sunday) of month `m` in year `y`,
/// or 1 when that day would not fall on days 1..=31.
pub open spec fn nth_weekday_dom(y: int, m: int, wd: int, n: int) -> int {
    let w1 = weekday_of_day(days_from_civil(y, m, 1));
    let first = 1 + (wd - w1 + 7) % 7;
    let day = first + 7 * (n - 1);
    if 1 <= n && day <= 31 {
        day
    } else {
        1
    }
}

/// Instant of the `n`-th weekday `wd` of month `m`, year `y`, at local `h:mi`
/// on a clock running `off` seconds east of UTC.
pub open spec fn nth_weekday_instant(y: int, m: int, wd: int, n: int, h: int, mi: int, off: int) -> int {
    unix_seconds(y, m, nth_weekday_dom(y, m, wd, n), h, mi, 0) - off
}

/// Start of US Eastern daylight time in year `y`: second Sunday of March, 02:00 EST.
pub open spec fn ny_dst_start(y: int) -> int {
    nth_weekday_instant(y, 3, 0, 2, 2, 0, -18000)
}

/// End of US Eastern daylight time in year `y`: first Sunday of November, 02:00 EDT.
pub open spec fn ny_dst_end(y: int) -> int {
    nth_weekday_instant(y, 11, 0, 1, 2, 0, -14400)
}

/// America/New_York offset east of UTC at instant `ts` (EDT inside the DST window of
/// the year that contains `ts` on an EST clock, EST otherwise).
#[verifier::opaque]
pub open spec fn ny_offset(ts: int) -> int {
    let y = civil_from_days((ts - 18000) / 86400).0;
    if ny_dst_start(y) <= ts && ts < ny_dst_end(y) {
        -14400
    } else {
        -18000
    }
}

/// New York calendar date of instant `ts`.
pub open spec fn ny_date(ts: int) -> (int, int, int) {
    civil_from_days((ts + ny_offset(ts)) / 86400)
}

/// Instant of New York wall-clock `h:mi` on civil date `y-m-d`: the local time read
/// as UTC, corrected by the offset found at the corrected instant.
pub open spec fn local_ny_instant(y: int, m: int, d: int, h: int, mi: int) -> int {
    let g = unix_seconds(y, m, d, h, mi, 0);
    g - ny_offset(g - ny_offset(g))
}

/// 09:30 New York time on the New York calendar day that contains `ts`.
pub open spec fn cash_open_instant(ts: int) -> int {
    let (y, m, d) = ny_date(ts);
    local_ny_instant(y, m, d, 9, 30)
}

proof fn lemma_doe_bounds(doe: u64)
    by (bit_vector)
    requires
        doe <= 146096,
    ensures
        (doe - doe / 1460 + doe / 36524 - doe / 146096) / 365 <= 399,
        365 * ((doe - doe / 1460 + doe / 36524 - doe / 146096) / 365) + ((doe - doe / 1460
            + doe / 36524 - doe / 146096) / 365) / 4 - ((doe - doe / 1460 + doe / 36524 - doe
            / 146096) / 365) / 100 <= doe,
        doe - (365 * ((doe - doe / 1460 + doe / 36524 - doe / 146096) / 365) + ((doe - doe
            / 1460 + doe / 36524 - doe / 146096) / 365) / 4 - ((doe - doe / 1460 + doe / 36524
            - doe / 146096) / 365) / 100) <= 365,
{
}

#[verifier::spinoff_prover]
#[verifier::rlimit(60)]
proof fn lemma_doe_bounds_wide(doe: int)
    requires
        0 <= doe <= 292192,
    ensures
        (doe - doe / 1460 + doe / 36524 - doe / 146096) / 365 <= 799,
        365 * ((doe - doe / 1460 + doe / 36524 - doe / 146096) / 365) + ((doe - doe / 1460
            + doe / 36524 - doe / 146096) / 365) / 4 - ((doe - doe / 1460 + doe / 36524 - doe
            / 146096) / 365) / 100 <= doe,
        doe - (365 * ((doe - doe / 1460 + doe / 36524 - doe / 146096) / 365) + ((doe - doe
            / 1460 + doe / 36524 - doe / 146096) / 365) / 4 - ((doe - doe / 1460 + doe / 36524
            - doe / 146096) / 365) / 100) <= 366,
{
}

proof fn lemma_doy_bounds(doy: u64)
    by (bit_vector)
    requires
        doy <= 366,
    ensures
        (5 * doy + 2) / 153 <= 11,
        (153 * ((5 * doy + 2) / 153) + 2) / 5 <= doy,
        doy - (153 * ((5 * doy + 2) / 153) + 2) / 5 <= 30,
{
}

proof fn lemma_era_div(yoe: int, era: int)
    requires
        0 <= yoe < 400,
    ensures
        (yoe + era * 400) / 400 == era,
        (yoe + era * 400) - era * 400 == yoe,
{
    vstd::arithmetic::div_mod::lemma_div_multiples_vanish_fancy(era, yoe, 400);
}

/// Facts about `civil_from_days` on the calendar span: month in 1..=12, day in 1..=31, a
/// year within `MAX_CALENDAR_YEAR` either way, and within `MAX_NY_YEAR` four eras inside.
pub proof fn lemma_civil_from_days_bounds(z: int)
    requires
        -784350963900 <= z + 719468 <= 784350963899,
    ensures
        1 <= civil_from_days(z).1 <= 12,
        1 <= civil_from_days(z).2 <= 31,
        -2147480400 <= civil_from_days(z).0 <= 2147480400,
        -784350379512 <= z + 719468 < 784350379512 ==> -2147478800 <= civil_from_days(z).0
            <= 2147478800,
{
    reveal(civil_from_days);
    let zz = z + 719468;
    let w = if zz >= 0 { zz } else { zz - 146096 };
    let era = w / 146097;
    let doe = zz - era * 146097;
    assert(0 <= doe <= 292192);
    lemma_doe_bounds_wide(doe);
    let yoe = (doe - doe / 1460 + doe / 36524 - doe / 146096) / 365;
    let doy = doe - (365 * yoe + yoe / 4 - yoe / 100);
    lemma_doy_bounds(doy as u64);
    assert(-5368701 <= era <= 5368699);
    assert(zz >= 0 ==> yoe <= 399) by {
        if zz >= 0 {
            lemma_doe_bounds(doe as u64);
        }
    }
    assert(-784350379512 <= zz < 784350379512 ==> -5368697 <= era <= 5368695);
}

/// Round trip: the day number of the civil date of `z` is `z`.
pub proof fn lemma_civil_round_trip(z: int)
    requires
        z + 719468 >= 0,
    ensures
        days_from_civil(civil_from_days(z).0, civil_from_days(z).1, civil_from_days(z).2) == z,
        1 <= civil_from_days(z).1 <= 12,
        1 <= civil_from_days(z).2 <= 31,
{
    reveal(civil_from_days);
    reveal(days_from_civil);
    let zz = z + 719468;
    let era = zz / 146097;
    let doe = zz - era * 146097;
    assert(0 <= doe < 146097);
    lemma_doe_bounds(doe as u64);
    let yoe = (doe - doe / 1460 + doe / 36524 - doe / 146096) / 365;
    let doy = doe - (365 * yoe + yoe / 4 - yoe / 100);
    lemma_doy_bounds(doy as u64);
    let mp = (5 * doy + 2) / 153;
    let d = doy - (153 * mp + 2) / 5 + 1;
    let m = if mp < 10 { mp + 3 } else { mp - 9 };
    let y = yoe + era * 400 + if m <= 2 { 1int } else { 0int };
    assert(civil_from_days(z) == (y, m, d));
    let yy = if m <= 2 { y - 1 } else { y };
    assert(yy == yoe + era * 400);
    lemma_era_div(yoe, era);
    let mp2 = if m > 2 { m - 3 } else { m + 9 };
    assert(mp2 == mp);
}

/// Gregorian leap year: divisible by 4, and by 400 when divisible by 100.
pub open spec fn is_leap_year(y: int) -> bool {
    y % 4 == 0 && (y % 100 != 0 || y % 400 == 0)
}

/// Number of days of month `m` (1..=12) in year `y`.
pub open spec fn days_in_month(y: int, m: int) -> int {
    if m == 2 {
        if is_leap_year(y) {
            29
        } else {
            28
        }
    } else if m == 4 || m == 6 || m == 9 || m == 11 {
        30
    } else {
        31
    }
}

/// `y-m-d` names a day of the proleptic Gregorian calendar.
pub open spec fn valid_date(y: int, m: int, d: int) -> bool {
    1 <= m <= 12 && 1 <= d <= days_in_month(y, m)
}

#[verifier::spinoff_prover]
#[verifier::rlimit(60)]
proof fn lemma_year_of_era_inverse(yoe: int, doy: int)
    requires
        0 <= yoe <= 399,
        0 <= doy <= 365,
        doy == 365 ==> ((yoe + 1) % 4 == 0 && ((yoe + 1) % 100 != 0 || (yoe + 1) % 400 == 0)),
    ensures
        365 * yoe + yoe / 4 - yoe / 100 + doy <= 146096,
        ((365 * yoe + yoe / 4 - yoe / 100 + doy) - (365 * yoe + yoe / 4 - yoe / 100 + doy)
            / 1460 + (365 * yoe + yoe / 4 - yoe / 100 + doy) / 36524 - (365 * yoe + yoe / 4
            - yoe / 100 + doy) / 146096) / 365 == yoe,
{
}

proof fn lemma_day_of_year_inverse(mp: int, d: int)
    requires
        0 <= mp <= 11,
        1 <= d,
        (153 * mp + 2) / 5 + d <= (153 * (mp + 1) + 2) / 5,
    ensures
        (5 * ((153 * mp + 2) / 5 + d - 1) + 2) / 153 == mp,
        mp < 11 ==> (153 * mp + 2) / 5 + d - 1 <= 336,
{
}

/// Round trip: the civil date of the day number of a valid date `y-m-d` from 0000-03-01
/// on is `y-m-d`.
pub proof fn lemma_days_from_civil_round_trip(y: int, m: int, d: int)
    requires
        valid_date(y, m, d),
        y >= 1 || (y == 0 && m >= 3),
    ensures
        civil_from_days(days_from_civil(y, m, d)) == (y, m, d),
{
    reveal(civil_from_days);
    reveal(days_from_civil);
    let yy = if m <= 2 { y - 1 } else { y };
    assert(yy >= 0);
    let era = yy / 400;
    let yoe = yy - era * 400;
    let mp = if m > 2 { m - 3 } else { m + 9 };
    let doy = (153 * mp + 2) / 5 + d - 1;
    let doe = yoe * 365 + yoe / 4 - yoe / 100 + doy;
    assert(0 <= yoe < 400);
    assert(era >= 0);
    assert((153 * mp + 2) / 5 + d <= (153 * (mp + 1) + 2) / 5) by {
        if m == 2 {
            assert(mp == 11);
        }
    }
    lemma_day_of_year_inverse(mp, d);
    if doy == 365 {
        assert(m == 2 && d == 29);
        assert(is_leap_year(y));
        assert(y == 400 * era + (yoe + 1));
        vstd::arithmetic::div_mod::lemma_mod_multiples_vanish(era, yoe + 1, 4);
        vstd::arithmetic::div_mod::lemma_mod_multiples_vanish(era * 4, yoe + 1, 100);
        vstd::arithmetic::div_mod::lemma_mod_multiples_vanish(era, yoe + 1, 400);
        assert(400 * era == 4 * (100 * era));
        assert(400 * era == 100 * (era * 4));
        vstd::arithmetic::div_mod::lemma_mod_multiples_vanish(100 * era, yoe + 1, 4);
    }
    lemma_year_of_era_inverse(yoe, doy);
    let z = era * 146097 + doe - 719468;
    assert(days_from_civil(y, m, d) == z);
    vstd::arithmetic::div_mod::lemma_div_multiples_vanish_fancy(era, doe, 146097);
    assert((z + 719468) / 146097 == era);
}

/// Round trip through unix seconds: the UTC civil date of the instant of a valid date
/// `y-m-d` from 0000-03-01 on, at any time of day `h:mi:s`, is `y-m-d`; the epoch is
/// 1970-01-01 00:00:00.
pub proof fn lemma_unix_seconds_round_trip(y: int, m: int, d: int, h: int, mi: int, s: int)
    requires
        valid_date(y, m, d),
        y >= 1 || (y == 0 && m >= 3),
        0 <= h < 24,
        0 <= mi < 60,
        0 <= s < 60,
    ensures
        civil_from_days(unix_seconds(y, m, d, h, mi, s) / 86400) == (y, m, d),
        unix_seconds(1970, 1, 1, 0, 0, 0) == 0,
{
    let z = days_from_civil(y, m, d);
    let tod = h * 3600 + mi * 60 + s;
    assert(0 <= tod < 86400);
    vstd::arithmetic::div_mod::lemma_div_multiples_vanish_fancy(z, tod, 86400);
    assert(unix_seconds(y, m, d, h, mi, s) == 86400 * z + tod);
    lemma_days_from_civil_round_trip(y, m, d);
    assert(days_from_civil(1970, 1, 1) == 0) by {
        reveal(days_from_civil);
    }
}

/// Day `d` of a month is `d - 1` days after its first day.
pub proof fn lemma_days_from_civil_day_offset(y: int, m: int, d: int)
    ensures
        days_from_civil(y, m, d) == days_from_civil(y, m, 1) + d - 1,
{
    reveal(days_from_civil);
}

fn floor_div_day(ts: i64) -> (r: i64)
    ensures
        r == ts as int / 86400,
{
    match ts.checked_div_euclid(86_400) {
        Some(q) => q,
        None => 0,
    }
}

/// Weekday (0 = Sunday) of the civil day that contains `local_midnightish`.
pub fn unix_weekday(local_midnightish: i64) -> (r: u32)
    ensures
        r as int == weekday_of_day(local_midnightish as int / 86400),
        r < 7,
{
    let days = floor_div_day(local_midnightish);
    // 1970-01-01 was Thursday (4).
    let shifted = days + 4;
    let wd = match shifted.checked_rem_euclid(7) {
        Some(w) => w,
        None => 0,
    };
    wd as u32
}

/// Civil date `(year, month, day)` of instant `ts` (UTC calendar day).
pub fn unix_to_ymd(ts: i64) -> (r: (i32, u32, u32))
    requires
        MIN_CALENDAR_TS <= ts <= MAX_CALENDAR_TS,
    ensures
        r.0 as int == civil_from_days(ts as int / 86400).0,
        r.1 as int == civil_from_days(ts as int / 86400).1,
        r.2 as int == civil_from_days(ts as int / 86400).2,
        1 <= r.1 <= 12,
        1 <= r.2 <= 31,
        -MAX_CALENDAR_YEAR <= r.0 <= MAX_CALENDAR_YEAR,
{
    let z = floor_div_day(ts) + 719_468;
    proof {
        reveal(civil_from_days);
        lemma_civil_from_days_bounds(ts as int / 86400);
    }
    let era = match (if z >= 0 { z } else { z - 146_096 }).checked_div_euclid(146_097) {
        Some(e) => e,
        None => 0,
    };
    let doe_i = z - era * 146_097;
    assert(0 <= doe_i <= 292192);
    proof {
        lemma_doe_bounds_wide(doe_i as int);
    }
    let doe = doe_i as u32;
    let yoe = (doe - doe / 1460 + doe / 36524 - doe / 146_096) / 365;
    let doy = doe - (365 * yoe + yoe / 4 - yoe / 100);
    proof {
        lemma_doy_bounds(doy as u64);
    }
    let mp = (5 * doy + 2) / 153;
    let d = doy - (153 * mp + 2) / 5 + 1;
    let m = if mp < 10 { mp + 3 } else { mp - 9 };
    assert(-5368701 <= era <= 5368699);
    let y = yoe as i32 + era as i32 * 400;
    let y = if m <= 2 { y + 1 } else { y };
    (y, m, d)
}

/// Unix seconds of civil date `year-month-day` at `hour:minute:second` read as UTC.
pub fn ymd_hms_to_unix(year: i32, month: u32, day: u32, hour: u32, minute: u32, second: u32) -> (r: i64)
    requires
        -MAX_CALENDAR_YEAR <= year <= MAX_CALENDAR_YEAR,
        1 <= month <= 12,
        1 <= day <= 31,
        hour < 24,
        minute < 60,
        second < 60,
    ensures
        r as int == unix_seconds(year as int, month as int, day as int, hour as int, minute as int, second as int),
        -68_000_000_000_000_000 <= r <= 68_000_000_000_000_000,
{
    // Inverse of unix_to_ymd (days) + time of day, treating as UTC.
    proof {
        reveal(days_from_civil);
    }
    let y = if month <= 2 { year - 1 } else { year };
    let era = match (if y >= 0 { y } else { y - 399 }).checked_div_euclid(400) {
        Some(e) => e,
        None => 0,
    };
    let ghost yy: int = if month <= 2 { year - 1 } else { year as int };
    assert(era as int == (if yy >= 0 { yy } else { yy - 399 }) / 400);
    assert(-5368702 <= era <= 5368701);
    assert(0 <= y - era * 400 <= 799);
    let yoe = (y - era * 400) as u32;
    let mp = if month > 2 { month - 3 } else { month + 9 };
    let doy = (153 * mp + 2) / 5 + day - 1;
    let doe = yoe * 365 + yoe / 4 - yoe / 100 + doy;
    let days = (era as i64) * 146_097 + doe as i64 - 719_468;
    days * 86_400 + (hour as i64) * 3600 + (minute as i64) * 60 + second as i64
}

proof fn lemma_weekday_match(w1: int, wd: int, day: int)
    requires
        0 <= w1 < 7,
        0 <= wd < 7,
        1 <= day,
    ensures
        ((w1 + day - 1) % 7 == wd) <==> ((day - (1 + (wd - w1 + 7) % 7)) % 7 == 0),
{
}

/// Number of days in `1..day` that fall on the weekday whose first occurrence is `first`.
spec fn matches_before(day: int, first: int) -> int {
    if day > first {
        (day - 1 - first) / 7 + 1
    } else {
        0
    }
}

proof fn lemma_matches_step(day: int, first: int)
    requires
        1 <= first <= 7,
        1 <= day,
    ensures
        matches_before(day + 1, first) == matches_before(day, first) + (if (day - first) % 7
            == 0 { 1int } else { 0int }),
        (day - first) % 7 == 0 ==> day == first + 7 * (matches_before(day + 1, first) - 1),
{
}

proof fn lemma_day_floor(dd: int, secs: int)
    requires
        0 <= secs < 86400,
    ensures
        (dd * 86400 + secs) / 86400 == dd,
{
    vstd::arithmetic::div_mod::lemma_div_multiples_vanish_fancy(dd, secs, 86400);
}

/// Instant of the `nth` weekday `weekday` (0 = Sunday) of `month` in `year`, at local
/// `hour:minute` on a clock running `local_offset` seconds east of UTC.
#[verifier::rlimit(40)]
pub fn nth_weekday_of_month_unix(
    year: i32,
    month: u32,
    weekday: u32,
    nth: u32,
    hour: u32,
    minute: u32,
    local_offset: i32,
) -> (r: i64)
    requires
        -MAX_CALENDAR_YEAR <= year <= MAX_CALENDAR_YEAR,
        1 <= month <= 12,
        weekday < 7,
        hour < 24,
        minute < 60,
    ensures
        r as int == nth_weekday_instant(year as int, month as int, weekday as int, nth as int, hour as int, minute as int, local_offset as int),
{
    let ghost y = year as int;
    let ghost m = month as int;
    let ghost w1 = weekday_of_day(days_from_civil(y, m, 1));
    let ghost first = 1 + (weekday as int - w1 + 7) % 7;
    // Find the first day of month that is `weekday`, then add (nth-1) weeks.
    let mut day = 1u32;
    let mut count = 0u32;
    while day <= 31
        invariant
            1 <= day <= 32,
            -MAX_CALENDAR_YEAR <= year <= MAX_CALENDAR_YEAR,
            1 <= month <= 12,
            weekday < 7,
            hour < 24,
            minute < 60,
            y == year,
            m == month,
            0 <= w1 < 7,
            w1 == weekday_of_day(days_from_civil(y, m, 1)),
            1 <= first <= 7,
            first == 1 + (weekday as int - w1 + 7) % 7,
            count as int == matches_before(day as int, first),
            nth == 0 || count < nth,
        decreases 32 - day,
    {
        let ts = ymd_hms_to_unix(year, month, day, hour, minute, 0) - local_offset as i64;
        let wd = unix_weekday(ts + local_offset as i64); // weekday of local civil day
        proof {
            let dd = days_from_civil(y, m, day as int);
            lemma_days_from_civil_day_offset(y, m, day as int);
            lemma_day_floor(dd, hour * 3600 + minute * 60);
            assert((ts + local_offset) as int / 86400 == dd);
            lemma_weekday_match(w1, weekday as int, day as int);
            assert(weekday_of_day(dd) == (w1 + day - 1) % 7);
            lemma_matches_step(day as int, first);
        }
        if wd == weekday {
            count += 1;
            if count == nth {
                return ts;
            }
        }
        day += 1;
    }
    // Fallback: should not hit for valid months.
    ymd_hms_to_unix(year, month, 1, hour, minute, 0) - local_offset as i64
}

/// The New York offset is always EST or EDT.
pub proof fn lemma_ny_offset_values(ts: int)
    ensures
        ny_offset(ts) == -14400 || ny_offset(ts) == -18000,
{
    reveal(ny_offset);
}

proof fn lemma_ny_date_year(ts: int)
    requires
        MIN_NY_TS <= ts <= MAX_NY_TS,
    ensures
        -MAX_NY_YEAR <= ny_date(ts).0 <= MAX_NY_YEAR,
        1 <= ny_date(ts).1 <= 12,
        1 <= ny_date(ts).2 <= 31,
{
    lemma_ny_offset_values(ts);
    let l = (ts + ny_offset(ts)) / 86400;
    assert(-784350379512 <= l + 719468 < 784350379512);
    lemma_civil_from_days_bounds(l);
}

/// Instants of dates with a year within `MAX_NY_YEAR` either way lie well inside the
/// calendar span.
proof fn lemma_unix_seconds_in_span(y: int, m: int, d: int, h: int, mi: int)
    requires
        -MAX_NY_YEAR <= y <= MAX_NY_YEAR,
        1 <= m <= 12,
        1 <= d <= 31,
        0 <= h < 24,
        0 <= mi < 60,
    ensures
        MIN_CALENDAR_TS + 2 * 86400 <= unix_seconds(y, m, d, h, mi, 0) <= MAX_CALENDAR_TS - 2 * 86400,
{
    reveal(days_from_civil);
    let yy = if m <= 2 { y - 1 } else { y };
    let era = (if yy >= 0 { yy } else { yy - 399 }) / 400;
    let yoe = yy - era * 400;
    assert(-5368698 <= era <= 5368697);
    assert(0 <= yoe <= 799);
    assert(yy >= 0 ==> yoe <= 399);
    assert(yy >= 0 ==> era <= 5368697);
}

/// America/New_York offset east of UTC at `ts` (EST -18000, EDT -14400).
///
/// US Eastern rules: DST from the second Sunday of March 02:00 EST to the
/// first Sunday of November 02:00 EDT.
pub fn ny_utc_offset_seconds(ts: i64) -> (r: i32)
    requires
        MIN_CALENDAR_TS + 18000 <= ts <= MAX_CALENDAR_TS,
    ensures
        r as int == ny_offset(ts as int),
        r == EST_OFFSET || r == EDT_OFFSET,
{
    reveal(ny_offset);
    let (y, _, _) = unix_to_ymd(ts - 5 * 3600); // year in approximate EST
    let dst_start = nth_weekday_of_month_unix(y, 3, 0, 2, 2, 0, -5 * 3600); // 2nd Sun Mar 02:00 EST
    let dst_end = nth_weekday_of_month_unix(y, 11, 0, 1, 2, 0, -4 * 3600); // 1st Sun Nov 02:00 EDT
    if ts >= dst_start && ts < dst_end {
        -4 * 3600
    } else {
        -5 * 3600
    }
}

/// New York calendar date `(year, month, day)` of instant `ts`.
pub fn ny_ymd(ts: i64) -> (r: (i32, u32, u32))
    requires
        MIN_NY_TS <= ts <= MAX_NY_TS,
    ensures
        r.0 as int == ny_date(ts as int).0,
        r.1 as int == ny_date(ts as int).1,
        r.2 as int == ny_date(ts as int).2,
        1 <= r.1 <= 12,
        1 <= r.2 <= 31,
        -MAX_NY_YEAR <= r.0 <= MAX_NY_YEAR,
{
    // Iterate once: guess EST, refine with true offset at that instant.
    let offset = ny_utc_offset_seconds(ts);
    let local = ts + offset as i64;
    proof {
        lemma_ny_date_year(ts as int);
    }
    unix_to_ymd(local)
}

/// Unix instant of New York wall-clock `hour:minute` on civil date `year-month-day`.
pub fn local_ny_to_unix(year: i32, month: u32, day: u32, hour: u32, minute: u32) -> (r: i64)
    requires
        -MAX_NY_YEAR <= year <= MAX_NY_YEAR,
        1 <= month <= 12,
        1 <= day <= 31,
        hour < 24,
        minute < 60,
    ensures
        r as int == local_ny_instant(year as int, month as int, day as int, hour as int, minute as int),
{
    proof {
        lemma_unix_seconds_in_span(year as int, month as int, day as int, hour as int, minute as int);
    }
    let utc_guess = ymd_hms_to_unix(year, month, day, hour, minute, 0);
    // Correct for local offset at the resulting instant (handles DST edges).
    let offset = ny_utc_offset_seconds(utc_guess);
    // utc_guess treated local-as-utc; real utc = local - offset.
    let ts = utc_guess - offset as i64;
    // Recompute once in case the first guess crossed a transition.
    let offset2 = ny_utc_offset_seconds(ts);
    utc_guess - offset2 as i64
}

/// Unix timestamp for **09:30 America/New_York** on the calendar day that contains `ts`.
///
/// Typical Anchored VP preset (US cash open). Implements US Eastern DST rules:
/// second Sunday of March → first Sunday of November.
pub fn cash_open_ny(ts: i64) -> (r: i64)
    requires
        MIN_NY_TS <= ts <= MAX_NY_TS,
    ensures
        r as int == cash_open_instant(ts as int),
{
    let (year, month, day) = ny_ymd(ts);
    proof {
        lemma_ny_date_year(ts as int);
    }
    // 09:30 local on that NY calendar day.
    local_ny_to_unix(year, month, day, 9, 30)
}

proof fn lemma_ny_offset_afternoon_utc(day: int, t1: int, t2: int)
    requires
        t1 == day * 86400 + 48600 || t1 == day * 86400 + 52200,
        t2 == day * 86400 + 48600 || t2 == day * 86400 + 52200,
    ensures
        ny_offset(t1) == ny_offset(t2),
{
    reveal(ny_offset);
    lemma_day_floor(day, 30600);
    lemma_day_floor(day, 34200);
    assert((t1 - 18000) / 86400 == day);
    assert((t2 - 18000) / 86400 == day);
}

/// Cash open law: the instant returned for `ts` reads **09:30** on a New York clock, on
/// the same New York calendar day as `ts`, for instants from 0000-03-01 05:00 UTC on (the
/// first New York day that the calendar dates exactly; see `civil_from_days`).
pub proof fn lemma_cash_open_is_0930_new_york(ts: int)
    requires
        -62_162_017_200 <= ts <= MAX_NY_TS,
    ensures
        cash_open_instant(ts) + ny_offset(cash_open_instant(ts)) == days_from_civil(
            ny_date(ts).0,
            ny_date(ts).1,
            ny_date(ts).2,
        ) * 86400 + 9 * 3600 + 30 * 60,
        ny_date(cash_open_instant(ts)) == ny_date(ts),
{
    lemma_ny_offset_values(ts);
    let day = (ts + ny_offset(ts)) / 86400;
    lemma_civil_round_trip(day);
    let (y, m, d) = ny_date(ts);
    assert(days_from_civil(y, m, d) == day);
    let g = unix_seconds(y, m, d, 9, 30, 0);
    assert(g == day * 86400 + 34200);
    lemma_ny_offset_values(g);
    let t1 = g - ny_offset(g);
    lemma_ny_offset_values(t1);
    let r = g - ny_offset(t1);
    assert(r == cash_open_instant(ts));
    lemma_ny_offset_afternoon_utc(day, t1, r);
    assert(r + ny_offset(r) == g);
    lemma_day_floor(day, 34200);
    assert((r + ny_offset(r)) / 86400 == day);
}

} // verus!
