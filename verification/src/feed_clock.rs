//! New York wall clock and feed delay for Feed status.
use vstd::prelude::*;
use crate::text::{decimal, push_char, push_decimal};
use chrono::{DateTime, Offset};
use chrono_tz::America::New_York;
use chrono_tz::OffsetName;

verus! {

/// Earliest instant a `chrono` date-time holds: -262143-01-01T00:00:00Z (chrono's first
/// year, `(i32::MIN >> 13) + 1`). `DateTime::from_timestamp` answers `Some` from here on.
pub const MIN_CLOCK_TS: i64 = -8_334_601_228_800;

/// Latest instant a `chrono` date-time holds: 262142-12-31T23:59:59Z (chrono's last year,
/// `(i32::MAX >> 13) - 1`). `DateTime::from_timestamp` answers `Some` up to here.
pub const MAX_CLOCK_TS: i64 = 8_210_266_876_799;

/// Offset east of UTC (seconds) of America/New_York at instant `ts`, per tzdata.
pub uninterp spec fn tz_new_york_offset(ts: int) -> int;

/// Zone abbreviation (`EST`, `EDT`, …) of America/New_York at instant `ts`, per tzdata.
pub uninterp spec fn tz_new_york_abbreviation(ts: int) -> Option<Seq<char>>;

/// Offset of America/New_York at `ts` from `chrono-tz`
/// (`DateTime::with_timezone(&New_York)`, `Offset::fix`, `FixedOffset::local_minus_utc`).
/// Claims the result is the tzdata offset at `ts` and, as `FixedOffset` guarantees,
/// lies strictly within one day.
#[verifier::external_body]
fn new_york_offset_at(ts: i64) -> (r: i32)
    requires
        MIN_CLOCK_TS <= ts <= MAX_CLOCK_TS,
    ensures
        r as int == tz_new_york_offset(ts as int),
        -86400 < r < 86400,
{
    match DateTime::from_timestamp(ts, 0) {
        Some(utc) => utc.with_timezone(&New_York).offset().fix().local_minus_utc(),
        None => 0,
    }
}

/// Abbreviation of America/New_York at `ts` from `chrono-tz`
/// (`OffsetName::abbreviation` of the zone offset). Claims the result is the tzdata
/// abbreviation at `ts`.
#[verifier::external_body]
fn new_york_abbreviation_at(ts: i64) -> (r: Option<String>)
    requires
        MIN_CLOCK_TS <= ts <= MAX_CLOCK_TS,
    ensures
        match r {
            Some(s) => tz_new_york_abbreviation(ts as int) == Some(s@),
            None => tz_new_york_abbreviation(ts as int) is None,
        },
{
    match DateTime::from_timestamp(ts, 0) {
        Some(utc) => match utc.with_timezone(&New_York).offset().abbreviation() {
            Some(name) => Some(name.to_string()),
            None => None,
        },
        None => None,
    }
}

/// Two-digit zero-padded rendering of `n` (`n < 100`).
pub open spec fn two_digits(n: nat) -> Seq<char> {
    if n < 10 {
        seq!['0'].add(decimal(n))
    } else {
        decimal(n)
    }
}

/// `HH:MM:SS` of the time of day of local seconds `local`.
pub open spec fn hms_text(local: int) -> Seq<char> {
    let sod = local % 86400;
    two_digits((sod / 3600) as nat) + seq![':'] + two_digits(((sod % 3600) / 60) as nat) + seq![
        ':',
    ] + two_digits((sod % 60) as nat)
}

/// Feed-status clock text for instant `ts`: New York `HH:MM:SS` and zone abbreviation
/// (`ET` when tzdata has none).
pub open spec fn ny_wall_clock_text(ts: int) -> Seq<char> {
    let abbrev = match tz_new_york_abbreviation(ts) {
        Some(a) => a,
        None => "ET"@,
    };
    hms_text(ts + tz_new_york_offset(ts)) + seq![' '] + abbrev
}

/// Compact duration text: `5s`, `26m`, `1h 02m`.
pub open spec fn compact_delay_text(secs: nat) -> Seq<char> {
    if secs < 60 {
        decimal(secs).push('s')
    } else if secs < 3600 {
        decimal(secs / 60).push('m')
    } else {
        decimal(secs / 3600) + seq!['h', ' '] + two_digits((secs % 3600) / 60) + seq!['m']
    }
}

/// A delay under a minute reads in seconds (`…s`), under an hour in whole minutes
/// (`…m`, no hours), and from an hour on as hours then two-digit minutes (`…h MMm`).
pub proof fn lemma_compact_delay_units(secs: nat)
    ensures
        compact_delay_text(secs).len() >= 2,
        secs < 60 <==> compact_delay_text(secs).last() == 's',
        60 <= secs < 3600 ==> compact_delay_text(secs) == decimal(secs / 60).push('m'),
        secs >= 3600 ==> compact_delay_text(secs).last() == 'm'
            && compact_delay_text(secs) == decimal(secs / 3600) + seq!['h', ' '] + two_digits((secs % 3600) / 60) + seq!['m'],
        secs >= 3600 ==> compact_delay_text(secs).len() == decimal(secs / 3600).len() + 5,
{
    crate::text::lemma_decimal_nonempty(secs);
    crate::text::lemma_decimal_nonempty(secs / 60);
    crate::text::lemma_decimal_nonempty(secs / 3600);
    if secs >= 3600 {
        let m = (secs % 3600) / 60;
        crate::text::lemma_decimal_nonempty(m);
        if m >= 10 {
            crate::text::lemma_decimal_two_digits(m);
        }
    }
}

pub(crate) fn push_two_digits(out: &mut String, n: u64)
    requires
        n < 100,
    ensures
        final(out)@ == old(out)@ + two_digits(n as nat),
{
    if n < 10 {
        push_char(out, '0');
    }
    push_decimal(out, n);
    assert(out@ =~= old(out)@ + two_digits(n as nat)) by {
        if n < 10 {
            assert(seq!['0'].add(decimal(n as nat)) =~= seq!['0'] + decimal(n as nat));
        }
    }
}

/// Current New York civil time for Feed status (`11:17:44 EDT`) at unix second `now_ts`.
///
/// Abbreviation follows tzdata (`EDT` / `EST`); not a frozen year-round EST.
pub fn format_ny_wall_clock(now_ts: i64) -> (r: String)
    requires
        MIN_CLOCK_TS <= now_ts <= MAX_CLOCK_TS,
    ensures
        r@ == ny_wall_clock_text(now_ts as int),
{
    let offset = new_york_offset_at(now_ts);
    let local = now_ts + offset as i64;
    let sod = match local.checked_rem_euclid(86_400) {
        Some(s) => s,
        None => 0,
    };
    let mut out = String::new();
    push_two_digits(&mut out, (sod / 3600) as u64);
    push_char(&mut out, ':');
    push_two_digits(&mut out, ((sod % 3600) / 60) as u64);
    push_char(&mut out, ':');
    push_two_digits(&mut out, (sod % 60) as u64);
    push_char(&mut out, ' ');
    let ghost clock = out@;
    match new_york_abbreviation_at(now_ts) {
        Some(a) => out.append(a.as_str()),
        None => out.append("ET"),
    }
    proof {
        assert(clock =~= hms_text(local as int).push(' '));
    }
    assert(out@ =~= ny_wall_clock_text(now_ts as int));
    out
}

/// Compact duration: `5s`, `26m`, `1h 02m`.
pub fn format_compact_delay(secs: u64) -> (r: String)
    ensures
        r@ == compact_delay_text(secs as nat),
{
    let mut out = String::new();
    if secs < 60 {
        push_decimal(&mut out, secs);
        push_char(&mut out, 's');
    } else if secs < 3600 {
        push_decimal(&mut out, secs / 60);
        push_char(&mut out, 'm');
    } else {
        let hours = secs / 3600;
        let minutes = (secs % 3600) / 60;
        push_decimal(&mut out, hours);
        push_char(&mut out, 'h');
        push_char(&mut out, ' ');
        push_two_digits(&mut out, minutes);
        push_char(&mut out, 'm');
    }
    assert(out@ =~= compact_delay_text(secs as nat));
    out
}

} // verus!
