//! Product timeframes (`1m` … `1W`) and their bar intervals.
use vstd::prelude::*;
use crate::feed_clock::{push_two_digits, two_digits};
use crate::text::{decimal, push_char, push_decimal, str_eq};

verus! {

/// Bar interval of a product timeframe (candle width on the chart).
#[derive(Debug, Clone, Copy, PartialEq, Eq, Structural)]
pub enum Interval {
    OneMinute,
    ThreeMinutes,
    FiveMinutes,
    FifteenMinutes,
    ThirtyMinutes,
    OneHour,
    FourHours,
    OneDay,
    OneWeek,
}

/// Length in seconds of one bar of `i`.
pub open spec fn interval_secs(i: Interval) -> int {
    match i {
        Interval::OneMinute => 60,
        Interval::ThreeMinutes => 180,
        Interval::FiveMinutes => 300,
        Interval::FifteenMinutes => 900,
        Interval::ThirtyMinutes => 1800,
        Interval::OneHour => 3600,
        Interval::FourHours => 14400,
        Interval::OneDay => 86400,
        Interval::OneWeek => 604800,
    }
}

impl Interval {
    /// Seconds between consecutive bar opens.
    pub fn seconds(self) -> (r: i64)
        ensures
            r as int == interval_secs(self),
    {
        match self {
            Interval::OneMinute => 60,
            Interval::ThreeMinutes => 180,
            Interval::FiveMinutes => 300,
            Interval::FifteenMinutes => 900,
            Interval::ThirtyMinutes => 1800,
            Interval::OneHour => 3600,
            Interval::FourHours => 14400,
            Interval::OneDay => 86400,
            Interval::OneWeek => 604800,
        }
    }
}

/// Number of v1 product timeframes.
pub const TIMEFRAME_COUNT: usize = 9;

/// The v1 product timeframes, in cycle order (fine → coarse, then wrap).
pub open spec fn v1_timeframes() -> Seq<Seq<char>> {
    seq!["1m"@, "3m"@, "5m"@, "15m"@, "30m"@, "1h"@, "4h"@, "1D"@, "1W"@]
}

/// Interval of product timeframe `tf`, `None` for anything outside the v1 set
/// (tokens are case-sensitive).
pub open spec fn timeframe_interval(tf: Seq<char>) -> Option<Interval> {
    if tf == "1m"@ {
        Some(Interval::OneMinute)
    } else if tf == "3m"@ {
        Some(Interval::ThreeMinutes)
    } else if tf == "5m"@ {
        Some(Interval::FiveMinutes)
    } else if tf == "15m"@ {
        Some(Interval::FifteenMinutes)
    } else if tf == "30m"@ {
        Some(Interval::ThirtyMinutes)
    } else if tf == "1h"@ {
        Some(Interval::OneHour)
    } else if tf == "4h"@ {
        Some(Interval::FourHours)
    } else if tf == "1D"@ {
        Some(Interval::OneDay)
    } else if tf == "1W"@ {
        Some(Interval::OneWeek)
    } else {
        None
    }
}

/// The v1 product timeframes, in cycle order.
pub fn v1_timeframes_list() -> (r: Vec<&'static str>)
    ensures
        r@.len() == 9,
        forall|i: int| 0 <= i < 9 ==> (#[trigger] r@[i])@ == v1_timeframes()[i],
{
    let v = vec!["1m", "3m", "5m", "15m", "30m", "1h", "4h", "1D", "1W"];
    assert(v@.len() == 9);
    v
}

/// The `i`-th v1 timeframe (cycle order).
pub fn v1_timeframe_at(i: usize) -> (r: &'static str)
    requires
        i < 9,
    ensures
        r@ == v1_timeframes()[i as int],
{
    let all = v1_timeframes_list();
    all[i]
}

/// Position of `tf` in the v1 cycle order, `None` when not a v1 timeframe.
pub fn v1_timeframe_index(tf: &str) -> (r: Option<usize>)
    ensures
        match r {
            Some(i) => i < 9 && v1_timeframes()[i as int] == tf@ && forall|j: int|
                0 <= j < i ==> v1_timeframes()[j] != tf@,
            None => forall|j: int| 0 <= j < 9 ==> v1_timeframes()[j] != tf@,
        },
{
    let all = v1_timeframes_list();
    let mut i: usize = 0;
    while i < 9
        invariant
            i <= 9,
            all@.len() == 9,
            forall|k: int| 0 <= k < 9 ==> (#[trigger] all@[k])@ == v1_timeframes()[k],
            forall|j: int| 0 <= j < i ==> v1_timeframes()[j] != tf@,
        decreases 9 - i,
    {
        if str_eq(all[i], tf) {
            return Some(i);
        }
        i += 1;
    }
    None
}

/// Map a product timeframe string (`1m`…`1W`) to its bar [`Interval`].
///
/// Returns `None` for unknown / non-v1 values.
pub fn product_timeframe_to_interval(timeframe: &str) -> (r: Option<Interval>)
    ensures
        r == timeframe_interval(timeframe@),
{
    if str_eq(timeframe, "1m") {
        Some(Interval::OneMinute)
    } else if str_eq(timeframe, "3m") {
        Some(Interval::ThreeMinutes)
    } else if str_eq(timeframe, "5m") {
        Some(Interval::FiveMinutes)
    } else if str_eq(timeframe, "15m") {
        Some(Interval::FifteenMinutes)
    } else if str_eq(timeframe, "30m") {
        Some(Interval::ThirtyMinutes)
    } else if str_eq(timeframe, "1h") {
        Some(Interval::OneHour)
    } else if str_eq(timeframe, "4h") {
        Some(Interval::FourHours)
    } else if str_eq(timeframe, "1D") {
        Some(Interval::OneDay)
    } else if str_eq(timeframe, "1W") {
        Some(Interval::OneWeek)
    } else {
        None
    }
}

/// Interval seconds for a product timeframe (unix bar open spacing).
pub fn product_timeframe_seconds(timeframe: &str) -> (r: Option<i64>)
    ensures
        match timeframe_interval(timeframe@) {
            Some(i) => r == Some(interval_secs(i) as i64),
            None => r is None,
        },
{
    match product_timeframe_to_interval(timeframe) {
        Some(i) => Some(i.seconds()),
        None => None,
    }
}

/// Every v1 timeframe has an interval, and every string with an interval is a v1 timeframe.
pub proof fn lemma_v1_timeframes_are_exactly_the_mapped_set(tf: Seq<char>)
    ensures
        (timeframe_interval(tf) is Some) <==> (exists|i: int| 0 <= i < 9 && v1_timeframes()[i]
            == tf),
{
    if timeframe_interval(tf) is Some {
        if tf == "1m"@ {
            assert(v1_timeframes()[0] == tf);
        } else if tf == "3m"@ {
            assert(v1_timeframes()[1] == tf);
        } else if tf == "5m"@ {
            assert(v1_timeframes()[2] == tf);
        } else if tf == "15m"@ {
            assert(v1_timeframes()[3] == tf);
        } else if tf == "30m"@ {
            assert(v1_timeframes()[4] == tf);
        } else if tf == "1h"@ {
            assert(v1_timeframes()[5] == tf);
        } else if tf == "4h"@ {
            assert(v1_timeframes()[6] == tf);
        } else if tf == "1D"@ {
            assert(v1_timeframes()[7] == tf);
        } else {
            assert(v1_timeframes()[8] == tf);
        }
    }
}

/// Seconds left in the forming bar of `timeframe` whose open is `tip_open`, at `now`:
/// `None` for an unknown timeframe, and when `now` lies outside the bar's period
/// (the bar has closed, or has not opened yet).
pub open spec fn forming_remaining(timeframe: Seq<char>, tip_open: int, now: int) -> Option<int> {
    match timeframe_interval(timeframe) {
        Some(i) => {
            let left = tip_open + interval_secs(i) - now;
            if 0 < left <= interval_secs(i) {
                Some(left)
            } else {
                None
            }
        },
        None => None,
    }
}

/// The forming-bar countdown is the time left until the bar closes: it reaches the close
/// exactly, it ticks down by one each second, and after its last second the bar has
/// closed (no countdown). An unknown timeframe has no countdown.
pub proof fn lemma_forming_countdown_ticks(tf: Seq<char>, open: int, now: int)
    ensures
        timeframe_interval(tf) is None ==> forming_remaining(tf, open, now) is None,
        forming_remaining(tf, open, now) matches Some(l) ==> 0 < l && now + l == open
            + interval_secs(timeframe_interval(tf)->0),
        forming_remaining(tf, open, now) matches Some(l) ==> (l > 1 ==> forming_remaining(tf, open, now + 1) == Some(l - 1)),
        forming_remaining(tf, open, now) == Some(1int) ==> forming_remaining(tf, open, now + 1) is None,
        timeframe_interval(tf) is Some ==> (forming_remaining(tf, open, open) == Some(interval_secs(timeframe_interval(tf)->0))),
{
}

/// Seconds left in the forming bar (see `forming_remaining`).
pub fn forming_bar_remaining_secs(timeframe: &str, tip_open_ts: i64, now_ts: i64) -> (r: Option<u64>)
    ensures
        match forming_remaining(timeframe@, tip_open_ts as int, now_ts as int) {
            Some(left) => r == Some(left as u64),
            None => r is None,
        },
{
    let secs = match product_timeframe_seconds(timeframe) {
        Some(s) => s,
        None => {
            return None;
        },
    };
    let left: i128 = tip_open_ts as i128 + secs as i128 - now_ts as i128;
    if 0 < left && left <= secs as i128 {
        Some(left as u64)
    } else {
        None
    }
}

/// Countdown text: `m:ss` under an hour, else `h:mm:ss`.
pub open spec fn countdown_text(secs: nat) -> Seq<char> {
    if secs < 3600 {
        decimal(secs / 60) + seq![':'] + two_digits(secs % 60)
    } else {
        decimal(secs / 3600) + seq![':'] + two_digits((secs % 3600) / 60) + seq![':'] + two_digits(
            secs % 60,
        )
    }
}

/// Countdown text of a forming bar: `0:35`, `4:50`, `5:59:59`.
pub fn format_bar_countdown(secs: u64) -> (r: String)
    ensures
        r@ == countdown_text(secs as nat),
{
    let mut out = String::new();
    if secs < 3600 {
        push_decimal(&mut out, secs / 60);
        push_char(&mut out, ':');
        push_two_digits(&mut out, secs % 60);
    } else {
        push_decimal(&mut out, secs / 3600);
        push_char(&mut out, ':');
        push_two_digits(&mut out, (secs % 3600) / 60);
        push_char(&mut out, ':');
        push_two_digits(&mut out, secs % 60);
    }
    assert(out@ =~= countdown_text(secs as nat));
    out
}

} // verus!
