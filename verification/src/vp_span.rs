//! Time spans of volume profiles as drawn over a chart, and the bar window a chart shows.
use vstd::prelude::*;
use crate::app::pins::series_bars;
use crate::app::{window_end, App, Chart};
use crate::model::{IndicatorConfig, VpProfile};
use crate::text::str_eq;

verus! {

/// Time span of one profile as drawn (unix seconds): the histogram from `start` to `end`,
/// the POC / VAH / VAL lines from `start` to `levels_end`.
#[derive(Debug, Clone, Copy, PartialEq, Eq, Structural)]
pub struct ProfileSpan {
    pub start: i64,
    pub end: i64,
    pub levels_end: i64,
}

/// `a`, else `b`.
pub open spec fn first_set(a: Option<i64>, b: Option<i64>) -> Option<i64> {
    match a {
        Some(x) => Some(x),
        None => b,
    }
}

/// `a`, else `d`.
pub open spec fn or_default(a: Option<i64>, d: i64) -> i64 {
    match a {
        Some(x) => x,
        None => d,
    }
}

/// The span when `[start, end]` meets the visible window `[vis_start, vis_end]`.
pub open spec fn span_if_visible(start: i64, end: i64, levels_end: i64, vis_start: i64, vis_end: i64) -> Option<ProfileSpan> {
    if end < vis_start || start > vis_end {
        None
    } else {
        Some(ProfileSpan { start, end, levels_end })
    }
}

/// Session profile: its day bounds (a missing bound reads as 0), drawn up to one second
/// before the session end; `None` when the session ends by `vis_start` or starts after
/// `vis_end`.
pub open spec fn session_span<R>(p: VpProfile<R>, vis_start: i64, vis_end: i64) -> Option<ProfileSpan> {
    let s = or_default(p.session_start, 0);
    let e = or_default(p.session_end, 0);
    if e <= vis_start || s > vis_end {
        None
    } else {
        let last = if e > i64::MIN {
            (e - 1) as i64
        } else {
            e
        };
        Some(ProfileSpan { start: s, end: last, levels_end: last })
    }
}

/// Fixed Range profile: the engine's window, else the config's pins, else the visible edges;
/// levels run to the engine's projected end (extend to right), else the range end.
pub open spec fn fixed_range_span<R>(cfg: IndicatorConfig<R>, p: VpProfile<R>, vis_start: i64, vis_end: i64) -> Option<ProfileSpan> {
    let start = or_default(first_set(p.range_start, cfg.start), vis_start);
    let end = or_default(first_set(p.range_end, cfg.end), vis_end);
    let levels_end = or_default(first_set(first_set(p.levels_end, p.range_end), cfg.end), end);
    span_if_visible(start, end, levels_end, vis_start, vis_end)
}

/// Anchored profile: from the engine's start, else its anchor, else the config's anchor, to the
/// engine's end (else the visible end); levels to the engine's level end, else the range end.
pub open spec fn anchored_span<R>(cfg: IndicatorConfig<R>, p: VpProfile<R>, vis_start: i64, vis_end: i64) -> Option<ProfileSpan> {
    let start = or_default(first_set(first_set(p.range_start, p.anchor), cfg.anchor), vis_start);
    let end = or_default(p.range_end, vis_end);
    let levels_end = or_default(first_set(p.levels_end, p.range_end), end);
    span_if_visible(start, end, levels_end, vis_start, vis_end)
}

/// A profile span is drawn exactly when it meets the visible window: a span given back
/// overlaps `[vis_start, vis_end]`, and a profile whose engine window lies wholly before or
/// after the visible window gives none. The engine's window wins over the config's pins,
/// and a session profile is drawn from its session start to one second before its end.
pub proof fn lemma_spans_meet_visible_window<R>(cfg: IndicatorConfig<R>, p: VpProfile<R>, vis_start: i64, vis_end: i64)
    ensures
        fixed_range_span(cfg, p, vis_start, vis_end) matches Some(sp) ==> sp.end >= vis_start && sp.start <= vis_end,
        anchored_span(cfg, p, vis_start, vis_end) matches Some(sp) ==> sp.end >= vis_start && sp.start <= vis_end,
        session_span(p, vis_start, vis_end) matches Some(sp) ==> sp.end >= vis_start && sp.start <= vis_end,
        p.range_start is Some && p.range_end is Some && (p.range_end->0 < vis_start || p.range_start->0 > vis_end)
            ==> fixed_range_span(cfg, p, vis_start, vis_end) is None && anchored_span(cfg, p, vis_start, vis_end) is None,
        p.range_start is Some && p.range_end is Some && vis_start <= p.range_end->0 && p.range_start->0 <= vis_end
            ==> (fixed_range_span(cfg, p, vis_start, vis_end) matches Some(sp) && sp.start == p.range_start->0
                && sp.end == p.range_end->0),
        p.session_start is Some && p.session_end is Some && vis_start < p.session_end->0 && p.session_start->0 <= vis_end
            ==> (session_span(p, vis_start, vis_end) matches Some(sp) && sp.start == p.session_start->0
                && sp.end == p.session_end->0 - 1),
{
}

fn pick(a: Option<i64>, b: Option<i64>) -> (r: Option<i64>)
    ensures
        r == first_set(a, b),
{
    match a {
        Some(x) => Some(x),
        None => b,
    }
}

fn value_or(a: Option<i64>, d: i64) -> (r: i64)
    ensures
        r == or_default(a, d),
{
    match a {
        Some(x) => x,
        None => d,
    }
}

fn visible_span(start: i64, end: i64, levels_end: i64, vis_start: i64, vis_end: i64) -> (r: Option<ProfileSpan>)
    ensures
        r == span_if_visible(start, end, levels_end, vis_start, vis_end),
{
    if end < vis_start || start > vis_end {
        None
    } else {
        Some(ProfileSpan { start, end, levels_end })
    }
}

/// Drawn span of a Session profile (see `session_span`).
pub fn session_profile_span<R>(p: &VpProfile<R>, vis_start: i64, vis_end: i64) -> (r: Option<ProfileSpan>)
    ensures
        r == session_span(*p, vis_start, vis_end),
{
    let s = value_or(p.session_start, 0);
    let e = value_or(p.session_end, 0);
    if e <= vis_start || s > vis_end {
        None
    } else {
        let last = if e > i64::MIN { e - 1 } else { e };
        Some(ProfileSpan { start: s, end: last, levels_end: last })
    }
}

/// Drawn span of a Fixed Range profile (see `fixed_range_span`).
pub fn fixed_range_profile_span<R>(cfg: &IndicatorConfig<R>, p: &VpProfile<R>, vis_start: i64, vis_end: i64) -> (r: Option<ProfileSpan>)
    ensures
        r == fixed_range_span(*cfg, *p, vis_start, vis_end),
{
    let start = value_or(pick(p.range_start, cfg.start), vis_start);
    let end = value_or(pick(p.range_end, cfg.end), vis_end);
    let levels_end = value_or(pick(pick(p.levels_end, p.range_end), cfg.end), end);
    visible_span(start, end, levels_end, vis_start, vis_end)
}

/// Drawn span of an Anchored profile (see `anchored_span`).
pub fn anchored_profile_span<R>(cfg: &IndicatorConfig<R>, p: &VpProfile<R>, vis_start: i64, vis_end: i64) -> (r: Option<ProfileSpan>)
    ensures
        r == anchored_span(*cfg, *p, vis_start, vis_end),
{
    let start = value_or(pick(pick(p.range_start, p.anchor), cfg.anchor), vis_start);
    let end = value_or(p.range_end, vis_end);
    let levels_end = value_or(pick(p.levels_end, p.range_end), end);
    visible_span(start, end, levels_end, vis_start, vis_end)
}

/// Last bar chart `c` of `a` shows: while a pin is placed on it (Fixed Range first, then
/// Anchored) the placement cursor, clamped to the last bar; otherwise the pan window end.
pub open spec fn view_end<R>(a: App<R>, c: Chart<R>) -> Option<int> {
    let bars = series_bars(c.series);
    let n = bars.len() as int;
    let clamp = |cursor: usize| if cursor < n { cursor as int } else { n - 1 };
    let frvp_cursor = match a.frvp_place {
        Some(p) => if p.chart_id@ == c.id@ { Some(p.cursor_bar) } else { None },
        None => None,
    };
    let avp_cursor = match a.avp_place {
        Some(p) => if p.chart_id@ == c.id@ { Some(p.cursor_bar) } else { None },
        None => None,
    };
    if n == 0 {
        None
    } else {
        match frvp_cursor {
            Some(cur) => Some(clamp(cur)),
            None => match avp_cursor {
                Some(cur) => Some(clamp(cur)),
                None => window_end(bars, c.pan_cursor_ts),
            },
        }
    }
}

impl<R: Copy> App<R> {
    /// Index of the last bar chart `chart` shows (see `view_end`); `None` without bars.
    pub fn view_end_index(&self, chart: &Chart<R>) -> (r: Option<usize>)
        ensures
            match view_end(*self, *chart) {
                Some(i) => r == Some(i as usize) && 0 <= i < series_bars(chart.series).len(),
                None => r is None,
            },
    {
        let bars = match &chart.series {
            crate::app::ChartSeriesState::Available { bars } => bars,
            _ => {
                return None;
            },
        };
        let n = bars.len();
        if n == 0 {
            return None;
        }
        match &self.frvp_place {
            Some(p) => {
                if str_eq(p.chart_id.as_str(), chart.id.as_str()) {
                    return Some(if p.cursor_bar < n { p.cursor_bar } else { n - 1 });
                }
            },
            None => {},
        }
        match &self.avp_place {
            Some(p) => {
                if str_eq(p.chart_id.as_str(), chart.id.as_str()) {
                    return Some(if p.cursor_bar < n { p.cursor_bar } else { n - 1 });
                }
            },
            None => {},
        }
        Chart::pan_window_end_index(bars, chart.pan_cursor_ts)
    }
}

} // verus!
