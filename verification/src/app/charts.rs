//! Chart interest, pan, instrument and timeframe selection on the focused chart.
use vstd::prelude::*;
use crate::app::{
    normalize_instrument, normalized_instrument, window_end, wrap_index, wrapped, App, Chart,
    ChartSeriesState, InputMode, Screen,
};
use crate::app::watchlist::{selected_symbol, watchlist_row_ready};
use crate::model::OhlcvBar;
use crate::text::{str_eq, trim_seq, upper_seq};
use crate::timeframe::{v1_timeframe_at, v1_timeframe_index, v1_timeframes};

verus! {

/// `c` waiting for fresh interest: Loading, pan back on the live tip.
pub open spec fn reloaded<R>(c: Chart<R>) -> Chart<R> {
    Chart { series: ChartSeriesState::Loading, pan_cursor_ts: None, pan_at_oldest: false, ..c }
}

/// Every chart of `a` reloaded, and interest armed.
pub open spec fn all_reloaded<R>(a: App<R>, b: App<R>) -> bool {
    &&& b.charts@.len() == a.charts@.len()
    &&& forall|i: int| 0 <= i < a.charts@.len() ==> #[trigger] b.charts@[i] == reloaded(a.charts@[i])
    &&& b == (App { charts: b.charts, needs_chart_load: true, ..a })
}

/// The focused chart of `a` reloaded with `c`'s fields (instrument / timeframe change).
pub open spec fn focused_reloaded<R>(a: App<R>, c: Chart<R>, b: App<R>) -> bool {
    &&& b.charts@ == a.charts@.update(a.fidx(), reloaded(c))
    &&& b == (App { charts: b.charts, needs_chart_load: true, ..a })
}

/// New pan state `(cursor, at_oldest)` after moving the window end by `delta` bars, when the
/// window can move: none without bars; the live tip when the end reaches the newest bar.
pub open spec fn panned<R>(bars: Seq<OhlcvBar<R>>, pan: Option<i64>, delta: int) -> Option<(Option<i64>, bool)> {
    match window_end(bars, pan) {
        None => None,
        Some(end) => {
            let tip = bars.len() - 1;
            let moved = end + delta;
            let new_idx = if moved < 0 { 0 } else if moved > tip { tip } else { moved };
            if new_idx >= tip {
                Some((None, false))
            } else {
                Some((Some(bars[new_idx].ts), new_idx == 0))
            }
        },
    }
}

/// Result of `set_instrument(raw)` on `a`: whether the focused instrument changes.
pub open spec fn instrument_changes<R>(a: App<R>, raw: Seq<char>) -> bool {
    let sym = normalized_instrument(raw);
    a.screen == Screen::Workspace && sym.len() > 0 && sym != a.focused_spec().instrument@
}

/// `b` is `a` after setting the focused instrument from `raw` (normalized); `changed`
/// tells whether it changed (then the chart reloads).
pub open spec fn instrument_set<R>(a: App<R>, raw: Seq<char>, changed: bool, b: App<R>) -> bool {
    let i = a.fidx();
    &&& changed == instrument_changes(a, raw)
    &&& changed ==> b.charts@[i].instrument@ == normalized_instrument(raw)
        && focused_reloaded(a, b.charts@[i], b)
        && b.charts@[i] == (Chart { instrument: b.charts@[i].instrument, ..reloaded(a.focused_spec()) })
    &&& !changed ==> b == a
}

/// Setting the focused instrument from typed text stores its canonical id (trimmed,
/// upper-cased), reloads only the focused chart, and reports a change exactly when the text
/// names another instrument on the workspace; setting the same text again changes nothing.
pub proof fn lemma_instrument_set_canonical<R>(a: App<R>, raw: Seq<char>, c1: bool, b: App<R>, c2: bool, c: App<R>)
    requires
        a.wf(),
        instrument_set(a, raw, c1, b),
        instrument_set(b, raw, c2, c),
    ensures
        c1 <==> (a.screen == Screen::Workspace && upper_seq(trim_seq(raw)).len() > 0
            && upper_seq(trim_seq(raw)) != a.focused_spec().instrument@),
        c1 ==> b.focused_spec().instrument@ == upper_seq(trim_seq(raw))
            && b.focused_spec().series == ChartSeriesState::<R>::Loading
            && b.needs_chart_load
            && b.charts@.len() == a.charts@.len()
            && (forall|j: int| 0 <= j < a.charts@.len() && j != a.fidx() ==> b.charts@[j] == a.charts@[j]),
        !c1 ==> b == a,
        !c2 && c == b,
{
    if c1 {
        assert(b.fidx() == a.fidx());
    }
}

/// `b` is `a` after stepping the focused chart's timeframe by `delta` within the product
/// set (Normal workspace only; an unknown stored timeframe snaps to `1D`).
pub open spec fn timeframe_cycled<R>(a: App<R>, delta: int, b: App<R>) -> bool {
    let tf = a.focused_spec().timeframe@;
    let idx = v1_timeframes().index_of_first(tf);
    if !a.normal_workspace() {
        b == a
    } else if idx is None {
        b.charts@[a.fidx()].timeframe@ == "1D"@
            && b.charts@[a.fidx()] == (Chart { timeframe: b.charts@[a.fidx()].timeframe, ..reloaded(a.focused_spec()) })
            && focused_reloaded(a, b.charts@[a.fidx()], b)
    } else {
        let next = v1_timeframes()[wrapped(idx.unwrap(), delta, 9)];
        if next == tf {
            b == a
        } else {
            b.charts@[a.fidx()].timeframe@ == next
                && b.charts@[a.fidx()] == (Chart { timeframe: b.charts@[a.fidx()].timeframe, ..reloaded(a.focused_spec()) })
                && focused_reloaded(a, b.charts@[a.fidx()], b)
        }
    }
}

/// The nine product timeframes are pairwise different.
proof fn lemma_v1_timeframes_distinct()
    ensures
        forall|i: int, j: int| 0 <= i < 9 && 0 <= j < 9 && i != j ==> v1_timeframes()[i] != v1_timeframes()[j],
{
    reveal_strlit("1m");
    reveal_strlit("3m");
    reveal_strlit("5m");
    reveal_strlit("15m");
    reveal_strlit("30m");
    reveal_strlit("1h");
    reveal_strlit("4h");
    reveal_strlit("1D");
    reveal_strlit("1W");
    assert forall|i: int, j: int| 0 <= i < 9 && 0 <= j < 9 && i != j implies v1_timeframes()[i] != v1_timeframes()[j] by {
        let t = v1_timeframes();
        if t[i] == t[j] {
            assert(t[i].len() == t[j].len());
            assert(t[i][0] == t[j][0]);
            assert(t[i][t[i].len() - 1] == t[j][t[j].len() - 1]);
        }
    }
}

/// Position of product timeframe `k` in the list is `k`.
proof fn lemma_v1_timeframe_position(k: int)
    requires
        0 <= k < 9,
    ensures
        v1_timeframes().index_of_first(v1_timeframes()[k]) == Some(k),
{
    lemma_v1_timeframes_distinct();
    v1_timeframes().index_of_first_ensures(v1_timeframes()[k]);
}

/// In Normal mode on the workspace, `]` moves the focused chart to the next product
/// timeframe (after `1W` comes `1m`) and reloads it; `[` right after gives the timeframe
/// back.
pub proof fn lemma_timeframe_next_then_previous<R>(a: App<R>, b: App<R>, c: App<R>, k: int)
    requires
        a.wf(),
        a.normal_workspace(),
        0 <= k < 9,
        a.focused_spec().timeframe@ == v1_timeframes()[k],
        timeframe_cycled(a, 1, b),
        timeframe_cycled(b, -1, c),
    ensures
        b.focused_spec().timeframe@ == v1_timeframes()[(k + 1) % 9],
        b.focused_spec().timeframe@ != a.focused_spec().timeframe@,
        b.focused_spec().series == ChartSeriesState::<R>::Loading,
        b.needs_chart_load,
        c.focused_spec().timeframe@ == a.focused_spec().timeframe@,
{
    lemma_v1_timeframes_distinct();
    lemma_v1_timeframe_position(k);
    let k1 = (k + 1) % 9;
    assert(0 <= k1 < 9);
    assert(v1_timeframes()[k1] != v1_timeframes()[k]);
    assert(b.fidx() == a.fidx());
    lemma_v1_timeframe_position(k1);
    assert((k1 + (-1)) % 9 == k);
}

/// `b` is `a` after panning the focused chart by `delta` bars.
pub open spec fn chart_panned<R>(a: App<R>, delta: int, b: App<R>) -> bool {
    let c = a.focused_spec();
    if a.normal_workspace() && delta != 0 && c.series is Available
        && panned(c.series->bars@, c.pan_cursor_ts, delta as int) is Some {
        let p = panned(c.series->bars@, c.pan_cursor_ts, delta as int).unwrap();
        a.with_chart(b, a.fidx(), Chart { pan_cursor_ts: p.0, pan_at_oldest: p.1, ..c })
    } else {
        b == a
    }
}

impl<R: Copy> App<R> {
    pub fn request_chart_load(&mut self)
        requires
            old(self).wf(),
        ensures
            all_reloaded(*old(self), *final(self)),
            final(self).wf(),
    {
        let mut i: usize = 0;
        while i < self.charts.len()
            invariant
                i <= self.charts@.len(),
                self.charts@.len() == old(self).charts@.len(),
                forall|j: int| 0 <= j < i ==> #[trigger] self.charts@[j] == reloaded(old(self).charts@[j]),
                forall|j: int| i <= j < self.charts@.len() ==> #[trigger] self.charts@[j] == old(self).charts@[j],
                *self == (App { charts: self.charts, ..*old(self) }),
            decreases self.charts.len() - i,
        {
            self.charts[i].series = ChartSeriesState::Loading;
            self.charts[i].reset_pan();
            i += 1;
        }
        self.needs_chart_load = true;
    }

    /// Reload the focused chart after an instrument / timeframe change.
    fn request_focused_reload(&mut self)
        requires
            old(self).wf(),
        ensures
            focused_reloaded(*old(self), old(self).focused_spec(), *final(self)),
            final(self).wf(),
    {
        let i = self.focused_index();
        self.charts[i].series = ChartSeriesState::Loading;
        self.charts[i].reset_pan();
        self.needs_chart_load = true;
        assert(self.charts@ =~= old(self).charts@.update(i as int, reloaded(old(self).charts@[i as int])));
    }

    /// Pan the **focused** chart by `delta` bars over **loaded** history only.
    ///
    /// - Negative `delta` moves earlier (←); positive moves later (→).
    /// - Clamps at oldest and newest loaded bars (no network).
    /// - Returning to the newest bar re-attaches to the live tip (`pan_cursor_ts = None`).
    /// - Sets `pan_at_oldest` when the left wall is hit (soft UI hint).
    /// - No-op outside Normal workspace mode, or without an Available series.
    pub fn pan_focused_chart(&mut self, delta: i32)
        requires
            old(self).wf(),
        ensures
            final(self).wf(),
            chart_panned(*old(self), delta as int, *final(self)),
    {
        if self.screen != Screen::Workspace {
            return;
        }
        if !matches!(self.input_mode, InputMode::Normal) {
            return;
        }
        if delta == 0 {
            return;
        }
        let i = self.focused_index();
        let (new_cursor, at_oldest) = match &self.charts[i].series {
            ChartSeriesState::Available { bars } => {
                let end = match Chart::pan_window_end_index(bars, self.charts[i].pan_cursor_ts) {
                    Some(e) => e,
                    None => {
                        return;
                    },
                };
                let tip = bars.len() - 1;
                let moved: i128 = end as i128 + delta as i128;
                let new_idx: usize = if moved < 0 {
                    0
                } else if moved > tip as i128 {
                    tip
                } else {
                    moved as usize
                };
                if new_idx >= tip {
                    (None, false)
                } else {
                    (Some(bars[new_idx].ts), new_idx == 0)
                }
            },
            _ => {
                return;
            },
        };
        let ghost c = self.charts@[i as int];
        self.charts[i].pan_cursor_ts = new_cursor;
        self.charts[i].pan_at_oldest = at_oldest;
        assert(self.charts@ =~= old(self).charts@.update(i as int, Chart { pan_cursor_ts: new_cursor, pan_at_oldest: at_oldest, ..c }));
    }

    /// Set focused chart instrument. Returns true when interest changed (reload armed).
    pub fn set_instrument(&mut self, raw: &str) -> (changed: bool)
        requires
            old(self).wf(),
        ensures
            final(self).wf(),
            instrument_set(*old(self), raw@, changed, *final(self)),
    {
        if self.screen != Screen::Workspace {
            return false;
        }
        let symbol = normalize_instrument(raw);
        let i = self.focused_index();
        if symbol.as_str().is_empty() || symbol == self.charts[i].instrument {
            return false;
        }
        self.charts[i].instrument = symbol;
        self.request_focused_reload();
        proof {
            assert(reloaded(self.charts@[i as int]) == self.charts@[i as int]);
            assert(self.charts@ =~= old(self).charts@.update(i as int, reloaded(self.charts@[i as int])));
        }
        true
    }

    /// Enter/Space on a watchlist row: set focused chart instrument (keep TF + indicators).
    /// Returns true when chart interest must reload.
    pub fn load_selected_watchlist_symbol(&mut self) -> (changed: bool)
        requires
            old(self).wf(),
        ensures
            final(self).wf(),
            watchlist_row_ready(*old(self)) ==> instrument_set(*old(self), selected_symbol(*old(self)), changed, *final(self)),
            !watchlist_row_ready(*old(self)) ==> !changed && *final(self) == *old(self),
    {
        if self.screen != Screen::Workspace {
            return false;
        }
        if !matches!(self.input_mode, InputMode::Normal) {
            return false;
        }
        if !self.watchlist_visible {
            return false;
        }
        let symbol = {
            let symbols = self.active_symbols();
            if symbols.len() == 0 {
                return false;
            }
            let idx = if self.watchlist_selected < symbols.len() {
                self.watchlist_selected
            } else {
                symbols.len() - 1
            };
            symbols[idx].clone()
        };
        self.set_instrument(symbol.as_str())
    }

    /// `[` / `]`: cycle the focused chart's timeframe by `delta` steps within the product
    /// set only. No-op outside workspace Normal mode (the indicator panel and the prompts
    /// included), or when the index would not change; an unknown stored timeframe snaps to
    /// the default.
    pub fn cycle_timeframe(&mut self, delta: i32)
        requires
            old(self).wf(),
        ensures
            final(self).wf(),
            timeframe_cycled(*old(self), delta as int, *final(self)),
    {
        if self.screen != Screen::Workspace {
            return;
        }
        if !matches!(self.input_mode, InputMode::Normal) {
            return;
        }
        let i = self.focused_index();
        let found = v1_timeframe_index(self.charts[i].timeframe.as_str());
        let ghost tf = self.charts@[i as int].timeframe@;
        match found {
            None => {
                proof {
                    assert(v1_timeframes().index_of_first(tf) is None) by {
                        v1_timeframes().index_of_first_ensures(tf);
                    }
                }
                self.charts[i].timeframe = String::from_str(crate::app::DEFAULT_TIMEFRAME);
                self.request_focused_reload();
                proof {
                    assert(reloaded(self.charts@[i as int]) == self.charts@[i as int]);
                    assert(self.charts@ =~= old(self).charts@.update(i as int, reloaded(self.charts@[i as int])));
                }
            },
            Some(idx) => {
                proof {
                    v1_timeframes().index_of_first_ensures(tf);
                }
                let next = wrap_index(idx, delta, 9);
                let new_tf = v1_timeframe_at(next);
                if str_eq(new_tf, self.charts[i].timeframe.as_str()) {
                    return;
                }
                self.charts[i].timeframe = String::from_str(new_tf);
                self.request_focused_reload();
                proof {
                    assert(reloaded(self.charts@[i as int]) == self.charts@[i as int]);
                    assert(self.charts@ =~= old(self).charts@.update(i as int, reloaded(self.charts@[i as int])));
                }
            },
        }
    }
}

} // verus!
