//! Engine events: snapshots, workspace, chart history, live bars, indicator replies.
use vstd::prelude::*;
use crate::app::{
    chart_ids, chart_position, charts_keys_distinct, clamped, entry_keys, fresh_chart, first_index,
    ipc_keys_distinct, payloads_keys_distinct, workspace_keys_distinct, layout_of_key, lemma_first_index,
    merge_bar, merged_bars, App, Chart, ChartSeriesState, ConnectionStatus, LayoutMode, Screen,
    UNAVAILABLE_COPY,
};
use crate::app::charts::all_reloaded;
use crate::app::edits::config_ids;
use crate::app::indicators::sel_idx;
use crate::app::paper::paper_applied;
use crate::app::watchlist::{quotes_upserted_all, watchlists_replaced};
use crate::model::{
    same_kind, BarUpdateEvent, ChartIndicatorsPayload, ChartInterestResponse, FeedSnapshot,
    IndicatorConfig, IndicatorKind, IndicatorUpdateEvent, IndicatorsApplyResponse, IpcEvent,
    OhlcvBar, PaperSnapshot, QuoteRow, WorkspaceChartSnapshot, WorkspaceSnapshot,
};
use crate::text::str_eq;

verus! {

/// `c` is the chart built from workspace snapshot `s`: no series yet, live tip.
pub open spec fn chart_from_snapshot<R>(c: Chart<R>, s: WorkspaceChartSnapshot<R>) -> bool {
    &&& c.id@ == s.id@
    &&& c.instrument@ == s.instrument@
    &&& c.timeframe@ == s.timeframe@
    &&& c.series == ChartSeriesState::<R>::Idle
    &&& c.indicators@ == s.indicators@
    &&& c.indicator_series@.len() == 0
    &&& c.type_styles@ == s.type_styles@
    &&& c.pan_cursor_ts is None
    &&& !c.pan_at_oldest
}

/// Charts for a workspace: its charts, or the layout's defaults when it has none.
pub open spec fn charts_for_workspace<R>(charts: Seq<Chart<R>>, ws: WorkspaceSnapshot<R>) -> bool {
    if ws.charts@.len() == 0 {
        match layout_of_key(ws.layout_mode@) {
            LayoutMode::Single => charts.len() == 1 && fresh_chart(charts[0], "primary"@, "SPY"@, "1D"@),
            LayoutMode::DualVertical => charts.len() == 2 && fresh_chart(charts[0], "top"@, "QQQ"@, "1D"@)
                && fresh_chart(charts[1], "bottom"@, "SPY"@, "1D"@),
        }
    } else {
        &&& charts.len() == ws.charts@.len()
        &&& forall|i: int| 0 <= i < charts.len() ==> chart_from_snapshot(#[trigger] charts[i], ws.charts@[i])
    }
}

/// `b` is `a` after taking the engine workspace `ws` (layout, charts, watchlists).
pub open spec fn workspace_applied<R>(a: App<R>, ws: WorkspaceSnapshot<R>, b: App<R>) -> bool {
    &&& b.layout == layout_of_key(ws.layout_mode@)
    &&& charts_for_workspace(b.charts@, ws)
    &&& b.focused == (if a.focused >= b.charts@.len() { 0 } else { a.focused })
    &&& b.indicator_selected as int == clamped(a.indicator_selected as int, b.focused_spec().indicators@.len() as int)
    &&& (ws.watchlists@.len() > 0 ==> watchlists_replaced(a, ws.watchlists@, ws.active_watchlist_id@, b))
    &&& (ws.watchlists@.len() == 0 ==> b.watchlists == a.watchlists && b.active_watchlist_id == a.active_watchlist_id
        && b.watchlist_selected == a.watchlist_selected)
    &&& b == (App {
        layout: b.layout,
        charts: b.charts,
        focused: b.focused,
        indicator_selected: b.indicator_selected,
        watchlists: b.watchlists,
        active_watchlist_id: b.active_watchlist_id,
        watchlist_selected: b.watchlist_selected,
        ..a
    })
}

/// `charts` after each payload in turn replaces configs and series of the first chart
/// with its id.
pub open spec fn payloads_applied<R>(charts: Seq<Chart<R>>, ps: Seq<(String, ChartIndicatorsPayload<R>)>) -> Seq<Chart<R>>
    decreases ps.len(),
{
    if ps.len() == 0 {
        charts
    } else {
        let cs = payloads_applied(charts, ps.drop_last());
        let i = first_index(chart_ids(cs), ps.last().0@);
        if i >= 0 {
            cs.update(i, Chart { indicators: ps.last().1.indicators, indicator_series: ps.last().1.series, ..cs[i] })
        } else {
            cs
        }
    }
}

/// `b` is `a` after the indicator payloads `ps` (selection clamped afterwards).
pub open spec fn payloads_taken<R>(a: App<R>, ps: Seq<(String, ChartIndicatorsPayload<R>)>, b: App<R>) -> bool {
    &&& b.charts@ == payloads_applied(a.charts@, ps)
    &&& b.indicator_selected as int == clamped(a.indicator_selected as int, b.focused_spec().indicators@.len() as int)
    &&& b == (App { charts: b.charts, indicator_selected: b.indicator_selected, ..a })
}

/// `b` is `a` after the quotes `qs`.
pub open spec fn quotes_taken<R>(a: App<R>, qs: Seq<QuoteRow<R>>, b: App<R>) -> bool {
    &&& b.quotes@ == quotes_upserted_all(a.quotes@, qs)
    &&& b == (App { quotes: b.quotes, ..a })
}

/// Index of the chart an engine reply is for: by id when one matches, else by
/// instrument + timeframe, else -1.
pub open spec fn target_chart<R>(charts: Seq<Chart<R>>, id: Option<Seq<char>>, instrument: Seq<char>, timeframe: Seq<char>) -> int {
    let by_id = match id {
        Some(s) => first_index(chart_ids(charts), s),
        None => -1,
    };
    if by_id >= 0 {
        by_id
    } else {
        first_index(charts.map_values(|c: Chart<R>| (c.instrument@, c.timeframe@)), (instrument, timeframe))
    }
}

/// Pin-placed configs (Fixed Range / Anchored VP) of `cfgs` whose id the engine list lacks.
pub open spec fn pending_pins<R>(cfgs: Seq<IndicatorConfig<R>>, engine_ids: Seq<Seq<char>>) -> Seq<IndicatorConfig<R>>
    decreases cfgs.len(),
{
    if cfgs.len() == 0 {
        seq![]
    } else {
        let rest = pending_pins(cfgs.drop_last(), engine_ids);
        let c = cfgs.last();
        if (same_kind(c.indicator_type, IndicatorKind::FixedRangeVp) || same_kind(c.indicator_type, IndicatorKind::AnchoredVp))
            && !engine_ids.contains(c.id@) {
            rest.push(c)
        } else {
            rest
        }
    }
}

/// Chart `nc` is `c` after the engine's history reply `s` for it.
pub open spec fn series_taken<R>(c: Chart<R>, s: ChartInterestResponse<R>, nc: Chart<R>) -> bool {
    &&& nc == (Chart {
        series: nc.series,
        indicators: nc.indicators,
        indicator_series: nc.indicator_series,
        pan_cursor_ts: None,
        pan_at_oldest: false,
        ..c
    })
    &&& nc.indicators@ == s.indicators@ + pending_pins(c.indicators@, config_ids(s.indicators@))
    &&& (if s.status@ == "ok"@ {
        nc.series == (ChartSeriesState::Available { bars: s.bars }) && nc.indicator_series@ == s.series@
    } else if s.status@ == "unavailable"@ {
        nc.series == ChartSeriesState::<R>::Unavailable && nc.indicator_series@.len() == 0
    } else {
        (nc.series matches ChartSeriesState::Error { message } && message@ == "unexpected chart status: "@ + s.status@)
            && nc.indicator_series@ == s.series@
    })
}

/// `bars` after merging each of `updates` in turn.
pub open spec fn merged_all<R>(bars: Seq<OhlcvBar<R>>, updates: Seq<OhlcvBar<R>>) -> Seq<OhlcvBar<R>>
    decreases updates.len(),
{
    if updates.len() == 0 {
        bars
    } else {
        merged_bars(merged_all(bars, updates.drop_last()), updates.last())
    }
}

/// Chart `nc` is `c` after live update `u` (only Available charts with the same
/// instrument and timeframe take it).
pub open spec fn bar_update_taken<R>(c: Chart<R>, u: BarUpdateEvent<R>, nc: Chart<R>) -> bool {
    if c.instrument@ == u.instrument@ && c.timeframe@ == u.timeframe@ && c.series is Available {
        &&& nc == (Chart { series: nc.series, ..c })
        &&& nc.series matches ChartSeriesState::Available { bars } && bars@ == merged_all(c.series->bars@, u.completed_bars@.push(u.bar))
    } else {
        nc == c
    }
}

/// `b` is `a` after feed status `feed`: connected only when the feed is connected and the
/// engine is up.
pub open spec fn feed_set<R>(a: App<R>, feed: FeedSnapshot<R>, b: App<R>) -> bool {
    &&& b.feed == Some(feed)
    &&& (if feed.status@ == "connected"@ && feed.engine@ == "up"@ {
        b.connection == ConnectionStatus::Connected
    } else {
        b.connection matches ConnectionStatus::Disconnected { reason } && reason@ == "feed status="@ + feed.status@
    })
    &&& b == (App { feed: b.feed, connection: b.connection, ..a })
}

/// The app counts as connected only on a feed status whose status is `connected` and
/// whose engine is `up`; on any other feed status it is disconnected with the feed's
/// status as the reason.
pub proof fn lemma_connected_only_when_feed_and_engine_up<R>(a: App<R>, feed: FeedSnapshot<R>, b: App<R>)
    requires
        feed_set(a, feed, b),
    ensures
        b.connection is Connected <==> (feed.status@ == "connected"@ && feed.engine@ == "up"@),
        feed.engine@ != "up"@ ==> b.connection is Disconnected,
        b.feed == Some(feed),
{
}

/// `b` is `a` after leaving Welcome through `m` (after the deferred workspace).
pub open spec fn entered_via<R>(a: App<R>, m: App<R>, b: App<R>) -> bool {
    let a1 = App { screen: Screen::Workspace, pending_workspace: None, ..a };
    &&& (match a.pending_workspace {
        Some(ws) => workspace_applied(a1, ws, m),
        None => m == a1,
    })
    &&& b.pending_quotes@.len() == 0
    &&& b.quotes@ == quotes_upserted_all(m.quotes@, a.pending_quotes@)
    &&& all_reloaded(App { quotes: b.quotes, pending_quotes: b.pending_quotes, ..m }, b)
}

/// Chart index for an engine reply (see `target_chart`).
fn find_chart_index<R>(charts: &Vec<Chart<R>>, chart_id: Option<&str>, instrument: &str, timeframe: &str) -> (r: Option<usize>)
    ensures
        match r {
            Some(i) => i as int == target_chart(charts@, match chart_id { Some(s) => Some(s@), None => None }, instrument@, timeframe@)
                && i < charts@.len(),
            None => target_chart(charts@, match chart_id { Some(s) => Some(s@), None => None }, instrument@, timeframe@) == -1,
        },
{
    match chart_id {
        Some(id) => match chart_position(charts, id) {
            Some(i) => {
                return Some(i);
            },
            None => {},
        },
        None => {},
    }
    let ghost keys = charts@.map_values(|c: Chart<R>| (c.instrument@, c.timeframe@));
    let mut i: usize = 0;
    while i < charts.len()
        invariant
            i <= charts@.len(),
            keys == charts@.map_values(|c: Chart<R>| (c.instrument@, c.timeframe@)),
            forall|j: int| 0 <= j < i ==> keys[j] != (instrument@, timeframe@),
            match chart_id {
                Some(s) => first_index(chart_ids(charts@), s@) == -1,
                None => true,
            },
        decreases charts.len() - i,
    {
        if str_eq(charts[i].instrument.as_str(), instrument) && str_eq(charts[i].timeframe.as_str(), timeframe) {
            proof {
                assert(keys[i as int] == (instrument@, timeframe@));
                lemma_first_index(keys, (instrument@, timeframe@), i as int);
            }
            return Some(i);
        }
        i += 1;
    }
    proof {
        lemma_first_index(keys, (instrument@, timeframe@), i as int);
    }
    None
}


/// `b` is `a` after the history reply `series`.
pub open spec fn chart_series_applied<R>(a: App<R>, series: ChartInterestResponse<R>, b: App<R>) -> bool {
    let i = target_chart(a.charts@, match series.chart_id { Some(s) => Some(s@), None => None },
        series.instrument@, series.timeframe@);
    if i >= 0 && a.charts@[i].instrument@ == series.instrument@ && a.charts@[i].timeframe@ == series.timeframe@ {
        series_taken(a.charts@[i], series, b.charts@[i])
            && a.with_chart(b, i, b.charts@[i])
    } else {
        b == a
    }
}

/// `b` is `a` after a chart-interest failure for chart `chart_id`.
pub open spec fn load_error_taken<R>(a: App<R>, chart_id: Seq<char>, instrument: Seq<char>, timeframe: Seq<char>, message: String, b: App<R>) -> bool {
    let i = target_chart(a.charts@, Some(chart_id), instrument, timeframe);
    if i >= 0 && a.charts@[i].instrument@ == instrument && a.charts@[i].timeframe@ == timeframe {
        a.with_chart(b, i, Chart { series: ChartSeriesState::Error { message }, ..a.charts@[i] })
    } else {
        b == a
    }
}

/// `b` is `a` after the live bar update `update`.
pub open spec fn bars_updated<R>(a: App<R>, update: BarUpdateEvent<R>, b: App<R>) -> bool {
    &&& b.charts@.len() == a.charts@.len()
    &&& forall|i: int| 0 <= i < a.charts@.len() ==> bar_update_taken(a.charts@[i], update, #[trigger] b.charts@[i])
    &&& b == (App { charts: b.charts, ..a })
}

/// `b` is `a` after the engine's reply to an indicator apply.
pub open spec fn indicators_response_taken<R>(a: App<R>, body: IndicatorsApplyResponse<R>, b: App<R>) -> bool {
    let i = first_index(chart_ids(a.charts@), body.chart_id@);
    &&& (i >= 0 ==> b.charts@ == a.charts@.update(i, Chart {
        indicators: body.indicators,
        indicator_series: body.series,
        ..a.charts@[i]
    }))
    &&& (i < 0 ==> b.charts == a.charts)
    &&& b.indicator_selected as int == clamped(a.indicator_selected as int, b.focused_spec().indicators@.len() as int)
    &&& b == (App { charts: b.charts, indicator_selected: b.indicator_selected, last_indicator_error: None, ..a })
}

/// `b` is `a` after a live indicator recompute.
pub open spec fn indicator_update_taken<R>(a: App<R>, update: IndicatorUpdateEvent<R>, b: App<R>) -> bool {
    let i = target_chart(a.charts@, Some(update.chart_id@), update.instrument@, update.timeframe@);
    if i >= 0 && a.charts@[i].instrument@ == update.instrument@ && a.charts@[i].timeframe@ == update.timeframe@ {
        a.with_chart(b, i, Chart { indicators: update.indicators, indicator_series: update.series, ..a.charts@[i] })
    } else {
        b == a
    }
}

/// Move a vector's contents out, leaving it empty.
fn take_all<T>(v: &mut Vec<T>) -> (r: Vec<T>)
    ensures
        r@ == old(v)@,
        final(v)@.len() == 0,
{
    let mut out: Vec<T> = Vec::new();
    std::mem::swap(&mut out, v);
    out
}

impl<R: Copy> App<R> {
    /// Apply the engine workspace (layout + charts + watchlists + indicator configs).
    pub fn apply_workspace(&mut self, ws: WorkspaceSnapshot<R>)
        requires
            old(self).wf(),
            workspace_keys_distinct(ws),
        ensures
            final(self).wf(),
            workspace_applied(*old(self), ws, *final(self)),
    {
        let ghost w = ws;
        let WorkspaceSnapshot { layout_mode, charts, watchlists, active_watchlist_id } = ws;
        self.layout = LayoutMode::from_engine(layout_mode.as_str());
        if charts.len() == 0 {
            let mut v: Vec<Chart<R>> = Vec::new();
            match self.layout {
                LayoutMode::Single => {
                    v.push(Chart::default_single());
                },
                LayoutMode::DualVertical => {
                    v.push(Chart::default_dual_top());
                    v.push(Chart::default_dual_bottom());
                },
            }
            self.charts = v;
        } else {
            let ghost all = charts@;
            let mut rest = charts;
            let mut v: Vec<Chart<R>> = Vec::new();
            let mut i: usize = 0;
            assert(all.len() == rest.len());
            while rest.len() > 0
                invariant
                    rest@ == all.subrange(i as int, all.len() as int),
                    i <= all.len(),
                    all.len() <= usize::MAX,
                    v@.len() == i,
                    forall|j: int| 0 <= j < i ==> chart_from_snapshot(#[trigger] v@[j], all[j]),
                    forall|j: int| 0 <= j < all.len() ==> entry_keys((#[trigger] all[j]).type_styles@).no_duplicates(),
                    charts_keys_distinct(v@),
                decreases rest.len(),
            {
                let c = rest.remove(0);
                let WorkspaceChartSnapshot { id, instrument, timeframe, indicators, type_styles } = c;
                let mut chart = Chart::new(id, instrument, timeframe);
                chart.indicators = indicators;
                chart.type_styles = type_styles;
                proof {
                    assert(entry_keys(all[i as int].type_styles@).no_duplicates());
                    assert(entry_keys(chart.indicator_series@) =~= Seq::<Seq<char>>::empty());
                }
                v.push(chart);
                proof {
                    assert(v@[i as int] == chart);
                }
                i += 1;
                proof {
                    assert(rest@ =~= all.subrange(i as int, all.len() as int));
                }
            }
            self.charts = v;
        }
        if self.focused >= self.charts.len() {
            self.focused = 0;
        }
        self.clamp_indicator_selection();
        if watchlists.len() > 0 {
            self.replace_watchlists(watchlists, active_watchlist_id);
        }
    }

    /// Take indicator configs + series per chart id (always the engine's list, even empty).
    pub fn apply_indicator_payloads(&mut self, payloads: Vec<(String, ChartIndicatorsPayload<R>)>)
        requires
            old(self).wf(),
            payloads_keys_distinct(payloads@),
        ensures
            final(self).wf(),
            payloads_taken(*old(self), payloads@, *final(self)),
    {
        let ghost all = payloads@;
        let mut rest = payloads;
        let mut i: usize = 0;
        assert(all.len() == rest.len());
        while rest.len() > 0
            invariant
                rest@ == all.subrange(i as int, all.len() as int),
                i <= all.len(),
                all.len() <= usize::MAX,
                self.charts@ == payloads_applied(old(self).charts@, all.subrange(0, i as int)),
                self.charts@.len() == old(self).charts@.len(),
                *self == (App { charts: self.charts, ..*old(self) }),
                payloads_keys_distinct(all),
                charts_keys_distinct(self.charts@),
            decreases rest.len(),
        {
            let (chart_id, payload) = rest.remove(0);
            proof {
                assert(all.subrange(0, i + 1).drop_last() =~= all.subrange(0, i as int));
                assert(all.subrange(0, i + 1).last() == (chart_id, payload));
                lemma_payload_ids(old(self).charts@, all.subrange(0, i as int));
            }
            match chart_position(&self.charts, chart_id.as_str()) {
                Some(k) => {
                    proof {
                        assert(all[i as int] == (chart_id, payload));
                        assert(entry_keys(payload.series@).no_duplicates());
                    }
                    let ghost before = self.charts@;
                    let ChartIndicatorsPayload { indicators, series } = payload;
                    self.charts[k].indicators = indicators;
                    self.charts[k].indicator_series = series;
                    proof {
                        assert(before[k as int].keys_distinct());
                        assert(self.charts@[k as int].keys_distinct());
                    }
                },
                None => {},
            }
            i += 1;
            proof {
                assert(rest@ =~= all.subrange(i as int, all.len() as int));
            }
        }
        proof {
            assert(all.subrange(0, i as int) =~= all);
        }
        self.clamp_indicator_selection();
    }

    /// Welcome → workspace: the deferred workspace and quotes apply and every chart loads.
    pub fn enter_workspace(&mut self)
        requires
            old(self).wf(),
        ensures
            final(self).wf(),
            old(self).screen != Screen::Welcome ==> *final(self) == *old(self),
            old(self).screen == Screen::Welcome ==> exists|m: App<R>| entered_via(*old(self), m, *final(self)),
    {
        if self.screen != Screen::Welcome {
            return;
        }
        self.screen = Screen::Workspace;
        let pending = self.pending_workspace.take();
        match pending {
            Some(ws) => {
                self.apply_workspace(ws);
            },
            None => {},
        }
        let ghost m = *self;
        let quotes = take_all(&mut self.pending_quotes);
        if quotes.len() > 0 {
            self.apply_quotes(quotes);
        } else {
            proof {
                assert(quotes_upserted_all(m.quotes@, quotes@) == m.quotes@);
            }
        }
        self.request_chart_load();
        proof {
            assert(entered_via(*old(self), m, *self));
        }
    }

    /// History reply for one chart: configs (keeping local pin drafts the engine does not
    /// know yet), series, status; pan back on the live tip.
    pub fn apply_chart_series(&mut self, series: ChartInterestResponse<R>)
        requires
            old(self).wf(),
            entry_keys(series.series@).no_duplicates(),
        ensures
            final(self).wf(),
            chart_series_applied(*old(self), series, *final(self)),
    {
        let ghost s0 = series;
        let target = match &series.chart_id {
            Some(id) => find_chart_index(&self.charts, Some(id.as_str()), series.instrument.as_str(), series.timeframe.as_str()),
            None => find_chart_index(&self.charts, None, series.instrument.as_str(), series.timeframe.as_str()),
        };
        let idx = match target {
            Some(i) => i,
            None => {
                return;
            },
        };
        // Only apply if it still matches this chart's interest.
        if !(series.instrument == self.charts[idx].instrument) || !(series.timeframe == self.charts[idx].timeframe) {
            return;
        }
        let ChartInterestResponse { instrument, timeframe, status, bars, chart_id, indicators, series: entries } = series;
        let engine_ids = crate::app::edits::ids_of_pub(&indicators);
        let ghost c = self.charts@[idx as int];
        // Local FRVP/AVP configs the engine does not list yet (pin drafts, or pins whose
        // apply has not landed) are kept after the engine's list.
        let mut cfgs = indicators;
        let mut k: usize = 0;
        let ghost base = cfgs@;
        while k < self.charts[idx].indicators.len()
            invariant
                k <= c.indicators@.len(),
                self.charts@[idx as int] == c,
                idx < self.charts@.len(),
                engine_ids@.map_values(|s: String| s@) == config_ids(base),
                cfgs@ == base + pending_pins(c.indicators@.subrange(0, k as int), config_ids(base)),
            decreases c.indicators@.len() - k,
        {
            proof {
                assert(c.indicators@.subrange(0, k + 1).drop_last() =~= c.indicators@.subrange(0, k as int));
            }
            let is_pin = self.charts[idx].indicators[k].indicator_type.same_as(&IndicatorKind::FixedRangeVp)
                || self.charts[idx].indicators[k].indicator_type.same_as(&IndicatorKind::AnchoredVp);
            if is_pin && !crate::app::edits::ids_contain_pub(&engine_ids, &self.charts[idx].indicators[k].id) {
                let d = self.charts[idx].indicators[k].duplicate();
                cfgs.push(d);
                proof {
                    assert(cfgs@ =~= base + pending_pins(c.indicators@.subrange(0, k + 1), config_ids(base)));
                }
            }
            k += 1;
        }
        proof {
            assert(c.indicators@.subrange(0, c.indicators@.len() as int) =~= c.indicators@);
        }
        self.charts[idx].indicators = cfgs;
        self.charts[idx].indicator_series = entries;
        // Fresh interest payload: re-attach pan to the live tip.
        self.charts[idx].reset_pan();
        if str_eq(status.as_str(), "ok") {
            self.charts[idx].series = ChartSeriesState::Available { bars };
        } else if str_eq(status.as_str(), "unavailable") {
            self.charts[idx].series = ChartSeriesState::Unavailable;
            self.charts[idx].indicator_series = Vec::new();
        } else {
            let mut message = String::from_str("unexpected chart status: ");
            message.append(status.as_str());
            self.charts[idx].series = ChartSeriesState::Error { message };
        }
        proof {
            assert(self.charts@ =~= old(self).charts@.update(idx as int, self.charts@[idx as int]));
        }
    }

    /// Chart-interest failure: the matching chart shows the error (stale failures ignored).
    pub fn apply_chart_load_error(&mut self, chart_id: &str, instrument: &str, timeframe: &str, message: String)
        requires
            old(self).wf(),
        ensures
            final(self).wf(),
            load_error_taken(*old(self), chart_id@, instrument@, timeframe@, message, *final(self)),
    {
        let idx = match find_chart_index(&self.charts, Some(chart_id), instrument, timeframe) {
            Some(i) => i,
            None => {
                return;
            },
        };
        // Ignore stale failures from a prior instrument/timeframe selection.
        if !str_eq(instrument, self.charts[idx].instrument.as_str()) || !str_eq(timeframe, self.charts[idx].timeframe.as_str()) {
            return;
        }
        self.charts[idx].series = ChartSeriesState::Error { message };
        proof {
            assert(self.charts@ =~= old(self).charts@.update(idx as int, self.charts@[idx as int]));
        }
    }

    /// Apply a conflated live bar tip (and any completed bars from a period roll).
    pub fn apply_bar_update(&mut self, update: BarUpdateEvent<R>)
        requires
            old(self).wf(),
        ensures
            final(self).wf(),
            bars_updated(*old(self), update, *final(self)),
    {
        let mut i: usize = 0;
        while i < self.charts.len()
            invariant
                i <= self.charts@.len(),
                self.charts@.len() == old(self).charts@.len(),
                forall|j: int| 0 <= j < i ==> bar_update_taken(old(self).charts@[j], update, #[trigger] self.charts@[j]),
                forall|j: int| i <= j < self.charts@.len() ==> #[trigger] self.charts@[j] == old(self).charts@[j],
                *self == (App { charts: self.charts, ..*old(self) }),
            decreases self.charts.len() - i,
        {
            if str_eq(update.instrument.as_str(), self.charts[i].instrument.as_str())
                && str_eq(update.timeframe.as_str(), self.charts[i].timeframe.as_str()) {
                let mut s = ChartSeriesState::Idle;
                std::mem::swap(&mut s, &mut self.charts[i].series);
                match s {
                    ChartSeriesState::Available { bars } => {
                        let mut bars = bars;
                        let ghost b0 = bars@;
                        let mut k: usize = 0;
                        while k < update.completed_bars.len()
                            invariant
                                k <= update.completed_bars@.len(),
                                bars@ == merged_all(b0, update.completed_bars@.subrange(0, k as int)),
                            decreases update.completed_bars.len() - k,
                        {
                            proof {
                                assert(update.completed_bars@.subrange(0, k + 1).drop_last() =~= update.completed_bars@.subrange(0, k as int));
                            }
                            merge_bar(&mut bars, update.completed_bars[k]);
                            k += 1;
                        }
                        proof {
                            let all = update.completed_bars@.push(update.bar);
                            assert(all.drop_last() =~= update.completed_bars@.subrange(0, k as int));
                        }
                        merge_bar(&mut bars, update.bar);
                        self.charts[i].series = ChartSeriesState::Available { bars };
                    },
                    other => {
                        self.charts[i].series = other;
                    },
                }
            }
            assert(bar_update_taken(old(self).charts@[i as int], update, self.charts@[i as int]));
            i += 1;
        }
    }

    /// Take a feed status: connected only when the feed is connected and the engine is up.
    fn set_feed(&mut self, feed: FeedSnapshot<R>)
        ensures
            feed_set(*old(self), feed, *final(self)),
    {
        let connected = str_eq(feed.status.as_str(), "connected") && str_eq(feed.engine.as_str(), "up");
        if connected {
            self.connection = ConnectionStatus::Connected;
        } else {
            let mut reason = String::from_str("feed status=");
            reason.append(feed.status.as_str());
            self.connection = ConnectionStatus::Disconnected { reason };
        }
        self.feed = Some(feed);
    }

    /// Vendor mode of the feed, or `—` before the first status.
    pub fn vendor_mode_label(&self) -> (r: &str)
        ensures
            r@ == (match self.feed { Some(f) => f.vendor_mode@, None => "—"@ }),
    {
        match &self.feed {
            Some(f) => f.vendor_mode.as_str(),
            None => "—",
        }
    }

    /// Empty-state copy for the focused chart when the vendor cannot serve it.
    pub fn empty_state_copy(&self) -> (r: Option<&'static str>)
        requires
            self.wf(),
        ensures
            self.focused_spec().series is Unavailable ==> (r matches Some(s) && s@ == UNAVAILABLE_COPY@),
            !(self.focused_spec().series is Unavailable) ==> r is None,
    {
        self.empty_state_copy_for(self.focused_chart())
    }

    /// Empty-state copy for `chart` when the vendor cannot serve it.
    pub fn empty_state_copy_for(&self, chart: &Chart<R>) -> (r: Option<&'static str>)
        ensures
            chart.series is Unavailable ==> (r matches Some(s) && s@ == UNAVAILABLE_COPY@),
            !(chart.series is Unavailable) ==> r is None,
    {
        match chart.series {
            ChartSeriesState::Unavailable => Some(UNAVAILABLE_COPY),
            _ => None,
        }
    }

    /// Engine reply to an indicator apply: the chart takes the engine's configs and series.
    pub fn apply_indicators_response(&mut self, body: IndicatorsApplyResponse<R>)
        requires
            old(self).wf(),
            entry_keys(body.series@).no_duplicates(),
        ensures
            final(self).wf(),
            indicators_response_taken(*old(self), body, *final(self)),
    {
        let IndicatorsApplyResponse { chart_id, indicators, series } = body;
        match chart_position(&self.charts, chart_id.as_str()) {
            Some(k) => {
                self.charts[k].indicators = indicators;
                self.charts[k].indicator_series = series;
                proof {
                    assert(self.charts@ =~= old(self).charts@.update(k as int, self.charts@[k as int]));
                }
            },
            None => {},
        }
        self.last_indicator_error = None;
        self.clamp_indicator_selection();
    }

    /// Live indicator recompute: the matching chart takes the full config list and series.
    pub fn apply_indicator_update(&mut self, update: IndicatorUpdateEvent<R>)
        requires
            old(self).wf(),
            entry_keys(update.series@).no_duplicates(),
        ensures
            final(self).wf(),
            indicator_update_taken(*old(self), update, *final(self)),
    {
        let idx = match find_chart_index(&self.charts, Some(update.chart_id.as_str()), update.instrument.as_str(), update.timeframe.as_str()) {
            Some(i) => i,
            None => {
                return;
            },
        };
        if !(update.instrument == self.charts[idx].instrument) || !(update.timeframe == self.charts[idx].timeframe) {
            return;
        }
        let IndicatorUpdateEvent { chart_id, instrument, timeframe, indicators, series } = update;
        self.charts[idx].indicators = indicators;
        self.charts[idx].indicator_series = series;
        proof {
            assert(self.charts@ =~= old(self).charts@.update(idx as int, self.charts@[idx as int]));
        }
    }
}

proof fn lemma_payload_ids<R>(charts: Seq<Chart<R>>, ps: Seq<(String, ChartIndicatorsPayload<R>)>)
    ensures
        payloads_applied(charts, ps).len() == charts.len(),
        chart_ids(payloads_applied(charts, ps)) == chart_ids(charts),
    decreases ps.len(),
{
    if ps.len() > 0 {
        lemma_payload_ids(charts, ps.drop_last());
        let cs = payloads_applied(charts, ps.drop_last());
        let i = first_index(chart_ids(cs), ps.last().0@);
        if i >= 0 {
            crate::app::lemma_first_index_range(chart_ids(cs), ps.last().0@);
            assert(chart_ids(payloads_applied(charts, ps)) =~= chart_ids(cs));
        }
    }
}


/// `m` is `a` after a snapshot's feed and paper desk.
pub open spec fn snapshot_head<R>(a: App<R>, feed: FeedSnapshot<R>, paper: PaperSnapshot<R>, m: App<R>) -> bool {
    let m0 = App { paper: a.paper, last_paper_error: a.last_paper_error, order_side: a.order_side, ..m };
    &&& feed_set(App { last_vendor_tick_ts: feed.last_vendor_tick_ts, ..a }, feed, m0)
    &&& paper_applied(m0, paper, m)
}

/// `b` is `a` after an engine snapshot, through the intermediate states `m`..`m3`: on
/// Welcome the workspace and quotes wait for Enter; in the workspace they apply, with the
/// indicator payloads, and every chart reloads.
pub open spec fn snapshot_chain<R>(
    a: App<R>,
    feed: FeedSnapshot<R>,
    workspace: Option<WorkspaceSnapshot<R>>,
    quotes: Vec<QuoteRow<R>>,
    indicators: Seq<(String, ChartIndicatorsPayload<R>)>,
    paper: PaperSnapshot<R>,
    m: App<R>,
    m1: App<R>,
    m2: App<R>,
    m3: App<R>,
    b: App<R>,
) -> bool {
    &&& snapshot_head(a, feed, paper, m)
    &&& match workspace {
        Some(ws) => if m.screen == Screen::Welcome {
            b == (App { pending_workspace: Some(ws), pending_quotes: quotes, ..m })
        } else {
            workspace_applied(m, ws, m1) && quotes_taken(m1, quotes@, m2) && payloads_taken(m2, indicators, m3)
                && all_reloaded(m3, b)
        },
        None => {
            &&& (quotes@.len() > 0 && m.screen == Screen::Welcome ==> m1 == (App { pending_quotes: quotes, ..m }))
            &&& (quotes@.len() > 0 && m.screen != Screen::Welcome ==> quotes_taken(m, quotes@, m1))
            &&& (quotes@.len() == 0 ==> m1 == m)
            &&& (m.screen == Screen::Workspace ==> payloads_taken(m1, indicators, m2) && all_reloaded(m2, b))
            &&& (m.screen != Screen::Workspace ==> b == m1)
        },
    }
}

/// `b` is `a` after the engine event `e`.
pub open spec fn ipc_applied<R>(a: App<R>, e: IpcEvent<R>, b: App<R>) -> bool {
    match e {
        IpcEvent::Snapshot { feed, workspace, quotes, indicators, paper } =>
            exists|m: App<R>, m1: App<R>, m2: App<R>, m3: App<R>|
                snapshot_chain(a, feed, workspace, quotes, indicators@, paper, m, m1, m2, m3, b),
        IpcEvent::FeedStatus { status, vendor_mode, last_vendor_tick_ts } => {
            &&& b.feed matches Some(f) && f.status == status && f.vendor_mode == vendor_mode
                && f.engine@ == (match a.feed { Some(old_f) => old_f.engine@, None => "up"@ })
                && f.last_vendor_tick_ts == last_vendor_tick_ts
            &&& feed_set(App { last_vendor_tick_ts, ..a }, b.feed.unwrap(), b)
        },
        IpcEvent::Heartbeat { ts, last_vendor_tick_ts } => b == (App {
            last_heartbeat_ts: Some(ts),
            last_vendor_tick_ts,
            feed: match a.feed { Some(f) => Some(FeedSnapshot { last_vendor_tick_ts, ..f }), None => None },
            connection: if a.connection is Connecting { ConnectionStatus::Connected } else { a.connection },
            ..a
        }),
        IpcEvent::ChartSeries(s) => chart_series_applied(a, s, b),
        IpcEvent::BarUpdate(u) => bars_updated(a, u, b),
        IpcEvent::QuoteUpdate(u) => b.quotes@ == crate::app::quote_upserted(a.quotes@, u.row_spec())
            && b == (App { quotes: b.quotes, ..a }),
        IpcEvent::IndicatorUpdate(u) => indicator_update_taken(a, u, b),
        IpcEvent::PaperUpdate(p) => paper_applied(a, p, b),
        IpcEvent::IndicatorsApplied(body) => indicators_response_taken(a, body, b),
        IpcEvent::Workspace(ws) => exists|m: App<R>| workspace_applied(a, ws, m) && all_reloaded(m, b),
        IpcEvent::WatchlistState { workspace, quotes } =>
            crate::app::watchlist::watchlist_state_taken(a, workspace, quotes@, b),
        IpcEvent::ChartLoadFailed { chart_id, instrument, timeframe, message } =>
            load_error_taken(a, chart_id@, instrument@, timeframe@, message, b),
        IpcEvent::WorkspaceFailed { .. } => b == a,
        IpcEvent::WatchlistFailed { .. } => b == a,
        IpcEvent::PaperFailed { message } => b == (App { last_paper_error: Some(message), ..a }),
        IpcEvent::IndicatorsFailed { message } => b == (App { last_indicator_error: Some(message), ..a }),
        IpcEvent::Disconnected { reason } => b == (App { connection: ConnectionStatus::Disconnected { reason }, ..a }),
    }
}

/// On a feed-status event the app is connected exactly when the event's status is
/// `connected` and the engine is `up`; the engine state stays what the last snapshot said
/// (`up` when there was none).
pub proof fn lemma_feed_status_event_connection<R>(a: App<R>, e: IpcEvent<R>, b: App<R>)
    requires
        e is FeedStatus,
        ipc_applied(a, e, b),
    ensures
        b.feed matches Some(f) && f.status == e->FeedStatus_status
            && f.engine@ == (match a.feed { Some(old_f) => old_f.engine@, None => "up"@ })
            && (b.connection is Connected <==> (f.status@ == "connected"@ && f.engine@ == "up"@)),
{
    match e {
        IpcEvent::FeedStatus { status, vendor_mode, last_vendor_tick_ts } => {
            lemma_connected_only_when_feed_and_engine_up(App { last_vendor_tick_ts, ..a }, b.feed.unwrap(), b);
        },
        _ => {},
    }
}

/// A heartbeat records its time, turns a connecting app connected, and leaves a connected
/// or disconnected app as it was; it touches no chart, watchlist or quote.
pub proof fn lemma_heartbeat_connects<R>(a: App<R>, e: IpcEvent<R>, b: App<R>)
    requires
        e is Heartbeat,
        ipc_applied(a, e, b),
    ensures
        b.last_heartbeat_ts == Some(e->Heartbeat_ts),
        a.connection is Connecting ==> b.connection is Connected,
        !(a.connection is Connecting) ==> b.connection == a.connection,
        b.charts == a.charts,
        b.quotes == a.quotes,
        b.watchlists == a.watchlists,
        b.screen == a.screen,
{
}

/// A live quote becomes the quote looked up for its symbol; every other symbol's quote is
/// unchanged, and nothing but the quotes changes.
pub proof fn lemma_quote_update_read_back<R>(a: App<R>, e: IpcEvent<R>, b: App<R>, other: Seq<char>)
    requires
        e is QuoteUpdate,
        ipc_applied(a, e, b),
    ensures
        crate::app::quote_lookup(b.quotes@, e->QuoteUpdate_0.symbol@) == Some(e->QuoteUpdate_0.row_spec()),
        other != e->QuoteUpdate_0.symbol@ ==> crate::app::quote_lookup(b.quotes@, other)
            == crate::app::quote_lookup(a.quotes@, other),
        b == (App { quotes: b.quotes, ..a }),
{
    crate::app::lemma_upsert_lookup(a.quotes@, e->QuoteUpdate_0.row_spec(), other);
}

/// A disconnect event leaves the app disconnected with the event's reason; a failed paper
/// or indicator call shows the engine's message and changes nothing else.
pub proof fn lemma_failure_events_report<R>(a: App<R>, e: IpcEvent<R>, b: App<R>)
    requires
        ipc_applied(a, e, b),
    ensures
        e is Disconnected ==> (b.connection matches ConnectionStatus::Disconnected { reason }
            && reason == e->Disconnected_reason && b == (App { connection: b.connection, ..a })),
        e is PaperFailed ==> b.last_paper_error == Some(e->PaperFailed_message)
            && b == (App { last_paper_error: b.last_paper_error, ..a }),
        e is IndicatorsFailed ==> b.last_indicator_error == Some(e->IndicatorsFailed_message)
            && b == (App { last_indicator_error: b.last_indicator_error, ..a }),
        (e is WorkspaceFailed || e is WatchlistFailed) ==> b == a,
{
}

/// A history reply for chart `i` (found by id, else by instrument and timeframe) whose
/// instrument and timeframe are the chart's own: an `ok` reply shows exactly the reply's
/// bars and series, `unavailable` shows the unavailable state with no series, any other
/// status an error naming it; the pan goes back to the live tip and no other chart
/// changes. A reply for an instrument or timeframe the chart no longer shows changes
/// nothing.
pub proof fn lemma_chart_history_shown<R>(a: App<R>, e: IpcEvent<R>, b: App<R>)
    requires
        e is ChartSeries,
        ipc_applied(a, e, b),
    ensures
        ({
            let s = e->ChartSeries_0;
            let i = target_chart(a.charts@, match s.chart_id { Some(c) => Some(c@), None => None },
                s.instrument@, s.timeframe@);
            if i >= 0 && a.charts@[i].instrument@ == s.instrument@ && a.charts@[i].timeframe@ == s.timeframe@ {
                let nc = b.charts@[i];
                &&& b.charts@.len() == a.charts@.len()
                &&& forall|j: int| 0 <= j < a.charts@.len() && j != i ==> b.charts@[j] == a.charts@[j]
                &&& nc.pan_cursor_ts is None && !nc.pan_at_oldest
                &&& nc.instrument == a.charts@[i].instrument && nc.timeframe == a.charts@[i].timeframe
                &&& (s.status@ == "ok"@ ==> nc.series == (ChartSeriesState::Available { bars: s.bars })
                    && nc.indicator_series@ == s.series@)
                &&& (s.status@ == "unavailable"@ ==> nc.series is Unavailable && nc.indicator_series@.len() == 0)
                &&& (s.status@ != "ok"@ && s.status@ != "unavailable"@ ==> (nc.series matches ChartSeriesState::Error { message }
                    && message@ == "unexpected chart status: "@ + s.status@))
            } else {
                b == a
            }
        }),
{
    let s = e->ChartSeries_0;
    lemma_target_chart_bound(a.charts@, match s.chart_id { Some(c) => Some(c@), None => None },
        s.instrument@, s.timeframe@);
    reveal_strlit("ok");
    reveal_strlit("unavailable");
    assert("ok"@ != "unavailable"@) by {
        assert("ok"@.len() != "unavailable"@.len());
    }
}

/// `target_chart` names a chart of `charts`, or is -1.
proof fn lemma_target_chart_bound<R>(charts: Seq<Chart<R>>, id: Option<Seq<char>>, instrument: Seq<char>, timeframe: Seq<char>)
    ensures
        -1 <= target_chart(charts, id, instrument, timeframe) < charts.len(),
{
    match id {
        Some(s) => crate::app::lemma_first_index_range(chart_ids(charts), s),
        None => {},
    }
    crate::app::lemma_first_index_range(
        charts.map_values(|c: Chart<R>| (c.instrument@, c.timeframe@)),
        (instrument, timeframe),
    );
}

impl<R: Copy> App<R> {
    /// Apply one engine event to the workspace.
    pub fn apply_ipc(&mut self, event: IpcEvent<R>)
        requires
            old(self).wf(),
            ipc_keys_distinct(event),
        ensures
            final(self).wf(),
            ipc_applied(*old(self), event, *final(self)),
    {
        match event {
            IpcEvent::Snapshot { feed, workspace, quotes, indicators, paper } => {
                let ghost w0 = workspace;
                let ghost q0 = quotes;
                let ghost i0 = indicators@;
                self.last_vendor_tick_ts = feed.last_vendor_tick_ts;
                self.set_feed(feed);
                self.apply_paper(paper);
                let ghost m = *self;
                let ghost mut m1 = *self;
                let ghost mut m2 = *self;
                let ghost mut m3 = *self;
                match workspace {
                    Some(ws) => {
                        if self.screen == Screen::Welcome {
                            // Defer until Enter so Welcome stays clean; still stash for restore.
                            self.pending_workspace = Some(ws);
                            self.pending_quotes = quotes;
                        } else {
                            self.apply_workspace(ws);
                            proof { m1 = *self; }
                            self.apply_quotes(quotes);
                            proof { m2 = *self; }
                            self.apply_indicator_payloads(indicators);
                            proof { m3 = *self; }
                            self.request_chart_load();
                        }
                    },
                    None => {
                        if quotes.len() > 0 {
                            if self.screen == Screen::Welcome {
                                self.pending_quotes = quotes;
                            } else {
                                self.apply_quotes(quotes);
                            }
                        }
                        proof { m1 = *self; }
                        if self.screen == Screen::Workspace {
                            self.apply_indicator_payloads(indicators);
                            proof { m2 = *self; }
                            self.request_chart_load();
                        }
                    },
                }
                proof {
                    assert(snapshot_chain(*old(self), feed, w0, q0, i0, paper, m, m1, m2, m3, *self));
                }
            },
            IpcEvent::FeedStatus { status, vendor_mode, last_vendor_tick_ts } => {
                let engine = match &self.feed {
                    Some(f) => f.engine.clone(),
                    None => String::from_str("up"),
                };
                self.last_vendor_tick_ts = last_vendor_tick_ts;
                self.set_feed(FeedSnapshot { status, vendor_mode, engine, last_vendor_tick_ts });
            },
            IpcEvent::Heartbeat { ts, last_vendor_tick_ts } => {
                self.last_heartbeat_ts = Some(ts);
                self.last_vendor_tick_ts = last_vendor_tick_ts;
                match &mut self.feed {
                    Some(f) => {
                        f.last_vendor_tick_ts = last_vendor_tick_ts;
                    },
                    None => {},
                }
                if matches!(self.connection, ConnectionStatus::Connecting) {
                    self.connection = ConnectionStatus::Connected;
                }
            },
            IpcEvent::ChartSeries(series) => {
                self.apply_chart_series(series);
            },
            IpcEvent::BarUpdate(update) => {
                self.apply_bar_update(update);
            },
            IpcEvent::QuoteUpdate(update) => {
                self.apply_quote_update(update);
            },
            IpcEvent::IndicatorUpdate(update) => {
                self.apply_indicator_update(update);
            },
            IpcEvent::PaperUpdate(paper) => {
                self.apply_paper(paper);
            },
            IpcEvent::IndicatorsApplied(body) => {
                self.apply_indicators_response(body);
            },
            IpcEvent::Workspace(ws) => {
                self.apply_workspace(ws);
                let ghost m = *self;
                self.request_chart_load();
                proof {
                    assert(workspace_applied(*old(self), ws, m) && all_reloaded(m, *self));
                }
            },
            IpcEvent::WatchlistState { workspace, quotes } => {
                self.apply_watchlist_state(workspace, quotes);
            },
            IpcEvent::ChartLoadFailed { chart_id, instrument, timeframe, message } => {
                self.apply_chart_load_error(chart_id.as_str(), instrument.as_str(), timeframe.as_str(), message);
            },
            IpcEvent::WorkspaceFailed { .. } => {
                // Leave layout unchanged; the trader can retry the toggle.
            },
            IpcEvent::WatchlistFailed { .. } => {
                // Leave membership unchanged; the trader can retry.
            },
            IpcEvent::PaperFailed { message } => {
                self.last_paper_error = Some(message);
            },
            IpcEvent::IndicatorsFailed { message } => {
                // Keep the local indicator draft; surface the engine's reason.
                self.last_indicator_error = Some(message);
            },
            IpcEvent::Disconnected { reason } => {
                self.connection = ConnectionStatus::Disconnected { reason };
            },
        }
    }
}

} // verus!
