//! Pin placement for Fixed Range VP (two pins) and Anchored VP (one pin), and anchor edits.
use vstd::prelude::*;
use crate::app::edits::{current_row_ready, max_for_key, sel_cfg, selected_set, selected_toggled};
use crate::app::indicators::{
    armed_for, count_of_kind, default_ma_adds, default_ma_length, edited_and_armed, failed_with,
    focused_configs, gex_added, garch_added, has_ma_length, ma_lines_are, ma_stack_added,
    session_vp_added, volume_added,
};
use crate::app::{
    available_kind, bar_times, chart_ids, chart_position, clamped, count_kind, first_index, App,
    AvpPlaceState, Chart, ChartSeriesState, FrvpPinPhase, FrvpPlaceState, IndicatorListSide,
    InputMode, MAX_ANCHORED_VP, MAX_FIXED_RANGE_VP,
};
use crate::calendar::{cash_open_instant, cash_open_ny, MAX_NY_TS, MIN_NY_TS};
use crate::model::{
    kind_key, lemma_kind_key_lengths, same_kind, spec_anchored_vp, spec_fixed_range_vp, IndicatorConfig, IndicatorKind,
    OhlcvBar,
};
use crate::text::{decimal, push_decimal, str_eq};

verus! {

/// Distance between two instants.
pub open spec fn dist(a: int, b: int) -> int {
    if a >= b { a - b } else { b - a }
}

/// Index of the first timestamp of `ts` closest to `t` (0 for an empty list).
pub open spec fn nearest_index(ts: Seq<i64>, t: int) -> int
    decreases ts.len(),
{
    if ts.len() <= 1 {
        0
    } else {
        let p = nearest_index(ts.drop_last(), t);
        if dist(ts.last() as int, t) < dist(ts[p] as int, t) {
            ts.len() - 1
        } else {
            p
        }
    }
}

proof fn lemma_nearest_range(ts: Seq<i64>, t: int)
    ensures
        ts.len() > 0 ==> 0 <= nearest_index(ts, t) < ts.len(),
    decreases ts.len(),
{
    if ts.len() > 1 {
        lemma_nearest_range(ts.drop_last(), t);
    }
}

/// The nearest index names a timestamp at least as close to `t` as every other one, and
/// the first of the closest ones: every earlier timestamp is strictly farther.
pub proof fn lemma_nearest_is_closest_first(ts: Seq<i64>, t: int)
    requires
        ts.len() > 0,
    ensures
        0 <= nearest_index(ts, t) < ts.len(),
        forall|j: int| 0 <= j < ts.len() ==> dist(ts[nearest_index(ts, t)] as int, t) <= dist(#[trigger] ts[j] as int, t),
        forall|j: int| 0 <= j < nearest_index(ts, t) ==> dist(ts[nearest_index(ts, t)] as int, t) < dist(#[trigger] ts[j] as int, t),
    decreases ts.len(),
{
    if ts.len() > 1 {
        let d = ts.drop_last();
        lemma_nearest_is_closest_first(d, t);
        let p = nearest_index(d, t);
        assert forall|j: int| 0 <= j < d.len() implies #[trigger] ts[j] == d[j] by {}
        assert(ts[p] == d[p]);
    }
}

/// `v` clamped into `lo..=hi`.
pub open spec fn clamp_int(v: int, lo: int, hi: int) -> int {
    if v < lo { lo } else if v > hi { hi } else { v }
}

/// Bars of a chart series, when it has them.
pub open spec fn series_bars<R>(s: ChartSeriesState<R>) -> Seq<OhlcvBar<R>> {
    match s {
        ChartSeriesState::Available { bars } => bars@,
        _ => seq![],
    }
}

/// Bars of the first chart of `a` whose id is `id` (none when no chart has that id).
pub open spec fn bars_of_chart<R>(a: App<R>, id: Seq<char>) -> Seq<OhlcvBar<R>> {
    let i = first_index(chart_ids(a.charts@), id);
    if i >= 0 {
        series_bars(a.charts@[i].series)
    } else {
        seq![]
    }
}

/// 09:30 New York on the day of `ts`, for instants the calendar covers
/// (`MIN_NY_TS..=MAX_NY_TS`, years within about ±2147478800). Beyond that the calendar's
/// `i32` year arithmetic would overflow; there is no cash open, and the anchored profile's
/// default anchor falls back to the first bar rather than failing.
pub open spec fn cash_open_of(ts: i64) -> Option<int> {
    if MIN_NY_TS <= ts <= MAX_NY_TS {
        Some(cash_open_instant(ts as int))
    } else {
        None
    }
}

/// Configs of `cfgs` whose id is not `id`, in order.
pub open spec fn configs_without_id<R>(cfgs: Seq<IndicatorConfig<R>>, id: Seq<char>) -> Seq<IndicatorConfig<R>>
    decreases cfgs.len(),
{
    if cfgs.len() == 0 {
        seq![]
    } else if cfgs.last().id@ == id {
        configs_without_id(cfgs.drop_last(), id)
    } else {
        configs_without_id(cfgs.drop_last(), id).push(cfgs.last())
    }
}

/// Index of the first config of `cfgs` whose id is `id`, or -1.
pub open spec fn config_index<R>(cfgs: Seq<IndicatorConfig<R>>, id: Seq<char>) -> int {
    first_index(cfgs.map_values(|c: IndicatorConfig<R>| c.id@), id)
}

/// Index of the closest bar to `t` (first on ties).
pub fn nearest_bar<R>(bars: &[OhlcvBar<R>], t: i64) -> (r: usize)
    requires
        bars@.len() > 0,
    ensures
        r as int == nearest_index(bar_times(bars@), t as int),
        r < bars@.len(),
{
    let ghost ts = bar_times(bars@);
    let mut best_i: usize = 0;
    let mut best_d: i128 = (bars[0].ts as i128 - t as i128);
    if best_d < 0 {
        best_d = -best_d;
    }
    let mut i: usize = 1;
    proof {
        assert(ts.subrange(0, 1).len() == 1);
    }
    while i < bars.len()
        invariant
            1 <= i <= bars@.len(),
            ts == bar_times(bars@),
            best_i as int == nearest_index(ts.subrange(0, i as int), t as int),
            best_i < i,
            best_d == dist(ts[best_i as int] as int, t as int),
        decreases bars.len() - i,
    {
        let mut d: i128 = bars[i].ts as i128 - t as i128;
        if d < 0 {
            d = -d;
        }
        proof {
            let pre = ts.subrange(0, i + 1);
            assert(pre.drop_last() =~= ts.subrange(0, i as int));
            assert(pre.last() == ts[i as int]);
            assert(pre[best_i as int] == ts[best_i as int]);
        }
        if d < best_d {
            best_d = d;
            best_i = i;
        }
        i += 1;
    }
    proof {
        assert(ts.subrange(0, bars@.len() as int) =~= ts);
    }
    best_i
}

/// Index of the first config with id `id`.
fn config_position<R>(cfgs: &Vec<IndicatorConfig<R>>, id: &String) -> (r: Option<usize>)
    ensures
        match r {
            Some(i) => i as int == config_index(cfgs@, id@) && i < cfgs@.len(),
            None => config_index(cfgs@, id@) == -1,
        },
{
    let ghost ids = cfgs@.map_values(|c: IndicatorConfig<R>| c.id@);
    let mut i: usize = 0;
    while i < cfgs.len()
        invariant
            i <= cfgs@.len(),
            ids == cfgs@.map_values(|c: IndicatorConfig<R>| c.id@),
            forall|j: int| 0 <= j < i ==> ids[j] != id@,
        decreases cfgs.len() - i,
    {
        if cfgs[i].id == *id {
            proof {
                crate::app::lemma_first_index(ids, id@, i as int);
            }
            return Some(i);
        }
        i += 1;
    }
    proof {
        crate::app::lemma_first_index(ids, id@, i as int);
    }
    None
}

/// Configs whose id is not `id`, in order (consumes `cfgs`).
fn drop_config_id<R>(cfgs: Vec<IndicatorConfig<R>>, id: &String) -> (r: Vec<IndicatorConfig<R>>)
    ensures
        r@ == configs_without_id(cfgs@, id@),
{
    let ghost all = cfgs@;
    let mut rest = cfgs;
    let mut out: Vec<IndicatorConfig<R>> = Vec::new();
    let mut i: usize = 0;
    assert(all.len() == rest.len());
    while rest.len() > 0
        invariant
            rest@ == all.subrange(i as int, all.len() as int),
            i <= all.len(),
            all.len() <= usize::MAX,
            out@ == configs_without_id(all.subrange(0, i as int), id@),
        decreases rest.len(),
    {
        let c = rest.remove(0);
        proof {
            assert(all.subrange(0, i + 1).drop_last() =~= all.subrange(0, i as int));
            assert(all.subrange(0, i + 1).last() == c);
        }
        if !(c.id == *id) {
            out.push(c);
        }
        i += 1;
        proof {
            assert(rest@ =~= all.subrange(i as int, all.len() as int));
        }
    }
    assert(all.subrange(0, i as int) =~= all);
    out
}

/// `prefix<n>`.
fn numbered_id(prefix: &str, n: usize) -> (r: String)
    ensures
        r@ == prefix@ + decimal(n as nat),
{
    let mut s = String::from_str(prefix);
    push_decimal(&mut s, n as u64);
    s
}

/// Number of bars on a chart series (0 unless Available).
fn bar_count<R>(s: &ChartSeriesState<R>) -> (r: usize)
    ensures
        r as int == series_bars(*s).len(),
{
    match s {
        ChartSeriesState::Available { bars } => bars.len(),
        _ => 0,
    }
}


/// The effect of adding a Fixed Range VP on `a`: a disabled draft with provisional equal
/// anchors on the tip, and two-pin placement starting at the tip.
pub open spec fn frvp_added<R>(a: App<R>, b: App<R>) -> bool {
    let c = a.focused_spec();
    let cfgs = c.indicators@;
    let bars = series_bars(c.series);
    let cnt = count_kind(cfgs, IndicatorKind::FixedRangeVp);
    let id = "frvp"@ + decimal((cnt + 1) as nat);
    let nc = b.focused_spec().indicators@.last();
    if !(a.input_mode is IndicatorPanel || a.input_mode is Normal) {
        b == a
    } else if bars.len() == 0 {
        failed_with(a, b, "Fixed Range VP needs bars on the chart before placing pins"@)
    } else if cnt >= 4 {
        failed_with(a, b, "Fixed Range VP limit is 4 per chart"@)
    } else {
        &&& !nc.enabled
        &&& spec_fixed_range_vp(id, bars.last().ts, bars.last().ts, a.presets, IndicatorConfig { enabled: true, ..nc })
        &&& focused_configs(a, b, cfgs.push(nc))
        &&& b.indicator_selected == cfgs.len()
        &&& b.frvp_place matches Some(pl) && pl.chart_id@ == c.id@ && pl.indicator_id@ == id
            && pl.phase == FrvpPinPhase::Start && pl.cursor_bar == bars.len() - 1 && pl.start_bar is None && pl.is_new
        &&& b.input_mode == InputMode::FrvpPlacing
        &&& b.last_indicator_error is None
        &&& b == (App {
            charts: b.charts,
            indicator_selected: b.indicator_selected,
            frvp_place: b.frvp_place,
            input_mode: b.input_mode,
            last_indicator_error: b.last_indicator_error,
            ..a
        })
    }
}

/// Anchor of a new Anchored VP: 09:30 New York on the last bar's day, or the first bar
/// when that is after the whole series (or outside the calendar).
pub open spec fn default_avp_anchor<R>(bars: Seq<OhlcvBar<R>>) -> int {
    match cash_open_of(bars.last().ts) {
        Some(cash) => if cash > bars.last().ts { bars[0].ts as int } else { cash },
        None => bars[0].ts as int,
    }
}

/// The effect of adding an Anchored VP on `a` (applied immediately).
pub open spec fn avp_added<R>(a: App<R>, b: App<R>) -> bool {
    let c = a.focused_spec();
    let cfgs = c.indicators@;
    let bars = series_bars(c.series);
    let cnt = count_kind(cfgs, IndicatorKind::AnchoredVp);
    let nc = b.focused_spec().indicators@.last();
    if !(a.input_mode is IndicatorPanel) {
        b == a
    } else if bars.len() == 0 {
        failed_with(a, b, "Anchored VP needs bars on the chart (load history first)"@)
    } else if cnt >= 2 {
        failed_with(a, b, "Anchored VP limit is 2 per chart"@)
    } else {
        &&& spec_anchored_vp("avp"@ + decimal((cnt + 1) as nat), default_avp_anchor(bars) as i64, a.presets, nc)
        &&& edited_and_armed(a, b, cfgs.push(nc), cfgs.len() as int, true)
    }
}

/// `b` is `a` after a pin draft of `chart_id` is cancelled: a new draft's config and series go.
pub open spec fn pin_cancelled<R>(a: App<R>, b: App<R>, chart_id: Seq<char>, indicator_id: Seq<char>, is_new: bool) -> bool {
    let i = first_index(chart_ids(a.charts@), chart_id);
    if is_new && i >= 0 {
        let nc = b.charts@[i];
        &&& nc == (Chart { indicators: nc.indicators, indicator_series: nc.indicator_series, ..a.charts@[i] })
        &&& nc.indicators@ == configs_without_id(a.charts@[i].indicators@, indicator_id)
        &&& nc.indicator_series@ == crate::app::edits::series_without(a.charts@[i].indicator_series@, indicator_id)
        &&& b.charts@ == a.charts@.update(i, nc)
        &&& b.indicator_selected as int == clamped(a.indicator_selected as int, b.focused_spec().indicators@.len() as int)
        &&& b == (App { charts: b.charts, indicator_selected: b.indicator_selected, ..a })
    } else if is_new {
        b == (App { indicator_selected: clamped(a.indicator_selected as int, a.focused_spec().indicators@.len() as int) as usize, ..a })
    } else {
        b == a
    }
}

/// A pin-placement request for the selected config of `a` (kind `kind`) can start.
pub open spec fn pin_row_ready<R>(a: App<R>, kind: IndicatorKind) -> bool {
    current_row_ready(a) && same_kind(sel_cfg(a).indicator_type, kind)
}

/// `b` is `a` after starting to re-place the selected Fixed Range VP's pins.
pub open spec fn frvp_repin_started<R>(a: App<R>, b: App<R>) -> bool {
    let c = a.focused_spec();
    let bars = series_bars(c.series);
    let cfg = sel_cfg(a);
    if !pin_row_ready(a, IndicatorKind::FixedRangeVp) {
        b == a
    } else if bars.len() == 0 {
        failed_with(a, b, "Fixed Range VP needs bars on the chart before placing pins"@)
    } else {
        &&& b.frvp_place matches Some(pl) && pl.chart_id@ == c.id@ && pl.indicator_id@ == cfg.id@
            && pl.phase == FrvpPinPhase::Start && pl.start_bar is None && !pl.is_new
            && pl.cursor_bar as int == nearest_index(bar_times(bars), match cfg.start { Some(s) => s as int, None => 0 })
        &&& b == (App {
            frvp_place: b.frvp_place,
            input_mode: InputMode::FrvpPlacing,
            last_indicator_error: None,
            ..a
        })
    }
}

/// `b` is `a` after moving the Fixed Range pin cursor.
pub open spec fn frvp_cursor_moved<R>(a: App<R>, delta: int, b: App<R>) -> bool {
    match a.frvp_place {
        Some(pl) => {
            let n = bars_of_chart(a, pl.chart_id@).len() as int;
            if n == 0 {
                b == a
            } else {
                b == (App {
                    frvp_place: Some(FrvpPlaceState { cursor_bar: clamp_int(pl.cursor_bar + delta, 0, n - 1) as usize, ..pl }),
                    ..a
                })
            }
        },
        None => b == a,
    }
}

/// Moving a pin cursor keeps it on a bar of its chart: by `delta` when that stays on the
/// chart, else onto the first or last bar; moving right and then left by one from a bar
/// that is not the last comes back to it.
pub proof fn lemma_frvp_cursor_moves_within_bars<R>(a: App<R>, delta: int, b: App<R>, c: App<R>)
    requires
        a.frvp_place is Some,
        bars_of_chart(a, a.frvp_place->0.chart_id@).len() > 0,
        (a.frvp_place->0.cursor_bar as int) < bars_of_chart(a, a.frvp_place->0.chart_id@).len() <= usize::MAX,
        frvp_cursor_moved(a, delta, b),
        frvp_cursor_moved(b, -delta, c),
    ensures
        ({
            let n = bars_of_chart(a, a.frvp_place->0.chart_id@).len() as int;
            let cur = a.frvp_place->0.cursor_bar as int;
            &&& b.frvp_place matches Some(q) && (q.cursor_bar as int) < n
            &&& (0 <= cur + delta < n ==> b.frvp_place->0.cursor_bar as int == cur + delta && c == a)
            &&& (cur + delta < 0 ==> b.frvp_place->0.cursor_bar == 0)
            &&& (cur + delta >= n ==> b.frvp_place->0.cursor_bar as int == n - 1)
            &&& b == (App { frvp_place: b.frvp_place, ..a })
        }),
{
    assert(bars_of_chart(b, b.frvp_place->0.chart_id@) == bars_of_chart(a, a.frvp_place->0.chart_id@));
}

/// `b` is `a` after moving the Anchored pin cursor.
pub open spec fn avp_cursor_moved<R>(a: App<R>, delta: int, b: App<R>) -> bool {
    match a.avp_place {
        Some(pl) => {
            let n = bars_of_chart(a, pl.chart_id@).len() as int;
            if n == 0 {
                b == a
            } else {
                b == (App {
                    avp_place: Some(AvpPlaceState { cursor_bar: clamp_int(pl.cursor_bar + delta, 0, n - 1) as usize, ..pl }),
                    ..a
                })
            }
        },
        None => b == a,
    }
}

/// `b` is `a` after Esc during Fixed Range placement.
pub open spec fn frvp_place_cancelled<R>(a: App<R>, b: App<R>) -> bool {
    match a.frvp_place {
        Some(pl) => pin_cancelled(App { frvp_place: None, ..a }, App { input_mode: a.input_mode, ..b },
            pl.chart_id@, pl.indicator_id@, pl.is_new) && b.input_mode == InputMode::IndicatorPanel,
        None => b == (App { input_mode: InputMode::IndicatorPanel, ..a }),
    }
}

/// `b` is `a` after Esc during Anchored placement.
pub open spec fn avp_place_cancelled<R>(a: App<R>, b: App<R>) -> bool {
    match a.avp_place {
        Some(pl) => pin_cancelled(App { avp_place: None, ..a }, App { input_mode: a.input_mode, ..b },
            pl.chart_id@, pl.indicator_id@, pl.is_new) && b.input_mode == InputMode::IndicatorPanel,
        None => b == (App { input_mode: InputMode::IndicatorPanel, ..a }),
    }
}

/// `b` is `a` after starting to re-place the selected Anchored VP's pin.
pub open spec fn avp_repin_started<R>(a: App<R>, b: App<R>) -> bool {
    let c = a.focused_spec();
    let bars = series_bars(c.series);
    let cfg = sel_cfg(a);
    if !pin_row_ready(a, IndicatorKind::AnchoredVp) {
        b == a
    } else if bars.len() == 0 {
        failed_with(a, b, "Anchored VP needs bars on the chart before placing the anchor"@)
    } else {
        &&& b.avp_place matches Some(pl) && pl.chart_id@ == c.id@ && pl.indicator_id@ == cfg.id@
            && !pl.is_new
            && pl.cursor_bar as int == nearest_index(bar_times(bars), match cfg.anchor { Some(s) => s as int, None => 0 })
        &&& b == (App {
            avp_place: b.avp_place,
            input_mode: InputMode::AvpPlacing,
            last_indicator_error: None,
            ..a
        })
    }
}

/// `b` is `a` after snapping the Anchored pin cursor to cash open.
pub open spec fn avp_cursor_snapped<R>(a: App<R>, b: App<R>) -> bool {
    match a.avp_place {
        Some(pl) => {
            let bars = bars_of_chart(a, pl.chart_id@);
            if bars.len() > 0 && cash_open_of(bars.last().ts) is Some {
                b == (App {
                    avp_place: Some(AvpPlaceState {
                        cursor_bar: nearest_index(bar_times(bars), cash_open_of(bars.last().ts).unwrap()) as usize,
                        ..pl
                    }),
                    ..a
                })
            } else {
                b == a
            }
        },
        None => b == a,
    }
}

/// `b` is `a` after snapping the selected Anchored VP to cash open.
pub open spec fn avp_anchor_snapped<R>(a: App<R>, b: App<R>) -> bool {
    let cfg = sel_cfg(a);
    let bars = series_bars(a.focused_spec().series);
    if pin_row_ready(a, IndicatorKind::AnchoredVp) && bars.len() > 0 && cash_open_of(bars.last().ts) is Some {
        let cash = cash_open_of(bars.last().ts).unwrap() as i64;
        if cfg.anchor == Some(cash) {
            b == a
        } else {
            selected_set(a, b, IndicatorConfig { anchor: Some(cash), ..cfg })
        }
    } else {
        b == a
    }
}

/// `b` is `a` after Enter / Space in the indicator panel.
pub open spec fn selection_activated<R>(a: App<R>, b: App<R>) -> bool {
    if !(a.input_mode is IndicatorPanel) || a.type_style_edit is Some {
        b == a
    } else if a.indicator_list_side == IndicatorListSide::Available {
        available_added(a, b)
    } else {
        selected_toggled(a, b)
    }
}

/// Glyph of a pin drawn over a bar.
#[derive(Debug, Clone, Copy, PartialEq, Eq, Structural)]
pub enum PinMark {
    /// Locked Fixed Range start (`▲`, cyan).
    RangeStart,
    /// Locked Fixed Range end (`▲`, magenta).
    RangeEnd,
    /// Locked Anchored VP anchor (`◆`).
    Anchor,
    /// Anchored VP placement cursor (`▼`, yellow).
    AnchorCursor,
    /// Start pin locked during Fixed Range placement (`▲`, cyan).
    PlacedStart,
    /// Fixed Range placement cursor (`▼` with a stem down the wick, yellow).
    PlaceCursor,
}

/// A pin over bar `bar` (index into the chart's bars).
#[derive(Debug, Clone, Copy, PartialEq, Eq, Structural)]
pub struct PinAt {
    pub bar: usize,
    pub mark: PinMark,
}

/// The pin at the bar nearest `t`, when `t` is set.
pub open spec fn pin_near(ts: Seq<i64>, t: Option<i64>, mark: PinMark) -> Seq<PinAt> {
    match t {
        Some(x) => seq![PinAt { bar: nearest_index(ts, x as int) as usize, mark }],
        None => seq![],
    }
}

/// Locked start / end pins of the enabled Fixed Range configs of `cfgs`, in list order.
pub open spec fn range_pins<R>(cfgs: Seq<IndicatorConfig<R>>, ts: Seq<i64>) -> Seq<PinAt>
    decreases cfgs.len(),
{
    if cfgs.len() == 0 {
        seq![]
    } else {
        let c = cfgs.last();
        let rest = range_pins(cfgs.drop_last(), ts);
        if same_kind(c.indicator_type, IndicatorKind::FixedRangeVp) && c.enabled {
            rest + pin_near(ts, c.start, PinMark::RangeStart) + pin_near(ts, c.end, PinMark::RangeEnd)
        } else {
            rest
        }
    }
}

/// Locked anchor pins of the enabled Anchored configs of `cfgs`, in list order.
pub open spec fn anchor_pins<R>(cfgs: Seq<IndicatorConfig<R>>, ts: Seq<i64>) -> Seq<PinAt>
    decreases cfgs.len(),
{
    if cfgs.len() == 0 {
        seq![]
    } else {
        let c = cfgs.last();
        let rest = anchor_pins(cfgs.drop_last(), ts);
        if same_kind(c.indicator_type, IndicatorKind::AnchoredVp) && c.enabled {
            rest + pin_near(ts, c.anchor, PinMark::Anchor)
        } else {
            rest
        }
    }
}

/// Pins of a live Anchored placement on chart `id` with `n` bars.
pub open spec fn avp_cursor_pins(place: Option<AvpPlaceState>, id: Seq<char>, n: int) -> Seq<PinAt> {
    match place {
        Some(p) => if p.chart_id@ == id && p.cursor_bar < n {
            seq![PinAt { bar: p.cursor_bar, mark: PinMark::AnchorCursor }]
        } else {
            seq![]
        },
        None => seq![],
    }
}

/// Pins of a live Fixed Range placement on chart `id` with `n > 0` bars: the locked start (when
/// it names a bar) and the cursor, clamped to the last bar.
pub open spec fn frvp_cursor_pins(place: Option<FrvpPlaceState>, id: Seq<char>, n: int) -> Seq<PinAt> {
    match place {
        Some(p) => if p.chart_id@ == id {
            let start = match p.start_bar {
                Some(b) => if b < n {
                    seq![PinAt { bar: b, mark: PinMark::PlacedStart }]
                } else {
                    seq![]
                },
                None => seq![],
            };
            let cursor = if p.cursor_bar < n {
                p.cursor_bar as int
            } else {
                n - 1
            };
            start.push(PinAt { bar: cursor as usize, mark: PinMark::PlaceCursor })
        } else {
            seq![]
        },
        None => seq![],
    }
}

/// Every pin drawn over chart `c` of `a`: locked Fixed Range pins, locked anchors, then the live
/// Anchored and Fixed Range placement pins; none while the chart has no bars.
pub open spec fn chart_pins<R>(a: App<R>, c: Chart<R>) -> Seq<PinAt> {
    let bars = series_bars(c.series);
    let ts = bar_times(bars);
    if bars.len() == 0 {
        seq![]
    } else {
        range_pins(c.indicators@, ts) + anchor_pins(c.indicators@, ts) + avp_cursor_pins(
            a.avp_place,
            c.id@,
            bars.len() as int,
        ) + frvp_cursor_pins(a.frvp_place, c.id@, bars.len() as int)
    }
}

impl<R: Copy> App<R> {
    /// Pins over chart `chart` (see `chart_pins`), each on a bar of the chart.
    pub fn pin_marks(&self, chart: &Chart<R>) -> (r: Vec<PinAt>)
        ensures
            r@ == chart_pins(*self, *chart),
    {
        let bars = match &chart.series {
            ChartSeriesState::Available { bars } => bars,
            _ => {
                return Vec::new();
            },
        };
        let n = bars.len();
        if n == 0 {
            return Vec::new();
        }
        let ghost ts = bar_times(bars@);
        let cfgs = &chart.indicators;
        let mut out: Vec<PinAt> = Vec::new();
        let fr = IndicatorKind::FixedRangeVp;
        let mut i: usize = 0;
        while i < cfgs.len()
            invariant
                i <= cfgs@.len(),
                n == bars@.len() > 0,
                ts == bar_times(bars@),
                fr == IndicatorKind::FixedRangeVp,
                out@ == range_pins(cfgs@.subrange(0, i as int), ts),
            decreases cfgs.len() - i,
        {
            assert(cfgs@.subrange(0, i + 1).drop_last() =~= cfgs@.subrange(0, i as int));
            let c = &cfgs[i];
            if c.indicator_type.same_as(&fr) && c.enabled {
                match c.start {
                    Some(t) => out.push(PinAt { bar: nearest_bar(bars, t), mark: PinMark::RangeStart }),
                    None => {},
                }
                match c.end {
                    Some(t) => out.push(PinAt { bar: nearest_bar(bars, t), mark: PinMark::RangeEnd }),
                    None => {},
                }
            }
            proof {
                let p = cfgs@.subrange(0, i + 1);
                assert(p.last() == cfgs@[i as int]);
                assert(pin_near(ts, c.start, PinMark::RangeStart) =~= match c.start {
                    Some(x) => seq![PinAt { bar: nearest_index(ts, x as int) as usize, mark: PinMark::RangeStart }],
                    None => seq![],
                });
            }
            i += 1;
        }
        assert(cfgs@.subrange(0, cfgs@.len() as int) =~= cfgs@);
        let ghost head = out@;
        let av = IndicatorKind::AnchoredVp;
        let mut j: usize = 0;
        while j < cfgs.len()
            invariant
                j <= cfgs@.len(),
                n == bars@.len() > 0,
                ts == bar_times(bars@),
                av == IndicatorKind::AnchoredVp,
                out@ == head + anchor_pins(cfgs@.subrange(0, j as int), ts),
            decreases cfgs.len() - j,
        {
            assert(cfgs@.subrange(0, j + 1).drop_last() =~= cfgs@.subrange(0, j as int));
            let c = &cfgs[j];
            if c.indicator_type.same_as(&av) && c.enabled {
                match c.anchor {
                    Some(t) => out.push(PinAt { bar: nearest_bar(bars, t), mark: PinMark::Anchor }),
                    None => {},
                }
            }
            proof {
                assert(cfgs@.subrange(0, j + 1).last() == cfgs@[j as int]);
            }
            j += 1;
        }
        let ghost mid = out@;
        match &self.avp_place {
            Some(p) => {
                if str_eq(p.chart_id.as_str(), chart.id.as_str()) && p.cursor_bar < n {
                    out.push(PinAt { bar: p.cursor_bar, mark: PinMark::AnchorCursor });
                }
            },
            None => {},
        }
        let ghost mid2 = out@;
        match &self.frvp_place {
            Some(p) => {
                if str_eq(p.chart_id.as_str(), chart.id.as_str()) {
                    match p.start_bar {
                        Some(b) => {
                            if b < n {
                                out.push(PinAt { bar: b, mark: PinMark::PlacedStart });
                            }
                        },
                        None => {},
                    }
                    let cursor = if p.cursor_bar < n { p.cursor_bar } else { n - 1 };
                    out.push(PinAt { bar: cursor, mark: PinMark::PlaceCursor });
                }
            },
            None => {},
        }
        proof {
            assert(mid2 =~= mid + avp_cursor_pins(self.avp_place, chart.id@, n as int));
            assert(out@ =~= mid2 + frvp_cursor_pins(self.frvp_place, chart.id@, n as int));
            assert(out@ =~= chart_pins(*self, *chart));
        }
        out
    }

    /// Add Fixed Range VP (max 4) and enter two-pin placement on the chart.
    ///
    /// Does **not** POST to the engine until both pins are confirmed with Enter.
    pub fn indicator_add_fixed_range_vp(&mut self)
        requires
            old(self).wf(),
        ensures
            final(self).wf(),
            frvp_added(*old(self), *final(self)),
    {
        if !(matches!(self.input_mode, InputMode::IndicatorPanel) || matches!(self.input_mode, InputMode::Normal)) {
            return;
        }
        let fi = self.focused_index();
        let n = bar_count(&self.charts[fi].series);
        if n == 0 {
            self.last_indicator_error = Some(String::from_str("Fixed Range VP needs bars on the chart before placing pins"));
            return;
        }
        let count = count_of_kind(&self.charts[fi].indicators, &IndicatorKind::FixedRangeVp);
        if count >= MAX_FIXED_RANGE_VP {
            self.last_indicator_error = Some(String::from_str("Fixed Range VP limit is 4 per chart"));
            return;
        }
        // Provisional equal anchors; replaced when both pins lock.
        let id = numbered_id("frvp", count + 1);
        proof {
            reveal_strlit("frvp");
        }
        let provisional = match &self.charts[fi].series {
            ChartSeriesState::Available { bars } => bars[bars.len() - 1].ts,
            _ => 0,
        };
        let chart_id = self.charts[fi].id.clone();
        let mut cfg = IndicatorConfig::fixed_range_vp_default(id.clone(), provisional, provisional, &self.presets);
        // Disabled until placed so no full-width profile is drawn.
        cfg.enabled = false;
        self.charts[fi].indicators.push(cfg);
        self.indicator_selected = self.charts[fi].indicators.len() - 1;
        self.frvp_place = Some(FrvpPlaceState {
            chart_id,
            indicator_id: id,
            phase: FrvpPinPhase::Start,
            cursor_bar: n - 1,
            start_bar: None,
            is_new: true,
        });
        self.input_mode = InputMode::FrvpPlacing;
        self.last_indicator_error = None;
        proof {
            assert(self.charts@ =~= old(self).charts@.update(fi as int, self.charts@[fi as int]));
        }
    }

    /// Re-place pins for the selected Fixed Range VP (`r` in the indicator panel);
    /// the cursor starts on the bar closest to the stored start anchor.
    pub fn indicator_replace_frvp_pins(&mut self)
        requires
            old(self).wf(),
        ensures
            final(self).wf(),
            frvp_repin_started(*old(self), *final(self)),
    {
        if !matches!(self.input_mode, InputMode::IndicatorPanel) {
            return;
        }
        let fi = self.focused_index();
        let n = self.charts[fi].indicators.len();
        if n == 0 {
            return;
        }
        let idx = if self.indicator_selected < n { self.indicator_selected } else { n - 1 };
        if !self.charts[fi].indicators[idx].indicator_type.same_as(&IndicatorKind::FixedRangeVp) {
            return;
        }
        let id = self.charts[fi].indicators[idx].id.clone();
        let chart_id = self.charts[fi].id.clone();
        let start_ts = match self.charts[fi].indicators[idx].start {
            Some(s) => s,
            None => 0,
        };
        let cursor = match &self.charts[fi].series {
            ChartSeriesState::Available { bars } => {
                if bars.len() == 0 {
                    self.last_indicator_error = Some(String::from_str("Fixed Range VP needs bars on the chart before placing pins"));
                    return;
                }
                nearest_bar(bars, start_ts)
            },
            _ => {
                self.last_indicator_error = Some(String::from_str("Fixed Range VP needs bars on the chart before placing pins"));
                return;
            },
        };
        self.frvp_place = Some(FrvpPlaceState {
            chart_id,
            indicator_id: id,
            phase: FrvpPinPhase::Start,
            cursor_bar: cursor,
            start_bar: None,
            is_new: false,
        });
        self.input_mode = InputMode::FrvpPlacing;
        self.last_indicator_error = None;
    }

    /// Bars of the chart whose id is `chart_id` (0 when none or not loaded).
    fn bars_for_chart(&self, chart_id: &String) -> (r: usize)
        ensures
            r as int == bars_of_chart(*self, chart_id@).len(),
    {
        match chart_position(&self.charts, chart_id.as_str()) {
            Some(i) => bar_count(&self.charts[i].series),
            None => 0,
        }
    }

    /// Move the Fixed Range pin cursor by `delta` bars (clamped to the chart's bars).
    pub fn frvp_place_move(&mut self, delta: i32)
        ensures
            frvp_cursor_moved(*old(self), delta as int, *final(self)),
    {
        let (n, cur) = match &self.frvp_place {
            Some(pl) => (self.bars_for_chart(&pl.chart_id), pl.cursor_bar),
            None => {
                return;
            },
        };
        if n == 0 {
            return;
        }
        let moved: i128 = cur as i128 + delta as i128;
        let next: usize = if moved < 0 { 0 } else if moved > (n - 1) as i128 { n - 1 } else { moved as usize };
        match &mut self.frvp_place {
            Some(pl) => {
                pl.cursor_bar = next;
            },
            None => {},
        }
    }

    /// Move the Anchored pin cursor by `delta` bars (clamped to the chart's bars).
    pub fn avp_place_move(&mut self, delta: i32)
        ensures
            avp_cursor_moved(*old(self), delta as int, *final(self)),
    {
        let (n, cur) = match &self.avp_place {
            Some(pl) => (self.bars_for_chart(&pl.chart_id), pl.cursor_bar),
            None => {
                return;
            },
        };
        if n == 0 {
            return;
        }
        let moved: i128 = cur as i128 + delta as i128;
        let next: usize = if moved < 0 { 0 } else if moved > (n - 1) as i128 { n - 1 } else { moved as usize };
        match &mut self.avp_place {
            Some(pl) => {
                pl.cursor_bar = next;
            },
            None => {},
        }
    }

    /// Drop a cancelled new draft `indicator_id` from chart `chart_id`.
    fn drop_pin_draft(&mut self, chart_id: &String, indicator_id: &String, is_new: bool)
        requires
            old(self).wf(),
        ensures
            final(self).wf(),
            pin_cancelled(*old(self), *final(self), chart_id@, indicator_id@, is_new),
    {
        if !is_new {
            return;
        }
        match chart_position(&self.charts, chart_id.as_str()) {
            Some(i) => {
                let mut cfgs: Vec<IndicatorConfig<R>> = Vec::new();
                std::mem::swap(&mut cfgs, &mut self.charts[i].indicators);
                self.charts[i].indicators = drop_config_id(cfgs, indicator_id);
                let mut series = Vec::new();
                std::mem::swap(&mut series, &mut self.charts[i].indicator_series);
                proof {
                    assert(old(self).charts@[i as int].keys_distinct());
                    crate::app::edits::lemma_series_without_keeps_distinct(series@, indicator_id@);
                }
                self.charts[i].indicator_series = crate::app::edits::drop_series(series, indicator_id);
                proof {
                    assert(self.charts@ =~= old(self).charts@.update(i as int, self.charts@[i as int]));
                }
            },
            None => {},
        }
        self.clamp_indicator_selection();
    }

    /// Esc during Fixed Range placement: a new draft is removed; back to the panel.
    pub fn frvp_place_cancel(&mut self)
        requires
            old(self).wf(),
        ensures
            final(self).wf(),
            frvp_place_cancelled(*old(self), *final(self)),
    {
        let place = match self.frvp_place.take() {
            Some(p) => p,
            None => {
                self.input_mode = InputMode::IndicatorPanel;
                return;
            },
        };
        let ghost mid = *self;
        self.drop_pin_draft(&place.chart_id, &place.indicator_id, place.is_new);
        let ghost after = *self;
        self.input_mode = InputMode::IndicatorPanel;
        proof {
            assert((App { input_mode: old(self).input_mode, ..*self }) == after);
        }
    }

    /// Esc during Anchored placement: a new draft is removed; back to the panel.
    pub fn avp_place_cancel(&mut self)
        requires
            old(self).wf(),
        ensures
            final(self).wf(),
            avp_place_cancelled(*old(self), *final(self)),
    {
        let place = match self.avp_place.take() {
            Some(p) => p,
            None => {
                self.input_mode = InputMode::IndicatorPanel;
                return;
            },
        };
        let ghost mid = *self;
        self.drop_pin_draft(&place.chart_id, &place.indicator_id, place.is_new);
        let ghost after = *self;
        self.input_mode = InputMode::IndicatorPanel;
        proof {
            assert((App { input_mode: old(self).input_mode, ..*self }) == after);
        }
    }
}


/// The stored start pin of a Fixed Range draft still names a bar of its chart (the end
/// step reads that bar).
pub open spec fn frvp_start_pin_valid<R>(a: App<R>) -> bool {
    match a.frvp_place {
        Some(pl) => {
            let bars = bars_of_chart(a, pl.chart_id@);
            pl.phase == FrvpPinPhase::End && pl.cursor_bar < bars.len() ==> match pl.start_bar {
                Some(s) => s < bars.len(),
                None => true,
            }
        },
        None => true,
    }
}

/// The effect of Enter during Fixed Range placement on `a`.
pub open spec fn frvp_confirmed<R>(a: App<R>, b: App<R>) -> bool {
    match a.frvp_place {
        None => b == a,
        Some(pl) => {
            let ci = first_index(chart_ids(a.charts@), pl.chart_id@);
            if ci < 0 {
                b == (App { frvp_place: None, input_mode: InputMode::Normal, ..a })
            } else if !(a.charts@[ci].series is Available) {
                failed_with(a, b, "no bars for pin placement"@)
            } else {
                let bars = series_bars(a.charts@[ci].series);
                let cur = pl.cursor_bar as int;
                if bars.len() == 0 || cur >= bars.len() {
                    b == a
                } else if pl.phase == FrvpPinPhase::Start {
                    b == (App {
                        frvp_place: Some(FrvpPlaceState {
                            phase: FrvpPinPhase::End,
                            start_bar: Some(pl.cursor_bar),
                            cursor_bar: (if cur + 1 < bars.len() { cur + 1 } else { bars.len() - 1 }) as usize,
                            ..pl
                        }),
                        ..a
                    })
                } else {
                    let s = match pl.start_bar { Some(s) => s as int, None => cur };
                    let lo = if s <= cur { s } else { cur };
                    let hi = if s <= cur { cur } else { s };
                    let cfgs = a.charts@[ci].indicators@;
                    let k = config_index(cfgs, pl.indicator_id@);
                    let nc = b.charts@[ci];
                    &&& nc == (Chart { indicators: nc.indicators, ..a.charts@[ci] })
                    &&& b.charts@ == a.charts@.update(ci, nc)
                    &&& (k >= 0 ==> nc.indicators@ == cfgs.update(k, IndicatorConfig {
                        start: Some(bars[lo].ts),
                        end: Some(bars[hi].ts),
                        enabled: true,
                        ..cfgs[k]
                    }))
                    &&& (k < 0 ==> nc.indicators@.len() == cfgs.len() + 1 && nc.indicators@.drop_last() == cfgs
                        && spec_fixed_range_vp(pl.indicator_id@, bars[lo].ts, bars[hi].ts, a.presets, nc.indicators@.last()))
                    &&& armed_for(b.pending_indicators, nc)
                    &&& b == (App {
                        charts: b.charts,
                        frvp_place: None,
                        input_mode: InputMode::IndicatorPanel,
                        focused: ci as usize,
                        pending_indicators: b.pending_indicators,
                        last_indicator_error: None,
                        ..a
                    })
                }
            }
        },
    }
}

/// Locking the end pin of a Fixed Range VP on time-ordered bars sets the profile's range
/// to the two pinned bars' times, earlier one first, whichever was pinned first; the
/// profile is enabled, the apply armed, and placement ends back in the panel.
pub proof fn lemma_frvp_end_pin_orders_range<R>(a: App<R>, b: App<R>, ci: int, k: int, s0: int)
    requires
        a.wf(),
        a.frvp_place is Some,
        a.frvp_place->0.phase == FrvpPinPhase::End,
        a.frvp_place->0.start_bar == Some(s0 as usize),
        ci == first_index(chart_ids(a.charts@), a.frvp_place->0.chart_id@),
        0 <= ci,
        a.charts@[ci].series is Available,
        0 <= s0 < series_bars(a.charts@[ci].series).len() <= usize::MAX,
        (a.frvp_place->0.cursor_bar as int) < series_bars(a.charts@[ci].series).len(),
        forall|i: int, j: int| 0 <= i <= j < series_bars(a.charts@[ci].series).len()
            ==> series_bars(a.charts@[ci].series)[i].ts <= series_bars(a.charts@[ci].series)[j].ts,
        k == config_index(a.charts@[ci].indicators@, a.frvp_place->0.indicator_id@),
        0 <= k < a.charts@[ci].indicators@.len(),
        frvp_confirmed(a, b),
    ensures
        ({
            let bars = series_bars(a.charts@[ci].series);
            let t0 = bars[s0].ts;
            let t1 = bars[a.frvp_place->0.cursor_bar as int].ts;
            let nc = b.charts@[ci].indicators@[k];
            &&& nc.start matches Some(st) && nc.end matches Some(en) && st <= en
            &&& ((nc.start == Some(t0) && nc.end == Some(t1)) || (nc.start == Some(t1) && nc.end == Some(t0)))
            &&& nc.enabled
            &&& b.frvp_place is None
            &&& b.input_mode is IndicatorPanel
            &&& armed_for(b.pending_indicators, b.charts@[ci])
        }),
{
    crate::app::lemma_first_index_range(chart_ids(a.charts@), a.frvp_place->0.chart_id@);
    let bars = series_bars(a.charts@[ci].series);
    let cur = a.frvp_place->0.cursor_bar as int;
    let lo = if s0 <= cur { s0 } else { cur };
    let hi = if s0 <= cur { cur } else { s0 };
    assert(bars[lo].ts <= bars[hi].ts);
    let cfgs = a.charts@[ci].indicators@;
    assert(b.charts@[ci].indicators@[k] == (IndicatorConfig {
        start: Some(bars[lo].ts),
        end: Some(bars[hi].ts),
        enabled: true,
        ..cfgs[k]
    }));
}

/// The effect of Enter during Anchored placement on `a`.
pub open spec fn avp_confirmed<R>(a: App<R>, b: App<R>) -> bool {
    match a.avp_place {
        None => b == a,
        Some(pl) => {
            let ci = first_index(chart_ids(a.charts@), pl.chart_id@);
            if ci < 0 {
                b == (App { avp_place: None, input_mode: InputMode::Normal, ..a })
            } else if !(a.charts@[ci].series is Available) {
                failed_with(a, b, "no bars for pin placement"@)
            } else {
                let bars = series_bars(a.charts@[ci].series);
                let cur = pl.cursor_bar as int;
                if bars.len() == 0 || cur >= bars.len() {
                    b == a
                } else {
                    let cfgs = a.charts@[ci].indicators@;
                    let k = config_index(cfgs, pl.indicator_id@);
                    let nc = b.charts@[ci];
                    &&& nc == (Chart { indicators: nc.indicators, ..a.charts@[ci] })
                    &&& b.charts@ == a.charts@.update(ci, nc)
                    &&& nc.indicators@ == (if k >= 0 {
                        cfgs.update(k, IndicatorConfig { anchor: Some(bars[cur].ts), enabled: true, ..cfgs[k] })
                    } else {
                        cfgs
                    })
                    &&& armed_for(b.pending_indicators, nc)
                    &&& b == (App {
                        charts: b.charts,
                        avp_place: None,
                        input_mode: InputMode::IndicatorPanel,
                        focused: ci as usize,
                        pending_indicators: b.pending_indicators,
                        ..a
                    })
                }
            }
        },
    }
}

impl<R: Copy> App<R> {
    /// Whether the end step of Fixed Range placement can read its stored start pin.
    pub fn frvp_start_pin_ok(&self) -> (ok: bool)
        ensures
            ok == frvp_start_pin_valid(*self),
    {
        match &self.frvp_place {
            Some(pl) => {
                let n = self.bars_for_chart(&pl.chart_id);
                if matches!(pl.phase, FrvpPinPhase::End) && pl.cursor_bar < n {
                    match pl.start_bar {
                        Some(s) => s < n,
                        None => true,
                    }
                } else {
                    true
                }
            },
            None => true,
        }
    }

    /// Enter locks the current pin; after the end pin, enables the FRVP and applies it
    /// for the chart that owns the pins.
    pub fn frvp_place_confirm(&mut self)
        requires
            old(self).wf(),
            frvp_start_pin_valid(*old(self)),
        ensures
            final(self).wf(),
            frvp_confirmed(*old(self), *final(self)),
    {
        let place = match &self.frvp_place {
            Some(p) => p.clone_state(),
            None => {
                return;
            },
        };
        let ci = match chart_position(&self.charts, place.chart_id.as_str()) {
            Some(i) => i,
            None => {
                self.frvp_place = None;
                self.input_mode = InputMode::Normal;
                return;
            },
        };
        let n = match &self.charts[ci].series {
            ChartSeriesState::Available { bars } => bars.len(),
            _ => {
                self.last_indicator_error = Some(String::from_str("no bars for pin placement"));
                return;
            },
        };
        if n == 0 || place.cursor_bar >= n {
            return;
        }
        if matches!(place.phase, FrvpPinPhase::Start) {
            // Nudge the cursor one bar right for the end pin when possible.
            let next = if place.cursor_bar + 1 < n { place.cursor_bar + 1 } else { n - 1 };
            self.frvp_place = Some(FrvpPlaceState {
                chart_id: place.chart_id,
                indicator_id: place.indicator_id,
                phase: FrvpPinPhase::End,
                cursor_bar: next,
                start_bar: Some(place.cursor_bar),
                is_new: place.is_new,
            });
            return;
        }
        let cur = place.cursor_bar;
        let s = match place.start_bar {
            Some(s) => s,
            None => cur,
        };
        let (lo, hi) = if s <= cur { (s, cur) } else { (cur, s) };
        let (start_ts, end_ts) = match &self.charts[ci].series {
            ChartSeriesState::Available { bars } => (bars[lo].ts, bars[hi].ts),
            _ => (0, 0),
        };
        let ghost cfgs = self.charts@[ci as int].indicators@;
        match config_position(&self.charts[ci].indicators, &place.indicator_id) {
            Some(k) => {
                self.charts[ci].indicators[k].start = Some(start_ts);
                self.charts[ci].indicators[k].end = Some(end_ts);
                self.charts[ci].indicators[k].enabled = true;
                proof {
                    assert(self.charts@[ci as int].indicators@ =~= cfgs.update(k as int, IndicatorConfig {
                        start: Some(start_ts),
                        end: Some(end_ts),
                        enabled: true,
                        ..cfgs[k as int]
                    }));
                }
            },
            None => {
                // The draft was wiped mid-placement: recreate it so the pin work is kept.
                let cfg = IndicatorConfig::fixed_range_vp_default(place.indicator_id.clone(), start_ts, end_ts, &self.presets);
                self.charts[ci].indicators.push(cfg);
                proof {
                    assert(self.charts@[ci as int].indicators@.drop_last() =~= cfgs);
                }
            },
        }
        proof {
            assert(self.charts@ =~= old(self).charts@.update(ci as int, self.charts@[ci as int]));
        }
        self.frvp_place = None;
        // Back to the indicator panel once both pins lock.
        self.input_mode = InputMode::IndicatorPanel;
        self.focused = ci;
        proof {
            assert(chart_ids(self.charts@) =~= chart_ids(old(self).charts@));
        }
        // Apply for the chart that owns the pins.
        self.arm_indicators_apply_for(place.chart_id.as_str());
        self.last_indicator_error = None;
    }

    /// Enter locks the single anchor pin, enables the AVP, and applies.
    pub fn avp_place_confirm(&mut self)
        requires
            old(self).wf(),
        ensures
            final(self).wf(),
            avp_confirmed(*old(self), *final(self)),
    {
        let (chart_id, indicator_id, cursor) = match &self.avp_place {
            Some(p) => (p.chart_id.clone(), p.indicator_id.clone(), p.cursor_bar),
            None => {
                return;
            },
        };
        let ci = match chart_position(&self.charts, chart_id.as_str()) {
            Some(i) => i,
            None => {
                self.avp_place = None;
                self.input_mode = InputMode::Normal;
                return;
            },
        };
        let anchor_ts = match &self.charts[ci].series {
            ChartSeriesState::Available { bars } => {
                if bars.len() == 0 || cursor >= bars.len() {
                    return;
                }
                bars[cursor].ts
            },
            _ => {
                self.last_indicator_error = Some(String::from_str("no bars for pin placement"));
                return;
            },
        };
        let ghost cfgs = self.charts@[ci as int].indicators@;
        match config_position(&self.charts[ci].indicators, &indicator_id) {
            Some(k) => {
                self.charts[ci].indicators[k].anchor = Some(anchor_ts);
                self.charts[ci].indicators[k].enabled = true;
                proof {
                    assert(self.charts@[ci as int].indicators@ =~= cfgs.update(k as int, IndicatorConfig {
                        anchor: Some(anchor_ts),
                        enabled: true,
                        ..cfgs[k as int]
                    }));
                }
            },
            None => {},
        }
        proof {
            assert(self.charts@ =~= old(self).charts@.update(ci as int, self.charts@[ci as int]));
        }
        self.avp_place = None;
        // Back to the indicator panel so the AVP row stays visible after pin lock.
        self.input_mode = InputMode::IndicatorPanel;
        self.focused = ci;
        self.arm_indicators_apply();
    }
}


/// The effect of nudging the selected Anchored VP's anchor by `delta` bars on `a`.
pub open spec fn avp_anchor_nudged<R>(a: App<R>, b: App<R>, delta: int) -> bool {
    let cfg = sel_cfg(a);
    let ts = bar_times(series_bars(a.focused_spec().series));
    if !(pin_row_ready(a, IndicatorKind::AnchoredVp) && delta != 0 && ts.len() > 0) {
        b == a
    } else {
        let anchor = match cfg.anchor { Some(x) => x as int, None => ts[0] as int };
        let new = ts[clamp_int(nearest_index(ts, anchor) + delta, 0, ts.len() - 1)];
        if cfg.anchor == Some(new) {
            b == a
        } else {
            selected_set(a, b, IndicatorConfig { anchor: Some(new), ..cfg })
        }
    }
}

/// The effect of nudging the selected Fixed Range VP's start (`which` 0) or end (1) by
/// `delta` bars on `a`; a start never passes the end nor an end the start.
pub open spec fn frvp_anchor_nudged<R>(a: App<R>, b: App<R>, which: u8, delta: int) -> bool {
    let cfg = sel_cfg(a);
    let ts = bar_times(series_bars(a.focused_spec().series));
    if !(pin_row_ready(a, IndicatorKind::FixedRangeVp) && delta != 0 && ts.len() > 0 && which < 2) {
        b == a
    } else {
        let start = match cfg.start { Some(x) => x as int, None => ts[0] as int };
        let end = match cfg.end { Some(x) => x as int, None => ts.last() as int };
        if which == 0 {
            let t = ts[clamp_int(nearest_index(ts, start) + delta, 0, ts.len() - 1)] as int;
            let new = if t > end { end } else { t };
            if cfg.start == Some(new as i64) {
                b == a
            } else {
                selected_set(a, b, IndicatorConfig { start: Some(new as i64), ..cfg })
            }
        } else {
            let t = ts[clamp_int(nearest_index(ts, end) + delta, 0, ts.len() - 1)] as int;
            let new = if t < start { start } else { t };
            if cfg.end == Some(new as i64) {
                b == a
            } else {
                selected_set(a, b, IndicatorConfig { end: Some(new as i64), ..cfg })
            }
        }
    }
}

impl<R: Copy> App<R> {
    /// Add Anchored Volume Profile (max 2) anchored at cash open 09:30 New York on the last
    /// bar's day (the first bar when that is after the series); applies immediately.
    pub fn indicator_add_anchored_vp(&mut self)
        requires
            old(self).wf(),
        ensures
            final(self).wf(),
            avp_added(*old(self), *final(self)),
    {
        if !matches!(self.input_mode, InputMode::IndicatorPanel) {
            return;
        }
        let fi = self.focused_index();
        let anchor: i64 = match &self.charts[fi].series {
            ChartSeriesState::Available { bars } => {
                if bars.len() == 0 {
                    self.last_indicator_error = Some(String::from_str("Anchored VP needs bars on the chart (load history first)"));
                    return;
                }
                let last_ts = bars[bars.len() - 1].ts;
                if MIN_NY_TS <= last_ts && last_ts <= MAX_NY_TS {
                    let cash = cash_open_ny(last_ts);
                    // If cash open is after the whole series, use the first bar.
                    if cash > last_ts { bars[0].ts } else { cash }
                } else {
                    bars[0].ts
                }
            },
            _ => {
                self.last_indicator_error = Some(String::from_str("Anchored VP needs bars on the chart (load history first)"));
                return;
            },
        };
        let count = count_of_kind(&self.charts[fi].indicators, &IndicatorKind::AnchoredVp);
        if count >= MAX_ANCHORED_VP {
            self.last_indicator_error = Some(String::from_str("Anchored VP limit is 2 per chart"));
            return;
        }
        let id = numbered_id("avp", count + 1);
        proof {
            reveal_strlit("avp");
        }
        let cfg = IndicatorConfig::anchored_vp_default(id, anchor, &self.presets);
        self.charts[fi].indicators.push(cfg);
        self.indicator_selected = self.charts[fi].indicators.len() - 1;
        self.last_indicator_error = None;
        proof {
            assert(self.charts@ =~= old(self).charts@.update(fi as int, self.charts@[fi as int]));
        }
        self.arm_indicators_apply();
    }

    /// Re-place the anchor pin for the selected Anchored VP (`r` / Enter in the panel);
    /// the cursor starts on the bar closest to the stored anchor.
    pub fn indicator_replace_avp_pin(&mut self)
        requires
            old(self).wf(),
        ensures
            final(self).wf(),
            avp_repin_started(*old(self), *final(self)),
    {
        if !matches!(self.input_mode, InputMode::IndicatorPanel) {
            return;
        }
        let fi = self.focused_index();
        let n = self.charts[fi].indicators.len();
        if n == 0 {
            return;
        }
        let idx = if self.indicator_selected < n { self.indicator_selected } else { n - 1 };
        if !self.charts[fi].indicators[idx].indicator_type.same_as(&IndicatorKind::AnchoredVp) {
            return;
        }
        let id = self.charts[fi].indicators[idx].id.clone();
        let chart_id = self.charts[fi].id.clone();
        let anchor_ts = match self.charts[fi].indicators[idx].anchor {
            Some(s) => s,
            None => 0,
        };
        let cursor = match &self.charts[fi].series {
            ChartSeriesState::Available { bars } => {
                if bars.len() == 0 {
                    self.last_indicator_error = Some(String::from_str("Anchored VP needs bars on the chart before placing the anchor"));
                    return;
                }
                nearest_bar(bars, anchor_ts)
            },
            _ => {
                self.last_indicator_error = Some(String::from_str("Anchored VP needs bars on the chart before placing the anchor"));
                return;
            },
        };
        self.avp_place = Some(AvpPlaceState { chart_id, indicator_id: id, cursor_bar: cursor, is_new: false });
        self.input_mode = InputMode::AvpPlacing;
        self.last_indicator_error = None;
    }

    /// Snap the placement cursor to cash open 09:30 America/New_York for the last bar's day
    /// (no-op outside the calendar's range).
    pub fn avp_place_snap_cash_open(&mut self)
        ensures
            avp_cursor_snapped(*old(self), *final(self)),
    {
        let ci = match &self.avp_place {
            Some(pl) => match chart_position(&self.charts, pl.chart_id.as_str()) {
                Some(i) => i,
                None => {
                    return;
                },
            },
            None => {
                return;
            },
        };
        let cursor = match &self.charts[ci].series {
            ChartSeriesState::Available { bars } => {
                if bars.len() == 0 {
                    return;
                }
                let last_ts = bars[bars.len() - 1].ts;
                if !(MIN_NY_TS <= last_ts && last_ts <= MAX_NY_TS) {
                    return;
                }
                let cash = cash_open_ny(last_ts);
                nearest_bar(bars, cash)
            },
            _ => {
                return;
            },
        };
        match &mut self.avp_place {
            Some(p) => {
                p.cursor_bar = cursor;
            },
            None => {},
        }
    }

    /// Nudge the selected Anchored VP's anchor by `delta` bars (from the bar closest to it).
    pub fn indicator_nudge_avp_anchor(&mut self, delta: i32)
        requires
            old(self).wf(),
        ensures
            final(self).wf(),
            avp_anchor_nudged(*old(self), *final(self), delta as int),
    {
        if !matches!(self.input_mode, InputMode::IndicatorPanel) || delta == 0 {
            return;
        }
        let fi = self.focused_index();
        let n = self.charts[fi].indicators.len();
        if n == 0 {
            return;
        }
        let idx = if self.indicator_selected < n { self.indicator_selected } else { n - 1 };
        if !self.charts[fi].indicators[idx].indicator_type.same_as(&IndicatorKind::AnchoredVp) {
            return;
        }
        let cur_anchor = self.charts[fi].indicators[idx].anchor;
        let new_anchor = match &self.charts[fi].series {
            ChartSeriesState::Available { bars } => {
                if bars.len() == 0 {
                    return;
                }
                let anchor = match cur_anchor {
                    Some(x) => x,
                    None => bars[0].ts,
                };
                let near = nearest_bar(bars, anchor);
                let moved: i128 = near as i128 + delta as i128;
                let last = bars.len() - 1;
                let i: usize = if moved < 0 { 0 } else if moved > last as i128 { last } else { moved as usize };
                bars[i].ts
            },
            _ => {
                return;
            },
        };
        if cur_anchor == Some(new_anchor) {
            return;
        }
        self.charts[fi].indicators[idx].anchor = Some(new_anchor);
        proof {
            assert(self.charts@ =~= old(self).charts@.update(fi as int, self.charts@[fi as int]));
        }
        self.arm_indicators_apply();
    }

    /// Snap the selected Anchored VP to cash open 09:30 America/New_York on the last bar's
    /// day (no-op outside the calendar's range).
    pub fn indicator_snap_avp_cash_open(&mut self)
        requires
            old(self).wf(),
        ensures
            final(self).wf(),
            avp_anchor_snapped(*old(self), *final(self)),
    {
        if !matches!(self.input_mode, InputMode::IndicatorPanel) {
            return;
        }
        let fi = self.focused_index();
        let n = self.charts[fi].indicators.len();
        if n == 0 {
            return;
        }
        let idx = if self.indicator_selected < n { self.indicator_selected } else { n - 1 };
        if !self.charts[fi].indicators[idx].indicator_type.same_as(&IndicatorKind::AnchoredVp) {
            return;
        }
        let last_ts = match &self.charts[fi].series {
            ChartSeriesState::Available { bars } => {
                if bars.len() == 0 {
                    return;
                }
                bars[bars.len() - 1].ts
            },
            _ => {
                return;
            },
        };
        if !(MIN_NY_TS <= last_ts && last_ts <= MAX_NY_TS) {
            return;
        }
        let cash = cash_open_ny(last_ts);
        if self.charts[fi].indicators[idx].anchor == Some(cash) {
            return;
        }
        self.charts[fi].indicators[idx].anchor = Some(cash);
        proof {
            assert(self.charts@ =~= old(self).charts@.update(fi as int, self.charts@[fi as int]));
        }
        self.arm_indicators_apply();
    }

    /// Nudge the selected Fixed Range VP's start (`which` 0) or end (`which` 1) by one bar
    /// step per `delta`; the start stops at the end and the end at the start.
    pub fn indicator_nudge_frvp_anchor(&mut self, which: u8, delta: i32)
        requires
            old(self).wf(),
        ensures
            final(self).wf(),
            frvp_anchor_nudged(*old(self), *final(self), which, delta as int),
    {
        if !matches!(self.input_mode, InputMode::IndicatorPanel) || delta == 0 {
            return;
        }
        let fi = self.focused_index();
        let n = self.charts[fi].indicators.len();
        if n == 0 {
            return;
        }
        let idx = if self.indicator_selected < n { self.indicator_selected } else { n - 1 };
        if !self.charts[fi].indicators[idx].indicator_type.same_as(&IndicatorKind::FixedRangeVp) {
            return;
        }
        let cur_start = self.charts[fi].indicators[idx].start;
        let cur_end = self.charts[fi].indicators[idx].end;
        let new_ts = match &self.charts[fi].series {
            ChartSeriesState::Available { bars } => {
                if bars.len() == 0 || which >= 2 {
                    return;
                }
                let start = match cur_start {
                    Some(x) => x,
                    None => bars[0].ts,
                };
                let end = match cur_end {
                    Some(x) => x,
                    None => bars[bars.len() - 1].ts,
                };
                let from = if which == 0 { start } else { end };
                let near = nearest_bar(bars, from);
                let moved: i128 = near as i128 + delta as i128;
                let last = bars.len() - 1;
                let i: usize = if moved < 0 { 0 } else if moved > last as i128 { last } else { moved as usize };
                let t = bars[i].ts;
                if which == 0 {
                    if t > end { end } else { t }
                } else {
                    if t < start { start } else { t }
                }
            },
            _ => {
                return;
            },
        };
        if which == 0 {
            if cur_start == Some(new_ts) {
                return;
            }
            self.charts[fi].indicators[idx].start = Some(new_ts);
        } else {
            if cur_end == Some(new_ts) {
                return;
            }
            self.charts[fi].indicators[idx].end = Some(new_ts);
        }
        proof {
            assert(self.charts@ =~= old(self).charts@.update(fi as int, self.charts@[fi as int]));
        }
        self.arm_indicators_apply();
    }
}


/// The effect of adding the catalog type under the Available selection on `a`.
pub open spec fn available_added<R>(a: App<R>, b: App<R>) -> bool {
    if a.input_mode is IndicatorPanel && a.indicator_list_side == IndicatorListSide::Available
        && a.indicator_available_selected < 7 {
        match available_kind(a.indicator_available_selected as int) {
            IndicatorKind::Ma => ma_stack_added(a, b),
            IndicatorKind::Volume => volume_added(a, b),
            IndicatorKind::SessionVp => session_vp_added(a, b),
            IndicatorKind::FixedRangeVp => frvp_added(a, b),
            IndicatorKind::AnchoredVp => avp_added(a, b),
            IndicatorKind::Gex => gex_added(a, b),
            _ => garch_added(a, b),
        }
    } else {
        b == a
    }
}

/// Counting configs of a kind over a concatenation adds the counts.
proof fn lemma_count_kind_concat<R>(s: Seq<IndicatorConfig<R>>, t: Seq<IndicatorConfig<R>>, k: IndicatorKind)
    ensures
        count_kind(s + t, k) == count_kind(s, k) + count_kind(t, k),
    decreases t.len(),
{
    if t.len() > 0 {
        assert((s + t).drop_last() =~= s + t.drop_last());
        lemma_count_kind_concat(s, t.drop_last(), k);
    } else {
        assert(s + t =~= s);
    }
}

/// Configs that are all MAs count fully as MAs and not at all as any kind with another key.
proof fn lemma_count_all_ma<R>(t: Seq<IndicatorConfig<R>>, k: IndicatorKind)
    requires
        forall|i: int| 0 <= i < t.len() ==> #[trigger] t[i].indicator_type == IndicatorKind::Ma,
    ensures
        count_kind(t, k) == if kind_key(k) == "ma"@ { t.len() } else { 0 },
    decreases t.len(),
{
    if t.len() > 0 {
        assert(t.last() == t[t.len() - 1]);
        lemma_count_all_ma(t.drop_last(), k);
    }
}

/// The default MA stack adds at most the lines still free under the maximum of three.
proof fn lemma_default_ma_adds_len<R>(cfgs: Seq<IndicatorConfig<R>>, k: nat, cnt: nat)
    requires
        cnt <= 3,
    ensures
        default_ma_adds(cfgs, k, cnt).len() <= 3 - cnt,
    decreases 3 - k,
{
    if k < 3 && cnt < 3 {
        if has_ma_length(cfgs, default_ma_length(k as int)) {
            lemma_default_ma_adds_len(cfgs, k + 1, cnt);
        } else {
            lemma_default_ma_adds_len(cfgs, k + 1, cnt + 1);
        }
    }
}

/// Adding one config of kind `nk` to `cfgs`, allowed only below `nk`'s maximum, keeps every
/// catalog kind within its maximum.
proof fn lemma_push_within_max<R>(cfgs: Seq<IndicatorConfig<R>>, c: IndicatorConfig<R>, nk: IndicatorKind, k: IndicatorKind)
    requires
        same_kind(c.indicator_type, nk),
        max_for_key(kind_key(nk)) matches Some(m) && count_kind(cfgs, nk) < m,
        max_for_key(kind_key(k)) matches Some(m) && count_kind(cfgs, k) <= m,
    ensures
        max_for_key(kind_key(k)) matches Some(m) && count_kind(cfgs.push(c), k) <= m,
{
    assert(cfgs.push(c).drop_last() =~= cfgs);
    if same_kind(c.indicator_type, k) {
        lemma_same_key_counts(cfgs, k, nk);
    }
}

/// Counts depend on a kind only through its key.
proof fn lemma_same_key_counts<R>(cfgs: Seq<IndicatorConfig<R>>, k: IndicatorKind, nk: IndicatorKind)
    requires
        kind_key(k) == kind_key(nk),
    ensures
        count_kind(cfgs, k) == count_kind(cfgs, nk),
    decreases cfgs.len(),
{
    if cfgs.len() > 0 {
        lemma_same_key_counts(cfgs.drop_last(), k, nk);
    }
}

/// Adding the type selected on the Available list never takes the focused chart past a catalog
/// type's per-chart maximum (Session VP, Volume, GEX, GARCH 1 · Fixed Range VP 4 · Anchored
/// VP 2 · MA 3): a type within its maximum before the add is within it after.
pub proof fn lemma_catalog_add_respects_maxima<R>(a: App<R>, b: App<R>, k: IndicatorKind)
    requires
        a.wf(),
        available_added(a, b),
        max_for_key(kind_key(k)) matches Some(m) && count_kind(a.focused_spec().indicators@, k) <= m,
    ensures
        b.wf(),
        b.fidx() == a.fidx(),
        max_for_key(kind_key(k)) matches Some(m) && count_kind(b.focused_spec().indicators@, k) <= m,
{
    lemma_kind_key_lengths();
    let cfgs = a.focused_spec().indicators@;
    let now = b.focused_spec().indicators@;
    if a.input_mode is IndicatorPanel && a.indicator_list_side == IndicatorListSide::Available
        && a.indicator_available_selected < 7 {
        let nk = available_kind(a.indicator_available_selected as int);
        if nk == IndicatorKind::Ma {
            let cnt = count_kind(cfgs, IndicatorKind::Ma);
            if cnt < 3 {
                let adds = default_ma_adds(cfgs, 0, cnt);
                let added = now.subrange(cfgs.len() as int, now.len() as int);
                assert(now =~= cfgs + added);
                lemma_default_ma_adds_len(cfgs, 0, cnt);
                assert forall|i: int| 0 <= i < added.len() implies #[trigger] added[i].indicator_type
                    == IndicatorKind::Ma by {
                    if adds.len() == 0 {
                        assert(ma_lines_are(added, seq![added[0].length.unwrap()]));
                    }
                }
                lemma_count_kind_concat(cfgs, added, k);
                lemma_count_all_ma(added, k);
                if kind_key(k) == "ma"@ {
                    lemma_same_key_counts(cfgs, k, IndicatorKind::Ma);
                }
            }
        } else {
            let bars = series_bars(a.focused_spec().series);
            let (m, needs_bars): (int, bool) = if nk == IndicatorKind::Volume {
                assert(volume_added(a, b));
                assert(max_for_key(kind_key(nk)) == Some(1usize));
                (1, false)
            } else if nk == IndicatorKind::SessionVp {
                assert(session_vp_added(a, b));
                assert(max_for_key(kind_key(nk)) == Some(1usize));
                (1, false)
            } else if nk == IndicatorKind::FixedRangeVp {
                assert(frvp_added(a, b));
                assert(max_for_key(kind_key(nk)) == Some(4usize));
                (4, true)
            } else if nk == IndicatorKind::AnchoredVp {
                assert(avp_added(a, b));
                assert(max_for_key(kind_key(nk)) == Some(2usize));
                (2, true)
            } else if nk == IndicatorKind::Gex {
                assert(gex_added(a, b));
                assert(max_for_key(kind_key(nk)) == Some(1usize));
                (1, false)
            } else {
                assert(garch_added(a, b));
                assert(max_for_key(kind_key(nk)) == Some(1usize));
                (1, false)
            };
            if count_kind(cfgs, nk) >= m || (needs_bars && bars.len() == 0) {
                // A refused add only sets the error.
                assert(now == cfgs);
            } else {
                let c = now.last();
                assert(now =~= cfgs.push(c));
                lemma_push_within_max(cfgs, c, nk, k);
            }
        }
    }
}

impl<R: Copy> App<R> {
    /// Add the catalog type selected on Available (respects the per-chart maxima).
    pub fn indicator_add_selected_available(&mut self)
        requires
            old(self).wf(),
        ensures
            final(self).wf(),
            available_added(*old(self), *final(self)),
    {
        if !matches!(self.input_mode, InputMode::IndicatorPanel) {
            return;
        }
        if self.indicator_list_side != IndicatorListSide::Available {
            return;
        }
        let kind = match self.selected_available_kind() {
            Some(k) => k,
            None => {
                return;
            },
        };
        match kind {
            IndicatorKind::Ma => self.indicator_add_default_ma_stack(),
            IndicatorKind::Volume => self.indicator_add_volume(),
            IndicatorKind::SessionVp => self.indicator_add_session_vp(),
            IndicatorKind::FixedRangeVp => self.indicator_add_fixed_range_vp(),
            IndicatorKind::AnchoredVp => self.indicator_add_anchored_vp(),
            IndicatorKind::Gex => self.indicator_add_gex(),
            _ => self.indicator_add_garch(),
        }
    }

    /// Enter/Space on the active list: Available adds; Current toggles on/off.
    pub fn indicator_activate_selected(&mut self)
        requires
            old(self).wf(),
        ensures
            final(self).wf(),
            selection_activated(*old(self), *final(self)),
    {
        if !matches!(self.input_mode, InputMode::IndicatorPanel) {
            return;
        }
        if self.type_style_edit.is_some() {
            return;
        }
        match self.indicator_list_side {
            IndicatorListSide::Available => self.indicator_add_selected_available(),
            IndicatorListSide::Current => self.indicator_toggle_selected(),
        }
    }
}

} // verus!
