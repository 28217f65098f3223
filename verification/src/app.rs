//! Application state: Welcome → workspace with single or dual-vertical charts.
use vstd::prelude::*;
use crate::model::{
    opt_str_is, same_kind, ChartIndicatorsPayload, FeedSnapshot, IndicatorConfig, IpcEvent, IndicatorKind, IndicatorSeriesData,
    IndicatorTypeStyle, NumericPresets, OhlcvBar, PaperSnapshot, QuoteRow, WatchlistSnapshot,
    WorkspaceSnapshot,
};
use crate::text::{
    lemma_trim_edges, lemma_trim_of_trimmed, lemma_upper_seq_edges, str_eq, to_ascii_upper, trim,
    trim_seq, upper_seq,
};
use crate::timeframe::{countdown_text, format_bar_countdown, forming_bar_remaining_secs, forming_remaining};

pub mod watchlist;
pub mod charts;
pub mod indicators;
pub mod edits;
pub mod pins;
pub mod paper;
pub mod events;
pub mod prompts;
pub mod requests;

verus! {

/// Exact empty-state copy when the vendor cannot serve the chart series.
pub const UNAVAILABLE_COPY: &'static str = "Data Currently not Available";

pub const DEFAULT_INSTRUMENT: &'static str = "SPY";
pub const DEFAULT_TIMEFRAME: &'static str = "1D";
pub const DUAL_TOP_INSTRUMENT: &'static str = "QQQ";
pub const DUAL_BOTTOM_INSTRUMENT: &'static str = "SPY";

pub const CHART_PRIMARY: &'static str = "primary";
pub const CHART_TOP: &'static str = "top";
pub const CHART_BOTTOM: &'static str = "bottom";

pub const MAX_MA_LINES: usize = 3;
pub const MAX_SESSION_VP: usize = 1;
pub const MAX_FIXED_RANGE_VP: usize = 4;
pub const MAX_ANCHORED_VP: usize = 2;
pub const MAX_GEX: usize = 1;
pub const MAX_GARCH: usize = 1;

/// Number of rows in the Available indicator catalog.
pub const AVAILABLE_INDICATOR_COUNT: usize = 7;

#[derive(Debug, Clone, Copy, PartialEq, Eq, Structural)]
pub enum Screen {
    Welcome,
    Workspace,
}

#[derive(Debug, Clone, Copy, PartialEq, Eq, Structural)]
pub enum LayoutMode {
    Single,
    DualVertical,
}

/// Engine key of a layout mode.
pub open spec fn layout_key(m: LayoutMode) -> Seq<char> {
    match m {
        LayoutMode::Single => "single"@,
        LayoutMode::DualVertical => "dual-vertical"@,
    }
}

/// Layout mode for an engine key; anything but `dual-vertical` is single.
pub open spec fn layout_of_key(s: Seq<char>) -> LayoutMode {
    if s == "dual-vertical"@ {
        LayoutMode::DualVertical
    } else {
        LayoutMode::Single
    }
}

/// The other layout mode.
pub open spec fn layout_toggled(m: LayoutMode) -> LayoutMode {
    match m {
        LayoutMode::Single => LayoutMode::DualVertical,
        LayoutMode::DualVertical => LayoutMode::Single,
    }
}

/// The engine key of a layout mode reads back as that mode, and toggling twice restores it:
/// a saved layout is restored as it was, and the layout key switches between exactly the two
/// modes.
pub proof fn lemma_layout_key_round_trip(m: LayoutMode)
    ensures
        layout_of_key(layout_key(m)) == m,
        layout_toggled(layout_toggled(m)) == m,
        layout_toggled(m) != m,
{
    reveal_strlit("single");
    reveal_strlit("dual-vertical");
    assert("single"@.len() != "dual-vertical"@.len());
}

impl LayoutMode {
    pub fn as_str(self) -> (r: &'static str)
        ensures
            r@ == layout_key(self),
    {
        match self {
            LayoutMode::Single => "single",
            LayoutMode::DualVertical => "dual-vertical",
        }
    }

    pub fn from_engine(s: &str) -> (r: Self)
        ensures
            r == layout_of_key(s@),
    {
        if str_eq(s, "dual-vertical") {
            LayoutMode::DualVertical
        } else {
            LayoutMode::Single
        }
    }

    pub fn toggled(self) -> (r: Self)
        ensures
            r == layout_toggled(self),
    {
        match self {
            LayoutMode::Single => LayoutMode::DualVertical,
            LayoutMode::DualVertical => LayoutMode::Single,
        }
    }
}

/// Which pin the trader is setting for Fixed Range VP.
#[derive(Debug, Clone, Copy, PartialEq, Eq, Structural)]
pub enum FrvpPinPhase {
    /// Bright cursor over a bar — Enter locks the range start.
    Start,
    /// Start is locked; cursor moves for the range end.
    End,
}

/// Interactive two-pin range placement on the price chart.
#[derive(Debug, Clone, PartialEq, Eq)]
pub struct FrvpPlaceState {
    pub chart_id: String,
    pub indicator_id: String,
    pub phase: FrvpPinPhase,
    /// Index into the chart's full bar series.
    pub cursor_bar: usize,
    /// Locked start bar index once phase is End (and after completion until cleared).
    pub start_bar: Option<usize>,
    /// If true, Esc removes the indicator (new add cancelled mid-place).
    pub is_new: bool,
}

impl FrvpPlaceState {
    /// Field-by-field copy.
    pub fn clone_state(&self) -> (r: Self)
        ensures
            r == *self,
    {
        FrvpPlaceState {
            chart_id: self.chart_id.clone(),
            indicator_id: self.indicator_id.clone(),
            phase: self.phase,
            cursor_bar: self.cursor_bar,
            start_bar: self.start_bar,
            is_new: self.is_new,
        }
    }
}

/// Interactive single-pin anchor placement for Anchored Volume Profile.
#[derive(Debug, Clone, PartialEq, Eq)]
pub struct AvpPlaceState {
    pub chart_id: String,
    pub indicator_id: String,
    /// Index into the chart's full bar series.
    pub cursor_bar: usize,
    /// If true, Esc removes the indicator (new add cancelled mid-place).
    pub is_new: bool,
}

/// Modal input for instrument selection and watchlist add/rename.
#[derive(Debug, Clone, PartialEq, Eq)]
pub enum InputMode {
    Normal,
    InstrumentPrompt { buffer: String },
    WatchlistAddPrompt { buffer: String },
    /// Rename the active watchlist sheet (display name).
    WatchlistRenamePrompt { buffer: String },
    /// Indicator panel for the focused chart (add / toggle / configure).
    IndicatorPanel,
    /// Togglable paper desk panel (owns keys while open).
    PaperPanel,
    /// Two-pin Fixed Range VP placement on the focused chart.
    FrvpPlacing,
    /// Single-pin Anchored VP placement on the focused chart.
    AvpPlacing,
}

/// Which side of the indicator panel receives ↑↓ / Enter / side-specific keys.
///
/// **Available** (left catalog) | **Current** (right instances); default **Current**.
#[derive(Debug, Clone, Copy, PartialEq, Eq, Structural)]
pub enum IndicatorListSide {
    Available,
    Current,
}

impl Default for IndicatorListSide {
    fn default() -> (r: Self)
        ensures
            r == IndicatorListSide::Current,
    {
        IndicatorListSide::Current
    }
}

/// In-panel editor for per-type overlay strength (Available · `c`).
#[derive(Debug, Clone, PartialEq)]
pub struct TypeStyleEditState<R> {
    pub indicator_type: String,
    /// Draft strength in \[0, 1\]; persisted only on confirm.
    pub strength: R,
}

/// Kind of the `i`-th row of the Available catalog.
pub open spec fn available_kind(i: int) -> IndicatorKind {
    if i == 0 {
        IndicatorKind::Ma
    } else if i == 1 {
        IndicatorKind::Volume
    } else if i == 2 {
        IndicatorKind::SessionVp
    } else if i == 3 {
        IndicatorKind::FixedRangeVp
    } else if i == 4 {
        IndicatorKind::AnchoredVp
    } else if i == 5 {
        IndicatorKind::Gex
    } else {
        IndicatorKind::Garch
    }
}

/// Catalog row `i` of the Available list: `(type, display label)`.
pub fn available_indicator_type(i: usize) -> (r: Option<(IndicatorKind, &'static str)>)
    ensures
        i < AVAILABLE_INDICATOR_COUNT ==> (r matches Some(p) && p.0 == available_kind(i as int)),
        i >= AVAILABLE_INDICATOR_COUNT ==> r is None,
{
    if i == 0 {
        Some((IndicatorKind::Ma, "MA (SMA / EMA)"))
    } else if i == 1 {
        Some((IndicatorKind::Volume, "Volume"))
    } else if i == 2 {
        Some((IndicatorKind::SessionVp, "Session VP"))
    } else if i == 3 {
        Some((IndicatorKind::FixedRangeVp, "Fixed Range VP"))
    } else if i == 4 {
        Some((IndicatorKind::AnchoredVp, "Anchored VP"))
    } else if i == 5 {
        Some((IndicatorKind::Gex, "GEX"))
    } else if i == 6 {
        Some((IndicatorKind::Garch, "GARCH"))
    } else {
        None
    }
}

/// Pending HTTP mutation against the engine watchlist API.
#[derive(Debug, Clone, PartialEq, Eq)]
pub enum PendingWatchlistOp {
    SetActive { watchlist_id: String },
    Add { symbol: String },
    Remove { symbol: String },
    Rename { name: String },
}

/// Pending full-replace indicator apply for one chart.
#[derive(Debug, Clone, PartialEq)]
pub struct PendingIndicatorsApply<R> {
    pub chart_id: String,
    pub indicators: Vec<IndicatorConfig<R>>,
}

/// Pending type-style (overlay strength) persist for one chart.
#[derive(Debug, Clone, PartialEq)]
pub struct PendingTypeStylesApply<R> {
    pub chart_id: String,
    pub type_styles: Vec<(String, IndicatorTypeStyle<R>)>,
}

/// Pending paper working-order mutation (engine owns the book).
#[derive(Debug, Clone, PartialEq)]
#[allow(inconsistent_fields)]
pub enum PendingPaperOp<R> {
    Place {
        instrument: String,
        side: String,
        order_type: String,
        qty: R,
        limit: Option<R>,
        stop: Option<R>,
    },
    Modify { order_id: String, qty: Option<R>, limit: Option<R>, stop: Option<R> },
    Cancel { order_id: String },
}

/// Buy or sell on the order side panel.
#[derive(Debug, Clone, Copy, PartialEq, Eq, Structural)]
pub enum OrderSide {
    Buy,
    Sell,
}

impl OrderSide {
    pub fn as_str(self) -> (r: &'static str)
        ensures
            r@ == (match self {
                OrderSide::Buy => "buy"@,
                OrderSide::Sell => "sell"@,
            }),
    {
        match self {
            Self::Buy => "buy",
            Self::Sell => "sell",
        }
    }
}

/// Working-order kind on the order side panel (not a filled history type).
#[derive(Debug, Clone, Copy, PartialEq, Eq, Structural)]
pub enum WorkingOrderKind {
    Market,
    Limit,
    Stop,
}

impl WorkingOrderKind {
    pub fn as_str(self) -> (r: &'static str)
        ensures
            r@ == (match self {
                WorkingOrderKind::Market => "market"@,
                WorkingOrderKind::Limit => "limit"@,
                WorkingOrderKind::Stop => "stop"@,
            }),
    {
        match self {
            Self::Market => "market",
            Self::Limit => "limit",
            Self::Stop => "stop",
        }
    }
}

/// Place/modify form owned by the paper panel (not a working-orders table).
#[derive(Debug, Clone, PartialEq)]
pub struct OrderSidePanel<R> {
    pub side: OrderSide,
    pub kind: WorkingOrderKind,
    pub qty: R,
    pub limit: R,
    pub stop: R,
    pub selected_order_id: Option<String>,
}

impl<R: Copy> OrderSidePanel<R> {
    /// Fresh form: buy, limit, preset quantity, limit and stop unset.
    pub fn fresh(p: &NumericPresets<R>) -> (r: Self)
        ensures
            r.side == OrderSide::Buy,
            r.kind == WorkingOrderKind::Limit,
            r.qty == p.order_qty,
            r.limit == p.order_price_unset,
            r.stop == p.order_price_unset,
            r.selected_order_id is None,
    {
        OrderSidePanel {
            side: OrderSide::Buy,
            kind: WorkingOrderKind::Limit,
            qty: p.order_qty,
            limit: p.order_price_unset,
            stop: p.order_price_unset,
            selected_order_id: None,
        }
    }
}

#[derive(Debug, Clone, PartialEq, Eq)]
pub enum ConnectionStatus {
    Connecting,
    Connected,
    Disconnected { reason: String },
}

impl ConnectionStatus {
    pub fn label(&self) -> (r: &str)
        ensures
            r@ == (match self {
                ConnectionStatus::Connecting => "connecting"@,
                ConnectionStatus::Connected => "connected"@,
                ConnectionStatus::Disconnected { .. } => "disconnected"@,
            }),
    {
        match self {
            ConnectionStatus::Connecting => "connecting",
            ConnectionStatus::Connected => "connected",
            ConnectionStatus::Disconnected { .. } => "disconnected",
        }
    }
}

#[derive(Debug, Clone, PartialEq)]
pub enum ChartSeriesState<R> {
    /// Interest not requested yet (or reload pending).
    Idle,
    Loading,
    Available { bars: Vec<OhlcvBar<R>> },
    Unavailable,
    Error { message: String },
}

/// Canonical instrument id: trim + uppercase ASCII (e.g. `qqq` → `QQQ`).
pub open spec fn normalized_instrument(raw: Seq<char>) -> Seq<char> {
    upper_seq(trim_seq(raw))
}

/// Canonical instrument id: trim + uppercase ASCII (e.g. `qqq` → `QQQ`).
pub fn normalize_instrument(raw: &str) -> (r: String)
    ensures
        r@ == normalized_instrument(raw@),
{
    let t = trim(raw);
    to_ascii_upper(t.as_str())
}

/// Normalizing an instrument id twice gives the same id as normalizing it once: a
/// canonical id is already trimmed and upper-case.
pub proof fn lemma_normalize_instrument_idempotent(raw: Seq<char>)
    ensures
        normalized_instrument(normalized_instrument(raw)) == normalized_instrument(raw),
{
    let t = trim_seq(raw);
    let u = upper_seq(t);
    lemma_trim_edges(raw);
    lemma_upper_seq_edges(t);
    lemma_trim_of_trimmed(u);
}

/// Timestamps of a bar series.
pub open spec fn bar_times<R>(bars: Seq<OhlcvBar<R>>) -> Seq<i64> {
    bars.map_values(|b: OhlcvBar<R>| b.ts)
}

/// Result of merging live `bar` into `bars`: replace the tip on equal open time,
/// append when the tip advances, ignore a stale bar.
pub open spec fn merged_bars<R>(bars: Seq<OhlcvBar<R>>, bar: OhlcvBar<R>) -> Seq<OhlcvBar<R>> {
    if bars.len() == 0 {
        seq![bar]
    } else if bars.last().ts == bar.ts {
        bars.update(bars.len() - 1, bar)
    } else if bar.ts > bars.last().ts {
        bars.push(bar)
    } else {
        bars
    }
}

/// Replace last bar when timestamps match; append when the tip advances.
pub fn merge_bar<R>(bars: &mut Vec<OhlcvBar<R>>, bar: OhlcvBar<R>)
    ensures
        final(bars)@ == merged_bars(old(bars)@, bar),
{
    let n = bars.len();
    if n == 0 {
        bars.push(bar);
        assert(bars@ =~= seq![bar]);
    } else if bars[n - 1].ts == bar.ts {
        bars.set(n - 1, bar);
    } else if bar.ts > bars[n - 1].ts {
        bars.push(bar);
    }
    // Stale / out-of-order tip — ignore.
}

/// Merging a bar into an increasing series keeps it increasing, and the merged bar
/// is the tip unless it was stale.
pub proof fn lemma_merge_keeps_order<R>(bars: Seq<OhlcvBar<R>>, bar: OhlcvBar<R>)
    requires
        forall|i: int, j: int| 0 <= i < j < bars.len() ==> bars[i].ts < bars[j].ts,
    ensures
        forall|i: int, j: int|
            0 <= i < j < merged_bars(bars, bar).len() ==> merged_bars(bars, bar)[i].ts
                < merged_bars(bars, bar)[j].ts,
        bars.len() == 0 || bar.ts >= bars.last().ts ==> merged_bars(bars, bar).last() == bar,
        merged_bars(bars, bar).len() >= bars.len(),
{
}

/// A live bar never rewrites history: every bar before the tip is kept; a bar that opens
/// later keeps the old tip too and adds one bar; a stale bar changes nothing; and the same
/// live bar delivered twice leaves the series as one delivery does.
pub proof fn lemma_merge_keeps_history<R>(bars: Seq<OhlcvBar<R>>, bar: OhlcvBar<R>)
    ensures
        forall|i: int| 0 <= i < bars.len() - 1 ==> #[trigger] merged_bars(bars, bar)[i] == bars[i],
        bars.len() > 0 && bar.ts > bars.last().ts ==> {
            &&& merged_bars(bars, bar).len() == bars.len() + 1
            &&& merged_bars(bars, bar)[bars.len() - 1] == bars.last()
        },
        bars.len() > 0 && bar.ts < bars.last().ts ==> merged_bars(bars, bar) == bars,
        merged_bars(merged_bars(bars, bar), bar) == merged_bars(bars, bar),
{
}

/// Series stored for indicator `id` (first entry with that key).
pub open spec fn series_lookup<R>(entries: Seq<(String, IndicatorSeriesData<R>)>, id: Seq<char>) -> Option<IndicatorSeriesData<R>>
    decreases entries.len(),
{
    if entries.len() == 0 {
        None
    } else if entries[0].0@ == id {
        Some(entries[0].1)
    } else {
        series_lookup(entries.drop_first(), id)
    }
}

/// Enabled configs of `kind` that have a stored series, in list order, with their series.
pub open spec fn enabled_with_series<R>(
    cfgs: Seq<IndicatorConfig<R>>,
    entries: Seq<(String, IndicatorSeriesData<R>)>,
    kind: IndicatorKind,
) -> Seq<(IndicatorConfig<R>, IndicatorSeriesData<R>)>
    decreases cfgs.len(),
{
    if cfgs.len() == 0 {
        seq![]
    } else {
        let rest = enabled_with_series(cfgs.drop_last(), entries, kind);
        let c = cfgs.last();
        if same_kind(c.indicator_type, kind) && c.enabled && series_lookup(entries, c.id@) is Some {
            rest.push((c, series_lookup(entries, c.id@).unwrap()))
        } else {
            rest
        }
    }
}

/// Number of configs in `cfgs` of kind `kind`.
pub open spec fn count_kind<R>(cfgs: Seq<IndicatorConfig<R>>, kind: IndicatorKind) -> nat
    decreases cfgs.len(),
{
    if cfgs.len() == 0 {
        0
    } else {
        count_kind(cfgs.drop_last(), kind) + if same_kind(cfgs.last().indicator_type, kind) {
            1nat
        } else {
            0nat
        }
    }
}

/// Some config in `cfgs` is of kind `kind` and enabled.
pub open spec fn has_enabled_kind<R>(cfgs: Seq<IndicatorConfig<R>>, kind: IndicatorKind) -> bool {
    exists|i: int| 0 <= i < cfgs.len() && same_kind(#[trigger] cfgs[i].indicator_type, kind) && cfgs[i].enabled
}

/// Index of the last bar opening at or before `ts`, or 0 when none does.
pub open spec fn last_bar_at_or_before<R>(bars: Seq<OhlcvBar<R>>, ts: i64) -> int
    decreases bars.len(),
{
    if bars.len() == 0 {
        0
    } else if bars.last().ts <= ts {
        bars.len() - 1
    } else {
        last_bar_at_or_before(bars.drop_last(), ts)
    }
}

/// Index of the bar that ends the visible window: the tip when following live,
/// else the last bar at or before the pan cursor.
pub open spec fn window_end<R>(bars: Seq<OhlcvBar<R>>, pan: Option<i64>) -> Option<int> {
    if bars.len() == 0 {
        None
    } else {
        match pan {
            None => Some(bars.len() - 1),
            Some(ts) => Some(last_bar_at_or_before(bars, ts)),
        }
    }
}

proof fn lemma_last_bar_bound<R>(bars: Seq<OhlcvBar<R>>, ts: i64)
    ensures
        0 <= last_bar_at_or_before(bars, ts) < bars.len() || (bars.len() == 0 && last_bar_at_or_before(bars, ts) == 0),
    decreases bars.len(),
{
    if bars.len() > 0 {
        lemma_last_bar_bound(bars.drop_last(), ts);
    }
}

/// Copy of a type-style map.
pub fn clone_type_styles<R: Copy>(v: &Vec<(String, IndicatorTypeStyle<R>)>) -> (r: Vec<(String, IndicatorTypeStyle<R>)>)
    ensures
        r@ == v@,
{
    let mut out: Vec<(String, IndicatorTypeStyle<R>)> = Vec::new();
    let mut i: usize = 0;
    while i < v.len()
        invariant
            i <= v.len(),
            out@ == v@.subrange(0, i as int),
        decreases v.len() - i,
    {
        let e = (v[i].0.clone(), v[i].1);
        out.push(e);
        i += 1;
        assert(out@ =~= v@.subrange(0, i as int));
    }
    assert(v@.subrange(0, v.len() as int) =~= v@);
    out
}

/// One workspace chart: engine chart_id + instrument + timeframe + series state.
#[derive(Debug, Clone, PartialEq)]
pub struct Chart<R> {
    pub id: String,
    pub instrument: String,
    pub timeframe: String,
    pub series: ChartSeriesState<R>,
    /// Indicator configs for this chart (naked when empty).
    pub indicators: Vec<IndicatorConfig<R>>,
    /// Computed series keyed by indicator id (aligned to bars by index).
    pub indicator_series: Vec<(String, IndicatorSeriesData<R>)>,
    /// Per-indicator-type presentation (overlay strength), keyed by type key.
    pub type_styles: Vec<(String, IndicatorTypeStyle<R>)>,
    /// Chart pan: window end as bar open time (unix **seconds**), or `None` = live tip.
    ///
    /// When the user pans back to the newest loaded bar this is cleared so the right
    /// edge follows live bar updates again. Pan is local over already-loaded bars only.
    pub pan_cursor_ts: Option<i64>,
    /// Soft hint: last pan step hit the oldest loaded bar (left wall of the buffer).
    pub pan_at_oldest: bool,
}

/// Keys of a keyed list of entries, in order.
pub open spec fn entry_keys<V>(entries: Seq<(String, V)>) -> Seq<Seq<char>> {
    entries.map_values(|e: (String, V)| e.0@)
}

impl<R> Chart<R> {
    /// No two computed series share an indicator id, and no two type styles share a type
    /// key: each keyed list holds at most one entry per key.
    pub open spec fn keys_distinct(self) -> bool {
        &&& entry_keys(self.indicator_series@).no_duplicates()
        &&& entry_keys(self.type_styles@).no_duplicates()
    }
}

/// Every chart of `cs` holds at most one entry per key in its keyed lists.
pub open spec fn charts_keys_distinct<R>(cs: Seq<Chart<R>>) -> bool {
    forall|k: int| #![trigger cs[k]] 0 <= k < cs.len() ==> cs[k].keys_distinct()
}

/// Each chart of a workspace snapshot names each type key of its styles once.
pub open spec fn workspace_keys_distinct<R>(ws: WorkspaceSnapshot<R>) -> bool {
    forall|i: int| #![trigger ws.charts@[i]] 0 <= i < ws.charts@.len()
        ==> entry_keys(ws.charts@[i].type_styles@).no_duplicates()
}

/// Each per-chart indicator payload names each indicator id of its series once.
pub open spec fn payloads_keys_distinct<R>(ps: Seq<(String, ChartIndicatorsPayload<R>)>) -> bool {
    forall|i: int| #![trigger ps[i]] 0 <= i < ps.len() ==> entry_keys(ps[i].1.series@).no_duplicates()
}

/// Every keyed list an engine event carries (computed series by indicator id, type styles
/// by type key) holds each key once, as the engine's JSON objects do.
pub open spec fn ipc_keys_distinct<R>(e: IpcEvent<R>) -> bool {
    match e {
        IpcEvent::Snapshot { workspace, indicators, .. } => {
            &&& (match workspace {
                Some(ws) => workspace_keys_distinct(ws),
                None => true,
            })
            &&& payloads_keys_distinct(indicators@)
        },
        IpcEvent::ChartSeries(s) => entry_keys(s.series@).no_duplicates(),
        IpcEvent::IndicatorUpdate(u) => entry_keys(u.series@).no_duplicates(),
        IpcEvent::IndicatorsApplied(body) => entry_keys(body.series@).no_duplicates(),
        IpcEvent::Workspace(ws) => workspace_keys_distinct(ws),
        _ => true,
    }
}

/// Countdown text of `c`'s forming bar at `now` (see `Chart::forming_bar_countdown_label`).
pub open spec fn countdown_of<R>(c: Chart<R>, now: int) -> Option<Seq<char>> {
    match c.series {
        ChartSeriesState::Available { bars } => if bars@.len() > 0 {
            match forming_remaining(c.timeframe@, bars@.last().ts as int, now) {
                Some(left) => Some(countdown_text(left as nat)),
                None => None,
            }
        } else {
            None
        },
        _ => None,
    }
}

/// A chart with no series, no indicators and the live tip.
pub open spec fn fresh_chart<R>(c: Chart<R>, id: Seq<char>, instrument: Seq<char>, timeframe: Seq<char>) -> bool {
    &&& c.id@ == id
    &&& c.instrument@ == instrument
    &&& c.timeframe@ == timeframe
    &&& c.series == ChartSeriesState::<R>::Idle
    &&& c.indicators@.len() == 0
    &&& c.indicator_series@.len() == 0
    &&& c.type_styles@.len() == 0
    &&& c.pan_cursor_ts is None
    &&& !c.pan_at_oldest
}

impl<R: Copy> Chart<R> {
    pub fn new(id: String, instrument: String, timeframe: String) -> (r: Self)
        ensures
            fresh_chart(r, id@, instrument@, timeframe@),
    {
        Chart {
            id,
            instrument,
            timeframe,
            series: ChartSeriesState::Idle,
            indicators: Vec::new(),
            indicator_series: Vec::new(),
            type_styles: Vec::new(),
            pan_cursor_ts: None,
            pan_at_oldest: false,
        }
    }

    /// Reset pan to live tip (e.g. on instrument/timeframe reload).
    pub fn reset_pan(&mut self)
        ensures
            *final(self) == (Chart { pan_cursor_ts: None, pan_at_oldest: false, ..*old(self) }),
    {
        self.pan_cursor_ts = None;
        self.pan_at_oldest = false;
    }

    /// Index of the bar that ends the visible window (inclusive), or `None` if no bars.
    ///
    /// `None` pan cursor → live tip (last bar). Used by pan math and volume alignment.
    pub fn pan_window_end_index(bars: &Vec<OhlcvBar<R>>, pan_cursor_ts: Option<i64>) -> (r: Option<usize>)
        ensures
            match window_end(bars@, pan_cursor_ts) {
                Some(i) => r == Some(i as usize) && 0 <= i < bars@.len(),
                None => r is None,
            },
    {
        if bars.len() == 0 {
            return None;
        }
        let tip = bars.len() - 1;
        match pan_cursor_ts {
            None => Some(tip),
            Some(ts) => {
                let mut i = bars.len();
                assert(bars@.subrange(0, bars@.len() as int) =~= bars@);
                while i > 0
                    invariant
                        i <= bars@.len(),
                        bars@.len() > 0,
                        pan_cursor_ts == Some(ts),
                        last_bar_at_or_before(bars@, ts) == last_bar_at_or_before(bars@.subrange(0, i as int), ts),
                    decreases i,
                {
                    let ghost pre = bars@.subrange(0, i as int);
                    assert(pre.drop_last() =~= bars@.subrange(0, i - 1));
                    if bars[i - 1].ts <= ts {
                        proof {
                            assert(pre.last() == bars@[i - 1]);
                            assert(pre.len() == i);
                            assert(last_bar_at_or_before(pre, ts) == i - 1);
                            assert(window_end(bars@, pan_cursor_ts) == Some((i - 1) as int));
                            lemma_last_bar_bound(bars@, ts);
                        }
                        return Some(i - 1);
                    }
                    i -= 1;
                }
                proof {
                    lemma_last_bar_bound(bars@, ts);
                }
                Some(0)
            },
        }
    }

    /// Snapshot of stored type styles for engine persist (only explicit entries).
    pub fn type_styles_for_persist(&self) -> (r: Vec<(String, IndicatorTypeStyle<R>)>)
        ensures
            r@ == self.type_styles@,
    {
        clone_type_styles(&self.type_styles)
    }

    pub fn default_single() -> (r: Self)
        ensures
            fresh_chart(r, "primary"@, "SPY"@, "1D"@),
    {
        Self::new(String::from_str(CHART_PRIMARY), String::from_str(DEFAULT_INSTRUMENT), String::from_str(DEFAULT_TIMEFRAME))
    }

    pub fn default_dual_top() -> (r: Self)
        ensures
            fresh_chart(r, "top"@, "QQQ"@, "1D"@),
    {
        Self::new(String::from_str(CHART_TOP), String::from_str(DUAL_TOP_INSTRUMENT), String::from_str(DEFAULT_TIMEFRAME))
    }

    pub fn default_dual_bottom() -> (r: Self)
        ensures
            fresh_chart(r, "bottom"@, "SPY"@, "1D"@),
    {
        Self::new(String::from_str(CHART_BOTTOM), String::from_str(DUAL_BOTTOM_INSTRUMENT), String::from_str(DEFAULT_TIMEFRAME))
    }

    /// `instrument · timeframe`.
    pub fn title(&self) -> (r: String)
        ensures
            r@ == self.instrument@ + " · "@ + self.timeframe@,
    {
        let mut t = self.instrument.clone();
        t.append(" · ");
        t.append(self.timeframe.as_str());
        t
    }

    /// Forming-bar countdown label for chart chrome (`m:ss` / `h:mm:ss`), from the last loaded
    /// bar and wall-clock `now_ts`; `None` when the series is unavailable, empty, of an unknown
    /// timeframe, or `now_ts` lies outside the tip's period.
    pub fn forming_bar_countdown_label(&self, now_ts: i64) -> (r: Option<String>)
        ensures
            match countdown_of(*self, now_ts as int) {
                Some(t) => r matches Some(s) && s@ == t,
                None => r is None,
            },
    {
        match &self.series {
            ChartSeriesState::Available { bars } => {
                if bars.len() == 0 {
                    return None;
                }
                let tip = bars[bars.len() - 1].ts;
                match forming_bar_remaining_secs(self.timeframe.as_str(), tip, now_ts) {
                    Some(left) => Some(format_bar_countdown(left)),
                    None => None,
                }
            },
            _ => None,
        }
    }

    /// Chart block title: focus mark, `instrument · timeframe`, and the countdown when there is
    /// one.
    pub fn chrome_title(&self, focused: bool, now_ts: i64) -> (r: String)
        ensures
            r@ == " "@ + (if focused {
                "● "@
            } else {
                "  "@
            }) + self.instrument@ + " · "@ + self.timeframe@ + match countdown_of(
                *self,
                now_ts as int,
            ) {
                Some(cd) => " · "@ + cd,
                None => ""@,
            } + " "@,
    {
        let mut out = String::from_str(" ");
        if focused {
            out.append("● ");
        } else {
            out.append("  ");
        }
        let title = self.title();
        out.append(title.as_str());
        match self.forming_bar_countdown_label(now_ts) {
            Some(cd) => {
                out.append(" · ");
                out.append(cd.as_str());
            },
            None => {},
        }
        out.append(" ");
        proof {
            reveal_strlit("");
            let mark = if focused {
                "● "@
            } else {
                "  "@
            };
            let tail = match countdown_of(*self, now_ts as int) {
                Some(cd) => " · "@ + cd,
                None => ""@,
            };
            assert(out@ =~= " "@ + mark + self.instrument@ + " · "@ + self.timeframe@ + tail + " "@);
        }
        out
    }

    /// Series stored for indicator `id`.
    pub fn series_for(&self, id: &String) -> (r: Option<&IndicatorSeriesData<R>>)
        ensures
            r is Some <==> series_lookup(self.indicator_series@, id@) is Some,
            r is Some ==> *r.unwrap() == series_lookup(self.indicator_series@, id@).unwrap(),
    {
        let mut i: usize = 0;
        assert(self.indicator_series@.subrange(0, self.indicator_series@.len() as int) =~= self.indicator_series@);
        while i < self.indicator_series.len()
            invariant
                i <= self.indicator_series@.len(),
                series_lookup(self.indicator_series@, id@) == series_lookup(self.indicator_series@.subrange(i as int, self.indicator_series@.len() as int), id@),
            decreases self.indicator_series.len() - i,
        {
            let ghost rest = self.indicator_series@.subrange(i as int, self.indicator_series@.len() as int);
            assert(rest.drop_first() =~= self.indicator_series@.subrange(i + 1, self.indicator_series@.len() as int));
            if self.indicator_series[i].0 == *id {
                return Some(&self.indicator_series[i].1);
            }
            i += 1;
        }
        None
    }

    /// Enabled configs of `kind` that have a series, with that series, in list order.
    pub fn enabled_of_kind(&self, kind: &IndicatorKind) -> (r: Vec<(&IndicatorConfig<R>, &IndicatorSeriesData<R>)>)
        ensures
            r@.len() == enabled_with_series(self.indicators@, self.indicator_series@, *kind).len(),
            forall|k: int| 0 <= k < r@.len() ==> *(#[trigger] r@[k]).0 == enabled_with_series(self.indicators@, self.indicator_series@, *kind)[k].0
                && *r@[k].1 == enabled_with_series(self.indicators@, self.indicator_series@, *kind)[k].1,
    {
        let mut out: Vec<(&IndicatorConfig<R>, &IndicatorSeriesData<R>)> = Vec::new();
        let mut i: usize = 0;
        while i < self.indicators.len()
            invariant
                i <= self.indicators@.len(),
                out@.len() == enabled_with_series(self.indicators@.subrange(0, i as int), self.indicator_series@, *kind).len(),
                forall|k: int| 0 <= k < out@.len() ==> *(#[trigger] out@[k]).0 == enabled_with_series(self.indicators@.subrange(0, i as int), self.indicator_series@, *kind)[k].0
                    && *out@[k].1 == enabled_with_series(self.indicators@.subrange(0, i as int), self.indicator_series@, *kind)[k].1,
            decreases self.indicators.len() - i,
        {
            let ghost pre = self.indicators@.subrange(0, i + 1);
            assert(pre.drop_last() =~= self.indicators@.subrange(0, i as int));
            let cfg = &self.indicators[i];
            if cfg.indicator_type.same_as(kind) && cfg.enabled {
                match self.series_for(&cfg.id) {
                    Some(series) => {
                        out.push((cfg, series));
                    },
                    None => {},
                }
            }
            i += 1;
        }
        assert(self.indicators@.subrange(0, self.indicators@.len() as int) =~= self.indicators@);
        out
    }

    pub fn has_volume(&self) -> (b: bool)
        ensures
            b == has_enabled_kind(self.indicators@, IndicatorKind::Volume),
    {
        let mut i: usize = 0;
        while i < self.indicators.len()
            invariant
                i <= self.indicators@.len(),
                forall|j: int| 0 <= j < i ==> !(same_kind(#[trigger] self.indicators@[j].indicator_type, IndicatorKind::Volume) && self.indicators@[j].enabled),
            decreases self.indicators.len() - i,
        {
            if self.indicators[i].indicator_type.same_as(&IndicatorKind::Volume) && self.indicators[i].enabled {
                return true;
            }
            i += 1;
        }
        false
    }

    pub fn enabled_ma_lines(&self) -> (r: Vec<(&IndicatorConfig<R>, &IndicatorSeriesData<R>)>)
        ensures
            r@.len() == enabled_with_series(self.indicators@, self.indicator_series@, IndicatorKind::Ma).len(),
            forall|k: int| 0 <= k < r@.len() ==> *(#[trigger] r@[k]).0 == enabled_with_series(self.indicators@, self.indicator_series@, IndicatorKind::Ma)[k].0
                && *r@[k].1 == enabled_with_series(self.indicators@, self.indicator_series@, IndicatorKind::Ma)[k].1,
    {
        self.enabled_of_kind(&IndicatorKind::Ma)
    }

    /// Enabled Fixed Range VP instances with their series (max 4 configured).
    pub fn enabled_fixed_range_vps(&self) -> (r: Vec<(&IndicatorConfig<R>, &IndicatorSeriesData<R>)>)
        ensures
            r@.len() == enabled_with_series(self.indicators@, self.indicator_series@, IndicatorKind::FixedRangeVp).len(),
            forall|k: int| 0 <= k < r@.len() ==> *(#[trigger] r@[k]).0 == enabled_with_series(self.indicators@, self.indicator_series@, IndicatorKind::FixedRangeVp)[k].0
                && *r@[k].1 == enabled_with_series(self.indicators@, self.indicator_series@, IndicatorKind::FixedRangeVp)[k].1,
    {
        self.enabled_of_kind(&IndicatorKind::FixedRangeVp)
    }

    /// Enabled Anchored VP instances with their series (max 2 configured).
    pub fn enabled_anchored_vps(&self) -> (r: Vec<(&IndicatorConfig<R>, &IndicatorSeriesData<R>)>)
        ensures
            r@.len() == enabled_with_series(self.indicators@, self.indicator_series@, IndicatorKind::AnchoredVp).len(),
            forall|k: int| 0 <= k < r@.len() ==> *(#[trigger] r@[k]).0 == enabled_with_series(self.indicators@, self.indicator_series@, IndicatorKind::AnchoredVp)[k].0
                && *r@[k].1 == enabled_with_series(self.indicators@, self.indicator_series@, IndicatorKind::AnchoredVp)[k].1,
    {
        self.enabled_of_kind(&IndicatorKind::AnchoredVp)
    }

    /// First enabled config of `kind` and its series, when it has one.
    fn first_enabled(&self, kind: &IndicatorKind) -> (r: Option<(&IndicatorConfig<R>, &IndicatorSeriesData<R>)>)
        ensures
            match r {
                Some(p) => exists|i: int| 0 <= i < self.indicators@.len() && *p.0 == #[trigger] self.indicators@[i]
                    && same_kind(p.0.indicator_type, *kind) && p.0.enabled
                    && (forall|j: int| 0 <= j < i ==> !(same_kind(#[trigger] self.indicators@[j].indicator_type, *kind) && self.indicators@[j].enabled))
                    && series_lookup(self.indicator_series@, p.0.id@) == Some(*p.1),
                None => forall|i: int| 0 <= i < self.indicators@.len() && same_kind(#[trigger] self.indicators@[i].indicator_type, *kind) && self.indicators@[i].enabled
                    && (forall|j: int| 0 <= j < i ==> !(same_kind(#[trigger] self.indicators@[j].indicator_type, *kind) && self.indicators@[j].enabled))
                    ==> series_lookup(self.indicator_series@, self.indicators@[i].id@) is None,
            },
    {
        let mut i: usize = 0;
        while i < self.indicators.len()
            invariant
                i <= self.indicators@.len(),
                forall|j: int| 0 <= j < i ==> !(same_kind(#[trigger] self.indicators@[j].indicator_type, *kind) && self.indicators@[j].enabled),
            decreases self.indicators.len() - i,
        {
            let cfg = &self.indicators[i];
            assert(self.indicators@[i as int] == *cfg);
            if cfg.indicator_type.same_as(kind) && cfg.enabled {
                let found = self.series_for(&cfg.id);
                match found {
                    Some(series) => {
                        let pair = (cfg, series);
                        assert(exists|k: int| 0 <= k < self.indicators@.len() && *pair.0 == #[trigger] self.indicators@[k]
                            && same_kind(pair.0.indicator_type, *kind) && pair.0.enabled
                            && (forall|j: int| 0 <= j < k ==> !(same_kind(#[trigger] self.indicators@[j].indicator_type, *kind) && self.indicators@[j].enabled))
                            && series_lookup(self.indicator_series@, pair.0.id@) == Some(*pair.1)) by {
                            assert(*pair.0 == self.indicators@[i as int]);
                        }
                        return Some(pair);
                    },
                    None => {
                        return None;
                    },
                }
            }
            i += 1;
        }
        None
    }

    pub fn volume_series(&self) -> (r: Option<&IndicatorSeriesData<R>>)
        ensures
            r is Some ==> exists|i: int| 0 <= i < self.indicators@.len() && same_kind(#[trigger] self.indicators@[i].indicator_type, IndicatorKind::Volume)
                && self.indicators@[i].enabled && series_lookup(self.indicator_series@, self.indicators@[i].id@) == Some(*r.unwrap()),
            r is None ==> forall|i: int| 0 <= i < self.indicators@.len() && same_kind(#[trigger] self.indicators@[i].indicator_type, IndicatorKind::Volume)
                && self.indicators@[i].enabled && (forall|j: int| 0 <= j < i ==> !(same_kind(#[trigger] self.indicators@[j].indicator_type, IndicatorKind::Volume) && self.indicators@[j].enabled))
                ==> series_lookup(self.indicator_series@, self.indicators@[i].id@) is None,
    {
        match self.first_enabled(&IndicatorKind::Volume) {
            Some(p) => Some(p.1),
            None => None,
        }
    }

    /// Enabled Session VP config + series (max one per chart).
    pub fn enabled_session_vp(&self) -> (r: Option<(&IndicatorConfig<R>, &IndicatorSeriesData<R>)>)
        ensures
            r is Some ==> same_kind(r.unwrap().0.indicator_type, IndicatorKind::SessionVp) && r.unwrap().0.enabled
                && series_lookup(self.indicator_series@, r.unwrap().0.id@) == Some(*r.unwrap().1)
                && exists|i: int| 0 <= i < self.indicators@.len() && *r.unwrap().0 == #[trigger] self.indicators@[i],
            r is None ==> forall|i: int| 0 <= i < self.indicators@.len() && same_kind(#[trigger] self.indicators@[i].indicator_type, IndicatorKind::SessionVp)
                && self.indicators@[i].enabled && (forall|j: int| 0 <= j < i ==> !(same_kind(#[trigger] self.indicators@[j].indicator_type, IndicatorKind::SessionVp) && self.indicators@[j].enabled))
                ==> series_lookup(self.indicator_series@, self.indicators@[i].id@) is None,
    {
        self.first_enabled(&IndicatorKind::SessionVp)
    }

    /// Enabled GARCH series when status is ok (no invented path when unavailable).
    pub fn enabled_garch(&self) -> (r: Option<(&IndicatorConfig<R>, &IndicatorSeriesData<R>)>)
        ensures
            r is Some ==> same_kind(r.unwrap().0.indicator_type, IndicatorKind::Garch) && r.unwrap().0.enabled
                && series_lookup(self.indicator_series@, r.unwrap().0.id@) == Some(*r.unwrap().1)
                && opt_str_is(r.unwrap().1.status, "ok"@) && r.unwrap().1.values@.len() > 0
                && exists|i: int| 0 <= i < self.indicators@.len() && *r.unwrap().0 == #[trigger] self.indicators@[i]
                    && (forall|j: int| 0 <= j < i ==> !(same_kind(#[trigger] self.indicators@[j].indicator_type, IndicatorKind::Garch) && self.indicators@[j].enabled)),
            r is None ==> forall|i: int| 0 <= i < self.indicators@.len() && same_kind(#[trigger] self.indicators@[i].indicator_type, IndicatorKind::Garch)
                && self.indicators@[i].enabled && (forall|j: int| 0 <= j < i ==> !(same_kind(#[trigger] self.indicators@[j].indicator_type, IndicatorKind::Garch) && self.indicators@[j].enabled))
                ==> match series_lookup(self.indicator_series@, self.indicators@[i].id@) {
                    Some(s) => !(opt_str_is(s.status, "ok"@) && s.values@.len() > 0),
                    None => true,
                },
    {
        match self.first_enabled(&IndicatorKind::Garch) {
            Some(p) => {
                let ok = match &p.1.status {
                    Some(st) => str_eq(st.as_str(), "ok"),
                    None => false,
                };
                if ok && p.1.values.len() > 0 {
                    Some(p)
                } else {
                    None
                }
            },
            None => None,
        }
    }

    /// Enabled GEX series when status is ok (no invented levels when unavailable).
    pub fn enabled_gex(&self) -> (r: Option<(&IndicatorConfig<R>, &IndicatorSeriesData<R>)>)
        ensures
            r is Some ==> same_kind(r.unwrap().0.indicator_type, IndicatorKind::Gex) && r.unwrap().0.enabled
                && series_lookup(self.indicator_series@, r.unwrap().0.id@) == Some(*r.unwrap().1)
                && opt_str_is(r.unwrap().1.status, "ok"@)
                && exists|i: int| 0 <= i < self.indicators@.len() && *r.unwrap().0 == #[trigger] self.indicators@[i]
                    && (forall|j: int| 0 <= j < i ==> !(same_kind(#[trigger] self.indicators@[j].indicator_type, IndicatorKind::Gex) && self.indicators@[j].enabled)),
            r is None ==> forall|i: int| 0 <= i < self.indicators@.len() && same_kind(#[trigger] self.indicators@[i].indicator_type, IndicatorKind::Gex)
                && self.indicators@[i].enabled && (forall|j: int| 0 <= j < i ==> !(same_kind(#[trigger] self.indicators@[j].indicator_type, IndicatorKind::Gex) && self.indicators@[j].enabled))
                ==> match series_lookup(self.indicator_series@, self.indicators@[i].id@) {
                    Some(s) => !(opt_str_is(s.status, "ok"@)),
                    None => true,
                },
    {
        match self.first_enabled(&IndicatorKind::Gex) {
            Some(p) => {
                let ok = match &p.1.status {
                    Some(st) => str_eq(st.as_str(), "ok"),
                    None => false,
                };
                if ok {
                    Some(p)
                } else {
                    None
                }
            },
            None => None,
        }
    }
}

/// Index of the first entry of `ids` equal to `id`, or -1.
pub open spec fn first_index<T>(ids: Seq<T>, id: T) -> int
    decreases ids.len(),
{
    if ids.len() == 0 {
        -1
    } else if ids[0] == id {
        0
    } else {
        let r = first_index(ids.drop_first(), id);
        if r < 0 {
            -1
        } else {
            r + 1
        }
    }
}

/// `first_index` is the first position holding `id` (or -1 when none does).
pub proof fn lemma_first_index<T>(ids: Seq<T>, id: T, i: int)
    requires
        0 <= i <= ids.len(),
        forall|j: int| 0 <= j < i ==> ids[j] != id,
    ensures
        i < ids.len() && ids[i] == id ==> first_index(ids, id) == i,
        i == ids.len() ==> first_index(ids, id) == -1,
    decreases i,
{
    if i > 0 {
        let t = ids.drop_first();
        assert forall|j: int| 0 <= j < i - 1 implies t[j] != id by {
            assert(t[j] == ids[j + 1]);
        }
        lemma_first_index(t, id, i - 1);
    }
}

/// Range facts of `first_index`.
pub proof fn lemma_first_index_range<T>(ids: Seq<T>, id: T)
    ensures
        -1 <= first_index(ids, id) < ids.len(),
        first_index(ids, id) >= 0 ==> ids[first_index(ids, id)] == id,
        first_index(ids, id) < 0 ==> forall|j: int| 0 <= j < ids.len() ==> ids[j] != id,
    decreases ids.len(),
{
    if ids.len() > 0 {
        let t = ids.drop_first();
        lemma_first_index_range(t, id);
        if ids[0] != id && first_index(t, id) < 0 {
            assert forall|j: int| 0 <= j < ids.len() implies ids[j] != id by {
                if j > 0 {
                    assert(t[j - 1] == ids[j]);
                }
            }
        }
    }
}

/// Ids of a watchlist sequence.
pub open spec fn watchlist_ids(wls: Seq<WatchlistSnapshot>) -> Seq<Seq<char>> {
    wls.map_values(|w: WatchlistSnapshot| w.id@)
}

/// Ids of a chart sequence.
pub open spec fn chart_ids<R>(charts: Seq<Chart<R>>) -> Seq<Seq<char>> {
    charts.map_values(|c: Chart<R>| c.id@)
}

/// Symbols of a quote list.
pub open spec fn quote_symbols<R>(quotes: Seq<QuoteRow<R>>) -> Seq<Seq<char>> {
    quotes.map_values(|q: QuoteRow<R>| q.symbol@)
}

/// Latest quote for `symbol` in `quotes`.
pub open spec fn quote_lookup<R>(quotes: Seq<QuoteRow<R>>, symbol: Seq<char>) -> Option<QuoteRow<R>> {
    let i = first_index(quote_symbols(quotes), symbol);
    if i >= 0 {
        Some(quotes[i])
    } else {
        None
    }
}

/// `quotes` after storing `q` as the latest quote of its symbol.
pub open spec fn quote_upserted<R>(quotes: Seq<QuoteRow<R>>, q: QuoteRow<R>) -> Seq<QuoteRow<R>> {
    let i = first_index(quote_symbols(quotes), q.symbol@);
    if i >= 0 {
        quotes.update(i, q)
    } else {
        quotes.push(q)
    }
}

/// Index of the active watchlist: the one with the active id, else the first, else -1.
pub open spec fn active_watchlist_index(wls: Seq<WatchlistSnapshot>, active_id: Seq<char>) -> int {
    let i = first_index(watchlist_ids(wls), active_id);
    if i >= 0 {
        i
    } else if wls.len() > 0 {
        0
    } else {
        -1
    }
}

/// Symbols of the active watchlist (empty when there is none).
pub open spec fn active_symbols_of(wls: Seq<WatchlistSnapshot>, active_id: Seq<char>) -> Seq<String> {
    let i = active_watchlist_index(wls, active_id);
    if i >= 0 {
        wls[i].symbols@
    } else {
        seq![]
    }
}

/// `sel` kept within `0..n` (0 when the list is empty).
pub open spec fn clamped(sel: int, n: int) -> int {
    if n == 0 {
        0
    } else if sel >= n {
        n - 1
    } else {
        sel
    }
}

/// Cyclic step of `cur` by `delta` within `0..n`.
pub open spec fn wrapped(cur: int, delta: int, n: int) -> int {
    (cur + delta) % n
}

/// `cur` stepped by `delta`, wrapping within `0..n`.
pub fn wrap_index(cur: usize, delta: i32, n: usize) -> (r: usize)
    requires
        n > 0,
    ensures
        r as int == wrapped(cur as int, delta as int, n as int),
        r < n,
{
    let x: i128 = cur as i128 + delta as i128;
    let m = x.checked_rem_euclid(n as i128);
    match m {
        Some(v) => v as usize,
        None => 0,
    }
}

/// One quote row per symbol: after an upsert, looking the symbol up reads the new quote, and
/// every other symbol reads what it read before.
pub proof fn lemma_upsert_lookup<R>(quotes: Seq<QuoteRow<R>>, q: QuoteRow<R>, other: Seq<char>)
    ensures
        quote_lookup(quote_upserted(quotes, q), q.symbol@) == Some(q),
        other != q.symbol@ ==> quote_lookup(quote_upserted(quotes, q), other) == quote_lookup(quotes, other),
{
    let ids = quote_symbols(quotes);
    let nq = quote_upserted(quotes, q);
    let nids = quote_symbols(nq);
    lemma_first_index_range(ids, q.symbol@);
    let i = first_index(ids, q.symbol@);
    if i >= 0 {
        assert(nids =~= ids.update(i, q.symbol@));
        assert forall|j: int| 0 <= j < i implies nids[j] != q.symbol@ by {
            lemma_first_index_prefix(ids, q.symbol@, j);
        }
        lemma_first_index(nids, q.symbol@, i);
        if other != q.symbol@ {
            lemma_first_index_update(ids, i, q.symbol@, other);
            lemma_first_index_range(ids, other);
            lemma_first_index_range(nids, other);
        }
    } else {
        assert(nids =~= ids.push(q.symbol@));
        assert forall|j: int| 0 <= j < ids.len() implies nids[j] != q.symbol@ by {
            assert(nids[j] == ids[j]);
        }
        lemma_first_index(nids, q.symbol@, ids.len() as int);
        if other != q.symbol@ {
            lemma_first_index_push(ids, q.symbol@, other);
            lemma_first_index_range(ids, other);
        }
    }
}

/// Storing a quote keeps the symbols of the stored quotes pairwise distinct: a quote for
/// a known symbol replaces that symbol's row, a new symbol gets a row of its own.
pub proof fn lemma_upsert_keeps_symbols_distinct<R>(quotes: Seq<QuoteRow<R>>, q: QuoteRow<R>)
    requires
        quote_symbols(quotes).no_duplicates(),
    ensures
        quote_symbols(quote_upserted(quotes, q)).no_duplicates(),
{
    let ids = quote_symbols(quotes);
    let nids = quote_symbols(quote_upserted(quotes, q));
    lemma_first_index_range(ids, q.symbol@);
    let i = first_index(ids, q.symbol@);
    if i >= 0 {
        assert(nids =~= ids);
    } else {
        assert(nids =~= ids.push(q.symbol@));
        assert forall|a: int, b: int| 0 <= a < nids.len() && 0 <= b < nids.len() && a != b
            implies nids[a] != nids[b] by {
            if a < ids.len() && b < ids.len() {
                assert(ids[a] != ids[b]);
            }
        }
    }
}

proof fn lemma_first_index_prefix<T>(ids: Seq<T>, id: T, j: int)
    requires
        0 <= j < first_index(ids, id),
    ensures
        ids[j] != id,
    decreases ids.len(),
{
    if ids.len() > 0 && ids[0] != id {
        let t = ids.drop_first();
        lemma_first_index_range(t, id);
        if j > 0 {
            lemma_first_index_prefix(t, id, j - 1);
        }
    }
}

proof fn lemma_first_index_update<T>(ids: Seq<T>, i: int, v: T, other: T)
    requires
        0 <= i < ids.len(),
        other != v,
        other != ids[i],
    ensures
        first_index(ids.update(i, v), other) == first_index(ids, other),
    decreases ids.len(),
{
    if i > 0 {
        let t = ids.drop_first();
        assert(ids.update(i, v).drop_first() =~= t.update(i - 1, v));
        if ids[0] != other {
            lemma_first_index_update(t, i - 1, v, other);
        }
    } else {
        assert(ids.update(i, v).drop_first() =~= ids.drop_first());
    }
}

proof fn lemma_first_index_push<T>(ids: Seq<T>, v: T, other: T)
    requires
        other != v,
    ensures
        first_index(ids.push(v), other) == first_index(ids, other),
    decreases ids.len(),
{
    if ids.len() > 0 {
        let t = ids.drop_first();
        assert(ids.push(v).drop_first() =~= t.push(v));
        assert(ids.push(v)[0] == ids[0]);
        lemma_first_index_push(t, v, other);
    } else {
        let e = Seq::<T>::empty();
        assert(ids.push(v).drop_first() =~= e);
        assert(ids.push(v)[0] == v);
        assert(first_index(e, other) == -1);
        assert(ids =~= e);
    }
}

/// Position of the first watchlist whose id is `id`.
pub(crate) fn watchlist_position(wls: &Vec<WatchlistSnapshot>, id: &String) -> (r: Option<usize>)
    ensures
        match r {
            Some(i) => i as int == first_index(watchlist_ids(wls@), id@) && i < wls@.len(),
            None => first_index(watchlist_ids(wls@), id@) == -1,
        },
{
    let ghost ids = watchlist_ids(wls@);
    let mut i: usize = 0;
    while i < wls.len()
        invariant
            i <= wls@.len(),
            ids == watchlist_ids(wls@),
            forall|j: int| 0 <= j < i ==> ids[j] != id@,
        decreases wls.len() - i,
    {
        if wls[i].id == *id {
            proof {
                lemma_first_index(ids, id@, i as int);
            }
            return Some(i);
        }
        i += 1;
    }
    proof {
        lemma_first_index(ids, id@, i as int);
    }
    None
}

/// Position of the first chart whose id is `id`.
pub(crate) fn chart_position<R>(charts: &Vec<Chart<R>>, id: &str) -> (r: Option<usize>)
    ensures
        match r {
            Some(i) => i as int == first_index(chart_ids(charts@), id@) && i < charts@.len(),
            None => first_index(chart_ids(charts@), id@) == -1,
        },
{
    let ghost ids = chart_ids(charts@);
    let mut i: usize = 0;
    while i < charts.len()
        invariant
            i <= charts@.len(),
            ids == chart_ids(charts@),
            forall|j: int| 0 <= j < i ==> ids[j] != id@,
        decreases charts.len() - i,
    {
        if str_eq(charts[i].id.as_str(), id) {
            proof {
                lemma_first_index(ids, id@, i as int);
            }
            return Some(i);
        }
        i += 1;
    }
    proof {
        lemma_first_index(ids, id@, i as int);
    }
    None
}

/// Stores `q` as the latest quote of its symbol.
pub(crate) fn upsert_quote<R>(quotes: &mut Vec<QuoteRow<R>>, q: QuoteRow<R>)
    ensures
        final(quotes)@ == quote_upserted(old(quotes)@, q),
{
    let ghost ids = quote_symbols(quotes@);
    let mut i: usize = 0;
    while i < quotes.len()
        invariant
            i <= quotes@.len(),
            ids == quote_symbols(quotes@),
            quotes@ == old(quotes)@,
            forall|j: int| 0 <= j < i ==> ids[j] != q.symbol@,
        decreases quotes.len() - i,
    {
        if quotes[i].symbol == q.symbol {
            proof {
                lemma_first_index(ids, q.symbol@, i as int);
            }
            quotes.set(i, q);
            return;
        }
        i += 1;
    }
    proof {
        lemma_first_index(ids, q.symbol@, i as int);
    }
    quotes.push(q);
}

} // verus!

verus! {

/// Whole TUI state: screen, charts, watchlists, indicator panel, paper desk.
#[derive(Debug, Clone)]
pub struct App<R> {
    pub screen: Screen,
    pub layout: LayoutMode,
    pub charts: Vec<Chart<R>>,
    /// Index into `charts` for instrument/timeframe keys.
    pub focused: usize,
    pub connection: ConnectionStatus,
    pub feed: Option<FeedSnapshot<R>>,
    /// Last workspace from engine snapshot (applied on Welcome → Workspace).
    pub pending_workspace: Option<WorkspaceSnapshot<R>>,
    /// Quotes stashed with the deferred Welcome snapshot.
    pub pending_quotes: Vec<QuoteRow<R>>,
    pub last_heartbeat_ts: Option<R>,
    /// Latest vendor tick timestamp (unix seconds) for feed delay. One value for the desk.
    pub last_vendor_tick_ts: Option<R>,
    /// When true, the main loop should POST chart interest for every chart.
    pub needs_chart_load: bool,
    /// When Some, the main loop should POST layout change to the engine.
    pub pending_layout: Option<LayoutMode>,
    /// Right watchlist sidebar visible (local UI; not persisted).
    pub watchlist_visible: bool,
    pub watchlists: Vec<WatchlistSnapshot>,
    pub active_watchlist_id: String,
    /// Latest quote per symbol (from snapshot + live WS); one row per symbol.
    pub quotes: Vec<QuoteRow<R>>,
    /// Selected row index within the active watchlist symbols.
    pub watchlist_selected: usize,
    /// When Some, main loop issues the matching watchlist HTTP mutation.
    pub pending_watchlist: Option<PendingWatchlistOp>,
    /// When Some, main loop POSTs indicator apply for that chart.
    pub pending_indicators: Option<PendingIndicatorsApply<R>>,
    /// When Some, main loop POSTs type styles for that chart.
    pub pending_type_styles: Option<PendingTypeStylesApply<R>>,
    /// Selected row in the **Current** indicators list.
    pub indicator_selected: usize,
    /// Selected row in the **Available** catalog list.
    pub indicator_available_selected: usize,
    /// Active side of the indicator panel (Tab switches; default Current).
    pub indicator_list_side: IndicatorListSide,
    /// When Some, type-style (overlay strength) popup is open over the panel.
    pub type_style_edit: Option<TypeStyleEditState<R>>,
    pub input_mode: InputMode,
    /// Active Fixed Range two-pin placement (when `input_mode == FrvpPlacing`).
    pub frvp_place: Option<FrvpPlaceState>,
    /// Active Anchored VP single-pin placement (when `input_mode == AvpPlacing`).
    pub avp_place: Option<AvpPlaceState>,
    /// Last engine error from indicator apply (shown in chrome).
    pub last_indicator_error: Option<String>,
    /// Floating keyboard-shortcut help overlay (does not replace input_mode).
    pub help_open: bool,
    /// Engine paper desk (accounts + empty Position / history tables).
    pub paper: PaperSnapshot<R>,
    /// Place/modify/cancel form; visible with the paper panel.
    pub order_side: OrderSidePanel<R>,
    /// When Some, main loop POSTs place/modify/cancel to the engine.
    pub pending_paper: Option<PendingPaperOp<R>>,
    /// Last engine rejection from place/modify/cancel (shown on the order side panel).
    pub last_paper_error: Option<String>,
    pub should_quit: bool,
    /// Real-valued product defaults (VP presentation, order form).
    pub presets: NumericPresets<R>,
}

impl<R> App<R> {
    /// The workspace always holds at least one chart.
    pub open spec fn wf(self) -> bool {
        &&& self.charts@.len() > 0
        &&& quote_symbols(self.quotes@).no_duplicates()
        &&& charts_keys_distinct(self.charts@)
        &&& match self.pending_workspace {
            Some(ws) => workspace_keys_distinct(ws),
            None => true,
        }
    }

    /// Index of the focused chart, clamped to the last chart.
    pub open spec fn fidx(self) -> int {
        if self.focused < self.charts@.len() {
            self.focused as int
        } else {
            self.charts@.len() - 1
        }
    }

    /// The focused chart.
    pub open spec fn focused_spec(self) -> Chart<R> {
        self.charts@[self.fidx()]
    }

    /// Workspace screen with no modal input.
    pub open spec fn normal_workspace(self) -> bool {
        self.screen == Screen::Workspace && self.input_mode is Normal
    }

    /// `self` with chart `i` replaced by `c` (other fields as in `self`).
    pub open spec fn with_chart(self, b: App<R>, i: int, c: Chart<R>) -> bool {
        &&& b.charts@ == self.charts@.update(i, c)
        &&& b == (App { charts: b.charts, ..self })
    }
}

/// State of a freshly started TUI.
pub open spec fn initial_app<R>(a: App<R>, presets: NumericPresets<R>, paper: PaperSnapshot<R>) -> bool {
    &&& a.screen == Screen::Welcome
    &&& a.layout == LayoutMode::Single
    &&& a.charts@.len() == 1
    &&& fresh_chart(a.charts@[0], "primary"@, "SPY"@, "1D"@)
    &&& a.focused == 0
    &&& a.connection == ConnectionStatus::Connecting
    &&& a.feed is None
    &&& a.pending_workspace is None
    &&& a.pending_quotes@.len() == 0
    &&& a.last_heartbeat_ts is None
    &&& a.last_vendor_tick_ts is None
    &&& !a.needs_chart_load
    &&& a.pending_layout is None
    &&& a.watchlist_visible
    &&& a.watchlists@.len() == 0
    &&& a.active_watchlist_id@.len() == 0
    &&& a.quotes@.len() == 0
    &&& a.watchlist_selected == 0
    &&& a.pending_watchlist is None
    &&& a.pending_indicators is None
    &&& a.pending_type_styles is None
    &&& a.indicator_selected == 0
    &&& a.indicator_available_selected == 0
    &&& a.indicator_list_side == IndicatorListSide::Current
    &&& a.type_style_edit is None
    &&& a.input_mode == InputMode::Normal
    &&& a.frvp_place is None
    &&& a.avp_place is None
    &&& a.last_indicator_error is None
    &&& !a.help_open
    &&& a.paper == paper
    &&& a.order_side.side == OrderSide::Buy
    &&& a.order_side.kind == WorkingOrderKind::Limit
    &&& a.order_side.qty == presets.order_qty
    &&& a.order_side.limit == presets.order_price_unset
    &&& a.order_side.stop == presets.order_price_unset
    &&& a.order_side.selected_order_id is None
    &&& a.pending_paper is None
    &&& a.last_paper_error is None
    &&& !a.should_quit
    &&& a.presets == presets
}

/// `b` is `a` after the layout key (arms the engine call in a Normal workspace).
pub open spec fn layout_toggle_armed<R>(a: App<R>, b: App<R>) -> bool {
    &&& a.normal_workspace() ==> b == (App {
        pending_layout: Some(layout_toggled(a.layout)),
        ..a
    })
    &&& !a.normal_workspace() ==> b == a
}

/// `b` is `a` after Tab in a Normal workspace with two charts (focus cycles).
pub open spec fn focus_moved<R>(a: App<R>, b: App<R>) -> bool {
    &&& a.normal_workspace() && a.charts@.len() >= 2 ==> b == (App {
        focused: ((a.focused + 1) % (a.charts@.len() as int)) as usize,
        ..a
    })
    &&& !(a.normal_workspace() && a.charts@.len() >= 2) ==> b == a
}

/// `b` is `a` after the sidebar key (Normal workspace only).
pub open spec fn sidebar_toggled<R>(a: App<R>, b: App<R>) -> bool {
    &&& a.normal_workspace() ==> b == (App {
        watchlist_visible: !a.watchlist_visible,
        ..a
    })
    &&& !a.normal_workspace() ==> b == a
}

impl<R: Copy> App<R> {
    /// Fresh TUI on the Welcome screen with one default chart.
    pub fn new(presets: NumericPresets<R>, empty_paper: PaperSnapshot<R>) -> (r: Self)
        ensures
            initial_app(r, presets, empty_paper),
            r.wf(),
    {
        let order_side = OrderSidePanel::fresh(&presets);
        let mut charts: Vec<Chart<R>> = Vec::new();
        charts.push(Chart::default_single());
        App {
            screen: Screen::Welcome,
            layout: LayoutMode::Single,
            charts,
            focused: 0,
            connection: ConnectionStatus::Connecting,
            feed: None,
            pending_workspace: None,
            pending_quotes: Vec::new(),
            last_heartbeat_ts: None,
            last_vendor_tick_ts: None,
            needs_chart_load: false,
            pending_layout: None,
            watchlist_visible: true,
            watchlists: Vec::new(),
            active_watchlist_id: String::new(),
            quotes: Vec::new(),
            watchlist_selected: 0,
            pending_watchlist: None,
            pending_indicators: None,
            pending_type_styles: None,
            indicator_selected: 0,
            indicator_available_selected: 0,
            indicator_list_side: IndicatorListSide::Current,
            type_style_edit: None,
            input_mode: InputMode::Normal,
            frvp_place: None,
            avp_place: None,
            last_indicator_error: None,
            help_open: false,
            paper: empty_paper,
            order_side,
            pending_paper: None,
            last_paper_error: None,
            should_quit: false,
            presets,
        }
    }

    /// Index of the focused chart (clamped).
    pub fn focused_index(&self) -> (r: usize)
        requires
            self.wf(),
        ensures
            r as int == self.fidx(),
            r < self.charts@.len(),
    {
        if self.focused < self.charts.len() {
            self.focused
        } else {
            self.charts.len() - 1
        }
    }

    pub fn focused_chart(&self) -> (r: &Chart<R>)
        requires
            self.wf(),
        ensures
            *r == self.focused_spec(),
    {
        let i = self.focused_index();
        &self.charts[i]
    }

    pub fn focused_chart_mut(&mut self) -> (r: &mut Chart<R>)
        requires
            old(self).wf(),
        ensures
            *r == old(self).focused_spec(),
            old(self).with_chart(*final(self), old(self).fidx(), *final(r)),
    {
        let i = self.focused_index();
        &mut self.charts[i]
    }

    /// Primary/focused chart.
    pub fn chart(&self) -> (r: &Chart<R>)
        requires
            self.wf(),
        ensures
            *r == self.focused_spec(),
    {
        self.focused_chart()
    }

    pub fn quit(&mut self)
        ensures
            *final(self) == (App { should_quit: true, ..*old(self) }),
    {
        self.should_quit = true;
    }

    /// Toggle layout mode; engine call is armed via `pending_layout`.
    pub fn toggle_layout(&mut self)
        ensures
            layout_toggle_armed(*old(self), *final(self)),
    {
        if self.screen != Screen::Workspace {
            return;
        }
        if !matches!(self.input_mode, InputMode::Normal) {
            return;
        }
        self.pending_layout = Some(self.layout.toggled());
    }

    pub fn layout_request_started(&mut self)
        ensures
            *final(self) == (App { pending_layout: None, ..*old(self) }),
    {
        self.pending_layout = None;
    }

    /// Cycle focus between charts in dual layout (no-op for single).
    pub fn focus_next(&mut self)
        ensures
            focus_moved(*old(self), *final(self)),
    {
        if self.screen != Screen::Workspace {
            return;
        }
        if !matches!(self.input_mode, InputMode::Normal) {
            return;
        }
        if self.charts.len() < 2 {
            return;
        }
        self.focused = ((self.focused as u128 + 1) % (self.charts.len() as u128)) as usize;
    }

    /// Toggle the floating keyboard-shortcut help without replacing input_mode.
    pub fn toggle_help(&mut self)
        ensures
            *final(self) == (App { help_open: !old(self).help_open, ..*old(self) }),
    {
        self.help_open = !self.help_open;
    }

    pub fn close_help(&mut self)
        ensures
            *final(self) == (App { help_open: false, ..*old(self) }),
    {
        self.help_open = false;
    }

    pub fn toggle_watchlist_sidebar(&mut self)
        ensures
            sidebar_toggled(*old(self), *final(self)),
    {
        if self.screen != Screen::Workspace {
            return;
        }
        if !matches!(self.input_mode, InputMode::Normal) {
            return;
        }
        self.watchlist_visible = !self.watchlist_visible;
    }

    pub fn chart_load_started(&mut self)
        ensures
            *final(self) == (App { needs_chart_load: false, ..*old(self) }),
    {
        self.needs_chart_load = false;
    }

    pub fn watchlist_request_started(&mut self)
        ensures
            *final(self) == (App { pending_watchlist: None, ..*old(self) }),
    {
        self.pending_watchlist = None;
    }

    pub fn type_styles_request_started(&mut self)
        ensures
            *final(self) == (App { pending_type_styles: None, ..*old(self) }),
    {
        self.pending_type_styles = None;
    }

    pub fn indicators_request_started(&mut self)
        ensures
            *final(self) == (App { pending_indicators: None, ..*old(self) }),
    {
        self.pending_indicators = None;
    }

    pub fn paper_request_started(&mut self)
        ensures
            *final(self) == (App { pending_paper: None, ..*old(self) }),
    {
        self.pending_paper = None;
    }
}

} // verus!
