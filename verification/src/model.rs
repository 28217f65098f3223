//! Engine wire model: workspace, chart, indicator, quote and paper-desk records.
//!
//! Every real-valued field (prices, volumes, opacities, timestamps with fractions)
//! has the type parameter `R`; the library carries such values and never computes
//! with them.
use vstd::prelude::*;
use crate::text::str_eq;

verus! {

/// Feed status from the engine snapshot / `feed_status` events.
#[derive(Debug, Clone, PartialEq)]
pub struct FeedSnapshot<R> {
    pub status: String,
    pub vendor_mode: String,
    pub engine: String,
    /// Latest vendor tick time (unix seconds). `None` until the first live tick.
    pub last_vendor_tick_ts: Option<R>,
}

/// POC / VAH / VAL level style.
#[derive(Debug, Clone, PartialEq)]
pub struct LevelStyle<R> {
    pub enabled: bool,
    pub color: Option<String>,
    pub opacity: Option<R>,
}

/// Volume histogram style of a profile.
#[derive(Debug, Clone, PartialEq)]
pub struct HistogramStyle<R> {
    pub color: Option<String>,
    pub opacity: Option<R>,
}

/// Indicator type key (`ma`, `volume`, `session_vp`, `fixed_range_vp`, `anchored_vp`,
/// `gex`, `garch`); any other key is kept verbatim.
#[derive(Debug, Clone, PartialEq)]
pub enum IndicatorKind {
    Ma,
    Volume,
    SessionVp,
    FixedRangeVp,
    AnchoredVp,
    Gex,
    Garch,
    Other(String),
}

/// Wire key of an indicator kind.
pub open spec fn kind_key(k: IndicatorKind) -> Seq<char> {
    match k {
        IndicatorKind::Ma => "ma"@,
        IndicatorKind::Volume => "volume"@,
        IndicatorKind::SessionVp => "session_vp"@,
        IndicatorKind::FixedRangeVp => "fixed_range_vp"@,
        IndicatorKind::AnchoredVp => "anchored_vp"@,
        IndicatorKind::Gex => "gex"@,
        IndicatorKind::Garch => "garch"@,
        IndicatorKind::Other(s) => s@,
    }
}

/// Two kinds denote the same type key.
pub open spec fn same_kind(a: IndicatorKind, b: IndicatorKind) -> bool {
    kind_key(a) == kind_key(b)
}

impl IndicatorKind {
    /// Kind for wire key `key`.
    pub fn from_key(key: &str) -> (r: IndicatorKind)
        ensures
            kind_key(r) == key@,
    {
        if str_eq(key, "ma") {
            IndicatorKind::Ma
        } else if str_eq(key, "volume") {
            IndicatorKind::Volume
        } else if str_eq(key, "session_vp") {
            IndicatorKind::SessionVp
        } else if str_eq(key, "fixed_range_vp") {
            IndicatorKind::FixedRangeVp
        } else if str_eq(key, "anchored_vp") {
            IndicatorKind::AnchoredVp
        } else if str_eq(key, "gex") {
            IndicatorKind::Gex
        } else if str_eq(key, "garch") {
            IndicatorKind::Garch
        } else {
            IndicatorKind::Other(String::from_str(key))
        }
    }

    /// Wire key of this kind.
    pub fn key(&self) -> (r: String)
        ensures
            r@ == kind_key(*self),
    {
        match self {
            IndicatorKind::Ma => String::from_str("ma"),
            IndicatorKind::Volume => String::from_str("volume"),
            IndicatorKind::SessionVp => String::from_str("session_vp"),
            IndicatorKind::FixedRangeVp => String::from_str("fixed_range_vp"),
            IndicatorKind::AnchoredVp => String::from_str("anchored_vp"),
            IndicatorKind::Gex => String::from_str("gex"),
            IndicatorKind::Garch => String::from_str("garch"),
            IndicatorKind::Other(s) => s.clone(),
        }
    }

    /// Whether both kinds denote the same type key.
    pub fn same_as(&self, other: &IndicatorKind) -> (b: bool)
        ensures
            b == same_kind(*self, *other),
    {
        let a = self.key();
        let b = other.key();
        str_eq(a.as_str(), b.as_str())
    }

    /// Volume profile kinds (Session, Fixed Range, Anchored).
    pub fn is_volume_profile(&self) -> (b: bool)
        ensures
            b == is_vp_kind(*self),
    {
        proof {
            lemma_kind_key_lengths();
        }
        match self {
            IndicatorKind::SessionVp => true,
            IndicatorKind::FixedRangeVp => true,
            IndicatorKind::AnchoredVp => true,
            IndicatorKind::Other(s) => {
                str_eq(s.as_str(), "session_vp") || str_eq(s.as_str(), "fixed_range_vp")
                    || str_eq(s.as_str(), "anchored_vp")
            },
            _ => false,
        }
    }
}

/// The known type keys have pairwise distinct lengths, hence are pairwise distinct.
pub proof fn lemma_kind_key_lengths()
    ensures
        "ma"@.len() == 2,
        "volume"@.len() == 6,
        "session_vp"@.len() == 10,
        "fixed_range_vp"@.len() == 14,
        "anchored_vp"@.len() == 11,
        "gex"@.len() == 3,
        "garch"@.len() == 5,
{
    reveal_strlit("ma");
    reveal_strlit("volume");
    reveal_strlit("session_vp");
    reveal_strlit("fixed_range_vp");
    reveal_strlit("anchored_vp");
    reveal_strlit("gex");
    reveal_strlit("garch");
}

/// The kind is one of the three volume profiles.
pub open spec fn is_vp_kind(k: IndicatorKind) -> bool {
    kind_key(k) == "session_vp"@ || kind_key(k) == "fixed_range_vp"@ || kind_key(k)
        == "anchored_vp"@
}

/// One indicator instance on a chart.
#[derive(Debug, Clone, PartialEq)]
pub struct IndicatorConfig<R> {
    pub id: String,
    pub indicator_type: IndicatorKind,
    pub enabled: bool,
    pub ma_type: Option<String>,
    pub length: Option<i64>,
    // Session / Fixed Range Volume Profile
    pub mode: Option<String>,
    pub box_width: Option<R>,
    pub placement: Option<String>,
    pub rows: Option<i64>,
    pub value_area_volume: Option<R>,
    pub histogram: Option<HistogramStyle<R>>,
    pub poc: Option<LevelStyle<R>>,
    pub vah: Option<LevelStyle<R>>,
    pub val: Option<LevelStyle<R>>,
    // Fixed Range VP anchors (unix seconds)
    pub start: Option<i64>,
    pub end: Option<i64>,
    pub extend_to_right: Option<bool>,
    /// Anchored VP single time anchor (unix seconds, forward to now).
    pub anchor: Option<i64>,
}

/// Real-valued product defaults used when the workspace builds records:
/// volume-profile presentation and the order form.
#[derive(Debug, Clone, PartialEq)]
pub struct NumericPresets<R> {
    /// Volume profile box width, percent of the span (30).
    pub vp_box_width: R,
    /// Value area share of profile volume, percent (70).
    pub vp_value_area_volume: R,
    /// Histogram opacity (0.35).
    pub vp_histogram_opacity: R,
    /// POC / VAH / VAL opacity (1.0).
    pub vp_level_opacity: R,
    /// Order form quantity when the form opens (1).
    pub order_qty: R,
    /// Order form limit / stop price when the form opens (0, unset).
    pub order_price_unset: R,
}

/// Copy of an optional string.
pub fn clone_opt_string(s: &Option<String>) -> (r: Option<String>)
    ensures
        r == *s,
{
    match s {
        Some(x) => Some(x.clone()),
        None => None,
    }
}

/// Copy of an indicator kind.
pub fn clone_kind(k: &IndicatorKind) -> (r: IndicatorKind)
    ensures
        r == *k,
{
    match k {
        IndicatorKind::Ma => IndicatorKind::Ma,
        IndicatorKind::Volume => IndicatorKind::Volume,
        IndicatorKind::SessionVp => IndicatorKind::SessionVp,
        IndicatorKind::FixedRangeVp => IndicatorKind::FixedRangeVp,
        IndicatorKind::AnchoredVp => IndicatorKind::AnchoredVp,
        IndicatorKind::Gex => IndicatorKind::Gex,
        IndicatorKind::Garch => IndicatorKind::Garch,
        IndicatorKind::Other(s) => IndicatorKind::Other(s.clone()),
    }
}

/// Copy of a level style.
pub fn clone_level<R: Copy>(l: &Option<LevelStyle<R>>) -> (r: Option<LevelStyle<R>>)
    ensures
        r == *l,
{
    match l {
        Some(x) => Some(LevelStyle { enabled: x.enabled, color: clone_opt_string(&x.color), opacity: x.opacity }),
        None => None,
    }
}

/// Copy of a histogram style.
pub fn clone_histogram<R: Copy>(h: &Option<HistogramStyle<R>>) -> (r: Option<HistogramStyle<R>>)
    ensures
        r == *h,
{
    match h {
        Some(x) => Some(HistogramStyle { color: clone_opt_string(&x.color), opacity: x.opacity }),
        None => None,
    }
}

impl<R: Copy> IndicatorConfig<R> {
    /// Field-for-field copy.
    pub fn duplicate(&self) -> (r: IndicatorConfig<R>)
        ensures
            r == *self,
    {
        IndicatorConfig {
            id: self.id.clone(),
            indicator_type: clone_kind(&self.indicator_type),
            enabled: self.enabled,
            ma_type: clone_opt_string(&self.ma_type),
            length: self.length,
            mode: clone_opt_string(&self.mode),
            box_width: self.box_width,
            placement: clone_opt_string(&self.placement),
            rows: self.rows,
            value_area_volume: self.value_area_volume,
            histogram: clone_histogram(&self.histogram),
            poc: clone_level(&self.poc),
            vah: clone_level(&self.vah),
            val: clone_level(&self.val),
            start: self.start,
            end: self.end,
            extend_to_right: self.extend_to_right,
            anchor: self.anchor,
        }
    }
}

/// Copy of a list of indicator configs.
pub fn clone_configs<R: Copy>(v: &Vec<IndicatorConfig<R>>) -> (r: Vec<IndicatorConfig<R>>)
    ensures
        r@ == v@,
{
    let mut out: Vec<IndicatorConfig<R>> = Vec::new();
    let mut i: usize = 0;
    while i < v.len()
        invariant
            i <= v.len(),
            out@ == v@.subrange(0, i as int),
        decreases v.len() - i,
    {
        out.push(v[i].duplicate());
        i += 1;
        assert(out@ =~= v@.subrange(0, i as int));
    }
    assert(v@.subrange(0, v.len() as int) =~= v@);
    out
}

/// `o` holds a string equal to `s`.
pub open spec fn opt_str_is(o: Option<String>, s: Seq<char>) -> bool {
    match o {
        Some(x) => x@ == s,
        None => false,
    }
}

/// `l` is an enabled level of color `color` at opacity `opacity`.
pub open spec fn level_is<R>(l: Option<LevelStyle<R>>, color: Seq<char>, opacity: R) -> bool {
    match l {
        Some(x) => x.enabled && opt_str_is(x.color, color) && x.opacity == Some(opacity),
        None => false,
    }
}

/// `h` is a histogram of color `color` at opacity `opacity`.
pub open spec fn histogram_is<R>(h: Option<HistogramStyle<R>>, color: Seq<char>, opacity: R) -> bool {
    match h {
        Some(x) => opt_str_is(x.color, color) && x.opacity == Some(opacity),
        None => false,
    }
}

/// An MA config with everything else unset.
pub open spec fn spec_ma<R>(id: Seq<char>, ma_type: Seq<char>, length: i64, c: IndicatorConfig<R>) -> bool {
    &&& c.id@ == id
    &&& c.indicator_type == IndicatorKind::Ma
    &&& c.enabled
    &&& opt_str_is(c.ma_type, ma_type)
    &&& c.length == Some(length)
    &&& c.mode is None && c.box_width is None && c.placement is None && c.rows is None
    &&& c.value_area_volume is None && c.histogram is None && c.poc is None && c.vah is None
    &&& c.val is None && c.start is None && c.end is None && c.extend_to_right is None
    &&& c.anchor is None
}

/// A config of kind `k` with every option unset.
pub open spec fn spec_plain<R>(id: Seq<char>, k: IndicatorKind, c: IndicatorConfig<R>) -> bool {
    &&& c.id@ == id
    &&& c.indicator_type == k
    &&& c.enabled
    &&& c.ma_type is None && c.length is None
    &&& c.mode is None && c.box_width is None && c.placement is None && c.rows is None
    &&& c.value_area_volume is None && c.histogram is None && c.poc is None && c.vah is None
    &&& c.val is None && c.start is None && c.end is None && c.extend_to_right is None
    &&& c.anchor is None
}

/// Default POC / VAH / VAL styles: blue, lime, red, all enabled at full opacity.
pub open spec fn spec_vp_levels<R>(c: IndicatorConfig<R>, p: NumericPresets<R>) -> bool {
    &&& level_is(c.poc, "blue"@, p.vp_level_opacity)
    &&& level_is(c.vah, "lime"@, p.vp_level_opacity)
    &&& level_is(c.val, "red"@, p.vp_level_opacity)
    &&& histogram_is(c.histogram, "steelblue"@, p.vp_histogram_opacity)
    &&& c.box_width == Some(p.vp_box_width)
    &&& c.value_area_volume == Some(p.vp_value_area_volume)
    &&& opt_str_is(c.placement, "right"@)
    &&& c.enabled
    &&& c.ma_type is None && c.length is None
}

/// Session VP defaults: mode `all`, rows 500.
pub open spec fn spec_session_vp<R>(id: Seq<char>, p: NumericPresets<R>, c: IndicatorConfig<R>) -> bool {
    &&& c.id@ == id
    &&& c.indicator_type == IndicatorKind::SessionVp
    &&& spec_vp_levels(c, p)
    &&& opt_str_is(c.mode, "all"@)
    &&& c.rows == Some(500i64)
    &&& c.start is None && c.end is None && c.extend_to_right is None && c.anchor is None
}

/// Fixed Range VP defaults: rows 200, extend off, anchors ordered.
pub open spec fn spec_fixed_range_vp<R>(id: Seq<char>, start: i64, end: i64, p: NumericPresets<R>, c: IndicatorConfig<R>) -> bool {
    &&& c.id@ == id
    &&& c.indicator_type == IndicatorKind::FixedRangeVp
    &&& spec_vp_levels(c, p)
    &&& c.mode is None
    &&& c.rows == Some(200i64)
    &&& c.start == Some(if start <= end { start } else { end })
    &&& c.end == Some(if start <= end { end } else { start })
    &&& c.extend_to_right == Some(false)
    &&& c.anchor is None
}

/// Anchored VP defaults: rows 500, single anchor.
pub open spec fn spec_anchored_vp<R>(id: Seq<char>, anchor: i64, p: NumericPresets<R>, c: IndicatorConfig<R>) -> bool {
    &&& c.id@ == id
    &&& c.indicator_type == IndicatorKind::AnchoredVp
    &&& spec_vp_levels(c, p)
    &&& c.mode is None
    &&& c.rows == Some(500i64)
    &&& c.start is None && c.end is None && c.extend_to_right is None
    &&& c.anchor == Some(anchor)
}

fn some_str(s: &str) -> (r: Option<String>)
    ensures
        opt_str_is(r, s@),
{
    Some(String::from_str(s))
}

impl<R: Copy> IndicatorConfig<R> {
    fn vp_level_defaults(p: &NumericPresets<R>) -> (r: (Option<LevelStyle<R>>, Option<LevelStyle<R>>, Option<LevelStyle<R>>))
        ensures
            level_is(r.0, "blue"@, p.vp_level_opacity),
            level_is(r.1, "lime"@, p.vp_level_opacity),
            level_is(r.2, "red"@, p.vp_level_opacity),
    {
        // POC blue · VAH green · VAL red (product palette; the UI maps names → RGB).
        (
            Some(LevelStyle { enabled: true, color: some_str("blue"), opacity: Some(p.vp_level_opacity) }),
            Some(LevelStyle { enabled: true, color: some_str("lime"), opacity: Some(p.vp_level_opacity) }),
            Some(LevelStyle { enabled: true, color: some_str("red"), opacity: Some(p.vp_level_opacity) }),
        )
    }

    /// A config of kind `kind` with every option unset.
    fn plain(id: String, kind: IndicatorKind) -> (r: Self)
        ensures
            spec_plain(id@, kind, r),
    {
        IndicatorConfig {
            id,
            indicator_type: kind,
            enabled: true,
            ma_type: None,
            length: None,
            mode: None,
            box_width: None,
            placement: None,
            rows: None,
            value_area_volume: None,
            histogram: None,
            poc: None,
            vah: None,
            val: None,
            start: None,
            end: None,
            extend_to_right: None,
            anchor: None,
        }
    }

    /// Moving average of `ma_type` (`sma` / `ema`) over `length` bars.
    pub fn ma(id: String, ma_type: &str, length: i64) -> (r: Self)
        ensures
            spec_ma(id@, ma_type@, length, r),
    {
        let mut c = Self::plain(id, IndicatorKind::Ma);
        c.ma_type = Some(String::from_str(ma_type));
        c.length = Some(length);
        c
    }

    /// Volume sub-pane.
    pub fn volume(id: String) -> (r: Self)
        ensures
            spec_plain(id@, IndicatorKind::Volume, r),
    {
        Self::plain(id, IndicatorKind::Volume)
    }

    /// Optional GEX — only meaningful when the engine has options data.
    pub fn gex(id: String) -> (r: Self)
        ensures
            spec_plain(id@, IndicatorKind::Gex, r),
    {
        Self::plain(id, IndicatorKind::Gex)
    }

    /// Optional GARCH — only meaningful when history supports a stable estimate.
    pub fn garch(id: String) -> (r: Self)
        ensures
            spec_plain(id@, IndicatorKind::Garch, r),
    {
        Self::plain(id, IndicatorKind::Garch)
    }

    fn vp_base(id: String, kind: IndicatorKind, p: &NumericPresets<R>) -> (r: Self)
        ensures
            r.id == id,
            r.indicator_type == kind,
            spec_vp_levels(r, *p),
            r.mode is None && r.rows is None && r.start is None && r.end is None,
            r.extend_to_right is None && r.anchor is None,
    {
        let (poc, vah, val) = Self::vp_level_defaults(p);
        IndicatorConfig {
            id,
            indicator_type: kind,
            enabled: true,
            ma_type: None,
            length: None,
            mode: None,
            box_width: Some(p.vp_box_width),
            placement: some_str("right"),
            rows: None,
            value_area_volume: Some(p.vp_value_area_volume),
            histogram: Some(HistogramStyle { color: some_str("steelblue"), opacity: Some(p.vp_histogram_opacity) }),
            poc,
            vah,
            val,
            start: None,
            end: None,
            extend_to_right: None,
            anchor: None,
        }
    }

    /// Session VP defaults: mode all, rows 500, VA 70%, box 30% on the right.
    pub fn session_vp_default(id: String, p: &NumericPresets<R>) -> (r: Self)
        ensures
            spec_session_vp(id@, *p, r),
    {
        let mut c = Self::vp_base(id, IndicatorKind::SessionVp, p);
        c.mode = some_str("all");
        c.rows = Some(500);
        c
    }

    /// Fixed Range VP defaults: rows 200, VA 70%, extend off; anchors supplied by caller
    /// (stored in time order).
    pub fn fixed_range_vp_default(id: String, start: i64, end: i64, p: &NumericPresets<R>) -> (r: Self)
        ensures
            spec_fixed_range_vp(id@, start, end, *p, r),
    {
        let (start, end) = if start <= end {
            (start, end)
        } else {
            (end, start)
        };
        let mut c = Self::vp_base(id, IndicatorKind::FixedRangeVp, p);
        c.rows = Some(200);
        c.start = Some(start);
        c.end = Some(end);
        c.extend_to_right = Some(false);
        c
    }

    /// Anchored VP defaults: rows 500, VA 70%; single `anchor` supplied by caller.
    pub fn anchored_vp_default(id: String, anchor: i64, p: &NumericPresets<R>) -> (r: Self)
        ensures
            spec_anchored_vp(id@, anchor, *p, r),
    {
        let mut c = Self::vp_base(id, IndicatorKind::AnchoredVp, p);
        c.rows = Some(500);
        c.anchor = Some(anchor);
        c
    }
}

/// One strike of a GEX profile.
#[derive(Debug, Clone, PartialEq)]
pub struct GexLevel<R> {
    pub strike: R,
    pub gex: R,
}

/// One price bucket of a volume profile.
#[derive(Debug, Clone, PartialEq)]
pub struct VpBin<R> {
    pub price_low: R,
    pub price_high: R,
    pub volume: R,
}

/// One computed volume profile.
#[derive(Debug, Clone, PartialEq)]
pub struct VpProfile<R> {
    /// Session VP day bounds.
    pub session_start: Option<i64>,
    pub session_end: Option<i64>,
    /// Fixed Range / Anchored VP anchors / effective window.
    pub range_start: Option<i64>,
    pub range_end: Option<i64>,
    pub anchor_end: Option<i64>,
    /// Anchored VP: the single time anchor (also mirrored as range_start).
    pub anchor: Option<i64>,
    /// Where POC/VAH/VAL lines draw to (may project past anchor_end when extend is on).
    pub levels_end: Option<i64>,
    pub extend_to_right: Option<bool>,
    pub high: R,
    pub low: R,
    pub poc: R,
    pub vah: R,
    pub val: R,
    pub total_volume: R,
    pub bins: Vec<VpBin<R>>,
}

/// Computed series of one indicator instance (aligned to bars by index).
#[derive(Debug, Clone, PartialEq)]
pub struct IndicatorSeriesData<R> {
    pub series_type: String,
    /// "ok" | "unavailable" for optional indicators (GEX / GARCH); absent for MA/VP.
    pub status: Option<String>,
    /// Machine reason when status is unavailable (e.g. options_data_missing).
    pub reason: Option<String>,
    /// Per-bar values for MA / Volume / GARCH (empty for profile overlays / GEX).
    pub values: Vec<Option<R>>,
    pub ma_type: Option<String>,
    pub length: Option<i64>,
    /// Session / Fixed Range volume profiles.
    pub profiles: Vec<VpProfile<R>>,
    /// GEX net exposure when status is ok.
    pub net_gex: Option<R>,
    /// Underlying spot used for GEX when status is ok.
    pub spot: Option<R>,
    /// Per-strike GEX levels when status is ok.
    pub levels: Vec<GexLevel<R>>,
}

/// Indicator configs and computed series for one chart.
#[derive(Debug, Clone, PartialEq)]
pub struct ChartIndicatorsPayload<R> {
    pub indicators: Vec<IndicatorConfig<R>>,
    /// Series keyed by indicator id.
    pub series: Vec<(String, IndicatorSeriesData<R>)>,
}

/// Engine reply to a full-replace indicator apply.
#[derive(Debug, Clone, PartialEq)]
pub struct IndicatorsApplyResponse<R> {
    pub chart_id: String,
    pub indicators: Vec<IndicatorConfig<R>>,
    pub series: Vec<(String, IndicatorSeriesData<R>)>,
}

/// Live indicator recompute for one chart.
#[derive(Debug, Clone, PartialEq)]
pub struct IndicatorUpdateEvent<R> {
    pub chart_id: String,
    pub instrument: String,
    pub timeframe: String,
    pub indicators: Vec<IndicatorConfig<R>>,
    pub series: Vec<(String, IndicatorSeriesData<R>)>,
}

/// Per-chart presentation settings shared by all instances of an indicator type.
#[derive(Debug, Clone, Copy, PartialEq)]
pub struct IndicatorTypeStyle<R> {
    /// Terminal overlay intensity / blend weight in \[0, 1\] (no true alpha).
    pub overlay_strength: R,
}

/// One chart of a saved workspace.
#[derive(Debug, Clone, PartialEq)]
pub struct WorkspaceChartSnapshot<R> {
    pub id: String,
    pub instrument: String,
    pub timeframe: String,
    pub indicators: Vec<IndicatorConfig<R>>,
    /// Type style map keyed by indicator type key.
    pub type_styles: Vec<(String, IndicatorTypeStyle<R>)>,
}

/// A named, user-curated list of instruments.
#[derive(Debug, Clone, PartialEq, Eq)]
pub struct WatchlistSnapshot {
    pub id: String,
    pub name: String,
    pub symbols: Vec<String>,
}

/// Saved workspace: layout, charts, watchlists.
#[derive(Debug, Clone, PartialEq)]
pub struct WorkspaceSnapshot<R> {
    pub layout_mode: String,
    pub charts: Vec<WorkspaceChartSnapshot<R>>,
    pub watchlists: Vec<WatchlistSnapshot>,
    pub active_watchlist_id: String,
}

/// Quote fields of one watchlist symbol.
#[derive(Debug, Clone, PartialEq)]
pub struct QuoteRow<R> {
    pub symbol: String,
    pub status: String,
    pub last: Option<R>,
    pub previous_close: Option<R>,
    pub change: Option<R>,
    pub change_pct: Option<R>,
}

/// One local paper account as exposed on the snapshot / paper events.
#[derive(Debug, Clone, PartialEq)]
pub struct PaperAccountSnapshot<R> {
    pub id: String,
    pub name: String,
    pub currency: String,
    pub initial_balance: R,
    pub balance: R,
    pub commission_per_fill_usd: R,
    pub leverage_enabled: bool,
    pub leverage_multiple: R,
    pub asset_class_restriction: Option<String>,
}

/// First-launch / create-account defaults (visible in paper account settings).
#[derive(Debug, Clone, PartialEq)]
pub struct PaperDefaults<R> {
    pub name: String,
    pub currency: String,
    pub initial_balance: R,
    pub commission_per_fill_usd: R,
    pub leverage_enabled: bool,
    pub leverage_multiple: R,
    /// Maintenance margin as a fraction of initial margin (0 = product default).
    pub maintenance_margin_ratio: R,
}

/// Open holding row in the Position table (distinct from the watchlist).
#[derive(Debug, Clone, PartialEq)]
pub struct PaperPositionRow<R> {
    pub symbol: String,
    pub side: String,
    pub qty: R,
    pub avg_price: R,
    pub unrealized_pnl: R,
    pub take_profit: Option<R>,
    pub stop_loss: Option<R>,
}

/// Append-only filled order history row (one entry or exit leg).
#[derive(Debug, Clone, PartialEq)]
pub struct FilledOrderRow<R> {
    pub id: String,
    pub account_id: String,
    pub symbol: String,
    pub side: String,
    pub order_type: String,
    pub qty: R,
    pub limit: Option<R>,
    pub stop: Option<R>,
    pub fill_price: R,
    pub commission: R,
    pub placed_ts: i64,
    pub filled_ts: i64,
    pub duration_s: i64,
    pub margin: Option<R>,
    pub trade_mark_pair_id: String,
    pub trade_mark_kind: String,
}

/// One fill-leg pin on the price pane (engine visibility flags).
#[derive(Debug, Clone, PartialEq)]
pub struct TradeMarkPin<R> {
    pub pair_id: String,
    pub fill_id: String,
    pub instrument: String,
    pub kind: String,
    pub price: R,
    pub filled_ts: i64,
    pub side: String,
    pub visible: bool,
}

/// Cash/equity history row for the active paper account.
#[derive(Debug, Clone, PartialEq)]
pub struct BalanceHistoryRow<R> {
    pub ts: i64,
    pub balance: R,
}

/// Resting working order on the active paper account (lines + order side panel).
#[derive(Debug, Clone, PartialEq)]
pub struct WorkingOrderSnapshot<R> {
    pub id: String,
    pub account_id: String,
    pub instrument: String,
    pub side: String,
    pub order_type: String,
    pub qty: R,
    pub limit: Option<R>,
    pub stop: Option<R>,
    pub placed_ts: i64,
    pub bracket_id: Option<String>,
    pub role: String,
}

/// Paper desk: accounts, working orders, positions and histories.
#[derive(Debug, Clone, PartialEq)]
pub struct PaperSnapshot<R> {
    pub active_account_id: String,
    pub accounts: Vec<PaperAccountSnapshot<R>>,
    pub defaults: PaperDefaults<R>,
    pub working_orders: Vec<WorkingOrderSnapshot<R>>,
    pub positions: Vec<PaperPositionRow<R>>,
    pub filled_order_history: Vec<FilledOrderRow<R>>,
    pub balance_history: Vec<BalanceHistoryRow<R>>,
    pub trade_marks: Vec<TradeMarkPin<R>>,
}

impl<R> PaperSnapshot<R> {
    /// The account whose id is the (non-empty) active account id.
    pub fn active_account(&self) -> (r: Option<&PaperAccountSnapshot<R>>)
        ensures
            r is Some ==> self.active_account_id@.len() > 0,
            r is Some ==> r.unwrap().id@ == self.active_account_id@,
            r is Some ==> exists|i: int|
                    0 <= i < self.accounts@.len() && #[trigger] self.accounts@[i] == *r.unwrap()
                        && forall|j: int|
                        0 <= j < i ==> self.accounts@[j].id@ != self.active_account_id@,
            match r {
                Some(a) => true,
                None => self.active_account_id@.len() == 0 || forall|j: int|
                    0 <= j < self.accounts@.len() ==> self.accounts@[j].id@
                        != self.active_account_id@,
            },
    {
        if self.active_account_id.as_str().unicode_len() == 0 {
            return None;
        }
        let mut i: usize = 0;
        while i < self.accounts.len()
            invariant
                i <= self.accounts@.len(),
                self.active_account_id@.len() > 0,
                forall|j: int| 0 <= j < i ==> self.accounts@[j].id@ != self.active_account_id@,
            decreases self.accounts.len() - i,
        {
            if self.accounts[i].id == self.active_account_id {
                return Some(&self.accounts[i]);
            }
            i += 1;
        }
        None
    }
}

/// One OHLCV candle; `ts` is the bar open (unix seconds).
#[derive(Debug, Clone, Copy, PartialEq)]
pub struct OhlcvBar<R> {
    pub ts: i64,
    pub open: R,
    pub high: R,
    pub low: R,
    pub close: R,
    pub volume: R,
}

/// Engine reply to chart interest: history for one instrument + timeframe.
#[derive(Debug, Clone, PartialEq)]
pub struct ChartInterestResponse<R> {
    pub instrument: String,
    pub timeframe: String,
    pub status: String,
    pub bars: Vec<OhlcvBar<R>>,
    pub chart_id: Option<String>,
    pub indicators: Vec<IndicatorConfig<R>>,
    pub series: Vec<(String, IndicatorSeriesData<R>)>,
}

/// Live bar tip update from the engine (conflated WebSocket event).
#[derive(Debug, Clone, PartialEq)]
pub struct BarUpdateEvent<R> {
    pub instrument: String,
    pub timeframe: String,
    pub completed_bars: Vec<OhlcvBar<R>>,
    pub bar: OhlcvBar<R>,
}

/// Live quote update from the engine (conflated WebSocket event).
#[derive(Debug, Clone, PartialEq)]
pub struct QuoteUpdateEvent<R> {
    pub symbol: String,
    pub status: String,
    pub last: Option<R>,
    pub previous_close: Option<R>,
    pub change: Option<R>,
    pub change_pct: Option<R>,
}

impl<R> QuoteUpdateEvent<R> {
    /// The quote row carried by this update.
    pub open spec fn row_spec(self) -> QuoteRow<R> {
        QuoteRow {
            symbol: self.symbol,
            status: self.status,
            last: self.last,
            previous_close: self.previous_close,
            change: self.change,
            change_pct: self.change_pct,
        }
    }
}

impl<R: Copy> QuoteUpdateEvent<R> {
    /// The quote row carried by this update.
    pub fn to_row(&self) -> (r: QuoteRow<R>)
        ensures
            r == self.row_spec(),
    {
        QuoteRow {
            symbol: self.symbol.clone(),
            status: self.status.clone(),
            last: self.last,
            previous_close: self.previous_close,
            change: self.change,
            change_pct: self.change_pct,
        }
    }
}

/// Everything the engine link delivers to the workspace.
#[derive(Debug, Clone, PartialEq)]
#[allow(inconsistent_fields)]
pub enum IpcEvent<R> {
    Snapshot {
        feed: FeedSnapshot<R>,
        workspace: Option<WorkspaceSnapshot<R>>,
        quotes: Vec<QuoteRow<R>>,
        indicators: Vec<(String, ChartIndicatorsPayload<R>)>,
        paper: PaperSnapshot<R>,
    },
    FeedStatus { status: String, vendor_mode: String, last_vendor_tick_ts: Option<R> },
    Heartbeat { ts: R, last_vendor_tick_ts: Option<R> },
    ChartSeries(ChartInterestResponse<R>),
    BarUpdate(BarUpdateEvent<R>),
    QuoteUpdate(QuoteUpdateEvent<R>),
    IndicatorUpdate(IndicatorUpdateEvent<R>),
    PaperUpdate(PaperSnapshot<R>),
    IndicatorsApplied(IndicatorsApplyResponse<R>),
    Workspace(WorkspaceSnapshot<R>),
    WatchlistState { workspace: WorkspaceSnapshot<R>, quotes: Vec<QuoteRow<R>> },
    ChartLoadFailed { chart_id: String, instrument: String, timeframe: String, message: String },
    WorkspaceFailed { message: String },
    WatchlistFailed { message: String },
    PaperFailed { message: String },
    IndicatorsFailed { message: String },
    Disconnected { reason: String },
}

/// Full-replace indicator apply for one chart.
#[derive(Debug, Clone, PartialEq)]
pub struct IndicatorsApplyRequest<R> {
    pub chart_id: String,
    pub indicators: Vec<IndicatorConfig<R>>,
}

/// Chart interest: history + live subscription for one instrument and timeframe.
#[derive(Debug, Clone, PartialEq, Eq)]
pub struct ChartInterestRequest {
    pub instrument: String,
    pub timeframe: String,
    pub chart_id: Option<String>,
}

/// Layout change for the workspace.
#[derive(Debug, Clone, PartialEq, Eq)]
pub struct WorkspaceRequest {
    pub layout_mode: String,
}

/// Per-type style persist for one chart.
#[derive(Debug, Clone, PartialEq)]
pub struct TypeStylesRequest<R> {
    pub chart_id: Option<String>,
    pub type_styles: Vec<(String, IndicatorTypeStyle<R>)>,
}

/// Make a watchlist the active sheet.
#[derive(Debug, Clone, PartialEq, Eq)]
pub struct WatchlistActiveRequest {
    pub watchlist_id: String,
}

/// Add / remove one symbol on the active watchlist.
#[derive(Debug, Clone, PartialEq, Eq)]
pub struct WatchlistSymbolRequest {
    pub symbol: String,
}

/// Rename the active watchlist.
#[derive(Debug, Clone, PartialEq, Eq)]
pub struct WatchlistRenameRequest {
    pub name: String,
}

/// Place a paper working order.
#[derive(Debug, Clone, PartialEq)]
pub struct PaperOrderPlaceRequest<R> {
    pub instrument: String,
    pub side: String,
    pub order_type: String,
    pub qty: R,
    pub limit: Option<R>,
    pub stop: Option<R>,
    pub take_profit: Option<R>,
    pub stop_loss: Option<R>,
}

/// Modify a paper working order.
#[derive(Debug, Clone, PartialEq)]
pub struct PaperOrderModifyRequest<R> {
    pub order_id: String,
    pub qty: Option<R>,
    pub limit: Option<R>,
    pub stop: Option<R>,
}

/// Cancel a paper working order.
#[derive(Debug, Clone, PartialEq, Eq)]
pub struct PaperOrderCancelRequest {
    pub order_id: String,
}

/// Close the paper position on an instrument.
#[derive(Debug, Clone, PartialEq, Eq)]
pub struct PaperPositionCloseRequest {
    pub instrument: String,
}

/// Attach take-profit / stop-loss to a paper position.
#[derive(Debug, Clone, PartialEq)]
pub struct PaperPositionBracketRequest<R> {
    pub instrument: String,
    pub take_profit: R,
    pub stop_loss: R,
}

/// Show / hide trade marks (one pair, one fill, or all).
#[derive(Debug, Clone, PartialEq, Eq)]
pub struct PaperTradeMarkVisibilityRequest {
    pub pair_id: Option<String>,
    pub fill_id: Option<String>,
    pub visible: bool,
}

/// Reply to a watchlist mutation.
#[derive(Debug, Clone, PartialEq)]
pub struct WatchlistMutationResponse<R> {
    pub workspace: WorkspaceSnapshot<R>,
    pub quotes: Vec<QuoteRow<R>>,
}

/// Default for serde fields that are on unless stated (`enabled`, `visible`).
pub fn default_true() -> (r: bool)
    ensures
        r,
{
    true
}

/// Default account currency.
pub fn default_usd() -> (r: String)
    ensures
        r@ == "USD"@,
{
    String::from_str("USD")
}

} // verus!
