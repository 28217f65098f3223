//! Indicator panel: navigation, catalog adds with per-chart maxima, per-instance edits.
use vstd::prelude::*;
use crate::app::{
    chart_ids, chart_position, clamped, count_kind, first_index, wrap_index, wrapped, App, Chart,
    IndicatorListSide, InputMode, PendingIndicatorsApply, AVAILABLE_INDICATOR_COUNT, MAX_MA_LINES,
};
use crate::model::{
    clone_configs, opt_str_is, same_kind, spec_ma, spec_plain, spec_session_vp, IndicatorConfig,
    IndicatorKind,
};
use crate::text::{decimal, push_decimal, str_eq};

verus! {

/// Selected row of the Current list of `a`'s focused chart (clamped).
pub open spec fn sel_idx<R>(a: App<R>) -> int {
    clamped(a.indicator_selected as int, a.focused_spec().indicators@.len() as int)
}

/// `p` is an apply request for chart `c` with its whole config list.
pub open spec fn armed_for<R>(p: Option<PendingIndicatorsApply<R>>, c: Chart<R>) -> bool {
    p matches Some(x) && x.chart_id@ == c.id@ && x.indicators@ == c.indicators@
}

/// `b` is `a` with the focused chart's configs replaced by `cfgs` (nothing else of the chart).
pub open spec fn focused_configs<R>(a: App<R>, b: App<R>, cfgs: Seq<IndicatorConfig<R>>) -> bool {
    let i = a.fidx();
    &&& b.charts@.len() == a.charts@.len()
    &&& b.charts@ == a.charts@.update(i, b.charts@[i])
    &&& b.charts@[i] == Chart { indicators: b.charts@[i].indicators, ..a.focused_spec() }
    &&& b.charts@[i].indicators@ == cfgs
}

/// `b` is `a` after an indicator edit on the focused chart: configs become `cfgs`, the
/// selection is `sel`, the error is cleared when `clear_err`, and the apply is armed.
pub open spec fn edited_and_armed<R>(a: App<R>, b: App<R>, cfgs: Seq<IndicatorConfig<R>>, sel: int, clear_err: bool) -> bool {
    &&& focused_configs(a, b, cfgs)
    &&& b.indicator_selected as int == sel
    &&& armed_for(b.pending_indicators, b.focused_spec())
    &&& (if clear_err { b.last_indicator_error is None } else { b.last_indicator_error == a.last_indicator_error })
    &&& b == (App {
        charts: b.charts,
        indicator_selected: b.indicator_selected,
        pending_indicators: b.pending_indicators,
        last_indicator_error: b.last_indicator_error,
        ..a
    })
}

/// `b` is `a` with only the indicator error set to `msg`.
pub open spec fn failed_with<R>(a: App<R>, b: App<R>, msg: Seq<char>) -> bool {
    &&& opt_str_is(b.last_indicator_error, msg)
    &&& b == (App { last_indicator_error: b.last_indicator_error, ..a })
}

/// Number of configs of `kind` (exec).
pub fn count_of_kind<R>(cfgs: &Vec<IndicatorConfig<R>>, kind: &IndicatorKind) -> (r: usize)
    ensures
        r as int == count_kind(cfgs@, *kind),
{
    let mut n: usize = 0;
    let mut i: usize = 0;
    while i < cfgs.len()
        invariant
            i <= cfgs@.len(),
            n as int == count_kind(cfgs@.subrange(0, i as int), *kind),
            n <= i,
        decreases cfgs.len() - i,
    {
        assert(cfgs@.subrange(0, i + 1).drop_last() =~= cfgs@.subrange(0, i as int));
        if cfgs[i].indicator_type.same_as(kind) {
            n += 1;
        }
        i += 1;
    }
    assert(cfgs@.subrange(0, cfgs@.len() as int) =~= cfgs@);
    n
}

/// `b` is `a` after the indicator panel key.
pub open spec fn indicator_panel_toggled<R>(a: App<R>, b: App<R>) -> bool {
    if a.help_open || a.screen != crate::app::Screen::Workspace {
        b == a
    } else if a.input_mode is Normal {
        b == (App {
            input_mode: InputMode::IndicatorPanel,
            indicator_list_side: IndicatorListSide::Current,
            type_style_edit: None,
            indicator_selected: sel_idx(a) as usize,
            indicator_available_selected: clamped(a.indicator_available_selected as int, 7) as usize,
            ..a
        })
    } else if a.input_mode is IndicatorPanel {
        b == (App { input_mode: InputMode::Normal, type_style_edit: None, ..a })
    } else {
        b == a
    }
}

/// `b` is `a` after Tab in the indicator panel.
pub open spec fn list_side_toggled<R>(a: App<R>, b: App<R>) -> bool {
    if !(a.input_mode is IndicatorPanel) || a.type_style_edit is Some {
        b == a
    } else if a.indicator_list_side == IndicatorListSide::Current {
        b == (App {
            indicator_list_side: IndicatorListSide::Available,
            indicator_available_selected: clamped(a.indicator_available_selected as int, 7) as usize,
            ..a
        })
    } else {
        b == (App {
            indicator_list_side: IndicatorListSide::Current,
            indicator_selected: sel_idx(a) as usize,
            ..a
        })
    }
}

/// `b` is `a` after ↑↓ in the indicator panel.
pub open spec fn indicator_row_moved<R>(a: App<R>, delta: int, b: App<R>) -> bool {
    let n = a.focused_spec().indicators@.len() as int;
    if !(a.input_mode is IndicatorPanel) || a.type_style_edit is Some {
        b == a
    } else if a.indicator_list_side == IndicatorListSide::Available {
        b == (App {
            indicator_available_selected: wrapped(clamped(a.indicator_available_selected as int, 7), delta as int, 7) as usize,
            ..a
        })
    } else {
        b == (App {
            indicator_selected: (if n == 0 { 0 } else { wrapped(clamped(a.indicator_selected as int, n), delta as int, n) }) as usize,
            ..a
        })
    }
}

impl<R: Copy> App<R> {
    /// Keep the Current-list selection inside the focused chart's configs.
    pub(crate) fn clamp_indicator_selection(&mut self)
        requires
            old(self).wf(),
        ensures
            *final(self) == (App { indicator_selected: sel_idx(*old(self)) as usize, ..*old(self) }),
    {
        let n = self.focused_chart().indicators.len();
        if n == 0 {
            self.indicator_selected = 0;
        } else if self.indicator_selected >= n {
            self.indicator_selected = n - 1;
        }
    }

    /// Keep the Available-list selection inside the catalog.
    fn clamp_available_selection(&mut self)
        ensures
            *final(self) == (App {
                indicator_available_selected: clamped(old(self).indicator_available_selected as int, 7) as usize,
                ..*old(self)
            }),
    {
        if self.indicator_available_selected >= AVAILABLE_INDICATOR_COUNT {
            self.indicator_available_selected = AVAILABLE_INDICATOR_COUNT - 1;
        }
    }

    /// Arm indicator apply for the chart whose id is `chart_id`, the first one with that id
    /// (no-op when none has it).
    pub(crate) fn arm_indicators_apply_for(&mut self, chart_id: &str)
        ensures
            first_index(chart_ids(old(self).charts@), chart_id@) >= 0 ==> {
                &&& armed_for(final(self).pending_indicators, old(self).charts@[first_index(chart_ids(old(self).charts@), chart_id@)])
                &&& *final(self) == (App { pending_indicators: final(self).pending_indicators, ..*old(self) })
            },
            first_index(chart_ids(old(self).charts@), chart_id@) < 0 ==> *final(self) == *old(self),
    {
        match chart_position(&self.charts, chart_id) {
            Some(i) => {
                let p = PendingIndicatorsApply {
                    chart_id: self.charts[i].id.clone(),
                    indicators: clone_configs(&self.charts[i].indicators),
                };
                self.pending_indicators = Some(p);
            },
            None => {},
        }
    }

    /// Arm indicator apply for the focused chart.
    pub(crate) fn arm_indicators_apply(&mut self)
        requires
            old(self).wf(),
        ensures
            armed_for(final(self).pending_indicators, old(self).focused_spec()),
            *final(self) == (App { pending_indicators: final(self).pending_indicators, ..*old(self) }),
    {
        let i = self.focused_index();
        let p = PendingIndicatorsApply {
            chart_id: self.charts[i].id.clone(),
            indicators: clone_configs(&self.charts[i].indicators),
        };
        self.pending_indicators = Some(p);
    }

    /// Open / close the indicator panel (Normal ↔ IndicatorPanel); opening selects Current.
    pub fn toggle_indicator_panel(&mut self)
        requires
            old(self).wf(),
        ensures
            indicator_panel_toggled(*old(self), *final(self)),
    {
        if self.help_open {
            return;
        }
        if self.screen != crate::app::Screen::Workspace {
            return;
        }
        if matches!(self.input_mode, InputMode::Normal) {
            self.input_mode = InputMode::IndicatorPanel;
            // The active list is Current when the panel opens.
            self.indicator_list_side = IndicatorListSide::Current;
            self.type_style_edit = None;
            self.clamp_indicator_selection();
            self.clamp_available_selection();
        } else if matches!(self.input_mode, InputMode::IndicatorPanel) {
            self.type_style_edit = None;
            self.input_mode = InputMode::Normal;
        }
    }

    pub fn close_indicator_panel(&mut self)
        ensures
            old(self).input_mode is IndicatorPanel ==> *final(self) == (App {
                input_mode: InputMode::Normal,
                type_style_edit: None,
                ..*old(self)
            }),
            !(old(self).input_mode is IndicatorPanel) ==> *final(self) == *old(self),
    {
        if matches!(self.input_mode, InputMode::IndicatorPanel) {
            self.type_style_edit = None;
            self.input_mode = InputMode::Normal;
        }
    }

    /// Tab: switch Available ↔ Current while the indicator panel owns focus.
    pub fn indicator_toggle_list_side(&mut self)
        requires
            old(self).wf(),
        ensures
            list_side_toggled(*old(self), *final(self)),
    {
        if !matches!(self.input_mode, InputMode::IndicatorPanel) {
            return;
        }
        if self.type_style_edit.is_some() {
            return;
        }
        match self.indicator_list_side {
            IndicatorListSide::Available => {
                self.indicator_list_side = IndicatorListSide::Current;
                self.clamp_indicator_selection();
            },
            IndicatorListSide::Current => {
                self.indicator_list_side = IndicatorListSide::Available;
                self.clamp_available_selection();
            },
        }
    }

    /// ↑↓ on the active list of the indicator panel (wraps).
    pub fn indicator_select_delta(&mut self, delta: i32)
        requires
            old(self).wf(),
        ensures
            indicator_row_moved(*old(self), delta as int, *final(self)),
    {
        if !matches!(self.input_mode, InputMode::IndicatorPanel) {
            return;
        }
        if self.type_style_edit.is_some() {
            return;
        }
        match self.indicator_list_side {
            IndicatorListSide::Available => {
                let n = AVAILABLE_INDICATOR_COUNT;
                let cur = if self.indicator_available_selected < n {
                    self.indicator_available_selected
                } else {
                    n - 1
                };
                self.indicator_available_selected = wrap_index(cur, delta, n);
            },
            IndicatorListSide::Current => {
                let n = self.focused_chart().indicators.len();
                if n == 0 {
                    self.indicator_selected = 0;
                    return;
                }
                let cur = if self.indicator_selected < n {
                    self.indicator_selected
                } else {
                    n - 1
                };
                self.indicator_selected = wrap_index(cur, delta, n);
            },
        }
    }

    /// Count of instances of `kind` on the focused chart (for Available max hints).
    pub fn focused_indicator_type_count(&self, kind: &IndicatorKind) -> (r: usize)
        requires
            self.wf(),
        ensures
            r as int == count_kind(self.focused_spec().indicators@, *kind),
    {
        count_of_kind(&self.focused_chart().indicators, kind)
    }

    /// Push `cfg` on the focused chart, select it, clear the error and arm the apply.
    fn push_indicator(&mut self, cfg: IndicatorConfig<R>)
        requires
            old(self).wf(),
        ensures
            final(self).wf(),
            edited_and_armed(
                *old(self),
                *final(self),
                old(self).focused_spec().indicators@.push(cfg),
                old(self).focused_spec().indicators@.len() as int,
                true,
            ),
    {
        let i = self.focused_index();
        self.charts[i].indicators.push(cfg);
        self.indicator_selected = self.charts[i].indicators.len() - 1;
        self.last_indicator_error = None;
        self.arm_indicators_apply();
        proof {
            assert(self.charts@ =~= old(self).charts@.update(i as int, self.charts@[i as int]));
        }
    }

    /// Set the indicator error to `msg`.
    fn fail_indicator(&mut self, msg: &str)
        ensures
            failed_with(*old(self), *final(self), msg@),
    {
        self.last_indicator_error = Some(String::from_str(msg));
    }
}


/// Some MA config of `cfgs` has length `l`.
pub open spec fn has_ma_length<R>(cfgs: Seq<IndicatorConfig<R>>, l: i64) -> bool {
    exists|i: int| 0 <= i < cfgs.len() && same_kind(#[trigger] cfgs[i].indicator_type, IndicatorKind::Ma) && cfgs[i].length == Some(l)
}

/// The default MA lengths, in order: 10, 60, 200.
pub open spec fn default_ma_length(k: int) -> i64 {
    if k == 0 {
        10
    } else if k == 1 {
        60
    } else {
        200
    }
}

/// Default lengths added by the MA stack from position `k` on, with `cnt` MA lines present:
/// a length already used by an MA is skipped, and adding stops at the maximum.
pub open spec fn default_ma_adds<R>(cfgs: Seq<IndicatorConfig<R>>, k: nat, cnt: nat) -> Seq<i64>
    decreases 3 - k,
{
    if k >= 3 || cnt >= 3 {
        seq![]
    } else if has_ma_length(cfgs, default_ma_length(k as int)) {
        default_ma_adds(cfgs, k + 1, cnt)
    } else {
        seq![default_ma_length(k as int)] + default_ma_adds(cfgs, k + 1, cnt + 1)
    }
}

/// `l` is the shortest length from 20 up that no MA of `cfgs` uses.
pub open spec fn is_free_ma_length<R>(cfgs: Seq<IndicatorConfig<R>>, l: i64) -> bool {
    &&& l >= 20
    &&& !has_ma_length(cfgs, l)
    &&& forall|m: i64| 20 <= m < l ==> has_ma_length(cfgs, m)
}

/// The MA lines in `added` are SMAs of lengths `lens`, with ids `ma<length>`.
pub open spec fn ma_lines_are<R>(added: Seq<IndicatorConfig<R>>, lens: Seq<i64>) -> bool {
    &&& added.len() == lens.len()
    &&& forall|k: int| 0 <= k < lens.len() ==> lens[k] > 0 && spec_ma("ma"@ + decimal(lens[k] as nat), "sma"@, lens[k], #[trigger] added[k])
}

/// MA configs of `cfgs` whose length is at least `l`.
pub open spec fn ma_len_count_ge<R>(cfgs: Seq<IndicatorConfig<R>>, l: int) -> nat
    decreases cfgs.len(),
{
    if cfgs.len() == 0 {
        0
    } else {
        ma_len_count_ge(cfgs.drop_last(), l) + if same_kind(cfgs.last().indicator_type, IndicatorKind::Ma)
            && cfgs.last().length is Some && cfgs.last().length.unwrap() >= l {
            1nat
        } else {
            0nat
        }
    }
}

proof fn lemma_ma_len_count<R>(cfgs: Seq<IndicatorConfig<R>>, l: int)
    ensures
        ma_len_count_ge(cfgs, l) <= count_kind(cfgs, IndicatorKind::Ma),
        ma_len_count_ge(cfgs, l + 1) <= ma_len_count_ge(cfgs, l),
        has_ma_length(cfgs, l as i64) && i64::MIN <= l <= i64::MAX ==> ma_len_count_ge(cfgs, l + 1) < ma_len_count_ge(cfgs, l),
    decreases cfgs.len(),
{
    if cfgs.len() > 0 {
        let t = cfgs.drop_last();
        lemma_ma_len_count(t, l);
        if has_ma_length(cfgs, l as i64) && i64::MIN <= l <= i64::MAX {
            let w = choose|i: int| 0 <= i < cfgs.len() && same_kind(#[trigger] cfgs[i].indicator_type, IndicatorKind::Ma) && cfgs[i].length == Some(l as i64);
            if w < cfgs.len() - 1 {
                assert(t[w] == cfgs[w]);
                assert(has_ma_length(t, l as i64));
            }
        }
    }
}

/// Whether some MA of `cfgs` has length `l` (exec).
fn has_ma_length_exec<R>(cfgs: &Vec<IndicatorConfig<R>>, l: i64) -> (b: bool)
    ensures
        b == has_ma_length(cfgs@, l),
{
    let mut i: usize = 0;
    while i < cfgs.len()
        invariant
            i <= cfgs@.len(),
            forall|j: int| 0 <= j < i ==> !(same_kind(#[trigger] cfgs@[j].indicator_type, IndicatorKind::Ma) && cfgs@[j].length == Some(l)),
        decreases cfgs.len() - i,
    {
        if cfgs[i].indicator_type.same_as(&IndicatorKind::Ma) && cfgs[i].length == Some(l) {
            assert(same_kind(cfgs@[i as int].indicator_type, IndicatorKind::Ma) && cfgs@[i as int].length == Some(l));
            return true;
        }
        i += 1;
    }
    false
}

/// `ma<length>`.
fn ma_id(length: i64) -> (r: String)
    requires
        length > 0,
    ensures
        r@ == "ma"@ + decimal(length as nat),
{
    let mut s = String::from_str("ma");
    proof {
        reveal_strlit("ma");
    }
    push_decimal(&mut s, length as u64);
    s
}


/// The effect of adding a Volume on `a` (max 1 per chart).
pub open spec fn volume_added<R>(a: App<R>, b: App<R>) -> bool {
    let cfgs = a.focused_spec().indicators@;
    let c = b.focused_spec().indicators@.last();
    if !(a.input_mode is IndicatorPanel) {
        b == a
    } else if count_kind(cfgs, IndicatorKind::Volume) >= 1 {
        failed_with(a, b, "max 1 Volume per chart"@)
    } else {
        spec_plain("volume"@, IndicatorKind::Volume, c) && edited_and_armed(a, b, cfgs.push(c), cfgs.len() as int, true)
    }
}


/// The effect of adding a SessionVp on `a` (max 1 per chart).
pub open spec fn session_vp_added<R>(a: App<R>, b: App<R>) -> bool {
    let cfgs = a.focused_spec().indicators@;
    let c = b.focused_spec().indicators@.last();
    if !(a.input_mode is IndicatorPanel) {
        b == a
    } else if count_kind(cfgs, IndicatorKind::SessionVp) >= 1 {
        failed_with(a, b, "max 1 Session VP per chart"@)
    } else {
        spec_session_vp("session_vp"@, a.presets, c) && edited_and_armed(a, b, cfgs.push(c), cfgs.len() as int, true)
    }
}


/// The effect of adding a Gex on `a` (max 1 per chart).
pub open spec fn gex_added<R>(a: App<R>, b: App<R>) -> bool {
    let cfgs = a.focused_spec().indicators@;
    let c = b.focused_spec().indicators@.last();
    if !(a.input_mode is IndicatorPanel) {
        b == a
    } else if count_kind(cfgs, IndicatorKind::Gex) >= 1 {
        failed_with(a, b, "GEX limit is 1 per chart"@)
    } else {
        spec_plain("gex"@, IndicatorKind::Gex, c) && edited_and_armed(a, b, cfgs.push(c), cfgs.len() as int, true)
    }
}


/// The effect of adding a Garch on `a` (max 1 per chart).
pub open spec fn garch_added<R>(a: App<R>, b: App<R>) -> bool {
    let cfgs = a.focused_spec().indicators@;
    let c = b.focused_spec().indicators@.last();
    if !(a.input_mode is IndicatorPanel) {
        b == a
    } else if count_kind(cfgs, IndicatorKind::Garch) >= 1 {
        failed_with(a, b, "GARCH limit is 1 per chart"@)
    } else {
        spec_plain("garch"@, IndicatorKind::Garch, c) && edited_and_armed(a, b, cfgs.push(c), cfgs.len() as int, true)
    }
}


/// Adding Volume on a chart without one appends exactly one Volume config (enabled, id
/// `volume`) and arms the apply; adding it again reports the per-chart maximum and leaves
/// the configs alone, so the chart keeps exactly one.
pub proof fn lemma_volume_added_once<R>(a: App<R>, b: App<R>, c: App<R>)
    requires
        a.wf(),
        a.input_mode is IndicatorPanel,
        count_kind(a.focused_spec().indicators@, IndicatorKind::Volume) == 0,
        volume_added(a, b),
        volume_added(b, c),
    ensures
        b.focused_spec().indicators@.len() == a.focused_spec().indicators@.len() + 1,
        b.focused_spec().indicators@.drop_last() == a.focused_spec().indicators@,
        b.focused_spec().indicators@.last().indicator_type == IndicatorKind::Volume,
        b.focused_spec().indicators@.last().enabled,
        count_kind(b.focused_spec().indicators@, IndicatorKind::Volume) == 1,
        armed_for(b.pending_indicators, b.focused_spec()),
        c.charts == b.charts,
        opt_str_is(c.last_indicator_error, "max 1 Volume per chart"@),
{
    assert(b.fidx() == a.fidx());
    let now = b.focused_spec().indicators@;
    assert(now.drop_last() =~= a.focused_spec().indicators@);
}

/// Adding a Session VP on a chart without one appends exactly one Session VP config and
/// arms the apply; adding it again reports the per-chart maximum and leaves the configs
/// alone.
pub proof fn lemma_session_vp_added_once<R>(a: App<R>, b: App<R>, c: App<R>)
    requires
        a.wf(),
        a.input_mode is IndicatorPanel,
        count_kind(a.focused_spec().indicators@, IndicatorKind::SessionVp) == 0,
        session_vp_added(a, b),
        session_vp_added(b, c),
    ensures
        b.focused_spec().indicators@.len() == a.focused_spec().indicators@.len() + 1,
        b.focused_spec().indicators@.drop_last() == a.focused_spec().indicators@,
        b.focused_spec().indicators@.last().indicator_type == IndicatorKind::SessionVp,
        count_kind(b.focused_spec().indicators@, IndicatorKind::SessionVp) == 1,
        armed_for(b.pending_indicators, b.focused_spec()),
        c.charts == b.charts,
        opt_str_is(c.last_indicator_error, "max 1 Session VP per chart"@),
{
    assert(b.fidx() == a.fidx());
    let now = b.focused_spec().indicators@;
    assert(now.drop_last() =~= a.focused_spec().indicators@);
}

/// A config list without MA configs has no configs of kind MA at any position.
proof fn lemma_no_kind_when_count_zero<R>(cfgs: Seq<IndicatorConfig<R>>, k: IndicatorKind)
    requires
        count_kind(cfgs, k) == 0,
    ensures
        forall|i: int| 0 <= i < cfgs.len() ==> !same_kind(#[trigger] cfgs[i].indicator_type, k),
    decreases cfgs.len(),
{
    if cfgs.len() > 0 {
        let d = cfgs.drop_last();
        lemma_no_kind_when_count_zero(d, k);
        assert forall|i: int| 0 <= i < cfgs.len() implies !same_kind(#[trigger] cfgs[i].indicator_type, k) by {
            if i < d.len() {
                assert(cfgs[i] == d[i]);
            }
        }
    }
}

/// The MA stack on a chart without MAs appends exactly three SMAs of lengths 10, 60 and
/// 200 (ids `ma10`, `ma60`, `ma200`) after the chart's configs, and arms the apply.
pub proof fn lemma_ma_stack_on_empty_chart<R>(a: App<R>, b: App<R>)
    requires
        a.wf(),
        a.input_mode is IndicatorPanel,
        count_kind(a.focused_spec().indicators@, IndicatorKind::Ma) == 0,
        ma_stack_added(a, b),
    ensures
        ({
            let cfgs = a.focused_spec().indicators@;
            let now = b.focused_spec().indicators@;
            &&& now.len() == cfgs.len() + 3
            &&& now.subrange(0, cfgs.len() as int) == cfgs
            &&& now[cfgs.len() as int].length == Some(10i64)
            &&& now[cfgs.len() as int + 1].length == Some(60i64)
            &&& now[cfgs.len() as int + 2].length == Some(200i64)
            &&& forall|k: int| cfgs.len() <= k < now.len() ==> same_kind(#[trigger] now[k].indicator_type, IndicatorKind::Ma)
                && opt_str_is(now[k].ma_type, "sma"@) && now[k].enabled
            &&& armed_for(b.pending_indicators, b.focused_spec())
        }),
{
    let cfgs = a.focused_spec().indicators@;
    lemma_no_kind_when_count_zero(cfgs, IndicatorKind::Ma);
    assert(!has_ma_length(cfgs, 10));
    assert(!has_ma_length(cfgs, 60));
    assert(!has_ma_length(cfgs, 200));
    assert(default_ma_adds(cfgs, 3, 3) =~= Seq::<i64>::empty());
    assert(default_ma_length(2) == 200);
    assert(default_ma_adds(cfgs, 2, 2) =~= seq![200i64]);
    assert(default_ma_adds(cfgs, 1, 1) =~= seq![60i64, 200i64]);
    assert(default_ma_adds(cfgs, 0, 0) =~= seq![10i64, 60i64, 200i64]);
    assert(b.fidx() == a.fidx());
    let now = b.focused_spec().indicators@;
    let added = now.subrange(cfgs.len() as int, now.len() as int);
    assert forall|k: int| cfgs.len() <= k < now.len() implies same_kind(#[trigger] now[k].indicator_type, IndicatorKind::Ma)
        && opt_str_is(now[k].ma_type, "sma"@) && now[k].enabled by {
        assert(added[k - cfgs.len()] == now[k]);
    }
    assert(added[0] == now[cfgs.len() as int]);
    assert(added[1] == now[cfgs.len() as int + 1]);
    assert(added[2] == now[cfgs.len() as int + 2]);
}

/// The effect of the MA stack add on `a`.
pub open spec fn ma_stack_added<R>(a: App<R>, b: App<R>) -> bool {
    let cfgs = a.focused_spec().indicators@;
    let cnt = count_kind(cfgs, IndicatorKind::Ma);
    let adds = default_ma_adds(cfgs, 0, cnt);
    let now = b.focused_spec().indicators@;
    let added = now.subrange(cfgs.len() as int, now.len() as int);
    if !(a.input_mode is IndicatorPanel) {
        b == a
    } else if cnt >= 3 {
        failed_with(a, b, "max 3 MA lines per chart"@)
    } else {
        &&& now.subrange(0, cfgs.len() as int) == cfgs
        &&& now.len() >= cfgs.len()
        &&& (adds.len() > 0 ==> ma_lines_are(added, adds))
        &&& (adds.len() == 0 ==> added.len() == 1 && is_free_ma_length(cfgs, added[0].length.unwrap())
            && ma_lines_are(added, seq![added[0].length.unwrap()]))
        &&& edited_and_armed(a, b, now, clamped(a.indicator_selected as int, now.len() as int), true)
    }
}

impl<R: Copy> App<R> {
    /// Add Volume instance if none present (max 1).
    pub fn indicator_add_volume(&mut self)
        requires
            old(self).wf(),
        ensures
            final(self).wf(),
            volume_added(*old(self), *final(self)),
    {
        if !matches!(self.input_mode, InputMode::IndicatorPanel) {
            return;
        }
        let i = self.focused_index();
        if count_of_kind(&self.charts[i].indicators, &IndicatorKind::Volume) >= 1 {
            self.fail_indicator("max 1 Volume per chart");
            return;
        }
        let cfg = IndicatorConfig::volume(String::from_str("volume"));
        self.push_indicator(cfg);
    }

    /// Add Session Volume Profile if none present (max 1).
    pub fn indicator_add_session_vp(&mut self)
        requires
            old(self).wf(),
        ensures
            final(self).wf(),
            session_vp_added(*old(self), *final(self)),
    {
        if !matches!(self.input_mode, InputMode::IndicatorPanel) {
            return;
        }
        let i = self.focused_index();
        if count_of_kind(&self.charts[i].indicators, &IndicatorKind::SessionVp) >= crate::app::MAX_SESSION_VP {
            self.fail_indicator("max 1 Session VP per chart");
            return;
        }
        let cfg = IndicatorConfig::session_vp_default(String::from_str("session_vp"), &self.presets);
        self.push_indicator(cfg);
    }

    /// Add optional GEX (max 1). Engine marks series unavailable without options data.
    pub fn indicator_add_gex(&mut self)
        requires
            old(self).wf(),
        ensures
            final(self).wf(),
            gex_added(*old(self), *final(self)),
    {
        if !matches!(self.input_mode, InputMode::IndicatorPanel) {
            return;
        }
        let i = self.focused_index();
        if count_of_kind(&self.charts[i].indicators, &IndicatorKind::Gex) >= crate::app::MAX_GEX {
            self.fail_indicator("GEX limit is 1 per chart");
            return;
        }
        let cfg = IndicatorConfig::gex(String::from_str("gex"));
        self.push_indicator(cfg);
    }

    /// Add optional GARCH (max 1). Engine marks series unavailable without enough history.
    pub fn indicator_add_garch(&mut self)
        requires
            old(self).wf(),
        ensures
            final(self).wf(),
            garch_added(*old(self), *final(self)),
    {
        if !matches!(self.input_mode, InputMode::IndicatorPanel) {
            return;
        }
        let i = self.focused_index();
        if count_of_kind(&self.charts[i].indicators, &IndicatorKind::Garch) >= crate::app::MAX_GARCH {
            self.fail_indicator("GARCH limit is 1 per chart");
            return;
        }
        let cfg = IndicatorConfig::garch(String::from_str("garch"));
        self.push_indicator(cfg);
    }

    /// Add default MA stack (SMA 10/60/200), or fill remaining default lengths up to max 3;
    /// when every default length is taken, add the shortest free SMA from 20 up.
    pub fn indicator_add_default_ma_stack(&mut self)
        requires
            old(self).wf(),
        ensures
            final(self).wf(),
            ma_stack_added(*old(self), *final(self)),
    {
        if !matches!(self.input_mode, InputMode::IndicatorPanel) {
            return;
        }
        let fi = self.focused_index();
        let original = clone_configs(&self.charts[fi].indicators);
        let ghost cfgs = original@;
        let ma_count = count_of_kind(&original, &IndicatorKind::Ma);
        if ma_count >= MAX_MA_LINES {
            self.fail_indicator("max 3 MA lines per chart");
            return;
        }
        let ghost a = *self;
        let mut added: usize = 0;
        let mut k: usize = 0;
        let mut cnt: usize = ma_count;
        while k < 3
            invariant
                a.wf(),
                fi as int == a.fidx(),
                k <= 3,
                cnt == ma_count + added,
                cnt <= 3,
                cfgs == a.focused_spec().indicators@,
                original@ == cfgs,
                ma_count as int == count_kind(cfgs, IndicatorKind::Ma),
                self.charts@.len() == a.charts@.len(),
                self.charts@ == a.charts@.update(fi as int, self.charts@[fi as int]),
                self.charts@[fi as int] == (Chart { indicators: self.charts@[fi as int].indicators, ..a.focused_spec() }),
                *self == (App { charts: self.charts, ..a }),
                self.charts@[fi as int].indicators@.len() == cfgs.len() + added,
                self.charts@[fi as int].indicators@.subrange(0, cfgs.len() as int) == cfgs,
                ({
                    let now = self.charts@[fi as int].indicators@;
                    ma_lines_are(now.subrange(cfgs.len() as int, now.len() as int), default_ma_adds(cfgs, 0, ma_count as nat).subrange(0, added as int))
                }),
                default_ma_adds(cfgs, 0, ma_count as nat) == default_ma_adds(cfgs, 0, ma_count as nat).subrange(0, added as int) + default_ma_adds(cfgs, k as nat, cnt as nat),
            ensures
                k >= 3 || cnt >= 3,
            decreases 3 - k,
        {
            let ghost before = self.charts@[fi as int].indicators@;
            let ghost rest = default_ma_adds(cfgs, k as nat, cnt as nat);
            if cnt >= MAX_MA_LINES {
                proof {
                    assert(rest =~= Seq::<i64>::empty());
                }
                break;
            }
            let length: i64 = if k == 0 { 10 } else if k == 1 { 60 } else { 200 };
            if has_ma_length_exec(&original, length) {
                k += 1;
                continue;
            }
            let cfg = IndicatorConfig::ma(ma_id(length), "sma", length);
            self.charts[fi].indicators.push(cfg);
            proof {
                let all = default_ma_adds(cfgs, 0, ma_count as nat);
                assert(rest == seq![length] + default_ma_adds(cfgs, (k + 1) as nat, (cnt + 1) as nat));
                assert(all.len() == added + rest.len());
                assert(all[added as int] == length);
                assert(all.subrange(0, added + 1) =~= all.subrange(0, added as int).push(length));
                assert(all =~= all.subrange(0, added + 1) + default_ma_adds(cfgs, (k + 1) as nat, (cnt + 1) as nat));
                let now = self.charts@[fi as int].indicators@;
                assert(now =~= before.push(cfg));
                assert(now.subrange(0, cfgs.len() as int) =~= before.subrange(0, cfgs.len() as int));
                let old_added = before.subrange(cfgs.len() as int, before.len() as int);
                let new_added = now.subrange(cfgs.len() as int, now.len() as int);
                assert(new_added =~= old_added.push(cfg));
                let old_lens = all.subrange(0, added as int);
                let new_lens = all.subrange(0, added + 1);
                assert forall|j: int| #![trigger new_added[j]] #![trigger new_lens[j]] 0 <= j < new_lens.len() implies new_lens[j] > 0
                    && spec_ma("ma"@ + decimal(new_lens[j] as nat), "sma"@, new_lens[j], new_added[j]) by {
                    if j < added {
                        assert(new_added[j] == old_added[j]);
                        assert(new_lens[j] == old_lens[j]);
                    } else {
                        assert(new_added[j] == cfg);
                        assert(new_lens[j] == length);
                    }
                }
                assert(self.charts@ =~= a.charts@.update(fi as int, self.charts@[fi as int]));
                assert(new_added.len() == new_lens.len());
                assert(ma_lines_are(new_added, new_lens));
            }
            added += 1;
            cnt += 1;
            k += 1;
        }
        proof {
            let all = default_ma_adds(cfgs, 0, ma_count as nat);
            assert(default_ma_adds(cfgs, k as nat, cnt as nat) =~= Seq::<i64>::empty());
            assert(all =~= all.subrange(0, added as int));
        }
        if added == 0 {
            // Every default length is in use: add the shortest free SMA from 20 up.
            let mut length: i64 = 20;
            proof {
                lemma_ma_len_count(cfgs, 20);
            }
            while has_ma_length_exec(&original, length)
                invariant
                    20 <= length <= 22,
                    original@ == cfgs,
                    ma_count as int == count_kind(cfgs, IndicatorKind::Ma),
                    ma_count < 3,
                    forall|m: i64| 20 <= m < length ==> has_ma_length(cfgs, m),
                    ma_len_count_ge(cfgs, length as int) + (length - 20) <= ma_len_count_ge(cfgs, 20),
                    ma_len_count_ge(cfgs, 20) <= ma_count,
                decreases 23 - length,
            {
                proof {
                    lemma_ma_len_count(cfgs, length as int);
                    lemma_ma_len_count(cfgs, length + 1);
                }
                length += 1;
            }
            let cfg = IndicatorConfig::ma(ma_id(length), "sma", length);
            let ghost before = self.charts@[fi as int].indicators@;
            self.charts[fi].indicators.push(cfg);
            proof {
                let now = self.charts@[fi as int].indicators@;
                assert(now =~= before.push(cfg));
                assert(now.subrange(0, cfgs.len() as int) =~= cfgs);
                assert(now.subrange(cfgs.len() as int, now.len() as int) =~= seq![cfg]);
                assert(self.charts@ =~= a.charts@.update(fi as int, self.charts@[fi as int]));
            }
        }
        self.last_indicator_error = None;
        self.clamp_indicator_selection();
        self.arm_indicators_apply();
    }
}

/// Configuration `c` is an MA with id `id`.
pub open spec fn is_ma_with_id<R>(c: IndicatorConfig<R>, id: Seq<char>) -> bool {
    same_kind(c.indicator_type, IndicatorKind::Ma) && c.id@ == id
}

/// Colour slot (0, 1 or 2) of MA `indicator_id` on `chart`: the number of MA configurations
/// (enabled or not) before it, modulo the three MA colours; `None` when the chart has no such MA.
pub fn ma_slot_for_indicator<R>(chart: &Chart<R>, indicator_id: &str) -> (r: Option<usize>)
    ensures
        ({
            let cfgs = chart.indicators@;
            match r {
                Some(slot) => exists|j: int|
                    0 <= j < cfgs.len() && is_ma_with_id(#[trigger] cfgs[j], indicator_id@)
                        && (forall|k: int| 0 <= k < j ==> !is_ma_with_id(cfgs[k], indicator_id@))
                        && slot == count_kind(cfgs.subrange(0, j), IndicatorKind::Ma) % 3,
                None => forall|j: int|
                    0 <= j < cfgs.len() ==> !is_ma_with_id(#[trigger] cfgs[j], indicator_id@),
            }
        }),
{
    let cfgs = &chart.indicators;
    let ma = IndicatorKind::Ma;
    let mut n: usize = 0;
    let mut i: usize = 0;
    while i < cfgs.len()
        invariant
            i <= cfgs@.len(),
            cfgs@ == chart.indicators@,
            ma == IndicatorKind::Ma,
            n as int == count_kind(cfgs@.subrange(0, i as int), IndicatorKind::Ma),
            n <= i,
            forall|k: int| 0 <= k < i ==> !is_ma_with_id(#[trigger] cfgs@[k], indicator_id@),
        decreases cfgs.len() - i,
    {
        assert(cfgs@.subrange(0, i + 1).drop_last() =~= cfgs@.subrange(0, i as int));
        if cfgs[i].indicator_type.same_as(&ma) {
            if str_eq(cfgs[i].id.as_str(), indicator_id) {
                assert(is_ma_with_id(cfgs@[i as int], indicator_id@));
                return Some(n % 3);
            }
            n += 1;
        }
        i += 1;
    }
    None
}

} // verus!
