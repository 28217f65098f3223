//! Edits of indicator instances on the focused chart and per-type styles.
use vstd::prelude::*;
use crate::app::{
    available_indicator_type, available_kind, chart_ids, chart_position, clamped, first_index,
    charts_keys_distinct, entry_keys, lemma_first_index, lemma_first_index_range, App, Chart, IndicatorListSide, InputMode, PendingTypeStylesApply,
    TypeStyleEditState,
};
use crate::app::indicators::{armed_for, edited_and_armed, sel_idx};
use crate::model::{
    is_vp_kind, kind_key, opt_str_is, same_kind, IndicatorConfig, IndicatorKind,
    IndicatorSeriesData, IndicatorTypeStyle, LevelStyle,
};
use crate::text::str_eq;

verus! {

/// Configs of `cfgs` of kind `kind`, in order.
pub open spec fn configs_of_kind<R>(cfgs: Seq<IndicatorConfig<R>>, kind: IndicatorKind) -> Seq<IndicatorConfig<R>>
    decreases cfgs.len(),
{
    if cfgs.len() == 0 {
        seq![]
    } else if same_kind(cfgs.last().indicator_type, kind) {
        configs_of_kind(cfgs.drop_last(), kind).push(cfgs.last())
    } else {
        configs_of_kind(cfgs.drop_last(), kind)
    }
}

/// Ids of a config list.
pub open spec fn config_ids<R>(cfgs: Seq<IndicatorConfig<R>>) -> Seq<Seq<char>> {
    cfgs.map_values(|c: IndicatorConfig<R>| c.id@)
}

/// Series entries whose key is not `id`, in order.
pub open spec fn series_without<R>(entries: Seq<(String, IndicatorSeriesData<R>)>, id: Seq<char>) -> Seq<(String, IndicatorSeriesData<R>)>
    decreases entries.len(),
{
    if entries.len() == 0 {
        seq![]
    } else if entries.last().0@ == id {
        series_without(entries.drop_last(), id)
    } else {
        series_without(entries.drop_last(), id).push(entries.last())
    }
}

/// Series entries whose key is one of `ids`, in order.
pub open spec fn series_for_ids<R>(entries: Seq<(String, IndicatorSeriesData<R>)>, ids: Seq<Seq<char>>) -> Seq<(String, IndicatorSeriesData<R>)>
    decreases entries.len(),
{
    if entries.len() == 0 {
        seq![]
    } else if ids.contains(entries.last().0@) {
        series_for_ids(entries.drop_last(), ids).push(entries.last())
    } else {
        series_for_ids(entries.drop_last(), ids)
    }
}

/// Every key of `r` is a key of `src`.
pub open spec fn keys_within<V>(r: Seq<(String, V)>, src: Seq<(String, V)>) -> bool {
    forall|j: int| 0 <= j < r.len() ==> #[trigger] entry_keys(src).contains(entry_keys(r)[j])
}

proof fn lemma_keys_push_distinct<V>(r: Seq<(String, V)>, e: (String, V), src: Seq<(String, V)>)
    requires
        entry_keys(r).no_duplicates(),
        keys_within(r, src),
        !entry_keys(src).contains(e.0@),
    ensures
        entry_keys(r.push(e)).no_duplicates(),
{
    let ks = entry_keys(r);
    let nks = entry_keys(r.push(e));
    assert(nks =~= ks.push(e.0@));
    assert forall|x: int, y: int| 0 <= x < nks.len() && 0 <= y < nks.len() && x != y
        implies nks[x] != nks[y] by {
        if x < ks.len() && y < ks.len() {
            assert(ks[x] != ks[y]);
        } else if x < ks.len() {
            assert(entry_keys(src).contains(ks[x]));
        } else {
            assert(entry_keys(src).contains(ks[y]));
        }
    }
}

proof fn lemma_keys_drop_last<V>(entries: Seq<(String, V)>)
    requires
        entries.len() > 0,
        entry_keys(entries).no_duplicates(),
    ensures
        entry_keys(entries.drop_last()).no_duplicates(),
        !entry_keys(entries.drop_last()).contains(entries.last().0@),
        forall|r: Seq<(String, V)>| #[trigger] keys_within(r, entries.drop_last()) ==> keys_within(r, entries),
{
    let ks = entry_keys(entries);
    let d = entries.drop_last();
    assert(entry_keys(d) =~= ks.drop_last());
    if entry_keys(d).contains(entries.last().0@) {
        let j = choose|j: int| 0 <= j < entry_keys(d).len() && entry_keys(d)[j] == entries.last().0@;
        assert(ks[j] == ks[ks.len() - 1]);
    }
    assert forall|r: Seq<(String, V)>| #[trigger] keys_within(r, d) implies keys_within(r, entries) by {
        assert forall|j: int| 0 <= j < r.len() implies #[trigger] entry_keys(entries).contains(entry_keys(r)[j]) by {
            assert(entry_keys(d).contains(entry_keys(r)[j]));
            let k = choose|k: int| 0 <= k < entry_keys(d).len() && entry_keys(d)[k] == entry_keys(r)[j];
            assert(ks[k] == entry_keys(r)[j]);
        }
    }
}

/// Dropping the series of one id keeps the ids distinct.
pub proof fn lemma_series_without_keeps_distinct<R>(entries: Seq<(String, IndicatorSeriesData<R>)>, id: Seq<char>)
    requires
        entry_keys(entries).no_duplicates(),
    ensures
        entry_keys(series_without(entries, id)).no_duplicates(),
        keys_within(series_without(entries, id), entries),
    decreases entries.len(),
{
    if entries.len() == 0 {
        assert(entry_keys(series_without(entries, id)) =~= Seq::<Seq<char>>::empty());
    } else {
        let d = entries.drop_last();
        lemma_keys_drop_last(entries);
        lemma_series_without_keeps_distinct(d, id);
        let r0 = series_without(d, id);
        if entries.last().0@ != id {
            lemma_keys_push_distinct(r0, entries.last(), d);
            let r = r0.push(entries.last());
            assert forall|j: int| 0 <= j < r.len() implies #[trigger] entry_keys(entries).contains(entry_keys(r)[j]) by {
                if j < r0.len() {
                    assert(entry_keys(r)[j] == entry_keys(r0)[j]);
                    assert(entry_keys(entries).contains(entry_keys(r0)[j]));
                } else {
                    assert(entry_keys(entries)[entries.len() - 1] == entry_keys(r)[j]);
                }
            }
        }
    }
}

/// Keeping the series of some ids keeps the ids distinct.
pub proof fn lemma_series_for_ids_keeps_distinct<R>(entries: Seq<(String, IndicatorSeriesData<R>)>, ids: Seq<Seq<char>>)
    requires
        entry_keys(entries).no_duplicates(),
    ensures
        entry_keys(series_for_ids(entries, ids)).no_duplicates(),
        keys_within(series_for_ids(entries, ids), entries),
    decreases entries.len(),
{
    if entries.len() == 0 {
        assert(entry_keys(series_for_ids(entries, ids)) =~= Seq::<Seq<char>>::empty());
    } else {
        let d = entries.drop_last();
        lemma_keys_drop_last(entries);
        lemma_series_for_ids_keeps_distinct(d, ids);
        let r0 = series_for_ids(d, ids);
        if ids.contains(entries.last().0@) {
            lemma_keys_push_distinct(r0, entries.last(), d);
            let r = r0.push(entries.last());
            assert forall|j: int| 0 <= j < r.len() implies #[trigger] entry_keys(entries).contains(entry_keys(r)[j]) by {
                if j < r0.len() {
                    assert(entry_keys(r)[j] == entry_keys(r0)[j]);
                    assert(entry_keys(entries).contains(entry_keys(r0)[j]));
                } else {
                    assert(entry_keys(entries)[entries.len() - 1] == entry_keys(r)[j]);
                }
            }
        }
    }
}

/// Stored style for type key `key` (first entry).
pub open spec fn style_lookup<R>(styles: Seq<(String, IndicatorTypeStyle<R>)>, key: Seq<char>) -> Option<IndicatorTypeStyle<R>>
    decreases styles.len(),
{
    if styles.len() == 0 {
        None
    } else if styles[0].0@ == key {
        Some(styles[0].1)
    } else {
        style_lookup(styles.drop_first(), key)
    }
}

/// Style keys of a type-style list.
pub open spec fn style_keys<R>(styles: Seq<(String, IndicatorTypeStyle<R>)>) -> Seq<Seq<char>> {
    crate::app::entry_keys(styles)
}

/// `a`'s indicator panel has a Current-list row to act on.
pub open spec fn current_row_ready<R>(a: App<R>) -> bool {
    &&& a.input_mode is IndicatorPanel
    &&& a.focused_spec().indicators@.len() > 0
}

/// The selected config of `a`'s focused chart.
pub open spec fn sel_cfg<R>(a: App<R>) -> IndicatorConfig<R> {
    a.focused_spec().indicators@[sel_idx(a)]
}

/// `b` is `a` with the selected config replaced by `c` and the apply armed.
pub open spec fn selected_set<R>(a: App<R>, b: App<R>, c: IndicatorConfig<R>) -> bool {
    edited_and_armed(a, b, a.focused_spec().indicators@.update(sel_idx(a), c), a.indicator_selected as int, false)
}

/// Move `v`'s contents out, leaving it empty.
fn take_vec<T>(v: &mut Vec<T>) -> (r: Vec<T>)
    ensures
        r@ == old(v)@,
        final(v)@.len() == 0,
{
    let mut out: Vec<T> = Vec::new();
    std::mem::swap(&mut out, v);
    out
}

/// Configs of kind `kind`, in order (consumes `cfgs`).
fn retain_kind<R>(cfgs: Vec<IndicatorConfig<R>>, kind: &IndicatorKind) -> (r: Vec<IndicatorConfig<R>>)
    ensures
        r@ == configs_of_kind(cfgs@, *kind),
{
    let ghost all = cfgs@;
    let mut rest = cfgs;
    let mut out: Vec<IndicatorConfig<R>> = Vec::new();
    let mut i: usize = 0;
    assert(all.len() == rest.len());
    while rest.len() > 0
        invariant
            rest@ == all.subrange(i as int, all.len() as int),
            i <= all.len(),
            all.len() <= usize::MAX,
            out@ == configs_of_kind(all.subrange(0, i as int), *kind),
        decreases rest.len(),
    {
        let c = rest.remove(0);
        proof {
            assert(all.subrange(0, i + 1).drop_last() =~= all.subrange(0, i as int));
            assert(all.subrange(0, i + 1).last() == c);
        }
        if c.indicator_type.same_as(kind) {
            out.push(c);
        }
        i += 1;
        proof {
            assert(rest@ =~= all.subrange(i as int, all.len() as int));
        }
    }
    assert(all.subrange(0, i as int) =~= all);
    out
}

/// Series entries not keyed `id`, in order (consumes `entries`).
pub(crate) fn drop_series<R>(entries: Vec<(String, IndicatorSeriesData<R>)>, id: &String) -> (r: Vec<(String, IndicatorSeriesData<R>)>)
    ensures
        r@ == series_without(entries@, id@),
{
    let ghost all = entries@;
    let mut rest = entries;
    let mut out: Vec<(String, IndicatorSeriesData<R>)> = Vec::new();
    let mut i: usize = 0;
    assert(all.len() == rest.len());
    while rest.len() > 0
        invariant
            rest@ == all.subrange(i as int, all.len() as int),
            i <= all.len(),
            all.len() <= usize::MAX,
            out@ == series_without(all.subrange(0, i as int), id@),
        decreases rest.len(),
    {
        let e = rest.remove(0);
        proof {
            assert(all.subrange(0, i + 1).drop_last() =~= all.subrange(0, i as int));
            assert(all.subrange(0, i + 1).last() == e);
        }
        if !(e.0 == *id) {
            out.push(e);
        }
        i += 1;
        proof {
            assert(rest@ =~= all.subrange(i as int, all.len() as int));
        }
    }
    assert(all.subrange(0, i as int) =~= all);
    out
}

/// Whether `ids` holds `id` (exec).
pub(crate) fn ids_contain_pub(ids: &Vec<String>, id: &String) -> (b: bool)
    ensures
        b == ids@.map_values(|s: String| s@).contains(id@),
{
    let ghost v = ids@.map_values(|s: String| s@);
    let mut i: usize = 0;
    while i < ids.len()
        invariant
            i <= ids@.len(),
            v == ids@.map_values(|s: String| s@),
            forall|j: int| 0 <= j < i ==> v[j] != id@,
        decreases ids.len() - i,
    {
        if ids[i] == *id {
            assert(v[i as int] == id@);
            return true;
        }
        i += 1;
    }
    false
}

/// Series entries keyed by one of `ids`, in order (consumes `entries`).
fn keep_series<R>(entries: Vec<(String, IndicatorSeriesData<R>)>, ids: &Vec<String>) -> (r: Vec<(String, IndicatorSeriesData<R>)>)
    ensures
        r@ == series_for_ids(entries@, ids@.map_values(|s: String| s@)),
{
    let ghost all = entries@;
    let ghost keys = ids@.map_values(|s: String| s@);
    let mut rest = entries;
    let mut out: Vec<(String, IndicatorSeriesData<R>)> = Vec::new();
    let mut i: usize = 0;
    assert(all.len() == rest.len());
    while rest.len() > 0
        invariant
            rest@ == all.subrange(i as int, all.len() as int),
            i <= all.len(),
            all.len() <= usize::MAX,
            keys == ids@.map_values(|s: String| s@),
            out@ == series_for_ids(all.subrange(0, i as int), keys),
        decreases rest.len(),
    {
        let e = rest.remove(0);
        proof {
            assert(all.subrange(0, i + 1).drop_last() =~= all.subrange(0, i as int));
            assert(all.subrange(0, i + 1).last() == e);
        }
        if ids_contain_pub(ids, &e.0) {
            out.push(e);
        }
        i += 1;
        proof {
            assert(rest@ =~= all.subrange(i as int, all.len() as int));
        }
    }
    assert(all.subrange(0, i as int) =~= all);
    out
}

/// Ids of a config list (exec).
pub(crate) fn ids_of_pub<R>(cfgs: &Vec<IndicatorConfig<R>>) -> (r: Vec<String>)
    ensures
        r@.map_values(|s: String| s@) == config_ids(cfgs@),
{
    let mut out: Vec<String> = Vec::new();
    let mut i: usize = 0;
    while i < cfgs.len()
        invariant
            i <= cfgs@.len(),
            out@.len() == i,
            forall|j: int| 0 <= j < i ==> (#[trigger] out@[j])@ == cfgs@[j].id@,
        decreases cfgs.len() - i,
    {
        out.push(cfgs[i].id.clone());
        i += 1;
    }
    assert(out@.map_values(|s: String| s@) =~= config_ids(cfgs@));
    out
}

impl<R: Copy> Chart<R> {
    /// Stored overlay style for type key `key`, if any.
    pub fn type_style_for(&self, key: &str) -> (r: Option<IndicatorTypeStyle<R>>)
        ensures
            r == style_lookup(self.type_styles@, key@),
    {
        let mut i: usize = 0;
        assert(self.type_styles@.subrange(0, self.type_styles@.len() as int) =~= self.type_styles@);
        while i < self.type_styles.len()
            invariant
                i <= self.type_styles@.len(),
                style_lookup(self.type_styles@, key@) == style_lookup(self.type_styles@.subrange(i as int, self.type_styles@.len() as int), key@),
            decreases self.type_styles.len() - i,
        {
            let ghost rest = self.type_styles@.subrange(i as int, self.type_styles@.len() as int);
            assert(rest.drop_first() =~= self.type_styles@.subrange(i + 1, self.type_styles@.len() as int));
            if str_eq(self.type_styles[i].0.as_str(), key) {
                return Some(self.type_styles[i].1);
            }
            i += 1;
        }
        None
    }

    /// Store `style` for type key `key` (replacing a stored one).
    pub fn set_type_style(&mut self, key: String, style: IndicatorTypeStyle<R>)
        ensures
            styles_upserted(old(self).type_styles@, key@, style, final(self).type_styles@),
            *final(self) == (Chart { type_styles: final(self).type_styles, ..*old(self) }),
            style_keys(old(self).type_styles@).no_duplicates() ==> style_keys(
                final(self).type_styles@,
            ).no_duplicates(),
    {
        let ghost keys = style_keys(self.type_styles@);
        let mut i: usize = 0;
        while i < self.type_styles.len()
            invariant
                i <= self.type_styles@.len(),
                keys == style_keys(self.type_styles@),
                *self == *old(self),
                forall|j: int| 0 <= j < i ==> keys[j] != key@,
            decreases self.type_styles.len() - i,
        {
            if self.type_styles[i].0 == key {
                proof {
                    lemma_first_index(keys, key@, i as int);
                }
                let k = self.type_styles[i].0.clone();
                self.type_styles.set(i, (k, style));
                assert(style_keys(self.type_styles@) =~= keys);
                return;
            }
            i += 1;
        }
        proof {
            lemma_first_index(keys, key@, i as int);
        }
        self.type_styles.push((key, style));
        assert(self.type_styles@.subrange(0, old(self).type_styles@.len() as int) =~= old(self).type_styles@);
        assert(style_keys(self.type_styles@) =~= keys.push(key@));
    }
}


/// `new` is `old` with `style` stored for type key `key` (replacing a stored one).
pub open spec fn styles_upserted<R>(old: Seq<(String, IndicatorTypeStyle<R>)>, key: Seq<char>, style: IndicatorTypeStyle<R>, new: Seq<(String, IndicatorTypeStyle<R>)>) -> bool {
    let i = first_index(style_keys(old), key);
    if i >= 0 {
        new == old.update(i, (old[i].0, style))
    } else {
        &&& new.len() == old.len() + 1
        &&& new.subrange(0, old.len() as int) == old
        &&& new.last().0@ == key
        &&& new.last().1 == style
    }
}

/// `b` is `a` after storing `style` for type `key` on the chart whose id is `chart_id`,
/// with the chart's styles armed for persist; unchanged when no chart has that id.
pub open spec fn type_style_set<R>(a: App<R>, b: App<R>, chart_id: Seq<char>, key: Seq<char>, style: IndicatorTypeStyle<R>) -> bool {
    let i = first_index(chart_ids(a.charts@), chart_id);
    if i < 0 {
        b == a
    } else {
        &&& b.charts@ == a.charts@.update(i, b.charts@[i])
        &&& b.charts@[i] == (Chart { type_styles: b.charts@[i].type_styles, ..a.charts@[i] })
        &&& styles_upserted(a.charts@[i].type_styles@, key, style, b.charts@[i].type_styles@)
        &&& b.pending_type_styles matches Some(p) && p.chart_id@ == a.charts@[i].id@ && p.type_styles@ == b.charts@[i].type_styles@
        &&& b == (App { charts: b.charts, pending_type_styles: b.pending_type_styles, ..a })
    }
}

/// Storing a type style keeps the type keys of a chart's styles pairwise distinct: a
/// known key has its style replaced, a new key gets an entry of its own.
pub proof fn lemma_styles_upserted_keeps_keys_distinct<R>(
    old: Seq<(String, IndicatorTypeStyle<R>)>,
    key: Seq<char>,
    style: IndicatorTypeStyle<R>,
    new: Seq<(String, IndicatorTypeStyle<R>)>,
)
    requires
        styles_upserted(old, key, style, new),
        style_keys(old).no_duplicates(),
    ensures
        style_keys(new).no_duplicates(),
{
    let ks = style_keys(old);
    lemma_first_index_range(ks, key);
    let i = first_index(ks, key);
    if i >= 0 {
        assert(style_keys(new) =~= ks);
    } else {
        assert(style_keys(new) =~= ks.push(key)) by {
            assert(new =~= old.push(new.last()));
        }
        let nks = style_keys(new);
        assert forall|x: int, y: int| 0 <= x < nks.len() && 0 <= y < nks.len() && x != y
            implies nks[x] != nks[y] by {
            if x < ks.len() && y < ks.len() {
                assert(ks[x] != ks[y]);
            }
        }
    }
}

/// Setting a type style on one chart keeps every chart's type keys pairwise distinct.
pub proof fn lemma_type_style_set_keeps_keys_distinct<R>(
    a: App<R>,
    b: App<R>,
    chart_id: Seq<char>,
    key: Seq<char>,
    style: IndicatorTypeStyle<R>,
)
    requires
        type_style_set(a, b, chart_id, key, style),
        forall|k: int| 0 <= k < a.charts@.len() ==> (#[trigger] style_keys(a.charts@[k].type_styles@)).no_duplicates(),
    ensures
        forall|k: int| 0 <= k < b.charts@.len() ==> (#[trigger] style_keys(b.charts@[k].type_styles@)).no_duplicates(),
{
    let i = first_index(chart_ids(a.charts@), chart_id);
    if i >= 0 {
        lemma_first_index_range(chart_ids(a.charts@), chart_id);
        assert(style_keys(a.charts@[i].type_styles@).no_duplicates());
        lemma_styles_upserted_keeps_keys_distinct(
            a.charts@[i].type_styles@,
            key,
            style,
            b.charts@[i].type_styles@,
        );
        assert forall|k: int| 0 <= k < b.charts@.len() implies (#[trigger] style_keys(
            b.charts@[k].type_styles@,
        )).no_duplicates() by {
            if k != i {
                assert(b.charts@[k] == a.charts@[k]);
                assert(style_keys(a.charts@[k].type_styles@).no_duplicates());
            }
        }
    }
}

/// A POC / VAH / VAL style after its toggle: flip a stored style, else store a hidden one.
pub open spec fn level_toggled<R>(l: Option<LevelStyle<R>>, opacity: R) -> Option<LevelStyle<R>> {
    match l {
        Some(st) => Some(LevelStyle { enabled: !st.enabled, ..st }),
        None => Some(LevelStyle { enabled: false, color: None, opacity: Some(opacity) }),
    }
}

/// The MA-type cycle on `a` (sma ↔ ema on the selected MA).
pub open spec fn ma_type_cycled<R>(a: App<R>, b: App<R>) -> bool {
    let c = sel_cfg(a);
    let nc = b.focused_spec().indicators@[sel_idx(a)];
    if current_row_ready(a) && same_kind(c.indicator_type, IndicatorKind::Ma) {
        &&& nc == (IndicatorConfig { ma_type: nc.ma_type, ..c })
        &&& opt_str_is(nc.ma_type, if opt_str_is(c.ma_type, "ema"@) { "sma"@ } else { "ema"@ })
        &&& selected_set(a, b, nc)
    } else {
        b == a
    }
}

/// `b` is `a` after stepping the selected MA's length by `delta` (at least 1); for a
/// selected volume profile `vp_row` names the row whose box width the caller moves.
pub open spec fn length_adjusted<R>(a: App<R>, delta: int, vp_row: Option<usize>, b: App<R>) -> bool {
    let c = sel_cfg(a);
    let cur: int = match c.length {
        Some(l) => if l < 1 { 1 } else { l as int },
        None => 1,
    };
    let stepped = cur + delta;
    let sat: int = if stepped > i64::MAX { i64::MAX as int } else if stepped < i64::MIN { i64::MIN as int } else { stepped };
    let next: int = if sat < 1 { 1 } else { sat };
    if current_row_ready(a) && same_kind(c.indicator_type, IndicatorKind::Ma) {
        &&& vp_row is None
        &&& next == cur ==> b == a
        &&& next != cur ==> selected_set(a, b, IndicatorConfig { length: Some(next as i64), ..c })
    } else if current_row_ready(a) && is_vp_kind(c.indicator_type) {
        vp_row == Some(sel_idx(a) as usize) && b == a
    } else {
        vp_row is None && b == a
    }
}

/// The effect of enabling / disabling the selected Current instance on `a`.
pub open spec fn selected_toggled<R>(a: App<R>, b: App<R>) -> bool {
    let c = sel_cfg(a);
    if current_row_ready(a) && a.indicator_list_side == IndicatorListSide::Current && a.type_style_edit is None {
        selected_set(a, b, IndicatorConfig { enabled: !c.enabled, ..c })
    } else {
        b == a
    }
}

/// Per-type instance maximum for a catalog type key (`None` = unbounded / unknown).
pub open spec fn max_for_key(key: Seq<char>) -> Option<usize> {
    if key == "ma"@ {
        Some(3)
    } else if key == "volume"@ || key == "session_vp"@ || key == "gex"@ || key == "garch"@ {
        Some(1)
    } else if key == "fixed_range_vp"@ {
        Some(4)
    } else if key == "anchored_vp"@ {
        Some(2)
    } else {
        None
    }
}

fn level_toggle_exec<R: Copy>(l: &Option<LevelStyle<R>>, opacity: R) -> (r: Option<LevelStyle<R>>)
    ensures
        r == level_toggled(*l, opacity),
{
    match l {
        Some(st) => Some(LevelStyle { enabled: !st.enabled, color: crate::model::clone_opt_string(&st.color), opacity: st.opacity }),
        None => Some(LevelStyle { enabled: false, color: None, opacity: Some(opacity) }),
    }
}

/// `b` is `a` after clearing every indicator but Volume on the focused chart.
pub open spec fn cleared_except_volume<R>(a: App<R>, b: App<R>) -> bool {
    let c = a.focused_spec();
    let kept = configs_of_kind(c.indicators@, IndicatorKind::Volume);
    let nc = b.focused_spec();
    if !(a.input_mode is IndicatorPanel) || a.indicator_list_side != IndicatorListSide::Current
        || a.type_style_edit is Some {
        b == a
    } else {
        &&& nc == (Chart { indicators: nc.indicators, indicator_series: nc.indicator_series, ..c })
        &&& nc.indicators@ == kept
        &&& nc.indicator_series@ == series_for_ids(c.indicator_series@, config_ids(kept))
        &&& b.charts@ == a.charts@.update(a.fidx(), nc)
        &&& (kept.len() == c.indicators@.len() ==> b == (App { charts: b.charts, ..a }))
        &&& (kept.len() != c.indicators@.len() ==> {
            &&& b.indicator_selected as int == clamped(a.indicator_selected as int, kept.len() as int)
            &&& armed_for(b.pending_indicators, nc)
            &&& b == (App {
                charts: b.charts,
                indicator_selected: b.indicator_selected,
                pending_indicators: b.pending_indicators,
                ..a
            })
        })
    }
}

/// `b` is `a` after removing the selected Current instance.
pub open spec fn selected_removed<R>(a: App<R>, b: App<R>) -> bool {
    let c = a.focused_spec();
    let k = sel_idx(a);
    let nc = b.focused_spec();
    if current_row_ready(a) && a.indicator_list_side == IndicatorListSide::Current && a.type_style_edit is None {
        &&& nc == (Chart { indicators: nc.indicators, indicator_series: nc.indicator_series, ..c })
        &&& nc.indicators@ == c.indicators@.remove(k)
        &&& nc.indicator_series@ == series_without(c.indicator_series@, c.indicators@[k].id@)
        &&& b.charts@ == a.charts@.update(a.fidx(), nc)
        &&& b.indicator_selected as int == clamped(a.indicator_selected as int, c.indicators@.len() - 1)
        &&& armed_for(b.pending_indicators, nc)
        &&& b == (App {
            charts: b.charts,
            indicator_selected: b.indicator_selected,
            pending_indicators: b.pending_indicators,
            ..a
        })
    } else {
        b == a
    }
}

/// `b` is `a` after the style key (VP placement, else MA type).
pub open spec fn style_cycled<R>(a: App<R>, b: App<R>) -> bool {
    let c = sel_cfg(a);
    let nc = b.focused_spec().indicators@[sel_idx(a)];
    if current_row_ready(a) && is_vp_kind(c.indicator_type) {
        &&& nc == (IndicatorConfig { placement: nc.placement, ..c })
        &&& opt_str_is(nc.placement, if opt_str_is(c.placement, "left"@) { "right"@ } else { "left"@ })
        &&& selected_set(a, b, nc)
    } else {
        ma_type_cycled(a, b)
    }
}

/// `b` is `a` after toggling extend-to-right on the selected Fixed Range VP.
pub open spec fn extend_toggled<R>(a: App<R>, b: App<R>) -> bool {
    let c = sel_cfg(a);
    if current_row_ready(a) && same_kind(c.indicator_type, IndicatorKind::FixedRangeVp) {
        selected_set(a, b, IndicatorConfig {
            extend_to_right: Some(!(c.extend_to_right == Some(true))),
            ..c
        })
    } else {
        b == a
    }
}

/// `b` is `a` after toggling a POC / VAH / VAL level.
pub open spec fn vp_level_toggled<R>(a: App<R>, which: u8, b: App<R>) -> bool {
    let c = sel_cfg(a);
    let p = a.presets.vp_level_opacity;
    if current_row_ready(a) && is_vp_kind(c.indicator_type) && which < 3 {
        selected_set(a, b, if which == 0 {
            IndicatorConfig { poc: level_toggled(c.poc, p), ..c }
        } else if which == 1 {
            IndicatorConfig { vah: level_toggled(c.vah, p), ..c }
        } else {
            IndicatorConfig { val: level_toggled(c.val, p), ..c }
        })
    } else {
        b == a
    }
}

/// The POC (0), VAH (1) or VAL (2) style of a config.
pub open spec fn level_of<R>(c: IndicatorConfig<R>, which: u8) -> Option<LevelStyle<R>> {
    if which == 0 {
        c.poc
    } else if which == 1 {
        c.vah
    } else {
        c.val
    }
}

/// Toggling a stored level style twice gives it back: each toggle flips its shown flag and
/// keeps its colour and opacity.
pub proof fn lemma_level_toggle_twice_restores<R>(st: LevelStyle<R>, opacity: R)
    ensures
        level_toggled(Some(st), opacity) matches Some(t) && t.enabled == !st.enabled
            && t.color == st.color && t.opacity == st.opacity,
        level_toggled(level_toggled(Some(st), opacity), opacity) == Some(st),
{
}

/// Keys `1` / `2` / `3` on a selected volume profile flip the shown flag of its stored
/// POC / VAH / VAL style, keeping colour and opacity and the other two levels, and arm the
/// apply; a level with no stored style becomes a stored hidden one.
pub proof fn lemma_vp_level_toggle_flips<R>(a: App<R>, which: u8, b: App<R>)
    requires
        a.wf(),
        current_row_ready(a),
        is_vp_kind(sel_cfg(a).indicator_type),
        which < 3,
        vp_level_toggled(a, which, b),
    ensures
        ({
            let c = sel_cfg(a);
            let n = b.focused_spec().indicators@[sel_idx(a)];
            &&& b.focused_spec().indicators@.len() == a.focused_spec().indicators@.len()
            &&& (level_of(c, which) matches Some(st) ==> (level_of(n, which) matches Some(t)
                && t.enabled == !st.enabled && t.color == st.color && t.opacity == st.opacity))
            &&& (level_of(c, which) is None ==> (level_of(n, which) matches Some(t) && !t.enabled))
            &&& forall|w: u8| w < 3 && w != which ==> level_of(n, w) == level_of(c, w)
            &&& n == (IndicatorConfig { poc: n.poc, vah: n.vah, val: n.val, ..c })
            &&& armed_for(b.pending_indicators, b.focused_spec())
        }),
{
    assert(b.fidx() == a.fidx());
}

/// Every config kept by `configs_of_kind` has that kind, and every config of that kind is
/// kept.
pub proof fn lemma_configs_of_kind<R>(cfgs: Seq<IndicatorConfig<R>>, kind: IndicatorKind)
    ensures
        forall|j: int| 0 <= j < configs_of_kind(cfgs, kind).len()
            ==> same_kind(#[trigger] configs_of_kind(cfgs, kind)[j].indicator_type, kind),
        configs_of_kind(cfgs, kind).len() <= cfgs.len(),
        (forall|j: int| 0 <= j < cfgs.len() ==> same_kind(#[trigger] cfgs[j].indicator_type, kind))
            ==> configs_of_kind(cfgs, kind) == cfgs,
    decreases cfgs.len(),
{
    if cfgs.len() > 0 {
        let d = cfgs.drop_last();
        lemma_configs_of_kind(d, kind);
        if forall|j: int| 0 <= j < cfgs.len() ==> same_kind(#[trigger] cfgs[j].indicator_type, kind) {
            assert forall|j: int| 0 <= j < d.len() implies same_kind(#[trigger] d[j].indicator_type, kind) by {
                assert(d[j] == cfgs[j]);
            }
            assert(d.push(cfgs.last()) =~= cfgs);
        }
    }
}

/// No series entry of `id` is left after dropping `id`'s series.
pub proof fn lemma_series_without_drops_id<R>(entries: Seq<(String, IndicatorSeriesData<R>)>, id: Seq<char>)
    ensures
        forall|j: int| 0 <= j < series_without(entries, id).len() ==> (#[trigger] series_without(entries, id)[j]).0@ != id,
    decreases entries.len(),
{
    if entries.len() > 0 {
        let d = entries.drop_last();
        lemma_series_without_drops_id(d, id);
        let r0 = series_without(d, id);
        if entries.last().0@ != id {
            let r = r0.push(entries.last());
            assert forall|j: int| 0 <= j < r.len() implies (#[trigger] r[j]).0@ != id by {
                if j < r0.len() {
                    assert(r[j] == r0[j]);
                }
            }
        }
    }
}

/// Enabling / disabling the selected Current row flips only its shown flag and arms the
/// apply; toggling it twice gives back the configs it started from.
pub proof fn lemma_selected_toggle_flips<R>(a: App<R>, b: App<R>, c: App<R>)
    requires
        a.wf(),
        current_row_ready(a),
        a.indicator_list_side == IndicatorListSide::Current,
        a.type_style_edit is None,
        selected_toggled(a, b),
        selected_toggled(b, c),
    ensures
        b.focused_spec().indicators@.len() == a.focused_spec().indicators@.len(),
        b.focused_spec().indicators@[sel_idx(a)].enabled == !sel_cfg(a).enabled,
        b.focused_spec().indicators@[sel_idx(a)] == (IndicatorConfig {
            enabled: b.focused_spec().indicators@[sel_idx(a)].enabled,
            ..sel_cfg(a)
        }),
        forall|j: int| 0 <= j < a.focused_spec().indicators@.len() && j != sel_idx(a)
            ==> b.focused_spec().indicators@[j] == a.focused_spec().indicators@[j],
        armed_for(b.pending_indicators, b.focused_spec()),
        c.focused_spec().indicators@ == a.focused_spec().indicators@,
{
    assert(b.fidx() == a.fidx());
    assert(c.fidx() == b.fidx());
    assert(sel_idx(b) == sel_idx(a));
    assert(c.focused_spec().indicators@ =~= a.focused_spec().indicators@);
}

/// The style key on a selected MA switches its type between `sma` and `ema`: the new type
/// is one of the two and differs from the old one; nothing else of the config changes.
pub proof fn lemma_ma_type_cycle_switches<R>(a: App<R>, b: App<R>)
    requires
        a.wf(),
        current_row_ready(a),
        same_kind(sel_cfg(a).indicator_type, IndicatorKind::Ma),
        ma_type_cycled(a, b),
    ensures
        b.focused_spec().indicators@[sel_idx(a)].ma_type matches Some(t)
            && (t@ == "sma"@ || t@ == "ema"@)
            && !opt_str_is(sel_cfg(a).ma_type, t@),
        b.focused_spec().indicators@[sel_idx(a)] == (IndicatorConfig {
            ma_type: b.focused_spec().indicators@[sel_idx(a)].ma_type,
            ..sel_cfg(a)
        }),
        armed_for(b.pending_indicators, b.focused_spec()),
{
    assert(b.fidx() == a.fidx());
    reveal_strlit("sma");
    reveal_strlit("ema");
    assert("sma"@ != "ema"@) by {
        assert("sma"@[0] != "ema"@[0]);
    }
}

/// `+` / `-` on a selected MA move its length by one within 1..: a length `l` at least 1
/// becomes `l + delta` when that is at least 1, and 1 otherwise; nothing else changes.
pub proof fn lemma_ma_length_steps<R>(a: App<R>, delta: int, row: Option<usize>, b: App<R>, l: i64)
    requires
        a.wf(),
        current_row_ready(a),
        same_kind(sel_cfg(a).indicator_type, IndicatorKind::Ma),
        sel_cfg(a).length == Some(l),
        1 <= l,
        delta == 1 || delta == -1,
        length_adjusted(a, delta, row, b),
    ensures
        row is None,
        1 <= l + delta <= i64::MAX ==> b.focused_spec().indicators@[sel_idx(a)].length == Some((l + delta) as i64),
        l + delta < 1 ==> b == a,
        b.focused_spec().indicators@[sel_idx(a)] == (IndicatorConfig {
            length: b.focused_spec().indicators@[sel_idx(a)].length,
            ..sel_cfg(a)
        }),
{
    assert(b.fidx() == a.fidx());
}

/// The style key on a selected volume profile moves its histogram between the left and
/// the right side; nothing else of the config changes.
pub proof fn lemma_vp_placement_switches<R>(a: App<R>, b: App<R>)
    requires
        a.wf(),
        current_row_ready(a),
        is_vp_kind(sel_cfg(a).indicator_type),
        style_cycled(a, b),
    ensures
        b.focused_spec().indicators@[sel_idx(a)].placement matches Some(p)
            && (p@ == "left"@ || p@ == "right"@)
            && !opt_str_is(sel_cfg(a).placement, p@),
        b.focused_spec().indicators@[sel_idx(a)] == (IndicatorConfig {
            placement: b.focused_spec().indicators@[sel_idx(a)].placement,
            ..sel_cfg(a)
        }),
        armed_for(b.pending_indicators, b.focused_spec()),
{
    assert(b.fidx() == a.fidx());
    reveal_strlit("left");
    reveal_strlit("right");
    assert("left"@ != "right"@) by {
        assert("left"@.len() != "right"@.len());
    }
}

/// Extend-to-right on a selected Fixed Range VP turns an extended profile into a bounded
/// one and the other way round.
pub proof fn lemma_extend_toggle_flips<R>(a: App<R>, b: App<R>)
    requires
        a.wf(),
        current_row_ready(a),
        same_kind(sel_cfg(a).indicator_type, IndicatorKind::FixedRangeVp),
        extend_toggled(a, b),
    ensures
        (b.focused_spec().indicators@[sel_idx(a)].extend_to_right == Some(true))
            == !(sel_cfg(a).extend_to_right == Some(true)),
        b.focused_spec().indicators@[sel_idx(a)].extend_to_right is Some,
        armed_for(b.pending_indicators, b.focused_spec()),
{
    assert(b.fidx() == a.fidx());
}

/// Removing the selected Current row leaves one config fewer, keeps the others in order,
/// drops every series of the removed config's id and arms the apply.
pub proof fn lemma_remove_selected_drops_it<R>(a: App<R>, b: App<R>)
    requires
        a.wf(),
        current_row_ready(a),
        a.indicator_list_side == IndicatorListSide::Current,
        a.type_style_edit is None,
        selected_removed(a, b),
    ensures
        b.focused_spec().indicators@.len() == a.focused_spec().indicators@.len() - 1,
        forall|j: int| 0 <= j < sel_idx(a) ==> b.focused_spec().indicators@[j] == a.focused_spec().indicators@[j],
        forall|j: int| sel_idx(a) <= j < b.focused_spec().indicators@.len()
            ==> b.focused_spec().indicators@[j] == a.focused_spec().indicators@[j + 1],
        forall|j: int| 0 <= j < b.focused_spec().indicator_series@.len()
            ==> (#[trigger] b.focused_spec().indicator_series@[j]).0@ != sel_cfg(a).id@,
        armed_for(b.pending_indicators, b.focused_spec()),
{
    lemma_series_without_drops_id(a.focused_spec().indicator_series@, sel_cfg(a).id@);
}

/// Clearing keeps exactly the Volume configs of the focused chart: every remaining config
/// is a Volume one, and a chart with only Volume configs is left as it is.
pub proof fn lemma_clear_keeps_only_volume<R>(a: App<R>, b: App<R>)
    requires
        a.wf(),
        a.input_mode is IndicatorPanel,
        a.indicator_list_side == IndicatorListSide::Current,
        a.type_style_edit is None,
        cleared_except_volume(a, b),
    ensures
        forall|j: int| 0 <= j < b.focused_spec().indicators@.len()
            ==> same_kind(#[trigger] b.focused_spec().indicators@[j].indicator_type, IndicatorKind::Volume),
        b.focused_spec().indicators@.len() <= a.focused_spec().indicators@.len(),
        (forall|j: int| 0 <= j < a.focused_spec().indicators@.len()
            ==> same_kind(#[trigger] a.focused_spec().indicators@[j].indicator_type, IndicatorKind::Volume))
            ==> b.focused_spec().indicators@ == a.focused_spec().indicators@,
{
    lemma_configs_of_kind(a.focused_spec().indicators@, IndicatorKind::Volume);
    assert(b.fidx() == a.fidx());
}

/// `b` is `a` after opening the type-style editor with draft `strength`.
pub open spec fn type_style_opened<R>(a: App<R>, strength: R, b: App<R>) -> bool {
    if a.input_mode is IndicatorPanel && a.indicator_list_side == IndicatorListSide::Available
        && a.type_style_edit is None && a.indicator_available_selected < 7 {
        &&& b.type_style_edit matches Some(e)
            && e.indicator_type@ == kind_key(available_kind(a.indicator_available_selected as int))
            && e.strength == strength
        &&& b == (App { type_style_edit: b.type_style_edit, ..a })
    } else {
        b == a
    }
}

/// `b` is `a` after confirming the draft type style.
pub open spec fn type_style_confirmed<R>(a: App<R>, b: App<R>) -> bool {
    &&& a.type_style_edit is None ==> b == a
    &&& a.type_style_edit matches Some(e) ==> type_style_set(
        App { type_style_edit: None, ..a },
        b,
        a.focused_spec().id@,
        e.indicator_type@,
        IndicatorTypeStyle { overlay_strength: e.strength },
    )
}

impl<R: Copy> App<R> {
    /// Index of the selected Current row (clamped), when the list is non-empty.
    fn selected_row(&self) -> (r: Option<usize>)
        requires
            self.wf(),
        ensures
            self.focused_spec().indicators@.len() > 0 ==> r == Some(sel_idx(*self) as usize),
            self.focused_spec().indicators@.len() == 0 ==> r is None,
    {
        let n = self.focused_chart().indicators.len();
        if n == 0 {
            None
        } else if self.indicator_selected < n {
            Some(self.indicator_selected)
        } else {
            Some(n - 1)
        }
    }

    /// Remove every indicator on the focused chart except Volume instances (and their
    /// stale series); re-applies when something was removed.
    pub fn indicator_clear_except_volume(&mut self)
        requires
            old(self).wf(),
        ensures
            final(self).wf(),
            cleared_except_volume(*old(self), *final(self)),
    {
        if !matches!(self.input_mode, InputMode::IndicatorPanel) {
            return;
        }
        if self.indicator_list_side != IndicatorListSide::Current {
            return;
        }
        if self.type_style_edit.is_some() {
            return;
        }
        let fi = self.focused_index();
        let before = self.charts[fi].indicators.len();
        let cfgs = take_vec(&mut self.charts[fi].indicators);
        let kept = retain_kind(cfgs, &IndicatorKind::Volume);
        let keep_ids = ids_of_pub(&kept);
        self.charts[fi].indicators = kept;
        // Drop hot series for removed ids.
        let series = take_vec(&mut self.charts[fi].indicator_series);
        proof {
            assert(old(self).charts@[fi as int].keys_distinct());
            lemma_series_for_ids_keeps_distinct(series@, keep_ids@.map_values(|s: String| s@));
        }
        self.charts[fi].indicator_series = keep_series(series, &keep_ids);
        proof {
            assert(self.charts@ =~= old(self).charts@.update(fi as int, self.charts@[fi as int]));
        }
        if self.charts[fi].indicators.len() == before {
            return;
        }
        self.clamp_indicator_selection();
        self.arm_indicators_apply();
    }

    /// Enable / disable the selected Current instance.
    pub fn indicator_toggle_selected(&mut self)
        requires
            old(self).wf(),
        ensures
            final(self).wf(),
            selected_toggled(*old(self), *final(self)),
    {
        if !matches!(self.input_mode, InputMode::IndicatorPanel) {
            return;
        }
        // Instance on/off is a Current-list action.
        if self.indicator_list_side != IndicatorListSide::Current {
            return;
        }
        if self.type_style_edit.is_some() {
            return;
        }
        let idx = match self.selected_row() {
            Some(i) => i,
            None => {
                return;
            },
        };
        let fi = self.focused_index();
        let enabled = self.charts[fi].indicators[idx].enabled;
        self.charts[fi].indicators[idx].enabled = !enabled;
        proof {
            assert(self.charts@ =~= old(self).charts@.update(fi as int, self.charts@[fi as int]));
        }
        self.arm_indicators_apply();
    }

    /// Remove the selected Current instance and its series.
    pub fn indicator_remove_selected(&mut self)
        requires
            old(self).wf(),
        ensures
            final(self).wf(),
            selected_removed(*old(self), *final(self)),
    {
        if !matches!(self.input_mode, InputMode::IndicatorPanel) {
            return;
        }
        if self.indicator_list_side != IndicatorListSide::Current {
            return;
        }
        if self.type_style_edit.is_some() {
            return;
        }
        let idx = match self.selected_row() {
            Some(i) => i,
            None => {
                return;
            },
        };
        let fi = self.focused_index();
        let removed = self.charts[fi].indicators.remove(idx);
        let series = take_vec(&mut self.charts[fi].indicator_series);
        proof {
            assert(old(self).charts@[fi as int].keys_distinct());
            lemma_series_without_keeps_distinct(series@, removed.id@);
        }
        self.charts[fi].indicator_series = drop_series(series, &removed.id);
        proof {
            assert(self.charts@ =~= old(self).charts@.update(fi as int, self.charts@[fi as int]));
        }
        self.clamp_indicator_selection();
        self.arm_indicators_apply();
    }

    /// Toggle the selected MA between SMA and EMA.
    pub fn indicator_cycle_ma_type(&mut self)
        requires
            old(self).wf(),
        ensures
            final(self).wf(),
            ma_type_cycled(*old(self), *final(self)),
    {
        if !matches!(self.input_mode, InputMode::IndicatorPanel) {
            return;
        }
        let idx = match self.selected_row() {
            Some(i) => i,
            None => {
                return;
            },
        };
        let fi = self.focused_index();
        if !self.charts[fi].indicators[idx].indicator_type.same_as(&IndicatorKind::Ma) {
            return;
        }
        let is_ema = match &self.charts[fi].indicators[idx].ma_type {
            Some(t) => str_eq(t.as_str(), "ema"),
            None => false,
        };
        let next = if is_ema { "sma" } else { "ema" };
        self.charts[fi].indicators[idx].ma_type = Some(String::from_str(next));
        proof {
            assert(self.charts@ =~= old(self).charts@.update(fi as int, self.charts@[fi as int]));
        }
        self.arm_indicators_apply();
    }

    /// Cycle placement left/right when a VP is selected; else the MA type.
    pub fn indicator_cycle_style(&mut self)
        requires
            old(self).wf(),
        ensures
            final(self).wf(),
            style_cycled(*old(self), *final(self)),
    {
        if !matches!(self.input_mode, InputMode::IndicatorPanel) {
            return;
        }
        let idx = match self.selected_row() {
            Some(i) => i,
            None => {
                return;
            },
        };
        let fi = self.focused_index();
        if self.charts[fi].indicators[idx].indicator_type.is_volume_profile() {
            let is_left = match &self.charts[fi].indicators[idx].placement {
                Some(p) => str_eq(p.as_str(), "left"),
                None => false,
            };
            let next = if is_left { "right" } else { "left" };
            self.charts[fi].indicators[idx].placement = Some(String::from_str(next));
            proof {
                assert(self.charts@ =~= old(self).charts@.update(fi as int, self.charts@[fi as int]));
            }
            self.arm_indicators_apply();
            return;
        }
        self.indicator_cycle_ma_type();
    }

    /// Toggle extend-to-right on the selected Fixed Range VP.
    pub fn indicator_toggle_frvp_extend(&mut self)
        requires
            old(self).wf(),
        ensures
            final(self).wf(),
            extend_toggled(*old(self), *final(self)),
    {
        if !matches!(self.input_mode, InputMode::IndicatorPanel) {
            return;
        }
        let idx = match self.selected_row() {
            Some(i) => i,
            None => {
                return;
            },
        };
        let fi = self.focused_index();
        if !self.charts[fi].indicators[idx].indicator_type.same_as(&IndicatorKind::FixedRangeVp) {
            return;
        }
        let cur = match self.charts[fi].indicators[idx].extend_to_right {
            Some(b) => b,
            None => false,
        };
        self.charts[fi].indicators[idx].extend_to_right = Some(!cur);
        proof {
            assert(self.charts@ =~= old(self).charts@.update(fi as int, self.charts@[fi as int]));
        }
        self.arm_indicators_apply();
    }

    /// `+`/`-` (and `[`/`]` in the panel): step the selected MA's length (at least 1).
    /// For a selected volume profile the box width moves instead: that value is real, so
    /// the row index comes back for the caller to set it with `indicator_set_box_width`.
    pub fn indicator_adjust_length(&mut self, delta: i64) -> (vp_row: Option<usize>)
        requires
            old(self).wf(),
        ensures
            final(self).wf(),
            length_adjusted(*old(self), delta as int, vp_row, *final(self)),
    {
        if !matches!(self.input_mode, InputMode::IndicatorPanel) {
            return None;
        }
        let idx = match self.selected_row() {
            Some(i) => i,
            None => {
                return None;
            },
        };
        let fi = self.focused_index();
        if self.charts[fi].indicators[idx].indicator_type.same_as(&IndicatorKind::Ma) {
            let cur: i64 = match self.charts[fi].indicators[idx].length {
                Some(l) => if l < 1 { 1 } else { l },
                None => 1,
            };
            let stepped: i64 = match cur.checked_add(delta) {
                Some(v) => v,
                None => if delta > 0 { i64::MAX } else { i64::MIN },
            };
            let next: i64 = if stepped < 1 { 1 } else { stepped };
            if next == cur {
                return None;
            }
            self.charts[fi].indicators[idx].length = Some(next);
            proof {
                assert(self.charts@ =~= old(self).charts@.update(fi as int, self.charts@[fi as int]));
            }
            self.arm_indicators_apply();
            return None;
        }
        if self.charts[fi].indicators[idx].indicator_type.is_volume_profile() {
            return Some(idx);
        }
        None
    }

    /// Set the box width of config `row` on the focused chart and re-apply.
    pub fn indicator_set_box_width(&mut self, row: usize, width: R)
        requires
            old(self).wf(),
            row < old(self).focused_spec().indicators@.len(),
        ensures
            final(self).wf(),
            ({
                let a = *old(self);
                let c = a.focused_spec().indicators@[row as int];
                edited_and_armed(a, *final(self), a.focused_spec().indicators@.update(row as int,
                    IndicatorConfig { box_width: Some(width), ..c }), a.indicator_selected as int, false)
            }),
    {
        let fi = self.focused_index();
        self.charts[fi].indicators[row].box_width = Some(width);
        proof {
            assert(self.charts@ =~= old(self).charts@.update(fi as int, self.charts@[fi as int]));
        }
        self.arm_indicators_apply();
    }

    /// Toggle POC (`which` 0) / VAH (1) / VAL (2) when a VP is selected.
    pub fn indicator_toggle_vp_level(&mut self, which: u8)
        requires
            old(self).wf(),
        ensures
            final(self).wf(),
            vp_level_toggled(*old(self), which, *final(self)),
    {
        if !matches!(self.input_mode, InputMode::IndicatorPanel) {
            return;
        }
        let idx = match self.selected_row() {
            Some(i) => i,
            None => {
                return;
            },
        };
        let fi = self.focused_index();
        if !self.charts[fi].indicators[idx].indicator_type.is_volume_profile() {
            return;
        }
        let opacity = self.presets.vp_level_opacity;
        if which == 0 {
            let l = level_toggle_exec(&self.charts[fi].indicators[idx].poc, opacity);
            self.charts[fi].indicators[idx].poc = l;
        } else if which == 1 {
            let l = level_toggle_exec(&self.charts[fi].indicators[idx].vah, opacity);
            self.charts[fi].indicators[idx].vah = l;
        } else if which == 2 {
            let l = level_toggle_exec(&self.charts[fi].indicators[idx].val, opacity);
            self.charts[fi].indicators[idx].val = l;
        } else {
            return;
        }
        proof {
            assert(self.charts@ =~= old(self).charts@.update(fi as int, self.charts@[fi as int]));
        }
        self.arm_indicators_apply();
    }

    /// Catalog kind under the Available selection.
    pub fn selected_available_kind(&self) -> (r: Option<IndicatorKind>)
        ensures
            self.indicator_available_selected < 7 ==> r == Some(available_kind(self.indicator_available_selected as int)),
            self.indicator_available_selected >= 7 ==> r is None,
    {
        match available_indicator_type(self.indicator_available_selected) {
            Some(p) => Some(p.0),
            None => None,
        }
    }

    /// Open the type-style popup for the Available selection with draft `strength`
    /// (the type's current overlay strength).
    pub fn indicator_open_type_style(&mut self, strength: R)
        ensures
            type_style_opened(*old(self), strength, *final(self)),
    {
        if !matches!(self.input_mode, InputMode::IndicatorPanel) {
            return;
        }
        if self.indicator_list_side != IndicatorListSide::Available {
            return;
        }
        if self.type_style_edit.is_some() {
            return;
        }
        let kind = match self.selected_available_kind() {
            Some(k) => k,
            None => {
                return;
            },
        };
        self.type_style_edit = Some(TypeStyleEditState { indicator_type: kind.key(), strength });
    }

    /// Set the overlay style of type `indicator_type` on chart `chart_id` and arm the persist.
    pub fn set_chart_overlay_strength(&mut self, chart_id: &str, indicator_type: &str, style: IndicatorTypeStyle<R>)
        ensures
            type_style_set(*old(self), *final(self), chart_id@, indicator_type@, style),
            final(self).charts@.len() == old(self).charts@.len(),
            charts_keys_distinct(old(self).charts@) ==> charts_keys_distinct(final(self).charts@),
    {
        let i = match chart_position(&self.charts, chart_id) {
            Some(i) => i,
            None => {
                return;
            },
        };
        let ghost keys = style_keys(self.charts@[i as int].type_styles@);
        proof {
            crate::app::lemma_first_index_range(keys, indicator_type@);
            assert(self.charts@[i as int] == old(self).charts@[i as int]);
        }
        self.charts[i].set_type_style(String::from_str(indicator_type), style);
        let p = PendingTypeStylesApply {
            chart_id: self.charts[i].id.clone(),
            type_styles: self.charts[i].type_styles_for_persist(),
        };
        self.pending_type_styles = Some(p);
        proof {
            assert(self.charts@ =~= old(self).charts@.update(i as int, self.charts@[i as int]));
            if charts_keys_distinct(old(self).charts@) {
                assert(old(self).charts@[i as int].keys_distinct());
                assert(self.charts@[i as int].keys_distinct());
            }
        }
    }

    /// Confirm the draft type style onto the focused chart and arm the persist.
    /// The draft strength is stored as it stands (the editor keeps it in \[0, 1\]).
    pub fn type_style_confirm(&mut self)
        requires
            old(self).wf(),
        ensures
            final(self).wf(),
            type_style_confirmed(*old(self), *final(self)),
    {
        let edit = match self.type_style_edit.take() {
            Some(e) => e,
            None => {
                return;
            },
        };
        let chart_id = self.focused_chart().id.clone();
        self.set_chart_overlay_strength(chart_id.as_str(), edit.indicator_type.as_str(), IndicatorTypeStyle { overlay_strength: edit.strength });
    }

    pub fn type_style_cancel(&mut self)
        ensures
            *final(self) == (App { type_style_edit: None, ..*old(self) }),
    {
        self.type_style_edit = None;
    }

    /// Per-chart instance maximum for a catalog type key (`None` = unbounded / unknown).
    pub fn max_for_indicator_type(type_key: &str) -> (r: Option<usize>)
        ensures
            r == max_for_key(type_key@),
    {
        if str_eq(type_key, "ma") {
            Some(crate::app::MAX_MA_LINES)
        } else if str_eq(type_key, "volume") || str_eq(type_key, "session_vp") || str_eq(type_key, "gex")
            || str_eq(type_key, "garch") {
            Some(1)
        } else if str_eq(type_key, "fixed_range_vp") {
            Some(crate::app::MAX_FIXED_RANGE_VP)
        } else if str_eq(type_key, "anchored_vp") {
            Some(crate::app::MAX_ANCHORED_VP)
        } else {
            None
        }
    }
}

} // verus!
