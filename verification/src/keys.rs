//! Key dispatch: which workspace action a key press performs in each input mode.
use vstd::prelude::*;
use crate::app::{App, IndicatorListSide, InputMode, Screen};
use crate::app::charts::{chart_panned, instrument_set, timeframe_cycled};
use crate::app::edits::{
    cleared_except_volume, current_row_ready, extend_toggled, length_adjusted, lemma_extend_toggle_flips,
    lemma_remove_selected_drops_it, lemma_vp_level_toggle_flips, level_of, sel_cfg, selected_removed,
    style_cycled, type_style_confirmed, vp_level_toggled,
};
use crate::app::indicators::sel_idx;
use crate::model::{is_vp_kind, same_kind, IndicatorKind};
use crate::app::ChartSeriesState;
use crate::text::{trim_seq, upper_seq};
use crate::app::events::entered_via;
use crate::app::indicators::{
    gex_added, garch_added, indicator_panel_toggled, indicator_row_moved, list_side_toggled,
    ma_stack_added, session_vp_added, volume_added,
};
use crate::app::paper::paper_panel_closed;
use crate::app::pins::{
    avp_added, avp_anchor_nudged, avp_anchor_snapped, avp_confirmed, avp_cursor_moved,
    avp_cursor_snapped, avp_place_cancelled, avp_repin_started, frvp_added, frvp_anchor_nudged,
    frvp_confirmed, frvp_cursor_moved, frvp_place_cancelled, frvp_repin_started,
    frvp_start_pin_valid, selection_activated,
};
use crate::app::prompts::{
    instrument_prompt_applied, instrument_prompt_opened, prompt_backspaced, prompt_typed,
};
use crate::app::watchlist::{
    add_prompt_applied, add_prompt_opened, rename_prompt_applied, rename_prompt_opened,
    row_removal_armed, selected_symbol, watchlist_cycled, watchlist_row_moved, watchlist_row_ready,
};
use crate::app::{focus_moved, layout_toggle_armed, sidebar_toggled};
use crate::app::charts::instrument_changes;
use crate::model::kind_key;

verus! {

/// A key press as the workspace sees it.
#[derive(Debug, Clone, Copy, PartialEq, Eq, Structural)]
pub enum Key {
    Char(char),
    Enter,
    Esc,
    Backspace,
    Tab,
    Up,
    Down,
    Left,
    Right,
    Other,
}

/// Work a key leaves to the caller because it is real-valued.
#[derive(Debug, Clone, Copy, PartialEq, Eq, Structural)]
pub enum KeyEffect {
    Nothing,
    /// Open the type-style editor with the selected type's current overlay strength.
    OpenTypeStyle,
    /// Move the draft overlay strength by this many steps.
    NudgeTypeStyle(i32),
    /// Move the box width of config `row` on the focused chart by `steps` steps.
    AdjustBoxWidth { row: usize, steps: i64 },
}

/// Type key of the config at the raw Current-row index, when there is one.
pub open spec fn raw_selected_key<R>(a: App<R>) -> Seq<char> {
    let cfgs = a.focused_spec().indicators@;
    if a.indicator_selected < cfgs.len() {
        kind_key(cfgs[a.indicator_selected as int].indicator_type)
    } else {
        Seq::empty()
    }
}

/// Box-width work for a volume-profile row picked by a length key, moved by `steps`.
pub open spec fn box_effect(row: Option<usize>, steps: i64) -> KeyEffect {
    match row {
        Some(r) => KeyEffect::AdjustBoxWidth { row: r, steps },
        None => KeyEffect::Nothing,
    }
}

/// Keys while the help overlay is open: it closes, `q` quits, the rest is eaten.
pub open spec fn help_key<R>(a: App<R>, key: Key, b: App<R>) -> bool {
    match key {
        Key::Esc | Key::Enter | Key::Char('?') | Key::Char('h') | Key::Char('H') => b == (App { help_open: false, ..a }),
        Key::Char('q') | Key::Char('Q') => b == (App { should_quit: true, ..a }),
        _ => b == a,
    }
}

/// Keys in a text prompt: Esc cancels, Enter applies, Backspace deletes, characters type.
pub open spec fn prompt_key<R>(a: App<R>, key: Key, b: App<R>) -> bool {
    match key {
        Key::Esc => b == (App { input_mode: InputMode::Normal, ..a }),
        Key::Enter => match a.input_mode {
            InputMode::InstrumentPrompt { .. } => exists|c: bool| instrument_prompt_applied(a, c, b),
            InputMode::WatchlistAddPrompt { .. } => exists|c: bool| add_prompt_applied(a, c, b),
            _ => exists|c: bool| rename_prompt_applied(a, c, b),
        },
        Key::Backspace => prompt_backspaced(a, b),
        Key::Char(c) => prompt_typed(a, c, b),
        _ => b == a,
    }
}

/// Keys while the type-style editor is open over the indicator panel.
pub open spec fn type_style_key<R>(a: App<R>, key: Key, b: App<R>, eff: KeyEffect) -> bool {
    match key {
        Key::Char('?') | Key::Char('h') | Key::Char('H') => eff == KeyEffect::Nothing && b == (App { help_open: !a.help_open, ..a }),
        Key::Esc => eff == KeyEffect::Nothing && b == (App { type_style_edit: None, ..a }),
        Key::Enter => eff == KeyEffect::Nothing && type_style_confirmed(a, b),
        Key::Left | Key::Char('-') | Key::Char('_') => eff == KeyEffect::NudgeTypeStyle(-1i32) && b == a,
        Key::Right | Key::Char('+') | Key::Char('=') => eff == KeyEffect::NudgeTypeStyle(1) && b == a,
        Key::Char('q') => eff == KeyEffect::Nothing && b == (App { should_quit: true, ..a }),
        _ => eff == KeyEffect::Nothing && b == a,
    }
}

/// Keys on the Current list only (ignored on Available).
pub open spec fn current_list_key<R>(a: App<R>, key: Key, b: App<R>, eff: KeyEffect) -> bool {
    match key {
        Key::Char('r') | Key::Char('R') => eff == KeyEffect::Nothing && (if raw_selected_key(a) == "anchored_vp"@ {
            avp_repin_started(a, b)
        } else if raw_selected_key(a) == "fixed_range_vp"@ {
            frvp_repin_started(a, b)
        } else {
            b == a
        }),
        Key::Char('e') | Key::Char('E') => eff == KeyEffect::Nothing && extend_toggled(a, b),
        Key::Char('9') => eff == KeyEffect::Nothing && avp_anchor_snapped(a, b),
        Key::Char(',') => eff == KeyEffect::Nothing && (if raw_selected_key(a) == "anchored_vp"@ {
            avp_anchor_nudged(a, b, -1)
        } else {
            frvp_anchor_nudged(a, b, 0, -1)
        }),
        Key::Char('.') => eff == KeyEffect::Nothing && (if raw_selected_key(a) == "anchored_vp"@ {
            avp_anchor_nudged(a, b, 1)
        } else {
            frvp_anchor_nudged(a, b, 0, 1)
        }),
        Key::Char('<') => eff == KeyEffect::Nothing && frvp_anchor_nudged(a, b, 1, -1),
        Key::Char('>') => eff == KeyEffect::Nothing && frvp_anchor_nudged(a, b, 1, 1),
        Key::Char('x') | Key::Char('X') => eff == KeyEffect::Nothing && selected_removed(a, b),
        Key::Char('s') | Key::Char('S') => eff == KeyEffect::Nothing && style_cycled(a, b),
        Key::Char('+') | Key::Char('=') => exists|row: Option<usize>| #[trigger] length_adjusted(a, 1, row, b) && eff == box_effect(row, 1),
        Key::Char('-') | Key::Char('_') => exists|row: Option<usize>| #[trigger] length_adjusted(a, -1, row, b) && eff == box_effect(row, -1i64),
        Key::Char('1') => eff == KeyEffect::Nothing && vp_level_toggled(a, 0, b),
        Key::Char('2') => eff == KeyEffect::Nothing && vp_level_toggled(a, 1, b),
        Key::Char('3') => eff == KeyEffect::Nothing && vp_level_toggled(a, 2, b),
        _ => eff == KeyEffect::Nothing && b == a,
    }
}

/// Keys in the indicator panel (no type-style editor open).
pub open spec fn panel_key<R>(a: App<R>, key: Key, b: App<R>, eff: KeyEffect) -> bool {
    let current = a.indicator_list_side == IndicatorListSide::Current;
    match key {
        Key::Char('?') | Key::Char('h') | Key::Char('H') => eff == KeyEffect::Nothing && b == (App { help_open: !a.help_open, ..a }),
        Key::Esc | Key::Char('o') | Key::Char('O') => eff == KeyEffect::Nothing
            && b == (App { input_mode: InputMode::Normal, type_style_edit: None, ..a }),
        Key::Tab => eff == KeyEffect::Nothing && list_side_toggled(a, b),
        Key::Up => eff == KeyEffect::Nothing && indicator_row_moved(a, -1, b),
        Key::Down => eff == KeyEffect::Nothing && indicator_row_moved(a, 1, b),
        Key::Char(' ') | Key::Enter => eff == KeyEffect::Nothing && selection_activated(a, b),
        Key::Char('c') => if current {
            eff == KeyEffect::Nothing && cleared_except_volume(a, b)
        } else {
            eff == KeyEffect::OpenTypeStyle && b == a
        },
        Key::Char('C') => eff == KeyEffect::Nothing && (if current { cleared_except_volume(a, b) } else { b == a }),
        Key::Char('m') | Key::Char('M') => eff == KeyEffect::Nothing && ma_stack_added(a, b),
        Key::Char('v') | Key::Char('V') => eff == KeyEffect::Nothing && volume_added(a, b),
        Key::Char('p') | Key::Char('P') => eff == KeyEffect::Nothing && session_vp_added(a, b),
        Key::Char('f') | Key::Char('F') => eff == KeyEffect::Nothing && frvp_added(a, b),
        Key::Char('a') | Key::Char('A') => eff == KeyEffect::Nothing && avp_added(a, b),
        Key::Char('y') | Key::Char('Y') => eff == KeyEffect::Nothing && gex_added(a, b),
        Key::Char('g') | Key::Char('G') => eff == KeyEffect::Nothing && garch_added(a, b),
        Key::Char(']') | Key::Char('[') => eff == KeyEffect::Nothing && b == a,
        Key::Char('q') => eff == KeyEffect::Nothing && b == (App { should_quit: true, ..a }),
        _ => if current { current_list_key(a, key, b, eff) } else { eff == KeyEffect::Nothing && b == a },
    }
}

/// Keys during Fixed Range pin placement.
pub open spec fn frvp_key<R>(a: App<R>, key: Key, b: App<R>) -> bool {
    match key {
        Key::Char('?') => b == (App { help_open: !a.help_open, ..a }),
        Key::Esc => frvp_place_cancelled(a, b),
        Key::Left | Key::Char('h') | Key::Char('H') => frvp_cursor_moved(a, -1, b),
        Key::Right | Key::Char('l') | Key::Char('L') => frvp_cursor_moved(a, 1, b),
        Key::Char('[') => frvp_cursor_moved(a, -10, b),
        Key::Char(']') => frvp_cursor_moved(a, 10, b),
        Key::Enter | Key::Char(' ') => if frvp_start_pin_valid(a) { frvp_confirmed(a, b) } else { b == a },
        Key::Char('q') => b == (App { should_quit: true, ..a }),
        _ => b == a,
    }
}

/// Keys during Anchored pin placement.
pub open spec fn avp_key<R>(a: App<R>, key: Key, b: App<R>) -> bool {
    match key {
        Key::Char('?') => b == (App { help_open: !a.help_open, ..a }),
        Key::Esc => avp_place_cancelled(a, b),
        Key::Left | Key::Char('h') | Key::Char('H') => avp_cursor_moved(a, -1, b),
        Key::Right | Key::Char('l') | Key::Char('L') => avp_cursor_moved(a, 1, b),
        Key::Char('[') => avp_cursor_moved(a, -10, b),
        Key::Char(']') => avp_cursor_moved(a, 10, b),
        Key::Char('9') => avp_cursor_snapped(a, b),
        Key::Enter | Key::Char(' ') => avp_confirmed(a, b),
        Key::Char('q') => b == (App { should_quit: true, ..a }),
        _ => b == a,
    }
}

/// `b` is `a` after loading the selected watchlist row into the focused chart.
pub open spec fn row_loaded<R>(a: App<R>, b: App<R>) -> bool {
    &&& watchlist_row_ready(a) ==> instrument_set(a, selected_symbol(a), instrument_changes(a, selected_symbol(a)), b)
    &&& !watchlist_row_ready(a) ==> b == a
}

/// Keys in Normal mode (Welcome and workspace).
pub open spec fn normal_key<R>(a: App<R>, key: Key, b: App<R>) -> bool {
    let ws = a.screen == Screen::Workspace;
    match key {
        Key::Char('?') | Key::Char('h') | Key::Char('H') => b == (App { help_open: !a.help_open, ..a }),
        Key::Char('q') => b == (App { should_quit: true, ..a }),
        Key::Esc => if a.screen == Screen::Welcome { b == (App { should_quit: true, ..a }) } else { b == a },
        Key::Enter => if a.screen == Screen::Welcome {
            exists|m: App<R>| entered_via(a, m, b)
        } else {
            row_loaded(a, b)
        },
        _ => if !ws {
            b == a
        } else {
            match key {
                Key::Char(' ') => row_loaded(a, b),
                Key::Char(']') => timeframe_cycled(a, 1, b),
                Key::Char('[') => timeframe_cycled(a, -1, b),
                Key::Char('i') | Key::Char('I') => instrument_prompt_opened(a, b),
                Key::Char('o') | Key::Char('O') => indicator_panel_toggled(a, b),
                Key::Char('l') | Key::Char('L') => layout_toggle_armed(a, b),
                Key::Char('w') | Key::Char('W') => sidebar_toggled(a, b),
                Key::Char('n') | Key::Char('N') => watchlist_cycled(a, 1, b),
                Key::Char('p') | Key::Char('P') => watchlist_cycled(a, -1, b),
                Key::Char('a') | Key::Char('A') => add_prompt_opened(a, b),
                Key::Char('r') | Key::Char('R') => rename_prompt_opened(a, b),
                Key::Char('x') | Key::Char('X') | Key::Char('d') | Key::Char('D') => row_removal_armed(a, b),
                Key::Up => watchlist_row_moved(a, -1, b),
                Key::Down => watchlist_row_moved(a, 1, b),
                Key::Left => chart_panned(a, -1, b),
                Key::Right => chart_panned(a, 1, b),
                Key::Tab => focus_moved(a, b),
                _ => b == a,
            }
        },
    }
}

/// `b` is `a` after key `key`, with `eff` the real-valued work left to the caller.
pub open spec fn key_handled<R>(a: App<R>, key: Key, b: App<R>, eff: KeyEffect) -> bool {
    if a.help_open {
        eff == KeyEffect::Nothing && help_key(a, key, b)
    } else {
        match a.input_mode {
            InputMode::InstrumentPrompt { .. } | InputMode::WatchlistAddPrompt { .. } | InputMode::WatchlistRenamePrompt { .. } =>
                eff == KeyEffect::Nothing && prompt_key(a, key, b),
            InputMode::IndicatorPanel => if a.type_style_edit is Some {
                type_style_key(a, key, b, eff)
            } else {
                panel_key(a, key, b, eff)
            },
            InputMode::FrvpPlacing => eff == KeyEffect::Nothing && frvp_key(a, key, b),
            InputMode::AvpPlacing => eff == KeyEffect::Nothing && avp_key(a, key, b),
            InputMode::PaperPanel => eff == KeyEffect::Nothing && match key {
                Key::Char('?') => b == (App { help_open: !a.help_open, ..a }),
                Key::Esc => paper_panel_closed(a, b),
                Key::Char('q') => b == (App { should_quit: true, ..a }),
                _ => b == a,
            },
            InputMode::Normal => eff == KeyEffect::Nothing && normal_key(a, key, b),
        }
    }
}


/// In Normal mode on the workspace with help closed, `w` / `W` shows a hidden watchlist
/// sidebar and hides a shown one, and changes nothing else.
pub proof fn lemma_w_key_flips_sidebar<R>(a: App<R>, key: Key, b: App<R>, eff: KeyEffect)
    requires
        a.screen == Screen::Workspace,
        a.input_mode is Normal,
        !a.help_open,
        key == Key::Char('w') || key == Key::Char('W'),
        key_handled(a, key, b, eff),
    ensures
        b.watchlist_visible == !a.watchlist_visible,
        b == (App { watchlist_visible: b.watchlist_visible, ..a }),
        eff == KeyEffect::Nothing,
{
}

/// In Normal mode with help closed, `q` asks to quit and changes nothing else.
pub proof fn lemma_q_key_quits<R>(a: App<R>, b: App<R>, eff: KeyEffect)
    requires
        a.input_mode is Normal,
        !a.help_open,
        key_handled(a, Key::Char('q'), b, eff),
    ensures
        b.should_quit,
        b == (App { should_quit: true, ..a }),
{
}

/// In Normal mode with help closed, `?` opens the help overlay and changes nothing else;
/// with help open, `?` closes it again.
pub proof fn lemma_question_key_opens_help<R>(a: App<R>, b: App<R>, c: App<R>, e1: KeyEffect, e2: KeyEffect)
    requires
        a.input_mode is Normal,
        !a.help_open,
        key_handled(a, Key::Char('?'), b, e1),
        key_handled(b, Key::Char('?'), c, e2),
    ensures
        b.help_open,
        b == (App { help_open: true, ..a }),
        !c.help_open,
{
}

/// In Normal mode on the workspace, `l` asks for the other layout (single ↔ dual) and
/// changes nothing else; the layout itself changes when the engine confirms it.
pub proof fn lemma_l_key_asks_other_layout<R>(a: App<R>, b: App<R>, eff: KeyEffect)
    requires
        a.screen == Screen::Workspace,
        a.input_mode is Normal,
        !a.help_open,
        key_handled(a, Key::Char('l'), b, eff),
    ensures
        b.pending_layout matches Some(m) && m != a.layout,
        b == (App { pending_layout: b.pending_layout, ..a }),
{
}

/// In Normal mode on a workspace with two or more charts, Tab moves focus to another
/// chart (the next one, wrapping), and changes nothing else.
pub proof fn lemma_tab_moves_focus<R>(a: App<R>, b: App<R>, eff: KeyEffect)
    requires
        a.screen == Screen::Workspace,
        a.input_mode is Normal,
        !a.help_open,
        2 <= a.charts@.len() <= usize::MAX,
        a.focused < a.charts@.len(),
        key_handled(a, Key::Tab, b, eff),
    ensures
        b.focused < a.charts@.len(),
        b.focused != a.focused,
        a.focused + 1 < a.charts@.len() ==> b.focused == a.focused + 1,
        a.focused + 1 == a.charts@.len() ==> b.focused == 0,
        b == (App { focused: b.focused, ..a }),
{
    let n = a.charts@.len() as int;
    let f = a.focused as int;
    if f + 1 < n {
        assert((f + 1) % n == f + 1) by (nonlinear_arith)
            requires
                0 <= f + 1 < n,
        ;
    } else {
        vstd::arithmetic::div_mod::lemma_mod_self_0(n);
    }
    assert(((a.focused + 1) % (a.charts@.len() as int)) == (f + 1) % n);
}

/// In Normal mode on the workspace, `i` opens the instrument prompt with an empty buffer
/// and changes nothing else.
pub proof fn lemma_i_key_opens_instrument_prompt<R>(a: App<R>, b: App<R>, eff: KeyEffect)
    requires
        a.screen == Screen::Workspace,
        a.input_mode is Normal,
        !a.help_open,
        key_handled(a, Key::Char('i'), b, eff),
    ensures
        b.input_mode matches InputMode::InstrumentPrompt { buffer } && buffer@.len() == 0,
        b == (App { input_mode: b.input_mode, ..a }),
{
}

/// In Normal mode on the workspace, `o` opens the indicator panel on its Current list and
/// touches no chart.
pub proof fn lemma_o_key_opens_panel<R>(a: App<R>, b: App<R>, eff: KeyEffect)
    requires
        a.screen == Screen::Workspace,
        a.input_mode is Normal,
        !a.help_open,
        key_handled(a, Key::Char('o'), b, eff),
    ensures
        b.input_mode is IndicatorPanel,
        b.indicator_list_side == IndicatorListSide::Current,
        b.charts == a.charts,
        b.pending_indicators == a.pending_indicators,
{
}

/// In Normal mode on the workspace with two or more watchlists, `n` asks to activate the
/// next list and `p` the previous one (wrapping), naming a list other than the active one;
/// nothing else changes.
pub proof fn lemma_n_p_keys_ask_neighbour_list<R>(a: App<R>, key: Key, b: App<R>, eff: KeyEffect, cur: int)
    requires
        a.screen == Screen::Workspace,
        a.input_mode is Normal,
        !a.help_open,
        key == Key::Char('n') || key == Key::Char('p'),
        a.watchlists@.len() >= 2,
        0 <= cur < a.watchlists@.len(),
        a.watchlists@[cur].id@ == a.active_watchlist_id@,
        forall|j: int| 0 <= j < cur ==> a.watchlists@[j].id@ != a.active_watchlist_id@,
        key_handled(a, key, b, eff),
    ensures
        ({
            let n = a.watchlists@.len() as int;
            let next = if key == Key::Char('n') { (cur + 1) % n } else { (cur + n - 1) % n };
            if a.watchlists@[next].id@ != a.active_watchlist_id@ {
                &&& b.pending_watchlist matches Some(crate::app::PendingWatchlistOp::SetActive { watchlist_id })
                    && watchlist_id@ == a.watchlists@[next].id@
                &&& b == (App { pending_watchlist: b.pending_watchlist, ..a })
            } else {
                b == a
            }
        }),
{
    let ids = crate::app::watchlist_ids(a.watchlists@);
    assert forall|j: int| 0 <= j < cur implies ids[j] != a.active_watchlist_id@ by {
        assert(ids[j] == a.watchlists@[j].id@);
    }
    assert(ids[cur] == a.watchlists@[cur].id@);
    crate::app::lemma_first_index(ids, a.active_watchlist_id@, cur);
    let n = a.watchlists@.len() as int;
    assert((cur + (-1)) % n == (cur + n - 1) % n) by {
        vstd::arithmetic::div_mod::lemma_mod_add_multiples_vanish(cur - 1, n);
    }
}

/// In the indicator panel on the Current list, keys `1`, `2` and `3` flip the shown flag
/// of the selected volume profile's POC, VAH and VAL style respectively.
pub proof fn lemma_panel_level_keys<R>(a: App<R>, key: Key, b: App<R>, eff: KeyEffect, which: u8)
    requires
        a.wf(),
        !a.help_open,
        a.input_mode is IndicatorPanel,
        a.type_style_edit is None,
        a.indicator_list_side == IndicatorListSide::Current,
        current_row_ready(a),
        is_vp_kind(sel_cfg(a).indicator_type),
        (key == Key::Char('1') && which == 0) || (key == Key::Char('2') && which == 1)
            || (key == Key::Char('3') && which == 2),
        key_handled(a, key, b, eff),
    ensures
        eff == KeyEffect::Nothing,
        level_of(sel_cfg(a), which) matches Some(st) ==> (level_of(b.focused_spec().indicators@[sel_idx(a)], which) matches Some(t)
            && t.enabled == !st.enabled),
        forall|w: u8| w < 3 && w != which ==> level_of(b.focused_spec().indicators@[sel_idx(a)], w) == level_of(sel_cfg(a), w),
{
    lemma_vp_level_toggle_flips(a, which, b);
}

/// In the indicator panel (no style editor open), Esc closes the panel back to Normal mode
/// and leaves every chart and armed apply as it was.
pub proof fn lemma_panel_esc_closes<R>(a: App<R>, b: App<R>, eff: KeyEffect)
    requires
        !a.help_open,
        a.input_mode is IndicatorPanel,
        a.type_style_edit is None,
        key_handled(a, Key::Esc, b, eff),
    ensures
        b.input_mode is Normal,
        b.charts == a.charts,
        b.pending_indicators == a.pending_indicators,
        b == (App { input_mode: b.input_mode, ..a }),
{
}

/// In the indicator panel on the Current list, `x` removes the selected row (one config
/// fewer, its series gone) and `e` on a Fixed Range VP flips extend-to-right.
pub proof fn lemma_panel_remove_and_extend_keys<R>(a: App<R>, key: Key, b: App<R>, eff: KeyEffect)
    requires
        a.wf(),
        !a.help_open,
        a.input_mode is IndicatorPanel,
        a.type_style_edit is None,
        a.indicator_list_side == IndicatorListSide::Current,
        current_row_ready(a),
        key == Key::Char('x') || key == Key::Char('e'),
        key_handled(a, key, b, eff),
    ensures
        key == Key::Char('x') ==> b.focused_spec().indicators@.len() == a.focused_spec().indicators@.len() - 1
            && forall|j: int| 0 <= j < b.focused_spec().indicator_series@.len()
                ==> (#[trigger] b.focused_spec().indicator_series@[j]).0@ != sel_cfg(a).id@,
        key == Key::Char('e') && same_kind(sel_cfg(a).indicator_type, IndicatorKind::FixedRangeVp)
            ==> (b.focused_spec().indicators@[sel_idx(a)].extend_to_right == Some(true))
                == !(sel_cfg(a).extend_to_right == Some(true)),
{
    if key == Key::Char('x') {
        lemma_remove_selected_drops_it(a, b);
    } else if same_kind(sel_cfg(a).indicator_type, IndicatorKind::FixedRangeVp) {
        lemma_extend_toggle_flips(a, b);
    }
}

/// Enter on the Welcome screen opens the workspace: every chart reloads (Loading, live
/// tip) with chart interest armed, and nothing deferred stays pending.
pub proof fn lemma_enter_opens_workspace<R>(a: App<R>, b: App<R>, eff: KeyEffect)
    requires
        a.screen == Screen::Welcome,
        a.input_mode is Normal,
        !a.help_open,
        key_handled(a, Key::Enter, b, eff),
    ensures
        b.screen == Screen::Workspace,
        b.needs_chart_load,
        b.pending_workspace is None,
        b.pending_quotes@.len() == 0,
        forall|i: int| 0 <= i < b.charts@.len() ==> (#[trigger] b.charts@[i]).series == ChartSeriesState::<R>::Loading
            && b.charts@[i].pan_cursor_ts is None,
{
    let m = choose|m: App<R>| entered_via(a, m, b);
    assert(entered_via(a, m, b));
    assert forall|i: int| 0 <= i < b.charts@.len() implies (#[trigger] b.charts@[i]).series == ChartSeriesState::<R>::Loading
        && b.charts@[i].pan_cursor_ts is None by {
        assert(b.charts@[i] == crate::app::charts::reloaded(m.charts@[i]));
    }
}

/// In a prompt, Esc closes it back to Normal mode and arms nothing; Enter in the
/// instrument prompt sets the focused chart to the canonical id of the typed text
/// (trimmed, upper-cased) when that names another instrument.
pub proof fn lemma_prompt_esc_and_instrument_enter<R>(a: App<R>, key: Key, b: App<R>, eff: KeyEffect)
    requires
        a.wf(),
        !a.help_open,
        a.input_mode is InstrumentPrompt || a.input_mode is WatchlistAddPrompt || a.input_mode is WatchlistRenamePrompt,
        key == Key::Esc || (key == Key::Enter && a.input_mode is InstrumentPrompt),
        key_handled(a, key, b, eff),
    ensures
        key == Key::Esc ==> b == (App { input_mode: InputMode::Normal, ..a }),
        key == Key::Enter ==> b.input_mode is Normal && b.pending_watchlist == a.pending_watchlist
            && (b.focused_spec().instrument@ == a.focused_spec().instrument@
                || b.focused_spec().instrument@ == upper_seq(trim_seq(a.input_mode->InstrumentPrompt_buffer@))),
{
    if key == Key::Enter {
        let c = choose|c: bool| instrument_prompt_applied(a, c, b);
        assert(instrument_prompt_applied(a, c, b));
        if c {
            let n = App { input_mode: InputMode::Normal, ..a };
            assert(b.fidx() == n.fidx());
        }
    }
}

/// Pressing `w` twice in Normal mode on the workspace gives back the state it started from.
pub proof fn lemma_w_key_twice_restores<R>(a: App<R>, b: App<R>, c: App<R>, e1: KeyEffect, e2: KeyEffect)
    requires
        a.screen == Screen::Workspace,
        a.input_mode is Normal,
        !a.help_open,
        key_handled(a, Key::Char('w'), b, e1),
        key_handled(b, Key::Char('w'), c, e2),
    ensures
        c == a,
{
    lemma_w_key_flips_sidebar(a, Key::Char('w'), b, e1);
    lemma_w_key_flips_sidebar(b, Key::Char('w'), c, e2);
}

/// Apply key `key` to the workspace. Returns the real-valued work the key leaves to the
/// caller (type-style strength, box width). Enter on a Fixed Range end pin whose stored
/// start pin no longer names a bar is ignored.
pub fn handle_key<R: Copy>(app: &mut App<R>, key: Key) -> (eff: KeyEffect)
    requires
        old(app).wf(),
    ensures
        final(app).wf(),
        key_handled(*old(app), key, *final(app), eff),
{
    // Help overlay eats keys so underlying panels stay put.
    if app.help_open {
        match key {
            Key::Esc | Key::Enter | Key::Char('?') | Key::Char('h') | Key::Char('H') => app.close_help(),
            Key::Char('q') | Key::Char('Q') => app.quit(),
            _ => {},
        }
        return KeyEffect::Nothing;
    }
    match &app.input_mode {
        InputMode::InstrumentPrompt { .. } | InputMode::WatchlistAddPrompt { .. } | InputMode::WatchlistRenamePrompt { .. } => {
            let is_instrument = matches!(app.input_mode, InputMode::InstrumentPrompt { .. });
            let is_add = matches!(app.input_mode, InputMode::WatchlistAddPrompt { .. });
            match key {
                Key::Esc => app.cancel_prompt(),
                Key::Enter => {
                    if is_instrument {
                        let _ = app.apply_instrument_prompt();
                    } else if is_add {
                        let _ = app.apply_watchlist_add_prompt();
                    } else {
                        let _ = app.apply_watchlist_rename_prompt();
                    }
                },
                Key::Backspace => app.prompt_pop_char(),
                Key::Char(c) => app.prompt_push_char(c),
                _ => {},
            }
            KeyEffect::Nothing
        },
        InputMode::IndicatorPanel => {
            // The type-style editor owns keys until confirm / cancel.
            if app.type_style_edit.is_some() {
                return match key {
                    Key::Char('?') | Key::Char('h') | Key::Char('H') => {
                        app.toggle_help();
                        KeyEffect::Nothing
                    },
                    Key::Esc => {
                        app.type_style_cancel();
                        KeyEffect::Nothing
                    },
                    Key::Enter => {
                        app.type_style_confirm();
                        KeyEffect::Nothing
                    },
                    Key::Left | Key::Char('-') | Key::Char('_') => KeyEffect::NudgeTypeStyle(-1),
                    Key::Right | Key::Char('+') | Key::Char('=') => KeyEffect::NudgeTypeStyle(1),
                    Key::Char('q') => {
                        app.quit();
                        KeyEffect::Nothing
                    },
                    _ => KeyEffect::Nothing,
                };
            }
            panel_dispatch(app, key)
        },
        InputMode::FrvpPlacing => {
            match key {
                // `?` only for help — h/l are vim-style pin nudges here.
                Key::Char('?') => app.toggle_help(),
                Key::Esc => app.frvp_place_cancel(),
                Key::Left | Key::Char('h') | Key::Char('H') => app.frvp_place_move(-1),
                Key::Right | Key::Char('l') | Key::Char('L') => app.frvp_place_move(1),
                // Faster scrub across long histories.
                Key::Char('[') => app.frvp_place_move(-10),
                Key::Char(']') => app.frvp_place_move(10),
                Key::Enter | Key::Char(' ') => {
                    if app.frvp_start_pin_ok() {
                        app.frvp_place_confirm();
                    }
                },
                Key::Char('q') => app.quit(),
                _ => {},
            }
            KeyEffect::Nothing
        },
        InputMode::AvpPlacing => {
            match key {
                Key::Char('?') => app.toggle_help(),
                Key::Esc => app.avp_place_cancel(),
                Key::Left | Key::Char('h') | Key::Char('H') => app.avp_place_move(-1),
                Key::Right | Key::Char('l') | Key::Char('L') => app.avp_place_move(1),
                Key::Char('[') => app.avp_place_move(-10),
                Key::Char(']') => app.avp_place_move(10),
                Key::Char('9') => app.avp_place_snap_cash_open(),
                Key::Enter | Key::Char(' ') => app.avp_place_confirm(),
                Key::Char('q') => app.quit(),
                _ => {},
            }
            KeyEffect::Nothing
        },
        InputMode::PaperPanel => {
            match key {
                Key::Char('?') => app.toggle_help(),
                Key::Esc => app.close_paper_panel(),
                Key::Char('q') => app.quit(),
                _ => {},
            }
            KeyEffect::Nothing
        },
        InputMode::Normal => {
            normal_dispatch(app, key);
            KeyEffect::Nothing
        },
    }
}

/// Type key of the config at the raw Current-row index (empty when out of range).
fn raw_selected_is<R: Copy>(app: &App<R>, key: &str) -> (b: bool)
    requires
        app.wf(),
    ensures
        b == (raw_selected_key(*app) == key@),
{
    let i = app.focused_index();
    if app.indicator_selected < app.charts[i].indicators.len() {
        let k = app.charts[i].indicators[app.indicator_selected].indicator_type.key();
        assert(app.focused_spec() == app.charts@[i as int]);
        crate::text::str_eq(k.as_str(), key)
    } else {
        proof {
            reveal_strlit("");
            assert(""@ =~= Seq::<char>::empty());
        }
        crate::text::str_eq("", key)
    }
}

fn box_effect_exec(row: Option<usize>, steps: i64) -> (e: KeyEffect)
    ensures
        e == box_effect(row, steps),
{
    match row {
        Some(r) => KeyEffect::AdjustBoxWidth { row: r, steps },
        None => KeyEffect::Nothing,
    }
}

fn panel_dispatch<R: Copy>(app: &mut App<R>, key: Key) -> (eff: KeyEffect)
    requires
        old(app).wf(),
        !old(app).help_open,
        old(app).input_mode is IndicatorPanel,
        old(app).type_style_edit is None,
    ensures
        final(app).wf(),
        panel_key(*old(app), key, *final(app), eff),
{
    let current = app.indicator_list_side == IndicatorListSide::Current;
    match key {
        Key::Char('?') | Key::Char('h') | Key::Char('H') => app.toggle_help(),
        Key::Esc | Key::Char('o') | Key::Char('O') => app.close_indicator_panel(),
        // Tab switches Available ↔ Current (not dual chart focus).
        Key::Tab => app.indicator_toggle_list_side(),
        Key::Up => app.indicator_select_delta(-1),
        Key::Down => app.indicator_select_delta(1),
        // Space / Enter: Available = add; Current = on/off.
        Key::Char(' ') | Key::Enter => app.indicator_activate_selected(),
        Key::Char('c') => {
            if current {
                app.indicator_clear_except_volume();
            } else {
                return KeyEffect::OpenTypeStyle;
            }
        },
        Key::Char('C') => {
            if current {
                app.indicator_clear_except_volume();
            }
        },
        Key::Char('m') | Key::Char('M') => app.indicator_add_default_ma_stack(),
        Key::Char('v') | Key::Char('V') => app.indicator_add_volume(),
        Key::Char('p') | Key::Char('P') => app.indicator_add_session_vp(),
        Key::Char('f') | Key::Char('F') => app.indicator_add_fixed_range_vp(),
        Key::Char('a') | Key::Char('A') => app.indicator_add_anchored_vp(),
        Key::Char('y') | Key::Char('Y') => app.indicator_add_gex(),
        Key::Char('g') | Key::Char('G') => app.indicator_add_garch(),
        Key::Char(']') => app.cycle_timeframe(1),
        Key::Char('[') => app.cycle_timeframe(-1),
        Key::Char('q') => app.quit(),
        _ => {
            if current {
                return current_dispatch(app, key);
            }
        },
    }
    KeyEffect::Nothing
}

fn current_dispatch<R: Copy>(app: &mut App<R>, key: Key) -> (eff: KeyEffect)
    requires
        old(app).wf(),
    ensures
        final(app).wf(),
        current_list_key(*old(app), key, *final(app), eff),
{
    match key {
        Key::Char('r') | Key::Char('R') => {
            if raw_selected_is(app, "anchored_vp") {
                app.indicator_replace_avp_pin();
            } else if raw_selected_is(app, "fixed_range_vp") {
                app.indicator_replace_frvp_pins();
            }
        },
        Key::Char('e') | Key::Char('E') => app.indicator_toggle_frvp_extend(),
        Key::Char('9') => app.indicator_snap_avp_cash_open(),
        Key::Char(',') => {
            if raw_selected_is(app, "anchored_vp") {
                app.indicator_nudge_avp_anchor(-1);
            } else {
                app.indicator_nudge_frvp_anchor(0, -1);
            }
        },
        Key::Char('.') => {
            if raw_selected_is(app, "anchored_vp") {
                app.indicator_nudge_avp_anchor(1);
            } else {
                app.indicator_nudge_frvp_anchor(0, 1);
            }
        },
        Key::Char('<') => app.indicator_nudge_frvp_anchor(1, -1),
        Key::Char('>') => app.indicator_nudge_frvp_anchor(1, 1),
        Key::Char('x') | Key::Char('X') => app.indicator_remove_selected(),
        Key::Char('s') | Key::Char('S') => app.indicator_cycle_style(),
        Key::Char('+') | Key::Char('=') => {
            let row = app.indicator_adjust_length(1);
            return box_effect_exec(row, 1);
        },
        Key::Char('-') | Key::Char('_') => {
            let row = app.indicator_adjust_length(-1);
            return box_effect_exec(row, -1);
        },
        Key::Char('1') => app.indicator_toggle_vp_level(0),
        Key::Char('2') => app.indicator_toggle_vp_level(1),
        Key::Char('3') => app.indicator_toggle_vp_level(2),
        _ => {},
    }
    KeyEffect::Nothing
}

fn normal_dispatch<R: Copy>(app: &mut App<R>, key: Key)
    requires
        old(app).wf(),
        !old(app).help_open,
        old(app).input_mode is Normal,
    ensures
        final(app).wf(),
        normal_key(*old(app), key, *final(app)),
{
    let ws = app.screen == Screen::Workspace;
    match key {
        Key::Char('?') | Key::Char('h') | Key::Char('H') => app.toggle_help(),
        Key::Char('q') => app.quit(),
        Key::Esc => {
            if app.screen == Screen::Welcome {
                app.quit();
            }
        },
        // Welcome: Enter opens the workspace. Workspace: Enter / Space load the row.
        Key::Enter => {
            if app.screen == Screen::Welcome {
                app.enter_workspace();
            } else {
                let _ = app.load_selected_watchlist_symbol();
            }
        },
        _ => {
            if !ws {
                return;
            }
            match key {
                Key::Char(' ') => {
                    let _ = app.load_selected_watchlist_symbol();
                },
                Key::Char(']') => app.cycle_timeframe(1),
                Key::Char('[') => app.cycle_timeframe(-1),
                Key::Char('i') | Key::Char('I') => app.begin_instrument_prompt(),
                Key::Char('o') | Key::Char('O') => app.toggle_indicator_panel(),
                Key::Char('l') | Key::Char('L') => app.toggle_layout(),
                Key::Char('w') | Key::Char('W') => app.toggle_watchlist_sidebar(),
                Key::Char('n') | Key::Char('N') => app.cycle_watchlist(1),
                Key::Char('p') | Key::Char('P') => app.cycle_watchlist(-1),
                Key::Char('a') | Key::Char('A') => app.begin_watchlist_add_prompt(),
                Key::Char('r') | Key::Char('R') => app.begin_watchlist_rename_prompt(),
                Key::Char('x') | Key::Char('X') | Key::Char('d') | Key::Char('D') => app.remove_selected_watchlist_symbol(),
                Key::Up => app.watchlist_select_delta(-1),
                Key::Down => app.watchlist_select_delta(1),
                // Chart pan over loaded history. Pin modes own ← → above.
                Key::Left => app.pan_focused_chart(-1),
                Key::Right => app.pan_focused_chart(1),
                Key::Tab => app.focus_next(),
                _ => {},
            }
        },
    }
}

} // verus!
