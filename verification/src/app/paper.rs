//! Paper desk panel: order side form, working-order selection, place / modify / cancel.
use vstd::prelude::*;
use crate::app::{
    first_index, quote_lookup, wrapped, App, InputMode, OrderSide, OrderSidePanel,
    PendingPaperOp, Screen, WorkingOrderKind,
};
use crate::model::{
    opt_str_is, FilledOrderRow, IpcEvent, QuoteUpdateEvent, PaperAccountSnapshot, PaperSnapshot, TradeMarkPin,
    WorkingOrderSnapshot,
};
use crate::text::{eq_ignore_ascii_case, eq_ignore_case, str_eq, trim, trim_seq};

verus! {

/// One horizontal price line drawn over a chart.
#[derive(Debug, Clone, PartialEq)]
pub struct OverlayLevel<R> {
    /// Overlay type the line belongs to (`working_order` for paper working orders).
    pub type_key: String,
    pub price: R,
    /// Horizontal extent in candle coordinates.
    pub x0: R,
    pub x1: R,
}

/// Price line of a working order: its limit for limit orders, its stop for stop orders;
/// market orders have none.
pub open spec fn line_price<R>(o: WorkingOrderSnapshot<R>) -> Option<R> {
    match kind_of(o.order_type@) {
        WorkingOrderKind::Market => None,
        WorkingOrderKind::Stop => o.stop,
        WorkingOrderKind::Limit => o.limit,
    }
}

/// Line prices of the working orders of `orders` on `inst` (ASCII case-insensitive), in order.
pub open spec fn working_line_prices<R>(orders: Seq<WorkingOrderSnapshot<R>>, inst: Seq<char>) -> Seq<R>
    decreases orders.len(),
{
    if orders.len() == 0 {
        seq![]
    } else {
        let rest = working_line_prices(orders.drop_last(), inst);
        if eq_ignore_case(orders.last().instrument@, inst) && line_price(orders.last()) is Some {
            rest.push(line_price(orders.last()).unwrap())
        } else {
            rest
        }
    }
}

/// Working orders of `orders` on instrument `inst` (ASCII case-insensitive), in order.
pub open spec fn orders_for<R>(orders: Seq<WorkingOrderSnapshot<R>>, inst: Seq<char>) -> Seq<WorkingOrderSnapshot<R>>
    decreases orders.len(),
{
    if orders.len() == 0 {
        seq![]
    } else if eq_ignore_case(orders.last().instrument@, inst) {
        orders_for(orders.drop_last(), inst).push(orders.last())
    } else {
        orders_for(orders.drop_last(), inst)
    }
}

/// Ids of a working-order list.
pub open spec fn order_ids<R>(orders: Seq<WorkingOrderSnapshot<R>>) -> Seq<Seq<char>> {
    orders.map_values(|o: WorkingOrderSnapshot<R>| o.id@)
}

/// Order side for a wire side: `sell` (any case) sells, anything else buys.
pub open spec fn side_of(side: Seq<char>) -> OrderSide {
    if eq_ignore_case(side, "sell"@) { OrderSide::Sell } else { OrderSide::Buy }
}

/// Order kind for a wire order type: `market`, `stop`, else limit.
pub open spec fn kind_of(order_type: Seq<char>) -> WorkingOrderKind {
    if order_type == "market"@ {
        WorkingOrderKind::Market
    } else if order_type == "stop"@ {
        WorkingOrderKind::Stop
    } else {
        WorkingOrderKind::Limit
    }
}

/// The form after following the selected working order of `paper` (a vanished order
/// clears the selection; a found one loads side, kind, quantity and stored prices).
pub open spec fn form_synced<R>(form: OrderSidePanel<R>, paper: PaperSnapshot<R>, b: OrderSidePanel<R>) -> bool {
    match form.selected_order_id {
        None => b == form,
        Some(id) => {
            let k = first_index(order_ids(paper.working_orders@), id@);
            if k < 0 {
                b == (OrderSidePanel { selected_order_id: None, ..form })
            } else {
                let wo = paper.working_orders@[k];
                b == (OrderSidePanel {
                    side: side_of(wo.side@),
                    kind: kind_of(wo.order_type@),
                    qty: wo.qty,
                    limit: match wo.limit { Some(l) => l, None => form.limit },
                    stop: match wo.stop { Some(s) => s, None => form.stop },
                    ..form
                })
            }
        },
    }
}

/// Selecting a working order loads it into the order form: the form keeps the selection
/// and takes the order's quantity, and its limit and stop prices where the order has them,
/// so that a modify sends the order's own prices back unless the trader edits them.
pub proof fn lemma_form_sync_loads_order<R>(form: OrderSidePanel<R>, paper: PaperSnapshot<R>, b: OrderSidePanel<R>, k: int)
    requires
        form_synced(form, paper, b),
        form.selected_order_id is Some,
        0 <= k < paper.working_orders@.len(),
        paper.working_orders@[k].id@ == form.selected_order_id->0@,
        forall|j: int| 0 <= j < k ==> paper.working_orders@[j].id@ != form.selected_order_id->0@,
    ensures
        b.selected_order_id == form.selected_order_id,
        b.qty == paper.working_orders@[k].qty,
        b.kind == kind_of(paper.working_orders@[k].order_type@),
        b.side == side_of(paper.working_orders@[k].side@),
        paper.working_orders@[k].stop matches Some(s) ==> b.stop == s,
        paper.working_orders@[k].limit matches Some(l) ==> b.limit == l,
        paper.working_orders@[k].stop is None ==> b.stop == form.stop,
        paper.working_orders@[k].limit is None ==> b.limit == form.limit,
{
    let ids = order_ids(paper.working_orders@);
    let id = form.selected_order_id->0@;
    assert forall|j: int| 0 <= j < k implies ids[j] != id by {
        assert(ids[j] == paper.working_orders@[j].id@);
    }
    assert(ids[k] == paper.working_orders@[k].id@);
    crate::app::lemma_first_index(ids, id, k);
}

/// `b` is `a` after submitting the order form; the positivity checks on the real-valued
/// quantity and prices come in as the flags `qty_positive`, `limit_positive`,
/// `stop_positive`.
pub open spec fn paper_submitted<R>(a: App<R>, qty_positive: bool, limit_positive: bool, stop_positive: bool, b: App<R>) -> bool {
    let f = a.order_side;
        if !(a.input_mode is PaperPanel) {
            b == a
        } else if !qty_positive {
            opt_str_is(b.last_paper_error, "qty must be > 0"@)
                && b == (App { last_paper_error: b.last_paper_error, ..a })
        } else if f.kind == WorkingOrderKind::Limit && !limit_positive {
            opt_str_is(b.last_paper_error, "limit is required"@)
                && b == (App { last_paper_error: b.last_paper_error, ..a })
        } else if f.kind == WorkingOrderKind::Stop && !stop_positive {
            opt_str_is(b.last_paper_error, "stop is required"@)
                && b == (App { last_paper_error: b.last_paper_error, ..a })
        } else {
            let limit = if f.kind == WorkingOrderKind::Limit { Some(f.limit) } else { None };
            let stop = if f.kind == WorkingOrderKind::Stop { Some(f.stop) } else { None };
            &&& b == (App { pending_paper: b.pending_paper, ..a })
            &&& match f.selected_order_id {
                Some(id) => b.pending_paper matches Some(PendingPaperOp::Modify { order_id, qty, limit: l, stop: s })
                    && order_id@ == id@ && qty == Some(f.qty) && l == limit && s == stop,
                None => b.pending_paper matches Some(PendingPaperOp::Place { instrument, side, order_type, qty, limit: l, stop: s })
                    && instrument@ == a.focused_spec().instrument@
                    && side@ == (if f.side == OrderSide::Buy { "buy"@ } else { "sell"@ })
                    && order_type@ == (match f.kind {
                        WorkingOrderKind::Market => "market"@,
                        WorkingOrderKind::Limit => "limit"@,
                        WorkingOrderKind::Stop => "stop"@,
                    })
                    && qty == f.qty && l == limit && s == stop,
            }
        }
}

/// The (limit, stop) prices an armed place or modify sends.
pub open spec fn sent_prices<R>(op: Option<PendingPaperOp<R>>) -> (Option<R>, Option<R>) {
    match op {
        Some(PendingPaperOp::Place { limit, stop, .. }) => (limit, stop),
        Some(PendingPaperOp::Modify { limit, stop, .. }) => (limit, stop),
        _ => (None, None),
    }
}

/// Submitting the order form sends the form's own prices: a limit order its limit and no
/// stop, a stop order its stop and no limit, a market order neither; a selected working
/// order is modified (by its id, with the form's quantity), otherwise a new order for the
/// focused instrument is placed. A non-positive quantity arms nothing.
pub proof fn lemma_submit_sends_form<R>(a: App<R>, q: bool, l: bool, st: bool, b: App<R>)
    requires
        a.input_mode is PaperPanel,
        paper_submitted(a, q, l, st, b),
    ensures
        !q ==> b.pending_paper == a.pending_paper,
        q && l && st ==> ({
            let f = a.order_side;
            let lim = sent_prices(b.pending_paper).0;
            let stp = sent_prices(b.pending_paper).1;
            &&& b.pending_paper is Some
            &&& (f.kind == WorkingOrderKind::Limit ==> lim == Some(f.limit) && stp is None)
            &&& (f.kind == WorkingOrderKind::Stop ==> stp == Some(f.stop) && lim is None)
            &&& (f.kind == WorkingOrderKind::Market ==> lim is None && stp is None)
            &&& (f.selected_order_id matches Some(id) ==> (b.pending_paper matches Some(
                PendingPaperOp::Modify { order_id, qty, .. },
            ) && order_id@ == id@ && qty == Some(f.qty)))
            &&& (f.selected_order_id is None ==> (b.pending_paper matches Some(
                PendingPaperOp::Place { instrument, qty, .. },
            ) && instrument@ == a.focused_spec().instrument@ && qty == f.qty))
        }),
{
}

/// Selecting a stop working order and submitting unchanged sends a modify of that order
/// with the order's own stop price.
pub proof fn lemma_modify_after_select_keeps_stop<R>(form: OrderSidePanel<R>, a: App<R>, b: App<R>, k: int, s: R)
    requires
        form.selected_order_id is Some,
        form_synced(form, a.paper, a.order_side),
        0 <= k < a.paper.working_orders@.len(),
        a.paper.working_orders@[k].id@ == form.selected_order_id->0@,
        forall|j: int| 0 <= j < k ==> a.paper.working_orders@[j].id@ != form.selected_order_id->0@,
        a.paper.working_orders@[k].order_type@ == "stop"@,
        a.paper.working_orders@[k].stop == Some(s),
        a.input_mode is PaperPanel,
        paper_submitted(a, true, true, true, b),
    ensures
        b.pending_paper matches Some(PendingPaperOp::Modify { order_id, stop, limit, .. })
            && order_id@ == form.selected_order_id->0@ && stop == Some(s) && limit is None,
{
    lemma_form_sync_loads_order(form, a.paper, a.order_side, k);
    reveal_strlit("stop");
    reveal_strlit("market");
    assert("stop"@ != "market"@) by {
        assert("stop"@.len() != "market"@.len());
    }
    assert(a.order_side.kind == WorkingOrderKind::Stop);
}

/// `b` is `a` after the engine reported `paper`.
pub open spec fn paper_applied<R>(a: App<R>, paper: PaperSnapshot<R>, b: App<R>) -> bool {
    &&& b.paper == paper
    &&& b.last_paper_error is None
    &&& form_synced(a.order_side, paper, b.order_side)
    &&& b == (App { paper: b.paper, last_paper_error: None, order_side: b.order_side, ..a })
}

/// Selection slot of the form among `[place] ++ orders` (0 = place a new order).
pub open spec fn selection_slot(sel: Option<String>, ids: Seq<Seq<char>>) -> int {
    match sel {
        None => 0,
        Some(id) => if first_index(ids, id@) >= 0 { first_index(ids, id@) + 1 } else { 0 },
    }
}

/// Ids of the working orders on the focused instrument, in order: the slots after
/// "place new" that the working-order selection steps through.
pub open spec fn focused_order_ids<R>(a: App<R>) -> Seq<Seq<char>> {
    order_ids(orders_for(a.paper.working_orders@, a.focused_spec().instrument@))
}

/// `b` is `a` after stepping the working-order selection by `delta` through
/// `[place new] ++` the focused instrument's working orders; a chosen order loads into the form.
pub open spec fn working_selection_stepped<R>(a: App<R>, delta: int, b: App<R>) -> bool {
    let ids = focused_order_ids(a);
    let n = ids.len() as int + 1;
    let next = wrapped(selection_slot(a.order_side.selected_order_id, ids), delta, n);
    if !(a.input_mode is PaperPanel) || delta == 0 {
        b == a
    } else if ids.len() == 0 {
        b == (App { order_side: OrderSidePanel { selected_order_id: None, ..a.order_side }, ..a })
    } else {
        &&& (next == 0 ==> form_synced(OrderSidePanel { selected_order_id: None, ..a.order_side }, a.paper, b.order_side))
        &&& (next > 0 ==> exists|sel: String| sel@ == ids[next - 1]
            && form_synced(OrderSidePanel { selected_order_id: Some(sel), ..a.order_side }, a.paper, b.order_side))
        &&& b == (App { order_side: b.order_side, ..a })
    }
}

/// Every working order listed for an instrument is one of the desk's working orders.
proof fn lemma_orders_for_member<R>(orders: Seq<WorkingOrderSnapshot<R>>, inst: Seq<char>, i: int)
    requires
        0 <= i < orders_for(orders, inst).len(),
    ensures
        exists|j: int| 0 <= j < orders.len() && #[trigger] orders[j] == orders_for(orders, inst)[i],
    decreases orders.len(),
{
    let rest = orders_for(orders.drop_last(), inst);
    if i < rest.len() {
        lemma_orders_for_member(orders.drop_last(), inst, i);
        let j = choose|j: int| 0 <= j < orders.drop_last().len() && #[trigger] orders.drop_last()[j] == rest[i];
        assert(orders[j] == orders.drop_last()[j]);
    } else {
        assert(orders[orders.len() - 1] == orders_for(orders, inst)[i]);
    }
}

/// The id of a working order listed for an instrument is found among the desk's order ids.
proof fn lemma_focused_id_found<R>(a: App<R>, i: int)
    requires
        0 <= i < focused_order_ids(a).len(),
    ensures
        first_index(order_ids(a.paper.working_orders@), focused_order_ids(a)[i]) >= 0,
{
    let orders = a.paper.working_orders@;
    let listed = orders_for(orders, a.focused_spec().instrument@);
    lemma_orders_for_member(orders, a.focused_spec().instrument@, i);
    let j = choose|j: int| 0 <= j < orders.len() && #[trigger] orders[j] == listed[i];
    let ids = order_ids(orders);
    assert(ids[j] == orders[j].id@);
    assert(focused_order_ids(a)[i] == listed[i].id@);
    crate::app::lemma_first_index_range(ids, focused_order_ids(a)[i]);
}

/// From "place new", stepping forward selects the first working order on the focused
/// instrument and stepping back selects the last one; from the last order, stepping forward
/// comes back to "place new" with the form otherwise kept.
pub proof fn lemma_selection_steps_wrap<R>(a: App<R>, fwd: App<R>, back: App<R>)
    requires
        a.input_mode is PaperPanel,
        a.order_side.selected_order_id is None,
        focused_order_ids(a).len() > 0,
        working_selection_stepped(a, 1, fwd),
        working_selection_stepped(a, -1, back),
    ensures
        fwd.order_side.selected_order_id matches Some(s) && s@ == focused_order_ids(a)[0],
        back.order_side.selected_order_id matches Some(s)
            && s@ == focused_order_ids(a)[focused_order_ids(a).len() - 1],
{
    let ids = focused_order_ids(a);
    let n = ids.len() as int + 1;
    assert(selection_slot(a.order_side.selected_order_id, ids) == 0);
    assert((0int + 1) % n == 1) by (nonlinear_arith)
        requires
            n >= 2,
    ;
    assert((0int + (-1)) % n == n - 1) by (nonlinear_arith)
        requires
            n >= 2,
    ;
    let s1 = choose|sel: String| sel@ == ids[0]
        && form_synced(OrderSidePanel { selected_order_id: Some(sel), ..a.order_side }, a.paper, fwd.order_side);
    lemma_focused_id_found(a, 0);
    let s2 = choose|sel: String| sel@ == ids[n - 2]
        && form_synced(OrderSidePanel { selected_order_id: Some(sel), ..a.order_side }, a.paper, back.order_side);
    lemma_focused_id_found(a, n - 2);
}

/// From the last working order on the focused instrument, stepping forward wraps to
/// "place new": the selection is cleared and the rest of the form is kept.
pub proof fn lemma_selection_step_past_last<R>(a: App<R>, b: App<R>, s: String)
    requires
        a.input_mode is PaperPanel,
        a.order_side.selected_order_id == Some(s),
        focused_order_ids(a).len() > 0,
        first_index(focused_order_ids(a), s@) == focused_order_ids(a).len() - 1,
        working_selection_stepped(a, 1, b),
    ensures
        b == (App { order_side: OrderSidePanel { selected_order_id: None, ..a.order_side }, ..a }),
{
    let ids = focused_order_ids(a);
    let n = ids.len() as int + 1;
    assert(selection_slot(a.order_side.selected_order_id, ids) == n - 1);
    assert((n - 1 + 1) % n == 0) by (nonlinear_arith)
        requires
            n >= 2,
    ;
}

/// `b` is `a` after the cancel key: cancellation of the selected working order is armed
/// (paper panel only); with no selection nothing changes.
pub open spec fn cancel_armed<R>(a: App<R>, b: App<R>) -> bool {
    match a.order_side.selected_order_id {
        Some(id) => if a.input_mode is PaperPanel {
            &&& b.pending_paper matches Some(PendingPaperOp::Cancel { order_id }) && order_id@ == id@
            &&& b == (App { pending_paper: b.pending_paper, ..a })
        } else {
            b == a
        },
        None => b == a,
    }
}

/// Stepping from "place new" to the first working order on the focused instrument and then
/// pressing cancel arms the cancellation of exactly that order, touching nothing else.
pub proof fn lemma_cancel_after_select_targets_order<R>(a: App<R>, m: App<R>, b: App<R>)
    requires
        a.input_mode is PaperPanel,
        a.order_side.selected_order_id is None,
        focused_order_ids(a).len() > 0,
        working_selection_stepped(a, 1, m),
        cancel_armed(m, b),
    ensures
        b.pending_paper matches Some(PendingPaperOp::Cancel { order_id }) && order_id@ == focused_order_ids(a)[0],
        b == (App { pending_paper: b.pending_paper, ..m }),
{
    let ids = focused_order_ids(a);
    let n = ids.len() as int + 1;
    assert(selection_slot(a.order_side.selected_order_id, ids) == 0);
    assert((0int + 1) % n == 1) by (nonlinear_arith)
        requires
            n >= 2,
    ;
    let s1 = choose|sel: String| sel@ == ids[0]
        && form_synced(OrderSidePanel { selected_order_id: Some(sel), ..a.order_side }, a.paper, m.order_side);
    lemma_focused_id_found(a, 0);
}

/// The order side the form starts with when the desk opens: buy, limit, preset quantity,
/// prices seeded from the focused instrument's last quote when there is one.
pub open spec fn fresh_form_seeded<R>(a: App<R>, f: OrderSidePanel<R>) -> bool {
    let q = quote_lookup(a.quotes@, a.focused_spec().instrument@);
    let seed = match q { Some(row) => row.last, None => None };
    &&& f.side == OrderSide::Buy
    &&& f.kind == WorkingOrderKind::Limit
    &&& f.qty == a.presets.order_qty
    &&& f.selected_order_id is None
    &&& f.limit == (match seed { Some(p) => p, None => a.presets.order_price_unset })
    &&& f.stop == (match seed { Some(p) => p, None => a.presets.order_price_unset })
}

/// Index of the first string of `v` equal to `s`.
fn string_position(v: &Vec<String>, s: &String) -> (r: Option<usize>)
    ensures
        match r {
            Some(i) => i as int == first_index(v@.map_values(|x: String| x@), s@) && i < v@.len(),
            None => first_index(v@.map_values(|x: String| x@), s@) == -1,
        },
{
    let ghost ids = v@.map_values(|x: String| x@);
    let mut i: usize = 0;
    while i < v.len()
        invariant
            i <= v@.len(),
            ids == v@.map_values(|x: String| x@),
            forall|j: int| 0 <= j < i ==> ids[j] != s@,
        decreases v.len() - i,
    {
        if v[i] == *s {
            proof {
                assert(ids[i as int] == v@[i as int]@);
                crate::app::lemma_first_index(ids, s@, i as int);
            }
            return Some(i);
        }
        i += 1;
    }
    proof {
        crate::app::lemma_first_index(ids, s@, i as int);
    }
    None
}

fn copy_opt_string(s: &Option<String>) -> (r: Option<String>)
    ensures
        r == *s,
{
    crate::model::clone_opt_string(s)
}

/// `b` is `a` after closing the paper panel.
pub open spec fn paper_panel_closed<R>(a: App<R>, b: App<R>) -> bool {
    &&& a.input_mode is PaperPanel ==> b == (App { input_mode: InputMode::Normal, ..a })
    &&& !(a.input_mode is PaperPanel) ==> b == a
}

/// `b` is `a` after the paper-panel key; `opened` tells whether it opened (with a fresh form).
pub open spec fn paper_panel_toggled<R>(a: App<R>, opened: bool, b: App<R>) -> bool {
    if a.help_open || a.screen != Screen::Workspace {
        !opened && b == a
    } else if a.input_mode is Normal {
        &&& opened
        &&& fresh_form_seeded(a, b.order_side)
        &&& b == (App { input_mode: InputMode::PaperPanel, order_side: b.order_side, ..a })
    } else if a.input_mode is PaperPanel {
        !opened && b == (App { input_mode: InputMode::Normal, ..a })
    } else {
        !opened && b == a
    }
}

/// `b` is `a` after the side key on a new-order form (buy ↔ sell).
pub open spec fn form_side_cycled<R>(a: App<R>, b: App<R>) -> bool {
    if a.input_mode is PaperPanel && a.order_side.selected_order_id is None {
        b == (App {
            order_side: OrderSidePanel {
                side: if a.order_side.side == OrderSide::Buy { OrderSide::Sell } else { OrderSide::Buy },
                ..a.order_side
            },
            ..a
        })
    } else {
        b == a
    }
}

/// The side key on a new-order form switches buy and sell; pressing it twice gives back
/// the form it started from. A form loaded from a working order keeps its side.
pub proof fn lemma_side_key_switches<R>(a: App<R>, b: App<R>, c: App<R>)
    requires
        form_side_cycled(a, b),
        form_side_cycled(b, c),
    ensures
        c == a,
        a.input_mode is PaperPanel && a.order_side.selected_order_id is None
            ==> b.order_side.side != a.order_side.side && b == (App { order_side: OrderSidePanel { side: b.order_side.side, ..a.order_side }, ..a }),
        a.order_side.selected_order_id is Some ==> b == a,
{
}

/// Opening the paper panel right after a live quote for the focused instrument seeds the
/// new-order form's limit and stop with that quote's last price: a fresh buy limit order
/// of the preset quantity, with no working order selected.
pub proof fn lemma_panel_seeds_last_quote<R>(a: App<R>, u: QuoteUpdateEvent<R>, m: App<R>, opened: bool, b: App<R>, p: R)
    requires
        crate::app::events::ipc_applied(a, IpcEvent::QuoteUpdate(u), m),
        u.symbol@ == a.focused_spec().instrument@,
        u.last == Some(p),
        a.screen == Screen::Workspace,
        a.input_mode is Normal,
        !a.help_open,
        paper_panel_toggled(m, opened, b),
    ensures
        opened,
        b.input_mode is PaperPanel,
        b.order_side.limit == p,
        b.order_side.stop == p,
        b.order_side.side == OrderSide::Buy,
        b.order_side.kind == WorkingOrderKind::Limit,
        b.order_side.qty == a.presets.order_qty,
        b.order_side.selected_order_id is None,
{
    crate::app::lemma_upsert_lookup(a.quotes@, u.row_spec(), u.symbol@);
    assert(m.focused_spec() == a.focused_spec());
}

impl<R: Copy> App<R> {
    /// Form fields loaded from the selected working order (see `form_synced`).
    fn sync_order_side_selection(&mut self)
        ensures
            form_synced(old(self).order_side, old(self).paper, final(self).order_side),
            *final(self) == (App { order_side: final(self).order_side, ..*old(self) }),
    {
        let id = match &self.order_side.selected_order_id {
            Some(id) => id.clone(),
            None => {
                return;
            },
        };
        let ghost ids = order_ids(self.paper.working_orders@);
        let mut k: usize = 0;
        while k < self.paper.working_orders.len()
            invariant
                k <= self.paper.working_orders@.len(),
                ids == order_ids(self.paper.working_orders@),
                *self == *old(self),
                old(self).order_side.selected_order_id == Some(id),
                forall|j: int| 0 <= j < k ==> ids[j] != id@,
            decreases self.paper.working_orders.len() - k,
        {
            if self.paper.working_orders[k].id == id {
                proof {
                    assert(ids[k as int] == self.paper.working_orders@[k as int].id@);
                    crate::app::lemma_first_index(ids, id@, k as int);
                }
                let side = if eq_ignore_ascii_case(self.paper.working_orders[k].side.as_str(), "sell") {
                    OrderSide::Sell
                } else {
                    OrderSide::Buy
                };
                let ot = self.paper.working_orders[k].order_type.as_str();
                let kind = if str_eq(ot, "market") {
                    WorkingOrderKind::Market
                } else if str_eq(ot, "stop") {
                    WorkingOrderKind::Stop
                } else {
                    WorkingOrderKind::Limit
                };
                self.order_side.side = side;
                self.order_side.kind = kind;
                self.order_side.qty = self.paper.working_orders[k].qty;
                match self.paper.working_orders[k].limit {
                    Some(l) => {
                        self.order_side.limit = l;
                    },
                    None => {},
                }
                match self.paper.working_orders[k].stop {
                    Some(s) => {
                        self.order_side.stop = s;
                    },
                    None => {},
                }
                return;
            }
            k += 1;
        }
        proof {
            crate::app::lemma_first_index(ids, id@, k as int);
        }
        self.order_side.selected_order_id = None;
    }

    pub fn apply_paper(&mut self, paper: PaperSnapshot<R>)
        ensures
            paper_applied(*old(self), paper, *final(self)),
    {
        self.paper = paper;
        self.last_paper_error = None;
        self.sync_order_side_selection();
    }

    pub fn active_paper_account(&self) -> (r: Option<&PaperAccountSnapshot<R>>)
        ensures
            r is Some ==> self.paper.active_account_id@.len() > 0 && r.unwrap().id@ == self.paper.active_account_id@
                && exists|i: int| 0 <= i < self.paper.accounts@.len() && #[trigger] self.paper.accounts@[i] == *r.unwrap()
                    && forall|j: int| 0 <= j < i ==> self.paper.accounts@[j].id@ != self.paper.active_account_id@,
            r is None ==> self.paper.active_account_id@.len() == 0
                || forall|j: int| 0 <= j < self.paper.accounts@.len() ==> self.paper.accounts@[j].id@ != self.paper.active_account_id@,
    {
        self.paper.active_account()
    }

    /// Instrument for place/modify: the **focused chart**, not the watchlist row.
    pub fn order_side_instrument(&self) -> (r: &str)
        requires
            self.wf(),
        ensures
            r@ == self.focused_spec().instrument@,
    {
        self.focused_chart().instrument.as_str()
    }

    pub fn working_orders_for_instrument(&self, instrument: &str) -> (r: Vec<&WorkingOrderSnapshot<R>>)
        ensures
            r@.len() == orders_for(self.paper.working_orders@, instrument@).len(),
            forall|k: int| 0 <= k < r@.len() ==> *(#[trigger] r@[k]) == orders_for(self.paper.working_orders@, instrument@)[k],
    {
        let orders = &self.paper.working_orders;
        let mut out: Vec<&WorkingOrderSnapshot<R>> = Vec::new();
        let mut i: usize = 0;
        while i < orders.len()
            invariant
                i <= orders@.len(),
                out@.len() == orders_for(orders@.subrange(0, i as int), instrument@).len(),
                forall|k: int| 0 <= k < out@.len() ==> *(#[trigger] out@[k]) == orders_for(orders@.subrange(0, i as int), instrument@)[k],
            decreases orders.len() - i,
        {
            assert(orders@.subrange(0, i + 1).drop_last() =~= orders@.subrange(0, i as int));
            if eq_ignore_ascii_case(orders[i].instrument.as_str(), instrument) {
                out.push(&orders[i]);
            }
            i += 1;
        }
        assert(orders@.subrange(0, orders@.len() as int) =~= orders@);
        out
    }

    /// Working price lines for one chart instrument, spanning `x0`..`x1`.
    pub fn working_overlay_levels(&self, instrument: &str, x0: R, x1: R) -> (r: Vec<OverlayLevel<R>>)
        ensures
            r@.len() == working_line_prices(self.paper.working_orders@, instrument@).len(),
            forall|k: int|
                0 <= k < r@.len() ==> (#[trigger] r@[k]).type_key@ == "working_order"@ && r@[k].price
                    == working_line_prices(self.paper.working_orders@, instrument@)[k] && r@[k].x0
                    == x0 && r@[k].x1 == x1,
    {
        let orders = &self.paper.working_orders;
        let mut out: Vec<OverlayLevel<R>> = Vec::new();
        let mut i: usize = 0;
        while i < orders.len()
            invariant
                i <= orders@.len(),
                orders@ == self.paper.working_orders@,
                out@.len() == working_line_prices(orders@.subrange(0, i as int), instrument@).len(),
                forall|k: int|
                    0 <= k < out@.len() ==> (#[trigger] out@[k]).type_key@ == "working_order"@
                        && out@[k].price == working_line_prices(orders@.subrange(0, i as int), instrument@)[k]
                        && out@[k].x0 == x0 && out@[k].x1 == x1,
            decreases orders.len() - i,
        {
            assert(orders@.subrange(0, i + 1).drop_last() =~= orders@.subrange(0, i as int));
            let o = &orders[i];
            if eq_ignore_ascii_case(o.instrument.as_str(), instrument) {
                let price = if str_eq(o.order_type.as_str(), "market") {
                    None
                } else if str_eq(o.order_type.as_str(), "stop") {
                    o.stop
                } else {
                    o.limit
                };
                assert(price == line_price(orders@[i as int]));
                match price {
                    Some(p) => {
                        out.push(OverlayLevel { type_key: String::from_str("working_order"), price: p, x0, x1 });
                    },
                    None => {},
                }
            }
            i += 1;
        }
        assert(orders@.subrange(0, orders@.len() as int) =~= orders@);
        out
    }

    /// Toggle the paper panel. Opening owns input focus like the indicator panel and
    /// starts a fresh form; returns whether it opened.
    pub fn toggle_paper_panel(&mut self) -> (opened: bool)
        requires
            old(self).wf(),
        ensures
            paper_panel_toggled(*old(self), opened, *final(self)),
    {
        if self.help_open {
            return false;
        }
        if self.screen != Screen::Workspace {
            return false;
        }
        if matches!(self.input_mode, InputMode::Normal) {
            self.input_mode = InputMode::PaperPanel;
            let mut form = OrderSidePanel::fresh(&self.presets);
            // A fresh form has no limit or stop price yet: both start at the last quote.
            let fi = self.focused_index();
            let seed = match self.quote_for(self.charts[fi].instrument.as_str()) {
                Some(q) => q.last,
                None => None,
            };
            match seed {
                Some(p) => {
                    form.limit = p;
                    form.stop = p;
                },
                None => {},
            }
            self.order_side = form;
            return true;
        }
        if matches!(self.input_mode, InputMode::PaperPanel) {
            self.input_mode = InputMode::Normal;
        }
        false
    }

    pub fn close_paper_panel(&mut self)
        ensures
            paper_panel_closed(*old(self), *final(self)),
    {
        if matches!(self.input_mode, InputMode::PaperPanel) {
            self.input_mode = InputMode::Normal;
        }
    }

    /// Flip buy / sell on a new-order form.
    pub fn paper_cycle_side(&mut self)
        ensures
            form_side_cycled(*old(self), *final(self)),
    {
        if !matches!(self.input_mode, InputMode::PaperPanel) {
            return;
        }
        if self.order_side.selected_order_id.is_some() {
            return;
        }
        self.order_side.side = match self.order_side.side {
            OrderSide::Buy => OrderSide::Sell,
            OrderSide::Sell => OrderSide::Buy,
        };
    }

    pub fn paper_set_side(&mut self, side: OrderSide)
        ensures
            ({
                let a = *old(self);
                if a.input_mode is PaperPanel && a.order_side.selected_order_id is None {
                    *final(self) == (App { order_side: OrderSidePanel { side, ..a.order_side }, ..a })
                } else {
                    *final(self) == a
                }
            }),
    {
        if !matches!(self.input_mode, InputMode::PaperPanel) {
            return;
        }
        if self.order_side.selected_order_id.is_some() {
            return;
        }
        self.order_side.side = side;
    }

    pub fn paper_set_kind(&mut self, kind: WorkingOrderKind)
        ensures
            ({
                let a = *old(self);
                if a.input_mode is PaperPanel && a.order_side.selected_order_id is None {
                    *final(self) == (App { order_side: OrderSidePanel { kind, ..a.order_side }, ..a })
                } else {
                    *final(self) == a
                }
            }),
    {
        if !matches!(self.input_mode, InputMode::PaperPanel) {
            return;
        }
        if self.order_side.selected_order_id.is_some() {
            return;
        }
        self.order_side.kind = kind;
    }

    /// Cycle the form through `[place new] ++` the working orders on the focused
    /// instrument; a selected order loads into the form.
    pub fn paper_select_working_delta(&mut self, delta: i32)
        requires
            old(self).wf(),
        ensures
            working_selection_stepped(*old(self), delta as int, *final(self)),
    {
        if !matches!(self.input_mode, InputMode::PaperPanel) {
            return;
        }
        if delta == 0 {
            return;
        }
        let fi = self.focused_index();
        let orders = self.working_orders_for_instrument(self.charts[fi].instrument.as_str());
        let ghost ids = order_ids(orders_for(self.paper.working_orders@, self.charts@[fi as int].instrument@));
        let mut ids_v: Vec<String> = Vec::new();
        let mut i: usize = 0;
        while i < orders.len()
            invariant
                i <= orders@.len(),
                ids.len() == orders@.len(),
                forall|k: int| 0 <= k < orders@.len() ==> (*orders@[k]).id@ == #[trigger] ids[k],
                ids_v@.len() == i,
                forall|k: int| 0 <= k < i ==> (#[trigger] ids_v@[k])@ == ids[k],
            decreases orders.len() - i,
        {
            ids_v.push(orders[i].id.clone());
            i += 1;
        }
        if ids_v.len() == 0 {
            self.order_side.selected_order_id = None;
            return;
        }
        let ghost view = ids_v@.map_values(|x: String| x@);
        proof {
            assert(view =~= ids);
        }
        let cur: usize = match &self.order_side.selected_order_id {
            None => 0,
            Some(sel) => match string_position(&ids_v, sel) {
                Some(p) => p + 1,
                None => 0,
            },
        };
        let n1: i128 = ids_v.len() as i128 + 1;
        let x: i128 = cur as i128 + delta as i128;
        let next: usize = match x.checked_rem_euclid(n1) {
            Some(v) => v as usize,
            None => 0,
        };
        if next == 0 {
            self.order_side.selected_order_id = None;
        } else {
            let chosen = ids_v[next - 1].clone();
            self.order_side.selected_order_id = Some(chosen);
            let ghost before = *self;
            self.sync_order_side_selection();
            proof {
                assert(form_synced(OrderSidePanel { selected_order_id: Some(chosen), ..old(self).order_side }, old(self).paper, self.order_side));
            }
            return;
        }
        self.sync_order_side_selection();
    }

    /// Arm place (no selection) or modify (selected order) from the form. Real-valued
    /// checks come in as flags: `qty_positive` (qty > 0), `limit_positive` (limit > 0),
    /// `stop_positive` (stop > 0).
    pub fn paper_submit(&mut self, qty_positive: bool, limit_positive: bool, stop_positive: bool)
        requires
            old(self).wf(),
        ensures
            paper_submitted(*old(self), qty_positive, limit_positive, stop_positive, *final(self)),
    {
        if !matches!(self.input_mode, InputMode::PaperPanel) {
            return;
        }
        if !qty_positive {
            self.last_paper_error = Some(String::from_str("qty must be > 0"));
            return;
        }
        let qty = self.order_side.qty;
        let (limit, stop) = match self.order_side.kind {
            WorkingOrderKind::Market => (None, None),
            WorkingOrderKind::Limit => {
                if !limit_positive {
                    self.last_paper_error = Some(String::from_str("limit is required"));
                    return;
                }
                (Some(self.order_side.limit), None)
            },
            WorkingOrderKind::Stop => {
                if !stop_positive {
                    self.last_paper_error = Some(String::from_str("stop is required"));
                    return;
                }
                (None, Some(self.order_side.stop))
            },
        };
        match copy_opt_string(&self.order_side.selected_order_id) {
            Some(order_id) => {
                self.pending_paper = Some(PendingPaperOp::Modify { order_id, qty: Some(qty), limit, stop });
            },
            None => {
                let instrument = String::from_str(self.order_side_instrument());
                let side = String::from_str(self.order_side.side.as_str());
                let order_type = String::from_str(self.order_side.kind.as_str());
                self.pending_paper = Some(PendingPaperOp::Place { instrument, side, order_type, qty, limit, stop });
            },
        }
    }

    /// Arm cancel of the selected working order.
    pub fn paper_cancel_selected(&mut self)
        ensures
            cancel_armed(*old(self), *final(self)),
    {
        if !matches!(self.input_mode, InputMode::PaperPanel) {
            return;
        }
        let order_id = match &self.order_side.selected_order_id {
            Some(id) => id.clone(),
            None => {
                return;
            },
        };
        self.pending_paper = Some(PendingPaperOp::Cancel { order_id });
    }
}

/// Trade mark `m` belongs to fill row `row`: same non-empty pair id, or same fill id.
pub open spec fn mark_matches_fill<R>(m: TradeMarkPin<R>, row: FilledOrderRow<R>) -> bool {
    (row.trade_mark_pair_id@.len() > 0 && m.pair_id@ == row.trade_mark_pair_id@) || m.fill_id@
        == row.id@
}

/// Visibility of the first trade mark of `app` that belongs to fill row `row`; `None` when the
/// row has neither a fill id nor a pair id, or when no mark belongs to it.
pub fn fill_trade_mark_visible<R>(app: &App<R>, row: &FilledOrderRow<R>) -> (r: Option<bool>)
    ensures
        ({
            let marks = app.paper.trade_marks@;
            if row.id@.len() == 0 && row.trade_mark_pair_id@.len() == 0 {
                r is None
            } else {
                match r {
                    Some(v) => exists|j: int|
                        0 <= j < marks.len() && mark_matches_fill(#[trigger] marks[j], *row) && v
                            == marks[j].visible && forall|k: int|
                            0 <= k < j ==> !mark_matches_fill(marks[k], *row),
                    None => forall|j: int|
                        0 <= j < marks.len() ==> !mark_matches_fill(#[trigger] marks[j], *row),
                }
            }
        }),
{
    let pair_empty = row.trade_mark_pair_id.as_str().unicode_len() == 0;
    if row.id.as_str().unicode_len() == 0 && pair_empty {
        return None;
    }
    let marks = &app.paper.trade_marks;
    let mut i: usize = 0;
    while i < marks.len()
        invariant
            i <= marks@.len(),
            marks@ == app.paper.trade_marks@,
            pair_empty == (row.trade_mark_pair_id@.len() == 0),
            !(row.id@.len() == 0 && pair_empty),
            forall|k: int| 0 <= k < i ==> !mark_matches_fill(#[trigger] marks@[k], *row),
        decreases marks.len() - i,
    {
        let m = &marks[i];
        if (!pair_empty && str_eq(m.pair_id.as_str(), row.trade_mark_pair_id.as_str())) || str_eq(
            m.fill_id.as_str(),
            row.id.as_str(),
        ) {
            assert(mark_matches_fill(marks@[i as int], *row));
            return Some(m.visible);
        }
        i += 1;
    }
    None
}

/// Asset-class restriction as shown in the paper settings: the trimmed text, or `(none)` when
/// absent or blank.
pub fn format_asset_class_restriction(restriction: Option<&str>) -> (r: String)
    ensures
        match restriction {
            Some(s) if trim_seq(s@).len() > 0 => r@ == trim_seq(s@),
            _ => r@ == "(none)"@,
        },
{
    match restriction {
        Some(s) => {
            let t = trim(s);
            if t.as_str().unicode_len() > 0 {
                t
            } else {
                String::from_str("(none)")
            }
        },
        None => String::from_str("(none)"),
    }
}

} // verus!
