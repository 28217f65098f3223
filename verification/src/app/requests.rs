//! Engine calls the workspace has armed, handed to the I/O loop in a fixed order.
use vstd::prelude::*;
use crate::app::{
    layout_key, App, PendingIndicatorsApply, PendingTypeStylesApply, PendingWatchlistOp,
};
use crate::model::ChartInterestRequest;

verus! {

/// One engine call to make.
#[derive(Debug, Clone, PartialEq)]
pub enum EngineRequest<R> {
    /// POST the layout mode (`single` / `dual-vertical`).
    Layout { mode: String },
    /// The armed watchlist mutation.
    Watchlist(PendingWatchlistOp),
    /// Full-replace indicator apply.
    Indicators(PendingIndicatorsApply<R>),
    /// Per-type style persist.
    TypeStyles(PendingTypeStylesApply<R>),
    /// Chart interest for one chart.
    ChartInterest(ChartInterestRequest),
}

/// `reqs` are the chart-interest calls for `charts`, one per chart in order.
pub open spec fn interest_for<R>(charts: Seq<crate::app::Chart<R>>, reqs: Seq<EngineRequest<R>>) -> bool {
    &&& reqs.len() == charts.len()
    &&& forall|i: int| 0 <= i < charts.len() ==> interest_is(#[trigger] reqs[i], charts[i])
}

/// `req` is the chart-interest call for `c`.
pub open spec fn interest_is<R>(req: EngineRequest<R>, c: crate::app::Chart<R>) -> bool {
    match req {
        EngineRequest::ChartInterest(r) => r.instrument@ == c.instrument@ && r.timeframe@ == c.timeframe@
            && r.chart_id == Some(c.id),
        _ => false,
    }
}

/// `reqs` holds, in order: the layout call, the watchlist call, the indicator apply and the
/// type-style persist when armed on `a`, then one interest call per chart when a load is
/// armed.
pub open spec fn requests_of<R>(a: App<R>, reqs: Seq<EngineRequest<R>>) -> bool {
    let n_layout: int = if a.pending_layout is Some { 1 } else { 0 };
    let n_wl: int = if a.pending_watchlist is Some { 1 } else { 0 };
    let n_ind: int = if a.pending_indicators is Some { 1 } else { 0 };
    let n_ts: int = if a.pending_type_styles is Some { 1 } else { 0 };
    let head = n_layout + n_wl + n_ind + n_ts;
    &&& reqs.len() >= head
    &&& (a.pending_layout matches Some(m) ==> (reqs[0] matches EngineRequest::Layout { mode } && mode@ == layout_key(m)))
    &&& (a.pending_watchlist matches Some(op) ==> reqs[n_layout] == EngineRequest::<R>::Watchlist(op))
    &&& (a.pending_indicators matches Some(p) ==> reqs[n_layout + n_wl] == EngineRequest::Indicators(p))
    &&& (a.pending_type_styles matches Some(p) ==> reqs[n_layout + n_wl + n_ind] == EngineRequest::TypeStyles(p))
    &&& (a.needs_chart_load ==> interest_for(a.charts@, reqs.subrange(head, reqs.len() as int)))
    &&& (!a.needs_chart_load ==> reqs.len() == head)
}

/// Every armed call is handed over exactly once: one request per armed layout, watchlist,
/// indicator and type-style call, plus one chart-interest request per chart (naming that
/// chart's id, instrument and timeframe) when a load is armed, and nothing else. With
/// nothing armed there is nothing to send.
pub proof fn lemma_requests_hand_over_each_armed_call<R>(a: App<R>, reqs: Seq<EngineRequest<R>>)
    requires
        requests_of(a, reqs),
    ensures
        reqs.len() == (if a.pending_layout is Some { 1int } else { 0 })
            + (if a.pending_watchlist is Some { 1int } else { 0 })
            + (if a.pending_indicators is Some { 1int } else { 0 })
            + (if a.pending_type_styles is Some { 1int } else { 0 })
            + (if a.needs_chart_load { a.charts@.len() as int } else { 0 }),
        a.pending_watchlist matches Some(op) ==> reqs.contains(EngineRequest::<R>::Watchlist(op)),
        a.pending_indicators matches Some(p) ==> reqs.contains(EngineRequest::Indicators(p)),
        a.pending_type_styles matches Some(p) ==> reqs.contains(EngineRequest::TypeStyles(p)),
        a.needs_chart_load ==> forall|i: int| #![trigger a.charts@[i]] 0 <= i < a.charts@.len() ==> exists|j: int| 0 <= j < reqs.len()
            && ((#[trigger] reqs[j]) matches EngineRequest::ChartInterest(r) && r.chart_id == Some(a.charts@[i].id)
            && r.instrument@ == a.charts@[i].instrument@ && r.timeframe@ == a.charts@[i].timeframe@),
{
    let n_layout: int = if a.pending_layout is Some { 1 } else { 0 };
    let n_wl: int = if a.pending_watchlist is Some { 1 } else { 0 };
    let n_ind: int = if a.pending_indicators is Some { 1 } else { 0 };
    let n_ts: int = if a.pending_type_styles is Some { 1 } else { 0 };
    let head = n_layout + n_wl + n_ind + n_ts;
    if a.pending_watchlist is Some {
        assert(reqs[n_layout] == EngineRequest::<R>::Watchlist(a.pending_watchlist->0));
    }
    if a.pending_indicators is Some {
        assert(reqs[n_layout + n_wl] == EngineRequest::Indicators(a.pending_indicators->0));
    }
    if a.pending_type_styles is Some {
        assert(reqs[n_layout + n_wl + n_ind] == EngineRequest::TypeStyles(a.pending_type_styles->0));
    }
    if a.needs_chart_load {
        let tail = reqs.subrange(head, reqs.len() as int);
        assert forall|i: int| #![trigger a.charts@[i]] 0 <= i < a.charts@.len() implies exists|j: int| 0 <= j < reqs.len()
            && ((#[trigger] reqs[j]) matches EngineRequest::ChartInterest(r) && r.chart_id == Some(a.charts@[i].id)
            && r.instrument@ == a.charts@[i].instrument@ && r.timeframe@ == a.charts@[i].timeframe@) by {
            assert(interest_is(tail[i], a.charts@[i]));
            assert(tail[i] == reqs[head + i]);
        }
    }
}

impl<R: Copy> App<R> {
    /// Hand over every armed engine call and disarm them (paper orders stay armed).
    pub fn take_engine_requests(&mut self) -> (reqs: Vec<EngineRequest<R>>)
        ensures
            requests_of(*old(self), reqs@),
            *final(self) == (App {
                pending_layout: None,
                pending_watchlist: None,
                pending_indicators: None,
                pending_type_styles: None,
                needs_chart_load: false,
                ..*old(self)
            }),
    {
        let mut reqs: Vec<EngineRequest<R>> = Vec::new();
        match self.pending_layout.take() {
            Some(m) => {
                reqs.push(EngineRequest::Layout { mode: String::from_str(m.as_str()) });
            },
            None => {},
        }
        match self.pending_watchlist.take() {
            Some(op) => {
                reqs.push(EngineRequest::Watchlist(op));
            },
            None => {},
        }
        match self.pending_indicators.take() {
            Some(p) => {
                reqs.push(EngineRequest::Indicators(p));
            },
            None => {},
        }
        match self.pending_type_styles.take() {
            Some(p) => {
                reqs.push(EngineRequest::TypeStyles(p));
            },
            None => {},
        }
        let head = reqs.len();
        let ghost before = reqs@;
        if self.needs_chart_load {
            self.needs_chart_load = false;
            let mut i: usize = 0;
            while i < self.charts.len()
                invariant
                    i <= self.charts@.len(),
                    self.charts == old(self).charts,
                    head <= 4,
                    reqs@.len() == head + i,
                    reqs@.subrange(0, head as int) == before,
                    before.len() == head,
                    interest_for(self.charts@.subrange(0, i as int), reqs@.subrange(head as int, reqs@.len() as int)),
                decreases self.charts.len() - i,
            {
                let r = ChartInterestRequest {
                    instrument: self.charts[i].instrument.clone(),
                    timeframe: self.charts[i].timeframe.clone(),
                    chart_id: Some(self.charts[i].id.clone()),
                };
                let ghost prev = reqs@;
                reqs.push(EngineRequest::ChartInterest(r));
                proof {
                    let old_tail = prev.subrange(head as int, prev.len() as int);
                    let tail = reqs@.subrange(head as int, reqs@.len() as int);
                    assert(reqs@.subrange(0, head as int) =~= before);
                    assert(tail =~= old_tail.push(EngineRequest::ChartInterest(r)));
                    let cs = self.charts@.subrange(0, i + 1);
                    assert forall|j: int| 0 <= j < i + 1 implies interest_is(#[trigger] tail[j], cs[j]) by {
                        if j < i {
                            assert(tail[j] == old_tail[j]);
                            assert(cs[j] == self.charts@.subrange(0, i as int)[j]);
                        }
                    }
                }
                i += 1;
            }
        }
        reqs
    }
}

} // verus!
