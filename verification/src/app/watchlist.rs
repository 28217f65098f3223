//! Watchlist sidebar: active sheet, row selection, prompts, quotes.
use vstd::prelude::*;
use crate::app::{
    active_symbols_of, active_watchlist_index, clamped, first_index, lemma_first_index,
    lemma_first_index_range, lemma_upsert_keeps_symbols_distinct, normalize_instrument, normalized_instrument, quote_lookup,
    quote_symbols, quote_upserted, upsert_quote, watchlist_ids, watchlist_position, wrap_index,
    wrapped, App, InputMode, PendingWatchlistOp, Screen,
};
use crate::model::{QuoteRow, QuoteUpdateEvent, WatchlistSnapshot, WorkspaceSnapshot};
use crate::text::{
    is_ascii_lower, is_white_space, lemma_trim_edges, lemma_upper_char, trim, trim_seq, upper_char,
    upper_seq,
};

verus! {

/// `quotes` after storing each of `rows` in turn as the latest quote of its symbol.
pub open spec fn quotes_upserted_all<R>(quotes: Seq<QuoteRow<R>>, rows: Seq<QuoteRow<R>>) -> Seq<QuoteRow<R>>
    decreases rows.len(),
{
    if rows.len() == 0 {
        quotes
    } else {
        quote_upserted(quotes_upserted_all(quotes, rows.drop_last()), rows.last())
    }
}

/// Storing a batch of quotes keeps the stored symbols pairwise distinct.
pub proof fn lemma_upsert_all_keeps_symbols_distinct<R>(quotes: Seq<QuoteRow<R>>, rows: Seq<QuoteRow<R>>)
    requires
        quote_symbols(quotes).no_duplicates(),
    ensures
        quote_symbols(quotes_upserted_all(quotes, rows)).no_duplicates(),
    decreases rows.len(),
{
    if rows.len() > 0 {
        lemma_upsert_all_keeps_symbols_distinct(quotes, rows.drop_last());
        lemma_upsert_keeps_symbols_distinct(quotes_upserted_all(quotes, rows.drop_last()), rows.last());
    }
}

/// Active id after a watchlist refresh: the requested one when it names a list, else the first.
pub open spec fn chosen_active_id(wls: Seq<WatchlistSnapshot>, want: Seq<char>) -> Seq<char> {
    if want.len() > 0 && first_index(watchlist_ids(wls), want) >= 0 {
        want
    } else {
        wls[0].id@
    }
}

/// `b` is `a` after replacing the watchlists with `wls` (non-empty) and picking `want` as active.
pub open spec fn watchlists_replaced<R>(a: App<R>, wls: Seq<WatchlistSnapshot>, want: Seq<char>, b: App<R>) -> bool {
    &&& b.watchlists@ == wls
    &&& b.active_watchlist_id@ == chosen_active_id(wls, want)
    &&& b.watchlist_selected as int == clamped(
        a.watchlist_selected as int,
        active_symbols_of(wls, chosen_active_id(wls, want)).len() as int,
    )
}

/// The watchlist-row symbol an action applies to: the selected row, clamped to the list.
pub open spec fn selected_symbol<R>(a: App<R>) -> Seq<char> {
    let syms = active_symbols_of(a.watchlists@, a.active_watchlist_id@);
    syms[clamped(a.watchlist_selected as int, syms.len() as int)]@
}

/// Workspace in Normal mode with the watchlist sidebar shown and a non-empty active list.
pub open spec fn watchlist_row_ready<R>(a: App<R>) -> bool {
    &&& a.normal_workspace()
    &&& a.watchlist_visible
    &&& active_symbols_of(a.watchlists@, a.active_watchlist_id@).len() > 0
}

/// `b` is `a` after a watchlist mutation reply (lists and quotes; charts untouched).
pub open spec fn watchlist_state_taken<R>(a: App<R>, workspace: WorkspaceSnapshot<R>, quotes: Seq<QuoteRow<R>>, b: App<R>) -> bool {
    &&& workspace.watchlists@.len() > 0 ==> watchlists_replaced(a, workspace.watchlists@, workspace.active_watchlist_id@, b)
    &&& workspace.watchlists@.len() == 0 ==> b.watchlists == a.watchlists
        && b.active_watchlist_id == a.active_watchlist_id && b.watchlist_selected == a.watchlist_selected
    &&& b.quotes@ == quotes_upserted_all(a.quotes@, quotes)
    &&& b == (App {
        watchlists: b.watchlists,
        active_watchlist_id: b.active_watchlist_id,
        watchlist_selected: b.watchlist_selected,
        quotes: b.quotes,
        ..a
    })
}

/// `b` is `a` after cycling the active watchlist by `delta` (arms the engine call).
pub open spec fn watchlist_cycled<R>(a: App<R>, delta: int, b: App<R>) -> bool {
    let n = a.watchlists@.len() as int;
    let cur = if first_index(watchlist_ids(a.watchlists@), a.active_watchlist_id@) >= 0 {
        first_index(watchlist_ids(a.watchlists@), a.active_watchlist_id@)
    } else {
        0
    };
    let next = wrapped(cur, delta as int, n);
    if a.normal_workspace() && n >= 2 && a.watchlists@[next].id@ != a.active_watchlist_id@ {
        &&& b == (App { pending_watchlist: b.pending_watchlist, ..a })
        &&& b.pending_watchlist matches Some(PendingWatchlistOp::SetActive { watchlist_id })
            && watchlist_id@ == a.watchlists@[next].id@
    } else {
        b == a
    }
}

/// `b` is `a` after opening the watchlist add prompt.
pub open spec fn add_prompt_opened<R>(a: App<R>, b: App<R>) -> bool {
    &&& a.screen == Screen::Workspace && a.watchlist_visible ==> {
        &&& b == (App { input_mode: b.input_mode, ..a })
        &&& b.input_mode matches InputMode::WatchlistAddPrompt { buffer } && buffer@.len() == 0
    }
    &&& !(a.screen == Screen::Workspace && a.watchlist_visible) ==> b == a
}

/// `b` is `a` after Enter in the add prompt; `added` tells whether an add was armed.
pub open spec fn add_prompt_applied<R>(a: App<R>, added: bool, b: App<R>) -> bool {
    &&& match a.input_mode {
        InputMode::WatchlistAddPrompt { buffer } => {
            let sym = normalized_instrument(buffer@);
            &&& added == (sym.len() > 0)
            &&& b.input_mode == InputMode::Normal
            &&& added ==> (b.pending_watchlist matches Some(PendingWatchlistOp::Add { symbol }) && symbol@ == sym)
            &&& added ==> b == (App {
                input_mode: InputMode::Normal,
                pending_watchlist: b.pending_watchlist,
                ..a
            })
            &&& !added ==> b == (App { input_mode: InputMode::Normal, ..a })
        },
        _ => !added && b == a,
    }
}

/// Enter in the add prompt arms the canonical instrument id of the typed text: trimmed of
/// white space and upper-cased, so it holds no ASCII lowercase letter; nothing is armed for
/// text that is blank once trimmed, and the prompt closes either way.
pub proof fn lemma_add_prompt_arms_canonical_symbol<R>(a: App<R>, added: bool, b: App<R>)
    requires
        a.input_mode is WatchlistAddPrompt,
        add_prompt_applied(a, added, b),
    ensures
        b.input_mode is Normal,
        added <==> trim_seq(a.input_mode->WatchlistAddPrompt_buffer@).len() > 0,
        added ==> (b.pending_watchlist matches Some(PendingWatchlistOp::Add { symbol })
            && symbol@ == upper_seq(trim_seq(a.input_mode->WatchlistAddPrompt_buffer@))
            && symbol@.len() == trim_seq(a.input_mode->WatchlistAddPrompt_buffer@).len()
            && forall|i: int| 0 <= i < symbol@.len() ==> !is_ascii_lower(#[trigger] symbol@[i])),
        !added ==> b.pending_watchlist == a.pending_watchlist,
{
    let t = trim_seq(a.input_mode->WatchlistAddPrompt_buffer@);
    assert forall|i: int| 0 <= i < t.len() implies !is_ascii_lower(#[trigger] upper_seq(t)[i]) by {
        lemma_upper_char(t[i]);
        if is_ascii_lower(t[i]) {
            assert(65 <= (t[i] as u32) - 32 <= 90);
            assert(upper_char(t[i]) as u32 == (t[i] as u32) - 32);
        }
    }
}

/// Enter in the rename prompt arms the typed name trimmed of white space, which then
/// neither starts nor ends with white space; a blank name arms nothing and leaves the
/// prompt open.
pub proof fn lemma_rename_prompt_arms_trimmed_name<R>(a: App<R>, renamed: bool, b: App<R>)
    requires
        a.input_mode is WatchlistRenamePrompt,
        rename_prompt_applied(a, renamed, b),
    ensures
        renamed <==> trim_seq(a.input_mode->WatchlistRenamePrompt_buffer@).len() > 0,
        renamed ==> (b.pending_watchlist matches Some(PendingWatchlistOp::Rename { name })
            && name@ == trim_seq(a.input_mode->WatchlistRenamePrompt_buffer@)
            && !is_white_space(name@[0]) && !is_white_space(name@.last())),
        renamed ==> b.input_mode is Normal,
        !renamed ==> b == a,
{
    lemma_trim_edges(a.input_mode->WatchlistRenamePrompt_buffer@);
}

/// Moving the watchlist row selection down and then up again comes back to the row it
/// started from, wrapping at either end.
pub proof fn lemma_row_down_up_restores<R>(a: App<R>, b: App<R>, c: App<R>)
    requires
        a.normal_workspace(),
        a.watchlist_visible,
        (a.watchlist_selected as int) < active_symbols_of(a.watchlists@, a.active_watchlist_id@).len() <= usize::MAX,
        watchlist_row_moved(a, 1, b),
        watchlist_row_moved(b, -1, c),
    ensures
        c == a,
{
    let n = active_symbols_of(a.watchlists@, a.active_watchlist_id@).len() as int;
    let s = a.watchlist_selected as int;
    assert(clamped(s, n) == s);
    if s + 1 < n {
        assert((s + 1) % n == s + 1) by (nonlinear_arith)
            requires
                0 <= s + 1 < n,
        ;
        assert((s + 1 + (-1)) % n == s) by (nonlinear_arith)
            requires
                0 <= s < n,
        ;
        assert(b.watchlist_selected as int == s + 1);
        assert(clamped(s + 1, n) == s + 1);
    } else {
        vstd::arithmetic::div_mod::lemma_mod_self_0(n);
        assert((0 + (-1)) % n == n - 1) by (nonlinear_arith)
            requires
                n > 0,
        ;
        assert(b.watchlist_selected == 0);
        assert(clamped(0, n) == 0);
    }
}

/// After the watchlists are replaced by a non-empty set, the active id names one of the new
/// lists: the requested id when some list carries it, else the first list's id; and the row
/// selection never moves down and stays within the new active list.
pub proof fn lemma_refresh_keeps_active_list_named<R>(
    a: App<R>,
    wls: Seq<WatchlistSnapshot>,
    want: Seq<char>,
    b: App<R>,
)
    requires
        wls.len() > 0,
        watchlists_replaced(a, wls, want, b),
    ensures
        exists|j: int| 0 <= j < wls.len() && #[trigger] wls[j].id@ == b.active_watchlist_id@,
        forall|j: int|
            0 <= j < wls.len() && want.len() > 0 && #[trigger] wls[j].id@ == want
                ==> b.active_watchlist_id@ == want,
        (forall|j: int| 0 <= j < wls.len() ==> #[trigger] wls[j].id@ != want)
            ==> b.active_watchlist_id@ == wls[0].id@,
        b.watchlist_selected <= a.watchlist_selected,
        active_symbols_of(b.watchlists@, b.active_watchlist_id@).len() > 0
            ==> (b.watchlist_selected as int) < active_symbols_of(b.watchlists@, b.active_watchlist_id@).len(),
{
    let ids = watchlist_ids(wls);
    lemma_first_index_range(ids, want);
    let i = first_index(ids, want);
    if want.len() > 0 && i >= 0 {
        assert(ids[i] == wls[i].id@);
        assert(wls[i].id@ == b.active_watchlist_id@);
    } else {
        assert(wls[0].id@ == b.active_watchlist_id@);
        assert forall|j: int|
            0 <= j < wls.len() && want.len() > 0 && #[trigger] wls[j].id@ == want
            implies b.active_watchlist_id@ == want by {
            assert(ids[j] == wls[j].id@);
        }
    }
    assert forall|j: int| 0 <= j < wls.len() && want.len() > 0 && #[trigger] wls[j].id@ == want
        implies b.active_watchlist_id@ == want by {
        assert(ids[j] == wls[j].id@);
    }
    if forall|j: int| 0 <= j < wls.len() ==> #[trigger] wls[j].id@ != want {
        if i >= 0 {
            assert(ids[i] == wls[i].id@);
        }
    }
}

/// `b` is `a` after the remove key on the watchlist.
pub open spec fn row_removal_armed<R>(a: App<R>, b: App<R>) -> bool {
    &&& watchlist_row_ready(a) ==> {
        &&& b == (App { pending_watchlist: b.pending_watchlist, ..a })
        &&& b.pending_watchlist matches Some(PendingWatchlistOp::Remove { symbol })
            && symbol@ == selected_symbol(a)
    }
    &&& !watchlist_row_ready(a) ==> b == a
}

/// `b` is `a` after opening the rename prompt (prefilled with the active name).
pub open spec fn rename_prompt_opened<R>(a: App<R>, b: App<R>) -> bool {
    &&& a.normal_workspace() ==> {
        let i = active_watchlist_index(a.watchlists@, a.active_watchlist_id@);
        &&& b == (App { input_mode: b.input_mode, ..a })
        &&& b.input_mode matches InputMode::WatchlistRenamePrompt { buffer }
            && buffer@ == (if i >= 0 { a.watchlists@[i].name@ } else { Seq::<char>::empty() })
    }
    &&& !a.normal_workspace() ==> b == a
}

/// `b` is `a` after Enter in the rename prompt; `renamed` tells whether a rename was armed.
pub open spec fn rename_prompt_applied<R>(a: App<R>, renamed: bool, b: App<R>) -> bool {
    &&& match a.input_mode {
        InputMode::WatchlistRenamePrompt { buffer } => {
            let name = trim_seq(buffer@);
            &&& renamed == (name.len() > 0)
            &&& renamed ==> (b.pending_watchlist matches Some(PendingWatchlistOp::Rename { name: n }) && n@ == name)
            &&& renamed ==> b == (App {
                input_mode: InputMode::Normal,
                pending_watchlist: b.pending_watchlist,
                ..a
            })
            &&& !renamed ==> b == a
        },
        _ => !renamed && b == a,
    }
}

/// `b` is `a` after moving the watchlist row selection by `delta` (wraps).
pub open spec fn watchlist_row_moved<R>(a: App<R>, delta: int, b: App<R>) -> bool {
    let n = active_symbols_of(a.watchlists@, a.active_watchlist_id@).len() as int;
    if a.normal_workspace() && a.watchlist_visible {
        b == (App {
            watchlist_selected: (if n == 0 { 0 } else {
                wrapped(clamped(a.watchlist_selected as int, n), delta as int, n)
            }) as usize,
            ..a
        })
    } else {
        b == a
    }
}

impl<R: Copy> App<R> {
    pub fn active_watchlist(&self) -> (r: Option<&WatchlistSnapshot>)
        ensures
            active_watchlist_index(self.watchlists@, self.active_watchlist_id@) >= 0 ==> r == Some(
                &self.watchlists@[active_watchlist_index(self.watchlists@, self.active_watchlist_id@)],
            ),
            active_watchlist_index(self.watchlists@, self.active_watchlist_id@) < 0 ==> r is None,
    {
        proof {
            lemma_first_index_range(watchlist_ids(self.watchlists@), self.active_watchlist_id@);
        }
        match watchlist_position(&self.watchlists, &self.active_watchlist_id) {
            Some(i) => Some(&self.watchlists[i]),
            None => {
                if self.watchlists.len() > 0 {
                    Some(&self.watchlists[0])
                } else {
                    None
                }
            },
        }
    }

    pub fn active_symbols(&self) -> (r: &[String])
        ensures
            r@ == active_symbols_of(self.watchlists@, self.active_watchlist_id@),
    {
        match self.active_watchlist() {
            Some(wl) => wl.symbols.as_slice(),
            None => &[],
        }
    }

    /// Quote row for a symbol, if known.
    pub fn quote_for(&self, symbol: &str) -> (r: Option<&QuoteRow<R>>)
        ensures
            match quote_lookup(self.quotes@, symbol@) {
                Some(q) => r == Some(&q),
                None => r is None,
            },
    {
        let ghost ids = quote_symbols(self.quotes@);
        let mut i: usize = 0;
        while i < self.quotes.len()
            invariant
                i <= self.quotes@.len(),
                ids == quote_symbols(self.quotes@),
                forall|j: int| 0 <= j < i ==> ids[j] != symbol@,
            decreases self.quotes.len() - i,
        {
            if crate::text::str_eq(self.quotes[i].symbol.as_str(), symbol) {
                proof {
                    lemma_first_index(ids, symbol@, i as int);
                }
                return Some(&self.quotes[i]);
            }
            i += 1;
        }
        proof {
            lemma_first_index(ids, symbol@, i as int);
        }
        None
    }

    /// Cycle active watchlist by `delta` steps (wraps). Arms engine mutation.
    pub fn cycle_watchlist(&mut self, delta: i32)
        ensures
            watchlist_cycled(*old(self), delta as int, *final(self)),
    {
        if self.screen != Screen::Workspace {
            return;
        }
        if !matches!(self.input_mode, InputMode::Normal) {
            return;
        }
        if self.watchlists.len() < 2 {
            return;
        }
        proof {
            lemma_first_index_range(watchlist_ids(self.watchlists@), self.active_watchlist_id@);
        }
        let idx = match watchlist_position(&self.watchlists, &self.active_watchlist_id) {
            Some(i) => i,
            None => 0,
        };
        let next = wrap_index(idx, delta, self.watchlists.len());
        let id = self.watchlists[next].id.clone();
        if id == self.active_watchlist_id {
            return;
        }
        self.pending_watchlist = Some(PendingWatchlistOp::SetActive { watchlist_id: id });
    }

    pub fn begin_watchlist_add_prompt(&mut self)
        ensures
            add_prompt_opened(*old(self), *final(self)),
    {
        if self.screen != Screen::Workspace {
            return;
        }
        if !self.watchlist_visible {
            return;
        }
        self.input_mode = InputMode::WatchlistAddPrompt { buffer: String::new() };
    }

    /// Apply the add prompt: the normalized symbol is armed for the engine when non-empty.
    pub fn apply_watchlist_add_prompt(&mut self) -> (added: bool)
        ensures
            add_prompt_applied(*old(self), added, *final(self)),
    {
        let symbol = match &self.input_mode {
            InputMode::WatchlistAddPrompt { buffer } => normalize_instrument(buffer.as_str()),
            _ => {
                return false;
            },
        };
        self.input_mode = InputMode::Normal;
        if symbol.as_str().is_empty() {
            return false;
        }
        self.pending_watchlist = Some(PendingWatchlistOp::Add { symbol });
        true
    }

    pub fn remove_selected_watchlist_symbol(&mut self)
        ensures
            row_removal_armed(*old(self), *final(self)),
    {
        if self.screen != Screen::Workspace {
            return;
        }
        if !matches!(self.input_mode, InputMode::Normal) {
            return;
        }
        if !self.watchlist_visible {
            return;
        }
        let symbol = {
            let symbols = self.active_symbols();
            if symbols.len() == 0 {
                return;
            }
            let idx = if self.watchlist_selected < symbols.len() {
                self.watchlist_selected
            } else {
                symbols.len() - 1
            };
            symbols[idx].clone()
        };
        self.pending_watchlist = Some(PendingWatchlistOp::Remove { symbol });
    }

    /// Open rename prompt for the active watchlist (display name). Prefills current name.
    pub fn begin_watchlist_rename_prompt(&mut self)
        ensures
            rename_prompt_opened(*old(self), *final(self)),
    {
        if self.screen != Screen::Workspace {
            return;
        }
        if !matches!(self.input_mode, InputMode::Normal) {
            return;
        }
        let current = match self.active_watchlist() {
            Some(wl) => wl.name.clone(),
            None => String::new(),
        };
        self.input_mode = InputMode::WatchlistRenamePrompt { buffer: current };
    }

    /// Apply rename prompt. Empty (after trim) is rejected; arms engine rename when non-empty.
    pub fn apply_watchlist_rename_prompt(&mut self) -> (renamed: bool)
        ensures
            rename_prompt_applied(*old(self), renamed, *final(self)),
    {
        let name = match &self.input_mode {
            InputMode::WatchlistRenamePrompt { buffer } => trim(buffer.as_str()),
            _ => {
                return false;
            },
        };
        if name.as_str().is_empty() {
            // Stay in prompt so the user can correct; empty is never sent.
            return false;
        }
        self.input_mode = InputMode::Normal;
        self.pending_watchlist = Some(PendingWatchlistOp::Rename { name });
        true
    }

    pub fn watchlist_select_delta(&mut self, delta: i32)
        ensures
            watchlist_row_moved(*old(self), delta as int, *final(self)),
    {
        if self.screen != Screen::Workspace || !self.watchlist_visible {
            return;
        }
        if !matches!(self.input_mode, InputMode::Normal) {
            return;
        }
        let n = self.active_symbols().len();
        if n == 0 {
            self.watchlist_selected = 0;
            return;
        }
        let cur = if self.watchlist_selected < n {
            self.watchlist_selected
        } else {
            n - 1
        };
        self.watchlist_selected = wrap_index(cur, delta, n);
    }

    pub fn apply_quotes(&mut self, quotes: Vec<QuoteRow<R>>)
        ensures
            final(self).quotes@ == quotes_upserted_all(old(self).quotes@, quotes@),
            *final(self) == (App { quotes: final(self).quotes, ..*old(self) }),
            quote_symbols(old(self).quotes@).no_duplicates() ==> quote_symbols(final(self).quotes@).no_duplicates(),
    {
        proof {
            if quote_symbols(self.quotes@).no_duplicates() {
                lemma_upsert_all_keeps_symbols_distinct(self.quotes@, quotes@);
            }
        }
        let mut i: usize = 0;
        let ghost start = self.quotes@;
        let mut rest = quotes;
        let ghost all = rest@;
        assert(all.len() == rest.len());
        while rest.len() > 0
            invariant
                rest@ == all.subrange(i as int, all.len() as int),
                i <= all.len(),
                all.len() <= usize::MAX,
                self.quotes@ == quotes_upserted_all(start, all.subrange(0, i as int)),
                *self == (App { quotes: self.quotes, ..*old(self) }),
            decreases rest.len(),
        {
            let q = rest.remove(0);
            proof {
                assert(all.subrange(0, i + 1).drop_last() =~= all.subrange(0, i as int));
                assert(all.subrange(0, i + 1).last() == q);
            }
            upsert_quote(&mut self.quotes, q);
            i += 1;
            proof {
                assert(rest@ =~= all.subrange(i as int, all.len() as int));
            }
        }
        proof {
            assert(all.subrange(0, i as int) =~= all);
        }
    }

    pub fn apply_quote_update(&mut self, update: QuoteUpdateEvent<R>)
        ensures
            final(self).quotes@ == quote_upserted(old(self).quotes@, update.row_spec()),
            *final(self) == (App { quotes: final(self).quotes, ..*old(self) }),
            quote_symbols(old(self).quotes@).no_duplicates() ==> quote_symbols(final(self).quotes@).no_duplicates(),
    {
        proof {
            if quote_symbols(self.quotes@).no_duplicates() {
                lemma_upsert_keeps_symbols_distinct(self.quotes@, update.row_spec());
            }
        }
        let row = update.to_row();
        upsert_quote(&mut self.quotes, row);
    }

    /// Keep the watchlist row selection inside the active list.
    fn clamp_watchlist_selection(&mut self)
        ensures
            *final(self) == (App {
                watchlist_selected: clamped(
                    old(self).watchlist_selected as int,
                    active_symbols_of(old(self).watchlists@, old(self).active_watchlist_id@).len() as int,
                ) as usize,
                ..*old(self)
            }),
    {
        let n = self.active_symbols().len();
        if n == 0 {
            self.watchlist_selected = 0;
        } else if self.watchlist_selected >= n {
            self.watchlist_selected = n - 1;
        }
    }

    /// Take watchlists from `wls` (non-empty), choosing `want` as active when it names one.
    pub(crate) fn replace_watchlists(&mut self, wls: Vec<WatchlistSnapshot>, want: String)
        requires
            wls@.len() > 0,
        ensures
            watchlists_replaced(*old(self), wls@, want@, *final(self)),
            *final(self) == (App {
                watchlists: final(self).watchlists,
                active_watchlist_id: final(self).active_watchlist_id,
                watchlist_selected: final(self).watchlist_selected,
                ..*old(self)
            }),
    {
        self.watchlists = wls;
        let found = match watchlist_position(&self.watchlists, &want) {
            Some(_) => true,
            None => false,
        };
        if !want.as_str().is_empty() && found {
            self.active_watchlist_id = want;
        } else {
            self.active_watchlist_id = self.watchlists[0].id.clone();
        }
        self.clamp_watchlist_selection();
    }

    /// Watchlist mutation reply: refresh lists (not charts) and quotes.
    pub fn apply_watchlist_state(&mut self, workspace: WorkspaceSnapshot<R>, quotes: Vec<QuoteRow<R>>)
        ensures
            watchlist_state_taken(*old(self), workspace, quotes@, *final(self)),
            quote_symbols(old(self).quotes@).no_duplicates() ==> quote_symbols(final(self).quotes@).no_duplicates(),
    {
        // Watchlist mutations return a full workspace snapshot, but only membership /
        // active sheet / names change here; charts keep their live series.
        if workspace.watchlists.len() > 0 {
            self.replace_watchlists(workspace.watchlists, workspace.active_watchlist_id);
        }
        self.apply_quotes(quotes);
    }
}

} // verus!
