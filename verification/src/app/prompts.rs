//! Modal prompts (instrument, watchlist add / rename).
use vstd::prelude::*;
use crate::app::{App, InputMode, Screen};
use crate::app::charts::instrument_set;
use crate::text::{is_ascii_lower, lemma_upper_char, push_char, upper_char};

verus! {

/// Characters an instrument symbol may hold: ASCII letters and digits, `.`, `-`, `_`.
pub open spec fn symbol_char(c: char) -> bool {
    ('0' <= c <= '9') || ('a' <= c <= 'z') || ('A' <= c <= 'Z') || c == '.' || c == '-' || c == '_'
}

/// Characters a watchlist name may hold: printable ASCII and space.
pub open spec fn name_char(c: char) -> bool {
    ('!' <= c <= '~') || c == ' '
}

/// UTF-8 width of `c` in bytes.
pub open spec fn utf8_width(c: char) -> nat {
    if (c as u32) < 0x80 {
        1
    } else if (c as u32) < 0x800 {
        2
    } else if (c as u32) < 0x10000 {
        3
    } else {
        4
    }
}

/// UTF-8 length of `s` in bytes.
pub open spec fn utf8_len(s: Seq<char>) -> nat
    decreases s.len(),
{
    if s.len() == 0 {
        0
    } else {
        utf8_len(s.drop_last()) + utf8_width(s.last())
    }
}

proof fn lemma_utf8_len_grows(s: Seq<char>)
    ensures
        utf8_len(s) >= s.len(),
    decreases s.len(),
{
    if s.len() > 0 {
        lemma_utf8_len_grows(s.drop_last());
    }
}

/// Whether the UTF-8 length of `s` is below `limit`.
fn utf8_len_below(s: &str, limit: usize) -> (b: bool)
    requires
        0 < limit < usize::MAX - 4,
    ensures
        b == (utf8_len(s@) < limit),
{
    let n = s.unicode_len();
    let mut total: usize = 0;
    let mut i: usize = 0;
    while i < n
        invariant
            n == s@.len(),
            i <= n,
            total as int == utf8_len(s@.subrange(0, i as int)),
            total < limit,
            limit < usize::MAX - 4,
        decreases n - i,
    {
        let c = s.get_char(i);
        let u = c as u32;
        let w: usize = if u < 0x80 { 1 } else if u < 0x800 { 2 } else if u < 0x10000 { 3 } else { 4 };
        proof {
            assert(s@.subrange(0, i + 1).drop_last() =~= s@.subrange(0, i as int));
        }
        total = total + w;
        i += 1;
        if total >= limit {
            proof {
                lemma_utf8_prefix_monotone(s@, i as int);
            }
            return false;
        }
    }
    proof {
        assert(s@.subrange(0, n as int) =~= s@);
    }
    true
}

proof fn lemma_utf8_prefix_monotone(s: Seq<char>, i: int)
    requires
        0 <= i <= s.len(),
    ensures
        utf8_len(s.subrange(0, i)) <= utf8_len(s),
    decreases s.len() - i,
{
    if i < s.len() {
        lemma_utf8_prefix_monotone(s, i + 1);
        assert(s.subrange(0, i + 1).drop_last() =~= s.subrange(0, i));
    } else {
        assert(s.subrange(0, i) =~= s);
    }
}

/// `String::pop` (std): removes the last character of `s`, if any.
#[verifier::external_body]
fn pop_char(s: &mut String)
    ensures
        old(s)@.len() > 0 ==> final(s)@ == old(s)@.drop_last(),
        old(s)@.len() == 0 ==> final(s)@ == old(s)@,
{
    s.pop();
}

/// `b` is `a` with the prompt buffer typed into by `c`: instrument and add prompts take
/// symbol characters uppercased (16 bytes at most), the rename prompt printable ASCII as
/// typed (40 bytes at most); anything else is ignored.
pub open spec fn prompt_typed<R>(a: App<R>, c: char, b: App<R>) -> bool {
    match a.input_mode {
        InputMode::InstrumentPrompt { buffer } => if symbol_char(c) && utf8_len(buffer@) < 16 {
            b.input_mode matches InputMode::InstrumentPrompt { buffer: nb } && nb@ == buffer@.push(upper_char(c))
                && b == (App { input_mode: b.input_mode, ..a })
        } else {
            b == a
        },
        InputMode::WatchlistAddPrompt { buffer } => if symbol_char(c) && utf8_len(buffer@) < 16 {
            b.input_mode matches InputMode::WatchlistAddPrompt { buffer: nb } && nb@ == buffer@.push(upper_char(c))
                && b == (App { input_mode: b.input_mode, ..a })
        } else {
            b == a
        },
        InputMode::WatchlistRenamePrompt { buffer } => if name_char(c) && utf8_len(buffer@) < 40 {
            b.input_mode matches InputMode::WatchlistRenamePrompt { buffer: nb } && nb@ == buffer@.push(c)
                && b == (App { input_mode: b.input_mode, ..a })
        } else {
            b == a
        },
        _ => b == a,
    }
}

/// `b` is `a` with the last character of the prompt buffer removed (prompts only).
pub open spec fn prompt_backspaced<R>(a: App<R>, b: App<R>) -> bool {
    let cut = |s: Seq<char>| if s.len() > 0 { s.drop_last() } else { s };
    match a.input_mode {
        InputMode::InstrumentPrompt { buffer } =>
            b.input_mode matches InputMode::InstrumentPrompt { buffer: nb } && nb@ == cut(buffer@)
                && b == (App { input_mode: b.input_mode, ..a }),
        InputMode::WatchlistAddPrompt { buffer } =>
            b.input_mode matches InputMode::WatchlistAddPrompt { buffer: nb } && nb@ == cut(buffer@)
                && b == (App { input_mode: b.input_mode, ..a }),
        InputMode::WatchlistRenamePrompt { buffer } =>
            b.input_mode matches InputMode::WatchlistRenamePrompt { buffer: nb } && nb@ == cut(buffer@)
                && b == (App { input_mode: b.input_mode, ..a }),
        _ => b == a,
    }
}

/// Text of the instrument or add prompt buffer (empty in other modes).
pub open spec fn symbol_buffer(m: InputMode) -> Seq<char> {
    match m {
        InputMode::InstrumentPrompt { buffer } => buffer@,
        InputMode::WatchlistAddPrompt { buffer } => buffer@,
        _ => Seq::empty(),
    }
}

/// In the instrument and add prompts a typed symbol character is appended upper-cased, so
/// a buffer without ASCII lowercase letters stays without them; Backspace then takes the
/// character off again, giving back the text before it was typed.
pub proof fn lemma_symbol_typing_upper_and_undone<R>(a: App<R>, c: char, b: App<R>, d: App<R>)
    requires
        a.input_mode is InstrumentPrompt || a.input_mode is WatchlistAddPrompt,
        symbol_char(c),
        utf8_len(symbol_buffer(a.input_mode)) < 16,
        prompt_typed(a, c, b),
        prompt_backspaced(b, d),
    ensures
        symbol_buffer(b.input_mode).len() == symbol_buffer(a.input_mode).len() + 1,
        !is_ascii_lower(symbol_buffer(b.input_mode).last()),
        symbol_buffer(b.input_mode).drop_last() == symbol_buffer(a.input_mode),
        (forall|i: int| 0 <= i < symbol_buffer(a.input_mode).len() ==> !is_ascii_lower(#[trigger] symbol_buffer(a.input_mode)[i]))
            ==> (forall|i: int| 0 <= i < symbol_buffer(b.input_mode).len() ==> !is_ascii_lower(#[trigger] symbol_buffer(b.input_mode)[i])),
        symbol_buffer(d.input_mode) == symbol_buffer(a.input_mode),
        (a.input_mode is InstrumentPrompt) == (d.input_mode is InstrumentPrompt),
        d == (App { input_mode: d.input_mode, ..a }),
{
    lemma_upper_char(c);
    if is_ascii_lower(c) {
        assert(65 <= (c as u32) - 32 <= 90);
        assert(upper_char(c) as u32 == (c as u32) - 32);
    }
    let old_buf = symbol_buffer(a.input_mode);
    let new_buf = symbol_buffer(b.input_mode);
    assert(new_buf =~= old_buf.push(upper_char(c)));
    assert(new_buf.drop_last() =~= old_buf);
    if forall|i: int| 0 <= i < old_buf.len() ==> !is_ascii_lower(#[trigger] old_buf[i]) {
        assert forall|i: int| 0 <= i < new_buf.len() implies !is_ascii_lower(#[trigger] new_buf[i]) by {
            if i < old_buf.len() {
                assert(new_buf[i] == old_buf[i]);
            }
        }
    }
}

fn is_symbol_char(c: char) -> (b: bool)
    ensures
        b == symbol_char(c),
{
    ('0' <= c && c <= '9') || ('a' <= c && c <= 'z') || ('A' <= c && c <= 'Z') || c == '.' || c == '-' || c == '_'
}

fn is_name_char(c: char) -> (b: bool)
    ensures
        b == name_char(c),
{
    ('!' <= c && c <= '~') || c == ' '
}

/// `b` is `a` after opening the instrument prompt.
pub open spec fn instrument_prompt_opened<R>(a: App<R>, b: App<R>) -> bool {
    &&& a.screen == Screen::Workspace ==> {
        &&& b == (App { input_mode: b.input_mode, ..a })
        &&& b.input_mode matches InputMode::InstrumentPrompt { buffer } && buffer@.len() == 0
    }
    &&& a.screen != Screen::Workspace ==> b == a
}

/// `b` is `a` after Enter in the instrument prompt.
pub open spec fn instrument_prompt_applied<R>(a: App<R>, changed: bool, b: App<R>) -> bool {
    &&& match a.input_mode {
        InputMode::InstrumentPrompt { buffer } =>
            instrument_set(App { input_mode: InputMode::Normal, ..a }, buffer@, changed, b),
        _ => !changed && b == a,
    }
}

impl<R: Copy> App<R> {
    pub fn begin_instrument_prompt(&mut self)
        ensures
            instrument_prompt_opened(*old(self), *final(self)),
    {
        if self.screen != Screen::Workspace {
            return;
        }
        self.input_mode = InputMode::InstrumentPrompt { buffer: String::new() };
    }

    pub fn cancel_prompt(&mut self)
        ensures
            *final(self) == (App { input_mode: InputMode::Normal, ..*old(self) }),
    {
        self.input_mode = InputMode::Normal;
    }

    /// Same as `cancel_prompt`.
    pub fn cancel_instrument_prompt(&mut self)
        ensures
            *final(self) == (App { input_mode: InputMode::Normal, ..*old(self) }),
    {
        self.cancel_prompt();
    }

    pub fn prompt_push_char(&mut self, c: char)
        ensures
            prompt_typed(*old(self), c, *final(self)),
    {
        match &mut self.input_mode {
            InputMode::InstrumentPrompt { buffer } => {
                // Instruments are alnum; `.`, `-`, `_` allowed for vendor symbols.
                if is_symbol_char(c) && utf8_len_below(buffer.as_str(), 16) {
                    push_char(buffer, crate::text::char_to_upper(c));
                }
            },
            InputMode::WatchlistAddPrompt { buffer } => {
                if is_symbol_char(c) && utf8_len_below(buffer.as_str(), 16) {
                    push_char(buffer, crate::text::char_to_upper(c));
                }
            },
            InputMode::WatchlistRenamePrompt { buffer } => {
                // Display names: printable ASCII, including spaces; case preserved.
                if is_name_char(c) && utf8_len_below(buffer.as_str(), 40) {
                    push_char(buffer, c);
                }
            },
            _ => {},
        }
    }

    pub fn prompt_pop_char(&mut self)
        ensures
            prompt_backspaced(*old(self), *final(self)),
    {
        match &mut self.input_mode {
            InputMode::InstrumentPrompt { buffer } => {
                pop_char(buffer);
            },
            InputMode::WatchlistAddPrompt { buffer } => {
                pop_char(buffer);
            },
            InputMode::WatchlistRenamePrompt { buffer } => {
                pop_char(buffer);
            },
            _ => {},
        }
    }

    /// Apply the instrument prompt buffer. Returns true when interest changed.
    pub fn apply_instrument_prompt(&mut self) -> (changed: bool)
        requires
            old(self).wf(),
        ensures
            final(self).wf(),
            instrument_prompt_applied(*old(self), changed, *final(self)),
    {
        let raw = match &self.input_mode {
            InputMode::InstrumentPrompt { buffer } => buffer.clone(),
            _ => {
                return false;
            },
        };
        self.input_mode = InputMode::Normal;
        self.set_instrument(raw.as_str())
    }
}

} // verus!
