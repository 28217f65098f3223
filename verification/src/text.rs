//! Character and string helpers: whitespace trimming, ASCII case mapping and
//! decimal rendering, each specified over `Seq<char>`.
use vstd::prelude::*;

verus! {

/// Unicode `White_Space` characters (the set `char::is_whitespace` accepts).
pub open spec fn is_white_space(c: char) -> bool {
    let u = c as u32;
    (0x09 <= u && u <= 0x0d) || u == 0x20 || u == 0x85 || u == 0xa0 || u == 0x1680 || (0x2000
        <= u && u <= 0x200a) || u == 0x2028 || u == 0x2029 || u == 0x202f || u == 0x205f || u
        == 0x3000
}

/// `c` is an ASCII lowercase letter.
pub open spec fn is_ascii_lower(c: char) -> bool {
    'a' <= c && c <= 'z'
}

/// `c` is an ASCII uppercase letter.
pub open spec fn is_ascii_upper(c: char) -> bool {
    'A' <= c && c <= 'Z'
}

/// ASCII uppercase of `c` (other characters unchanged).
pub open spec fn upper_char(c: char) -> char {
    if is_ascii_lower(c) {
        ((c as u32) - 32) as char
    } else {
        c
    }
}

/// ASCII lowercase of `c` (other characters unchanged).
pub open spec fn lower_char(c: char) -> char {
    if is_ascii_upper(c) {
        ((c as u32) + 32) as char
    } else {
        c
    }
}

/// ASCII uppercase of every character of `s`.
pub open spec fn upper_seq(s: Seq<char>) -> Seq<char> {
    s.map_values(|c: char| upper_char(c))
}

/// Index of the first non-white-space character of `s` (or `s.len()`).
pub open spec fn trim_start_index(s: Seq<char>) -> int
    decreases s.len(),
{
    if s.len() == 0 {
        0
    } else if is_white_space(s[0]) {
        1 + trim_start_index(s.drop_first())
    } else {
        0
    }
}

/// `s` without trailing white space.
pub open spec fn trim_end_seq(s: Seq<char>) -> Seq<char>
    decreases s.len(),
{
    if s.len() == 0 {
        s
    } else if is_white_space(s.last()) {
        trim_end_seq(s.drop_last())
    } else {
        s
    }
}

/// `s` without leading and trailing white space (`str::trim`).
pub open spec fn trim_seq(s: Seq<char>) -> Seq<char> {
    trim_end_seq(s.subrange(trim_start_index(s), s.len() as int))
}

/// ASCII case-insensitive equality (`eq_ignore_ascii_case`).
pub open spec fn eq_ignore_case(a: Seq<char>, b: Seq<char>) -> bool {
    a.len() == b.len() && forall|i: int| 0 <= i < a.len() ==> lower_char(#[trigger] a[i])
        == lower_char(b[i])
}

/// Decimal digits of `n` without leading zeros (`"0"` for zero).
pub open spec fn decimal(n: nat) -> Seq<char>
    decreases n,
{
    if n < 10 {
        seq![digit_char(n)]
    } else {
        decimal(n / 10).push(digit_char(n % 10))
    }
}

/// The ASCII digit for `d` in `0..=9`.
pub open spec fn digit_char(d: nat) -> char {
    (('0' as u32) + d) as char
}

/// `String::push` (std): appends `c` to `s`.
#[verifier::external_body]
pub(crate) fn push_char(s: &mut String, c: char)
    ensures
        final(s)@ == old(s)@.push(c),
{
    s.push(c);
}

/// Whether `c` is Unicode white space.
pub fn char_is_white_space(c: char) -> (b: bool)
    ensures
        b == is_white_space(c),
{
    let u = c as u32;
    (0x09 <= u && u <= 0x0d) || u == 0x20 || u == 0x85 || u == 0xa0 || u == 0x1680 || (0x2000
        <= u && u <= 0x200a) || u == 0x2028 || u == 0x2029 || u == 0x202f || u == 0x205f || u
        == 0x3000
}

/// ASCII uppercase of `c`.
pub fn char_to_upper(c: char) -> (r: char)
    ensures
        r == upper_char(c),
{
    if 'a' <= c && c <= 'z' {
        (((c as u32) - 32) as u8) as char
    } else {
        c
    }
}

/// ASCII lowercase of `c`.
pub fn char_to_lower(c: char) -> (r: char)
    ensures
        r == lower_char(c),
{
    if 'A' <= c && c <= 'Z' {
        (((c as u32) + 32) as u8) as char
    } else {
        c
    }
}

proof fn lemma_trim_start_bound(s: Seq<char>)
    ensures
        0 <= trim_start_index(s) <= s.len(),
    decreases s.len(),
{
    if s.len() > 0 && is_white_space(s[0]) {
        lemma_trim_start_bound(s.drop_first());
    }
}

proof fn lemma_trim_start_step(s: Seq<char>, i: int)
    requires
        0 <= i < s.len(),
        forall|j: int| 0 <= j < i ==> is_white_space(#[trigger] s[j]),
    ensures
        is_white_space(s[i]) ==> trim_start_index(s) > i,
        !is_white_space(s[i]) ==> trim_start_index(s) == i,
    decreases i,
{
    lemma_trim_start_bound(s.drop_first());
    if i > 0 {
        assert(is_white_space(s[0]));
        let t = s.drop_first();
        assert forall|j: int| 0 <= j < i - 1 implies is_white_space(#[trigger] t[j]) by {
            assert(t[j] == s[j + 1]);
        }
        lemma_trim_start_step(t, i - 1);
    }
}

proof fn lemma_trim_start_all(s: Seq<char>)
    requires
        forall|j: int| 0 <= j < s.len() ==> is_white_space(#[trigger] s[j]),
    ensures
        trim_start_index(s) == s.len(),
    decreases s.len(),
{
    if s.len() > 0 {
        let t = s.drop_first();
        assert forall|j: int| 0 <= j < t.len() implies is_white_space(#[trigger] t[j]) by {
            assert(t[j] == s[j + 1]);
        }
        lemma_trim_start_all(t);
    }
}

proof fn lemma_trim_end_step(s: Seq<char>, k: int)
    requires
        0 <= k <= s.len(),
        forall|j: int| k <= j < s.len() ==> is_white_space(#[trigger] s[j]),
    ensures
        trim_end_seq(s) == trim_end_seq(s.subrange(0, k)),
    decreases s.len() - k,
{
    if k < s.len() {
        assert(is_white_space(s.last()));
        let t = s.drop_last();
        assert forall|j: int| k <= j < t.len() implies is_white_space(#[trigger] t[j]) by {
            assert(t[j] == s[j]);
        }
        lemma_trim_end_step(t, k);
        assert(t.subrange(0, k) =~= s.subrange(0, k));
    } else {
        assert(s.subrange(0, k) =~= s);
    }
}

/// The first kept character of `s` is not white space.
proof fn lemma_trim_start_lands(s: Seq<char>)
    ensures
        trim_start_index(s) == s.len() || !is_white_space(s[trim_start_index(s)]),
    decreases s.len(),
{
    if s.len() > 0 && is_white_space(s[0]) {
        let t = s.drop_first();
        lemma_trim_start_lands(t);
        lemma_trim_start_bound(t);
        let k = trim_start_index(t);
        if k < t.len() {
            assert(t[k] == s[k + 1]);
        }
    }
}

/// `trim_end_seq(x)` is a prefix of `x` that ends in a non-white-space character, and it
/// keeps a first character that is not white space.
proof fn lemma_trim_end_shape(x: Seq<char>)
    ensures
        trim_end_seq(x).len() <= x.len(),
        trim_end_seq(x) =~= x.subrange(0, trim_end_seq(x).len() as int),
        trim_end_seq(x).len() == 0 || !is_white_space(trim_end_seq(x).last()),
        x.len() > 0 && !is_white_space(x[0]) ==> trim_end_seq(x).len() > 0,
    decreases x.len(),
{
    if x.len() > 0 && is_white_space(x.last()) {
        let t = x.drop_last();
        lemma_trim_end_shape(t);
        let r = trim_end_seq(t);
        assert(t.subrange(0, r.len() as int) =~= x.subrange(0, r.len() as int));
        if x.len() > 1 {
            assert(t[0] == x[0]);
        }
    } else {
        assert(x.subrange(0, x.len() as int) =~= x);
    }
}

/// The decimal rendering of a number has at least one digit.
pub proof fn lemma_decimal_nonempty(n: nat)
    ensures
        decimal(n).len() >= 1,
    decreases n,
{
    if n >= 10 {
        lemma_decimal_nonempty(n / 10);
    }
}

/// A number in `10..100` renders with exactly two digits.
pub proof fn lemma_decimal_two_digits(n: nat)
    requires
        10 <= n < 100,
    ensures
        decimal(n).len() == 2,
{
    assert(n / 10 < 10);
    assert(decimal(n / 10).len() == 1);
    assert(decimal(n) == decimal(n / 10).push(digit_char(n % 10)));
}

/// A trimmed sequence starts and ends with a character that is not white space.
pub proof fn lemma_trim_edges(s: Seq<char>)
    ensures
        trim_seq(s).len() == 0 || (!is_white_space(trim_seq(s)[0]) && !is_white_space(
            trim_seq(s).last(),
        )),
{
    let i = trim_start_index(s);
    lemma_trim_start_bound(s);
    lemma_trim_start_lands(s);
    let m = s.subrange(i, s.len() as int);
    lemma_trim_end_shape(m);
    let r = trim_end_seq(m);
    if r.len() > 0 {
        assert(r[0] == m[0]);
        assert(m[0] == s[i]);
    }
}

/// A sequence that neither starts nor ends with white space is its own trim.
pub proof fn lemma_trim_of_trimmed(s: Seq<char>)
    requires
        s.len() == 0 || (!is_white_space(s[0]) && !is_white_space(s.last())),
    ensures
        trim_seq(s) == s,
{
    assert(trim_start_index(s) == 0);
    assert(s.subrange(0, s.len() as int) =~= s);
}

/// ASCII upper-casing keeps white space status and is idempotent.
pub proof fn lemma_upper_char(c: char)
    ensures
        is_white_space(upper_char(c)) == is_white_space(c),
        upper_char(upper_char(c)) == upper_char(c),
{
    if is_ascii_lower(c) {
        let u = upper_char(c);
        assert(65 <= (c as u32) - 32 <= 90);
        assert(u as u32 == (c as u32) - 32);
    }
}

/// Upper-casing keeps the white space status of the first and last characters.
pub proof fn lemma_upper_seq_edges(s: Seq<char>)
    ensures
        upper_seq(s).len() == s.len(),
        s.len() > 0 ==> is_white_space(upper_seq(s)[0]) == is_white_space(s[0]),
        s.len() > 0 ==> is_white_space(upper_seq(s).last()) == is_white_space(s.last()),
        upper_seq(upper_seq(s)) == upper_seq(s),
{
    if s.len() > 0 {
        lemma_upper_char(s[0]);
        lemma_upper_char(s.last());
    }
    assert forall|j: int| 0 <= j < s.len() implies #[trigger] upper_seq(upper_seq(s))[j]
        == upper_seq(s)[j] by {
        lemma_upper_char(s[j]);
    }
    assert(upper_seq(upper_seq(s)) =~= upper_seq(s));
}

/// `raw` without leading and trailing white space (`str::trim`).
pub fn trim(raw: &str) -> (r: String)
    ensures
        r@ == trim_seq(raw@),
{
    let n = raw.unicode_len();
    let mut start: usize = 0;
    while start < n && char_is_white_space(raw.get_char(start))
        invariant
            n == raw@.len(),
            start <= n,
            forall|j: int| 0 <= j < start ==> is_white_space(#[trigger] raw@[j]),
        decreases n - start,
    {
        start += 1;
    }
    proof {
        lemma_trim_start_bound(raw@);
        if start < n {
            lemma_trim_start_step(raw@, start as int);
        } else {
            lemma_trim_start_all(raw@);
        }
    }
    let mut end: usize = n;
    while end > start && char_is_white_space(raw.get_char(end - 1))
        invariant
            n == raw@.len(),
            start <= end <= n,
            start == trim_start_index(raw@),
            forall|j: int| end <= j < n ==> is_white_space(#[trigger] raw@[j]),
        decreases end - start,
    {
        end -= 1;
    }
    let inner = raw.substring_char(start, end);
    proof {
        let t = raw@.subrange(start as int, n as int);
        assert forall|j: int| end - start <= j < t.len() implies is_white_space(#[trigger] t[j]) by {
            assert(t[j] == raw@[start + j]);
        }
        lemma_trim_end_step(t, end - start);
        assert(t.subrange(0, end - start) =~= raw@.subrange(start as int, end as int));
        if end > start {
            assert(!is_white_space(raw@[end - 1]));
            let u = raw@.subrange(start as int, end as int);
            assert(u.last() == raw@[end - 1]);
        } else {
            assert(raw@.subrange(start as int, end as int).len() == 0);
        }
    }
    String::from_str(inner)
}

/// ASCII uppercase copy of `s`.
pub fn to_ascii_upper(s: &str) -> (r: String)
    ensures
        r@ == upper_seq(s@),
{
    let n = s.unicode_len();
    let mut out = String::new();
    let mut i: usize = 0;
    while i < n
        invariant
            n == s@.len(),
            i <= n,
            out@ == upper_seq(s@.subrange(0, i as int)),
        decreases n - i,
    {
        let c = s.get_char(i);
        let u = char_to_upper(c);
        push_char(&mut out, u);
        i += 1;
        assert(upper_seq(s@.subrange(0, i as int)) =~= upper_seq(s@.subrange(0, i - 1)).push(u));
    }
    assert(s@.subrange(0, n as int) =~= s@);
    out
}

/// ASCII case-insensitive equality of `a` and `b`.
pub fn eq_ignore_ascii_case(a: &str, b: &str) -> (r: bool)
    ensures
        r == eq_ignore_case(a@, b@),
{
    let n = a.unicode_len();
    if n != b.unicode_len() {
        return false;
    }
    let mut i: usize = 0;
    while i < n
        invariant
            n == a@.len(),
            n == b@.len(),
            i <= n,
            forall|j: int| 0 <= j < i ==> lower_char(#[trigger] a@[j]) == lower_char(b@[j]),
        decreases n - i,
    {
        if char_to_lower(a.get_char(i)) != char_to_lower(b.get_char(i)) {
            return false;
        }
        i += 1;
    }
    true
}

/// Whether `a` and `b` hold the same characters.
pub fn str_eq(a: &str, b: &str) -> (r: bool)
    ensures
        r == (a@ == b@),
{
    let n = a.unicode_len();
    if n != b.unicode_len() {
        return false;
    }
    let mut i: usize = 0;
    while i < n
        invariant
            n == a@.len(),
            n == b@.len(),
            i <= n,
            forall|j: int| 0 <= j < i ==> a@[j] == b@[j],
        decreases n - i,
    {
        if a.get_char(i) != b.get_char(i) {
            return false;
        }
        i += 1;
    }
    assert(a@ =~= b@);
    true
}

/// ASCII digit for `d` (`d < 10`).
pub fn digit(d: u64) -> (c: char)
    requires
        d < 10,
    ensures
        c == digit_char(d as nat),
{
    ((d as u8) + 48) as char
}

/// Appends the decimal digits of `n` to `out`.
pub fn push_decimal(out: &mut String, n: u64)
    ensures
        final(out)@ == old(out)@ + decimal(n as nat),
    decreases n,
{
    if n < 10 {
        push_char(out, digit(n));
        assert(decimal(n as nat) == seq![digit_char(n as nat)]);
        assert(old(out)@.push(digit_char(n as nat)) =~= old(out)@ + seq![digit_char(n as nat)]);
    } else {
        push_decimal(out, n / 10);
        push_char(out, digit(n % 10));
        assert(decimal(n as nat) == decimal((n / 10) as nat).push(digit_char((n % 10) as nat)));
        assert(out@ =~= old(out)@ + decimal(n as nat));
    }
}

} // verus!
