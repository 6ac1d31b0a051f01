//! Character-sequence utilities used by the analyzer: whitespace trimming,
//! literal comparison, quote stripping and the timeframe / session formats.

use vstd::prelude::*;

verus! {

broadcast use vstd::string::group_string_axioms;

/// The characters of a string slice, in order.
pub fn chars_of(s: &str) -> (r: Vec<char>)
    ensures
        r@ == s@,
{
    let mut out: Vec<char> = Vec::new();
    for c in it: s.chars()
        invariant
            out@ == it.seq().take(it.index() as int),
            it.seq() == s@,
    {
        out.push(c);
    }
    out
}

/// `std`'s `FromIterator<&char> for String`: the string of the given characters.
#[verifier::external_body]
pub fn string_of(chars: &[char]) -> (r: String)
    ensures
        r@ == chars@,
{
    chars.iter().collect()
}

/// Unicode `White_Space`, the set that `char::is_whitespace` tests.
pub open spec fn is_ws(c: char) -> bool {
    c == ' ' || ('\t' <= c && c <= '\r') || c == '\u{85}' || c == '\u{a0}' || c == '\u{1680}'
        || ('\u{2000}' <= c && c <= '\u{200a}') || c == '\u{2028}' || c == '\u{2029}'
        || c == '\u{202f}' || c == '\u{205f}' || c == '\u{3000}'
}

pub fn is_whitespace(c: char) -> (r: bool)
    ensures
        r == is_ws(c),
{
    c == ' ' || ('\t' <= c && c <= '\r') || c == '\u{85}' || c == '\u{a0}' || c == '\u{1680}'
        || ('\u{2000}' <= c && c <= '\u{200a}') || c == '\u{2028}' || c == '\u{2029}'
        || c == '\u{202f}' || c == '\u{205f}' || c == '\u{3000}'
}

pub open spec fn is_digit(c: char) -> bool {
    '0' <= c && c <= '9'
}

/// The sequence without its leading whitespace (`str::trim_start`).
pub open spec fn trim_start(s: Seq<char>) -> Seq<char>
    decreases s.len(),
{
    if s.len() > 0 && is_ws(s[0]) {
        trim_start(s.drop_first())
    } else {
        s
    }
}

/// The sequence without its trailing whitespace (`str::trim_end`).
pub open spec fn trim_end(s: Seq<char>) -> Seq<char>
    decreases s.len(),
{
    if s.len() > 0 && is_ws(s.last()) {
        trim_end(s.drop_last())
    } else {
        s
    }
}

/// `str::trim`.
pub open spec fn trim(s: Seq<char>) -> Seq<char> {
    trim_end(trim_start(s))
}

/// The sequence with every whitespace character removed.
pub open spec fn strip_ws(s: Seq<char>) -> Seq<char>
    decreases s.len(),
{
    if s.len() == 0 {
        s
    } else if is_ws(s.last()) {
        strip_ws(s.drop_last())
    } else {
        strip_ws(s.drop_last()).push(s.last())
    }
}

pub proof fn lemma_strip_ws_len(s: Seq<char>)
    ensures
        strip_ws(s).len() <= s.len(),
    decreases s.len(),
{
    if s.len() > 0 {
        lemma_strip_ws_len(s.drop_last());
    }
}

/// Bounds `(a, b)` with `start <= a <= b <= end` such that `v[a..b]` is
/// `trim(v[start..end])`.
pub fn trim_bounds(v: &Vec<char>, start: usize, end: usize) -> (r: (usize, usize))
    requires
        start <= end <= v@.len(),
    ensures
        start <= r.0 <= r.1 <= end,
        v@.subrange(r.0 as int, r.1 as int) == trim(v@.subrange(start as int, end as int)),
        v@.subrange(r.0 as int, end as int) == trim_start(v@.subrange(start as int, end as int)),
{
    let mut a = start;
    while a < end && is_whitespace(v[a])
        invariant
            start <= a <= end <= v@.len(),
            trim_start(v@.subrange(start as int, end as int)) == trim_start(
                v@.subrange(a as int, end as int),
            ),
        decreases end - a,
    {
        assert(v@.subrange(a as int, end as int).drop_first() =~= v@.subrange(
            a + 1,
            end as int,
        ));
        a = a + 1;
    }
    let mut b = end;
    while b > a && is_whitespace(v[b - 1])
        invariant
            start <= a <= b <= end <= v@.len(),
            trim_end(v@.subrange(a as int, end as int)) == trim_end(v@.subrange(a as int, b as int)),
        decreases b - a,
    {
        assert(v@.subrange(a as int, b as int).drop_last() =~= v@.subrange(a as int, b - 1));
        b = b - 1;
    }
    (a, b)
}

/// The characters of `v[start..end]` without whitespace.
pub fn strip_whitespace(v: &Vec<char>, start: usize, end: usize) -> (r: Vec<char>)
    requires
        start <= end <= v@.len(),
    ensures
        r@ == strip_ws(v@.subrange(start as int, end as int)),
{
    let mut out: Vec<char> = Vec::new();
    let mut i = start;
    while i < end
        invariant
            start <= i <= end <= v@.len(),
            out@ == strip_ws(v@.subrange(start as int, i as int)),
        decreases end - i,
    {
        assert(v@.subrange(start as int, i + 1).drop_last() =~= v@.subrange(start as int, i as int));
        if !is_whitespace(v[i]) {
            out.push(v[i]);
        }
        i = i + 1;
    }
    out
}

/// Whether `v[start..end]` spells the literal `lit`.
pub fn range_is(v: &Vec<char>, start: usize, end: usize, lit: &str) -> (r: bool)
    requires
        start <= end <= v@.len(),
    ensures
        r == (v@.subrange(start as int, end as int) == lit@),
{
    let n = lit.unicode_len();
    if end - start != n {
        return false;
    }
    let mut i: usize = 0;
    while i < n
        invariant
            n == lit@.len(),
            end - start == n,
            start <= end <= v@.len(),
            i <= n,
            forall|j: int| 0 <= j < i ==> v@[start + j] == lit@[j],
        decreases n - i,
    {
        if v[start + i] != lit.get_char(i) {
            assert(v@.subrange(start as int, end as int)[i as int] != lit@[i as int]);
            return false;
        }
        i = i + 1;
    }
    assert(v@.subrange(start as int, end as int) =~= lit@);
    true
}

/// Whether the whole of `v` spells the literal `lit`.
pub fn chars_are(v: &Vec<char>, lit: &str) -> (r: bool)
    ensures
        r == (v@ == lit@),
{
    assert(v@.subrange(0, v@.len() as int) =~= v@);
    range_is(v, 0, v.len(), lit)
}

/// Whether two character vectors are equal.
pub fn chars_eq(a: &Vec<char>, b: &Vec<char>) -> (r: bool)
    ensures
        r == (a@ == b@),
{
    if a.len() != b.len() {
        return false;
    }
    let mut i: usize = 0;
    while i < a.len()
        invariant
            a@.len() == b@.len(),
            i <= a@.len(),
            forall|j: int| 0 <= j < i ==> a@[j] == b@[j],
        decreases a@.len() - i,
    {
        if a[i] != b[i] {
            return false;
        }
        i = i + 1;
    }
    assert(a@ =~= b@);
    true
}

/// Whether `v[start..]` begins with the literal `lit`.
pub fn range_starts_with(v: &Vec<char>, start: usize, end: usize, lit: &str) -> (r: bool)
    requires
        start <= end <= v@.len(),
    ensures
        r == (lit@.len() <= end - start && v@.subrange(start as int, start + lit@.len()) == lit@),
{
    let n = lit.unicode_len();
    if n > end - start {
        return false;
    }
    assert(v@.subrange(start as int, (start + n) as int) == v@.subrange(start as int, start + lit@.len()));
    range_is(v, start, start + n, lit)
}

/// Whether `s` is wrapped in a pair of double or single quotes.
pub open spec fn is_quoted(s: Seq<char>) -> bool {
    s.len() >= 2 && ((s[0] == '"' && s.last() == '"') || (s[0] == '\'' && s.last() == '\''))
}

/// The text of a string literal without its surrounding quotes.
pub open spec fn unquote(s: Seq<char>) -> Seq<char> {
    if is_quoted(s) {
        s.subrange(1, s.len() - 1)
    } else {
        s
    }
}

/// Bounds of `unquote(v[start..end])` inside `v`.
pub fn unquote_bounds(v: &Vec<char>, start: usize, end: usize) -> (r: (usize, usize))
    requires
        start <= end <= v@.len(),
    ensures
        start <= r.0 <= r.1 <= end,
        v@.subrange(r.0 as int, r.1 as int) == unquote(v@.subrange(start as int, end as int)),
{
    let s = Ghost(v@.subrange(start as int, end as int));
    if end - start >= 2 && ((v[start] == '"' && v[end - 1] == '"') || (v[start] == '\''
        && v[end - 1] == '\'')) {
        assert(v@.subrange(start + 1, end - 1) =~= s@.subrange(1, s@.len() - 1));
        (start + 1, end - 1)
    } else {
        (start, end)
    }
}

pub open spec fn is_timeframe_suffix(c: char) -> bool {
    c == 'S' || c == 'H' || c == 'D' || c == 'W' || c == 'M'
}

/// A timeframe string: after trimming, `D`, `W` or `M`, or one or more digits
/// optionally followed by one of `S`, `H`, `D`, `W`, `M`.
pub open spec fn valid_timeframe(value: Seq<char>) -> bool {
    let t = trim(value);
    ||| t == "D"@
    ||| t == "W"@
    ||| t == "M"@
    ||| (t.len() >= 1 && forall|i: int| 0 <= i < t.len() ==> is_digit(#[trigger] t[i]))
    ||| (t.len() >= 2 && (forall|i: int| 0 <= i < t.len() - 1 ==> is_digit(#[trigger] t[i]))
        && is_timeframe_suffix(t.last()))
}

/// Whether `value` is a valid timeframe string.
pub fn is_valid_timeframe_string(value: &Vec<char>) -> (r: bool)
    ensures
        r == valid_timeframe(value@),
{
    proof {
        reveal_strlit("D");
        reveal_strlit("W");
        reveal_strlit("M");
    }
    assert(value@.subrange(0, value@.len() as int) =~= value@);
    let (a, b) = trim_bounds(value, 0, value.len());
    let ghost t = value@.subrange(a as int, b as int);
    if a == b {
        return false;
    }
    if b - a == 1 && (value[a] == 'D' || value[a] == 'W' || value[a] == 'M') {
        proof {
            assert(t =~= "D"@ || t =~= "W"@ || t =~= "M"@);
        }
        return true;
    }
    let mut i = a;
    while i < b && '0' <= value[i] && value[i] <= '9'
        invariant
            a <= i <= b <= value@.len(),
            t == value@.subrange(a as int, b as int),
            forall|j: int| a <= j < i ==> is_digit(#[trigger] value@[j]),
        decreases b - i,
    {
        i = i + 1;
    }
    assert(forall|j: int| 0 <= j < i - a ==> #[trigger] t[j] == value@[a + j]);
    if i == b {
        return true;
    }
    if i == a {
        proof {
            assert(!is_digit(t[0]));
            assert(t != "D"@ && t != "W"@ && t != "M"@);
        }
        return false;
    }
    let c = value[i];
    if i + 1 == b {
        let ok = c == 'S' || c == 'H' || c == 'D' || c == 'W' || c == 'M';
        proof {
            assert(t.last() == c);
            if !ok {
                assert(!is_digit(t[i - a]));
            }
        }
        return ok;
    }
    proof {
        assert(!is_digit(t[i - a]));
        assert(t.len() >= 2);
        assert(!is_timeframe_suffix(t.last()) || !is_digit(t[i - a]));
    }
    false
}

/// Number of occurrences of `c` in `s`.
pub open spec fn count_char(s: Seq<char>, c: char) -> nat
    decreases s.len(),
{
    if s.len() == 0 {
        0
    } else {
        count_char(s.drop_last(), c) + if s.last() == c { 1nat } else { 0nat }
    }
}

/// Index of the first `c` in `s`, or `s.len()` when there is none.
pub open spec fn find_char(s: Seq<char>, c: char) -> int
    decreases s.len(),
{
    if s.len() == 0 {
        0
    } else if s[0] == c {
        0
    } else {
        1 + find_char(s.drop_first(), c)
    }
}

/// The value of a two-character field as `str::parse::<u32>` reads it:
/// two digits, or `+` and one digit.
pub open spec fn parse_two(a: char, b: char) -> Option<int> {
    if is_digit(a) && is_digit(b) {
        Some((a as int - '0' as int) * 10 + (b as int - '0' as int))
    } else if a == '+' && is_digit(b) {
        Some(b as int - '0' as int)
    } else {
        None
    }
}

/// A four-character `hhmm` field with `hh <= 23` and `mm <= 59`.
pub open spec fn valid_hhmm(s: Seq<char>) -> bool {
    &&& s.len() == 4
    &&& parse_two(s[0], s[1]) matches Some(h) && h <= 23
    &&& parse_two(s[2], s[3]) matches Some(m) && m <= 59
}

/// A session string: after trimming, `24x7`, or `hhmm-hhmm` optionally
/// followed by `:` and one to seven day digits `1`..`7`.
pub open spec fn valid_session(value: Seq<char>) -> bool {
    let t = trim(value);
    if t.len() == 0 {
        false
    } else if t == "24x7"@ {
        true
    } else {
        let colon = find_char(t, ':');
        let session = t.subrange(0, colon);
        let dash = find_char(session, '-');
        &&& count_char(t, ':') <= 1
        &&& count_char(session, '-') == 1
        &&& valid_hhmm(session.subrange(0, dash))
        &&& valid_hhmm(session.subrange(dash + 1, session.len() as int))
        &&& colon < t.len() ==> {
            let days = t.subrange(colon + 1, t.len() as int);
            &&& 1 <= days.len() <= 7
            &&& forall|i: int| 0 <= i < days.len() ==> '1' <= #[trigger] days[i] && days[i] <= '7'
        }
    }
}

pub proof fn lemma_count_split(s: Seq<char>, c: char, k: int)
    requires
        0 <= k <= s.len(),
    ensures
        count_char(s, c) == count_char(s.subrange(0, k), c) + count_char(
            s.subrange(k, s.len() as int),
            c,
        ),
    decreases s.len(),
{
    if k == s.len() {
        assert(s.subrange(0, k) =~= s);
        assert(s.subrange(k, s.len() as int) =~= Seq::<char>::empty());
    } else {
        lemma_count_split(s.drop_last(), c, k);
        assert(s.drop_last().subrange(0, k) =~= s.subrange(0, k));
        assert(s.subrange(k, s.len() as int).drop_last() =~= s.drop_last().subrange(
            k,
            s.len() - 1,
        ));
    }
}

pub proof fn lemma_count_zero(s: Seq<char>, c: char)
    ensures
        (count_char(s, c) == 0) <==> (forall|i: int| 0 <= i < s.len() ==> s[i] != c),
    decreases s.len(),
{
    if s.len() > 0 {
        lemma_count_zero(s.drop_last(), c);
        if count_char(s, c) == 0 {
            assert forall|i: int| 0 <= i < s.len() implies s[i] != c by {
                if i < s.len() - 1 {
                    assert(s.drop_last()[i] == s[i]);
                }
            }
        }
        if forall|i: int| 0 <= i < s.len() ==> s[i] != c {
            assert forall|i: int| 0 <= i < s.drop_last().len() implies s.drop_last()[i] != c by {
                assert(s.drop_last()[i] == s[i]);
            }
        }
    }
}

pub proof fn lemma_find_char(s: Seq<char>, c: char)
    ensures
        0 <= find_char(s, c) <= s.len(),
        forall|j: int| 0 <= j < find_char(s, c) ==> s[j] != c,
        find_char(s, c) < s.len() ==> s[find_char(s, c)] == c,
    decreases s.len(),
{
    if s.len() > 0 && s[0] != c {
        lemma_find_char(s.drop_first(), c);
        assert forall|j: int| 0 <= j < find_char(s, c) implies s[j] != c by {
            if j > 0 {
                assert(s[j] == s.drop_first()[j - 1]);
            }
        }
    }
}

/// The first index `i` in `start..end` with `v[i] == c`, or `end`.
pub fn find_in(v: &Vec<char>, start: usize, end: usize, c: char) -> (r: usize)
    requires
        start <= end <= v@.len(),
    ensures
        r == start + find_char(v@.subrange(start as int, end as int), c),
        start <= r <= end,
        forall|j: int| start <= j < r ==> v@[j] != c,
        r < end ==> v@[r as int] == c,
{
    let ghost s = v@.subrange(start as int, end as int);
    proof {
        lemma_find_char(s, c);
    }
    let mut i = start;
    while i < end && v[i] != c
        invariant
            start <= i <= end <= v@.len(),
            s == v@.subrange(start as int, end as int),
            forall|j: int| start <= j < i ==> v@[j] != c,
        decreases end - i,
    {
        i = i + 1;
    }
    proof {
        let f = find_char(s, c);
        if f < i - start {
            assert(s[f] == v@[start + f]);
        }
        if i - start < f {
            assert(s[i - start] == v@[i as int]);
        }
    }
    i
}

/// The two-character field `v[i..i+2]` as a number, as `parse_two` reads it.
fn parse_two_at(v: &Vec<char>, i: usize) -> (r: Option<u32>)
    requires
        i + 2 <= v@.len(),
    ensures
        match parse_two(v@[i as int], v@[i + 1]) {
            Some(n) => r == Some(n as u32),
            None => r is None,
        },
{
    assert(v@.len() == v.len());
    let a = v[i];
    let b = v[i + 1];
    if '0' <= b && b <= '9' {
        let bd = (b as u32) - ('0' as u32);
        if '0' <= a && a <= '9' {
            let ad = (a as u32) - ('0' as u32);
            return Some(ad * 10 + bd);
        }
        if a == '+' {
            return Some(bd);
        }
    }
    None
}

fn hhmm_at(v: &Vec<char>, start: usize, end: usize) -> (r: bool)
    requires
        start <= end <= v@.len(),
    ensures
        r == valid_hhmm(v@.subrange(start as int, end as int)),
{
    if end - start != 4 {
        return false;
    }
    let ghost s = v@.subrange(start as int, end as int);
    assert(s[0] == v@[start as int] && s[1] == v@[start + 1] && s[2] == v@[start + 2] && s[3]
        == v@[start + 3]);
    match (parse_two_at(v, start), parse_two_at(v, start + 2)) {
        (Some(h), Some(m)) => h <= 23 && m <= 59,
        _ => false,
    }
}

/// When `s[k]` is the first `c` in `s`, the count of `c` is one more than
/// the count after `k`.
pub proof fn lemma_count_after_first(s: Seq<char>, c: char, k: int)
    requires
        0 <= k < s.len(),
        s[k] == c,
        forall|j: int| 0 <= j < k ==> s[j] != c,
    ensures
        count_char(s, c) == 1 + count_char(s.subrange(k + 1, s.len() as int), c),
{
    lemma_count_split(s, c, k);
    let rest = s.subrange(k, s.len() as int);
    lemma_count_split(rest, c, 1);
    lemma_count_zero(s.subrange(0, k), c);
    assert(rest.subrange(0, 1) =~= seq![c]);
    assert(rest.subrange(1, rest.len() as int) =~= s.subrange(k + 1, s.len() as int));
    reveal_with_fuel(count_char, 2);
    assert(seq![c].drop_last() =~= Seq::<char>::empty());
}

/// Whether `c` occurs nowhere in `v[start..end]`.
fn absent_in(v: &Vec<char>, start: usize, end: usize, c: char) -> (r: bool)
    requires
        start <= end <= v@.len(),
    ensures
        r == (count_char(v@.subrange(start as int, end as int), c) == 0),
{
    let f = find_in(v, start, end, c);
    proof {
        let s = v@.subrange(start as int, end as int);
        lemma_count_zero(s, c);
        if f < end {
            assert(s[f - start] == c);
        } else {
            assert forall|i: int| 0 <= i < s.len() implies s[i] != c by {
                assert(s[i] == v@[start + i]);
            }
        }
    }
    f == end
}

fn days_valid(v: &Vec<char>, start: usize, end: usize) -> (r: bool)
    requires
        start <= end <= v@.len(),
    ensures
        r == ({
            let days = v@.subrange(start as int, end as int);
            &&& 1 <= days.len() <= 7
            &&& forall|i: int| 0 <= i < days.len() ==> '1' <= #[trigger] days[i] && days[i] <= '7'
        }),
{
    let ghost days = v@.subrange(start as int, end as int);
    if end - start == 0 || end - start > 7 {
        return false;
    }
    let mut i = start;
    while i < end
        invariant
            start <= i <= end <= v@.len(),
            days == v@.subrange(start as int, end as int),
            forall|j: int| start <= j < i ==> '1' <= #[trigger] v@[j] && v@[j] <= '7',
        decreases end - i,
    {
        if !('1' <= v[i] && v[i] <= '7') {
            assert(days[i - start] == v@[i as int]);
            return false;
        }
        i = i + 1;
    }
    assert forall|k: int| 0 <= k < days.len() implies '1' <= #[trigger] days[k] && days[k]
        <= '7' by {
        assert(days[k] == v@[start + k]);
    }
    true
}

/// Whether `v[start..end]` is `hhmm-hhmm` (exactly one dash).
fn session_range_valid(v: &Vec<char>, start: usize, end: usize) -> (r: bool)
    requires
        start <= end <= v@.len(),
    ensures
        r == ({
            let session = v@.subrange(start as int, end as int);
            let dash = find_char(session, '-');
            &&& count_char(session, '-') == 1
            &&& valid_hhmm(session.subrange(0, dash))
            &&& valid_hhmm(session.subrange(dash + 1, session.len() as int))
        }),
{
    let ghost session = v@.subrange(start as int, end as int);
    let dash = find_in(v, start, end, '-');
    if dash == end {
        proof {
            lemma_count_zero(session, '-');
            assert forall|i: int| 0 <= i < session.len() implies session[i] != '-' by {
                assert(session[i] == v@[start + i]);
            }
        }
        return false;
    }
    proof {
        assert forall|j: int| 0 <= j < dash - start implies session[j] != '-' by {
            assert(session[j] == v@[start + j]);
        }
        lemma_count_after_first(session, '-', dash - start);
        assert(session.subrange(dash - start + 1, session.len() as int) =~= v@.subrange(
            dash + 1,
            end as int,
        ));
        assert(session.subrange(0, dash - start) =~= v@.subrange(start as int, dash as int));
    }
    if !absent_in(v, dash + 1, end, '-') {
        return false;
    }
    hhmm_at(v, start, dash) && hhmm_at(v, dash + 1, end)
}

/// Whether `value` is a valid session string.
pub fn is_valid_session_string(value: &Vec<char>) -> (r: bool)
    ensures
        r == valid_session(value@),
{
    assert(value@.subrange(0, value@.len() as int) =~= value@);
    let (a, b) = trim_bounds(value, 0, value.len());
    let ghost t = value@.subrange(a as int, b as int);
    if a == b {
        return false;
    }
    if range_is(value, a, b, "24x7") {
        return true;
    }
    let colon = find_in(value, a, b, ':');
    proof {
        assert(t.subrange(0, colon - a) =~= value@.subrange(a as int, colon as int));
        assert forall|j: int| 0 <= j < colon - a implies t[j] != ':' by {
            assert(t[j] == value@[a + j]);
        }
    }
    if colon < b {
        proof {
            lemma_count_after_first(t, ':', colon - a);
            assert(t.subrange(colon - a + 1, t.len() as int) =~= value@.subrange(
                colon + 1,
                b as int,
            ));
        }
        if !absent_in(value, colon + 1, b, ':') {
            return false;
        }
        if !session_range_valid(value, a, colon) {
            return false;
        }
        days_valid(value, colon + 1, b)
    } else {
        proof {
            lemma_count_zero(t, ':');
        }
        session_range_valid(value, a, colon)
    }
}


/// Whether `s` begins with `p`.
pub open spec fn has_prefix(s: Seq<char>, p: Seq<char>) -> bool {
    p.len() <= s.len() && s.subrange(0, p.len() as int) == p
}

/// Whether `s` ends with `p`.
pub open spec fn has_suffix(s: Seq<char>, p: Seq<char>) -> bool {
    p.len() <= s.len() && s.subrange(s.len() - p.len(), s.len() as int) == p
}

/// Whether `p` occurs in `s`.
pub open spec fn has_sub(s: Seq<char>, p: Seq<char>) -> bool {
    exists|k: int| 0 <= k && k + p.len() <= s.len() && #[trigger] s.subrange(k, k + p.len()) == p
}

/// The last index of `c` in `s`.
pub open spec fn last_index(s: Seq<char>, c: char) -> Option<int>
    decreases s.len(),
{
    if s.len() == 0 {
        None
    } else if s.last() == c {
        Some(s.len() - 1)
    } else {
        last_index(s.drop_last(), c)
    }
}

/// Whether `v` begins with the literal `lit`.
pub fn starts_with_lit(v: &Vec<char>, lit: &str) -> (r: bool)
    ensures
        r == has_prefix(v@, lit@),
{
    range_starts_with(v, 0, v.len(), lit)
}

/// Whether `v` ends with the literal `lit`.
pub fn ends_with_lit(v: &Vec<char>, lit: &str) -> (r: bool)
    ensures
        r == has_suffix(v@, lit@),
{
    let n = lit.unicode_len();
    if n > v.len() {
        return false;
    }
    range_is(v, v.len() - n, v.len(), lit)
}

/// Whether the literal `lit` occurs in `v`.
pub fn contains_lit(v: &Vec<char>, lit: &str) -> (r: bool)
    ensures
        r == has_sub(v@, lit@),
{
    let n = lit.unicode_len();
    if n > v.len() {
        return false;
    }
    if n == 0 {
        assert(v@.subrange(0int, 0int + lit@.len()) =~= lit@);
        return true;
    }
    let mut k: usize = 0;
    while k <= v.len() - n
        invariant
            n == lit@.len(),
            1 <= n <= v@.len(),
            k <= v@.len() - n + 1,
            forall|j: int| 0 <= j < k ==> #[trigger] v@.subrange(j, j + n) != lit@,
        decreases v@.len() + 1 - k,
    {
        if range_is(v, k, k + n, lit) {
            assert(v@.subrange(k as int, k + lit@.len()) == lit@);
            return true;
        }
        k = k + 1;
    }
    assert forall|j: int| 0 <= j && j + lit@.len() <= v@.len() implies #[trigger] v@.subrange(j, j + lit@.len()) != lit@ by {
        assert(v@.subrange(j, j + n) != lit@);
    }
    false
}

/// The last index of `c` in `v`.
pub fn rfind_char(v: &Vec<char>, c: char) -> (r: Option<usize>)
    ensures
        match r {
            Some(i) => last_index(v@, c) == Some(i as int) && i < v@.len(),
            None => last_index(v@, c) is None,
        },
{
    let mut k = v.len();
    assert(v@.subrange(0, k as int) =~= v@);
    while k > 0
        invariant
            k <= v@.len(),
            last_index(v@, c) == last_index(v@.subrange(0, k as int), c),
        decreases k,
    {
        assert(v@.subrange(0, k as int).drop_last() =~= v@.subrange(0, k - 1));
        if v[k - 1] == c {
            return Some(k - 1);
        }
        k = k - 1;
    }
    None
}

/// The characters `v[a..b]`.
pub fn slice_chars(v: &Vec<char>, a: usize, b: usize) -> (r: Vec<char>)
    requires
        a <= b <= v@.len(),
    ensures
        r@ == v@.subrange(a as int, b as int),
{
    let mut r: Vec<char> = Vec::new();
    let mut k = a;
    while k < b
        invariant
            a <= k <= b <= v@.len(),
            r@ == v@.subrange(a as int, k as int),
        decreases b - k,
    {
        r.push(v[k]);
        assert(v@.subrange(a as int, k + 1) =~= v@.subrange(a as int, k as int).push(v@[k as int]));
        k = k + 1;
    }
    r
}


/// The number of bytes of `c` in UTF-8.
pub open spec fn utf8_width(c: char) -> nat {
    if (c as u32) < 0x80 {
        1
    } else if (c as u32) < 0x800 {
        2
    } else if (c as u32) < 0x10000 {
        3
    } else {
        4
    }
}

/// The number of bytes of `s` in UTF-8.
pub open spec fn utf8_len(s: Seq<char>) -> nat
    decreases s.len(),
{
    if s.len() == 0 {
        0
    } else {
        utf8_len(s.drop_last()) + utf8_width(s.last())
    }
}

proof fn lemma_utf8_len_bound(s: Seq<char>)
    ensures
        utf8_len(s) <= 4 * s.len(),
    decreases s.len(),
{
    if s.len() > 0 {
        lemma_utf8_len_bound(s.drop_last());
    }
}

/// The number of bytes of `v` in UTF-8 (`str::len` of the same text).
pub fn utf8_length(v: &Vec<char>) -> (r: u64)
    requires
        v@.len() < u32::MAX,
    ensures
        r == utf8_len(v@),
{
    let mut n: u64 = 0;
    let mut k: usize = 0;
    while k < v.len()
        invariant
            k <= v@.len() < u32::MAX,
            n == utf8_len(v@.subrange(0, k as int)),
            n <= 4 * k,
        decreases v@.len() - k,
    {
        let c = v[k];
        let w: u64 = if (c as u32) < 0x80 {
            1
        } else if (c as u32) < 0x800 {
            2
        } else if (c as u32) < 0x10000 {
            3
        } else {
            4
        };
        assert(v@.subrange(0, k + 1).drop_last() =~= v@.subrange(0, k as int));
        n = n + w;
        k = k + 1;
    }
    assert(v@.subrange(0, v@.len() as int) =~= v@);
    n
}


/// Whether `v` is empty or all whitespace (`str::trim` gives an empty string).
pub fn is_blank(v: &Vec<char>) -> (r: bool)
    ensures
        r == (trim(v@).len() == 0),
{
    assert(v@.subrange(0, v@.len() as int) =~= v@);
    let (a, b) = trim_bounds(v, 0, v.len());
    a == b
}

} // verus!
