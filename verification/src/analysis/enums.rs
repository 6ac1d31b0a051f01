//! Enum declarations, found by scanning the lines of the text: a line
//! `[export ]enum Name` declares an enum, and the indented lines below it
//! declare its members, each with an optional quoted title after `=`.

use vstd::prelude::*;

use crate::analysis::{
    lemma_reports_grow, Analyzer, DiagView, Diagnostic, DiagnosticCode, Severity, Source, SymbolKind, diag,
    diag_view, diags_view, position_at,
};
use crate::analysis::symbols::{DefView, def_view, define_diags, depth_of, lemma_resolves_bound};
use crate::types::{Type, TypeModel};
use crate::analysis::diag::report_chars;
use crate::fmt::{push_chars, push_str, wrap_chars};
use crate::name_map::NameMap;
use crate::position::{Position, Range, lemma_position_bounded};
use crate::text::{is_blank, string_of, 
    find_char, find_in, has_prefix, is_quoted, is_whitespace, is_ws, lemma_find_char, range_starts_with,
    slice_chars, trim, trim_bounds, trim_end, trim_start, chars_of,
};

verus! {

/// The lines that `str::lines` yields from offset `s` on, as offset ranges:
/// a line ends before its newline, and before a carriage return just ahead
/// of that newline.
pub open spec fn lines_from(t: Seq<char>, s: int) -> Seq<(int, int)>
    decreases t.len() - s,
{
    if s < 0 || s >= t.len() {
        Seq::empty()
    } else {
        proof {
            lemma_find_char(t.subrange(s, t.len() as int), '\n');
        }
        let nl = s + find_char(t.subrange(s, t.len() as int), '\n');
        let e = if nl < t.len() && nl > s && t[nl - 1] == '\r' {
            nl - 1
        } else {
            nl
        };
        seq![(s, e)] + if nl < t.len() {
            lines_from(t, nl + 1)
        } else {
            Seq::empty()
        }
    }
}

/// The lines of `t` as offset ranges, first to last.
pub open spec fn text_lines_view(t: Seq<char>) -> Seq<(int, int)> {
    lines_from(t, 0)
}

pub open spec fn pair_view(v: Seq<(usize, usize)>) -> Seq<(int, int)> {
    v.map_values(|p: (usize, usize)| (p.0 as int, p.1 as int))
}

/// The first index from `k` on where `p` occurs in `s`.
pub open spec fn find_sub_from(s: Seq<char>, p: Seq<char>, k: int) -> Option<int>
    decreases s.len() + 1 - k,
{
    if k < 0 || k + p.len() > s.len() {
        None
    } else if s.subrange(k, k + p.len()) == p {
        Some(k)
    } else {
        find_sub_from(s, p, k + 1)
    }
}

/// The first index where `p` occurs in `s` (`str::find`).
pub open spec fn find_sub(s: Seq<char>, p: Seq<char>) -> Option<int> {
    find_sub_from(s, p, 0)
}

pub proof fn lemma_find_sub_from(s: Seq<char>, p: Seq<char>, k: int)
    ensures
        find_sub_from(s, p, k) matches Some(q) ==> k <= q && q + p.len() <= s.len() && s.subrange(q, q + p.len())
            == p,
    decreases s.len() + 1 - k,
{
    if !(k < 0 || k + p.len() > s.len()) && s.subrange(k, k + p.len()) != p {
        lemma_find_sub_from(s, p, k + 1);
    }
}

/// The length of the leading run of non-whitespace characters.
pub open spec fn word_len(s: Seq<char>) -> int
    decreases s.len(),
{
    if s.len() == 0 || is_ws(s[0]) {
        0
    } else {
        1 + word_len(s.drop_first())
    }
}

/// The first whitespace-separated word (`split_whitespace().next()`), or
/// nothing.
pub open spec fn first_word(s: Seq<char>) -> Seq<char> {
    let u = trim_start(s);
    u.take(word_len(u))
}

/// `s` without every leading copy of `p` (`str::trim_start_matches`).
pub open spec fn strip_all(s: Seq<char>, p: Seq<char>) -> Seq<char>
    decreases s.len(),
{
    if p.len() > 0 && has_prefix(s, p) {
        strip_all(s.skip(p.len() as int), p)
    } else {
        s
    }
}

/// The text of a line after its leading `export ` keywords.
pub open spec fn after_exports(ts: Seq<char>) -> Seq<char> {
    if has_prefix(ts, "export "@) {
        trim_start(strip_all(ts, "export "@))
    } else {
        ts
    }
}

/// The enum that a line declares, with the index of its name in the line.
pub open spec fn enum_header(line: Seq<char>) -> Option<(Seq<char>, int)> {
    let rest = after_exports(trim_start(line));
    if has_prefix(rest, "enum "@) {
        let after = trim(rest.skip("enum "@.len() as int));
        if after.len() == 0 {
            None
        } else {
            let name = first_word(after);
            Some(
                (
                    name,
                    match find_sub(line, name) {
                        Some(p) => p,
                        None => 0,
                    },
                ),
            )
        }
    } else {
        None
    }
}

/// Whether a line is empty or all whitespace.
pub open spec fn is_blank_line(line: Seq<char>) -> bool {
    trim(line).len() == 0
}

/// Whether a line starts with a space or a tab.
pub open spec fn is_indented(line: Seq<char>) -> bool {
    line.len() > 0 && (line[0] == ' ' || line[0] == '\t')
}

/// The member a member line declares: the first word before any `=`.
pub open spec fn member_name(line: Seq<char>) -> Seq<char> {
    let tr = trim(line);
    first_word(tr.take(find_char(tr, '=')))
}

/// The title of a member line: the trimmed text between the first `=` and
/// the next one, when the line has an `=`.
pub open spec fn member_title(line: Seq<char>) -> Option<Seq<char>> {
    let tr = trim(line);
    let e = find_char(tr, '=');
    if e >= tr.len() {
        None
    } else {
        let rest = tr.skip(e + 1);
        Some(trim(rest.take(find_char(rest, '='))))
    }
}

/// A title without a trailing `//` comment and trailing whitespace.
pub open spec fn title_slice(title: Seq<char>) -> Seq<char> {
    trim_end(
        title.take(
            match find_sub(title, "//"@) {
                Some(k) => k,
                None => title.len() as int,
            },
        ),
    )
}

/// The lines of `t` as offset ranges (`str::lines`).
pub fn text_lines(t: &Vec<char>) -> (r: Vec<(usize, usize)>)
    ensures
        pair_view(r@) == text_lines_view(t@),
        forall|k: int| 0 <= k < r@.len() ==> (#[trigger] r@[k]).0 <= r@[k].1 <= t@.len(),
{
    let n = t.len();
    let mut out: Vec<(usize, usize)> = Vec::new();
    let mut s: usize = 0;
    while s < n
        invariant
            n == t@.len(),
            s <= n,
            pair_view(out@) + lines_from(t@, s as int) == lines_from(t@, 0),
            forall|k: int| 0 <= k < out@.len() ==> (#[trigger] out@[k]).0 <= out@[k].1 <= t@.len(),
        decreases n - s,
    {
        let nl = find_in(t, s, n, '\n');
        let e = if nl < n && nl > s && t[nl - 1] == '\r' {
            nl - 1
        } else {
            nl
        };
        let ghost prev = out@;
        out.push((s, e));
        let ghost next = if nl < n { nl + 1 } else { n as int };
        assert(lines_from(t@, (nl + 1) as int) == lines_from(t@, next));
        assert(pair_view(out@) =~= pair_view(prev).push((s as int, e as int)));
        assert(pair_view(out@) + lines_from(t@, next) =~= pair_view(prev) + lines_from(t@, s as int));
        s = if nl < n {
            nl + 1
        } else {
            n
        };
    }
    out
}

/// Whether `v[k..k + p.len()]` spells `p`.
fn matches_at(v: &Vec<char>, k: usize, p: &Vec<char>) -> (r: bool)
    requires
        k + p@.len() <= v@.len(),
    ensures
        r == (v@.subrange(k as int, k + p@.len()) == p@),
{
    let vn = v.len();
    let mut i: usize = 0;
    while i < p.len()
        invariant
            vn == v@.len(),
            k + p@.len() <= v@.len(),
            i <= p@.len(),
            forall|j: int| 0 <= j < i ==> v@[k + j] == p@[j],
        decreases p@.len() - i,
    {
        assert(k + i < v@.len());
        if v[k + i] != p[i] {
            assert(v@.subrange(k as int, k + p@.len())[i as int] != p@[i as int]);
            return false;
        }
        i = i + 1;
    }
    assert(v@.subrange(k as int, k + p@.len()) =~= p@);
    true
}

/// The first index where `p` occurs in `v`.
pub fn find_sub_in(v: &Vec<char>, p: &Vec<char>) -> (r: Option<usize>)
    ensures
        match r {
            Some(k) => find_sub(v@, p@) == Some(k as int),
            None => find_sub(v@, p@) is None,
        },
{
    if p.len() > v.len() {
        return None;
    }
    let mut k: usize = 0;
    while k <= v.len() - p.len()
        invariant
            p@.len() <= v@.len(),
            k <= v@.len() - p@.len() + 1,
            find_sub(v@, p@) == find_sub_from(v@, p@, k as int),
        decreases v@.len() - p@.len() + 1 - k,
    {
        if matches_at(v, k, p) {
            return Some(k);
        }
        if k == v.len() - p.len() {
            assert(find_sub_from(v@, p@, k + 1) is None);
            return None;
        }
        k = k + 1;
    }
    None
}

/// The first whitespace-separated word of `v[a..b]`.
fn first_word_in(v: &Vec<char>, a: usize, b: usize) -> (r: Vec<char>)
    requires
        a <= b <= v@.len(),
    ensures
        r@ == first_word(v@.subrange(a as int, b as int)),
{
    let (x, _) = trim_bounds(v, a, b);
    let mut w = x;
    while w < b && !is_whitespace(v[w])
        invariant
            a <= x <= w <= b <= v@.len(),
            word_len(v@.subrange(x as int, b as int)) == (w - x) + word_len(v@.subrange(w as int, b as int)),
        decreases b - w,
    {
        assert(v@.subrange(w as int, b as int).drop_first() =~= v@.subrange(w + 1, b as int));
        w = w + 1;
    }
    assert(word_len(v@.subrange(w as int, b as int)) == 0);
    assert(v@.subrange(x as int, b as int).take(w - x) =~= v@.subrange(x as int, w as int));
    slice_chars(v, x, w)
}

/// The enum that `line` declares, with the index of its name in the line.
pub fn enum_header_of(line: &Vec<char>) -> (r: Option<(Vec<char>, usize)>)
    ensures
        match r {
            Some((name, p)) => enum_header(line@) == Some((name@, p as int)),
            None => enum_header(line@) is None,
        },
{
    let n = line.len();
    let ghost e_lit = "export "@;
    let ghost n_lit = "enum "@;
    proof {
        reveal_strlit("export ");
        reveal_strlit("enum ");
        assert(line@.subrange(0, n as int) =~= line@);
    }
    let (a, _) = trim_bounds(line, 0, n);
    let mut c = a;
    if range_starts_with(line, a, n, "export ") {
        let mut b = a;
        while range_starts_with(line, b, n, "export ")
            invariant
                e_lit == "export "@,
                e_lit.len() == 7,
                a <= b <= n == line@.len(),
                strip_all(line@.subrange(a as int, n as int), e_lit) == strip_all(line@.subrange(b as int, n as int), e_lit),
            decreases n - b,
        {
            let ghost s = line@.subrange(b as int, n as int);
            assert(s.subrange(0, 7) =~= line@.subrange(b as int, b + 7));
            assert(s.skip(7) =~= line@.subrange(b + 7, n as int));
            b = b + 7;
        }
        assert(!has_prefix(line@.subrange(b as int, n as int), e_lit)) by {
            if 7 <= n - b {
                assert(line@.subrange(b as int, n as int).subrange(0, 7) =~= line@.subrange(b as int, b + 7));
            }
        }
        let (c2, _) = trim_bounds(line, b, n);
        c = c2;
        assert(has_prefix(line@.subrange(a as int, n as int), e_lit)) by {
            assert(line@.subrange(a as int, n as int).subrange(0, 7) =~= line@.subrange(a as int, a + 7));
        }
    } else {
        assert(!has_prefix(line@.subrange(a as int, n as int), e_lit)) by {
            if 7 <= n - a {
                assert(line@.subrange(a as int, n as int).subrange(0, 7) =~= line@.subrange(a as int, a + 7));
            }
        }
    }
    assert(line@.subrange(c as int, n as int) == after_exports(trim_start(line@)));
    if !range_starts_with(line, c, n, "enum ") {
        assert(!has_prefix(line@.subrange(c as int, n as int), n_lit)) by {
            if 5 <= n - c {
                assert(line@.subrange(c as int, n as int).subrange(0, 5) =~= line@.subrange(c as int, c + 5));
            }
        }
        return None;
    }
    assert(has_prefix(line@.subrange(c as int, n as int), n_lit)) by {
        assert(line@.subrange(c as int, n as int).subrange(0, 5) =~= line@.subrange(c as int, c + 5));
    }
    assert(line@.subrange(c as int, n as int).skip(5) =~= line@.subrange(c + 5, n as int));
    let (x, y) = trim_bounds(line, c + 5, n);
    if x == y {
        return None;
    }
    let name = first_word_in(line, x, y);
    let pos = match find_sub_in(line, &name) {
        Some(p) => p,
        None => 0,
    };
    Some((name, pos))
}

/// The member and the title that a member line declares.
pub fn member_parts(line: &Vec<char>) -> (r: (Vec<char>, Option<Vec<char>>))
    ensures
        r.0@ == member_name(line@),
        match r.1 {
            Some(t) => member_title(line@) == Some(t@),
            None => member_title(line@) is None,
        },
{
    let n = line.len();
    proof {
        assert(line@.subrange(0, n as int) =~= line@);
    }
    let (a, b) = trim_bounds(line, 0, n);
    let ghost tr = line@.subrange(a as int, b as int);
    let e = find_in(line, a, b, '=');
    proof {
        lemma_find_char(tr, '=');
        assert(tr.take(e - a) =~= line@.subrange(a as int, e as int));
    }
    let member = first_word_in(line, a, e);
    if e >= b {
        return (member, None);
    }
    let e2 = find_in(line, e + 1, b, '=');
    proof {
        let rest = tr.skip(e - a + 1);
        assert(rest =~= line@.subrange(e + 1, b as int));
        lemma_find_char(rest, '=');
        assert(rest.take(e2 - e - 1) =~= line@.subrange(e + 1, e2 as int));
    }
    let (x, y) = trim_bounds(line, e + 1, e2);
    (member, Some(slice_chars(line, x, y)))
}

/// A title without its trailing `//` comment and trailing whitespace.
pub fn title_slice_of(title: &Vec<char>) -> (r: Vec<char>)
    ensures
        r@ == title_slice(title@),
{
    let sl = chars_of("//");
    let k = match find_sub_in(title, &sl) {
        Some(k) => {
            proof {
                lemma_find_sub_from(title@, sl@, 0);
            }
            k
        },
        None => title.len(),
    };
    let mut b = k;
    while b > 0 && is_whitespace(title[b - 1])
        invariant
            b <= k <= title@.len(),
            trim_end(title@.take(k as int)) == trim_end(title@.subrange(0, b as int)),
        decreases b,
    {
        assert(title@.subrange(0, b as int).drop_last() =~= title@.subrange(0, b - 1));
        b = b - 1;
    }
    assert(title@.take(k as int) =~= title@.subrange(0, k as int));
    slice_chars(title, 0, b)
}

/// Whether `s` is wrapped in a pair of double or single quotes.
pub fn is_quoted_chars(s: &Vec<char>) -> (r: bool)
    ensures
        r == is_quoted(s@),
{
    let n = s.len();
    n >= 2 && ((s[0] == '"' && s[n - 1] == '"') || (s[0] == '\'' && s[n - 1] == '\''))
}


/// The position of character offset `o`, offsets past the end taken as the end.
pub open spec fn clamped_position(cx: Source, o: int) -> Position {
    position_at(cx.text@, if o <= cx.text@.len() { o } else { cx.text@.len() as int })
}

/// The range of `len` characters from offset `start` (`make_range`).
pub open spec fn span_range(cx: Source, start: int, len: int) -> Range {
    Range { start: clamped_position(cx, start), end: clamped_position(cx, start + len) }
}

/// The range of `len` characters from offset `start`.
pub fn span(cx: &Source, start: usize, len: usize) -> (r: Range)
    requires
        cx.wf(),
        start <= cx.text@.len(),
    ensures
        r == span_range(*cx, start as int, len as int),
{
    let n = cx.text.len();
    let end = if len <= n - start {
        start + len
    } else {
        n
    };
    let s = cx.line_index.offset_to_position(start);
    let e = cx.line_index.offset_to_position(end);
    proof {
        lemma_position_bounded(cx.text@, start as int);
        lemma_position_bounded(cx.text@, end as int);
    }
    Range { start: s, end: e }
}

/// What scanning the member lines of an enum has found so far: the members
/// in order, the range of each, and the diagnostics.
pub struct MemberScan {
    pub members: Seq<Seq<char>>,
    pub ranges: Map<Seq<char>, Range>,
    pub diags: Seq<DiagView>,
}

pub open spec fn scan_view(members: Seq<Vec<char>>, ranges: Map<Seq<char>, Range>, diags: Seq<DiagView>) -> MemberScan {
    MemberScan { members: members.map_values(|m: Vec<char>| m@), ranges, diags }
}

/// The scan after member line `line` of enum `ename`, the line starting at
/// offset `ls`: a member seen before is reported with its earlier range, a
/// new one is recorded; a title that is not a quoted string is reported.
pub open spec fn scan_member(cx: Source, ename: Seq<char>, line: Seq<char>, ls: int, st: MemberScan) -> MemberScan {
    let m = member_name(line);
    if m.len() == 0 {
        st
    } else {
        let mstart = ls + match find_sub(line, m) {
            Some(p) => p,
            None => 0,
        };
        let mr = span_range(cx, mstart, m.len() as int);
        let st2 = if st.ranges.contains_key(m) {
            MemberScan {
                diags: st.diags + seq![
                    diag(
                        cx,
                        mr,
                        Severity::Error,
                        DiagnosticCode::Validation,
                        "Duplicate enum member `"@ + m + "` in enum `"@ + ename + "`"@,
                    ),
                    diag(
                        cx,
                        st.ranges[m],
                        Severity::Information,
                        DiagnosticCode::Validation,
                        "Previous enum member `"@ + m + "` defined here"@,
                    ),
                ],
                ..st
            }
        } else {
            MemberScan { members: st.members.push(m), ranges: st.ranges.insert(m, mr), diags: st.diags }
        };
        match member_title(line) {
            Some(title) => {
                let ts = title_slice(title);
                if is_quoted(ts) {
                    st2
                } else {
                    let eq = find_char(line, '=');
                    let after = line.skip(eq + 1);
                    let start = ls + eq + 1 + (after.len() - trim_start(after).len());
                    let len = if ts.len() >= 1 {
                        ts.len() as int
                    } else {
                        1
                    };
                    MemberScan {
                        diags: st2.diags.push(
                            diag(
                                cx,
                                span_range(cx, start, len),
                                Severity::Error,
                                DiagnosticCode::Validation,
                                "Invalid enum title for member `"@ + m + "`"@,
                            ),
                        ),
                        ..st2
                    }
                }
            },
            None => st2,
        }
    }
}

/// The text of line `j`.
pub open spec fn line_at(t: Seq<char>, lines: Seq<(int, int)>, j: int) -> Seq<char> {
    t.subrange(lines[j].0, lines[j].1)
}

/// The first line from `j` on that ends a member block: one that is neither
/// blank nor indented.
pub open spec fn block_end(t: Seq<char>, lines: Seq<(int, int)>, j: int) -> int
    decreases lines.len() - j,
{
    if j < 0 || j >= lines.len() {
        lines.len() as int
    } else if !is_blank_line(line_at(t, lines, j)) && !is_indented(line_at(t, lines, j)) {
        j
    } else {
        block_end(t, lines, j + 1)
    }
}

/// The scan of the member lines of the enum declared on line `i`, over the
/// lines before `j`; blank lines are passed over.
pub open spec fn members_upto(cx: Source, lines: Seq<(int, int)>, ename: Seq<char>, i: int, j: int) -> MemberScan
    decreases j - i,
{
    if j <= i + 1 {
        MemberScan { members: Seq::empty(), ranges: Map::empty(), diags: Seq::empty() }
    } else {
        let prev = members_upto(cx, lines, ename, i, j - 1);
        let line = line_at(cx.text@, lines, j - 1);
        if is_blank_line(line) {
            prev
        } else {
            scan_member(cx, ename, line, lines[j - 1].0, prev)
        }
    }
}

/// A declared enum: its name, the range of the name, and what scanning its
/// members found.
pub struct EnumDeclView {
    pub name: Seq<char>,
    pub range: Range,
    pub scan: MemberScan,
}

/// The enums declared on the lines before `k`, in order.
pub open spec fn decls_upto(cx: Source, lines: Seq<(int, int)>, k: int) -> Seq<EnumDeclView>
    decreases k,
{
    if k <= 0 {
        Seq::empty()
    } else {
        let prev = decls_upto(cx, lines, k - 1);
        match enum_header(line_at(cx.text@, lines, k - 1)) {
            Some((name, p)) => prev.push(
                EnumDeclView {
                    name,
                    range: span_range(cx, lines[k - 1].0 + p, name.len() as int),
                    scan: members_upto(cx, lines, name, k - 1, block_end(cx.text@, lines, k)),
                },
            ),
            None => prev,
        }
    }
}

/// The enums the text declares, in order.
pub open spec fn enum_decls(cx: Source) -> Seq<EnumDeclView> {
    decls_upto(cx, text_lines_view(cx.text@), text_lines_view(cx.text@).len() as int)
}

/// An enum scan is consistent: its members are distinct, and they are
/// exactly the names with a recorded range.
pub open spec fn scan_consistent(st: MemberScan) -> bool {
    &&& forall|a: int, b: int| 0 <= a < b < st.members.len() ==> st.members[a] != st.members[b]
    &&& forall|m: Seq<char>| #[trigger] st.ranges.contains_key(m) <==> st.members.contains(m)
}

/// Scanning one member line keeps a scan consistent.
pub proof fn lemma_scan_member_consistent(cx: Source, ename: Seq<char>, line: Seq<char>, ls: int, st: MemberScan)
    requires
        scan_consistent(st),
    ensures
        scan_consistent(scan_member(cx, ename, line, ls, st)),
{
    let m = member_name(line);
    let r = scan_member(cx, ename, line, ls, st);
    if m.len() > 0 && !st.ranges.contains_key(m) {
        let next = st.members.push(m);
        assert(!st.members.contains(m));
        assert(r.members == next);
        assert(r.ranges.dom() == st.ranges.dom().insert(m));
        assert forall|a: int, b: int| 0 <= a < b < next.len() implies next[a] != next[b] by {
            if b == next.len() - 1 {
                assert(next[a] == st.members[a]);
            }
        }
        assert forall|q: Seq<char>| #[trigger] r.ranges.contains_key(q) <==> r.members.contains(q) by {
            if next.contains(q) && q != m {
                let k = choose|k: int| 0 <= k < next.len() && next[k] == q;
                assert(st.members[k] == q);
            }
            if st.members.contains(q) {
                let k = choose|k: int| 0 <= k < st.members.len() && st.members[k] == q;
                assert(next[k] == q);
            }
            if q == m {
                assert(next[next.len() - 1] == m);
            }
        }
    }
}

/// Every scan of member lines is consistent.
pub proof fn lemma_members_consistent(cx: Source, lines: Seq<(int, int)>, ename: Seq<char>, i: int, j: int)
    ensures
        scan_consistent(members_upto(cx, lines, ename, i, j)),
    decreases j - i,
{
    if j > i + 1 {
        lemma_members_consistent(cx, lines, ename, i, j - 1);
        let line = line_at(cx.text@, lines, j - 1);
        if !is_blank_line(line) {
            lemma_scan_member_consistent(cx, ename, line, lines[j - 1].0, members_upto(cx, lines, ename, i, j - 1));
        }
    }
}

/// The members recorded for every declared enum are distinct, and exactly
/// the names with a recorded range.
pub proof fn lemma_enum_decls_consistent(cx: Source)
    ensures
        forall|k: int| 0 <= k < enum_decls(cx).len() ==> scan_consistent(#[trigger] enum_decls(cx)[k].scan),
{
    let lines = text_lines_view(cx.text@);
    lemma_decls_consistent(cx, lines, lines.len() as int);
}

proof fn lemma_decls_consistent(cx: Source, lines: Seq<(int, int)>, k: int)
    ensures
        forall|q: int| 0 <= q < decls_upto(cx, lines, k).len() ==> scan_consistent(#[trigger] decls_upto(cx, lines, k)[q].scan),
    decreases k,
{
    if k > 0 {
        lemma_decls_consistent(cx, lines, k - 1);
        let prev = decls_upto(cx, lines, k - 1);
        match enum_header(line_at(cx.text@, lines, k - 1)) {
            Some((name, p)) => {
                lemma_members_consistent(cx, lines, name, k - 1, block_end(cx.text@, lines, k));
                let cur = decls_upto(cx, lines, k);
                assert forall|q: int| 0 <= q < cur.len() implies scan_consistent(#[trigger] cur[q].scan) by {
                    if q < prev.len() {
                        assert(cur[q] == prev[q]);
                    }
                }
            },
            None => {},
        }
    }
}

/// A declared enum as found by the scanner.
pub struct EnumDecl {
    pub name: Vec<char>,
    pub range: Range,
    pub members: Vec<Vec<char>>,
    pub ranges: NameMap<Range>,
    pub diags: Vec<Diagnostic>,
}

pub open spec fn decl_view(d: EnumDecl) -> EnumDeclView {
    EnumDeclView { name: d.name@, range: d.range, scan: scan_view(d.members@, d.ranges@, diags_view(d.diags@)) }
}

/// Applies member line `line` (starting at offset `ls`) of enum `ename` to
/// the scan state.
fn scan_member_line(
    cx: &Source,
    ename: &Vec<char>,
    line: &Vec<char>,
    ls: usize,
    members: &mut Vec<Vec<char>>,
    ranges: &mut NameMap<Range>,
    diags: &mut Vec<Diagnostic>,
)
    requires
        cx.wf(),
        old(ranges).wf(),
        ls + line@.len() <= cx.text@.len(),
    ensures
        final(ranges).wf(),
        scan_view(final(members)@, final(ranges)@, diags_view(final(diags)@)) == scan_member(
            *cx,
            ename@,
            line@,
            ls as int,
            scan_view(old(members)@, old(ranges)@, diags_view(old(diags)@)),
        ),
{
    let ghost st = scan_view(old(members)@, old(ranges)@, diags_view(old(diags)@));
    let (m, title) = member_parts(line);
    if m.len() == 0 {
        return;
    }
    let p = match find_sub_in(line, &m) {
        Some(p) => {
            proof {
                lemma_find_sub_from(line@, m@, 0);
            }
            p
        },
        None => 0,
    };
    let mr = span(cx, ls + p, m.len());
    let ghost st2 = if st.ranges.contains_key(m@) {
        MemberScan {
            diags: st.diags + seq![
                diag(
                    *cx,
                    mr,
                    Severity::Error,
                    DiagnosticCode::Validation,
                    "Duplicate enum member `"@ + m@ + "` in enum `"@ + ename@ + "`"@,
                ),
                diag(
                    *cx,
                    st.ranges[m@],
                    Severity::Information,
                    DiagnosticCode::Validation,
                    "Previous enum member `"@ + m@ + "` defined here"@,
                ),
            ],
            ..st
        }
    } else {
        MemberScan { members: st.members.push(m@), ranges: st.ranges.insert(m@, mr), diags: st.diags }
    };
    match ranges.get(&m) {
        Some(prev) => {
            let prev = *prev;
            let mut msg = wrap_chars("Duplicate enum member `", &m, "` in enum `");
            push_chars(&mut msg, ename);
            push_str(&mut msg, "`");
            report_chars(diags, cx, mr, Severity::Error, DiagnosticCode::Validation, &msg);
            let msg2 = wrap_chars("Previous enum member `", &m, "` defined here");
            report_chars(diags, cx, prev, Severity::Information, DiagnosticCode::Validation, &msg2);
        },
        None => {
            let ghost before = members@;
            ranges.insert(m.clone(), mr);
            members.push(m.clone());
            assert(members@.map_values(|v: Vec<char>| v@) =~= before.map_values(|v: Vec<char>| v@).push(m@));
        },
    }
    assert(scan_view(members@, ranges@, diags_view(diags@)).members =~= st2.members);
    assert(scan_view(members@, ranges@, diags_view(diags@)).ranges =~= st2.ranges);
    assert(scan_view(members@, ranges@, diags_view(diags@)).diags =~= st2.diags);
    assert(scan_view(members@, ranges@, diags_view(diags@)) == st2);
    match title {
        Some(t) => {
            let ts = title_slice_of(&t);
            if !is_quoted_chars(&ts) {
                let n = line.len();
                proof {
                    assert(line@.subrange(0, n as int) =~= line@);
                    lemma_find_char(line@, '=');
                    let tr = trim(line@);
                    lemma_find_char(tr, '=');
                    let a = lemma_trim_is_inside(line@);
                    assert(line@[a + find_char(tr, '=')] == '=') by {
                        assert(line@.subrange(a, a + tr.len())[find_char(tr, '=')] == tr[find_char(tr, '=')]);
                    }
                }
                let eq = find_in(line, 0, n, '=');
                let (w, _) = trim_bounds(line, eq + 1, n);
                proof {
                    assert(line@.skip(eq + 1) =~= line@.subrange(eq + 1, n as int));
                }
                let len = if ts.len() >= 1 {
                    ts.len()
                } else {
                    1
                };
                let r = span(cx, ls + w, len);
                let msg = wrap_chars("Invalid enum title for member `", &m, "`");
                report_chars(diags, cx, r, Severity::Error, DiagnosticCode::Validation, &msg);
            }
        },
        None => {},
    }
}

/// The trimmed text is a piece of the text.
pub proof fn lemma_trim_is_inside(s: Seq<char>) -> (a: int)
    ensures
        0 <= a,
        a + trim(s).len() <= s.len(),
        s.subrange(a, a + trim(s).len()) == trim(s),
{
    lemma_trim_start_suffix(s);
    let u = trim_start(s);
    lemma_trim_end_prefix(u);
    let a = s.len() - u.len();
    assert(s.subrange(a, a + trim(s).len()) =~= trim(s)) by {
        assert(u.subrange(0, trim(s).len() as int) == trim(s));
        assert forall|k: int| 0 <= k < trim(s).len() implies s.subrange(a, a + trim(s).len())[k] == trim(s)[k] by {
            assert(u[k] == s[a + k]);
        }
    }
    a
}

proof fn lemma_trim_start_suffix(s: Seq<char>)
    ensures
        trim_start(s).len() <= s.len(),
        trim_start(s) == s.subrange(s.len() - trim_start(s).len(), s.len() as int),
    decreases s.len(),
{
    if s.len() > 0 && is_ws(s[0]) {
        lemma_trim_start_suffix(s.drop_first());
        assert(s.drop_first().subrange(s.len() - 1 - trim_start(s).len(), s.len() - 1) =~= s.subrange(
            s.len() - trim_start(s).len(),
            s.len() as int,
        ));
    } else {
        assert(s.subrange(0, s.len() as int) =~= s);
    }
}

proof fn lemma_trim_end_prefix(s: Seq<char>)
    ensures
        trim_end(s).len() <= s.len(),
        trim_end(s) == s.subrange(0, trim_end(s).len() as int),
    decreases s.len(),
{
    if s.len() > 0 && is_ws(s.last()) {
        lemma_trim_end_prefix(s.drop_last());
        assert(s.drop_last().subrange(0, trim_end(s).len() as int) =~= s.subrange(0, trim_end(s).len() as int));
    } else {
        assert(s.subrange(0, s.len() as int) =~= s);
    }
}

/// Scans the member lines below the enum header on line `i`.
fn scan_members(cx: &Source, lines: &Vec<(usize, usize)>, ename: &Vec<char>, i: usize) -> (r: (
    Vec<Vec<char>>,
    NameMap<Range>,
    Vec<Diagnostic>,
))
    requires
        cx.wf(),
        pair_view(lines@) == text_lines_view(cx.text@),
        forall|k: int| 0 <= k < lines@.len() ==> (#[trigger] lines@[k]).0 <= lines@[k].1 <= cx.text@.len(),
        i < lines@.len(),
    ensures
        r.1.wf(),
        scan_view(r.0@, r.1@, diags_view(r.2@)) == members_upto(
            *cx,
            pair_view(lines@),
            ename@,
            i as int,
            block_end(cx.text@, pair_view(lines@), i + 1),
        ),
{
    let ghost ls = pair_view(lines@);
    let n = lines.len();
    let mut members: Vec<Vec<char>> = Vec::new();
    let mut ranges: NameMap<Range> = NameMap::new();
    let mut diags: Vec<Diagnostic> = Vec::new();
    let mut j = i + 1;
    let mut stop = false;
    proof {
        assert(scan_view(members@, ranges@, diags_view(diags@)).members =~= Seq::<Seq<char>>::empty());
        assert(diags_view(diags@) =~= Seq::<DiagView>::empty());
        assert(scan_view(members@, ranges@, diags_view(diags@)) == members_upto(*cx, ls, ename@, i as int, j as int));
    }
    while j < n && !stop
        invariant
            cx.wf(),
            ls == pair_view(lines@),
            forall|k: int| 0 <= k < lines@.len() ==> (#[trigger] lines@[k]).0 <= lines@[k].1 <= cx.text@.len(),
            n == lines@.len(),
            i < n,
            i + 1 <= j <= n,
            ranges.wf(),
            !stop ==> block_end(cx.text@, ls, i + 1) == block_end(cx.text@, ls, j as int),
            stop ==> block_end(cx.text@, ls, i + 1) == j,
            scan_view(members@, ranges@, diags_view(diags@)) == members_upto(*cx, ls, ename@, i as int, j as int),
        decreases n - j + if stop { 0int } else { 1int },
    {
        let (s, e) = lines[j];
        let line = slice_chars(cx.text, s, e);
        assert(ls[j as int] == (s as int, e as int));
        assert(line@ == line_at(cx.text@, ls, j as int));
        if is_blank(&line) {
            j = j + 1;
        } else if line.len() > 0 && (line[0] == ' ' || line[0] == '\t') {
            scan_member_line(cx, ename, &line, s, &mut members, &mut ranges, &mut diags);
            j = j + 1;
        } else {
            stop = true;
        }
    }
    (members, ranges, diags)
}

/// The enums the text declares, in order.
pub fn scan_enum_declarations(cx: &Source) -> (r: Vec<EnumDecl>)
    requires
        cx.wf(),
    ensures
        r@.map_values(|d: EnumDecl| decl_view(d)) == enum_decls(*cx),
        forall|k: int| 0 <= k < r@.len() ==> (#[trigger] r@[k]).ranges.wf(),
{
    let lines = text_lines(cx.text);
    let ghost ls = pair_view(lines@);
    let n = lines.len();
    let mut out: Vec<EnumDecl> = Vec::new();
    let mut k: usize = 0;
    while k < n
        invariant
            cx.wf(),
            ls == pair_view(lines@),
            ls == text_lines_view(cx.text@),
            forall|q: int| 0 <= q < lines@.len() ==> (#[trigger] lines@[q]).0 <= lines@[q].1 <= cx.text@.len(),
            n == lines@.len(),
            k <= n,
            out@.map_values(|d: EnumDecl| decl_view(d)) == decls_upto(*cx, ls, k as int),
            forall|q: int| 0 <= q < out@.len() ==> (#[trigger] out@[q]).ranges.wf(),
        decreases n - k,
    {
        let (s, e) = lines[k];
        let line = slice_chars(cx.text, s, e);
        assert(ls[k as int] == (s as int, e as int));
        assert(line@ == line_at(cx.text@, ls, k as int));
        match enum_header_of(&line) {
            Some((name, p)) => {
                proof {
                    lemma_find_sub_from(line@, name@, 0);
                }
                let range = span(cx, s + p, name.len());
                let (members, ranges, diags) = scan_members(cx, &lines, &name, k);
                let ghost before = out@;
                out.push(EnumDecl { name, range, members, ranges, diags });
                assert(out@.map_values(|d: EnumDecl| decl_view(d)) =~= before.map_values(|d: EnumDecl| decl_view(d)).push(
                    decl_view(out@[before.len() as int]),
                ));
            },
            None => {},
        }
        k = k + 1;
    }
    out
}


/// The innermost scope once the names of the first `k` declared enums are
/// defined.
pub open spec fn scope_after(a: Analyzer, decls: Seq<EnumDeclView>, k: int) -> Map<Seq<char>, usize>
    decreases k,
{
    if k <= 0 {
        a.scopes@[a.scopes@.len() - 1].symbols@
    } else {
        scope_after(a, decls, k - 1).insert(decls[k - 1].name, (a.definitions@.len() + k - 1) as usize)
    }
}

/// The selection range of definition `e` once the declared enums are defined.
pub open spec fn def_sel(a: Analyzer, decls: Seq<EnumDeclView>, e: int) -> Range {
    if e < a.definitions@.len() {
        a.definitions@[e].selection_range
    } else {
        decls[e - a.definitions@.len()].range
    }
}

/// The scope depth of definition `e` once the declared enums are defined.
pub open spec fn def_depth(a: Analyzer, decls: Seq<EnumDeclView>, e: int) -> int {
    if e < a.definitions@.len() {
        a.definitions@[e].scope_depth as int
    } else {
        depth_of(a.scopes@)
    }
}

/// What `q` resolves to once the names of the first `k` declared enums are defined.
pub open spec fn resolves_after(a: Analyzer, decls: Seq<EnumDeclView>, k: int, q: Seq<char>) -> Option<usize> {
    if a.scopes@.len() > 0 && scope_after(a, decls, k).contains_key(q) {
        Some(scope_after(a, decls, k)[q])
    } else {
        a.resolves(q)
    }
}

/// What defining the name of declared enum `k` reports (see `define_diags`).
pub open spec fn enum_define_diags(a: Analyzer, cx: Source, decls: Seq<EnumDeclView>, k: int) -> Seq<DiagView> {
    let name = decls[k].name;
    let sel = decls[k].range;
    let m = scope_after(a, decls, k);
    let dup = if a.scopes@.len() > 0 && m.contains_key(name) {
        seq![
            diag(cx, sel, Severity::Warning, DiagnosticCode::Style, "Duplicate definition of `"@ + name + "`"@),
            diag(
                cx,
                def_sel(a, decls, m[name] as int),
                Severity::Information,
                DiagnosticCode::Style,
                "Previous definition of `"@ + name + "`"@,
            ),
        ]
    } else {
        Seq::empty()
    };
    let shadow = if cx.settings.enable_shadowing_warnings {
        match resolves_after(a, decls, k, name) {
            Some(e) => if def_depth(a, decls, e as int) < depth_of(a.scopes@) {
                seq![
                    diag(cx, sel, Severity::Hint, DiagnosticCode::Style, "`"@ + name + "` shadows an outer definition"@),
                    diag(
                        cx,
                        def_sel(a, decls, e as int),
                        Severity::Information,
                        DiagnosticCode::Style,
                        "`"@ + name + "` previously defined here"@,
                    ),
                ]
            } else {
                Seq::empty()
            },
            None => Seq::empty(),
        }
    } else {
        Seq::empty()
    };
    dup + shadow
}

/// The diagnostics of the first `k` declared enums: for each, what defining
/// its name reports, then what scanning its members found.
pub open spec fn enum_diags(a: Analyzer, cx: Source, decls: Seq<EnumDeclView>, k: int) -> Seq<DiagView>
    decreases k,
{
    if k <= 0 {
        Seq::empty()
    } else {
        enum_diags(a, cx, decls, k - 1) + enum_define_diags(a, cx, decls, k - 1) + decls[k - 1].scan.diags
    }
}

/// Character vectors as plain sequences.
pub open spec fn words_view(v: Seq<Vec<char>>) -> Seq<Seq<char>> {
    v.map_values(|w: Vec<char>| w@)
}

/// The members of each enum as plain values.
pub open spec fn members_view(m: Map<Seq<char>, Vec<Vec<char>>>) -> Map<Seq<char>, Seq<Seq<char>>> {
    m.map_values(|v: Vec<Vec<char>>| words_view(v@))
}

/// The member ranges of each enum as plain values.
pub open spec fn member_ranges_view(m: Map<Seq<char>, NameMap<Range>>) -> Map<Seq<char>, Map<Seq<char>, Range>> {
    m.map_values(|r: NameMap<Range>| r@)
}

/// The enum members once the first `k` declared enums with members are recorded.
pub open spec fn enums_after(m: Map<Seq<char>, Seq<Seq<char>>>, decls: Seq<EnumDeclView>, k: int) -> Map<
    Seq<char>,
    Seq<Seq<char>>,
>
    decreases k,
{
    if k <= 0 {
        m
    } else if decls[k - 1].scan.members.len() > 0 {
        enums_after(m, decls, k - 1).insert(decls[k - 1].name, decls[k - 1].scan.members)
    } else {
        enums_after(m, decls, k - 1)
    }
}

/// The member ranges once the first `k` declared enums with members are recorded.
pub open spec fn member_ranges_after(
    m: Map<Seq<char>, Map<Seq<char>, Range>>,
    decls: Seq<EnumDeclView>,
    k: int,
) -> Map<Seq<char>, Map<Seq<char>, Range>>
    decreases k,
{
    if k <= 0 {
        m
    } else if decls[k - 1].scan.members.len() > 0 {
        member_ranges_after(m, decls, k - 1).insert(decls[k - 1].name, decls[k - 1].scan.ranges)
    } else {
        member_ranges_after(m, decls, k - 1)
    }
}

/// Defining the name of declared enum `k` in the state `b` reached after the
/// first `k` reports what `enum_define_diags` says.
proof fn lemma_enum_step(a: Analyzer, b: Analyzer, cx: Source, dv: Seq<EnumDeclView>, k: int)
    requires
        b.wf(),
        0 <= k < dv.len(),
        b.definitions@.len() == a.definitions@.len() + k,
        forall|j: int| 0 <= j < a.definitions@.len() ==> b.definitions@[j] == a.definitions@[j],
        forall|q: int|
            0 <= q < k ==> def_view(b.definitions@[a.definitions@.len() + q]) == (DefView {
                name: (#[trigger] dv[q]).name,
                kind: SymbolKind::Type,
                range: dv[q].range,
                selection_range: dv[q].range,
                ty: TypeModel::UserDefined(dv[q].name),
                scope_depth: depth_of(a.scopes@),
                is_builtin: false,
            }),
        b.scopes@.len() == a.scopes@.len(),
        a.scopes@.len() > 0 ==> b.scopes@[a.scopes@.len() - 1].symbols@ == scope_after(a, dv, k),
        forall|q: Seq<char>| #[trigger] b.resolves(q) == resolves_after(a, dv, k, q),
    ensures
        define_diags(b, cx, dv[k].name, dv[k].range, false) == enum_define_diags(a, cx, dv, k),
{
    let n = a.scopes@.len() as int;
    let d0 = a.definitions@.len() as int;
    let name = dv[k].name;
    if n > 0 && b.scopes@[n - 1].symbols@.contains_key(name) {
        let e = b.scopes@[n - 1].symbols@[name] as int;
        assert(b.scopes@[n - 1].symbols.wf());
        assert(e < b.definitions@.len());
        if e >= d0 {
            assert(dv[e - d0] == dv[e - d0]);
            assert(b.definitions@[d0 + (e - d0)].selection_range == dv[e - d0].range);
        }
    }
    match b.resolves(name) {
        Some(e) => {
            lemma_resolves_bound(b, name, n);
            assert(e < d0 + k);
            if e >= d0 {
                let q = e - d0;
                assert(0 <= q < k);
                assert(def_view(b.definitions@[a.definitions@.len() + q]).name == dv[q].name);
                assert(b.definitions@[d0 + q].scope_depth == depth_of(a.scopes@));
            }
        },
        None => {},
    }
    assert(define_diags(b, cx, name, dv[k].range, false) =~= enum_define_diags(a, cx, dv, k));
}

impl Analyzer {
    /// Defines the name of a declared enum as a type, reports what scanning
    /// its members found, and records its members when it has any.
    fn add_enum_decl(&mut self, cx: &Source, d: EnumDecl)
        requires
            old(self).wf(),
            cx.wf(),
            d.ranges.wf(),
        ensures
            final(self).wf(),
            final(self).definitions@ == old(self).definitions@.push(final(self).definitions@.last()),
            def_view(final(self).definitions@.last()) == (DefView {
                name: d.name@,
                kind: SymbolKind::Type,
                range: d.range,
                selection_range: d.range,
                ty: TypeModel::UserDefined(d.name@),
                scope_depth: depth_of(old(self).scopes@),
                is_builtin: false,
            }),
            final(self).scopes@.len() == old(self).scopes@.len(),
            old(self).scopes@.len() > 0 ==> final(self).scopes@.last().symbols@ == old(self).scopes@.last().symbols@.insert(
                d.name@,
                old(self).definitions@.len() as usize,
            ),
            old(self).scopes@.len() > 0 ==> final(self).resolves(d.name@) == Some(old(self).definitions@.len() as usize),
            forall|other: Seq<char>| other != d.name@ ==> final(self).resolves(other) == old(self).resolves(other),
            diags_view(final(self).diagnostics@) == diags_view(old(self).diagnostics@) + define_diags(
                *old(self),
                *cx,
                d.name@,
                d.range,
                false,
            ) + diags_view(d.diags@),
            d.members@.len() > 0 ==> members_view(final(self).enums@) == members_view(old(self).enums@).insert(
                d.name@,
                words_view(d.members@),
            ),
            d.members@.len() > 0 ==> member_ranges_view(final(self).enum_member_ranges@) == member_ranges_view(
                old(self).enum_member_ranges@,
            ).insert(d.name@, d.ranges@),
            d.members@.len() == 0 ==> final(self).enums == old(self).enums,
            d.members@.len() == 0 ==> final(self).enum_member_ranges == old(self).enum_member_ranges,
            *final(self) == (Analyzer {
                definitions: final(self).definitions,
                scopes: final(self).scopes,
                diagnostics: final(self).diagnostics,
                enums: final(self).enums,
                enum_member_ranges: final(self).enum_member_ranges,
                ..*old(self)
            }),
    {
        let ghost a = *self;
        let EnumDecl { name, range, members, ranges, diags } = d;
        let tyname = string_of(name.as_slice());
        let _ = self.define_symbol(cx, name.clone(), SymbolKind::Type, range, range, Type::UserDefined(tyname), false);
        let ghost c = *self;
        let mut diags = diags;
        let ghost before = self.diagnostics@;
        let ghost extra = diags@;
        self.diagnostics.append(&mut diags);
        proof {
            assert(diags_view(self.diagnostics@) =~= diags_view(before) + diags_view(extra));
            assert(diags_view(before) =~= diags_view(a.diagnostics@) + Analyzer::added(a, c));
        }
        if members.len() > 0 {
            let ghost em = self.enums@;
            let ghost rm = self.enum_member_ranges@;
            let ghost mv = words_view(members@);
            self.enums.insert(name.clone(), members);
            self.enum_member_ranges.insert(name, ranges);
            proof {
                assert(members_view(self.enums@) =~= members_view(em).insert(d.name@, mv));
                assert(member_ranges_view(self.enum_member_ranges@) =~= member_ranges_view(rm).insert(d.name@, d.ranges@));
            }
        }
    }

    /// Finds the enums that the text declares and, for each in turn, defines
    /// its name as a type, reports what scanning its members found, and, when
    /// it has members, records them with their ranges.
    pub fn collect_enum_declarations(&mut self, cx: &Source)
        requires
            old(self).wf(),
            cx.wf(),
        ensures
            final(self).wf(),
            final(self).definitions@.len() == old(self).definitions@.len() + enum_decls(*cx).len(),
            forall|j: int|
                0 <= j < old(self).definitions@.len() ==> final(self).definitions@[j] == old(self).definitions@[j],
            forall|k: int|
                0 <= k < enum_decls(*cx).len() ==> def_view(final(self).definitions@[old(self).definitions@.len() + k])
                    == (DefView {
                    name: (#[trigger] enum_decls(*cx)[k]).name,
                    kind: SymbolKind::Type,
                    range: enum_decls(*cx)[k].range,
                    selection_range: enum_decls(*cx)[k].range,
                    ty: TypeModel::UserDefined(enum_decls(*cx)[k].name),
                    scope_depth: depth_of(old(self).scopes@),
                    is_builtin: false,
                }),
            final(self).scopes@.len() == old(self).scopes@.len(),
            forall|q: Seq<char>|
                #[trigger] final(self).resolves(q) == resolves_after(
                    *old(self),
                    enum_decls(*cx),
                    enum_decls(*cx).len() as int,
                    q,
                ),
            Analyzer::diags_grow(*old(self), *final(self)),
            Analyzer::added(*old(self), *final(self)) == enum_diags(
                *old(self),
                *cx,
                enum_decls(*cx),
                enum_decls(*cx).len() as int,
            ),
            members_view(final(self).enums@) == enums_after(
                members_view(old(self).enums@),
                enum_decls(*cx),
                enum_decls(*cx).len() as int,
            ),
            member_ranges_view(final(self).enum_member_ranges@) == member_ranges_after(
                member_ranges_view(old(self).enum_member_ranges@),
                enum_decls(*cx),
                enum_decls(*cx).len() as int,
            ),
            *final(self) == (Analyzer {
                definitions: final(self).definitions,
                scopes: final(self).scopes,
                diagnostics: final(self).diagnostics,
                enums: final(self).enums,
                enum_member_ranges: final(self).enum_member_ranges,
                ..*old(self)
            }),
    {
        let ghost a = *self;
        let ghost dv = enum_decls(*cx);
        let ghost d0 = a.definitions@.len() as int;
        let ghost n = a.scopes@.len() as int;
        let mut decls = scan_enum_declarations(cx);
        let nd = decls.len();
        let mut k: usize = 0;
        proof {
            assert forall|q: Seq<char>| #[trigger] self.resolves(q) == resolves_after(a, dv, 0, q) by {
                if n > 0 && scope_after(a, dv, 0).contains_key(q) {
                    assert(a.scopes@[n - 1].symbols@.contains_key(q));
                }
            }
            assert(diags_view(self.diagnostics@) =~= diags_view(a.diagnostics@) + enum_diags(a, *cx, dv, 0));
        }
        while k < nd
            invariant
                a.wf(),
                cx.wf(),
                self.wf(),
                dv == enum_decls(*cx),
                nd == dv.len(),
                d0 == a.definitions@.len(),
                n == a.scopes@.len(),
                k <= nd,
                decls@.len() == nd - k,
                forall|q: int| 0 <= q < decls@.len() ==> decl_view(#[trigger] decls@[q]) == dv[k + q],
                forall|q: int| 0 <= q < decls@.len() ==> (#[trigger] decls@[q]).ranges.wf(),
                self.definitions@.len() == d0 + k,
                forall|j: int| 0 <= j < d0 ==> self.definitions@[j] == a.definitions@[j],
                forall|q: int|
                    0 <= q < k ==> def_view(self.definitions@[d0 + q]) == (DefView {
                        name: (#[trigger] dv[q]).name,
                        kind: SymbolKind::Type,
                        range: dv[q].range,
                        selection_range: dv[q].range,
                        ty: TypeModel::UserDefined(dv[q].name),
                        scope_depth: depth_of(a.scopes@),
                        is_builtin: false,
                    }),
                self.scopes@.len() == n,
                n > 0 ==> self.scopes@[n - 1].symbols@ == scope_after(a, dv, k as int),
                forall|q: Seq<char>| #[trigger] self.resolves(q) == resolves_after(a, dv, k as int, q),
                diags_view(self.diagnostics@) == diags_view(a.diagnostics@) + enum_diags(a, *cx, dv, k as int),
                members_view(self.enums@) == enums_after(members_view(a.enums@), dv, k as int),
                member_ranges_view(self.enum_member_ranges@) == member_ranges_after(
                    member_ranges_view(a.enum_member_ranges@),
                    dv,
                    k as int,
                ),
                *self == (Analyzer {
                    definitions: self.definitions,
                    scopes: self.scopes,
                    diagnostics: self.diagnostics,
                    enums: self.enums,
                    enum_member_ranges: self.enum_member_ranges,
                    ..a
                }),
            decreases nd - k,
        {
            let ghost b = *self;
            let ghost rest = decls@;
            let d = decls.remove(0);
            let ghost dk = dv[k as int];
            assert(decl_view(rest[0]) == dk);
            proof {
                lemma_enum_step(a, b, *cx, dv, k as int);
            }
            self.add_enum_decl(cx, d);
            proof {
                let f = *self;
                assert(diags_view(f.diagnostics@) =~= diags_view(a.diagnostics@) + enum_diags(a, *cx, dv, k + 1));
                assert forall|q: Seq<char>| #[trigger] f.resolves(q) == resolves_after(a, dv, k + 1, q) by {
                    if q != dk.name {
                        assert(f.resolves(q) == b.resolves(q));
                    }
                }
                assert forall|q: int|
                    0 <= q < k + 1 implies def_view(f.definitions@[d0 + q]) == (DefView {
                        name: (#[trigger] dv[q]).name,
                        kind: SymbolKind::Type,
                        range: dv[q].range,
                        selection_range: dv[q].range,
                        ty: TypeModel::UserDefined(dv[q].name),
                        scope_depth: depth_of(a.scopes@),
                        is_builtin: false,
                    }) by {
                    if q < k {
                        assert(f.definitions@[d0 + q] == b.definitions@[d0 + q]);
                    }
                }
                assert forall|q: int| 0 <= q < decls@.len() implies decl_view(#[trigger] decls@[q]) == dv[k + 1 + q] by {
                    assert(decls@[q] == rest[q + 1]);
                }
                assert forall|q: int| 0 <= q < decls@.len() implies (#[trigger] decls@[q]).ranges.wf() by {
                    assert(decls@[q] == rest[q + 1]);
                }
                if n > 0 {
                    assert(f.scopes@.last() == f.scopes@[n - 1]);
                    assert(b.scopes@.last() == b.scopes@[n - 1]);
                }
            }
            k = k + 1;
        }
        proof {
            lemma_reports_grow(a, *self, enum_diags(a, *cx, dv, nd as int));
        }
    }
}

} // verus!
