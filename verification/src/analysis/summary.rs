//! What the analysis adds around the walk of the tree: the built-in values a
//! document starts with, unused symbols and enum members, names used before
//! their definition, and the outline of the top-level symbols.

use vstd::prelude::*;

use crate::analysis::{
    lemma_reports_grow, Analyzer, DiagnosticCode, DiagView, DocumentSymbol, Severity, Source, SymbolDef,
    SymbolKind, SymbolRef, diag, diags_view, kind_text,
};
use crate::analysis::diag::report_chars;
use crate::analysis::symbols::{DefView, def_view, define_diags, depth_of};
use crate::builtins::{keys_unique, lemma_keyed_table_unique};
use crate::fmt::{push_chars, push_str, wrap_chars};
use crate::position::{Position, Range};
use crate::text::{chars_eq, chars_of, find_char, find_in, slice_chars, string_of};
use crate::types::{Type, TypeModel, type_text};

verus! {

/// The diagnostics that defining built-in `name` reports: a duplicate when
/// the innermost scope already holds it.
pub open spec fn seed_step(a: Analyzer, cx: Source, name: Seq<char>) -> Seq<DiagView> {
    let n = a.scopes@.len();
    if n > 0 && a.scopes@[n - 1].symbols@.contains_key(name) {
        seq![
            diag(cx, Range::zero_spec(), Severity::Warning, DiagnosticCode::Style, "Duplicate definition of `"@ + name + "`"@),
            diag(
                cx,
                a.definitions@[a.scopes@[n - 1].symbols@[name] as int].selection_range,
                Severity::Information,
                DiagnosticCode::Style,
                "Previous definition of `"@ + name + "`"@,
            ),
        ]
    } else {
        Seq::empty()
    }
}

/// The diagnostics that seeding the first `k` built-in values reports.
pub open spec fn seed_diags(a: Analyzer, cx: Source, k: int) -> Seq<DiagView>
    decreases k,
{
    if k <= 0 {
        Seq::empty()
    } else {
        seed_diags(a, cx, k - 1) + seed_step(a, cx, cx.builtins.value_seq()[k - 1].0)
    }
}

/// Whether one of the first `i` entries is named `q`.
pub open spec fn seeded(vs: Seq<(Seq<char>, TypeModel)>, i: int, q: Seq<char>) -> bool {
    exists|k: int| 0 <= k < i && (#[trigger] vs[k]).0 == q
}

/// Whether one of the first `j` references resolved to definition `d`.
pub open spec fn referenced_upto(refs: Seq<SymbolRef>, j: int, d: int) -> bool {
    exists|i: int| 0 <= i < j && (#[trigger] refs[i]).def_index == Some(d as usize)
}

/// Whether some reference resolved to definition `d`.
pub open spec fn is_referenced(refs: Seq<SymbolRef>, d: int) -> bool {
    referenced_upto(refs, refs.len() as int, d)
}

/// The hint for an unused definition.
pub open spec fn unused_message(d: SymbolDef) -> Seq<char> {
    "Unused "@ + kind_text(d.kind) + " `"@ + d.name@ + "`"@
}

/// The hints for the definitions among the first `k` that are not built in
/// and that no reference resolved to.
pub open spec fn unused_def_diags(a: Analyzer, cx: Source, k: int) -> Seq<DiagView>
    decreases k,
{
    if k <= 0 {
        Seq::empty()
    } else {
        let d = a.definitions@[k - 1];
        unused_def_diags(a, cx, k - 1) + if !d.is_builtin && !is_referenced(a.references@, k - 1) {
            seq![diag(cx, d.selection_range, Severity::Hint, DiagnosticCode::Style, unused_message(d))]
        } else {
            Seq::empty()
        }
    }
}

/// The enum and member that a reference name `E.m` or `E.m.rest` speaks
/// of: the text before the first dot, and the text after it up to the next.
pub open spec fn member_ref(name: Seq<char>) -> Option<(Seq<char>, Seq<char>)> {
    let i = find_char(name, '.');
    if i >= name.len() {
        None
    } else {
        let j = i + 1 + find_char(name.subrange(i + 1, name.len() as int), '.');
        Some((name.subrange(0, i), name.subrange(i + 1, j)))
    }
}

/// Whether one of the first `q` references names member `m` of enum `e`.
pub open spec fn names_member_upto(refs: Seq<SymbolRef>, q: int, e: Seq<char>, m: Seq<char>) -> bool {
    exists|i: int| 0 <= i < q && member_ref((#[trigger] refs[i]).name@) == Some((e, m))
}

/// Whether some reference names member `m` of enum `e`.
pub open spec fn member_used(a: Analyzer, e: Seq<char>, m: Seq<char>) -> bool {
    names_member_upto(a.references@, a.references@.len() as int, e, m)
}

/// The hints for the first `k` members of enum `e` that no reference names,
/// at the ranges recorded for them.
pub open spec fn unused_members_of(
    a: Analyzer,
    cx: Source,
    e: Seq<char>,
    members: Seq<Vec<char>>,
    ranges: Map<Seq<char>, Range>,
    k: int,
) -> Seq<DiagView>
    decreases k,
{
    if k <= 0 {
        Seq::empty()
    } else {
        let m = members[k - 1]@;
        unused_members_of(a, cx, e, members, ranges, k - 1) + if !member_used(a, e, m) && ranges.contains_key(m) {
            seq![diag(cx, ranges[m], Severity::Hint, DiagnosticCode::Style, "Unused enum member `"@ + e + "."@ + m + "`"@)]
        } else {
            Seq::empty()
        }
    }
}

/// The hints for unused members of the first `k` enums, in the order the
/// enums were declared.
pub open spec fn unused_member_diags(a: Analyzer, cx: Source, k: int) -> Seq<DiagView>
    decreases k,
{
    if k <= 0 {
        Seq::empty()
    } else {
        let e = a.enums.keys_seq()[k - 1];
        unused_member_diags(a, cx, k - 1) + if a.enum_member_ranges@.contains_key(e) {
            let members = a.enums@[e]@;
            unused_members_of(a, cx, e, members, a.enum_member_ranges@[e]@, members.len() as int)
        } else {
            Seq::empty()
        }
    }
}

/// Whether `p` comes after `q` in the text.
pub open spec fn pos_after(p: Position, q: Position) -> bool {
    p.line > q.line || (p.line == q.line && p.character > q.character)
}

/// Whether reference `j` is unresolved and the first unresolved one of its name.
pub open spec fn first_unresolved(refs: Seq<SymbolRef>, j: int) -> bool {
    &&& refs[j].def_index is None
    &&& forall|i: int| 0 <= i < j && (#[trigger] refs[i]).def_index is None ==> refs[i].name@ != refs[j].name@
}

/// The selection range of the first definition from index `i` on that is
/// not built in, is named `name` and starts after `pos`.
pub open spec fn later_def(defs: Seq<SymbolDef>, name: Seq<char>, pos: Position, i: int) -> Option<Range>
    decreases defs.len() - i,
{
    if i >= defs.len() {
        None
    } else if !defs[i].is_builtin && defs[i].name@ == name && pos_after(defs[i].selection_range.start, pos) {
        Some(defs[i].selection_range)
    } else {
        later_def(defs, name, pos, i + 1)
    }
}

/// The hints for the first `k` references: each first unresolved use of a
/// name whose definition comes later gets a hint and a note at that definition.
pub open spec fn use_before_diags(a: Analyzer, cx: Source, k: int) -> Seq<DiagView>
    decreases k,
{
    if k <= 0 {
        Seq::empty()
    } else {
        let r = a.references@[k - 1];
        use_before_diags(a, cx, k - 1) + if first_unresolved(a.references@, k - 1) {
            match later_def(a.definitions@, r.name@, r.range.start, 0) {
                Some(dr) => seq![
                    diag(
                        cx,
                        r.range,
                        Severity::Hint,
                        DiagnosticCode::Logic,
                        "Possible use before definition of `"@ + r.name@ + "`; definition appears later"@,
                    ),
                    diag(cx, dr, Severity::Information, DiagnosticCode::Logic, "`"@ + r.name@ + "` defined here"@),
                ],
                None => Seq::empty(),
            }
        } else {
            Seq::empty()
        }
    }
}

/// An outline entry as plain values.
pub struct OutlineView {
    pub name: Seq<char>,
    pub detail: Option<Seq<char>>,
    pub kind: SymbolKind,
    pub range: Range,
    pub selection_range: Range,
}

pub open spec fn outline_view(d: DocumentSymbol) -> OutlineView {
    OutlineView {
        name: d.name@,
        detail: match d.detail {
            Some(s) => Some(s@),
            None => None,
        },
        kind: d.kind,
        range: d.range,
        selection_range: d.selection_range,
    }
}

pub open spec fn outline_views(v: Seq<DocumentSymbol>) -> Seq<OutlineView> {
    v.map_values(|d: DocumentSymbol| outline_view(d))
}

/// The outline entries of the first `k` definitions: those of the document
/// (not built in) at the top level, with their type as detail.
pub open spec fn outline(defs: Seq<SymbolDef>, k: int) -> Seq<OutlineView>
    decreases k,
{
    if k <= 0 {
        Seq::empty()
    } else {
        let d = defs[k - 1];
        outline(defs, k - 1) + if !d.is_builtin && d.scope_depth == 0 {
            seq![
                OutlineView {
                    name: d.name@,
                    detail: Some(type_text(d.ty.model())),
                    kind: d.kind,
                    range: d.range,
                    selection_range: d.selection_range,
                },
            ]
        } else {
            Seq::empty()
        }
    }
}

/// Whether the reference name `name` speaks of member `m` of enum `e`.
fn names_member(name: &Vec<char>, e: &Vec<char>, m: &Vec<char>) -> (r: bool)
    ensures
        r == (member_ref(name@) == Some((e@, m@))),
{
    let n = name.len();
    proof {
        assert(name@.subrange(0, n as int) =~= name@);
    }
    let i = find_in(name, 0, n, '.');
    if i >= n {
        return false;
    }
    let j = find_in(name, i + 1, n, '.');
    let head = slice_chars(name, 0, i);
    let tail = slice_chars(name, i + 1, j);
    chars_eq(&head, e) && chars_eq(&tail, m)
}

impl Analyzer {
    /// Defines every built-in value in the innermost scope, as a built-in
    /// symbol with empty ranges, in the order of the built-in table.
    pub fn seed_builtins(&mut self, cx: &Source)
        requires
            old(self).wf(),
            cx.wf(),
        ensures
            final(self).wf(),
            final(self).definitions@.len() == old(self).definitions@.len() + cx.builtins.value_seq().len(),
            forall|j: int|
                0 <= j < old(self).definitions@.len() ==> final(self).definitions@[j] == old(self).definitions@[j],
            forall|k: int|
                0 <= k < cx.builtins.value_seq().len() ==> def_view(
                    final(self).definitions@[old(self).definitions@.len() + k],
                ) == (DefView {
                    name: (#[trigger] cx.builtins.value_seq()[k]).0,
                    kind: SymbolKind::Builtin,
                    range: Range::zero_spec(),
                    selection_range: Range::zero_spec(),
                    ty: cx.builtins.value_seq()[k].1,
                    scope_depth: depth_of(old(self).scopes@),
                    is_builtin: true,
                }),
            old(self).scopes@.len() > 0 ==> forall|k: int|
                0 <= k < cx.builtins.value_seq().len() ==> final(self).resolves(
                    (#[trigger] cx.builtins.value_seq()[k]).0,
                ) == Some((old(self).definitions@.len() + k) as usize),
            forall|other: Seq<char>|
                !cx.builtins.values_view().contains_key(other) ==> final(self).resolves(other) == old(
                    self,
                ).resolves(other),
            final(self).scopes@.len() == old(self).scopes@.len(),
            *final(self) == (Analyzer {
                definitions: final(self).definitions,
                scopes: final(self).scopes,
                diagnostics: final(self).diagnostics,
                ..*old(self)
            }),
            Analyzer::diags_grow(*old(self), *final(self)),
            Analyzer::added(*old(self), *final(self)) == seed_diags(
                *old(self),
                *cx,
                cx.builtins.value_seq().len() as int,
            ),
    {
        let ghost a = *self;
        let ghost vs = cx.builtins.value_seq();
        let ghost d0 = a.definitions@.len();
        let ghost n = a.scopes@.len();
        let vals = cx.builtins.values();
        proof {
            lemma_keyed_table_unique(vs);
        }
        let mut i: usize = 0;
        while i < vals.len()
            invariant
                a.wf(),
                cx.wf(),
                self.wf(),
                vs == cx.builtins.value_seq(),
                vals@.map_values(|v: (String, Type)| (v.0@, v.1.model())) == vs,
                keys_unique(vs),
                d0 == a.definitions@.len(),
                n == a.scopes@.len(),
                i <= vals@.len(),
                self.definitions@.len() == d0 + i,
                forall|j: int| 0 <= j < d0 ==> self.definitions@[j] == a.definitions@[j],
                forall|k: int|
                    0 <= k < i ==> def_view(self.definitions@[d0 + k]) == (DefView {
                        name: (#[trigger] vs[k]).0,
                        kind: SymbolKind::Builtin,
                        range: Range::zero_spec(),
                        selection_range: Range::zero_spec(),
                        ty: vs[k].1,
                        scope_depth: depth_of(a.scopes@),
                        is_builtin: true,
                    }),
                self.scopes@.len() == n,
                forall|s: int| 0 <= s < n - 1 ==> self.scopes@[s] == a.scopes@[s],
                n > 0 ==> forall|q: Seq<char>|
                    #![trigger self.scopes@[n - 1].symbols@.contains_key(q)]
                    !seeded(vs, i as int, q) ==> (
                    self.scopes@[n - 1].symbols@.contains_key(q) == a.scopes@[n - 1].symbols@.contains_key(q)
                        && (a.scopes@[n - 1].symbols@.contains_key(q) ==> self.scopes@[n - 1].symbols@[q]
                        == a.scopes@[n - 1].symbols@[q])),
                n > 0 ==> forall|k: int| 0 <= k < i ==> self.resolves((#[trigger] vs[k]).0) == Some((d0 + k) as usize),
                forall|q: Seq<char>|
                    (forall|k: int| 0 <= k < i ==> (#[trigger] vs[k]).0 != q) ==> self.resolves(q) == a.resolves(q),
                *self == (Analyzer {
                    definitions: self.definitions,
                    scopes: self.scopes,
                    diagnostics: self.diagnostics,
                    ..a
                }),
                diags_view(self.diagnostics@) == diags_view(a.diagnostics@) + seed_diags(a, *cx, i as int),
            decreases vals@.len() - i,
        {
            let ghost b = *self;
            let ghost name_v = vs[i as int].0;
            assert(vs[i as int] == (vals@[i as int].0@, vals@[i as int].1.model()));
            let name = chars_of(vals[i].0.as_str());
            let ty = vals[i].1.duplicate();
            let r = self.define_symbol(cx, name, SymbolKind::Builtin, Range::zero(), Range::zero(), ty, true);
            proof {
                let c = *self;
                assert(forall|k: int| 0 <= k < i ==> (#[trigger] vs[k]).0 != name_v);
                if n > 0 {
                    assert(b.scopes@.last() == b.scopes@[n - 1]);
                    assert(b.scopes@[n - 1].symbols@.contains_key(name_v) == a.scopes@[n - 1].symbols@.contains_key(name_v));
                    if a.scopes@[n - 1].symbols@.contains_key(name_v) {
                        let e = a.scopes@[n - 1].symbols@[name_v] as int;
                        assert(e < d0);
                        assert(b.definitions@[e] == a.definitions@[e]);
                    }
                }
                assert(define_diags(b, *cx, name_v, Range::zero_spec(), true) =~= seed_step(a, *cx, name_v));
                assert(diags_view(c.diagnostics@) =~= diags_view(a.diagnostics@) + seed_diags(a, *cx, i + 1)) by {
                    assert(diags_view(c.diagnostics@) =~= diags_view(b.diagnostics@) + Analyzer::added(b, c));
                }
                assert forall|q: Seq<char>|
                    (forall|k: int| 0 <= k < i + 1 ==> (#[trigger] vs[k]).0 != q) implies c.resolves(q) == a.resolves(q) by {
                    assert(vs[i as int].0 != q);
                }
                if n > 0 {
                    assert forall|k: int| 0 <= k < i + 1 implies c.resolves((#[trigger] vs[k]).0) == Some((d0 + k) as usize) by {
                        if k < i {
                            assert(vs[k].0 != vs[i as int].0);
                        }
                    }
                    assert forall|q: Seq<char>|
                        #![trigger c.scopes@[n - 1].symbols@.contains_key(q)]
                        !seeded(vs, i + 1, q) implies (
                        c.scopes@[n - 1].symbols@.contains_key(q) == a.scopes@[n - 1].symbols@.contains_key(q)
                            && (a.scopes@[n - 1].symbols@.contains_key(q) ==> c.scopes@[n - 1].symbols@[q]
                            == a.scopes@[n - 1].symbols@[q])) by {
                        assert(vs[i as int].0 != q);
                        assert(!seeded(vs, i as int, q));
                        assert(c.scopes@.last() == c.scopes@[n - 1]);
                        assert(b.scopes@.last() == b.scopes@[n - 1]);
                        assert(b.scopes@[n - 1].symbols@.contains_key(q) == a.scopes@[n - 1].symbols@.contains_key(q));
                        assert(c.scopes@[n - 1].symbols@ == b.scopes@[n - 1].symbols@.insert(name_v, r));
                        assert(c.scopes@[n - 1].symbols@.contains_key(q) == b.scopes@[n - 1].symbols@.contains_key(q));
                    }
                }
                assert forall|k: int| 0 <= k < i + 1 implies def_view(c.definitions@[d0 + k]) == (DefView {
                    name: (#[trigger] vs[k]).0,
                    kind: SymbolKind::Builtin,
                    range: Range::zero_spec(),
                    selection_range: Range::zero_spec(),
                    ty: vs[k].1,
                    scope_depth: depth_of(a.scopes@),
                    is_builtin: true,
                }) by {
                    if k < i {
                        assert(c.definitions@[d0 + k] == b.definitions@[d0 + k]);
                    }
                }
            }
            i = i + 1;
        }
        proof {
            let c = *self;
            lemma_reports_grow(a, c, seed_diags(a, *cx, vs.len() as int));
            assert forall|other: Seq<char>| !cx.builtins.values_view().contains_key(other) implies c.resolves(other)
                == a.resolves(other) by {
                assert forall|k: int| 0 <= k < vs.len() implies (#[trigger] vs[k]).0 != other by {
                    assert(cx.builtins.values_view().contains_key(vs[k].0));
                }
            }
        }
    }
}


impl Analyzer {
    /// Reports, as hints, every definition of the document that no reference
    /// resolved to, then every member of a declared enum that no reference
    /// names.
    pub fn report_unused_symbols(&mut self, cx: &Source)
        requires
            old(self).wf(),
            cx.wf(),
        ensures
            final(self).wf(),
            Analyzer::same_state(*old(self), *final(self)),
            diags_view(final(self).diagnostics@) == diags_view(old(self).diagnostics@) + (unused_def_diags(
                *old(self),
                *cx,
                old(self).definitions@.len() as int,
            ) + unused_member_diags(*old(self), *cx, old(self).enums.len_view() as int)),
    {
        let ghost a = *self;
        let nd = self.definitions.len();
        let mut referenced: Vec<bool> = Vec::new();
        let mut d: usize = 0;
        while d < nd
            invariant
                nd == a.definitions@.len(),
                d <= nd,
                referenced@.len() == d,
                forall|k: int| 0 <= k < d ==> !(#[trigger] referenced@[k]),
            decreases nd - d,
        {
            referenced.push(false);
            d = d + 1;
        }
        let nr = self.references.len();
        let mut j: usize = 0;
        while j < nr
            invariant
                a.wf(),
                *self == a,
                nd == a.definitions@.len(),
                nr == a.references@.len(),
                j <= nr,
                referenced@.len() == nd,
                forall|k: int| 0 <= k < nd ==> (#[trigger] referenced@[k]) == referenced_upto(a.references@, j as int, k),
            decreases nr - j,
        {
            match self.references[j].def_index {
                Some(x) => {
                    referenced.set(x, true);
                },
                None => {},
            }
            proof {
                assert forall|k: int| 0 <= k < nd implies (#[trigger] referenced@[k]) == referenced_upto(
                    a.references@,
                    j + 1,
                    k,
                ) by {
                    if referenced_upto(a.references@, j + 1, k) && !referenced_upto(a.references@, j as int, k) {
                        let i = choose|i: int| 0 <= i < j + 1 && (#[trigger] a.references@[i]).def_index == Some(k as usize);
                        assert(i == j);
                    }
                    if a.references@[j as int].def_index == Some(k as usize) {
                        assert(referenced_upto(a.references@, j + 1, k));
                    }
                }
            }
            j = j + 1;
        }
        let mut k: usize = 0;
        while k < nd
            invariant
                a.wf(),
                cx.wf(),
                self.wf(),
                Analyzer::same_state(a, *self),
                nd == a.definitions@.len(),
                k <= nd,
                referenced@.len() == nd,
                forall|q: int| 0 <= q < nd ==> (#[trigger] referenced@[q]) == is_referenced(a.references@, q),
                diags_view(self.diagnostics@) == diags_view(a.diagnostics@) + unused_def_diags(a, *cx, k as int),
            decreases nd - k,
        {
            let def = &self.definitions[k];
            if !def.is_builtin && !referenced[k] {
                let range = def.selection_range;
                let mut msg = chars_of("Unused ");
                push_str(&mut msg, def.kind_name());
                push_str(&mut msg, " `");
                let name = chars_of(def.name.as_str());
                push_chars(&mut msg, &name);
                push_str(&mut msg, "`");
                report_chars(&mut self.diagnostics, cx, range, Severity::Hint, DiagnosticCode::Style, &msg);
            }
            assert(unused_def_diags(a, *cx, k + 1) == unused_def_diags(a, *cx, k as int) + if !a.definitions@[k as int].is_builtin
                && !is_referenced(a.references@, k as int) {
                seq![diag(*cx, a.definitions@[k as int].selection_range, Severity::Hint, DiagnosticCode::Style, unused_message(a.definitions@[k as int]))]
            } else {
                Seq::<DiagView>::empty()
            });
            assert(diags_view(self.diagnostics@) =~= diags_view(a.diagnostics@) + unused_def_diags(a, *cx, k + 1));
            k = k + 1;
        }
        let ghost base = diags_view(self.diagnostics@);
        let ne = self.enums.len();
        let mut e: usize = 0;
        while e < ne
            invariant
                a.wf(),
                cx.wf(),
                self.wf(),
                Analyzer::same_state(a, *self),
                ne == a.enums.len_view(),
                e <= ne,
                base == diags_view(a.diagnostics@) + unused_def_diags(a, *cx, nd as int),
                nd == a.definitions@.len(),
                diags_view(self.diagnostics@) == base + unused_member_diags(a, *cx, e as int),
            decreases ne - e,
        {
            let ghost before = diags_view(self.diagnostics@);
            let (ename, members) = self.enums.entry_at(e);
            match self.enum_member_ranges.get(ename) {
                Some(ranges) => {
                    assert(a.enum_member_ranges@[ename@].wf());
                    let mut t: usize = 0;
                    while t < members.len()
                        invariant
                            a.wf(),
                            cx.wf(),
                            self.wf(),
                            Analyzer::same_state(a, *self),
                            ranges.wf(),
                            a.enum_member_ranges@.contains_key(ename@),
                            *ranges == a.enum_member_ranges@[ename@],
                            ename@ == a.enums.keys_seq()[e as int],
                            *members == a.enums@[ename@],
                            self.references@ == a.references@,
                            t <= members@.len(),
                            diags_view(self.diagnostics@) == before + unused_members_of(
                                a,
                                *cx,
                                ename@,
                                members@,
                                ranges@,
                                t as int,
                            ),
                        decreases members@.len() - t,
                    {
                        let m = &members[t];
                        let mut used = false;
                        let mut q: usize = 0;
                        while q < self.references.len()
                            invariant
                                self.references@ == a.references@,
                                q <= a.references@.len(),
                                used == names_member_upto(a.references@, q as int, ename@, m@),
                            decreases a.references@.len() - q,
                        {
                            let rn = chars_of(self.references[q].name.as_str());
                            let hit = names_member(&rn, ename, m);
                            proof {
                                if hit {
                                    assert(names_member_upto(a.references@, q + 1, ename@, m@)) by {
                                        assert(member_ref(a.references@[q as int].name@) == Some((ename@, m@)));
                                    }
                                } else if names_member_upto(a.references@, q + 1, ename@, m@) && !used {
                                    let i = choose|i: int| 0 <= i < q + 1 && member_ref((#[trigger] a.references@[i]).name@)
                                        == Some((ename@, m@));
                                    assert(i == q);
                                }
                                if used {
                                    let i = choose|i: int| 0 <= i < q && member_ref((#[trigger] a.references@[i]).name@)
                                        == Some((ename@, m@));
                                    assert(names_member_upto(a.references@, q + 1, ename@, m@));
                                }
                            }
                            used = used || hit;
                            q = q + 1;
                        }
                        if !used {
                            match ranges.get(m) {
                                Some(range) => {
                                    let mut msg = wrap_chars("Unused enum member `", ename, ".");
                                    push_chars(&mut msg, m);
                                    push_str(&mut msg, "`");
                                    report_chars(&mut self.diagnostics, cx, *range, Severity::Hint, DiagnosticCode::Style, &msg);
                                },
                                None => {},
                            }
                        }
                        assert(diags_view(self.diagnostics@) =~= before + unused_members_of(
                            a,
                            *cx,
                            ename@,
                            members@,
                            ranges@,
                            t + 1,
                        ));
                        t = t + 1;
                    }
                },
                None => {},
            }
            assert(diags_view(self.diagnostics@) =~= base + unused_member_diags(a, *cx, e + 1));
            e = e + 1;
        }
        assert(diags_view(self.diagnostics@) =~= diags_view(a.diagnostics@) + (unused_def_diags(a, *cx, nd as int)
            + unused_member_diags(a, *cx, ne as int)));
    }

    /// Reports, for the first unresolved use of each name whose definition
    /// appears later in the text, a hint at the use and a note at the
    /// definition.
    pub fn report_use_before_definition(&mut self, cx: &Source)
        requires
            old(self).wf(),
            cx.wf(),
        ensures
            final(self).wf(),
            Analyzer::same_state(*old(self), *final(self)),
            diags_view(final(self).diagnostics@) == diags_view(old(self).diagnostics@) + use_before_diags(
                *old(self),
                *cx,
                old(self).references@.len() as int,
            ),
    {
        let ghost a = *self;
        let nr = self.references.len();
        let nd = self.definitions.len();
        let mut j: usize = 0;
        while j < nr
            invariant
                a.wf(),
                cx.wf(),
                self.wf(),
                Analyzer::same_state(a, *self),
                nr == a.references@.len(),
                nd == a.definitions@.len(),
                j <= nr,
                diags_view(self.diagnostics@) == diags_view(a.diagnostics@) + use_before_diags(a, *cx, j as int),
            decreases nr - j,
        {
            let ghost before = diags_view(self.diagnostics@);
            let reference = &self.references[j];
            if reference.def_index.is_none() {
                let mut first = true;
                let mut i: usize = 0;
                while i < j
                    invariant
                        self.references@ == a.references@,
                        j < nr == a.references@.len(),
                        *reference == a.references@[j as int],
                        i <= j,
                        first == forall|p: int|
                            0 <= p < i && (#[trigger] a.references@[p]).def_index is None ==> a.references@[p].name@
                                != a.references@[j as int].name@,
                    decreases j - i,
                {
                    if self.references[i].def_index.is_none() && self.references[i].name == reference.name {
                        first = false;
                    }
                    i = i + 1;
                }
                if first {
                    let pos = reference.range.start;
                    let mut found: Option<Range> = None;
                    let mut k: usize = 0;
                    while k < nd
                        invariant
                            self.definitions@ == a.definitions@,
                            nd == a.definitions@.len(),
                            k <= nd,
                            found is None ==> later_def(a.definitions@, reference.name@, pos, 0) == later_def(
                                a.definitions@,
                                reference.name@,
                                pos,
                                k as int,
                            ),
                            found is Some ==> found == later_def(a.definitions@, reference.name@, pos, 0),
                        decreases nd - k,
                    {
                        if found.is_none() {
                            let def = &self.definitions[k];
                            let start = def.selection_range.start;
                            let after = start.line > pos.line || (start.line == pos.line && start.character > pos.character);
                            if !def.is_builtin && def.name == reference.name && after {
                                found = Some(def.selection_range);
                            }
                        }
                        k = k + 1;
                    }
                    match found {
                        Some(def_range) => {
                            let name = chars_of(reference.name.as_str());
                            let range = reference.range;
                            let msg = wrap_chars("Possible use before definition of `", &name, "`; definition appears later");
                            report_chars(&mut self.diagnostics, cx, range, Severity::Hint, DiagnosticCode::Logic, &msg);
                            let msg2 = wrap_chars("`", &name, "` defined here");
                            report_chars(&mut self.diagnostics, cx, def_range, Severity::Information, DiagnosticCode::Logic, &msg2);
                        },
                        None => {},
                    }
                }
            }
            assert(diags_view(self.diagnostics@) =~= diags_view(a.diagnostics@) + use_before_diags(a, *cx, j + 1));
            j = j + 1;
        }
    }

    /// Adds to the outline every definition of the document at the top level,
    /// with its type as detail.
    pub fn build_document_symbols(&mut self)
        requires
            old(self).wf(),
        ensures
            final(self).wf(),
            *final(self) == (Analyzer { document_symbols: final(self).document_symbols, ..*old(self) }),
            outline_views(final(self).document_symbols@) == outline_views(old(self).document_symbols@) + outline(
                old(self).definitions@,
                old(self).definitions@.len() as int,
            ),
    {
        let ghost a = *self;
        let nd = self.definitions.len();
        let mut k: usize = 0;
        while k < nd
            invariant
                a.wf(),
                *self == (Analyzer { document_symbols: self.document_symbols, ..a }),
                nd == a.definitions@.len(),
                k <= nd,
                outline_views(self.document_symbols@) == outline_views(a.document_symbols@) + outline(
                    a.definitions@,
                    k as int,
                ),
            decreases nd - k,
        {
            let def = &self.definitions[k];
            if !def.is_builtin && def.scope_depth == 0 {
                let detail = def.ty.display_name();
                let entry = DocumentSymbol {
                    name: def.name.clone(),
                    detail: Some(string_of(detail.as_slice())),
                    kind: def.kind,
                    range: def.range,
                    selection_range: def.selection_range,
                };
                let ghost prev = self.document_symbols@;
                self.document_symbols.push(entry);
                assert(outline_views(self.document_symbols@) =~= outline_views(prev).push(outline_view(entry)));
            }
            assert(outline_views(self.document_symbols@) =~= outline_views(a.document_symbols@) + outline(
                a.definitions@,
                k + 1,
            ));
            k = k + 1;
        }
    }
}

} // verus!
