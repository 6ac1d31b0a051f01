//! Scopes and definitions: defining a symbol, resolving a name through the
//! open scopes, and the built-in values every document starts with.

use vstd::prelude::*;

use crate::analysis::{
    lemma_reports_grow, Analyzer, DiagnosticCode, DiagView, Scope, Severity, Source, SymbolDef, SymbolKind, diag, diags_view,
};
use crate::analysis::diag::report_chars;
use crate::fmt::wrap_chars;
use crate::name_map::NameMap;
use crate::position::Range;
use crate::text::{chars_of, string_of};
use crate::types::{Type, TypeModel};

verus! {

/// A definition as plain values.
pub struct DefView {
    pub name: Seq<char>,
    pub kind: SymbolKind,
    pub range: Range,
    pub selection_range: Range,
    pub ty: TypeModel,
    pub scope_depth: int,
    pub is_builtin: bool,
}

pub open spec fn def_view(d: SymbolDef) -> DefView {
    DefView {
        name: d.name@,
        kind: d.kind,
        range: d.range,
        selection_range: d.selection_range,
        ty: d.ty.model(),
        scope_depth: d.scope_depth as int,
        is_builtin: d.is_builtin,
    }
}

/// The definition `name` resolves to in the first `k` scopes, innermost first.
pub open spec fn resolve_in(scopes: Seq<Scope>, name: Seq<char>, k: int) -> Option<usize>
    decreases k,
{
    if k <= 0 {
        None
    } else if scopes[k - 1].symbols@.contains_key(name) {
        Some(scopes[k - 1].symbols@[name])
    } else {
        resolve_in(scopes, name, k - 1)
    }
}

/// The depth of the innermost scope.
pub open spec fn depth_of(scopes: Seq<Scope>) -> int {
    if scopes.len() > 0 {
        scopes.len() - 1
    } else {
        0
    }
}

impl Analyzer {
    /// The definition `name` resolves to.
    pub open spec fn resolves(self, name: Seq<char>) -> Option<usize> {
        resolve_in(self.scopes@, name, self.scopes@.len() as int)
    }
}

/// What defining `name` does, from `a` to `b`: the definition is appended,
/// the innermost scope maps the name to it, the other names resolve as
/// before, and the diagnostics of `define_diags` are reported.
pub open spec fn defines_symbol(
    a: Analyzer,
    b: Analyzer,
    cx: Source,
    name: Seq<char>,
    kind: SymbolKind,
    range: Range,
    selection_range: Range,
    ty: TypeModel,
    is_builtin: bool,
) -> bool {
    let r = a.definitions@.len();
    &&& b.definitions@.len() == r + 1
    &&& forall|j: int| 0 <= j < r ==> b.definitions@[j] == a.definitions@[j]
    &&& def_view(b.definitions@[r as int]) == (DefView {
        name,
        kind,
        range,
        selection_range,
        ty,
        scope_depth: depth_of(a.scopes@),
        is_builtin,
    })
    &&& b.scopes@.len() == a.scopes@.len()
    &&& a.scopes@.len() > 0 ==> b.resolves(name) == Some(r as usize)
    &&& a.scopes@.len() > 0 ==> b.scopes@.last().symbols@ =~= a.scopes@.last().symbols@.insert(name, r as usize)
    &&& forall|s: int| 0 <= s < a.scopes@.len() - 1 ==> b.scopes@[s] == a.scopes@[s]
    &&& forall|other: Seq<char>| other != name ==> b.resolves(other) == a.resolves(other)
    &&& Analyzer::diags_grow(a, b)
    &&& Analyzer::added(a, b) =~= define_diags(a, cx, name, selection_range, is_builtin)
    &&& b.references@ =~= a.references@
    &&& b == (Analyzer { definitions: b.definitions, scopes: b.scopes, diagnostics: b.diagnostics, ..a })
}

/// The diagnostics that defining `name` with selection range `sel` reports:
/// a duplicate in the innermost scope, and (for a symbol of the document,
/// with shadowing warnings on) an outer definition that it shadows.
pub open spec fn define_diags(a: Analyzer, cx: Source, name: Seq<char>, sel: Range, is_builtin: bool) -> Seq<DiagView> {
    let n = a.scopes@.len();
    let dup = if n > 0 && a.scopes@[n - 1].symbols@.contains_key(name) {
        let e = a.scopes@[n - 1].symbols@[name] as int;
        seq![
            diag(cx, sel, Severity::Warning, DiagnosticCode::Style, "Duplicate definition of `"@ + name + "`"@),
            diag(cx, a.definitions@[e].selection_range, Severity::Information, DiagnosticCode::Style, "Previous definition of `"@ + name + "`"@),
        ]
    } else {
        Seq::empty()
    };
    let shadow = if !is_builtin && cx.settings.enable_shadowing_warnings {
        match a.resolves(name) {
            Some(e) => if a.definitions@[e as int].scope_depth < depth_of(a.scopes@) {
                seq![
                    diag(cx, sel, Severity::Hint, DiagnosticCode::Style, "`"@ + name + "` shadows an outer definition"@),
                    diag(cx, a.definitions@[e as int].selection_range, Severity::Information, DiagnosticCode::Style, "`"@ + name + "` previously defined here"@),
                ]
            } else {
                Seq::empty()
            },
            None => Seq::empty(),
        }
    } else {
        Seq::empty()
    };
    dup + shadow
}

/// Resolution through a stack of scopes whose innermost scope gains
/// `name -> d`: `name` resolves to `d`, every other name as before.
pub proof fn lemma_resolve_after_insert(a: Seq<Scope>, b: Seq<Scope>, name: Seq<char>, d: usize)
    requires
        a.len() > 0,
        b.len() == a.len(),
        forall|s: int| 0 <= s < a.len() - 1 ==> b[s] == a[s],
        b[a.len() - 1].symbols@ == a[a.len() - 1].symbols@.insert(name, d),
    ensures
        resolve_in(b, name, b.len() as int) == Some(d),
        forall|other: Seq<char>| other != name ==> resolve_in(b, other, b.len() as int) == resolve_in(a, other, a.len() as int),
{
    assert forall|other: Seq<char>| other != name implies resolve_in(b, other, b.len() as int) == resolve_in(a, other, a.len() as int) by {
        lemma_resolve_same_prefix(a, b, other, a.len() - 1);
    }
}

proof fn lemma_resolve_same_prefix(a: Seq<Scope>, b: Seq<Scope>, name: Seq<char>, k: int)
    requires
        0 <= k <= a.len(),
        k <= b.len(),
        forall|s: int| 0 <= s < k ==> b[s] == a[s],
    ensures
        resolve_in(b, name, k) == resolve_in(a, name, k),
    decreases k,
{
    if k > 0 {
        lemma_resolve_same_prefix(a, b, name, k - 1);
    }
}

/// Every name resolves to an existing definition.
pub proof fn lemma_resolves_bound(a: Analyzer, name: Seq<char>, k: int)
    requires
        a.scopes_wf(),
        0 <= k <= a.scopes@.len(),
    ensures
        resolve_in(a.scopes@, name, k) matches Some(d) ==> d < a.definitions@.len(),
    decreases k,
{
    if k > 0 {
        assert(a.scopes@[k - 1].symbols.wf());
        lemma_resolves_bound(a, name, k - 1);
    }
}

/// Opening a scope and closing it again leaves every name resolving as before.
pub proof fn lemma_enter_exit_scope(a: Seq<Scope>, fresh: Scope, name: Seq<char>)
    ensures
        resolve_in(a.push(fresh).drop_last(), name, a.len() as int) == resolve_in(a, name, a.len() as int),
{
    assert(a.push(fresh).drop_last() =~= a);
}

impl Analyzer {
    /// The definition that `name` resolves to, innermost scope first.
    pub fn resolve_symbol(&self, name: &Vec<char>) -> (r: Option<usize>)
        requires
            self.wf(),
        ensures
            r == self.resolves(name@),
            r matches Some(d) ==> d < self.definitions@.len(),
    {
        let mut k = self.scopes.len();
        while k > 0
            invariant
                self.wf(),
                k <= self.scopes@.len(),
                self.resolves(name@) == resolve_in(self.scopes@, name@, k as int),
            decreases k,
        {
            let scope = &self.scopes[k - 1];
            assert(self.scopes@[k - 1] == *scope);
            match scope.symbols.get(name) {
                Some(d) => {
                    return Some(*d);
                },
                None => {},
            }
            k = k - 1;
        }
        None
    }

    /// Opens a scope.
    pub fn enter_scope(&mut self)
        requires
            old(self).wf(),
        ensures
            final(self).wf(),
            final(self).scopes@ == old(self).scopes@.push(final(self).scopes@.last()),
            final(self).scopes@.last().symbols@ == Map::<Seq<char>, usize>::empty(),
            *final(self) == (Analyzer { scopes: final(self).scopes, ..*old(self) }),
    {
        let symbols = NameMap::new();
        self.scopes.push(Scope { symbols });
    }

    /// Closes the innermost scope.
    pub fn exit_scope(&mut self)
        requires
            old(self).wf(),
        ensures
            final(self).wf(),
            old(self).scopes@.len() > 0 ==> final(self).scopes@ == old(self).scopes@.drop_last(),
            old(self).scopes@.len() == 0 ==> final(self).scopes@ == old(self).scopes@,
            *final(self) == (Analyzer { scopes: final(self).scopes, ..*old(self) }),
    {
        let _ = self.scopes.pop();
    }

    /// Defines `name` in the innermost scope and returns the index of the new
    /// definition, reporting a duplicate in that scope and a shadowed outer
    /// definition.
    pub fn define_symbol(
        &mut self,
        cx: &Source,
        name: Vec<char>,
        kind: SymbolKind,
        range: Range,
        selection_range: Range,
        ty: Type,
        is_builtin: bool,
    ) -> (r: usize)
        requires
            old(self).wf(),
            cx.wf(),
        ensures
            final(self).wf(),
            r == old(self).definitions@.len(),
            defines_symbol(*old(self), *final(self), *cx, name@, kind, range, selection_range, ty.model(), is_builtin),
    {
        let ghost a = *self;
        let ghost d0 = diags_view(self.diagnostics@);
        let n = self.scopes.len();
        if n > 0 {
            let existing = match self.scopes[n - 1].symbols.get(&name) {
                Some(e) => Some(*e),
                None => None,
            };
            match existing {
                Some(e) => {
                    let msg = wrap_chars("Duplicate definition of `", &name, "`");
                    report_chars(&mut self.diagnostics, cx, selection_range, Severity::Warning, DiagnosticCode::Style, &msg);
                    let existing_range = self.definitions[e].selection_range;
                    let msg2 = wrap_chars("Previous definition of `", &name, "`");
                    report_chars(&mut self.diagnostics, cx, existing_range, Severity::Information, DiagnosticCode::Style, &msg2);
                },
                None => {},
            }
        }
        let ghost d1 = diags_view(self.diagnostics@);
        if !is_builtin && cx.settings.enable_shadowing_warnings {
            let current_depth = if n > 0 { n - 1 } else { 0 };
            match self.resolve_symbol(&name) {
                Some(e) => {
                    let existing_depth = self.definitions[e].scope_depth;
                    let existing_range = self.definitions[e].selection_range;
                    if existing_depth < current_depth {
                        let msg = wrap_chars("`", &name, "` shadows an outer definition");
                        report_chars(&mut self.diagnostics, cx, selection_range, Severity::Hint, DiagnosticCode::Style, &msg);
                        let msg2 = wrap_chars("`", &name, "` previously defined here");
                        report_chars(&mut self.diagnostics, cx, existing_range, Severity::Information, DiagnosticCode::Style, &msg2);
                    }
                },
                None => {},
            }
        }
        let ghost d2 = diags_view(self.diagnostics@);
        let def_index = self.definitions.len();
        let def_name = string_of(name.as_slice());
        self.definitions.push(SymbolDef {
            name: def_name,
            kind,
            range,
            selection_range,
            ty,
            scope_depth: if n > 0 { n - 1 } else { 0 },
            is_builtin,
        });
        let ghost scopes_before = self.scopes@;
        if n > 0 {
            let mut last = self.scopes.pop().unwrap();
            last.symbols.insert(name, def_index);
            self.scopes.push(last);
        }
        proof {
            let b = *self;
            assert(d2 =~= d0 + define_diags(a, *cx, name@, selection_range, is_builtin));
            lemma_reports_grow(a, b, define_diags(a, *cx, name@, selection_range, is_builtin));
            if n > 0 {
                assert forall|s: int| 0 <= s < a.scopes@.len() - 1 implies b.scopes@[s] == a.scopes@[s] by {}
                lemma_resolve_after_insert(a.scopes@, b.scopes@, name@, def_index);
            } else {
                assert(b.scopes@ =~= a.scopes@);
            }
            assert(b.scopes_wf()) by {
                assert forall|s: int| 0 <= s < b.scopes@.len() implies {
                    &&& (#[trigger] b.scopes@[s]).symbols.wf()
                    &&& forall|k: Seq<char>|
                        b.scopes@[s].symbols@.contains_key(k) ==> b.scopes@[s].symbols@[k]
                            < b.definitions@.len()
                } by {
                    if s < b.scopes@.len() - 1 || n == 0 {
                        assert(b.scopes@[s] == a.scopes@[s]);
                    }
                }
            }
        }
        def_index
    }
}

} // verus!
