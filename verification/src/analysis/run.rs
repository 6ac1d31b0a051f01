//! One analysis of a document from start to end: a fresh analyzer with the
//! built-in values, then the passes in their order, then the result.

use vstd::prelude::*;

use crate::analysis::{
    AnalysisResult, AnalysisSettings, Analyzer, DiagView, DiagnosticCode, Scope, Severity, Source, SymbolDef, SymbolKind,
    diag, diag_view, diags_view,
};
use crate::analysis::checks::general::has_version_line;
use crate::analysis::enums::{
    EnumDeclView, words_view, def_depth, def_sel, enum_decls, enum_define_diags, enum_diags, enums_after, members_view,
    resolves_after, scope_after,
};
use crate::analysis::eval::tree_ok;
use crate::analysis::summary::{outline, outline_views, seed_diags, seed_step};
use crate::analysis::symbols::{DefView, def_view};
use crate::analysis::walk::{syntax_diags, walked_root};
use crate::analysis::summary::{unused_def_diags, unused_member_diags, use_before_diags};
use crate::analysis::checks::ta::spread_diags;
use crate::analysis::checks::general::recursion_diags;
use crate::builtins::{Builtins, function_table, keyed_table, keys_unique, value_table};
use crate::name_map::NameMap;
use crate::position::{LineIndex, Range};
use crate::syntax::SyntaxTree;
use crate::text::{chars_of, string_of};
use crate::types::TypeModel;

verus! {

/// The names and members of the recorded enums, as plain values.
pub open spec fn enum_pairs_view(v: Seq<(String, Vec<String>)>) -> Seq<(Seq<char>, Seq<Seq<char>>)> {
    v.map_values(|p: (String, Vec<String>)| (p.0@, strings_view(p.1@)))
}

/// Strings as plain sequences.
pub open spec fn strings_view(v: Seq<String>) -> Seq<Seq<char>> {
    v.map_values(|s: String| s@)
}

/// What every analysis result of source `cx` satisfies: its diagnostics
/// start with the syntax errors of the tree; a missing `//@version=6`
/// directive is reported; the outline lists exactly the top-level
/// definitions of the document; the enums are those the text declares with
/// members; every resolved reference names an existing definition; the
/// definitions start with the built-in values.
#[verifier::opaque]
pub open spec fn result_facts(r: AnalysisResult, cx: Source) -> bool {
    let syn = syntax_diags(cx, 0);
    &&& syn.len() <= r.diagnostics@.len()
    &&& diags_view(r.diagnostics@).take(syn.len() as int) == syn
    &&& !has_version_line(cx.text@) ==> exists|j: int|
        0 <= j < r.diagnostics@.len() && diag_view(#[trigger] r.diagnostics@[j]) == diag(
            cx,
            Range::zero_spec(),
            Severity::Warning,
            DiagnosticCode::Validation,
            "Missing //@version=6 directive"@,
        )
    &&& outline_views(r.document_symbols@) == outline(r.definitions@, r.definitions@.len() as int)
    &&& keys_unique(enum_pairs_view(r.enums@))
    &&& keyed_table(enum_pairs_view(r.enums@)) == enums_after(
        Map::empty(),
        enum_decls(cx),
        enum_decls(cx).len() as int,
    )
    &&& forall|j: int|
        0 <= j < r.references@.len() ==> ((#[trigger] r.references@[j]).def_index matches Some(d) ==> d
            < r.definitions@.len())
    &&& builtins_first(r, cx)
}

/// The definitions of a result start with the built-in values, in the
/// order of the table, each defined as a built-in.
pub open spec fn builtins_first(r: AnalysisResult, cx: Source) -> bool {
    &&& cx.builtins.value_seq().len() <= r.definitions@.len()
    &&& forall|k: int|
        0 <= k < cx.builtins.value_seq().len() ==> #[trigger] builtin_def(r.definitions@[k], cx.builtins.value_seq()[k].0)
}

/// `d` defines the built-in value `name`.
pub open spec fn builtin_def(d: SymbolDef, name: Seq<char>) -> bool {
    d.name@ == name && d.kind == SymbolKind::Builtin && d.is_builtin
}

/// The facts hold of a result that has each of them.
proof fn lemma_result_facts(r: AnalysisResult, cx: Source)
    requires
        syntax_diags(cx, 0).len() <= r.diagnostics@.len(),
        diags_view(r.diagnostics@).take(syntax_diags(cx, 0).len() as int) == syntax_diags(cx, 0),
        !has_version_line(cx.text@) ==> exists|j: int|
            0 <= j < r.diagnostics@.len() && diag_view(#[trigger] r.diagnostics@[j]) == diag(
                cx,
                Range::zero_spec(),
                Severity::Warning,
                DiagnosticCode::Validation,
                "Missing //@version=6 directive"@,
            ),
        outline_views(r.document_symbols@) == outline(r.definitions@, r.definitions@.len() as int),
        keys_unique(enum_pairs_view(r.enums@)),
        keyed_table(enum_pairs_view(r.enums@)) == enums_after(Map::empty(), enum_decls(cx), enum_decls(cx).len() as int),
        forall|j: int|
            0 <= j < r.references@.len() ==> ((#[trigger] r.references@[j]).def_index matches Some(d) ==> d
                < r.definitions@.len()),
        builtins_first(r, cx),
    ensures
        result_facts(r, cx),
{
    reveal(result_facts);
}

/// The source of an analysis of `text` with `line_index`, `tree` and
/// `settings`, and the full built-in tables.
#[verifier::opaque]
pub open spec fn analysis_source(
    cx: Source,
    text: Seq<char>,
    line_index: &LineIndex,
    tree: &SyntaxTree,
    settings: AnalysisSettings,
) -> bool {
    &&& cx.wf()
    &&& cx.text@ == text
    &&& cx.line_index == line_index
    &&& cx.tree == tree
    &&& cx.settings == settings
    &&& cx.builtins.values_view() == value_table()
    &&& cx.builtins.functions_view() == function_table()
}

/// Everything an analyzer records while it walks starts empty: no entries
/// in its maps, no open condition or function, no setting seen and no flag
/// raised.
pub open spec fn starts_empty(a: Analyzer) -> bool {
    &&& a.duplicate_exprs@.dom() =~= Set::<Seq<char>>::empty()
    &&& a.array_sizes@.dom() =~= Set::<Seq<char>>::empty()
    &&& a.array_types@.dom() =~= Set::<Seq<char>>::empty()
    &&& a.matrix_sizes@.dom() =~= Set::<Seq<char>>::empty()
    &&& a.matrix_types@.dom() =~= Set::<Seq<char>>::empty()
    &&& a.table_sizes@.dom() =~= Set::<Seq<char>>::empty()
    &&& a.map_known_empty@.dom() =~= Set::<Seq<char>>::empty()
    &&& a.map_key_types@.dom() =~= Set::<Seq<char>>::empty()
    &&& a.map_value_types@.dom() =~= Set::<Seq<char>>::empty()
    &&& a.strategy_order_ids@.dom() =~= Set::<Seq<char>>::empty()
    &&& a.strategy_entry_ids@.dom() =~= Set::<Seq<char>>::empty()
    &&& a.strategy_entry_directions@.dom() =~= Set::<Seq<char>>::empty()
    &&& a.plot_titles@.dom() =~= Set::<Seq<char>>::empty()
    &&& a.plot_styles@.dom() =~= Set::<Seq<char>>::empty()
    &&& a.draw_object_vars@.dom() =~= Set::<Seq<char>>::empty()
    &&& a.deleted_draw_objects@.dom() =~= Set::<Seq<char>>::empty()
    &&& a.oca_groups@.dom() =~= Set::<Seq<char>>::empty()
    &&& a.ta_length_stats@.dom() =~= Set::<Seq<char>>::empty()
    &&& a.function_calls@.dom() =~= Set::<Seq<char>>::empty()
    &&& a.enums@.dom() =~= Set::<Seq<char>>::empty()
    &&& a.enum_member_ranges@.dom() =~= Set::<Seq<char>>::empty()
    &&& a.max_bars_back is None
    &&& a.strategy_pyramiding is None
    &&& a.strategy_decl_range is None
    &&& a.strategy_initial_capital is None
    &&& a.strategy_initial_capital_range is None
    &&& a.strategy_default_qty_type is None
    &&& a.strategy_default_qty_type_range is None
    &&& a.strategy_default_qty_value is None
    &&& a.strategy_default_qty_value_range is None
    &&& !a.has_indicator_or_strategy
    &&& !a.has_strategy_declaration
    &&& !a.has_indicator_declaration
    &&& !a.has_barstate_isconfirmed
    &&& !a.reported_repainting_hint
    &&& !a.reported_pyramiding_hint
    &&& !a.reported_direction_conflict
    &&& a.condition_stack@.len() == 0
    &&& a.function_stack@.len() == 0
    &&& a.strategy_entry_count == 0
}

/// The warning for a document without a `//@version=6` line.
pub open spec fn version_diags(cx: Source) -> Seq<DiagView> {
    if has_version_line(cx.text@) {
        Seq::empty()
    } else {
        seq![diag(cx, Range::zero_spec(), Severity::Warning, DiagnosticCode::Validation, "Missing //@version=6 directive"@)]
    }
}

/// The warning for a walk that saw no call of `indicator` or `strategy`.
pub open spec fn entry_diags(a: Analyzer, cx: Source) -> Seq<DiagView> {
    if a.has_indicator_or_strategy {
        Seq::empty()
    } else {
        seq![diag(cx, Range::zero_spec(), Severity::Warning, DiagnosticCode::Validation, "Missing indicator() or strategy() declaration"@)]
    }
}

/// The passes of one analysis, from the analyzer `a0` to the result `r`,
/// through the analyzers `a1`, ..., `a10`: syntax errors, enum declarations,
/// the walk of the tree from its root, the version directive, the entry
/// point, unused symbols, uses before definition, `ta` length spreads, the
/// outline and recursive functions.
#[verifier::opaque]
pub open spec fn passes(
    a0: Analyzer,
    a1: Analyzer,
    a2: Analyzer,
    a3: Analyzer,
    a4: Analyzer,
    a5: Analyzer,
    a6: Analyzer,
    a7: Analyzer,
    a8: Analyzer,
    a9: Analyzer,
    a10: Analyzer,
    r: AnalysisResult,
    cx: Source,
) -> bool {
    &&& Analyzer::appends(a0, a1, syntax_diags(cx, 0))
    &&& a2 == (Analyzer {
        definitions: a2.definitions,
        scopes: a2.scopes,
        diagnostics: a2.diagnostics,
        enums: a2.enums,
        enum_member_ranges: a2.enum_member_ranges,
        ..a1
    })
    &&& Analyzer::added(a1, a2) =~= enum_diags(a1, cx, enum_decls(cx), enum_decls(cx).len() as int)
    &&& walked_root(a2, a3, cx)
    &&& Analyzer::appends(a3, a4, version_diags(cx))
    &&& Analyzer::appends(a4, a5, entry_diags(a4, cx))
    &&& Analyzer::appends(
        a5,
        a6,
        unused_def_diags(a5, cx, a5.definitions@.len() as int) + unused_member_diags(a5, cx, a5.enums.len_view() as int),
    )
    &&& Analyzer::appends(a6, a7, use_before_diags(a6, cx, a6.references@.len() as int))
    &&& Analyzer::appends(a7, a8, spread_diags(a7, cx))
    &&& a9 == (Analyzer { document_symbols: a9.document_symbols, ..a8 })
    &&& outline_views(a9.document_symbols@) =~= outline_views(a8.document_symbols@) + outline(
        a8.definitions@,
        a8.definitions@.len() as int,
    )
    &&& Analyzer::appends(a9, a10, recursion_diags(a9, cx))
    &&& r.diagnostics == a10.diagnostics
    &&& r.definitions == a10.definitions
    &&& r.references == a10.references
    &&& r.document_symbols == a10.document_symbols
}

/// The result `r` comes from analyzer `a0` through the passes.
pub open spec fn analysis_passes(a0: Analyzer, r: AnalysisResult, cx: Source) -> bool {
    exists|
        a1: Analyzer,
        a2: Analyzer,
        a3: Analyzer,
        a4: Analyzer,
        a5: Analyzer,
        a6: Analyzer,
        a7: Analyzer,
        a8: Analyzer,
        a9: Analyzer,
        a10: Analyzer,
    | #[trigger] passes(a0, a1, a2, a3, a4, a5, a6, a7, a8, a9, a10, r, cx)
}

/// The result `r` comes through the passes from a fresh analyzer: nothing
/// reported, referenced or recorded yet.
pub open spec fn from_fresh(r: AnalysisResult, cx: Source) -> bool {
    exists|a0: Analyzer|
        starts_empty(a0) && a0.diagnostics@.len() == 0 && a0.references@.len() == 0 && #[trigger] analysis_passes(
            a0,
            r,
            cx,
        )
}

/// Seeding into a scope that holds none of the names reports nothing.
proof fn lemma_seed_quiet(a: Analyzer, cx: Source, k: int)
    requires
        a.scopes@.len() > 0,
        a.scopes@[a.scopes@.len() - 1].symbols@ == Map::<Seq<char>, usize>::empty(),
    ensures
        seed_diags(a, cx, k) == Seq::<DiagView>::empty(),
    decreases k,
{
    if k > 0 {
        lemma_seed_quiet(a, cx, k - 1);
        assert(seed_step(a, cx, cx.builtins.value_seq()[k - 1].0) == Seq::<DiagView>::empty());
        assert(seed_diags(a, cx, k) =~= Seq::<DiagView>::empty());
    }
}

impl Analyzer {
    /// A fresh analyzer: one global scope holding every built-in value, and
    /// nothing else recorded.
    pub fn new(cx: &Source) -> (r: Analyzer)
        requires
            cx.wf(),
        ensures
            r.wf(),
            r.diagnostics@.len() == 0,
            r.references@.len() == 0,
            r.document_symbols@.len() == 0,
            r.scopes@.len() == 1,
            r.definitions@.len() == cx.builtins.value_seq().len(),
            forall|k: int|
                0 <= k < cx.builtins.value_seq().len() ==> def_view(r.definitions@[k]) == (DefView {
                    name: (#[trigger] cx.builtins.value_seq()[k]).0,
                    kind: SymbolKind::Builtin,
                    range: Range::zero_spec(),
                    selection_range: Range::zero_spec(),
                    ty: cx.builtins.value_seq()[k].1,
                    scope_depth: 0,
                    is_builtin: true,
                }),
            forall|k: int|
                0 <= k < cx.builtins.value_seq().len() ==> r.resolves((#[trigger] cx.builtins.value_seq()[k]).0)
                    == Some(k as usize),
            forall|q: Seq<char>| !cx.builtins.values_view().contains_key(q) ==> r.resolves(q) is None,
            r.enums@ == Map::<Seq<char>, Vec<Vec<char>>>::empty(),
            r.enum_member_ranges@ == Map::<Seq<char>, NameMap<crate::position::Range>>::empty(),
            !r.has_indicator_or_strategy,
            starts_empty(r),
    {
        let mut scopes: Vec<Scope> = Vec::new();
        scopes.push(Scope { symbols: NameMap::new() });
        let mut a = Analyzer {
            diagnostics: Vec::new(),
            definitions: Vec::new(),
            references: Vec::new(),
            document_symbols: Vec::new(),
            scopes,
            duplicate_exprs: NameMap::new(),
            has_indicator_or_strategy: false,
            max_bars_back: None,
            condition_stack: Vec::new(),
            array_sizes: NameMap::new(),
            array_types: NameMap::new(),
            matrix_sizes: NameMap::new(),
            matrix_types: NameMap::new(),
            table_sizes: NameMap::new(),
            map_known_empty: NameMap::new(),
            map_key_types: NameMap::new(),
            map_value_types: NameMap::new(),
            strategy_order_ids: NameMap::new(),
            strategy_entry_ids: NameMap::new(),
            strategy_entry_directions: NameMap::new(),
            strategy_entry_count: 0,
            strategy_pyramiding: None,
            strategy_decl_range: None,
            strategy_initial_capital: None,
            strategy_initial_capital_range: None,
            strategy_default_qty_type: None,
            strategy_default_qty_type_range: None,
            strategy_default_qty_value: None,
            strategy_default_qty_value_range: None,
            has_strategy_declaration: false,
            has_indicator_declaration: false,
            has_barstate_isconfirmed: false,
            reported_repainting_hint: false,
            reported_pyramiding_hint: false,
            reported_direction_conflict: false,
            plot_titles: NameMap::new(),
            plot_styles: NameMap::new(),
            draw_object_vars: NameMap::new(),
            deleted_draw_objects: NameMap::new(),
            oca_groups: NameMap::new(),
            ta_length_stats: NameMap::new(),
            function_stack: Vec::new(),
            function_calls: NameMap::new(),
            enums: NameMap::new(),
            enum_member_ranges: NameMap::new(),
        };
        let ghost a0 = a;
        proof {
            assert(a.scopes@[0].symbols@ == Map::<Seq<char>, usize>::empty());
            assert(a.wf());
        }
        a.seed_builtins(cx);
        proof {
            lemma_seed_quiet(a0, *cx, cx.builtins.value_seq().len() as int);
            assert(diags_view(a.diagnostics@).len() == a.diagnostics@.len());
            assert(Analyzer::added(a0, a).len() == 0);
            assert forall|q: Seq<char>| !cx.builtins.values_view().contains_key(q) implies a.resolves(q) is None by {
                assert(!a0.scopes@[0].symbols@.contains_key(q));
                assert(crate::analysis::symbols::resolve_in(a0.scopes@, q, 0) is None);
                assert(a0.resolves(q) is None);
            }
        }
        a
    }
}


impl Analyzer {
    /// The names and members of the recorded enums, in the order they were
    /// recorded.
    fn enum_pairs(&self) -> (r: Vec<(String, Vec<String>)>)
        requires
            self.wf(),
        ensures
            keys_unique(enum_pairs_view(r@)),
            keyed_table(enum_pairs_view(r@)) == members_view(self.enums@),
    {
        let n = self.enums.len();
        let mut out: Vec<(String, Vec<String>)> = Vec::new();
        let ghost keys = self.enums.keys_seq();
        proof {
            self.enums.lemma_keys_complete();
        }
        let mut k: usize = 0;
        while k < n
            invariant
                self.wf(),
                keys == self.enums.keys_seq(),
                n == self.enums.len_view(),
                keys.len() == n,
                k <= n,
                forall|i: int, j: int| 0 <= i < j < n ==> keys[i] != keys[j],
                enum_pairs_view(out@).len() == k,
                forall|j: int|
                    0 <= j < k ==> #[trigger] enum_pairs_view(out@)[j] == (keys[j], members_view(self.enums@)[keys[j]]),
            decreases n - k,
        {
            let (key, members) = self.enums.entry_at(k);
            let mut names: Vec<String> = Vec::new();
            let mut t: usize = 0;
            while t < members.len()
                invariant
                    t <= members@.len(),
                    strings_view(names@) == words_view(members@.take(t as int)),
                decreases members@.len() - t,
            {
                let ghost before = names@;
                names.push(string_of(members[t].as_slice()));
                assert(members@.take(t + 1) =~= members@.take(t as int).push(members@[t as int]));
                assert(strings_view(names@) =~= strings_view(before).push(members@[t as int]@));
                assert(words_view(members@.take(t + 1)) =~= words_view(members@.take(t as int)).push(members@[t as int]@));
                t = t + 1;
            }
            assert(members@.take(members@.len() as int) =~= members@);
            let ghost before = out@;
            out.push((string_of(key.as_slice()), names));
            assert(enum_pairs_view(out@) =~= enum_pairs_view(before).push(enum_pairs_view(out@).last()));
            k = k + 1;
        }
        proof {
            let p = enum_pairs_view(out@);
            let m = members_view(self.enums@);
            assert(keys_unique(p));
            crate::builtins::lemma_keyed_table_unique(p);
            assert forall|q: Seq<char>| keyed_table(p).contains_key(q) <==> m.contains_key(q) by {
                if keyed_table(p).contains_key(q) {
                    let j = choose|j: int| 0 <= j < p.len() && #[trigger] p[j].0 == q;
                    assert(p[j] == (keys[j], m[keys[j]]));
                }
                if m.contains_key(q) {
                    assert(self.enums@.contains_key(q));
                    let j = choose|j: int| 0 <= j < n && #[trigger] keys[j] == q;
                    assert(p[j] == (keys[j], m[keys[j]]));
                    assert(keyed_table(p).contains_key(p[j].0));
                }
            }
            assert forall|q: Seq<char>| keyed_table(p).contains_key(q) implies keyed_table(p)[q] == m[q] by {
                let j = choose|j: int| 0 <= j < p.len() && #[trigger] p[j].0 == q;
                assert(p[j] == (keys[j], m[keys[j]]));
            }
            assert(keyed_table(p) =~= m);
        }
        out
    }

    /// Runs the passes in order: syntax errors, enum declarations, the walk
    /// of the tree, the version directive, the entry point, unused symbols,
    /// uses before definition, `ta` length spreads, the outline and
    /// recursive functions.
    #[verifier::rlimit(100)]
    pub fn analyze(self, cx: &Source) -> (r: AnalysisResult)
        requires
            self.wf(),
            cx.wf(),
            self.diagnostics@.len() == 0,
            self.document_symbols@.len() == 0,
            self.enums@ == Map::<Seq<char>, Vec<Vec<char>>>::empty(),
            cx.builtins.value_seq().len() <= self.definitions@.len(),
            forall|k: int|
                0 <= k < cx.builtins.value_seq().len() ==> #[trigger] builtin_def(
                    self.definitions@[k],
                    cx.builtins.value_seq()[k].0,
                ),
        ensures
            result_facts(r, *cx),
            analysis_passes(self, r, *cx),
    {
        let mut a = self;
        let ghost a0 = a;
        a.collect_syntax_errors(cx, 0);
        let ghost a1 = a;
        assert(diags_view(a1.diagnostics@) =~= syntax_diags(*cx, 0));
        a.collect_enum_declarations(cx);
        let ghost a2 = a;
        proof {
            assert(members_view(a0.enums@) =~= Map::<Seq<char>, Seq<Seq<char>>>::empty());
        }
        a.walk_root(cx);
        let ghost a3 = a;
        let ghost p = a3.diagnostics@.len() as int;
        a.check_version_directive(cx);
        let ghost a4 = a;
        a.check_entrypoint(cx);
        let ghost a5 = a;
        a.report_unused_symbols(cx);
        let ghost a6 = a;
        a.report_use_before_definition(cx);
        let ghost a7 = a;
        a.report_ta_length_inconsistency(cx);
        let ghost a8 = a;
        a.build_document_symbols();
        let ghost a9 = a;
        a.report_recursive_functions(cx);
        let ghost a10 = a;
        proof {
            broadcast use crate::analysis::lemma_reports_grow_auto;

            assert(Analyzer::diags_grow(a3, a4));
            assert(Analyzer::diags_grow(a4, a5));
            assert(Analyzer::diags_grow(a5, a6));
            assert(Analyzer::diags_grow(a6, a7));
            assert(Analyzer::diags_grow(a7, a8));
            assert(Analyzer::diags_grow(a9, a10));
            crate::analysis::lemma_grow_trans(a4, a5, a6);
            crate::analysis::lemma_grow_trans(a4, a6, a7);
            crate::analysis::lemma_grow_trans(a4, a7, a8);
            crate::analysis::lemma_grow_trans(a4, a8, a9);
            crate::analysis::lemma_grow_trans(a4, a9, a10);
            crate::analysis::lemma_grow_trans(a1, a2, a3);
            crate::analysis::lemma_grow_trans(a1, a3, a4);
            crate::analysis::lemma_grow_trans(a1, a4, a10);
            assert(diags_view(a10.diagnostics@).take(syntax_diags(*cx, 0).len() as int) =~= syntax_diags(*cx, 0)) by {
                assert forall|j: int| 0 <= j < syntax_diags(*cx, 0).len() implies diags_view(a10.diagnostics@)[j]
                    == syntax_diags(*cx, 0)[j] by {
                    assert(diag_view(a10.diagnostics@[j]) == diag_view(a1.diagnostics@[j]));
                    assert(diags_view(a1.diagnostics@)[j] == diag_view(a1.diagnostics@[j]));
                }
            }
            if !has_version_line(cx.text@) {
                assert(diags_view(a4.diagnostics@)[p] == diag(
                    *cx,
                    Range::zero_spec(),
                    Severity::Warning,
                    DiagnosticCode::Validation,
                    "Missing //@version=6 directive"@,
                ));
                assert(diag_view(a10.diagnostics@[p]) == diag_view(a4.diagnostics@[p]));
            }
            assert(Analyzer::keeps_outline(a2, a3));
            assert(a3.enums == a2.enums);
            assert(a3.document_symbols == a2.document_symbols);
            assert(outline_views(a8.document_symbols@) =~= Seq::empty());
        }
        let enums = a.enum_pairs();
        proof {
            assert forall|k: int| 0 <= k < cx.builtins.value_seq().len() implies #[trigger] builtin_def(
                a10.definitions@[k],
                cx.builtins.value_seq()[k].0,
            ) by {
                assert(builtin_def(a0.definitions@[k], cx.builtins.value_seq()[k].0));
                assert(a1.definitions == a0.definitions);
                assert(a2.definitions@[k] == a1.definitions@[k]);
                assert(crate::analysis::def_kept(a3.definitions@[k], a2.definitions@[k]));
                assert(a10.definitions == a3.definitions);
            }
        }
        let r = AnalysisResult {
            diagnostics: a.diagnostics,
            definitions: a.definitions,
            references: a.references,
            document_symbols: a.document_symbols,
            enums,
        };
        proof {
            let syn = syntax_diags(*cx, 0);
            assert(syn.len() <= r.diagnostics@.len());
            assert(diags_view(r.diagnostics@).take(syn.len() as int) == syn);
            assert(outline_views(r.document_symbols@) == outline(r.definitions@, r.definitions@.len() as int));
            assert(keys_unique(enum_pairs_view(r.enums@)));
            assert(keyed_table(enum_pairs_view(r.enums@)) == enums_after(Map::empty(), enum_decls(*cx), enum_decls(*cx).len() as int));
            assert(forall|j: int|
                0 <= j < r.references@.len() ==> ((#[trigger] r.references@[j]).def_index matches Some(d) ==> d
                    < r.definitions@.len()));
            assert(r.definitions == a10.definitions);
            assert(r.diagnostics == a10.diagnostics);
            assert(a1.definitions == a0.definitions);
            assert(a2.definitions@.len() >= a1.definitions@.len());
            assert(cx.builtins.value_seq().len() <= r.definitions@.len());
            let c = *cx;
            assert(c.builtins.value_seq().len() <= r.definitions@.len());
            assert(builtins_first(r, c)) by {
                assert forall|k: int| 0 <= k < c.builtins.value_seq().len() implies #[trigger] builtin_def(
                    r.definitions@[k],
                    c.builtins.value_seq()[k].0,
                ) by {
                    assert(r.definitions@[k] == a10.definitions@[k]);
                    assert(builtin_def(a10.definitions@[k], cx.builtins.value_seq()[k].0));
                }
            }
            if !has_version_line(cx.text@) {
                assert(0 <= p < a4.diagnostics@.len());
                assert(0 <= p < r.diagnostics@.len());
                assert(diag_view(r.diagnostics@[p]) == diag(
                    *cx,
                    Range::zero_spec(),
                    Severity::Warning,
                    DiagnosticCode::Validation,
                    "Missing //@version=6 directive"@,
                ));
            }
            assert(!has_version_line(cx.text@) ==> exists|j: int|
                0 <= j < r.diagnostics@.len() && diag_view(#[trigger] r.diagnostics@[j]) == diag(
                    *cx,
                    Range::zero_spec(),
                    Severity::Warning,
                    DiagnosticCode::Validation,
                    "Missing //@version=6 directive"@,
                ));
            lemma_result_facts(r, c);
            assert(passes(a0, a1, a2, a3, a4, a5, a6, a7, a8, a9, a10, r, c)) by {
                reveal(passes);
            }
        }
        r
    }
}

} // verus!
