//! The analyzer of a Pine Script document: it walks the syntax tree, keeps the
//! symbols and the state of the checks, and reports diagnostics.

use vstd::prelude::*;

use crate::builtins::Builtins;
use crate::name_map::NameMap;
use crate::num::Num;
use crate::position::{LineIndex, Position, Range, position_of, lemma_position_bounded, normalized_range};
use crate::syntax::SyntaxTree;
use crate::types::{BaseType, Type};
use crate::analysis::eval::tree_ok;

pub use crate::analysis::settings::AnalysisSettings;
pub use crate::analysis::entry::analyze_with_settings;
pub use crate::analysis::growth::{lemma_grow_trans, lemma_reports_grow, lemma_reports_grow_auto};

pub mod args;
pub mod checks;
pub mod diag;
pub mod entry;
pub mod enums;
pub mod eval;
pub mod infer;
pub mod names;
pub mod growth;
pub mod run;
pub mod settings;
pub mod stages;
pub mod summary;
pub mod symbols;
pub mod walk;

verus! {

/// How serious a diagnostic is.
#[derive(Clone, Copy, Debug, PartialEq, Eq, Structural)]
pub enum Severity {
    Error,
    Warning,
    Information,
    Hint,
}

/// The family of rules a diagnostic comes from.
#[derive(Clone, Copy, Debug, PartialEq, Eq, Structural)]
pub enum DiagnosticCode {
    Syntax,
    Validation,
    Runtime,
    Style,
    Logic,
}

pub open spec fn code_text(c: DiagnosticCode) -> Seq<char> {
    match c {
        DiagnosticCode::Syntax => "syntax"@,
        DiagnosticCode::Validation => "validation"@,
        DiagnosticCode::Runtime => "runtime"@,
        DiagnosticCode::Style => "style"@,
        DiagnosticCode::Logic => "logic"@,
    }
}


/// A diagnostic: where, how serious, which family and what it says.
#[derive(Debug)]
pub struct Diagnostic {
    pub range: Range,
    pub severity: Severity,
    pub code: DiagnosticCode,
    pub message: String,
}

/// A diagnostic as plain values.
pub struct DiagView {
    pub range: Range,
    pub severity: Severity,
    pub code: DiagnosticCode,
    pub message: Seq<char>,
}

pub open spec fn diag_view(d: Diagnostic) -> DiagView {
    DiagView { range: d.range, severity: d.severity, code: d.code, message: d.message@ }
}

pub open spec fn diags_view(v: Seq<Diagnostic>) -> Seq<DiagView> {
    v.map_values(|d: Diagnostic| diag_view(d))
}

/// What a symbol names.
#[derive(Clone, Copy, Debug, PartialEq, Eq, Structural)]
pub enum SymbolKind {
    Variable,
    Function,
    Parameter,
    LoopVariable,
    Builtin,
    /// A user-defined type (`type` or `enum`).
    Type,
}

pub open spec fn kind_text(k: SymbolKind) -> Seq<char> {
    match k {
        SymbolKind::Variable => "variable"@,
        SymbolKind::Function => "function"@,
        SymbolKind::Parameter => "parameter"@,
        SymbolKind::LoopVariable => "loop variable"@,
        SymbolKind::Builtin => "builtin"@,
        SymbolKind::Type => "type"@,
    }
}

/// A definition of a symbol.
#[derive(Debug)]
pub struct SymbolDef {
    pub name: String,
    pub kind: SymbolKind,
    pub range: Range,
    pub selection_range: Range,
    pub ty: Type,
    pub scope_depth: usize,
    pub is_builtin: bool,
}


/// `x` is the definition `y` with at most its type changed.
pub open spec fn def_kept(x: SymbolDef, y: SymbolDef) -> bool {
    &&& x.name@ == y.name@
    &&& x.kind == y.kind
    &&& x.range == y.range
    &&& x.selection_range == y.selection_range
    &&& x.scope_depth == y.scope_depth
    &&& x.is_builtin == y.is_builtin
}

/// A use of a name, with the definition it resolved to, if any.
#[derive(Debug)]
pub struct SymbolRef {
    pub name: String,
    pub range: Range,
    pub def_index: Option<usize>,
}

/// An entry of the document outline.
#[derive(Debug)]
pub struct DocumentSymbol {
    pub name: String,
    pub detail: Option<String>,
    pub kind: SymbolKind,
    pub range: Range,
    pub selection_range: Range,
}

/// What the analysis of a document found.
#[derive(Debug)]
pub struct AnalysisResult {
    pub diagnostics: Vec<Diagnostic>,
    pub definitions: Vec<SymbolDef>,
    pub references: Vec<SymbolRef>,
    pub document_symbols: Vec<DocumentSymbol>,
    /// Each user-defined enum with its members, in the order they were found.
    pub enums: Vec<(String, Vec<String>)>,
}

/// What the analysis reads and never changes: the text, its line index, the
/// syntax tree, the built-in tables and the settings.
pub struct Source<'a> {
    pub text: &'a Vec<char>,
    pub line_index: &'a LineIndex,
    pub tree: &'a SyntaxTree,
    pub builtins: Builtins,
    pub settings: AnalysisSettings,
}

impl<'a> Source<'a> {
    pub open spec fn wf(self) -> bool {
        &&& tree_ok(*self.tree, self.text@)
        &&& self.line_index.wf()
        &&& self.line_index.text() == self.text@
        &&& self.builtins.wf()
        &&& self.settings.wf()
    }

    pub open spec fn x(self) -> Seq<char> {
        self.text@
    }

    pub open spec fn t(self) -> SyntaxTree {
        *self.tree
    }
}

/// The position of character offset `o`.
pub open spec fn position_at(text: Seq<char>, o: int) -> Position {
    Position { line: position_of(text, o).0 as u32, character: position_of(text, o).1 as u32 }
}

/// The range of node `i`.
pub open spec fn node_range(cx: Source, i: int) -> Range {
    Range {
        start: position_at(cx.text@, cx.tree.nodes@[i].start as int),
        end: position_at(cx.text@, cx.tree.nodes@[i].end as int),
    }
}

/// The diagnostic that reporting `message` at `range` adds: short ranges on
/// one line are widened to the word under them.
pub open spec fn diag(cx: Source, range: Range, severity: Severity, code: DiagnosticCode, message: Seq<char>) -> DiagView {
    DiagView {
        range: normalized_range(range, cx.line_index.expand_view(range)),
        severity,
        code,
        message,
    }
}

/// A reported diagnostic at node `i`.
pub open spec fn diag_at(cx: Source, i: int, severity: Severity, code: DiagnosticCode, message: Seq<char>) -> DiagView {
    diag(cx, node_range(cx, i), severity, code, message)
}

/// The symbols of one scope, by name, with the index of their definition.
pub struct Scope {
    pub symbols: NameMap<usize>,
}

/// The condition whose branch the walk is in.
#[derive(Clone, Copy, Debug)]
pub struct ConditionContext {
    pub range: Range,
    pub strategy_entry: bool,
    pub strategy_exit: bool,
    pub condition_has_close_zero: bool,
}


/// The state of an analysis in progress.
pub struct Analyzer {
    pub diagnostics: Vec<Diagnostic>,
    pub definitions: Vec<SymbolDef>,
    pub references: Vec<SymbolRef>,
    pub document_symbols: Vec<DocumentSymbol>,
    pub scopes: Vec<Scope>,
    pub duplicate_exprs: NameMap<Range>,
    pub has_indicator_or_strategy: bool,
    pub max_bars_back: Option<i64>,
    pub condition_stack: Vec<ConditionContext>,
    pub array_sizes: NameMap<i64>,
    pub array_types: NameMap<BaseType>,
    pub matrix_sizes: NameMap<(i64, i64)>,
    pub matrix_types: NameMap<BaseType>,
    pub table_sizes: NameMap<(i64, i64)>,
    pub map_known_empty: NameMap<bool>,
    pub map_key_types: NameMap<BaseType>,
    pub map_value_types: NameMap<BaseType>,
    pub strategy_order_ids: NameMap<Range>,
    pub strategy_entry_ids: NameMap<()>,
    pub strategy_entry_directions: NameMap<()>,
    pub strategy_entry_count: usize,
    pub strategy_pyramiding: Option<i64>,
    pub strategy_decl_range: Option<Range>,
    pub strategy_initial_capital: Option<Num>,
    pub strategy_initial_capital_range: Option<Range>,
    pub strategy_default_qty_type: Option<Vec<char>>,
    pub strategy_default_qty_type_range: Option<Range>,
    pub strategy_default_qty_value: Option<Num>,
    pub strategy_default_qty_value_range: Option<Range>,
    pub has_strategy_declaration: bool,
    pub has_indicator_declaration: bool,
    pub has_barstate_isconfirmed: bool,
    pub reported_repainting_hint: bool,
    pub reported_pyramiding_hint: bool,
    pub reported_direction_conflict: bool,
    pub plot_titles: NameMap<Range>,
    pub plot_styles: NameMap<Range>,
    pub draw_object_vars: NameMap<(Vec<char>, Range)>,
    pub deleted_draw_objects: NameMap<(Vec<char>, Range)>,
    pub oca_groups: NameMap<(Vec<char>, Range)>,
    pub ta_length_stats: NameMap<(i64, Range, i64, Range)>,
    pub function_stack: Vec<Vec<char>>,
    pub function_calls: NameMap<Vec<Vec<char>>>,
    pub enums: NameMap<Vec<Vec<char>>>,
    pub enum_member_ranges: NameMap<NameMap<Range>>,
}

impl Analyzer {
    /// Every scope maps names to existing definitions.
    pub open spec fn scopes_wf(self) -> bool {
        forall|s: int|
            0 <= s < self.scopes@.len() ==> {
                &&& (#[trigger] self.scopes@[s]).symbols.wf()
                &&& forall|k: Seq<char>|
                    self.scopes@[s].symbols@.contains_key(k) ==> self.scopes@[s].symbols@[k]
                        < self.definitions@.len()
            }
    }

    /// Every resolved reference points at an existing definition.
    pub open spec fn references_wf(self) -> bool {
        forall|j: int|
            0 <= j < self.references@.len() ==> ((#[trigger] self.references@[j]).def_index matches Some(
                d,
            ) ==> d < self.definitions@.len())
    }

    /// The recorded lengths of each `ta` function: both positive, the
    /// smallest no larger than the largest.
    pub open spec fn ta_stats_wf(self) -> bool {
        forall|k: Seq<char>|
            self.ta_length_stats@.contains_key(k) ==> {
                let e = #[trigger] self.ta_length_stats@[k];
                0 <= e.0 <= e.2
            }
    }

    pub open spec fn maps_wf(self) -> bool {
        &&& self.duplicate_exprs.wf()
        &&& self.array_sizes.wf()
        &&& self.array_types.wf()
        &&& self.matrix_sizes.wf()
        &&& self.matrix_types.wf()
        &&& self.table_sizes.wf()
        &&& self.map_known_empty.wf()
        &&& self.map_key_types.wf()
        &&& self.map_value_types.wf()
        &&& self.strategy_order_ids.wf()
        &&& self.strategy_entry_ids.wf()
        &&& self.strategy_entry_directions.wf()
        &&& self.plot_titles.wf()
        &&& self.plot_styles.wf()
        &&& self.draw_object_vars.wf()
        &&& self.deleted_draw_objects.wf()
        &&& self.oca_groups.wf()
        &&& self.ta_length_stats.wf()
        &&& self.function_calls.wf()
        &&& self.enums.wf()
        &&& self.enum_member_ranges.wf()
        &&& forall|k: Seq<char>|
            self.enum_member_ranges@.contains_key(k) ==> (#[trigger] self.enum_member_ranges@[k]).wf()
    }

    /// The numbers held are well formed.
    pub open spec fn nums_wf(self) -> bool {
        &&& self.strategy_initial_capital matches Some(n) ==> n.wf()
        &&& self.strategy_default_qty_value matches Some(n) ==> n.wf()
    }

    pub open spec fn wf(self) -> bool {
        &&& self.scopes_wf()
        &&& self.references_wf()
        &&& self.ta_stats_wf()
        &&& self.maps_wf()
        &&& self.nums_wf()
    }

    /// `b` keeps every diagnostic of `a`, in order, and may add more.
    pub open spec fn diags_grow(a: Analyzer, b: Analyzer) -> bool {
        &&& a.diagnostics@.len() <= b.diagnostics@.len()
        &&& forall|j: int|
            0 <= j < a.diagnostics@.len() ==> #[trigger] diag_view(b.diagnostics@[j]) == diag_view(
                a.diagnostics@[j],
            )
    }

    /// `b` is `a` with the diagnostics `d` reported after its own, and nothing
    /// else changed.
    pub open spec fn appends(a: Analyzer, b: Analyzer, d: Seq<DiagView>) -> bool {
        &&& Analyzer::same_state(a, b)
        &&& diags_view(b.diagnostics@) =~= diags_view(a.diagnostics@) + d
    }

    /// `b` is `a` with nothing changed but the diagnostics.
    pub open spec fn same_state(a: Analyzer, b: Analyzer) -> bool {
        &&& b.definitions == a.definitions
        &&& b.references == a.references
        &&& b.document_symbols == a.document_symbols
        &&& b.scopes == a.scopes
        &&& b.duplicate_exprs == a.duplicate_exprs
        &&& b.has_indicator_or_strategy == a.has_indicator_or_strategy
        &&& b.max_bars_back == a.max_bars_back
        &&& b.condition_stack == a.condition_stack
        &&& b.array_sizes == a.array_sizes
        &&& b.array_types == a.array_types
        &&& b.matrix_sizes == a.matrix_sizes
        &&& b.matrix_types == a.matrix_types
        &&& b.table_sizes == a.table_sizes
        &&& b.map_known_empty == a.map_known_empty
        &&& b.map_key_types == a.map_key_types
        &&& b.map_value_types == a.map_value_types
        &&& b.strategy_order_ids == a.strategy_order_ids
        &&& b.strategy_entry_ids == a.strategy_entry_ids
        &&& b.strategy_entry_directions == a.strategy_entry_directions
        &&& b.strategy_entry_count == a.strategy_entry_count
        &&& b.strategy_pyramiding == a.strategy_pyramiding
        &&& b.strategy_decl_range == a.strategy_decl_range
        &&& b.strategy_initial_capital == a.strategy_initial_capital
        &&& b.strategy_initial_capital_range == a.strategy_initial_capital_range
        &&& b.strategy_default_qty_type == a.strategy_default_qty_type
        &&& b.strategy_default_qty_type_range == a.strategy_default_qty_type_range
        &&& b.strategy_default_qty_value == a.strategy_default_qty_value
        &&& b.strategy_default_qty_value_range == a.strategy_default_qty_value_range
        &&& b.has_strategy_declaration == a.has_strategy_declaration
        &&& b.has_indicator_declaration == a.has_indicator_declaration
        &&& b.has_barstate_isconfirmed == a.has_barstate_isconfirmed
        &&& b.reported_repainting_hint == a.reported_repainting_hint
        &&& b.reported_pyramiding_hint == a.reported_pyramiding_hint
        &&& b.reported_direction_conflict == a.reported_direction_conflict
        &&& b.plot_titles == a.plot_titles
        &&& b.plot_styles == a.plot_styles
        &&& b.draw_object_vars == a.draw_object_vars
        &&& b.deleted_draw_objects == a.deleted_draw_objects
        &&& b.oca_groups == a.oca_groups
        &&& b.ta_length_stats == a.ta_length_stats
        &&& b.function_stack == a.function_stack
        &&& b.function_calls == a.function_calls
        &&& b.enums == a.enums
        &&& b.enum_member_ranges == a.enum_member_ranges
    }

    /// `b` has the outline entries and the enums of `a`.
    pub open spec fn keeps_outline(a: Analyzer, b: Analyzer) -> bool {
        &&& b.document_symbols == a.document_symbols
        &&& b.enums == a.enums
        &&& b.enum_member_ranges == a.enum_member_ranges
    }

    /// What walking part of the tree keeps: the outline entries and the
    /// enums, every earlier definition and every earlier reference, and
    /// every recorded call from one function to another.
    pub open spec fn walk_keeps(a: Analyzer, b: Analyzer) -> bool {
        &&& Analyzer::keeps_outline(a, b)
        &&& a.definitions@.len() <= b.definitions@.len()
        &&& forall|j: int| 0 <= j < a.definitions@.len() ==> #[trigger] b.definitions@[j] == a.definitions@[j]
        &&& a.references@.len() <= b.references@.len()
        &&& forall|j: int| 0 <= j < a.references@.len() ==> #[trigger] b.references@[j] == a.references@[j]
        &&& forall|p: Seq<char>, q: Seq<char>|
            #![trigger a.calls_edge(p, q)]
            #![trigger b.calls_edge(p, q)]
            a.calls_edge(p, q) ==> b.calls_edge(p, q)
    }

    /// The call graph records that function `p` calls function `q`.
    pub open spec fn calls_edge(self, p: Seq<char>, q: Seq<char>) -> bool {
        &&& self.function_calls@.contains_key(p)
        &&& crate::analysis::walk::names_view(self.function_calls@[p]@).contains(q)
    }

    /// The stacks of a walk come back as they were: as many scopes, all but
    /// the innermost unchanged, as many open conditions, all but the
    /// innermost unchanged, and the same functions being declared.
    pub open spec fn stacks_kept(a: Analyzer, b: Analyzer) -> bool {
        &&& b.scopes@.len() == a.scopes@.len()
        &&& forall|s: int| 0 <= s < a.scopes@.len() - 1 ==> #[trigger] b.scopes@[s] == a.scopes@[s]
        &&& b.condition_stack@.len() == a.condition_stack@.len()
        &&& forall|s: int| 0 <= s < a.condition_stack@.len() - 1 ==> #[trigger] b.condition_stack@[s] == a.condition_stack@[s]
        &&& b.function_stack@ == a.function_stack@
    }

    /// The diagnostics that `b` has beyond those of `a`.
    pub open spec fn added(a: Analyzer, b: Analyzer) -> Seq<DiagView> {
        diags_view(b.diagnostics@).skip(a.diagnostics@.len() as int)
    }
}


} // verus!
