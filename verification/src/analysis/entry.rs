//! Analyzing a document: the source of the analysis, then a fresh analyzer
//! run over it.

use vstd::prelude::*;

use crate::analysis::{AnalysisResult, AnalysisSettings, Analyzer, Source};
use crate::analysis::eval::tree_ok;
use crate::analysis::run::{analysis_source, builtin_def, from_fresh, result_facts};
use crate::analysis::symbols::def_view;
use crate::builtins::{Builtins, function_table, value_table};
use crate::position::LineIndex;
use crate::syntax::SyntaxTree;
use crate::text::chars_of;

verus! {

/// The source of an analysis: the text, its index and tree, the full
/// built-in tables and the settings.
fn standard_source<'a>(
    text: &'a Vec<char>,
    line_index: &'a LineIndex,
    tree: &'a SyntaxTree,
    settings: &AnalysisSettings,
) -> (cx: Source<'a>)
    requires
        tree_ok(*tree, text@),
        line_index.wf(),
        line_index.text() == text@,
        settings.wf(),
    ensures
        cx.wf(),
        cx.text == text,
        cx.line_index == line_index,
        cx.tree == tree,
        cx.settings == *settings,
        cx.builtins.values_view() == value_table(),
        cx.builtins.functions_view() == function_table(),
{
    let builtins = standard_builtins();
    let copy = settings.duplicate();
    Source::new(text, line_index, tree, builtins, copy)
}

/// The full tables of built-in functions and values.
fn standard_builtins() -> (b: Builtins)
    ensures
        b.wf(),
        b.values_view() == value_table(),
        b.functions_view() == function_table(),
{
    Builtins::new()
}

/// Analyzes `text`, with its line index and syntax tree, under `settings`.
pub fn analyze_with_settings(
    text: &str,
    line_index: &LineIndex,
    tree: &SyntaxTree,
    settings: &AnalysisSettings,
) -> (r: AnalysisResult)
    requires
        tree_ok(*tree, text@),
        line_index.wf(),
        line_index.text() == text@,
        settings.wf(),
    ensures
        exists|cx: Source| analysis_source(cx, text@, line_index, tree, *settings) && result_facts(r, cx) && from_fresh(r, cx),
{
    let chars = chars_of(text);
    let cx = standard_source(&chars, line_index, tree, settings);
    let a = Analyzer::new(&cx);
    assert forall|k: int| 0 <= k < cx.builtins.value_seq().len() implies #[trigger] builtin_def(
        a.definitions@[k],
        cx.builtins.value_seq()[k].0,
    ) by {
        assert(def_view(a.definitions@[k]).name == cx.builtins.value_seq()[k].0);
    }
    let ghost a0 = a;
    let r = a.analyze(&cx);
    assert(from_fresh(r, cx));
    assert(analysis_source(cx, text@, line_index, tree, *settings)) by {
        reveal(analysis_source);
    }
    r
}

} // verus!
