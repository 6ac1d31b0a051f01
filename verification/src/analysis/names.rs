//! The words that messages use for diagnostic codes and symbol kinds, and
//! the source of an analysis made of its parts.

use vstd::prelude::*;

use crate::analysis::{AnalysisSettings, DiagnosticCode, Source, SymbolDef, SymbolKind, code_text, kind_text};
use crate::analysis::eval::tree_ok;
use crate::builtins::Builtins;
use crate::position::LineIndex;
use crate::syntax::SyntaxTree;

verus! {

impl DiagnosticCode {
    /// The code as it is reported.
    pub fn as_str(&self) -> (r: &'static str)
        ensures
            r@ == code_text(*self),
    {
        match self {
            DiagnosticCode::Syntax => "syntax",
            DiagnosticCode::Validation => "validation",
            DiagnosticCode::Runtime => "runtime",
            DiagnosticCode::Style => "style",
            DiagnosticCode::Logic => "logic",
        }
    }
}

impl SymbolDef {
    /// The word for the symbol's kind used in messages.
    pub fn kind_name(&self) -> (r: &'static str)
        ensures
            r@ == kind_text(self.kind),
    {
        match self.kind {
            SymbolKind::Variable => "variable",
            SymbolKind::Function => "function",
            SymbolKind::Parameter => "parameter",
            SymbolKind::LoopVariable => "loop variable",
            SymbolKind::Builtin => "builtin",
            SymbolKind::Type => "type",
        }
    }
}

impl<'a> Source<'a> {
    /// The source made of the given parts.
    pub fn new(
        text: &'a Vec<char>,
        line_index: &'a LineIndex,
        tree: &'a SyntaxTree,
        builtins: Builtins,
        settings: AnalysisSettings,
    ) -> (cx: Source<'a>)
        requires
            tree_ok(*tree, text@),
            line_index.wf(),
            line_index.text() == text@,
            builtins.wf(),
            settings.wf(),
        ensures
            cx.wf(),
            cx.text == text,
            cx.line_index == line_index,
            cx.tree == tree,
            cx.builtins == builtins,
            cx.settings == settings,
    {
        Source { text, line_index, tree, builtins, settings }
    }

}

} // verus!
