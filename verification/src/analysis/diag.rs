//! Ranges of nodes and reporting diagnostics.

use vstd::prelude::*;

use crate::analysis::{Diagnostic, DiagnosticCode, Severity, Source, DiagView, diag, diag_at, diags_view, node_range, diag_view};
use crate::analysis::eval::node_ok;
use crate::position::{Position, Range, lemma_position_bounded};
use crate::text::string_of;

verus! {

/// The range of node `i`.
pub fn range_for_node(cx: &Source, i: usize) -> (r: Range)
    requires
        cx.wf(),
        node_ok(*cx.tree, i as int),
    ensures
        r == node_range(*cx, i as int),
{
    let ghost x = cx.text@;
    assert(cx.tree.node_wf(i as int, x.len() as int));
    let s = cx.tree.nodes[i].start;
    let e = cx.tree.nodes[i].end;
    let start = cx.line_index.offset_to_position(s);
    let end = cx.line_index.offset_to_position(e);
    proof {
        lemma_position_bounded(x, s as int);
        lemma_position_bounded(x, e as int);
    }
    Range { start, end }
}

/// Reports `message` at `range`.
pub fn push_diagnostic(
    diags: &mut Vec<Diagnostic>,
    cx: &Source,
    range: Range,
    severity: Severity,
    code: DiagnosticCode,
    message: String,
)
    requires
        cx.wf(),
    ensures
        diags_view(final(diags)@) == diags_view(old(diags)@).push(diag(*cx, range, severity, code, message@)),
{
    let range = cx.line_index.normalize_diagnostic_range(range);
    let ghost before = diags@;
    diags.push(Diagnostic { range, severity, code, message });
    assert(diags_view(diags@) =~= diags_view(before).push(diag_view(diags@[diags@.len() - 1])));
}

/// Reports the literal `message` at `range`.
pub fn report(
    diags: &mut Vec<Diagnostic>,
    cx: &Source,
    range: Range,
    severity: Severity,
    code: DiagnosticCode,
    message: &str,
)
    requires
        cx.wf(),
    ensures
        diags_view(final(diags)@) == diags_view(old(diags)@).push(diag(*cx, range, severity, code, message@)),
{
    push_diagnostic(diags, cx, range, severity, code, String::from_str(message));
}

/// Reports the literal `message` at node `i`.
pub fn report_at(
    diags: &mut Vec<Diagnostic>,
    cx: &Source,
    i: usize,
    severity: Severity,
    code: DiagnosticCode,
    message: &str,
)
    requires
        cx.wf(),
        node_ok(*cx.tree, i as int),
    ensures
        diags_view(final(diags)@) == diags_view(old(diags)@).push(diag_at(*cx, i as int, severity, code, message@)),
{
    let range = range_for_node(cx, i);
    report(diags, cx, range, severity, code, message);
}

/// Reports the message with characters `message` at `range`.
pub fn report_chars(
    diags: &mut Vec<Diagnostic>,
    cx: &Source,
    range: Range,
    severity: Severity,
    code: DiagnosticCode,
    message: &Vec<char>,
)
    requires
        cx.wf(),
    ensures
        diags_view(final(diags)@) == diags_view(old(diags)@).push(diag(*cx, range, severity, code, message@)),
{
    push_diagnostic(diags, cx, range, severity, code, string_of(message.as_slice()));
}

} // verus!
