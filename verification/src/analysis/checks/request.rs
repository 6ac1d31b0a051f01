//! Checks of `request.security` calls.

use vstd::prelude::*;

use crate::analysis::{Analyzer, DiagView, DiagnosticCode, Severity, Source, diag, diag_at, diags_view, lemma_reports_grow_auto};
use crate::analysis::args::{CallArg, args_ok, arg_for, arg_node, find_arg_node, find_call_arg};
use crate::analysis::diag::{range_for_node, report, report_at, report_chars};
use crate::analysis::eval::{attr_chain, attribute_chain_name, eval_string_constant, node_text, string_const, text_of};
use crate::fmt::wrap_chars;
use crate::position::Range;
use crate::syntax::NodeKind;
use crate::text::{chars_are, is_blank, is_valid_timeframe_string, trim, valid_timeframe};

verus! {

broadcast use lemma_reports_grow_auto;

/// The name that an argument spells: a dotted name or an identifier.
pub open spec fn name_value(cx: Source, n: int) -> Option<Seq<char>> {
    if cx.tree.kind_of(n) == NodeKind::Attribute {
        attr_chain(*cx.tree, cx.text@, n)
    } else if cx.tree.kind_of(n) == NodeKind::Identifier {
        Some(text_of(*cx.tree, cx.text@, n))
    } else {
        None
    }
}

/// The name that an argument spells, or its string constant.
pub open spec fn name_or_string(cx: Source, n: int) -> Option<Seq<char>> {
    if cx.tree.kind_of(n) == NodeKind::Attribute || cx.tree.kind_of(n) == NodeKind::Identifier {
        name_value(cx, n)
    } else {
        string_const(*cx.tree, cx.text@, n)
    }
}

/// What `check_request_security_lookahead` reports.
pub open spec fn lookahead_diags(cx: Source, name: Seq<char>, args: Seq<CallArg>, call_range: Range) -> Seq<DiagView> {
    if name != "request.security"@ {
        Seq::empty()
    } else {
        match arg_node(args, "lookahead"@, 4) {
            None => seq![diag(cx, call_range, Severity::Hint, DiagnosticCode::Logic, "request.security missing `lookahead`; default may allow lookahead bias"@)],
            Some(n) => if name_value(cx, n) == Some("barmerge.lookahead_on"@) {
                seq![diag_at(cx, n, Severity::Hint, DiagnosticCode::Logic, "request.security lookahead set to barmerge.lookahead_on; this can introduce lookahead bias"@)]
            } else {
                Seq::empty()
            },
        }
    }
}

/// What `check_request_security_gaps` reports.
pub open spec fn gaps_diags(cx: Source, name: Seq<char>, args: Seq<CallArg>, call_range: Range) -> Seq<DiagView> {
    if name == "request.security"@ && arg_for(args, "gaps"@, 3) is None {
        seq![diag(cx, call_range, Severity::Hint, DiagnosticCode::Logic, "request.security missing `gaps` parameter"@)]
    } else {
        Seq::empty()
    }
}

/// What `check_request_security_expression` reports.
pub open spec fn expression_diags(cx: Source, name: Seq<char>, args: Seq<CallArg>, call_range: Range) -> Seq<DiagView> {
    if name != "request.security"@ || !cx.settings.enable_request_security_expression_validation {
        Seq::empty()
    } else {
        match arg_node(args, "expression"@, 2) {
            None => seq![diag(cx, call_range, Severity::Hint, DiagnosticCode::Logic, "request.security missing expression parameter"@)],
            Some(n) => if cx.tree.nodes@[n].missing || cx.tree.nodes@[n].error {
                seq![diag_at(cx, n, Severity::Hint, DiagnosticCode::Logic, "request.security expression is invalid"@)]
            } else {
                Seq::empty()
            },
        }
    }
}

/// What `check_request_security_format` reports: an empty symbol, and a
/// missing, non-constant or malformed timeframe.
pub open spec fn format_diags(cx: Source, name: Seq<char>, args: Seq<CallArg>, call_range: Range) -> Seq<DiagView> {
    if name != "request.security"@ || !cx.settings.enable_request_security_format_validation {
        Seq::empty()
    } else {
        let sym = match arg_node(args, "symbol"@, 0) {
            Some(n) => match string_const(*cx.tree, cx.text@, n) {
                Some(s) => if trim(s).len() == 0 {
                    seq![diag_at(cx, n, Severity::Hint, DiagnosticCode::Logic, "request.security symbol is empty"@)]
                } else {
                    Seq::empty()
                },
                None => Seq::empty(),
            },
            None => Seq::empty(),
        };
        let tf = match arg_node(args, "timeframe"@, 1) {
            Some(n) => match string_const(*cx.tree, cx.text@, n) {
                Some(v) => if !valid_timeframe(v) {
                    seq![diag_at(cx, n, Severity::Hint, DiagnosticCode::Logic, "Invalid timeframe format `"@ + v + "`"@)]
                } else {
                    Seq::empty()
                },
                None => seq![diag_at(cx, n, Severity::Hint, DiagnosticCode::Logic, "request.security timeframe should be a constant string"@)],
            },
            None => seq![diag(cx, call_range, Severity::Hint, DiagnosticCode::Logic, "request.security missing timeframe parameter"@)],
        };
        sym + tf
    }
}

/// The name that the argument at node `n` spells: a dotted name or an identifier.
pub fn name_value_of(cx: &Source, n: usize) -> (r: Option<Vec<char>>)
    requires
        cx.wf(),
        crate::analysis::eval::node_ok(*cx.tree, n as int),
    ensures
        match r {
            Some(v) => name_value(*cx, n as int) == Some(v@),
            None => name_value(*cx, n as int) is None,
        },
{
    if cx.tree.nodes[n].kind == NodeKind::Attribute {
        attribute_chain_name(cx.tree, cx.text, n)
    } else if cx.tree.nodes[n].kind == NodeKind::Identifier {
        Some(node_text(cx.tree, cx.text, n))
    } else {
        None
    }
}

/// The name that the argument at node `n` spells, or its string constant.
pub fn name_or_string_of(cx: &Source, n: usize) -> (r: Option<Vec<char>>)
    requires
        cx.wf(),
        crate::analysis::eval::node_ok(*cx.tree, n as int),
    ensures
        match r {
            Some(v) => name_or_string(*cx, n as int) == Some(v@),
            None => name_or_string(*cx, n as int) is None,
        },
{
    if cx.tree.nodes[n].kind == NodeKind::Attribute || cx.tree.nodes[n].kind == NodeKind::Identifier {
        name_value_of(cx, n)
    } else {
        eval_string_constant(cx.tree, cx.text, n)
    }
}

impl Analyzer {
    /// Reports a `request.security` call without `lookahead`, or with `barmerge.lookahead_on`.
    pub fn check_request_security_lookahead(&mut self, cx: &Source, name: &Vec<char>, args: &Vec<CallArg>, call_range: Range)
        requires
            old(self).wf(),
            cx.wf(),
            args_ok(*cx.tree, args@),
        ensures
            final(self).wf(),
            Analyzer::same_state(*old(self), *final(self)),
            diags_view(final(self).diagnostics@) == diags_view(old(self).diagnostics@) + lookahead_diags(*cx, name@, args@, call_range),
    {
        if !chars_are(name, "request.security") {
            return;
        }
        let n = match find_arg_node(args, "lookahead", 4) {
            Some(n) => n,
            None => {
                report(&mut self.diagnostics, cx, call_range, Severity::Hint, DiagnosticCode::Logic,
                    "request.security missing `lookahead`; default may allow lookahead bias");
                return;
            },
        };
        match name_value_of(cx, n) {
            Some(v) => {
                if chars_are(&v, "barmerge.lookahead_on") {
                    report_at(&mut self.diagnostics, cx, n, Severity::Hint, DiagnosticCode::Logic,
                        "request.security lookahead set to barmerge.lookahead_on; this can introduce lookahead bias");
                }
            },
            None => {},
        }
    }

    /// Reports a `request.security` call without `gaps`.
    pub fn check_request_security_gaps(&mut self, cx: &Source, name: &Vec<char>, args: &Vec<CallArg>, call_range: Range)
        requires
            old(self).wf(),
            cx.wf(),
        ensures
            final(self).wf(),
            Analyzer::same_state(*old(self), *final(self)),
            diags_view(final(self).diagnostics@) == diags_view(old(self).diagnostics@) + gaps_diags(*cx, name@, args@, call_range),
    {
        if !chars_are(name, "request.security") {
            return;
        }
        if find_call_arg(args, "gaps", 3).is_some() {
            return;
        }
        report(&mut self.diagnostics, cx, call_range, Severity::Hint, DiagnosticCode::Logic,
            "request.security missing `gaps` parameter");
    }

    /// Reports a `request.security` call whose expression is missing or invalid.
    pub fn check_request_security_expression(&mut self, cx: &Source, name: &Vec<char>, args: &Vec<CallArg>, call_range: Range)
        requires
            old(self).wf(),
            cx.wf(),
            args_ok(*cx.tree, args@),
        ensures
            final(self).wf(),
            Analyzer::same_state(*old(self), *final(self)),
            diags_view(final(self).diagnostics@) == diags_view(old(self).diagnostics@) + expression_diags(*cx, name@, args@, call_range),
    {
        if !chars_are(name, "request.security") {
            return;
        }
        if !cx.settings.enable_request_security_expression_validation {
            return;
        }
        let n = match find_arg_node(args, "expression", 2) {
            Some(n) => n,
            None => {
                report(&mut self.diagnostics, cx, call_range, Severity::Hint, DiagnosticCode::Logic,
                    "request.security missing expression parameter");
                return;
            },
        };
        if cx.tree.nodes[n].missing || cx.tree.nodes[n].error {
            report_at(&mut self.diagnostics, cx, n, Severity::Hint, DiagnosticCode::Logic,
                "request.security expression is invalid");
        }
    }

    /// Checks the symbol and timeframe of a `request.security` call.
    pub fn check_request_security_format(&mut self, cx: &Source, name: &Vec<char>, args: &Vec<CallArg>, call_range: Range)
        requires
            old(self).wf(),
            cx.wf(),
            args_ok(*cx.tree, args@),
        ensures
            final(self).wf(),
            Analyzer::same_state(*old(self), *final(self)),
            diags_view(final(self).diagnostics@) == diags_view(old(self).diagnostics@) + format_diags(*cx, name@, args@, call_range),
    {
        if !chars_are(name, "request.security") {
            return;
        }
        if !cx.settings.enable_request_security_format_validation {
            return;
        }
        let ghost d0 = diags_view(self.diagnostics@);
        match find_arg_node(args, "symbol", 0) {
            Some(n) => match eval_string_constant(cx.tree, cx.text, n) {
                Some(s) => {
                    if is_blank(&s) {
                        report_at(&mut self.diagnostics, cx, n, Severity::Hint, DiagnosticCode::Logic,
                            "request.security symbol is empty");
                    }
                },
                None => {},
            },
            None => {},
        }
        let ghost d1 = diags_view(self.diagnostics@);
        match find_arg_node(args, "timeframe", 1) {
            Some(n) => match eval_string_constant(cx.tree, cx.text, n) {
                Some(v) => {
                    if !is_valid_timeframe_string(&v) {
                        let msg = wrap_chars("Invalid timeframe format `", &v, "`");
                        let range = range_for_node(cx, n);
                        report_chars(&mut self.diagnostics, cx, range, Severity::Hint, DiagnosticCode::Logic, &msg);
                    }
                },
                None => {
                    report_at(&mut self.diagnostics, cx, n, Severity::Hint, DiagnosticCode::Logic,
                        "request.security timeframe should be a constant string");
                },
            },
            None => {
                report(&mut self.diagnostics, cx, call_range, Severity::Hint, DiagnosticCode::Logic,
                    "request.security missing timeframe parameter");
            },
        }
        assert(diags_view(self.diagnostics@) =~= d0 + format_diags(*cx, name@, args@, call_range));
    }
}

/// A `request.security` call whose `lookahead` argument is a dotted name
/// gets the lookahead-bias hint, at that argument, exactly when the name is
/// `barmerge.lookahead_on`; `barmerge.lookahead_off` gets nothing.
pub proof fn lemma_lookahead_on(cx: Source, args: Seq<CallArg>, call_range: Range, n: int, v: Seq<char>)
    requires
        arg_node(args, "lookahead"@, 4) == Some(n),
        cx.tree.kind_of(n) == NodeKind::Attribute,
        attr_chain(*cx.tree, cx.text@, n) == Some(v),
    ensures
        lookahead_diags(cx, "request.security"@, args, call_range) == if v == "barmerge.lookahead_on"@ {
            seq![diag_at(cx, n, Severity::Hint, DiagnosticCode::Logic, "request.security lookahead set to barmerge.lookahead_on; this can introduce lookahead bias"@)]
        } else {
            Seq::<DiagView>::empty()
        },
        v == "barmerge.lookahead_off"@ ==> lookahead_diags(cx, "request.security"@, args, call_range) == Seq::<DiagView>::empty(),
{
    reveal_strlit("barmerge.lookahead_on");
    reveal_strlit("barmerge.lookahead_off");
    assert("barmerge.lookahead_on"@.len() != "barmerge.lookahead_off"@.len());
}

/// A `request.security` call without a `lookahead` argument gets the
/// missing-lookahead hint at the call.
pub proof fn lemma_lookahead_missing(cx: Source, args: Seq<CallArg>, call_range: Range)
    requires
        arg_node(args, "lookahead"@, 4) is None,
    ensures
        lookahead_diags(cx, "request.security"@, args, call_range) == seq![
            diag(cx, call_range, Severity::Hint, DiagnosticCode::Logic, "request.security missing `lookahead`; default may allow lookahead bias"@),
        ],
{
}

/// A `request.security` call gets the missing-gaps hint at the call exactly
/// when it has no `gaps` argument; no other call gets it.
pub proof fn lemma_gaps_missing(cx: Source, name: Seq<char>, args: Seq<CallArg>, call_range: Range)
    ensures
        gaps_diags(cx, name, args, call_range).len() <= 1,
        gaps_diags(cx, "request.security"@, args, call_range) == if arg_for(args, "gaps"@, 3) is None {
            seq![diag(cx, call_range, Severity::Hint, DiagnosticCode::Logic, "request.security missing `gaps` parameter"@)]
        } else {
            Seq::<DiagView>::empty()
        },
        name != "request.security"@ ==> gaps_diags(cx, name, args, call_range) == Seq::<DiagView>::empty(),
{
}

} // verus!
