//! Checks of `na` arguments and of color component ranges.

use vstd::prelude::*;

use crate::analysis::{Analyzer, DiagView, DiagnosticCode, Severity, Source, diag_at, diags_view, lemma_reports_grow_auto};
use crate::analysis::args::{CallArg, args_ok, arg_node, find_arg_node};
use crate::analysis::diag::{range_for_node, report_at, report_chars};
use crate::analysis::eval::{contains_na, eval_numeric_constant, expr_contains_na, num_const};
use crate::fmt::{decimal, push_decimal, push_num, push_str, rational_text};
use crate::num::rat_lt;
use crate::text::{chars_are, chars_of, has_prefix, starts_with_lit};

verus! {

broadcast use lemma_reports_grow_auto;

/// A report of `message` for each of the first `k` arguments that may be `na`.
pub open spec fn na_arg_diags(cx: Source, args: Seq<CallArg>, k: int, message: Seq<char>) -> Seq<DiagView>
    decreases k,
{
    if k <= 0 {
        Seq::empty()
    } else {
        na_arg_diags(cx, args, k - 1, message) + if contains_na(*cx.tree, cx.text@, args[k - 1].node as int) {
            seq![diag_at(cx, args[k - 1].node as int, Severity::Hint, DiagnosticCode::Logic, message)]
        } else {
            Seq::empty()
        }
    }
}

/// What `check_na_usage` reports for a call `name(args)`.
pub open spec fn na_usage_diags(cx: Source, name: Seq<char>, args: Seq<CallArg>) -> Seq<DiagView> {
    if has_prefix(name, "ta."@) || has_prefix(name, "math."@) {
        na_arg_diags(cx, args, args.len() as int, "Argument may be na; guard with na() or nz()"@)
    } else {
        Seq::empty()
    }
}

/// What `check_string_na_usage` reports for a call `name(args)`.
pub open spec fn string_na_diags(cx: Source, name: Seq<char>, args: Seq<CallArg>) -> Seq<DiagView> {
    if has_prefix(name, "str."@) && cx.settings.enable_string_na_checks {
        na_arg_diags(cx, args, args.len() as int, "String function argument may be na"@)
    } else {
        Seq::empty()
    }
}

/// The report for a color component (node `n`, if any) outside `[0, max]`.
pub open spec fn color_component_diags(cx: Source, n: Option<int>, label: Seq<char>, max: int) -> Seq<DiagView> {
    match n {
        Some(node) => match num_const(*cx.tree, cx.text@, node) {
            Some(v) => if v.0 < 0 || rat_lt((max, 1), v) {
                seq![diag_at(cx, node, Severity::Hint, DiagnosticCode::Logic,
                    label + " value "@ + rational_text(v.0, v.1) + " is out of range [0, "@ + decimal(max) + "]"@)]
            } else {
                Seq::empty()
            },
            None => Seq::empty(),
        },
        None => Seq::empty(),
    }
}

/// What `check_color_values` reports for a call `name(args)`.
pub open spec fn color_diags(cx: Source, name: Seq<char>, args: Seq<CallArg>) -> Seq<DiagView> {
    if !cx.settings.enable_color_value_validation {
        Seq::empty()
    } else if name == "color.rgb"@ {
        color_component_diags(cx, arg_node(args, "red"@, 0), "red"@, 255)
            + color_component_diags(cx, arg_node(args, "green"@, 1), "green"@, 255)
            + color_component_diags(cx, arg_node(args, "blue"@, 2), "blue"@, 255)
            + color_component_diags(cx, arg_node(args, "transp"@, 3), "transp"@, 100)
    } else if name == "color.new"@ {
        color_component_diags(cx, arg_node(args, "transp"@, 1), "transp"@, 100)
    } else {
        Seq::empty()
    }
}

impl Analyzer {
    fn report_na_args(&mut self, cx: &Source, args: &Vec<CallArg>, message: &str)
        requires
            old(self).wf(),
            cx.wf(),
            args_ok(*cx.tree, args@),
        ensures
            final(self).wf(),
            Analyzer::same_state(*old(self), *final(self)),
            diags_view(final(self).diagnostics@) == diags_view(old(self).diagnostics@) + na_arg_diags(*cx, args@, args@.len() as int, message@),
    {
        let ghost a = *self;
        let mut k: usize = 0;
        while k < args.len()
            invariant
                cx.wf(),
                args_ok(*cx.tree, args@),
                k <= args@.len(),
                a.wf(),
                self.wf(),
                Analyzer::same_state(a, *self),
                diags_view(self.diagnostics@) == diags_view(a.diagnostics@) + na_arg_diags(*cx, args@, k as int, message@),
            decreases args@.len() - k,
        {
            let n = args[k].node;
            if expr_contains_na(cx.tree, cx.text, n) {
                report_at(&mut self.diagnostics, cx, n, Severity::Hint, DiagnosticCode::Logic, message);
            }
            k = k + 1;
        }
    }

    /// Reports `na` arguments of `ta.*` and `math.*` calls.
    pub fn check_na_usage(&mut self, cx: &Source, name: &Vec<char>, args: &Vec<CallArg>)
        requires
            old(self).wf(),
            cx.wf(),
            args_ok(*cx.tree, args@),
        ensures
            final(self).wf(),
            Analyzer::same_state(*old(self), *final(self)),
            diags_view(final(self).diagnostics@) == diags_view(old(self).diagnostics@) + na_usage_diags(*cx, name@, args@),
    {
        if !starts_with_lit(name, "ta.") && !starts_with_lit(name, "math.") {
            return;
        }
        self.report_na_args(cx, args, "Argument may be na; guard with na() or nz()");
    }

    /// Reports `na` arguments of `str.*` calls.
    pub fn check_string_na_usage(&mut self, cx: &Source, name: &Vec<char>, args: &Vec<CallArg>)
        requires
            old(self).wf(),
            cx.wf(),
            args_ok(*cx.tree, args@),
        ensures
            final(self).wf(),
            Analyzer::same_state(*old(self), *final(self)),
            diags_view(final(self).diagnostics@) == diags_view(old(self).diagnostics@) + string_na_diags(*cx, name@, args@),
    {
        if !starts_with_lit(name, "str.") {
            return;
        }
        if !cx.settings.enable_string_na_checks {
            return;
        }
        self.report_na_args(cx, args, "String function argument may be na");
    }

    fn check_color_component(&mut self, cx: &Source, n: Option<usize>, label: &str, max: i64)
        requires
            old(self).wf(),
            cx.wf(),
            n matches Some(node) ==> crate::analysis::eval::node_ok(*cx.tree, node as int),
            0 <= max <= 255,
        ensures
            final(self).wf(),
            Analyzer::same_state(*old(self), *final(self)),
            diags_view(final(self).diagnostics@) == diags_view(old(self).diagnostics@) + color_component_diags(
                *cx,
                match n {
                    Some(node) => Some(node as int),
                    None => None,
                },
                label@,
                max as int,
            ),
    {
        let node = match n {
            Some(node) => node,
            None => {
                return;
            },
        };
        let v = match eval_numeric_constant(cx.tree, cx.text, node) {
            Some(v) => v,
            None => {
                return;
            },
        };
        let m = crate::num::Num::from_int(max);
        if v.is_negative() || m.less_than(&v) {
            let mut msg = chars_of(label);
            push_str(&mut msg, " value ");
            push_num(&mut msg, &v);
            push_str(&mut msg, " is out of range [0, ");
            push_decimal(&mut msg, max);
            push_str(&mut msg, "]");
            let range = range_for_node(cx, node);
            report_chars(&mut self.diagnostics, cx, range, Severity::Hint, DiagnosticCode::Logic, &msg);
        }
    }

    /// Reports constant color components out of range in `color.rgb` and `color.new`.
    #[verifier::rlimit(40)]
    pub fn check_color_values(&mut self, cx: &Source, name: &Vec<char>, args: &Vec<CallArg>)
        requires
            old(self).wf(),
            cx.wf(),
            args_ok(*cx.tree, args@),
        ensures
            final(self).wf(),
            Analyzer::same_state(*old(self), *final(self)),
            diags_view(final(self).diagnostics@) == diags_view(old(self).diagnostics@) + color_diags(*cx, name@, args@),
    {
        if !cx.settings.enable_color_value_validation {
            return;
        }
        if chars_are(name, "color.rgb") {
            let ghost a = *self;
            let r = find_arg_node(args, "red", 0);
            let g = find_arg_node(args, "green", 1);
            let b = find_arg_node(args, "blue", 2);
            let tr = find_arg_node(args, "transp", 3);
            self.check_color_component(cx, r, "red", 255);
            let ghost a1 = *self;
            self.check_color_component(cx, g, "green", 255);
            let ghost a2 = *self;
            self.check_color_component(cx, b, "blue", 255);
            let ghost a3 = *self;
            self.check_color_component(cx, tr, "transp", 100);
            proof {
                let c1 = color_component_diags(*cx, arg_node(args@, "red"@, 0), "red"@, 255);
                let c2 = color_component_diags(*cx, arg_node(args@, "green"@, 1), "green"@, 255);
                let c3 = color_component_diags(*cx, arg_node(args@, "blue"@, 2), "blue"@, 255);
                let c4 = color_component_diags(*cx, arg_node(args@, "transp"@, 3), "transp"@, 100);
                assert(diags_view(a1.diagnostics@) == diags_view(a.diagnostics@) + c1);
                assert(diags_view(a2.diagnostics@) == diags_view(a1.diagnostics@) + c2);
                assert(diags_view(a3.diagnostics@) == diags_view(a2.diagnostics@) + c3);
                assert(diags_view(self.diagnostics@) == diags_view(a3.diagnostics@) + c4);
                assert(diags_view(self.diagnostics@) =~= diags_view(a.diagnostics@) + (c1 + c2 + c3 + c4));
            }
        } else if chars_are(name, "color.new") {
            self.check_color_component(cx, find_arg_node(args, "transp", 1), "transp", 100);
        }
    }
}

} // verus!
