//! Checks of the ranges of `input.int` and `input.float`.

use vstd::prelude::*;

use crate::analysis::{Analyzer, DiagView, DiagnosticCode, Severity, Source, diag_at, diags_view, lemma_reports_grow_auto};
use crate::analysis::args::{CallArg, args_ok, arg_node, find_arg_node};
use crate::analysis::diag::report_at;
use crate::analysis::eval::{eval_numeric_constant, num_const};
use crate::num::rat_lt;
use crate::text::chars_are;

verus! {

broadcast use lemma_reports_grow_auto;

/// The constant value of an optional argument node.
pub open spec fn arg_value(cx: Source, n: Option<int>) -> Option<(int, int)> {
    match n {
        Some(node) => num_const(*cx.tree, cx.text@, node),
        None => None,
    }
}

/// What `check_input_range` reports for a call `name(args)`: `minval` not
/// below `maxval`, and a `defval` below `minval` or above `maxval`.
pub open spec fn input_range_diags(cx: Source, name: Seq<char>, args: Seq<CallArg>) -> Seq<DiagView> {
    if !cx.settings.enable_input_range_validation || (name != "input.int"@ && name != "input.float"@) {
        Seq::empty()
    } else {
        let def_node = arg_node(args, "defval"@, 0);
        let min_node = arg_node(args, "minval"@, 2);
        let max_node = arg_node(args, "maxval"@, 3);
        let min_val = arg_value(cx, min_node);
        let max_val = arg_value(cx, max_node);
        let range_diag = match (min_val, max_val) {
            (Some(mn), Some(mx)) => if !rat_lt(mn, mx) {
                seq![diag_at(cx, min_node->0, Severity::Hint, DiagnosticCode::Logic, "input range is invalid; minval should be < maxval"@)]
            } else {
                Seq::empty()
            },
            _ => Seq::empty(),
        };
        range_diag + defval_diags(cx, def_node, min_val, max_val)
    }
}

/// The reports for a `defval` (node `d`) below `min_val` or above `max_val`.
pub open spec fn defval_diags(cx: Source, d: Option<int>, min_val: Option<(int, int)>, max_val: Option<(int, int)>) -> Seq<DiagView> {
    match d {
        Some(d) => match num_const(*cx.tree, cx.text@, d) {
            Some(dv) => (if min_val matches Some(mn) && rat_lt(dv, mn) {
                seq![diag_at(cx, d, Severity::Hint, DiagnosticCode::Logic, "input defval is below minval"@)]
            } else {
                Seq::empty()
            }) + (if max_val matches Some(mx) && rat_lt(mx, dv) {
                seq![diag_at(cx, d, Severity::Hint, DiagnosticCode::Logic, "input defval exceeds maxval"@)]
            } else {
                Seq::empty()
            }),
            None => Seq::empty(),
        },
        None => Seq::empty(),
    }
}

impl Analyzer {
    fn check_defval(&mut self, cx: &Source, d: Option<usize>, min_val: Option<crate::num::Num>, max_val: Option<crate::num::Num>)
        requires
            old(self).wf(),
            cx.wf(),
            d matches Some(n) ==> crate::analysis::eval::node_ok(*cx.tree, n as int),
            min_val matches Some(v) ==> v.wf(),
            max_val matches Some(v) ==> v.wf(),
        ensures
            final(self).wf(),
            Analyzer::same_state(*old(self), *final(self)),
            diags_view(final(self).diagnostics@) == diags_view(old(self).diagnostics@) + defval_diags(
                *cx,
                match d {
                    Some(n) => Some(n as int),
                    None => None,
                },
                crate::num::opt_pair(min_val),
                crate::num::opt_pair(max_val),
            ),
    {
        let ghost d0 = diags_view(self.diagnostics@);
        let d = match d {
            Some(d) => d,
            None => {
                return;
            },
        };
        let dv = match eval_numeric_constant(cx.tree, cx.text, d) {
            Some(v) => v,
            None => {
                return;
            },
        };
        match min_val {
            Some(mn) => {
                if dv.less_than(&mn) {
                    report_at(&mut self.diagnostics, cx, d, Severity::Hint, DiagnosticCode::Logic,
                        "input defval is below minval");
                }
            },
            None => {},
        }
        match max_val {
            Some(mx) => {
                if mx.less_than(&dv) {
                    report_at(&mut self.diagnostics, cx, d, Severity::Hint, DiagnosticCode::Logic,
                        "input defval exceeds maxval");
                }
            },
            None => {},
        }
        assert(diags_view(self.diagnostics@) =~= d0 + defval_diags(*cx, Some(d as int), crate::num::opt_pair(min_val), crate::num::opt_pair(max_val)));
    }

    /// Checks `defval`, `minval` and `maxval` of `input.int` and `input.float`.
    pub fn check_input_range(&mut self, cx: &Source, name: &Vec<char>, args: &Vec<CallArg>)
        requires
            old(self).wf(),
            cx.wf(),
            args_ok(*cx.tree, args@),
        ensures
            final(self).wf(),
            Analyzer::same_state(*old(self), *final(self)),
            diags_view(final(self).diagnostics@) == diags_view(old(self).diagnostics@) + input_range_diags(*cx, name@, args@),
    {
        if !cx.settings.enable_input_range_validation {
            return;
        }
        if !chars_are(name, "input.int") && !chars_are(name, "input.float") {
            return;
        }
        let ghost d0 = diags_view(self.diagnostics@);
        let def_node = find_arg_node(args, "defval", 0);
        let min_node = find_arg_node(args, "minval", 2);
        let max_node = find_arg_node(args, "maxval", 3);
        let min_val = match min_node {
            Some(n) => eval_numeric_constant(cx.tree, cx.text, n),
            None => None,
        };
        let max_val = match max_node {
            Some(n) => eval_numeric_constant(cx.tree, cx.text, n),
            None => None,
        };
        match (min_node, &min_val, &max_val) {
            (Some(mn_node), Some(mn), Some(mx)) => {
                if !mn.less_than(mx) {
                    report_at(&mut self.diagnostics, cx, mn_node, Severity::Hint, DiagnosticCode::Logic,
                        "input range is invalid; minval should be < maxval");
                }
            },
            _ => {},
        }
        let ghost d1 = diags_view(self.diagnostics@);
        self.check_defval(cx, def_node, min_val, max_val);
        assert(diags_view(self.diagnostics@) =~= d0 + input_range_diags(*cx, name@, args@));
    }
}

/// An `input.int` or `input.float` with constant `minval` and `maxval`: the
/// invalid-range hint comes, at `minval`, exactly when `minval` is not below
/// `maxval`; with no `defval` it is the only report.
pub proof fn lemma_input_range(cx: Source, name: Seq<char>, args: Seq<CallArg>, mnn: int, mxn: int, mn: (int, int), mx: (int, int))
    requires
        cx.settings.enable_input_range_validation,
        name == "input.int"@ || name == "input.float"@,
        arg_node(args, "minval"@, 2) == Some(mnn),
        arg_node(args, "maxval"@, 3) == Some(mxn),
        num_const(*cx.tree, cx.text@, mnn) == Some(mn),
        num_const(*cx.tree, cx.text@, mxn) == Some(mx),
        arg_node(args, "defval"@, 0) is None,
    ensures
        input_range_diags(cx, name, args) == if mn.0 * mx.1 < mx.0 * mn.1 {
            Seq::<DiagView>::empty()
        } else {
            seq![diag_at(cx, mnn, Severity::Hint, DiagnosticCode::Logic, "input range is invalid; minval should be < maxval"@)]
        },
{
    reveal_strlit("input.int");
    reveal_strlit("input.float");
    assert("input.int"@.len() != "input.float"@.len());
    let r = input_range_diags(cx, name, args);
    assert(defval_diags(cx, None, Some(mn), Some(mx)) == Seq::<DiagView>::empty());
    assert(r == (if mn.0 * mx.1 < mx.0 * mn.1 {
        Seq::<DiagView>::empty()
    } else {
        seq![diag_at(cx, mnn, Severity::Hint, DiagnosticCode::Logic, "input range is invalid; minval should be < maxval"@)]
    }) + Seq::<DiagView>::empty());
    assert((if mn.0 * mx.1 < mx.0 * mn.1 {
        Seq::<DiagView>::empty()
    } else {
        seq![diag_at(cx, mnn, Severity::Hint, DiagnosticCode::Logic, "input range is invalid; minval should be < maxval"@)]
    }) + Seq::<DiagView>::empty() =~= (if mn.0 * mx.1 < mx.0 * mn.1 {
        Seq::<DiagView>::empty()
    } else {
        seq![diag_at(cx, mnn, Severity::Hint, DiagnosticCode::Logic, "input range is invalid; minval should be < maxval"@)]
    }));
}

} // verus!
