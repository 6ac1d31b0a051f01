//! Checks of divisions and of the domains of math functions.

use vstd::prelude::*;

use crate::analysis::{Analyzer, DiagView, DiagnosticCode, Severity, Source, diag_at, diags_view, lemma_reports_grow_auto};
use crate::analysis::args::{CallArg, args_ok, arg_node, find_arg_node};
use crate::analysis::diag::{range_for_node, report_at, report_chars};
use crate::analysis::eval::{
    child, contains_na, eval_numeric_constant, expr_contains_na, expr_is_zero, is_zero_expr, node_ok, num_const,
    sub_at, text_is, text_of,
};
use crate::fmt::push_str;
use crate::num::rat_lt;
use crate::syntax::Field;
use crate::text::chars_are;

verus! {

broadcast use lemma_reports_grow_auto;

/// What `check_math_operation` reports for math operation `i`: a divisor
/// that is zero, or one that contains `na`.
pub open spec fn math_operation_diags(cx: Source, i: int) -> Seq<DiagView> {
    let t = *cx.tree;
    let x = cx.text@;
    match sub_at(t, i, Field::Operator) {
        Some(op) => if text_of(t, x, op) != "/"@ && text_of(t, x, op) != "%"@ {
            Seq::empty()
        } else {
            match sub_at(t, i, Field::Right) {
                Some(r) => if is_zero_expr(t, x, r) {
                    seq![diag_at(cx, r, Severity::Hint, DiagnosticCode::Logic, "Division by zero; divisor evaluates to 0"@)]
                } else if contains_na(t, x, r) {
                    seq![diag_at(cx, r, Severity::Hint, DiagnosticCode::Logic, "Division by na may propagate na values"@)]
                } else {
                    Seq::empty()
                },
                None => Seq::empty(),
            }
        },
        None => Seq::empty(),
    }
}

/// What `check_math_domain` reports for a call `name(args)`: a constant
/// argument outside the domain of `math.log`, `math.log10`, `math.sqrt`,
/// `math.asin` or `math.acos`.
pub open spec fn math_domain_diags(cx: Source, name: Seq<char>, args: Seq<CallArg>) -> Seq<DiagView> {
    let t = *cx.tree;
    let x = cx.text@;
    match arg_node(args, "x"@, 0) {
        Some(n) => {
            let v = num_const(t, x, n);
            if name == "math.log"@ || name == "math.log10"@ {
                if is_zero_expr(t, x, n) {
                    seq![diag_at(cx, n, Severity::Hint, DiagnosticCode::Logic, "math.log input is 0; result is undefined"@)]
                } else if v matches Some(p) && p.0 < 0 {
                    seq![diag_at(cx, n, Severity::Hint, DiagnosticCode::Logic, "math.log input is negative; result is undefined"@)]
                } else {
                    Seq::empty()
                }
            } else if name == "math.sqrt"@ {
                if v matches Some(p) && p.0 < 0 {
                    seq![diag_at(cx, n, Severity::Hint, DiagnosticCode::Logic, "math.sqrt input is negative; result is NaN"@)]
                } else {
                    Seq::empty()
                }
            } else if name == "math.asin"@ || name == "math.acos"@ {
                if v matches Some(p) && (rat_lt(p, (-1, 1)) || rat_lt((1, 1), p)) {
                    seq![diag_at(cx, n, Severity::Hint, DiagnosticCode::Logic, name + " input out of [-1, 1] range"@)]
                } else {
                    Seq::empty()
                }
            } else {
                Seq::empty()
            }
        },
        None => Seq::empty(),
    }
}

impl Analyzer {
    /// Checks the divisor of the math operation at node `i`.
    pub fn check_math_operation(&mut self, cx: &Source, i: usize)
        requires
            old(self).wf(),
            cx.wf(),
            node_ok(*cx.tree, i as int),
        ensures
            final(self).wf(),
            Analyzer::same_state(*old(self), *final(self)),
            diags_view(final(self).diagnostics@) == diags_view(old(self).diagnostics@) + math_operation_diags(*cx, i as int),
    {
        let t = cx.tree;
        let x = cx.text;
        let op = match child(t, x, i, Field::Operator) {
            Some(c) => c,
            None => {
                return;
            },
        };
        if !text_is(t, x, op, "/") && !text_is(t, x, op, "%") {
            return;
        }
        let r = match child(t, x, i, Field::Right) {
            Some(c) => c,
            None => {
                return;
            },
        };
        if expr_is_zero(t, x, r) {
            report_at(&mut self.diagnostics, cx, r, Severity::Hint, DiagnosticCode::Logic,
                "Division by zero; divisor evaluates to 0");
            return;
        }
        if expr_contains_na(t, x, r) {
            report_at(&mut self.diagnostics, cx, r, Severity::Hint, DiagnosticCode::Logic,
                "Division by na may propagate na values");
        }
    }

    /// Checks the argument of `math.log`, `math.log10`, `math.sqrt`,
    /// `math.asin` and `math.acos`.
    pub fn check_math_domain(&mut self, cx: &Source, name: &Vec<char>, args: &Vec<CallArg>)
        requires
            old(self).wf(),
            cx.wf(),
            args_ok(*cx.tree, args@),
        ensures
            final(self).wf(),
            Analyzer::same_state(*old(self), *final(self)),
            diags_view(final(self).diagnostics@) == diags_view(old(self).diagnostics@) + math_domain_diags(*cx, name@, args@),
    {
        let t = cx.tree;
        let x = cx.text;
        let n = match find_arg_node(args, "x", 0) {
            Some(n) => n,
            None => {
                return;
            },
        };
        let v = eval_numeric_constant(t, x, n);
        if chars_are(name, "math.log") || chars_are(name, "math.log10") {
            if expr_is_zero(t, x, n) {
                report_at(&mut self.diagnostics, cx, n, Severity::Hint, DiagnosticCode::Logic,
                    "math.log input is 0; result is undefined");
                return;
            }
            match v {
                Some(p) => {
                    if p.is_negative() {
                        report_at(&mut self.diagnostics, cx, n, Severity::Hint, DiagnosticCode::Logic,
                            "math.log input is negative; result is undefined");
                    }
                },
                None => {},
            }
        } else if chars_are(name, "math.sqrt") {
            match v {
                Some(p) => {
                    if p.is_negative() {
                        report_at(&mut self.diagnostics, cx, n, Severity::Hint, DiagnosticCode::Logic,
                            "math.sqrt input is negative; result is NaN");
                    }
                },
                None => {},
            }
        } else if chars_are(name, "math.asin") || chars_are(name, "math.acos") {
            match v {
                Some(p) => {
                    let lo = crate::num::Num::from_int(-1);
                    let hi = crate::num::Num::from_int(1);
                    if p.less_than(&lo) || hi.less_than(&p) {
                        let mut msg = name.clone();
                        push_str(&mut msg, " input out of [-1, 1] range");
                        let range = range_for_node(cx, n);
                        report_chars(&mut self.diagnostics, cx, range, Severity::Hint, DiagnosticCode::Logic, &msg);
                    }
                },
                None => {},
            }
        }
    }
}

/// A division or remainder whose right operand is the constant zero is
/// reported, at that operand, as a division by zero.
pub proof fn lemma_division_by_zero(cx: Source, i: int, op: int, r: int)
    requires
        sub_at(*cx.tree, i, Field::Operator) == Some(op),
        text_of(*cx.tree, cx.text@, op) == "/"@ || text_of(*cx.tree, cx.text@, op) == "%"@,
        sub_at(*cx.tree, i, Field::Right) == Some(r),
        num_const(*cx.tree, cx.text@, r) matches Some(v) && v.0 == 0,
    ensures
        math_operation_diags(cx, i) == seq![
            diag_at(cx, r, Severity::Hint, DiagnosticCode::Logic, "Division by zero; divisor evaluates to 0"@),
        ],
{
}

/// The names of the math functions whose domains are checked are distinct.
pub proof fn lemma_math_names_distinct()
    ensures
        "math.log"@ != "math.log10"@,
        "math.log"@ != "math.sqrt"@,
        "math.log"@ != "math.asin"@,
        "math.log"@ != "math.acos"@,
        "math.log10"@ != "math.sqrt"@,
        "math.log10"@ != "math.asin"@,
        "math.log10"@ != "math.acos"@,
        "math.sqrt"@ != "math.asin"@,
        "math.sqrt"@ != "math.acos"@,
        "math.asin"@ != "math.acos"@,
{
    reveal_strlit("math.log");
    reveal_strlit("math.log10");
    reveal_strlit("math.sqrt");
    reveal_strlit("math.asin");
    reveal_strlit("math.acos");
    assert("math.log"@.len() != "math.log10"@.len());
    assert("math.log"@.len() != "math.sqrt"@.len());
    assert("math.log"@.len() != "math.asin"@.len());
    assert("math.log"@.len() != "math.acos"@.len());
    assert("math.log10"@.len() != "math.sqrt"@.len());
    assert("math.log10"@.len() != "math.asin"@.len());
    assert("math.log10"@.len() != "math.acos"@.len());
    assert("math.sqrt"@[5] != "math.asin"@[5]);
    assert("math.sqrt"@[5] != "math.acos"@[5]);
    assert("math.asin"@[6] != "math.acos"@[6]);
}

/// The operators of a math operation that do not divide are distinct from
/// the two that do.
proof fn lemma_operators_distinct()
    ensures
        "+"@ != "/"@ && "+"@ != "%"@,
        "-"@ != "/"@ && "-"@ != "%"@,
        "*"@ != "/"@ && "*"@ != "%"@,
{
    reveal_strlit("+");
    reveal_strlit("-");
    reveal_strlit("*");
    reveal_strlit("/");
    reveal_strlit("%");
    assert("+"@[0] != "/"@[0] && "+"@[0] != "%"@[0]);
    assert("-"@[0] != "/"@[0] && "-"@[0] != "%"@[0]);
    assert("*"@[0] != "/"@[0] && "*"@[0] != "%"@[0]);
}

/// Addition, subtraction and multiplication are never reported, whatever
/// their operands.
pub proof fn lemma_no_division_no_report(cx: Source, i: int, op: int)
    requires
        sub_at(*cx.tree, i, Field::Operator) == Some(op),
        text_of(*cx.tree, cx.text@, op) == "+"@ || text_of(*cx.tree, cx.text@, op) == "-"@ || text_of(*cx.tree, cx.text@, op) == "*"@,
    ensures
        math_operation_diags(cx, i) == Seq::<DiagView>::empty(),
{
    lemma_operators_distinct();
}

/// `math.log` and `math.log10` of a constant: zero and negative inputs are
/// reported at the input, a positive one is not.
pub proof fn lemma_log_domain(cx: Source, name: Seq<char>, args: Seq<CallArg>, n: int, v: (int, int))
    requires
        name == "math.log"@ || name == "math.log10"@,
        arg_node(args, "x"@, 0) == Some(n),
        num_const(*cx.tree, cx.text@, n) == Some(v),
    ensures
        math_domain_diags(cx, name, args) == if v.0 == 0 {
            seq![diag_at(cx, n, Severity::Hint, DiagnosticCode::Logic, "math.log input is 0; result is undefined"@)]
        } else if v.0 < 0 {
            seq![diag_at(cx, n, Severity::Hint, DiagnosticCode::Logic, "math.log input is negative; result is undefined"@)]
        } else {
            Seq::<DiagView>::empty()
        },
{
    lemma_math_names_distinct();
}

/// `math.sqrt` of a constant is reported, at the input, exactly when the
/// input is negative.
pub proof fn lemma_sqrt_domain(cx: Source, args: Seq<CallArg>, n: int, v: (int, int))
    requires
        arg_node(args, "x"@, 0) == Some(n),
        num_const(*cx.tree, cx.text@, n) == Some(v),
    ensures
        math_domain_diags(cx, "math.sqrt"@, args) == if v.0 < 0 {
            seq![diag_at(cx, n, Severity::Hint, DiagnosticCode::Logic, "math.sqrt input is negative; result is NaN"@)]
        } else {
            Seq::<DiagView>::empty()
        },
{
    lemma_math_names_distinct();
}

/// `math.asin` and `math.acos` of a constant (with a positive denominator)
/// are reported, at the input, exactly when the input lies outside `[-1, 1]`.
pub proof fn lemma_arc_domain(cx: Source, name: Seq<char>, args: Seq<CallArg>, n: int, v: (int, int))
    requires
        name == "math.asin"@ || name == "math.acos"@,
        arg_node(args, "x"@, 0) == Some(n),
        num_const(*cx.tree, cx.text@, n) == Some(v),
        v.1 > 0,
    ensures
        math_domain_diags(cx, name, args) == if -v.1 <= v.0 && v.0 <= v.1 {
            Seq::<DiagView>::empty()
        } else {
            seq![diag_at(cx, n, Severity::Hint, DiagnosticCode::Logic, name + " input out of [-1, 1] range"@)]
        },
{
    lemma_math_names_distinct();
    assert(rat_lt(v, (-1, 1)) == (v.0 < -v.1));
    assert(rat_lt((1, 1), v) == (v.1 < v.0));
}

} // verus!
