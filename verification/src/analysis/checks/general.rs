//! Checks of history references, loops, constant conditions, duplicated
//! expressions, the version directive, the entry point and recursion.

use vstd::prelude::*;

use crate::analysis::{
    Analyzer, DiagView, DiagnosticCode, Severity, Source, SymbolDef, SymbolKind, diag, diag_at, diags_view,
    lemma_reports_grow_auto, lemma_reports_grow,
};
use crate::analysis::args::{CallArg, args_ok, arg_by_name, arg_node, find_arg_node, find_call_arg_by_name};
use crate::analysis::diag::{range_for_node, report, report_at, report_chars};
use crate::analysis::eval::{
    bool_const, child, sub_at, eval_bool_constant, eval_numeric_constant, node_ok, normalized_node_text, num_const,
    text_of, tree_ok,
};
use crate::fmt::{decimal, push_decimal, push_str, wrap_chars};
use crate::num::{Num, opt_pair, rat_abs, rat_div, rat_round, rat_sub};
use crate::name_map::NameMap;
use crate::position::Range;
use crate::syntax::Field;
use crate::text::{chars_are, chars_eq, chars_of, find_char, find_in, has_prefix, range_starts_with, strip_ws, trim_bounds, trim_start, utf8_len, utf8_length};

verus! {

broadcast use lemma_reports_grow_auto;

/// What `check_history_reference` reports for subscript `i`: a negative
/// constant offset, an offset past `max_bars_back`, or (without
/// `max_bars_back`) an offset at or past the warning threshold.
pub open spec fn history_diags(a: Analyzer, cx: Source, i: int) -> Seq<DiagView> {
    let t = *cx.tree;
    match sub_at(t, i, Field::Offset) {
        Some(o) => match num_const(t, cx.text@, o) {
            Some(v) => if v.0 < 0 {
                seq![diag_at(cx, o, Severity::Hint, DiagnosticCode::Logic, "Possible lookahead bias: negative history reference uses future bars"@)]
            } else {
                let ov = rat_round(v);
                match a.max_bars_back {
                    Some(m) => if ov > m {
                        seq![diag_at(cx, o, Severity::Hint, DiagnosticCode::Logic, "History reference "@ + decimal(ov) + " exceeds max_bars_back "@ + decimal(m as int))]
                    } else {
                        Seq::empty()
                    },
                    None => {
                        let th = cx.settings.history_reference_warn_threshold;
                        if th > 0 && ov >= th {
                            seq![diag_at(cx, o, Severity::Hint, DiagnosticCode::Logic, "History reference "@ + decimal(ov) + " may exceed available bars; consider max_bars_back"@)]
                        } else {
                            Seq::empty()
                        }
                    },
                }
            },
            None => Seq::empty(),
        },
        None => Seq::empty(),
    }
}

impl Analyzer {
    /// Checks the offset of the history reference (subscript) at node `i`.
    pub fn check_history_reference(&mut self, cx: &Source, i: usize)
        requires
            old(self).wf(),
            cx.wf(),
            node_ok(*cx.tree, i as int),
        ensures
            final(self).wf(),
            Analyzer::same_state(*old(self), *final(self)),
            diags_view(final(self).diagnostics@) == diags_view(old(self).diagnostics@) + history_diags(*old(self), *cx, i as int),
    {
        let o = match child(cx.tree, cx.text, i, Field::Offset) {
            Some(o) => o,
            None => {
                return;
            },
        };
        let v = match eval_numeric_constant(cx.tree, cx.text, o) {
            Some(v) => v,
            None => {
                return;
            },
        };
        if v.is_negative() {
            report_at(&mut self.diagnostics, cx, o, Severity::Hint, DiagnosticCode::Logic,
                "Possible lookahead bias: negative history reference uses future bars");
            return;
        }
        let ov = v.round();
        match self.max_bars_back {
            Some(m) => {
                if ov > m {
                    let mut msg = chars_of("History reference ");
                    push_decimal(&mut msg, ov);
                    push_str(&mut msg, " exceeds max_bars_back ");
                    push_decimal(&mut msg, m);
                    let range = range_for_node(cx, o);
                    report_chars(&mut self.diagnostics, cx, range, Severity::Hint, DiagnosticCode::Logic, &msg);
                }
            },
            None => {
                let th = cx.settings.history_reference_warn_threshold;
                if th > 0 && ov >= th {
                    let mut msg = chars_of("History reference ");
                    push_decimal(&mut msg, ov);
                    push_str(&mut msg, " may exceed available bars; consider max_bars_back");
                    let range = range_for_node(cx, o);
                    report_chars(&mut self.diagnostics, cx, range, Severity::Hint, DiagnosticCode::Logic, &msg);
                }
            },
        }
    }
}


/// The argument that sets `max_bars_back` in a call named `name`.
pub open spec fn max_bars_arg(name: Seq<char>, args: Seq<CallArg>) -> Option<int> {
    if name == "max_bars_back"@ {
        arg_node(args, "length"@, 1)
    } else if name == "indicator"@ || name == "strategy"@ {
        arg_by_name(args, "max_bars_back"@)
    } else {
        None
    }
}

/// `max_bars_back` after a call: the largest positive constant given so far, rounded.
pub open spec fn max_bars_after(a: Analyzer, cx: Source, name: Seq<char>, args: Seq<CallArg>) -> Option<i64> {
    match max_bars_arg(name, args) {
        Some(n) => match num_const(*cx.tree, cx.text@, n) {
            Some(v) => if v.0 > 0 {
                let r = rat_round(v);
                match a.max_bars_back {
                    Some(e) => if e >= r {
                        Some(e)
                    } else {
                        Some(r as i64)
                    },
                    None => Some(r as i64),
                }
            } else {
                a.max_bars_back
            },
            None => a.max_bars_back,
        },
        None => a.max_bars_back,
    }
}

/// The number of steps of a loop from `a` to `b`, by `step` when given:
/// `round(|b - a| / |step|)`, or none for a zero step.
pub open spec fn loop_steps(a: (int, int), b: (int, int), step: Option<(int, int)>) -> Option<int> {
    let ad = rat_abs(rat_sub(b, a));
    match step {
        Some(s) => match rat_div(ad, rat_abs(s)) {
            Some(q) => Some(rat_round(q)),
            None => None,
        },
        None => Some(rat_round(ad)),
    }
}

/// What `check_for_statement_bounds` reports for `for` statement `i`.
pub open spec fn for_diags(cx: Source, i: int) -> Seq<DiagView> {
    let t = *cx.tree;
    let x = cx.text@;
    match (sub_at(t, i, Field::FromNum), sub_at(t, i, Field::ToNum)) {
        (Some(f), Some(to)) => {
            let step_node = sub_at(t, i, Field::StepNum);
            let sv = match step_node {
                Some(sn) => num_const(t, x, sn),
                None => None,
            };
            if sv matches Some(s) && s.0 == 0 {
                seq![diag_at(cx, step_node->0, Severity::Hint, DiagnosticCode::Logic, "Loop step is zero; loop will not terminate"@)]
            } else {
                match (num_const(t, x, f), num_const(t, x, to)) {
                    (Some(a), Some(b)) => match loop_steps(a, b, sv) {
                        Some(st) => if cx.settings.loop_large_threshold > 0 && st >= cx.settings.loop_large_threshold {
                            seq![diag_at(cx, i, Severity::Hint, DiagnosticCode::Logic, "Loop range is very large; this may be slow"@)]
                        } else {
                            Seq::empty()
                        },
                        None => Seq::empty(),
                    },
                    _ => Seq::empty(),
                }
            }
        },
        _ => Seq::empty(),
    }
}

/// What `check_while_statement` reports for `while` statement `i`.
pub open spec fn while_diags(cx: Source, i: int) -> Seq<DiagView> {
    match sub_at(*cx.tree, i, Field::Condition) {
        Some(c) => if !cx.settings.enable_constant_condition_warnings {
            Seq::empty()
        } else {
            match bool_const(*cx.tree, cx.text@, c) {
                Some(true) => seq![diag_at(cx, c, Severity::Hint, DiagnosticCode::Logic, "While loop condition is always true; ensure it terminates"@)],
                Some(false) => seq![diag_at(cx, c, Severity::Hint, DiagnosticCode::Logic, "While loop condition is always false; loop will never execute"@)],
                None => Seq::empty(),
            }
        },
        None => Seq::empty(),
    }
}

/// What `check_constant_condition` reports for condition `c`.
pub open spec fn constant_condition_diags(cx: Source, c: int) -> Seq<DiagView> {
    if !cx.settings.enable_constant_condition_warnings {
        Seq::empty()
    } else {
        match bool_const(*cx.tree, cx.text@, c) {
            Some(true) => seq![diag_at(cx, c, Severity::Hint, DiagnosticCode::Logic, "Condition is always true"@)],
            Some(false) => seq![diag_at(cx, c, Severity::Hint, DiagnosticCode::Logic, "Condition is always false"@)],
            None => Seq::empty(),
        }
    }
}

/// The key under which an expression is remembered: its text without whitespace.
pub open spec fn expr_key(cx: Source, e: int) -> Seq<char> {
    strip_ws(text_of(*cx.tree, cx.text@, e))
}

/// What `check_duplicate_expression` reports: an expression of at least
/// eight bytes (without whitespace) seen before.
pub open spec fn duplicate_diags(a: Analyzer, cx: Source, e: int, sel: Range) -> Seq<DiagView> {
    let key = expr_key(cx, e);
    if utf8_len(key) >= 8 && a.duplicate_exprs@.contains_key(key) {
        seq![
            diag(cx, sel, Severity::Warning, DiagnosticCode::Style, "Duplicate expression; consider extracting an abstraction"@),
            diag(cx, a.duplicate_exprs@[key], Severity::Information, DiagnosticCode::Style, "Previous duplicate expression"@),
        ]
    } else {
        Seq::empty()
    }
}

/// What `check_duplicate_expression` does to the analyzer: `a` before, `b` after.
pub open spec fn check_duplicate_expression_effect(a: Analyzer, b: Analyzer, cx: Source, e: usize, sel: Range) -> bool {
    &&& diags_view(b.diagnostics@) =~= diags_view(a.diagnostics@) + duplicate_diags(a, cx, e as int, sel)
    &&& b.duplicate_exprs@ =~= (if utf8_len(expr_key(cx, e as int)) >= 8
        && !a.duplicate_exprs@.contains_key(expr_key(cx, e as int)) {
        a.duplicate_exprs@.insert(expr_key(cx, e as int), sel)
    } else {
        a.duplicate_exprs@
    })
    &&& b == (Analyzer {
        diagnostics: b.diagnostics,
        duplicate_exprs: b.duplicate_exprs,
        ..a
    })
}

impl Analyzer {
    /// Raises `max_bars_back` to a positive constant set by a `max_bars_back`,
    /// `indicator` or `strategy` call.
    pub fn update_max_bars_back(&mut self, cx: &Source, name: &Vec<char>, args: &Vec<CallArg>)
        requires
            old(self).wf(),
            cx.wf(),
            args_ok(*cx.tree, args@),
        ensures
            *final(self) == (Analyzer { max_bars_back: max_bars_after(*old(self), *cx, name@, args@), ..*old(self) }),
    {
        let node = if chars_are(name, "max_bars_back") {
            find_arg_node(args, "length", 1)
        } else if chars_are(name, "indicator") || chars_are(name, "strategy") {
            find_call_arg_by_name(args, "max_bars_back")
        } else {
            None
        };
        let n = match node {
            Some(n) => n,
            None => {
                return;
            },
        };
        let v = match eval_numeric_constant(cx.tree, cx.text, n) {
            Some(v) => v,
            None => {
                return;
            },
        };
        if !v.is_positive() {
            return;
        }
        let r = v.round();
        self.max_bars_back = Some(
            match self.max_bars_back {
                Some(e) => if e >= r {
                    e
                } else {
                    r
                },
                None => r,
            },
        );
    }

    /// Checks the bounds and step of the `for` statement at node `i`.
    pub fn check_for_statement_bounds(&mut self, cx: &Source, i: usize)
        requires
            old(self).wf(),
            cx.wf(),
            node_ok(*cx.tree, i as int),
        ensures
            final(self).wf(),
            Analyzer::same_state(*old(self), *final(self)),
            diags_view(final(self).diagnostics@) == diags_view(old(self).diagnostics@) + for_diags(*cx, i as int),
    {
        let t = cx.tree;
        let x = cx.text;
        let f = match child(t, x, i, Field::FromNum) {
            Some(c) => c,
            None => {
                return;
            },
        };
        let to = match child(t, x, i, Field::ToNum) {
            Some(c) => c,
            None => {
                return;
            },
        };
        let fv = eval_numeric_constant(t, x, f);
        let tv = eval_numeric_constant(t, x, to);
        let step_node = child(t, x, i, Field::StepNum);
        let sv = match step_node {
            Some(sn) => eval_numeric_constant(t, x, sn),
            None => None,
        };
        match (step_node, &sv) {
            (Some(sn), Some(s)) => {
                if s.is_zero() {
                    report_at(&mut self.diagnostics, cx, sn, Severity::Hint, DiagnosticCode::Logic,
                        "Loop step is zero; loop will not terminate");
                    return;
                }
            },
            _ => {},
        }
        let (a, b) = match (&fv, &tv) {
            (Some(a), Some(b)) => (a, b),
            _ => {
                return;
            },
        };
        let d = b.sub(a);
        let ad = d.abs();
        let steps = match &sv {
            Some(s) => {
                let as_ = s.abs();
                match ad.div(&as_) {
                    Some(q) => q.round(),
                    None => {
                        return;
                    },
                }
            },
            None => ad.round(),
        };
        let th = cx.settings.loop_large_threshold;
        if th > 0 && steps >= th {
            report_at(&mut self.diagnostics, cx, i, Severity::Hint, DiagnosticCode::Logic,
                "Loop range is very large; this may be slow");
        }
    }

    /// Checks for a constant condition of the `while` statement at node `i`.
    pub fn check_while_statement(&mut self, cx: &Source, i: usize)
        requires
            old(self).wf(),
            cx.wf(),
            node_ok(*cx.tree, i as int),
        ensures
            final(self).wf(),
            Analyzer::same_state(*old(self), *final(self)),
            diags_view(final(self).diagnostics@) == diags_view(old(self).diagnostics@) + while_diags(*cx, i as int),
    {
        let c = match child(cx.tree, cx.text, i, Field::Condition) {
            Some(c) => c,
            None => {
                return;
            },
        };
        if !cx.settings.enable_constant_condition_warnings {
            return;
        }
        match eval_bool_constant(cx.tree, cx.text, c) {
            Some(v) => {
                if v {
                    report_at(&mut self.diagnostics, cx, c, Severity::Hint, DiagnosticCode::Logic,
                        "While loop condition is always true; ensure it terminates");
                } else {
                    report_at(&mut self.diagnostics, cx, c, Severity::Hint, DiagnosticCode::Logic,
                        "While loop condition is always false; loop will never execute");
                }
            },
            None => {},
        }
    }

    /// Reports a condition (node `c`) that is always true or always false.
    pub fn check_constant_condition(&mut self, cx: &Source, c: usize)
        requires
            old(self).wf(),
            cx.wf(),
            node_ok(*cx.tree, c as int),
        ensures
            final(self).wf(),
            Analyzer::same_state(*old(self), *final(self)),
            diags_view(final(self).diagnostics@) == diags_view(old(self).diagnostics@) + constant_condition_diags(*cx, c as int),
    {
        if !cx.settings.enable_constant_condition_warnings {
            return;
        }
        match eval_bool_constant(cx.tree, cx.text, c) {
            Some(v) => {
                if v {
                    report_at(&mut self.diagnostics, cx, c, Severity::Hint, DiagnosticCode::Logic,
                        "Condition is always true");
                } else {
                    report_at(&mut self.diagnostics, cx, c, Severity::Hint, DiagnosticCode::Logic,
                        "Condition is always false");
                }
            },
            None => {},
        }
    }

    /// Remembers the expression at node `e` (a variable's initial value) and
    /// reports it when the same expression was seen before.
    pub fn check_duplicate_expression(&mut self, cx: &Source, e: usize, sel: Range)
        requires
            old(self).wf(),
            cx.wf(),
            node_ok(*cx.tree, e as int),
        ensures
            final(self).wf(),
            check_duplicate_expression_effect(*old(self), *final(self), *cx, e, sel),
    {
        let key = normalized_node_text(cx.tree, cx.text, e);
        proof {
            crate::text::lemma_strip_ws_len(text_of(*cx.tree, cx.text@, e as int));
            assert(cx.tree.node_wf(e as int, cx.text@.len() as int));
        }
        if utf8_length(&key) < 8 {
            return;
        }
        let existing = match self.duplicate_exprs.get(&key) {
            Some(r) => Some(*r),
            None => None,
        };
        match existing {
            Some(r) => {
                report(&mut self.diagnostics, cx, sel, Severity::Warning, DiagnosticCode::Style,
                    "Duplicate expression; consider extracting an abstraction");
                report(&mut self.diagnostics, cx, r, Severity::Information, DiagnosticCode::Style,
                    "Previous duplicate expression");
            },
            None => {
                self.duplicate_exprs.insert(key, sel);
            },
        }
    }

    /// Reports a missing `indicator()` or `strategy()` declaration.
    pub fn check_entrypoint(&mut self, cx: &Source)
        requires
            old(self).wf(),
            cx.wf(),
        ensures
            final(self).wf(),
            Analyzer::same_state(*old(self), *final(self)),
            diags_view(final(self).diagnostics@) == diags_view(old(self).diagnostics@) + (if old(self).has_indicator_or_strategy {
                Seq::<DiagView>::empty()
            } else {
                seq![diag(*cx, Range::zero_spec(), Severity::Warning, DiagnosticCode::Validation, "Missing indicator() or strategy() declaration"@)]
            }),
    {
        if !self.has_indicator_or_strategy {
            report(&mut self.diagnostics, cx, Range::zero(), Severity::Warning, DiagnosticCode::Validation,
                "Missing indicator() or strategy() declaration");
        }
    }
}


/// Whether a line starts at offset `p`.
pub open spec fn is_line_start(x: Seq<char>, p: int) -> bool {
    p == 0 || (0 < p <= x.len() && x[p - 1] == '\n')
}

/// The end of the line that starts at `p`: the next newline, or the end of the text.
pub open spec fn line_end(x: Seq<char>, p: int) -> int {
    p + find_char(x.subrange(p, x.len() as int), '\n')
}

/// Whether some line of the text, once its leading whitespace is removed,
/// begins with `//@version=6`.
pub open spec fn has_version_line(x: Seq<char>) -> bool {
    exists|p: int|
        0 <= p <= x.len() && #[trigger] is_line_start(x, p) && has_prefix(
            trim_start(x.subrange(p, line_end(x, p))),
            "//@version=6"@,
        )
}

/// Whether some line of `x` begins, after whitespace, with `//@version=6`.
pub fn has_version_directive(x: &Vec<char>) -> (r: bool)
    ensures
        r == has_version_line(x@),
{
    let n = x.len();
    let mut p: usize = 0;
    loop
        invariant
            n == x@.len(),
            p <= n,
            is_line_start(x@, p as int),
            forall|q: int| 0 <= q < p && #[trigger] is_line_start(x@, q) ==> !has_prefix(
                trim_start(x@.subrange(q, line_end(x@, q))),
                "//@version=6"@,
            ),
        decreases n - p,
    {
        let e = find_in(x, p, n, '\n');
        let (a, _b) = trim_bounds(x, p, e);
        let lit = "//@version=6";
        if range_starts_with(x, a, e, lit) {
            proof {
                let s = x@.subrange(a as int, e as int);
                assert(s.subrange(0, lit@.len() as int) =~= x@.subrange(a as int, a + lit@.len()));
                assert(has_prefix(trim_start(x@.subrange(p as int, line_end(x@, p as int))), lit@));
            }
            return true;
        }
        proof {
            let s = x@.subrange(a as int, e as int);
            if lit@.len() <= s.len() {
                assert(s.subrange(0, lit@.len() as int) =~= x@.subrange(a as int, a + lit@.len()));
            }
            assert forall|q: int| 0 <= q < e + 1 && #[trigger] is_line_start(x@, q) implies !has_prefix(
                trim_start(x@.subrange(q, line_end(x@, q))),
                "//@version=6"@,
            ) by {
                if q > p as int {
                    assert(x@[q - 1] != '\n');
                }
            }
        }
        if e == n {
            proof {
                assert forall|q: int| 0 <= q <= x@.len() && #[trigger] is_line_start(x@, q) implies !has_prefix(
                    trim_start(x@.subrange(q, line_end(x@, q))),
                    "//@version=6"@,
                ) by {
                    if q > p as int {
                        assert(x@[q - 1] != '\n');
                    }
                }
            }
            return false;
        }
        p = e + 1;
    }
}

impl Analyzer {
    /// Reports a document without a `//@version=6` line.
    pub fn check_version_directive(&mut self, cx: &Source)
        requires
            old(self).wf(),
            cx.wf(),
        ensures
            final(self).wf(),
            Analyzer::same_state(*old(self), *final(self)),
            diags_view(final(self).diagnostics@) == diags_view(old(self).diagnostics@) + (if has_version_line(cx.text@) {
                Seq::<DiagView>::empty()
            } else {
                seq![diag(*cx, Range::zero_spec(), Severity::Warning, DiagnosticCode::Validation, "Missing //@version=6 directive"@)]
            }),
    {
        let found = has_version_directive(cx.text);
        if !found {
            report(&mut self.diagnostics, cx, Range::zero(), Severity::Warning, DiagnosticCode::Validation,
                "Missing //@version=6 directive");
        }
    }
}


/// How many of `keys` are not in `v`.
pub open spec fn unvisited(keys: Seq<Seq<char>>, v: Set<Seq<char>>) -> nat
    decreases keys.len(),
{
    if keys.len() == 0 {
        0
    } else {
        unvisited(keys.drop_last(), v) + if v.contains(keys.last()) {
            0nat
        } else {
            1nat
        }
    }
}

pub proof fn lemma_unvisited_insert(keys: Seq<Seq<char>>, v: Set<Seq<char>>, x: Seq<char>)
    ensures
        unvisited(keys, v.insert(x)) <= unvisited(keys, v),
        keys.contains(x) && !v.contains(x) ==> unvisited(keys, v.insert(x)) < unvisited(keys, v),
    decreases keys.len(),
{
    if keys.len() > 0 {
        lemma_unvisited_insert(keys.drop_last(), v, x);
        if keys.contains(x) && !v.contains(x) && keys.last() != x {
            let i = choose|i: int| 0 <= i < keys.len() && keys[i] == x;
            assert(keys.drop_last()[i] == x);
        }
    }
}

/// Whether some chain of calls leads from `cur` back to `start` through
/// functions that are not in `v` (the search the analyzer makes, which
/// keeps `v` as the functions on the current path).
pub open spec fn recursive_path(
    keys: Seq<Seq<char>>,
    calls: Map<Seq<char>, Vec<Vec<char>>>,
    start: Seq<char>,
    cur: Seq<char>,
    v: Set<Seq<char>>,
) -> bool
    decreases unvisited(keys, v), 0nat,
{
    if v.contains(cur) || !calls.contains_key(cur) || !keys.contains(cur) {
        false
    } else {
        proof {
            lemma_unvisited_insert(keys, v, cur);
        }
        callee_path(keys, calls, start, calls[cur]@, 0, v.insert(cur))
    }
}

/// Whether one of the callees `cs[k..]` is `start` or leads back to it.
pub open spec fn callee_path(
    keys: Seq<Seq<char>>,
    calls: Map<Seq<char>, Vec<Vec<char>>>,
    start: Seq<char>,
    cs: Seq<Vec<char>>,
    k: int,
    v: Set<Seq<char>>,
) -> bool
    decreases unvisited(keys, v), cs.len() - k + 1,
{
    if k < 0 || k >= cs.len() {
        false
    } else {
        cs[k]@ == start || recursive_path(keys, calls, start, cs[k]@, v) || callee_path(keys, calls, start, cs, k + 1, v)
    }
}

/// Whether function `f` is recursive: some chain of calls leads from it back to it.
pub open spec fn is_recursive(a: Analyzer, f: Seq<char>) -> bool {
    recursive_path(a.function_calls.keys_seq(), a.function_calls@, f, f, Set::empty())
}

/// Whether `p` is a chain of calls: every function in it but the last is one
/// that makes calls, and it calls the next one.
pub open spec fn call_chain(calls: Map<Seq<char>, Vec<Vec<char>>>, p: Seq<Seq<char>>) -> bool {
    forall|i: int|
        0 <= i < p.len() - 1 ==> calls.contains_key(#[trigger] p[i]) && exists|k: int|
            0 <= k < calls[p[i]]@.len() && calls[p[i]]@[k]@ == p[i + 1]
}

/// A chain of calls that a recursive path stands for, from `cur` to `start`.
proof fn lemma_path_chain(
    keys: Seq<Seq<char>>,
    calls: Map<Seq<char>, Vec<Vec<char>>>,
    start: Seq<char>,
    cur: Seq<char>,
    v: Set<Seq<char>>,
) -> (p: Seq<Seq<char>>)
    requires
        recursive_path(keys, calls, start, cur, v),
    ensures
        p.len() >= 2,
        p[0] == cur,
        p.last() == start,
        call_chain(calls, p),
    decreases unvisited(keys, v), 0nat,
{
    lemma_unvisited_insert(keys, v, cur);
    let cs = calls[cur]@;
    let (j, q) = lemma_callee_chain(keys, calls, start, cs, 0, v.insert(cur));
    let p = seq![cur] + q;
    assert forall|i: int| 0 <= i < p.len() - 1 implies calls.contains_key(#[trigger] p[i]) && exists|k: int|
        0 <= k < calls[p[i]]@.len() && calls[p[i]]@[k]@ == p[i + 1] by {
        if i == 0 {
            assert(p[1] == q[0]);
            assert(calls[p[0]]@[j]@ == p[1]);
        } else {
            assert(p[i] == q[i - 1]);
            assert(p[i + 1] == q[i]);
            assert(calls.contains_key(q[i - 1]));
        }
    }
    p
}

/// A chain of calls from one of the callees `cs[k..]` to `start`, with the
/// index of that callee.
proof fn lemma_callee_chain(
    keys: Seq<Seq<char>>,
    calls: Map<Seq<char>, Vec<Vec<char>>>,
    start: Seq<char>,
    cs: Seq<Vec<char>>,
    k: int,
    v: Set<Seq<char>>,
) -> (r: (int, Seq<Seq<char>>))
    requires
        callee_path(keys, calls, start, cs, k, v),
    ensures
        k <= r.0 < cs.len(),
        r.1.len() >= 1,
        r.1[0] == cs[r.0]@,
        r.1.last() == start,
        call_chain(calls, r.1),
    decreases unvisited(keys, v), cs.len() - k + 1,
{
    if cs[k]@ == start {
        (k, seq![start])
    } else if recursive_path(keys, calls, start, cs[k]@, v) {
        (k, lemma_path_chain(keys, calls, start, cs[k]@, v))
    } else {
        lemma_callee_chain(keys, calls, start, cs, k + 1, v)
    }
}

/// A function reported as recursive lies on a cycle of calls: a chain of
/// calls leads from it back to it.
pub proof fn lemma_recursive_has_cycle(a: Analyzer, f: Seq<char>) -> (p: Seq<Seq<char>>)
    requires
        is_recursive(a, f),
    ensures
        p.len() >= 2,
        p[0] == f,
        p.last() == f,
        call_chain(a.function_calls@, p),
{
    lemma_path_chain(a.function_calls.keys_seq(), a.function_calls@, f, f, Set::empty())
}

/// Whether the places of `p` but the last hold distinct functions.
pub open spec fn chain_simple(p: Seq<Seq<char>>) -> bool {
    forall|i: int, j: int| 0 <= i < j < p.len() - 1 ==> p[i] != p[j]
}

/// Cutting out the stretch between two places of a chain that hold the same
/// function leaves a chain with the same ends.
proof fn lemma_chain_cut(calls: Map<Seq<char>, Vec<Vec<char>>>, p: Seq<Seq<char>>, i: int, j: int) -> (q: Seq<Seq<char>>)
    requires
        call_chain(calls, p),
        0 <= i < j < p.len() - 1,
        p[i] == p[j],
    ensures
        q.len() == p.len() - (j - i),
        q[0] == p[0],
        q.last() == p.last(),
        call_chain(calls, q),
{
    let q = p.subrange(0, i + 1) + p.subrange(j + 1, p.len() as int);
    assert forall|m: int| 0 <= m < q.len() - 1 implies calls.contains_key(#[trigger] q[m]) && exists|k: int|
        0 <= k < calls[q[m]]@.len() && calls[q[m]]@[k]@ == q[m + 1] by {
        if m < i {
            assert(q[m] == p[m] && q[m + 1] == p[m + 1]);
        } else if m == i {
            assert(q[m] == p[j] && q[m + 1] == p[j + 1]);
        } else {
            assert(q[m] == p[m + (j - i)] && q[m + 1] == p[m + 1 + (j - i)]);
        }
    }
    q
}

/// Every chain of calls can be shortened to one whose places but the last
/// hold distinct functions, with the same ends.
proof fn lemma_simple_chain(calls: Map<Seq<char>, Vec<Vec<char>>>, p: Seq<Seq<char>>) -> (q: Seq<Seq<char>>)
    requires
        call_chain(calls, p),
        p.len() >= 2,
    ensures
        call_chain(calls, q),
        q.len() >= 2,
        q[0] == p[0],
        q.last() == p.last(),
        chain_simple(q),
    decreases p.len(),
{
    if chain_simple(p) {
        p
    } else {
        let (i, j) = choose|i: int, j: int| 0 <= i < j < p.len() - 1 && p[i] == p[j];
        let q = lemma_chain_cut(calls, p, i, j);
        lemma_simple_chain(calls, q)
    }
}

/// One of the callees `cs[j..=k]` being `start`, or leading back to it, is
/// found by the search over the callees from `j` on.
proof fn lemma_callee_reach(
    keys: Seq<Seq<char>>,
    calls: Map<Seq<char>, Vec<Vec<char>>>,
    start: Seq<char>,
    cs: Seq<Vec<char>>,
    j: int,
    k: int,
    v: Set<Seq<char>>,
)
    requires
        0 <= j <= k < cs.len(),
        cs[k]@ == start || recursive_path(keys, calls, start, cs[k]@, v),
    ensures
        callee_path(keys, calls, start, cs, j, v),
    decreases k - j,
{
    if j < k {
        lemma_callee_reach(keys, calls, start, cs, j + 1, k, v);
    }
}

/// A simple chain of calls to `start` through functions outside `v` is found
/// by the search from its first function.
proof fn lemma_chain_found(
    keys: Seq<Seq<char>>,
    calls: Map<Seq<char>, Vec<Vec<char>>>,
    start: Seq<char>,
    p: Seq<Seq<char>>,
    v: Set<Seq<char>>,
)
    requires
        call_chain(calls, p),
        p.len() >= 2,
        p.last() == start,
        chain_simple(p),
        forall|i: int| 0 <= i < p.len() - 1 ==> !v.contains(#[trigger] p[i]) && keys.contains(p[i]),
    ensures
        recursive_path(keys, calls, start, p[0], v),
    decreases p.len(),
{
    let cur = p[0];
    assert(calls.contains_key(p[0]) && !v.contains(p[0]) && keys.contains(p[0]));
    let cs = calls[cur]@;
    let k = choose|k: int| 0 <= k < calls[p[0]]@.len() && calls[p[0]]@[k]@ == p[1];
    let v2 = v.insert(cur);
    if p[1] != start {
        let q = p.drop_first();
        assert(q.last() == start);
        assert forall|i: int| 0 <= i < q.len() - 1 implies !v2.contains(#[trigger] q[i]) && keys.contains(q[i]) by {
            assert(q[i] == p[i + 1]);
            assert(p[0] != p[i + 1]);
        }
        assert forall|a: int, b: int| 0 <= a < b < q.len() - 1 implies q[a] != q[b] by {
            assert(q[a] == p[a + 1] && q[b] == p[b + 1]);
        }
        assert forall|m: int| 0 <= m < q.len() - 1 implies calls.contains_key(#[trigger] q[m]) && exists|k2: int|
            0 <= k2 < calls[q[m]]@.len() && calls[q[m]]@[k2]@ == q[m + 1] by {
            assert(q[m] == p[m + 1] && q[m + 1] == p[m + 2]);
        }
        lemma_chain_found(keys, calls, start, q, v2);
        assert(cs[k]@ == q[0]);
    }
    lemma_callee_reach(keys, calls, start, cs, 0, k, v2);
}

/// A function on a cycle of calls is reported as recursive: the search finds
/// every chain of calls that leads from a function back to it.
pub proof fn lemma_cycle_is_recursive(a: Analyzer, p: Seq<Seq<char>>)
    requires
        a.wf(),
        p.len() >= 2,
        p.last() == p[0],
        call_chain(a.function_calls@, p),
    ensures
        is_recursive(a, p[0]),
{
    let calls = a.function_calls@;
    let keys = a.function_calls.keys_seq();
    let q = lemma_simple_chain(calls, p);
    a.function_calls.lemma_keys_complete();
    assert forall|i: int| 0 <= i < q.len() - 1 implies !Set::<Seq<char>>::empty().contains(#[trigger] q[i])
        && keys.contains(q[i]) by {
        assert(calls.contains_key(q[i]));
        let x = choose|x: int| 0 <= x < a.function_calls.len_view() && #[trigger] keys[x] == q[i];
        assert(keys[x] == q[i]);
    }
    lemma_chain_found(keys, calls, q[0], q, Set::empty());
}

/// The selection range of the first function definition named `name`, from index `j` on.
pub open spec fn function_def_range_from(defs: Seq<SymbolDef>, name: Seq<char>, j: int) -> Option<Range>
    decreases defs.len() - j,
{
    if j < 0 || j >= defs.len() {
        None
    } else if defs[j].kind == SymbolKind::Function && defs[j].name@ == name {
        Some(defs[j].selection_range)
    } else {
        function_def_range_from(defs, name, j + 1)
    }
}

/// What `report_recursive_functions` reports for the first `k` functions
/// that make calls, in the order they were declared.
pub open spec fn recursion_diags_upto(a: Analyzer, cx: Source, k: int) -> Seq<DiagView>
    decreases k,
{
    if k <= 0 {
        Seq::empty()
    } else {
        let f = a.function_calls.keys_seq()[k - 1];
        recursion_diags_upto(a, cx, k - 1) + if is_recursive(a, f) {
            match function_def_range_from(a.definitions@, f, 0) {
                Some(r) => seq![diag(cx, r, Severity::Hint, DiagnosticCode::Logic, "Function `"@ + f + "` is recursive; ensure a base case to avoid infinite recursion"@)],
                None => Seq::empty(),
            }
        } else {
            Seq::empty()
        }
    }
}

/// What `report_recursive_functions` reports.
pub open spec fn recursion_diags(a: Analyzer, cx: Source) -> Seq<DiagView> {
    if cx.settings.enable_function_recursion_detection {
        recursion_diags_upto(a, cx, a.function_calls.len_view() as int)
    } else {
        Seq::empty()
    }
}

impl Analyzer {
    /// Whether a chain of calls leads from `current` back to `start` through
    /// functions outside `visiting`; when it does not, `visiting` is left as it was.
    pub fn has_recursive_path(&self, start: &Vec<char>, current: &Vec<char>, visiting: &mut NameMap<()>) -> (r: bool)
        requires
            self.wf(),
            old(visiting).wf(),
        ensures
            final(visiting).wf(),
            r == recursive_path(self.function_calls.keys_seq(), self.function_calls@, start@, current@, old(visiting)@.dom()),
            !r ==> final(visiting)@ == old(visiting)@,
        decreases unvisited(self.function_calls.keys_seq(), visiting@.dom()),
    {
        let ghost keys = self.function_calls.keys_seq();
        let ghost v0 = visiting@.dom();
        proof {
            self.function_calls.lemma_keys_complete();
        }
        if visiting.contains_key(current) {
            return false;
        }
        let callees = match self.function_calls.get(current) {
            Some(c) => c,
            None => {
                return false;
            },
        };
        proof {
            let i = choose|i: int| 0 <= i < self.function_calls.len_view() && #[trigger] keys[i] == current@;
            assert(keys.contains(current@));
            lemma_unvisited_insert(keys, v0, current@);
        }
        visiting.insert(current.clone(), ());
        let ghost v1 = visiting@;
        assert(v1.dom() =~= v0.insert(current@));

        let mut k: usize = 0;
        while k < callees.len()
            invariant
                self.wf(),
                visiting.wf(),
                visiting@ == v1,
                v0 == old(visiting)@.dom(),
                v1 == old(visiting)@.insert(current@, ()),
                v1.dom() == v0.insert(current@),
                !v0.contains(current@),
                keys == self.function_calls.keys_seq(),
                keys.contains(current@),
                self.function_calls@.contains_key(current@),
                *callees == self.function_calls@[current@],
                unvisited(keys, v1.dom()) < unvisited(keys, v0),
                k <= callees@.len(),
                recursive_path(keys, self.function_calls@, start@, current@, v0) == callee_path(
                    keys,
                    self.function_calls@,
                    start@,
                    callees@,
                    k as int,
                    v1.dom(),
                ),
            decreases callees@.len() - k,
        {
            if chars_eq(&callees[k], start) {
                return true;
            }
            if self.has_recursive_path(start, &callees[k], visiting) {
                return true;
            }
            k = k + 1;
        }
        visiting.remove(current);
        proof {
            assert(visiting@ =~= old(visiting)@);
        }
        false
    }

    /// The selection range of the first function definition named `name`.
    pub fn function_definition_range(&self, name: &Vec<char>) -> (r: Option<Range>)
        ensures
            r == function_def_range_from(self.definitions@, name@, 0),
    {
        let mut j: usize = 0;
        while j < self.definitions.len()
            invariant
                j <= self.definitions@.len(),
                function_def_range_from(self.definitions@, name@, 0) == function_def_range_from(self.definitions@, name@, j as int),
            decreases self.definitions@.len() - j,
        {
            let d = &self.definitions[j];
            if d.kind == SymbolKind::Function {
                let dn = chars_of(d.name.as_str());
                if chars_eq(&dn, name) {
                    return Some(d.selection_range);
                }
            }
            j = j + 1;
        }
        None
    }

    /// Reports every function from which a chain of calls leads back to it.
    pub fn report_recursive_functions(&mut self, cx: &Source)
        requires
            old(self).wf(),
            cx.wf(),
        ensures
            final(self).wf(),
            Analyzer::same_state(*old(self), *final(self)),
            diags_view(final(self).diagnostics@) == diags_view(old(self).diagnostics@) + recursion_diags(*old(self), *cx),
    {
        if !cx.settings.enable_function_recursion_detection {
            return;
        }
        let ghost a = *self;
        let n = self.function_calls.len();
        let mut k: usize = 0;
        while k < n
            invariant
                a.wf(),
                cx.wf(),
                n == a.function_calls.len_view(),
                k <= n,
                Analyzer::same_state(a, *self),
                self.wf(),
                diags_view(self.diagnostics@) == diags_view(a.diagnostics@) + recursion_diags_upto(a, *cx, k as int),
            decreases n - k,
        {
            let (key, _) = self.function_calls.entry_at(k);
            let func = key.clone();
            let mut visiting: NameMap<()> = NameMap::new();
            proof {
                assert(visiting@.dom() =~= Set::<Seq<char>>::empty());
            }
            let rec = self.has_recursive_path(&func, &func, &mut visiting);
            if rec {
                match self.function_definition_range(&func) {
                    Some(range) => {
                        let msg = wrap_chars("Function `", &func, "` is recursive; ensure a base case to avoid infinite recursion");
                        report_chars(&mut self.diagnostics, cx, range, Severity::Hint, DiagnosticCode::Logic, &msg);
                    },
                    None => {},
                }
            }
            k = k + 1;
        }
    }
}

/// A history reference with a constant offset: a negative offset is
/// reported as lookahead bias; with `max_bars_back` set, a nonnegative one
/// is reported exactly when its rounded value passes it.
pub proof fn lemma_history_offset(a: Analyzer, cx: Source, i: int, o: int, v: (int, int))
    requires
        sub_at(*cx.tree, i, Field::Offset) == Some(o),
        num_const(*cx.tree, cx.text@, o) == Some(v),
    ensures
        v.0 < 0 ==> history_diags(a, cx, i) == seq![
            diag_at(cx, o, Severity::Hint, DiagnosticCode::Logic, "Possible lookahead bias: negative history reference uses future bars"@),
        ],
        v.0 >= 0 && a.max_bars_back is Some ==> (history_diags(a, cx, i).len() == 1 <==> rat_round(v) > a.max_bars_back->0),
        v.0 >= 0 && a.max_bars_back is Some ==> (history_diags(a, cx, i).len() == 0 <==> rat_round(v) <= a.max_bars_back->0),
{
}

/// A `for` statement whose step is the constant zero gets only the
/// step-zero hint, at the step.
pub proof fn lemma_loop_step_zero(cx: Source, i: int, f: int, to: int, sn: int, s: (int, int))
    requires
        sub_at(*cx.tree, i, Field::FromNum) == Some(f),
        sub_at(*cx.tree, i, Field::ToNum) == Some(to),
        sub_at(*cx.tree, i, Field::StepNum) == Some(sn),
        num_const(*cx.tree, cx.text@, sn) == Some(s),
        s.0 == 0,
    ensures
        for_diags(cx, i) == seq![
            diag_at(cx, sn, Severity::Hint, DiagnosticCode::Logic, "Loop step is zero; loop will not terminate"@),
        ],
{
}

/// A condition with a constant value gets the hint that names that value;
/// one without a constant value gets nothing.
pub proof fn lemma_constant_condition(cx: Source, c: int)
    requires
        cx.settings.enable_constant_condition_warnings,
    ensures
        bool_const(*cx.tree, cx.text@, c) == Some(true) ==> constant_condition_diags(cx, c) == seq![
            diag_at(cx, c, Severity::Hint, DiagnosticCode::Logic, "Condition is always true"@),
        ],
        bool_const(*cx.tree, cx.text@, c) == Some(false) ==> constant_condition_diags(cx, c) == seq![
            diag_at(cx, c, Severity::Hint, DiagnosticCode::Logic, "Condition is always false"@),
        ],
        bool_const(*cx.tree, cx.text@, c) is None ==> constant_condition_diags(cx, c) == Seq::<DiagView>::empty(),
{
}

} // verus!
