//! Checks of the parameters of `ta` functions, and of the spread of the
//! lengths each `ta` function is called with.

use vstd::prelude::*;

use crate::analysis::{Analyzer, DiagView, DiagnosticCode, Severity, Source, diag, diag_at, diags_view, node_range, lemma_reports_grow_auto};
use crate::analysis::args::{CallArg, args_ok, arg_for, arg_node, find_arg_node, find_call_arg};
use crate::analysis::diag::{range_for_node, report_at, report_chars};
use crate::analysis::eval::{eval_numeric_constant, node_ok, num_const};
use crate::fmt::{decimal, push_chars, push_decimal, push_str, wrap_chars};
use crate::num::{Num, rat_lt, rat_round};
use crate::position::Range;
use crate::text::chars_are;

verus! {

broadcast use lemma_reports_grow_auto;

/// The constant value of an optional node.
pub open spec fn value_of(cx: Source, n: Option<int>) -> Option<(int, int)> {
    match n {
        Some(node) => num_const(*cx.tree, cx.text@, node),
        None => None,
    }
}

/// A report at `a` when both `a` and `b` are constants and `a >= b`.
pub open spec fn not_below_diag(cx: Source, a: Option<int>, b: Option<int>, message: Seq<char>) -> Seq<DiagView> {
    match (value_of(cx, a), value_of(cx, b)) {
        (Some(va), Some(vb)) => if !rat_lt(va, vb) {
            seq![diag_at(cx, a->0, Severity::Hint, DiagnosticCode::Logic, message)]
        } else {
            Seq::empty()
        },
        _ => Seq::empty(),
    }
}

/// A report at `a` when it is a constant not above zero.
pub open spec fn not_positive_diag(cx: Source, a: Option<int>, message: Seq<char>) -> Seq<DiagView> {
    match value_of(cx, a) {
        Some(v) => if v.0 <= 0 {
            seq![diag_at(cx, a->0, Severity::Hint, DiagnosticCode::Logic, message)]
        } else {
            Seq::empty()
        },
        None => Seq::empty(),
    }
}

/// The `leftbars` and `rightbars` arguments of a pivot call.
pub open spec fn pivot_args(args: Seq<CallArg>) -> (Option<int>, Option<int>) {
    let left = match arg_for(args, "leftbars"@, 1) {
        Some(p) => Some(p.0),
        None => arg_node(args, "leftbars"@, 0),
    };
    let right = match arg_for(args, "rightbars"@, 2) {
        Some(p) => Some(p.0),
        None => arg_node(args, "rightbars"@, 1),
    };
    if left is None || right is None {
        if args.len() >= 3 {
            (Some(args[1].node as int), Some(args[2].node as int))
        } else if args.len() >= 2 {
            (Some(args[0].node as int), Some(args[1].node as int))
        } else {
            (left, right)
        }
    } else {
        (left, right)
    }
}

/// What `check_ta_param_relationships` reports for a call `name(args)`.
pub open spec fn ta_param_diags(cx: Source, name: Seq<char>, args: Seq<CallArg>) -> Seq<DiagView> {
    let pivot = name == "ta.pivothigh"@ || name == "ta.pivotlow"@;
    if pivot && !cx.settings.enable_pivot_validation {
        Seq::empty()
    } else if !pivot && !cx.settings.enable_ta_param_relationships {
        Seq::empty()
    } else if name == "ta.stoch"@ {
        not_below_diag(cx, arg_node(args, "k"@, 0), arg_node(args, "d"@, 1), "ta.stoch expects k < d"@)
    } else if name == "ta.macd"@ {
        not_below_diag(cx, arg_node(args, "fastlen"@, 1), arg_node(args, "slowlen"@, 2), "ta.macd expects fastlen < slowlen"@)
    } else if name == "ta.bb"@ || name == "ta.kc"@ || name == "ta.bbw"@ || name == "ta.kcw"@ {
        not_positive_diag(cx, arg_node(args, "mult"@, 2), "Multiplier should be > 0"@)
    } else if name == "ta.sar"@ {
        not_below_diag(cx, arg_node(args, "start"@, 0), arg_node(args, "inc"@, 1), "ta.sar expects start < inc"@)
            + not_below_diag(cx, arg_node(args, "inc"@, 1), arg_node(args, "max"@, 2), "ta.sar expects inc < max"@)
    } else if name == "ta.percentile_linear_interpolation"@ || name == "ta.percentile_nearest_rank"@ {
        let n = arg_node(args, "percentile"@, 2);
        match value_of(cx, n) {
            Some(v) => if v.0 < 0 || rat_lt((100, 1), v) {
                seq![diag_at(cx, n->0, Severity::Hint, DiagnosticCode::Logic, "Percentile should be in [0, 100]"@)]
            } else {
                Seq::empty()
            },
            None => Seq::empty(),
        }
    } else if name == "ta.dmi"@ {
        not_below_diag(cx, arg_node(args, "lensig"@, 1), arg_node(args, "length"@, 0), "ta.dmi expects lensig < length"@)
    } else if pivot {
        let (l, r) = pivot_args(args);
        not_positive_diag(cx, l, "leftbars should be > 0"@) + not_positive_diag(cx, r, "rightbars should be > 0"@)
    } else {
        Seq::empty()
    }
}

/// The position of the `length` argument of the `ta` functions whose lengths are compared.
pub open spec fn ta_length_pos(name: Seq<char>) -> Option<int> {
    if name == "ta.sma"@ || name == "ta.ema"@ || name == "ta.wma"@ || name == "ta.rma"@ || name == "ta.hma"@
        || name == "ta.vwma"@ || name == "ta.rsi"@ || name == "ta.stdev"@ || name == "ta.highest"@
        || name == "ta.lowest"@ || name == "ta.highestbars"@ || name == "ta.lowestbars"@ || name == "ta.cci"@
        || name == "ta.roc"@ || name == "ta.mom"@ || name == "ta.dev"@ || name == "ta.median"@
        || name == "ta.mode"@ || name == "ta.percentrank"@ || name == "ta.range"@ || name == "ta.rci"@
        || name == "ta.variance"@ || name == "ta.wpr"@ || name == "ta.bbw"@ || name == "ta.kcw"@
        || name == "ta.bb"@ || name == "ta.kc"@ {
        Some(1)
    } else if name == "ta.atr"@ || name == "ta.adx"@ || name == "ta.mfi"@ || name == "ta.williamsr"@ {
        Some(0)
    } else {
        None
    }
}

fn ta_length_position(name: &Vec<char>) -> (r: Option<usize>)
    ensures
        match r {
            Some(p) => ta_length_pos(name@) == Some(p as int),
            None => ta_length_pos(name@) is None,
        },
{
    if chars_are(name, "ta.sma") || chars_are(name, "ta.ema") || chars_are(name, "ta.wma") || chars_are(name, "ta.rma")
        || chars_are(name, "ta.hma") || chars_are(name, "ta.vwma") || chars_are(name, "ta.rsi")
        || chars_are(name, "ta.stdev") || chars_are(name, "ta.highest") || chars_are(name, "ta.lowest")
        || chars_are(name, "ta.highestbars") || chars_are(name, "ta.lowestbars") || chars_are(name, "ta.cci")
        || chars_are(name, "ta.roc") || chars_are(name, "ta.mom") || chars_are(name, "ta.dev")
        || chars_are(name, "ta.median") || chars_are(name, "ta.mode") || chars_are(name, "ta.percentrank")
        || chars_are(name, "ta.range") || chars_are(name, "ta.rci") || chars_are(name, "ta.variance")
        || chars_are(name, "ta.wpr") || chars_are(name, "ta.bbw") || chars_are(name, "ta.kcw")
        || chars_are(name, "ta.bb") || chars_are(name, "ta.kc") {
        Some(1)
    } else if chars_are(name, "ta.atr") || chars_are(name, "ta.adx") || chars_are(name, "ta.mfi")
        || chars_are(name, "ta.williamsr") {
        Some(0)
    } else {
        None
    }
}

/// The length a `ta` call is recorded with: its positive constant `length`,
/// rounded, and the node that gives it.
pub open spec fn recorded_length(cx: Source, name: Seq<char>, args: Seq<CallArg>) -> Option<(int, int)> {
    if !cx.settings.enable_ta_length_consistency {
        None
    } else {
        match ta_length_pos(name) {
            Some(p) => match arg_node(args, "length"@, p) {
                Some(n) => match num_const(*cx.tree, cx.text@, n) {
                    Some(v) => if v.0 > 0 {
                        Some((rat_round(v), n))
                    } else {
                        None
                    },
                    None => None,
                },
                None => None,
            },
            None => None,
        }
    }
}

/// The diagnostics for the first `k` recorded `ta` functions whose largest
/// length is at least `ratio` times and `delta` more than their smallest.
pub open spec fn spread_diags_upto(a: Analyzer, cx: Source, k: int) -> Seq<DiagView>
    decreases k,
{
    if k <= 0 {
        Seq::empty()
    } else {
        let name = a.ta_length_stats.keys_seq()[k - 1];
        let e = a.ta_length_stats@[name];
        let ratio = cx.settings.ta_length_spread_ratio;
        let delta = cx.settings.ta_length_spread_delta;
        spread_diags_upto(a, cx, k - 1) + if e.0 > 0 && e.2 > 0 && e.2 >= e.0 * ratio && e.2 - e.0 >= delta {
            seq![
                diag(cx, e.3, Severity::Hint, DiagnosticCode::Logic, "Large "@ + name + " length spread ("@ + decimal(e.0 as int) + " vs "@ + decimal(e.2 as int) + ")"@),
                diag(cx, e.1, Severity::Information, DiagnosticCode::Logic, "Smaller "@ + name + " length used here"@),
            ]
        } else {
            Seq::empty()
        }
    }
}

/// What `report_ta_length_inconsistency` reports.
pub open spec fn spread_diags(a: Analyzer, cx: Source) -> Seq<DiagView> {
    if !cx.settings.enable_ta_length_consistency || cx.settings.ta_length_spread_ratio <= 0
        || cx.settings.ta_length_spread_delta <= 0 {
        Seq::empty()
    } else {
        spread_diags_upto(a, cx, a.ta_length_stats.len_view() as int)
    }
}

/// What `record_ta_length` does to the analyzer: `a` before, `b` after.
pub open spec fn record_ta_length_effect(a: Analyzer, b: Analyzer, cx: Source, name: Seq<char>, args: Seq<CallArg>) -> bool {
    &&& b == (Analyzer { ta_length_stats: b.ta_length_stats, ..a })
    &&& match recorded_length(cx, name, args) {
        Some((len, n)) => {
            let e = b.ta_length_stats@[name];
            &&& b.ta_length_stats@.dom() =~= a.ta_length_stats@.dom().insert(name)
            &&& forall|k: Seq<char>| k != name && a.ta_length_stats@.contains_key(k)
                ==> b.ta_length_stats@[k] == a.ta_length_stats@[k]
            &&& e.0 <= len <= e.2
            &&& if a.ta_length_stats@.contains_key(name) {
                let o = a.ta_length_stats@[name];
                &&& e.0 == (if len < o.0 { len } else { o.0 as int })
                &&& e.2 == (if len > o.2 { len } else { o.2 as int })
                &&& e.1 == (if len < o.0 { node_range(cx, n) } else { o.1 })
                &&& e.3 == (if len > o.2 { node_range(cx, n) } else { o.3 })
            } else {
                e == (len as i64, node_range(cx, n), len as i64, node_range(cx, n))
            }
        },
        None => b == a,
    }
}

impl Analyzer {
    fn check_not_below(&mut self, cx: &Source, a: Option<usize>, b: Option<usize>, message: &str)
        requires
            old(self).wf(),
            cx.wf(),
            a matches Some(n) ==> node_ok(*cx.tree, n as int),
            b matches Some(n) ==> node_ok(*cx.tree, n as int),
        ensures
            final(self).wf(),
            Analyzer::same_state(*old(self), *final(self)),
            diags_view(final(self).diagnostics@) == diags_view(old(self).diagnostics@) + not_below_diag(*cx,
                match a { Some(n) => Some(n as int), None => None },
                match b { Some(n) => Some(n as int), None => None },
                message@),
    {
        let (an, bn) = match (a, b) {
            (Some(an), Some(bn)) => (an, bn),
            _ => {
                return;
            },
        };
        match (eval_numeric_constant(cx.tree, cx.text, an), eval_numeric_constant(cx.tree, cx.text, bn)) {
            (Some(va), Some(vb)) => {
                if !va.less_than(&vb) {
                    report_at(&mut self.diagnostics, cx, an, Severity::Hint, DiagnosticCode::Logic, message);
                }
            },
            _ => {},
        }
    }

    fn check_not_positive(&mut self, cx: &Source, a: Option<usize>, message: &str)
        requires
            old(self).wf(),
            cx.wf(),
            a matches Some(n) ==> node_ok(*cx.tree, n as int),
        ensures
            final(self).wf(),
            Analyzer::same_state(*old(self), *final(self)),
            diags_view(final(self).diagnostics@) == diags_view(old(self).diagnostics@) + not_positive_diag(*cx,
                match a { Some(n) => Some(n as int), None => None },
                message@),
    {
        let an = match a {
            Some(an) => an,
            None => {
                return;
            },
        };
        match eval_numeric_constant(cx.tree, cx.text, an) {
            Some(v) => {
                if !v.is_positive() {
                    report_at(&mut self.diagnostics, cx, an, Severity::Hint, DiagnosticCode::Logic, message);
                }
            },
            None => {},
        }
    }

    fn pivot_arg_nodes(args: &Vec<CallArg>) -> (r: (Option<usize>, Option<usize>))
        ensures
            (match r.0 { Some(n) => Some(n as int), None => None }) == pivot_args(args@).0,
            (match r.1 { Some(n) => Some(n as int), None => None }) == pivot_args(args@).1,
            r.0 matches Some(n) ==> crate::analysis::args::is_arg_node(args@, n as int),
            r.1 matches Some(n) ==> crate::analysis::args::is_arg_node(args@, n as int),
    {
        let left = match find_call_arg(args, "leftbars", 1) {
            Some(p) => Some(p.0),
            None => find_arg_node(args, "leftbars", 0),
        };
        let right = match find_call_arg(args, "rightbars", 2) {
            Some(p) => Some(p.0),
            None => find_arg_node(args, "rightbars", 1),
        };
        if left.is_none() || right.is_none() {
            if args.len() >= 3 {
                return (Some(args[1].node), Some(args[2].node));
            } else if args.len() >= 2 {
                return (Some(args[0].node), Some(args[1].node));
            }
        }
        (left, right)
    }

    /// Checks the relations between the parameters of `ta` functions.
    #[verifier::rlimit(40)]
    pub fn check_ta_param_relationships(&mut self, cx: &Source, name: &Vec<char>, args: &Vec<CallArg>)
        requires
            old(self).wf(),
            cx.wf(),
            args_ok(*cx.tree, args@),
        ensures
            final(self).wf(),
            Analyzer::same_state(*old(self), *final(self)),
            diags_view(final(self).diagnostics@) == diags_view(old(self).diagnostics@) + ta_param_diags(*cx, name@, args@),
    {
        let pivot = chars_are(name, "ta.pivothigh") || chars_are(name, "ta.pivotlow");
        if pivot {
            if !cx.settings.enable_pivot_validation {
                return;
            }
        } else if !cx.settings.enable_ta_param_relationships {
            return;
        }
        let ghost d0 = diags_view(self.diagnostics@);
        if chars_are(name, "ta.stoch") {
            self.check_not_below(cx, find_arg_node(args, "k", 0), find_arg_node(args, "d", 1), "ta.stoch expects k < d");
        } else if chars_are(name, "ta.macd") {
            self.check_not_below(cx, find_arg_node(args, "fastlen", 1), find_arg_node(args, "slowlen", 2),
                "ta.macd expects fastlen < slowlen");
        } else if chars_are(name, "ta.bb") || chars_are(name, "ta.kc") || chars_are(name, "ta.bbw") || chars_are(name, "ta.kcw") {
            self.check_not_positive(cx, find_arg_node(args, "mult", 2), "Multiplier should be > 0");
        } else if chars_are(name, "ta.sar") {
            let start = find_arg_node(args, "start", 0);
            let inc = find_arg_node(args, "inc", 1);
            let max = find_arg_node(args, "max", 2);
            self.check_not_below(cx, start, inc, "ta.sar expects start < inc");
            let ghost d1 = diags_view(self.diagnostics@);
            self.check_not_below(cx, inc, max, "ta.sar expects inc < max");
            assert(diags_view(self.diagnostics@) =~= d0 + ta_param_diags(*cx, name@, args@));
        } else if chars_are(name, "ta.percentile_linear_interpolation") || chars_are(name, "ta.percentile_nearest_rank") {
            match find_arg_node(args, "percentile", 2) {
                Some(n) => match eval_numeric_constant(cx.tree, cx.text, n) {
                    Some(v) => {
                        if v.is_negative() || Num::from_int(100).less_than(&v) {
                            report_at(&mut self.diagnostics, cx, n, Severity::Hint, DiagnosticCode::Logic,
                                "Percentile should be in [0, 100]");
                        }
                    },
                    None => {},
                },
                None => {},
            }
        } else if chars_are(name, "ta.dmi") {
            self.check_not_below(cx, find_arg_node(args, "lensig", 1), find_arg_node(args, "length", 0),
                "ta.dmi expects lensig < length");
        } else if pivot {
            let (l, r) = Self::pivot_arg_nodes(args);
            self.check_not_positive(cx, l, "leftbars should be > 0");
            let ghost d1 = diags_view(self.diagnostics@);
            self.check_not_positive(cx, r, "rightbars should be > 0");
            assert(diags_view(self.diagnostics@) =~= d0 + ta_param_diags(*cx, name@, args@));
        }
    }

    /// Records the length a `ta` function is called with: the smallest and
    /// largest so far, each with where it was given.
    pub fn record_ta_length(&mut self, cx: &Source, name: &Vec<char>, args: &Vec<CallArg>)
        requires
            old(self).wf(),
            cx.wf(),
            args_ok(*cx.tree, args@),
        ensures
            final(self).wf(),
            record_ta_length_effect(*old(self), *final(self), *cx, name@, args@),
    {
        if !cx.settings.enable_ta_length_consistency {
            return;
        }
        let pos = match ta_length_position(name) {
            Some(p) => p,
            None => {
                return;
            },
        };
        let n = match find_arg_node(args, "length", pos) {
            Some(n) => n,
            None => {
                return;
            },
        };
        let v = match eval_numeric_constant(cx.tree, cx.text, n) {
            Some(v) => v,
            None => {
                return;
            },
        };
        if !v.is_positive() {
            return;
        }
        let len = v.round();
        proof {
            assert(len >= 0) by (nonlinear_arith)
                requires
                    len == rat_round(v.pair()),
                    v.pair().0 > 0,
                    v.pair().1 > 0,
            ;
        }
        let range = range_for_node(cx, n);
        let entry = match self.ta_length_stats.get(name) {
            Some(e) => {
                let mut e2 = *e;
                if len < e2.0 {
                    e2.0 = len;
                    e2.1 = range;
                }
                if len > e2.2 {
                    e2.2 = len;
                    e2.3 = range;
                }
                e2
            },
            None => (len, range, len, range),
        };
        self.ta_length_stats.insert(name.clone(), entry);
    }

    /// Reports each `ta` function called with lengths far apart.
    pub fn report_ta_length_inconsistency(&mut self, cx: &Source)
        requires
            old(self).wf(),
            cx.wf(),
        ensures
            final(self).wf(),
            Analyzer::same_state(*old(self), *final(self)),
            diags_view(final(self).diagnostics@) == diags_view(old(self).diagnostics@) + spread_diags(*old(self), *cx),
    {
        if !cx.settings.enable_ta_length_consistency {
            return;
        }
        let ratio = cx.settings.ta_length_spread_ratio;
        let delta = cx.settings.ta_length_spread_delta;
        if ratio <= 0 || delta <= 0 {
            return;
        }
        let ghost a = *self;
        let n = self.ta_length_stats.len();
        let mut k: usize = 0;
        while k < n
            invariant
                a.wf(),
                cx.wf(),
                ratio == cx.settings.ta_length_spread_ratio,
                delta == cx.settings.ta_length_spread_delta,
                n == a.ta_length_stats.len_view(),
                k <= n,
                Analyzer::same_state(a, *self),
                self.wf(),
                diags_view(self.diagnostics@) == diags_view(a.diagnostics@) + spread_diags_upto(a, *cx, k as int),
            decreases n - k,
        {
            let (key, e) = self.ta_length_stats.entry_at(k);
            let name = key.clone();
            let (min_len, min_range, max_len, max_range) = *e;
            let lhs = max_len as i128;
            proof {
                crate::num::lemma_mul_i64_fits(min_len as int, ratio as int);
            }
            let rhs = (min_len as i128) * (ratio as i128);
            if min_len > 0 && max_len > 0 && lhs >= rhs && (max_len as i128) - (min_len as i128) >= delta as i128 {
                let mut msg = wrap_chars("Large ", &name, " length spread (");
                push_decimal(&mut msg, min_len);
                push_str(&mut msg, " vs ");
                push_decimal(&mut msg, max_len);
                push_str(&mut msg, ")");
                report_chars(&mut self.diagnostics, cx, max_range, Severity::Hint, DiagnosticCode::Logic, &msg);
                let msg2 = wrap_chars("Smaller ", &name, " length used here");
                report_chars(&mut self.diagnostics, cx, min_range, Severity::Information, DiagnosticCode::Logic, &msg2);
            }
            k = k + 1;
        }
    }
}

/// `ta.macd` with constant lengths: the hint comes, at `fastlen`, exactly
/// when `fastlen` is not below `slowlen`.
pub proof fn lemma_macd_lengths(cx: Source, args: Seq<CallArg>, f: int, s: int, vf: (int, int), vs: (int, int))
    requires
        cx.settings.enable_ta_param_relationships,
        arg_node(args, "fastlen"@, 1) == Some(f),
        arg_node(args, "slowlen"@, 2) == Some(s),
        num_const(*cx.tree, cx.text@, f) == Some(vf),
        num_const(*cx.tree, cx.text@, s) == Some(vs),
    ensures
        ta_param_diags(cx, "ta.macd"@, args) == if vf.0 * vs.1 < vs.0 * vf.1 {
            Seq::<DiagView>::empty()
        } else {
            seq![diag_at(cx, f, Severity::Hint, DiagnosticCode::Logic, "ta.macd expects fastlen < slowlen"@)]
        },
{
    lemma_ta_names_distinct();
}

/// The names of the `ta` functions whose arguments are checked are distinct.
pub proof fn lemma_ta_names_distinct()
    ensures
        "ta.pivothigh"@ != "ta.pivotlow"@,
        "ta.pivothigh"@ != "ta.stoch"@,
        "ta.pivothigh"@ != "ta.macd"@,
        "ta.pivothigh"@ != "ta.bb"@,
        "ta.pivothigh"@ != "ta.kc"@,
        "ta.pivothigh"@ != "ta.bbw"@,
        "ta.pivothigh"@ != "ta.kcw"@,
        "ta.pivothigh"@ != "ta.sar"@,
        "ta.pivothigh"@ != "ta.percentile_linear_interpolation"@,
        "ta.pivothigh"@ != "ta.percentile_nearest_rank"@,
        "ta.pivothigh"@ != "ta.dmi"@,
        "ta.pivotlow"@ != "ta.stoch"@,
        "ta.pivotlow"@ != "ta.macd"@,
        "ta.pivotlow"@ != "ta.bb"@,
        "ta.pivotlow"@ != "ta.kc"@,
        "ta.pivotlow"@ != "ta.bbw"@,
        "ta.pivotlow"@ != "ta.kcw"@,
        "ta.pivotlow"@ != "ta.sar"@,
        "ta.pivotlow"@ != "ta.percentile_linear_interpolation"@,
        "ta.pivotlow"@ != "ta.percentile_nearest_rank"@,
        "ta.pivotlow"@ != "ta.dmi"@,
        "ta.stoch"@ != "ta.macd"@,
        "ta.stoch"@ != "ta.bb"@,
        "ta.stoch"@ != "ta.kc"@,
        "ta.stoch"@ != "ta.bbw"@,
        "ta.stoch"@ != "ta.kcw"@,
        "ta.stoch"@ != "ta.sar"@,
        "ta.stoch"@ != "ta.percentile_linear_interpolation"@,
        "ta.stoch"@ != "ta.percentile_nearest_rank"@,
        "ta.stoch"@ != "ta.dmi"@,
        "ta.macd"@ != "ta.bb"@,
        "ta.macd"@ != "ta.kc"@,
        "ta.macd"@ != "ta.bbw"@,
        "ta.macd"@ != "ta.kcw"@,
        "ta.macd"@ != "ta.sar"@,
        "ta.macd"@ != "ta.percentile_linear_interpolation"@,
        "ta.macd"@ != "ta.percentile_nearest_rank"@,
        "ta.macd"@ != "ta.dmi"@,
        "ta.bb"@ != "ta.kc"@,
        "ta.bb"@ != "ta.bbw"@,
        "ta.bb"@ != "ta.kcw"@,
        "ta.bb"@ != "ta.sar"@,
        "ta.bb"@ != "ta.percentile_linear_interpolation"@,
        "ta.bb"@ != "ta.percentile_nearest_rank"@,
        "ta.bb"@ != "ta.dmi"@,
        "ta.kc"@ != "ta.bbw"@,
        "ta.kc"@ != "ta.kcw"@,
        "ta.kc"@ != "ta.sar"@,
        "ta.kc"@ != "ta.percentile_linear_interpolation"@,
        "ta.kc"@ != "ta.percentile_nearest_rank"@,
        "ta.kc"@ != "ta.dmi"@,
        "ta.bbw"@ != "ta.kcw"@,
        "ta.bbw"@ != "ta.sar"@,
        "ta.bbw"@ != "ta.percentile_linear_interpolation"@,
        "ta.bbw"@ != "ta.percentile_nearest_rank"@,
        "ta.bbw"@ != "ta.dmi"@,
        "ta.kcw"@ != "ta.sar"@,
        "ta.kcw"@ != "ta.percentile_linear_interpolation"@,
        "ta.kcw"@ != "ta.percentile_nearest_rank"@,
        "ta.kcw"@ != "ta.dmi"@,
        "ta.sar"@ != "ta.percentile_linear_interpolation"@,
        "ta.sar"@ != "ta.percentile_nearest_rank"@,
        "ta.sar"@ != "ta.dmi"@,
        "ta.percentile_linear_interpolation"@ != "ta.percentile_nearest_rank"@,
        "ta.percentile_linear_interpolation"@ != "ta.dmi"@,
        "ta.percentile_nearest_rank"@ != "ta.dmi"@,
{
    reveal_strlit("ta.pivothigh");
    reveal_strlit("ta.pivotlow");
    reveal_strlit("ta.stoch");
    reveal_strlit("ta.macd");
    reveal_strlit("ta.bb");
    reveal_strlit("ta.kc");
    reveal_strlit("ta.bbw");
    reveal_strlit("ta.kcw");
    reveal_strlit("ta.sar");
    reveal_strlit("ta.percentile_linear_interpolation");
    reveal_strlit("ta.percentile_nearest_rank");
    reveal_strlit("ta.dmi");
    assert("ta.pivothigh"@.len() != "ta.pivotlow"@.len());
    assert("ta.pivothigh"@.len() != "ta.stoch"@.len());
    assert("ta.pivothigh"@.len() != "ta.macd"@.len());
    assert("ta.pivothigh"@.len() != "ta.bb"@.len());
    assert("ta.pivothigh"@.len() != "ta.kc"@.len());
    assert("ta.pivothigh"@.len() != "ta.bbw"@.len());
    assert("ta.pivothigh"@.len() != "ta.kcw"@.len());
    assert("ta.pivothigh"@.len() != "ta.sar"@.len());
    assert("ta.pivothigh"@.len() != "ta.percentile_linear_interpolation"@.len());
    assert("ta.pivothigh"@.len() != "ta.percentile_nearest_rank"@.len());
    assert("ta.pivothigh"@.len() != "ta.dmi"@.len());
    assert("ta.pivotlow"@.len() != "ta.stoch"@.len());
    assert("ta.pivotlow"@.len() != "ta.macd"@.len());
    assert("ta.pivotlow"@.len() != "ta.bb"@.len());
    assert("ta.pivotlow"@.len() != "ta.kc"@.len());
    assert("ta.pivotlow"@.len() != "ta.bbw"@.len());
    assert("ta.pivotlow"@.len() != "ta.kcw"@.len());
    assert("ta.pivotlow"@.len() != "ta.sar"@.len());
    assert("ta.pivotlow"@.len() != "ta.percentile_linear_interpolation"@.len());
    assert("ta.pivotlow"@.len() != "ta.percentile_nearest_rank"@.len());
    assert("ta.pivotlow"@.len() != "ta.dmi"@.len());
    assert("ta.stoch"@.len() != "ta.macd"@.len());
    assert("ta.stoch"@.len() != "ta.bb"@.len());
    assert("ta.stoch"@.len() != "ta.kc"@.len());
    assert("ta.stoch"@.len() != "ta.bbw"@.len());
    assert("ta.stoch"@.len() != "ta.kcw"@.len());
    assert("ta.stoch"@.len() != "ta.sar"@.len());
    assert("ta.stoch"@.len() != "ta.percentile_linear_interpolation"@.len());
    assert("ta.stoch"@.len() != "ta.percentile_nearest_rank"@.len());
    assert("ta.stoch"@.len() != "ta.dmi"@.len());
    assert("ta.macd"@.len() != "ta.bb"@.len());
    assert("ta.macd"@.len() != "ta.kc"@.len());
    assert("ta.macd"@.len() != "ta.bbw"@.len());
    assert("ta.macd"@.len() != "ta.kcw"@.len());
    assert("ta.macd"@.len() != "ta.sar"@.len());
    assert("ta.macd"@.len() != "ta.percentile_linear_interpolation"@.len());
    assert("ta.macd"@.len() != "ta.percentile_nearest_rank"@.len());
    assert("ta.macd"@.len() != "ta.dmi"@.len());
    assert("ta.bb"@[3] != "ta.kc"@[3]);
    assert("ta.bb"@.len() != "ta.bbw"@.len());
    assert("ta.bb"@.len() != "ta.kcw"@.len());
    assert("ta.bb"@.len() != "ta.sar"@.len());
    assert("ta.bb"@.len() != "ta.percentile_linear_interpolation"@.len());
    assert("ta.bb"@.len() != "ta.percentile_nearest_rank"@.len());
    assert("ta.bb"@.len() != "ta.dmi"@.len());
    assert("ta.kc"@.len() != "ta.bbw"@.len());
    assert("ta.kc"@.len() != "ta.kcw"@.len());
    assert("ta.kc"@.len() != "ta.sar"@.len());
    assert("ta.kc"@.len() != "ta.percentile_linear_interpolation"@.len());
    assert("ta.kc"@.len() != "ta.percentile_nearest_rank"@.len());
    assert("ta.kc"@.len() != "ta.dmi"@.len());
    assert("ta.bbw"@[3] != "ta.kcw"@[3]);
    assert("ta.bbw"@[3] != "ta.sar"@[3]);
    assert("ta.bbw"@.len() != "ta.percentile_linear_interpolation"@.len());
    assert("ta.bbw"@.len() != "ta.percentile_nearest_rank"@.len());
    assert("ta.bbw"@[3] != "ta.dmi"@[3]);
    assert("ta.kcw"@[3] != "ta.sar"@[3]);
    assert("ta.kcw"@.len() != "ta.percentile_linear_interpolation"@.len());
    assert("ta.kcw"@.len() != "ta.percentile_nearest_rank"@.len());
    assert("ta.kcw"@[3] != "ta.dmi"@[3]);
    assert("ta.sar"@.len() != "ta.percentile_linear_interpolation"@.len());
    assert("ta.sar"@.len() != "ta.percentile_nearest_rank"@.len());
    assert("ta.sar"@[3] != "ta.dmi"@[3]);
    assert("ta.percentile_linear_interpolation"@.len() != "ta.percentile_nearest_rank"@.len());
    assert("ta.percentile_linear_interpolation"@.len() != "ta.dmi"@.len());
    assert("ta.percentile_nearest_rank"@.len() != "ta.dmi"@.len());
}

/// `ta.stoch` with constant `k` and `d`: the hint comes, at `k`, exactly when
/// `k` is not below `d`.
pub proof fn lemma_stoch_lengths(cx: Source, args: Seq<CallArg>, na: int, nb: int, va: (int, int), vb: (int, int))
    requires
        cx.settings.enable_ta_param_relationships,
        arg_node(args, "k"@, 0) == Some(na),
        arg_node(args, "d"@, 1) == Some(nb),
        num_const(*cx.tree, cx.text@, na) == Some(va),
        num_const(*cx.tree, cx.text@, nb) == Some(vb),
    ensures
        ta_param_diags(cx, "ta.stoch"@, args) == if va.0 * vb.1 < vb.0 * va.1 {
            Seq::<DiagView>::empty()
        } else {
            seq![diag_at(cx, na, Severity::Hint, DiagnosticCode::Logic, "ta.stoch expects k < d"@)]
        },
{
    lemma_ta_names_distinct();
}

/// `ta.dmi` with constant `lensig` and `length`: the hint comes, at `lensig`,
/// exactly when `lensig` is not below `length`.
pub proof fn lemma_dmi_lengths(cx: Source, args: Seq<CallArg>, na: int, nb: int, va: (int, int), vb: (int, int))
    requires
        cx.settings.enable_ta_param_relationships,
        arg_node(args, "lensig"@, 1) == Some(na),
        arg_node(args, "length"@, 0) == Some(nb),
        num_const(*cx.tree, cx.text@, na) == Some(va),
        num_const(*cx.tree, cx.text@, nb) == Some(vb),
    ensures
        ta_param_diags(cx, "ta.dmi"@, args) == if va.0 * vb.1 < vb.0 * va.1 {
            Seq::<DiagView>::empty()
        } else {
            seq![diag_at(cx, na, Severity::Hint, DiagnosticCode::Logic, "ta.dmi expects lensig < length"@)]
        },
{
    lemma_ta_names_distinct();
}

/// `ta.sar` with constant `start`, `inc` and `max`: a hint at `start` exactly
/// when it is not below `inc`, then one at `inc` exactly when it is not below
/// `max`.
pub proof fn lemma_sar_steps(cx: Source, args: Seq<CallArg>, ns: int, ni: int, nm: int, vs: (int, int), vi: (int, int), vm: (int, int))
    requires
        cx.settings.enable_ta_param_relationships,
        arg_node(args, "start"@, 0) == Some(ns),
        arg_node(args, "inc"@, 1) == Some(ni),
        arg_node(args, "max"@, 2) == Some(nm),
        num_const(*cx.tree, cx.text@, ns) == Some(vs),
        num_const(*cx.tree, cx.text@, ni) == Some(vi),
        num_const(*cx.tree, cx.text@, nm) == Some(vm),
    ensures
        ta_param_diags(cx, "ta.sar"@, args) == (if vs.0 * vi.1 < vi.0 * vs.1 {
            Seq::<DiagView>::empty()
        } else {
            seq![diag_at(cx, ns, Severity::Hint, DiagnosticCode::Logic, "ta.sar expects start < inc"@)]
        }) + (if vi.0 * vm.1 < vm.0 * vi.1 {
            Seq::<DiagView>::empty()
        } else {
            seq![diag_at(cx, ni, Severity::Hint, DiagnosticCode::Logic, "ta.sar expects inc < max"@)]
        }),
{
    lemma_ta_names_distinct();
}

/// A constant percentile (with a positive denominator) outside `[0, 100]`
/// gets the hint at the percentile; one inside gets nothing.
pub proof fn lemma_percentile_range(cx: Source, name: Seq<char>, args: Seq<CallArg>, n: int, v: (int, int))
    requires
        name == "ta.percentile_linear_interpolation"@ || name == "ta.percentile_nearest_rank"@,
        cx.settings.enable_ta_param_relationships,
        arg_node(args, "percentile"@, 2) == Some(n),
        num_const(*cx.tree, cx.text@, n) == Some(v),
        v.1 > 0,
    ensures
        ta_param_diags(cx, name, args) == if 0 <= v.0 && v.0 <= 100 * v.1 {
            Seq::<DiagView>::empty()
        } else {
            seq![diag_at(cx, n, Severity::Hint, DiagnosticCode::Logic, "Percentile should be in [0, 100]"@)]
        },
{
    lemma_ta_names_distinct();
    assert(value_of(cx, arg_node(args, "percentile"@, 2)) == Some(v));
    assert(rat_lt((100, 1), v) == (100 * v.1 < v.0));
}

/// A constant multiplier of the band functions that is not above zero gets
/// the hint at the multiplier; a positive one gets nothing.
pub proof fn lemma_band_multiplier(cx: Source, name: Seq<char>, args: Seq<CallArg>, n: int, v: (int, int))
    requires
        name == "ta.bb"@ || name == "ta.kc"@ || name == "ta.bbw"@ || name == "ta.kcw"@,
        cx.settings.enable_ta_param_relationships,
        arg_node(args, "mult"@, 2) == Some(n),
        num_const(*cx.tree, cx.text@, n) == Some(v),
    ensures
        ta_param_diags(cx, name, args) == if v.0 > 0 {
            Seq::<DiagView>::empty()
        } else {
            seq![diag_at(cx, n, Severity::Hint, DiagnosticCode::Logic, "Multiplier should be > 0"@)]
        },
{
    lemma_ta_names_distinct();
}

} // verus!
