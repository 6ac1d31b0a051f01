//! Checks of the arguments of strategy order calls: quantities, prices,
//! exits, trailing stops, alert messages and trade indexes.

use vstd::prelude::*;

use crate::analysis::{Analyzer, DiagView, DiagnosticCode, Severity, Source, diag_at, diags_view, lemma_reports_grow_auto};
use crate::analysis::args::{CallArg, args_ok, arg_by_name, arg_for, arg_node, find_arg_node, find_call_arg, find_call_arg_by_name};
use crate::analysis::checks::request::{name_value, name_value_of};
use crate::analysis::checks::ta::value_of;
use crate::analysis::diag::{range_for_node, report_at, report_chars};
use crate::analysis::eval::{eval_numeric_constant, eval_string_constant, node_ok, num_const, string_const};
use crate::fmt::wrap_chars;
use crate::num::{Num, rat_lt};
use crate::text::{chars_are, has_prefix, is_blank, starts_with_lit, trim};

verus! {

broadcast use lemma_reports_grow_auto;

pub open spec fn is_entry_call(name: Seq<char>) -> bool {
    name == "strategy.entry"@ || name == "strategy.order"@
}

/// A report of `message` at `n` when it is a constant not above zero.
pub open spec fn nonpositive_diag(cx: Source, n: Option<int>, message: Seq<char>) -> Seq<DiagView> {
    match value_of(cx, n) {
        Some(v) => if v.0 <= 0 {
            seq![diag_at(cx, n->0, Severity::Hint, DiagnosticCode::Logic, message)]
        } else {
            Seq::empty()
        },
        None => Seq::empty(),
    }
}

/// What `check_strategy_quantity` reports.
pub open spec fn quantity_diags(cx: Source, name: Seq<char>, args: Seq<CallArg>) -> Seq<DiagView> {
    let m = "Strategy quantity should be > 0"@;
    if is_entry_call(name) {
        nonpositive_diag(cx, arg_node(args, "qty"@, 2), m)
    } else if name == "strategy.exit"@ {
        nonpositive_diag(cx, arg_node(args, "qty"@, 2), m) + nonpositive_diag(cx, arg_node(args, "qty_percent"@, 3), m)
    } else {
        Seq::empty()
    }
}

/// What `check_strategy_position_size` reports.
pub open spec fn position_size_diags(a: Analyzer, cx: Source, name: Seq<char>, args: Seq<CallArg>) -> Seq<DiagView> {
    if !cx.settings.enable_strategy_position_size_validation {
        Seq::empty()
    } else if name == "strategy.exit"@ {
        let n = arg_node(args, "qty_percent"@, 3);
        match value_of(cx, n) {
            Some(v) => if rat_lt(cx.settings.strategy_position_percent_max.pair(), v) {
                seq![diag_at(cx, n->0, Severity::Hint, DiagnosticCode::Logic, "Strategy qty_percent exceeds percent-of-equity limit"@)]
            } else {
                Seq::empty()
            },
            None => Seq::empty(),
        }
    } else if is_entry_call(name) {
        let n = arg_node(args, "qty"@, 2);
        match value_of(cx, n) {
            Some(q) => if q.0 > 0 && (a.strategy_default_qty_type matches Some(t) && t@ == "strategy.cash"@)
                && (a.strategy_initial_capital matches Some(c) && rat_lt(c.pair(), q)) {
                seq![diag_at(cx, n->0, Severity::Hint, DiagnosticCode::Logic, "Strategy quantity exceeds initial_capital for cash sizing"@)]
            } else {
                Seq::empty()
            },
            None => Seq::empty(),
        }
    } else {
        Seq::empty()
    }
}

/// The `alert_message` argument of a strategy call.
pub open spec fn alert_arg(name: Seq<char>, args: Seq<CallArg>) -> Option<int> {
    if is_entry_call(name) {
        arg_node(args, "alert_message"@, 8)
    } else if name == "strategy.exit"@ {
        arg_node(args, "alert_message"@, 16)
    } else if name == "strategy.close"@ {
        arg_node(args, "alert_message"@, 2)
    } else if name == "strategy.close_all"@ {
        arg_node(args, "alert_message"@, 1)
    } else {
        None
    }
}

/// What `check_strategy_alert_message` reports.
pub open spec fn alert_diags(cx: Source, name: Seq<char>, args: Seq<CallArg>) -> Seq<DiagView> {
    if !cx.settings.enable_strategy_alert_message_validation {
        Seq::empty()
    } else {
        match alert_arg(name, args) {
            Some(n) => match string_const(*cx.tree, cx.text@, n) {
                Some(m) => if trim(m).len() == 0 {
                    seq![diag_at(cx, n, Severity::Hint, DiagnosticCode::Logic, "alert_message is empty"@)]
                } else if cx.settings.strategy_alert_message_max_length > 0 && m.len() > cx.settings.strategy_alert_message_max_length {
                    seq![diag_at(cx, n, Severity::Hint, DiagnosticCode::Logic, "alert_message is unusually long"@)]
                } else {
                    Seq::empty()
                },
                None => Seq::empty(),
            },
            None => Seq::empty(),
        }
    }
}

/// What `check_strategy_price_bounds` reports.
pub open spec fn price_diags(cx: Source, name: Seq<char>, args: Seq<CallArg>) -> Seq<DiagView> {
    let m = "Strategy price should be > 0"@;
    if !cx.settings.enable_strategy_price_validation {
        Seq::empty()
    } else if is_entry_call(name) {
        nonpositive_diag(cx, arg_node(args, "limit"@, 3), m) + nonpositive_diag(cx, arg_node(args, "stop"@, 4), m)
    } else if name == "strategy.exit"@ {
        nonpositive_diag(cx, arg_node(args, "limit"@, 5), m) + nonpositive_diag(cx, arg_node(args, "stop"@, 7), m)
    } else {
        Seq::empty()
    }
}

/// What `check_strategy_limit_stop_relation` reports.
pub open spec fn limit_stop_diags(cx: Source, name: Seq<char>, args: Seq<CallArg>) -> Seq<DiagView> {
    if !is_entry_call(name) || !cx.settings.enable_strategy_limit_stop_validation {
        Seq::empty()
    } else {
        match arg_node(args, "direction"@, 1) {
            Some(dn) => match name_value(cx, dn) {
                Some(dir) => {
                    let ln = arg_node(args, "limit"@, 3);
                    let sn = arg_node(args, "stop"@, 4);
                    match (ln, sn) {
                        (Some(l), Some(s)) => match (value_of(cx, ln), value_of(cx, sn)) {
                            (Some(lv), Some(sv)) => if dir == "strategy.long"@ && rat_lt(lv, sv) {
                                seq![diag_at(cx, l, Severity::Hint, DiagnosticCode::Logic, "Long entry limit is below stop; check limit/stop ordering"@)]
                            } else if dir == "strategy.short"@ && rat_lt(sv, lv) {
                                seq![diag_at(cx, l, Severity::Hint, DiagnosticCode::Logic, "Short entry limit is above stop; check limit/stop ordering"@)]
                            } else {
                                Seq::empty()
                            },
                            _ => Seq::empty(),
                        },
                        _ => Seq::empty(),
                    }
                },
                None => Seq::empty(),
            },
            None => Seq::empty(),
        }
    }
}

/// What `check_strategy_exit_profit_loss` reports.
pub open spec fn profit_loss_diags(cx: Source, name: Seq<char>, args: Seq<CallArg>) -> Seq<DiagView> {
    if name != "strategy.exit"@ || !cx.settings.enable_strategy_exit_profit_loss_validation {
        Seq::empty()
    } else {
        let pn = arg_node(args, "profit"@, 4);
        let ln = arg_node(args, "loss"@, 6);
        nonpositive_diag(cx, pn, "strategy.exit profit should be > 0"@) + match value_of(cx, ln) {
            Some(v) => if v.0 >= 0 {
                seq![diag_at(cx, ln->0, Severity::Hint, DiagnosticCode::Logic, "strategy.exit loss should be < 0"@)]
            } else {
                Seq::empty()
            },
            None => Seq::empty(),
        }
    }
}

/// What `check_strategy_trail` reports.
pub open spec fn trail_diags(cx: Source, name: Seq<char>, args: Seq<CallArg>) -> Seq<DiagView> {
    if name != "strategy.exit"@ || !cx.settings.enable_strategy_trailing_validation {
        Seq::empty()
    } else {
        let tp = arg_node(args, "trail_price"@, 8);
        let tpts = arg_node(args, "trail_points"@, 9);
        let toff = arg_node(args, "trail_offset"@, 10);
        (if tp is Some && tpts is Some {
            seq![diag_at(cx, tp->0, Severity::Hint, DiagnosticCode::Logic, "Specify either trail_price or trail_points, not both"@)]
        } else {
            Seq::empty()
        }) + (if toff is Some && tp is None && tpts is None {
            seq![diag_at(cx, toff->0, Severity::Hint, DiagnosticCode::Logic, "trail_offset requires trail_price or trail_points"@)]
        } else {
            Seq::empty()
        }) + nonpositive_diag(cx, tp, "trail_price should be > 0"@) + nonpositive_diag(cx, tpts, "trail_points should be > 0"@)
            + nonpositive_diag(cx, toff, "trail_offset should be > 0"@)
    }
}

/// What `check_strategy_position_management` reports.
pub open spec fn position_management_diags(a: Analyzer, cx: Source, name: Seq<char>, args: Seq<CallArg>) -> Seq<DiagView> {
    let (n, label) = if name == "strategy.close"@ {
        (arg_node(args, "id"@, 0), "strategy.close references `"@)
    } else if name == "strategy.exit"@ {
        (arg_node(args, "from_entry"@, 1), "strategy.exit references `"@)
    } else {
        (None, Seq::empty())
    };
    match n {
        Some(node) => match string_const(*cx.tree, cx.text@, node) {
            Some(id) => if !a.strategy_entry_ids@.contains_key(id) {
                seq![diag_at(cx, node, Severity::Hint, DiagnosticCode::Logic, label + id + "` without a matching entry id"@)]
            } else {
                Seq::empty()
            },
            None => Seq::empty(),
        },
        None => Seq::empty(),
    }
}

/// What `check_closedtrades_index` reports.
pub open spec fn closedtrades_diags(cx: Source, name: Seq<char>, args: Seq<CallArg>) -> Seq<DiagView> {
    if !has_prefix(name, "strategy.closedtrades."@) {
        Seq::empty()
    } else {
        let n = arg_node(args, "trade_num"@, 0);
        match value_of(cx, n) {
            Some(v) => if v.0 < 0 {
                seq![diag_at(cx, n->0, Severity::Hint, DiagnosticCode::Logic, "strategy.closedtrades index is negative"@)]
            } else if !rat_lt(v, (1000, 1)) {
                seq![diag_at(cx, n->0, Severity::Hint, DiagnosticCode::Logic, "strategy.closedtrades index may exceed available trades"@)]
            } else {
                Seq::empty()
            },
            None => Seq::empty(),
        }
    }
}

fn is_entry_name(name: &Vec<char>) -> (r: bool)
    ensures
        r == is_entry_call(name@),
{
    chars_are(name, "strategy.entry") || chars_are(name, "strategy.order")
}

impl Analyzer {
    fn check_nonpositive(&mut self, cx: &Source, n: Option<usize>, message: &str)
        requires
            old(self).wf(),
            cx.wf(),
            n matches Some(node) ==> node_ok(*cx.tree, node as int),
        ensures
            final(self).wf(),
            Analyzer::same_state(*old(self), *final(self)),
            diags_view(final(self).diagnostics@) == diags_view(old(self).diagnostics@) + nonpositive_diag(*cx,
                match n { Some(node) => Some(node as int), None => None }, message@),
    {
        let node = match n {
            Some(node) => node,
            None => {
                return;
            },
        };
        match eval_numeric_constant(cx.tree, cx.text, node) {
            Some(v) => {
                if !v.is_positive() {
                    report_at(&mut self.diagnostics, cx, node, Severity::Hint, DiagnosticCode::Logic, message);
                }
            },
            None => {},
        }
    }

    /// Reports strategy quantities that are not positive.
    pub fn check_strategy_quantity(&mut self, cx: &Source, name: &Vec<char>, args: &Vec<CallArg>)
        requires
            old(self).wf(),
            cx.wf(),
            args_ok(*cx.tree, args@),
        ensures
            final(self).wf(),
            Analyzer::same_state(*old(self), *final(self)),
            diags_view(final(self).diagnostics@) == diags_view(old(self).diagnostics@) + quantity_diags(*cx, name@, args@),
    {
        if is_entry_name(name) {
            self.check_nonpositive(cx, find_arg_node(args, "qty", 2), "Strategy quantity should be > 0");
        } else if chars_are(name, "strategy.exit") {
            let ghost d0 = diags_view(self.diagnostics@);
            self.check_nonpositive(cx, find_arg_node(args, "qty", 2), "Strategy quantity should be > 0");
            self.check_nonpositive(cx, find_arg_node(args, "qty_percent", 3), "Strategy quantity should be > 0");
            assert(diags_view(self.diagnostics@) =~= d0 + quantity_diags(*cx, name@, args@));
        }
    }

    /// Reports quantities beyond the percent-of-equity limit or the initial capital.
    pub fn check_strategy_position_size(&mut self, cx: &Source, name: &Vec<char>, args: &Vec<CallArg>)
        requires
            old(self).wf(),
            cx.wf(),
            args_ok(*cx.tree, args@),
        ensures
            final(self).wf(),
            Analyzer::same_state(*old(self), *final(self)),
            diags_view(final(self).diagnostics@) == diags_view(old(self).diagnostics@) + position_size_diags(*old(self), *cx, name@, args@),
    {
        if !cx.settings.enable_strategy_position_size_validation {
            return;
        }
        if chars_are(name, "strategy.exit") {
            match find_arg_node(args, "qty_percent", 3) {
                Some(n) => match eval_numeric_constant(cx.tree, cx.text, n) {
                    Some(v) => {
                        if cx.settings.strategy_position_percent_max.to_num().less_than(&v) {
                            report_at(&mut self.diagnostics, cx, n, Severity::Hint, DiagnosticCode::Logic,
                                "Strategy qty_percent exceeds percent-of-equity limit");
                        }
                    },
                    None => {},
                },
                None => {},
            }
            return;
        }
        if !is_entry_name(name) {
            return;
        }
        let n = match find_arg_node(args, "qty", 2) {
            Some(n) => n,
            None => {
                return;
            },
        };
        let q = match eval_numeric_constant(cx.tree, cx.text, n) {
            Some(v) => v,
            None => {
                return;
            },
        };
        if !q.is_positive() {
            return;
        }
        let is_cash = match &self.strategy_default_qty_type {
            Some(t) => chars_are(t, "strategy.cash"),
            None => false,
        };
        if !is_cash {
            return;
        }
        match &self.strategy_initial_capital {
            Some(c) => {
                if c.less_than(&q) {
                    report_at(&mut self.diagnostics, cx, n, Severity::Hint, DiagnosticCode::Logic,
                        "Strategy quantity exceeds initial_capital for cash sizing");
                }
            },
            None => {},
        }
    }

    /// Reports an empty or very long `alert_message`.
    pub fn check_strategy_alert_message(&mut self, cx: &Source, name: &Vec<char>, args: &Vec<CallArg>)
        requires
            old(self).wf(),
            cx.wf(),
            args_ok(*cx.tree, args@),
        ensures
            final(self).wf(),
            Analyzer::same_state(*old(self), *final(self)),
            diags_view(final(self).diagnostics@) == diags_view(old(self).diagnostics@) + alert_diags(*cx, name@, args@),
    {
        if !cx.settings.enable_strategy_alert_message_validation {
            return;
        }
        let node = if is_entry_name(name) {
            find_arg_node(args, "alert_message", 8)
        } else if chars_are(name, "strategy.exit") {
            find_arg_node(args, "alert_message", 16)
        } else if chars_are(name, "strategy.close") {
            find_arg_node(args, "alert_message", 2)
        } else if chars_are(name, "strategy.close_all") {
            find_arg_node(args, "alert_message", 1)
        } else {
            None
        };
        let n = match node {
            Some(n) => n,
            None => {
                return;
            },
        };
        let m = match eval_string_constant(cx.tree, cx.text, n) {
            Some(m) => m,
            None => {
                return;
            },
        };
        if is_blank(&m) {
            report_at(&mut self.diagnostics, cx, n, Severity::Hint, DiagnosticCode::Logic, "alert_message is empty");
            return;
        }
        let max_len = cx.settings.strategy_alert_message_max_length;
        if max_len > 0 && (m.len() as u64) > (max_len as u64) {
            report_at(&mut self.diagnostics, cx, n, Severity::Hint, DiagnosticCode::Logic, "alert_message is unusually long");
        }
    }

    /// Reports limit and stop prices that are not positive.
    pub fn check_strategy_price_bounds(&mut self, cx: &Source, name: &Vec<char>, args: &Vec<CallArg>)
        requires
            old(self).wf(),
            cx.wf(),
            args_ok(*cx.tree, args@),
        ensures
            final(self).wf(),
            Analyzer::same_state(*old(self), *final(self)),
            diags_view(final(self).diagnostics@) == diags_view(old(self).diagnostics@) + price_diags(*cx, name@, args@),
    {
        if !cx.settings.enable_strategy_price_validation {
            return;
        }
        let ghost d0 = diags_view(self.diagnostics@);
        if is_entry_name(name) {
            self.check_nonpositive(cx, find_arg_node(args, "limit", 3), "Strategy price should be > 0");
            self.check_nonpositive(cx, find_arg_node(args, "stop", 4), "Strategy price should be > 0");
        } else if chars_are(name, "strategy.exit") {
            self.check_nonpositive(cx, find_arg_node(args, "limit", 5), "Strategy price should be > 0");
            self.check_nonpositive(cx, find_arg_node(args, "stop", 7), "Strategy price should be > 0");
        }
        assert(diags_view(self.diagnostics@) =~= d0 + price_diags(*cx, name@, args@));
    }

    /// Reports a long entry whose limit is below its stop, or a short entry
    /// whose limit is above it.
    pub fn check_strategy_limit_stop_relation(&mut self, cx: &Source, name: &Vec<char>, args: &Vec<CallArg>)
        requires
            old(self).wf(),
            cx.wf(),
            args_ok(*cx.tree, args@),
        ensures
            final(self).wf(),
            Analyzer::same_state(*old(self), *final(self)),
            diags_view(final(self).diagnostics@) == diags_view(old(self).diagnostics@) + limit_stop_diags(*cx, name@, args@),
    {
        if !is_entry_name(name) || !cx.settings.enable_strategy_limit_stop_validation {
            return;
        }
        let dn = match find_arg_node(args, "direction", 1) {
            Some(n) => n,
            None => {
                return;
            },
        };
        let dir = match name_value_of(cx, dn) {
            Some(d) => d,
            None => {
                return;
            },
        };
        let l = match find_arg_node(args, "limit", 3) {
            Some(n) => n,
            None => {
                return;
            },
        };
        let s = match find_arg_node(args, "stop", 4) {
            Some(n) => n,
            None => {
                return;
            },
        };
        let lv = match eval_numeric_constant(cx.tree, cx.text, l) {
            Some(v) => v,
            None => {
                return;
            },
        };
        let sv = match eval_numeric_constant(cx.tree, cx.text, s) {
            Some(v) => v,
            None => {
                return;
            },
        };
        if chars_are(&dir, "strategy.long") && lv.less_than(&sv) {
            report_at(&mut self.diagnostics, cx, l, Severity::Hint, DiagnosticCode::Logic,
                "Long entry limit is below stop; check limit/stop ordering");
        } else if chars_are(&dir, "strategy.short") && sv.less_than(&lv) {
            report_at(&mut self.diagnostics, cx, l, Severity::Hint, DiagnosticCode::Logic,
                "Short entry limit is above stop; check limit/stop ordering");
        }
    }

    /// Reports a `strategy.exit` profit that is not positive or a loss that is not negative.
    pub fn check_strategy_exit_profit_loss(&mut self, cx: &Source, name: &Vec<char>, args: &Vec<CallArg>)
        requires
            old(self).wf(),
            cx.wf(),
            args_ok(*cx.tree, args@),
        ensures
            final(self).wf(),
            Analyzer::same_state(*old(self), *final(self)),
            diags_view(final(self).diagnostics@) == diags_view(old(self).diagnostics@) + profit_loss_diags(*cx, name@, args@),
    {
        if !chars_are(name, "strategy.exit") || !cx.settings.enable_strategy_exit_profit_loss_validation {
            return;
        }
        let ghost d0 = diags_view(self.diagnostics@);
        self.check_nonpositive(cx, find_arg_node(args, "profit", 4), "strategy.exit profit should be > 0");
        match find_arg_node(args, "loss", 6) {
            Some(n) => match eval_numeric_constant(cx.tree, cx.text, n) {
                Some(v) => {
                    if !v.is_negative() {
                        report_at(&mut self.diagnostics, cx, n, Severity::Hint, DiagnosticCode::Logic,
                            "strategy.exit loss should be < 0");
                    }
                },
                None => {},
            },
            None => {},
        }
        assert(diags_view(self.diagnostics@) =~= d0 + profit_loss_diags(*cx, name@, args@));
    }

    /// Checks the trailing-stop arguments of `strategy.exit`.
    #[verifier::rlimit(40)]
    pub fn check_strategy_trail(&mut self, cx: &Source, name: &Vec<char>, args: &Vec<CallArg>)
        requires
            old(self).wf(),
            cx.wf(),
            args_ok(*cx.tree, args@),
        ensures
            final(self).wf(),
            Analyzer::same_state(*old(self), *final(self)),
            diags_view(final(self).diagnostics@) == diags_view(old(self).diagnostics@) + trail_diags(*cx, name@, args@),
    {
        if !chars_are(name, "strategy.exit") || !cx.settings.enable_strategy_trailing_validation {
            return;
        }
        let ghost d0 = diags_view(self.diagnostics@);
        let tp = find_arg_node(args, "trail_price", 8);
        let tpts = find_arg_node(args, "trail_points", 9);
        let toff = find_arg_node(args, "trail_offset", 10);
        match (tp, tpts) {
            (Some(p), Some(_)) => {
                report_at(&mut self.diagnostics, cx, p, Severity::Hint, DiagnosticCode::Logic,
                    "Specify either trail_price or trail_points, not both");
            },
            _ => {},
        }
        let ghost d1 = diags_view(self.diagnostics@);
        match (toff, tp, tpts) {
            (Some(o), None, None) => {
                report_at(&mut self.diagnostics, cx, o, Severity::Hint, DiagnosticCode::Logic,
                    "trail_offset requires trail_price or trail_points");
            },
            _ => {},
        }
        let ghost d2 = diags_view(self.diagnostics@);
        self.check_nonpositive(cx, tp, "trail_price should be > 0");
        let ghost d3 = diags_view(self.diagnostics@);
        self.check_nonpositive(cx, tpts, "trail_points should be > 0");
        let ghost d4 = diags_view(self.diagnostics@);
        self.check_nonpositive(cx, toff, "trail_offset should be > 0");
        assert(diags_view(self.diagnostics@) =~= d0 + trail_diags(*cx, name@, args@));
    }

    /// Reports `strategy.close` and `strategy.exit` calls that name an entry
    /// id no entry call has used.
    pub fn check_strategy_position_management(&mut self, cx: &Source, name: &Vec<char>, args: &Vec<CallArg>)
        requires
            old(self).wf(),
            cx.wf(),
            args_ok(*cx.tree, args@),
        ensures
            final(self).wf(),
            Analyzer::same_state(*old(self), *final(self)),
            diags_view(final(self).diagnostics@) == diags_view(old(self).diagnostics@) + position_management_diags(*old(self), *cx, name@, args@),
    {
        let (node, label) = if chars_are(name, "strategy.close") {
            (find_arg_node(args, "id", 0), "strategy.close references `")
        } else if chars_are(name, "strategy.exit") {
            (find_arg_node(args, "from_entry", 1), "strategy.exit references `")
        } else {
            return;
        };
        let n = match node {
            Some(n) => n,
            None => {
                return;
            },
        };
        let id = match eval_string_constant(cx.tree, cx.text, n) {
            Some(v) => v,
            None => {
                return;
            },
        };
        if !self.strategy_entry_ids.contains_key(&id) {
            let msg = wrap_chars(label, &id, "` without a matching entry id");
            let range = range_for_node(cx, n);
            report_chars(&mut self.diagnostics, cx, range, Severity::Hint, DiagnosticCode::Logic, &msg);
        }
    }

    /// Reports a `strategy.closedtrades.*` index that is negative or very large.
    pub fn check_closedtrades_index(&mut self, cx: &Source, name: &Vec<char>, args: &Vec<CallArg>)
        requires
            old(self).wf(),
            cx.wf(),
            args_ok(*cx.tree, args@),
        ensures
            final(self).wf(),
            Analyzer::same_state(*old(self), *final(self)),
            diags_view(final(self).diagnostics@) == diags_view(old(self).diagnostics@) + closedtrades_diags(*cx, name@, args@),
    {
        if !starts_with_lit(name, "strategy.closedtrades.") {
            return;
        }
        let n = match find_arg_node(args, "trade_num", 0) {
            Some(n) => n,
            None => {
                return;
            },
        };
        let v = match eval_numeric_constant(cx.tree, cx.text, n) {
            Some(v) => v,
            None => {
                return;
            },
        };
        if v.is_negative() {
            report_at(&mut self.diagnostics, cx, n, Severity::Hint, DiagnosticCode::Logic,
                "strategy.closedtrades index is negative");
        } else if !v.less_than(&Num::from_int(1000)) {
            report_at(&mut self.diagnostics, cx, n, Severity::Hint, DiagnosticCode::Logic,
                "strategy.closedtrades index may exceed available trades");
        }
    }
}

} // verus!
