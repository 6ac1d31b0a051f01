//! The settings of a `strategy` declaration and the checks that depend on
//! what earlier strategy calls did: order ids, directions, OCA groups, and
//! order calls outside conditions.

use vstd::prelude::*;

use crate::analysis::{Analyzer, ConditionContext, DiagView, DiagnosticCode, Severity, Source, diag, diag_at, diags_view, node_range, lemma_reports_grow_auto};
use crate::analysis::args::{CallArg, args_ok, arg_by_name, arg_node, find_arg_node, find_call_arg_by_name};
use crate::analysis::checks::orders::is_entry_call;
use crate::analysis::checks::request::{name_or_string, name_or_string_of, name_value, name_value_of};
use crate::analysis::checks::ta::value_of;
use crate::analysis::diag::{range_for_node, report, report_at, report_chars};
use crate::analysis::eval::{
    eval_numeric_constant, eval_string_constant, expr_has_barstate_flag, expr_has_close_zero, has_barstate_flag,
    has_close_zero, node_ok, num_const, string_const,
};
use crate::fmt::{push_chars, push_str, wrap_chars};
use crate::name_map::NameMap;
use crate::num::{Num, Ratio, rat_lt, rat_round};
use crate::position::Range;
use crate::text::{chars_are, chars_eq, chars_of};

verus! {

broadcast use lemma_reports_grow_auto;

/// What `check_strategy_default_qty_value` reports from the strategy settings held.
pub open spec fn default_qty_diags(a: Analyzer, cx: Source) -> Seq<DiagView> {
    if !cx.settings.enable_strategy_position_size_validation {
        Seq::empty()
    } else {
        match (a.strategy_default_qty_value, a.strategy_default_qty_value_range) {
            (Some(v), Some(r)) => if !v.is_positive() {
                seq![diag(cx, r, Severity::Hint, DiagnosticCode::Logic, "default_qty_value should be > 0"@)]
            } else if a.strategy_default_qty_type matches Some(t) && t@ == "strategy.percent_of_equity"@ {
                if rat_lt(cx.settings.strategy_position_percent_max.pair(), v.pair()) {
                    seq![diag(cx, r, Severity::Hint, DiagnosticCode::Logic, "default_qty_value exceeds percent-of-equity limit"@)]
                } else {
                    Seq::empty()
                }
            } else if (a.strategy_default_qty_type matches Some(t) && t@ == "strategy.cash"@)
                && (a.strategy_initial_capital matches Some(c) && rat_lt(c.pair(), v.pair())) {
                seq![diag(cx, r, Severity::Hint, DiagnosticCode::Logic, "default_qty_value exceeds initial_capital"@)]
            } else {
                Seq::empty()
            },
            _ => Seq::empty(),
        }
    }
}

/// The report on a constant `initial_capital` that is not positive.
pub open spec fn capital_diags(cx: Source, args: Seq<CallArg>) -> Seq<DiagView> {
    let n = arg_by_name(args, "initial_capital"@);
    match value_of(cx, n) {
        Some(v) => if v.0 <= 0 && cx.settings.enable_strategy_position_size_validation {
            seq![diag_at(cx, n->0, Severity::Hint, DiagnosticCode::Logic, "initial_capital should be > 0"@)]
        } else {
            Seq::empty()
        },
        None => Seq::empty(),
    }
}

/// The reports on a constant cost argument: negative, or above `threshold`.
pub open spec fn cost_diags(cx: Source, n: Option<int>, threshold: (int, int), negative: Seq<char>, high: Seq<char>) -> Seq<DiagView> {
    match value_of(cx, n) {
        Some(v) => if v.0 < 0 {
            seq![diag_at(cx, n->0, Severity::Hint, DiagnosticCode::Logic, negative)]
        } else if rat_lt(threshold, v) {
            seq![diag_at(cx, n->0, Severity::Hint, DiagnosticCode::Logic, high)]
        } else {
            Seq::empty()
        },
        None => Seq::empty(),
    }
}

/// The reports on `commission_value` and `slippage`.
pub open spec fn commission_diags(cx: Source, args: Seq<CallArg>) -> Seq<DiagView> {
    if !cx.settings.enable_strategy_commission_slippage_validation {
        Seq::empty()
    } else {
        cost_diags(cx, arg_by_name(args, "commission_value"@), cx.settings.commission_warn_threshold.pair(),
            "commission_value should be >= 0"@, "commission_value is unusually high"@)
            + cost_diags(cx, arg_by_name(args, "slippage"@), cx.settings.slippage_warn_threshold.pair(),
            "slippage should be >= 0"@, "slippage is unusually large"@)
    }
}

/// `strategy_pyramiding` after a `strategy` declaration.
pub open spec fn pyramiding_after(a: Analyzer, cx: Source, args: Seq<CallArg>) -> Option<i64> {
    match value_of(cx, arg_by_name(args, "pyramiding"@)) {
        Some(v) => if v.0 >= 0 {
            Some(rat_round(v) as i64)
        } else {
            a.strategy_pyramiding
        },
        None => a.strategy_pyramiding,
    }
}

/// The message on a repeated order id.
pub open spec fn order_id_diags(a: Analyzer, cx: Source, n: int, id: Seq<char>) -> Seq<DiagView> {
    if a.strategy_order_ids@.contains_key(id) {
        seq![
            diag_at(cx, n, Severity::Hint, DiagnosticCode::Logic, "Duplicate strategy order id `"@ + id + "`"@),
            diag(cx, a.strategy_order_ids@[id], Severity::Information, DiagnosticCode::Logic, "Previous `"@ + id + "` order id usage here"@),
        ]
    } else {
        Seq::empty()
    }
}

/// The order id of an entry call: its `id` argument when it is a string constant.
pub open spec fn entry_id(cx: Source, name: Seq<char>, args: Seq<CallArg>) -> Option<(int, Seq<char>)> {
    if !is_entry_call(name) {
        None
    } else {
        match arg_node(args, "id"@, 0) {
            Some(n) => match string_const(*cx.tree, cx.text@, n) {
                Some(id) => Some((n, id)),
                None => None,
            },
            None => None,
        }
    }
}

/// The direction of an entry call that `check_strategy_direction_conflict` records.
pub open spec fn entry_direction(cx: Source, name: Seq<char>, args: Seq<CallArg>) -> Option<Seq<char>> {
    if !cx.settings.enable_strategy_direction_conflict || !is_entry_call(name) {
        None
    } else {
        match arg_node(args, "direction"@, 1) {
            Some(n) => match name_value(cx, n) {
                Some(d) => if d == "strategy.long"@ || d == "strategy.short"@ {
                    Some(d)
                } else {
                    None
                },
                None => None,
            },
            None => None,
        }
    }
}

/// The OCA group and type of an entry call that `check_strategy_oca_conflicts` looks at.
pub open spec fn oca_of(cx: Source, name: Seq<char>, args: Seq<CallArg>) -> Option<(int, Seq<char>, Seq<char>)> {
    if !is_entry_call(name) || !cx.settings.enable_strategy_oca_conflicts {
        None
    } else {
        match arg_node(args, "oca_name"@, 5) {
            Some(n) => match string_const(*cx.tree, cx.text@, n) {
                Some(group) => match arg_node(args, "oca_type"@, 6) {
                    Some(tn) => match name_or_string(cx, tn) {
                        Some(ty) => Some((n, group, ty)),
                        None => None,
                    },
                    None => None,
                },
                None => None,
            },
            None => None,
        }
    }
}

/// What `check_strategy_call_logic` reports.
pub open spec fn call_logic_diags(a: Analyzer, cx: Source, name: Seq<char>, args: Seq<CallArg>, call_range: Range) -> Seq<DiagView> {
    if !(is_entry_call(name) || name == "strategy.exit"@ || name == "strategy.close"@) {
        Seq::empty()
    } else {
        match arg_by_name(args, "when"@) {
            Some(w) => (if has_close_zero(*cx.tree, cx.text@, w) {
                seq![diag_at(cx, w, Severity::Hint, DiagnosticCode::Logic, "Strategy condition uses unshifted `close`; consider `close[1]` for confirmed bars"@)]
            } else {
                Seq::empty()
            }) + (if has_barstate_flag(*cx.tree, cx.text@, w) {
                seq![diag_at(cx, w, Severity::Hint, DiagnosticCode::Logic, "Verify barstate.isconfirmed/islast usage; behavior differs on historical bars"@)]
            } else {
                Seq::empty()
            }),
            None => if a.condition_stack@.len() > 0 {
                Seq::empty()
            } else {
                seq![diag(cx, call_range, Severity::Hint, DiagnosticCode::Logic, "Strategy call executes every bar; verify condition"@)]
            },
        }
    }
}

/// What `finalize_condition_context` reports for a closed branch.
pub open spec fn condition_context_diags(cx: Source, c: ConditionContext) -> Seq<DiagView> {
    (if c.strategy_entry && c.strategy_exit {
        seq![diag(cx, c.range, Severity::Hint, DiagnosticCode::Logic, "Strategy entry and exit triggered in the same condition; may execute on the same bar"@)]
    } else {
        Seq::empty()
    }) + (if (c.strategy_entry || c.strategy_exit) && c.condition_has_close_zero {
        seq![diag(cx, c.range, Severity::Hint, DiagnosticCode::Logic, "Strategy condition uses unshifted `close`; consider `close[1]` for confirmed bars"@)]
    } else {
        Seq::empty()
    })
}

/// `initial_capital` after a `strategy` declaration (`a` before, `b` after):
/// a positive constant is held with where it was given.
pub open spec fn capital_after(a: Analyzer, b: Analyzer, cx: Source, args: Seq<CallArg>) -> bool {
    let cap = value_of(cx, arg_by_name(args, "initial_capital"@));
    if cap is Some && (cap->0).0 > 0 {
        &&& b.strategy_initial_capital matches Some(c) && c.pair() == cap->0
        &&& b.strategy_initial_capital_range == Some(node_range(cx, arg_by_name(args, "initial_capital"@)->0))
    } else {
        &&& b.strategy_initial_capital == a.strategy_initial_capital
        &&& b.strategy_initial_capital_range == a.strategy_initial_capital_range
    }
}

/// `default_qty_type` and `default_qty_value` after a `strategy` declaration.
pub open spec fn default_qty_after(a: Analyzer, b: Analyzer, cx: Source, args: Seq<CallArg>) -> bool {
    let qty_type = arg_by_name(args, "default_qty_type"@);
    let qty_value = value_of(cx, arg_by_name(args, "default_qty_value"@));
    &&& match qty_type {
        Some(n) => {
            &&& b.strategy_default_qty_type_range == Some(node_range(cx, n))
            &&& match name_or_string(cx, n) {
                Some(s) => b.strategy_default_qty_type matches Some(t) && t@ == s,
                None => b.strategy_default_qty_type is None,
            }
        },
        None => {
            &&& b.strategy_default_qty_type == a.strategy_default_qty_type
            &&& b.strategy_default_qty_type_range == a.strategy_default_qty_type_range
        },
    }
    &&& if qty_value is Some {
        &&& b.strategy_default_qty_value matches Some(q) && q.pair() == qty_value->0
        &&& b.strategy_default_qty_value_range == Some(node_range(cx, arg_by_name(args, "default_qty_value"@)->0))
    } else {
        &&& b.strategy_default_qty_value == a.strategy_default_qty_value
        &&& b.strategy_default_qty_value_range == a.strategy_default_qty_value_range
    }
}

/// What `update_strategy_settings` does to the analyzer: `a` before, `b` after.
pub open spec fn update_strategy_settings_effect(a: Analyzer, b: Analyzer, cx: Source, name: Seq<char>, args: Seq<CallArg>, call_range: Range) -> bool {
    &&& name != "strategy"@ ==> b == a
    &&& name == "strategy"@ ==> {
        &&& b == (Analyzer {
            diagnostics: b.diagnostics,
            has_strategy_declaration: true,
            strategy_decl_range: Some(call_range),
            strategy_pyramiding: pyramiding_after(a, cx, args),
            strategy_initial_capital: b.strategy_initial_capital,
            strategy_initial_capital_range: b.strategy_initial_capital_range,
            strategy_default_qty_type: b.strategy_default_qty_type,
            strategy_default_qty_type_range: b.strategy_default_qty_type_range,
            strategy_default_qty_value: b.strategy_default_qty_value,
            strategy_default_qty_value_range: b.strategy_default_qty_value_range,
            ..a
        })
        &&& capital_after(a, b, cx, args)
        &&& default_qty_after(a, b, cx, args)
        &&& diags_view(b.diagnostics@) =~= diags_view(a.diagnostics@) + (capital_diags(cx, args)
            + default_qty_diags(b, cx) + commission_diags(cx, args))
    }
}

impl Analyzer {
    /// Reports a `default_qty_value` that is not positive or exceeds what the
    /// quantity type allows.
    pub fn check_strategy_default_qty_value(&mut self, cx: &Source)
        requires
            old(self).wf(),
            cx.wf(),
        ensures
            final(self).wf(),
            Analyzer::same_state(*old(self), *final(self)),
            diags_view(final(self).diagnostics@) == diags_view(old(self).diagnostics@) + default_qty_diags(*old(self), *cx),
    {
        if !cx.settings.enable_strategy_position_size_validation {
            return;
        }
        let (v, r) = match (&self.strategy_default_qty_value, self.strategy_default_qty_value_range) {
            (Some(v), Some(r)) => (v.duplicate(), r),
            _ => {
                return;
            },
        };
        if !v.is_positive() {
            report(&mut self.diagnostics, cx, r, Severity::Hint, DiagnosticCode::Logic, "default_qty_value should be > 0");
            return;
        }
        let (is_percent, is_cash) = match &self.strategy_default_qty_type {
            Some(t) => (chars_are(t, "strategy.percent_of_equity"), chars_are(t, "strategy.cash")),
            None => (false, false),
        };
        if is_percent {
            if cx.settings.strategy_position_percent_max.to_num().less_than(&v) {
                report(&mut self.diagnostics, cx, r, Severity::Hint, DiagnosticCode::Logic,
                    "default_qty_value exceeds percent-of-equity limit");
            }
            return;
        }
        if is_cash {
            match &self.strategy_initial_capital {
                Some(c) => {
                    if c.less_than(&v) {
                        report(&mut self.diagnostics, cx, r, Severity::Hint, DiagnosticCode::Logic,
                            "default_qty_value exceeds initial_capital");
                    }
                },
                None => {},
            }
        }
    }

    fn check_cost(&mut self, cx: &Source, n: Option<usize>, threshold: Ratio, negative: &str, high: &str)
        requires
            old(self).wf(),
            cx.wf(),
            threshold.wf(),
            n matches Some(node) ==> node_ok(*cx.tree, node as int),
        ensures
            final(self).wf(),
            Analyzer::same_state(*old(self), *final(self)),
            diags_view(final(self).diagnostics@) == diags_view(old(self).diagnostics@) + cost_diags(*cx,
                match n { Some(node) => Some(node as int), None => None }, threshold.pair(), negative@, high@),
    {
        let node = match n {
            Some(node) => node,
            None => {
                return;
            },
        };
        match eval_numeric_constant(cx.tree, cx.text, node) {
            Some(v) => {
                if v.is_negative() {
                    report_at(&mut self.diagnostics, cx, node, Severity::Hint, DiagnosticCode::Logic, negative);
                } else if threshold.to_num().less_than(&v) {
                    report_at(&mut self.diagnostics, cx, node, Severity::Hint, DiagnosticCode::Logic, high);
                }
            },
            None => {},
        }
    }

    fn record_pyramiding(&mut self, cx: &Source, args: &Vec<CallArg>)
        requires
            old(self).wf(),
            cx.wf(),
            args_ok(*cx.tree, args@),
        ensures
            *final(self) == (Analyzer { strategy_pyramiding: pyramiding_after(*old(self), *cx, args@), ..*old(self) }),
    {
        match find_call_arg_by_name(args, "pyramiding") {
            Some(n) => match eval_numeric_constant(cx.tree, cx.text, n) {
                Some(v) => {
                    if !v.is_negative() {
                        self.strategy_pyramiding = Some(v.round());
                    }
                },
                None => {},
            },
            None => {},
        }
    }

    fn record_initial_capital(&mut self, cx: &Source, args: &Vec<CallArg>)
        requires
            old(self).wf(),
            cx.wf(),
            args_ok(*cx.tree, args@),
        ensures
            final(self).wf(),
            *final(self) == (Analyzer {
                diagnostics: final(self).diagnostics,
                strategy_initial_capital: final(self).strategy_initial_capital,
                strategy_initial_capital_range: final(self).strategy_initial_capital_range,
                ..*old(self)
            }),
            capital_after(*old(self), *final(self), *cx, args@),
            diags_view(final(self).diagnostics@) == diags_view(old(self).diagnostics@) + capital_diags(*cx, args@),
    {
        match find_call_arg_by_name(args, "initial_capital") {
            Some(n) => match eval_numeric_constant(cx.tree, cx.text, n) {
                Some(v) => {
                    if v.is_positive() {
                        self.strategy_initial_capital = Some(v);
                        self.strategy_initial_capital_range = Some(range_for_node(cx, n));
                    } else if cx.settings.enable_strategy_position_size_validation {
                        report_at(&mut self.diagnostics, cx, n, Severity::Hint, DiagnosticCode::Logic,
                            "initial_capital should be > 0");
                    }
                },
                None => {},
            },
            None => {},
        }
    }

    fn record_default_qty(&mut self, cx: &Source, args: &Vec<CallArg>)
        requires
            old(self).wf(),
            cx.wf(),
            args_ok(*cx.tree, args@),
        ensures
            final(self).wf(),
            *final(self) == (Analyzer {
                strategy_default_qty_type: final(self).strategy_default_qty_type,
                strategy_default_qty_type_range: final(self).strategy_default_qty_type_range,
                strategy_default_qty_value: final(self).strategy_default_qty_value,
                strategy_default_qty_value_range: final(self).strategy_default_qty_value_range,
                ..*old(self)
            }),
            default_qty_after(*old(self), *final(self), *cx, args@),
    {
        match find_call_arg_by_name(args, "default_qty_type") {
            Some(n) => {
                self.strategy_default_qty_type = name_or_string_of(cx, n);
                self.strategy_default_qty_type_range = Some(range_for_node(cx, n));
            },
            None => {},
        }
        match find_call_arg_by_name(args, "default_qty_value") {
            Some(n) => match eval_numeric_constant(cx.tree, cx.text, n) {
                Some(v) => {
                    self.strategy_default_qty_value = Some(v);
                    self.strategy_default_qty_value_range = Some(range_for_node(cx, n));
                },
                None => {},
            },
            None => {},
        }
    }

    /// Records the settings of a `strategy` declaration and checks them.
    #[verifier::rlimit(100)]
    pub fn update_strategy_settings(&mut self, cx: &Source, name: &Vec<char>, args: &Vec<CallArg>, call_range: Range)
        requires
            old(self).wf(),
            cx.wf(),
            args_ok(*cx.tree, args@),
        ensures
            final(self).wf(),
            update_strategy_settings_effect(*old(self), *final(self), *cx, name@, args@, call_range),
    {
        if !chars_are(name, "strategy") {
            return;
        }
        let ghost a = *self;
        let ghost d0 = diags_view(self.diagnostics@);
        self.has_strategy_declaration = true;
        self.strategy_decl_range = Some(call_range);
        self.record_pyramiding(cx, args);
        let ghost a1 = *self;
        self.record_initial_capital(cx, args);
        let ghost a2 = *self;
        let ghost d1 = diags_view(self.diagnostics@);
        self.record_default_qty(cx, args);
        let ghost mid = *self;
        assert(capital_after(a, mid, *cx, args@));
        assert(default_qty_after(a, mid, *cx, args@));
        self.check_strategy_default_qty_value(cx);
        let ghost d2 = diags_view(self.diagnostics@);
        assert(default_qty_diags(mid, *cx) == default_qty_diags(*self, *cx));
        if !cx.settings.enable_strategy_commission_slippage_validation {
            assert(diags_view(self.diagnostics@) =~= d0 + (capital_diags(*cx, args@) + default_qty_diags(*self, *cx) + commission_diags(*cx, args@)));
            return;
        }
        self.check_cost(cx, find_call_arg_by_name(args, "commission_value"), cx.settings.commission_warn_threshold,
            "commission_value should be >= 0", "commission_value is unusually high");
        self.check_cost(cx, find_call_arg_by_name(args, "slippage"), cx.settings.slippage_warn_threshold,
            "slippage should be >= 0", "slippage is unusually large");
        assert(diags_view(self.diagnostics@) =~= d0 + (capital_diags(*cx, args@) + default_qty_diags(*self, *cx) + commission_diags(*cx, args@)));
    }
}


/// What `record_strategy_order_id` does to the analyzer: `a` before, `b` after.
pub open spec fn record_strategy_order_id_effect(a: Analyzer, b: Analyzer, cx: Source, name: Seq<char>, args: Seq<CallArg>, call_range: Range) -> bool {
    &&& match entry_id(cx, name, args) {
        Some((n, id)) => {
            let count = if a.strategy_entry_count < usize::MAX {
                a.strategy_entry_count + 1
            } else {
                a.strategy_entry_count as int
            };
            let hint = count > 1 && (match a.strategy_pyramiding { Some(p) => p == 0, None => true })
                && !a.reported_pyramiding_hint;
            &&& b == (Analyzer {
                diagnostics: b.diagnostics,
                strategy_order_ids: b.strategy_order_ids,
                strategy_entry_ids: b.strategy_entry_ids,
                strategy_entry_count: count as usize,
                reported_pyramiding_hint: a.reported_pyramiding_hint || hint,
                ..a
            })
            &&& b.strategy_order_ids@ =~= (if a.strategy_order_ids@.contains_key(id) {
                a.strategy_order_ids@
            } else {
                a.strategy_order_ids@.insert(id, node_range(cx, n))
            })
            &&& b.strategy_entry_ids@ =~= a.strategy_entry_ids@.insert(id, ())
            &&& diags_view(b.diagnostics@) =~= diags_view(a.diagnostics@)
                + (order_id_diags(a, cx, n, id) + if hint {
                seq![diag(cx, match a.strategy_decl_range { Some(r) => r, None => call_range },
                    Severity::Hint, DiagnosticCode::Logic, "Multiple strategy entries without pyramiding configuration"@)]
            } else {
                Seq::<DiagView>::empty()
            })
        },
        None => b == a,
    }
}

/// What `check_strategy_direction_conflict` does to the analyzer: `a` before, `b` after.
pub open spec fn check_strategy_direction_conflict_effect(a: Analyzer, b: Analyzer, cx: Source, name: Seq<char>, args: Seq<CallArg>, call_range: Range) -> bool {
    &&& match entry_direction(cx, name, args) {
        Some(d) => {
            let dirs = a.strategy_entry_directions@.insert(d, ());
            let hint = !a.reported_direction_conflict && dirs.contains_key("strategy.long"@)
                && dirs.contains_key("strategy.short"@)
                && (match a.strategy_pyramiding { Some(p) => p == 0, None => true });
            &&& b == (Analyzer {
                diagnostics: b.diagnostics,
                strategy_entry_directions: b.strategy_entry_directions,
                reported_direction_conflict: a.reported_direction_conflict || hint,
                ..a
            })
            &&& b.strategy_entry_directions@ =~= dirs
            &&& diags_view(b.diagnostics@) =~= diags_view(a.diagnostics@) + if hint {
                seq![diag(cx, match a.strategy_decl_range { Some(r) => r, None => call_range },
                    Severity::Hint, DiagnosticCode::Logic, "Strategy uses both long and short entries without pyramiding configuration"@)]
            } else {
                Seq::<DiagView>::empty()
            }
        },
        None => b == a,
    }
}

/// What `check_strategy_oca_conflicts` does to the analyzer: `a` before, `b` after.
pub open spec fn check_strategy_oca_conflicts_effect(a: Analyzer, b: Analyzer, cx: Source, name: Seq<char>, args: Seq<CallArg>) -> bool {
    &&& b == (Analyzer {
        diagnostics: b.diagnostics,
        oca_groups: b.oca_groups,
        ..a
    })
    &&& match oca_of(cx, name, args) {
        Some((n, group, ty)) => if a.oca_groups@.contains_key(group) {
            let prev = a.oca_groups@[group];
            &&& b.oca_groups@ =~= a.oca_groups@
            &&& diags_view(b.diagnostics@) =~= diags_view(a.diagnostics@) + if prev.0@ != ty {
                seq![
                    diag_at(cx, n, Severity::Hint, DiagnosticCode::Logic, "OCA group `"@ + group + "` uses multiple types (`"@ + prev.0@ + "` vs `"@ + ty + "`)"@),
                    diag(cx, prev.1, Severity::Information, DiagnosticCode::Logic, "Previous `"@ + prev.0@ + "` OCA type here"@),
                ]
            } else {
                Seq::<DiagView>::empty()
            }
        } else {
            &&& b.diagnostics@ =~= a.diagnostics@
            &&& b.oca_groups@.dom() =~= a.oca_groups@.dom().insert(group)
            &&& b.oca_groups@[group].0@ == ty
            &&& b.oca_groups@[group].1 == node_range(cx, n)
            &&& forall|k: Seq<char>| k != group && a.oca_groups@.contains_key(k)
                ==> b.oca_groups@[k] == a.oca_groups@[k]
        },
        None => b == a,
    }
}

impl Analyzer {
    /// Records the order id of an entry call, reports an id used before, and
    /// hints once at several entries without pyramiding.
    pub fn record_strategy_order_id(&mut self, cx: &Source, name: &Vec<char>, args: &Vec<CallArg>, call_range: Range)
        requires
            old(self).wf(),
            cx.wf(),
            args_ok(*cx.tree, args@),
        ensures
            final(self).wf(),
            record_strategy_order_id_effect(*old(self), *final(self), *cx, name@, args@, call_range),
    {
        if !chars_are(name, "strategy.entry") && !chars_are(name, "strategy.order") {
            return;
        }
        let n = match find_arg_node(args, "id", 0) {
            Some(n) => n,
            None => {
                return;
            },
        };
        let id = match eval_string_constant(cx.tree, cx.text, n) {
            Some(v) => v,
            None => {
                return;
            },
        };
        let ghost d0 = diags_view(self.diagnostics@);
        let previous = match self.strategy_order_ids.get(&id) {
            Some(r) => Some(*r),
            None => None,
        };
        match previous {
            Some(prev) => {
                let msg = wrap_chars("Duplicate strategy order id `", &id, "`");
                let range = range_for_node(cx, n);
                report_chars(&mut self.diagnostics, cx, range, Severity::Hint, DiagnosticCode::Logic, &msg);
                let msg2 = wrap_chars("Previous `", &id, "` order id usage here");
                report_chars(&mut self.diagnostics, cx, prev, Severity::Information, DiagnosticCode::Logic, &msg2);
            },
            None => {
                let range = range_for_node(cx, n);
                self.strategy_order_ids.insert(id.clone(), range);
            },
        }
        let ghost d1 = diags_view(self.diagnostics@);
        self.strategy_entry_ids.insert(id, ());
        if self.strategy_entry_count < usize::MAX {
            self.strategy_entry_count = self.strategy_entry_count + 1;
        }
        let no_pyramiding = match self.strategy_pyramiding {
            Some(p) => p == 0,
            None => true,
        };
        if self.strategy_entry_count > 1 && no_pyramiding && !self.reported_pyramiding_hint {
            let range = match self.strategy_decl_range {
                Some(r) => r,
                None => call_range,
            };
            report(&mut self.diagnostics, cx, range, Severity::Hint, DiagnosticCode::Logic,
                "Multiple strategy entries without pyramiding configuration");
            self.reported_pyramiding_hint = true;
        }
    }

    /// Records the direction of an entry call, and hints once at long and
    /// short entries without pyramiding.
    pub fn check_strategy_direction_conflict(&mut self, cx: &Source, name: &Vec<char>, args: &Vec<CallArg>, call_range: Range)
        requires
            old(self).wf(),
            cx.wf(),
            args_ok(*cx.tree, args@),
        ensures
            final(self).wf(),
            check_strategy_direction_conflict_effect(*old(self), *final(self), *cx, name@, args@, call_range),
    {
        if !cx.settings.enable_strategy_direction_conflict {
            return;
        }
        if !chars_are(name, "strategy.entry") && !chars_are(name, "strategy.order") {
            return;
        }
        let n = match find_arg_node(args, "direction", 1) {
            Some(n) => n,
            None => {
                return;
            },
        };
        let d = match name_value_of(cx, n) {
            Some(d) => d,
            None => {
                return;
            },
        };
        if !chars_are(&d, "strategy.long") && !chars_are(&d, "strategy.short") {
            return;
        }
        self.strategy_entry_directions.insert(d, ());
        if self.reported_direction_conflict {
            return;
        }
        let long = chars_of("strategy.long");
        let short = chars_of("strategy.short");
        let no_pyramiding = match self.strategy_pyramiding {
            Some(p) => p == 0,
            None => true,
        };
        if self.strategy_entry_directions.contains_key(&long) && self.strategy_entry_directions.contains_key(&short)
            && no_pyramiding {
            let range = match self.strategy_decl_range {
                Some(r) => r,
                None => call_range,
            };
            report(&mut self.diagnostics, cx, range, Severity::Hint, DiagnosticCode::Logic,
                "Strategy uses both long and short entries without pyramiding configuration");
            self.reported_direction_conflict = true;
        }
    }

    /// Reports an OCA group used with two different types, and remembers the
    /// type each group was first used with.
    pub fn check_strategy_oca_conflicts(&mut self, cx: &Source, name: &Vec<char>, args: &Vec<CallArg>)
        requires
            old(self).wf(),
            cx.wf(),
            args_ok(*cx.tree, args@),
        ensures
            final(self).wf(),
            check_strategy_oca_conflicts_effect(*old(self), *final(self), *cx, name@, args@),
    {
        if !chars_are(name, "strategy.entry") && !chars_are(name, "strategy.order") {
            return;
        }
        if !cx.settings.enable_strategy_oca_conflicts {
            return;
        }
        let n = match find_arg_node(args, "oca_name", 5) {
            Some(n) => n,
            None => {
                return;
            },
        };
        let group = match eval_string_constant(cx.tree, cx.text, n) {
            Some(g) => g,
            None => {
                return;
            },
        };
        let tn = match find_arg_node(args, "oca_type", 6) {
            Some(n) => n,
            None => {
                return;
            },
        };
        let ty = match name_or_string_of(cx, tn) {
            Some(t) => t,
            None => {
                return;
            },
        };
        let previous = match self.oca_groups.get(&group) {
            Some(p) => Some((p.0.clone(), p.1)),
            None => None,
        };
        match previous {
            Some((prev_type, prev_range)) => {
                if !chars_eq(&prev_type, &ty) {
                    let mut msg = wrap_chars("OCA group `", &group, "` uses multiple types (`");
                    push_chars(&mut msg, &prev_type);
                    push_str(&mut msg, "` vs `");
                    push_chars(&mut msg, &ty);
                    push_str(&mut msg, "`)");
                    let range = range_for_node(cx, n);
                    report_chars(&mut self.diagnostics, cx, range, Severity::Hint, DiagnosticCode::Logic, &msg);
                    let msg2 = wrap_chars("Previous `", &prev_type, "` OCA type here");
                    report_chars(&mut self.diagnostics, cx, prev_range, Severity::Information, DiagnosticCode::Logic, &msg2);
                }
            },
            None => {
                let range = range_for_node(cx, n);
                self.oca_groups.insert(group, (ty, range));
            },
        }
    }

    /// Checks the `when` condition of a strategy order call, or hints at an
    /// order call outside any condition.
    pub fn check_strategy_call_logic(&mut self, cx: &Source, name: &Vec<char>, args: &Vec<CallArg>, call_range: Range)
        requires
            old(self).wf(),
            cx.wf(),
            args_ok(*cx.tree, args@),
        ensures
            final(self).wf(),
            Analyzer::same_state(*old(self), *final(self)),
            diags_view(final(self).diagnostics@) == diags_view(old(self).diagnostics@) + call_logic_diags(*old(self), *cx, name@, args@, call_range),
    {
        let is_call = chars_are(name, "strategy.entry") || chars_are(name, "strategy.order")
            || chars_are(name, "strategy.exit") || chars_are(name, "strategy.close");
        if !is_call {
            return;
        }
        match find_call_arg_by_name(args, "when") {
            Some(w) => {
                let ghost d0 = diags_view(self.diagnostics@);
                if expr_has_close_zero(cx.tree, cx.text, w) {
                    report_at(&mut self.diagnostics, cx, w, Severity::Hint, DiagnosticCode::Logic,
                        "Strategy condition uses unshifted `close`; consider `close[1]` for confirmed bars");
                }
                if expr_has_barstate_flag(cx.tree, cx.text, w) {
                    report_at(&mut self.diagnostics, cx, w, Severity::Hint, DiagnosticCode::Logic,
                        "Verify barstate.isconfirmed/islast usage; behavior differs on historical bars");
                }
                assert(diags_view(self.diagnostics@) =~= d0 + call_logic_diags(*old(self), *cx, name@, args@, call_range));
            },
            None => {
                if self.condition_stack.len() > 0 {
                    return;
                }
                report(&mut self.diagnostics, cx, call_range, Severity::Hint, DiagnosticCode::Logic,
                    "Strategy call executes every bar; verify condition");
            },
        }
    }

    /// Reports on a closed branch that entered and exited, or traded on unshifted `close`.
    pub fn finalize_condition_context(&mut self, cx: &Source, context: ConditionContext)
        requires
            old(self).wf(),
            cx.wf(),
        ensures
            final(self).wf(),
            Analyzer::same_state(*old(self), *final(self)),
            diags_view(final(self).diagnostics@) == diags_view(old(self).diagnostics@) + condition_context_diags(*cx, context),
    {
        let ghost d0 = diags_view(self.diagnostics@);
        if context.strategy_entry && context.strategy_exit {
            report(&mut self.diagnostics, cx, context.range, Severity::Hint, DiagnosticCode::Logic,
                "Strategy entry and exit triggered in the same condition; may execute on the same bar");
        }
        if (context.strategy_entry || context.strategy_exit) && context.condition_has_close_zero {
            report(&mut self.diagnostics, cx, context.range, Severity::Hint, DiagnosticCode::Logic,
                "Strategy condition uses unshifted `close`; consider `close[1]` for confirmed bars");
        }
        assert(diags_view(self.diagnostics@) =~= d0 + condition_context_diags(*cx, context));
    }
}

/// An OCA group keeps the type it was first given: an entry or order that
/// names a known group reports the conflict, with the earlier type, exactly
/// when its type differs, and leaves the groups as they were; one that
/// names a new group records its type and place and reports nothing.
pub proof fn lemma_oca_group(a: Analyzer, b: Analyzer, cx: Source, name: Seq<char>, args: Seq<CallArg>)
    requires
        check_strategy_oca_conflicts_effect(a, b, cx, name, args),
        oca_of(cx, name, args) is Some,
    ensures
        ({
            let (n, g, t) = oca_of(cx, name, args)->0;
            if a.oca_groups@.contains_key(g) {
                let prev = a.oca_groups@[g];
                &&& b.oca_groups@ == a.oca_groups@
                &&& diags_view(b.diagnostics@) == diags_view(a.diagnostics@) + if prev.0@ != t {
                    seq![
                        diag_at(cx, n, Severity::Hint, DiagnosticCode::Logic, "OCA group `"@ + g + "` uses multiple types (`"@ + prev.0@ + "` vs `"@ + t + "`)"@),
                        diag(cx, prev.1, Severity::Information, DiagnosticCode::Logic, "Previous `"@ + prev.0@ + "` OCA type here"@),
                    ]
                } else {
                    Seq::<DiagView>::empty()
                }
            } else {
                &&& b.diagnostics@ == a.diagnostics@
                &&& b.oca_groups@.contains_key(g)
                &&& b.oca_groups@[g].0@ == t
                &&& b.oca_groups@[g].1 == node_range(cx, n)
            }
        }),
{
}

/// Two entry calls in the same OCA group, the first naming a group not seen
/// before: the second reports the conflict, pointing at the first, exactly
/// when the two types differ.
pub proof fn lemma_oca_two_entries(
    a: Analyzer,
    b: Analyzer,
    c: Analyzer,
    cx: Source,
    name1: Seq<char>,
    args1: Seq<CallArg>,
    name2: Seq<char>,
    args2: Seq<CallArg>,
)
    requires
        check_strategy_oca_conflicts_effect(a, b, cx, name1, args1),
        check_strategy_oca_conflicts_effect(b, c, cx, name2, args2),
        oca_of(cx, name1, args1) matches Some((n1, g1, t1)) && !a.oca_groups@.contains_key(g1),
        oca_of(cx, name2, args2) matches Some((n2, g2, t2)) && g2 == (oca_of(cx, name1, args1)->0).1,
    ensures
        ({
            let (n1, g, t1) = oca_of(cx, name1, args1)->0;
            let (n2, _g2, t2) = oca_of(cx, name2, args2)->0;
            &&& diags_view(b.diagnostics@) == diags_view(a.diagnostics@)
            &&& diags_view(c.diagnostics@) == diags_view(b.diagnostics@) + if t1 != t2 {
                seq![
                    diag_at(cx, n2, Severity::Hint, DiagnosticCode::Logic, "OCA group `"@ + g + "` uses multiple types (`"@ + t1 + "` vs `"@ + t2 + "`)"@),
                    diag(cx, node_range(cx, n1), Severity::Information, DiagnosticCode::Logic, "Previous `"@ + t1 + "` OCA type here"@),
                ]
            } else {
                Seq::<DiagView>::empty()
            }
        }),
{
    lemma_oca_group(a, b, cx, name1, args1);
    let g = (oca_of(cx, name1, args1)->0).1;
    assert(b.oca_groups@.contains_key(g));
    lemma_oca_group(b, c, cx, name2, args2);
}

/// Once the hint on several entries without pyramiding has been given, an
/// entry call adds only the reports on a repeated order id: the hint is
/// given at most once.
pub proof fn lemma_pyramiding_hint_once(a: Analyzer, b: Analyzer, cx: Source, name: Seq<char>, args: Seq<CallArg>, call_range: Range)
    requires
        record_strategy_order_id_effect(a, b, cx, name, args, call_range),
        a.reported_pyramiding_hint,
    ensures
        b.reported_pyramiding_hint,
        diags_view(b.diagnostics@) == diags_view(a.diagnostics@) + match entry_id(cx, name, args) {
            Some((n, id)) => order_id_diags(a, cx, n, id),
            None => Seq::<DiagView>::empty(),
        },
{
}

/// Two entry calls with the same order id: the second reports the repeated
/// id at its own id and points at the first use of the id.
pub proof fn lemma_duplicate_order_id(
    a: Analyzer,
    b: Analyzer,
    c: Analyzer,
    cx: Source,
    name1: Seq<char>,
    args1: Seq<CallArg>,
    r1: Range,
    name2: Seq<char>,
    args2: Seq<CallArg>,
    r2: Range,
)
    requires
        record_strategy_order_id_effect(a, b, cx, name1, args1, r1),
        record_strategy_order_id_effect(b, c, cx, name2, args2, r2),
        entry_id(cx, name1, args1) matches Some((n1, id1)),
        entry_id(cx, name2, args2) matches Some((n2, id2)) && id2 == (entry_id(cx, name1, args1)->0).1,
    ensures
        ({
            let (n1, id) = entry_id(cx, name1, args1)->0;
            let n2 = (entry_id(cx, name2, args2)->0).0;
            let first = if a.strategy_order_ids@.contains_key(id) { a.strategy_order_ids@[id] } else { node_range(cx, n1) };
            let k = diags_view(b.diagnostics@).len() as int;
            &&& diags_view(c.diagnostics@).len() >= k + 2
            &&& diags_view(c.diagnostics@).subrange(k, k + 2) == seq![
                diag_at(cx, n2, Severity::Hint, DiagnosticCode::Logic, "Duplicate strategy order id `"@ + id + "`"@),
                diag(cx, first, Severity::Information, DiagnosticCode::Logic, "Previous `"@ + id + "` order id usage here"@),
            ]
        }),
{
    let (n1, id) = entry_id(cx, name1, args1)->0;
    assert(b.strategy_order_ids@.contains_key(id));
    let d = diags_view(b.diagnostics@);
    let k = d.len() as int;
    let e = diags_view(c.diagnostics@);
    let od = order_id_diags(b, cx, (entry_id(cx, name2, args2)->0).0, id);
    assert(od.len() == 2);
    assert(e.subrange(k, k + 2) =~= od);
}

/// One entry call with a constant order id in a run, from `st[j]` to
/// `st[j + 1]`.
pub open spec fn entry_step(st: Seq<Analyzer>, names: Seq<Seq<char>>, argss: Seq<Seq<CallArg>>, ranges: Seq<Range>, cx: Source, j: int) -> bool {
    &&& record_strategy_order_id_effect(st[j], st[j + 1], cx, names[j], argss[j], ranges[j])
    &&& entry_id(cx, names[j], argss[j]) is Some
}

/// Whether the pyramiding setting asks for the hint: none, or zero.
pub open spec fn no_pyramiding(a: Analyzer) -> bool {
    match a.strategy_pyramiding {
        Some(p) => p == 0,
        None => true,
    }
}

/// Through a run of entry calls from a state with no entries counted and
/// no hint given, the count of entries, the hint flag and the settings
/// the hint depends on after `k` calls.
proof fn lemma_entry_run_state(st: Seq<Analyzer>, names: Seq<Seq<char>>, argss: Seq<Seq<CallArg>>, ranges: Seq<Range>, cx: Source, k: int)
    requires
        st.len() == names.len() + 1,
        argss.len() == names.len(),
        ranges.len() == names.len(),
        names.len() < usize::MAX,
        st[0].strategy_entry_count == 0,
        !st[0].reported_pyramiding_hint,
        no_pyramiding(st[0]),
        forall|j: int| 0 <= j < names.len() ==> #[trigger] entry_step(st, names, argss, ranges, cx, j),
        0 <= k <= names.len(),
    ensures
        st[k].strategy_entry_count == k,
        st[k].reported_pyramiding_hint == (k >= 2),
        st[k].strategy_pyramiding == st[0].strategy_pyramiding,
        st[k].strategy_decl_range == st[0].strategy_decl_range,
    decreases k,
{
    if k > 0 {
        lemma_entry_run_state(st, names, argss, ranges, cx, k - 1);
        assert(entry_step(st, names, argss, ranges, cx, k - 1));
    }
}

/// Through a run of entry calls with constant order ids, from a state with
/// no entries counted, no hint given and no pyramiding: each call reports
/// its repeated order id, if any, with the first use of the id, and the
/// hint on several entries without pyramiding comes once, at the second
/// call, at the strategy declaration (else at that call).
pub proof fn lemma_pyramiding_hint_run(st: Seq<Analyzer>, names: Seq<Seq<char>>, argss: Seq<Seq<CallArg>>, ranges: Seq<Range>, cx: Source)
    requires
        st.len() == names.len() + 1,
        argss.len() == names.len(),
        ranges.len() == names.len(),
        names.len() < usize::MAX,
        st[0].strategy_entry_count == 0,
        !st[0].reported_pyramiding_hint,
        no_pyramiding(st[0]),
        forall|j: int| 0 <= j < names.len() ==> #[trigger] entry_step(st, names, argss, ranges, cx, j),
    ensures
        forall|j: int| 0 <= j < names.len() ==> {
            let (n, id) = entry_id(cx, names[j], argss[j])->0;
            diags_view((#[trigger] st[j + 1]).diagnostics@) == diags_view(st[j].diagnostics@) + (order_id_diags(st[j], cx, n, id)
                + if j == 1 {
                seq![diag(cx, match st[0].strategy_decl_range { Some(r) => r, None => ranges[1] },
                    Severity::Hint, DiagnosticCode::Logic, "Multiple strategy entries without pyramiding configuration"@)]
            } else {
                Seq::<DiagView>::empty()
            })
        },
{
    assert forall|j: int| 0 <= j < names.len() implies {
        let (n, id) = entry_id(cx, names[j], argss[j])->0;
        diags_view((#[trigger] st[j + 1]).diagnostics@) == diags_view(st[j].diagnostics@) + (order_id_diags(st[j], cx, n, id)
            + if j == 1 {
            seq![diag(cx, match st[0].strategy_decl_range { Some(r) => r, None => ranges[1] },
                Severity::Hint, DiagnosticCode::Logic, "Multiple strategy entries without pyramiding configuration"@)]
        } else {
            Seq::<DiagView>::empty()
        })
    } by {
        lemma_entry_run_state(st, names, argss, ranges, cx, j);
        assert(entry_step(st, names, argss, ranges, cx, j));
    }
}

/// A constant cost (commission or slippage) with a positive denominator,
/// against a threshold with a positive denominator: a negative cost is
/// reported as negative, one above the threshold as unusually high, and one
/// from zero up to the threshold is not reported.
pub proof fn lemma_cost_value(cx: Source, n: int, v: (int, int), threshold: (int, int), negative: Seq<char>, high: Seq<char>)
    requires
        num_const(*cx.tree, cx.text@, n) == Some(v),
        v.1 > 0,
        threshold.1 > 0,
    ensures
        v.0 < 0 ==> cost_diags(cx, Some(n), threshold, negative, high) == seq![
            diag_at(cx, n, Severity::Hint, DiagnosticCode::Logic, negative),
        ],
        v.0 >= 0 && threshold.0 * v.1 < v.0 * threshold.1 ==> cost_diags(cx, Some(n), threshold, negative, high) == seq![
            diag_at(cx, n, Severity::Hint, DiagnosticCode::Logic, high),
        ],
        v.0 >= 0 && v.0 * threshold.1 <= threshold.0 * v.1 ==> cost_diags(cx, Some(n), threshold, negative, high)
            == Seq::<DiagView>::empty(),
{
}

/// The `strategy` declaration's `commission_value`, when a constant: the
/// first report on it is the negative or high one of `lemma_cost_value`,
/// with the commission messages.
pub proof fn lemma_commission_value(cx: Source, args: Seq<CallArg>, n: int, v: (int, int))
    requires
        cx.settings.enable_strategy_commission_slippage_validation,
        arg_by_name(args, "commission_value"@) == Some(n),
        num_const(*cx.tree, cx.text@, n) == Some(v),
    ensures
        commission_diags(cx, args) == cost_diags(cx, Some(n), cx.settings.commission_warn_threshold.pair(),
            "commission_value should be >= 0"@, "commission_value is unusually high"@)
            + cost_diags(cx, arg_by_name(args, "slippage"@), cx.settings.slippage_warn_threshold.pair(),
            "slippage should be >= 0"@, "slippage is unusually large"@),
        v.0 < 0 ==> commission_diags(cx, args)[0] == diag_at(cx, n, Severity::Hint, DiagnosticCode::Logic,
            "commission_value should be >= 0"@),
{
}

} // verus!
