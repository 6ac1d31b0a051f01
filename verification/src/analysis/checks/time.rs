//! Checks of timeframe strings, chart points and session strings.

use vstd::prelude::*;

use crate::analysis::{Analyzer, DiagView, DiagnosticCode, Severity, Source, diag_at, diags_view, lemma_reports_grow_auto};
use crate::analysis::args::{CallArg, args_ok, arg_node, find_arg_node};
use crate::analysis::diag::{range_for_node, report_at, report_chars};
use crate::analysis::eval::{eval_numeric_constant, eval_string_constant, num_const, string_const};
use crate::fmt::wrap_chars;
use crate::num::rat_round;
use crate::text::{chars_are, is_blank, is_valid_session_string, is_valid_timeframe_string, trim, valid_session, valid_timeframe};

verus! {

broadcast use lemma_reports_grow_auto;

/// What `check_timeframe_call` reports for a call `name(args)`.
pub open spec fn timeframe_call_diags(cx: Source, name: Seq<char>, args: Seq<CallArg>) -> Seq<DiagView> {
    if name != "timeframe.change"@ && name != "timeframe.in_seconds"@ {
        Seq::empty()
    } else if !cx.settings.enable_timeframe_format_validation {
        Seq::empty()
    } else {
        match arg_node(args, "timeframe"@, 0) {
            Some(n) => match string_const(*cx.tree, cx.text@, n) {
                Some(v) => if trim(v).len() == 0 {
                    seq![diag_at(cx, n, Severity::Hint, DiagnosticCode::Logic, "timeframe parameter is empty"@)]
                } else if !valid_timeframe(v) {
                    seq![diag_at(cx, n, Severity::Hint, DiagnosticCode::Logic, "Invalid timeframe format `"@ + v + "`"@)]
                } else {
                    Seq::empty()
                },
                None => seq![diag_at(cx, n, Severity::Hint, DiagnosticCode::Logic, "timeframe parameter should be a constant string"@)],
            },
            None => Seq::empty(),
        }
    }
}

/// What `check_chart_point_call` reports for a call `name(args)`.
pub open spec fn chart_point_diags(cx: Source, name: Seq<char>, args: Seq<CallArg>) -> Seq<DiagView> {
    if !cx.settings.enable_chart_point_validation {
        Seq::empty()
    } else if name == "chart.point.from_index"@ {
        match arg_node(args, "index"@, 0) {
            Some(n) => match num_const(*cx.tree, cx.text@, n) {
                Some(v) => if v.0 < 0 {
                    seq![diag_at(cx, n, Severity::Hint, DiagnosticCode::Logic, "chart.point.from_index index should be >= 0"@)]
                } else if cx.settings.chart_point_index_warn_threshold > 0 && rat_round(v) >= cx.settings.chart_point_index_warn_threshold {
                    seq![diag_at(cx, n, Severity::Hint, DiagnosticCode::Logic, "chart.point.from_index index is unusually large"@)]
                } else {
                    Seq::empty()
                },
                None => Seq::empty(),
            },
            None => Seq::empty(),
        }
    } else if name == "chart.point.from_time"@ {
        match arg_node(args, "time"@, 0) {
            Some(n) => match num_const(*cx.tree, cx.text@, n) {
                Some(v) => if v.0 <= 0 {
                    seq![diag_at(cx, n, Severity::Hint, DiagnosticCode::Logic, "chart.point.from_time expects a positive timestamp"@)]
                } else {
                    Seq::empty()
                },
                None => Seq::empty(),
            },
            None => Seq::empty(),
        }
    } else {
        Seq::empty()
    }
}

/// The argument holding a session string in a call named `name`.
pub open spec fn session_arg(name: Seq<char>, args: Seq<CallArg>) -> Option<int> {
    if name == "input.session"@ {
        arg_node(args, "defval"@, 0)
    } else if name == "time"@ || name == "time_close"@ {
        arg_node(args, "session"@, 1)
    } else {
        None
    }
}

/// What `check_session_parameter` reports for a call `name(args)`.
pub open spec fn session_diags(cx: Source, name: Seq<char>, args: Seq<CallArg>) -> Seq<DiagView> {
    if !cx.settings.enable_session_validation {
        Seq::empty()
    } else {
        match session_arg(name, args) {
            Some(n) => match string_const(*cx.tree, cx.text@, n) {
                Some(v) => if trim(v).len() == 0 {
                    seq![diag_at(cx, n, Severity::Hint, DiagnosticCode::Logic, "Session string is empty"@)]
                } else if !valid_session(v) {
                    seq![diag_at(cx, n, Severity::Hint, DiagnosticCode::Logic, "Session string format is invalid"@)]
                } else {
                    Seq::empty()
                },
                None => Seq::empty(),
            },
            None => Seq::empty(),
        }
    }
}

impl Analyzer {
    /// Checks the timeframe argument of `timeframe.change` and `timeframe.in_seconds`.
    pub fn check_timeframe_call(&mut self, cx: &Source, name: &Vec<char>, args: &Vec<CallArg>)
        requires
            old(self).wf(),
            cx.wf(),
            args_ok(*cx.tree, args@),
        ensures
            final(self).wf(),
            Analyzer::same_state(*old(self), *final(self)),
            diags_view(final(self).diagnostics@) == diags_view(old(self).diagnostics@) + timeframe_call_diags(*cx, name@, args@),
    {
        if !chars_are(name, "timeframe.change") && !chars_are(name, "timeframe.in_seconds") {
            return;
        }
        if !cx.settings.enable_timeframe_format_validation {
            return;
        }
        let n = match find_arg_node(args, "timeframe", 0) {
            Some(n) => n,
            None => {
                return;
            },
        };
        let v = match eval_string_constant(cx.tree, cx.text, n) {
            Some(v) => v,
            None => {
                report_at(&mut self.diagnostics, cx, n, Severity::Hint, DiagnosticCode::Logic,
                    "timeframe parameter should be a constant string");
                return;
            },
        };
        if is_blank(&v) {
            report_at(&mut self.diagnostics, cx, n, Severity::Hint, DiagnosticCode::Logic, "timeframe parameter is empty");
            return;
        }
        if !is_valid_timeframe_string(&v) {
            let msg = wrap_chars("Invalid timeframe format `", &v, "`");
            let range = range_for_node(cx, n);
            report_chars(&mut self.diagnostics, cx, range, Severity::Hint, DiagnosticCode::Logic, &msg);
        }
    }

    /// Checks the index of `chart.point.from_index` and the time of `chart.point.from_time`.
    pub fn check_chart_point_call(&mut self, cx: &Source, name: &Vec<char>, args: &Vec<CallArg>)
        requires
            old(self).wf(),
            cx.wf(),
            args_ok(*cx.tree, args@),
        ensures
            final(self).wf(),
            Analyzer::same_state(*old(self), *final(self)),
            diags_view(final(self).diagnostics@) == diags_view(old(self).diagnostics@) + chart_point_diags(*cx, name@, args@),
    {
        if !cx.settings.enable_chart_point_validation {
            return;
        }
        if chars_are(name, "chart.point.from_index") {
            let n = match find_arg_node(args, "index", 0) {
                Some(n) => n,
                None => {
                    return;
                },
            };
            let v = match eval_numeric_constant(cx.tree, cx.text, n) {
                Some(v) => v,
                None => {
                    return;
                },
            };
            if v.is_negative() {
                report_at(&mut self.diagnostics, cx, n, Severity::Hint, DiagnosticCode::Logic,
                    "chart.point.from_index index should be >= 0");
                return;
            }
            let th = cx.settings.chart_point_index_warn_threshold;
            if th > 0 && v.round() >= th {
                report_at(&mut self.diagnostics, cx, n, Severity::Hint, DiagnosticCode::Logic,
                    "chart.point.from_index index is unusually large");
            }
        } else if chars_are(name, "chart.point.from_time") {
            let n = match find_arg_node(args, "time", 0) {
                Some(n) => n,
                None => {
                    return;
                },
            };
            let v = match eval_numeric_constant(cx.tree, cx.text, n) {
                Some(v) => v,
                None => {
                    return;
                },
            };
            if !v.is_positive() {
                report_at(&mut self.diagnostics, cx, n, Severity::Hint, DiagnosticCode::Logic,
                    "chart.point.from_time expects a positive timestamp");
            }
        }
    }

    /// Checks the session string of `input.session`, `time` and `time_close`.
    pub fn check_session_parameter(&mut self, cx: &Source, name: &Vec<char>, args: &Vec<CallArg>)
        requires
            old(self).wf(),
            cx.wf(),
            args_ok(*cx.tree, args@),
        ensures
            final(self).wf(),
            Analyzer::same_state(*old(self), *final(self)),
            diags_view(final(self).diagnostics@) == diags_view(old(self).diagnostics@) + session_diags(*cx, name@, args@),
    {
        if !cx.settings.enable_session_validation {
            return;
        }
        let node = if chars_are(name, "input.session") {
            find_arg_node(args, "defval", 0)
        } else if chars_are(name, "time") || chars_are(name, "time_close") {
            find_arg_node(args, "session", 1)
        } else {
            None
        };
        let n = match node {
            Some(n) => n,
            None => {
                return;
            },
        };
        let v = match eval_string_constant(cx.tree, cx.text, n) {
            Some(v) => v,
            None => {
                return;
            },
        };
        if is_blank(&v) {
            report_at(&mut self.diagnostics, cx, n, Severity::Hint, DiagnosticCode::Logic, "Session string is empty");
            return;
        }
        if !is_valid_session_string(&v) {
            report_at(&mut self.diagnostics, cx, n, Severity::Hint, DiagnosticCode::Logic, "Session string format is invalid");
        }
    }
}

} // verus!
