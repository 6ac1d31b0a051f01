//! Checks of the argument types and constant arguments of calls to `ta`
//! and plotting functions.

use vstd::prelude::*;

use crate::analysis::{Analyzer, DiagView, DiagnosticCode, Severity, Source, diag_at, diags_view, lemma_reports_grow_auto};
use crate::analysis::args::{CallArg, args_ok, arg_for, find_call_arg};
use crate::analysis::diag::{range_for_node, report_at, report_chars};
use crate::analysis::eval::{eval_numeric_constant, node_ok, node_text, num_const, string_const, text_of, text_is};
use crate::fmt::wrap_chars;
use crate::syntax::NodeKind;
use crate::text::{chars_are, unquote, unquote_bounds};
use crate::types::{BaseType, Type, TypeModel, model_base, model_is_series};

verus! {

broadcast use lemma_reports_grow_auto;

/// Whether an expression is a constant: a numeric constant, a string or
/// color literal, or a name that is neither a built-in value nor `close`.
pub open spec fn is_constant(cx: Source, n: int) -> bool {
    if num_const(*cx.tree, cx.text@, n) is Some {
        true
    } else if cx.tree.kind_of(n) == NodeKind::StringLiteral || cx.tree.kind_of(n) == NodeKind::Color {
        true
    } else if cx.tree.kind_of(n) == NodeKind::Identifier {
        let name = text_of(*cx.tree, cx.text@, n);
        !cx.builtins.values_view().contains_key(name) && name != "close"@
    } else {
        false
    }
}

/// Whether an expression is a constant.
pub fn is_constant_expression(cx: &Source, n: usize) -> (r: bool)
    requires
        cx.wf(),
        node_ok(*cx.tree, n as int),
    ensures
        r == is_constant(*cx, n as int),
{
    if eval_numeric_constant(cx.tree, cx.text, n).is_some() {
        return true;
    }
    match cx.tree.nodes[n].kind {
        NodeKind::StringLiteral | NodeKind::Color => true,
        NodeKind::Identifier => {
            let name = node_text(cx.tree, cx.text, n);
            cx.builtins.value_type_named(&name).is_none() && !chars_are(&name, "close")
        },
        _ => false,
    }
}

/// Whether a name is one of the built-in namespaces.
pub open spec fn builtin_namespace(name: Seq<char>) -> bool {
    name == "ta"@ || name == "math"@ || name == "input"@ || name == "request"@ || name == "strategy"@
        || name == "syminfo"@ || name == "color"@
}

pub fn is_builtin_namespace(name: &Vec<char>) -> (r: bool)
    ensures
        r == builtin_namespace(name@),
{
    chars_are(name, "ta") || chars_are(name, "math") || chars_are(name, "input") || chars_are(name, "request")
        || chars_are(name, "strategy") || chars_are(name, "syminfo") || chars_are(name, "color")
}

/// The report on an argument at `idx` that is not a numeric series.
pub open spec fn series_numeric_diags(cx: Source, name: Seq<char>, args: Seq<CallArg>, types: Seq<TypeModel>, idx: int) -> Seq<DiagView> {
    if 0 <= idx < types.len() && idx < args.len() {
        let ty = types[idx];
        let numeric = model_base(ty) == BaseType::Float || model_base(ty) == BaseType::Int;
        if !numeric || !model_is_series(ty) {
            seq![diag_at(cx, args[idx].node as int, Severity::Error, DiagnosticCode::Validation, "`"@ + name + "` expects a numeric series input"@)]
        } else {
            Seq::empty()
        }
    } else {
        Seq::empty()
    }
}

/// The report on a constant length at `idx` that is not positive.
pub open spec fn positive_length_diags(cx: Source, name: Seq<char>, args: Seq<CallArg>, idx: int) -> Seq<DiagView> {
    if 0 <= idx < args.len() {
        match num_const(*cx.tree, cx.text@, args[idx].node as int) {
            Some(v) => if v.0 <= 0 {
                seq![diag_at(cx, args[idx].node as int, Severity::Error, DiagnosticCode::Runtime, "`"@ + name + "` length must be > 0"@)]
            } else {
                Seq::empty()
            },
            None => Seq::empty(),
        }
    } else {
        Seq::empty()
    }
}

/// Whether the argument for a parameter is a constant string of a scalar string type.
pub open spec fn const_string_arg(cx: Source, n: int, ty: TypeModel) -> bool {
    is_constant(cx, n) && model_base(ty) == BaseType::String && !model_is_series(ty)
}

/// The reports on the argument types of `ta` and plotting calls.
pub open spec fn series_args_diags(cx: Source, name: Seq<char>, args: Seq<CallArg>, types: Seq<TypeModel>) -> Seq<DiagView> {
    if name == "ta.sma"@ || name == "ta.ema"@ || name == "ta.rsi"@ {
        series_numeric_diags(cx, name, args, types, 0) + positive_length_diags(cx, name, args, 1)
    } else if name == "ta.atr"@ {
        positive_length_diags(cx, name, args, 0)
    } else if name == "ta.macd"@ {
        series_numeric_diags(cx, name, args, types, 0) + positive_length_diags(cx, name, args, 1)
            + positive_length_diags(cx, name, args, 2) + positive_length_diags(cx, name, args, 3)
    } else if name == "plot"@ || name == "plotchar"@ || name == "plotshape"@ {
        match arg_for(args, "series"@, 0) {
            Some((n, j)) => if !model_is_series(types[j]) {
                seq![diag_at(cx, n, Severity::Warning, DiagnosticCode::Logic, "`"@ + name + "` expects a series value; constant or scalar detected"@)]
            } else {
                Seq::empty()
            },
            None => Seq::empty(),
        }
    } else {
        Seq::empty()
    }
}

/// The report on plotting a constant.
pub open spec fn constant_plot_diags(cx: Source, name: Seq<char>, args: Seq<CallArg>) -> Seq<DiagView> {
    if name == "plot"@ {
        match arg_for(args, "series"@, 0) {
            Some((n, j)) => if is_constant(cx, n) {
                seq![diag_at(cx, n, Severity::Warning, DiagnosticCode::Logic, "Plotting a constant value will not show price movement"@)]
            } else {
                Seq::empty()
            },
            None => Seq::empty(),
        }
    } else {
        Seq::empty()
    }
}

/// The reports on the `text` of `plotshape` (`is_char` false) or the `char` of `plotchar`.
pub open spec fn const_string_diags(cx: Source, args: Seq<CallArg>, types: Seq<TypeModel>, is_char: bool) -> Seq<DiagView> {
    if !is_char {
        match arg_for(args, "text"@, 5) {
            Some((n, j)) => if !const_string_arg(cx, n, types[j]) {
                seq![diag_at(cx, n, Severity::Error, DiagnosticCode::Validation, "`plotshape` 'text' parameter must be a constant string"@)]
            } else {
                Seq::empty()
            },
            None => Seq::empty(),
        }
    } else {
        match arg_for(args, "char"@, 2) {
            Some((n, j)) => if !const_string_arg(cx, n, types[j]) {
                seq![diag_at(cx, n, Severity::Error, DiagnosticCode::Validation, "`plotchar` 'char' parameter must be a constant string"@)]
            } else if cx.tree.kind_of(n) == NodeKind::StringLiteral && unquote(text_of(*cx.tree, cx.text@, n)).len() != 1 {
                seq![diag_at(cx, n, Severity::Error, DiagnosticCode::Validation, "`plotchar` 'char' parameter must be a single character constant string"@)]
            } else {
                Seq::empty()
            },
            None => Seq::empty(),
        }
    }
}

/// What `check_call` reports for a call `name(args)` whose argument types are `types`.
pub open spec fn call_check_diags(cx: Source, name: Seq<char>, args: Seq<CallArg>, types: Seq<TypeModel>) -> Seq<DiagView> {
    series_args_diags(cx, name, args, types) + constant_plot_diags(cx, name, args)
        + (if name == "plotshape"@ { const_string_diags(cx, args, types, false) } else { Seq::empty() })
        + (if name == "plotchar"@ { const_string_diags(cx, args, types, true) } else { Seq::empty() })
}

/// The models of the argument types.
pub open spec fn type_models(types: Seq<Type>) -> Seq<TypeModel> {
    types.map_values(|t: Type| t.model())
}

impl Analyzer {
    /// Reports an argument at `idx` that is not a numeric series.
    pub fn check_series_numeric_arg(&mut self, cx: &Source, name: &Vec<char>, args: &Vec<CallArg>, arg_types: &Vec<Type>, idx: usize)
        requires
            old(self).wf(),
            cx.wf(),
            args_ok(*cx.tree, args@),
        ensures
            final(self).wf(),
            Analyzer::same_state(*old(self), *final(self)),
            diags_view(final(self).diagnostics@) == diags_view(old(self).diagnostics@) + series_numeric_diags(*cx, name@, args@, type_models(arg_types@), idx as int),
    {
        if idx < arg_types.len() && idx < args.len() {
            let ty = &arg_types[idx];
            let b = ty.base();
            let numeric = b == BaseType::Float || b == BaseType::Int;
            if !numeric || !ty.is_series() {
                let msg = wrap_chars("`", name, "` expects a numeric series input");
                let range = range_for_node(cx, args[idx].node);
                report_chars(&mut self.diagnostics, cx, range, Severity::Error, DiagnosticCode::Validation, &msg);
            }
        }
    }

    /// Reports a constant length at `idx` that is not positive.
    pub fn check_positive_length(&mut self, cx: &Source, name: &Vec<char>, args: &Vec<CallArg>, idx: usize)
        requires
            old(self).wf(),
            cx.wf(),
            args_ok(*cx.tree, args@),
        ensures
            final(self).wf(),
            Analyzer::same_state(*old(self), *final(self)),
            diags_view(final(self).diagnostics@) == diags_view(old(self).diagnostics@) + positive_length_diags(*cx, name@, args@, idx as int),
    {
        if idx < args.len() {
            match eval_numeric_constant(cx.tree, cx.text, args[idx].node) {
                Some(v) => {
                    if !v.is_positive() {
                        let msg = wrap_chars("`", name, "` length must be > 0");
                        let range = range_for_node(cx, args[idx].node);
                        report_chars(&mut self.diagnostics, cx, range, Severity::Error, DiagnosticCode::Runtime, &msg);
                    }
                },
                None => {},
            }
        }
    }

    fn check_series_args(&mut self, cx: &Source, name: &Vec<char>, args: &Vec<CallArg>, arg_types: &Vec<Type>)
        requires
            old(self).wf(),
            cx.wf(),
            args_ok(*cx.tree, args@),
            arg_types@.len() == args@.len(),
        ensures
            final(self).wf(),
            Analyzer::same_state(*old(self), *final(self)),
            diags_view(final(self).diagnostics@) == diags_view(old(self).diagnostics@) + series_args_diags(*cx, name@, args@, type_models(arg_types@)),
    {
        let ghost d0 = diags_view(self.diagnostics@);
        if chars_are(name, "ta.sma") || chars_are(name, "ta.ema") || chars_are(name, "ta.rsi") {
            self.check_series_numeric_arg(cx, name, args, arg_types, 0);
            self.check_positive_length(cx, name, args, 1);
            assert(diags_view(self.diagnostics@) =~= d0 + series_args_diags(*cx, name@, args@, type_models(arg_types@)));
        } else if chars_are(name, "ta.atr") {
            self.check_positive_length(cx, name, args, 0);
        } else if chars_are(name, "ta.macd") {
            self.check_series_numeric_arg(cx, name, args, arg_types, 0);
            let ghost d1 = diags_view(self.diagnostics@);
            self.check_positive_length(cx, name, args, 1);
            let ghost d2 = diags_view(self.diagnostics@);
            self.check_positive_length(cx, name, args, 2);
            let ghost d3 = diags_view(self.diagnostics@);
            self.check_positive_length(cx, name, args, 3);
            assert(diags_view(self.diagnostics@) =~= d0 + series_args_diags(*cx, name@, args@, type_models(arg_types@)));
        } else if chars_are(name, "plot") || chars_are(name, "plotchar") || chars_are(name, "plotshape") {
            match find_call_arg(args, "series", 0) {
                Some((n, j)) => {
                    if !arg_types[j].is_series() {
                        let msg = wrap_chars("`", name, "` expects a series value; constant or scalar detected");
                        let range = range_for_node(cx, n);
                        report_chars(&mut self.diagnostics, cx, range, Severity::Warning, DiagnosticCode::Logic, &msg);
                    }
                },
                None => {},
            }
        }
    }

    fn check_const_string_param(&mut self, cx: &Source, args: &Vec<CallArg>, arg_types: &Vec<Type>, is_char: bool)
        requires
            old(self).wf(),
            cx.wf(),
            args_ok(*cx.tree, args@),
            arg_types@.len() == args@.len(),
        ensures
            final(self).wf(),
            Analyzer::same_state(*old(self), *final(self)),
            diags_view(final(self).diagnostics@) == diags_view(old(self).diagnostics@) + const_string_diags(*cx, args@, type_models(arg_types@), is_char),
    {
        let found = if is_char {
            find_call_arg(args, "char", 2)
        } else {
            find_call_arg(args, "text", 5)
        };
        let (n, j) = match found {
            Some(p) => p,
            None => {
                return;
            },
        };
        let ty = &arg_types[j];
        if !is_constant_expression(cx, n) || ty.base() != BaseType::String || ty.is_series() {
            if is_char {
                report_at(&mut self.diagnostics, cx, n, Severity::Error, DiagnosticCode::Validation,
                    "`plotchar` 'char' parameter must be a constant string");
            } else {
                report_at(&mut self.diagnostics, cx, n, Severity::Error, DiagnosticCode::Validation,
                    "`plotshape` 'text' parameter must be a constant string");
            }
            return;
        }
        if is_char && cx.tree.nodes[n].kind == NodeKind::StringLiteral {
            proof {
                assert(cx.tree.node_wf(n as int, cx.text@.len() as int));
            }
            let (a, b) = unquote_bounds(cx.text, cx.tree.nodes[n].start, cx.tree.nodes[n].end);
            if b - a != 1 {
                report_at(&mut self.diagnostics, cx, n, Severity::Error, DiagnosticCode::Validation,
                    "`plotchar` 'char' parameter must be a single character constant string");
            }
        }
    }

    /// Checks the arguments of calls to `ta.sma`, `ta.ema`, `ta.rsi`,
    /// `ta.atr`, `ta.macd` and the plotting functions against their types.
    pub fn check_call(&mut self, cx: &Source, name: &Vec<char>, args: &Vec<CallArg>, arg_types: &Vec<Type>)
        requires
            old(self).wf(),
            cx.wf(),
            args_ok(*cx.tree, args@),
            arg_types@.len() == args@.len(),
        ensures
            final(self).wf(),
            Analyzer::same_state(*old(self), *final(self)),
            diags_view(final(self).diagnostics@) == diags_view(old(self).diagnostics@) + call_check_diags(*cx, name@, args@, type_models(arg_types@)),
    {
        let ghost d0 = diags_view(self.diagnostics@);
        self.check_series_args(cx, name, args, arg_types);
        let ghost d1 = diags_view(self.diagnostics@);
        if chars_are(name, "plot") {
            match find_call_arg(args, "series", 0) {
                Some((n, _j)) => {
                    if is_constant_expression(cx, n) {
                        report_at(&mut self.diagnostics, cx, n, Severity::Warning, DiagnosticCode::Logic,
                            "Plotting a constant value will not show price movement");
                    }
                },
                None => {},
            }
        }
        let ghost d2 = diags_view(self.diagnostics@);
        if chars_are(name, "plotshape") {
            self.check_const_string_param(cx, args, arg_types, false);
        }
        let ghost d3 = diags_view(self.diagnostics@);
        if chars_are(name, "plotchar") {
            self.check_const_string_param(cx, args, arg_types, true);
        }
        assert(d2 == d1 + constant_plot_diags(*cx, name@, args@));
        assert(diags_view(self.diagnostics@) =~= d0 + call_check_diags(*cx, name@, args@, type_models(arg_types@)));
    }
}

/// A constant length argument is reported as an error, at the argument,
/// exactly when it is not above zero.
pub proof fn lemma_positive_length(cx: Source, name: Seq<char>, args: Seq<CallArg>, idx: int, v: (int, int))
    requires
        0 <= idx < args.len(),
        num_const(*cx.tree, cx.text@, args[idx].node as int) == Some(v),
    ensures
        positive_length_diags(cx, name, args, idx) == if v.0 > 0 {
            Seq::<DiagView>::empty()
        } else {
            seq![diag_at(cx, args[idx].node as int, Severity::Error, DiagnosticCode::Runtime, "`"@ + name + "` length must be > 0"@)]
        },
{
}

} // verus!
