//! Checks of plot titles and styles, and the hint on repainting.

use vstd::prelude::*;

use crate::analysis::{Analyzer, DiagView, DiagnosticCode, Severity, Source, diag, diag_at, diags_view, node_range, lemma_reports_grow_auto};
use crate::analysis::args::{CallArg, args_ok, arg_node, find_arg_node};
use crate::analysis::checks::request::{name_or_string, name_or_string_of};
use crate::analysis::diag::{range_for_node, report_at, report_chars};
use crate::analysis::eval::{direct_close_zero, eval_string_constant, is_direct_close_zero, string_const};
use crate::fmt::{push_chars, push_str, wrap_chars};
use crate::text::{chars_are, chars_of, is_blank, trim};

verus! {

broadcast use lemma_reports_grow_auto;

/// The title of a `plot` call that `check_plot_title` remembers: a
/// non-blank string constant.
pub open spec fn plot_title_of(cx: Source, name: Seq<char>, args: Seq<CallArg>) -> Option<(int, Seq<char>)> {
    if name != "plot"@ || !cx.settings.enable_duplicate_plot_titles {
        None
    } else {
        match arg_node(args, "title"@, 1) {
            Some(n) => match string_const(*cx.tree, cx.text@, n) {
                Some(title) => if trim(title).len() == 0 {
                    None
                } else {
                    Some((n, title))
                },
                None => None,
            },
            None => None,
        }
    }
}

/// The style of a `plot` call that `check_plot_style_consistency` looks at.
pub open spec fn plot_style_of(cx: Source, name: Seq<char>, args: Seq<CallArg>) -> Option<(int, Seq<char>)> {
    if name != "plot"@ || !cx.settings.enable_plot_style_consistency {
        None
    } else {
        match arg_node(args, "style"@, 4) {
            Some(n) => match name_or_string(cx, n) {
                Some(style) => if trim(style).len() == 0 {
                    None
                } else {
                    Some((n, style))
                },
                None => None,
            },
            None => None,
        }
    }
}

/// What `check_plot_title` does to the analyzer: `a` before, `b` after.
pub open spec fn check_plot_title_effect(a: Analyzer, b: Analyzer, cx: Source, name: Seq<char>, args: Seq<CallArg>) -> bool {
    &&& b == (Analyzer {
        diagnostics: b.diagnostics,
        plot_titles: b.plot_titles,
        ..a
    })
    &&& match plot_title_of(cx, name, args) {
        Some((n, title)) => if a.plot_titles@.contains_key(title) {
            &&& diags_view(b.diagnostics@) =~= diags_view(a.diagnostics@) + seq![
                diag_at(cx, n, Severity::Hint, DiagnosticCode::Logic, "Duplicate plot title `"@ + title + "`"@),
                diag(cx, a.plot_titles@[title], Severity::Information, DiagnosticCode::Logic, "Previous plot title `"@ + title + "` here"@),
            ]
            &&& b.plot_titles@ =~= a.plot_titles@
        } else {
            &&& b.diagnostics@ =~= a.diagnostics@
            &&& b.plot_titles@ =~= a.plot_titles@.insert(title, node_range(cx, n))
        },
        None => b.diagnostics@ =~= a.diagnostics@ && b.plot_titles@
            =~= a.plot_titles@,
    }
}

/// What `check_plot_style_consistency` does to the analyzer: `a` before, `b` after.
pub open spec fn check_plot_style_consistency_effect(a: Analyzer, b: Analyzer, cx: Source, name: Seq<char>, args: Seq<CallArg>) -> bool {
    &&& b == (Analyzer {
        diagnostics: b.diagnostics,
        plot_styles: b.plot_styles,
        ..a
    })
    &&& match plot_style_of(cx, name, args) {
        Some((n, style)) => if a.plot_styles@.contains_key(style) {
            b.diagnostics@ =~= a.diagnostics@ && b.plot_styles@ =~= a.plot_styles@
        } else {
            &&& b.plot_styles@ =~= a.plot_styles@.insert(style, node_range(cx, n))
            &&& diags_view(b.diagnostics@) =~= diags_view(a.diagnostics@) + if a.plot_styles.len_view() > 0 {
                let prev = a.plot_styles.keys_seq()[0];
                seq![
                    diag_at(cx, n, Severity::Hint, DiagnosticCode::Logic, "plot uses multiple styles (`"@ + prev + "` vs `"@ + style + "`); consider consistent styling"@),
                    diag(cx, a.plot_styles@[prev], Severity::Information, DiagnosticCode::Logic, "Previous plot style `"@ + prev + "` used here"@),
                ]
            } else {
                Seq::<DiagView>::empty()
            }
        },
        None => b.diagnostics@ =~= a.diagnostics@ && b.plot_styles@
            =~= a.plot_styles@,
    }
}

/// What `maybe_warn_repainting` does to the analyzer: `a` before, `b` after.
pub open spec fn maybe_warn_repainting_effect(a: Analyzer, b: Analyzer, cx: Source, name: Seq<char>, args: Seq<CallArg>) -> bool {
    &&& ({
        let fires = !a.reported_repainting_hint && a.has_indicator_declaration
            && !a.has_strategy_declaration && !a.has_barstate_isconfirmed
            && (name == "plot"@ || name == "plotshape"@ || name == "plotchar"@ || name == "plotbar"@)
            && arg_node(args, "series"@, 0) is Some
            && direct_close_zero(*cx.tree, cx.text@, arg_node(args, "series"@, 0)->0);
        if fires {
            &&& b == (Analyzer {
                diagnostics: b.diagnostics,
                reported_repainting_hint: true,
                ..a
            })
            &&& diags_view(b.diagnostics@) =~= diags_view(a.diagnostics@) + seq![
                diag_at(cx, arg_node(args, "series"@, 0)->0, Severity::Hint, DiagnosticCode::Logic,
                    "Potential repainting: unconfirmed data used without barstate.isconfirmed"@),
            ]
        } else {
            b == a
        }
    })
}

impl Analyzer {
    /// Reports a `plot` title used before, and remembers new titles.
    pub fn check_plot_title(&mut self, cx: &Source, name: &Vec<char>, args: &Vec<CallArg>)
        requires
            old(self).wf(),
            cx.wf(),
            args_ok(*cx.tree, args@),
        ensures
            final(self).wf(),
            check_plot_title_effect(*old(self), *final(self), *cx, name@, args@),
    {
        if !chars_are(name, "plot") || !cx.settings.enable_duplicate_plot_titles {
            return;
        }
        let n = match find_arg_node(args, "title", 1) {
            Some(n) => n,
            None => {
                return;
            },
        };
        let title = match eval_string_constant(cx.tree, cx.text, n) {
            Some(t) => t,
            None => {
                return;
            },
        };
        if is_blank(&title) {
            return;
        }
        let previous = match self.plot_titles.get(&title) {
            Some(r) => Some(*r),
            None => None,
        };
        match previous {
            Some(prev) => {
                let msg = wrap_chars("Duplicate plot title `", &title, "`");
                let range = range_for_node(cx, n);
                report_chars(&mut self.diagnostics, cx, range, Severity::Hint, DiagnosticCode::Logic, &msg);
                let msg2 = wrap_chars("Previous plot title `", &title, "` here");
                report_chars(&mut self.diagnostics, cx, prev, Severity::Information, DiagnosticCode::Logic, &msg2);
            },
            None => {
                let range = range_for_node(cx, n);
                self.plot_titles.insert(title, range);
            },
        }
    }

    /// Reports a `plot` style that differs from the first style seen, and
    /// remembers new styles.
    pub fn check_plot_style_consistency(&mut self, cx: &Source, name: &Vec<char>, args: &Vec<CallArg>)
        requires
            old(self).wf(),
            cx.wf(),
            args_ok(*cx.tree, args@),
        ensures
            final(self).wf(),
            check_plot_style_consistency_effect(*old(self), *final(self), *cx, name@, args@),
    {
        if !chars_are(name, "plot") || !cx.settings.enable_plot_style_consistency {
            return;
        }
        let n = match find_arg_node(args, "style", 4) {
            Some(n) => n,
            None => {
                return;
            },
        };
        let style = match name_or_string_of(cx, n) {
            Some(s) => s,
            None => {
                return;
            },
        };
        if is_blank(&style) {
            return;
        }
        if self.plot_styles.contains_key(&style) {
            return;
        }
        if self.plot_styles.len() > 0 {
            let (prev_key, prev_range) = self.plot_styles.entry_at(0);
            let prev = prev_key.clone();
            let pr = *prev_range;
            let mut msg = chars_of("plot uses multiple styles (`");
            push_chars(&mut msg, &prev);
            push_str(&mut msg, "` vs `");
            push_chars(&mut msg, &style);
            push_str(&mut msg, "`); consider consistent styling");
            let range = range_for_node(cx, n);
            report_chars(&mut self.diagnostics, cx, range, Severity::Hint, DiagnosticCode::Logic, &msg);
            let msg2 = wrap_chars("Previous plot style `", &prev, "` used here");
            report_chars(&mut self.diagnostics, cx, pr, Severity::Information, DiagnosticCode::Logic, &msg2);
        }
        let range = range_for_node(cx, n);
        self.plot_styles.insert(style, range);
    }

    /// Hints once at repainting in an indicator that plots unshifted `close`
    /// without reading `barstate.isconfirmed`.
    pub fn maybe_warn_repainting(&mut self, cx: &Source, name: &Vec<char>, args: &Vec<CallArg>)
        requires
            old(self).wf(),
            cx.wf(),
            args_ok(*cx.tree, args@),
        ensures
            final(self).wf(),
            maybe_warn_repainting_effect(*old(self), *final(self), *cx, name@, args@),
    {
        if self.reported_repainting_hint {
            return;
        }
        if !self.has_indicator_declaration || self.has_strategy_declaration {
            return;
        }
        if self.has_barstate_isconfirmed {
            return;
        }
        if !chars_are(name, "plot") && !chars_are(name, "plotshape") && !chars_are(name, "plotchar")
            && !chars_are(name, "plotbar") {
            return;
        }
        let n = match find_arg_node(args, "series", 0) {
            Some(n) => n,
            None => {
                return;
            },
        };
        if is_direct_close_zero(cx.tree, cx.text, n) {
            report_at(&mut self.diagnostics, cx, n, Severity::Hint, DiagnosticCode::Logic,
                "Potential repainting: unconfirmed data used without barstate.isconfirmed");
            self.reported_repainting_hint = true;
        }
    }
}

} // verus!
