//! Checks of drawing object ids: reuse of an id for several objects, and use
//! of an id after it was deleted.

use vstd::prelude::*;

use crate::analysis::{Analyzer, DiagView, DiagnosticCode, Severity, Source, diag, diag_at, diags_view, node_range, lemma_reports_grow_auto};
use crate::analysis::args::{CallArg, args_ok, arg_node, find_arg_node};
use crate::analysis::diag::{range_for_node, report_chars, report};
use crate::analysis::eval::{call_name, call_name_from_node, child, extract_identifier_name, identifier_name, node_ok, sub_at};
use crate::fmt::{push_chars, push_str, wrap_chars};
use crate::position::Range;
use crate::syntax::{Field, NodeKind};
use crate::text::{chars_are, chars_of, ends_with_lit, has_prefix, has_suffix, starts_with_lit};

verus! {

broadcast use lemma_reports_grow_auto;

/// The kind of drawing object a constructor call makes.
pub open spec fn draw_kind_of_call(name: Seq<char>) -> Option<Seq<char>> {
    if name == "label.new"@ {
        Some("label"@)
    } else if name == "line.new"@ {
        Some("line"@)
    } else if name == "box.new"@ {
        Some("box"@)
    } else if name == "table.new"@ {
        Some("table"@)
    } else {
        None
    }
}

/// The kind of drawing object an expression makes, when it is a call of a constructor.
pub open spec fn draw_kind_of_expr(cx: Source, e: int) -> Option<Seq<char>> {
    if cx.tree.kind_of(e) != NodeKind::Call {
        None
    } else {
        match sub_at(*cx.tree, e, Field::Function) {
            Some(f) => draw_kind_of_call(call_name(*cx.tree, cx.text@, f)),
            None => None,
        }
    }
}

/// The kind of drawing object a method call works on, by its namespace.
pub open spec fn draw_namespace(name: Seq<char>) -> Option<Seq<char>> {
    if has_prefix(name, "label."@) {
        Some("label"@)
    } else if has_prefix(name, "line."@) {
        Some("line"@)
    } else if has_prefix(name, "box."@) {
        Some("box"@)
    } else if has_prefix(name, "table."@) {
        Some("table"@)
    } else {
        None
    }
}

fn draw_kind_for_call(name: &Vec<char>) -> (r: Option<&'static str>)
    ensures
        match r {
            Some(k) => draw_kind_of_call(name@) == Some(k@),
            None => draw_kind_of_call(name@) is None,
        },
{
    if chars_are(name, "label.new") {
        Some("label")
    } else if chars_are(name, "line.new") {
        Some("line")
    } else if chars_are(name, "box.new") {
        Some("box")
    } else if chars_are(name, "table.new") {
        Some("table")
    } else {
        None
    }
}

fn draw_namespace_of(name: &Vec<char>) -> (r: Option<&'static str>)
    ensures
        match r {
            Some(k) => draw_namespace(name@) == Some(k@),
            None => draw_namespace(name@) is None,
        },
{
    if starts_with_lit(name, "label.") {
        Some("label")
    } else if starts_with_lit(name, "line.") {
        Some("line")
    } else if starts_with_lit(name, "box.") {
        Some("box")
    } else if starts_with_lit(name, "table.") {
        Some("table")
    } else {
        None
    }
}

/// What `check_deleted_draw_object_usage` does to the analyzer: `a` before, `b` after.
pub open spec fn check_deleted_draw_object_usage_effect(a: Analyzer, b: Analyzer, cx: Source, name: Seq<char>, args: Seq<CallArg>) -> bool {
    &&& b == (Analyzer {
        diagnostics: b.diagnostics,
        deleted_draw_objects: b.deleted_draw_objects,
        ..a
    })
    &&& ({
        let active = cx.settings.enable_draw_object_lifecycle_checks && draw_namespace(name) is Some
            && !has_suffix(name, ".new"@) && arg_node(args, "id"@, 0) is Some
            && identifier_name(*cx.tree, cx.text@, arg_node(args, "id"@, 0)->0) is Some;
        let id = arg_node(args, "id"@, 0)->0;
        let id_name = identifier_name(*cx.tree, cx.text@, id)->0;
        let kind = draw_namespace(name)->0;
        if !active {
            b == a
        } else if has_suffix(name, ".delete"@) {
            &&& b.diagnostics@ =~= a.diagnostics@
            &&& b.deleted_draw_objects@.dom() =~= a.deleted_draw_objects@.dom().insert(id_name)
            &&& b.deleted_draw_objects@[id_name].0@ == kind
            &&& b.deleted_draw_objects@[id_name].1 == node_range(cx, id)
            &&& forall|k: Seq<char>| k != id_name && a.deleted_draw_objects@.contains_key(k)
                ==> b.deleted_draw_objects@[k] == a.deleted_draw_objects@[k]
        } else if a.deleted_draw_objects@.contains_key(id_name) {
            let deleted = a.deleted_draw_objects@[id_name];
            &&& b.deleted_draw_objects@ =~= a.deleted_draw_objects@
            &&& diags_view(b.diagnostics@) =~= diags_view(a.diagnostics@) + seq![
                diag_at(cx, id, Severity::Hint, DiagnosticCode::Logic, "Use of deleted "@ + deleted.0@ + " id `"@ + id_name + "`"@),
                diag(cx, deleted.1, Severity::Information, DiagnosticCode::Logic, "Deleted here"@),
            ]
        } else {
            b == a
        }
    })
}

/// What `record_draw_object_assignment` does to the analyzer: `a` before, `b` after.
pub open spec fn record_draw_object_assignment_effect(a: Analyzer, b: Analyzer, cx: Source, var_name: Seq<char>, e: usize, range: Range) -> bool {
    &&& b == (Analyzer {
        diagnostics: b.diagnostics,
        draw_object_vars: b.draw_object_vars,
        deleted_draw_objects: b.deleted_draw_objects,
        ..a
    })
    &&& match (cx.settings.enable_draw_object_id_reuse, draw_kind_of_expr(cx, e as int)) {
        (true, Some(kind)) => {
            &&& b.deleted_draw_objects@ =~= a.deleted_draw_objects@.remove(var_name)
            &&& if a.draw_object_vars@.contains_key(var_name) {
                let prev = a.draw_object_vars@[var_name];
                &&& b.draw_object_vars@ =~= a.draw_object_vars@
                &&& diags_view(b.diagnostics@) =~= diags_view(a.diagnostics@) + seq![
                    diag(cx, range, Severity::Hint, DiagnosticCode::Logic, "Drawing object id `"@ + var_name + "` reused for multiple "@ + kind + " objects"@),
                    diag(cx, prev.1, Severity::Information, DiagnosticCode::Logic, "Previous `"@ + prev.0@ + "` assignment here"@),
                ]
            } else {
                &&& b.diagnostics@ =~= a.diagnostics@
                &&& b.draw_object_vars@.dom() =~= a.draw_object_vars@.dom().insert(var_name)
                &&& b.draw_object_vars@[var_name].0@ == kind
                &&& b.draw_object_vars@[var_name].1 == range
                &&& forall|k: Seq<char>| k != var_name && a.draw_object_vars@.contains_key(k)
                    ==> b.draw_object_vars@[k] == a.draw_object_vars@[k]
            }
        },
        _ => b == a,
    }
}

impl Analyzer {
    /// Records that variable `var_name` holds a new drawing object made by the
    /// expression at node `e`, reporting an id that already held one.
    pub fn record_draw_object_assignment(&mut self, cx: &Source, var_name: &Vec<char>, e: usize, range: Range)
        requires
            old(self).wf(),
            cx.wf(),
            node_ok(*cx.tree, e as int),
        ensures
            final(self).wf(),
            record_draw_object_assignment_effect(*old(self), *final(self), *cx, var_name@, e, range),
    {
        if !cx.settings.enable_draw_object_id_reuse {
            return;
        }
        if cx.tree.nodes[e].kind != NodeKind::Call {
            return;
        }
        let f = match child(cx.tree, cx.text, e, Field::Function) {
            Some(f) => f,
            None => {
                return;
            },
        };
        let call = call_name_from_node(cx.tree, cx.text, f);
        let kind = match draw_kind_for_call(&call) {
            Some(k) => k,
            None => {
                return;
            },
        };
        self.deleted_draw_objects.remove(var_name);
        let previous = match self.draw_object_vars.get(var_name) {
            Some(p) => Some((p.0.clone(), p.1)),
            None => None,
        };
        match previous {
            Some((prev_kind, prev_range)) => {
                let mut msg = wrap_chars("Drawing object id `", var_name, "` reused for multiple ");
                push_str(&mut msg, kind);
                push_str(&mut msg, " objects");
                report_chars(&mut self.diagnostics, cx, range, Severity::Hint, DiagnosticCode::Logic, &msg);
                let msg2 = wrap_chars("Previous `", &prev_kind, "` assignment here");
                report_chars(&mut self.diagnostics, cx, prev_range, Severity::Information, DiagnosticCode::Logic, &msg2);
            },
            None => {
                self.draw_object_vars.insert(var_name.clone(), (chars_of(kind), range));
            },
        }
    }

    /// Records the deletion of a drawing object, and reports the use of a
    /// deleted one.
    pub fn check_deleted_draw_object_usage(&mut self, cx: &Source, name: &Vec<char>, args: &Vec<CallArg>)
        requires
            old(self).wf(),
            cx.wf(),
            args_ok(*cx.tree, args@),
        ensures
            final(self).wf(),
            check_deleted_draw_object_usage_effect(*old(self), *final(self), *cx, name@, args@),
    {
        if !cx.settings.enable_draw_object_lifecycle_checks {
            return;
        }
        let kind = match draw_namespace_of(name) {
            Some(k) => k,
            None => {
                return;
            },
        };
        if ends_with_lit(name, ".new") {
            return;
        }
        let id = match find_arg_node(args, "id", 0) {
            Some(n) => n,
            None => {
                return;
            },
        };
        let id_name = match extract_identifier_name(cx.tree, cx.text, id) {
            Some(v) => v,
            None => {
                return;
            },
        };
        if ends_with_lit(name, ".delete") {
            let range = range_for_node(cx, id);
            self.deleted_draw_objects.insert(id_name, (chars_of(kind), range));
            return;
        }
        let deleted = match self.deleted_draw_objects.get(&id_name) {
            Some(d) => Some((d.0.clone(), d.1)),
            None => None,
        };
        match deleted {
            Some((deleted_kind, deleted_range)) => {
                let mut msg = wrap_chars("Use of deleted ", &deleted_kind, " id `");
                push_chars(&mut msg, &id_name);
                push_str(&mut msg, "`");
                let range = range_for_node(cx, id);
                report_chars(&mut self.diagnostics, cx, range, Severity::Hint, DiagnosticCode::Logic, &msg);
                report(&mut self.diagnostics, cx, deleted_range, Severity::Information, DiagnosticCode::Logic, "Deleted here");
            },
            None => {},
        }
    }
}

} // verus!
