//! Checks of matrix indexes, sizes and element types, and of table cells.

use vstd::prelude::*;

use crate::analysis::{Analyzer, DiagView, DiagnosticCode, Severity, Source, diag, diag_at, diags_view, lemma_reports_grow_auto};
use crate::analysis::args::{CallArg, args_ok, arg_for, arg_node, find_arg_node, find_call_arg};
use crate::analysis::checks::arrays::type_mismatch_diags;
use crate::analysis::checks::ta::value_of;
use crate::analysis::diag::{range_for_node, report, report_at, report_chars};
use crate::analysis::eval::{eval_numeric_constant, extract_identifier_name, identifier_name, node_ok, num_const};
use crate::analysis::infer::infer_spec;
use crate::fmt::{decimal, push_decimal, push_num, push_str, rational_text};
use crate::num::{Num, rat_round};
use crate::position::Range;
use crate::text::{chars_are, chars_of};
use crate::types::{BaseType, model_base};

verus! {

broadcast use lemma_reports_grow_auto;

/// The first of two optional argument nodes that is present.
pub open spec fn either(a: Option<int>, b: Option<int>) -> Option<int> {
    match a {
        Some(n) => Some(n),
        None => b,
    }
}

/// The name of the matrix argument `key` at `pos` and its known size.
pub open spec fn matrix_size_of(a: Analyzer, cx: Source, args: Seq<CallArg>, key: Seq<char>, pos: int) -> Option<(i64, i64)> {
    match arg_node(args, key, pos) {
        Some(m) => match identifier_name(*cx.tree, cx.text@, m) {
            Some(name) => if a.matrix_sizes@.contains_key(name) {
                Some(a.matrix_sizes@[name])
            } else {
                None
            },
            None => None,
        },
        None => None,
    }
}

/// The report on a constant index against a `limit` of rows or columns (`label`).
pub open spec fn index_limit_diags(cx: Source, n: int, v: (int, int), limit: i64, label: Seq<char>) -> Seq<DiagView> {
    if rat_round(v) >= limit {
        seq![diag_at(cx, n, Severity::Hint, DiagnosticCode::Logic, "Matrix "@ + label + " index "@ + decimal(rat_round(v)) + " is out of bounds for "@ + decimal(limit as int) + " "@ + label)]
    } else {
        Seq::empty()
    }
}

/// The report on an optional constant index at or past `limit`.
pub open spec fn bound_diag(cx: Source, n: int, v: Option<(int, int)>, limit: i64, label: Seq<char>, plural: Seq<char>) -> Seq<DiagView> {
    match v {
        Some(v) => if rat_round(v) >= limit {
            seq![diag_at(cx, n, Severity::Hint, DiagnosticCode::Logic, "Matrix "@ + label + " index "@ + decimal(rat_round(v)) + " is out of bounds for "@ + decimal(limit as int) + " "@ + plural)]
        } else {
            Seq::empty()
        },
        None => Seq::empty(),
    }
}

/// What `check_matrix_bounds` reports.
pub open spec fn matrix_bounds_diags(a: Analyzer, cx: Source, args: Seq<CallArg>, row_pos: int, col_pos: int) -> Seq<DiagView> {
    match arg_node(args, "m"@, 0) {
        Some(m) => match identifier_name(*cx.tree, cx.text@, m) {
            Some(name) => {
                let row = either(arg_node(args, "row"@, row_pos), arg_node(args, "index"@, row_pos));
                let col = either(arg_node(args, "column"@, col_pos), arg_node(args, "col"@, col_pos));
                match (row, col) {
                    (Some(r), Some(c)) => {
                        let rv = num_const(*cx.tree, cx.text@, r);
                        let cv = num_const(*cx.tree, cx.text@, c);
                        if rv matches Some(v) && v.0 < 0 {
                            seq![diag_at(cx, r, Severity::Hint, DiagnosticCode::Logic, "Matrix row index is negative; this will fail at runtime"@)]
                        } else if cv matches Some(v) && v.0 < 0 {
                            seq![diag_at(cx, c, Severity::Hint, DiagnosticCode::Logic, "Matrix column index is negative; this will fail at runtime"@)]
                        } else if a.matrix_sizes@.contains_key(name) {
                            let (rows, cols) = a.matrix_sizes@[name];
                            bound_diag(cx, r, rv, rows, "row"@, "rows"@) + bound_diag(cx, c, cv, cols, "column"@, "columns"@)
                        } else {
                            Seq::empty()
                        }
                    },
                    _ => Seq::empty(),
                }
            },
            None => Seq::empty(),
        },
        None => Seq::empty(),
    }
}

/// What `check_matrix_index_bounds` reports.
pub open spec fn matrix_index_diags(a: Analyzer, cx: Source, args: Seq<CallArg>, index_pos: int, is_row: bool) -> Seq<DiagView> {
    match arg_node(args, "m"@, 0) {
        Some(m) => match identifier_name(*cx.tree, cx.text@, m) {
            Some(name) => match arg_node(args, "index"@, index_pos) {
                Some(idx) => match num_const(*cx.tree, cx.text@, idx) {
                    Some(v) => if v.0 < 0 {
                        seq![diag_at(cx, idx, Severity::Hint, DiagnosticCode::Logic, "Matrix index is negative; this will fail at runtime"@)]
                    } else if a.matrix_sizes@.contains_key(name) {
                        let (rows, cols) = a.matrix_sizes@[name];
                        index_limit_diags(cx, idx, v, if is_row { rows } else { cols }, if is_row { "row"@ } else { "column"@ })
                    } else {
                        Seq::empty()
                    },
                    None => Seq::empty(),
                },
                None => Seq::empty(),
            },
            None => Seq::empty(),
        },
        None => Seq::empty(),
    }
}

/// The report on one index of a matrix swap.
pub open spec fn swap_index_diags(cx: Source, n: int, limit: i64, label: Seq<char>) -> Seq<DiagView> {
    match num_const(*cx.tree, cx.text@, n) {
        Some(v) => if v.0 < 0 {
            seq![diag_at(cx, n, Severity::Hint, DiagnosticCode::Logic, "Matrix index is negative; this will fail at runtime"@)]
        } else {
            index_limit_diags(cx, n, v, limit, label)
        },
        None => Seq::empty(),
    }
}

/// The argument for `first` or else `second` at `pos`.
pub open spec fn arg_either(args: Seq<CallArg>, first: Seq<char>, second: Seq<char>, pos: int) -> Option<int> {
    match arg_for(args, first, pos) {
        Some(p) => Some(p.0),
        None => arg_node(args, second, pos),
    }
}

/// What `check_matrix_swap_bounds` reports.
pub open spec fn matrix_swap_diags(a: Analyzer, cx: Source, args: Seq<CallArg>, first_pos: int, second_pos: int, is_row: bool) -> Seq<DiagView> {
    match arg_node(args, "m"@, 0) {
        Some(m) => match identifier_name(*cx.tree, cx.text@, m) {
            Some(name) => match (arg_either(args, "row1"@, "col1"@, first_pos), arg_either(args, "row2"@, "col2"@, second_pos)) {
                (Some(f), Some(s)) => if a.matrix_sizes@.contains_key(name) {
                    let (rows, cols) = a.matrix_sizes@[name];
                    let limit = if is_row { rows } else { cols };
                    let label = if is_row { "row"@ } else { "column"@ };
                    swap_index_diags(cx, f, limit, label) + swap_index_diags(cx, s, limit, label)
                } else {
                    Seq::empty()
                },
                _ => Seq::empty(),
            },
            None => Seq::empty(),
        },
        None => Seq::empty(),
    }
}

/// What `check_matrix_size_compat` reports.
pub open spec fn matrix_compat_diags(a: Analyzer, cx: Source, name: Seq<char>, args: Seq<CallArg>, call_range: Range) -> Seq<DiagView> {
    match (matrix_size_of(a, cx, args, "m1"@, 0), matrix_size_of(a, cx, args, "m2"@, 1)) {
        (Some((r1, c1)), Some((r2, c2))) => if name == "matrix.sum"@ || name == "matrix.diff"@ {
            if r1 != r2 || c1 != c2 {
                seq![diag(cx, call_range, Severity::Hint, DiagnosticCode::Logic, "Matrix operation requires matching dimensions"@)]
            } else {
                Seq::empty()
            }
        } else if name == "matrix.mult"@ {
            if c1 != r2 {
                seq![diag(cx, call_range, Severity::Hint, DiagnosticCode::Logic, "Matrix multiplication requires m1 columns == m2 rows"@)]
            } else {
                Seq::empty()
            }
        } else if name == "matrix.concat"@ {
            match value_of(cx, arg_node(args, "dimension"@, 2)) {
                Some(v) => {
                    let d = rat_round(v);
                    if d == 0 && c1 != c2 {
                        seq![diag(cx, call_range, Severity::Hint, DiagnosticCode::Logic, "Matrix concat by rows requires matching column counts"@)]
                    } else if d == 1 && r1 != r2 {
                        seq![diag(cx, call_range, Severity::Hint, DiagnosticCode::Logic, "Matrix concat by columns requires matching row counts"@)]
                    } else if d != 0 && d != 1 {
                        seq![diag(cx, call_range, Severity::Hint, DiagnosticCode::Logic, "Matrix concat dimension should be 0 (rows) or 1 (columns)"@)]
                    } else {
                        Seq::empty()
                    }
                },
                None => Seq::empty(),
            }
        } else {
            Seq::empty()
        },
        _ => Seq::empty(),
    }
}

/// What `check_matrix_type_consistency` reports.
pub open spec fn matrix_type_diags(a: Analyzer, cx: Source, name: Seq<char>, args: Seq<CallArg>) -> Seq<DiagView> {
    if !cx.settings.enable_array_type_checks || (name != "matrix.set"@ && name != "matrix.fill"@) {
        Seq::empty()
    } else {
        match arg_node(args, "m"@, 0) {
            Some(m) => match identifier_name(*cx.tree, cx.text@, m) {
                Some(mn) => if a.matrix_types@.contains_key(mn) {
                    match (if name == "matrix.set"@ { arg_node(args, "value"@, 3) } else { arg_node(args, "value"@, 1) }) {
                        Some(v) => type_mismatch_diags(cx, v, a.matrix_types@[mn], model_base(infer_spec(a, cx, v)), "Matrix"@),
                        None => Seq::empty(),
                    }
                } else {
                    Seq::empty()
                },
                None => Seq::empty(),
            },
            None => Seq::empty(),
        }
    }
}

/// Whether a table method addresses one cell by `column` and `row`.
pub open spec fn is_cell_method(name: Seq<char>) -> bool {
    name == "table.cell"@ || name == "table.cell_set_text"@ || name == "table.cell_set_bgcolor"@
        || name == "table.cell_set_text_color"@ || name == "table.cell_set_text_halign"@
        || name == "table.cell_set_text_valign"@ || name == "table.cell_set_text_size"@
        || name == "table.cell_set_text_formatting"@ || name == "table.cell_set_text_font_family"@
        || name == "table.cell_set_tooltip"@ || name == "table.cell_set_width"@ || name == "table.cell_set_height"@
}

/// The reports on one (column, row) pair of a table of `rows` by `cols`.
pub open spec fn cell_diags(cx: Source, col: int, row: int, rows: i64, cols: i64) -> Seq<DiagView> {
    (match num_const(*cx.tree, cx.text@, col) {
        Some(c) => if c.0 < 0 || rat_round(c) >= cols {
            seq![diag_at(cx, col, Severity::Hint, DiagnosticCode::Logic, "Table column "@ + rational_text(c.0, c.1) + " is out of bounds for "@ + decimal(cols as int) + " columns"@)]
        } else {
            Seq::empty()
        },
        None => Seq::empty(),
    }) + (match num_const(*cx.tree, cx.text@, row) {
        Some(r) => if r.0 < 0 || rat_round(r) >= rows {
            seq![diag_at(cx, row, Severity::Hint, DiagnosticCode::Logic, "Table row "@ + rational_text(r.0, r.1) + " is out of bounds for "@ + decimal(rows as int) + " rows"@)]
        } else {
            Seq::empty()
        },
        None => Seq::empty(),
    })
}

/// The reports on a pair of optional column and row nodes.
pub open spec fn pair_diags(cx: Source, col: Option<int>, row: Option<int>, rows: i64, cols: i64) -> Seq<DiagView> {
    match (col, row) {
        (Some(c), Some(r)) => cell_diags(cx, c, r, rows, cols),
        _ => Seq::empty(),
    }
}

/// What `check_table_bounds` reports.
pub open spec fn table_bounds_diags(a: Analyzer, cx: Source, name: Seq<char>, args: Seq<CallArg>) -> Seq<DiagView> {
    if !cx.settings.enable_table_bounds_checks {
        Seq::empty()
    } else {
        match arg_node(args, "id"@, 0) {
            Some(t) => match identifier_name(*cx.tree, cx.text@, t) {
                Some(tn) => if a.table_sizes@.contains_key(tn) {
                    let (rows, cols) = a.table_sizes@[tn];
                    if is_cell_method(name) {
                        pair_diags(cx, arg_node(args, "column"@, 1), arg_node(args, "row"@, 2), rows, cols)
                    } else if name == "table.merge_cells"@ || name == "table.clear"@ {
                        pair_diags(cx, arg_either(args, "start_column"@, "start_col"@, 1), arg_node(args, "start_row"@, 2), rows, cols)
                            + pair_diags(cx, arg_either(args, "end_column"@, "end_col"@, 3), arg_node(args, "end_row"@, 4), rows, cols)
                    } else {
                        Seq::empty()
                    }
                } else {
                    Seq::empty()
                },
                None => Seq::empty(),
            },
            None => Seq::empty(),
        }
    }
}

fn find_arg_either(args: &Vec<CallArg>, first: &str, second: &str, pos: usize) -> (r: Option<usize>)
    ensures
        (match r { Some(n) => Some(n as int), None => None }) == arg_either(args@, first@, second@, pos as int),
        r matches Some(n) ==> crate::analysis::args::is_arg_node(args@, n as int),
{
    match find_call_arg(args, first, pos) {
        Some(p) => Some(p.0),
        None => find_arg_node(args, second, pos),
    }
}

fn is_cell_method_name(name: &Vec<char>) -> (r: bool)
    ensures
        r == is_cell_method(name@),
{
    chars_are(name, "table.cell") || chars_are(name, "table.cell_set_text") || chars_are(name, "table.cell_set_bgcolor")
        || chars_are(name, "table.cell_set_text_color") || chars_are(name, "table.cell_set_text_halign")
        || chars_are(name, "table.cell_set_text_valign") || chars_are(name, "table.cell_set_text_size")
        || chars_are(name, "table.cell_set_text_formatting") || chars_are(name, "table.cell_set_text_font_family")
        || chars_are(name, "table.cell_set_tooltip") || chars_are(name, "table.cell_set_width")
        || chars_are(name, "table.cell_set_height")
}

impl Analyzer {
    fn matrix_size_named(&self, cx: &Source, args: &Vec<CallArg>, key: &str, pos: usize) -> (r: Option<(i64, i64)>)
        requires
            self.wf(),
            cx.wf(),
            args_ok(*cx.tree, args@),
        ensures
            r == matrix_size_of(*self, *cx, args@, key@, pos as int),
    {
        let m = match find_arg_node(args, key, pos) {
            Some(n) => n,
            None => {
                return None;
            },
        };
        let name = match extract_identifier_name(cx.tree, cx.text, m) {
            Some(v) => v,
            None => {
                return None;
            },
        };
        match self.matrix_sizes.get(&name) {
            Some(s) => Some(*s),
            None => None,
        }
    }

    fn report_index_limit(&mut self, cx: &Source, n: usize, v: Num, limit: i64, label: &str)
        requires
            old(self).wf(),
            cx.wf(),
            node_ok(*cx.tree, n as int),
            v.wf(),
        ensures
            final(self).wf(),
            Analyzer::same_state(*old(self), *final(self)),
            diags_view(final(self).diagnostics@) == diags_view(old(self).diagnostics@) + index_limit_diags(*cx, n as int, v.pair(), limit, label@),
    {
        let iv = v.round();
        if iv >= limit {
            let mut msg = chars_of("Matrix ");
            push_str(&mut msg, label);
            push_str(&mut msg, " index ");
            push_decimal(&mut msg, iv);
            push_str(&mut msg, " is out of bounds for ");
            push_decimal(&mut msg, limit);
            push_str(&mut msg, " ");
            push_str(&mut msg, label);
            let range = range_for_node(cx, n);
            report_chars(&mut self.diagnostics, cx, range, Severity::Hint, DiagnosticCode::Logic, &msg);
        }
    }

    fn report_bound(&mut self, cx: &Source, n: usize, v: Option<Num>, limit: i64, label: &str, plural: &str)
        requires
            old(self).wf(),
            cx.wf(),
            node_ok(*cx.tree, n as int),
            v matches Some(x) ==> x.wf(),
        ensures
            final(self).wf(),
            Analyzer::same_state(*old(self), *final(self)),
            diags_view(final(self).diagnostics@) == diags_view(old(self).diagnostics@) + bound_diag(*cx, n as int,
                crate::num::opt_pair(v), limit, label@, plural@),
    {
        match v {
            Some(v) => {
                let iv = v.round();
                if iv >= limit {
                    let mut msg = chars_of("Matrix ");
                    push_str(&mut msg, label);
                    push_str(&mut msg, " index ");
                    push_decimal(&mut msg, iv);
                    push_str(&mut msg, " is out of bounds for ");
                    push_decimal(&mut msg, limit);
                    push_str(&mut msg, " ");
                    push_str(&mut msg, plural);
                    let range = range_for_node(cx, n);
                    report_chars(&mut self.diagnostics, cx, range, Severity::Hint, DiagnosticCode::Logic, &msg);
                }
            },
            None => {},
        }
    }

    /// Checks the row and column indexes of `matrix.get` and `matrix.set`.
    #[verifier::rlimit(80)]
    pub fn check_matrix_bounds(&mut self, cx: &Source, args: &Vec<CallArg>, row_pos: usize, col_pos: usize)
        requires
            old(self).wf(),
            cx.wf(),
            args_ok(*cx.tree, args@),
        ensures
            final(self).wf(),
            Analyzer::same_state(*old(self), *final(self)),
            diags_view(final(self).diagnostics@) == diags_view(old(self).diagnostics@) + matrix_bounds_diags(*old(self), *cx, args@, row_pos as int, col_pos as int),
    {
        let m = match find_arg_node(args, "m", 0) {
            Some(n) => n,
            None => {
                return;
            },
        };
        let name = match extract_identifier_name(cx.tree, cx.text, m) {
            Some(v) => v,
            None => {
                return;
            },
        };
        let row = match find_arg_node(args, "row", row_pos) {
            Some(n) => Some(n),
            None => find_arg_node(args, "index", row_pos),
        };
        let col = match find_arg_node(args, "column", col_pos) {
            Some(n) => Some(n),
            None => find_arg_node(args, "col", col_pos),
        };
        let (r, c) = match (row, col) {
            (Some(r), Some(c)) => (r, c),
            _ => {
                return;
            },
        };
        let rv = eval_numeric_constant(cx.tree, cx.text, r);
        let cv = eval_numeric_constant(cx.tree, cx.text, c);
        match &rv {
            Some(v) => {
                if v.is_negative() {
                    report_at(&mut self.diagnostics, cx, r, Severity::Hint, DiagnosticCode::Logic,
                        "Matrix row index is negative; this will fail at runtime");
                    return;
                }
            },
            None => {},
        }
        match &cv {
            Some(v) => {
                if v.is_negative() {
                    report_at(&mut self.diagnostics, cx, c, Severity::Hint, DiagnosticCode::Logic,
                        "Matrix column index is negative; this will fail at runtime");
                    return;
                }
            },
            None => {},
        }
        let (rows, cols) = match self.matrix_sizes.get(&name) {
            Some(s) => *s,
            None => {
                return;
            },
        };
        let ghost d0 = diags_view(self.diagnostics@);
        self.report_bound(cx, r, rv, rows, "row", "rows");
        self.report_bound(cx, c, cv, cols, "column", "columns");
        assert(diags_view(self.diagnostics@) =~= d0 + matrix_bounds_diags(*old(self), *cx, args@, row_pos as int, col_pos as int));
    }

    /// Checks the row or column index of the matrix row and column methods.
    pub fn check_matrix_index_bounds(&mut self, cx: &Source, args: &Vec<CallArg>, index_pos: usize, is_row: bool)
        requires
            old(self).wf(),
            cx.wf(),
            args_ok(*cx.tree, args@),
        ensures
            final(self).wf(),
            Analyzer::same_state(*old(self), *final(self)),
            diags_view(final(self).diagnostics@) == diags_view(old(self).diagnostics@) + matrix_index_diags(*old(self), *cx, args@, index_pos as int, is_row),
    {
        let m = match find_arg_node(args, "m", 0) {
            Some(n) => n,
            None => {
                return;
            },
        };
        let name = match extract_identifier_name(cx.tree, cx.text, m) {
            Some(v) => v,
            None => {
                return;
            },
        };
        let idx = match find_arg_node(args, "index", index_pos) {
            Some(n) => n,
            None => {
                return;
            },
        };
        let v = match eval_numeric_constant(cx.tree, cx.text, idx) {
            Some(v) => v,
            None => {
                return;
            },
        };
        if v.is_negative() {
            report_at(&mut self.diagnostics, cx, idx, Severity::Hint, DiagnosticCode::Logic,
                "Matrix index is negative; this will fail at runtime");
            return;
        }
        let (rows, cols) = match self.matrix_sizes.get(&name) {
            Some(s) => *s,
            None => {
                return;
            },
        };
        if is_row {
            self.report_index_limit(cx, idx, v, rows, "row");
        } else {
            self.report_index_limit(cx, idx, v, cols, "column");
        }
    }

    fn check_swap_index(&mut self, cx: &Source, n: usize, limit: i64, label: &str)
        requires
            old(self).wf(),
            cx.wf(),
            node_ok(*cx.tree, n as int),
        ensures
            final(self).wf(),
            Analyzer::same_state(*old(self), *final(self)),
            diags_view(final(self).diagnostics@) == diags_view(old(self).diagnostics@) + swap_index_diags(*cx, n as int, limit, label@),
    {
        match eval_numeric_constant(cx.tree, cx.text, n) {
            Some(v) => {
                if v.is_negative() {
                    report_at(&mut self.diagnostics, cx, n, Severity::Hint, DiagnosticCode::Logic,
                        "Matrix index is negative; this will fail at runtime");
                } else {
                    self.report_index_limit(cx, n, v, limit, label);
                }
            },
            None => {},
        }
    }

    /// Checks the two indexes of `matrix.swap_rows` and `matrix.swap_columns`.
    pub fn check_matrix_swap_bounds(&mut self, cx: &Source, args: &Vec<CallArg>, first_pos: usize, second_pos: usize, is_row: bool)
        requires
            old(self).wf(),
            cx.wf(),
            args_ok(*cx.tree, args@),
        ensures
            final(self).wf(),
            Analyzer::same_state(*old(self), *final(self)),
            diags_view(final(self).diagnostics@) == diags_view(old(self).diagnostics@) + matrix_swap_diags(*old(self), *cx, args@, first_pos as int, second_pos as int, is_row),
    {
        let m = match find_arg_node(args, "m", 0) {
            Some(n) => n,
            None => {
                return;
            },
        };
        let name = match extract_identifier_name(cx.tree, cx.text, m) {
            Some(v) => v,
            None => {
                return;
            },
        };
        let f = match find_arg_either(args, "row1", "col1", first_pos) {
            Some(n) => n,
            None => {
                return;
            },
        };
        let s = match find_arg_either(args, "row2", "col2", second_pos) {
            Some(n) => n,
            None => {
                return;
            },
        };
        let (rows, cols) = match self.matrix_sizes.get(&name) {
            Some(sz) => *sz,
            None => {
                return;
            },
        };
        let limit = if is_row { rows } else { cols };
        let label = if is_row { "row" } else { "column" };
        let ghost d0 = diags_view(self.diagnostics@);
        self.check_swap_index(cx, f, limit, label);
        self.check_swap_index(cx, s, limit, label);
        assert(diags_view(self.diagnostics@) =~= d0 + matrix_swap_diags(*old(self), *cx, args@, first_pos as int, second_pos as int, is_row));
    }

    /// Checks that the sizes of the two matrices of `matrix.sum`,
    /// `matrix.diff`, `matrix.mult` and `matrix.concat` fit together.
    pub fn check_matrix_size_compat(&mut self, cx: &Source, name: &Vec<char>, args: &Vec<CallArg>, call_range: Range)
        requires
            old(self).wf(),
            cx.wf(),
            args_ok(*cx.tree, args@),
        ensures
            final(self).wf(),
            Analyzer::same_state(*old(self), *final(self)),
            diags_view(final(self).diagnostics@) == diags_view(old(self).diagnostics@) + matrix_compat_diags(*old(self), *cx, name@, args@, call_range),
    {
        let (r1, c1) = match self.matrix_size_named(cx, args, "m1", 0) {
            Some(s) => s,
            None => {
                return;
            },
        };
        let (r2, c2) = match self.matrix_size_named(cx, args, "m2", 1) {
            Some(s) => s,
            None => {
                return;
            },
        };
        if chars_are(name, "matrix.sum") || chars_are(name, "matrix.diff") {
            if r1 != r2 || c1 != c2 {
                report(&mut self.diagnostics, cx, call_range, Severity::Hint, DiagnosticCode::Logic,
                    "Matrix operation requires matching dimensions");
            }
        } else if chars_are(name, "matrix.mult") {
            if c1 != r2 {
                report(&mut self.diagnostics, cx, call_range, Severity::Hint, DiagnosticCode::Logic,
                    "Matrix multiplication requires m1 columns == m2 rows");
            }
        } else if chars_are(name, "matrix.concat") {
            let dim = match find_arg_node(args, "dimension", 2) {
                Some(n) => match eval_numeric_constant(cx.tree, cx.text, n) {
                    Some(v) => Some(v.round()),
                    None => None,
                },
                None => None,
            };
            match dim {
                Some(d) => {
                    if d == 0 && c1 != c2 {
                        report(&mut self.diagnostics, cx, call_range, Severity::Hint, DiagnosticCode::Logic,
                            "Matrix concat by rows requires matching column counts");
                    } else if d == 1 && r1 != r2 {
                        report(&mut self.diagnostics, cx, call_range, Severity::Hint, DiagnosticCode::Logic,
                            "Matrix concat by columns requires matching row counts");
                    } else if d != 0 && d != 1 {
                        report(&mut self.diagnostics, cx, call_range, Severity::Hint, DiagnosticCode::Logic,
                            "Matrix concat dimension should be 0 (rows) or 1 (columns)");
                    }
                },
                None => {},
            }
        }
    }

    /// Reports values whose type does not fit the element type of the matrix.
    pub fn check_matrix_type_consistency(&mut self, cx: &Source, name: &Vec<char>, args: &Vec<CallArg>)
        requires
            old(self).wf(),
            cx.wf(),
            args_ok(*cx.tree, args@),
        ensures
            final(self).wf(),
            Analyzer::same_state(*old(self), *final(self)),
            diags_view(final(self).diagnostics@) == diags_view(old(self).diagnostics@) + matrix_type_diags(*old(self), *cx, name@, args@),
    {
        if !cx.settings.enable_array_type_checks {
            return;
        }
        let is_set = chars_are(name, "matrix.set");
        if !is_set && !chars_are(name, "matrix.fill") {
            return;
        }
        let m = match find_arg_node(args, "m", 0) {
            Some(n) => n,
            None => {
                return;
            },
        };
        let mn = match extract_identifier_name(cx.tree, cx.text, m) {
            Some(v) => v,
            None => {
                return;
            },
        };
        let expected = match self.matrix_types.get(&mn) {
            Some(b) => *b,
            None => {
                return;
            },
        };
        let value = if is_set {
            find_arg_node(args, "value", 3)
        } else {
            find_arg_node(args, "value", 1)
        };
        let v = match value {
            Some(v) => v,
            None => {
                return;
            },
        };
        let actual = self.infer_expr_type(cx, v).base();
        self.report_type_mismatch_at(cx, v, expected, actual);
    }

    fn report_type_mismatch_at(&mut self, cx: &Source, n: usize, expected: BaseType, actual: BaseType)
        requires
            old(self).wf(),
            cx.wf(),
            node_ok(*cx.tree, n as int),
        ensures
            final(self).wf(),
            Analyzer::same_state(*old(self), *final(self)),
            diags_view(final(self).diagnostics@) == diags_view(old(self).diagnostics@) + type_mismatch_diags(*cx, n as int, expected, actual, "Matrix"@),
    {
        self.report_mismatch(cx, n, expected, actual, "Matrix");
    }

    fn check_cell(&mut self, cx: &Source, col: Option<usize>, row: Option<usize>, rows: i64, cols: i64)
        requires
            old(self).wf(),
            cx.wf(),
            col matches Some(n) ==> node_ok(*cx.tree, n as int),
            row matches Some(n) ==> node_ok(*cx.tree, n as int),
        ensures
            final(self).wf(),
            Analyzer::same_state(*old(self), *final(self)),
            diags_view(final(self).diagnostics@) == diags_view(old(self).diagnostics@) + pair_diags(*cx,
                match col { Some(n) => Some(n as int), None => None },
                match row { Some(n) => Some(n as int), None => None }, rows, cols),
    {
        let (c, r) = match (col, row) {
            (Some(c), Some(r)) => (c, r),
            _ => {
                return;
            },
        };
        let ghost d0 = diags_view(self.diagnostics@);
        match eval_numeric_constant(cx.tree, cx.text, c) {
            Some(v) => {
                if v.is_negative() || v.round() >= cols {
                    let mut msg = chars_of("Table column ");
                    push_num(&mut msg, &v);
                    push_str(&mut msg, " is out of bounds for ");
                    push_decimal(&mut msg, cols);
                    push_str(&mut msg, " columns");
                    let range = range_for_node(cx, c);
                    report_chars(&mut self.diagnostics, cx, range, Severity::Hint, DiagnosticCode::Logic, &msg);
                }
            },
            None => {},
        }
        match eval_numeric_constant(cx.tree, cx.text, r) {
            Some(v) => {
                if v.is_negative() || v.round() >= rows {
                    let mut msg = chars_of("Table row ");
                    push_num(&mut msg, &v);
                    push_str(&mut msg, " is out of bounds for ");
                    push_decimal(&mut msg, rows);
                    push_str(&mut msg, " rows");
                    let range = range_for_node(cx, r);
                    report_chars(&mut self.diagnostics, cx, range, Severity::Hint, DiagnosticCode::Logic, &msg);
                }
            },
            None => {},
        }
        assert(diags_view(self.diagnostics@) =~= d0 + pair_diags(*cx, Some(c as int), Some(r as int), rows, cols));
    }

    /// Checks the cells a table method addresses against the table's size.
    pub fn check_table_bounds(&mut self, cx: &Source, name: &Vec<char>, args: &Vec<CallArg>)
        requires
            old(self).wf(),
            cx.wf(),
            args_ok(*cx.tree, args@),
        ensures
            final(self).wf(),
            Analyzer::same_state(*old(self), *final(self)),
            diags_view(final(self).diagnostics@) == diags_view(old(self).diagnostics@) + table_bounds_diags(*old(self), *cx, name@, args@),
    {
        if !cx.settings.enable_table_bounds_checks {
            return;
        }
        let t = match find_arg_node(args, "id", 0) {
            Some(n) => n,
            None => {
                return;
            },
        };
        let tn = match extract_identifier_name(cx.tree, cx.text, t) {
            Some(v) => v,
            None => {
                return;
            },
        };
        let (rows, cols) = match self.table_sizes.get(&tn) {
            Some(s) => *s,
            None => {
                return;
            },
        };
        if is_cell_method_name(name) {
            self.check_cell(cx, find_arg_node(args, "column", 1), find_arg_node(args, "row", 2), rows, cols);
        } else if chars_are(name, "table.merge_cells") || chars_are(name, "table.clear") {
            let ghost d0 = diags_view(self.diagnostics@);
            let sc = find_arg_either(args, "start_column", "start_col", 1);
            let sr = find_arg_node(args, "start_row", 2);
            let ec = find_arg_either(args, "end_column", "end_col", 3);
            let er = find_arg_node(args, "end_row", 4);
            self.check_cell(cx, sc, sr, rows, cols);
            self.check_cell(cx, ec, er, rows, cols);
            assert(diags_view(self.diagnostics@) =~= d0 + table_bounds_diags(*old(self), *cx, name@, args@));
        }
    }
}

} // verus!
