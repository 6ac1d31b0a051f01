//! What the analyzer learns of arrays and maps from their constructors, and
//! the checks of indexes, empty arrays, element types and map operations.

use vstd::prelude::*;

use crate::analysis::{Analyzer, DiagView, DiagnosticCode, Severity, Source, diag_at, diags_view, lemma_reports_grow_auto};
use crate::analysis::args::{CallArg, args_ok, arg_for, arg_node, find_arg_node, find_call_arg};
use crate::analysis::diag::{range_for_node, report, report_at, report_chars};
use crate::analysis::eval::{eval_numeric_constant, extract_identifier_name, identifier_name, node_ok, num_const};
use crate::analysis::infer::{base_compatible, infer_spec, is_base_type_compatible};
use crate::fmt::{decimal, push_decimal, push_str, wrap_chars};
use crate::num::rat_round;
use crate::position::Range;
use crate::text::{chars_are, chars_of, has_prefix, starts_with_lit};
use crate::types::{BaseType, base_type_name, model_base};

verus! {

broadcast use lemma_reports_grow_auto;

/// The known base types of the first `k` arguments, in order.
pub open spec fn known_bases(a: Analyzer, cx: Source, args: Seq<CallArg>, k: int) -> Seq<BaseType>
    decreases k,
{
    if k <= 0 {
        Seq::empty()
    } else {
        let b = model_base(infer_spec(a, cx, args[k - 1].node as int));
        if b == BaseType::Unknown {
            known_bases(a, cx, args, k - 1)
        } else {
            known_bases(a, cx, args, k - 1).push(b)
        }
    }
}

/// All the base types are the first one.
pub open spec fn uniform(types: Seq<BaseType>) -> bool {
    forall|i: int| 0 <= i < types.len() ==> #[trigger] types[i] == types[0]
}

/// The base type of the value of an argument, when it has one.
pub open spec fn arg_base(a: Analyzer, cx: Source, n: Option<int>) -> BaseType {
    match n {
        Some(node) => model_base(infer_spec(a, cx, node)),
        None => BaseType::Unknown,
    }
}

/// The report on an index for an array `arr` of `size` elements (if known).
pub open spec fn array_bounds_diags(a: Analyzer, cx: Source, args: Seq<CallArg>, index_pos: int) -> Seq<DiagView> {
    match (arg_node(args, "arr"@, 0), arg_node(args, "index"@, index_pos)) {
        (Some(arr), Some(idx)) => match (identifier_name(*cx.tree, cx.text@, arr), num_const(*cx.tree, cx.text@, idx)) {
            (Some(name), Some(v)) => if v.0 < 0 {
                seq![diag_at(cx, idx, Severity::Hint, DiagnosticCode::Logic, "Array index is negative; this will fail at runtime"@)]
            } else {
                let iv = rat_round(v);
                if a.array_sizes@.contains_key(name) {
                    let size = a.array_sizes@[name];
                    if size == 0 && cx.settings.enable_array_empty_checks {
                        seq![diag_at(cx, idx, Severity::Hint, DiagnosticCode::Logic, "Array is empty; index access will fail"@)]
                    } else if iv >= size {
                        seq![diag_at(cx, idx, Severity::Hint, DiagnosticCode::Logic, "Array index "@ + decimal(iv) + " is out of bounds for size "@ + decimal(size as int))]
                    } else {
                        Seq::empty()
                    }
                } else if cx.settings.array_unknown_index_warn_threshold > 0 && iv >= cx.settings.array_unknown_index_warn_threshold {
                    seq![diag_at(cx, idx, Severity::Hint, DiagnosticCode::Logic, "Array index "@ + decimal(iv) + " may be out of bounds; array size unknown"@)]
                } else {
                    Seq::empty()
                }
            },
            _ => Seq::empty(),
        },
        _ => Seq::empty(),
    }
}

/// The report on an operation that needs an element, on an array known to be empty.
pub open spec fn array_empty_diags(a: Analyzer, cx: Source, args: Seq<CallArg>) -> Seq<DiagView> {
    if !cx.settings.enable_array_empty_checks {
        Seq::empty()
    } else {
        match arg_node(args, "arr"@, 0) {
            Some(arr) => match identifier_name(*cx.tree, cx.text@, arr) {
                Some(name) => if a.array_sizes@.contains_key(name) && a.array_sizes@[name] == 0 {
                    seq![diag_at(cx, arr, Severity::Hint, DiagnosticCode::Logic, "Array is empty; operation will fail"@)]
                } else {
                    Seq::empty()
                },
                None => Seq::empty(),
            },
            None => Seq::empty(),
        }
    }
}

/// The argument holding the value an array method stores.
pub open spec fn array_value_arg(name: Seq<char>, args: Seq<CallArg>) -> Option<int> {
    if name == "array.push"@ || name == "array.unshift"@ {
        arg_node(args, "value"@, 1)
    } else if name == "array.set"@ || name == "array.insert"@ {
        arg_node(args, "value"@, 2)
    } else {
        None
    }
}

/// The report on a stored value whose type does not fit the element type `expected`.
pub open spec fn type_mismatch_diags(cx: Source, n: int, expected: BaseType, actual: BaseType, what: Seq<char>) -> Seq<DiagView> {
    if actual != BaseType::Unknown && !base_compatible(expected, actual) {
        seq![diag_at(cx, n, Severity::Hint, DiagnosticCode::Logic, what + " value type `"@ + base_type_name(actual) + "` does not match expected `"@ + base_type_name(expected) + "`"@)]
    } else {
        Seq::empty()
    }
}

/// What `check_array_type_consistency` reports.
pub open spec fn array_type_diags(a: Analyzer, cx: Source, name: Seq<char>, args: Seq<CallArg>) -> Seq<DiagView> {
    if !cx.settings.enable_array_type_checks {
        Seq::empty()
    } else if name == "array.from"@ {
        let types = known_bases(a, cx, args, args.len() as int);
        if types.len() > 0 && !uniform(types) {
            seq![diag_at(cx, args[0].node as int, Severity::Hint, DiagnosticCode::Logic, "array.from uses mixed value types"@)]
        } else {
            Seq::empty()
        }
    } else {
        match arg_node(args, "arr"@, 0) {
            Some(arr) => match identifier_name(*cx.tree, cx.text@, arr) {
                Some(an) => if a.array_types@.contains_key(an) {
                    match array_value_arg(name, args) {
                        Some(v) => type_mismatch_diags(cx, v, a.array_types@[an], model_base(infer_spec(a, cx, v)), "Array"@),
                        None => Seq::empty(),
                    }
                } else {
                    Seq::empty()
                },
                None => Seq::empty(),
            },
            None => Seq::empty(),
        }
    }
}

impl Analyzer {
    /// The known base types of the arguments, in order.
    pub fn known_argument_bases(&self, cx: &Source, args: &Vec<CallArg>) -> (r: Vec<BaseType>)
        requires
            self.wf(),
            cx.wf(),
            args_ok(*cx.tree, args@),
        ensures
            r@ == known_bases(*self, *cx, args@, args@.len() as int),
    {
        let mut types: Vec<BaseType> = Vec::new();
        let mut k: usize = 0;
        while k < args.len()
            invariant
                self.wf(),
                cx.wf(),
                args_ok(*cx.tree, args@),
                k <= args@.len(),
                types@ == known_bases(*self, *cx, args@, k as int),
            decreases args@.len() - k,
        {
            let b = self.infer_expr_type(cx, args[k].node).base();
            if b != BaseType::Unknown {
                types.push(b);
            }
            k = k + 1;
        }
        types
    }

    /// Reports a constant array index that is negative or past the known size.
    pub fn check_array_bounds(&mut self, cx: &Source, args: &Vec<CallArg>, index_pos: usize)
        requires
            old(self).wf(),
            cx.wf(),
            args_ok(*cx.tree, args@),
        ensures
            final(self).wf(),
            Analyzer::same_state(*old(self), *final(self)),
            diags_view(final(self).diagnostics@) == diags_view(old(self).diagnostics@) + array_bounds_diags(*old(self), *cx, args@, index_pos as int),
    {
        let arr = match find_arg_node(args, "arr", 0) {
            Some(n) => n,
            None => {
                return;
            },
        };
        let idx = match find_arg_node(args, "index", index_pos) {
            Some(n) => n,
            None => {
                return;
            },
        };
        let name = match extract_identifier_name(cx.tree, cx.text, arr) {
            Some(v) => v,
            None => {
                return;
            },
        };
        let v = match eval_numeric_constant(cx.tree, cx.text, idx) {
            Some(v) => v,
            None => {
                return;
            },
        };
        if v.is_negative() {
            report_at(&mut self.diagnostics, cx, idx, Severity::Hint, DiagnosticCode::Logic,
                "Array index is negative; this will fail at runtime");
            return;
        }
        let iv = v.round();
        let size = match self.array_sizes.get(&name) {
            Some(s) => Some(*s),
            None => None,
        };
        match size {
            Some(size) => {
                if size == 0 && cx.settings.enable_array_empty_checks {
                    report_at(&mut self.diagnostics, cx, idx, Severity::Hint, DiagnosticCode::Logic,
                        "Array is empty; index access will fail");
                    return;
                }
                if iv >= size {
                    let mut msg = chars_of("Array index ");
                    push_decimal(&mut msg, iv);
                    push_str(&mut msg, " is out of bounds for size ");
                    push_decimal(&mut msg, size);
                    let range = range_for_node(cx, idx);
                    report_chars(&mut self.diagnostics, cx, range, Severity::Hint, DiagnosticCode::Logic, &msg);
                }
            },
            None => {
                let th = cx.settings.array_unknown_index_warn_threshold;
                if th > 0 && iv >= th {
                    let mut msg = chars_of("Array index ");
                    push_decimal(&mut msg, iv);
                    push_str(&mut msg, " may be out of bounds; array size unknown");
                    let range = range_for_node(cx, idx);
                    report_chars(&mut self.diagnostics, cx, range, Severity::Hint, DiagnosticCode::Logic, &msg);
                }
            },
        }
    }

    /// Reports an operation that needs an element on an array known to be empty.
    pub fn check_array_empty_ops(&mut self, cx: &Source, args: &Vec<CallArg>)
        requires
            old(self).wf(),
            cx.wf(),
            args_ok(*cx.tree, args@),
        ensures
            final(self).wf(),
            Analyzer::same_state(*old(self), *final(self)),
            diags_view(final(self).diagnostics@) == diags_view(old(self).diagnostics@) + array_empty_diags(*old(self), *cx, args@),
    {
        if !cx.settings.enable_array_empty_checks {
            return;
        }
        let arr = match find_arg_node(args, "arr", 0) {
            Some(n) => n,
            None => {
                return;
            },
        };
        let name = match extract_identifier_name(cx.tree, cx.text, arr) {
            Some(v) => v,
            None => {
                return;
            },
        };
        match self.array_sizes.get(&name) {
            Some(size) => {
                if *size == 0 {
                    report_at(&mut self.diagnostics, cx, arr, Severity::Hint, DiagnosticCode::Logic,
                        "Array is empty; operation will fail");
                }
            },
            None => {},
        }
    }

    pub fn report_mismatch(&mut self, cx: &Source, n: usize, expected: BaseType, actual: BaseType, what: &str)
        requires
            old(self).wf(),
            cx.wf(),
            node_ok(*cx.tree, n as int),
        ensures
            final(self).wf(),
            Analyzer::same_state(*old(self), *final(self)),
            diags_view(final(self).diagnostics@) == diags_view(old(self).diagnostics@) + type_mismatch_diags(*cx, n as int, expected, actual, what@),
    {
        if actual != BaseType::Unknown && !is_base_type_compatible(expected, actual) {
            let mut msg = chars_of(what);
            push_str(&mut msg, " value type `");
            let an = actual.display_name();
            push_str(&mut msg, an.as_str());
            push_str(&mut msg, "` does not match expected `");
            let en = expected.display_name();
            push_str(&mut msg, en.as_str());
            push_str(&mut msg, "`");
            let range = range_for_node(cx, n);
            report_chars(&mut self.diagnostics, cx, range, Severity::Hint, DiagnosticCode::Logic, &msg);
        }
    }

    /// Reports values whose type does not fit the element type of the array.
    pub fn check_array_type_consistency(&mut self, cx: &Source, name: &Vec<char>, args: &Vec<CallArg>)
        requires
            old(self).wf(),
            cx.wf(),
            args_ok(*cx.tree, args@),
        ensures
            final(self).wf(),
            Analyzer::same_state(*old(self), *final(self)),
            diags_view(final(self).diagnostics@) == diags_view(old(self).diagnostics@) + array_type_diags(*old(self), *cx, name@, args@),
    {
        if !cx.settings.enable_array_type_checks {
            return;
        }
        if chars_are(name, "array.from") {
            let types = self.known_argument_bases(cx, args);
            if types.len() > 0 {
                let first = types[0];
                let mut mixed = false;
                let mut i: usize = 0;
                while i < types.len()
                    invariant
                        i <= types@.len(),
                        types@.len() > 0,
                        first == types@[0],
                        mixed == !(forall|j: int| 0 <= j < i ==> #[trigger] types@[j] == types@[0]),
                    decreases types@.len() - i,
                {
                    if types[i] != first {
                        mixed = true;
                    }
                    i = i + 1;
                }
                if mixed {
                    proof {
                        assert(args@.len() > 0) by {
                            if args@.len() == 0 {
                                assert(known_bases(*self, *cx, args@, 0) =~= Seq::<BaseType>::empty());
                            }
                        }
                    }
                    report_at(&mut self.diagnostics, cx, args[0].node, Severity::Hint, DiagnosticCode::Logic,
                        "array.from uses mixed value types");
                }
            }
            return;
        }
        let arr = match find_arg_node(args, "arr", 0) {
            Some(n) => n,
            None => {
                return;
            },
        };
        let an = match extract_identifier_name(cx.tree, cx.text, arr) {
            Some(v) => v,
            None => {
                return;
            },
        };
        let expected = match self.array_types.get(&an) {
            Some(b) => *b,
            None => {
                return;
            },
        };
        let value = if chars_are(name, "array.push") || chars_are(name, "array.unshift") {
            find_arg_node(args, "value", 1)
        } else if chars_are(name, "array.set") || chars_are(name, "array.insert") {
            find_arg_node(args, "value", 2)
        } else {
            None
        };
        let v = match value {
            Some(v) => v,
            None => {
                return;
            },
        };
        let actual = self.infer_expr_type(cx, v).base();
        self.report_mismatch(cx, v, expected, actual, "Array");
    }
}

/// A constant array index: a negative one is reported at the index; on an
/// array of known, nonzero size, a nonnegative one is reported exactly when
/// its rounded value is not below the size.
pub proof fn lemma_array_index(a: Analyzer, cx: Source, args: Seq<CallArg>, index_pos: int, arr: int, idx: int, name: Seq<char>, v: (int, int))
    requires
        arg_node(args, "arr"@, 0) == Some(arr),
        arg_node(args, "index"@, index_pos) == Some(idx),
        identifier_name(*cx.tree, cx.text@, arr) == Some(name),
        num_const(*cx.tree, cx.text@, idx) == Some(v),
    ensures
        v.0 < 0 ==> array_bounds_diags(a, cx, args, index_pos) == seq![
            diag_at(cx, idx, Severity::Hint, DiagnosticCode::Logic, "Array index is negative; this will fail at runtime"@),
        ],
        v.0 >= 0 && a.array_sizes@.contains_key(name) && a.array_sizes@[name] > 0 ==> (array_bounds_diags(
            a,
            cx,
            args,
            index_pos,
        ).len() == 1 <==> rat_round(v) >= a.array_sizes@[name]),
        v.0 >= 0 && a.array_sizes@.contains_key(name) && a.array_sizes@[name] > 0 ==> (array_bounds_diags(
            a,
            cx,
            args,
            index_pos,
        ).len() == 0 <==> rat_round(v) < a.array_sizes@[name]),
{
}

} // verus!
