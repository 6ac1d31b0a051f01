//! What the analyzer learns from collection constructors (`array.*`,
//! `matrix.*`, `table.new`, `map.new`) and the checks of map operations.

use vstd::prelude::*;

use crate::analysis::{Analyzer, DiagView, DiagnosticCode, Severity, Source, diag_at, diags_view, lemma_reports_grow_auto};
use crate::analysis::args::{CallArg, arg_view, args_ok, arg_node, call_args, collect_call_arguments, find_arg_node};
use crate::analysis::checks::arrays::{arg_base, known_bases, uniform};
use crate::analysis::checks::matrices::arg_either;
use crate::analysis::checks::ta::value_of;
use crate::analysis::diag::report_at;
use crate::analysis::eval::{
    call_name, call_name_from_node, child, eval_numeric_constant, extract_identifier_name, identifier_name, node_ok,
    node_text, sub_at, text_of, tree_ok,
};
use crate::analysis::infer::{array_base_from_call, array_base_type_from_call, base_compatible, base_from_name,
    base_type_from_name, infer_spec, is_base_type_compatible};
use crate::num::{Num, rat_round};
use crate::syntax::{Field, NodeKind, SyntaxTree};
use crate::text::{chars_are, has_prefix, starts_with_lit};
use crate::types::{BaseType, model_base};

verus! {

broadcast use lemma_reports_grow_auto;

/// The type name among the named children of template argument list `l`, from position `k`.
pub open spec fn template_from(t: SyntaxTree, x: Seq<char>, l: int, k: int) -> Option<Seq<char>>
    decreases t.nodes@[l].children@.len() - k,
{
    if k < 0 || k >= t.nodes@[l].children@.len() {
        None
    } else {
        let c = t.nodes@[l].children@[k] as int;
        if t.nodes@[c].named && t.kind_of(c) == NodeKind::BaseTypeName && text_of(t, x, c).len() > 0 {
            Some(text_of(t, x, c))
        } else {
            template_from(t, x, l, k + 1)
        }
    }
}

/// The element type named in a template call such as `matrix.new<float>`.
pub open spec fn template_name(t: SyntaxTree, x: Seq<char>, f: int) -> Option<Seq<char>> {
    if t.kind_of(f) != NodeKind::TemplateFunction {
        None
    } else {
        match sub_at(t, f, Field::Arguments) {
            Some(l) => template_from(t, x, l, 0),
            None => None,
        }
    }
}

/// The element type named in a template call such as `matrix.new<float>`.
pub fn template_type_name(t: &SyntaxTree, x: &Vec<char>, f: usize) -> (r: Option<Vec<char>>)
    requires
        tree_ok(*t, x@),
        node_ok(*t, f as int),
    ensures
        match r {
            Some(v) => template_name(*t, x@, f as int) == Some(v@),
            None => template_name(*t, x@, f as int) is None,
        },
{
    if t.nodes[f].kind != NodeKind::TemplateFunction {
        return None;
    }
    let l = match child(t, x, f, Field::Arguments) {
        Some(l) => l,
        None => {
            return None;
        },
    };
    assert(t.node_wf(l as int, x@.len() as int));
    let node = &t.nodes[l];
    let mut k: usize = 0;
    while k < node.children.len()
        invariant
            tree_ok(*t, x@),
            node_ok(*t, l as int),
            node == t.nodes@[l as int],
            t.links_wf(l as int),
            k <= node.children@.len(),
            template_from(*t, x@, l as int, 0) == template_from(*t, x@, l as int, k as int),
            template_name(*t, x@, f as int) == template_from(*t, x@, l as int, 0),
        decreases node.children@.len() - k,
    {
        let c = node.children[k];
        if t.nodes[c].named && t.nodes[c].kind == NodeKind::BaseTypeName {
            let name = node_text(t, x, c);
            if name.len() > 0 {
                return Some(name);
            }
        }
        k = k + 1;
    }
    None
}

/// Which constructor a call is: `array.from` (1), `array.new*` (2),
/// `matrix.new*` (3), `table.new` (4), `map.new` (5), or none of them (0).
pub open spec fn ctor_kind(call: Seq<char>) -> int {
    if call == "array.from"@ {
        1
    } else if has_prefix(call, "array.new"@) {
        2
    } else if has_prefix(call, "matrix.new"@) {
        3
    } else if call == "table.new"@ {
        4
    } else if call == "map.new"@ {
        5
    } else {
        0
    }
}

/// The element types of arrays after `var = call(args)`.
pub open spec fn array_types_after(a: Analyzer, cx: Source, var: Seq<char>, call: Seq<char>, args: Seq<CallArg>) -> Map<Seq<char>, BaseType> {
    if ctor_kind(call) == 1 {
        let types = known_bases(a, cx, args, args.len() as int);
        if types.len() > 0 && uniform(types) {
            a.array_types@.insert(var, types[0])
        } else {
            a.array_types@
        }
    } else if ctor_kind(call) == 2 {
        match array_base_from_call(call) {
            Some(b) => a.array_types@.insert(var, b),
            None => if call == "array.new"@ {
                let b = arg_base(a, cx, arg_either(args, "initial_value"@, "val"@, 1));
                if b != BaseType::Unknown {
                    a.array_types@.insert(var, b)
                } else {
                    a.array_types@
                }
            } else {
                a.array_types@
            },
        }
    } else {
        a.array_types@
    }
}

/// The sizes of arrays after `var = call(args)`.
pub open spec fn array_sizes_after(a: Analyzer, cx: Source, var: Seq<char>, call: Seq<char>, args: Seq<CallArg>) -> Map<Seq<char>, i64> {
    if ctor_kind(call) == 2 {
        match value_of(cx, arg_node(args, "size"@, 0)) {
            Some(v) => if v.0 >= 0 {
                a.array_sizes@.insert(var, rat_round(v) as i64)
            } else {
                a.array_sizes@
            },
            None => a.array_sizes@,
        }
    } else {
        a.array_sizes@
    }
}

/// The element types of matrices after `var = call(args)`, `f` being the function node.
pub open spec fn matrix_types_after(a: Analyzer, cx: Source, var: Seq<char>, f: int, call: Seq<char>, args: Seq<CallArg>) -> Map<Seq<char>, BaseType> {
    if ctor_kind(call) == 3 {
        match template_name(*cx.tree, cx.text@, f) {
            Some(tn) => match base_from_name(tn) {
                Some(b) => a.matrix_types@.insert(var, b),
                None => a.matrix_types@,
            },
            None => {
                let b = arg_base(a, cx, arg_node(args, "initial_value"@, 2));
                if b != BaseType::Unknown {
                    a.matrix_types@.insert(var, b)
                } else {
                    a.matrix_types@
                }
            },
        }
    } else {
        a.matrix_types@
    }
}

/// The sizes (rows, columns) after `var = call(args)` of a constructor of
/// that shape, from its `rows` and `cols` arguments.
pub open spec fn size_pair(cx: Source, rows: Option<int>, cols: Option<int>) -> Option<(i64, i64)> {
    match (value_of(cx, rows), value_of(cx, cols)) {
        (Some(r), Some(c)) => if r.0 > 0 && c.0 > 0 {
            Some((rat_round(r) as i64, rat_round(c) as i64))
        } else {
            None
        },
        _ => None,
    }
}

pub open spec fn matrix_sizes_after(a: Analyzer, cx: Source, var: Seq<char>, call: Seq<char>, args: Seq<CallArg>) -> Map<Seq<char>, (i64, i64)> {
    if ctor_kind(call) == 3 {
        match size_pair(cx, arg_node(args, "rows"@, 0), arg_node(args, "columns"@, 1)) {
            Some(s) => a.matrix_sizes@.insert(var, s),
            None => a.matrix_sizes@,
        }
    } else {
        a.matrix_sizes@
    }
}

pub open spec fn table_sizes_after(a: Analyzer, cx: Source, var: Seq<char>, call: Seq<char>, args: Seq<CallArg>) -> Map<Seq<char>, (i64, i64)> {
    if ctor_kind(call) == 4 {
        match size_pair(cx, arg_either(args, "rows"@, "row"@, 1), arg_either(args, "cols"@, "columns"@, 2)) {
            Some(s) => a.table_sizes@.insert(var, s),
            None => a.table_sizes@,
        }
    } else {
        a.table_sizes@
    }
}

/// The collection maps after `var = call(args)` (`a` before, `b` after).
pub open spec fn collections_after(a: Analyzer, b: Analyzer, cx: Source, var: Seq<char>, f: int, call: Seq<char>, args: Seq<CallArg>) -> bool {
    &&& b.array_types@ == array_types_after(a, cx, var, call, args)
    &&& b.array_sizes@ == array_sizes_after(a, cx, var, call, args)
    &&& b.matrix_types@ == matrix_types_after(a, cx, var, f, call, args)
    &&& b.matrix_sizes@ == matrix_sizes_after(a, cx, var, call, args)
    &&& b.table_sizes@ == table_sizes_after(a, cx, var, call, args)
    &&& b.map_known_empty@ == (if ctor_kind(call) == 5 { a.map_known_empty@.insert(var, true) } else { a.map_known_empty@ })
    &&& b.map_key_types@ == (if ctor_kind(call) == 5 { a.map_key_types@.remove(var) } else { a.map_key_types@ })
    &&& b.map_value_types@ == (if ctor_kind(call) == 5 { a.map_value_types@.remove(var) } else { a.map_value_types@ })
}

/// `b` is `a` with only the collection maps changed.
pub open spec fn collections_frame(a: Analyzer, b: Analyzer) -> bool {
    b == (Analyzer {
        array_sizes: b.array_sizes,
        array_types: b.array_types,
        matrix_sizes: b.matrix_sizes,
        matrix_types: b.matrix_types,
        table_sizes: b.table_sizes,
        map_known_empty: b.map_known_empty,
        map_key_types: b.map_key_types,
        map_value_types: b.map_value_types,
        ..a
    })
}

/// What `update_collection_sizes` does to the analyzer: `a` before, `b` after.
pub open spec fn update_collection_sizes_effect(a: Analyzer, b: Analyzer, cx: Source, var: Seq<char>, init: usize) -> bool {
    &&& collections_frame(a, b)
    &&& (cx.tree.kind_of(init as int) == NodeKind::Call && sub_at(*cx.tree, init as int, Field::Function) is Some) ==> {
        let f = sub_at(*cx.tree, init as int, Field::Function)->0;
        exists|args: Seq<CallArg>|
            args.map_values(|c: CallArg| arg_view(c)) =~= call_args(*cx.tree, cx.text@, init as int)
                && collections_after(a, b, cx, var, f, call_name(*cx.tree, cx.text@, f), args)
    }
    &&& !(cx.tree.kind_of(init as int) == NodeKind::Call && sub_at(*cx.tree, init as int, Field::Function) is Some) ==> b == a
}

impl Analyzer {
    fn size_from(&self, cx: &Source, rows: Option<usize>, cols: Option<usize>) -> (r: Option<(i64, i64)>)
        requires
            cx.wf(),
            rows matches Some(n) ==> node_ok(*cx.tree, n as int),
            cols matches Some(n) ==> node_ok(*cx.tree, n as int),
        ensures
            r == size_pair(*cx, match rows { Some(n) => Some(n as int), None => None },
                match cols { Some(n) => Some(n as int), None => None }),
    {
        let (rn, cn) = match (rows, cols) {
            (Some(r), Some(c)) => (r, c),
            _ => {
                return None;
            },
        };
        match (eval_numeric_constant(cx.tree, cx.text, rn), eval_numeric_constant(cx.tree, cx.text, cn)) {
            (Some(r), Some(c)) => {
                if r.is_positive() && c.is_positive() {
                    Some((r.round(), c.round()))
                } else {
                    None
                }
            },
            _ => None,
        }
    }

    fn record_array_from(&mut self, cx: &Source, var: &Vec<char>, args: &Vec<CallArg>)
        requires
            old(self).wf(),
            cx.wf(),
            args_ok(*cx.tree, args@),
        ensures
            final(self).wf(),
            *final(self) == (Analyzer { array_types: final(self).array_types, ..*old(self) }),
            final(self).array_types@ == ({
                let types = known_bases(*old(self), *cx, args@, args@.len() as int);
                if types.len() > 0 && uniform(types) {
                    old(self).array_types@.insert(var@, types[0])
                } else {
                    old(self).array_types@
                }
            }),
    {
        let types = self.known_argument_bases(cx, args);
        if types.len() > 0 {
            let first = types[0];
            let mut same = true;
            let mut i: usize = 0;
            while i < types.len()
                invariant
                    i <= types@.len(),
                    types@.len() > 0,
                    first == types@[0],
                    same == (forall|j: int| 0 <= j < i ==> #[trigger] types@[j] == types@[0]),
                decreases types@.len() - i,
            {
                if types[i] != first {
                    same = false;
                }
                i = i + 1;
            }
            if same {
                self.array_types.insert(var.clone(), first);
            }
        }
    }

    fn record_array_new(&mut self, cx: &Source, var: &Vec<char>, call: &Vec<char>, args: &Vec<CallArg>)
        requires
            old(self).wf(),
            cx.wf(),
            args_ok(*cx.tree, args@),
            ctor_kind(call@) == 2,
        ensures
            final(self).wf(),
            *final(self) == (Analyzer { array_types: final(self).array_types, array_sizes: final(self).array_sizes, ..*old(self) }),
            final(self).array_types@ == array_types_after(*old(self), *cx, var@, call@, args@),
            final(self).array_sizes@ == array_sizes_after(*old(self), *cx, var@, call@, args@),
    {
        match array_base_type_from_call(call) {
            Some(b) => {
                self.array_types.insert(var.clone(), b);
            },
            None => {
                if chars_are(call, "array.new") {
                    let n = match crate::analysis::args::find_call_arg(args, "initial_value", 1) {
                        Some(p) => Some(p.0),
                        None => find_arg_node(args, "val", 1),
                    };
                    match n {
                        Some(n) => {
                            let b = self.infer_expr_type(cx, n).base();
                            if b != BaseType::Unknown {
                                self.array_types.insert(var.clone(), b);
                            }
                        },
                        None => {},
                    }
                }
            },
        }
        match find_arg_node(args, "size", 0) {
            Some(n) => match eval_numeric_constant(cx.tree, cx.text, n) {
                Some(v) => {
                    if !v.is_negative() {
                        self.array_sizes.insert(var.clone(), v.round());
                    }
                },
                None => {},
            },
            None => {},
        }
    }

    fn record_matrix_new(&mut self, cx: &Source, var: &Vec<char>, f: usize, call: &Vec<char>, args: &Vec<CallArg>)
        requires
            old(self).wf(),
            cx.wf(),
            node_ok(*cx.tree, f as int),
            args_ok(*cx.tree, args@),
            ctor_kind(call@) == 3,
        ensures
            final(self).wf(),
            *final(self) == (Analyzer { matrix_types: final(self).matrix_types, matrix_sizes: final(self).matrix_sizes, ..*old(self) }),
            final(self).matrix_types@ == matrix_types_after(*old(self), *cx, var@, f as int, call@, args@),
            final(self).matrix_sizes@ == matrix_sizes_after(*old(self), *cx, var@, call@, args@),
    {
        match template_type_name(cx.tree, cx.text, f) {
            Some(tn) => match base_type_from_name(&tn) {
                Some(b) => {
                    self.matrix_types.insert(var.clone(), b);
                },
                None => {},
            },
            None => match find_arg_node(args, "initial_value", 2) {
                Some(n) => {
                    let b = self.infer_expr_type(cx, n).base();
                    if b != BaseType::Unknown {
                        self.matrix_types.insert(var.clone(), b);
                    }
                },
                None => {},
            },
        }
        match self.size_from(cx, find_arg_node(args, "rows", 0), find_arg_node(args, "columns", 1)) {
            Some(s) => {
                self.matrix_sizes.insert(var.clone(), s);
            },
            None => {},
        }
    }

    /// Records what `var = call(args)` tells of the collection `var`, `f`
    /// being the node of the called function.
    pub fn record_collection(&mut self, cx: &Source, var: &Vec<char>, f: usize, call: &Vec<char>, args: &Vec<CallArg>)
        requires
            old(self).wf(),
            cx.wf(),
            node_ok(*cx.tree, f as int),
            args_ok(*cx.tree, args@),
        ensures
            final(self).wf(),
            collections_frame(*old(self), *final(self)),
            collections_after(*old(self), *final(self), *cx, var@, f as int, call@, args@),
    {
        if chars_are(call, "array.from") {
            self.record_array_from(cx, var, args);
            return;
        }
        if starts_with_lit(call, "array.new") {
            self.record_array_new(cx, var, call, args);
            return;
        }
        if starts_with_lit(call, "matrix.new") {
            self.record_matrix_new(cx, var, f, call, args);
            return;
        }
        if chars_are(call, "table.new") {
            let rows = match crate::analysis::args::find_call_arg(args, "rows", 1) {
                Some(p) => Some(p.0),
                None => find_arg_node(args, "row", 1),
            };
            let cols = match crate::analysis::args::find_call_arg(args, "cols", 2) {
                Some(p) => Some(p.0),
                None => find_arg_node(args, "columns", 2),
            };
            match self.size_from(cx, rows, cols) {
                Some(s) => {
                    self.table_sizes.insert(var.clone(), s);
                },
                None => {},
            }
            return;
        }
        if chars_are(call, "map.new") {
            self.map_known_empty.insert(var.clone(), true);
            self.map_key_types.remove(var);
            self.map_value_types.remove(var);
        }
    }

    /// Records what the initial value at node `init` (a constructor call)
    /// tells of the collection held by variable `var`.
    pub fn update_collection_sizes(&mut self, cx: &Source, var: &Vec<char>, init: usize)
        requires
            old(self).wf(),
            cx.wf(),
            node_ok(*cx.tree, init as int),
        ensures
            final(self).wf(),
            update_collection_sizes_effect(*old(self), *final(self), *cx, var@, init),
    {
        if cx.tree.nodes[init].kind != NodeKind::Call {
            return;
        }
        let f = match child(cx.tree, cx.text, init, Field::Function) {
            Some(f) => f,
            None => {
                return;
            },
        };
        let call = call_name_from_node(cx.tree, cx.text, f);
        let args = collect_call_arguments(cx.tree, cx.text, init);
        self.record_collection(cx, var, f, &call, &args);
    }
}


/// The map a `map.*` call works on, with the map's name.
pub open spec fn map_target(cx: Source, name: Seq<char>, args: Seq<CallArg>) -> Option<(int, Seq<char>)> {
    if !cx.settings.enable_map_checks || !has_prefix(name, "map."@) {
        None
    } else {
        match arg_node(args, "m"@, 0) {
            Some(m) => match identifier_name(*cx.tree, cx.text@, m) {
                Some(mn) => Some((m, mn)),
                None => None,
            },
            None => None,
        }
    }
}

/// A report at `n` when its known base type does not fit the type `types`
/// holds for map `mn`.
pub open spec fn map_type_diag(a: Analyzer, cx: Source, types: Map<Seq<char>, BaseType>, mn: Seq<char>, n: Option<int>, message: Seq<char>) -> Seq<DiagView> {
    let b = arg_base(a, cx, n);
    if n is Some && b != BaseType::Unknown && types.contains_key(mn) && !base_compatible(types[mn], b) {
        seq![diag_at(cx, n->0, Severity::Hint, DiagnosticCode::Logic, message)]
    } else {
        Seq::empty()
    }
}

/// The types held for map `mn` after it is given a value of the type of `n`:
/// the first known type is kept.
pub open spec fn map_types_after(a: Analyzer, cx: Source, types: Map<Seq<char>, BaseType>, mn: Seq<char>, n: Option<int>) -> Map<Seq<char>, BaseType> {
    let b = arg_base(a, cx, n);
    if n is Some && b != BaseType::Unknown && !types.contains_key(mn) {
        types.insert(mn, b)
    } else {
        types
    }
}

/// What `check_map_operations` reports.
pub open spec fn map_op_diags(a: Analyzer, cx: Source, name: Seq<char>, args: Seq<CallArg>) -> Seq<DiagView> {
    match map_target(cx, name, args) {
        Some((m, mn)) => if name == "map.put"@ {
            map_type_diag(a, cx, a.map_key_types@, mn, arg_node(args, "key"@, 1), "map.put key type does not match existing map keys"@)
                + map_type_diag(a, cx, a.map_value_types@, mn, arg_node(args, "value"@, 2), "map.put value type does not match existing map values"@)
        } else if name == "map.get"@ || name == "map.remove"@ || name == "map.keys"@ || name == "map.values"@ {
            (if a.map_known_empty@.contains_key(mn) && a.map_known_empty@[mn] {
                seq![diag_at(cx, m, Severity::Hint, DiagnosticCode::Logic, "Map may be empty; operation could fail or return na"@)]
            } else {
                Seq::empty()
            }) + if name == "map.get"@ {
                map_type_diag(a, cx, a.map_key_types@, mn, arg_node(args, "key"@, 1), "map.get key type does not match existing map keys"@)
            } else {
                Seq::empty()
            }
        } else {
            Seq::empty()
        },
        None => Seq::empty(),
    }
}

/// What `check_map_operations` does to the analyzer: `a` before, `b` after.
pub open spec fn check_map_operations_effect(a: Analyzer, b: Analyzer, cx: Source, name: Seq<char>, args: Seq<CallArg>) -> bool {
    &&& b == (Analyzer {
        diagnostics: b.diagnostics,
        map_known_empty: b.map_known_empty,
        map_key_types: b.map_key_types,
        map_value_types: b.map_value_types,
        ..a
    })
    &&& diags_view(b.diagnostics@) =~= diags_view(a.diagnostics@) + map_op_diags(a, cx, name, args)
    &&& match map_target(cx, name, args) {
        Some((m, mn)) => if name == "map.put"@ {
            &&& b.map_key_types@ =~= map_types_after(a, cx, a.map_key_types@, mn, arg_node(args, "key"@, 1))
            &&& b.map_value_types@ =~= map_types_after(a, cx, a.map_value_types@, mn, arg_node(args, "value"@, 2))
            &&& b.map_known_empty@ =~= a.map_known_empty@.insert(mn, false)
        } else {
            &&& b.map_key_types@ =~= a.map_key_types@
            &&& b.map_value_types@ =~= a.map_value_types@
            &&& b.map_known_empty@ =~= if name == "map.put_all"@ {
                a.map_known_empty@.insert(mn, false)
            } else if name == "map.clear"@ {
                a.map_known_empty@.insert(mn, true)
            } else {
                a.map_known_empty@
            }
        },
        None => b == a,
    }
}

impl Analyzer {
    fn put_map_type(&mut self, cx: &Source, mn: &Vec<char>, n: Option<usize>, is_key: bool, message: &str)
        requires
            old(self).wf(),
            cx.wf(),
            n matches Some(x) ==> node_ok(*cx.tree, x as int),
        ensures
            final(self).wf(),
            is_key ==> *final(self) == (Analyzer { diagnostics: final(self).diagnostics, map_key_types: final(self).map_key_types, ..*old(self) }),
            !is_key ==> *final(self) == (Analyzer { diagnostics: final(self).diagnostics, map_value_types: final(self).map_value_types, ..*old(self) }),
            ({
                let types = if is_key { old(self).map_key_types@ } else { old(self).map_value_types@ };
                let nn = match n { Some(x) => Some(x as int), None => None };
                &&& diags_view(final(self).diagnostics@) == diags_view(old(self).diagnostics@) + map_type_diag(*old(self), *cx, types, mn@, nn, message@)
                &&& (if is_key { final(self).map_key_types@ } else { final(self).map_value_types@ }) == map_types_after(*old(self), *cx, types, mn@, nn)
            }),
    {
        let node = match n {
            Some(x) => x,
            None => {
                return;
            },
        };
        let b = self.infer_expr_type(cx, node).base();
        if b == BaseType::Unknown {
            return;
        }
        let existing = if is_key {
            match self.map_key_types.get(mn) {
                Some(e) => Some(*e),
                None => None,
            }
        } else {
            match self.map_value_types.get(mn) {
                Some(e) => Some(*e),
                None => None,
            }
        };
        match existing {
            Some(e) => {
                if !is_base_type_compatible(e, b) {
                    report_at(&mut self.diagnostics, cx, node, Severity::Hint, DiagnosticCode::Logic, message);
                }
            },
            None => {
                if is_key {
                    self.map_key_types.insert(mn.clone(), b);
                } else {
                    self.map_value_types.insert(mn.clone(), b);
                }
            },
        }
    }

    fn map_put(&mut self, cx: &Source, mn: &Vec<char>, args: &Vec<CallArg>)
        requires
            old(self).wf(),
            cx.wf(),
            args_ok(*cx.tree, args@),
        ensures
            final(self).wf(),
            *final(self) == (Analyzer {
                diagnostics: final(self).diagnostics,
                map_key_types: final(self).map_key_types,
                map_value_types: final(self).map_value_types,
                ..*old(self)
            }),
            diags_view(final(self).diagnostics@) == diags_view(old(self).diagnostics@)
                + map_type_diag(*old(self), *cx, old(self).map_key_types@, mn@, arg_node(args@, "key"@, 1), "map.put key type does not match existing map keys"@)
                + map_type_diag(*old(self), *cx, old(self).map_value_types@, mn@, arg_node(args@, "value"@, 2), "map.put value type does not match existing map values"@),
            final(self).map_key_types@ == map_types_after(*old(self), *cx, old(self).map_key_types@, mn@, arg_node(args@, "key"@, 1)),
            final(self).map_value_types@ == map_types_after(*old(self), *cx, old(self).map_value_types@, mn@, arg_node(args@, "value"@, 2)),
    {
        let ghost a = *self;
        let key = find_arg_node(args, "key", 1);
        let value = find_arg_node(args, "value", 2);
        self.put_map_type(cx, mn, key, true, "map.put key type does not match existing map keys");
        let ghost a1 = *self;
        proof {
            if let Some(v) = arg_node(args@, "value"@, 2) {
                crate::analysis::infer::lemma_infer_frame(a, a1, *cx, v);
            }
        }
        self.put_map_type(cx, mn, value, false, "map.put value type does not match existing map values");
    }

    fn map_read(&mut self, cx: &Source, name: &Vec<char>, args: &Vec<CallArg>, m: usize, mn: &Vec<char>)
        requires
            old(self).wf(),
            cx.wf(),
            args_ok(*cx.tree, args@),
            node_ok(*cx.tree, m as int),
        ensures
            final(self).wf(),
            Analyzer::same_state(*old(self), *final(self)),
            diags_view(final(self).diagnostics@) == diags_view(old(self).diagnostics@)
                + (if old(self).map_known_empty@.contains_key(mn@) && old(self).map_known_empty@[mn@] {
                    seq![diag_at(*cx, m as int, Severity::Hint, DiagnosticCode::Logic, "Map may be empty; operation could fail or return na"@)]
                } else {
                    Seq::<DiagView>::empty()
                }) + (if name@ == "map.get"@ {
                    map_type_diag(*old(self), *cx, old(self).map_key_types@, mn@, arg_node(args@, "key"@, 1), "map.get key type does not match existing map keys"@)
                } else {
                    Seq::<DiagView>::empty()
                }),
    {
        let ghost a = *self;
        let ghost d0 = diags_view(self.diagnostics@);
        let empty = match self.map_known_empty.get(mn) {
            Some(e) => *e,
            None => false,
        };
        if empty {
            report_at(&mut self.diagnostics, cx, m, Severity::Hint, DiagnosticCode::Logic,
                "Map may be empty; operation could fail or return na");
        }
        let ghost d1 = diags_view(self.diagnostics@);
        if chars_are(name, "map.get") {
            match find_arg_node(args, "key", 1) {
                Some(k) => {
                    proof {
                        crate::analysis::infer::lemma_infer_frame(a, *self, *cx, k as int);
                    }
                    let kt = self.infer_expr_type(cx, k).base();
                    let expected = match self.map_key_types.get(mn) {
                        Some(e) => Some(*e),
                        None => None,
                    };
                    match expected {
                        Some(e) => {
                            if kt != BaseType::Unknown && !is_base_type_compatible(e, kt) {
                                report_at(&mut self.diagnostics, cx, k, Severity::Hint, DiagnosticCode::Logic,
                                    "map.get key type does not match existing map keys");
                            }
                        },
                        None => {},
                    }
                },
                None => {},
            }
        }
        assert(diags_view(self.diagnostics@) =~= d0 + (if a.map_known_empty@.contains_key(mn@) && a.map_known_empty@[mn@] {
                    seq![diag_at(*cx, m as int, Severity::Hint, DiagnosticCode::Logic, "Map may be empty; operation could fail or return na"@)]
                } else {
                    Seq::<DiagView>::empty()
                }) + (if name@ == "map.get"@ {
                    map_type_diag(a, *cx, a.map_key_types@, mn@, arg_node(args@, "key"@, 1), "map.get key type does not match existing map keys"@)
                } else {
                    Seq::<DiagView>::empty()
                }));
    }

    /// Tracks what is known of a map (empty or not, key and value types) and
    /// reports operations that do not fit it.
    #[verifier::rlimit(60)]
    pub fn check_map_operations(&mut self, cx: &Source, name: &Vec<char>, args: &Vec<CallArg>)
        requires
            old(self).wf(),
            cx.wf(),
            args_ok(*cx.tree, args@),
        ensures
            final(self).wf(),
            check_map_operations_effect(*old(self), *final(self), *cx, name@, args@),
    {
        if !cx.settings.enable_map_checks {
            return;
        }
        if !starts_with_lit(name, "map.") {
            return;
        }
        let m = match find_arg_node(args, "m", 0) {
            Some(n) => n,
            None => {
                return;
            },
        };
        let mn = match extract_identifier_name(cx.tree, cx.text, m) {
            Some(v) => v,
            None => {
                return;
            },
        };
        let ghost d0 = diags_view(self.diagnostics@);
        proof {
            reveal_strlit("map.put");
            reveal_strlit("map.put_all");
            reveal_strlit("map.clear");
            reveal_strlit("map.get");
            reveal_strlit("map.remove");
            reveal_strlit("map.keys");
            reveal_strlit("map.values");
        }
        if chars_are(name, "map.put") {
            self.map_put(cx, &mn, args);
            self.map_known_empty.insert(mn, false);
            assert(diags_view(self.diagnostics@) =~= d0 + map_op_diags(*old(self), *cx, name@, args@));
        } else if chars_are(name, "map.put_all") {
            self.map_known_empty.insert(mn, false);
        } else if chars_are(name, "map.clear") {
            self.map_known_empty.insert(mn, true);
        } else if chars_are(name, "map.get") || chars_are(name, "map.remove") || chars_are(name, "map.keys")
            || chars_are(name, "map.values") {
            self.map_read(cx, name, args, m, &mn);
            assert(diags_view(self.diagnostics@) =~= d0 + map_op_diags(*old(self), *cx, name@, args@));
        }
    }
}

/// A map's key type, once known, is kept by every later map operation; a
/// `map.put` on a map whose key type is not known yet reports no key
/// mismatch and makes the key's type, when known, the map's key type.
pub proof fn lemma_map_key_type(a: Analyzer, b: Analyzer, cx: Source, name: Seq<char>, args: Seq<CallArg>, k: Seq<char>)
    requires
        check_map_operations_effect(a, b, cx, name, args),
    ensures
        a.map_key_types@.contains_key(k) ==> b.map_key_types@.contains_key(k) && b.map_key_types@[k]
            == a.map_key_types@[k],
        (map_target(cx, name, args) matches Some((m, mn)) && mn == k && name == "map.put"@
            && !a.map_key_types@.contains_key(k)) ==> {
            let n = arg_node(args, "key"@, 1);
            &&& map_type_diag(a, cx, a.map_key_types@, k, n, "map.put key type does not match existing map keys"@)
                == Seq::<DiagView>::empty()
            &&& (n is Some && arg_base(a, cx, n) != BaseType::Unknown) ==> b.map_key_types@.contains_key(k)
                && b.map_key_types@[k] == arg_base(a, cx, n)
        },
{
}

/// Two `map.put` calls on a map whose key type is not known yet: the first
/// makes its key's type the map's key type, and the second reports a key
/// mismatch exactly when its own key's known type does not fit that one.
pub proof fn lemma_map_put_twice(
    a: Analyzer,
    b: Analyzer,
    c: Analyzer,
    cx: Source,
    args1: Seq<CallArg>,
    args2: Seq<CallArg>,
    mn: Seq<char>,
)
    requires
        check_map_operations_effect(a, b, cx, "map.put"@, args1),
        check_map_operations_effect(b, c, cx, "map.put"@, args2),
        map_target(cx, "map.put"@, args1) matches Some((m1, x1)) && x1 == mn,
        map_target(cx, "map.put"@, args2) matches Some((m2, x2)) && x2 == mn,
        !a.map_key_types@.contains_key(mn),
        arg_node(args1, "key"@, 1) is Some,
        arg_base(a, cx, arg_node(args1, "key"@, 1)) != BaseType::Unknown,
    ensures
        ({
            let t1 = arg_base(a, cx, arg_node(args1, "key"@, 1));
            let n2 = arg_node(args2, "key"@, 1);
            let t2 = arg_base(b, cx, n2);
            &&& c.map_key_types@.contains_key(mn)
            &&& c.map_key_types@[mn] == t1
            &&& map_op_diags(b, cx, "map.put"@, args2).take(
                map_type_diag(b, cx, b.map_key_types@, mn, n2, "map.put key type does not match existing map keys"@).len() as int,
            ) == if n2 is Some && t2 != BaseType::Unknown && !base_compatible(t1, t2) {
                seq![diag_at(cx, n2->0, Severity::Hint, DiagnosticCode::Logic, "map.put key type does not match existing map keys"@)]
            } else {
                Seq::<DiagView>::empty()
            }
        }),
{
    let n2 = arg_node(args2, "key"@, 1);
    let k = map_type_diag(b, cx, b.map_key_types@, mn, n2, "map.put key type does not match existing map keys"@);
    let v = map_type_diag(b, cx, b.map_value_types@, mn, arg_node(args2, "value"@, 2), "map.put value type does not match existing map values"@);
    assert((k + v).take(k.len() as int) =~= k);
}

/// A map access (`map.get`, `map.remove`, `map.keys`, `map.values`) right
/// after `map.clear` on the same map reports that the map may be empty; one
/// right after `map.put` or `map.put_all` on it does not.
pub proof fn lemma_map_emptiness(
    a: Analyzer,
    b: Analyzer,
    c: Analyzer,
    cx: Source,
    name1: Seq<char>,
    args1: Seq<CallArg>,
    name2: Seq<char>,
    args2: Seq<CallArg>,
    mn: Seq<char>,
)
    requires
        check_map_operations_effect(a, b, cx, name1, args1),
        check_map_operations_effect(b, c, cx, name2, args2),
        name1 == "map.clear"@ || name1 == "map.put"@ || name1 == "map.put_all"@,
        name2 == "map.get"@ || name2 == "map.remove"@ || name2 == "map.keys"@ || name2 == "map.values"@,
        map_target(cx, name1, args1) matches Some((m1, x1)) && x1 == mn,
        map_target(cx, name2, args2) matches Some((m2, x2)) && x2 == mn,
    ensures
        ({
            let m2 = (map_target(cx, name2, args2)->0).0;
            let keys = if name2 == "map.get"@ {
                map_type_diag(b, cx, b.map_key_types@, mn, arg_node(args2, "key"@, 1), "map.get key type does not match existing map keys"@)
            } else {
                Seq::<DiagView>::empty()
            };
            diags_view(c.diagnostics@) == diags_view(b.diagnostics@) + (if name1 == "map.clear"@ {
                seq![diag_at(cx, m2, Severity::Hint, DiagnosticCode::Logic, "Map may be empty; operation could fail or return na"@)]
            } else {
                Seq::<DiagView>::empty()
            }) + keys
        }),
{
    reveal_strlit("map.clear");
    reveal_strlit("map.put");
    reveal_strlit("map.put_all");
    reveal_strlit("map.get");
    reveal_strlit("map.remove");
    reveal_strlit("map.keys");
    reveal_strlit("map.values");
    assert(b.map_known_empty@.contains_key(mn));
    assert(b.map_known_empty@[mn] == (name1 == "map.clear"@));
    let m2 = (map_target(cx, name2, args2)->0).0;
    let keys = if name2 == "map.get"@ {
        map_type_diag(b, cx, b.map_key_types@, mn, arg_node(args2, "key"@, 1), "map.get key type does not match existing map keys"@)
    } else {
        Seq::<DiagView>::empty()
    };
    let first = if name1 == "map.clear"@ {
        seq![diag_at(cx, m2, Severity::Hint, DiagnosticCode::Logic, "Map may be empty; operation could fail or return na"@)]
    } else {
        Seq::<DiagView>::empty()
    };
    if name2 == "map.get"@ {
        assert(name2[4] != "map.put"@[4]);
    }
    assert(map_op_diags(b, cx, name2, args2) == first + keys);
    assert(diags_view(c.diagnostics@) =~= diags_view(b.diagnostics@) + first + keys);
}

/// A map access right after the map is made by `map.new` reports that the
/// map may be empty, and no key mismatch.
pub proof fn lemma_map_new_then_access(
    a: Analyzer,
    b: Analyzer,
    c: Analyzer,
    cx: Source,
    var: Seq<char>,
    f: int,
    call: Seq<char>,
    args: Seq<CallArg>,
    name2: Seq<char>,
    args2: Seq<CallArg>,
)
    requires
        collections_after(a, b, cx, var, f, call, args),
        call == "map.new"@,
        check_map_operations_effect(b, c, cx, name2, args2),
        name2 == "map.get"@ || name2 == "map.remove"@ || name2 == "map.keys"@ || name2 == "map.values"@,
        map_target(cx, name2, args2) matches Some((m2, x2)) && x2 == var,
    ensures
        diags_view(c.diagnostics@) == diags_view(b.diagnostics@) + seq![
            diag_at(cx, (map_target(cx, name2, args2)->0).0, Severity::Hint, DiagnosticCode::Logic, "Map may be empty; operation could fail or return na"@),
        ],
{
    reveal_strlit("map.new");
    reveal_strlit("array.from");
    reveal_strlit("array.new");
    reveal_strlit("matrix.new");
    reveal_strlit("table.new");
    reveal_strlit("map.put");
    reveal_strlit("map.get");
    reveal_strlit("map.remove");
    reveal_strlit("map.keys");
    reveal_strlit("map.values");
    assert(ctor_kind(call) == 5);
    assert(!b.map_key_types@.contains_key(var));
    assert(b.map_known_empty@.contains_key(var) && b.map_known_empty@[var]);
    let m2 = (map_target(cx, name2, args2)->0).0;
    let e = seq![diag_at(cx, m2, Severity::Hint, DiagnosticCode::Logic, "Map may be empty; operation could fail or return na"@)];
    if name2 == "map.get"@ {
        assert(name2[4] != "map.put"@[4]);
    }
    assert(map_op_diags(b, cx, name2, args2) =~= e);
    assert(diags_view(c.diagnostics@) =~= diags_view(b.diagnostics@) + e);
}

/// One call in a run of `map.put`, `map.put_all` and `map.clear` calls on
/// map `var`, from `st[j]` to `st[j + 1]`.
pub open spec fn map_fill_step(st: Seq<Analyzer>, names: Seq<Seq<char>>, argss: Seq<Seq<CallArg>>, cx: Source, var: Seq<char>, j: int) -> bool {
    &&& check_map_operations_effect(st[j], st[j + 1], cx, names[j], argss[j])
    &&& names[j] == "map.put"@ || names[j] == "map.put_all"@ || names[j] == "map.clear"@
    &&& map_target(cx, names[j], argss[j]) matches Some((m, x)) && x == var
}

/// The emptiness a run of `map.put`, `map.put_all` and `map.clear` calls
/// leaves on a map made by `map.new`: the map reads as empty exactly when
/// the run is empty or ends with `map.clear`.
proof fn lemma_map_fill_run(
    a: Analyzer,
    st: Seq<Analyzer>,
    names: Seq<Seq<char>>,
    argss: Seq<Seq<CallArg>>,
    cx: Source,
    var: Seq<char>,
    f: int,
    call: Seq<char>,
    args: Seq<CallArg>,
)
    requires
        st.len() == names.len() + 1,
        argss.len() == names.len(),
        collections_after(a, st[0], cx, var, f, call, args),
        call == "map.new"@,
        forall|j: int| 0 <= j < names.len() ==> #[trigger] map_fill_step(st, names, argss, cx, var, j),
    ensures
        st.last().map_known_empty@.contains_key(var),
        st.last().map_known_empty@[var] == (names.len() == 0 || names.last() == "map.clear"@),
    decreases names.len(),
{
    reveal_strlit("map.new");
    reveal_strlit("array.from");
    reveal_strlit("array.new");
    reveal_strlit("matrix.new");
    reveal_strlit("table.new");
    reveal_strlit("map.clear");
    reveal_strlit("map.put");
    reveal_strlit("map.put_all");
    if names.len() == 0 {
        assert(ctor_kind(call) == 5);
    } else {
        let n = names.len() - 1;
        let st2 = st.drop_last();
        assert forall|j: int| 0 <= j < names.drop_last().len() implies #[trigger] map_fill_step(st2, names.drop_last(), argss.drop_last(), cx, var, j) by {
            assert(map_fill_step(st, names, argss, cx, var, j));
        }
        lemma_map_fill_run(a, st2, names.drop_last(), argss.drop_last(), cx, var, f, call, args);
        assert(map_fill_step(st, names, argss, cx, var, n));
        assert(st[n + 1].map_known_empty@.contains_key(var));
    }
}

/// After a map is made by `map.new` and then given any run of `map.put`,
/// `map.put_all` and `map.clear` calls, an access to it (`map.get`,
/// `map.remove`, `map.keys`, `map.values`) reports that the map may be
/// empty exactly when the run is empty or ends with `map.clear`.
pub proof fn lemma_map_emptiness_run(
    a: Analyzer,
    st: Seq<Analyzer>,
    names: Seq<Seq<char>>,
    argss: Seq<Seq<CallArg>>,
    c: Analyzer,
    cx: Source,
    var: Seq<char>,
    f: int,
    call: Seq<char>,
    args: Seq<CallArg>,
    name2: Seq<char>,
    args2: Seq<CallArg>,
)
    requires
        st.len() == names.len() + 1,
        argss.len() == names.len(),
        collections_after(a, st[0], cx, var, f, call, args),
        call == "map.new"@,
        forall|j: int| 0 <= j < names.len() ==> #[trigger] map_fill_step(st, names, argss, cx, var, j),
        check_map_operations_effect(st.last(), c, cx, name2, args2),
        name2 == "map.get"@ || name2 == "map.remove"@ || name2 == "map.keys"@ || name2 == "map.values"@,
        map_target(cx, name2, args2) matches Some((m2, x2)) && x2 == var,
    ensures
        ({
            let b = st.last();
            let m2 = (map_target(cx, name2, args2)->0).0;
            let keys = if name2 == "map.get"@ {
                map_type_diag(b, cx, b.map_key_types@, var, arg_node(args2, "key"@, 1), "map.get key type does not match existing map keys"@)
            } else {
                Seq::<DiagView>::empty()
            };
            diags_view(c.diagnostics@) == diags_view(b.diagnostics@) + (if names.len() == 0 || names.last() == "map.clear"@ {
                seq![diag_at(cx, m2, Severity::Hint, DiagnosticCode::Logic, "Map may be empty; operation could fail or return na"@)]
            } else {
                Seq::<DiagView>::empty()
            }) + keys
        }),
{
    lemma_map_fill_run(a, st, names, argss, cx, var, f, call, args);
    reveal_strlit("map.put");
    reveal_strlit("map.get");
    reveal_strlit("map.remove");
    reveal_strlit("map.keys");
    reveal_strlit("map.values");
    let b = st.last();
    let m2 = (map_target(cx, name2, args2)->0).0;
    let keys = if name2 == "map.get"@ {
        map_type_diag(b, cx, b.map_key_types@, var, arg_node(args2, "key"@, 1), "map.get key type does not match existing map keys"@)
    } else {
        Seq::<DiagView>::empty()
    };
    let first = if names.len() == 0 || names.last() == "map.clear"@ {
        seq![diag_at(cx, m2, Severity::Hint, DiagnosticCode::Logic, "Map may be empty; operation could fail or return na"@)]
    } else {
        Seq::<DiagView>::empty()
    };
    if name2 == "map.get"@ {
        assert(name2[4] != "map.put"@[4]);
    }
    assert(map_op_diags(b, cx, name2, args2) == first + keys);
    assert(diags_view(c.diagnostics@) =~= diags_view(b.diagnostics@) + first + keys);
}

} // verus!
