//! The walk over the syntax tree: definitions, references, scopes, calls,
//! conditions and loops, and the checks each of them triggers.

use vstd::prelude::*;

use crate::analysis::{
    Analyzer, ConditionContext, DiagView, diag_view, DiagnosticCode, Severity, Source, SymbolKind, SymbolRef, diag, diag_at,
    diags_view, lemma_reports_grow_auto, node_range,
};
use crate::analysis::args::{CallArg, arg_view, args_ok, call_args, collect_call_arguments};
use crate::analysis::checks::calls::{call_check_diags, type_models};
use crate::analysis::checks::calls::{builtin_namespace, is_builtin_namespace};
use crate::analysis::checks::general::{
    check_duplicate_expression_effect, constant_condition_diags, for_diags, history_diags, while_diags,
};
use crate::analysis::checks::math::math_operation_diags;
use crate::analysis::infer::{declared_type, return_type_from};
use crate::analysis::symbols::{DefView, def_view};
use crate::analysis::checks::strategy::condition_context_diags;
use crate::analysis::checks::collections::update_collection_sizes_effect;
use crate::analysis::checks::draw::record_draw_object_assignment_effect;
use crate::analysis::infer::infer_spec;
use crate::analysis::symbols::defines_symbol;
use crate::analysis::stages::{
    bounds_checks, checks_frame, collection_checks, collections_done, exit_checks, exits_done, format_checks, formats_done,
    input_checks, inputs_done, order_checks, orders_done, plot_checks, plots_done, position_checks, positions_done,
    request_checks, requests_done, value_checks, values_done,
};
use crate::analysis::diag::{range_for_node, report, report_at, report_chars};
use crate::analysis::eval::{
    attr_chain, attribute_chain_name, call_name, call_name_from_node, child, expr_has_barstate_flag, expr_has_close_zero, has_barstate_flag,
    has_close_zero, node_ok, node_text,
    sub_at, text_of, text_is,
};
use crate::fmt::wrap_chars;
use crate::name_map::NameMap;
use crate::syntax::{Field, NodeKind, SyntaxTree};
use crate::text::{chars_are, chars_eq, find_char, find_in, slice_chars, string_of};
use crate::types::{BaseType, Type, TypeModel};

verus! {

broadcast use lemma_reports_grow_auto;

/// The diagnostics `collect_syntax_errors` reports for the subtree at `i`,
/// in pre-order: one for each error or missing node.
pub open spec fn syntax_diags(cx: Source, i: int) -> Seq<DiagView>
    decreases cx.tree.nodes@.len() - i, cx.tree.nodes@[i].children@.len() + 1,
{
    if !node_ok(*cx.tree, i) {
        Seq::empty()
    } else {
        let n = cx.tree.nodes@[i];
        (if n.error || n.missing || n.kind == NodeKind::Error {
            seq![diag_at(cx, i, Severity::Error, DiagnosticCode::Syntax, "Syntax error"@)]
        } else {
            Seq::empty()
        }) + children_syntax_diags(cx, i, n.children@.len() as int)
    }
}

/// The syntax diagnostics of the first `k` children of `i`.
pub open spec fn children_syntax_diags(cx: Source, i: int, k: int) -> Seq<DiagView>
    decreases cx.tree.nodes@.len() - i, k,
{
    if !node_ok(*cx.tree, i) || k <= 0 || k > cx.tree.nodes@[i].children@.len() {
        Seq::empty()
    } else {
        let c = cx.tree.nodes@[i].children@[k - 1] as int;
        children_syntax_diags(cx, i, k - 1) + if i < c < cx.tree.nodes@.len() {
            syntax_diags(cx, c)
        } else {
            Seq::empty()
        }
    }
}

/// Whether identifier `i` is the name being defined by its parent `p`.
pub open spec fn defines(cx: Source, i: int, p: int) -> bool {
    let t = *cx.tree;
    match t.kind_of(p) {
        NodeKind::VariableDefinition | NodeKind::VariableDefinitionStatement => sub_at(t, p, Field::Variable) == Some(i),
        NodeKind::FunctionDeclarationStatement => match sub_at(t, p, Field::Function) {
            Some(f) => f == i,
            None => sub_at(t, p, Field::Method) == Some(i),
        },
        NodeKind::ForStatement => sub_at(t, p, Field::Counter) == Some(i),
        NodeKind::TupleDeclaration | NodeKind::TupleDeclarationStatement => sub_at(t, p, Field::Variables) == Some(i),
        NodeKind::KeywordArgument => sub_at(t, p, Field::Key) == Some(i),
        _ => false,
    }
}

/// Whether identifier `i` is the name being defined by its parent `p`.
pub fn is_definition_identifier(cx: &Source, i: usize, p: usize) -> (r: bool)
    requires
        cx.wf(),
        node_ok(*cx.tree, i as int),
        node_ok(*cx.tree, p as int),
    ensures
        r == defines(*cx, i as int, p as int),
{
    let t = cx.tree;
    let x = cx.text;
    match t.nodes[p].kind {
        NodeKind::VariableDefinition | NodeKind::VariableDefinitionStatement => child(t, x, p, Field::Variable) == Some(i),
        NodeKind::FunctionDeclarationStatement => match child(t, x, p, Field::Function) {
            Some(f) => f == i,
            None => child(t, x, p, Field::Method) == Some(i),
        },
        NodeKind::ForStatement => child(t, x, p, Field::Counter) == Some(i),
        NodeKind::TupleDeclaration | NodeKind::TupleDeclarationStatement => child(t, x, p, Field::Variables) == Some(i),
        NodeKind::KeywordArgument => child(t, x, p, Field::Key) == Some(i),
        _ => false,
    }
}

/// Whether identifier `i` is a use of a name that the analyzer resolves:
/// not a name being defined, not the function of a call, not the attribute of
/// a dotted name, not `true`/`false` and not a built-in namespace.
pub open spec fn is_use(cx: Source, i: int) -> bool {
    let t = *cx.tree;
    match t.nodes@[i].parent {
        Some(p) => {
            let p = p as int;
            let name = text_of(t, cx.text@, i);
            &&& !defines(cx, i, p)
            &&& !(t.kind_of(p) == NodeKind::Call && sub_at(t, p, Field::Function) == Some(i))
            &&& !(t.kind_of(p) == NodeKind::Attribute && sub_at(t, p, Field::Attribute) == Some(i))
            &&& name != "true"@ && name != "false"@
            &&& !builtin_namespace(name)
        },
        None => false,
    }
}

impl Analyzer {
    /// Reports every error or missing node of the subtree at `i`.
    pub fn collect_syntax_errors(&mut self, cx: &Source, i: usize)
        requires
            old(self).wf(),
            cx.wf(),
            node_ok(*cx.tree, i as int),
        ensures
            final(self).wf(),
            Analyzer::same_state(*old(self), *final(self)),
            diags_view(final(self).diagnostics@) == diags_view(old(self).diagnostics@) + syntax_diags(*cx, i as int),
        decreases cx.tree.nodes@.len() - i,
    {
        let ghost d0 = diags_view(self.diagnostics@);
        let n = &cx.tree.nodes[i];
        if n.error || n.missing || n.kind == NodeKind::Error {
            report_at(&mut self.diagnostics, cx, i, Severity::Error, DiagnosticCode::Syntax, "Syntax error");
        }
        let ghost d1 = diags_view(self.diagnostics@);
        let ghost a1 = *self;
        assert(cx.tree.node_wf(i as int, cx.text@.len() as int));
        let mut k: usize = 0;
        while k < n.children.len()
            invariant
                cx.wf(),
                node_ok(*cx.tree, i as int),
                n == cx.tree.nodes@[i as int],
                cx.tree.links_wf(i as int),
                k <= n.children@.len(),
                self.wf(),
                Analyzer::same_state(a1, *self),
                diags_view(self.diagnostics@) == d1 + children_syntax_diags(*cx, i as int, k as int),
            decreases n.children@.len() - k,
        {
            let c = n.children[k];
            let ghost before = diags_view(self.diagnostics@);
            self.collect_syntax_errors(cx, c);
            assert(diags_view(self.diagnostics@) =~= d1 + children_syntax_diags(*cx, i as int, k + 1));
            k = k + 1;
        }
        assert(diags_view(self.diagnostics@) =~= d0 + syntax_diags(*cx, i as int));
    }

    /// Resolves a use of an identifier (node `i`) and records the reference,
    /// reporting a name that resolves to nothing.
    pub fn handle_identifier_reference(&mut self, cx: &Source, i: usize)
        requires
            old(self).wf(),
            cx.wf(),
            node_ok(*cx.tree, i as int),
        ensures
            final(self).wf(),
            is_use(*cx, i as int) ==> {
                let name = text_of(*cx.tree, cx.text@, i as int);
                let d = old(self).resolves(name);
                &&& *final(self) == (Analyzer {
                    diagnostics: final(self).diagnostics,
                    references: final(self).references,
                    ..*old(self)
                })
                &&& final(self).references@.len() == old(self).references@.len() + 1
                &&& forall|j: int| 0 <= j < old(self).references@.len() ==> final(self).references@[j] == old(self).references@[j]
                &&& final(self).references@.last().name@ == name
                &&& final(self).references@.last().range == crate::analysis::node_range(*cx, i as int)
                &&& final(self).references@.last().def_index == d
                &&& diags_view(final(self).diagnostics@) == diags_view(old(self).diagnostics@) + if d is None {
                    seq![diag_at(*cx, i as int, Severity::Error, DiagnosticCode::Validation, "Unknown identifier `"@ + name + "`"@)]
                } else {
                    Seq::<DiagView>::empty()
                }
            },
            !is_use(*cx, i as int) ==> *final(self) == *old(self),
    {
        let t = cx.tree;
        let x = cx.text;
        assert(t.node_wf(i as int, x@.len() as int));
        let p = match t.nodes[i].parent {
            Some(p) => p,
            None => {
                return;
            },
        };
        if is_definition_identifier(cx, i, p) {
            return;
        }
        if t.nodes[p].kind == NodeKind::Call && child(t, x, p, Field::Function) == Some(i) {
            return;
        }
        if t.nodes[p].kind == NodeKind::Attribute && child(t, x, p, Field::Attribute) == Some(i) {
            return;
        }
        let name = node_text(t, x, i);
        if chars_are(&name, "true") || chars_are(&name, "false") {
            return;
        }
        if is_builtin_namespace(&name) {
            return;
        }
        let range = range_for_node(cx, i);
        let d = self.resolve_symbol(&name);
        if d.is_none() {
            let msg = wrap_chars("Unknown identifier `", &name, "`");
            report_chars(&mut self.diagnostics, cx, range, Severity::Error, DiagnosticCode::Validation, &msg);
        }
        self.references.push(SymbolRef { name: string_of(name.as_slice()), range, def_index: d });
    }
}


/// Appending one diagnostic keeps the earlier ones.
pub proof fn lemma_grow_push(a: Analyzer, b: Analyzer, d: DiagView)
    requires
        diags_view(b.diagnostics@) == diags_view(a.diagnostics@).push(d),
    ensures
        Analyzer::diags_grow(a, b),
{
    assert(diags_view(b.diagnostics@) =~= diags_view(a.diagnostics@) + seq![d]);
    crate::analysis::lemma_reports_grow(a, b, seq![d]);
}

/// The same diagnostics are kept.
pub proof fn lemma_grow_same(a: Analyzer, b: Analyzer)
    requires
        b.diagnostics@ == a.diagnostics@,
    ensures
        Analyzer::diags_grow(a, b),
{
}

/// Definition `k` of `a` names `name`, with kind `kind`, selected at `sel`.
pub open spec fn defined_at(a: Analyzer, k: int, name: Seq<char>, kind: SymbolKind, sel: crate::position::Range) -> bool {
    &&& 0 <= k < a.definitions@.len()
    &&& a.definitions@[k].name@ == name
    &&& a.definitions@[k].kind == kind
    &&& a.definitions@[k].selection_range == sel
}

/// The node that names the function that node `i` declares.
pub open spec fn function_name_node(t: SyntaxTree, i: int) -> Option<int> {
    match sub_at(t, i, Field::Function) {
        Some(n) => Some(n),
        None => sub_at(t, i, Field::Method),
    }
}

/// What handling a call records: a reference to the called name, resolved
/// as it was before the call, and, when the name is neither defined nor a
/// built-in function, an error as the first new diagnostic.
pub open spec fn call_facts(a: Analyzer, b: Analyzer, cx: Source, i: int) -> bool {
    sub_at(*cx.tree, i, Field::Function) matches Some(f) ==> {
        let name = call_name(*cx.tree, cx.text@, f);
        let k = a.references@.len() as int;
        &&& k < b.references@.len()
        &&& b.references@[k].name@ == name
        &&& b.references@[k].range == node_range(cx, f)
        &&& b.references@[k].def_index == a.resolves(name)
        &&& a.resolves(name) is None && !cx.builtins.functions_view().contains_key(name) ==> diag_view(
            b.diagnostics@[a.diagnostics@.len() as int],
        ) == diag(cx, node_range(cx, f), Severity::Error, DiagnosticCode::Validation, "Unknown function `"@ + name + "`"@)
    }
}

/// What handling a variable definition records: the variable, as the next
/// definition.
pub open spec fn variable_facts(a: Analyzer, b: Analyzer, cx: Source, i: int) -> bool {
    sub_at(*cx.tree, i, Field::Variable) matches Some(v) ==> defined_at(
        b,
        a.definitions@.len() as int,
        text_of(*cx.tree, cx.text@, v),
        SymbolKind::Variable,
        node_range(cx, v),
    )
}

/// What handling a function declaration records: the function, as the next
/// definition.
pub open spec fn function_facts(a: Analyzer, b: Analyzer, cx: Source, i: int) -> bool {
    function_name_node(*cx.tree, i) matches Some(n) ==> defined_at(
        b,
        a.definitions@.len() as int,
        text_of(*cx.tree, cx.text@, n),
        SymbolKind::Function,
        node_range(cx, n),
    )
}

/// What handling a `for` statement records: its counter, as the next
/// definition.
pub open spec fn for_facts(a: Analyzer, b: Analyzer, cx: Source, i: int) -> bool {
    sub_at(*cx.tree, i, Field::Counter) matches Some(c) ==> defined_at(
        b,
        a.definitions@.len() as int,
        text_of(*cx.tree, cx.text@, c),
        SymbolKind::LoopVariable,
        node_range(cx, c),
    )
}

/// What `walk` promises of the subtree at `i`, walked from `a` to `b`.
pub open spec fn walk_done(a: Analyzer, b: Analyzer, cx: Source, i: int) -> bool {
    let k = cx.tree.kind_of(i);
    &&& Analyzer::diags_grow(a, b)
    &&& Analyzer::walk_keeps(a, b)
    &&& Analyzer::stacks_kept(a, b)
    &&& k == NodeKind::Call ==> call_facts(a, b, cx, i)
    &&& k == NodeKind::VariableDefinition || k == NodeKind::VariableDefinitionStatement ==> variable_facts(a, b, cx, i)
    &&& k == NodeKind::FunctionDeclarationStatement ==> function_facts(a, b, cx, i)
    &&& k == NodeKind::ForStatement ==> for_facts(a, b, cx, i)
}

/// Child `k` of node `i` is walked from `st[k]` to `st[k + 1]`.
pub open spec fn child_step(st: Seq<Analyzer>, cx: Source, i: int, k: int) -> bool
    decreases walk_depth(cx, i), 54int, 0int,
{
    let c = cx.tree.nodes@[i].children@[k] as int;
    &&& walk_done(st[k], st[k + 1], cx, c)
    &&& i < c < cx.tree.nodes@.len() ==> node_walked(st[k], st[k + 1], cx, c)
}

/// The first `k` steps of `child_step` hold, in order.
pub open spec fn children_upto(st: Seq<Analyzer>, cx: Source, i: int, k: int) -> bool
    decreases walk_depth(cx, i), 55int, k,
{
    if k <= 0 {
        true
    } else {
        children_upto(st, cx, i, k - 1) && child_step(st, cx, i, k - 1)
    }
}

/// The children of `i` are walked in order, from `a` to `b`, through the
/// states `st`.
#[verifier::opaque]
pub open spec fn children_walked(st: Seq<Analyzer>, a: Analyzer, b: Analyzer, cx: Source, i: int) -> bool
    decreases walk_depth(cx, i), 56int, 0int,
{
    let n = cx.tree.nodes@[i].children@.len() as int;
    &&& st.len() == n + 1
    &&& st[0] == a
    &&& st[n] == b
    &&& children_upto(st, cx, i, n)
}

/// `s` is `a` with the condition `ctx` opened on top of its condition stack.
pub open spec fn opens_condition(a: Analyzer, s: Analyzer, ctx: ConditionContext) -> bool {
    &&& s == (Analyzer { condition_stack: s.condition_stack, ..a })
    &&& s.condition_stack@ =~= a.condition_stack@.push(ctx)
}

/// The innermost condition of `a` is closed: taken off the stack (giving
/// `s`) and checked (giving `b`); with no condition open, the stack stays
/// empty and nothing else changes.
pub open spec fn closes_condition(a: Analyzer, s: Analyzer, b: Analyzer, cx: Source) -> bool {
    let n = a.condition_stack@.len();
    if n > 0 {
        &&& s == (Analyzer { condition_stack: s.condition_stack, ..a })
        &&& s.condition_stack@ =~= a.condition_stack@.drop_last()
        &&& Analyzer::appends(s, b, condition_context_diags(cx, a.condition_stack@[n - 1]))
    } else {
        &&& b == (Analyzer { condition_stack: b.condition_stack, ..a })
        &&& b.condition_stack@ =~= a.condition_stack@
    }
}

/// The branch at `q` is walked inside the condition `ctx`: opened (`s0`),
/// walked (`s1`), closed (`s2`) and checked (`b`).
pub open spec fn guarded_walk(
    a: Analyzer,
    s0: Analyzer,
    s1: Analyzer,
    s2: Analyzer,
    b: Analyzer,
    cx: Source,
    q: int,
    ctx: ConditionContext,
) -> bool
    decreases walk_depth(cx, q), 64int, 0int,
{
    &&& opens_condition(a, s0, ctx)
    &&& walk_done(s0, s1, cx, q)
    &&& node_walked(s0, s1, cx, q)
    &&& closes_condition(s1, s2, b, cx)
}

/// The condition a branch is walked in: the range of its condition node
/// `c`, whether that reads `close[0]`, and no order seen yet.
pub open spec fn condition_of(cx: Source, c: int) -> ConditionContext {
    ConditionContext {
        range: node_range(cx, c),
        strategy_entry: false,
        strategy_exit: false,
        condition_has_close_zero: has_close_zero(*cx.tree, cx.text@, c),
    }
}

/// The hint on a condition that reads `barstate.isconfirmed` or `barstate.islast`.
pub open spec fn barstate_diags(cx: Source, c: int) -> Seq<DiagView> {
    if has_barstate_flag(*cx.tree, cx.text@, c) {
        seq![diag(cx, node_range(cx, c), Severity::Hint, DiagnosticCode::Logic,
            "Verify barstate.isconfirmed/islast usage; behavior differs on historical bars"@)]
    } else {
        Seq::empty()
    }
}

/// The states a walk goes through: true of all, named so that the
/// states of a walk can be matched on together.
pub open spec fn walk_states<T>(x: T) -> bool {
    true
}

/// Two states a walk goes through (see `walk_states`).
pub open spec fn walk_states2<A, B>(x: A, y: B) -> bool {
    true
}

/// Three states a walk goes through (see `walk_states`).
pub open spec fn walk_states3<A, B, C>(x: A, y: B, z: C) -> bool {
    true
}

/// Four states a walk goes through (see `walk_states`).
pub open spec fn walk_states4(s1: Analyzer, s2: Analyzer, s3: Analyzer, s4: Analyzer) -> bool {
    true
}

/// The states of a function declaration's walk (see `walk_states`).
pub open spec fn function_states(s4: Analyzer, p: Seq<Analyzer>, s5: Analyzer, w: Seq<Analyzer>, s6: Analyzer) -> bool {
    true
}

/// The states of a condition's walk (see `walk_states`).
pub open spec fn condition_states(s1: Analyzer, s2: Analyzer, s3: Analyzer, s4: Analyzer, s5: Analyzer, s6: Analyzer) -> bool {
    true
}

/// The states of a call's walk (see `walk_states`).
pub open spec fn call_states(
    s0: Analyzer,
    s1: Analyzer,
    s2: Analyzer,
    s3: Analyzer,
    s4: Analyzer,
    s5: Analyzer,
    s6: Analyzer,
    s7: Analyzer,
    s8: Analyzer,
    s9: Analyzer,
    s10: Analyzer,
    s11: Analyzer,
    s12: Analyzer,
    st: Seq<Analyzer>,
    args: Seq<CallArg>,
) -> bool {
    true
}

/// How far node `x` lies from the end of the tree: what the walk's
/// recursion decreases.
pub open spec fn walk_depth(cx: Source, x: int) -> int {
    if x < cx.tree.nodes@.len() {
        cx.tree.nodes@.len() - x
    } else {
        0
    }
}

/// The node a condition with branch `q` is measured by: the earlier of the
/// condition `c` and its branch.
pub open spec fn cond_node(c: int, q: Option<int>) -> int {
    match q {
        Some(x) => if x < c { x } else { c },
        None => c,
    }
}

/// Handling condition `c` with branch `q`: the condition is walked (`s1`),
/// checked for a constant value (`s2`) and for `barstate` flags (`s3`), then
/// the branch, if any, is walked inside the condition.
pub open spec fn condition_steps(
    a: Analyzer,
    s1: Analyzer,
    s2: Analyzer,
    s3: Analyzer,
    s4: Analyzer,
    s5: Analyzer,
    s6: Analyzer,
    b: Analyzer,
    cx: Source,
    c: int,
    q: Option<int>,
) -> bool
    decreases walk_depth(cx, cond_node(c, q)), 66int, 0int,
{
    &&& walk_done(a, s1, cx, c)
    &&& node_walked(a, s1, cx, c)
    &&& Analyzer::appends(s1, s2, constant_condition_diags(cx, c))
    &&& Analyzer::appends(s2, s3, barstate_diags(cx, c))
    &&& match q {
        Some(q) => guarded_walk(s3, s4, s5, s6, b, cx, q, condition_of(cx, c)),
        None => b == s3,
    }
}

/// Condition `c` with branch `q` is handled from `a` to `b`.
#[verifier::opaque]
pub open spec fn condition_handled(a: Analyzer, b: Analyzer, cx: Source, c: int, q: Option<int>) -> bool
    decreases walk_depth(cx, cond_node(c, q)), 68int, 0int,
{
    exists|s1: Analyzer, s2: Analyzer, s3: Analyzer, s4: Analyzer, s5: Analyzer, s6: Analyzer|
        #![trigger condition_states(s1, s2, s3, s4, s5, s6)]
        condition_steps(a, s1, s2, s3, s4, s5, s6, b, cx, c, q)
}

/// The node an optional index names.
pub open spec fn opt_node(q: Option<usize>) -> Option<int> {
    match q {
        Some(n) => Some(n as int),
        None => None,
    }
}

/// The `else if` clause at `i` is handled from `a` to `b`.
pub open spec fn else_if_handled(a: Analyzer, b: Analyzer, cx: Source, i: int) -> bool
    decreases walk_depth(cx, i), 58int, 0int,
{
    match sub_at(*cx.tree, i, Field::Condition) {
        Some(c) => condition_handled(a, b, cx, c, sub_at(*cx.tree, i, Field::Consequence)),
        None => b == a,
    }
}

/// The `else` clause at `i` is handled from `a` to `b`: its branch is walked
/// inside a condition that spans the clause.
#[verifier::opaque]
pub open spec fn else_handled(a: Analyzer, b: Analyzer, cx: Source, i: int) -> bool
    decreases walk_depth(cx, i), 58int, 0int,
{
    match sub_at(*cx.tree, i, Field::Consequence) {
        Some(q) => exists|s0: Analyzer, s1: Analyzer, s2: Analyzer|
            #![trigger walk_states3(s0, s1, s2)]
            guarded_walk(
                a,
                s0,
                s1,
                s2,
                b,
                cx,
                q,
                ConditionContext {
                    range: node_range(cx, i),
                    strategy_entry: false,
                    strategy_exit: false,
                    condition_has_close_zero: false,
                },
            ),
        None => b == a,
    }
}

/// Child `k` of the `if` statement `i`, from `st[k]` to `st[k + 1]`: an
/// alternative is handled by its kind, any other child left alone.
pub open spec fn alternative_step(st: Seq<Analyzer>, cx: Source, i: int, k: int) -> bool
    decreases walk_depth(cx, i), 54int, 0int,
{
    let c = cx.tree.nodes@[i].children@[k] as int;
    if cx.tree.nodes@[i].fields@[k] == Field::Alternative && i < c < cx.tree.nodes@.len() {
        if cx.tree.kind_of(c) == NodeKind::ElseIfClause {
            else_if_handled(st[k], st[k + 1], cx, c)
        } else if cx.tree.kind_of(c) == NodeKind::ElseClause {
            else_handled(st[k], st[k + 1], cx, c)
        } else {
            walk_done(st[k], st[k + 1], cx, c) && node_walked(st[k], st[k + 1], cx, c)
        }
    } else {
        st[k + 1] == st[k]
    }
}

/// The first `k` steps of `alternative_step` hold, in order.
pub open spec fn alternatives_upto(st: Seq<Analyzer>, cx: Source, i: int, k: int) -> bool
    decreases walk_depth(cx, i), 55int, k,
{
    if k <= 0 {
        true
    } else {
        alternatives_upto(st, cx, i, k - 1) && alternative_step(st, cx, i, k - 1)
    }
}

/// The `if` statement `i` is handled from `a` to `b`: its condition and
/// branch (to `s1`), then its alternatives in order through the states `st`.
#[verifier::opaque]
pub open spec fn if_handled(a: Analyzer, s1: Analyzer, st: Seq<Analyzer>, b: Analyzer, cx: Source, i: int) -> bool
    decreases walk_depth(cx, i), 58int, 0int,
{
    let n = cx.tree.nodes@[i].children@.len() as int;
    &&& match sub_at(*cx.tree, i, Field::Condition) {
        Some(c) => condition_handled(a, s1, cx, c, sub_at(*cx.tree, i, Field::Consequence)),
        None => s1 == a,
    }
    &&& st.len() == n + 1
    &&& st[0] == s1
    &&& st[n] == b
    &&& alternatives_upto(st, cx, i, n)
}

/// Handling the initial value at `e` of variable `name`, selected at `sel`:
/// checked for a duplicate expression (`s1`), recorded as a collection
/// (`s2`) and as a drawing object (`s3`), then walked.
pub open spec fn initial_value_steps(
    a: Analyzer,
    s1: Analyzer,
    s2: Analyzer,
    s3: Analyzer,
    b: Analyzer,
    cx: Source,
    name: Seq<char>,
    e: int,
    sel: crate::position::Range,
) -> bool
    decreases walk_depth(cx, e), 62int, 0int,
{
    &&& check_duplicate_expression_effect(a, s1, cx, e as usize, sel)
    &&& update_collection_sizes_effect(s1, s2, cx, name, e as usize)
    &&& record_draw_object_assignment_effect(s2, s3, cx, name, e as usize, sel)
    &&& walk_done(s3, b, cx, e)
    &&& node_walked(s3, b, cx, e)
}

/// The value node of the reassignment at `i`.
pub open spec fn reassigned_value(cx: Source, i: int) -> Option<int> {
    match sub_at(*cx.tree, i, Field::Value) {
        Some(v) => Some(v),
        None => sub_at(*cx.tree, i, Field::Structure),
    }
}

/// Handling the reassignment at `i`: when its variable is an identifier,
/// a reference to the name, resolved, and an error for a name that resolves
/// to nothing (`s1`), then the drawing object the value makes; otherwise
/// nothing.
pub open spec fn reassignment_steps(a: Analyzer, s1: Analyzer, b: Analyzer, cx: Source, i: int) -> bool {
    match sub_at(*cx.tree, i, Field::Variable) {
        Some(var) => if cx.tree.kind_of(var) != NodeKind::Identifier {
            b == a
        } else {
            let name = text_of(*cx.tree, cx.text@, var);
            let d = a.resolves(name);
            let range = node_range(cx, var);
            &&& s1 == (Analyzer { diagnostics: s1.diagnostics, references: s1.references, ..a })
            &&& diags_view(s1.diagnostics@) =~= diags_view(a.diagnostics@) + if d is None {
                seq![diag(cx, range, Severity::Error, DiagnosticCode::Runtime, "Reassignment to undefined variable `"@ + name + "`"@)]
            } else {
                Seq::<DiagView>::empty()
            }
            &&& s1.references@.len() == a.references@.len() + 1
            &&& forall|j: int| 0 <= j < a.references@.len() ==> s1.references@[j] == a.references@[j]
            &&& s1.references@.last().name@ == name
            &&& s1.references@.last().range == range
            &&& s1.references@.last().def_index == d
            &&& match reassigned_value(cx, i) {
                Some(v) => record_draw_object_assignment_effect(s1, b, cx, name, v as usize, range),
                None => b == s1,
            }
        },
        None => b == a,
    }
}

/// The node that gives the tuple declaration at `i` its value.
pub open spec fn tuple_init(cx: Source, i: int) -> Option<int> {
    match sub_at(*cx.tree, i, Field::InitialValue) {
        Some(e) => Some(e),
        None => sub_at(*cx.tree, i, Field::InitialStructure),
    }
}

/// The item types of the tuple that the declaration at `i` is given, as
/// inferred in `a`; none when its value is not a tuple.
pub open spec fn tuple_items(a: Analyzer, cx: Source, i: int) -> Seq<TypeModel> {
    match tuple_init(cx, i) {
        Some(e) => match infer_spec(a, cx, e) {
            TypeModel::Tuple(items) => items,
            _ => Seq::empty(),
        },
        None => Seq::empty(),
    }
}

/// Whether child `k` of the tuple declaration `i` is one of its variables.
pub open spec fn is_tuple_var(cx: Source, i: int, k: int) -> bool {
    &&& cx.tree.nodes@[i].fields@[k] == Field::Variables
    &&& cx.tree.kind_of(cx.tree.nodes@[i].children@[k] as int) == NodeKind::Identifier
}

/// How many of the first `k` children of `i` are variables of the tuple.
pub open spec fn tuple_vars_before(cx: Source, i: int, k: int) -> int
    decreases k,
{
    if k <= 0 {
        0
    } else {
        tuple_vars_before(cx, i, k - 1) + if is_tuple_var(cx, i, k - 1) { 1int } else { 0int }
    }
}

/// Child `k` of the tuple declaration `i`, from `st[k]` to `st[k + 1]`: a
/// variable is defined with the type of its item (`a` being the analyzer
/// the value's type was inferred in), any other child left alone.
pub open spec fn tuple_step(st: Seq<Analyzer>, a: Analyzer, cx: Source, i: int, k: int) -> bool {
    let c = cx.tree.nodes@[i].children@[k] as int;
    let idx = tuple_vars_before(cx, i, k);
    let items = tuple_items(a, cx, i);
    if is_tuple_var(cx, i, k) {
        defines_symbol(
            st[k],
            st[k + 1],
            cx,
            text_of(*cx.tree, cx.text@, c),
            SymbolKind::Variable,
            node_range(cx, c),
            node_range(cx, c),
            if idx < items.len() { items[idx] } else { TypeModel::Unknown },
            false,
        )
    } else {
        st[k + 1] == st[k]
    }
}

/// The tuple declaration `i` defines its variables in order, from `a` to
/// `b`, through the states `st`.
#[verifier::opaque]
pub open spec fn tuple_defined(st: Seq<Analyzer>, a: Analyzer, b: Analyzer, cx: Source, i: int) -> bool {
    let n = cx.tree.nodes@[i].children@.len() as int;
    &&& st.len() == n + 1
    &&& st[0] == a
    &&& st[n] == b
    &&& forall|k: int| 0 <= k < n ==> #[trigger] tuple_step(st, a, cx, i, k)
}

/// What marking the innermost condition for a call of `name` does, from
/// `a` to `b`: a strategy entry or order sets its entry flag, an exit or
/// close its exit flag; with no condition open, or another call, nothing
/// changes.
pub open spec fn marks_condition(a: Analyzer, b: Analyzer, name: Seq<char>) -> bool {
    let is_entry = name == "strategy.entry"@ || name == "strategy.order"@;
    let is_exit = name == "strategy.exit"@ || name == "strategy.close"@;
    let n = a.condition_stack@.len();
    let c = a.condition_stack@[n - 1];
    if (is_entry || is_exit) && n > 0 {
        &&& b == (Analyzer { condition_stack: b.condition_stack, ..a })
        &&& b.condition_stack@ =~= a.condition_stack@.update(
            n - 1,
            ConditionContext { strategy_entry: c.strategy_entry || is_entry, strategy_exit: c.strategy_exit || is_exit, ..c },
        )
    } else {
        b == a
    }
}

/// What recording a call of `name` does to the call graph, from `a` to `b`:
/// while a function is being declared and `name` resolves to a function of
/// the document, that function joins the callees of the one being declared
/// (once); otherwise nothing changes.
pub open spec fn records_call(a: Analyzer, b: Analyzer, name: Seq<char>) -> bool {
    let n = a.function_stack@.len();
    let d = a.resolves(name);
    let def = a.definitions@[d->0 as int];
    let cur = a.function_stack@[n - 1]@;
    let prev = if a.function_calls@.contains_key(cur) {
        names_view(a.function_calls@[cur]@)
    } else {
        Seq::empty()
    };
    if n > 0 && d is Some && def.kind == SymbolKind::Function && !def.is_builtin {
        &&& b == (Analyzer { function_calls: b.function_calls, ..a })
        &&& b.function_calls@ =~= a.function_calls@.insert(cur, b.function_calls@[cur])
        &&& names_view(b.function_calls@[cur]@) =~= calls_after(prev, def.name@)
    } else {
        b == a
    }
}

/// The error a call of the function named at node `f` gets, as the state
/// `a` resolves names: one exactly when the name is neither defined nor a
/// built-in function.
pub open spec fn unknown_fn_diags(a: Analyzer, cx: Source, f: int) -> Seq<DiagView> {
    let name = call_name(*cx.tree, cx.text@, f);
    if a.resolves(name) is None && !cx.builtins.functions_view().contains_key(name) {
        seq![diag(cx, node_range(cx, f), Severity::Error, DiagnosticCode::Validation, "Unknown function `"@ + name + "`"@)]
    } else {
        Seq::empty()
    }
}

/// What a call of the function named at node `f` records first, from `a`
/// to `s`: the declaration flags of `indicator` and `strategy`, the unknown
/// function error, and a reference to the name, resolved in `a`.
pub open spec fn call_opened(a: Analyzer, s: Analyzer, cx: Source, f: int) -> bool {
    let name = call_name(*cx.tree, cx.text@, f);
    &&& s == (Analyzer {
        diagnostics: s.diagnostics,
        references: s.references,
        has_indicator_or_strategy: a.has_indicator_or_strategy || name == "indicator"@ || name == "strategy"@,
        has_indicator_declaration: a.has_indicator_declaration || name == "indicator"@,
        has_strategy_declaration: a.has_strategy_declaration || name == "strategy"@,
        ..a
    })
    &&& diags_view(s.diagnostics@) =~= diags_view(a.diagnostics@) + unknown_fn_diags(a, cx, f)
    &&& s.references@.len() == a.references@.len() + 1
    &&& forall|j: int| 0 <= j < a.references@.len() ==> s.references@[j] == a.references@[j]
    &&& s.references@.last().name@ == name
    &&& s.references@.last().range == node_range(cx, f)
    &&& s.references@.last().def_index == a.resolves(name)
}

/// The types of the arguments `args`, as inferred in `a`.
pub open spec fn arg_models(a: Analyzer, cx: Source, args: Seq<CallArg>) -> Seq<TypeModel> {
    Seq::new(args.len(), |j: int| crate::analysis::infer::infer_spec(a, cx, args[j].node as int))
}

/// Child `k` of call `i`, from `st[k]` to `st[k + 1]`: walked unless it is
/// an identifier (the called name), which is left alone.
pub open spec fn arg_step(st: Seq<Analyzer>, cx: Source, i: int, k: int) -> bool
    decreases walk_depth(cx, i), 52int, 0int,
{
    let c = cx.tree.nodes@[i].children@[k] as int;
    if cx.tree.kind_of(c) != NodeKind::Identifier {
        &&& walk_done(st[k], st[k + 1], cx, c)
        &&& i < c < cx.tree.nodes@.len() ==> node_walked(st[k], st[k + 1], cx, c)
    } else {
        st[k + 1] == st[k]
    }
}

/// The first `k` steps of `arg_step` hold, in order.
pub open spec fn args_upto(st: Seq<Analyzer>, cx: Source, i: int, k: int) -> bool
    decreases walk_depth(cx, i), 53int, k,
{
    if k <= 0 {
        true
    } else {
        args_upto(st, cx, i, k - 1) && arg_step(st, cx, i, k - 1)
    }
}

/// The children of call `i` other than identifiers are walked in order, from
/// `a` to `b`, through the states `st`.
#[verifier::opaque]
pub open spec fn call_children_walked(st: Seq<Analyzer>, a: Analyzer, b: Analyzer, cx: Source, i: int) -> bool
    decreases walk_depth(cx, i), 54int, 0int,
{
    let n = cx.tree.nodes@[i].children@.len() as int;
    &&& st.len() == n + 1
    &&& st[0] == a
    &&& st[n] == b
    &&& args_upto(st, cx, i, n)
}

/// Handling call `i` whose function is named at `f`, with arguments `args`,
/// through the states `s0`, ..., `s12`: what the call records first, the
/// groups of checks in order, the innermost condition marked, the call
/// graph, the checks of the arguments against the signature, and the walk
/// of the arguments.
pub open spec fn call_steps(
    a: Analyzer,
    s0: Analyzer,
    s1: Analyzer,
    s2: Analyzer,
    s3: Analyzer,
    s4: Analyzer,
    s5: Analyzer,
    s6: Analyzer,
    s7: Analyzer,
    s8: Analyzer,
    s9: Analyzer,
    s10: Analyzer,
    s11: Analyzer,
    s12: Analyzer,
    st: Seq<Analyzer>,
    b: Analyzer,
    cx: Source,
    i: int,
    f: int,
    args: Seq<CallArg>,
) -> bool
    decreases walk_depth(cx, i), 56int, 0int,
{
    let name = call_name(*cx.tree, cx.text@, f);
    let range = node_range(cx, f);
    &&& args.map_values(|c: CallArg| arg_view(c)) =~= call_args(*cx.tree, cx.text@, i)
    &&& call_opened(a, s0, cx, f)
    &&& requests_done(s0, s1, cx, name, args, range)
    &&& inputs_done(s1, s2, cx, name, args, range)
    &&& orders_done(s2, s3, cx, name, args, range)
    &&& positions_done(s3, s4, cx, name, args)
    &&& exits_done(s4, s5, cx, name, args)
    &&& formats_done(s5, s6, cx, name, args)
    &&& values_done(s6, s7, cx, name, args)
    &&& plots_done(s7, s8, cx, name, args)
    &&& marks_condition(s8, s9, name)
    &&& collections_done(s9, s10, cx, name, args, range)
    &&& records_call(s10, s11, name)
    &&& Analyzer::appends(s11, s12, call_check_diags(cx, name, args, arg_models(s11, cx, args)))
    &&& call_children_walked(st, s12, b, cx, i)
}

/// Call `i` is handled from `a` to `b`; a call with no function node
/// changes nothing.
#[verifier::opaque]
pub open spec fn call_handled(a: Analyzer, b: Analyzer, cx: Source, i: int) -> bool
    decreases walk_depth(cx, i), 58int, 0int,
{
    match sub_at(*cx.tree, i, Field::Function) {
        Some(f) => exists|
            s0: Analyzer,
            s1: Analyzer,
            s2: Analyzer,
            s3: Analyzer,
            s4: Analyzer,
            s5: Analyzer,
            s6: Analyzer,
            s7: Analyzer,
            s8: Analyzer,
            s9: Analyzer,
            s10: Analyzer,
            s11: Analyzer,
            s12: Analyzer,
            st: Seq<Analyzer>,
            args: Seq<CallArg>,
        | #![trigger call_states(s0, s1, s2, s3, s4, s5, s6, s7, s8, s9, s10, s11, s12, st, args)]
            call_steps(a, s0, s1, s2, s3, s4, s5, s6, s7, s8, s9, s10, s11, s12, st, b, cx, i, f, args),
        None => b == a,
    }
}

/// The call graph edge a call records: while function `cur` is being
/// declared, a call of a function of the document gives the edge from `cur`
/// to it.
pub open spec fn call_edge_fact(a: Analyzer, b: Analyzer, cx: Source, i: int) -> bool {
    sub_at(*cx.tree, i, Field::Function) matches Some(f) ==> {
        let name = call_name(*cx.tree, cx.text@, f);
        let n = a.function_stack@.len();
        let d = a.resolves(name);
        (n > 0 && d is Some && a.definitions@[d->0 as int].kind == SymbolKind::Function
            && !a.definitions@[d->0 as int].is_builtin) ==> b.calls_edge(
            a.function_stack@[n - 1]@,
            a.definitions@[d->0 as int].name@,
        )
    }
}

/// `b` is `a` with a new, empty innermost scope.
pub open spec fn entered(a: Analyzer, b: Analyzer) -> bool {
    &&& b == (Analyzer { scopes: b.scopes, ..a })
    &&& b.scopes@ =~= a.scopes@.push(b.scopes@.last())
    &&& b.scopes@.last().symbols@ =~= Map::<Seq<char>, usize>::empty()
}

/// `b` is `a` with its innermost scope closed (none when there is none).
pub open spec fn exited(a: Analyzer, b: Analyzer) -> bool {
    &&& b == (Analyzer { scopes: b.scopes, ..a })
    &&& b.scopes@ =~= if a.scopes@.len() > 0 { a.scopes@.drop_last() } else { a.scopes@ }
}

/// What handling identifier `i` does, from `a` to `b`: a use of a name is
/// recorded as a reference, resolved in `a`, with an error when it resolves
/// to nothing; any other identifier changes nothing.
pub open spec fn identifier_effect(a: Analyzer, b: Analyzer, cx: Source, i: int) -> bool {
    if is_use(cx, i) {
        let name = text_of(*cx.tree, cx.text@, i);
        let d = a.resolves(name);
        &&& b == (Analyzer { diagnostics: b.diagnostics, references: b.references, ..a })
        &&& b.references@.len() == a.references@.len() + 1
        &&& forall|j: int| 0 <= j < a.references@.len() ==> b.references@[j] == a.references@[j]
        &&& b.references@.last().name@ == name
        &&& b.references@.last().range == node_range(cx, i)
        &&& b.references@.last().def_index == d
        &&& diags_view(b.diagnostics@) =~= diags_view(a.diagnostics@) + if d is None {
            seq![diag_at(cx, i, Severity::Error, DiagnosticCode::Validation, "Unknown identifier `"@ + name + "`"@)]
        } else {
            Seq::<DiagView>::empty()
        }
    } else {
        b == a
    }
}

/// What handling the dotted name `name` at node `i` does, from `a` to `b`:
/// a reference to the whole name, resolved by the part before the first
/// dot, and the `barstate.isconfirmed` flag.
pub open spec fn attribute_effect(a: Analyzer, b: Analyzer, cx: Source, i: int, name: Seq<char>) -> bool {
    let object = name.subrange(0, find_char(name, '.'));
    &&& b == (Analyzer {
        references: b.references,
        has_barstate_isconfirmed: a.has_barstate_isconfirmed || name == "barstate.isconfirmed"@,
        ..a
    })
    &&& b.references@.len() == a.references@.len() + 1
    &&& forall|j: int| 0 <= j < a.references@.len() ==> b.references@[j] == a.references@[j]
    &&& b.references@.last().name@ == name
    &&& b.references@.last().range == node_range(cx, i)
    &&& b.references@.last().def_index == a.resolves(object)
}

/// Handling `for` statement `i`: its bounds checked (`s1`), its counter
/// defined as an integer loop variable (`s2`), then its children walked.
pub open spec fn for_steps(a: Analyzer, s1: Analyzer, s2: Analyzer, st: Seq<Analyzer>, b: Analyzer, cx: Source, i: int) -> bool
    decreases walk_depth(cx, i), 58int, 0int,
{
    &&& Analyzer::appends(a, s1, for_diags(cx, i))
    &&& match sub_at(*cx.tree, i, Field::Counter) {
        Some(c) => defines_symbol(
            s1,
            s2,
            cx,
            text_of(*cx.tree, cx.text@, c),
            SymbolKind::LoopVariable,
            node_range(cx, c),
            node_range(cx, c),
            TypeModel::Scalar(BaseType::Int),
            false,
        ),
        None => s2 == s1,
    }
    &&& children_walked(st, s2, b, cx, i)
}

/// The type a variable definition `i` gives its variable: the declared
/// type, else the type of its value, else unknown.
pub open spec fn variable_type(a: Analyzer, cx: Source, i: int) -> TypeModel {
    let declared = declared_type(a, cx, i);
    if !(declared is Unknown) {
        declared
    } else {
        match tuple_init(cx, i) {
            Some(e) => infer_spec(a, cx, e),
            None => TypeModel::Unknown,
        }
    }
}

/// Handling variable definition `i` of the variable named at `var`: the
/// variable defined (`s1`), then its initial value, if any, handled.
pub open spec fn variable_steps(
    a: Analyzer,
    s1: Analyzer,
    s2: Analyzer,
    s3: Analyzer,
    s4: Analyzer,
    b: Analyzer,
    cx: Source,
    i: int,
    var: int,
) -> bool
    decreases walk_depth(cx, i), 56int, 0int,
{
    let name = text_of(*cx.tree, cx.text@, var);
    let sel = node_range(cx, var);
    &&& defines_symbol(a, s1, cx, name, SymbolKind::Variable, node_range(cx, i), sel, variable_type(a, cx, i), false)
    &&& match tuple_init(cx, i) {
        Some(e) => initial_value_steps(s1, s2, s3, s4, b, cx, name, e, sel),
        None => b == s1,
    }
}

/// Variable definition `i` is handled from `a` to `b`.
#[verifier::opaque]
pub open spec fn variable_defined(a: Analyzer, b: Analyzer, cx: Source, i: int) -> bool
    decreases walk_depth(cx, i), 58int, 0int,
{
    match sub_at(*cx.tree, i, Field::Variable) {
        Some(var) => exists|s1: Analyzer, s2: Analyzer, s3: Analyzer, s4: Analyzer|
            #![trigger walk_states4(s1, s2, s3, s4)]
            variable_steps(a, s1, s2, s3, s4, b, cx, i, var),
        None => b == a,
    }
}

/// Child `k` of function declaration `i`, from `st[k]` to `st[k + 1]`: a
/// parameter is defined with an unknown type, any other child left alone.
pub open spec fn param_step(st: Seq<Analyzer>, cx: Source, i: int, k: int) -> bool {
    let c = cx.tree.nodes@[i].children@[k] as int;
    if cx.tree.nodes@[i].fields@[k] == Field::Argument {
        defines_symbol(
            st[k],
            st[k + 1],
            cx,
            text_of(*cx.tree, cx.text@, c),
            SymbolKind::Parameter,
            node_range(cx, c),
            node_range(cx, c),
            TypeModel::Unknown,
            false,
        )
    } else {
        st[k + 1] == st[k]
    }
}

/// Child `k` of function declaration `i`, from `st[k]` to `st[k + 1]`: a
/// default value or the body is walked, any other child left alone.
pub open spec fn body_step(st: Seq<Analyzer>, cx: Source, i: int, k: int) -> bool
    decreases walk_depth(cx, i), 52int, 0int,
{
    let c = cx.tree.nodes@[i].children@[k] as int;
    let f = cx.tree.nodes@[i].fields@[k];
    if f == Field::DefaultValue || f == Field::Body {
        &&& walk_done(st[k], st[k + 1], cx, c)
        &&& i < c < cx.tree.nodes@.len() ==> node_walked(st[k], st[k + 1], cx, c)
    } else {
        st[k + 1] == st[k]
    }
}

/// The parameters of function declaration `i` are defined in order, from
/// `a` to `b`, through the states `st`.
#[verifier::opaque]
pub open spec fn params_defined(st: Seq<Analyzer>, a: Analyzer, b: Analyzer, cx: Source, i: int) -> bool {
    let n = cx.tree.nodes@[i].children@.len() as int;
    &&& st.len() == n + 1
    &&& st[0] == a
    &&& st[n] == b
    &&& forall|k: int| 0 <= k < n ==> #[trigger] param_step(st, cx, i, k)
}

/// The first `k` steps of `body_step` hold, in order.
pub open spec fn bodies_upto(st: Seq<Analyzer>, cx: Source, i: int, k: int) -> bool
    decreases walk_depth(cx, i), 53int, k,
{
    if k <= 0 {
        true
    } else {
        bodies_upto(st, cx, i, k - 1) && body_step(st, cx, i, k - 1)
    }
}

/// The defaults and body of function declaration `i` are walked in order,
/// from `a` to `b`, through the states `st`.
#[verifier::opaque]
pub open spec fn bodies_walked(st: Seq<Analyzer>, a: Analyzer, b: Analyzer, cx: Source, i: int) -> bool
    decreases walk_depth(cx, i), 54int, 0int,
{
    let n = cx.tree.nodes@[i].children@.len() as int;
    &&& st.len() == n + 1
    &&& st[0] == a
    &&& st[n] == b
    &&& bodies_upto(st, cx, i, n)
}

/// Opening function declaration `i` named `name`, at node `nn`: the
/// function defined in the current scope (`s1`), given an empty list of
/// callees when it has none (`s2`), a scope opened (`s3`) and the function
/// pushed as the one being declared (`b`).
pub open spec fn open_steps(a: Analyzer, s1: Analyzer, s2: Analyzer, s3: Analyzer, b: Analyzer, cx: Source, i: int, nn: int) -> bool {
    let name = text_of(*cx.tree, cx.text@, nn);
    &&& defines_symbol(a, s1, cx, name, SymbolKind::Function, node_range(cx, i), node_range(cx, nn), TypeModel::Unknown, false)
    &&& if s1.function_calls@.contains_key(name) {
        s2 == s1
    } else {
        &&& s2 == (Analyzer { function_calls: s2.function_calls, ..s1 })
        &&& s2.function_calls@ =~= s1.function_calls@.insert(name, s2.function_calls@[name])
        &&& s2.function_calls@[name]@.len() == 0
    }
    &&& entered(s2, s3)
    &&& b == (Analyzer { function_stack: b.function_stack, ..s3 })
    &&& names_view(b.function_stack@) =~= names_view(s3.function_stack@).push(name)
}

/// Closing function declaration `i` whose definition is number `d`: the
/// function popped (`s1`), the scope closed (`s2`), and the definition given
/// the type the body returns, when that is known.
pub open spec fn close_steps(a: Analyzer, s1: Analyzer, s2: Analyzer, b: Analyzer, cx: Source, i: int, d: int) -> bool {
    let bt = return_type_from(s2, cx, i, 0);
    &&& s1 == (Analyzer { function_stack: s1.function_stack, ..a })
    &&& s1.function_stack@ =~= if a.function_stack@.len() > 0 { a.function_stack@.drop_last() } else { a.function_stack@ }
    &&& exited(s1, s2)
    &&& if 0 <= d < s2.definitions@.len() && !(bt is Unknown) {
        &&& b == (Analyzer { definitions: b.definitions, ..s2 })
        &&& b.definitions@.len() == s2.definitions@.len()
        &&& forall|j: int| 0 <= j < s2.definitions@.len() && j != d ==> b.definitions@[j] == s2.definitions@[j]
        &&& def_view(b.definitions@[d]) == (DefView { ty: bt, ..def_view(s2.definitions@[d]) })
    } else {
        b == s2
    }
}

/// Handling function declaration `i` named at node `nn`: opened (to `s4`),
/// its parameters defined (`p`, to `s5`), its defaults and body walked (`w`,
/// to `s6`), and closed.
pub open spec fn function_steps(
    a: Analyzer,
    s4: Analyzer,
    p: Seq<Analyzer>,
    s5: Analyzer,
    w: Seq<Analyzer>,
    s6: Analyzer,
    b: Analyzer,
    cx: Source,
    i: int,
    nn: int,
) -> bool
    decreases walk_depth(cx, i), 56int, 0int,
{
    &&& exists|s1: Analyzer, s2: Analyzer, s3: Analyzer| #[trigger] open_steps(a, s1, s2, s3, s4, cx, i, nn)
    &&& params_defined(p, s4, s5, cx, i)
    &&& bodies_walked(w, s5, s6, cx, i)
    &&& exists|s7: Analyzer, s8: Analyzer| #[trigger] close_steps(s6, s7, s8, b, cx, i, a.definitions@.len() as int)
}

/// Function declaration `i` is handled from `a` to `b`; one without a name
/// changes nothing.
#[verifier::opaque]
pub open spec fn function_declared(a: Analyzer, b: Analyzer, cx: Source, i: int) -> bool
    decreases walk_depth(cx, i), 58int, 0int,
{
    match function_name_node(*cx.tree, i) {
        Some(nn) => exists|s4: Analyzer, p: Seq<Analyzer>, s5: Analyzer, w: Seq<Analyzer>, s6: Analyzer|
            #![trigger function_states(s4, p, s5, w, s6)]
            function_steps(a, s4, p, s5, w, s6, b, cx, i, nn),
        None => b == a,
    }
}

/// What walking node `i` does, from `a` to `b`, by the kind of the node:
/// the handler of declarations, statements and calls, a scope around the
/// children of a block, a reference for an identifier or a dotted name, the
/// checks of math operations and history references, and otherwise the walk
/// of the children.
#[verifier::opaque]
pub open spec fn node_walked(a: Analyzer, b: Analyzer, cx: Source, i: int) -> bool
    decreases walk_depth(cx, i), 60int, 0int,
{
    let k = cx.tree.kind_of(i);
    if k == NodeKind::FunctionDeclarationStatement {
        function_declared(a, b, cx, i)
    } else if k == NodeKind::VariableDefinition || k == NodeKind::VariableDefinitionStatement {
        variable_defined(a, b, cx, i)
    } else if k == NodeKind::TupleDeclaration || k == NodeKind::TupleDeclarationStatement {
        exists|st: Seq<Analyzer>| #[trigger] tuple_defined(st, a, b, cx, i)
    } else if k == NodeKind::Reassignment || k == NodeKind::ReassignmentStatement {
        exists|s1: Analyzer| #[trigger] reassignment_steps(a, s1, b, cx, i)
    } else if k == NodeKind::ForStatement {
        exists|s1: Analyzer, s2: Analyzer, st: Seq<Analyzer>| #![trigger walk_states3(s1, s2, st)] for_steps(a, s1, s2, st, b, cx, i)
    } else if k == NodeKind::WhileStatement {
        exists|s1: Analyzer, st: Seq<Analyzer>|
            #![trigger walk_states2(s1, st)]
            Analyzer::appends(a, s1, while_diags(cx, i)) && children_walked(st, s1, b, cx, i)
    } else if k == NodeKind::IfStatement {
        exists|s1: Analyzer, st: Seq<Analyzer>| #![trigger walk_states2(s1, st)] if_handled(a, s1, st, b, cx, i)
    } else if k == NodeKind::Call {
        call_handled(a, b, cx, i)
    } else if k == NodeKind::EnumDeclaration {
        b == a
    } else if k == NodeKind::Block {
        &&& b.scopes@ == a.scopes@
        &&& exists|s1: Analyzer, st: Seq<Analyzer>, s2: Analyzer|
            #![trigger walk_states3(s1, st, s2)]
            entered(a, s1) && children_walked(st, s1, s2, cx, i) && exited(s2, b)
    } else if k == NodeKind::Identifier {
        exists|s1: Analyzer, st: Seq<Analyzer>| #![trigger walk_states2(s1, st)] identifier_effect(a, s1, cx, i) && children_walked(st, s1, b, cx, i)
    } else if k == NodeKind::Attribute && attr_chain(*cx.tree, cx.text@, i) is Some {
        attribute_effect(a, b, cx, i, attr_chain(*cx.tree, cx.text@, i)->0)
    } else if k == NodeKind::MathOperation {
        exists|s1: Analyzer, st: Seq<Analyzer>|
            #![trigger walk_states2(s1, st)]
            Analyzer::appends(a, s1, math_operation_diags(cx, i)) && children_walked(st, s1, b, cx, i)
    } else if k == NodeKind::Subscript {
        exists|s1: Analyzer, st: Seq<Analyzer>|
            #![trigger walk_states2(s1, st)]
            Analyzer::appends(a, s1, history_diags(a, cx, i)) && children_walked(st, s1, b, cx, i)
    } else {
        exists|st: Seq<Analyzer>| #![trigger walk_states(st)] children_walked(st, a, b, cx, i)
    }
}

/// Steps that each hold make a prefix that holds.
proof fn lemma_children_upto(st: Seq<Analyzer>, cx: Source, i: int, k: int)
    requires
        forall|j: int| 0 <= j < k ==> #[trigger] child_step(st, cx, i, j),
    ensures
        children_upto(st, cx, i, k),
    decreases k,
{
    if k > 0 {
        lemma_children_upto(st, cx, i, k - 1);
        assert(child_step(st, cx, i, k - 1));
    }
}

/// Steps that each hold make a prefix that holds.
proof fn lemma_alternatives_upto(st: Seq<Analyzer>, cx: Source, i: int, k: int)
    requires
        forall|j: int| 0 <= j < k ==> #[trigger] alternative_step(st, cx, i, j),
    ensures
        alternatives_upto(st, cx, i, k),
    decreases k,
{
    if k > 0 {
        lemma_alternatives_upto(st, cx, i, k - 1);
        assert(alternative_step(st, cx, i, k - 1));
    }
}

/// Steps that each hold make a prefix that holds.
proof fn lemma_args_upto(st: Seq<Analyzer>, cx: Source, i: int, k: int)
    requires
        forall|j: int| 0 <= j < k ==> #[trigger] arg_step(st, cx, i, j),
    ensures
        args_upto(st, cx, i, k),
    decreases k,
{
    if k > 0 {
        lemma_args_upto(st, cx, i, k - 1);
        assert(arg_step(st, cx, i, k - 1));
    }
}

/// Steps that each hold make a prefix that holds.
proof fn lemma_bodies_upto(st: Seq<Analyzer>, cx: Source, i: int, k: int)
    requires
        forall|j: int| 0 <= j < k ==> #[trigger] body_step(st, cx, i, j),
    ensures
        bodies_upto(st, cx, i, k),
    decreases k,
{
    if k > 0 {
        lemma_bodies_upto(st, cx, i, k - 1);
        assert(body_step(st, cx, i, k - 1));
    }
}

/// The step of a call's walk over child `k`, from what walking it did.
proof fn lemma_arg_step(st: Seq<Analyzer>, cx: Source, i: int, k: int)
    requires
        0 <= k < cx.tree.nodes@[i].children@.len(),
        k + 1 < st.len(),
        i < cx.tree.nodes@[i].children@[k] < cx.tree.nodes@.len(),
        cx.tree.kind_of(cx.tree.nodes@[i].children@[k] as int) != NodeKind::Identifier ==> {
            let c = cx.tree.nodes@[i].children@[k] as int;
            walk_done(st[k], st[k + 1], cx, c) && node_walked(st[k], st[k + 1], cx, c)
        },
        cx.tree.kind_of(cx.tree.nodes@[i].children@[k] as int) == NodeKind::Identifier ==> st[k + 1] == st[k],
    ensures
        arg_step(st, cx, i, k),
{
    reveal(node_walked);
}

/// A call recorded in the call graph stays there through what follows it.
proof fn lemma_call_edge(start: Analyzer, s10: Analyzer, s11: Analyzer, s12: Analyzer, b: Analyzer, name: Seq<char>)
    requires
        s10.definitions == start.definitions,
        s10.scopes == start.scopes,
        s10.function_stack == start.function_stack,
        records_call(s10, s11, name),
        Analyzer::same_state(s11, s12),
        Analyzer::walk_keeps(s12, b),
    ensures
        ({
            let n = start.function_stack@.len();
            let d = start.resolves(name);
            (n > 0 && d is Some && start.definitions@[d->0 as int].kind == SymbolKind::Function
                && !start.definitions@[d->0 as int].is_builtin) ==> b.calls_edge(
                start.function_stack@[n - 1]@,
                start.definitions@[d->0 as int].name@,
            )
        }),
{
    let n = start.function_stack@.len();
    let dd = start.resolves(name);
    assert(s10.resolves(name) == dd);
    if n > 0 && dd is Some && start.definitions@[dd->0 as int].kind == SymbolKind::Function
        && !start.definitions@[dd->0 as int].is_builtin {
        let cur = start.function_stack@[n - 1]@;
        let callee = start.definitions@[dd->0 as int].name@;
        let prev = if s10.function_calls@.contains_key(cur) {
            names_view(s10.function_calls@[cur]@)
        } else {
            Seq::empty()
        };
        let now = names_view(s11.function_calls@[cur]@);
        assert(now == calls_after(prev, callee));
        if prev.contains(callee) {
            assert(now.contains(callee));
        } else {
            assert(now[prev.len() as int] == callee);
        }
        assert(s11.calls_edge(cur, callee));
        assert(s12.calls_edge(cur, callee));
    }
}

/// The whole tree is walked from its root, from `a` to `b`.
#[verifier::opaque]
pub open spec fn walked_root(a: Analyzer, b: Analyzer, cx: Source) -> bool {
    walk_done(a, b, cx, 0) && node_walked(a, b, cx, 0)
}

/// The names in a list of names.
pub open spec fn names_view(v: Seq<Vec<char>>) -> Seq<Seq<char>> {
    v.map_values(|x: Vec<char>| x@)
}

/// The callees of a function after it is seen to call `callee`: `callee`
/// joins the list once.
pub open spec fn calls_after(prev: Seq<Seq<char>>, callee: Seq<char>) -> Seq<Seq<char>> {
    if prev.contains(callee) {
        prev
    } else {
        prev.push(callee)
    }
}

impl Analyzer {
    fn call_checks_requests(&mut self, cx: &Source, name: &Vec<char>, args: &Vec<CallArg>, range: crate::position::Range)
        requires
            old(self).wf(),
            cx.wf(),
            args_ok(*cx.tree, args@),
        ensures
            final(self).wf(),
            Analyzer::diags_grow(*old(self), *final(self)),
            Analyzer::walk_keeps(*old(self), *final(self)),
            requests_done(*old(self), *final(self), *cx, name@, args@, range),
            checks_frame(*old(self), *final(self)),
    {
        let ghost a0 = *self;
        self.update_max_bars_back(cx, name, args);
        assert(Analyzer::diags_grow(a0, *self));
        let ghost s1 = *self;
        self.update_strategy_settings(cx, name, args, range);
        assert(Analyzer::diags_grow(a0, *self));
        let ghost s2 = *self;
        self.check_request_security_lookahead(cx, name, args, range);
        assert(Analyzer::diags_grow(a0, *self));
        let ghost s3 = *self;
        self.check_request_security_gaps(cx, name, args, range);
        assert(Analyzer::diags_grow(a0, *self));
        proof {
            reveal(request_checks);
        }
        assert(request_checks(a0, s1, s2, s3, *self, *cx, name@, args@, range));
    }

    fn call_checks_inputs(&mut self, cx: &Source, name: &Vec<char>, args: &Vec<CallArg>, range: crate::position::Range)
        requires
            old(self).wf(),
            cx.wf(),
            args_ok(*cx.tree, args@),
        ensures
            final(self).wf(),
            Analyzer::diags_grow(*old(self), *final(self)),
            Analyzer::walk_keeps(*old(self), *final(self)),
            inputs_done(*old(self), *final(self), *cx, name@, args@, range),
            checks_frame(*old(self), *final(self)),
    {
        let ghost a0 = *self;
        self.check_request_security_format(cx, name, args, range);
        assert(Analyzer::diags_grow(a0, *self));
        let ghost s1 = *self;
        self.check_request_security_expression(cx, name, args, range);
        assert(Analyzer::diags_grow(a0, *self));
        let ghost s2 = *self;
        self.check_input_range(cx, name, args);
        assert(Analyzer::diags_grow(a0, *self));
        let ghost s3 = *self;
        self.check_strategy_call_logic(cx, name, args, range);
        assert(Analyzer::diags_grow(a0, *self));
        proof {
            reveal(input_checks);
        }
        assert(input_checks(a0, s1, s2, s3, *self, *cx, name@, args@, range));
    }

    fn call_checks_orders(&mut self, cx: &Source, name: &Vec<char>, args: &Vec<CallArg>, range: crate::position::Range)
        requires
            old(self).wf(),
            cx.wf(),
            args_ok(*cx.tree, args@),
        ensures
            final(self).wf(),
            Analyzer::diags_grow(*old(self), *final(self)),
            Analyzer::walk_keeps(*old(self), *final(self)),
            orders_done(*old(self), *final(self), *cx, name@, args@, range),
            checks_frame(*old(self), *final(self)),
    {
        let ghost a0 = *self;
        self.record_strategy_order_id(cx, name, args, range);
        assert(Analyzer::diags_grow(a0, *self));
        let ghost s1 = *self;
        self.check_strategy_direction_conflict(cx, name, args, range);
        assert(Analyzer::diags_grow(a0, *self));
        let ghost s2 = *self;
        self.check_strategy_oca_conflicts(cx, name, args);
        assert(Analyzer::diags_grow(a0, *self));
        let ghost s3 = *self;
        self.check_strategy_quantity(cx, name, args);
        assert(Analyzer::diags_grow(a0, *self));
        proof {
            reveal(order_checks);
        }
        assert(order_checks(a0, s1, s2, s3, *self, *cx, name@, args@, range));
    }

    fn call_checks_positions(&mut self, cx: &Source, name: &Vec<char>, args: &Vec<CallArg>)
        requires
            old(self).wf(),
            cx.wf(),
            args_ok(*cx.tree, args@),
        ensures
            final(self).wf(),
            Analyzer::diags_grow(*old(self), *final(self)),
            Analyzer::walk_keeps(*old(self), *final(self)),
            positions_done(*old(self), *final(self), *cx, name@, args@),
            checks_frame(*old(self), *final(self)),
    {
        let ghost a0 = *self;
        self.check_strategy_position_size(cx, name, args);
        assert(Analyzer::diags_grow(a0, *self));
        let ghost s1 = *self;
        self.check_strategy_price_bounds(cx, name, args);
        assert(Analyzer::diags_grow(a0, *self));
        let ghost s2 = *self;
        self.check_strategy_limit_stop_relation(cx, name, args);
        assert(Analyzer::diags_grow(a0, *self));
        let ghost s3 = *self;
        self.check_strategy_exit_profit_loss(cx, name, args);
        assert(Analyzer::diags_grow(a0, *self));
        proof {
            reveal(position_checks);
        }
        assert(position_checks(a0, s1, s2, s3, *self, *cx, name@, args@));
    }

    fn call_checks_exits(&mut self, cx: &Source, name: &Vec<char>, args: &Vec<CallArg>)
        requires
            old(self).wf(),
            cx.wf(),
            args_ok(*cx.tree, args@),
        ensures
            final(self).wf(),
            Analyzer::diags_grow(*old(self), *final(self)),
            Analyzer::walk_keeps(*old(self), *final(self)),
            exits_done(*old(self), *final(self), *cx, name@, args@),
            checks_frame(*old(self), *final(self)),
    {
        let ghost a0 = *self;
        self.check_strategy_trail(cx, name, args);
        assert(Analyzer::diags_grow(a0, *self));
        let ghost s1 = *self;
        self.check_strategy_position_management(cx, name, args);
        assert(Analyzer::diags_grow(a0, *self));
        let ghost s2 = *self;
        self.check_strategy_alert_message(cx, name, args);
        assert(Analyzer::diags_grow(a0, *self));
        let ghost s3 = *self;
        self.check_closedtrades_index(cx, name, args);
        assert(Analyzer::diags_grow(a0, *self));
        proof {
            reveal(exit_checks);
        }
        assert(exit_checks(a0, s1, s2, s3, *self, *cx, name@, args@));
    }

    fn call_checks_formats(&mut self, cx: &Source, name: &Vec<char>, args: &Vec<CallArg>)
        requires
            old(self).wf(),
            cx.wf(),
            args_ok(*cx.tree, args@),
        ensures
            final(self).wf(),
            Analyzer::diags_grow(*old(self), *final(self)),
            Analyzer::walk_keeps(*old(self), *final(self)),
            formats_done(*old(self), *final(self), *cx, name@, args@),
            checks_frame(*old(self), *final(self)),
    {
        let ghost a0 = *self;
        self.check_timeframe_call(cx, name, args);
        assert(Analyzer::diags_grow(a0, *self));
        let ghost s1 = *self;
        self.check_chart_point_call(cx, name, args);
        assert(Analyzer::diags_grow(a0, *self));
        let ghost s2 = *self;
        self.check_session_parameter(cx, name, args);
        assert(Analyzer::diags_grow(a0, *self));
        let ghost s3 = *self;
        self.check_math_domain(cx, name, args);
        assert(Analyzer::diags_grow(a0, *self));
        let ghost s4 = *self;
        self.check_na_usage(cx, name, args);
        assert(Analyzer::diags_grow(a0, *self));
        proof {
            reveal(format_checks);
        }
        assert(format_checks(a0, s1, s2, s3, s4, *self, *cx, name@, args@));
    }

    fn call_checks_values(&mut self, cx: &Source, name: &Vec<char>, args: &Vec<CallArg>)
        requires
            old(self).wf(),
            cx.wf(),
            args_ok(*cx.tree, args@),
        ensures
            final(self).wf(),
            Analyzer::diags_grow(*old(self), *final(self)),
            Analyzer::walk_keeps(*old(self), *final(self)),
            values_done(*old(self), *final(self), *cx, name@, args@),
            checks_frame(*old(self), *final(self)),
    {
        let ghost a0 = *self;
        self.check_string_na_usage(cx, name, args);
        assert(Analyzer::diags_grow(a0, *self));
        let ghost s1 = *self;
        self.check_ta_param_relationships(cx, name, args);
        assert(Analyzer::diags_grow(a0, *self));
        let ghost s2 = *self;
        self.record_ta_length(cx, name, args);
        assert(Analyzer::diags_grow(a0, *self));
        let ghost s3 = *self;
        self.check_plot_title(cx, name, args);
        assert(Analyzer::diags_grow(a0, *self));
        proof {
            reveal(value_checks);
        }
        assert(value_checks(a0, s1, s2, s3, *self, *cx, name@, args@));
    }

    fn call_checks_plots(&mut self, cx: &Source, name: &Vec<char>, args: &Vec<CallArg>)
        requires
            old(self).wf(),
            cx.wf(),
            args_ok(*cx.tree, args@),
        ensures
            final(self).wf(),
            Analyzer::diags_grow(*old(self), *final(self)),
            Analyzer::walk_keeps(*old(self), *final(self)),
            plots_done(*old(self), *final(self), *cx, name@, args@),
            checks_frame(*old(self), *final(self)),
    {
        let ghost a0 = *self;
        self.check_plot_style_consistency(cx, name, args);
        assert(Analyzer::diags_grow(a0, *self));
        let ghost s1 = *self;
        self.check_color_values(cx, name, args);
        assert(Analyzer::diags_grow(a0, *self));
        let ghost s2 = *self;
        self.check_deleted_draw_object_usage(cx, name, args);
        assert(Analyzer::diags_grow(a0, *self));
        let ghost s3 = *self;
        self.check_map_operations(cx, name, args);
        assert(Analyzer::diags_grow(a0, *self));
        let ghost s4 = *self;
        self.maybe_warn_repainting(cx, name, args);
        assert(Analyzer::diags_grow(a0, *self));
        proof {
            reveal(plot_checks);
        }
        assert(plot_checks(a0, s1, s2, s3, s4, *self, *cx, name@, args@));
    }

    /// Marks the innermost open condition as entering or exiting a position
    /// when the call is a strategy order.
    fn mark_condition(&mut self, name: &Vec<char>)
        requires
            old(self).wf(),
        ensures
            final(self).wf(),
            marks_condition(*old(self), *final(self), name@),
    {
        let is_entry = chars_are(name, "strategy.entry") || chars_are(name, "strategy.order");
        let is_exit = chars_are(name, "strategy.exit") || chars_are(name, "strategy.close");
        if (is_entry || is_exit) && self.condition_stack.len() > 0 {
            let mut context = self.condition_stack.pop().unwrap();
            if is_entry {
                context.strategy_entry = true;
            }
            if is_exit {
                context.strategy_exit = true;
            }
            self.condition_stack.push(context);
        }
    }

    fn call_checks_collections(&mut self, cx: &Source, name: &Vec<char>, args: &Vec<CallArg>, range: crate::position::Range)
        requires
            old(self).wf(),
            cx.wf(),
            args_ok(*cx.tree, args@),
        ensures
            final(self).wf(),
            Analyzer::diags_grow(*old(self), *final(self)),
            Analyzer::walk_keeps(*old(self), *final(self)),
            collections_done(*old(self), *final(self), *cx, name@, args@, range),
            checks_frame(*old(self), *final(self)),
    {
        let ghost a0 = *self;
        let ghost mut s1 = *self;
        let ghost mut s2 = *self;
        if chars_are(name, "array.get") || chars_are(name, "array.set") {
            self.check_array_bounds(cx, args, 1);
            proof {
                s1 = *self;
                s2 = *self;
            }
        } else if chars_are(name, "array.pop") || chars_are(name, "array.shift") {
            self.check_array_empty_ops(cx, args);
            proof {
                s1 = *self;
                s2 = *self;
            }
        } else if chars_are(name, "array.remove") {
            self.check_array_bounds(cx, args, 1);
            proof {
                s1 = *self;
            }
            self.check_array_empty_ops(cx, args);
            proof {
                s2 = *self;
            }
        } else if chars_are(name, "matrix.get") || chars_are(name, "matrix.set") {
            self.check_matrix_bounds(cx, args, 1, 2);
            proof {
                s1 = *self;
                s2 = *self;
            }
        } else if chars_are(name, "matrix.row") || chars_are(name, "matrix.add_row") || chars_are(name, "matrix.remove_row") {
            self.check_matrix_index_bounds(cx, args, 1, true);
            proof {
                s1 = *self;
                s2 = *self;
            }
        } else if chars_are(name, "matrix.col") || chars_are(name, "matrix.add_col") || chars_are(name, "matrix.remove_col") {
            self.check_matrix_index_bounds(cx, args, 1, false);
            proof {
                s1 = *self;
                s2 = *self;
            }
        } else if chars_are(name, "matrix.swap_rows") {
            self.check_matrix_swap_bounds(cx, args, 1, 2, true);
            proof {
                s1 = *self;
                s2 = *self;
            }
        } else if chars_are(name, "matrix.swap_columns") {
            self.check_matrix_swap_bounds(cx, args, 1, 2, false);
            proof {
                s1 = *self;
                s2 = *self;
            }
        } else if chars_are(name, "matrix.sum") || chars_are(name, "matrix.diff") || chars_are(name, "matrix.mult")
            || chars_are(name, "matrix.concat") {
            self.check_matrix_size_compat(cx, name, args, range);
            proof {
                s1 = *self;
                s2 = *self;
            }
        }
        assert(Analyzer::diags_grow(a0, *self));
        if chars_are(name, "array.push") || chars_are(name, "array.set") || chars_are(name, "array.insert")
            || chars_are(name, "array.unshift") || chars_are(name, "array.from") {
            self.check_array_type_consistency(cx, name, args);
        }
        assert(Analyzer::diags_grow(a0, *self));
        let ghost s3 = *self;
        if chars_are(name, "matrix.set") || chars_are(name, "matrix.fill") {
            self.check_matrix_type_consistency(cx, name, args);
        }
        assert(Analyzer::diags_grow(a0, *self));
        let ghost s4 = *self;
        self.check_table_bounds(cx, name, args);
        assert(Analyzer::diags_grow(a0, *self));
        proof {
            reveal(collection_checks);
            reveal(bounds_checks);
        }
        assert(collection_checks(a0, s1, s2, s3, s4, *self, *cx, name@, args@, range));
    }

    /// Records that the function being declared calls `name`, when `name`
    /// resolves to a function of the document.
    fn record_function_call(&mut self, name: &Vec<char>)
        requires
            old(self).wf(),
        ensures
            final(self).wf(),
            records_call(*old(self), *final(self), name@),
            Analyzer::walk_keeps(*old(self), *final(self)),
    {
        let n = self.function_stack.len();
        if n == 0 {
            return;
        }
        let d = match self.resolve_symbol(name) {
            Some(d) => d,
            None => {
                return;
            },
        };
        if self.definitions[d].kind != SymbolKind::Function || self.definitions[d].is_builtin {
            return;
        }
        let current = slice_chars(&self.function_stack[n - 1], 0, self.function_stack[n - 1].len());
        let callee = crate::text::chars_of(self.definitions[d].name.as_str());
        let mut callees: Vec<Vec<char>> = Vec::new();
        match self.function_calls.get(&current) {
            Some(c) => {
                let mut q: usize = 0;
                while q < c.len()
                    invariant
                        q <= c@.len(),
                        callees@.len() == q,
                        forall|k: int| 0 <= k < q ==> (#[trigger] callees@[k])@ == c@[k]@,
                    decreases c@.len() - q,
                {
                    callees.push(slice_chars(&c[q], 0, c[q].len()));
                    proof {
                        assert(c@[q as int]@.subrange(0, c@[q as int]@.len() as int) =~= c@[q as int]@);
                    }
                    q = q + 1;
                }
                assert(names_view(callees@) =~= names_view(c@));
            },
            None => {
                assert(names_view(callees@) =~= Seq::<Seq<char>>::empty());
            },
        }
        let ghost prev = names_view(callees@);
        let mut present = false;
        let mut j: usize = 0;
        while j < callees.len()
            invariant
                j <= callees@.len(),
                prev == names_view(callees@),
                present <==> exists|q: int| 0 <= q < j && (#[trigger] callees@[q])@ == callee@,
            decreases callees@.len() - j,
        {
            if chars_eq(&callees[j], &callee) {
                present = true;
            }
            j = j + 1;
        }
        proof {
            if present {
                let q = choose|q: int| 0 <= q < j && (#[trigger] callees@[q])@ == callee@;
                assert(prev[q] == callee@);
            } else {
                assert forall|q: int| 0 <= q < prev.len() implies prev[q] != callee@ by {
                    assert(prev[q] == callees@[q]@);
                }
            }
        }
        if !present {
            callees.push(callee);
            assert(names_view(callees@) =~= prev.push(callee@));
        }
        assert(current@ == old(self).function_stack@[n - 1]@);
        assert(callee@ == old(self).definitions@[d as int].name@);
        assert(prev == (if old(self).function_calls@.contains_key(current@) {
            names_view(old(self).function_calls@[current@]@)
        } else {
            Seq::empty()
        }));
        assert(names_view(callees@) == calls_after(prev, callee@));
        self.function_calls.insert(current, callees);
        assert(*self == (Analyzer { function_calls: self.function_calls, ..*old(self) }));
        proof {
            let cur = current@;
            assert forall|p: Seq<char>, q: Seq<char>| old(self).calls_edge(p, q) implies self.calls_edge(p, q) by {
                if p == cur {
                    let j = choose|j: int| 0 <= j < prev.len() && prev[j] == q;
                    assert(names_view(self.function_calls@[cur]@)[j] == q);
                }
            }
        }
    }

    /// The types of the arguments, in order.
    fn argument_types(&self, cx: &Source, args: &Vec<CallArg>) -> (r: Vec<Type>)
        requires
            self.wf(),
            cx.wf(),
            args_ok(*cx.tree, args@),
        ensures
            r@.len() == args@.len(),
            forall|j: int| 0 <= j < args@.len() ==> (#[trigger] r@[j]).model() == crate::analysis::infer::infer_spec(*self, *cx, args@[j].node as int),
    {
        let mut types: Vec<Type> = Vec::new();
        let mut k: usize = 0;
        while k < args.len()
            invariant
                self.wf(),
                cx.wf(),
                args_ok(*cx.tree, args@),
                k <= args@.len(),
                types@.len() == k,
                forall|j: int| 0 <= j < k ==> (#[trigger] types@[j]).model() == crate::analysis::infer::infer_spec(*self, *cx, args@[j].node as int),
            decreases args@.len() - k,
        {
            let ty = self.infer_expr_type(cx, args[k].node);
            types.push(ty);
            k = k + 1;
        }
        types
    }

    /// Walks the subtree at node `i`.
    #[verifier::rlimit(100)]
    pub fn walk(&mut self, cx: &Source, i: usize)
        requires
            old(self).wf(),
            cx.wf(),
            node_ok(*cx.tree, i as int),
        ensures
            final(self).wf(),
            Analyzer::diags_grow(*old(self), *final(self)),
            Analyzer::walk_keeps(*old(self), *final(self)),
            Analyzer::stacks_kept(*old(self), *final(self)),
            cx.tree.kind_of(i as int) == NodeKind::Call ==> call_facts(*old(self), *final(self), *cx, i as int),
            cx.tree.kind_of(i as int) == NodeKind::Call ==> call_edge_fact(*old(self), *final(self), *cx, i as int),
            cx.tree.kind_of(i as int) == NodeKind::VariableDefinition || cx.tree.kind_of(i as int)
                == NodeKind::VariableDefinitionStatement ==> variable_facts(*old(self), *final(self), *cx, i as int),
            cx.tree.kind_of(i as int) == NodeKind::FunctionDeclarationStatement ==> function_facts(
                *old(self),
                *final(self),
                *cx,
                i as int,
            ),
            cx.tree.kind_of(i as int) == NodeKind::ForStatement ==> for_facts(*old(self), *final(self), *cx, i as int),
            node_walked(*old(self), *final(self), *cx, i as int),
        decreases cx.tree.nodes@.len() - i, 2int,
    {
        let t = cx.tree;
        let x = cx.text;
        proof {
            reveal_with_fuel(node_walked, 2);
            reveal(function_declared);
            reveal(variable_defined);
            reveal(if_handled);
            reveal(call_handled);
            reveal(children_walked);
        }
        match t.nodes[i].kind {
            NodeKind::FunctionDeclarationStatement => {
                self.handle_function_declaration(cx, i);
                return;
            },
            NodeKind::VariableDefinition | NodeKind::VariableDefinitionStatement => {
                self.handle_variable_definition(cx, i);
                return;
            },
            NodeKind::TupleDeclaration | NodeKind::TupleDeclarationStatement => {
                self.handle_tuple_declaration(cx, i);
                return;
            },
            NodeKind::Reassignment | NodeKind::ReassignmentStatement => {
                self.handle_reassignment(cx, i);
                return;
            },
            NodeKind::ForStatement => {
                self.handle_for_statement(cx, i);
                proof {
                    let (s1, s2, st) = choose|s1: Analyzer, s2: Analyzer, st: Seq<Analyzer>|
                        #[trigger] for_steps(*old(self), s1, s2, st, *self, *cx, i as int);
                    assert(walk_states3(s1, s2, st));
                }
                return;
            },
            NodeKind::WhileStatement => {
                self.handle_while_statement(cx, i);
                proof {
                    let (s1, st) = choose|s1: Analyzer, st: Seq<Analyzer>|
                        Analyzer::appends(*old(self), s1, while_diags(*cx, i as int)) && #[trigger] children_walked(st, s1, *self, *cx, i as int);
                    assert(walk_states2(s1, st));
                }
                return;
            },
            NodeKind::IfStatement => {
                self.handle_if_statement(cx, i);
                proof {
                    let (s1, st) = choose|s1: Analyzer, st: Seq<Analyzer>|
                        #[trigger] if_handled(*old(self), s1, st, *self, *cx, i as int);
                    assert(walk_states2(s1, st));
                }
                return;
            },
            NodeKind::Call => {
                self.handle_call(cx, i);
                return;
            },
            NodeKind::EnumDeclaration => {
                return;
            },
            NodeKind::Block => {
                self.enter_scope();
                let ghost s1 = *self;
                self.walk_children(cx, i);
                let ghost s2 = *self;
                self.exit_scope();
                proof {
                    assert(entered(*old(self), s1));
                    assert(exited(s2, *self));
                    assert(self.scopes@ =~= old(self).scopes@) by {
                        assert forall|q: int| 0 <= q < old(self).scopes@.len() implies self.scopes@[q] == old(self).scopes@[q] by {
                            assert(s2.scopes@[q] == s1.scopes@[q]);
                        }
                    }
                    let st = choose|st: Seq<Analyzer>| children_walked(st, s1, s2, *cx, i as int);
                    assert(entered(*old(self), s1) && children_walked(st, s1, s2, *cx, i as int) && exited(s2, *self));
                    assert(walk_states3(s1, st, s2));
                    assert(Analyzer::walk_keeps(*old(self), s2));
                }
                return;
            },
            _ => {},
        }
        let ghost s0 = *self;
        match t.nodes[i].kind {
            NodeKind::Identifier => {
                self.handle_identifier_reference(cx, i);
            },
            NodeKind::Attribute => {
                match attribute_chain_name(t, x, i) {
                    Some(name) => {
                        if chars_are(&name, "barstate.isconfirmed") {
                            self.has_barstate_isconfirmed = true;
                        }
                        let range = range_for_node(cx, i);
                        let dot = find_in(&name, 0, name.len(), '.');
                        let object = slice_chars(&name, 0, dot);
                        proof {
                            assert(name@.subrange(0, name@.len() as int) =~= name@);
                        }
                        let d = self.resolve_symbol(&object);
                        self.references.push(SymbolRef { name: string_of(name.as_slice()), range, def_index: d });
                        proof {
                            assert(attribute_effect(*old(self), *self, *cx, i as int, name@));
                        }
                        return;
                    },
                    None => {},
                }
            },
            NodeKind::MathOperation => {
                self.check_math_operation(cx, i);
            },
            NodeKind::Subscript => {
                self.check_history_reference(cx, i);
            },
            _ => {},
        }
        let ghost s1 = *self;
        proof {
            if t.nodes@[i as int].kind == NodeKind::Identifier {
                assert(identifier_effect(*old(self), s1, *cx, i as int));
            }
        }
        self.walk_children(cx, i);
        proof {
            let st = choose|st: Seq<Analyzer>| children_walked(st, s1, *self, *cx, i as int);
            assert(children_walked(st, s1, *self, *cx, i as int));
            assert(walk_states2(s1, st) && walk_states(st));
            assert(Analyzer::walk_keeps(*old(self), s1));
        }
    }

    /// Walks the whole tree, from its root.
    pub(crate) fn walk_root(&mut self, cx: &Source)
        requires
            old(self).wf(),
            cx.wf(),
        ensures
            final(self).wf(),
            Analyzer::diags_grow(*old(self), *final(self)),
            Analyzer::walk_keeps(*old(self), *final(self)),
            walked_root(*old(self), *final(self), *cx),
    {
        assert(cx.tree.wf(cx.text@.len() as int));
        self.walk(cx, 0);
        proof {
            reveal(walked_root);
        }
    }

    /// Walks every child of node `i`, in order.
    fn walk_children(&mut self, cx: &Source, i: usize)
        requires
            old(self).wf(),
            cx.wf(),
            node_ok(*cx.tree, i as int),
        ensures
            final(self).wf(),
            Analyzer::diags_grow(*old(self), *final(self)),
            Analyzer::walk_keeps(*old(self), *final(self)),
            Analyzer::stacks_kept(*old(self), *final(self)),
            exists|st: Seq<Analyzer>| #[trigger] children_walked(st, *old(self), *final(self), *cx, i as int),
        decreases cx.tree.nodes@.len() - i, 0int,
    {
        assert(cx.tree.node_wf(i as int, cx.text@.len() as int));
        let node = &cx.tree.nodes[i];
        let ghost a = *self;
        let ghost mut st: Seq<Analyzer> = seq![*self];
        let mut k: usize = 0;
        while k < node.children.len()
            invariant
                cx.wf(),
                node_ok(*cx.tree, i as int),
                node == cx.tree.nodes@[i as int],
                cx.tree.links_wf(i as int),
                k <= node.children@.len(),
                self.wf(),
                Analyzer::diags_grow(a, *self),
                Analyzer::walk_keeps(a, *self),
                Analyzer::stacks_kept(a, *self),
                st.len() == k + 1,
                st[0] == a,
                st[k as int] == *self,
                forall|j: int| 0 <= j < k ==> #[trigger] child_step(st, *cx, i as int, j),
            decreases node.children@.len() - k,
        {
            let c = node.children[k];
            self.walk(cx, c);
            proof {
                let prev = st;
                st = st.push(*self);
                assert forall|j: int| 0 <= j < k + 1 implies #[trigger] child_step(st, *cx, i as int, j) by {
                    reveal(node_walked);
                    if j < k {
                        assert(child_step(prev, *cx, i as int, j));
                        assert(st[j] == prev[j] && st[j + 1] == prev[j + 1]);
                    }
                }
            }
            k = k + 1;
        }
        proof {
            lemma_children_upto(st, *cx, i as int, node.children@.len() as int);
            reveal(children_walked);
            assert(children_walked(st, a, *self, *cx, i as int));
        }
    }

    /// Handles a call: resolves the function, runs the checks on the call
    /// and walks its arguments.
    #[verifier::rlimit(100)]
    pub fn handle_call(&mut self, cx: &Source, i: usize)
        requires
            old(self).wf(),
            cx.wf(),
            node_ok(*cx.tree, i as int),
        ensures
            final(self).wf(),
            Analyzer::diags_grow(*old(self), *final(self)),
            Analyzer::walk_keeps(*old(self), *final(self)),
            Analyzer::stacks_kept(*old(self), *final(self)),
            call_facts(*old(self), *final(self), *cx, i as int),
            call_edge_fact(*old(self), *final(self), *cx, i as int),
            call_handled(*old(self), *final(self), *cx, i as int),
        decreases cx.tree.nodes@.len() - i, 1int,
    {
        let t = cx.tree;
        let x = cx.text;
        let f = match child(t, x, i, Field::Function) {
            Some(f) => f,
            None => {
                proof {
                    reveal(call_handled);
                }
                return;
            },
        };
        let ghost start = *self;
        let name = call_name_from_node(t, x, f);
        if chars_are(&name, "indicator") || chars_are(&name, "strategy") {
            self.has_indicator_or_strategy = true;
        }
        if chars_are(&name, "indicator") {
            self.has_indicator_declaration = true;
        }
        if chars_are(&name, "strategy") {
            self.has_strategy_declaration = true;
        }
        let range = range_for_node(cx, f);
        let d = self.resolve_symbol(&name);
        let ghost flagged = *self;
        if d.is_none() && cx.builtins.function_named(&name).is_none() {
            let msg = wrap_chars("Unknown function `", &name, "`");
            report_chars(&mut self.diagnostics, cx, range, Severity::Error, DiagnosticCode::Validation, &msg);
            proof {
                lemma_grow_push(start, *self, diags_view(self.diagnostics@).last());
            }
        } else {
            proof {
                lemma_grow_same(start, *self);
            }
        }
        proof {
            assert(diags_view(self.diagnostics@) =~= diags_view(flagged.diagnostics@) + unknown_fn_diags(start, *cx, f as int));
        }
        let ghost before_push = *self;
        self.references.push(SymbolRef { name: string_of(name.as_slice()), range, def_index: d });
        proof {
            lemma_grow_same(before_push, *self);
        }
        let ghost s0 = *self;
        assert(call_opened(start, s0, *cx, f as int));
        assert(Analyzer::walk_keeps(start, s0));
        let args = collect_call_arguments(t, x, i);
        self.call_checks_requests(cx, &name, &args, range);
        let ghost s1 = *self;
        self.call_checks_inputs(cx, &name, &args, range);
        let ghost s2 = *self;
        self.call_checks_orders(cx, &name, &args, range);
        let ghost s3 = *self;
        self.call_checks_positions(cx, &name, &args);
        let ghost s4 = *self;
        self.call_checks_exits(cx, &name, &args);
        let ghost s5 = *self;
        self.call_checks_formats(cx, &name, &args);
        let ghost s6 = *self;
        self.call_checks_values(cx, &name, &args);
        let ghost s7 = *self;
        self.call_checks_plots(cx, &name, &args);
        let ghost s8 = *self;
        assert(Analyzer::diags_grow(s0, *self));
        assert(Analyzer::walk_keeps(start, *self));
        self.mark_condition(&name);
        let ghost s9 = *self;
        self.call_checks_collections(cx, &name, &args, range);
        let ghost s10 = *self;
        assert(Analyzer::walk_keeps(start, *self));
        self.record_function_call(&name);
        let ghost s11 = *self;
        assert(Analyzer::walk_keeps(start, *self));
        let arg_types = self.argument_types(cx, &args);
        self.check_call(cx, &name, &args, &arg_types);
        let ghost s12 = *self;
        proof {
            assert(type_models(arg_types@) =~= arg_models(s11, *cx, args@));
            assert(Analyzer::diags_grow(s11, *self));
            assert(Analyzer::diags_grow(start, *self));
            assert(Analyzer::walk_keeps(start, *self));
            assert(s10.definitions == start.definitions && s10.scopes == start.scopes && s10.function_stack == start.function_stack);
            assert(s10.resolves(name@) == start.resolves(name@));
        }
        assert(cx.tree.node_wf(i as int, cx.text@.len() as int));
        let node = &t.nodes[i];
        let ghost a = *self;
        let ghost mut st: Seq<Analyzer> = seq![*self];
        let mut k: usize = 0;
        while k < node.children.len()
            invariant
                cx.wf(),
                t == cx.tree,
                x == cx.text,
                node_ok(*cx.tree, i as int),
                node == cx.tree.nodes@[i as int],
                cx.tree.links_wf(i as int),
                k <= node.children@.len(),
                self.wf(),
                Analyzer::diags_grow(a, *self),
                Analyzer::walk_keeps(a, *self),
                Analyzer::stacks_kept(a, *self),
                st.len() == k + 1,
                st[0] == a,
                st[k as int] == *self,
                forall|j: int| 0 <= j < k ==> #[trigger] arg_step(st, *cx, i as int, j),
            decreases node.children@.len() - k,
        {
            let c = node.children[k];
            if t.nodes[c].kind != NodeKind::Identifier {
                self.walk(cx, c);
            }
            proof {
                let prev = st;
                st = st.push(*self);
                assert(node.children@[k as int] == c);
                lemma_arg_step(st, *cx, i as int, k as int);
                assert forall|j: int| 0 <= j < k + 1 implies #[trigger] arg_step(st, *cx, i as int, j) by {
                    if j < k {
                        assert(arg_step(prev, *cx, i as int, j));
                        assert(st[j] == prev[j] && st[j + 1] == prev[j + 1]);
                    }
                }
            }
            k = k + 1;
        }
        proof {
            lemma_args_upto(st, *cx, i as int, cx.tree.nodes@[i as int].children@.len() as int);
            reveal(call_children_walked);
            reveal(call_handled);
            assert(call_children_walked(st, a, *self, *cx, i as int));
            assert(call_steps(start, s0, s1, s2, s3, s4, s5, s6, s7, s8, s9, s10, s11, s12, st, *self, *cx, i as int, f as int, args@));
            assert(call_states(s0, s1, s2, s3, s4, s5, s6, s7, s8, s9, s10, s11, s12, st, args@));
            lemma_call_edge(start, s10, s11, s12, *self, name@);
            assert(Analyzer::walk_keeps(start, *self));
            let k = old(self).references@.len() as int;
            assert(s0.references@[k].name@ == name@);
            assert(self.references@[k] == s0.references@[k]);
            if old(self).resolves(name@) is None && !cx.builtins.functions_view().contains_key(name@) {
                assert(diag_view(self.diagnostics@[old(self).diagnostics@.len() as int]) == diag_view(
                    s0.diagnostics@[old(self).diagnostics@.len() as int],
                ));
            }
        }
    }

    /// Walks a condition (node `c`), checks it, and walks the branch it
    /// guards (node `q`, if any) inside a condition context.
    #[verifier::rlimit(50)]
    fn handle_condition(&mut self, cx: &Source, owner: usize, c: usize, q: Option<usize>)
        requires
            old(self).wf(),
            cx.wf(),
            node_ok(*cx.tree, owner as int),
            node_ok(*cx.tree, c as int),
            c > owner,
            q matches Some(n) ==> node_ok(*cx.tree, n as int) && n > owner,
        ensures
            final(self).wf(),
            Analyzer::diags_grow(*old(self), *final(self)),
            Analyzer::walk_keeps(*old(self), *final(self)),
            Analyzer::stacks_kept(*old(self), *final(self)),
            condition_handled(*old(self), *final(self), *cx, c as int, opt_node(q)),
        decreases cx.tree.nodes@.len() - owner, 0int,
    {
        self.walk(cx, c);
        let ghost s1 = *self;
        assert(Analyzer::stacks_kept(*old(self), s1));
        let range = range_for_node(cx, c);
        let close_zero = expr_has_close_zero(cx.tree, cx.text, c);
        let barstate = expr_has_barstate_flag(cx.tree, cx.text, c);
        self.check_constant_condition(cx, c);
        let ghost s2 = *self;
        if barstate {
            report(&mut self.diagnostics, cx, range, Severity::Hint, DiagnosticCode::Logic,
                "Verify barstate.isconfirmed/islast usage; behavior differs on historical bars");
        }
        proof {
            assert(diags_view(self.diagnostics@) =~= diags_view(s2.diagnostics@) + barstate_diags(*cx, c as int));
        }
        let ghost s3 = *self;
        let ghost mut s4 = *self;
        let ghost mut s5 = *self;
        let ghost mut s6 = *self;
        match q {
            Some(q) => {
                self.condition_stack.push(ConditionContext {
                    range,
                    strategy_entry: false,
                    strategy_exit: false,
                    condition_has_close_zero: close_zero,
                });
                proof {
                    s4 = *self;
                    assert(Analyzer::walk_keeps(*old(self), s4));
                }
                self.walk(cx, q);
                proof {
                    s5 = *self;
                    s6 = *self;
                    assert(Analyzer::walk_keeps(*old(self), s5));
                    assert(s5.condition_stack@.len() == s3.condition_stack@.len() + 1);
                }
                match self.condition_stack.pop() {
                    Some(context) => {
                        proof {
                            s6 = *self;
                            assert(Analyzer::walk_keeps(*old(self), s6));
                            assert(s6.condition_stack@ =~= s3.condition_stack@) by {
                                assert forall|q: int| 0 <= q < s3.condition_stack@.len() implies s6.condition_stack@[q]
                                    == s3.condition_stack@[q] by {
                                    assert(s5.condition_stack@[q] == s4.condition_stack@[q]);
                                }
                            }
                        }
                        self.finalize_condition_context(cx, context);
                    },
                    None => {},
                }
            },
            None => {},
        }
        proof {
            assert(walk_done(*old(self), s1, *cx, c as int));
            assert(Analyzer::appends(s1, s2, constant_condition_diags(*cx, c as int)));
            assert(Analyzer::appends(s2, s3, barstate_diags(*cx, c as int)));
            reveal(node_walked);
            assert(condition_steps(*old(self), s1, s2, s3, s4, s5, s6, *self, *cx, c as int, opt_node(q)));
            assert(condition_states(s1, s2, s3, s4, s5, s6));
            reveal(condition_handled);
        }
    }

    /// Handles an `if` statement: its condition and branch, then each
    /// `else if` and `else` clause.
    pub fn handle_if_statement(&mut self, cx: &Source, i: usize)
        requires
            old(self).wf(),
            cx.wf(),
            node_ok(*cx.tree, i as int),
        ensures
            final(self).wf(),
            Analyzer::diags_grow(*old(self), *final(self)),
            Analyzer::walk_keeps(*old(self), *final(self)),
            Analyzer::stacks_kept(*old(self), *final(self)),
            exists|s1: Analyzer, st: Seq<Analyzer>| #[trigger] if_handled(*old(self), s1, st, *final(self), *cx, i as int),
        decreases cx.tree.nodes@.len() - i, 1int,
    {
        let t = cx.tree;
        let x = cx.text;
        match child(t, x, i, Field::Condition) {
            Some(c) => {
                let q = child(t, x, i, Field::Consequence);
                self.handle_condition(cx, i, c, q);
            },
            None => {},
        }
        let ghost s1 = *self;
        assert(cx.tree.node_wf(i as int, cx.text@.len() as int));
        let node = &t.nodes[i];
        let ghost a = *self;
        let ghost mut st: Seq<Analyzer> = seq![*self];
        let mut k: usize = 0;
        while k < node.children.len()
            invariant
                cx.wf(),
                t == cx.tree,
                x == cx.text,
                node_ok(*cx.tree, i as int),
                node == cx.tree.nodes@[i as int],
                cx.tree.links_wf(i as int),
                k <= node.children@.len(),
                self.wf(),
                Analyzer::diags_grow(a, *self),
                Analyzer::walk_keeps(a, *self),
                Analyzer::stacks_kept(a, *self),
                st.len() == k + 1,
                st[0] == a,
                st[k as int] == *self,
                forall|j: int| 0 <= j < k ==> #[trigger] alternative_step(st, *cx, i as int, j),
            decreases node.children@.len() - k,
        {
            if node.fields[k] == Field::Alternative {
                let c = node.children[k];
                match t.nodes[c].kind {
                    NodeKind::ElseIfClause => self.handle_else_if_clause(cx, c),
                    NodeKind::ElseClause => self.handle_else_clause(cx, c),
                    _ => self.walk(cx, c),
                }
            }
            proof {
                let prev = st;
                st = st.push(*self);
                assert forall|j: int| 0 <= j < k + 1 implies #[trigger] alternative_step(st, *cx, i as int, j) by {
                    reveal(node_walked);
                    reveal(else_handled);
                    if j < k {
                        assert(alternative_step(prev, *cx, i as int, j));
                        assert(st[j] == prev[j] && st[j + 1] == prev[j + 1]);
                    }
                }
            }
            k = k + 1;
        }
        proof {
            lemma_alternatives_upto(st, *cx, i as int, node.children@.len() as int);
            reveal(if_handled);
            reveal(condition_handled);
            assert(if_handled(*old(self), s1, st, *self, *cx, i as int));
        }
    }
}


impl Analyzer {
    /// Handles an `else if` clause: its condition and branch.
    pub fn handle_else_if_clause(&mut self, cx: &Source, i: usize)
        requires
            old(self).wf(),
            cx.wf(),
            node_ok(*cx.tree, i as int),
        ensures
            final(self).wf(),
            Analyzer::diags_grow(*old(self), *final(self)),
            Analyzer::walk_keeps(*old(self), *final(self)),
            Analyzer::stacks_kept(*old(self), *final(self)),
            else_if_handled(*old(self), *final(self), *cx, i as int),
        decreases cx.tree.nodes@.len() - i, 1int,
    {
        match child(cx.tree, cx.text, i, Field::Condition) {
            Some(c) => {
                let q = child(cx.tree, cx.text, i, Field::Consequence);
                self.handle_condition(cx, i, c, q);
            },
            None => {},
        }
        proof {
            reveal(condition_handled);
        }
    }

    /// Handles an `else` clause: its branch, inside a condition context
    /// spanning the clause.
    pub fn handle_else_clause(&mut self, cx: &Source, i: usize)
        requires
            old(self).wf(),
            cx.wf(),
            node_ok(*cx.tree, i as int),
        ensures
            final(self).wf(),
            Analyzer::diags_grow(*old(self), *final(self)),
            Analyzer::walk_keeps(*old(self), *final(self)),
            Analyzer::stacks_kept(*old(self), *final(self)),
            else_handled(*old(self), *final(self), *cx, i as int),
        decreases cx.tree.nodes@.len() - i, 1int,
    {
        match child(cx.tree, cx.text, i, Field::Consequence) {
            Some(q) => {
                let range = range_for_node(cx, i);
                self.condition_stack.push(ConditionContext {
                    range,
                    strategy_entry: false,
                    strategy_exit: false,
                    condition_has_close_zero: false,
                });
                let ghost s0 = *self;
                assert(Analyzer::walk_keeps(*old(self), s0));
                self.walk(cx, q);
                let ghost s1 = *self;
                assert(Analyzer::walk_keeps(*old(self), s1));
                let ghost mut s2 = *self;
                match self.condition_stack.pop() {
                    Some(context) => {
                        proof {
                            s2 = *self;
                            assert(Analyzer::walk_keeps(*old(self), s2));
                        }
                        self.finalize_condition_context(cx, context);
                    },
                    None => {},
                }
                proof {
                    assert(Analyzer::walk_keeps(*old(self), *self));
                    reveal(else_handled);
                    assert(opens_condition(*old(self), s0, ConditionContext {
                            range: node_range(*cx, i as int),
                            strategy_entry: false,
                            strategy_exit: false,
                            condition_has_close_zero: false,
                        }));
                    reveal(node_walked);
                    assert(walk_done(s0, s1, *cx, q as int));
                    assert(closes_condition(s1, s2, *self, *cx));
                    assert(walk_states3(s0, s1, s2));
                    assert(guarded_walk(
                        *old(self),
                        s0,
                        s1,
                        s2,
                        *self,
                        *cx,
                        q as int,
                        ConditionContext {
                            range: node_range(*cx, i as int),
                            strategy_entry: false,
                            strategy_exit: false,
                            condition_has_close_zero: false,
                        },
                    ));
                }
            },
            None => {
                proof {
                    reveal(else_handled);
                }
            },
        }
    }

    /// Handles a `while` statement: checks its condition and walks it.
    pub fn handle_while_statement(&mut self, cx: &Source, i: usize)
        requires
            old(self).wf(),
            cx.wf(),
            node_ok(*cx.tree, i as int),
        ensures
            final(self).wf(),
            Analyzer::diags_grow(*old(self), *final(self)),
            Analyzer::walk_keeps(*old(self), *final(self)),
            Analyzer::stacks_kept(*old(self), *final(self)),
            exists|s1: Analyzer, st: Seq<Analyzer>|
                Analyzer::appends(*old(self), s1, while_diags(*cx, i as int)) && #[trigger] children_walked(
                    st,
                    s1,
                    *final(self),
                    *cx,
                    i as int,
                ),
        decreases cx.tree.nodes@.len() - i, 1int,
    {
        self.check_while_statement(cx, i);
        let ghost s1 = *self;
        self.walk_children(cx, i);
        proof {
            let st = choose|st: Seq<Analyzer>| children_walked(st, s1, *self, *cx, i as int);
            assert(Analyzer::appends(*old(self), s1, while_diags(*cx, i as int)) && children_walked(st, s1, *self, *cx, i as int));
        }
    }

    /// Handles a `for` statement: checks its bounds, defines its counter and
    /// walks it.
    pub fn handle_for_statement(&mut self, cx: &Source, i: usize)
        requires
            old(self).wf(),
            cx.wf(),
            node_ok(*cx.tree, i as int),
        ensures
            final(self).wf(),
            Analyzer::diags_grow(*old(self), *final(self)),
            Analyzer::walk_keeps(*old(self), *final(self)),
            Analyzer::stacks_kept(*old(self), *final(self)),
            for_facts(*old(self), *final(self), *cx, i as int),
            exists|s1: Analyzer, s2: Analyzer, st: Seq<Analyzer>| #[trigger] for_steps(*old(self), s1, s2, st, *final(self), *cx, i as int),
        decreases cx.tree.nodes@.len() - i, 1int,
    {
        self.check_for_statement_bounds(cx, i);
        let ghost s1 = *self;
        match child(cx.tree, cx.text, i, Field::Counter) {
            Some(c) => {
                let name = node_text(cx.tree, cx.text, c);
                let sel = range_for_node(cx, c);
                self.define_symbol(cx, name, SymbolKind::LoopVariable, sel, sel, Type::scalar(BaseType::Int), false);
            },
            None => {},
        }
        let ghost s2 = *self;
        self.walk_children(cx, i);
        proof {
            let st = choose|st: Seq<Analyzer>| children_walked(st, s2, *self, *cx, i as int);
            reveal(children_walked);
            assert(for_steps(*old(self), s1, s2, st, *self, *cx, i as int));
        }
    }

    /// Opens function declaration `i` named at node `nn`: defines the
    /// function, gives it a list of callees, opens its scope and pushes it as
    /// the function being declared. Returns the index of its definition.
    fn open_function(&mut self, cx: &Source, i: usize, nn: usize) -> (d: usize)
        requires
            old(self).wf(),
            cx.wf(),
            node_ok(*cx.tree, i as int),
            node_ok(*cx.tree, nn as int),
        ensures
            final(self).wf(),
            d == old(self).definitions@.len(),
            Analyzer::diags_grow(*old(self), *final(self)),
            Analyzer::walk_keeps(*old(self), *final(self)),
            exists|s1: Analyzer, s2: Analyzer, s3: Analyzer| #[trigger] open_steps(*old(self), s1, s2, s3, *final(self), *cx, i as int, nn as int),
            final(self).scopes@.len() == old(self).scopes@.len() + 1,
            forall|q: int| 0 <= q < old(self).scopes@.len() - 1 ==> #[trigger] final(self).scopes@[q] == old(self).scopes@[q],
            final(self).function_stack@ == old(self).function_stack@.push(final(self).function_stack@.last()),
            final(self).condition_stack == old(self).condition_stack,
            defined_at(
                *final(self),
                old(self).definitions@.len() as int,
                text_of(*cx.tree, cx.text@, nn as int),
                SymbolKind::Function,
                node_range(*cx, nn as int),
            ),
    {
        let t = cx.tree;
        let x = cx.text;
        let name = node_text(t, x, nn);
        let range = range_for_node(cx, nn);
        let whole = range_for_node(cx, i);
        let def_index = self.define_symbol(cx, name.clone(), SymbolKind::Function, whole, range, Type::unknown(), false);
        let ghost s1 = *self;
        if !self.function_calls.contains_key(&name) {
            self.function_calls.insert(name.clone(), Vec::new());
        }
        let ghost s2 = *self;
        self.enter_scope();
        let ghost s3 = *self;
        self.function_stack.push(name);
        proof {
            assert(names_view(self.function_stack@) =~= names_view(s3.function_stack@).push(text_of(*t, x@, nn as int)));
            assert(Analyzer::walk_keeps(*old(self), s2));
            assert(open_steps(*old(self), s1, s2, s3, *self, *cx, i as int, nn as int));
        }
        def_index
    }

    /// Closes function declaration `i` whose definition is number `d`: pops
    /// it, closes its scope and gives its definition the type its body
    /// returns, when that is known.
    fn close_function(&mut self, cx: &Source, i: usize, d: usize)
        requires
            old(self).wf(),
            cx.wf(),
            node_ok(*cx.tree, i as int),
        ensures
            final(self).wf(),
            Analyzer::diags_grow(*old(self), *final(self)),
            exists|s1: Analyzer, s2: Analyzer| #[trigger] close_steps(*old(self), s1, s2, *final(self), *cx, i as int, d as int),
            final(self).references == old(self).references,
            final(self).function_calls == old(self).function_calls,
            final(self).condition_stack == old(self).condition_stack,
            Analyzer::keeps_outline(*old(self), *final(self)),
            final(self).definitions@.len() == old(self).definitions@.len(),
            forall|j: int| 0 <= j < old(self).definitions@.len() && j != d ==> #[trigger] final(self).definitions@[j] == old(self).definitions@[j],
            d < old(self).definitions@.len() ==> crate::analysis::def_kept(final(self).definitions@[d as int], old(self).definitions@[d as int]),
            final(self).scopes@ =~= if old(self).scopes@.len() > 0 { old(self).scopes@.drop_last() } else { old(self).scopes@ },
            final(self).function_stack@ =~= if old(self).function_stack@.len() > 0 {
                old(self).function_stack@.drop_last()
            } else {
                old(self).function_stack@
            },
    {
        let _ = self.function_stack.pop();
        let ghost s1 = *self;
        self.exit_scope();
        let ghost s2 = *self;
        let body_type = self.infer_return_type(cx, i);
        if d < self.definitions.len() && !body_type.is_unknown() {
            let def = &self.definitions[d];
            let updated = crate::analysis::SymbolDef {
                name: def.name.clone(),
                kind: def.kind,
                range: def.range,
                selection_range: def.selection_range,
                ty: body_type,
                scope_depth: def.scope_depth,
                is_builtin: def.is_builtin,
            };
            self.definitions.set(d, updated);
        }
        proof {
            assert(close_steps(*old(self), s1, s2, *self, *cx, i as int, d as int));
        }
    }

    /// Defines the parameters of function declaration `i`, in order.
    fn define_params(&mut self, cx: &Source, i: usize)
        requires
            old(self).wf(),
            cx.wf(),
            node_ok(*cx.tree, i as int),
        ensures
            final(self).wf(),
            Analyzer::diags_grow(*old(self), *final(self)),
            Analyzer::walk_keeps(*old(self), *final(self)),
            Analyzer::stacks_kept(*old(self), *final(self)),
            exists|p: Seq<Analyzer>| #[trigger] params_defined(p, *old(self), *final(self), *cx, i as int),
    {
        let t = cx.tree;
        let x = cx.text;
        assert(t.node_wf(i as int, x@.len() as int));
        let node = &t.nodes[i];
        let ghost a = *self;
        let ghost mut p: Seq<Analyzer> = seq![*self];
        let mut k: usize = 0;
        while k < node.children.len()
            invariant
                cx.wf(),
                t == cx.tree,
                x == cx.text,
                node_ok(*cx.tree, i as int),
                node == cx.tree.nodes@[i as int],
                cx.tree.links_wf(i as int),
                k <= node.children@.len(),
                self.wf(),
                Analyzer::diags_grow(a, *self),
                Analyzer::walk_keeps(a, *self),
                Analyzer::stacks_kept(a, *self),
                p.len() == k + 1,
                p[0] == a,
                p[k as int] == *self,
                forall|j: int| 0 <= j < k ==> #[trigger] param_step(p, *cx, i as int, j),
            decreases node.children@.len() - k,
        {
            if node.fields[k] == Field::Argument {
                let c = node.children[k];
                let arg_name = node_text(t, x, c);
                let arg_range = range_for_node(cx, c);
                self.define_symbol(cx, arg_name, SymbolKind::Parameter, arg_range, arg_range, Type::unknown(), false);
            }
            proof {
                let prev = p;
                p = p.push(*self);
                assert forall|j: int| 0 <= j < k + 1 implies #[trigger] param_step(p, *cx, i as int, j) by {
                    if j < k {
                        assert(param_step(prev, *cx, i as int, j));
                        assert(p[j] == prev[j] && p[j + 1] == prev[j + 1]);
                    }
                }
            }
            k = k + 1;
        }
        proof {
            reveal(params_defined);
            assert(params_defined(p, a, *self, *cx, i as int));
        }
    }

    /// Walks the defaults and the body of function declaration `i`, in order.
    fn walk_bodies(&mut self, cx: &Source, i: usize)
        requires
            old(self).wf(),
            cx.wf(),
            node_ok(*cx.tree, i as int),
        ensures
            final(self).wf(),
            Analyzer::diags_grow(*old(self), *final(self)),
            Analyzer::walk_keeps(*old(self), *final(self)),
            Analyzer::stacks_kept(*old(self), *final(self)),
            exists|w: Seq<Analyzer>| #[trigger] bodies_walked(w, *old(self), *final(self), *cx, i as int),
        decreases cx.tree.nodes@.len() - i, 0int,
    {
        let t = cx.tree;
        let x = cx.text;
        assert(t.node_wf(i as int, x@.len() as int));
        let node = &t.nodes[i];
        let ghost a = *self;
        let ghost mut w: Seq<Analyzer> = seq![*self];
        let mut k: usize = 0;
        while k < node.children.len()
            invariant
                cx.wf(),
                t == cx.tree,
                x == cx.text,
                node_ok(*cx.tree, i as int),
                node == cx.tree.nodes@[i as int],
                cx.tree.links_wf(i as int),
                k <= node.children@.len(),
                self.wf(),
                Analyzer::diags_grow(a, *self),
                Analyzer::walk_keeps(a, *self),
                Analyzer::stacks_kept(a, *self),
                w.len() == k + 1,
                w[0] == a,
                w[k as int] == *self,
                forall|j: int| 0 <= j < k ==> #[trigger] body_step(w, *cx, i as int, j),
            decreases node.children@.len() - k,
        {
            if node.fields[k] == Field::DefaultValue || node.fields[k] == Field::Body {
                let c = node.children[k];
                self.walk(cx, c);
            }
            proof {
                let prev = w;
                w = w.push(*self);
                assert forall|j: int| 0 <= j < k + 1 implies #[trigger] body_step(w, *cx, i as int, j) by {
                    reveal(node_walked);
                    if j < k {
                        assert(body_step(prev, *cx, i as int, j));
                        assert(w[j] == prev[j] && w[j + 1] == prev[j + 1]);
                    }
                }
            }
            k = k + 1;
        }
        proof {
            lemma_bodies_upto(w, *cx, i as int, node.children@.len() as int);
            reveal(bodies_walked);
            assert(bodies_walked(w, a, *self, *cx, i as int));
        }
    }

    /// Handles a function declaration: defines the function and its
    /// parameters, walks its defaults and body in a scope of its own, and
    /// gives the function the type of its body.
    #[verifier::rlimit(100)]
    pub fn handle_function_declaration(&mut self, cx: &Source, i: usize)
        requires
            old(self).wf(),
            cx.wf(),
            node_ok(*cx.tree, i as int),
        ensures
            final(self).wf(),
            Analyzer::diags_grow(*old(self), *final(self)),
            Analyzer::walk_keeps(*old(self), *final(self)),
            Analyzer::stacks_kept(*old(self), *final(self)),
            function_facts(*old(self), *final(self), *cx, i as int),
            function_declared(*old(self), *final(self), *cx, i as int),
        decreases cx.tree.nodes@.len() - i, 1int,
    {
        let t = cx.tree;
        let x = cx.text;
        let name_node = match child(t, x, i, Field::Function) {
            Some(n) => n,
            None => match child(t, x, i, Field::Method) {
                Some(n) => n,
                None => {
                    proof {
                        reveal(function_declared);
                    }
                    return;
                },
            },
        };
        let def_index = self.open_function(cx, i, name_node);
        let ghost s4 = *self;
        self.define_params(cx, i);
        let ghost s5 = *self;
        let ghost p = choose|p: Seq<Analyzer>| params_defined(p, s4, s5, *cx, i as int);
        self.walk_bodies(cx, i);
        let ghost s6 = *self;
        let ghost w = choose|w: Seq<Analyzer>| bodies_walked(w, s5, s6, *cx, i as int);
        proof {
            assert(Analyzer::walk_keeps(*old(self), s6));
            assert(Analyzer::stacks_kept(s4, s6));
            assert(s6.definitions@[def_index as int] == s4.definitions@[def_index as int]);
        }
        self.close_function(cx, i, def_index);
        proof {
            assert(crate::analysis::def_kept(self.definitions@[def_index as int], s6.definitions@[def_index as int]));
            assert(self.scopes@.len() == old(self).scopes@.len());
            assert forall|q: int| 0 <= q < old(self).scopes@.len() - 1 implies #[trigger] self.scopes@[q] == old(self).scopes@[q] by {
                assert(s6.scopes@[q] == s4.scopes@[q]);
            }
            assert(self.function_stack@ =~= old(self).function_stack@);
            assert(Analyzer::walk_keeps(*old(self), *self));
            assert(Analyzer::stacks_kept(*old(self), *self));
            reveal(function_declared);
            reveal(bodies_walked);
            assert(function_steps(*old(self), s4, p, s5, w, s6, *self, *cx, i as int, name_node as int));
            assert(function_states(s4, p, s5, w, s6));
        }
    }

    /// Handles a variable definition: defines the variable with its declared
    /// or inferred type, checks and walks its initial value.
    pub fn handle_variable_definition(&mut self, cx: &Source, i: usize)
        requires
            old(self).wf(),
            cx.wf(),
            node_ok(*cx.tree, i as int),
        ensures
            final(self).wf(),
            Analyzer::diags_grow(*old(self), *final(self)),
            Analyzer::walk_keeps(*old(self), *final(self)),
            Analyzer::stacks_kept(*old(self), *final(self)),
            variable_facts(*old(self), *final(self), *cx, i as int),
            variable_defined(*old(self), *final(self), *cx, i as int),
        decreases cx.tree.nodes@.len() - i, 1int,
    {
        let t = cx.tree;
        let x = cx.text;
        let var = match child(t, x, i, Field::Variable) {
            Some(v) => v,
            None => {
                proof {
                    reveal(variable_defined);
                }
                return;
            },
        };
        let name = node_text(t, x, var);
        let sel = range_for_node(cx, var);
        let range = range_for_node(cx, i);
        let declared = self.parse_declared_type(cx, i);
        let init = match child(t, x, i, Field::InitialValue) {
            Some(e) => Some(e),
            None => child(t, x, i, Field::InitialStructure),
        };
        let inferred = match init {
            Some(e) => self.infer_expr_type(cx, e),
            None => Type::unknown(),
        };
        assert(opt_node(init) == tuple_init(*cx, i as int));
        let final_type = if !declared.is_unknown() {
            declared
        } else {
            inferred
        };
        self.define_symbol(cx, name.clone(), SymbolKind::Variable, range, sel, final_type, false);
        let ghost s1 = *self;
        assert(final_type.model() == variable_type(*old(self), *cx, i as int));
        match init {
            Some(e) => {
                self.handle_initial_value(cx, i, &name, e, sel);
                proof {
                    let (s2, s3, s4) = choose|s2: Analyzer, s3: Analyzer, s4: Analyzer|
                        initial_value_steps(s1, s2, s3, s4, *self, *cx, name@, e as int, sel);
                    assert(variable_steps(*old(self), s1, s2, s3, s4, *self, *cx, i as int, var as int));
                    assert(walk_states4(s1, s2, s3, s4));
                }
            },
            None => {
                assert(variable_steps(*old(self), s1, s1, s1, s1, *self, *cx, i as int, var as int));
                assert(walk_states4(s1, s1, s1, s1));
            },
        }
        proof {
            let k = old(self).definitions@.len() as int;
            assert(crate::analysis::def_kept(self.definitions@[k], s1.definitions@[k]));
            reveal(variable_defined);
        }
    }

    /// Checks the initial value at node `e` of variable `name` (defined by
    /// node `owner`), records what it makes, and walks it.
    fn handle_initial_value(&mut self, cx: &Source, owner: usize, name: &Vec<char>, e: usize, sel: crate::position::Range)
        requires
            old(self).wf(),
            cx.wf(),
            node_ok(*cx.tree, owner as int),
            node_ok(*cx.tree, e as int),
            e > owner,
        ensures
            final(self).wf(),
            Analyzer::diags_grow(*old(self), *final(self)),
            Analyzer::walk_keeps(*old(self), *final(self)),
            Analyzer::stacks_kept(*old(self), *final(self)),
            exists|s1: Analyzer, s2: Analyzer, s3: Analyzer| #[trigger] initial_value_steps(
                *old(self),
                s1,
                s2,
                s3,
                *final(self),
                *cx,
                name@,
                e as int,
                sel,
            ),
        decreases cx.tree.nodes@.len() - owner, 0int,
    {
        let ghost a0 = *self;
        self.check_duplicate_expression(cx, e, sel);
        assert(Analyzer::diags_grow(a0, *self));
        let ghost s1 = *self;
        self.update_collection_sizes(cx, name, e);
        assert(Analyzer::diags_grow(a0, *self));
        let ghost s2 = *self;
        self.record_draw_object_assignment(cx, name, e, sel);
        assert(Analyzer::diags_grow(a0, *self));
        let ghost s3 = *self;
        self.walk(cx, e);
        assert(initial_value_steps(a0, s1, s2, s3, *self, *cx, name@, e as int, sel)) by {
            reveal(node_walked);
        }
    }

    /// Handles a tuple declaration: defines each variable with the type of
    /// its item in the initial value's tuple type.
    pub fn handle_tuple_declaration(&mut self, cx: &Source, i: usize)
        requires
            old(self).wf(),
            cx.wf(),
            node_ok(*cx.tree, i as int),
        ensures
            final(self).wf(),
            Analyzer::diags_grow(*old(self), *final(self)),
            Analyzer::walk_keeps(*old(self), *final(self)),
            Analyzer::stacks_kept(*old(self), *final(self)),
            exists|st: Seq<Analyzer>| #[trigger] tuple_defined(st, *old(self), *final(self), *cx, i as int),
        decreases cx.tree.nodes@.len() - i, 1int,
    {
        let t = cx.tree;
        let x = cx.text;
        let init = match child(t, x, i, Field::InitialValue) {
            Some(e) => Some(e),
            None => child(t, x, i, Field::InitialStructure),
        };
        assert(opt_node(init) == tuple_init(*cx, i as int));
        let tuple_type = match init {
            Some(e) => self.infer_expr_type(cx, e),
            None => Type::unknown(),
        };
        let ghost want = tuple_items(*old(self), *cx, i as int);
        let items: Vec<Type> = match tuple_type {
            Type::Tuple(items) => items,
            _ => Vec::new(),
        };
        assert(items@.len() == want.len() && forall|j: int| 0 <= j < items@.len() ==> (#[trigger] items@[j]).model() == want[j]);
        assert(t.node_wf(i as int, x@.len() as int));
        let node = &t.nodes[i];
        let ghost a = *self;
        let ghost mut st: Seq<Analyzer> = seq![*self];
        let mut idx: usize = 0;
        let mut k: usize = 0;
        while k < node.children.len()
            invariant
                cx.wf(),
                t == cx.tree,
                x == cx.text,
                node_ok(*cx.tree, i as int),
                node == cx.tree.nodes@[i as int],
                cx.tree.links_wf(i as int),
                k <= node.children@.len(),
                idx <= k,
                idx == tuple_vars_before(*cx, i as int, k as int),
                want == tuple_items(a, *cx, i as int),
                items@.len() == want.len(),
                forall|j: int| 0 <= j < items@.len() ==> (#[trigger] items@[j]).model() == want[j],
                self.wf(),
                Analyzer::diags_grow(*old(self), *self),
                Analyzer::walk_keeps(*old(self), *self),
                Analyzer::stacks_kept(*old(self), *self),
                a == *old(self),
                st.len() == k + 1,
                st[0] == a,
                st[k as int] == *self,
                forall|j: int| 0 <= j < k ==> #[trigger] tuple_step(st, a, *cx, i as int, j),
            decreases node.children@.len() - k,
        {
            let c = node.children[k];
            let ghost before = *self;
            if node.fields[k] == Field::Variables && t.nodes[c].kind == NodeKind::Identifier {
                let name = node_text(t, x, c);
                let sel = range_for_node(cx, c);
                let ty = if idx < items.len() {
                    items[idx].duplicate()
                } else {
                    Type::unknown()
                };
                self.define_symbol(cx, name, SymbolKind::Variable, sel, sel, ty, false);
                idx = idx + 1;
            }
            proof {
                let prev = st;
                st = st.push(*self);
                assert(tuple_step(st, a, *cx, i as int, k as int));
                assert forall|j: int| 0 <= j < k + 1 implies #[trigger] tuple_step(st, a, *cx, i as int, j) by {
                    if j < k {
                        assert(tuple_step(prev, a, *cx, i as int, j));
                        assert(st[j] == prev[j] && st[j + 1] == prev[j + 1]);
                    }
                }
            }
            k = k + 1;
        }
        proof {
            reveal(tuple_defined);
            assert(tuple_defined(st, a, *self, *cx, i as int));
        }
    }

    /// Handles a reassignment: resolves the variable, reporting one that is
    /// not defined, and records a drawing object it is given.
    pub fn handle_reassignment(&mut self, cx: &Source, i: usize)
        requires
            old(self).wf(),
            cx.wf(),
            node_ok(*cx.tree, i as int),
        ensures
            final(self).wf(),
            Analyzer::diags_grow(*old(self), *final(self)),
            Analyzer::walk_keeps(*old(self), *final(self)),
            Analyzer::stacks_kept(*old(self), *final(self)),
            exists|s1: Analyzer| #[trigger] reassignment_steps(*old(self), s1, *final(self), *cx, i as int),
    {
        let t = cx.tree;
        let x = cx.text;
        let var = match child(t, x, i, Field::Variable) {
            Some(v) => v,
            None => {
                assert(reassignment_steps(*old(self), *self, *self, *cx, i as int));
                return;
            },
        };
        if t.nodes[var].kind != NodeKind::Identifier {
            assert(reassignment_steps(*old(self), *self, *self, *cx, i as int));
            return;
        }
        let ghost start = *self;
        let name = node_text(t, x, var);
        let range = range_for_node(cx, var);
        let d = self.resolve_symbol(&name);
        if d.is_none() {
            let msg = wrap_chars("Reassignment to undefined variable `", &name, "`");
            report_chars(&mut self.diagnostics, cx, range, Severity::Error, DiagnosticCode::Runtime, &msg);
            proof {
                lemma_grow_push(start, *self, diags_view(self.diagnostics@).last());
            }
        } else {
            proof {
                lemma_grow_same(start, *self);
            }
        }
        let ghost before_push = *self;
        self.references.push(SymbolRef { name: string_of(name.as_slice()), range, def_index: d });
        proof {
            lemma_grow_same(before_push, *self);
        }
        let ghost s1 = *self;
        let value = match child(t, x, i, Field::Value) {
            Some(v) => Some(v),
            None => child(t, x, i, Field::Structure),
        };
        assert(opt_node(value) == reassigned_value(*cx, i as int));
        match value {
            Some(v) => {
                self.record_draw_object_assignment(cx, &name, v, range);
                assert(Analyzer::diags_grow(s1, *self));
            },
            None => {},
        }
        assert(reassignment_steps(*old(self), s1, *self, *cx, i as int));
    }
}

} // verus!
