//! Reading expressions of the syntax tree: their text, dotted names, call
//! names, and the constant values of numeric, boolean and string expressions.

use vstd::prelude::*;

use crate::fmt::{push_chars, push_str};
use crate::num::{Num, number_value, opt_pair, opt_wf, parse_number, parse_number_at, rat_add, rat_div, rat_eq, rat_lt, rat_mul, rat_neg, rat_rem, rat_sub};
use crate::syntax::{Field, NodeKind, SyntaxTree};
use crate::text::{is_quoted, range_is, strip_whitespace, strip_ws, unquote, unquote_bounds};

verus! {

/// The source text of node `i`.
pub open spec fn text_of(t: SyntaxTree, x: Seq<char>, i: int) -> Seq<char> {
    x.subrange(t.nodes@[i].start as int, t.nodes@[i].end as int)
}

/// The tree is well formed over the text.
pub open spec fn tree_ok(t: SyntaxTree, x: Seq<char>) -> bool {
    &&& t.wf(x.len() as int)
    &&& x.len() < u32::MAX
}

/// Whether `t` is a well-formed tree over the text `x`, which the analysis
/// can take.
pub fn tree_is_ok(t: &SyntaxTree, x: &Vec<char>) -> (r: bool)
    ensures
        r == tree_ok(*t, x@),
{
    if x.len() >= 0xffff_ffff {
        return false;
    }
    t.check(x.len())
}

pub open spec fn node_ok(t: SyntaxTree, i: int) -> bool {
    0 <= i < t.nodes@.len()
}

/// The text of node `i`.
pub fn node_text(t: &SyntaxTree, x: &Vec<char>, i: usize) -> (r: Vec<char>)
    requires
        tree_ok(*t, x@),
        node_ok(*t, i as int),
    ensures
        r@ == text_of(*t, x@, i as int),
{
    assert(t.node_wf(i as int, x@.len() as int));
    let mut r: Vec<char> = Vec::new();
    let node = &t.nodes[i];
    let mut k = node.start;
    while k < node.end
        invariant
            node.start <= k <= node.end <= x@.len(),
            r@ == x@.subrange(node.start as int, k as int),
        decreases node.end - k,
    {
        r.push(x[k]);
        assert(x@.subrange(node.start as int, k + 1) =~= x@.subrange(node.start as int, k as int).push(x@[k as int]));
        k = k + 1;
    }
    r
}

/// Whether the text of node `i` is the literal `lit`.
pub fn text_is(t: &SyntaxTree, x: &Vec<char>, i: usize, lit: &str) -> (r: bool)
    requires
        tree_ok(*t, x@),
        node_ok(*t, i as int),
    ensures
        r == (text_of(*t, x@, i as int) == lit@),
{
    assert(t.node_wf(i as int, x@.len() as int));
    range_is(x, t.nodes[i].start, t.nodes[i].end, lit)
}

/// The text of node `i` with its whitespace removed.
pub fn normalized_node_text(t: &SyntaxTree, x: &Vec<char>, i: usize) -> (r: Vec<char>)
    requires
        tree_ok(*t, x@),
        node_ok(*t, i as int),
    ensures
        r@ == strip_ws(text_of(*t, x@, i as int)),
{
    assert(t.node_wf(i as int, x@.len() as int));
    strip_whitespace(x, t.nodes[i].start, t.nodes[i].end)
}

/// A child of `i` under field `f` that comes after `i`.
pub open spec fn sub_at(t: SyntaxTree, i: int, f: Field) -> Option<int> {
    match t.field_child(i, f) {
        Some(c) => if i < c < t.nodes@.len() { Some(c) } else { None },
        None => None,
    }
}

/// The first named child of `i`, when it comes after `i`.
pub open spec fn first_sub(t: SyntaxTree, i: int) -> Option<int> {
    match t.first_named_child(i) {
        Some(c) => if i < c < t.nodes@.len() { Some(c) } else { None },
        None => None,
    }
}

pub fn child(t: &SyntaxTree, x: &Vec<char>, i: usize, f: Field) -> (r: Option<usize>)
    requires
        tree_ok(*t, x@),
        node_ok(*t, i as int),
    ensures
        r matches Some(c) ==> sub_at(*t, i as int, f) == Some(c as int),
        r is None ==> sub_at(*t, i as int, f) is None,
{
    assert(t.node_wf(i as int, x@.len() as int));
    t.child_by_field(i, f)
}

pub fn first_child(t: &SyntaxTree, x: &Vec<char>, i: usize) -> (r: Option<usize>)
    requires
        tree_ok(*t, x@),
        node_ok(*t, i as int),
    ensures
        r matches Some(c) ==> first_sub(*t, i as int) == Some(c as int),
        r is None ==> first_sub(*t, i as int) is None,
{
    assert(t.node_wf(i as int, x@.len() as int));
    t.first_named(i)
}

/// The dotted name an attribute node spells (`a.b.c`), when its object is an
/// identifier, another such attribute, or a primary expression around one.
pub open spec fn attr_chain(t: SyntaxTree, x: Seq<char>, i: int) -> Option<Seq<char>>
    decreases t.nodes@.len() - i,
{
    if !node_ok(t, i) || t.kind_of(i) != NodeKind::Attribute {
        None
    } else {
        match (sub_at(t, i, Field::Object), sub_at(t, i, Field::Attribute)) {
            (Some(obj), Some(attr)) => {
                let object_name = match t.kind_of(obj) {
                    NodeKind::Identifier => Some(text_of(t, x, obj)),
                    NodeKind::Attribute => attr_chain(t, x, obj),
                    NodeKind::PrimaryExpression => match first_sub(t, obj) {
                        Some(c) => match t.kind_of(c) {
                            NodeKind::Identifier => Some(text_of(t, x, c)),
                            NodeKind::Attribute => attr_chain(t, x, c),
                            _ => None,
                        },
                        None => None,
                    },
                    _ => None,
                };
                match object_name {
                    Some(o) => Some(o + seq!['.'] + text_of(t, x, attr)),
                    None => None,
                }
            },
            _ => None,
        }
    }
}

/// The dotted name of an attribute node.
pub fn attribute_chain_name(t: &SyntaxTree, x: &Vec<char>, i: usize) -> (r: Option<Vec<char>>)
    requires
        tree_ok(*t, x@),
        node_ok(*t, i as int),
    ensures
        r matches Some(v) ==> attr_chain(*t, x@, i as int) == Some(v@),
        r is None ==> attr_chain(*t, x@, i as int) is None,
    decreases t.nodes@.len() - i,
{
    if t.nodes[i].kind != NodeKind::Attribute {
        return None;
    }
    let obj = match child(t, x, i, Field::Object) {
        Some(c) => c,
        None => {
            return None;
        },
    };
    let attr = match child(t, x, i, Field::Attribute) {
        Some(c) => c,
        None => {
            return None;
        },
    };
    let mut name = match t.nodes[obj].kind {
        NodeKind::Identifier => node_text(t, x, obj),
        NodeKind::Attribute => match attribute_chain_name(t, x, obj) {
            Some(v) => v,
            None => {
                return None;
            },
        },
        NodeKind::PrimaryExpression => {
            let c = match first_child(t, x, obj) {
                Some(c) => c,
                None => {
                    return None;
                },
            };
            match t.nodes[c].kind {
                NodeKind::Identifier => node_text(t, x, c),
                NodeKind::Attribute => match attribute_chain_name(t, x, c) {
                    Some(v) => v,
                    None => {
                        return None;
                    },
                },
                _ => {
                    return None;
                },
            }
        },
        _ => {
            return None;
        },
    };
    name.push('.');
    let a = node_text(t, x, attr);
    push_chars(&mut name, &a);
    Some(name)
}

/// The name under which a call's function node is looked up.
pub open spec fn call_name(t: SyntaxTree, x: Seq<char>, f: int) -> Seq<char> {
    match t.kind_of(f) {
        NodeKind::Identifier => text_of(t, x, f),
        NodeKind::Attribute => match attr_chain(t, x, f) {
            Some(n) => n,
            None => text_of(t, x, f),
        },
        NodeKind::TemplateFunction => match sub_at(t, f, Field::Name) {
            Some(n) => if t.kind_of(n) == NodeKind::Attribute {
                match attr_chain(t, x, n) {
                    Some(a) => a,
                    None => text_of(t, x, n),
                }
            } else if t.kind_of(n) == NodeKind::Identifier {
                text_of(t, x, n)
            } else {
                text_of(t, x, f)
            },
            None => text_of(t, x, f),
        },
        _ => text_of(t, x, f),
    }
}

pub fn call_name_from_node(t: &SyntaxTree, x: &Vec<char>, f: usize) -> (r: Vec<char>)
    requires
        tree_ok(*t, x@),
        node_ok(*t, f as int),
    ensures
        r@ == call_name(*t, x@, f as int),
{
    match t.nodes[f].kind {
        NodeKind::Identifier => node_text(t, x, f),
        NodeKind::Attribute => match attribute_chain_name(t, x, f) {
            Some(n) => n,
            None => node_text(t, x, f),
        },
        NodeKind::TemplateFunction => match child(t, x, f, Field::Name) {
            Some(n) => {
                if t.nodes[n].kind == NodeKind::Attribute {
                    match attribute_chain_name(t, x, n) {
                        Some(a) => a,
                        None => node_text(t, x, n),
                    }
                } else if t.nodes[n].kind == NodeKind::Identifier {
                    node_text(t, x, n)
                } else {
                    node_text(t, x, f)
                }
            },
            None => node_text(t, x, f),
        },
        _ => node_text(t, x, f),
    }
}

/// The dotted name of an identifier or attribute node.
pub open spec fn identifier_name(t: SyntaxTree, x: Seq<char>, i: int) -> Option<Seq<char>> {
    if t.kind_of(i) == NodeKind::Identifier {
        Some(text_of(t, x, i))
    } else if t.kind_of(i) == NodeKind::Attribute {
        attr_chain(t, x, i)
    } else {
        None
    }
}

pub fn extract_identifier_name(t: &SyntaxTree, x: &Vec<char>, i: usize) -> (r: Option<Vec<char>>)
    requires
        tree_ok(*t, x@),
        node_ok(*t, i as int),
    ensures
        r matches Some(v) ==> identifier_name(*t, x@, i as int) == Some(v@),
        r is None ==> identifier_name(*t, x@, i as int) is None,
{
    if t.nodes[i].kind == NodeKind::Identifier {
        Some(node_text(t, x, i))
    } else if t.nodes[i].kind == NodeKind::Attribute {
        attribute_chain_name(t, x, i)
    } else {
        None
    }
}

/// The value of a string literal node: its text without the surrounding quotes.
pub open spec fn string_const(t: SyntaxTree, x: Seq<char>, i: int) -> Option<Seq<char>> {
    if t.kind_of(i) != NodeKind::StringLiteral {
        None
    } else {
        Some(unquote(text_of(t, x, i)))
    }
}

pub fn eval_string_constant(t: &SyntaxTree, x: &Vec<char>, i: usize) -> (r: Option<Vec<char>>)
    requires
        tree_ok(*t, x@),
        node_ok(*t, i as int),
    ensures
        r matches Some(v) ==> string_const(*t, x@, i as int) == Some(v@),
        r is None ==> string_const(*t, x@, i as int) is None,
{
    if t.nodes[i].kind != NodeKind::StringLiteral {
        return None;
    }
    assert(t.node_wf(i as int, x@.len() as int));
    let (a, b) = unquote_bounds(x, t.nodes[i].start, t.nodes[i].end);
    let mut r: Vec<char> = Vec::new();
    let mut k = a;
    while k < b
        invariant
            a <= k <= b <= x@.len(),
            r@ == x@.subrange(a as int, k as int),
        decreases b - k,
    {
        r.push(x[k]);
        assert(x@.subrange(a as int, k + 1) =~= x@.subrange(a as int, k as int).push(x@[k as int]));
        k = k + 1;
    }
    Some(r)
}

/// The constant value of a numeric expression: number literals, unary minus
/// or plus, `+ - * / %` of constants and parentheses. Each step keeps its
/// exact rational value; a literal beyond the range of floats, and a
/// division by zero, give no constant value.
pub open spec fn num_const(t: SyntaxTree, x: Seq<char>, i: int) -> Option<(int, int)>
    decreases t.nodes@.len() - i,
{
    if !node_ok(t, i) {
        None
    } else {
        match t.kind_of(i) {
            NodeKind::Integer | NodeKind::Float => number_value(text_of(t, x, i)),
            NodeKind::UnaryOperation => match (sub_at(t, i, Field::Operator), sub_at(t, i, Field::Argument)) {
                (Some(op), Some(arg)) => match num_const(t, x, arg) {
                    Some(v) => if text_of(t, x, op) == "-"@ {
                        Some(rat_neg(v))
                    } else {
                        Some(v)
                    },
                    None => None,
                },
                _ => None,
            },
            NodeKind::MathOperation => match (
                sub_at(t, i, Field::Left),
                sub_at(t, i, Field::Right),
                sub_at(t, i, Field::Operator),
            ) {
                (Some(l), Some(r), Some(op)) => match (num_const(t, x, l), num_const(t, x, r)) {
                    (Some(a), Some(b)) => {
                        let o = text_of(t, x, op);
                        if o == "+"@ {
                            Some(rat_add(a, b))
                        } else if o == "-"@ {
                            Some(rat_sub(a, b))
                        } else if o == "*"@ {
                            Some(rat_mul(a, b))
                        } else if o == "/"@ {
                            rat_div(a, b)
                        } else if o == "%"@ {
                            rat_rem(a, b)
                        } else {
                            None
                        }
                    },
                    _ => None,
                },
                _ => None,
            },
            NodeKind::ParenthesizedExpression => match first_sub(t, i) {
                Some(c) => num_const(t, x, c),
                None => None,
            },
            _ => None,
        }
    }
}

pub fn eval_numeric_constant(t: &SyntaxTree, x: &Vec<char>, i: usize) -> (r: Option<Num>)
    requires
        tree_ok(*t, x@),
        node_ok(*t, i as int),
    ensures
        opt_pair(r) == num_const(*t, x@, i as int),
        opt_wf(r),
    decreases t.nodes@.len() - i,
{
    match t.nodes[i].kind {
        NodeKind::Integer | NodeKind::Float => {
            assert(t.node_wf(i as int, x@.len() as int));
            parse_number_at(x, t.nodes[i].start, t.nodes[i].end)
        },
        NodeKind::UnaryOperation => {
            let op = match child(t, x, i, Field::Operator) {
                Some(c) => c,
                None => {
                    return None;
                },
            };
            let arg = match child(t, x, i, Field::Argument) {
                Some(c) => c,
                None => {
                    return None;
                },
            };
            let v = match eval_numeric_constant(t, x, arg) {
                Some(v) => v,
                None => {
                    return None;
                },
            };
            if text_is(t, x, op, "-") {
                Some(v.neg())
            } else {
                Some(v)
            }
        },
        NodeKind::MathOperation => {
            let l = match child(t, x, i, Field::Left) {
                Some(c) => c,
                None => {
                    return None;
                },
            };
            let rr = match child(t, x, i, Field::Right) {
                Some(c) => c,
                None => {
                    return None;
                },
            };
            let op = match child(t, x, i, Field::Operator) {
                Some(c) => c,
                None => {
                    return None;
                },
            };
            let a = match eval_numeric_constant(t, x, l) {
                Some(v) => v,
                None => {
                    return None;
                },
            };
            let b = match eval_numeric_constant(t, x, rr) {
                Some(v) => v,
                None => {
                    return None;
                },
            };
            if text_is(t, x, op, "+") {
                Some(a.add(&b))
            } else if text_is(t, x, op, "-") {
                Some(a.sub(&b))
            } else if text_is(t, x, op, "*") {
                Some(a.mul(&b))
            } else if text_is(t, x, op, "/") {
                a.div(&b)
            } else if text_is(t, x, op, "%") {
                a.rem(&b)
            } else {
                None
            }
        },
        NodeKind::ParenthesizedExpression => match first_child(t, x, i) {
            Some(c) => eval_numeric_constant(t, x, c),
            None => None,
        },
        _ => None,
    }
}

/// The value of a constant operand of a comparison.
pub enum ConstVal {
    Bool(bool),
    Number((int, int)),
    Str(Seq<char>),
}

/// A constant operand as the analyzer holds it.
pub enum ConstValue {
    Bool(bool),
    Number(Num),
    Str(Vec<char>),
}

impl ConstValue {
    pub open spec fn model(self) -> ConstVal {
        match self {
            ConstValue::Bool(b) => ConstVal::Bool(b),
            ConstValue::Number(n) => ConstVal::Number(n.pair()),
            ConstValue::Str(s) => ConstVal::Str(s@),
        }
    }

    pub open spec fn wf(self) -> bool {
        self matches ConstValue::Number(n) ==> n.wf()
    }
}

/// The constant value of an operand: `true`, `false`, a string literal, or a
/// numeric constant.
pub open spec fn const_val(t: SyntaxTree, x: Seq<char>, i: int) -> Option<ConstVal>
    decreases t.nodes@.len() - i,
{
    if !node_ok(t, i) {
        None
    } else {
        match t.kind_of(i) {
            NodeKind::True => Some(ConstVal::Bool(true)),
            NodeKind::False => Some(ConstVal::Bool(false)),
            NodeKind::Identifier => if text_of(t, x, i) == "true"@ {
                Some(ConstVal::Bool(true))
            } else if text_of(t, x, i) == "false"@ {
                Some(ConstVal::Bool(false))
            } else {
                None
            },
            NodeKind::StringLiteral => match string_const(t, x, i) {
                Some(s) => Some(ConstVal::Str(s)),
                None => None,
            },
            NodeKind::ParenthesizedExpression => match first_sub(t, i) {
                Some(c) => const_val(t, x, c),
                None => None,
            },
            _ => match num_const(t, x, i) {
                Some(v) => Some(ConstVal::Number(v)),
                None => None,
            },
        }
    }
}

/// How two constants compare under `op`, when `op` applies to them.
pub open spec fn compare_consts(op: Seq<char>, l: ConstVal, r: ConstVal) -> Option<bool> {
    match (l, r) {
        (ConstVal::Number(a), ConstVal::Number(b)) => if op == "=="@ {
            Some(rat_eq(a, b))
        } else if op == "!="@ {
            Some(!rat_eq(a, b))
        } else if op == "<"@ {
            Some(rat_lt(a, b))
        } else if op == "<="@ {
            Some(rat_lt(a, b) || rat_eq(a, b))
        } else if op == ">"@ {
            Some(rat_lt(b, a))
        } else if op == ">="@ {
            Some(rat_lt(b, a) || rat_eq(a, b))
        } else {
            None
        },
        (ConstVal::Str(a), ConstVal::Str(b)) => if op == "=="@ {
            Some(a == b)
        } else if op == "!="@ {
            Some(a != b)
        } else {
            None
        },
        (ConstVal::Bool(a), ConstVal::Bool(b)) => if op == "=="@ {
            Some(a == b)
        } else if op == "!="@ {
            Some(a != b)
        } else {
            None
        },
        _ => None,
    }
}

/// The constant truth value of a condition: `true`/`false`, `not`, `and`,
/// `or`, comparisons of constants and parentheses.
pub open spec fn bool_const(t: SyntaxTree, x: Seq<char>, i: int) -> Option<bool>
    decreases t.nodes@.len() - i,
{
    if !node_ok(t, i) {
        None
    } else {
        match t.kind_of(i) {
            NodeKind::True => Some(true),
            NodeKind::False => Some(false),
            NodeKind::Identifier => if text_of(t, x, i) == "true"@ {
                Some(true)
            } else if text_of(t, x, i) == "false"@ {
                Some(false)
            } else {
                None
            },
            NodeKind::ParenthesizedExpression => match first_sub(t, i) {
                Some(c) => bool_const(t, x, c),
                None => None,
            },
            NodeKind::UnaryOperation => match (sub_at(t, i, Field::Operator), sub_at(t, i, Field::Argument)) {
                (Some(op), Some(arg)) => if text_of(t, x, op) == "not"@ {
                    match bool_const(t, x, arg) {
                        Some(v) => Some(!v),
                        None => None,
                    }
                } else {
                    None
                },
                _ => None,
            },
            NodeKind::LogicalOperation => match (
                sub_at(t, i, Field::Left),
                sub_at(t, i, Field::Right),
                sub_at(t, i, Field::Operator),
            ) {
                (Some(l), Some(r), Some(op)) => match (bool_const(t, x, l), bool_const(t, x, r)) {
                    (Some(a), Some(b)) => if text_of(t, x, op) == "and"@ {
                        Some(a && b)
                    } else if text_of(t, x, op) == "or"@ {
                        Some(a || b)
                    } else {
                        None
                    },
                    _ => None,
                },
                _ => None,
            },
            NodeKind::ComparisonOperation => match (
                sub_at(t, i, Field::Left),
                sub_at(t, i, Field::Right),
                sub_at(t, i, Field::Operator),
            ) {
                (Some(l), Some(r), Some(op)) => match (const_val(t, x, l), const_val(t, x, r)) {
                    (Some(a), Some(b)) => compare_consts(text_of(t, x, op), a, b),
                    _ => None,
                },
                _ => None,
            },
            _ => None,
        }
    }
}

pub fn eval_const_value(t: &SyntaxTree, x: &Vec<char>, i: usize) -> (r: Option<ConstValue>)
    requires
        tree_ok(*t, x@),
        node_ok(*t, i as int),
    ensures
        r matches Some(v) ==> const_val(*t, x@, i as int) == Some(v.model()) && v.wf(),
        r is None ==> const_val(*t, x@, i as int) is None,
    decreases t.nodes@.len() - i,
{
    match t.nodes[i].kind {
        NodeKind::True => Some(ConstValue::Bool(true)),
        NodeKind::False => Some(ConstValue::Bool(false)),
        NodeKind::Identifier => {
            if text_is(t, x, i, "true") {
                Some(ConstValue::Bool(true))
            } else if text_is(t, x, i, "false") {
                Some(ConstValue::Bool(false))
            } else {
                None
            }
        },
        NodeKind::StringLiteral => match eval_string_constant(t, x, i) {
            Some(v) => Some(ConstValue::Str(v)),
            None => None,
        },
        NodeKind::ParenthesizedExpression => match first_child(t, x, i) {
            Some(c) => eval_const_value(t, x, c),
            None => None,
        },
        _ => match eval_numeric_constant(t, x, i) {
            Some(v) => Some(ConstValue::Number(v)),
            None => None,
        },
    }
}

fn compare_const_values(t: &SyntaxTree, x: &Vec<char>, op: usize, l: &ConstValue, r: &ConstValue) -> (res: Option<bool>)
    requires
        tree_ok(*t, x@),
        node_ok(*t, op as int),
        l.wf(),
        r.wf(),
    ensures
        res == compare_consts(text_of(*t, x@, op as int), l.model(), r.model()),
{
    match (l, r) {
        (ConstValue::Number(a), ConstValue::Number(b)) => {
            if text_is(t, x, op, "==") {
                Some(a.same_value(b))
            } else if text_is(t, x, op, "!=") {
                Some(!a.same_value(b))
            } else if text_is(t, x, op, "<") {
                Some(a.less_than(b))
            } else if text_is(t, x, op, "<=") {
                Some(a.less_than(b) || a.same_value(b))
            } else if text_is(t, x, op, ">") {
                Some(b.less_than(a))
            } else if text_is(t, x, op, ">=") {
                Some(b.less_than(a) || a.same_value(b))
            } else {
                None
            }
        },
        (ConstValue::Str(a), ConstValue::Str(b)) => {
            if text_is(t, x, op, "==") {
                Some(crate::text::chars_eq(a, b))
            } else if text_is(t, x, op, "!=") {
                Some(!crate::text::chars_eq(a, b))
            } else {
                None
            }
        },
        (ConstValue::Bool(a), ConstValue::Bool(b)) => {
            if text_is(t, x, op, "==") {
                Some(*a == *b)
            } else if text_is(t, x, op, "!=") {
                Some(*a != *b)
            } else {
                None
            }
        },
        _ => None,
    }
}

pub fn eval_bool_constant(t: &SyntaxTree, x: &Vec<char>, i: usize) -> (r: Option<bool>)
    requires
        tree_ok(*t, x@),
        node_ok(*t, i as int),
    ensures
        r == bool_const(*t, x@, i as int),
    decreases t.nodes@.len() - i,
{
    match t.nodes[i].kind {
        NodeKind::True => Some(true),
        NodeKind::False => Some(false),
        NodeKind::Identifier => {
            if text_is(t, x, i, "true") {
                Some(true)
            } else if text_is(t, x, i, "false") {
                Some(false)
            } else {
                None
            }
        },
        NodeKind::ParenthesizedExpression => match first_child(t, x, i) {
            Some(c) => eval_bool_constant(t, x, c),
            None => None,
        },
        NodeKind::UnaryOperation => {
            let op = match child(t, x, i, Field::Operator) {
                Some(c) => c,
                None => {
                    return None;
                },
            };
            let arg = match child(t, x, i, Field::Argument) {
                Some(c) => c,
                None => {
                    return None;
                },
            };
            if text_is(t, x, op, "not") {
                match eval_bool_constant(t, x, arg) {
                    Some(v) => Some(!v),
                    None => None,
                }
            } else {
                None
            }
        },
        NodeKind::LogicalOperation => {
            let l = match child(t, x, i, Field::Left) {
                Some(c) => c,
                None => {
                    return None;
                },
            };
            let rr = match child(t, x, i, Field::Right) {
                Some(c) => c,
                None => {
                    return None;
                },
            };
            let op = match child(t, x, i, Field::Operator) {
                Some(c) => c,
                None => {
                    return None;
                },
            };
            let a = match eval_bool_constant(t, x, l) {
                Some(v) => v,
                None => {
                    return None;
                },
            };
            let b = match eval_bool_constant(t, x, rr) {
                Some(v) => v,
                None => {
                    return None;
                },
            };
            if text_is(t, x, op, "and") {
                Some(a && b)
            } else if text_is(t, x, op, "or") {
                Some(a || b)
            } else {
                None
            }
        },
        NodeKind::ComparisonOperation => {
            let l = match child(t, x, i, Field::Left) {
                Some(c) => c,
                None => {
                    return None;
                },
            };
            let rr = match child(t, x, i, Field::Right) {
                Some(c) => c,
                None => {
                    return None;
                },
            };
            let op = match child(t, x, i, Field::Operator) {
                Some(c) => c,
                None => {
                    return None;
                },
            };
            let a = match eval_const_value(t, x, l) {
                Some(v) => v,
                None => {
                    return None;
                },
            };
            let b = match eval_const_value(t, x, rr) {
                Some(v) => v,
                None => {
                    return None;
                },
            };
            compare_const_values(t, x, op, &a, &b)
        },
        _ => None,
    }
}


/// Whether the number literal or constant expression at `i` is the number zero.
pub open spec fn is_const_zero(t: SyntaxTree, x: Seq<char>, i: int) -> bool {
    num_const(t, x, i) matches Some(v) && v.0 == 0
}

/// Whether identifier `na` occurs in the expression at `i`, looking through
/// named children.
pub open spec fn contains_na(t: SyntaxTree, x: Seq<char>, i: int) -> bool
    decreases t.nodes@.len() - i, t.nodes@[i].children@.len() + 1,
{
    if !node_ok(t, i) {
        false
    } else if t.kind_of(i) == NodeKind::Identifier && text_of(t, x, i) == "na"@ {
        true
    } else {
        child_contains_na(t, x, i, 0)
    }
}

/// Whether a named child of `i`, from position `k` on, contains `na`.
pub open spec fn child_contains_na(t: SyntaxTree, x: Seq<char>, i: int, k: int) -> bool
    decreases t.nodes@.len() - i, t.nodes@[i].children@.len() - k,
{
    if !node_ok(t, i) || k < 0 || k >= t.nodes@[i].children@.len() {
        false
    } else {
        let c = t.nodes@[i].children@[k] as int;
        (i < c < t.nodes@.len() && t.nodes@[c].named && contains_na(t, x, c))
            || child_contains_na(t, x, i, k + 1)
    }
}

/// Whether the expression at `i` reads unshifted `close`: the identifier
/// `close`, or `close[k]` with a constant `k` equal to zero, looking through
/// named children (a subscript is not looked into further).
pub open spec fn has_close_zero(t: SyntaxTree, x: Seq<char>, i: int) -> bool
    decreases t.nodes@.len() - i, t.nodes@[i].children@.len() + 1,
{
    if !node_ok(t, i) {
        false
    } else if t.kind_of(i) == NodeKind::Subscript {
        is_close_subscript_zero(t, x, i)
    } else if t.kind_of(i) == NodeKind::Identifier && text_of(t, x, i) == "close"@ {
        true
    } else {
        child_has_close_zero(t, x, i, 0)
    }
}

pub open spec fn child_has_close_zero(t: SyntaxTree, x: Seq<char>, i: int, k: int) -> bool
    decreases t.nodes@.len() - i, t.nodes@[i].children@.len() - k,
{
    if !node_ok(t, i) || k < 0 || k >= t.nodes@[i].children@.len() {
        false
    } else {
        let c = t.nodes@[i].children@[k] as int;
        (i < c < t.nodes@.len() && t.nodes@[c].named && has_close_zero(t, x, c))
            || child_has_close_zero(t, x, i, k + 1)
    }
}

/// A subscript `close[k]` whose offset is a constant equal to zero.
pub open spec fn is_close_subscript_zero(t: SyntaxTree, x: Seq<char>, i: int) -> bool {
    match (sub_at(t, i, Field::Series), sub_at(t, i, Field::Offset)) {
        (Some(s), Some(o)) => t.kind_of(s) == NodeKind::Identifier && text_of(t, x, s) == "close"@
            && is_const_zero(t, x, o),
        _ => false,
    }
}

/// Whether `barstate.isconfirmed` or `barstate.islast` occurs in the expression.
pub open spec fn has_barstate_flag(t: SyntaxTree, x: Seq<char>, i: int) -> bool
    decreases t.nodes@.len() - i, t.nodes@[i].children@.len() + 1,
{
    if !node_ok(t, i) {
        false
    } else if t.kind_of(i) == NodeKind::Attribute && (attr_chain(t, x, i) == Some(
        "barstate.isconfirmed"@,
    ) || attr_chain(t, x, i) == Some("barstate.islast"@)) {
        true
    } else {
        child_has_barstate_flag(t, x, i, 0)
    }
}

pub open spec fn child_has_barstate_flag(t: SyntaxTree, x: Seq<char>, i: int, k: int) -> bool
    decreases t.nodes@.len() - i, t.nodes@[i].children@.len() - k,
{
    if !node_ok(t, i) || k < 0 || k >= t.nodes@[i].children@.len() {
        false
    } else {
        let c = t.nodes@[i].children@[k] as int;
        (i < c < t.nodes@.len() && t.nodes@[c].named && has_barstate_flag(t, x, c))
            || child_has_barstate_flag(t, x, i, k + 1)
    }
}

pub fn expr_contains_na(t: &SyntaxTree, x: &Vec<char>, i: usize) -> (r: bool)
    requires
        tree_ok(*t, x@),
        node_ok(*t, i as int),
    ensures
        r == contains_na(*t, x@, i as int),
    decreases t.nodes@.len() - i,
{
    if t.nodes[i].kind == NodeKind::Identifier && text_is(t, x, i, "na") {
        return true;
    }
    assert(t.node_wf(i as int, x@.len() as int));
    let n = t.nodes.len();
    let node = &t.nodes[i];
    let mut k: usize = 0;
    while k < node.children.len()
        invariant
            tree_ok(*t, x@),
            node_ok(*t, i as int),
            node == t.nodes@[i as int],
            n == t.nodes@.len(),
            t.links_wf(i as int),
            k <= node.children@.len(),
            contains_na(*t, x@, i as int) == child_contains_na(*t, x@, i as int, k as int),
        decreases node.children@.len() - k,
    {
        let c = node.children[k];
        if t.nodes[c].named && expr_contains_na(t, x, c) {
            return true;
        }
        k = k + 1;
    }
    false
}

pub fn expr_has_close_zero(t: &SyntaxTree, x: &Vec<char>, i: usize) -> (r: bool)
    requires
        tree_ok(*t, x@),
        node_ok(*t, i as int),
    ensures
        r == has_close_zero(*t, x@, i as int),
    decreases t.nodes@.len() - i,
{
    if t.nodes[i].kind == NodeKind::Subscript {
        return close_subscript_zero(t, x, i);
    }
    if t.nodes[i].kind == NodeKind::Identifier && text_is(t, x, i, "close") {
        return true;
    }
    assert(t.node_wf(i as int, x@.len() as int));
    let node = &t.nodes[i];
    let mut k: usize = 0;
    while k < node.children.len()
        invariant
            tree_ok(*t, x@),
            node_ok(*t, i as int),
            node == t.nodes@[i as int],
            t.links_wf(i as int),
            k <= node.children@.len(),
            has_close_zero(*t, x@, i as int) == child_has_close_zero(*t, x@, i as int, k as int),
        decreases node.children@.len() - k,
    {
        let c = node.children[k];
        if t.nodes[c].named && expr_has_close_zero(t, x, c) {
            return true;
        }
        k = k + 1;
    }
    false
}

fn close_subscript_zero(t: &SyntaxTree, x: &Vec<char>, i: usize) -> (r: bool)
    requires
        tree_ok(*t, x@),
        node_ok(*t, i as int),
    ensures
        r == is_close_subscript_zero(*t, x@, i as int),
{
    let s = match child(t, x, i, Field::Series) {
        Some(c) => c,
        None => {
            return false;
        },
    };
    let o = match child(t, x, i, Field::Offset) {
        Some(c) => c,
        None => {
            return false;
        },
    };
    if t.nodes[s].kind != NodeKind::Identifier || !text_is(t, x, s, "close") {
        return false;
    }
    match eval_numeric_constant(t, x, o) {
        Some(v) => v.is_zero(),
        None => false,
    }
}

pub fn expr_has_barstate_flag(t: &SyntaxTree, x: &Vec<char>, i: usize) -> (r: bool)
    requires
        tree_ok(*t, x@),
        node_ok(*t, i as int),
    ensures
        r == has_barstate_flag(*t, x@, i as int),
    decreases t.nodes@.len() - i,
{
    if t.nodes[i].kind == NodeKind::Attribute {
        match attribute_chain_name(t, x, i) {
            Some(name) => {
                if crate::text::chars_are(&name, "barstate.isconfirmed")
                    || crate::text::chars_are(&name, "barstate.islast") {
                    return true;
                }
            },
            None => {},
        }
    }
    assert(t.node_wf(i as int, x@.len() as int));
    let node = &t.nodes[i];
    let mut k: usize = 0;
    while k < node.children.len()
        invariant
            tree_ok(*t, x@),
            node_ok(*t, i as int),
            node == t.nodes@[i as int],
            t.links_wf(i as int),
            k <= node.children@.len(),
            has_barstate_flag(*t, x@, i as int) == child_has_barstate_flag(*t, x@, i as int, k as int),
        decreases node.children@.len() - k,
    {
        let c = node.children[k];
        if t.nodes[c].named && expr_has_barstate_flag(t, x, c) {
            return true;
        }
        k = k + 1;
    }
    false
}

/// Whether the expression at `i` reads unshifted `close` directly: `close`
/// itself or `close[k]` with `k` a constant zero.
pub open spec fn direct_close_zero(t: SyntaxTree, x: Seq<char>, i: int) -> bool {
    if t.kind_of(i) == NodeKind::Identifier {
        text_of(t, x, i) == "close"@
    } else if t.kind_of(i) == NodeKind::Subscript {
        is_close_subscript_zero(t, x, i)
    } else {
        false
    }
}

pub fn is_direct_close_zero(t: &SyntaxTree, x: &Vec<char>, i: usize) -> (r: bool)
    requires
        tree_ok(*t, x@),
        node_ok(*t, i as int),
    ensures
        r == direct_close_zero(*t, x@, i as int),
{
    if t.nodes[i].kind == NodeKind::Identifier {
        text_is(t, x, i, "close")
    } else if t.nodes[i].kind == NodeKind::Subscript {
        close_subscript_zero(t, x, i)
    } else {
        false
    }
}

/// Whether the expression at `i` is zero: a constant equal to zero, or
/// `a - b` where `a` and `b` read the same once whitespace is removed.
pub open spec fn is_zero_expr(t: SyntaxTree, x: Seq<char>, i: int) -> bool {
    match num_const(t, x, i) {
        Some(v) => v.0 == 0,
        None => t.kind_of(i) == NodeKind::MathOperation && match (
            sub_at(t, i, Field::Operator),
            sub_at(t, i, Field::Left),
            sub_at(t, i, Field::Right),
        ) {
            (Some(op), Some(l), Some(r)) => text_of(t, x, op) == "-"@
                && strip_ws(text_of(t, x, l)).len() > 0
                && strip_ws(text_of(t, x, l)) == strip_ws(text_of(t, x, r)),
            _ => false,
        },
    }
}

pub fn expr_is_zero(t: &SyntaxTree, x: &Vec<char>, i: usize) -> (r: bool)
    requires
        tree_ok(*t, x@),
        node_ok(*t, i as int),
    ensures
        r == is_zero_expr(*t, x@, i as int),
{
    match eval_numeric_constant(t, x, i) {
        Some(v) => {
            return v.is_zero();
        },
        None => {},
    }
    if t.nodes[i].kind != NodeKind::MathOperation {
        return false;
    }
    let op = match child(t, x, i, Field::Operator) {
        Some(c) => c,
        None => {
            return false;
        },
    };
    let l = match child(t, x, i, Field::Left) {
        Some(c) => c,
        None => {
            return false;
        },
    };
    let rr = match child(t, x, i, Field::Right) {
        Some(c) => c,
        None => {
            return false;
        },
    };
    if !text_is(t, x, op, "-") {
        return false;
    }
    let lt = normalized_node_text(t, x, l);
    let rt = normalized_node_text(t, x, rr);
    lt.len() > 0 && crate::text::chars_eq(&lt, &rt)
}

/// `not e` has a constant value exactly when `e` has one, and it is the
/// negation of that value.
pub proof fn lemma_bool_const_not(t: SyntaxTree, x: Seq<char>, i: int, op: int, arg: int)
    requires
        node_ok(t, i),
        t.kind_of(i) == NodeKind::UnaryOperation,
        sub_at(t, i, Field::Operator) == Some(op),
        sub_at(t, i, Field::Argument) == Some(arg),
        text_of(t, x, op) == "not"@,
    ensures
        bool_const(t, x, i) == match bool_const(t, x, arg) {
            Some(v) => Some(!v),
            None => None::<bool>,
        },
{
}

/// `(e)` has the constant value of `e`, or none when `e` has none.
pub proof fn lemma_bool_const_paren(t: SyntaxTree, x: Seq<char>, i: int, c: int)
    requires
        node_ok(t, i),
        t.kind_of(i) == NodeKind::ParenthesizedExpression,
        first_sub(t, i) == Some(c),
    ensures
        bool_const(t, x, i) == bool_const(t, x, c),
{
}

/// `l and r` and `l or r` have a constant value exactly when both sides
/// have one: their conjunction or disjunction.
pub proof fn lemma_bool_const_logical(t: SyntaxTree, x: Seq<char>, i: int, l: int, r: int, op: int)
    requires
        node_ok(t, i),
        t.kind_of(i) == NodeKind::LogicalOperation,
        sub_at(t, i, Field::Left) == Some(l),
        sub_at(t, i, Field::Right) == Some(r),
        sub_at(t, i, Field::Operator) == Some(op),
        text_of(t, x, op) == "and"@ || text_of(t, x, op) == "or"@,
    ensures
        bool_const(t, x, i) == match (bool_const(t, x, l), bool_const(t, x, r)) {
            (Some(a), Some(b)) => Some(if text_of(t, x, op) == "and"@ { a && b } else { a || b }),
            _ => None::<bool>,
        },
{
    reveal_strlit("and");
    reveal_strlit("or");
}

} // verus!
