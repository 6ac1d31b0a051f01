//! The types of expressions: literals, names through the scopes and the
//! built-in values, operators, conditionals and calls.

use vstd::prelude::*;

use crate::analysis::{Analyzer, Source, SymbolKind};
use crate::analysis::eval::{
    attr_chain, attribute_chain_name, call_name, call_name_from_node, child, first_child, first_sub, node_ok,
    node_text, sub_at, text_of, tree_ok,
};
use crate::syntax::{Field, NodeKind};
use crate::text::{chars_are, chars_eq, contains_lit, has_sub, last_index, rfind_char, slice_chars, string_of};
use crate::types::{BaseType, Type, TypeModel, model_base, model_is_series};

verus! {

/// Whether one of `members` spells `f`.
pub open spec fn member_in(members: Seq<Vec<char>>, f: Seq<char>) -> bool {
    exists|j: int| 0 <= j < members.len() && #[trigger] members[j]@ == f
}

/// Whether one of `members` spells `f`.
pub fn contains_name(members: &Vec<Vec<char>>, f: &Vec<char>) -> (r: bool)
    ensures
        r == member_in(members@, f@),
{
    let mut j: usize = 0;
    while j < members.len()
        invariant
            j <= members@.len(),
            forall|q: int| 0 <= q < j ==> (#[trigger] members@[q])@ != f@,
        decreases members@.len() - j,
    {
        if chars_eq(&members[j], f) {
            return true;
        }
        j = j + 1;
    }
    false
}

/// The base type that a type name spells.
pub open spec fn base_from_name(name: Seq<char>) -> Option<BaseType> {
    if name == "int"@ {
        Some(BaseType::Int)
    } else if name == "float"@ {
        Some(BaseType::Float)
    } else if name == "bool"@ {
        Some(BaseType::Bool)
    } else if name == "string"@ {
        Some(BaseType::String)
    } else if name == "color"@ {
        Some(BaseType::Color)
    } else {
        None
    }
}

/// The base type that a type name spells.
pub fn base_type_from_name(name: &Vec<char>) -> (r: Option<BaseType>)
    ensures
        r == base_from_name(name@),
{
    if chars_are(name, "int") {
        Some(BaseType::Int)
    } else if chars_are(name, "float") {
        Some(BaseType::Float)
    } else if chars_are(name, "bool") {
        Some(BaseType::Bool)
    } else if chars_are(name, "string") {
        Some(BaseType::String)
    } else if chars_are(name, "color") {
        Some(BaseType::Color)
    } else {
        None
    }
}

/// The element type of the array a typed `array.new_*` call makes.
pub open spec fn array_base_from_call(name: Seq<char>) -> Option<BaseType> {
    if name == "array.new_int"@ {
        Some(BaseType::Int)
    } else if name == "array.new_float"@ {
        Some(BaseType::Float)
    } else if name == "array.new_bool"@ {
        Some(BaseType::Bool)
    } else if name == "array.new_string"@ {
        Some(BaseType::String)
    } else if name == "array.new_color"@ {
        Some(BaseType::Color)
    } else {
        None
    }
}

pub fn array_base_type_from_call(name: &Vec<char>) -> (r: Option<BaseType>)
    ensures
        r == array_base_from_call(name@),
{
    if chars_are(name, "array.new_int") {
        Some(BaseType::Int)
    } else if chars_are(name, "array.new_float") {
        Some(BaseType::Float)
    } else if chars_are(name, "array.new_bool") {
        Some(BaseType::Bool)
    } else if chars_are(name, "array.new_string") {
        Some(BaseType::String)
    } else if chars_are(name, "array.new_color") {
        Some(BaseType::Color)
    } else {
        None
    }
}

/// A value of base type `actual` is accepted where `expected` is: the same
/// type, or an `int` where a `float` is expected.
pub open spec fn base_compatible(expected: BaseType, actual: BaseType) -> bool {
    expected == actual || (expected == BaseType::Float && actual == BaseType::Int)
}

pub fn is_base_type_compatible(expected: BaseType, actual: BaseType) -> (r: bool)
    ensures
        r == base_compatible(expected, actual),
{
    expected == actual || (expected == BaseType::Float && actual == BaseType::Int)
}

/// The type of a name: `true`/`false`, a definition it resolves to, or a
/// built-in value.
pub open spec fn ident_type(a: Analyzer, cx: Source, name: Seq<char>) -> TypeModel {
    if name == "true"@ || name == "false"@ {
        TypeModel::Scalar(BaseType::Bool)
    } else {
        match a.resolves(name) {
            Some(d) => a.definitions@[d as int].ty.model(),
            None => if cx.builtins.values_view().contains_key(name) {
                cx.builtins.values_view()[name]
            } else {
                TypeModel::Unknown
            },
        }
    }
}

/// The type of a dotted name: a built-in value, or a member `E.m` of a
/// user-defined enum `E`.
pub open spec fn dotted_type(a: Analyzer, cx: Source, name: Seq<char>) -> TypeModel {
    if cx.builtins.values_view().contains_key(name) {
        cx.builtins.values_view()[name]
    } else {
        match last_index(name, '.') {
            Some(p) => {
                let object = name.subrange(0, p);
                let field = name.subrange(p + 1, name.len() as int);
                if a.enums@.contains_key(object) && member_in(a.enums@[object]@, field) {
                    TypeModel::UserDefined(object)
                } else {
                    TypeModel::Unknown
                }
            },
            None => TypeModel::Unknown,
        }
    }
}

/// The type of the expression at node `i`.
pub open spec fn infer_spec(a: Analyzer, cx: Source, i: int) -> TypeModel
    decreases cx.tree.nodes@.len() - i, 2int,
{
    let t = *cx.tree;
    let x = cx.text@;
    if !node_ok(t, i) {
        TypeModel::Unknown
    } else {
        match t.kind_of(i) {
            NodeKind::Integer => TypeModel::Scalar(BaseType::Int),
            NodeKind::Float => TypeModel::Scalar(BaseType::Float),
            NodeKind::StringLiteral | NodeKind::DoubleQuotedString | NodeKind::SingleQuotedString => TypeModel::Scalar(BaseType::String),
            NodeKind::Color => TypeModel::Scalar(BaseType::Color),
            NodeKind::Identifier => ident_type(a, cx, text_of(t, x, i)),
            NodeKind::Attribute => match attr_chain(t, x, i) {
                Some(name) => dotted_type(a, cx, name),
                None => TypeModel::Unknown,
            },
            NodeKind::ParenthesizedExpression => match first_sub(t, i) {
                Some(c) => infer_spec(a, cx, c),
                None => TypeModel::Unknown,
            },
            NodeKind::MathOperation => math_type(a, cx, i),
            NodeKind::ComparisonOperation | NodeKind::LogicalOperation => comparison_type(a, cx, i),
            NodeKind::UnaryOperation => child_type(a, cx, i, Field::Argument),
            NodeKind::ConditionalExpression => conditional_type(a, cx, i),
            NodeKind::Call => call_type(a, cx, i),
            _ => TypeModel::Unknown,
        }
    }
}

/// The type of the child of `i` under field `f`; unknown when there is none.
pub open spec fn child_type(a: Analyzer, cx: Source, i: int, f: Field) -> TypeModel
    decreases cx.tree.nodes@.len() - i, 0int,
{
    match sub_at(*cx.tree, i, f) {
        Some(c) => infer_spec(a, cx, c),
        None => TypeModel::Unknown,
    }
}

/// `+ - * / %`: unknown if an operand is; `float` if either operand is,
/// `int` if both are; a series if either operand is.
pub open spec fn math_type(a: Analyzer, cx: Source, i: int) -> TypeModel
    decreases cx.tree.nodes@.len() - i, 1int,
{
    let l = child_type(a, cx, i, Field::Left);
    let r = child_type(a, cx, i, Field::Right);
    if l is Unknown || r is Unknown {
        TypeModel::Unknown
    } else {
        let base = if model_base(l) == BaseType::Float || model_base(r) == BaseType::Float {
            BaseType::Float
        } else if model_base(l) == BaseType::Int && model_base(r) == BaseType::Int {
            BaseType::Int
        } else {
            BaseType::Unknown
        };
        if model_is_series(l) || model_is_series(r) {
            TypeModel::Series(base)
        } else {
            TypeModel::Scalar(base)
        }
    }
}

/// Comparisons and logical operators give a `bool`, a series if either operand is.
pub open spec fn comparison_type(a: Analyzer, cx: Source, i: int) -> TypeModel
    decreases cx.tree.nodes@.len() - i, 1int,
{
    let l = child_type(a, cx, i, Field::Left);
    let r = child_type(a, cx, i, Field::Right);
    if model_is_series(l) || model_is_series(r) {
        TypeModel::Series(BaseType::Bool)
    } else {
        TypeModel::Scalar(BaseType::Bool)
    }
}

/// `c ? a : b` has the type of its branches when they agree, else unknown.
pub open spec fn conditional_type(a: Analyzer, cx: Source, i: int) -> TypeModel
    decreases cx.tree.nodes@.len() - i, 1int,
{
    let tv = child_type(a, cx, i, Field::IfBranch);
    let fv = child_type(a, cx, i, Field::ElseBranch);
    if tv == fv {
        tv
    } else {
        TypeModel::Unknown
    }
}

/// A call has the return type of the built-in function it names, else the
/// type of the definition its name resolves to.
pub open spec fn call_type(a: Analyzer, cx: Source, i: int) -> TypeModel
    decreases cx.tree.nodes@.len() - i, 1int,
{
    match sub_at(*cx.tree, i, Field::Function) {
        Some(f) => {
            let name = call_name(*cx.tree, cx.text@, f);
            if cx.builtins.functions_view().contains_key(name) {
                cx.builtins.functions_view()[name].return_type
            } else {
                match a.resolves(name) {
                    Some(d) => a.definitions@[d as int].ty.model(),
                    None => TypeModel::Unknown,
                }
            }
        },
        None => TypeModel::Unknown,
    }
}

/// The type of an expression depends only on the scopes, the definitions
/// and the enums.
pub proof fn lemma_infer_frame(a: Analyzer, b: Analyzer, cx: Source, i: int)
    requires
        a.scopes == b.scopes,
        a.definitions == b.definitions,
        a.enums == b.enums,
    ensures
        infer_spec(a, cx, i) == infer_spec(b, cx, i),
    decreases cx.tree.nodes@.len() - i,
{
    let t = *cx.tree;
    if node_ok(t, i) {
        if let Some(c) = first_sub(t, i) {
            lemma_infer_frame(a, b, cx, c);
        }
        if let Some(c) = sub_at(t, i, Field::Left) {
            lemma_infer_frame(a, b, cx, c);
        }
        if let Some(c) = sub_at(t, i, Field::Right) {
            lemma_infer_frame(a, b, cx, c);
        }
        if let Some(c) = sub_at(t, i, Field::Argument) {
            lemma_infer_frame(a, b, cx, c);
        }
        if let Some(c) = sub_at(t, i, Field::IfBranch) {
            lemma_infer_frame(a, b, cx, c);
        }
        if let Some(c) = sub_at(t, i, Field::ElseBranch) {
            lemma_infer_frame(a, b, cx, c);
        }
        assert(child_type(a, cx, i, Field::Left) == child_type(b, cx, i, Field::Left));
        assert(child_type(a, cx, i, Field::Right) == child_type(b, cx, i, Field::Right));
        assert(child_type(a, cx, i, Field::Argument) == child_type(b, cx, i, Field::Argument));
        assert(child_type(a, cx, i, Field::IfBranch) == child_type(b, cx, i, Field::IfBranch));
        assert(child_type(a, cx, i, Field::ElseBranch) == child_type(b, cx, i, Field::ElseBranch));
        assert(math_type(a, cx, i) == math_type(b, cx, i));
        assert(comparison_type(a, cx, i) == comparison_type(b, cx, i));
        assert(conditional_type(a, cx, i) == conditional_type(b, cx, i));
        assert(call_type(a, cx, i) == call_type(b, cx, i));
    }
}

impl Analyzer {
    fn ident_type_of(&self, cx: &Source, name: &Vec<char>) -> (r: Type)
        requires
            self.wf(),
            cx.wf(),
        ensures
            r.model() == ident_type(*self, *cx, name@),
    {
        if chars_are(name, "true") || chars_are(name, "false") {
            return Type::scalar(BaseType::Bool);
        }
        match self.resolve_symbol(name) {
            Some(d) => self.definitions[d].ty.duplicate(),
            None => match cx.builtins.value_type_named(name) {
                Some(ty) => ty.duplicate(),
                None => Type::unknown(),
            },
        }
    }

    fn dotted_type_of(&self, cx: &Source, name: &Vec<char>) -> (r: Type)
        requires
            self.wf(),
            cx.wf(),
        ensures
            r.model() == dotted_type(*self, *cx, name@),
    {
        match cx.builtins.value_type_named(name) {
            Some(ty) => {
                return ty.duplicate();
            },
            None => {},
        }
        let n = name.len();
        match rfind_char(name, '.') {
            Some(p) => {
                let object = slice_chars(name, 0, p);
                let field = slice_chars(name, p + 1, n);
                match self.enums.get(&object) {
                    Some(members) => {
                        if contains_name(members, &field) {
                            Type::UserDefined(string_of(object.as_slice()))
                        } else {
                            Type::unknown()
                        }
                    },
                    None => Type::unknown(),
                }
            },
            None => Type::unknown(),
        }
    }

    /// The type of the expression at node `i`.
    pub fn infer_expr_type(&self, cx: &Source, i: usize) -> (r: Type)
        requires
            self.wf(),
            cx.wf(),
            node_ok(*cx.tree, i as int),
        ensures
            r.model() == infer_spec(*self, *cx, i as int),
        decreases cx.tree.nodes@.len() - i, 2int,
    {
        let t = cx.tree;
        let x = cx.text;
        match t.nodes[i].kind {
            NodeKind::Integer => Type::scalar(BaseType::Int),
            NodeKind::Float => Type::scalar(BaseType::Float),
            NodeKind::StringLiteral | NodeKind::DoubleQuotedString | NodeKind::SingleQuotedString => Type::scalar(BaseType::String),
            NodeKind::Color => Type::scalar(BaseType::Color),
            NodeKind::Identifier => {
                let name = node_text(t, x, i);
                self.ident_type_of(cx, &name)
            },
            NodeKind::Attribute => match attribute_chain_name(t, x, i) {
                Some(name) => self.dotted_type_of(cx, &name),
                None => Type::unknown(),
            },
            NodeKind::ParenthesizedExpression => match first_child(t, x, i) {
                Some(c) => self.infer_expr_type(cx, c),
                None => Type::unknown(),
            },
            NodeKind::MathOperation => self.infer_binary_math_type(cx, i),
            NodeKind::ComparisonOperation | NodeKind::LogicalOperation => self.infer_comparison_type(cx, i),
            NodeKind::UnaryOperation => self.infer_unary_type(cx, i),
            NodeKind::ConditionalExpression => self.infer_conditional_type(cx, i),
            NodeKind::Call => self.infer_call_type(cx, i),
            _ => Type::unknown(),
        }
    }

    fn child_type_of(&self, cx: &Source, i: usize, f: Field) -> (r: Type)
        requires
            self.wf(),
            cx.wf(),
            node_ok(*cx.tree, i as int),
        ensures
            r.model() == child_type(*self, *cx, i as int, f),
        decreases cx.tree.nodes@.len() - i, 0int,
    {
        match child(cx.tree, cx.text, i, f) {
            Some(c) => self.infer_expr_type(cx, c),
            None => Type::unknown(),
        }
    }

    /// The type of `+ - * / %` at node `i`.
    pub fn infer_binary_math_type(&self, cx: &Source, i: usize) -> (r: Type)
        requires
            self.wf(),
            cx.wf(),
            node_ok(*cx.tree, i as int),
        ensures
            r.model() == math_type(*self, *cx, i as int),
        decreases cx.tree.nodes@.len() - i, 1int,
    {
        let l = self.child_type_of(cx, i, Field::Left);
        let r = self.child_type_of(cx, i, Field::Right);
        if l.is_unknown() || r.is_unknown() {
            return Type::unknown();
        }
        let lb = l.base();
        let rb = r.base();
        let base = if lb == BaseType::Float || rb == BaseType::Float {
            BaseType::Float
        } else if lb == BaseType::Int && rb == BaseType::Int {
            BaseType::Int
        } else {
            BaseType::Unknown
        };
        if l.is_series() || r.is_series() {
            Type::series(base)
        } else {
            Type::scalar(base)
        }
    }

    /// The type of a comparison or logical operation at node `i`.
    pub fn infer_comparison_type(&self, cx: &Source, i: usize) -> (r: Type)
        requires
            self.wf(),
            cx.wf(),
            node_ok(*cx.tree, i as int),
        ensures
            r.model() == comparison_type(*self, *cx, i as int),
        decreases cx.tree.nodes@.len() - i, 1int,
    {
        let l = self.child_type_of(cx, i, Field::Left);
        let r = self.child_type_of(cx, i, Field::Right);
        if l.is_series() || r.is_series() {
            Type::series(BaseType::Bool)
        } else {
            Type::scalar(BaseType::Bool)
        }
    }

    /// The type of a unary operation: that of its argument.
    pub fn infer_unary_type(&self, cx: &Source, i: usize) -> (r: Type)
        requires
            self.wf(),
            cx.wf(),
            node_ok(*cx.tree, i as int),
        ensures
            r.model() == child_type(*self, *cx, i as int, Field::Argument),
        decreases cx.tree.nodes@.len() - i, 1int,
    {
        self.child_type_of(cx, i, Field::Argument)
    }

    /// The type of a conditional expression at node `i`.
    pub fn infer_conditional_type(&self, cx: &Source, i: usize) -> (r: Type)
        requires
            self.wf(),
            cx.wf(),
            node_ok(*cx.tree, i as int),
        ensures
            r.model() == conditional_type(*self, *cx, i as int),
        decreases cx.tree.nodes@.len() - i, 1int,
    {
        let tv = self.child_type_of(cx, i, Field::IfBranch);
        let fv = self.child_type_of(cx, i, Field::ElseBranch);
        if tv.same_as(&fv) {
            tv
        } else {
            Type::unknown()
        }
    }

    /// The type of a call at node `i`.
    pub fn infer_call_type(&self, cx: &Source, i: usize) -> (r: Type)
        requires
            self.wf(),
            cx.wf(),
            node_ok(*cx.tree, i as int),
        ensures
            r.model() == call_type(*self, *cx, i as int),
        decreases cx.tree.nodes@.len() - i, 1int,
    {
        let f = match child(cx.tree, cx.text, i, Field::Function) {
            Some(f) => f,
            None => {
                return Type::unknown();
            },
        };
        let name = call_name_from_node(cx.tree, cx.text, f);
        match cx.builtins.function_named(&name) {
            Some(func) => func.return_type.duplicate(),
            None => match self.resolve_symbol(&name) {
                Some(d) => self.definitions[d].ty.duplicate(),
                None => Type::unknown(),
            },
        }
    }
}

/// The type a function body gives: that of its first statement or block child
/// from position `k` on.
pub open spec fn return_type_from(a: Analyzer, cx: Source, i: int, k: int) -> TypeModel
    decreases cx.tree.nodes@[i].children@.len() - k,
{
    let t = *cx.tree;
    if !node_ok(t, i) || k < 0 || k >= t.nodes@[i].children@.len() {
        TypeModel::Unknown
    } else {
        let c = t.nodes@[i].children@[k] as int;
        if t.kind_of(c) == NodeKind::Statement || t.kind_of(c) == NodeKind::Block {
            infer_spec(a, cx, c)
        } else {
            return_type_from(a, cx, i, k + 1)
        }
    }
}

/// The declared type of a variable definition: its base type name with an
/// optional `series` qualifier, or a user-defined type it names.
pub open spec fn declared_type(a: Analyzer, cx: Source, i: int) -> TypeModel {
    let t = *cx.tree;
    let x = cx.text@;
    let qualifier = match sub_at(t, i, Field::Qualifier) {
        Some(q) => text_of(t, x, q),
        None => Seq::empty(),
    };
    let type_node = sub_at(t, i, Field::TypeName);
    let base = match type_node {
        Some(n) => match base_from_name(text_of(t, x, n)) {
            Some(b) => b,
            None => BaseType::Unknown,
        },
        None => BaseType::Unknown,
    };
    if base == BaseType::Unknown {
        match type_node {
            Some(n) => match a.resolves(text_of(t, x, n)) {
                Some(d) => if a.definitions@[d as int].kind == SymbolKind::Type {
                    TypeModel::UserDefined(text_of(t, x, n))
                } else {
                    TypeModel::Unknown
                },
                None => TypeModel::Unknown,
            },
            None => TypeModel::Unknown,
        }
    } else if has_sub(qualifier, "series"@) {
        TypeModel::Series(base)
    } else {
        TypeModel::Scalar(base)
    }
}

impl Analyzer {
    /// The type of the body of the function declared at node `i`.
    pub fn infer_return_type(&self, cx: &Source, i: usize) -> (r: Type)
        requires
            self.wf(),
            cx.wf(),
            node_ok(*cx.tree, i as int),
        ensures
            r.model() == return_type_from(*self, *cx, i as int, 0),
    {
        let t = cx.tree;
        assert(t.node_wf(i as int, cx.text@.len() as int));
        let node = &t.nodes[i];
        let mut k: usize = 0;
        while k < node.children.len()
            invariant
                self.wf(),
                cx.wf(),
                node_ok(*cx.tree, i as int),
                node == cx.tree.nodes@[i as int],
                cx.tree.links_wf(i as int),
                k <= node.children@.len(),
                return_type_from(*self, *cx, i as int, 0) == return_type_from(*self, *cx, i as int, k as int),
            decreases node.children@.len() - k,
        {
            let c = node.children[k];
            if cx.tree.nodes[c].kind == NodeKind::Statement || cx.tree.nodes[c].kind == NodeKind::Block {
                return self.infer_expr_type(cx, c);
            }
            k = k + 1;
        }
        Type::unknown()
    }

    /// The declared type of the variable definition at node `i`.
    pub fn parse_declared_type(&self, cx: &Source, i: usize) -> (r: Type)
        requires
            self.wf(),
            cx.wf(),
            node_ok(*cx.tree, i as int),
        ensures
            r.model() == declared_type(*self, *cx, i as int),
    {
        let t = cx.tree;
        let x = cx.text;
        let qualifier = match child(t, x, i, Field::Qualifier) {
            Some(q) => node_text(t, x, q),
            None => Vec::new(),
        };
        let type_node = child(t, x, i, Field::TypeName);
        let base = match type_node {
            Some(n) => {
                let name = node_text(t, x, n);
                match base_type_from_name(&name) {
                    Some(b) => b,
                    None => BaseType::Unknown,
                }
            },
            None => BaseType::Unknown,
        };
        if base == BaseType::Unknown {
            match type_node {
                Some(n) => {
                    let name = node_text(t, x, n);
                    match self.resolve_symbol(&name) {
                        Some(d) => {
                            if self.definitions[d].kind == SymbolKind::Type {
                                Type::UserDefined(string_of(name.as_slice()))
                            } else {
                                Type::unknown()
                            }
                        },
                        None => Type::unknown(),
                    }
                },
                None => Type::unknown(),
            }
        } else if contains_lit(&qualifier, "series") {
            Type::series(base)
        } else {
            Type::scalar(base)
        }
    }
}

/// Mixing `int` and `float` gives `float`: a math operation whose operands
/// both have a known type has a known type; its base type is `float` when
/// either operand is a float and `int` when both are ints, and it is a
/// series exactly when either operand is one.
pub proof fn lemma_math_operation_type(a: Analyzer, cx: Source, i: int, l: int, r: int)
    requires
        node_ok(*cx.tree, i),
        cx.tree.kind_of(i) == NodeKind::MathOperation,
        sub_at(*cx.tree, i, Field::Left) == Some(l),
        sub_at(*cx.tree, i, Field::Right) == Some(r),
        !(infer_spec(a, cx, l) is Unknown),
        !(infer_spec(a, cx, r) is Unknown),
    ensures
        !(infer_spec(a, cx, i) is Unknown),
        model_base(infer_spec(a, cx, l)) == BaseType::Float || model_base(infer_spec(a, cx, r)) == BaseType::Float
            ==> model_base(infer_spec(a, cx, i)) == BaseType::Float,
        model_base(infer_spec(a, cx, l)) == BaseType::Int && model_base(infer_spec(a, cx, r)) == BaseType::Int
            ==> model_base(infer_spec(a, cx, i)) == BaseType::Int,
        model_is_series(infer_spec(a, cx, i)) == (model_is_series(infer_spec(a, cx, l)) || model_is_series(
            infer_spec(a, cx, r),
        )),
{
    assert(infer_spec(a, cx, i) == math_type(a, cx, i));
    assert(child_type(a, cx, i, Field::Left) == infer_spec(a, cx, l));
    assert(child_type(a, cx, i, Field::Right) == infer_spec(a, cx, r));
}

/// Literals have the type they spell: an integer is an `int`, a float a
/// `float`, a string a `string`, a color a `color`; none of them is a series.
pub proof fn lemma_literal_types(a: Analyzer, cx: Source, i: int)
    requires
        node_ok(*cx.tree, i),
    ensures
        cx.tree.kind_of(i) == NodeKind::Integer ==> infer_spec(a, cx, i) == TypeModel::Scalar(BaseType::Int),
        cx.tree.kind_of(i) == NodeKind::Float ==> infer_spec(a, cx, i) == TypeModel::Scalar(BaseType::Float),
        cx.tree.kind_of(i) == NodeKind::StringLiteral ==> infer_spec(a, cx, i) == TypeModel::Scalar(BaseType::String),
        cx.tree.kind_of(i) == NodeKind::Color ==> infer_spec(a, cx, i) == TypeModel::Scalar(BaseType::Color),
{
}

/// A comparison or a logical operation is a `bool`, and a series exactly
/// when either operand is one.
pub proof fn lemma_comparison_type(a: Analyzer, cx: Source, i: int, l: int, r: int)
    requires
        node_ok(*cx.tree, i),
        cx.tree.kind_of(i) == NodeKind::ComparisonOperation || cx.tree.kind_of(i) == NodeKind::LogicalOperation,
        sub_at(*cx.tree, i, Field::Left) == Some(l),
        sub_at(*cx.tree, i, Field::Right) == Some(r),
    ensures
        model_base(infer_spec(a, cx, i)) == BaseType::Bool,
        model_is_series(infer_spec(a, cx, i)) == (model_is_series(infer_spec(a, cx, l)) || model_is_series(
            infer_spec(a, cx, r),
        )),
{
    assert(infer_spec(a, cx, i) == comparison_type(a, cx, i));
    assert(child_type(a, cx, i, Field::Left) == infer_spec(a, cx, l));
    assert(child_type(a, cx, i, Field::Right) == infer_spec(a, cx, r));
}

/// Brackets and unary operators keep the type of what they hold, and a
/// conditional whose branches have the same type has that type.
pub proof fn lemma_wrapped_types(a: Analyzer, cx: Source, i: int, c: int)
    requires
        node_ok(*cx.tree, i),
    ensures
        cx.tree.kind_of(i) == NodeKind::ParenthesizedExpression && first_sub(*cx.tree, i) == Some(c)
            ==> infer_spec(a, cx, i) == infer_spec(a, cx, c),
        cx.tree.kind_of(i) == NodeKind::UnaryOperation && sub_at(*cx.tree, i, Field::Argument) == Some(c)
            ==> infer_spec(a, cx, i) == infer_spec(a, cx, c),
{
    if cx.tree.kind_of(i) == NodeKind::UnaryOperation && sub_at(*cx.tree, i, Field::Argument) == Some(c) {
        assert(infer_spec(a, cx, i) == child_type(a, cx, i, Field::Argument));
        assert(child_type(a, cx, i, Field::Argument) == infer_spec(a, cx, c));
    }
}

/// A conditional `c ? x : y` whose branches have the same type has that
/// type; branches of different types give an unknown type.
pub proof fn lemma_conditional_type(a: Analyzer, cx: Source, i: int, x: int, y: int)
    requires
        node_ok(*cx.tree, i),
        cx.tree.kind_of(i) == NodeKind::ConditionalExpression,
        sub_at(*cx.tree, i, Field::IfBranch) == Some(x),
        sub_at(*cx.tree, i, Field::ElseBranch) == Some(y),
    ensures
        infer_spec(a, cx, x) == infer_spec(a, cx, y) ==> infer_spec(a, cx, i) == infer_spec(a, cx, x),
        infer_spec(a, cx, x) != infer_spec(a, cx, y) ==> infer_spec(a, cx, i) is Unknown,
{
    assert(infer_spec(a, cx, i) == conditional_type(a, cx, i));
    assert(child_type(a, cx, i, Field::IfBranch) == infer_spec(a, cx, x));
    assert(child_type(a, cx, i, Field::ElseBranch) == infer_spec(a, cx, y));
}

} // verus!
