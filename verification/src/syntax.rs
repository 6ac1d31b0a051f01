//! A syntax tree held as plain values: an arena of nodes, each with its kind,
//! its character range in the source text, flags, its parent and its children
//! with the field name under which each child stands.

use vstd::prelude::*;

verus! {

/// The node kinds that the analyzer tells apart; every other kind is `Other`.
#[derive(Clone, Copy, Debug, PartialEq, Eq, Structural)]
pub enum NodeKind {
    Integer,
    Float,
    StringLiteral,
    DoubleQuotedString,
    SingleQuotedString,
    Color,
    Identifier,
    Attribute,
    ParenthesizedExpression,
    MathOperation,
    ComparisonOperation,
    LogicalOperation,
    UnaryOperation,
    ConditionalExpression,
    Call,
    TemplateFunction,
    BaseTypeName,
    PrimaryExpression,
    Statement,
    Block,
    Error,
    FunctionDeclarationStatement,
    VariableDefinition,
    VariableDefinitionStatement,
    TupleDeclaration,
    TupleDeclarationStatement,
    Reassignment,
    ReassignmentStatement,
    ForStatement,
    WhileStatement,
    IfStatement,
    EnumDeclaration,
    Subscript,
    ElseIfClause,
    ElseClause,
    KeywordArgument,
    True,
    False,
    Other,
}

/// The field names under which the analyzer looks for children; every other
/// field is `Other`, and a child under no field has `Unnamed`.
#[derive(Clone, Copy, Debug, PartialEq, Eq, Structural)]
pub enum Field {
    Alternative,
    Argument,
    Arguments,
    Attribute,
    Body,
    Condition,
    Consequence,
    Counter,
    DefaultValue,
    ElseBranch,
    FromNum,
    Function,
    IfBranch,
    InitialStructure,
    InitialValue,
    Key,
    Left,
    Method,
    Name,
    Object,
    Offset,
    Operator,
    Qualifier,
    Right,
    Series,
    StepNum,
    Structure,
    ToNum,
    TypeName,
    Value,
    Variable,
    Variables,
    Other,
    Unnamed,
}

/// One node: kind, `start..end` as character offsets into the source text,
/// whether it is a named node, an error node or a missing node, its parent,
/// and its children in order with the field of each.
#[derive(Debug)]
pub struct SyntaxNode {
    pub kind: NodeKind,
    pub start: usize,
    pub end: usize,
    pub named: bool,
    pub error: bool,
    pub missing: bool,
    pub parent: Option<usize>,
    pub children: Vec<usize>,
    pub fields: Vec<Field>,
}

/// A syntax tree whose root is node 0.
#[derive(Debug)]
pub struct SyntaxTree {
    pub nodes: Vec<SyntaxNode>,
}

impl SyntaxTree {
    /// The tree is well formed over a text of `n` characters: every child comes
    /// after its parent, points back to it, and every range lies in the text.
    pub open spec fn wf(self, n: int) -> bool {
        &&& self.nodes@.len() >= 1
        &&& self.nodes@[0].parent is None
        &&& forall|i: int| 0 <= i < self.nodes@.len() ==> #[trigger] self.node_wf(i, n)
    }

    pub open spec fn node_wf(self, i: int, n: int) -> bool {
        &&& self.links_wf(i)
        &&& self.nodes@[i].start <= self.nodes@[i].end <= n
    }

    /// The children of `i` come after it and point back to it.
    pub open spec fn links_wf(self, i: int) -> bool {
        let node = self.nodes@[i];
        &&& node.children@.len() == node.fields@.len()
        &&& forall|k: int|
            0 <= k < node.children@.len() ==> i < #[trigger] node.children@[k] < self.nodes@.len()
                && self.nodes@[node.children@[k] as int].parent == Some(i as usize)
        &&& node.parent matches Some(p) ==> p < i
    }

    /// Index in the children of `i` of the first child under field `f`,
    /// searching from position `k`.
    pub open spec fn field_pos_from(self, i: int, f: Field, k: int) -> Option<int>
        decreases self.nodes@[i].children@.len() - k,
    {
        if k < 0 || k >= self.nodes@[i].children@.len() {
            None
        } else if self.nodes@[i].fields@[k] == f {
            Some(k)
        } else {
            self.field_pos_from(i, f, k + 1)
        }
    }

    /// The first child of `i` under field `f`.
    pub open spec fn field_child(self, i: int, f: Field) -> Option<int> {
        match self.field_pos_from(i, f, 0) {
            Some(k) => Some(self.nodes@[i].children@[k] as int),
            None => None,
        }
    }

    /// Position among the children of `i` of the first named child, from `k`.
    pub open spec fn named_pos_from(self, i: int, k: int) -> Option<int>
        decreases self.nodes@[i].children@.len() - k,
    {
        if k < 0 || k >= self.nodes@[i].children@.len() {
            None
        } else if self.nodes@[self.nodes@[i].children@[k] as int].named {
            Some(k)
        } else {
            self.named_pos_from(i, k + 1)
        }
    }

    /// The first named child of `i`.
    pub open spec fn first_named_child(self, i: int) -> Option<int> {
        match self.named_pos_from(i, 0) {
            Some(k) => Some(self.nodes@[i].children@[k] as int),
            None => None,
        }
    }

    pub open spec fn kind_of(self, i: int) -> NodeKind {
        self.nodes@[i].kind
    }

    pub open spec fn children_of(self, i: int) -> Seq<usize> {
        self.nodes@[i].children@
    }

    /// The first child of `i` under field `f`.
    pub fn child_by_field(&self, i: usize, f: Field) -> (r: Option<usize>)
        requires
            i < self.nodes@.len(),
            self.links_wf(i as int),
        ensures
            r matches Some(c) ==> self.field_child(i as int, f) == Some(c as int),
            r is None ==> self.field_child(i as int, f) is None,
            r matches Some(c) ==> i < c < self.nodes@.len(),
    {
        let node = &self.nodes[i];
        let mut k: usize = 0;
        while k < node.children.len()
            invariant
                node == self.nodes@[i as int],
                node.children@.len() == node.fields@.len(),
                forall|j: int|
                    0 <= j < node.children@.len() ==> i < #[trigger] node.children@[j]
                        < self.nodes@.len(),
                k <= node.children@.len(),
                self.field_pos_from(i as int, f, 0) == self.field_pos_from(i as int, f, k as int),
            decreases node.children@.len() - k,
        {
            if node.fields[k] == f {
                return Some(node.children[k]);
            }
            k = k + 1;
        }
        None
    }

    /// The first named child of `i`.
    pub fn first_named(&self, i: usize) -> (r: Option<usize>)
        requires
            i < self.nodes@.len(),
            self.links_wf(i as int),
        ensures
            r matches Some(c) ==> self.first_named_child(i as int) == Some(c as int),
            r is None ==> self.first_named_child(i as int) is None,
            r matches Some(c) ==> i < c < self.nodes@.len(),
    {
        let node = &self.nodes[i];
        let mut k: usize = 0;
        while k < node.children.len()
            invariant
                node == self.nodes@[i as int],
                node.children@.len() == node.fields@.len(),
                forall|j: int|
                    0 <= j < node.children@.len() ==> i < #[trigger] node.children@[j]
                        < self.nodes@.len(),
                k <= node.children@.len(),
                self.named_pos_from(i as int, 0) == self.named_pos_from(i as int, k as int),
            decreases node.children@.len() - k,
        {
            let c = node.children[k];
            if self.nodes[c].named {
                return Some(c);
            }
            k = k + 1;
        }
        None
    }

    /// Whether the links of node `i` are well formed: as many fields as
    /// children, every child after `i` and pointing back to it, and the
    /// parent before `i`.
    fn links_checked(&self, i: usize) -> (r: bool)
        requires
            i < self.nodes@.len(),
        ensures
            r == self.links_wf(i as int),
    {
        let node = &self.nodes[i];
        if node.children.len() != node.fields.len() {
            return false;
        }
        let mut k: usize = 0;
        while k < node.children.len()
            invariant
                node == self.nodes@[i as int],
                i < self.nodes@.len(),
                k <= node.children@.len(),
                forall|j: int|
                    0 <= j < k ==> i < #[trigger] node.children@[j] < self.nodes@.len()
                        && self.nodes@[node.children@[j] as int].parent == Some(i),
            decreases node.children@.len() - k,
        {
            let c = node.children[k];
            if !(i < c && c < self.nodes.len()) {
                return false;
            }
            match self.nodes[c].parent {
                Some(p) => {
                    if p != i {
                        return false;
                    }
                },
                None => {
                    return false;
                },
            }
            k = k + 1;
        }
        match node.parent {
            Some(p) => p < i,
            None => true,
        }
    }

    /// Whether the tree is well formed over a text of `n` characters.
    pub fn check(&self, n: usize) -> (r: bool)
        ensures
            r == self.wf(n as int),
    {
        if self.nodes.len() == 0 || self.nodes[0].parent.is_some() {
            return false;
        }
        let mut i: usize = 0;
        while i < self.nodes.len()
            invariant
                i <= self.nodes@.len(),
                forall|j: int| 0 <= j < i ==> #[trigger] self.node_wf(j, n as int),
            decreases self.nodes@.len() - i,
        {
            if !self.links_checked(i) {
                assert(!self.node_wf(i as int, n as int));
                return false;
            }
            if !(self.nodes[i].start <= self.nodes[i].end && self.nodes[i].end <= n) {
                assert(!self.node_wf(i as int, n as int));
                return false;
            }
            i = i + 1;
        }
        true
    }
}

} // verus!
