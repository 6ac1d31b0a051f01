//! The arguments of a call: each with its keyword, when one is given, and the
//! node of its value; and the lookup of an argument by keyword or position.

use vstd::prelude::*;

use crate::analysis::eval::{node_ok, sub_at, text_of, tree_ok, child, node_text};
use crate::syntax::{Field, NodeKind, SyntaxTree};
use crate::text::chars_are;

verus! {

/// One argument of a call: the keyword it was passed under, if any, and the
/// node of its value.
#[derive(Debug)]
pub struct CallArg {
    pub name: Option<Vec<char>>,
    pub node: usize,
}

/// An argument as plain values.
pub open spec fn arg_view(a: CallArg) -> (Option<Seq<char>>, int) {
    (
        match a.name {
            Some(n) => Some(n@),
            None => None,
        },
        a.node as int,
    )
}

/// The argument that child `c` of an argument list stands for, if any: a
/// keyword argument with a value, or any other named node.
pub open spec fn arg_of_child(t: SyntaxTree, x: Seq<char>, c: int) -> Option<(Option<Seq<char>>, int)> {
    if t.kind_of(c) == NodeKind::KeywordArgument {
        match sub_at(t, c, Field::Value) {
            Some(v) => Some(
                (
                    match sub_at(t, c, Field::Key) {
                        Some(k) => Some(text_of(t, x, k)),
                        None => None,
                    },
                    v,
                ),
            ),
            None => None,
        }
    } else if t.nodes@[c].named {
        Some((None, c))
    } else {
        None
    }
}

/// The arguments given by the first `k` children of argument list `l`.
pub open spec fn args_upto(t: SyntaxTree, x: Seq<char>, l: int, k: int) -> Seq<(Option<Seq<char>>, int)>
    decreases k,
{
    if k <= 0 {
        Seq::empty()
    } else {
        let prev = args_upto(t, x, l, k - 1);
        match arg_of_child(t, x, t.nodes@[l].children@[k - 1] as int) {
            Some(a) => prev.push(a),
            None => prev,
        }
    }
}

/// The arguments of call node `i`, in order.
pub open spec fn call_args(t: SyntaxTree, x: Seq<char>, i: int) -> Seq<(Option<Seq<char>>, int)> {
    match sub_at(t, i, Field::Arguments) {
        Some(l) => args_upto(t, x, l, t.nodes@[l].children@.len() as int),
        None => Seq::empty(),
    }
}

/// `n` is the node of one of the arguments.
pub open spec fn is_arg_node(args: Seq<CallArg>, n: int) -> bool {
    exists|j: int| 0 <= j < args.len() && #[trigger] args[j].node == n
}

/// Every argument's node is a node of the tree.
pub open spec fn args_ok(t: SyntaxTree, args: Seq<CallArg>) -> bool {
    forall|j: int| 0 <= j < args.len() ==> node_ok(t, #[trigger] args[j].node as int)
}

/// The arguments of call node `i`.
pub fn collect_call_arguments(t: &SyntaxTree, x: &Vec<char>, i: usize) -> (r: Vec<CallArg>)
    requires
        tree_ok(*t, x@),
        node_ok(*t, i as int),
    ensures
        r@.map_values(|a: CallArg| arg_view(a)) == call_args(*t, x@, i as int),
        args_ok(*t, r@),
{
    let mut out: Vec<CallArg> = Vec::new();
    let l = match child(t, x, i, Field::Arguments) {
        Some(l) => l,
        None => {
            assert(out@.map_values(|a: CallArg| arg_view(a)) =~= Seq::<(Option<Seq<char>>, int)>::empty());
            return out;
        },
    };
    assert(t.node_wf(l as int, x@.len() as int));
    let node = &t.nodes[l];
    let mut k: usize = 0;
    while k < node.children.len()
        invariant
            tree_ok(*t, x@),
            node_ok(*t, l as int),
            node == t.nodes@[l as int],
            t.links_wf(l as int),
            k <= node.children@.len(),
            out@.map_values(|a: CallArg| arg_view(a)) == args_upto(*t, x@, l as int, k as int),
            args_ok(*t, out@),
        decreases node.children@.len() - k,
    {
        let c = node.children[k];
        let ghost before = out@;
        if t.nodes[c].kind == NodeKind::KeywordArgument {
            match child(t, x, c, Field::Value) {
                Some(v) => {
                    let name = match child(t, x, c, Field::Key) {
                        Some(kk) => Some(node_text(t, x, kk)),
                        None => None,
                    };
                    out.push(CallArg { name, node: v });
                    assert(out@.map_values(|a: CallArg| arg_view(a)) =~= before.map_values(
                        |a: CallArg| arg_view(a),
                    ).push(arg_view(out@[out@.len() - 1])));
                },
                None => {},
            }
        } else if t.nodes[c].named {
            out.push(CallArg { name: None, node: c });
            assert(out@.map_values(|a: CallArg| arg_view(a)) =~= before.map_values(
                |a: CallArg| arg_view(a),
            ).push(arg_view(out@[out@.len() - 1])));
        }
        k = k + 1;
    }
    out
}

/// Index of the first argument from `j` on passed under keyword `name`.
pub open spec fn keyword_index(args: Seq<CallArg>, name: Seq<char>, j: int) -> Option<int>
    decreases args.len() - j,
{
    if j < 0 || j >= args.len() {
        None
    } else if args[j].name matches Some(n) && n@ == name {
        Some(j)
    } else {
        keyword_index(args, name, j + 1)
    }
}

/// The node of the argument passed under keyword `name`.
pub open spec fn arg_by_name(args: Seq<CallArg>, name: Seq<char>) -> Option<int> {
    match keyword_index(args, name, 0) {
        Some(j) => Some(args[j].node as int),
        None => None,
    }
}

/// The argument for parameter `name` at position `pos`: the one passed under
/// that keyword, else the one at that position, with its index.
pub open spec fn arg_for(args: Seq<CallArg>, name: Seq<char>, pos: int) -> Option<(int, int)> {
    match keyword_index(args, name, 0) {
        Some(j) => Some((args[j].node as int, j)),
        None => if 0 <= pos < args.len() {
            Some((args[pos].node as int, pos))
        } else {
            None
        },
    }
}

/// The node of the argument for parameter `name` at position `pos`.
pub open spec fn arg_node(args: Seq<CallArg>, name: Seq<char>, pos: int) -> Option<int> {
    match arg_for(args, name, pos) {
        Some(p) => Some(p.0),
        None => None,
    }
}

fn keyword_position(args: &Vec<CallArg>, param_name: &str) -> (r: Option<usize>)
    ensures
        match r {
            Some(j) => keyword_index(args@, param_name@, 0) == Some(j as int) && j < args@.len(),
            None => keyword_index(args@, param_name@, 0) is None,
        },
{
    let mut j: usize = 0;
    while j < args.len()
        invariant
            j <= args@.len(),
            keyword_index(args@, param_name@, 0) == keyword_index(args@, param_name@, j as int),
        decreases args@.len() - j,
    {
        match &args[j].name {
            Some(n) => {
                if chars_are(n, param_name) {
                    return Some(j);
                }
            },
            None => {},
        }
        j = j + 1;
    }
    None
}

/// The node of the argument passed under keyword `param_name`.
pub fn find_call_arg_by_name(args: &Vec<CallArg>, param_name: &str) -> (r: Option<usize>)
    ensures
        match r {
            Some(n) => arg_by_name(args@, param_name@) == Some(n as int),
            None => arg_by_name(args@, param_name@) is None,
        },
        r matches Some(n) ==> is_arg_node(args@, n as int),
{
    match keyword_position(args, param_name) {
        Some(j) => Some(args[j].node),
        None => None,
    }
}

/// The argument for parameter `param_name` at position `pos`, with its index.
pub fn find_call_arg(args: &Vec<CallArg>, param_name: &str, pos: usize) -> (r: Option<(usize, usize)>)
    ensures
        match r {
            Some(p) => arg_for(args@, param_name@, pos as int) == Some((p.0 as int, p.1 as int)),
            None => arg_for(args@, param_name@, pos as int) is None,
        },
        r matches Some(p) ==> p.1 < args@.len() && args@[p.1 as int].node == p.0,
{
    match keyword_position(args, param_name) {
        Some(j) => Some((args[j].node, j)),
        None => {
            if args.len() > pos {
                Some((args[pos].node, pos))
            } else {
                None
            }
        },
    }
}

/// The node of the argument for parameter `param_name` at position `pos`.
pub fn find_arg_node(args: &Vec<CallArg>, param_name: &str, pos: usize) -> (r: Option<usize>)
    ensures
        match r {
            Some(n) => arg_node(args@, param_name@, pos as int) == Some(n as int),
            None => arg_node(args@, param_name@, pos as int) is None,
        },
        r matches Some(n) ==> is_arg_node(args@, n as int),
{
    match find_call_arg(args, param_name, pos) {
        Some(p) => Some(p.0),
        None => None,
    }
}

} // verus!
