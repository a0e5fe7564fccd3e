//! The concrete syntax tree, and its view as a mathematical tree.

use vstd::prelude::*;

use crate::tokens::{Terminal, TerminalView};

verus! {

broadcast use vstd::std_specs::vec::axiom_vec_index_decreases;

/// A node of the concrete syntax tree.
#[derive(Debug, PartialEq, Eq)]
pub enum CSTNode {
    Empty,
    Terminal(Terminal),
    Production(Production),
}

/// A matched grammar rule: its production number and its children, left to right.
#[derive(Debug, PartialEq, Eq)]
pub struct Production {
    pub id: usize,
    pub args: Vec<CSTNode>,
}

/// A syntax tree as a mathematical value.
pub enum Tree {
    Empty,
    Terminal(TerminalView),
    Production(usize, Seq<Tree>),
}

/// The tree that a node stands for.
pub open spec fn tree_of(n: &CSTNode) -> Tree
    decreases n,
{
    match n {
        CSTNode::Empty => Tree::Empty,
        CSTNode::Terminal(t) => Tree::Terminal(t@),
        CSTNode::Production(p) => Tree::Production(
            p.id,
            Seq::new(
                p.args@.len(),
                |i: int|
                    if 0 <= i < p.args@.len() {
                        tree_of(&p.args@[i])
                    } else {
                        Tree::Empty
                    },
            ),
        ),
    }
}

impl View for CSTNode {
    type V = Tree;

    open spec fn view(&self) -> Tree {
        tree_of(self)
    }
}

fn clone_node(n: &CSTNode) -> (r: CSTNode)
    ensures
        r@ == n@,
    decreases n,
{
    match n {
        CSTNode::Empty => CSTNode::Empty,
        CSTNode::Terminal(t) => CSTNode::Terminal(t.clone()),
        CSTNode::Production(p) => {
            let mut args: Vec<CSTNode> = Vec::new();
            let mut i: usize = 0;
            while i < p.args.len()
                invariant
                    *n == CSTNode::Production(*p),
                    i <= p.args@.len(),
                    args@.len() == i,
                    forall|j: int| 0 <= j < i ==> (#[trigger] args@[j])@ == p.args@[j]@,
                decreases p.args@.len() - i,
            {
                proof {
                    assert(decreases_to!(*n => (*n)->Production_0));
                    assert(decreases_to!(p.args => p.args[i as int]));
                }
                let c = clone_node(&p.args[i]);
                args.push(c);
                i = i + 1;
            }
            let r = CSTNode::Production(Production { id: p.id, args });
            proof {
                assert(r@->Production_1 =~= n@->Production_1);
            }
            r
        },
    }
}

impl Clone for CSTNode {
    fn clone(&self) -> (r: CSTNode)
        ensures
            r@ == self@,
    {
        clone_node(self)
    }
}

impl Default for CSTNode {
    fn default() -> (r: CSTNode)
        ensures
            r@ == Tree::Empty,
    {
        CSTNode::Empty
    }
}

} // verus!
