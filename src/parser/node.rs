use vstd::prelude::*;

use super::bin_op_node::BinOpNode;
use super::int_node::IntNode;
use super::unary_op_node::UnaryOpNode;
use crate::tokenizer::TokenView;

verus! {

/// An expression tree. Each node owns its operands and a copy of the token
/// it was made from.
#[derive(Debug)]
pub enum Node {
    Int(IntNode),
    UnaryOp(UnaryOpNode),
    BinOp(BinOpNode),
}

/// The mathematical content of an expression tree.
pub enum Tree {
    Int(TokenView),
    Unary(TokenView, Box<Tree>),
    Binary(TokenView, Box<Tree>, Box<Tree>),
}

impl Node {
    pub open spec fn tree(&self) -> Tree
        decreases self,
    {
        match self {
            Node::Int(n) => Tree::Int(n.token@),
            Node::UnaryOp(n) => Tree::Unary(n.token@, Box::new(n.node.tree())),
            Node::BinOp(n) => Tree::Binary(
                n.token@,
                Box::new(n.left_node.tree()),
                Box::new(n.right_node.tree()),
            ),
        }
    }
}

impl View for Node {
    type V = Tree;

    open spec fn view(&self) -> Tree {
        self.tree()
    }
}

/// The textual form of a tree: `IntNode<v>`, `UnaryOpNode<op,x>`,
/// `BinOpNode<l,op,r>`, with each token written as its text.
pub open spec fn represent(t: Tree) -> Seq<char>
    decreases t,
{
    match t {
        Tree::Int(tok) => "IntNode<"@ + tok.value + ">"@,
        Tree::Unary(tok, n) => "UnaryOpNode<"@ + tok.value + ","@ + represent(*n) + ">"@,
        Tree::Binary(tok, l, r) => "BinOpNode<"@ + represent(*l) + ","@ + tok.value + ","@
            + represent(*r) + ">"@,
    }
}

impl Node {
    /// The textual form of the tree, for display and debugging.
    pub fn represent(&self) -> (r: String)
        ensures
            r@ == represent(self@),
        decreases self,
    {
        match self {
            Node::Int(n) => n.represent(),
            Node::UnaryOp(n) => n.represent(),
            Node::BinOp(n) => n.represent(),
        }
    }
}

} // verus!
