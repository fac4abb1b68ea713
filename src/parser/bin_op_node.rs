use vstd::prelude::*;

use super::node::{represent, Node, Tree};
use crate::tokenizer::Token;

verus! {

/// A binary operation on two operands.
#[derive(Debug)]
pub struct BinOpNode {
    pub left_node: Box<Node>,
    pub right_node: Box<Node>,
    pub token: Token,
}

impl BinOpNode {
    pub fn represent(&self) -> (r: String)
        ensures
            r@ == represent(
                Tree::Binary(self.token@, Box::new(self.left_node@), Box::new(self.right_node@)),
            ),
        decreases self,
    {
        let mut r = String::from_str("BinOpNode<");
        let left = self.left_node.represent();
        r.append(left.as_str());
        r.append(",");
        r.append(self.token.value.as_str());
        r.append(",");
        let right = self.right_node.represent();
        r.append(right.as_str());
        r.append(">");
        r
    }
}

} // verus!
