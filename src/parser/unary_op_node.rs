use vstd::prelude::*;

use super::node::{represent, Node, Tree};
use crate::tokenizer::Token;

verus! {

/// A prefix `+` or `-` applied to an operand.
#[derive(Debug)]
pub struct UnaryOpNode {
    pub node: Box<Node>,
    pub token: Token,
}

impl UnaryOpNode {
    pub fn represent(&self) -> (r: String)
        ensures
            r@ == represent(Tree::Unary(self.token@, Box::new(self.node@))),
        decreases self,
    {
        let mut r = String::from_str("UnaryOpNode<");
        r.append(self.token.value.as_str());
        r.append(",");
        let inner = self.node.represent();
        r.append(inner.as_str());
        r.append(">");
        r
    }
}

} // verus!
