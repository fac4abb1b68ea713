use vstd::prelude::*;

use super::node::{represent, Node, Tree};
use crate::tokenizer::Token;

verus! {

/// An integer literal.
#[derive(Debug)]
pub struct IntNode {
    pub token: Token,
}

impl IntNode {
    pub fn represent(&self) -> (r: String)
        ensures
            r@ == represent(Tree::Int(self.token@)),
    {
        let mut r = String::from_str("IntNode<");
        r.append(self.token.value.as_str());
        r.append(">");
        r
    }
}

} // verus!
