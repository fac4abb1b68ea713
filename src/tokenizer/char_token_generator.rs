use vstd::prelude::*;

use super::{generated, Token, TokenType, Tokenizer};
use crate::spiral_error::SpiralError;

verus! {

/// The rule for a character literal in single quotes.
pub struct CharTokenGenerator {}

impl CharTokenGenerator {
    pub open spec fn accepts(&self, c: char) -> bool {
        c == '\''
    }

    pub fn matches(&self, input: char) -> (r: bool)
        ensures
            r == self.accepts(input),
    {
        '\'' == input
    }

    pub fn generate(
        &self,
        input: char,
        tokenizer: &mut Tokenizer,
    ) -> (r: Result<Token, SpiralError>)
        requires
            self.accepts(input),
            old(tokenizer).at_char(input),
        ensures
            generated(*old(tokenizer), *final(tokenizer), r),
    {
        tokenizer.scan_literal(TokenType::Char)
    }
}

} // verus!
