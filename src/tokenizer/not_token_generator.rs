use vstd::prelude::*;

use super::{generated, Token, TokenType, Tokenizer};
use crate::spiral_error::SpiralError;

verus! {

/// The rule for `!` and `!=`.
pub struct NotTokenGenerator {}

impl NotTokenGenerator {
    pub open spec fn accepts(&self, c: char) -> bool {
        c == '!'
    }

    pub fn matches(&self, input: char) -> (r: bool)
        ensures
            r == self.accepts(input),
    {
        '!' == input
    }

    pub fn generate(
        &self,
        input: char,
        tokenizer: &mut Tokenizer,
    ) -> (r: Result<Token, SpiralError>)
        requires
            self.accepts(input),
            old(tokenizer).at_char(input),
        ensures
            generated(*old(tokenizer), *final(tokenizer), r),
    {
        let i = tokenizer.current_index;
        if tokenizer.next_is('=') {
            Ok(tokenizer.emit_flat(TokenType::NotEquals, i + 1))
        } else {
            Ok(tokenizer.emit_flat(TokenType::Not, i))
        }
    }
}

} // verus!
