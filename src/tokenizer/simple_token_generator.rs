use vstd::prelude::*;

use super::rules::simple_category;
use super::{generated, Token, TokenType, Tokenizer};
use crate::spiral_error::SpiralError;

verus! {

/// The rule for a character that is a token by itself.
pub struct SimpleTokenGenerator {
    pub char_to_match: char,
    pub token_type: TokenType,
}

impl SimpleTokenGenerator {
    /// The category is the one that the character stands for.
    pub open spec fn wf(&self) -> bool {
        simple_category(self.char_to_match) == Some(self.token_type)
    }

    pub open spec fn accepts(&self, c: char) -> bool {
        c == self.char_to_match
    }

    pub fn matches(&self, input: char) -> (r: bool)
        ensures
            r == self.accepts(input),
    {
        self.char_to_match == input
    }

    pub fn generate(
        &self,
        input: char,
        tokenizer: &mut Tokenizer,
    ) -> (r: Result<Token, SpiralError>)
        requires
            self.wf(),
            self.accepts(input),
            old(tokenizer).at_char(input),
        ensures
            generated(*old(tokenizer), *final(tokenizer), r),
    {
        let i = tokenizer.current_index;
        Ok(tokenizer.make_token(self.token_type, i, i))
    }
}

} // verus!
