use vstd::prelude::*;

use super::{generated, Token, TokenType, Tokenizer};
use crate::spiral_error::SpiralError;
use super::rules::{lemma_run_end, CharClass};

verus! {

/// The rule for a run of spaces.
pub struct WhitespaceTokenGenerator {}

impl WhitespaceTokenGenerator {
    pub open spec fn accepts(&self, c: char) -> bool {
        c == ' '
    }

    pub fn matches(&self, input: char) -> (r: bool)
        ensures
            r == self.accepts(input),
    {
        ' ' == input
    }

    pub fn generate(
        &self,
        input: char,
        tokenizer: &mut Tokenizer,
    ) -> (r: Result<Token, SpiralError>)
        requires
            self.accepts(input),
            old(tokenizer).at_char(input),
        ensures
            generated(*old(tokenizer), *final(tokenizer), r),
    {
        let i = tokenizer.current_index;
        let e = tokenizer.run_end(i, CharClass::Space);
        proof {
            lemma_run_end(tokenizer.input@, i as int, CharClass::Space);
        }
        Ok(tokenizer.emit_flat(TokenType::Whitespace, e - 1))
    }
}

} // verus!
