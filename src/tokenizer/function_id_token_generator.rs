use vstd::prelude::*;

use super::{generated, Token, TokenType, Tokenizer};
use crate::spiral_error::SpiralError;
use super::rules::{is_upper, lemma_run_end, CharClass};
use super::upper;

verus! {

/// The rule for a function name: a capital letter, then letters.
pub struct FunctionIdTokenGenerator {}

impl FunctionIdTokenGenerator {
    pub open spec fn accepts(&self, c: char) -> bool {
        is_upper(c)
    }

    pub fn matches(&self, input: char) -> (r: bool)
        ensures
            r == self.accepts(input),
    {
        upper(input)
    }

    pub fn generate(
        &self,
        input: char,
        tokenizer: &mut Tokenizer,
    ) -> (r: Result<Token, SpiralError>)
        requires
            self.accepts(input),
            old(tokenizer).at_char(input),
        ensures
            generated(*old(tokenizer), *final(tokenizer), r),
    {
        let i = tokenizer.current_index;
        let e = tokenizer.run_end(i, CharClass::Letter);
        proof {
            lemma_run_end(tokenizer.input@, i as int, CharClass::Letter);
        }
        Ok(tokenizer.emit_flat(TokenType::FunctionId, e - 1))
    }
}

} // verus!
