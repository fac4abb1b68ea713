use vstd::prelude::*;

use super::{generated, Token, TokenType, Tokenizer};
use crate::spiral_error::SpiralError;
use super::rules::{is_line_break, lemma_line_bound, lemma_line_breaks, lemma_run_end, CharClass};
use super::line_break;

verus! {

/// The rule for a run of line breaks; each of them starts a new line.
pub struct NewlineTokenGenerator {}

impl NewlineTokenGenerator {
    pub open spec fn accepts(&self, c: char) -> bool {
        is_line_break(c)
    }

    pub fn matches(&self, input: char) -> (r: bool)
        ensures
            r == self.accepts(input),
    {
        line_break(input)
    }

    pub fn generate(
        &self,
        input: char,
        tokenizer: &mut Tokenizer,
    ) -> (r: Result<Token, SpiralError>)
        requires
            self.accepts(input),
            old(tokenizer).at_char(input),
        ensures
            generated(*old(tokenizer), *final(tokenizer), r),
    {
        let ghost s = tokenizer.input@;
        let i = tokenizer.current_index;
        let e = tokenizer.run_end(i, CharClass::LineBreak);
        proof {
            lemma_run_end(s, i as int, CharClass::LineBreak);
            lemma_line_breaks(s, i as int, e as int);
            lemma_line_bound(s, e as int);
        }
        let tok = tokenizer.make_token(TokenType::Newline, i, e - 1);
        tokenizer.line_number = tokenizer.line_number + (e - i);
        tokenizer.current_index = e - 1;
        Ok(tok)
    }
}

} // verus!
