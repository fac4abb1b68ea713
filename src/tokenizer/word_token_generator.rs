use vstd::prelude::*;

use super::{generated, Token, TokenType, Tokenizer};
use crate::spiral_error::SpiralError;
use super::rules::{is_lower, lemma_run_end, CharClass};
use super::lower;

verus! {

/// The rule for a word that starts with a lowercase letter: a keyword, a
/// variable name, or a field name when a colon ends it.
pub struct WordTokenGenerator {}

impl WordTokenGenerator {
    pub open spec fn accepts(&self, c: char) -> bool {
        is_lower(c)
    }

    pub fn matches(&self, input: char) -> (r: bool)
        ensures
            r == self.accepts(input),
    {
        lower(input)
    }

    pub fn generate(
        &self,
        input: char,
        tokenizer: &mut Tokenizer,
    ) -> (r: Result<Token, SpiralError>)
        requires
            self.accepts(input),
            old(tokenizer).at_char(input),
        ensures
            generated(*old(tokenizer), *final(tokenizer), r),
    {
        let i = tokenizer.current_index;
        let e = tokenizer.run_end(i, CharClass::Letter);
        proof {
            lemma_run_end(tokenizer.input@, i as int, CharClass::Letter);
        }
        match tokenizer.char_at(e) {
            Some(c) if c == ':' => Ok(tokenizer.emit_flat(TokenType::FieldId, e)),
            _ => {
                let t = tokenizer.keyword_category(i, e);
                Ok(tokenizer.emit_flat(t, e - 1))
            },
        }
    }
}

} // verus!
