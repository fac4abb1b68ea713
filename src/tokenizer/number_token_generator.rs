use vstd::prelude::*;

use super::{generated, Token, TokenType, Tokenizer};
use crate::spiral_error::SpiralError;
use super::rules::{is_digit, lemma_run_end, CharClass};
use super::digit;
use crate::spiral_error::ErrorKind;

verus! {

/// The rule for a number: digits with at most one period among them.
pub struct NumberTokenGenerator {}

impl NumberTokenGenerator {
    pub open spec fn accepts(&self, c: char) -> bool {
        is_digit(c)
    }

    pub fn matches(&self, input: char) -> (r: bool)
        ensures
            r == self.accepts(input),
    {
        digit(input)
    }

    pub fn generate(
        &self,
        input: char,
        tokenizer: &mut Tokenizer,
    ) -> (r: Result<Token, SpiralError>)
        requires
            self.accepts(input),
            old(tokenizer).at_char(input),
        ensures
            generated(*old(tokenizer), *final(tokenizer), r),
    {
        let ghost s = tokenizer.input@;
        let i = tokenizer.current_index;
        let a = tokenizer.run_end(i, CharClass::Digit);
        proof {
            lemma_run_end(s, i as int, CharClass::Digit);
        }
        match tokenizer.char_at(a) {
            Some(c) if c == '.' => {
                let b = tokenizer.run_end(a + 1, CharClass::Digit);
                proof {
                    lemma_run_end(s, a + 1, CharClass::Digit);
                }
                match tokenizer.char_at(b) {
                    Some(d) if d == '.' => {
                        Err(tokenizer.make_error(ErrorKind::MultiplePeriods, i, i))
                    },
                    _ => Ok(tokenizer.emit_flat(TokenType::Float, b - 1)),
                }
            },
            _ => Ok(tokenizer.emit_flat(TokenType::Integer, a - 1)),
        }
    }
}

} // verus!
