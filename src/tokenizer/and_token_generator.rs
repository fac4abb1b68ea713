use vstd::prelude::*;

use super::{generated, Token, TokenType, Tokenizer};
use crate::spiral_error::SpiralError;
use crate::spiral_error::ErrorKind;

verus! {

/// The rule for `&&`; a lone `&` is an error.
pub struct AndTokenGenerator {}

impl AndTokenGenerator {
    pub open spec fn accepts(&self, c: char) -> bool {
        c == '&'
    }

    pub fn matches(&self, input: char) -> (r: bool)
        ensures
            r == self.accepts(input),
    {
        '&' == input
    }

    pub fn generate(
        &self,
        input: char,
        tokenizer: &mut Tokenizer,
    ) -> (r: Result<Token, SpiralError>)
        requires
            self.accepts(input),
            old(tokenizer).at_char(input),
        ensures
            generated(*old(tokenizer), *final(tokenizer), r),
    {
        let i = tokenizer.current_index;
        if tokenizer.next_is('&') {
            Ok(tokenizer.emit_flat(TokenType::And, i + 1))
        } else {
            Err(tokenizer.make_error(ErrorKind::UnknownOperator, i, i))
        }
    }
}

} // verus!
