use vstd::prelude::*;

use super::type_id_token_generator::TypeIdTokenGenerator;
use super::namespace_id_token_generator::NamespaceIdTokenGenerator;
use super::char_token_generator::CharTokenGenerator;
use super::string_token_generator::StringTokenGenerator;
use super::simple_token_generator::SimpleTokenGenerator;
use super::less_than_token_generator::LessThanTokenGenerator;
use super::greater_than_token_generator::GreaterThanTokenGenerator;
use super::or_token_generator::OrTokenGenerator;
use super::and_token_generator::AndTokenGenerator;
use super::equals_token_generator::EqualsTokenGenerator;
use super::not_token_generator::NotTokenGenerator;
use super::plus_token_generator::PlusTokenGenerator;
use super::whitespace_token_generator::WhitespaceTokenGenerator;
use super::newline_token_generator::NewlineTokenGenerator;
use super::function_id_token_generator::FunctionIdTokenGenerator;
use super::word_token_generator::WordTokenGenerator;
use super::number_token_generator::NumberTokenGenerator;
use super::{generated, Token, Tokenizer};
use crate::spiral_error::SpiralError;

verus! {

/// One lexical rule: which characters start it, and how it scans from there.
pub enum TokenGenerator {
    TypeId(TypeIdTokenGenerator),
    NamespaceId(NamespaceIdTokenGenerator),
    Char(CharTokenGenerator),
    String(StringTokenGenerator),
    Simple(SimpleTokenGenerator),
    LessThan(LessThanTokenGenerator),
    GreaterThan(GreaterThanTokenGenerator),
    Or(OrTokenGenerator),
    And(AndTokenGenerator),
    Equals(EqualsTokenGenerator),
    Not(NotTokenGenerator),
    Plus(PlusTokenGenerator),
    Whitespace(WhitespaceTokenGenerator),
    Newline(NewlineTokenGenerator),
    FunctionId(FunctionIdTokenGenerator),
    Word(WordTokenGenerator),
    Number(NumberTokenGenerator),
}

impl TokenGenerator {
    pub open spec fn wf(&self) -> bool {
        match self {
            TokenGenerator::Simple(g) => g.wf(),
            _ => true,
        }
    }

    pub open spec fn accepts(&self, c: char) -> bool {
        match self {
            TokenGenerator::TypeId(g) => g.accepts(c),
            TokenGenerator::NamespaceId(g) => g.accepts(c),
            TokenGenerator::Char(g) => g.accepts(c),
            TokenGenerator::String(g) => g.accepts(c),
            TokenGenerator::Simple(g) => g.accepts(c),
            TokenGenerator::LessThan(g) => g.accepts(c),
            TokenGenerator::GreaterThan(g) => g.accepts(c),
            TokenGenerator::Or(g) => g.accepts(c),
            TokenGenerator::And(g) => g.accepts(c),
            TokenGenerator::Equals(g) => g.accepts(c),
            TokenGenerator::Not(g) => g.accepts(c),
            TokenGenerator::Plus(g) => g.accepts(c),
            TokenGenerator::Whitespace(g) => g.accepts(c),
            TokenGenerator::Newline(g) => g.accepts(c),
            TokenGenerator::FunctionId(g) => g.accepts(c),
            TokenGenerator::Word(g) => g.accepts(c),
            TokenGenerator::Number(g) => g.accepts(c),
        }
    }

    pub fn matches(&self, input: char) -> (r: bool)
        ensures
            r == self.accepts(input),
    {
        match self {
            TokenGenerator::TypeId(g) => g.matches(input),
            TokenGenerator::NamespaceId(g) => g.matches(input),
            TokenGenerator::Char(g) => g.matches(input),
            TokenGenerator::String(g) => g.matches(input),
            TokenGenerator::Simple(g) => g.matches(input),
            TokenGenerator::LessThan(g) => g.matches(input),
            TokenGenerator::GreaterThan(g) => g.matches(input),
            TokenGenerator::Or(g) => g.matches(input),
            TokenGenerator::And(g) => g.matches(input),
            TokenGenerator::Equals(g) => g.matches(input),
            TokenGenerator::Not(g) => g.matches(input),
            TokenGenerator::Plus(g) => g.matches(input),
            TokenGenerator::Whitespace(g) => g.matches(input),
            TokenGenerator::Newline(g) => g.matches(input),
            TokenGenerator::FunctionId(g) => g.matches(input),
            TokenGenerator::Word(g) => g.matches(input),
            TokenGenerator::Number(g) => g.matches(input),
        }
    }

    pub fn generate(
        &self,
        input: char,
        tokenizer: &mut Tokenizer,
    ) -> (r: Result<Token, SpiralError>)
        requires
            self.wf(),
            self.accepts(input),
            old(tokenizer).at_char(input),
        ensures
            generated(*old(tokenizer), *final(tokenizer), r),
    {
        match self {
            TokenGenerator::TypeId(g) => g.generate(input, tokenizer),
            TokenGenerator::NamespaceId(g) => g.generate(input, tokenizer),
            TokenGenerator::Char(g) => g.generate(input, tokenizer),
            TokenGenerator::String(g) => g.generate(input, tokenizer),
            TokenGenerator::Simple(g) => g.generate(input, tokenizer),
            TokenGenerator::LessThan(g) => g.generate(input, tokenizer),
            TokenGenerator::GreaterThan(g) => g.generate(input, tokenizer),
            TokenGenerator::Or(g) => g.generate(input, tokenizer),
            TokenGenerator::And(g) => g.generate(input, tokenizer),
            TokenGenerator::Equals(g) => g.generate(input, tokenizer),
            TokenGenerator::Not(g) => g.generate(input, tokenizer),
            TokenGenerator::Plus(g) => g.generate(input, tokenizer),
            TokenGenerator::Whitespace(g) => g.generate(input, tokenizer),
            TokenGenerator::Newline(g) => g.generate(input, tokenizer),
            TokenGenerator::FunctionId(g) => g.generate(input, tokenizer),
            TokenGenerator::Word(g) => g.generate(input, tokenizer),
            TokenGenerator::Number(g) => g.generate(input, tokenizer),
        }
    }
}

} // verus!
