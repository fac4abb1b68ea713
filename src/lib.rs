//! A front end for a small expression language: a character-level tokenizer
//! that turns source text into located tokens, and a recursive-descent parser
//! that turns those tokens into an expression tree.
//!
//! Both stages are verified against models written as spec functions: the
//! lexical rules in `tokenizer::rules`, the grammar in `parser`, and the
//! diagnostics in `spiral_error`. `laws` holds properties proved of them.

pub mod laws;
pub mod parser;
pub mod spiral_error;
pub mod tokenizer;

pub use parser::bin_op_node::BinOpNode;
pub use parser::int_node::IntNode;
pub use parser::node::Node;
pub use parser::unary_op_node::UnaryOpNode;
pub use parser::Parser;
pub use spiral_error::{ErrorKind, SpiralError};
pub use tokenizer::token_generator::TokenGenerator;
pub use tokenizer::{Token, TokenType, Tokenizer};
