use vstd::prelude::*;

pub mod bin_op_node;
pub mod int_node;
pub mod node;
pub mod unary_op_node;

use crate::spiral_error::{DiagView, ErrorKind, SpiralError};
use crate::tokenizer::{tokens_view, Token, TokenType, TokenView};
use bin_op_node::BinOpNode;
use int_node::IntNode;
use node::{Node, Tree};
use unary_op_node::UnaryOpNode;

verus! {

/// The operands of a chain of binary operators: factors, joined by `*` and
/// `/` into a term; or terms, joined by `+` and `-` into an expression.
#[derive(Clone, Copy, PartialEq, Eq, Structural)]
pub enum Operand {
    Factor,
    Term,
}

/// The operators that join operands of kind `o`.
pub open spec fn joins(t: TokenType, o: Operand) -> bool {
    match o {
        Operand::Factor => t == TokenType::Star || t == TokenType::ForwardSlash,
        Operand::Term => t == TokenType::Plus || t == TokenType::Dash,
    }
}

/// Whitespace and line breaks, which the grammar never sees.
pub open spec fn is_trivia(t: TokenView) -> bool {
    t.token_type == TokenType::Whitespace || t.token_type == TokenType::Newline
}

/// The first position at or after `p` that does not hold trivia.
pub open spec fn skip_trivia(toks: Seq<TokenView>, p: int) -> int
    decreases toks.len() - p,
{
    if 0 <= p < toks.len() && is_trivia(toks[p]) {
        skip_trivia(toks, p + 1)
    } else {
        p
    }
}

pub proof fn lemma_skip_trivia(toks: Seq<TokenView>, p: int)
    requires
        0 <= p <= toks.len(),
    ensures
        p <= skip_trivia(toks, p) <= toks.len(),
    decreases toks.len() - p,
{
    if p < toks.len() && is_trivia(toks[p]) {
        lemma_skip_trivia(toks, p + 1);
    }
}

/// A tree and the position just after the tokens it was built from, or a failure.
pub type Parsed = Result<(Tree, int), DiagView>;

/// A failure reported at the token before position `p`, the last one
/// consumed; at the very start there is none, and the span is empty.
pub open spec fn anchored(toks: Seq<TokenView>, p: int, k: ErrorKind) -> DiagView {
    if 1 <= p <= toks.len() {
        DiagView {
            kind: k,
            line_text: toks[p - 1].line,
            line_number: toks[p - 1].line_number,
            begin: toks[p - 1].begin,
            end: toks[p - 1].end,
        }
    } else {
        DiagView { kind: k, line_text: Seq::empty(), line_number: 1, begin: 0, end: 0 }
    }
}

/// An unclosed bracket: from the opening bracket to the last token consumed
/// before position `p`.
pub open spec fn unclosed(toks: Seq<TokenView>, open: TokenView, p: int) -> DiagView {
    DiagView {
        kind: ErrorKind::UnclosedBracket,
        line_text: open.line,
        line_number: open.line_number,
        begin: open.begin,
        end: toks[p - 1].end,
    }
}

/// `factor := ('+' | '-') factor | Integer | '(' expression ')'`, from position `p`.
pub open spec fn factor(toks: Seq<TokenView>, p: int) -> Parsed
    decreases toks.len() - p, 0int,
{
    if p < 0 || p >= toks.len() {
        Err(anchored(toks, p, ErrorKind::ExpectedFactor))
    } else {
        let t = toks[p];
        let q = skip_trivia(toks, p + 1);
        proof {
            lemma_skip_trivia(toks, p + 1);
        }
        if t.token_type == TokenType::Plus || t.token_type == TokenType::Dash {
            match factor(toks, q) {
                Ok((n, r)) => Ok((Tree::Unary(t, Box::new(n)), r)),
                Err(e) => Err(e),
            }
        } else if t.token_type == TokenType::Integer {
            Ok((Tree::Int(t), q))
        } else if t.token_type == TokenType::LeftBracket {
            match chain(toks, q, Operand::Term) {
                Ok((n, r)) => if 0 <= r < toks.len() && toks[r].token_type
                    == TokenType::RightBracket {
                    Ok((n, skip_trivia(toks, r + 1)))
                } else {
                    Err(unclosed(toks, t, r))
                },
                Err(e) => Err(e),
            }
        } else {
            Err(anchored(toks, p, ErrorKind::UnknownFactor))
        }
    }
}

/// One operand of kind `o` from position `p`.
pub open spec fn operand(toks: Seq<TokenView>, p: int, o: Operand) -> Parsed
    decreases toks.len() - p, if o == Operand::Factor {
        1int
    } else {
        3int
    },
{
    match o {
        Operand::Factor => factor(toks, p),
        Operand::Term => chain(toks, p, Operand::Factor),
    }
}

/// Operands of kind `o` joined by their operators, folded to the left.
pub open spec fn chain(toks: Seq<TokenView>, p: int, o: Operand) -> Parsed
    decreases toks.len() - p, if o == Operand::Factor {
        2int
    } else {
        4int
    },
{
    match operand(toks, p, o) {
        Ok((left, q)) => if p < q <= toks.len() {
            chain_rest(toks, q, left, o)
        } else {
            Ok((left, q))
        },
        Err(e) => Err(e),
    }
}

/// Continues a chain whose operands so far fold to `left`, at position `p`.
/// (Every operand consumes at least one token, so the guards on positions
/// only serve to show that the recursion ends.)
pub open spec fn chain_rest(toks: Seq<TokenView>, p: int, left: Tree, o: Operand) -> Parsed
    decreases toks.len() - p, 0int,
{
    if 0 <= p < toks.len() && joins(toks[p].token_type, o) {
        let q = skip_trivia(toks, p + 1);
        proof {
            lemma_skip_trivia(toks, p + 1);
        }
        match operand(toks, q, o) {
            Ok((right, r)) => {
                let folded = Tree::Binary(toks[p], Box::new(left), Box::new(right));
                if p < r <= toks.len() {
                    chain_rest(toks, r, folded, o)
                } else {
                    Ok((folded, r))
                }
            },
            Err(e) => Err(e),
        }
    } else {
        Ok((left, p))
    }
}

/// Parsing a whole token sequence from position `p`: leading trivia, then
/// an expression; what follows it is left unread.
pub open spec fn parse_from(toks: Seq<TokenView>, p: int) -> Result<Tree, DiagView> {
    match chain(toks, skip_trivia(toks, p), Operand::Term) {
        Ok((t, _)) => Ok(t),
        Err(e) => Err(e),
    }
}

/// Whether `t` joins operands of kind `o`.
fn joined_by(t: TokenType, o: Operand) -> (r: bool)
    ensures
        r == joins(t, o),
{
    match o {
        Operand::Factor => t == TokenType::Star || t == TokenType::ForwardSlash,
        Operand::Term => t == TokenType::Plus || t == TokenType::Dash,
    }
}

fn trivia(t: TokenType) -> (r: bool)
    ensures
        r == (t == TokenType::Whitespace || t == TokenType::Newline),
{
    t == TokenType::Whitespace || t == TokenType::Newline
}

/// A recursive-descent parser over a token sequence, with a cursor into it.
pub struct Parser {
    pub current_index: usize,
    pub tokens: Vec<Token>,
}

/// What the parser run from `pre` to `post` gives, next to what the grammar
/// gives from the same position: the same tree and the same stopping
/// position (strictly further on), or the same failure.
pub open spec fn parsed_by(
    pre: Parser,
    post: Parser,
    r: Result<Node, SpiralError>,
    expected: Parsed,
) -> bool {
    &&& post.tokens == pre.tokens
    &&& match r {
        Ok(n) => {
            &&& expected == Ok::<(Tree, int), DiagView>((n@, post.current_index as int))
            &&& pre.current_index < post.current_index <= pre.tokens@.len()
        },
        Err(e) => expected == Err::<(Tree, int), DiagView>(e@),
    }
}

impl Parser {
    pub open spec fn toks(&self) -> Seq<TokenView> {
        tokens_view(self.tokens@)
    }

    pub fn build(tokens: Vec<Token>) -> (r: Parser)
        ensures
            r.current_index == 0,
            r.tokens == tokens,
    {
        Parser { current_index: 0, tokens }
    }

    /// Parses one expression from the cursor, after any trivia there; the
    /// tokens after the expression are left unread.
    pub fn execute(&mut self) -> (r: Result<Node, SpiralError>)
        requires
            old(self).current_index <= old(self).tokens@.len(),
        ensures
            final(self).tokens == old(self).tokens,
            parse_from(old(self).toks(), old(self).current_index as int) == match r {
                Ok(n) => Ok::<Tree, DiagView>(n@),
                Err(e) => Err(e@),
            },
    {
        self.skip_trivia();
        self.expression()
    }

    fn current_token(&self) -> (r: Option<&Token>)
        ensures
            self.current_index < self.tokens@.len() ==> r == Some(
                &self.tokens@[self.current_index as int],
            ),
            self.current_index >= self.tokens@.len() ==> r is None,
    {
        if self.current_index < self.tokens.len() {
            Some(&self.tokens[self.current_index])
        } else {
            None
        }
    }

    /// The token before the cursor, the last one consumed.
    fn previous_token(&self) -> (r: Option<&Token>)
        ensures
            1 <= self.current_index <= self.tokens@.len() ==> r == Some(
                &self.tokens@[self.current_index - 1],
            ),
            !(1 <= self.current_index <= self.tokens@.len()) ==> r is None,
    {
        if self.current_index >= 1 && self.current_index <= self.tokens.len() {
            Some(&self.tokens[self.current_index - 1])
        } else {
            None
        }
    }

    fn advance(&mut self)
        requires
            old(self).current_index < old(self).tokens@.len(),
        ensures
            final(self).tokens == old(self).tokens,
            final(self).current_index == old(self).current_index + 1,
    {
        if self.current_index < self.tokens.len() {
            self.current_index = self.current_index + 1;
        }
    }

    /// Moves the cursor past any trivia under it.
    fn skip_trivia(&mut self)
        requires
            old(self).current_index <= old(self).tokens@.len(),
        ensures
            final(self).tokens == old(self).tokens,
            final(self).current_index == skip_trivia(
                old(self).toks(),
                old(self).current_index as int,
            ),
            final(self).current_index <= final(self).tokens@.len(),
    {
        let ghost toks = self.toks();
        let ghost tokens = self.tokens;
        let ghost p = self.current_index as int;
        while self.current_index < self.tokens.len() && trivia(
            self.tokens[self.current_index].token_type,
        )
            invariant
                self.tokens == tokens,
                toks == self.toks(),
                self.current_index <= self.tokens@.len(),
                skip_trivia(toks, self.current_index as int) == skip_trivia(toks, p),
            decreases self.tokens@.len() - self.current_index,
        {
            self.advance();
        }
        proof {
            lemma_skip_trivia(toks, p);
        }
    }

    /// Consumes the token under the cursor and any trivia after it.
    fn advance_through_whitespace(&mut self)
        requires
            old(self).current_index < old(self).tokens@.len(),
        ensures
            final(self).tokens == old(self).tokens,
            final(self).current_index == skip_trivia(old(self).toks(), old(self).current_index + 1),
    {
        self.advance();
        self.skip_trivia();
    }

    /// A failure of kind `kind` at the last token consumed.
    fn anchored_error(&self, kind: ErrorKind) -> (r: SpiralError)
        ensures
            r@ == anchored(self.toks(), self.current_index as int, kind),
    {
        match self.previous_token() {
            Some(t) => SpiralError {
                kind,
                line_text: t.line.clone(),
                line_number: t.line_number,
                begin: t.begin,
                end: t.end,
            },
            None => SpiralError {
                kind,
                line_text: String::new(),
                line_number: 1,
                begin: 0,
                end: 0,
            },
        }
    }

    fn factor(&mut self) -> (r: Result<Node, SpiralError>)
        requires
            old(self).current_index <= old(self).tokens@.len(),
        ensures
            parsed_by(
                *old(self),
                *final(self),
                r,
                factor(old(self).toks(), old(self).current_index as int),
            ),
        decreases self.tokens@.len() - self.current_index, 0int,
    {
        let ghost toks = self.toks();
        let ghost p = self.current_index as int;
        if self.current_index >= self.tokens.len() {
            return Err(self.anchored_error(ErrorKind::ExpectedFactor));
        }
        let token = self.tokens[self.current_index].clone();
        proof {
            lemma_skip_trivia(toks, p + 1);
        }
        match token.token_type {
            TokenType::Plus | TokenType::Dash => {
                self.advance_through_whitespace();
                match self.factor() {
                    Ok(n) => Ok(Node::UnaryOp(UnaryOpNode { node: Box::new(n), token })),
                    Err(e) => Err(e),
                }
            },
            TokenType::Integer => {
                self.advance_through_whitespace();
                Ok(Node::Int(IntNode { token }))
            },
            TokenType::LeftBracket => {
                self.advance_through_whitespace();
                let expression = match self.expression() {
                    Ok(n) => n,
                    Err(e) => {
                        return Err(e);
                    },
                };
                let closed = match self.current_token() {
                    Some(t) => t.token_type == TokenType::RightBracket,
                    None => false,
                };
                if closed {
                    proof {
                        lemma_skip_trivia(toks, self.current_index + 1);
                    }
                    self.advance_through_whitespace();
                    Ok(expression)
                } else {
                    let end = match self.previous_token() {
                        Some(t) => t.end,
                        None => token.end,
                    };
                    Err(
                        SpiralError {
                            kind: ErrorKind::UnclosedBracket,
                            line_text: token.line.clone(),
                            line_number: token.line_number,
                            begin: token.begin,
                            end,
                        },
                    )
                }
            },
            _ => Err(self.anchored_error(ErrorKind::UnknownFactor)),
        }
    }

    /// A term: factors joined by `*` and `/`.
    fn term(&mut self) -> (r: Result<Node, SpiralError>)
        requires
            old(self).current_index <= old(self).tokens@.len(),
        ensures
            parsed_by(
                *old(self),
                *final(self),
                r,
                chain(old(self).toks(), old(self).current_index as int, Operand::Factor),
            ),
        decreases self.tokens@.len() - self.current_index, 3int,
    {
        self.bin_op_node(Operand::Factor)
    }

    /// Operands of kind `o` joined by their operators, folded to the left.
    fn bin_op_node(&mut self, o: Operand) -> (r: Result<Node, SpiralError>)
        requires
            old(self).current_index <= old(self).tokens@.len(),
        ensures
            parsed_by(
                *old(self),
                *final(self),
                r,
                chain(old(self).toks(), old(self).current_index as int, o),
            ),
        decreases self.tokens@.len() - self.current_index, if o == Operand::Factor {
            2int
        } else {
            5int
        },
    {
        let ghost toks = self.toks();
        let ghost tokens = self.tokens;
        let ghost p = self.current_index as int;
        let mut left = match self.bin_op_function(o) {
            Ok(n) => n,
            Err(e) => {
                return Err(e);
            },
        };
        while self.current_index < self.tokens.len() && joined_by(
            self.tokens[self.current_index].token_type,
            o,
        )
            invariant
                tokens == old(self).tokens,
                p == old(self).current_index,
                self.tokens == tokens,
                toks == self.toks(),
                p < self.current_index <= self.tokens@.len(),
                chain(toks, p, o) == chain_rest(toks, self.current_index as int, left@, o),
            decreases self.tokens@.len() - self.current_index,
        {
            let token = self.tokens[self.current_index].clone();
            proof {
                lemma_skip_trivia(toks, self.current_index + 1);
            }
            self.advance_through_whitespace();
            let right = match self.bin_op_function(o) {
                Ok(n) => n,
                Err(e) => {
                    return Err(e);
                },
            };
            left = Node::BinOp(
                BinOpNode { left_node: Box::new(left), right_node: Box::new(right), token },
            );
        }
        Ok(left)
    }

    /// One operand of kind `o`.
    fn bin_op_function(&mut self, o: Operand) -> (r: Result<Node, SpiralError>)
        requires
            old(self).current_index <= old(self).tokens@.len(),
        ensures
            parsed_by(
                *old(self),
                *final(self),
                r,
                operand(old(self).toks(), old(self).current_index as int, o),
            ),
        decreases self.tokens@.len() - self.current_index, if o == Operand::Factor {
            1int
        } else {
            4int
        },
    {
        match o {
            Operand::Factor => self.factor(),
            Operand::Term => self.term(),
        }
    }

    /// An expression: terms joined by `+` and `-`.
    fn expression(&mut self) -> (r: Result<Node, SpiralError>)
        requires
            old(self).current_index <= old(self).tokens@.len(),
        ensures
            parsed_by(
                *old(self),
                *final(self),
                r,
                chain(old(self).toks(), old(self).current_index as int, Operand::Term),
            ),
        decreases self.tokens@.len() - self.current_index, 6int,
    {
        self.bin_op_node(Operand::Term)
    }
}

} // verus!
