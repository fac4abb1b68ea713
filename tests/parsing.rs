use spiral::{ErrorKind, Node, Parser, SpiralError, Tokenizer};

fn parse(input: &str) -> Result<Node, SpiralError> {
    let mut t = Tokenizer::build(input);
    let tokens = t.execute()?;
    let mut p = Parser::build(tokens);
    p.execute()
}

fn tree(input: &str) -> String {
    parse(input).unwrap().represent()
}

fn failure(input: &str) -> SpiralError {
    match parse(input) {
        Ok(n) => panic!("expected a failure, got {}", n.represent()),
        Err(e) => e,
    }
}

#[test]
fn multiplication_binds_tighter_than_addition() {
    assert_eq!(tree("1 + 2 * 3"), "BinOpNode<IntNode<1>,+,BinOpNode<IntNode<2>,*,IntNode<3>>>");
    assert_eq!(tree("1 * 2 + 3"), "BinOpNode<BinOpNode<IntNode<1>,*,IntNode<2>>,+,IntNode<3>>");
}

#[test]
fn operators_of_one_tier_associate_to_the_left() {
    assert_eq!(tree("1 - 2 - 3"), "BinOpNode<BinOpNode<IntNode<1>,-,IntNode<2>>,-,IntNode<3>>");
    assert_eq!(tree("8 / 4 / 2"), "BinOpNode<BinOpNode<IntNode<8>,/,IntNode<4>>,/,IntNode<2>>");
}

#[test]
fn brackets_group() {
    assert_eq!(tree("(1 + 2) * 3"), "BinOpNode<BinOpNode<IntNode<1>,+,IntNode<2>>,*,IntNode<3>>");
    assert_eq!(tree("((7))"), "IntNode<7>");
}

#[test]
fn an_unclosed_bracket_fails_from_the_bracket_to_the_last_token() {
    let e = failure("(1 + 2");
    assert_eq!(e.kind, ErrorKind::UnclosedBracket);
    assert_eq!((e.begin, e.end, e.line_number), (0, 5, 1));
    assert_eq!(e.line_text, "(1 + 2");
    let e = failure("(1 2");
    assert_eq!(e.kind, ErrorKind::UnclosedBracket);
    assert_eq!((e.begin, e.end), (0, 2));
}

#[test]
fn unary_signs_nest() {
    assert_eq!(tree("--3"), "UnaryOpNode<-,UnaryOpNode<-,IntNode<3>>>");
    assert_eq!(tree("-1 * +2"), "BinOpNode<UnaryOpNode<-,IntNode<1>>,*,UnaryOpNode<+,IntNode<2>>>");
}

#[test]
fn trivia_is_invisible() {
    assert_eq!(tree("  1 +\n  2"), "BinOpNode<IntNode<1>,+,IntNode<2>>");
    assert_eq!(tree("1+2"), "BinOpNode<IntNode<1>,+,IntNode<2>>");
}

#[test]
fn parsing_stops_after_one_expression() {
    assert_eq!(tree("1 2"), "IntNode<1>");
    assert_eq!(tree("4 )"), "IntNode<4>");
}

#[test]
fn a_missing_operand_is_an_expected_factor() {
    let e = failure("1 +");
    assert_eq!(e.kind, ErrorKind::ExpectedFactor);
    assert_eq!((e.begin, e.end, e.line_number), (2, 2, 1));
    assert_eq!(e.line_text, "1 +");
    let e = failure("");
    assert_eq!(e.kind, ErrorKind::ExpectedFactor);
    assert_eq!((e.begin, e.end, e.line_number), (0, 0, 1));
    assert_eq!(e.line_text, "");
}

#[test]
fn a_token_that_is_no_operand_is_an_unknown_factor() {
    let e = failure("1 * x");
    assert_eq!(e.kind, ErrorKind::UnknownFactor);
    assert_eq!((e.begin, e.end), (3, 3));
    let e = failure("*");
    assert_eq!(e.kind, ErrorKind::UnknownFactor);
    assert_eq!((e.begin, e.end, e.line_number), (0, 0, 1));
}

#[test]
fn lexing_failures_reach_the_caller() {
    let e = failure("1 + $");
    assert_eq!(e.kind, ErrorKind::UnrecognizedCharacter);
}
