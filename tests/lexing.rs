use spiral::{ErrorKind, SpiralError, Token, TokenType, Tokenizer};

fn lex(input: &str) -> Result<Vec<Token>, SpiralError> {
    let mut t = Tokenizer::build(input);
    t.execute()
}

fn single(input: &str) -> Token {
    let tokens = lex(input).unwrap();
    assert_eq!(tokens.len(), 1, "{:?}", tokens);
    tokens.into_iter().next().unwrap()
}

fn failure(input: &str) -> SpiralError {
    match lex(input) {
        Ok(tokens) => panic!("expected a failure, got {:?}", tokens),
        Err(e) => e,
    }
}

#[test]
fn punctuation_is_one_token_each() {
    let cases = [
        ('[', TokenType::LeftSquareBracket),
        (']', TokenType::RightSquareBracket),
        ('(', TokenType::LeftBracket),
        (')', TokenType::RightBracket),
        ('{', TokenType::LeftCurlyBracket),
        ('}', TokenType::RightCurlyBracket),
        ('_', TokenType::Underscore),
        (',', TokenType::Comma),
        (':', TokenType::Colon),
        ('-', TokenType::Dash),
        ('/', TokenType::ForwardSlash),
        ('*', TokenType::Star),
        ('^', TokenType::Caret),
        ('.', TokenType::Period),
    ];
    for (c, t) in cases {
        let input = c.to_string();
        let token = single(&input);
        assert_eq!(token.token_type, t);
        assert_eq!(token.value, input);
        assert_eq!((token.begin, token.end, token.line_number), (0, 0, 1));
        assert_eq!(token.line, input);
    }
}

#[test]
fn lookahead_operators_take_their_second_character() {
    let cases = [
        ("<=", TokenType::LessThanEquals),
        ("<-", TokenType::LeftArrow),
        ("<", TokenType::LessThan),
        (">=", TokenType::GreaterThanEquals),
        (">", TokenType::GreaterThan),
        ("==", TokenType::DoubleEquals),
        ("=", TokenType::Equals),
        ("!=", TokenType::NotEquals),
        ("!", TokenType::Not),
        ("++", TokenType::DoublePlus),
        ("+", TokenType::Plus),
        ("||", TokenType::Or),
        ("|>", TokenType::Flow),
        ("&&", TokenType::And),
    ];
    for (input, t) in cases {
        let token = single(input);
        assert_eq!(token.token_type, t, "{}", input);
        assert_eq!(token.value, input);
        assert_eq!(token.end, input.len() - 1);
    }
}

#[test]
fn lookahead_does_not_consume_an_unmatched_character() {
    let tokens = lex("<a").unwrap();
    let kinds: Vec<TokenType> = tokens.iter().map(|t| t.token_type).collect();
    assert_eq!(kinds, vec![TokenType::LessThan, TokenType::VariableId]);
    assert_eq!(tokens[1].begin, 1);
    let tokens = lex("=>").unwrap();
    let kinds: Vec<TokenType> = tokens.iter().map(|t| t.token_type).collect();
    assert_eq!(kinds, vec![TokenType::Equals, TokenType::GreaterThan]);
}

#[test]
fn lone_bar_and_ampersand_are_unknown_operators() {
    for input in ["|", "| x", "&", "& x"] {
        let e = failure(input);
        assert_eq!(e.kind, ErrorKind::UnknownOperator);
        assert_eq!((e.begin, e.end), (0, 0));
    }
}

#[test]
fn reserved_words_are_keywords() {
    let cases = [
        ("namespace", TokenType::KeywordNamespace),
        ("exposing", TokenType::KeywordExposing),
        ("import", TokenType::KeywordImport),
        ("let", TokenType::KeywordLet),
        ("in", TokenType::KeywordIn),
        ("if", TokenType::KeywordIf),
        ("else", TokenType::KeywordElse),
        ("match", TokenType::KeywordMatch),
        ("when", TokenType::KeywordWhen),
        ("true", TokenType::KeywordTrue),
        ("false", TokenType::KeywordFalse),
    ];
    for (input, t) in cases {
        let token = single(input);
        assert_eq!(token.token_type, t);
        assert_eq!(token.value, input);
    }
}

#[test]
fn other_lowercase_words_are_variables() {
    for input in ["x", "lets", "iff", "truex", "twentyFour", "nameSpace"] {
        let token = single(input);
        assert_eq!(token.token_type, TokenType::VariableId, "{}", input);
        assert_eq!(token.value, input);
    }
}

#[test]
fn a_word_ending_in_a_colon_is_a_field_name() {
    let token = single("point:");
    assert_eq!(token.token_type, TokenType::FieldId);
    assert_eq!(token.value, "point:");
    assert_eq!((token.begin, token.end), (0, 5));
    let tokens = lex("if:").unwrap();
    assert_eq!(tokens[0].token_type, TokenType::FieldId);
    let tokens = lex("x::").unwrap();
    let kinds: Vec<TokenType> = tokens.iter().map(|t| t.token_type).collect();
    assert_eq!(kinds, vec![TokenType::FieldId, TokenType::Colon]);
}

#[test]
fn numbers_are_integers_or_floats() {
    let token = single("3.14");
    assert_eq!(token.token_type, TokenType::Float);
    assert_eq!(token.value, "3.14");
    let token = single("42");
    assert_eq!(token.token_type, TokenType::Integer);
    assert_eq!(token.value, "42");
    let token = single("7.");
    assert_eq!(token.token_type, TokenType::Float);
    assert_eq!(token.value, "7.");
}

#[test]
fn a_second_period_fails() {
    let e = failure("3.14.6");
    assert_eq!(e.kind, ErrorKind::MultiplePeriods);
    assert_eq!((e.begin, e.end, e.line_number), (0, 0, 1));
    assert_eq!(e.line_text, "3.14.6");
    let e = failure("x = 1..2");
    assert_eq!(e.kind, ErrorKind::MultiplePeriods);
    assert_eq!((e.begin, e.end), (4, 4));
}

#[test]
fn unterminated_literals_fail() {
    let e = failure("\"unclosed");
    assert_eq!(e.kind, ErrorKind::UnterminatedLiteral);
    assert_eq!((e.begin, e.end), (0, 8));
    let e = failure("'c");
    assert_eq!(e.kind, ErrorKind::UnterminatedLiteral);
    assert_eq!((e.begin, e.end), (0, 1));
    let e = failure("'");
    assert_eq!(e.kind, ErrorKind::UnterminatedLiteral);
    assert_eq!((e.begin, e.end), (0, 0));
    let e = failure("'\\'");
    assert_eq!(e.kind, ErrorKind::UnterminatedLiteral);
}

#[test]
fn literals_keep_their_quotes_and_escapes() {
    let token = single("\"a\\\"b\"");
    assert_eq!(token.token_type, TokenType::String);
    assert_eq!(token.value, "\"a\\\"b\"");
    let token = single("'\\''");
    assert_eq!(token.token_type, TokenType::Char);
    assert_eq!(token.value, "'\\''");
    let token = single("''");
    assert_eq!(token.token_type, TokenType::Char);
    assert_eq!((token.begin, token.end), (0, 1));
}

#[test]
fn sigils_need_a_capital_letter() {
    let e = failure("#type");
    assert_eq!(e.kind, ErrorKind::MustStartCapital);
    assert_eq!((e.begin, e.end), (0, 1));
    let e = failure("x @");
    assert_eq!(e.kind, ErrorKind::MustStartCapital);
    assert_eq!((e.begin, e.end), (2, 2));
    let token = single("#MyType");
    assert_eq!(token.token_type, TokenType::TypeId);
    assert_eq!(token.value, "#MyType");
    let token = single("@IO");
    assert_eq!(token.token_type, TokenType::NamespaceId);
    assert_eq!(token.value, "@IO");
}

#[test]
fn unknown_characters_fail_where_they_stand() {
    let e = failure("true $ false");
    assert_eq!(e.kind, ErrorKind::UnrecognizedCharacter);
    assert_eq!((e.begin, e.end, e.line_number), (5, 5, 1));
    assert_eq!(e.line_text, "true $ false");
    let e = failure("a\nb\n  é");
    assert_eq!(e.kind, ErrorKind::UnrecognizedCharacter);
    assert_eq!((e.begin, e.end, e.line_number), (6, 6, 3));
    assert_eq!(e.line_text, "  é");
}

#[test]
fn empty_input_has_no_tokens() {
    assert!(lex("").unwrap().is_empty());
}

#[test]
fn runs_of_spaces_and_line_breaks_are_one_token() {
    let tokens = lex("a   b").unwrap();
    assert_eq!(tokens.len(), 3);
    assert_eq!(tokens[1].token_type, TokenType::Whitespace);
    assert_eq!(tokens[1].value, "   ");
    assert_eq!((tokens[1].begin, tokens[1].end), (1, 3));
    let tokens = lex("a\n\nb").unwrap();
    assert_eq!(tokens.len(), 3);
    assert_eq!(tokens[1].token_type, TokenType::Newline);
    assert_eq!(tokens[1].value, "\n\n");
    assert_eq!((tokens[1].begin, tokens[1].end, tokens[1].line_number), (1, 2, 1));
    assert_eq!(tokens[1].line, "a");
    assert_eq!((tokens[2].begin, tokens[2].line_number), (3, 3));
    assert_eq!(tokens[2].line, "b");
    let token = single(" ");
    assert_eq!((token.begin, token.end), (0, 0));
}

#[test]
fn tokens_carry_their_line() {
    let tokens = lex("let\n  x = 1\nin\n  x").unwrap();
    let x = &tokens[3];
    assert_eq!(x.value, "x");
    assert_eq!((x.line_number, x.begin, x.end), (2, 6, 6));
    assert_eq!(x.line, "  x = 1");
    let last = tokens.last().unwrap();
    assert_eq!(last.line_number, 4);
    assert_eq!(last.line, "  x");
    let tokens = lex("\"a\nb\" c").unwrap();
    assert_eq!(tokens[2].value, "c");
    assert_eq!(tokens[2].line_number, 2);
    assert_eq!(tokens[2].line, "b\" c");
}

#[test]
fn joined_token_texts_give_the_input_back() {
    let inputs = [
        "namespace @Maths exposing [Function variable #Type]",
        "let\n  twentyFour = 3 * 8\r\n  sixteen = 4 ^ 2\nin\n  twentyFour + sixteen",
        "{ point <- x: point.x + 1, y: point.y + 1 }",
        "'a' ++ \"he said \\\"hi\\\"\" |> Output",
        "!true || false && x != 3.5 >= 2 <= 1",
    ];
    for input in inputs {
        let tokens = lex(input).unwrap();
        let joined: String = tokens.iter().map(|t| t.value.as_str()).collect();
        assert_eq!(joined, input);
        let again = lex(&joined).unwrap();
        assert_eq!(again.len(), tokens.len());
        for (a, b) in again.iter().zip(tokens.iter()) {
            assert_eq!((a.token_type, &a.value, a.begin, a.end), (b.token_type, &b.value, b.begin, b.end));
        }
    }
}

#[test]
fn current_char_and_current_line_follow_the_cursor() {
    let mut t = Tokenizer::build("ab\ncd");
    assert_eq!(t.current_char(), Some('a'));
    assert_eq!(t.current_line(), "ab");
    t.current_index = 4;
    t.line_number = 2;
    assert_eq!(t.current_char(), Some('d'));
    assert_eq!(t.current_line(), "cd");
    t.current_index = 5;
    assert_eq!(t.current_char(), None);
}

#[test]
fn every_rule_is_listed_once_per_character() {
    let t = Tokenizer::build("");
    let generators = t.token_generators();
    for c in "#@'\"[](){}<>_,:|&=!+-/*^. \n\rAzq09".chars() {
        let n = generators.iter().filter(|g| g.matches(c)).count();
        assert_eq!(n, 1, "{:?}", c);
    }
    for c in "$%?~`é\t".chars() {
        assert!(generators.iter().all(|g| !g.matches(c)), "{:?}", c);
    }
}
