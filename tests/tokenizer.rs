use spiral::{SpiralError, Tokenizer};

fn parse(input: &str) -> Result<Vec<String>, SpiralError> {
    let mut t = Tokenizer::build(input);
    let tokens = t.execute()?;
    let mut output = Vec::new();
    for token in tokens {
        output.push(format!("{:?}", token.token_type));
    }
    Ok(output)
}

#[test]
fn namespaces_should_parse_with_specific_exposes() {
    let result = parse("namespace @Maths exposing [Function variable #Type]").unwrap();
    let expected = vec![
        "KeywordNamespace",
        "Whitespace",
        "NamespaceId",
        "Whitespace",
        "KeywordExposing",
        "Whitespace",
        "LeftSquareBracket",
        "FunctionId",
        "Whitespace",
        "VariableId",
        "Whitespace",
        "TypeId",
        "RightSquareBracket",
    ];
    assert_eq!(result, expected);
}

#[test]
fn namespaces_should_parse_with_wildcard_exposes() {
    let result = parse("namespace @Maths exposing _").unwrap();
    let expected = vec![
        "KeywordNamespace",
        "Whitespace",
        "NamespaceId",
        "Whitespace",
        "KeywordExposing",
        "Whitespace",
        "Underscore",
    ];
    assert_eq!(result, expected);
}

#[test]
fn imports_should_parse_with_no_specific_imports() {
    let result = parse("import @Maths").unwrap();
    let expected = vec!["KeywordImport", "Whitespace", "NamespaceId"];
    assert_eq!(result, expected);
}

#[test]
fn imports_should_parse_with_specific_imports() {
    let result = parse("import @Maths exposing [Function variable #Type]").unwrap();
    let expected = vec![
        "KeywordImport",
        "Whitespace",
        "NamespaceId",
        "Whitespace",
        "KeywordExposing",
        "Whitespace",
        "LeftSquareBracket",
        "FunctionId",
        "Whitespace",
        "VariableId",
        "Whitespace",
        "TypeId",
        "RightSquareBracket",
    ];
    assert_eq!(result, expected);
}

#[test]
fn function_definitions_should_parse_function_type_definition() {
    let result = parse("AddTwo : #Fn<#Int,#Int>").unwrap();
    let expected = vec![
        "FunctionId",
        "Whitespace",
        "Colon",
        "Whitespace",
        "TypeId",
        "LessThan",
        "TypeId",
        "Comma",
        "TypeId",
        "GreaterThan",
    ];
    assert_eq!(result, expected);
}

#[test]
fn function_definitions_should_parse_function_definition() {
    let result = parse("Main = @IO.Print(AddTwo 3)").unwrap();
    let expected = vec![
        "FunctionId",
        "Whitespace",
        "Equals",
        "Whitespace",
        "NamespaceId",
        "Period",
        "FunctionId",
        "LeftBracket",
        "FunctionId",
        "Whitespace",
        "Integer",
        "RightBracket",
    ];
    assert_eq!(result, expected);
}

#[test]
fn type_definitions_should_parse_type_definitions() {
    let result = parse("#Number = #Int || #Float").unwrap();
    let expected = vec![
        "TypeId",
        "Whitespace",
        "Equals",
        "Whitespace",
        "TypeId",
        "Whitespace",
        "Or",
        "Whitespace",
        "TypeId",
    ];
    assert_eq!(result, expected);
}

#[test]
fn literals_should_parse_booleans() {
    let result = parse("true || false").unwrap();
    let expected = vec![
        "KeywordTrue",
        "Whitespace",
        "Or",
        "Whitespace",
        "KeywordFalse",
    ];
    assert_eq!(result, expected);
}

#[test]
fn literals_should_parse_integers() {
    let result = parse("2 + 7").unwrap();
    let expected = vec!["Integer", "Whitespace", "Plus", "Whitespace", "Integer"];
    assert_eq!(result, expected);
}

#[test]
fn literals_should_parse_floats() {
    let result = parse("3.14 + 4.9").unwrap();
    let expected = vec!["Float", "Whitespace", "Plus", "Whitespace", "Float"];
    assert_eq!(result, expected);
}

#[test]
fn literals_should_parse_characters_and_strings() {
    let result = parse("'a' ++ \"hello\"").unwrap();
    let expected = vec!["Char", "Whitespace", "DoublePlus", "Whitespace", "String"];
    assert_eq!(result, expected);
}

#[test]
fn literals_should_parse_lists() {
    let result = parse("[1 2 3]").unwrap();
    let expected = vec![
        "LeftSquareBracket",
        "Integer",
        "Whitespace",
        "Integer",
        "Whitespace",
        "Integer",
        "RightSquareBracket",
    ];
    assert_eq!(result, expected);
}

#[test]
fn should_parse_a_let_statement() {
    let result =
        parse("let\n  twentyFour = 3 * 8\n  sixteen = 4 ^ 2\nin\n  twentyFour + sixteen")
            .unwrap();
    let expected = vec![
        "KeywordLet",
        "Newline",
        "Whitespace",
        "VariableId",
        "Whitespace",
        "Equals",
        "Whitespace",
        "Integer",
        "Whitespace",
        "Star",
        "Whitespace",
        "Integer",
        "Newline",
        "Whitespace",
        "VariableId",
        "Whitespace",
        "Equals",
        "Whitespace",
        "Integer",
        "Whitespace",
        "Caret",
        "Whitespace",
        "Integer",
        "Newline",
        "KeywordIn",
        "Newline",
        "Whitespace",
        "VariableId",
        "Whitespace",
        "Plus",
        "Whitespace",
        "VariableId",
    ];
    assert_eq!(result, expected);
}

#[test]
fn should_parse_an_if_statement_without_else_if_clause() {
    let result = parse("if key == 40\n  n + 1\nelse\n  n").unwrap();
    let expected = vec![
        "KeywordIf",
        "Whitespace",
        "VariableId",
        "Whitespace",
        "DoubleEquals",
        "Whitespace",
        "Integer",
        "Newline",
        "Whitespace",
        "VariableId",
        "Whitespace",
        "Plus",
        "Whitespace",
        "Integer",
        "Newline",
        "KeywordElse",
        "Newline",
        "Whitespace",
        "VariableId",
    ];
    assert_eq!(result, expected);
}

#[test]
fn should_parse_an_if_statement_with_an_else_if_clause() {
    let result = parse("if key == 40\n  n + 1\nelse if key == 38\n  n - 1\nelse\n  n").unwrap();
    let expected = vec![
        "KeywordIf",
        "Whitespace",
        "VariableId",
        "Whitespace",
        "DoubleEquals",
        "Whitespace",
        "Integer",
        "Newline",
        "Whitespace",
        "VariableId",
        "Whitespace",
        "Plus",
        "Whitespace",
        "Integer",
        "Newline",
        "KeywordElse",
        "Whitespace",
        "KeywordIf",
        "Whitespace",
        "VariableId",
        "Whitespace",
        "DoubleEquals",
        "Whitespace",
        "Integer",
        "Newline",
        "Whitespace",
        "VariableId",
        "Whitespace",
        "Dash",
        "Whitespace",
        "Integer",
        "Newline",
        "KeywordElse",
        "Newline",
        "Whitespace",
        "VariableId",
    ];
    assert_eq!(result, expected);
}

#[test]
fn should_parse_a_case_statement_without_a_when_clause() {
    let result = parse("match n\nelse\n  1").unwrap();
    let expected = vec![
        "KeywordMatch",
        "Whitespace",
        "VariableId",
        "Newline",
        "KeywordElse",
        "Newline",
        "Whitespace",
        "Integer",
    ];
    assert_eq!(result, expected);
}

#[test]
fn should_parse_a_case_statement_with_a_when_clause() {
    let result =
        parse("match n\nwhen 0\n  1\nwhen 1\n  1\nelse\n  Fib(n-1) + Fib(n-2)").unwrap();
    let expected = vec![
        "KeywordMatch",
        "Whitespace",
        "VariableId",
        "Newline",
        "KeywordWhen",
        "Whitespace",
        "Integer",
        "Newline",
        "Whitespace",
        "Integer",
        "Newline",
        "KeywordWhen",
        "Whitespace",
        "Integer",
        "Newline",
        "Whitespace",
        "Integer",
        "Newline",
        "KeywordElse",
        "Newline",
        "Whitespace",
        "FunctionId",
        "LeftBracket",
        "VariableId",
        "Dash",
        "Integer",
        "RightBracket",
        "Whitespace",
        "Plus",
        "Whitespace",
        "FunctionId",
        "LeftBracket",
        "VariableId",
        "Dash",
        "Integer",
        "RightBracket",
    ];
    assert_eq!(result, expected);
}

#[test]
fn bin_ops_should_parse_math_operators() {
    let result = parse("1 + 2 - 3 * 4 / 5 ^ 6").unwrap();
    let expected = vec![
        "Integer",
        "Whitespace",
        "Plus",
        "Whitespace",
        "Integer",
        "Whitespace",
        "Dash",
        "Whitespace",
        "Integer",
        "Whitespace",
        "Star",
        "Whitespace",
        "Integer",
        "Whitespace",
        "ForwardSlash",
        "Whitespace",
        "Integer",
        "Whitespace",
        "Caret",
        "Whitespace",
        "Integer",
    ];
    assert_eq!(result, expected);
}

#[test]
fn bin_ops_should_parse_boolean_operators() {
    let result = parse("!true || false && true").unwrap();
    let expected = vec![
        "Not",
        "KeywordTrue",
        "Whitespace",
        "Or",
        "Whitespace",
        "KeywordFalse",
        "Whitespace",
        "And",
        "Whitespace",
        "KeywordTrue",
    ];
    assert_eq!(result, expected);
}

#[test]
fn bin_ops_should_parse_flow_operator() {
    let result = parse("\"Hello\" |> Output").unwrap();
    let expected = vec!["String", "Whitespace", "Flow", "Whitespace", "FunctionId"];
    assert_eq!(result, expected);
}

#[test]
fn bin_ops_should_parse_concatinate_operator() {
    let result = parse("' ' ++ \"Hello\"").unwrap();
    let expected = vec!["Char", "Whitespace", "DoublePlus", "Whitespace", "String"];
    assert_eq!(result, expected);
}

#[test]
fn structs_should_parse_struct_type_definition() {
    let result = parse("#MyStruct = #Struct<x: #Int, y: #Int>").unwrap();
    let expected = vec![
        "TypeId",
        "Whitespace",
        "Equals",
        "Whitespace",
        "TypeId",
        "LessThan",
        "FieldId",
        "Whitespace",
        "TypeId",
        "Comma",
        "Whitespace",
        "FieldId",
        "Whitespace",
        "TypeId",
        "GreaterThan",
    ];
    assert_eq!(result, expected);
}

#[test]
fn structs_should_parse_struct_creation() {
    let result = parse("point = { x: 3, y: 4 }").unwrap();
    let expected = vec![
        "VariableId",
        "Whitespace",
        "Equals",
        "Whitespace",
        "LeftCurlyBracket",
        "Whitespace",
        "FieldId",
        "Whitespace",
        "Integer",
        "Comma",
        "Whitespace",
        "FieldId",
        "Whitespace",
        "Integer",
        "Whitespace",
        "RightCurlyBracket",
    ];
    assert_eq!(result, expected);
}

#[test]
fn structs_should_parse_field_access() {
    let result = parse("point.x == 3").unwrap();
    let expected = vec![
        "VariableId",
        "Period",
        "VariableId",
        "Whitespace",
        "DoubleEquals",
        "Whitespace",
        "Integer",
    ];
    assert_eq!(result, expected);
}

#[test]
fn structs_should_parse_struct_editing() {
    let result = parse("{ point <- x: point.x + 1, y: point.y + 1 }").unwrap();
    let expected = vec![
        "LeftCurlyBracket",
        "Whitespace",
        "VariableId",
        "Whitespace",
        "LeftArrow",
        "Whitespace",
        "FieldId",
        "Whitespace",
        "VariableId",
        "Period",
        "VariableId",
        "Whitespace",
        "Plus",
        "Whitespace",
        "Integer",
        "Comma",
        "Whitespace",
        "FieldId",
        "Whitespace",
        "VariableId",
        "Period",
        "VariableId",
        "Whitespace",
        "Plus",
        "Whitespace",
        "Integer",
        "Whitespace",
        "RightCurlyBracket",
    ];
    assert_eq!(result, expected);
}

#[test]
fn should_parse_new_lines() {
    let result = parse("Main = @IO.Print\n  \"Hello World!\"").unwrap();
    let expected = vec![
        "FunctionId",
        "Whitespace",
        "Equals",
        "Whitespace",
        "NamespaceId",
        "Period",
        "FunctionId",
        "Newline",
        "Whitespace",
        "String",
    ];
    assert_eq!(result, expected);
}

#[test]
fn should_raise_error_if_namespace_does_not_begin_with_a_capital_letter() {
    let result = parse("@io.Print");
    assert_eq!(result.is_err(), true);
}

#[test]
fn should_raise_error_if_type_does_not_begin_with_a_capital_letter() {
    let result = parse("#type");
    assert_eq!(result.is_err(), true);
}

#[test]
fn should_raise_error_for_unknown_or_token() {
    let result = parse("true | false");
    assert_eq!(result.is_err(), true);
}

#[test]
fn should_raise_error_for_unknown_and_token() {
    let result = parse("true & false");
    assert_eq!(result.is_err(), true);
}

#[test]
fn should_raise_error_for_unknown_other_token() {
    let result = parse("true $ false");
    assert_eq!(result.is_err(), true);
}

#[test]
fn should_raise_error_for_unclosed_string() {
    let result = parse("\"unclosed string");
    assert_eq!(result.is_err(), true);
}

#[test]
fn should_raise_error_for_unclosed_char() {
    let result = parse("'c");
    assert_eq!(result.is_err(), true);
}

#[test]
fn should_raise_error_for_invalid_floats() {
    let result = parse("3.14.6");
    assert_eq!(result.is_err(), true);
}
