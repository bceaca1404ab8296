use dew_schema_language::expression::{DewSchemaLanguageExpression, DewSchemaLanguageParser};

#[test]
fn test_parse_simple() {
    let input = r#"foo.bar(123, "hello")"#;
    let expected = DewSchemaLanguageExpression::Chain(vec![
        DewSchemaLanguageExpression::Identifier("foo".into()),
        DewSchemaLanguageExpression::Call {
            method_name: "bar".into(),
            args: vec![
                DewSchemaLanguageExpression::Number("123".into()),
                DewSchemaLanguageExpression::StringLiteral("hello".into()),
            ],
        },
    ]);
    let result = DewSchemaLanguageParser::consume(input).unwrap();
    assert_eq!(result, expected);
}

#[test]
fn test_parse_with_whitespace() {
    let input = r#"foo(
        bar(
            "Hello, World!"
        , 42)
    )"#;
    let expected = DewSchemaLanguageExpression::Call {
        method_name: "foo".into(),
        args: vec![DewSchemaLanguageExpression::Call {
            method_name: "bar".into(),
            args: vec![
                DewSchemaLanguageExpression::StringLiteral("Hello, World!".into()),
                DewSchemaLanguageExpression::Number("42".into()),
            ],
        }],
    };
    let result = DewSchemaLanguageParser::consume(input).unwrap();
    assert_eq!(result, expected);
}

#[test]
fn test_parse_simple_number() {
    let input = r#"add(42, 38)"#;
    let expected = DewSchemaLanguageExpression::Call {
        method_name: "add".into(),
        args: vec![
            DewSchemaLanguageExpression::Number("42".into()),
            DewSchemaLanguageExpression::Number("38".into()),
        ],
    };
    let result = DewSchemaLanguageParser::consume(input).unwrap();
    assert_eq!(result, expected);
}

#[test]
fn test_parse_simple_negative_number() {
    let input = r#"-42.sub(-20)"#;
    let expected = DewSchemaLanguageExpression::Chain(vec![
        DewSchemaLanguageExpression::Number("-42".into()),
        DewSchemaLanguageExpression::Call {
            method_name: "sub".into(),
            args: vec![DewSchemaLanguageExpression::Number("-20".into())],
        },
    ]);
    let result = DewSchemaLanguageParser::consume(input).unwrap();
    assert_eq!(result, expected);
}

#[test]
fn test_parse_complex_numbers() {
    let input = r#"-3.2e3.mul(1e20)"#;
    let expected = DewSchemaLanguageExpression::Chain(vec![
        DewSchemaLanguageExpression::Number("-3.2e3".into()),
        DewSchemaLanguageExpression::Call {
            method_name: "mul".into(),
            args: vec![DewSchemaLanguageExpression::Number("1e20".into())],
        },
    ]);
    let result = DewSchemaLanguageParser::consume(input).unwrap();
    assert_eq!(result, expected);
}

#[test]
fn test_parse_string_with_escape() {
    let input = r#"alert("hello, \"world\"!")"#;
    let expected = DewSchemaLanguageExpression::Call {
        method_name: "alert".into(),
        args: vec![DewSchemaLanguageExpression::StringLiteral(
            r#"hello, "world"!"#.into(),
        )],
    };
    let result = DewSchemaLanguageParser::consume(input).unwrap();
    assert_eq!(result, expected);
}

#[test]
fn test_parse_zero_argument_call() {
    let result = DewSchemaLanguageParser::consume("length()").unwrap();
    let expected = DewSchemaLanguageExpression::Call {
        method_name: "length".into(),
        args: vec![],
    };
    assert_eq!(result, expected);
}

#[test]
fn test_parse_argument_may_be_a_chain() {
    let result = DewSchemaLanguageParser::consume("f($.a)").unwrap();
    let expected = DewSchemaLanguageExpression::Call {
        method_name: "f".into(),
        args: vec![DewSchemaLanguageExpression::Chain(vec![
            DewSchemaLanguageExpression::Identifier("$".into()),
            DewSchemaLanguageExpression::Identifier("a".into()),
        ])],
    };
    assert_eq!(result, expected);
}

#[test]
fn test_parse_unexpected_token_at_start() {
    let result = DewSchemaLanguageParser::consume(",");
    assert_eq!(result, Err("Unexpected token: Some(Comma)".to_string()));
}

#[test]
fn test_parse_empty_input_is_an_error() {
    let result = DewSchemaLanguageParser::consume("");
    assert_eq!(result, Err("Unexpected token: None".to_string()));
}

#[test]
fn test_parse_unclosed_argument_list() {
    let result = DewSchemaLanguageParser::consume("f(1 2");
    assert_eq!(
        result,
        Err("Unexpected token in args: Some(Number(\"2\"))".to_string())
    );
}
