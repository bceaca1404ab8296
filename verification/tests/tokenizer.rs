use dew_schema_language::tokenizer::{tokenize, DewSchemaLanguageToken};

#[test]
fn test_tokenize_simple() {
    let input = r#"foo.bar(123, "hello")"#;
    let expected = vec![
        DewSchemaLanguageToken::Identifier("foo".into()),
        DewSchemaLanguageToken::Dot,
        DewSchemaLanguageToken::Identifier("bar".into()),
        DewSchemaLanguageToken::LeftParenthesis,
        DewSchemaLanguageToken::Number("123".into()),
        DewSchemaLanguageToken::Comma,
        DewSchemaLanguageToken::StringLiteral("hello".into()),
        DewSchemaLanguageToken::RightParenthesis,
    ];
    let result = tokenize(input).unwrap();
    assert_eq!(result, expected);
}

#[test]
fn test_tokenize_with_whitespace() {
    let input = r#"foo(
    bar(
        "Hello, World!"
    , 42)
)"#;
    let expected = vec![
        DewSchemaLanguageToken::Identifier("foo".into()),
        DewSchemaLanguageToken::LeftParenthesis,
        DewSchemaLanguageToken::Identifier("bar".into()),
        DewSchemaLanguageToken::LeftParenthesis,
        DewSchemaLanguageToken::StringLiteral("Hello, World!".into()),
        DewSchemaLanguageToken::Comma,
        DewSchemaLanguageToken::Number("42".into()),
        DewSchemaLanguageToken::RightParenthesis,
        DewSchemaLanguageToken::RightParenthesis,
    ];
    let result = tokenize(input).unwrap();
    assert_eq!(result, expected);
}

#[test]
fn test_tokenize_simple_number() {
    let input = r#"add(42, 38)"#;
    let expected = vec![
        DewSchemaLanguageToken::Identifier("add".into()),
        DewSchemaLanguageToken::LeftParenthesis,
        DewSchemaLanguageToken::Number("42".into()),
        DewSchemaLanguageToken::Comma,
        DewSchemaLanguageToken::Number("38".into()),
        DewSchemaLanguageToken::RightParenthesis,
    ];
    let result = tokenize(input).unwrap();
    assert_eq!(result, expected);
}

#[test]
fn test_tokenize_simple_negative_number() {
    let input = r#"-42.sub(-20)"#;
    let expected = vec![
        DewSchemaLanguageToken::Number("-42".into()),
        DewSchemaLanguageToken::Dot,
        DewSchemaLanguageToken::Identifier("sub".into()),
        DewSchemaLanguageToken::LeftParenthesis,
        DewSchemaLanguageToken::Number("-20".into()),
        DewSchemaLanguageToken::RightParenthesis,
    ];
    let result = tokenize(input).unwrap();
    assert_eq!(result, expected);
}

#[test]
fn test_tokenize_complex_numbers() {
    let input = r#"-3.2e3.mul(1e20)"#;
    let expected = vec![
        DewSchemaLanguageToken::Number("-3.2e3".into()),
        DewSchemaLanguageToken::Dot,
        DewSchemaLanguageToken::Identifier("mul".into()),
        DewSchemaLanguageToken::LeftParenthesis,
        DewSchemaLanguageToken::Number("1e20".into()),
        DewSchemaLanguageToken::RightParenthesis,
    ];
    let result = tokenize(input).unwrap();
    assert_eq!(result, expected);
}

#[test]
fn test_tokenize_string_with_escape() {
    let input = r#"alert("hello, \"world\"!")"#;
    let expected = vec![
        DewSchemaLanguageToken::Identifier("alert".into()),
        DewSchemaLanguageToken::LeftParenthesis,
        DewSchemaLanguageToken::StringLiteral(r#"hello, "world"!"#.into()),
        DewSchemaLanguageToken::RightParenthesis,
    ];
    let result = tokenize(input).unwrap();
    assert_eq!(result, expected);
}

#[test]
fn test_tokenize_unterminated_string_runs_to_end() {
    let input = r#""abc"#;
    let expected = vec![DewSchemaLanguageToken::StringLiteral("abc".into())];
    let result = tokenize(input).unwrap();
    assert_eq!(result, expected);
}

#[test]
fn test_tokenize_unexpected_character() {
    let result = tokenize("foo # bar");
    assert_eq!(result, Err("Unexpected character: #".to_string()));
}

#[test]
fn test_tokenize_lone_minus_is_a_number_token() {
    let result = tokenize("-").unwrap();
    assert_eq!(result, vec![DewSchemaLanguageToken::Number("-".into())]);
}

#[test]
fn test_tokenize_dollar_identifiers() {
    let result = tokenize("$.a$b_c").unwrap();
    assert_eq!(
        result,
        vec![
            DewSchemaLanguageToken::Identifier("$".into()),
            DewSchemaLanguageToken::Dot,
            DewSchemaLanguageToken::Identifier("a$b_c".into()),
        ]
    );
}

#[test]
fn test_tokenize_dot_after_number_without_digit_is_chain_dot() {
    let result = tokenize("42.foo").unwrap();
    assert_eq!(
        result,
        vec![
            DewSchemaLanguageToken::Number("42".into()),
            DewSchemaLanguageToken::Dot,
            DewSchemaLanguageToken::Identifier("foo".into()),
        ]
    );
}
