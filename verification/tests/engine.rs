use dew_schema_language::engine::{
    ConstHosts, DewSchemaLanguageEngine, DewSchemaLanguageResult, NoHosts,
};

#[test]
fn test_evaluate_number() {
    let engine = DewSchemaLanguageEngine::new("{}".into(), NoHosts).unwrap();
    let result = engine.evaluate("42".into()).unwrap();
    match result {
        DewSchemaLanguageResult::Number(n) => assert_eq!(n, 42.0_f64.to_bits()),
        _ => panic!("Expected number"),
    }
}

#[test]
fn test_evaluate_string() {
    let engine = DewSchemaLanguageEngine::new("{}".into(), NoHosts).unwrap();
    let result = engine.evaluate(r#""hello""#.into()).unwrap();
    match result {
        DewSchemaLanguageResult::String(s) => assert_eq!(s, "hello"),
        _ => panic!("Expected string"),
    }
}

#[test]
fn test_evaluate_identifier() {
    let engine =
        DewSchemaLanguageEngine::new(r#"{"foo": {"bar": 123}}"#.into(), NoHosts).unwrap();
    let result = engine.evaluate("$.foo.bar".into()).unwrap();
    match result {
        DewSchemaLanguageResult::Number(n) => assert_eq!(n, 123.0_f64.to_bits()),
        _ => panic!("Expected number"),
    }
}

#[test]
fn test_evaluate_call() {
    let input = r#"{"foo": {"bar": 100, "baz": [1, 2, 3, 4, 5]}}"#;

    let engine = DewSchemaLanguageEngine::new(input.to_string(), NoHosts).unwrap();

    let first_evaluate = engine
        .evaluate("$.foo.bar.percent(10).equal(10)".to_string())
        .unwrap();

    let first_expected = DewSchemaLanguageResult::Boolean(true);

    assert_eq!(first_evaluate, first_expected);

    let second_evaluate = engine
        .evaluate("$.foo.baz.length().equal(5)".to_string())
        .unwrap();

    let second_expected = DewSchemaLanguageResult::Boolean(true);
    assert_eq!(second_evaluate, second_expected);
}

#[test]
fn test_evaluate_host_function() {
    let mut host_functions = ConstHosts::new();
    host_functions.insert(
        "vault_id".into(),
        DewSchemaLanguageResult::String("dewvault.near".into()),
    );

    let input = r#"{"account_id": "dewvault.near", "receiver_id": "some_other_account.near"}"#;

    let engine = DewSchemaLanguageEngine::new(input.to_string(), host_functions).unwrap();

    let first_evaluate = engine
        .evaluate("$.account_id.equal(vault_id())".to_string())
        .unwrap();
    let first_expected = DewSchemaLanguageResult::Boolean(true);
    assert_eq!(first_evaluate, first_expected);

    let second_evaluate = engine
        .evaluate("$.receiver_id.equal(vault_id())".to_string())
        .unwrap();
    let second_expected = DewSchemaLanguageResult::Boolean(false);
    assert_eq!(second_evaluate, second_expected);

    let third_evaluate = engine
        .evaluate("vault_id().equal($.account_id)".to_string())
        .unwrap();
    let third_expected = DewSchemaLanguageResult::Boolean(true);
    assert_eq!(third_evaluate, third_expected);
}

#[test]
fn test_invalid_document_is_a_construction_error() {
    let result = DewSchemaLanguageEngine::new("{not json".into(), NoHosts);
    match result {
        Err(m) => assert_eq!(m, "Invalid JSON document"),
        Ok(_) => panic!("Expected a construction error"),
    }
}
