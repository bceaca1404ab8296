use dew_schema_language::engine::{
    ConstHosts, DewSchemaLanguageEngine, DewSchemaLanguageResult, NoHosts,
};
use dew_schema_language::methods::string;
use dew_schema_language::methods::cores;
use dew_schema_language::methods::math;
use dew_schema_language::methods::array;
use dew_schema_language::methods::alias;

fn empty_engine() -> DewSchemaLanguageEngine<NoHosts> {
    DewSchemaLanguageEngine::new("{}".into(), NoHosts).unwrap()
}

fn num(x: f64) -> DewSchemaLanguageResult {
    DewSchemaLanguageResult::Number(x.to_bits())
}

#[test]
fn test_arithmetic_builtins() {
    let engine = empty_engine();
    assert_eq!(engine.evaluate("1.add(2)".into()).unwrap(), num(3.0));
    assert_eq!(engine.evaluate("5.subtract(2)".into()).unwrap(), num(3.0));
    assert_eq!(engine.evaluate("6.multiply(7)".into()).unwrap(), num(42.0));
    assert_eq!(engine.evaluate("10.divide(4)".into()).unwrap(), num(2.5));
    assert_eq!(engine.evaluate("200.percent(50)".into()).unwrap(), num(100.0));
    assert_eq!(engine.evaluate("2.gte(1)".into()).unwrap(), DewSchemaLanguageResult::Boolean(true));
    assert_eq!(engine.evaluate("2.lte(1)".into()).unwrap(), DewSchemaLanguageResult::Boolean(false));
    assert_eq!(engine.evaluate(r#""2.5".to_number()"#.into()).unwrap(), num(2.5));
}

#[test]
fn test_divide_by_zero_hard_errors() {
    let engine = empty_engine();
    let expected = Err("Division by zero is not allowed".to_string());
    assert_eq!(engine.evaluate("10.divide(0)".into()), expected);
    assert_eq!(engine.evaluate("0.divide(0)".into()), expected);
    assert_eq!(engine.evaluate("10.divide(-0)".into()), expected);
}

#[test]
fn test_equal_is_reflexive_and_bit_exact() {
    let engine =
        DewSchemaLanguageEngine::new(r#"{"foo": {"a": [1, {"b": null}]}}"#.into(), NoHosts)
            .unwrap();
    assert_eq!(
        engine.evaluate("$.foo.equal($.foo)".into()).unwrap(),
        DewSchemaLanguageResult::Boolean(true)
    );
    assert_eq!(
        engine.evaluate("42.equal(42.0)".into()).unwrap(),
        DewSchemaLanguageResult::Boolean(true)
    );
    assert_eq!(
        engine.evaluate("42.equal(43)".into()).unwrap(),
        DewSchemaLanguageResult::Boolean(false)
    );
    assert_eq!(
        engine.evaluate(r#""a".equal(1)"#.into()).unwrap(),
        DewSchemaLanguageResult::Boolean(false)
    );
}

#[test]
fn test_get_index_scenarios() {
    let engine = DewSchemaLanguageEngine::new("[1, 2, 3, 4, 5]".into(), NoHosts).unwrap();
    assert_eq!(engine.evaluate("$.get_index(-1)".into()).unwrap(), num(5.0));
    assert_eq!(
        engine.evaluate("$.get_index(10)".into()),
        Err("Index out of bounds".to_string())
    );
    assert_eq!(
        engine.evaluate("$.get_index(-1)".into()),
        engine.evaluate("$.get_index(4)".into())
    );
    assert_eq!(
        engine.evaluate("$.get_index(5)".into()),
        Err("Index out of bounds".to_string())
    );
    assert_eq!(
        engine.evaluate("$.get_index(-6)".into()),
        Err("Index out of bounds".to_string())
    );
    assert_eq!(
        engine.evaluate("$.get_index(1.5)".into()),
        Err("Index must be an integer".to_string())
    );
}

#[test]
fn test_host_function_shadows_builtin() {
    let mut hosts = ConstHosts::new();
    hosts.insert(
        "length".into(),
        DewSchemaLanguageResult::String("shadowed".into()),
    );
    let shadowed = DewSchemaLanguageEngine::new("{}".into(), hosts).unwrap();
    assert_eq!(
        shadowed.evaluate("length()".into()).unwrap(),
        DewSchemaLanguageResult::String("shadowed".into())
    );
    let plain = empty_engine();
    assert_eq!(
        plain.evaluate("length()".into()),
        Err("Cannot call 'length' on null".to_string())
    );
}

#[test]
fn test_boolean_accumulation() {
    let engine = DewSchemaLanguageEngine::new(r#"{"t": true, "f": false}"#.into(), NoHosts)
        .unwrap();
    assert_eq!(
        engine.evaluate("$.t.and($.t, $.t)".into()).unwrap(),
        DewSchemaLanguageResult::Boolean(true)
    );
    assert_eq!(
        engine.evaluate("$.t.and($.f)".into()).unwrap(),
        DewSchemaLanguageResult::Boolean(false)
    );
    assert_eq!(
        engine.evaluate("$.f.or($.t)".into()).unwrap(),
        DewSchemaLanguageResult::Boolean(true)
    );
    assert_eq!(
        engine.evaluate("or($.f)".into()).unwrap(),
        DewSchemaLanguageResult::Boolean(false)
    );
    assert_eq!(
        engine.evaluate("and($.t)".into()).unwrap(),
        DewSchemaLanguageResult::Boolean(true)
    );
    assert_eq!(
        engine.evaluate("$.t.and(1)".into()),
        Err("'and' method expects boolean arguments".to_string())
    );
}

#[test]
fn test_json_builtin() {
    let engine = empty_engine();
    assert_eq!(
        engine
            .evaluate(r#""{\"a\": 7}".json().a"#.into())
            .unwrap(),
        num(7.0)
    );
    assert_eq!(
        engine.evaluate(r#""not json".json()"#.into()),
        Err("Failed to parse JSON".to_string())
    );
    assert_eq!(
        engine.evaluate(r#""3.5".json()"#.into()).unwrap(),
        num(3.5)
    );
    // a primitive scalar always unwraps, a JSON null included
    assert_eq!(
        engine.evaluate(r#""null".json()"#.into()).unwrap(),
        DewSchemaLanguageResult::Null
    );
}

#[test]
fn test_membership() {
    let engine = DewSchemaLanguageEngine::new(r#"{"xs": [1, 2, 3]}"#.into(), NoHosts).unwrap();
    // the callee is an unwrapped number while the array holds boxed JSON
    // values, so membership compares across variants and is false
    assert_eq!(
        engine.evaluate("2.in($.xs)".into()).unwrap(),
        DewSchemaLanguageResult::Boolean(false)
    );
    assert_eq!(
        engine.evaluate("$.xs.in(array($.xs))".into()).unwrap(),
        DewSchemaLanguageResult::Boolean(true)
    );
    assert_eq!(
        engine.evaluate("2.in(2)".into()),
        Err("'in' method expects an array as argument".to_string())
    );
}

#[test]
fn test_assertion_aliases() {
    let engine = DewSchemaLanguageEngine::new(r#"{"a": 5}"#.into(), NoHosts).unwrap();
    assert_eq!(
        engine.evaluate("$.a.assert_equal(5)".into()).unwrap(),
        DewSchemaLanguageResult::Boolean(true)
    );
    assert_eq!(
        engine.evaluate("$.a.assert_equal(6)".into()),
        Err("assert_equal failed: the values are not equal".to_string())
    );
    assert_eq!(
        engine.evaluate("$.a.assert_gte(4)".into()).unwrap(),
        DewSchemaLanguageResult::Boolean(true)
    );
    assert_eq!(
        engine.evaluate("$.a.assert_lte(4)".into()),
        Err("assert_lte failed: the callee is not less than or equal to the argument".to_string())
    );
    assert_eq!(
        engine
            .evaluate(r#""AbC".assert_case_insensitive_equal("aBc")"#.into())
            .unwrap(),
        DewSchemaLanguageResult::Boolean(true)
    );
}

#[test]
fn test_string_table_is_not_dispatched() {
    // the dispatch order is host, alias, core, math, array: the string
    // table's own entries are reached only through the assertion alias
    let engine = empty_engine();
    assert_eq!(
        engine.evaluate(r#""AbC".to_lowercase()"#.into()),
        Err("Unknown method: to_lowercase".to_string())
    );
}

#[test]
fn test_string_table_functions() {
    let args: Vec<DewSchemaLanguageResult> = vec![];
    let callee = DewSchemaLanguageResult::String("AbC".into());
    assert_eq!(
        string::apply("to_lowercase", &args, Some(&callee)),
        Ok(DewSchemaLanguageResult::String("abc".into()))
    );
    assert_eq!(
        string::apply("to_uppercase", &args, Some(&callee)),
        Ok(DewSchemaLanguageResult::String("ABC".into()))
    );
    let one = vec![DewSchemaLanguageResult::String("aBc".into())];
    assert_eq!(
        string::apply("case_insensitive_equal", &one, Some(&callee)),
        Ok(DewSchemaLanguageResult::Boolean(true))
    );
    let parts = vec![
        DewSchemaLanguageResult::String("b".into()),
        DewSchemaLanguageResult::String("c".into()),
    ];
    let prefix = DewSchemaLanguageResult::String("a".into());
    assert_eq!(
        string::apply("concat", &parts, Some(&prefix)),
        Ok(DewSchemaLanguageResult::String("abc".into()))
    );
}

#[test]
fn test_error_variants() {
    let engine = empty_engine();
    assert_eq!(
        engine.evaluate("nope".into()),
        Err("Unknown identifier: nope".to_string())
    );
    assert_eq!(
        engine.evaluate("nope()".into()),
        Err("Unknown method: nope".to_string())
    );
    assert_eq!(
        engine.evaluate("42.nope".into()),
        Err("Cannot access property 'nope' on non-object".to_string())
    );
    assert_eq!(
        engine.evaluate("item".into()),
        Err("No active item binding".to_string())
    );
    assert_eq!(
        engine.evaluate("-".into()),
        Err("invalid float literal".to_string())
    );
    assert_eq!(
        engine.evaluate("4 @".into()),
        Err("Unexpected character: @".to_string())
    );
    assert_eq!(
        engine.evaluate("equal(1)".into()),
        Err("Cannot call 'equal' on null".to_string())
    );
    assert_eq!(
        engine.evaluate("1.equal()".into()),
        Err("'equal' method expects exactly one argument".to_string())
    );
}

#[test]
fn test_type_errors() {
    let engine = empty_engine();
    assert_eq!(
        engine.evaluate(r#""x".gte(1)"#.into()),
        Err("'gte' method expects numeric arguments".to_string())
    );
    assert_eq!(
        engine.evaluate("1.add(true())".into()),
        Err("Unknown method: true".to_string())
    );
    assert_eq!(
        engine.evaluate(r#""abc".to_number()"#.into()),
        Err("'to_number' method expects a number or string".to_string())
    );
    assert_eq!(
        engine.evaluate("1.length()".into()),
        Err("'length' method expects an array or string as callee".to_string())
    );
    assert_eq!(
        engine.evaluate("1.json()".into()),
        Err("'json' method can only be called on strings".to_string())
    );
    // the string table is not in the dispatch order, so even a string
    // method name on a wrong callee is an unknown method
    assert_eq!(
        engine.evaluate(r#"1.concat("a")"#.into()),
        Err("Unknown method: concat".to_string())
    );
    let args = vec![DewSchemaLanguageResult::String("a".into())];
    let bad_callee = DewSchemaLanguageResult::Boolean(true);
    assert_eq!(
        string::apply("concat", &args, Some(&bad_callee)),
        Err("'concat' method can only be called on strings".to_string())
    );
}

#[test]
fn test_missing_key_is_undefined() {
    let engine = DewSchemaLanguageEngine::new(r#"{"a": 1}"#.into(), NoHosts).unwrap();
    assert_eq!(
        engine.evaluate("$.missing".into()).unwrap(),
        DewSchemaLanguageResult::Undefined
    );
}

#[test]
fn test_root_scalar_coercion() {
    let engine = DewSchemaLanguageEngine::new("true".into(), NoHosts).unwrap();
    assert_eq!(
        engine.evaluate("$".into()).unwrap(),
        DewSchemaLanguageResult::Boolean(true)
    );
    let engine = DewSchemaLanguageEngine::new("null".into(), NoHosts).unwrap();
    assert_eq!(
        engine.evaluate("$".into()).unwrap(),
        DewSchemaLanguageResult::Null
    );
    let engine = DewSchemaLanguageEngine::new("-3".into(), NoHosts).unwrap();
    assert_eq!(engine.evaluate("$".into()).unwrap(), num(-3.0));
    let engine = DewSchemaLanguageEngine::new(r#""hi""#.into(), NoHosts).unwrap();
    assert_eq!(
        engine.evaluate("$".into()).unwrap(),
        DewSchemaLanguageResult::String("hi".into())
    );
}

#[test]
fn test_scientific_number_evaluation() {
    let engine = empty_engine();
    assert_eq!(engine.evaluate("-3.2e3".into()).unwrap(), num(-3200.0));
    assert_eq!(engine.evaluate("1e20".into()).unwrap(), num(1e20));
}

#[test]
fn test_table_name_lists() {
    assert!(cores::functions().iter().any(|n| n == "equal"));
    assert!(math::functions().iter().any(|n| n == "divide"));
    assert!(array::functions().iter().any(|n| n == "get_index"));
    assert!(alias::functions().iter().any(|n| n == "assert_equal"));
    assert!(string::functions().iter().any(|n| n == "concat"));
}

#[test]
fn test_array_builtin() {
    let engine = empty_engine();
    assert_eq!(
        engine.evaluate("array(1, 2).length()".into()).unwrap(),
        num(2.0)
    );
    assert_eq!(
        engine.evaluate("1.array(2)".into()),
        Err("Cannot call 'array' on other objects".to_string())
    );
}
