use boa_engine::JsValue;
use uiscript::engine::{Engine, EngineError, Expr, StoreVariable};

fn compile(engine: &mut Engine, source: &str) -> uiscript::engine::ParsedExpr {
    engine.parse(&Expr::new(String::from(source))).unwrap()
}

#[test]
fn in_range_literals_come_back_exactly() {
    let mut engine = Engine::new();

    let p = compile(&mut engine, "255");
    assert_eq!(engine.eval_u8(&p).unwrap(), 255);
    let p = compile(&mut engine, "127");
    assert_eq!(engine.eval_i8(&p).unwrap(), 127);
    let p = compile(&mut engine, "65535");
    assert_eq!(engine.eval_u16(&p).unwrap(), 65535);
    let p = compile(&mut engine, "32767");
    assert_eq!(engine.eval_i16(&p).unwrap(), 32767);
    let p = compile(&mut engine, "4294967295");
    assert_eq!(engine.eval_u32(&p).unwrap(), 4294967295);
    let p = compile(&mut engine, "2147483647");
    assert_eq!(engine.eval_i32(&p).unwrap(), 2147483647);
    let p = compile(&mut engine, "0");
    assert_eq!(engine.eval_u8(&p).unwrap(), 0);
    assert_eq!(engine.eval_i8(&p).unwrap(), 0);
    assert_eq!(engine.eval_u32(&p).unwrap(), 0);
}

#[test]
fn truthiness_follows_the_falsy_set() {
    let mut engine = Engine::new();

    let p = compile(&mut engine, "false");
    assert_eq!(engine.eval_bool(&p).unwrap(), false);
    let p = compile(&mut engine, "0");
    assert_eq!(engine.eval_bool(&p).unwrap(), false);
    let p = compile(&mut engine, "1");
    assert_eq!(engine.eval_bool(&p).unwrap(), true);
    let p = compile(&mut engine, "''");
    assert_eq!(engine.eval_bool(&p).unwrap(), false);
    let p = compile(&mut engine, "'a'");
    assert_eq!(engine.eval_bool(&p).unwrap(), true);
    let p = compile(&mut engine, "undefined");
    assert_eq!(engine.eval_bool(&p).unwrap(), false);
    let p = compile(&mut engine, "null");
    assert_eq!(engine.eval_bool(&p).unwrap(), false);
    let p = compile(&mut engine, "0/0");
    assert_eq!(engine.eval_bool(&p).unwrap(), false);
}

#[test]
fn out_of_range_results_reduce_by_modulo() {
    let mut engine = Engine::new();

    let p = compile(&mut engine, "300");
    assert_eq!(engine.eval_u8(&p).unwrap(), 44);
    let p = compile(&mut engine, "-1");
    assert_eq!(engine.eval_u8(&p).unwrap(), 255);
    assert_eq!(engine.eval_i8(&p).unwrap(), -1);
    assert_eq!(engine.eval_u32(&p).unwrap(), 4294967295);
    let p = compile(&mut engine, "130");
    assert_eq!(engine.eval_i8(&p).unwrap(), -126);
    let p = compile(&mut engine, "65536 + 5");
    assert_eq!(engine.eval_u16(&p).unwrap(), 5);
    let p = compile(&mut engine, "2147483648");
    assert_eq!(engine.eval_i32(&p).unwrap(), -2147483648);
}

#[test]
fn fractions_truncate_and_non_finite_goes_to_zero() {
    let mut engine = Engine::new();

    let p = compile(&mut engine, "3.7");
    assert_eq!(engine.eval_i32(&p).unwrap(), 3);
    let p = compile(&mut engine, "-3.7");
    assert_eq!(engine.eval_i32(&p).unwrap(), -3);
    let p = compile(&mut engine, "0/0");
    assert_eq!(engine.eval_u8(&p).unwrap(), 0);
    let p = compile(&mut engine, "1/0");
    assert_eq!(engine.eval_u32(&p).unwrap(), 0);
    let p = compile(&mut engine, "-1/0");
    assert_eq!(engine.eval_i16(&p).unwrap(), 0);
}

#[test]
fn non_finite_numeric_results_are_values_not_errors() {
    let mut engine = Engine::new();

    let p = compile(&mut engine, "0/0");
    assert!(f64::from_bits(engine.eval_number_bits(&p).unwrap()).is_nan());
    let p = compile(&mut engine, "1/0");
    assert_eq!(f64::from_bits(engine.eval_number_bits(&p).unwrap()), f64::INFINITY);
    let p = compile(&mut engine, "-1/0");
    assert_eq!(f64::from_bits(engine.eval_number_bits(&p).unwrap()), f64::NEG_INFINITY);
}

#[test]
fn bindings_are_read_live_not_snapshotted() {
    let mut engine = Engine::new();
    engine.set_variable("x", 5i32).unwrap();
    let p = compile(&mut engine, "x + 1");
    assert_eq!(engine.eval_i32(&p).unwrap(), 6);

    engine.set_variable("x", 10i32).unwrap();
    assert_eq!(engine.eval_i32(&p).unwrap(), 11);
}

#[test]
fn bound_variables_resist_scripted_writes() {
    let mut engine = Engine::new();
    engine.set_variable("x", 5i32).unwrap();

    let p = compile(&mut engine, "x = 99");
    assert_eq!(engine.eval_i32(&p).unwrap(), 99);

    let p = compile(&mut engine, "x");
    assert_eq!(engine.eval_i32(&p).unwrap(), 5);
}

#[test]
fn side_effects_repeat_on_every_evaluation() {
    let mut engine = Engine::new();
    let p = compile(&mut engine, "x = 0");
    assert_eq!(engine.eval_i32(&p).unwrap(), 0);

    let p = compile(&mut engine, "x = x + 1");
    let first = engine.eval_i32(&p).unwrap();
    let second = engine.eval_i32(&p).unwrap();
    assert_eq!(first, 1);
    assert_eq!(second, 2);
    assert_ne!(first, second);
    assert_eq!(second - first, 1);
}

#[test]
fn every_supported_type_binds() {
    let mut engine = Engine::new();
    engine.set_variable("b", true).unwrap();
    engine.set_variable("c", 'z').unwrap();
    engine.set_variable("pu8", 200u8).unwrap();
    engine.set_variable("pi8", -100i8).unwrap();
    engine.set_variable("pu16", 60000u16).unwrap();
    engine.set_variable("pi16", -30000i16).unwrap();
    engine.set_variable("pu32", 4000000000u32).unwrap();
    engine.set_variable("pi32", -2000000000i32).unwrap();
    engine.set_variable("pu64", 4294967296u64).unwrap();
    engine.set_variable("pi64", -4294967296i64).unwrap();

    let p = compile(&mut engine, "b");
    assert_eq!(engine.eval_bool(&p).unwrap(), true);
    let p = compile(&mut engine, "c === 'z'");
    assert_eq!(engine.eval_bool(&p).unwrap(), true);
    let p = compile(&mut engine, "pu8");
    assert_eq!(engine.eval_u8(&p).unwrap(), 200);
    let p = compile(&mut engine, "pi8");
    assert_eq!(engine.eval_i8(&p).unwrap(), -100);
    let p = compile(&mut engine, "pu16");
    assert_eq!(engine.eval_u16(&p).unwrap(), 60000);
    let p = compile(&mut engine, "pi16");
    assert_eq!(engine.eval_i16(&p).unwrap(), -30000);
    let p = compile(&mut engine, "pu32");
    assert_eq!(engine.eval_u32(&p).unwrap(), 4000000000);
    let p = compile(&mut engine, "pi32");
    assert_eq!(engine.eval_i32(&p).unwrap(), -2000000000);
    let p = compile(&mut engine, "pu64 === 4294967296");
    assert_eq!(engine.eval_bool(&p).unwrap(), true);
    let p = compile(&mut engine, "pi64 === -4294967296");
    assert_eq!(engine.eval_bool(&p).unwrap(), true);
}

#[test]
fn structured_values_bind_member_by_member() {
    let mut engine = Engine::new();
    let mut map = serde_json::Map::new();
    map.insert(String::from("a"), serde_json::Value::from(1));
    map.insert(String::from("b"), serde_json::Value::from(vec![2, 3]));
    engine.set_variable("obj", serde_json::Value::Object(map)).unwrap();

    let p = compile(&mut engine, "obj.a + obj.b[1]");
    assert_eq!(engine.eval_i32(&p).unwrap(), 4);
}

#[test]
fn dynamic_values_bind_directly() {
    let mut engine = Engine::new();
    engine.set_variable("f", JsValue::from(2.5f64)).unwrap();

    let p = compile(&mut engine, "f * 2");
    let bits = engine.eval_number_bits(&p).unwrap();
    assert_eq!(f64::from_bits(bits), 5.0);
}

#[test]
fn rebinding_the_same_key_is_allowed() {
    let mut engine = Engine::new();
    engine.set_variable("x", 5i32).unwrap();
    engine.set_variable("x", true).unwrap();

    let p = compile(&mut engine, "x");
    assert_eq!(engine.eval_bool(&p).unwrap(), true);
}

#[test]
fn runtime_faults_surface_as_errors() {
    let mut engine = Engine::new();
    let p = compile(&mut engine, "no_such_name");
    let err = engine.eval_i32(&p).unwrap_err();
    assert!(matches!(err, EngineError::JsError(_)));

    let p = compile(&mut engine, "(() => { throw 'boom'; })()");
    assert!(engine.eval_bool(&p).is_err());
    assert!(engine.eval_number_bits(&p).is_err());
}

#[test]
fn compilation_consumes_context_scoped_declarations() {
    // Parsing registers top-level lexical declarations in the context, so
    // the same valid text can compile once and be rejected the second
    // time; only invalid text is guaranteed to fail.
    let mut engine = Engine::new();
    assert!(engine.parse(&Expr::new(String::from("let a = 1"))).is_ok());
    assert!(engine.parse(&Expr::new(String::from("let a = 1"))).is_err());
}

#[test]
fn parse_failures_surface_the_diagnostic() {
    let mut engine = Engine::new();
    let err = engine.parse(&Expr::new(String::from("{;"))).unwrap_err();
    assert!(matches!(err, EngineError::JsError(_)));
}

#[test]
fn expressions_keep_their_source_text() {
    let expr = Expr::new(String::from("a + b"));
    let copy = expr.clone();
    assert_eq!(expr.js_code, "a + b");
    assert_eq!(copy.js_code, "a + b");
}
