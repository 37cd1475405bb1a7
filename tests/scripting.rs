use rhai::Dynamic;
use serde_json::{Number, Value};
use script_helper::bridge::convert;
use script_helper::helper::{FileScriptHelper, ScriptHelper};
use script_helper::invoke::{build_scope, finish, result_text, run_script, text_to_host, ScriptError};

fn no_hash() -> serde_json::Map<String, Value> {
    serde_json::Map::new()
}

fn hash_of(entries: &[(&str, Value)]) -> serde_json::Map<String, Value> {
    let mut m = serde_json::Map::new();
    for (k, v) in entries {
        m.insert(k.to_string(), v.clone());
    }
    m
}

fn round_trip(v: &Value) -> Value {
    text_to_host(result_text(convert(v)))
}

#[test]
fn convert_primitives() {
    assert!(convert(&Value::Null).is_unit());
    assert_eq!(convert(&Value::Bool(true)).as_bool(), Ok(true));
    assert_eq!(convert(&Value::from(42)).as_int(), Ok(42));
    assert_eq!(convert(&Value::from(-7)).as_int(), Ok(-7));
    assert_eq!(convert(&Value::String("abc".to_string())).into_string(), Ok("abc".to_string()));
}

#[test]
fn convert_large_unsigned_is_float() {
    let d = convert(&Value::from(u64::MAX));
    assert!(d.as_int().is_err());
    assert_eq!(d.as_float(), Ok(u64::MAX as f64));
    assert_eq!(convert(&Value::from(i64::MAX)).as_int(), Ok(i64::MAX));
}

#[test]
fn hash_keys_come_in_ascending_order() {
    let engine = rhai::Engine::new();
    let hash = hash_of(&[("b", Value::from(1)), ("a", Value::from(2))]);
    let r = run_script(&engine, "hash.keys()[0]", &Vec::new(), &hash).unwrap();
    assert_eq!(r, Value::String("a".to_string()));
}

#[test]
fn array_result_is_read_back() {
    let h = ScriptHelper::new("[params[0], params[0] + 1]".to_string());
    let r = h.call(&vec![Value::from(4)], &no_hash()).unwrap();
    assert_eq!(r, Some(Value::Array(vec![Value::from(4), Value::from(5)])));
}

#[test]
fn convert_float_is_float() {
    let d = convert(&Value::Number(Number::from_f64(1.5).unwrap()));
    assert_eq!(d.as_float(), Ok(1.5));
}

#[test]
fn convert_nested() {
    let v = Value::Array(vec![Value::from(1), Value::Array(vec![Value::Bool(false)])]);
    let d = convert(&v);
    let a = d.into_array().unwrap();
    assert_eq!(a.len(), 2);
    assert_eq!(a[0].as_int(), Ok(1));
    let inner = a[1].clone().into_array().unwrap();
    assert_eq!(inner.len(), 1);
    assert_eq!(inner[0].as_bool(), Ok(false));

    let mut m = serde_json::Map::new();
    m.insert("k".to_string(), Value::String("v".to_string()));
    m.insert("n".to_string(), Value::Null);
    let d = convert(&Value::Object(m));
    let t = d.cast::<rhai::Map>();
    assert_eq!(t.len(), 2);
    assert_eq!(t.get("k").unwrap().clone().into_string(), Ok("v".to_string()));
    assert!(t.get("n").unwrap().is_unit());
}

#[test]
fn convert_leaves_value_unchanged() {
    let v = Value::Array(vec![Value::from(1), Value::String("x".to_string())]);
    let before = v.clone();
    let _ = convert(&v);
    assert_eq!(v, before);
}

#[test]
fn round_trip_primitives() {
    for v in [
        Value::Bool(true),
        Value::Bool(false),
        Value::from(42),
        Value::from(-3),
        Value::String("hello".to_string()),
    ] {
        assert_eq!(round_trip(&v), v);
    }
}

#[test]
fn round_trip_array_of_numbers() {
    let v = Value::Array(vec![Value::from(1), Value::from(2), Value::from(3)]);
    assert_eq!(round_trip(&v), v);
}

#[test]
fn params_bound_in_order() {
    let engine = rhai::Engine::new();
    let params = vec![Value::from(1), Value::String("a".to_string()), Value::Bool(true)];
    let run = |s: &str| run_script(&engine, s, &params, &no_hash()).unwrap();
    assert_eq!(run("params.len()"), Value::from(3));
    assert_eq!(run("params[0]"), Value::from(1));
    assert_eq!(run("params[1]"), Value::String("a".to_string()));
    assert_eq!(run("params[2]"), Value::Bool(true));
}

#[test]
fn hash_bound_by_key() {
    let engine = rhai::Engine::new();
    let hash = hash_of(&[("x", Value::from(5))]);
    let run = |s: &str| run_script(&engine, s, &Vec::new(), &hash).unwrap();
    assert_eq!(run("hash.len()"), Value::from(1));
    assert_eq!(run("hash.x"), Value::from(5));
    assert_eq!(run("hash.keys()[0]"), Value::String("x".to_string()));
}

#[test]
fn scope_binds_only_params_and_hash() {
    let params = vec![Value::from(1)];
    let hash = hash_of(&[("x", Value::from(5))]);
    let scope = build_scope(&params, &hash);
    assert_eq!(scope.len(), 2);
    assert!(scope.contains("params"));
    assert!(scope.contains("hash"));
}

#[test]
fn inline_script_returns_number() {
    let h = ScriptHelper::new("params[0]".to_string());
    let r = h.call(&vec![Value::from(42)], &no_hash()).unwrap();
    assert_eq!(r, Some(Value::from(42)));
}

#[test]
fn inline_source_is_kept() {
    let h = ScriptHelper::new("1 + 1".to_string());
    assert_eq!(h.get_source(), "1 + 1");
    assert_eq!(h.call(&Vec::new(), &no_hash()).unwrap(), Some(Value::from(2)));
}

#[test]
fn string_result_that_spells_json_is_parsed() {
    let h = ScriptHelper::new("`{\"a\": [1, 2]}`".to_string());
    let r = h.call(&Vec::new(), &no_hash()).unwrap().unwrap();
    let mut m = serde_json::Map::new();
    m.insert("a".to_string(), Value::Array(vec![Value::from(1), Value::from(2)]));
    assert_eq!(r, Value::Object(m));
}

#[test]
fn string_result_that_is_not_json_stays_text() {
    let h = ScriptHelper::new("\"hello \" + params[0]".to_string());
    let r = h.call(&vec![Value::String("world".to_string())], &no_hash()).unwrap();
    assert_eq!(r, Some(Value::String("hello world".to_string())));
}

#[test]
fn unit_result_is_empty_text() {
    assert_eq!(result_text(Dynamic::UNIT), "");
    assert_eq!(text_to_host(String::new()), Value::String(String::new()));
}

#[test]
fn bool_result_text() {
    assert_eq!(result_text(Dynamic::from_bool(false)), "false");
    assert_eq!(text_to_host("false".to_string()), Value::Bool(false));
}

#[test]
fn runtime_error_is_call_failure() {
    let h = ScriptHelper::new("throw \"boom\"".to_string());
    let r = h.call(&Vec::new(), &no_hash());
    assert!(matches!(r, Err(ScriptError::Eval(_))));
}

#[test]
fn parse_error_is_call_failure() {
    let h = ScriptHelper::new("let x = ;".to_string());
    assert!(matches!(h.call(&Vec::new(), &no_hash()), Err(ScriptError::Eval(_))));
}

#[test]
fn finish_maps_engine_error() {
    let r = finish(Err("bad".to_string()));
    assert_eq!(r, Err(ScriptError::Eval("bad".to_string())));
    let r = finish(Ok(Dynamic::from("7".to_string())));
    assert_eq!(r, Ok(Value::from(7)));
}

#[test]
fn cached_file_helper_keeps_first_text() {
    let h = FileScriptHelper::new(std::path::PathBuf::from("helper.rhai"), "1".to_string(), true);
    assert!(!h.needs_read());
    assert_eq!(h.get_source(Some(Ok("2".to_string()))), Ok("1".to_string()));
    assert_eq!(h.get_source(None), Ok("1".to_string()));
    let r = h.call(Some(Ok("2".to_string())), &Vec::new(), &no_hash()).unwrap();
    assert_eq!(r, Some(Value::from(1)));
}

#[test]
fn uncached_file_helper_uses_fresh_text() {
    let h = FileScriptHelper::new(std::path::PathBuf::from("helper.rhai"), "1".to_string(), false);
    assert!(h.needs_read());
    assert_eq!(h.file_path(), &std::path::PathBuf::from("helper.rhai"));
    assert_eq!(h.get_source(Some(Ok("2".to_string()))), Ok("2".to_string()));
    let r = h.call(Some(Ok("2".to_string())), &Vec::new(), &no_hash()).unwrap();
    assert_eq!(r, Some(Value::from(2)));
}

#[test]
fn uncached_read_failure_is_per_call() {
    let h = FileScriptHelper::new(std::path::PathBuf::from("missing.rhai"), String::new(), false);
    let r = h.call(Some(Err("not found".to_string())), &Vec::new(), &no_hash());
    assert_eq!(r, Err(ScriptError::Io("not found".to_string())));
    assert!(matches!(h.get_source(None), Err(ScriptError::Io(_))));
    let r = h.call(Some(Ok("3".to_string())), &Vec::new(), &no_hash());
    assert_eq!(r, Ok(Some(Value::from(3))));
}

#[test]
fn interleaved_calls_see_their_own_arguments() {
    let h = FileScriptHelper::new(std::path::PathBuf::from("sum.rhai"), "params[0] * 10 + hash.k".to_string(), true);
    let mut results = Vec::new();
    for i in 0..8i64 {
        let hash = hash_of(&[("k", Value::from(i))]);
        results.push(h.call(None, &vec![Value::from(i)], &hash).unwrap().unwrap());
    }
    for (i, r) in results.iter().enumerate() {
        assert_eq!(*r, Value::from(i as i64 * 11));
    }
}

fn shareable<T: Send + Sync>() {}

#[test]
fn helpers_can_be_shared_between_threads() {
    shareable::<ScriptHelper>();
    shareable::<FileScriptHelper>();
    shareable::<rhai::Engine>();
}

#[test]
fn char_result_is_its_text() {
    let h = ScriptHelper::new("'x'".to_string());
    assert_eq!(h.call(&Vec::new(), &no_hash()).unwrap(), Some(Value::String("x".to_string())));
}
