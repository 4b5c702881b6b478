use cli_framework::spec::json::Json;
use cli_framework::spec::value::ArgValue;
use cli_framework::tool_args::{ints_fit_i64, json_value_to_arg_value};

#[test]
fn scalars_convert() {
    assert!(matches!(json_value_to_arg_value(&Json::Bool(true)), Some(ArgValue::Bool(true))));
    assert!(matches!(json_value_to_arg_value(&Json::Int(-4)), Some(ArgValue::Int(-4))));
    assert!(matches!(json_value_to_arg_value(&Json::UInt(7)), Some(ArgValue::Int(7))));
    match json_value_to_arg_value(&Json::Float(2.5f64.to_bits())) {
        Some(ArgValue::Float(b)) => assert_eq!(f64::from_bits(b), 2.5),
        other => panic!("unexpected {other:?}"),
    }
    match json_value_to_arg_value(&Json::Str("x".to_string())) {
        Some(ArgValue::Str(s)) => assert_eq!(s, "x"),
        other => panic!("unexpected {other:?}"),
    }
    assert!(json_value_to_arg_value(&Json::Null).is_none());
    assert!(json_value_to_arg_value(&Json::Object(vec![])).is_none());
}

#[test]
fn arrays_keep_what_converts() {
    let v = Json::Array(vec![Json::Int(1), Json::Null, Json::Str("a".to_string())]);
    match json_value_to_arg_value(&v) {
        Some(ArgValue::List(items)) => {
            assert_eq!(items.len(), 2);
            assert!(matches!(items[0], ArgValue::Int(1)));
        }
        other => panic!("unexpected {other:?}"),
    }
}

#[test]
fn big_unsigned_numbers_are_flagged() {
    assert!(ints_fit_i64(&Json::UInt(i64::MAX as u64)));
    assert!(!ints_fit_i64(&Json::Array(vec![Json::UInt(u64::MAX)])));
}
