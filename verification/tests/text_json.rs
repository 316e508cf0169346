use datalogic_rs::json::{data_to_json_string, to_display_string, write_json_string};
use datalogic_rs::opcode::OpCode;
use datalogic_rs::singletons::{singleton_bool, singleton_small_int, singleton_type_name, SMALL_INT_MAX};
use datalogic_rs::text::{format_i64, parse_i64, parse_usize};
use datalogic_rs::value::DataValue;

fn s(t: &str) -> DataValue {
    DataValue::String(t.to_string())
}

#[test]
fn integer_text_round_trips() {
    for n in [0i64, 7, -7, 10, 1234567890, i64::MAX, i64::MIN] {
        assert_eq!(format_i64(n), n.to_string());
        assert_eq!(parse_i64(&format_i64(n)), Some(n));
    }
    assert_eq!(parse_i64("+12"), Some(12));
    assert_eq!(parse_i64("-"), None);
    assert_eq!(parse_i64(""), None);
    assert_eq!(parse_i64(" 1"), None);
    assert_eq!(parse_usize("42"), Some(42));
    assert_eq!(parse_usize("-1"), None);
    assert_eq!(parse_usize("+0"), Some(0));
    assert_eq!(parse_usize("18446744073709551616"), None);
}

#[test]
fn json_text_matches_compact_serialisation() {
    let v = DataValue::Object(vec![
        ("a".to_string(), DataValue::Array(vec![DataValue::Number(1), DataValue::Null, DataValue::Bool(false)])),
        ("q\"\\\n".to_string(), s("tab\there\u{1}")),
        ("e".to_string(), DataValue::Object(vec![])),
    ]);
    assert_eq!(
        data_to_json_string(&v),
        "{\"a\":[1,null,false],\"q\\\"\\\\\\n\":\"tab\\there\\u0001\",\"e\":{}}"
    );
    assert_eq!(data_to_json_string(&DataValue::Array(vec![])), "[]");
    assert_eq!(data_to_json_string(&DataValue::Number(-5)), "-5");
    let mut buf = String::from("x=");
    write_json_string(&mut buf, "é\r\u{8}\u{c}");
    assert_eq!(buf, "x=\"é\\r\\b\\f\"");
}

#[test]
fn display_text_of_values() {
    assert_eq!(to_display_string(&s("plain")), "plain");
    assert_eq!(to_display_string(&DataValue::Null), "");
    assert_eq!(to_display_string(&DataValue::Bool(true)), "true");
    assert_eq!(to_display_string(&DataValue::Number(12)), "12");
    assert_eq!(to_display_string(&DataValue::Array(vec![s("a")])), "[\"a\"]");
}

#[test]
fn operator_names_round_trip() {
    for name in ["var", "missing_some", "==", "!==", "?:", "??", "!!", "%", "starts_with", "map", "some", "none"] {
        let op = OpCode::from_name(name).expect("known operator");
        assert_eq!(op.as_str(), name);
    }
    assert_eq!(OpCode::from_name("some"), Some(OpCode::SomeOf));
    assert_eq!(OpCode::from_name("+"), Some(OpCode::Add));
    assert_eq!(OpCode::from_name("unknown"), None);
    assert_eq!(OpCode::from_name("VAR"), None);
}

#[test]
fn singleton_values() {
    assert_eq!(singleton_bool(true), DataValue::Bool(true));
    assert_eq!(singleton_small_int(0), Some(DataValue::Number(0)));
    assert_eq!(singleton_small_int(SMALL_INT_MAX), Some(DataValue::Number(32)));
    assert_eq!(singleton_small_int(33), None);
    assert_eq!(singleton_small_int(-1), None);
    assert_eq!(singleton_type_name("array"), s("array"));
    assert_eq!(singleton_type_name("duration"), s("duration"));
    assert_eq!(singleton_type_name("float"), DataValue::Null);
}
