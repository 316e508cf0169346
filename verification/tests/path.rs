use datalogic_rs::path::{
    access_path_str, apply_path_element, key_eq, object_lookup_field, parse_path_segments, path_exists_segments,
    path_exists_str, split_path, step_segment, step_str, traverse_segments, PathSegment,
};
use datalogic_rs::value::DataValue;

fn s(t: &str) -> DataValue {
    DataValue::String(t.to_string())
}

fn obj(pairs: Vec<(&str, DataValue)>) -> DataValue {
    DataValue::Object(pairs.into_iter().map(|(k, v)| (k.to_string(), v)).collect())
}

fn sample() -> DataValue {
    obj(vec![
        ("user", obj(vec![("name", s("Ada")), ("tags", DataValue::Array(vec![s("x"), s("y")]))])),
        ("0", s("zero-key")),
        ("dup", DataValue::Number(1)),
        ("dup", DataValue::Number(2)),
    ])
}

#[test]
fn dot_paths_reach_nested_values() {
    let d = sample();
    assert_eq!(access_path_str(&d, "user.name"), Some(&s("Ada")));
    assert_eq!(access_path_str(&d, "user.tags.1"), Some(&s("y")));
    assert_eq!(access_path_str(&d, "user.tags.2"), None);
    assert_eq!(access_path_str(&d, "user.tags.+1"), Some(&s("y")));
    assert_eq!(access_path_str(&d, "0"), Some(&s("zero-key")));
    assert_eq!(access_path_str(&d, ""), Some(&d));
    assert_eq!(access_path_str(&d, "user..name"), None);
    assert!(path_exists_str(&d, "user.tags.0"));
    assert!(!path_exists_str(&d, "nope"));
    // The first of two equal keys wins.
    assert_eq!(access_path_str(&d, "dup"), Some(&DataValue::Number(1)));
}

#[test]
fn compiled_segments_agree_with_dot_paths() {
    let d = sample();
    for p in ["user.name", "user.tags.1", "user.tags.9", "0", "user.x", "dup"] {
        let segs = parse_path_segments(p);
        assert_eq!(traverse_segments(&d, &segs), access_path_str(&d, p));
        assert_eq!(path_exists_segments(&d, &segs), path_exists_str(&d, p));
    }
    assert_eq!(
        parse_path_segments("a.10.b"),
        vec![PathSegment::Field("a".to_string()), PathSegment::FieldOrIndex("10".to_string(), 10), PathSegment::Field("b".to_string())]
    );
    assert!(parse_path_segments("").is_empty());
}

#[test]
fn split_path_keeps_empty_pieces() {
    assert_eq!(split_path("a..b."), vec!["a".to_string(), String::new(), "b".to_string(), String::new()]);
    assert_eq!(split_path(""), vec![String::new()]);
    assert_eq!(split_path("日本.語"), vec!["日本".to_string(), "語".to_string()]);
}

#[test]
fn single_steps() {
    let arr = DataValue::Array(vec![s("a"), s("b")]);
    assert_eq!(step_segment(&arr, &PathSegment::Index(1)), Some(&s("b")));
    assert_eq!(step_segment(&arr, &PathSegment::Field("1".to_string())), None);
    assert_eq!(step_segment(&arr, &PathSegment::FieldOrIndex("0".to_string(), 0)), Some(&s("a")));
    assert_eq!(step_str(&arr, "1"), Some(&s("b")));
    assert_eq!(step_str(&arr, "x"), None);
    assert_eq!(step_str(&s("abc"), "0"), None);
    let d = sample();
    if let DataValue::Object(pairs) = &d {
        assert_eq!(object_lookup_field(pairs, "dup"), Some(&DataValue::Number(1)));
        assert_eq!(object_lookup_field(pairs, "missing"), None);
    }
}

#[test]
fn path_elements() {
    let d = sample();
    let arr = DataValue::Array(vec![s("a"), s("b")]);
    assert_eq!(apply_path_element(&d, &s("user.name")), Some(&s("Ada")));
    assert_eq!(apply_path_element(&arr, &DataValue::Number(1)), Some(&s("b")));
    assert_eq!(apply_path_element(&arr, &DataValue::Number(-1)), None);
    assert_eq!(apply_path_element(&d, &DataValue::Number(0)), Some(&s("zero-key")));
    assert_eq!(apply_path_element(&d, &DataValue::Bool(true)), None);
}

#[test]
fn key_equality() {
    assert!(key_eq("abc", "abc"));
    assert!(!key_eq("abc", "abd"));
    assert!(!key_eq("ab", "abc"));
    assert!(key_eq("", ""));
    assert!(key_eq("é", "é"));
}
