use datalogic_rs::node::CompiledNode;
use datalogic_rs::operator::{collect_named_groups, contains_text, strip_prefix, try_compile_split_regex};
use datalogic_rs::value::DataValue;

fn lit(t: &str) -> CompiledNode {
    CompiledNode::Value { value: DataValue::String(t.to_string()) }
}

#[test]
fn named_capture_patterns_compile_once() {
    let args = vec![lit("2024-05"), lit(r"(?P<year>\d{4})-(?P<month>\d{2})")];
    let d = try_compile_split_regex(&args).expect("named captures");
    assert_eq!(d.capture_names, vec!["year".to_string(), "month".to_string()]);
    assert_eq!(d.args, vec![lit("2024-05")]);
    assert!(d.regex.as_regex().is_match("1999-12"));
}

#[test]
fn other_patterns_are_left_alone() {
    // No named group marker.
    assert!(try_compile_split_regex(&vec![lit("a,b"), lit(",")]).is_none());
    // Not a valid regex.
    assert!(try_compile_split_regex(&vec![lit("x"), lit("(?P<open")]).is_none());
    // Too few arguments, or a pattern that is not a literal.
    assert!(try_compile_split_regex(&vec![lit("x")]).is_none());
    let dynamic = CompiledNode::CustomOperator { name: "p".to_string(), args: vec![] };
    assert!(try_compile_split_regex(&vec![lit("x"), dynamic]).is_none());
}

#[test]
fn text_search_helpers() {
    assert!(contains_text("ab(?P<x>c)", "(?P<"));
    assert!(!contains_text("(?<x>c)", "(?P<"));
    assert!(contains_text("abc", ""));
    assert!(!contains_text("ab", "abc"));
    assert_eq!(strip_prefix("current.a.b", "current."), Some("a.b"));
    assert_eq!(strip_prefix("curr", "current."), None);
    assert_eq!(strip_prefix("日本語", "日本"), Some("語"));
}

#[test]
fn unnamed_groups_are_dropped_from_capture_names() {
    let groups = vec![None, Some("a".to_string()), None, Some("b".to_string())];
    assert_eq!(collect_named_groups(&groups), vec!["a".to_string(), "b".to_string()]);
    assert!(collect_named_groups(&vec![None, None]).is_empty());
}

#[test]
fn capture_names_follow_group_order() {
    let args = vec![lit("x"), lit(r"(?P<b>\d)-(\d)-(?P<a>\d)")];
    let d = try_compile_split_regex(&args).expect("named captures");
    assert_eq!(d.capture_names, vec!["b".to_string(), "a".to_string()]);
    let only_unnamed = vec![lit("x"), lit(r"[(?P<](\d)")];
    assert!(try_compile_split_regex(&only_unnamed).is_none());
}
