use datalogic_rs::constants::{invalid_args, nan_error, INVALID_ARGS};
use datalogic_rs::error::{Error, ErrorKind};
use datalogic_rs::value::DataValue;

#[test]
fn wrap_stringifies_via_display() {
    let io_err = std::io::Error::new(std::io::ErrorKind::NotFound, "missing key");
    let err = Error::wrap(io_err.to_string());
    assert_eq!(err.kind_tag(), "Custom");
    assert!(err.message().contains("missing key"));
}

#[test]
fn wrap_threads_through_question_mark() {
    fn inner() -> std::result::Result<(), Error> {
        "not_an_int".parse::<i32>().map_err(|e| Error::wrap(e.to_string()))?;
        Ok(())
    }
    let err = inner().expect_err("parse should fail");
    assert!(matches!(err.kind, ErrorKind::Custom(_)));
}

#[test]
fn messages_of_each_kind() {
    assert_eq!(Error::invalid_operator("foo".to_string()).message(), "Invalid operator: foo");
    assert_eq!(Error::invalid_arguments("x".to_string()).message(), "Invalid arguments: x");
    assert_eq!(Error::variable_not_found("a.b".to_string()).message(), "Variable not found: a.b");
    assert_eq!(Error::invalid_context_level(-3).message(), "Invalid context level: -3");
    assert_eq!(Error::type_error("t".to_string()).message(), "Type error: t");
    assert_eq!(Error::arithmetic_error("div".to_string()).message(), "Arithmetic error: div");
    assert_eq!(Error::custom("plain".to_string()).message(), "plain");
    assert_eq!(Error::parse_error("p".to_string()).message(), "Parse error: p");
    assert_eq!(Error::format_error("f".to_string()).message(), "Format error: f");
    assert_eq!(
        Error::index_out_of_bounds(-1, 3).message(),
        "Index -1 out of bounds for array of length 3"
    );
    assert_eq!(Error::configuration_error("c".to_string()).message(), "Configuration error: c");
    let thrown = Error::thrown(DataValue::Object(vec![(
        "type".to_string(),
        DataValue::String("Oops".to_string()),
    )]));
    assert_eq!(thrown.message(), "Thrown: {\"type\":\"Oops\"}");
}

#[test]
fn operator_suffix_in_message() {
    let e = Error::type_error("bad".to_string()).with_operator("+".to_string());
    assert_eq!(e.message(), "Type error: bad (in operator: +)");
    assert_eq!(e.operator.as_deref(), Some("+"));
}

#[test]
fn kind_tags_are_stable() {
    assert_eq!(Error::invalid_operator(String::new()).kind_tag(), "InvalidOperator");
    assert_eq!(Error::invalid_arguments(String::new()).kind_tag(), "InvalidArguments");
    assert_eq!(Error::variable_not_found(String::new()).kind_tag(), "VariableNotFound");
    assert_eq!(Error::invalid_context_level(0).kind_tag(), "InvalidContextLevel");
    assert_eq!(Error::type_error(String::new()).kind_tag(), "TypeError");
    assert_eq!(Error::arithmetic_error(String::new()).kind_tag(), "ArithmeticError");
    assert_eq!(Error::parse_error(String::new()).kind_tag(), "ParseError");
    assert_eq!(Error::thrown(DataValue::Null).kind_tag(), "Thrown");
    assert_eq!(Error::format_error(String::new()).kind_tag(), "FormatError");
    assert_eq!(Error::index_out_of_bounds(0, 0).kind_tag(), "IndexOutOfBounds");
    assert_eq!(Error::configuration_error(String::new()).kind_tag(), "ConfigurationError");
    assert_eq!(Error::default().kind_tag(), "Custom");
}

#[test]
fn wire_form() {
    let e = Error::custom("x".to_string());
    assert_eq!(e.to_json_string(), "{\"type\":\"Custom\",\"message\":\"x\"}");

    let e = Error::variable_not_found("a\"b".to_string())
        .with_operator("var".to_string())
        .with_path(vec![3, 1, 0]);
    assert_eq!(
        e.to_json_string(),
        "{\"type\":\"VariableNotFound\",\"message\":\"Variable not found: a\\\"b\",\"variable\":\"a\\\"b\",\"operator\":\"var\",\"path\":[3,1,0]}"
    );

    let e = Error::index_out_of_bounds(5, 2);
    assert_eq!(
        e.to_json_string(),
        "{\"type\":\"IndexOutOfBounds\",\"message\":\"Index 5 out of bounds for array of length 2\",\"index\":5,\"length\":2}"
    );

    let e = Error::invalid_context_level(-2);
    assert_eq!(
        e.to_json_string(),
        "{\"type\":\"InvalidContextLevel\",\"message\":\"Invalid context level: -2\",\"level\":-2}"
    );

    let e = Error::thrown(DataValue::Number(7));
    assert_eq!(
        e.to_json_string(),
        "{\"type\":\"Thrown\",\"message\":\"Thrown: 7\",\"thrown\":7}"
    );
}

#[test]
fn canonical_errors() {
    let e = invalid_args();
    assert_eq!(e.message(), "Invalid arguments: Invalid Arguments");
    assert!(matches!(&e.kind, ErrorKind::InvalidArguments(m) if m == INVALID_ARGS));
    let n = nan_error();
    assert_eq!(n.message(), "Thrown: {\"type\":\"NaN\"}");
}
