use field_usage::pattern::{
    binding_pattern, plain_name, usage_pattern, ARGUMENT_CAPTURE, BINDING_CAPTURE,
};

#[test]
fn binding_pattern_holds_the_interface_name() {
    let expected = "\n(constructor_declaration\n  parameters: \n    (parameter_list\n      (parameter\n        type: (generic_name (identifier) @typeName)\n        name: (identifier) @varLoggerName\n      )\n    )\n  body: \n    (block \n      (expression_statement \n        (assignment_expression\n          left: (identifier) @assignementName\n          right: (identifier) @varName) \n      )\n    )\n  (#eq? @typeName \"ITelemetryLogger\") ;; the interface name\n  (#eq? @varLoggerName @varName)\n  (#eq? @assignementName @varName)\n)\n";
    assert_eq!(binding_pattern("ITelemetryLogger"), expected);
}

#[test]
fn usage_pattern_holds_the_field_name() {
    let expected = "\n(invocation_expression\n  function: \n    (member_access_expression\n      expression: (identifier) @internalName\n      name: (identifier) @methodName\n    )\n  arguments: (argument_list . (argument) @string)\n  (#eq? @internalName \"_logger\")\n)\n";
    assert_eq!(usage_pattern("_logger"), expected);
}

#[test]
fn patterns_splice_the_name_as_it_is() {
    assert!(usage_pattern("a\"b").contains("(#eq? @internalName \"a\"b\")"));
    assert!(binding_pattern("").contains("(#eq? @typeName \"\") ;; the interface name"));
}

#[test]
fn captures_are_read_at_the_third_place() {
    assert_eq!(BINDING_CAPTURE, 2);
    assert_eq!(ARGUMENT_CAPTURE, 2);
}

#[test]
fn plain_names_hold_no_quote_backslash_or_line_feed() {
    assert!(plain_name("ITelemetryLogger"));
    assert!(plain_name("_logger"));
    assert!(plain_name(""));
    assert!(plain_name("a b\t(c)\r"));
    assert!(plain_name("caf\u{e9}"));
    assert!(!plain_name("a\"b"));
    assert!(!plain_name("\""));
    assert!(!plain_name("a\\b"));
    assert!(!plain_name("ab\n"));
    assert!(!plain_name("\nab"));
}
