use field_usage::diagnostic::{
    diagnostic_for, synthesize, to_position, Diagnostic, Position, Severity, TextRange,
};
use field_usage::error::AnalysisError;
use field_usage::span::{NodeSpan, Point};

#[test]
fn position_keeps_row_and_column() {
    assert_eq!(to_position(Point { row: 4, column: 15 }), Position { line: 4, character: 15 });
    assert_eq!(to_position(Point { row: 0, column: 0 }), Position { line: 0, character: 0 });
    assert_eq!(
        to_position(Point { row: 4294967295, column: 7 }),
        Position { line: 4294967295, character: 7 }
    );
}

#[test]
fn position_cuts_row_and_column_to_32_bits() {
    assert_eq!(
        to_position(Point { row: 4294967301, column: 4294967296 }),
        Position { line: 5, character: 0 }
    );
}

#[test]
fn diagnostic_for_a_call_has_the_fixed_parts() {
    let span = NodeSpan::new(7, 11, 2, 7, 2, 11);
    assert_eq!(
        diagnostic_for(span, "\"hi\""),
        Diagnostic {
            range: TextRange {
                start: Position { line: 2, character: 7 },
                end: Position { line: 2, character: 11 },
            },
            severity: Severity::Information,
            code: Some("CUS1234".to_string()),
            href: Some("https://google.com".to_string()),
            source: Some("madiele".to_string()),
            message: "Matched: \"hi\"".to_string(),
        }
    );
}

#[test]
fn synthesize_makes_one_diagnostic_for_each_node() {
    let text = "x.Send(\"hi\");\ny.Send(ab);";
    let nodes = vec![NodeSpan::new(7, 11, 0, 7, 0, 11), NodeSpan::new(21, 23, 1, 7, 1, 9)];
    let made = synthesize(text, &nodes).unwrap();
    assert_eq!(made.len(), 2);
    assert_eq!(made[0], diagnostic_for(nodes[0], "\"hi\""));
    assert_eq!(made[1], diagnostic_for(nodes[1], "ab"));
    assert_eq!(made[1].message, "Matched: ab");
}

#[test]
fn synthesize_of_no_node_is_empty() {
    assert_eq!(synthesize("x.Send(\"hi\");", &vec![]), Ok(vec![]));
}

#[test]
fn synthesize_refuses_a_node_outside_the_text() {
    let nodes = vec![NodeSpan::new(0, 1, 0, 0, 0, 1), NodeSpan::new(3, 9, 0, 3, 0, 9)];
    assert_eq!(synthesize("abcd", &nodes), Err(AnalysisError::MalformedMatch));
}

#[test]
fn synthesize_refuses_a_node_that_splits_a_character() {
    let nodes = vec![NodeSpan::new(0, 2, 0, 0, 0, 2)];
    assert_eq!(synthesize("h\u{e9}llo", &nodes), Err(AnalysisError::MalformedMatch));
}

#[test]
fn error_names_are_those_of_the_variants() {
    assert_eq!(AnalysisError::ParseFailure.name(), "ParseFailure");
    assert_eq!(AnalysisError::NoFieldBindingFound.name(), "NoFieldBindingFound");
    assert_eq!(AnalysisError::QueryCompileFailure.name(), "QueryCompileFailure");
    assert_eq!(AnalysisError::MalformedMatch.name(), "MalformedMatch");
}
