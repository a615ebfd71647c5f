use field_usage::analyzer::report_usages;
use field_usage::binding::{require_binding, select_binding};
use field_usage::capture::{capture_piece, span_piece};
use field_usage::error::AnalysisError;
use field_usage::span::{NodeSpan, Point, QueryMatch};
use field_usage::usage::select_arguments;

fn span(start_byte: usize, end_byte: usize) -> NodeSpan {
    NodeSpan::new(start_byte, end_byte, 0, start_byte, 0, end_byte)
}

fn found(spans: &[(usize, usize)]) -> QueryMatch {
    QueryMatch { captures: spans.iter().map(|s| span(s.0, s.1)).collect() }
}

const TEXT: &str = "alpha beta gamma delta";

#[test]
fn node_span_new_fills_every_field() {
    assert_eq!(
        NodeSpan::new(1, 2, 3, 4, 5, 6),
        NodeSpan {
            start_byte: 1,
            end_byte: 2,
            start: Point { row: 3, column: 4 },
            end: Point { row: 5, column: 6 },
        }
    );
}

#[test]
fn capture_is_read_by_its_index() {
    let m = found(&[(0, 5), (6, 10), (11, 16)]);
    assert_eq!(m.capture(0), Some(span(0, 5)));
    assert_eq!(m.capture(2), Some(span(11, 16)));
    assert_eq!(m.capture(3), None);
    assert_eq!(capture_piece(TEXT, &m, 1), Some("beta"));
    assert_eq!(capture_piece(TEXT, &m, 3), None);
    assert_eq!(span_piece(TEXT, span(17, 22)), Some("delta"));
    assert_eq!(span_piece(TEXT, span(17, 23)), None);
}

#[test]
fn select_binding_of_no_match_is_none() {
    assert_eq!(select_binding(TEXT, &vec![]), Ok(None));
}

#[test]
fn select_binding_of_one_match_is_its_third_capture() {
    let matches = vec![found(&[(0, 5), (6, 10), (11, 16), (17, 22)])];
    assert_eq!(select_binding(TEXT, &matches), Ok(Some("gamma".to_string())));
}

#[test]
fn select_binding_keeps_the_last_match() {
    let matches = vec![
        found(&[(0, 5), (6, 10), (11, 16), (17, 22)]),
        found(&[(0, 5), (6, 10), (17, 22), (11, 16)]),
        found(&[(6, 10), (11, 16), (0, 5), (17, 22)]),
    ];
    assert_eq!(select_binding(TEXT, &matches), Ok(Some("alpha".to_string())));
}

#[test]
fn select_binding_refuses_a_match_with_two_captures() {
    let matches = vec![found(&[(0, 5), (6, 10)]), found(&[(0, 5), (6, 10), (11, 16)])];
    assert_eq!(select_binding(TEXT, &matches), Err(AnalysisError::MalformedMatch));
}

#[test]
fn select_binding_refuses_a_capture_outside_the_text() {
    let matches = vec![found(&[(0, 5), (6, 10), (11, 16)]), found(&[(0, 5), (6, 10), (17, 40)])];
    assert_eq!(select_binding(TEXT, &matches), Err(AnalysisError::MalformedMatch));
}

#[test]
fn select_arguments_takes_the_third_capture_of_each_match() {
    let matches = vec![
        found(&[(0, 5), (6, 10), (11, 16)]),
        found(&[(0, 5), (6, 10), (17, 22)]),
    ];
    assert_eq!(select_arguments(&matches), Ok(vec![span(11, 16), span(17, 22)]));
    assert_eq!(select_arguments(&vec![]), Ok(vec![]));
}

#[test]
fn select_arguments_refuses_a_match_with_two_captures() {
    let matches = vec![found(&[(0, 5), (6, 10), (11, 16)]), found(&[(0, 5), (6, 10)])];
    assert_eq!(select_arguments(&matches), Err(AnalysisError::MalformedMatch));
}

#[test]
fn report_usages_makes_a_diagnostic_of_each_third_capture() {
    let matches = vec![
        found(&[(0, 5), (6, 10), (11, 16)]),
        found(&[(0, 5), (6, 10), (17, 22)]),
    ];
    let made = report_usages(TEXT, &matches).unwrap();
    assert_eq!(made.len(), 2);
    assert_eq!(made[0].message, "Matched: gamma");
    assert_eq!(made[1].message, "Matched: delta");
    assert_eq!(made[1].range.start.character, 17);
    assert_eq!(made[1].range.end.character, 22);
    assert_eq!(report_usages(TEXT, &vec![]), Ok(vec![]));
}

#[test]
fn report_usages_refuses_a_malformed_match() {
    let short = vec![found(&[(0, 5), (6, 10)])];
    assert_eq!(report_usages(TEXT, &short), Err(AnalysisError::MalformedMatch));
    let outside = vec![found(&[(0, 5), (6, 10), (11, 99)])];
    assert_eq!(report_usages(TEXT, &outside), Err(AnalysisError::MalformedMatch));
}

#[test]
fn require_binding_hands_on_the_last_field() {
    let matches = vec![
        found(&[(0, 5), (6, 10), (11, 16), (17, 22)]),
        found(&[(6, 10), (11, 16), (0, 5), (17, 22)]),
    ];
    assert_eq!(require_binding(TEXT, &matches), Ok("alpha".to_string()));
}

#[test]
fn require_binding_of_no_match_ends_the_pass() {
    assert_eq!(require_binding(TEXT, &vec![]), Err(AnalysisError::NoFieldBindingFound));
}

#[test]
fn require_binding_refuses_a_field_that_is_not_plain() {
    let text = "a \"b\" c";
    let quoted = vec![found(&[(0, 1), (0, 1), (2, 5)])];
    assert_eq!(require_binding(text, &quoted), Err(AnalysisError::QueryCompileFailure));
    let plain = vec![found(&[(0, 1), (0, 1), (3, 4)])];
    assert_eq!(require_binding(text, &plain), Ok("b".to_string()));
}

#[test]
fn require_binding_refuses_a_malformed_match() {
    let matches = vec![found(&[(0, 5), (6, 10)])];
    assert_eq!(require_binding(TEXT, &matches), Err(AnalysisError::MalformedMatch));
}
