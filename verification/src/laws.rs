//! What holds of the analysis as a whole.

use vstd::prelude::*;
use crate::analyzer::{outcome_of, pass_outcome, usage_report};
use crate::binding::{all_bindings_readable, bound_field, chosen_view, field_to_search};
use crate::capture::{capture_at, capture_text, span_text};
use crate::diagnostic::{
    made_view,
    node_diagnostics,
    range_of,
    usage_diagnostic,
    Diagnostic,
    DiagnosticView,
};
use crate::error::AnalysisError;
use crate::pattern::{is_plain_name, ARGUMENT_CAPTURE, BINDING_CAPTURE};
use crate::span::{all_fit_32_bits, NodeSpan};
use crate::usage::argument_nodes;

verus! {

/// Where the field-binding pattern matches once, the bound field is the
/// text under that match's assigned-field capture; where that capture is
/// missing or covers no text, the match is reported as malformed.
pub proof fn lemma_single_match_binds_its_field(text: Seq<char>, only: Seq<NodeSpan>)
    ensures
        bound_field(text, seq![only]) == match capture_text(text, only, BINDING_CAPTURE as int) {
            Some(field) => Ok::<Option<Seq<char>>, AnalysisError>(Some(field)),
            None => Err::<Option<Seq<char>>, AnalysisError>(AnalysisError::MalformedMatch),
        },
{
    let matches = seq![only];
    assert(matches[0] == only);
    assert(matches.last() == only);
    if capture_text(text, only, BINDING_CAPTURE as int) is None {
        assert(!all_bindings_readable(text, matches));
    }
}

/// The last match wins: where every match is readable, the bound field is
/// the text under the assigned-field capture of the last one, whatever
/// the matches before it bind.
pub proof fn lemma_last_match_wins(
    text: Seq<char>,
    earlier: Seq<Seq<NodeSpan>>,
    last: Seq<NodeSpan>,
)
    requires
        all_bindings_readable(text, earlier.push(last)),
    ensures
        bound_field(text, earlier.push(last)) == Ok::<Option<Seq<char>>, AnalysisError>(
            capture_text(text, last, BINDING_CAPTURE as int),
        ),
        capture_text(text, last, BINDING_CAPTURE as int) is Some,
{
    let matches = earlier.push(last);
    assert(matches.last() == last);
    assert(matches[matches.len() - 1] == last);
}

/// Every usage is covered: where the matches of the usage pattern are
/// well formed, there is one first-argument node and one diagnostic for
/// each match, in the order of the matches, and the range of each
/// diagnostic is the span of that match's first argument.
pub proof fn lemma_one_diagnostic_per_usage(
    text: Seq<char>,
    matches: Seq<Seq<NodeSpan>>,
    nodes: Seq<NodeSpan>,
    diagnostics: Seq<DiagnosticView>,
)
    requires
        argument_nodes(matches) == Ok::<Seq<NodeSpan>, AnalysisError>(nodes),
        node_diagnostics(text, nodes) == Ok::<Seq<DiagnosticView>, AnalysisError>(diagnostics),
    ensures
        nodes.len() == matches.len(),
        diagnostics.len() == matches.len(),
        forall|i: int|
            0 <= i < matches.len() ==> nodes[i] == matches[i][ARGUMENT_CAPTURE as int]
                && (#[trigger] diagnostics[i]).range == range_of(
                matches[i][ARGUMENT_CAPTURE as int],
            ),
{
}

/// No usage, empty batch: where a field with a plain name is bound and
/// the usage pattern matches nowhere, the pass succeeds with no
/// diagnostics.
pub proof fn lemma_no_usage_gives_empty_batch(
    text: Seq<char>,
    bindings: Seq<Seq<NodeSpan>>,
    field: Seq<char>,
)
    requires
        bound_field(text, bindings) == Ok::<Option<Seq<char>>, AnalysisError>(Some(field)),
        is_plain_name(field),
    ensures
        usage_report(text, Seq::empty()) == Ok::<Seq<DiagnosticView>, AnalysisError>(Seq::empty()),
        outcome_of(text, bindings, Seq::empty()) == Ok::<Seq<DiagnosticView>, AnalysisError>(
            Seq::empty(),
        ),
{
    let usages = Seq::<Seq<NodeSpan>>::empty();
    let nodes = argument_nodes(usages)->Ok_0;
    assert(nodes =~= Seq::empty());
    assert(node_diagnostics(text, nodes)->Ok_0 =~= Seq::empty());
}

/// No binding, no batch: where the field-binding pattern matches nowhere,
/// no field is found and the pass fails with `NoFieldBindingFound`,
/// whatever the usage pattern would match.
pub proof fn lemma_no_binding_fails_the_pass(text: Seq<char>, usages: Seq<Seq<NodeSpan>>)
    ensures
        bound_field(text, Seq::empty()) == Ok::<Option<Seq<char>>, AnalysisError>(None),
        field_to_search(text, Seq::empty()) == Err::<Seq<char>, AnalysisError>(
            AnalysisError::NoFieldBindingFound,
        ),
        outcome_of(text, Seq::empty(), usages) == Err::<Seq<DiagnosticView>, AnalysisError>(
            AnalysisError::NoFieldBindingFound,
        ),
{
}

/// What the matcher hands out is reported unchanged: the range of each
/// diagnostic of a report holds the rows and columns of the first
/// argument of its match, none of them cut.
pub proof fn lemma_report_keeps_the_node_positions(
    text: Seq<char>,
    usages: Seq<Seq<NodeSpan>>,
    diagnostics: Seq<DiagnosticView>,
)
    requires
        all_fit_32_bits(usages),
        usage_report(text, usages) == Ok::<Seq<DiagnosticView>, AnalysisError>(diagnostics),
    ensures
        diagnostics.len() == usages.len(),
        forall|i: int|
            0 <= i < usages.len() ==> {
                let node = usages[i][ARGUMENT_CAPTURE as int];
                let range = (#[trigger] diagnostics[i]).range;
                &&& range.start.line == node.start.row
                &&& range.start.character == node.start.column
                &&& range.end.line == node.end.row
                &&& range.end.character == node.end.column
            },
{
    let nodes = argument_nodes(usages)->Ok_0;
    assert forall|i: int| 0 <= i < usages.len() implies {
        let node = usages[i][ARGUMENT_CAPTURE as int];
        let range = (#[trigger] diagnostics[i]).range;
        &&& range.start.line == node.start.row
        &&& range.start.character == node.start.column
        &&& range.end.line == node.end.row
        &&& range.end.character == node.end.column
    } by {
        assert(nodes[i] == usages[i][ARGUMENT_CAPTURE as int]);
        assert(capture_at(usages[i], ARGUMENT_CAPTURE as int) is Some);
        lemma_range_is_the_node_position(nodes[i], span_text(text, nodes[i])->0);
    }
}

/// A name that is not plain is refused before anything is parsed: with
/// such an interface name every pass ends in `QueryCompileFailure`.
pub proof fn lemma_unplain_interface_fails_the_pass(
    interface_name: Seq<char>,
    text: Seq<char>,
    made: Result<Seq<DiagnosticView>, AnalysisError>,
)
    requires
        !is_plain_name(interface_name),
        pass_outcome(interface_name, text, made),
    ensures
        made == Err::<Seq<DiagnosticView>, AnalysisError>(AnalysisError::QueryCompileFailure),
{
}

/// Ranges are the nodes' own positions: where the rows and columns of a
/// node fit in 32 bits, the diagnostic's range holds them unchanged.
pub proof fn lemma_range_is_the_node_position(span: NodeSpan, piece: Seq<char>)
    requires
        span.start.row <= u32::MAX,
        span.start.column <= u32::MAX,
        span.end.row <= u32::MAX,
        span.end.column <= u32::MAX,
    ensures
        usage_diagnostic(span, piece).range.start.line == span.start.row,
        usage_diagnostic(span, piece).range.start.character == span.start.column,
        usage_diagnostic(span, piece).range.end.line == span.end.row,
        usage_diagnostic(span, piece).range.end.character == span.end.column,
{
}

/// Given the same matches, a pass ends alike: two searches for the bound
/// field over the same text and the same matches of the field-binding
/// pattern choose the same field, and two reports over the same text and
/// the same matches of the usage pattern hold the same diagnostics in the
/// same order, or fail alike. Nothing is said of two runs of the parser or
/// of the matcher.
pub proof fn lemma_same_matches_same_outcome(
    text: Seq<char>,
    bindings: Seq<Seq<NodeSpan>>,
    usages: Seq<Seq<NodeSpan>>,
    first_field: Result<Option<String>, AnalysisError>,
    second_field: Result<Option<String>, AnalysisError>,
    first_report: Result<Vec<Diagnostic>, AnalysisError>,
    second_report: Result<Vec<Diagnostic>, AnalysisError>,
)
    requires
        chosen_view(first_field) == bound_field(text, bindings),
        chosen_view(second_field) == bound_field(text, bindings),
        made_view(first_report) == usage_report(text, usages),
        made_view(second_report) == usage_report(text, usages),
    ensures
        chosen_view(first_field) == chosen_view(second_field),
        made_view(first_report) == made_view(second_report),
{
}

} // verus!
