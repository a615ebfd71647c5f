//! One analysis pass over one document: parse, find the bound field, find
//! the calls through it, make a diagnostic for each.
//!
//! What the parser and the matcher return is not known beforehand, so the
//! contracts of the functions that call them say what holds for every
//! list of matches that may come back. The functions that take the matches
//! as arguments say exactly what is made of them.

use vstd::prelude::*;
use vstd::string::*;
use crate::binding::{
    bound_field,
    chosen_view,
    field_to_search,
    require_binding,
    select_binding,
};
use crate::diagnostic::{
    diagnostic_views,
    made_view,
    node_diagnostics,
    synthesize,
    Diagnostic,
    DiagnosticView,
};
use crate::engine::{compile, parse, run_query, SyntaxTree};
use crate::error::AnalysisError;
use crate::pattern::{
    binding_pattern,
    binding_pattern_text,
    is_analysis_pattern,
    is_plain_name,
    plain_name,
    usage_pattern,
    usage_pattern_text,
};
use crate::span::{all_fit_32_bits, match_views, NodeSpan, QueryMatch};
use crate::usage::{argument_nodes, nodes_view, select_arguments};

verus! {

/// The diagnostics for a list of matches of the usage pattern: one for the
/// first argument of each match, in the list's order.
pub open spec fn usage_report(text: Seq<char>, usages: Seq<Seq<NodeSpan>>) -> Result<
    Seq<DiagnosticView>,
    AnalysisError,
> {
    match argument_nodes(usages) {
        Err(e) => Err(e),
        Ok(nodes) => node_diagnostics(text, nodes),
    }
}

/// How a pass over `text` ends where both patterns compile, the
/// field-binding pattern matches as `bindings` say and the usage pattern as
/// `usages` say: with the failure of `field_to_search` where it settles on
/// no field, else with the report on the usages.
pub open spec fn outcome_of(
    text: Seq<char>,
    bindings: Seq<Seq<NodeSpan>>,
    usages: Seq<Seq<NodeSpan>>,
) -> Result<Seq<DiagnosticView>, AnalysisError> {
    match field_to_search(text, bindings) {
        Err(e) => Err(e),
        Ok(_) => usage_report(text, usages),
    }
}

/// What a search for the bound field may give. An interface name that is
/// not plain gives `QueryCompileFailure`, whatever the text. Otherwise the
/// parser may give no tree, the compiler may refuse the pattern, or the
/// matcher gives some list of matches, each number of which fits in 32
/// bits, and the outcome is what `bound_field` makes of it.
pub open spec fn binding_outcome(
    interface_name: Seq<char>,
    text: Seq<char>,
    chosen: Result<Option<Seq<char>>, AnalysisError>,
) -> bool {
    if !is_plain_name(interface_name) {
        chosen == Err::<Option<Seq<char>>, AnalysisError>(AnalysisError::QueryCompileFailure)
    } else {
        ||| chosen == Err::<Option<Seq<char>>, AnalysisError>(AnalysisError::ParseFailure)
        ||| chosen == Err::<Option<Seq<char>>, AnalysisError>(AnalysisError::QueryCompileFailure)
        ||| exists|bindings: Seq<Seq<NodeSpan>>|
            all_fit_32_bits(bindings) && chosen == #[trigger] bound_field(text, bindings)
    }
}

/// What a search for the calls through `field` may give. A field name that
/// is not plain gives `QueryCompileFailure`, whatever the text. Otherwise
/// the parser may give no tree, the compiler may refuse the pattern, or the
/// matcher gives some list of matches, each number of which fits in 32
/// bits, and the outcome is what `argument_nodes` makes of it.
pub open spec fn usage_outcome(
    field: Seq<char>,
    nodes: Result<Seq<NodeSpan>, AnalysisError>,
) -> bool {
    if !is_plain_name(field) {
        nodes == Err::<Seq<NodeSpan>, AnalysisError>(AnalysisError::QueryCompileFailure)
    } else {
        ||| nodes == Err::<Seq<NodeSpan>, AnalysisError>(AnalysisError::ParseFailure)
        ||| nodes == Err::<Seq<NodeSpan>, AnalysisError>(AnalysisError::QueryCompileFailure)
        ||| exists|usages: Seq<Seq<NodeSpan>>|
            all_fit_32_bits(usages) && nodes == #[trigger] argument_nodes(usages)
    }
}

/// What a whole pass over `text` may give. An interface name that is not
/// plain gives `QueryCompileFailure`, whatever the text. Otherwise the
/// parser may give no tree, the compiler may refuse a pattern, or the
/// matcher gives some lists of matches for the two patterns, each number of
/// which fits in 32 bits, and the outcome is what `outcome_of` makes of
/// them.
pub open spec fn pass_outcome(
    interface_name: Seq<char>,
    text: Seq<char>,
    made: Result<Seq<DiagnosticView>, AnalysisError>,
) -> bool {
    if !is_plain_name(interface_name) {
        made == Err::<Seq<DiagnosticView>, AnalysisError>(AnalysisError::QueryCompileFailure)
    } else {
        ||| made == Err::<Seq<DiagnosticView>, AnalysisError>(AnalysisError::ParseFailure)
        ||| made == Err::<Seq<DiagnosticView>, AnalysisError>(AnalysisError::QueryCompileFailure)
        ||| exists|bindings: Seq<Seq<NodeSpan>>, usages: Seq<Seq<NodeSpan>>|
            all_fit_32_bits(bindings) && all_fit_32_bits(usages) && made == #[trigger] outcome_of(
                text,
                bindings,
                usages,
            )
    }
}

/// Makes the diagnostics for the matches of the usage pattern.
pub fn report_usages(text: &str, usages: &Vec<QueryMatch>) -> (made: Result<
    Vec<Diagnostic>,
    AnalysisError,
>)
    ensures
        made_view(made) == usage_report(text@, match_views(usages@)),
{
    match select_arguments(usages) {
        Err(e) => Err(e),
        Ok(nodes) => synthesize(text, &nodes),
    }
}

/// Whether a pass is under way.
#[derive(Clone, Copy, Debug, PartialEq, Eq, Structural)]
pub enum PassState {
    Idle,
    Analyzing,
}

/// A document changed: its address and its whole new text.
#[derive(Clone, Debug, PartialEq, Eq)]
pub struct ChangeEvent {
    pub uri: String,
    pub text: String,
}

/// The diagnostics of one document, which replace all that were reported
/// for it before.
#[derive(Clone, Debug, PartialEq, Eq)]
pub struct DiagnosticBatch {
    pub uri: String,
    pub diagnostics: Vec<Diagnostic>,
}

/// A batch with its address as characters and each diagnostic as its view.
pub struct BatchView {
    pub uri: Seq<char>,
    pub diagnostics: Seq<DiagnosticView>,
}

impl View for DiagnosticBatch {
    type V = BatchView;

    open spec fn view(&self) -> BatchView {
        BatchView { uri: self.uri@, diagnostics: diagnostic_views(self.diagnostics@) }
    }
}

/// The outcome of handling a change, with the batch as its view.
pub open spec fn batch_view(outcome: Result<DiagnosticBatch, AnalysisError>) -> Result<
    BatchView,
    AnalysisError,
> {
    match outcome {
        Ok(batch) => Ok(batch@),
        Err(e) => Err(e),
    }
}

/// What handling a change of the document at `uri` to `text` may give:
/// what a pass over `text` may give, and on success a batch for `uri`.
pub open spec fn change_outcome(
    interface_name: Seq<char>,
    uri: Seq<char>,
    text: Seq<char>,
    outcome: Result<BatchView, AnalysisError>,
) -> bool {
    match outcome {
        Ok(batch) => batch.uri == uri && pass_outcome(
            interface_name,
            text,
            Ok::<Seq<DiagnosticView>, AnalysisError>(batch.diagnostics),
        ),
        Err(e) => pass_outcome(
            interface_name,
            text,
            Err::<Seq<DiagnosticView>, AnalysisError>(e),
        ),
    }
}

/// The analysis, set up for one interface name.
pub struct Analyzer {
    language: tree_sitter::Language,
    interface_name: String,
    state: PassState,
}

impl Analyzer {
    /// The grammar that documents are parsed with.
    pub closed spec fn grammar(&self) -> tree_sitter::Language {
        self.language
    }

    /// The name of the interface whose injection is looked for.
    pub closed spec fn interface(&self) -> Seq<char> {
        self.interface_name@
    }

    /// Whether a pass is under way.
    pub closed spec fn state(&self) -> PassState {
        self.state
    }

    /// An idle analysis of C# documents for `interface_name`.
    pub fn new(interface_name: &str) -> (analyzer: Analyzer)
        ensures
            analyzer.interface() == interface_name@,
            analyzer.state() == PassState::Idle,
    {
        Analyzer {
            language: tree_sitter_c_sharp::language(),
            interface_name: interface_name.to_owned(),
            state: PassState::Idle,
        }
    }

    /// The name of the interface whose injection is looked for.
    pub fn interface_name(&self) -> (name: &str)
        ensures
            name@ == self.interface(),
    {
        self.interface_name.as_str()
    }

    /// Whether no pass is under way.
    pub fn is_idle(&self) -> (idle: bool)
        ensures
            idle == (self.state() == PassState::Idle),
    {
        match self.state {
            PassState::Idle => true,
            PassState::Analyzing => false,
        }
    }

    /// Compiles one of the two patterns and runs it over the tree.
    fn matches_in(&self, tree: &SyntaxTree, pattern: &str) -> (found: Result<
        Vec<QueryMatch>,
        AnalysisError,
    >)
        requires
            tree.grammar() == self.grammar(),
            is_analysis_pattern(pattern@),
        ensures
            found matches Err(e) ==> e == AnalysisError::QueryCompileFailure,
            found matches Ok(matches) ==> all_fit_32_bits(match_views(matches@)),
    {
        match compile(self.language, pattern) {
            Err(_) => Err(AnalysisError::QueryCompileFailure),
            Ok(ready) => Ok(run_query(&ready, tree)),
        }
    }

    /// Runs the field-binding pattern over the tree. The interface name
    /// must be plain.
    fn bindings_in(&self, tree: &SyntaxTree) -> (found: Result<Vec<QueryMatch>, AnalysisError>)
        requires
            tree.grammar() == self.grammar(),
            is_plain_name(self.interface()),
        ensures
            found matches Err(e) ==> e == AnalysisError::QueryCompileFailure,
            found matches Ok(matches) ==> all_fit_32_bits(match_views(matches@)),
    {
        let pattern = binding_pattern(self.interface_name.as_str());
        assert(pattern@ == binding_pattern_text(self.interface()));
        self.matches_in(tree, pattern.as_str())
    }

    /// Runs the usage pattern for `field` over the tree. The field's name
    /// must be plain.
    fn usages_in(&self, tree: &SyntaxTree, field: &str) -> (found: Result<
        Vec<QueryMatch>,
        AnalysisError,
    >)
        requires
            tree.grammar() == self.grammar(),
            is_plain_name(field@),
        ensures
            found matches Err(e) ==> e == AnalysisError::QueryCompileFailure,
            found matches Ok(matches) ==> all_fit_32_bits(match_views(matches@)),
    {
        let pattern = usage_pattern(field);
        assert(pattern@ == usage_pattern_text(field@));
        self.matches_in(tree, pattern.as_str())
    }

    /// Looks for the field that a constructor of the document fills from
    /// a parameter of the interface's type. With several such constructors,
    /// the field of the last one is given.
    pub fn find_binding(&self, text: &str) -> (chosen: Result<Option<String>, AnalysisError>)
        ensures
            binding_outcome(self.interface(), text@, chosen_view(chosen)),
    {
        if !plain_name(self.interface_name.as_str()) {
            return Err(AnalysisError::QueryCompileFailure);
        }
        let tree = match parse(self.language, text) {
            None => {
                return Err(AnalysisError::ParseFailure);
            },
            Some(tree) => tree,
        };
        match self.bindings_in(&tree) {
            Err(e) => Err(e),
            Ok(bindings) => select_binding(text, &bindings),
        }
    }

    /// Looks for the calls of a method on `field` with at least one argument,
    /// and gives the node of each call's first argument.
    pub fn find_usages(&self, text: &str, field: &str) -> (nodes: Result<
        Vec<NodeSpan>,
        AnalysisError,
    >)
        ensures
            usage_outcome(field@, nodes_view(nodes)),
    {
        if !plain_name(field) {
            return Err(AnalysisError::QueryCompileFailure);
        }
        let tree = match parse(self.language, text) {
            None => {
                return Err(AnalysisError::ParseFailure);
            },
            Some(tree) => tree,
        };
        match self.usages_in(&tree, field) {
            Err(e) => Err(e),
            Ok(usages) => select_arguments(&usages),
        }
    }

    /// Runs one whole pass over `text`: one parse, and both patterns over
    /// the one tree.
    pub fn analyze(&self, text: &str) -> (made: Result<Vec<Diagnostic>, AnalysisError>)
        ensures
            pass_outcome(self.interface(), text@, made_view(made)),
    {
        if !plain_name(self.interface_name.as_str()) {
            return Err(AnalysisError::QueryCompileFailure);
        }
        let tree = match parse(self.language, text) {
            None => {
                return Err(AnalysisError::ParseFailure);
            },
            Some(tree) => tree,
        };
        let bindings = match self.bindings_in(&tree) {
            Err(e) => {
                return Err(e);
            },
            Ok(bindings) => bindings,
        };
        let ghost bound = match_views(bindings@);
        let field = match require_binding(text, &bindings) {
            Err(e) => {
                assert(outcome_of(text@, bound, Seq::empty()) == Err::<
                    Seq<DiagnosticView>,
                    AnalysisError,
                >(e));
                return Err(e);
            },
            Ok(field) => field,
        };
        let usages = match self.usages_in(&tree, field.as_str()) {
            Err(e) => {
                return Err(e);
            },
            Ok(usages) => usages,
        };
        let made = report_usages(text, &usages);
        assert(made_view(made) == outcome_of(text@, bound, match_views(usages@)));
        made
    }

    /// Takes one change of a document through a whole pass, from idle back to
    /// idle, and gives the batch to publish for it. A pass that fails gives
    /// no batch.
    pub fn handle_change(&mut self, event: &ChangeEvent) -> (outcome: Result<
        DiagnosticBatch,
        AnalysisError,
    >)
        requires
            old(self).state() == PassState::Idle,
        ensures
            final(self).state() == PassState::Idle,
            final(self).grammar() == old(self).grammar(),
            final(self).interface() == old(self).interface(),
            change_outcome(
                old(self).interface(),
                event.uri@,
                event.text@,
                batch_view(outcome),
            ),
    {
        self.state = PassState::Analyzing;
        let made = self.analyze(event.text.as_str());
        self.state = PassState::Idle;
        match made {
            Err(e) => Err(e),
            Ok(diagnostics) => Ok(DiagnosticBatch { uri: event.uri.clone(), diagnostics }),
        }
    }
}

} // verus!
