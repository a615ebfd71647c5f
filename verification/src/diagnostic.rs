//! Diagnostics, and how one is made for each call through the bound field.

use vstd::prelude::*;
use vstd::string::*;
use crate::capture::{span_piece, span_text};
use crate::error::AnalysisError;
use crate::span::{NodeSpan, Point};

verus! {

/// The code that every usage diagnostic carries.
pub const USAGE_CODE: &'static str = "CUS1234";

/// The documentation link that every usage diagnostic carries.
pub const USAGE_HREF: &'static str = "https://google.com";

/// The source tag that every usage diagnostic carries.
pub const USAGE_SOURCE: &'static str = "madiele";

/// What the message of a usage diagnostic begins with.
pub const MESSAGE_PREFIX: &'static str = "Matched: ";

/// A zero-based line and character offset, as an editor counts them.
#[derive(Clone, Copy, Debug, PartialEq, Eq, Structural)]
pub struct Position {
    pub line: u32,
    pub character: u32,
}

/// The stretch of a document from `start` up to, not including, `end`.
#[derive(Clone, Copy, Debug, PartialEq, Eq, Structural)]
pub struct TextRange {
    pub start: Position,
    pub end: Position,
}

/// How grave a diagnostic is.
#[derive(Clone, Copy, Debug, PartialEq, Eq, Structural)]
pub enum Severity {
    Error,
    Warning,
    Information,
    Hint,
}

/// One finding about a document.
#[derive(Clone, Debug, PartialEq, Eq)]
pub struct Diagnostic {
    pub range: TextRange,
    pub severity: Severity,
    pub code: Option<String>,
    pub href: Option<String>,
    pub source: Option<String>,
    pub message: String,
}

/// A diagnostic with each text as the characters it holds.
pub struct DiagnosticView {
    pub range: TextRange,
    pub severity: Severity,
    pub code: Option<Seq<char>>,
    pub href: Option<Seq<char>>,
    pub source: Option<Seq<char>>,
    pub message: Seq<char>,
}

/// The characters of a text that may be absent.
pub open spec fn text_view(text: Option<String>) -> Option<Seq<char>> {
    match text {
        Some(s) => Some(s@),
        None => None,
    }
}

impl View for Diagnostic {
    type V = DiagnosticView;

    open spec fn view(&self) -> DiagnosticView {
        DiagnosticView {
            range: self.range,
            severity: self.severity,
            code: text_view(self.code),
            href: text_view(self.href),
            source: text_view(self.source),
            message: self.message@,
        }
    }
}

/// The views of a list of diagnostics, in the list's order.
pub open spec fn diagnostic_views(diagnostics: Seq<Diagnostic>) -> Seq<DiagnosticView> {
    Seq::new(diagnostics.len(), |i: int| diagnostics[i]@)
}

/// The editor's position for a point of the syntax tree: the same row and
/// column, each cut to its low 32 bits.
pub open spec fn position_of(point: Point) -> Position {
    Position { line: point.row as u32, character: point.column as u32 }
}

/// The editor's range for the span of a node.
pub open spec fn range_of(span: NodeSpan) -> TextRange {
    TextRange { start: position_of(span.start), end: position_of(span.end) }
}

/// The diagnostic for a call whose first argument has the span `span` and
/// the text `piece`.
pub open spec fn usage_diagnostic(span: NodeSpan, piece: Seq<char>) -> DiagnosticView {
    DiagnosticView {
        range: range_of(span),
        severity: Severity::Information,
        code: Some(USAGE_CODE@),
        href: Some(USAGE_HREF@),
        source: Some(USAGE_SOURCE@),
        message: MESSAGE_PREFIX@ + piece,
    }
}

/// Whether each node of a list covers a piece of `text`.
pub open spec fn all_nodes_readable(text: Seq<char>, nodes: Seq<NodeSpan>) -> bool {
    forall|i: int| 0 <= i < nodes.len() ==> (#[trigger] span_text(text, nodes[i])) is Some
}

/// The diagnostic for the node at `i` of a list of first-argument nodes.
pub open spec fn diagnostic_at(text: Seq<char>, nodes: Seq<NodeSpan>, i: int) -> DiagnosticView {
    usage_diagnostic(nodes[i], span_text(text, nodes[i])->0)
}

/// The diagnostics for a list of first-argument nodes: one for each node,
/// in the list's order. `MalformedMatch` where any node covers no piece of
/// `text`.
pub open spec fn node_diagnostics(text: Seq<char>, nodes: Seq<NodeSpan>) -> Result<
    Seq<DiagnosticView>,
    AnalysisError,
> {
    if !all_nodes_readable(text, nodes) {
        Err(AnalysisError::MalformedMatch)
    } else {
        Ok(Seq::new(nodes.len(), |i: int| diagnostic_at(text, nodes, i)))
    }
}

/// The editor's position for a point of the syntax tree.
pub fn to_position(point: Point) -> (position: Position)
    ensures
        position == position_of(point),
{
    Position {
        line: #[verifier::truncate]
        (point.row as u32),
        character: #[verifier::truncate]
        (point.column as u32),
    }
}

/// The diagnostic for one call through the bound field.
pub fn diagnostic_for(span: NodeSpan, piece: &str) -> (diagnostic: Diagnostic)
    ensures
        diagnostic@ == usage_diagnostic(span, piece@),
{
    let mut message = MESSAGE_PREFIX.to_owned();
    message.append(piece);
    Diagnostic {
        range: TextRange { start: to_position(span.start), end: to_position(span.end) },
        severity: Severity::Information,
        code: Some(USAGE_CODE.to_owned()),
        href: Some(USAGE_HREF.to_owned()),
        source: Some(USAGE_SOURCE.to_owned()),
        message,
    }
}

/// The outcome of making diagnostics, with each diagnostic as its view.
pub open spec fn made_view(made: Result<Vec<Diagnostic>, AnalysisError>) -> Result<
    Seq<DiagnosticView>,
    AnalysisError,
> {
    match made {
        Ok(diagnostics) => Ok(diagnostic_views(diagnostics@)),
        Err(e) => Err(e),
    }
}

/// Makes the diagnostic of each first-argument node.
pub fn synthesize(text: &str, nodes: &Vec<NodeSpan>) -> (made: Result<
    Vec<Diagnostic>,
    AnalysisError,
>)
    ensures
        made_view(made) == node_diagnostics(text@, nodes@),
        made matches Ok(diagnostics) ==> diagnostics@.len() == nodes@.len(),
{
    let mut diagnostics: Vec<Diagnostic> = Vec::new();
    let mut i: usize = 0;
    while i < nodes.len()
        invariant
            i <= nodes.len(),
            forall|k: int| 0 <= k < i ==> (#[trigger] span_text(text@, nodes@[k])) is Some,
            diagnostics@.len() == i,
            forall|k: int|
                0 <= k < i ==> (#[trigger] diagnostics@[k])@ == diagnostic_at(text@, nodes@, k),
        decreases nodes.len() - i,
    {
        let span = nodes[i];
        match span_piece(text, span) {
            None => {
                assert(span_text(text@, nodes@[i as int]) is None);
                return Err(AnalysisError::MalformedMatch);
            },
            Some(piece) => {
                diagnostics.push(diagnostic_for(span, piece));
            },
        }
        i += 1;
    }
    proof {
        assert(diagnostic_views(diagnostics@) =~= Seq::new(
            nodes@.len(),
            |k: int| diagnostic_at(text@, nodes@, k),
        ));
    }
    Ok(diagnostics)
}

} // verus!
