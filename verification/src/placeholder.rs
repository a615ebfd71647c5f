//! The fixed answers of the handlers that compute nothing.

use vstd::prelude::*;
use vstd::string::*;
use crate::diagnostic::{Diagnostic, DiagnosticView, Position, Severity, TextRange};

verus! {

/// What every hover shows.
pub const HOVER_TEXT: &'static str = "hello world";

/// The title of the one code action on offer.
pub const QUICK_FIX_TITLE: &'static str = "test code action";

/// The title of the command behind that code action.
pub const COMMAND_TITLE: &'static str = "fakediagnostics";

/// The name of the one command that can be executed.
pub const COMMAND_NAME: &'static str = "fake";

/// The message of the diagnostic that the command publishes.
pub const COMMAND_MESSAGE: &'static str = "lol";

/// A code action: a quick fix that is not preferred and runs one command
/// with the document's address as its only argument.
#[derive(Clone, Debug, PartialEq, Eq)]
pub struct QuickFix {
    pub title: String,
    pub command_title: String,
    pub command: String,
    pub document: String,
    pub preferred: bool,
}

/// The text of a hover.
pub fn hover_text() -> (text: String)
    ensures
        text@ == HOVER_TEXT@,
{
    HOVER_TEXT.to_owned()
}

/// The code action offered for the document at `uri`.
pub fn quick_fix(uri: &str) -> (action: QuickFix)
    ensures
        action.title@ == QUICK_FIX_TITLE@,
        action.command_title@ == COMMAND_TITLE@,
        action.command@ == COMMAND_NAME@,
        action.document@ == uri@,
        !action.preferred,
{
    QuickFix {
        title: QUICK_FIX_TITLE.to_owned(),
        command_title: COMMAND_TITLE.to_owned(),
        command: COMMAND_NAME.to_owned(),
        document: uri.to_owned(),
        preferred: false,
    }
}

/// The diagnostic that the command publishes, whatever the document holds.
pub open spec fn command_diagnostic_view() -> DiagnosticView {
    DiagnosticView {
        range: TextRange {
            start: Position { line: 1, character: 1 },
            end: Position { line: 1, character: 2 },
        },
        severity: Severity::Error,
        code: None,
        href: None,
        source: None,
        message: COMMAND_MESSAGE@,
    }
}

/// Makes the diagnostic that the command publishes.
pub fn command_diagnostic() -> (diagnostic: Diagnostic)
    ensures
        diagnostic@ == command_diagnostic_view(),
{
    Diagnostic {
        range: TextRange {
            start: Position { line: 1, character: 1 },
            end: Position { line: 1, character: 2 },
        },
        severity: Severity::Error,
        code: None,
        href: None,
        source: None,
        message: COMMAND_MESSAGE.to_owned(),
    }
}

} // verus!
