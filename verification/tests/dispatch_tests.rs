use field_usage::diagnostic::{Diagnostic, Position, Severity, TextRange};
use field_usage::dispatch::{
    route_notification, route_request, NotificationRoute, RequestRoute, PUBLISH_DIAGNOSTICS_METHOD,
};
use field_usage::placeholder::{command_diagnostic, hover_text, quick_fix, QuickFix, COMMAND_NAME};

#[test]
fn requests_go_by_their_method() {
    assert_eq!(route_request("textDocument/hover"), RequestRoute::Hover);
    assert_eq!(route_request("textDocument/codeAction"), RequestRoute::CodeAction);
    assert_eq!(route_request("workspace/executeCommand"), RequestRoute::ExecuteCommand);
}

#[test]
fn other_requests_are_unsupported() {
    assert_eq!(route_request("textDocument/completion"), RequestRoute::Unsupported);
    assert_eq!(route_request("textDocument/didChange"), RequestRoute::Unsupported);
    assert_eq!(route_request("textDocument/Hover"), RequestRoute::Unsupported);
    assert_eq!(route_request(""), RequestRoute::Unsupported);
}

#[test]
fn notifications_go_by_their_method() {
    assert_eq!(route_notification("textDocument/didChange"), NotificationRoute::DocumentChange);
    assert_eq!(route_notification("textDocument/didOpen"), NotificationRoute::Unsupported);
    assert_eq!(route_notification("textDocument/hover"), NotificationRoute::Unsupported);
}

#[test]
fn diagnostics_are_published_under_their_method() {
    assert_eq!(PUBLISH_DIAGNOSTICS_METHOD, "textDocument/publishDiagnostics");
}

#[test]
fn hover_shows_the_fixed_text() {
    assert_eq!(hover_text(), "hello world");
}

#[test]
fn quick_fix_runs_the_command_on_the_document() {
    assert_eq!(
        quick_fix("file:///c/Client.cs"),
        QuickFix {
            title: "test code action".to_string(),
            command_title: "fakediagnostics".to_string(),
            command: "fake".to_string(),
            document: "file:///c/Client.cs".to_string(),
            preferred: false,
        }
    );
    assert_eq!(COMMAND_NAME, "fake");
}

#[test]
fn command_publishes_the_fixed_diagnostic() {
    assert_eq!(
        command_diagnostic(),
        Diagnostic {
            range: TextRange {
                start: Position { line: 1, character: 1 },
                end: Position { line: 1, character: 2 },
            },
            severity: Severity::Error,
            code: None,
            href: None,
            source: None,
            message: "lol".to_string(),
        }
    );
}
