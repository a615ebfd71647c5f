//! Which handler an incoming message goes to, by its method name.

use vstd::prelude::*;
use crate::text::same_text;

verus! {

/// The method of a hover request.
pub const HOVER_METHOD: &'static str = "textDocument/hover";

/// The method of a code-action request.
pub const CODE_ACTION_METHOD: &'static str = "textDocument/codeAction";

/// The method of an execute-command request.
pub const EXECUTE_COMMAND_METHOD: &'static str = "workspace/executeCommand";

/// The method of the notification that a document's text changed.
pub const DID_CHANGE_METHOD: &'static str = "textDocument/didChange";

/// The method of the notification that carries a document's diagnostics.
pub const PUBLISH_DIAGNOSTICS_METHOD: &'static str = "textDocument/publishDiagnostics";

/// Where a request goes.
#[derive(Clone, Copy, Debug, PartialEq, Eq, Structural)]
pub enum RequestRoute {
    Hover,
    CodeAction,
    ExecuteCommand,
    Unsupported,
}

/// Where a notification goes.
#[derive(Clone, Copy, Debug, PartialEq, Eq, Structural)]
pub enum NotificationRoute {
    DocumentChange,
    Unsupported,
}

/// The route of a request with the method `method`.
pub open spec fn request_route(method: Seq<char>) -> RequestRoute {
    if method == HOVER_METHOD@ {
        RequestRoute::Hover
    } else if method == CODE_ACTION_METHOD@ {
        RequestRoute::CodeAction
    } else if method == EXECUTE_COMMAND_METHOD@ {
        RequestRoute::ExecuteCommand
    } else {
        RequestRoute::Unsupported
    }
}

/// The route of a notification with the method `method`.
pub open spec fn notification_route(method: Seq<char>) -> NotificationRoute {
    if method == DID_CHANGE_METHOD@ {
        NotificationRoute::DocumentChange
    } else {
        NotificationRoute::Unsupported
    }
}

/// Decides which handler a request goes to.
pub fn route_request(method: &str) -> (route: RequestRoute)
    ensures
        route == request_route(method@),
{
    if same_text(method, HOVER_METHOD) {
        RequestRoute::Hover
    } else if same_text(method, CODE_ACTION_METHOD) {
        RequestRoute::CodeAction
    } else if same_text(method, EXECUTE_COMMAND_METHOD) {
        RequestRoute::ExecuteCommand
    } else {
        RequestRoute::Unsupported
    }
}

/// Decides which handler a notification goes to.
pub fn route_notification(method: &str) -> (route: NotificationRoute)
    ensures
        route == notification_route(method@),
{
    if same_text(method, DID_CHANGE_METHOD) {
        NotificationRoute::DocumentChange
    } else {
        NotificationRoute::Unsupported
    }
}

} // verus!
