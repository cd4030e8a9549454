//! What the app server asks and announces, as far as side conversations read it.

use vstd::prelude::*;

verus! {

/// A request of the app server to the client, by its kind.
#[derive(Clone, Copy, Debug, PartialEq, Eq, Structural)]
pub enum ServerRequest {
    ToolRequestUserInput,
    CommandExecutionRequestApproval,
    FileChangeRequestApproval,
    McpServerElicitationRequest,
    PermissionsRequestApproval,
    ApplyPatchApproval,
    ExecCommandApproval,
    DynamicToolCall,
    AttestationGenerate,
    CurrentTimeRead,
    ChatgptAuthTokensRefresh,
}

/// How a turn stands.
#[derive(Clone, Copy, Debug, PartialEq, Eq, Structural)]
pub enum TurnStatus {
    Completed,
    Interrupted,
    Failed,
    InProgress,
}

/// A thread that the app server announces as started.
#[derive(Debug)]
pub struct StartedThread {
    /// The thread is not kept when it ends.
    pub ephemeral: bool,
    /// The thread that this one was forked from, as the server wrote it.
    pub forked_from_id: Option<String>,
}

/// A notification of the app server.
#[derive(Debug)]
pub enum ServerNotification {
    TurnStarted,
    TurnCompleted(TurnStatus),
    ThreadStarted(StartedThread),
    ThreadClosed,
    ItemStarted,
    ServerRequestResolved,
    /// Any other notification.
    Other,
}

/// A piece of a message to the model.
#[derive(Debug)]
pub enum ContentItem {
    InputText { text: String },
}

/// An item of a thread's history.
#[derive(Debug)]
pub enum ResponseItem {
    Message {
        id: Option<String>,
        role: String,
        content: Vec<ContentItem>,
        phase: Option<String>,
        internal_chat_message_metadata_passthrough: Option<String>,
    },
}

} // verus!
