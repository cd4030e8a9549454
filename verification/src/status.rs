//! What a side conversation shows of the thread it came from.

use vstd::prelude::*;
use crate::ids::ThreadId;
use crate::protocol::{ServerNotification, ServerRequest, TurnStatus};

verus! {

/// A condition of the parent thread that the user should see from the side conversation.
#[derive(Clone, Copy, Debug, PartialEq, Eq, Structural)]
pub enum SideParentStatus {
    NeedsInput,
    NeedsApproval,
    Failed,
    Interrupted,
    Closed,
    Finished,
}

impl SideParentStatus {
    /// What is said of the parent.
    pub open spec fn words(self) -> Seq<char> {
        match self {
            SideParentStatus::NeedsInput => "needs input"@,
            SideParentStatus::NeedsApproval => "needs approval"@,
            SideParentStatus::Failed => "failed"@,
            SideParentStatus::Interrupted => "interrupted"@,
            SideParentStatus::Closed => "closed"@,
            SideParentStatus::Finished => "finished"@,
        }
    }

    /// The parent by name, and what is said of it.
    pub open spec fn label_text(self, parent_is_main: bool) -> Seq<char> {
        (if parent_is_main {
            "main "@
        } else {
            "parent "@
        }) + self.words()
    }

    /// The parent waits for the user.
    pub open spec fn actionable(self) -> bool {
        self is NeedsInput || self is NeedsApproval
    }

    /// The status that a request of the parent's puts it in.
    pub open spec fn of_request(request: ServerRequest) -> Option<SideParentStatus> {
        match request {
            ServerRequest::ToolRequestUserInput => Some(SideParentStatus::NeedsInput),
            ServerRequest::DynamicToolCall => None,
            ServerRequest::AttestationGenerate => None,
            ServerRequest::CurrentTimeRead => None,
            ServerRequest::ChatgptAuthTokensRefresh => None,
            _ => Some(SideParentStatus::NeedsApproval),
        }
    }

    /// The label of this status, for a parent that is the main thread or another.
    pub fn label(self, parent_is_main: bool) -> (r: &'static str)
        ensures
            r@ == self.label_text(parent_is_main),
    {
        proof {
            reveal_strlit("main ");
            reveal_strlit("parent ");
            reveal_strlit("needs input");
            reveal_strlit("needs approval");
            reveal_strlit("failed");
            reveal_strlit("interrupted");
            reveal_strlit("closed");
            reveal_strlit("finished");
            reveal_strlit("main needs input");
            reveal_strlit("parent needs input");
            reveal_strlit("main needs approval");
            reveal_strlit("parent needs approval");
            reveal_strlit("main failed");
            reveal_strlit("parent failed");
            reveal_strlit("main interrupted");
            reveal_strlit("parent interrupted");
            reveal_strlit("main closed");
            reveal_strlit("parent closed");
            reveal_strlit("main finished");
            reveal_strlit("parent finished");
        }
        match (self, parent_is_main) {
            (SideParentStatus::NeedsInput, true) => "main needs input",
            (SideParentStatus::NeedsInput, false) => "parent needs input",
            (SideParentStatus::NeedsApproval, true) => "main needs approval",
            (SideParentStatus::NeedsApproval, false) => "parent needs approval",
            (SideParentStatus::Failed, true) => "main failed",
            (SideParentStatus::Failed, false) => "parent failed",
            (SideParentStatus::Interrupted, true) => "main interrupted",
            (SideParentStatus::Interrupted, false) => "parent interrupted",
            (SideParentStatus::Closed, true) => "main closed",
            (SideParentStatus::Closed, false) => "parent closed",
            (SideParentStatus::Finished, true) => "main finished",
            (SideParentStatus::Finished, false) => "parent finished",
        }
    }

    /// Tells whether the parent waits for the user.
    pub fn is_actionable(self) -> (r: bool)
        ensures
            r == self.actionable(),
    {
        matches!(self, SideParentStatus::NeedsInput | SideParentStatus::NeedsApproval)
    }

    /// The status that a request of the parent's puts it in; `None` where the user need not act.
    pub fn for_request(request: &ServerRequest) -> (r: Option<Self>)
        ensures
            r == SideParentStatus::of_request(*request),
    {
        match request {
            ServerRequest::ToolRequestUserInput => Some(SideParentStatus::NeedsInput),
            ServerRequest::CommandExecutionRequestApproval
            | ServerRequest::FileChangeRequestApproval
            | ServerRequest::McpServerElicitationRequest
            | ServerRequest::PermissionsRequestApproval
            | ServerRequest::ApplyPatchApproval
            | ServerRequest::ExecCommandApproval => Some(SideParentStatus::NeedsApproval),
            ServerRequest::DynamicToolCall
            | ServerRequest::AttestationGenerate
            | ServerRequest::CurrentTimeRead
            | ServerRequest::ChatgptAuthTokensRefresh => None,
        }
    }
}

/// A change of the parent's status.
#[derive(Clone, Copy, Debug, PartialEq, Eq, Structural)]
pub enum SideParentStatusChange {
    SetTo(SideParentStatus),
    Clear,
    ClearActionable,
}

impl SideParentStatusChange {
    /// The change that a notification about the parent brings.
    pub open spec fn of_notification(notification: ServerNotification) -> Option<
        SideParentStatusChange,
    > {
        match notification {
            ServerNotification::TurnStarted => Some(SideParentStatusChange::Clear),
            ServerNotification::TurnCompleted(TurnStatus::Completed) => Some(
                SideParentStatusChange::SetTo(SideParentStatus::Finished),
            ),
            ServerNotification::TurnCompleted(TurnStatus::Interrupted) => Some(
                SideParentStatusChange::SetTo(SideParentStatus::Interrupted),
            ),
            ServerNotification::TurnCompleted(TurnStatus::Failed) => Some(
                SideParentStatusChange::SetTo(SideParentStatus::Failed),
            ),
            ServerNotification::ThreadClosed => Some(
                SideParentStatusChange::SetTo(SideParentStatus::Closed),
            ),
            ServerNotification::ItemStarted => Some(SideParentStatusChange::ClearActionable),
            ServerNotification::ServerRequestResolved => Some(
                SideParentStatusChange::ClearActionable,
            ),
            _ => None,
        }
    }

    /// What becomes of a status under this change.
    pub open spec fn applied(self, status: Option<SideParentStatus>) -> Option<SideParentStatus> {
        match self {
            SideParentStatusChange::SetTo(new) => Some(new),
            SideParentStatusChange::Clear => None,
            SideParentStatusChange::ClearActionable => match status {
                Some(old) => if old.actionable() {
                    None
                } else {
                    status
                },
                None => None,
            },
        }
    }

    /// The change that a notification about the parent brings; `None` where it brings none.
    pub fn for_notification(notification: &ServerNotification) -> (r: Option<Self>)
        ensures
            r == SideParentStatusChange::of_notification(*notification),
    {
        match notification {
            ServerNotification::TurnStarted => Some(SideParentStatusChange::Clear),
            ServerNotification::TurnCompleted(status) => match status {
                TurnStatus::Completed => Some(
                    SideParentStatusChange::SetTo(SideParentStatus::Finished),
                ),
                TurnStatus::Interrupted => Some(
                    SideParentStatusChange::SetTo(SideParentStatus::Interrupted),
                ),
                TurnStatus::Failed => Some(SideParentStatusChange::SetTo(SideParentStatus::Failed)),
                TurnStatus::InProgress => None,
            },
            ServerNotification::ThreadClosed => Some(
                SideParentStatusChange::SetTo(SideParentStatus::Closed),
            ),
            ServerNotification::ItemStarted | ServerNotification::ServerRequestResolved => Some(
                SideParentStatusChange::ClearActionable,
            ),
            _ => None,
        }
    }
}

/// A side conversation that is open, or about to be.
#[derive(Clone, Copy, Debug, PartialEq, Eq, Structural)]
pub struct SideThreadState {
    /// Thread to return to when the side conversation is dismissed.
    pub parent_thread_id: ThreadId,
    /// Condition of the parent that changed while the side conversation is visible.
    pub parent_status: Option<SideParentStatus>,
}

impl SideThreadState {
    /// A side conversation of a parent of which nothing is to be said yet.
    pub fn new(parent_thread_id: ThreadId) -> (r: Self)
        ensures
            r.parent_thread_id == parent_thread_id,
            r.parent_status is None,
    {
        Self { parent_thread_id, parent_status: None }
    }
}

} // verus!
