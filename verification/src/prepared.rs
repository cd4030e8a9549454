//! What happens once a side thread has been prepared: it is opened and switched to, or taken back.

use color_eyre::Report;
use vstd::prelude::*;
use crate::app::{
    App, AppModel, Effect, EffectModel, PendingSideStart, SideUiModel, StoreModel,
    ThreadEventStore, ThreadSessionState, Turn, UserMessage,
};
use crate::ids::{id_to_string, StartRequestId, ThreadId};
use crate::report::show_report;
use crate::status::SideThreadState;

verus! {

/// A preparation that failed.
#[derive(Debug)]
pub struct SideThreadPrepareError {
    /// The fork, where it was made before the failure.
    pub session: Option<ThreadSessionState>,
    pub error: Report,
}

/// A switch from a parent into its side conversation.
#[derive(Debug)]
pub struct SideSwitch {
    pub child_thread_id: ThreadId,
    pub parent_thread_id: ThreadId,
    /// What the user wants to ask once the switch is made.
    pub user_message: Option<UserMessage>,
}

/// A switch that failed and left the parent.
#[derive(Debug)]
pub struct FailedSideSwitch {
    pub child_thread_id: ThreadId,
    pub parent_thread_id: ThreadId,
    pub user_message: Option<UserMessage>,
    pub error: String,
}

/// What is kept of a side thread at first: a session that shows no history but its own, and no
/// turns, so that on the screen it begins at its boundary.
pub open spec fn side_snapshot(session: ThreadSessionState) -> StoreModel {
    StoreModel {
        session: Some(ThreadSessionState { forked_from_id: None, ..session }),
        turns: Seq::empty(),
    }
}

/// The fork that a preparation made, failed or not.
pub open spec fn prepared_session(
    result: Result<ThreadSessionState, SideThreadPrepareError>,
) -> Option<ThreadSessionState> {
    match result {
        Ok(session) => Some(session),
        Err(error) => error.session,
    }
}

/// Tells the user that the screen could not switch into a side conversation.
pub open spec fn switch_failure_text(thread_id: ThreadId, error: Seq<char>) -> Seq<char> {
    "Failed to switch into side conversation "@ + crate::ids::id_text(thread_id) + ": "@ + error
}

impl AppModel {
    /// The state with the snapshot of a side thread installed.
    pub open spec fn snapshot_installed(self, session: ThreadSessionState) -> AppModel {
        AppModel {
            thread_event_channels: self.thread_event_channels.insert(
                session.thread_id,
                side_snapshot(session),
            ),
            ..self
        }
    }

    /// The state after a fork that nobody wants any more was taken back, if there is one.
    pub open spec fn fork_dropped(self, session: Option<ThreadSessionState>) -> AppModel {
        match session {
            Some(session) => self.snapshot_installed(session).discarded_in_background(
                session.thread_id,
            ),
            None => self,
        }
    }

    /// The state with a side conversation open.
    pub open spec fn side_opened(self, id: ThreadId, state: SideThreadState) -> AppModel {
        AppModel { side_threads: self.side_threads.insert(id, state), ..self }
    }

    /// The start under way is the one that was asked for under that request.
    pub open spec fn is_pending(self, request_id: StartRequestId) -> bool {
        self.pending_side_start is Some && self.pending_side_start->0.request_id == request_id
    }

    /// The state in which a preparation is waited for no longer.
    pub open spec fn answer_taken(self, request_id: StartRequestId) -> AppModel {
        AppModel {
            canceled_side_start_parents: self.canceled_side_start_parents.remove(request_id),
            pending_side_start: if self.is_pending(request_id) {
                None
            } else {
                self.pending_side_start
            },
            ..self
        }
    }

    /// The state after a preparation has answered.
    pub open spec fn prepared(
        self,
        request_id: StartRequestId,
        result: Result<ThreadSessionState, SideThreadPrepareError>,
    ) -> AppModel {
        let taken = self.answer_taken(request_id);
        let session = prepared_session(result);
        if !self.is_pending(request_id) {
            taken.fork_dropped(session)
        } else {
            let pending = self.pending_side_start->0;
            let parent = pending.side_state.parent_thread_id;
            if self.displayed_thread_id != Some(parent) {
                let opened = match result {
                    Ok(session) => taken.side_opened(session.thread_id, pending.side_state),
                    Err(_) => taken,
                };
                opened.fork_dropped(session).restored_for(parent, pending.user_message)
            } else {
                match result {
                    Ok(session) => AppModel {
                        pending_side_threads: taken.pending_side_threads.remove(session.thread_id),
                        agent_navigation: taken.agent_navigation.insert(
                            session.thread_id,
                            crate::discard::plain_entry(),
                        ),
                        ..taken.snapshot_installed(session).side_opened(
                            session.thread_id,
                            pending.side_state,
                        )
                    },
                    Err(error) => taken.fork_dropped(error.session).restored_for(
                        parent,
                        pending.user_message,
                    ).unlabeled().failed(
                        crate::start::start_error_text(
                            crate::report::shown_chain(error.error),
                            crate::report::shown_text(error.error),
                        ),
                    ),
                }
            }
        }
    }

    /// The switch to make after a preparation has answered: where it went well, is still wanted,
    /// and the parent is still shown.
    pub open spec fn switch_due(
        self,
        request_id: StartRequestId,
        result: Result<ThreadSessionState, SideThreadPrepareError>,
    ) -> Option<SideSwitch> {
        let pending = self.pending_side_start->0;
        match result {
            Ok(session) if self.is_pending(request_id) && self.displayed_thread_id == Some(
                pending.side_state.parent_thread_id,
            ) => Some(
                SideSwitch {
                    child_thread_id: session.thread_id,
                    parent_thread_id: pending.side_state.parent_thread_id,
                    user_message: pending.user_message,
                },
            ),
            _ => None,
        }
    }

    /// The state with no label for side conversations on the screen.
    pub open spec fn unlabeled(self) -> AppModel {
        AppModel { side_ui: SideUiModel { context_label: None, ..self.side_ui }, ..self }
    }

    /// The state with the question asked, if there is one.
    pub open spec fn submitted(self, message: Option<UserMessage>) -> AppModel {
        match message {
            Some(message) => self.emitted(EffectModel::SubmitUserTurn(message)),
            None => self,
        }
    }

    /// The state after a switch failed and the screen has done what it could to go back.
    pub open spec fn switch_given_up(
        self,
        child: ThreadId,
        parent: ThreadId,
        message: Option<UserMessage>,
        error: Seq<char>,
    ) -> AppModel {
        self.restored_for(parent, message).failed(switch_failure_text(child, error))
    }

    /// The state after a switch was tried: the question is asked where the side conversation is
    /// active, and otherwise the side conversation is taken back and the question with it. A switch
    /// that failed elsewhere than in the parent leaves the question until the screen has gone back.
    pub open spec fn switched(self, switch: SideSwitch, error: Option<Seq<char>>) -> AppModel {
        let (child, parent) = (switch.child_thread_id, switch.parent_thread_id);
        match error {
            Some(error) => {
                let dropped = self.discarded_in_background(child);
                if self.active_thread_id == Some(parent) {
                    dropped.switch_given_up(child, parent, switch.user_message, error)
                } else {
                    dropped
                }
            },
            None => if self.active_thread_id == Some(child) {
                self.submitted(switch.user_message)
            } else {
                self.discarded_in_background(child).restored_for(parent, switch.user_message)
            },
        }
    }
}

/// Tells the user that the screen could not switch into a side conversation.
fn switch_failure(thread_id: ThreadId, error: &str) -> (r: String)
    ensures
        r@ == switch_failure_text(thread_id, error@),
{
    let mut message: String = "Failed to switch into side conversation ".to_owned();
    let id: String = id_to_string(thread_id);
    message.append(id.as_str());
    message.append(": ");
    message.append(error);
    message
}

impl App {
    /// Installs what is kept of a side thread at first. The turns that came with the fork are for
    /// the model alone.
    pub fn install_side_thread_snapshot(
        store: &mut ThreadEventStore,
        session: ThreadSessionState,
        _forked_turns: Vec<Turn>,
    )
        ensures
            final(store)@ == side_snapshot(session),
    {
        let own: ThreadSessionState = ThreadSessionState {
            thread_id: session.thread_id,
            forked_from_id: None,
            details: session.details,
        };
        store.set_session(own, Vec::new());
    }

    /// Installs the snapshot of a side thread, whether or not anything was kept of it before.
    fn install_snapshot(&mut self, session: ThreadSessionState)
        ensures
            final(self)@ == old(self)@.snapshot_installed(session),
    {
        let thread_id: ThreadId = session.thread_id;
        let mut store: ThreadEventStore = match self.thread_event_channels.remove(&thread_id) {
            Some(store) => store,
            None => ThreadEventStore::new(),
        };
        Self::install_side_thread_snapshot(&mut store, session, Vec::new());
        self.thread_event_channels.insert(thread_id, store);
    }

    /// Takes a fork back that nobody wants any more, if there is one.
    fn drop_fork(&mut self, session: Option<ThreadSessionState>)
        ensures
            final(self)@ == old(self)@.fork_dropped(session),
    {
        if let Some(session) = session {
            let thread_id: ThreadId = session.thread_id;
            self.install_snapshot(session);
            self.discard_side_thread_in_background(thread_id);
        }
    }

    /// Takes the start under way, where it is the one asked for under that request.
    fn take_pending(&mut self, request_id: StartRequestId) -> (r: Option<PendingSideStart>)
        ensures
            r == if old(self)@.is_pending(request_id) {
                old(self)@.pending_side_start
            } else {
                None
            },
            final(self)@ == old(self)@.answer_taken(request_id),
    {
        self.canceled_side_start_parents.remove(&request_id);
        let is_pending: bool = match &self.pending_side_start {
            Some(pending) => pending.request_id == request_id,
            None => false,
        };
        if is_pending {
            self.pending_side_start.take()
        } else {
            None
        }
    }

    /// Takes the answer of a preparation. Where it went well, is still wanted, and the parent is
    /// still shown, the side conversation is open and the switch into it is handed out. Otherwise
    /// the fork is taken back, and the question goes back to where it was typed.
    pub fn handle_side_thread_prepared(
        &mut self,
        request_id: StartRequestId,
        result: Result<ThreadSessionState, SideThreadPrepareError>,
    ) -> (r: Option<SideSwitch>)
        ensures
            r == old(self)@.switch_due(request_id, result),
            final(self)@ == old(self)@.prepared(request_id, result),
    {
        let pending: PendingSideStart = match self.take_pending(request_id) {
            Some(pending) => pending,
            None => {
                let session: Option<ThreadSessionState> = match result {
                    Ok(session) => Some(session),
                    Err(error) => error.session,
                };
                self.drop_fork(session);
                return None;
            },
        };
        let parent: ThreadId = pending.side_state.parent_thread_id;
        let is_shown: bool = match self.current_displayed_thread_id() {
            Some(shown) => shown == parent,
            None => false,
        };
        if !is_shown {
            let session: Option<ThreadSessionState> = match result {
                Ok(session) => {
                    self.side_threads.insert(session.thread_id, pending.side_state);
                    Some(session)
                },
                Err(error) => error.session,
            };
            self.drop_fork(session);
            self.restore_side_user_message_for_thread(parent, pending.user_message);
            return None;
        }
        match result {
            Ok(session) => {
                let child: ThreadId = session.thread_id;
                self.pending_side_threads.remove(&child);
                self.install_snapshot(session);
                self.side_threads.insert(child, pending.side_state);
                self.list_agent_thread(child);
                Some(
                    SideSwitch {
                        child_thread_id: child,
                        parent_thread_id: parent,
                        user_message: pending.user_message,
                    },
                )
            },
            Err(error) => {
                self.drop_fork(error.session);
                self.restore_side_user_message_for_thread(parent, pending.user_message);
                self.side_ui.context_label = None;
                let message: String = Self::side_start_error_message(&error.error);
                self.emit(Effect::ShowError(message));
                None
            },
        }
    }

    /// Takes the outcome of the switch into a side conversation. Where it failed and the parent is
    /// not active either, the failure is handed out: the parent is to be selected, and then
    /// [`App::give_up_side_switch`] follows.
    pub fn finish_side_switch(&mut self, switch: SideSwitch, outcome: Result<(), Report>) -> (r:
        Option<FailedSideSwitch>)
        ensures
            final(self)@ == old(self)@.switched(
                switch,
                match outcome {
                    Ok(_) => None,
                    Err(error) => Some(crate::report::shown_text(error)),
                },
            ),
            r is Some <==> outcome is Err && old(self)@.active_thread_id != Some(
                switch.parent_thread_id,
            ),
            r matches Some(failed) ==> {
                &&& failed.child_thread_id == switch.child_thread_id
                &&& failed.parent_thread_id == switch.parent_thread_id
                &&& failed.user_message == switch.user_message
                &&& failed.error@ == crate::report::shown_text(outcome->Err_0)
            },
    {
        let child: ThreadId = switch.child_thread_id;
        let parent: ThreadId = switch.parent_thread_id;
        match outcome {
            Err(error) => {
                self.discard_side_thread_in_background(child);
                let failed: FailedSideSwitch = FailedSideSwitch {
                    child_thread_id: child,
                    parent_thread_id: parent,
                    user_message: switch.user_message,
                    error: show_report(&error),
                };
                let in_parent: bool = match self.active_thread_id {
                    Some(active) => active == parent,
                    None => false,
                };
                if in_parent {
                    self.give_up_side_switch(failed);
                    None
                } else {
                    Some(failed)
                }
            },
            Ok(_) => {
                let in_child: bool = match self.active_thread_id {
                    Some(active) => active == child,
                    None => false,
                };
                if in_child {
                    if let Some(message) = switch.user_message {
                        self.emit(Effect::SubmitUserTurn(message));
                    }
                } else {
                    self.discard_side_thread_in_background(child);
                    self.restore_side_user_message_for_thread(parent, switch.user_message);
                }
                None
            },
        }
    }

    /// Ends a switch that failed, once the screen has done what it could to go back to the parent:
    /// the question goes back to where it was typed, and the user is told.
    pub fn give_up_side_switch(&mut self, failed: FailedSideSwitch)
        ensures
            final(self)@ == old(self)@.switch_given_up(
                failed.child_thread_id,
                failed.parent_thread_id,
                failed.user_message,
                failed.error@,
            ),
    {
        self.restore_side_user_message_for_thread(failed.parent_thread_id, failed.user_message);
        self.emit(
            Effect::ShowError(switch_failure(failed.child_thread_id, failed.error.as_str())),
        );
    }
}

} // verus!
