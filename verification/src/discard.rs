//! Taking side conversations back: at once, in the background, and after the background work has
//! answered.

use color_eyre::Report;
use vstd::prelude::*;
use crate::app::{AgentPickerEntry, App, AppModel, Effect, EffectModel};
use crate::ids::{id_to_string, ThreadId};
use crate::report::show_report;
use crate::status::SideThreadState;

verus! {

/// Tells the user that a side conversation could not be closed.
pub open spec fn close_failure_text(thread_id: ThreadId, error: Seq<char>) -> Seq<char> {
    "Failed to close side conversation "@ + crate::ids::id_text(thread_id)
        + "; it is still open: "@ + error
}

/// The entry for a thread that has no name and no role, and is open.
pub open spec fn plain_entry() -> AgentPickerEntry {
    AgentPickerEntry { agent_nickname: None, agent_role: None, is_closed: false }
}

impl AppModel {
    /// The state with everything forgotten that is kept of a thread here.
    pub open spec fn locally_discarded(self, thread_id: ThreadId) -> AppModel {
        let forgotten = AppModel {
            thread_event_channels: self.thread_event_channels.remove(thread_id),
            side_threads: self.side_threads.remove(thread_id),
            pending_side_threads: self.pending_side_threads.remove(thread_id),
            side_cleanup_recovery: self.side_cleanup_recovery.remove(thread_id),
            agent_navigation: self.agent_navigation.remove(thread_id),
            ..self.emitted(EffectModel::AbortEventListener(thread_id))
        };
        let refocused = if self.active_thread_id == Some(thread_id) {
            AppModel {
                active_thread_id: None,
                ..forgotten.emitted(EffectModel::ClearActiveThread)
            }
        } else {
            forgotten.emitted(EffectModel::RefreshPendingApprovals)
        };
        refocused.emitted(EffectModel::SyncActiveAgentLabel)
    }

    /// The state in which the events of a thread are to be ignored.
    pub open spec fn abandoned(self, thread_id: ThreadId) -> AppModel {
        AppModel {
            abandoned_side_threads: self.abandoned_side_threads.insert(thread_id),
            ..self
        }
    }

    /// The state with a thread on its way out: hidden at once, with what is needed to bring it back
    /// set aside until the server has answered. A thread that is on its way out already stays so.
    pub open spec fn discarded_in_background(self, thread_id: ThreadId) -> AppModel {
        if self.abandoned_side_threads.contains(thread_id) {
            self
        } else {
            let recovery = if self.side_threads.contains_key(thread_id) {
                Some(self.side_threads[thread_id])
            } else {
                None
            };
            AppModel {
                abandoned_side_threads: self.abandoned_side_threads.insert(thread_id),
                side_threads: self.side_threads.remove(thread_id),
                side_cleanup_recovery: self.side_cleanup_recovery.insert(thread_id, recovery),
                pending_side_threads: self.pending_side_threads.remove(thread_id),
                agent_navigation: self.agent_navigation.remove(thread_id),
                ..self.emitted(EffectModel::SyncActiveAgentLabel).emitted(
                    EffectModel::StartSideCleanup(thread_id),
                )
            }
        }
    }

    /// The state after the background work on a thread has answered, with the error if it failed.
    pub open spec fn cleanup_finished(
        self,
        thread_id: ThreadId,
        error: Option<Seq<char>>,
    ) -> AppModel {
        if !self.side_cleanup_recovery.contains_key(thread_id) {
            self
        } else {
            match (error, self.side_cleanup_recovery[thread_id]) {
                (Some(error), Some(recovery)) => {
                    let reopened = AppModel {
                        side_cleanup_recovery: self.side_cleanup_recovery.remove(thread_id),
                        pending_side_threads: self.pending_side_threads.remove(thread_id),
                        abandoned_side_threads: self.abandoned_side_threads.remove(thread_id),
                        side_threads: self.side_threads.insert(thread_id, recovery),
                        agent_navigation: if self.thread_event_channels.contains_key(thread_id) {
                            self.agent_navigation.insert(thread_id, plain_entry())
                        } else {
                            self.agent_navigation
                        },
                        ..self
                    };
                    reopened.failed(close_failure_text(thread_id, error)).emitted(
                        EffectModel::SyncActiveAgentLabel,
                    )
                },
                _ => self.locally_discarded(thread_id),
            }
        }
    }
}

/// Tells the user that a side conversation could not be closed.
fn close_failure(thread_id: ThreadId, error: &str) -> (r: String)
    ensures
        r@ == close_failure_text(thread_id, error@),
{
    let mut message: String = "Failed to close side conversation ".to_owned();
    let id: String = id_to_string(thread_id);
    message.append(id.as_str());
    message.append("; it is still open: ");
    message.append(error);
    message
}

/// The request that stops what a side thread is doing.
#[derive(Debug)]
pub enum InterruptRequest {
    /// Interrupt that turn.
    Turn(ThreadId, String),
    /// Interrupt a thread that has no turn yet.
    Startup(ThreadId),
}

impl App {
    /// Lists a thread in the agent picker, without a name or a role, as open.
    pub(crate) fn list_agent_thread(&mut self, thread_id: ThreadId)
        ensures
            final(self)@ == (AppModel {
                agent_navigation: old(self)@.agent_navigation.insert(thread_id, plain_entry()),
                ..old(self)@
            }),
    {
        self.agent_navigation.insert(
            thread_id,
            AgentPickerEntry { agent_nickname: None, agent_role: None, is_closed: false },
        );
    }

    /// Forgets everything that is kept of a thread here.
    pub fn discard_thread_local_state(&mut self, thread_id: ThreadId)
        ensures
            final(self)@ == old(self)@.locally_discarded(thread_id),
    {
        self.emit(Effect::AbortEventListener(thread_id));
        self.thread_event_channels.remove(&thread_id);
        self.side_threads.remove(&thread_id);
        self.pending_side_threads.remove(&thread_id);
        self.side_cleanup_recovery.remove(&thread_id);
        self.agent_navigation.remove(&thread_id);
        let was_active: bool = match self.active_thread_id {
            Some(active) => active == thread_id,
            None => false,
        };
        if was_active {
            self.active_thread_id = None;
            self.emit(Effect::ClearActiveThread);
        } else {
            self.emit(Effect::RefreshPendingApprovals);
        }
        self.emit(Effect::SyncActiveAgentLabel);
    }

    /// Forgets a side thread that the server has closed.
    pub fn discard_closed_side_thread(&mut self, thread_id: ThreadId)
        ensures
            final(self)@ == old(self)@.locally_discarded(thread_id),
    {
        self.discard_thread_local_state(thread_id);
    }

    /// Takes a thread out of sight and leaves the rest to background work. What is needed to bring
    /// it back is set aside. Nothing happens for a thread that was taken out of sight before.
    pub fn discard_side_thread_in_background(&mut self, thread_id: ThreadId)
        ensures
            final(self)@ == old(self)@.discarded_in_background(thread_id),
    {
        if !self.abandoned_side_threads.insert(thread_id) {
            assert(old(self)@.abandoned_side_threads.insert(thread_id)
                =~= old(self)@.abandoned_side_threads);
            return;
        }
        let recovery: Option<SideThreadState> = self.side_threads.remove(&thread_id);
        self.side_cleanup_recovery.insert(thread_id, recovery);
        self.pending_side_threads.remove(&thread_id);
        self.agent_navigation.remove(&thread_id);
        self.emit(Effect::SyncActiveAgentLabel);
        self.emit(Effect::StartSideCleanup(thread_id));
    }

    /// Takes the answer of the background work on a thread: what is left of the thread is
    /// forgotten, or, where closing it failed and it was open before, it is open again and the user
    /// is told. An answer that nobody waits for changes nothing.
    pub fn handle_side_thread_cleanup_finished(
        &mut self,
        thread_id: ThreadId,
        result: Result<(), String>,
    )
        ensures
            final(self)@ == old(self)@.cleanup_finished(
                thread_id,
                match result {
                    Ok(_) => None,
                    Err(error) => Some(error@),
                },
            ),
    {
        let recovery: Option<SideThreadState> = match self.side_cleanup_recovery.remove(
            &thread_id,
        ) {
            Some(recovery) => recovery,
            None => {
                assert(old(self)@.side_cleanup_recovery.remove(thread_id)
                    =~= old(self)@.side_cleanup_recovery);
                return;
            },
        };
        self.pending_side_threads.remove(&thread_id);
        match result {
            Ok(_) => {
                self.discard_thread_local_state(thread_id);
            },
            Err(error) => {
                match recovery {
                    Some(state) => {
                        self.abandoned_side_threads.remove(&thread_id);
                        self.side_threads.insert(thread_id, state);
                        if self.thread_event_channels.contains_key(&thread_id) {
                            self.list_agent_thread(thread_id);
                        }
                        self.emit(Effect::ShowError(close_failure(thread_id, error.as_str())));
                        self.emit(Effect::SyncActiveAgentLabel);
                    },
                    None => {
                        self.discard_thread_local_state(thread_id);
                    },
                }
            },
        }
    }

    /// The request that stops a side thread before it is closed: its running turn is interrupted,
    /// or its start where it has none.
    pub fn interrupt_side_thread(thread_id: ThreadId, active_turn_id: Option<String>) -> (r:
        InterruptRequest)
        ensures
            r == match active_turn_id {
                Some(turn_id) => InterruptRequest::Turn(thread_id, turn_id),
                None => InterruptRequest::Startup(thread_id),
            },
    {
        match active_turn_id {
            Some(turn_id) => InterruptRequest::Turn(thread_id, turn_id),
            None => InterruptRequest::Startup(thread_id),
        }
    }

    /// Takes the answer to the interrupt with which closing a side thread begins, and tells whether
    /// to go on and unsubscribe. Where the interrupt failed the thread stays open and the user is
    /// told.
    pub fn discard_side_thread(&mut self, thread_id: ThreadId, interrupt: Result<(), Report>) -> (r:
        bool)
        ensures
            r == interrupt is Ok,
            final(self)@ == match interrupt {
                Ok(_) => old(self)@,
                Err(error) => old(self)@.failed(
                    close_failure_text(thread_id, crate::report::shown_text(error)),
                ),
            },
    {
        match interrupt {
            Ok(_) => true,
            Err(error) => {
                let text: String = show_report(&error);
                self.emit(Effect::ShowError(close_failure(thread_id, text.as_str())));
                false
            },
        }
    }

    /// Takes the answer to unsubscribing from a side thread that was interrupted, and tells whether
    /// the thread is closed. It is then forgotten; otherwise it stays open and the user is told.
    pub fn discard_unsubscribed_side_thread(
        &mut self,
        thread_id: ThreadId,
        unsubscribe: Result<(), Report>,
    ) -> (r: bool)
        ensures
            r == unsubscribe is Ok,
            final(self)@ == match unsubscribe {
                Ok(_) => old(self)@.abandoned(thread_id).locally_discarded(thread_id),
                Err(error) => old(self)@.failed(
                    close_failure_text(thread_id, crate::report::shown_text(error)),
                ),
            },
    {
        match unsubscribe {
            Ok(_) => {
                self.abandoned_side_threads.insert(thread_id);
                self.discard_thread_local_state(thread_id);
                true
            },
            Err(error) => {
                let text: String = show_report(&error);
                self.emit(Effect::ShowError(close_failure(thread_id, text.as_str())));
                false
            },
        }
    }
}

} // verus!
