//! What the screen shows of side conversations, and of the threads they came from.

use std::collections::HashMap;
use vstd::prelude::*;
use crate::app::{App, AppModel, InterruptedTurnNoticeMode, PendingSideStart, SideUi, SideUiModel};
use crate::ids::{id_to_string, ThreadId};
use crate::maps::keys_of;
use crate::prompts::SIDE_RENAME_BLOCK_MESSAGE;
use crate::status::{SideParentStatus, SideParentStatusChange, SideThreadState};
use crate::text::{join_texts, text_plus};

verus! {

/// A side conversation after a change of the status of `parent`.
pub open spec fn restatused(
    state: SideThreadState,
    parent: ThreadId,
    change: SideParentStatusChange,
) -> SideThreadState {
    if state.parent_thread_id == parent {
        SideThreadState { parent_status: change.applied(state.parent_status), ..state }
    } else {
        state
    }
}

impl AppModel {
    /// A thread by its name, or by its identifier where it has none.
    pub open spec fn thread_label(self, thread_id: ThreadId) -> Seq<char> {
        if self.thread_labels.contains_key(thread_id) {
            self.thread_labels[thread_id]
        } else {
            crate::ids::id_text(thread_id)
        }
    }

    /// Some open side conversation came from `parent`.
    pub open spec fn has_side_of(self, parent: ThreadId) -> bool {
        exists|id: ThreadId| #[trigger]
            self.side_threads.contains_key(id) && self.side_threads[id].parent_thread_id == parent
    }

    /// The parts of the label of a side conversation: where it came from, how its parent stands if
    /// that is known, the key that switches if there is one, and the key that closes.
    pub open spec fn side_label_parts(self, state: SideThreadState) -> Seq<Seq<char>> {
        let parent_is_main = self.primary_thread_id == Some(state.parent_thread_id);
        let origin = if parent_is_main {
            "from main thread"@
        } else {
            "from parent thread ("@ + self.thread_label(state.parent_thread_id) + ")"@
        };
        let status = match state.parent_status {
            Some(status) => seq![status.label_text(parent_is_main)],
            None => seq![],
        };
        let switch = match self.toggle_side_hint {
            Some(key) => seq![key + " to switch"@],
            None => seq![],
        };
        seq![origin] + status + switch + seq!["ctrl + c to close"@]
    }

    /// What the screen should show of side conversations.
    pub open spec fn wanted_ui(self) -> SideUiModel {
        let plain = SideUiModel {
            context_label: None,
            side_conversation_active: false,
            thread_rename_block: None,
            interrupted_turn_notice_mode: InterruptedTurnNoticeMode::Default,
        };
        match self.displayed_thread_id {
            None => plain,
            Some(shown) => if self.side_threads.contains_key(shown) {
                SideUiModel {
                    context_label: Some(
                        "Side "@ + crate::text::joined(
                            self.side_label_parts(self.side_threads[shown]),
                            " · "@,
                        ),
                    ),
                    side_conversation_active: true,
                    thread_rename_block: Some(SIDE_RENAME_BLOCK_MESSAGE@),
                    interrupted_turn_notice_mode: InterruptedTurnNoticeMode::Suppress,
                }
            } else {
                match self.toggle_side_hint {
                    Some(key) => if self.has_side_of(shown) {
                        SideUiModel { context_label: Some(key + " for side"@), ..plain }
                    } else {
                        plain
                    },
                    None => plain,
                }
            },
        }
    }

    /// The state with the screen brought up to date.
    pub open spec fn synced(self) -> AppModel {
        AppModel { side_ui: self.wanted_ui(), ..self }
    }

    /// The parent of the side conversation that the screen shows.
    pub open spec fn active_side_parent(self) -> Option<ThreadId> {
        match self.displayed_thread_id {
            Some(shown) => if self.side_threads.contains_key(shown) {
                Some(self.side_threads[shown].parent_thread_id)
            } else {
                None
            },
            None => None,
        }
    }

    /// A change of the status of `parent` alters an open side conversation.
    pub open spec fn status_changes(self, parent: ThreadId, change: SideParentStatusChange) -> bool {
        exists|id: ThreadId| #[trigger]
            self.side_threads.contains_key(id) && restatused(self.side_threads[id], parent, change)
                != self.side_threads[id]
    }

    /// The state after a change of the status of `parent`: every side conversation that came from
    /// it takes the change, open or pending, and the screen follows if an open one changed.
    pub open spec fn with_status(self, parent: ThreadId, change: SideParentStatusChange) -> AppModel {
        let next = AppModel {
            pending_side_start: match self.pending_side_start {
                Some(pending) => Some(
                    PendingSideStart {
                        side_state: restatused(pending.side_state, parent, change),
                        ..pending
                    },
                ),
                None => None,
            },
            side_threads: self.side_threads.map_values(
                |state: SideThreadState| restatused(state, parent, change),
            ),
            ..self
        };
        if self.status_changes(parent, change) {
            next.synced()
        } else {
            next
        }
    }
}

impl App {
    /// A thread by its name, or by its identifier where it has none.
    pub fn thread_label(&self, thread_id: ThreadId) -> (r: String)
        ensures
            r@ == self@.thread_label(thread_id),
    {
        match self.thread_labels.get(&thread_id) {
            Some(label) => label.clone(),
            None => id_to_string(thread_id),
        }
    }

    /// Tells whether some open side conversation came from `parent`.
    fn has_side_of(&self, parent: ThreadId) -> (r: bool)
        ensures
            r == self@.has_side_of(parent),
    {
        let keys: Vec<ThreadId> = keys_of(&self.side_threads);
        let mut i: usize = 0;
        while i < keys.len()
            invariant
                i <= keys.len(),
                keys@.to_set() == self.side_threads@.dom(),
                forall|j: int|
                    0 <= j < i ==> self.side_threads@[#[trigger] keys@[j]].parent_thread_id != parent,
            decreases keys.len() - i,
        {
            assert(keys@.to_set().contains(keys@[i as int]));
            match self.side_threads.get(&keys[i]) {
                Some(state) => {
                    if state.parent_thread_id == parent {
                        assert(self@.side_threads.contains_key(keys@[i as int]));
                        return true;
                    }
                },
                None => {},
            }
            i = i + 1;
        }
        assert forall|id: ThreadId| #[trigger]
            self@.side_threads.contains_key(id) implies self@.side_threads[id].parent_thread_id
            != parent by {
            assert(keys@.to_set().contains(id));
        }
        false
    }

    /// Brings what the screen shows of side conversations up to date: a label, a block on renaming
    /// and silence about interrupted turns while a side conversation is shown, and the key to it
    /// while its parent is.
    pub fn sync_side_thread_ui(&mut self)
        ensures
            final(self)@ == old(self)@.synced(),
    {
        self.side_ui = SideUi {
            context_label: None,
            side_conversation_active: false,
            thread_rename_block: None,
            interrupted_turn_notice_mode: InterruptedTurnNoticeMode::Default,
        };
        let shown: ThreadId = match self.current_displayed_thread_id() {
            Some(shown) => shown,
            None => {
                return;
            },
        };
        let state: SideThreadState = match self.side_threads.get(&shown) {
            Some(state) => *state,
            None => {
                if self.has_side_of(shown) {
                    match &self.toggle_side_hint {
                        Some(key) => {
                            self.side_ui.context_label = Some(
                                text_plus(key.as_str(), " for side"),
                            );
                        },
                        None => {},
                    }
                }
                return;
            },
        };
        let parts: Vec<String> = self.side_label_parts(state);
        let line: String = join_texts(&parts, " · ");
        self.side_ui = SideUi {
            context_label: Some(text_plus("Side ", line.as_str())),
            side_conversation_active: true,
            thread_rename_block: Some(SIDE_RENAME_BLOCK_MESSAGE.to_owned()),
            interrupted_turn_notice_mode: InterruptedTurnNoticeMode::Suppress,
        };
    }

    /// The parts of the label of a side conversation.
    fn side_label_parts(&self, state: SideThreadState) -> (r: Vec<String>)
        ensures
            crate::text::texts(r@) == self@.side_label_parts(state),
    {
        let mut parts: Vec<String> = Vec::new();
        let parent_is_main: bool = match self.primary_thread_id {
            Some(main) => main == state.parent_thread_id,
            None => false,
        };
        if parent_is_main {
            parts.push("from main thread".to_owned());
        } else {
            let mut origin: String = "from parent thread (".to_owned();
            let label: String = self.thread_label(state.parent_thread_id);
            origin.append(label.as_str());
            origin.append(")");
            parts.push(origin);
        }
        if let Some(status) = state.parent_status {
            parts.push(status.label(parent_is_main).to_owned());
        }
        if let Some(key) = &self.toggle_side_hint {
            parts.push(text_plus(key.as_str(), " to switch"));
        }
        parts.push("ctrl + c to close".to_owned());
        assert(crate::text::texts(parts@) =~= self@.side_label_parts(state));
        parts
    }

    /// The parent of the side conversation that the screen shows; `None` where it shows none.
    pub fn active_side_parent_thread_id(&self) -> (r: Option<ThreadId>)
        ensures
            r == self@.active_side_parent(),
    {
        match self.current_displayed_thread_id() {
            Some(shown) => match self.side_threads.get(&shown) {
                Some(state) => Some(state.parent_thread_id),
                None => None,
            },
            None => None,
        }
    }

    /// Gives every side conversation of `parent_thread_id` that status of its parent, or none.
    pub fn set_side_parent_status(
        &mut self,
        parent_thread_id: ThreadId,
        status: Option<SideParentStatus>,
    )
        ensures
            final(self)@ == old(self)@.with_status(
                parent_thread_id,
                match status {
                    Some(status) => SideParentStatusChange::SetTo(status),
                    None => SideParentStatusChange::Clear,
                },
            ),
    {
        match status {
            Some(status) => self.change_status(
                parent_thread_id,
                SideParentStatusChange::SetTo(status),
            ),
            None => self.change_status(parent_thread_id, SideParentStatusChange::Clear),
        }
    }

    /// Takes from every side conversation of `parent_thread_id` a status that asked the user to
    /// act.
    pub fn clear_side_parent_action_status(&mut self, parent_thread_id: ThreadId)
        ensures
            final(self)@ == old(self)@.with_status(
                parent_thread_id,
                SideParentStatusChange::ClearActionable,
            ),
    {
        self.change_status(parent_thread_id, SideParentStatusChange::ClearActionable);
    }

    /// Applies a change of the status of `parent_thread_id` to its side conversations.
    pub fn apply_side_parent_status_change(
        &mut self,
        parent_thread_id: ThreadId,
        change: SideParentStatusChange,
    )
        ensures
            final(self)@ == old(self)@.with_status(parent_thread_id, change),
    {
        match change {
            SideParentStatusChange::SetTo(status) => {
                self.set_side_parent_status(parent_thread_id, Some(status));
            },
            SideParentStatusChange::Clear => {
                self.set_side_parent_status(parent_thread_id, None);
            },
            SideParentStatusChange::ClearActionable => {
                self.clear_side_parent_action_status(parent_thread_id);
            },
        }
    }

    /// Applies a change to every side conversation of `parent`, open or pending.
    fn change_status(&mut self, parent: ThreadId, change: SideParentStatusChange)
        ensures
            final(self)@ == old(self)@.with_status(parent, change),
    {
        match self.pending_side_start.take() {
            Some(pending) => {
                self.pending_side_start = Some(
                    PendingSideStart {
                        request_id: pending.request_id,
                        side_state: change_state(pending.side_state, parent, change),
                        user_message: pending.user_message,
                    },
                );
            },
            None => {},
        }
        let changed: bool = change_states(&mut self.side_threads, parent, change);
        if changed {
            self.sync_side_thread_ui();
        }
    }
}

/// A side conversation after a change of the status of `parent`.
fn change_state(
    state: SideThreadState,
    parent: ThreadId,
    change: SideParentStatusChange,
) -> (r: SideThreadState)
    ensures
        r == restatused(state, parent, change),
{
    if state.parent_thread_id != parent {
        return state;
    }
    let status: Option<SideParentStatus> = match change {
        SideParentStatusChange::SetTo(status) => Some(status),
        SideParentStatusChange::Clear => None,
        SideParentStatusChange::ClearActionable => match state.parent_status {
            Some(status) => if status.is_actionable() {
                None
            } else {
                Some(status)
            },
            None => None,
        },
    };
    SideThreadState { parent_thread_id: state.parent_thread_id, parent_status: status }
}

/// Changes the status of `parent` in every side conversation of a map, and tells whether that
/// altered one.
fn change_states(
    map: &mut HashMap<ThreadId, SideThreadState>,
    parent: ThreadId,
    change: SideParentStatusChange,
) -> (r: bool)
    ensures
        final(map)@ == old(map)@.map_values(
            |state: SideThreadState| restatused(state, parent, change),
        ),
        r == exists|id: ThreadId| #[trigger]
            old(map)@.contains_key(id) && restatused(old(map)@[id], parent, change) != old(map)@[id],
{
    let keys: Vec<ThreadId> = keys_of(map);
    let ghost before = map@;
    let mut changed: bool = false;
    let mut i: usize = 0;
    while i < keys.len()
        invariant
            i <= keys.len(),
            keys@.no_duplicates(),
            keys@.to_set() == before.dom(),
            map@.dom() == before.dom(),
            forall|j: int|
                0 <= j < i ==> map@[#[trigger] keys@[j]] == restatused(
                    before[keys@[j]],
                    parent,
                    change,
                ),
            forall|j: int| i <= j < keys.len() ==> map@[#[trigger] keys@[j]] == before[keys@[j]],
            changed == exists|j: int|
                0 <= j < i && restatused(before[#[trigger] keys@[j]], parent, change)
                    != before[keys@[j]],
        decreases keys.len() - i,
    {
        assert(keys@.to_set().contains(keys@[i as int]));
        let key: ThreadId = keys[i];
        let found: Option<SideThreadState> = match map.get(&key) {
            Some(state) => Some(*state),
            None => None,
        };
        if let Some(state) = found {
            let next: SideThreadState = change_state(state, parent, change);
            if next != state {
                map.insert(key, next);
                changed = true;
            }
        }
        assert(map@.dom() =~= before.dom());
        i = i + 1;
    }
    proof {
        let after = before.map_values(|state: SideThreadState| restatused(state, parent, change));
        assert forall|id: ThreadId| before.contains_key(id) implies #[trigger] map@[id]
            == after[id] && exists|j: int| 0 <= j < keys.len() && keys@[j] == id by {
            assert(keys@.to_set().contains(id));
        }
        assert(map@ =~= after);
        if changed {
            let j = choose|j: int|
                0 <= j < keys.len() && restatused(before[#[trigger] keys@[j]], parent, change)
                    != before[keys@[j]];
            assert(keys@.to_set().contains(keys@[j]));
            assert(before.contains_key(keys@[j]));
        }
        if exists|id: ThreadId| #[trigger]
            before.contains_key(id) && restatused(before[id], parent, change) != before[id] {
            let id = choose|id: ThreadId| #[trigger]
                before.contains_key(id) && restatused(before[id], parent, change) != before[id];
            assert(keys@.to_set().contains(id));
            let j = choose|j: int| 0 <= j < keys.len() && keys@[j] == id;
            assert(restatused(before[keys@[j]], parent, change) != before[keys@[j]]);
        }
    }
    changed
}

} // verus!
