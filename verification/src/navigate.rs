//! Moving between a side conversation, its parent and other threads.

use color_eyre::Report;
use vstd::prelude::*;
use crate::app::{App, AppModel, Effect, EffectModel};
use crate::ids::ThreadId;
use crate::maps::keys_of;
use crate::status::SideThreadState;

verus! {

/// The side conversation to discard once `target` is shown in place of `shown`: the one there is,
/// where it or its parent was shown and something else will be.
pub open spec fn discard_choice(
    shown: ThreadId,
    side: ThreadId,
    parent: ThreadId,
    target: ThreadId,
) -> Option<ThreadId> {
    if target != side && target != shown && (shown == side || shown == parent) {
        Some(side)
    } else {
        None
    }
}

/// Where toggling leads from `shown`: from the side conversation to its parent, from the parent to
/// the side conversation, from elsewhere nowhere.
pub open spec fn toggle_choice(shown: ThreadId, side: ThreadId, parent: ThreadId) -> Option<
    ThreadId,
> {
    if shown == side {
        Some(parent)
    } else if shown == parent {
        Some(side)
    } else {
        None
    }
}

impl AppModel {
    /// The thread to go back to when the user asks for that with nothing else in hand.
    pub open spec fn return_target(self) -> Option<ThreadId> {
        if !self.overlay_open && !self.modal_or_popup_active && self.composer_is_empty {
            self.active_side_parent()
        } else {
            None
        }
    }

    /// `side` may be discarded, or nothing, once `target` is shown. Of several side conversations
    /// any one may be looked at.
    pub open spec fn may_discard(self, target: ThreadId, side: Option<ThreadId>) -> bool {
        match self.displayed_thread_id {
            Some(shown) if !self.side_threads.dom().is_empty() => exists|id: ThreadId| #[trigger]
                self.side_threads.contains_key(id) && side == discard_choice(
                    shown,
                    id,
                    self.side_threads[id].parent_thread_id,
                    target,
                ),
            _ => side is None,
        }
    }

    /// Toggling may lead to `target`. Of several side conversations any one may be looked at.
    pub open spec fn may_toggle_to(self, target: Option<ThreadId>) -> bool {
        match self.displayed_thread_id {
            Some(shown) if !self.side_threads.dom().is_empty() => exists|id: ThreadId| #[trigger]
                self.side_threads.contains_key(id) && target == toggle_choice(
                    shown,
                    id,
                    self.side_threads[id].parent_thread_id,
                ),
            _ => target is None,
        }
    }

    /// The state after `thread_id` was selected in earnest, with that side conversation to discard.
    pub open spec fn selected(self, thread_id: ThreadId, side: Option<ThreadId>) -> AppModel {
        match side {
            Some(side) if self.active_thread_id == Some(thread_id) => {
                self.discarded_in_background(side).emitted(EffectModel::SurfacePendingRequests)
            },
            _ => self,
        }
    }
}

impl App {
    /// An open side conversation; `None` where there is none. Which one it is where there are
    /// several is left open.
    fn some_side_thread(&self) -> (r: Option<(ThreadId, SideThreadState)>)
        ensures
            match r {
                Some((id, state)) => self@.side_threads.contains_key(id)
                    && self@.side_threads[id] == state,
                None => self@.side_threads.dom().is_empty(),
            },
    {
        let keys: Vec<ThreadId> = keys_of(&self.side_threads);
        if keys.len() == 0 {
            assert(self@.side_threads.dom().len() == 0);
            return None;
        }
        let id: ThreadId = keys[0];
        assert(keys@.to_set().contains(id));
        match self.side_threads.get(&id) {
            Some(state) => Some((id, *state)),
            None => None,
        }
    }

    /// The parent to return to from the side conversation that the screen shows; `None` where it
    /// shows none, or where the user is in the middle of something.
    pub fn maybe_return_from_side(&self) -> (r: Option<ThreadId>)
        ensures
            r == self@.return_target(),
    {
        if !self.overlay_open && !self.modal_or_popup_active && self.composer_is_empty {
            self.active_side_parent_thread_id()
        } else {
            None
        }
    }

    /// Tells, once the parent has been selected, whether the side conversation was left.
    pub fn returned_from_side(&self, selected: &Result<(), Report>) -> (r: bool)
        ensures
            r == (*selected is Ok && self@.active_side_parent() is None),
    {
        selected.is_ok() && self.active_side_parent_thread_id().is_none()
    }

    /// The side conversation to discard once `target_thread_id` is shown.
    pub fn side_thread_to_discard_after_switch(&self, target_thread_id: ThreadId) -> (r: Option<
        ThreadId,
    >)
        ensures
            self@.may_discard(target_thread_id, r),
    {
        let shown: ThreadId = match self.current_displayed_thread_id() {
            Some(shown) => shown,
            None => {
                return None;
            },
        };
        let (side, state): (ThreadId, SideThreadState) = match self.some_side_thread() {
            Some(entry) => entry,
            None => {
                return None;
            },
        };
        assert(self@.side_threads.dom().contains(side));
        if target_thread_id == side || target_thread_id == shown {
            return None;
        }
        if shown == side || shown == state.parent_thread_id {
            Some(side)
        } else {
            None
        }
    }

    /// The thread that toggling the side conversation leads to; `None` where it leads nowhere.
    pub fn toggle_side_conversation(&self) -> (r: Option<ThreadId>)
        ensures
            self@.may_toggle_to(r),
    {
        let shown: ThreadId = match self.current_displayed_thread_id() {
            Some(shown) => shown,
            None => {
                return None;
            },
        };
        let (side, state): (ThreadId, SideThreadState) = match self.some_side_thread() {
            Some(entry) => entry,
            None => {
                return None;
            },
        };
        assert(self@.side_threads.dom().contains(side));
        if shown == side {
            Some(state.parent_thread_id)
        } else if shown == state.parent_thread_id {
            Some(side)
        } else {
            None
        }
    }

    /// Takes the outcome of selecting `thread_id`, given the side conversation that was to be
    /// discarded with the switch: it is discarded in the background once the thread is active, and
    /// what waits in other threads comes up. A selection that failed is handed on.
    pub fn select_agent_thread_and_discard_side(
        &mut self,
        thread_id: ThreadId,
        side_thread_to_discard: Option<ThreadId>,
        outcome: Result<(), Report>,
    ) -> (r: Result<(), Report>)
        ensures
            r == outcome,
            final(self)@ == if outcome is Ok {
                old(self)@.selected(thread_id, side_thread_to_discard)
            } else {
                old(self)@
            },
    {
        if outcome.is_ok() {
            let is_active: bool = match self.active_thread_id {
                Some(active) => active == thread_id,
                None => false,
            };
            if is_active {
                if let Some(side) = side_thread_to_discard {
                    self.discard_side_thread_in_background(side);
                    self.emit(Effect::SurfacePendingRequests);
                }
            }
        }
        outcome
    }
}

} // verus!
