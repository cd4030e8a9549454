//! What holds of side conversations across decisions.

use vstd::prelude::*;
use crate::app::{AppModel, ChatSettings, EffectModel, ThreadSessionState, UserMessage};
use crate::cleanup::{InterruptFailure, SideCleanup};
use crate::ids::{StartRequestId, ThreadId};
use crate::prepared::{SideSwitch, SideThreadPrepareError};
use crate::prompts::{SIDE_ALREADY_STARTING_MESSAGE, SIDE_DEVELOPER_INSTRUCTIONS};
use crate::status::{SideParentStatus, SideParentStatusChange};

verus! {

/// Everything that may happen to the state, one decision or one look at the screen at a time.
pub ghost enum Event {
    /// A side conversation was asked for.
    StartAsked(StartRequestId, ThreadId, Option<UserMessage>),
    /// The server announced a thread, forked from that parent where it could be read.
    ForkAnnounced(ThreadId, Option<ThreadId>),
    /// The session was reset.
    StartCanceled,
    /// A preparation has answered.
    Prepared(StartRequestId, Result<ThreadSessionState, SideThreadPrepareError>),
    /// The switch into a side conversation was tried.
    Switched(SideSwitch, Option<Seq<char>>),
    /// A switch that failed was ended.
    SwitchGivenUp(ThreadId, ThreadId, Option<UserMessage>, Seq<char>),
    /// A thread was selected, with that side conversation to discard.
    Selected(ThreadId, Option<ThreadId>),
    /// A thread was discarded in the background.
    DiscardedInBackground(ThreadId),
    /// The background work on a thread has answered.
    CleanupFinished(ThreadId, Option<Seq<char>>),
    /// What is kept of a thread was forgotten.
    DiscardedLocally(ThreadId),
    /// A thread was unsubscribed from at once.
    Unsubscribed(ThreadId),
    /// The status of a parent changed.
    StatusChanged(ThreadId, SideParentStatusChange),
    /// The screen was brought up to date.
    Synced,
    /// The user was told of a failure.
    Failed(Seq<char>),
    /// The work that was due was handed out.
    EffectsTaken,
    /// A message went back to the composer.
    Restored(Option<UserMessage>),
    /// A message went back to where it was typed.
    RestoredFor(ThreadId, Option<UserMessage>),
    /// The main thread, the active thread and the thread shown became these.
    FocusMoved(Option<ThreadId>, Option<ThreadId>, Option<ThreadId>),
    /// What else the screen holds became what it is in that state: what lies over the chat, what is
    /// typed, the key that toggles, the labels, the settings, and the threads that are kept or
    /// listed.
    ScreenChanged(AppModel),
}

impl AppModel {
    /// The state after an event.
    pub open spec fn after(self, event: Event) -> AppModel {
        match event {
            Event::StartAsked(request_id, parent, message) => match self.start_block() {
                Some(why) => self.start_refused(message, why),
                None => self.start_begun(request_id, parent, message),
            },
            Event::ForkAnnounced(thread_id, parent) => self.fork_noted(thread_id, parent),
            Event::StartCanceled => self.start_canceled(),
            Event::Prepared(request_id, result) => self.prepared(request_id, result),
            Event::Switched(switch, error) => self.switched(switch, error),
            Event::SwitchGivenUp(child, parent, message, error) => self.switch_given_up(
                child,
                parent,
                message,
                error,
            ),
            Event::Selected(thread_id, side) => self.selected(thread_id, side),
            Event::DiscardedInBackground(thread_id) => self.discarded_in_background(thread_id),
            Event::CleanupFinished(thread_id, error) => self.cleanup_finished(thread_id, error),
            Event::DiscardedLocally(thread_id) => self.locally_discarded(thread_id),
            Event::Unsubscribed(thread_id) => self.abandoned(thread_id).locally_discarded(
                thread_id,
            ),
            Event::StatusChanged(parent, change) => self.with_status(parent, change),
            Event::Synced => self.synced(),
            Event::Failed(message) => self.failed(message),
            Event::EffectsTaken => AppModel { outbox: Seq::empty(), ..self },
            Event::Restored(message) => self.restored(message),
            Event::RestoredFor(thread_id, message) => self.restored_for(thread_id, message),
            Event::FocusMoved(primary, active, displayed) => AppModel {
                primary_thread_id: primary,
                active_thread_id: active,
                displayed_thread_id: displayed,
                ..self
            },
            Event::ScreenChanged(seen) => AppModel {
                overlay_open: seen.overlay_open,
                modal_or_popup_active: seen.modal_or_popup_active,
                composer_is_empty: seen.composer_is_empty,
                toggle_side_hint: seen.toggle_side_hint,
                thread_labels: seen.thread_labels,
                chat_settings: seen.chat_settings,
                thread_event_channels: seen.thread_event_channels,
                agent_navigation: seen.agent_navigation,
                ..self
            },
        }
    }

    /// At most one side conversation is open or may come back, and none while one is being
    /// prepared.
    pub open spec fn one_side(self) -> bool {
        &&& forall|a: ThreadId, b: ThreadId| #[trigger]
            self.is_open(a) && #[trigger] self.is_open(b) ==> a == b
        &&& self.pending_side_start is Some ==> forall|a: ThreadId| !#[trigger] self.is_open(a)
    }

    /// The events of every thread that is being closed are ignored.
    pub open spec fn closing_is_silent(self) -> bool {
        forall|id: ThreadId| #[trigger]
            self.side_cleanup_recovery.contains_key(id) ==> self.abandoned_side_threads.contains(id)
    }

    /// The events of no open side conversation are ignored.
    pub open spec fn open_is_heard(self) -> bool {
        forall|id: ThreadId| #[trigger]
            self.side_threads.contains_key(id) ==> !self.abandoned_side_threads.contains(id)
    }

    /// A message is on its way back to where it was typed.
    pub open spec fn hands_back(self, thread_id: ThreadId, message: UserMessage) -> bool {
        ||| self.outbox.contains(EffectModel::RestoreToComposer(message))
        ||| self.outbox.contains(EffectModel::RestoreToThread(thread_id, message))
    }

    /// There is still a place where what was typed in a thread can go back to.
    pub open spec fn keeps_input_of(self, thread_id: ThreadId) -> bool {
        self.displayed_thread_id == Some(thread_id) || self.thread_event_channels.contains_key(
            thread_id,
        )
    }
}

/// At the beginning no side conversation is open, and none is being prepared.
pub proof fn law_initial(settings: ChatSettings)
    ensures
        AppModel::initial(settings).one_side(),
        AppModel::initial(settings).closing_is_silent(),
        AppModel::initial(settings).open_is_heard(),
{
}

/// No more is open or being prepared in `n` than in `m`.
spec fn no_wider(n: AppModel, m: AppModel) -> bool {
    &&& forall|a: ThreadId| #[trigger] n.is_open(a) ==> m.is_open(a)
    &&& n.pending_side_start is Some ==> m.pending_side_start is Some
}

/// Discarding in the background opens nothing.
proof fn lemma_discarding_narrows(m: AppModel, id: ThreadId)
    ensures
        no_wider(m.discarded_in_background(id), m),
{
}

/// Taking a fork back opens nothing.
proof fn lemma_dropping_narrows(m: AppModel, session: Option<ThreadSessionState>)
    ensures
        no_wider(m.fork_dropped(session), m),
{
    if let Some(session) = session {
        let installed = m.snapshot_installed(session);
        lemma_discarding_narrows(installed, session.thread_id);
        assert(forall|a: ThreadId| #[trigger] installed.is_open(a) ==> m.is_open(a));
    }
}

/// Forgetting a thread opens nothing.
proof fn lemma_forgetting_narrows(m: AppModel, id: ThreadId)
    ensures
        no_wider(m.locally_discarded(id), m),
{
}

/// An answer of the background work opens nothing that could not come back.
proof fn lemma_cleanup_narrows(m: AppModel, id: ThreadId, error: Option<Seq<char>>)
    ensures
        no_wider(m.cleanup_finished(id, error), m),
{
    lemma_forgetting_narrows(m, id);
}

/// A change of status opens nothing.
proof fn lemma_status_narrows(m: AppModel, parent: ThreadId, change: SideParentStatusChange)
    ensures
        no_wider(m.with_status(parent, change), m),
{
}

/// A preparation opens at most one side conversation, in the place that was kept for it.
proof fn lemma_prepared_opens_one(
    m: AppModel,
    request_id: StartRequestId,
    result: Result<ThreadSessionState, SideThreadPrepareError>,
)
    requires
        m.one_side(),
    ensures
        m.prepared(request_id, result).one_side(),
{
    let n = m.prepared(request_id, result);
    let taken = m.answer_taken(request_id);
    let session = crate::prepared::prepared_session(result);
    assert(no_wider(taken, m));
    if !m.is_pending(request_id) {
        lemma_dropping_narrows(taken, session);
        assert(no_wider(n, m));
    } else {
        assert(n.pending_side_start is None);
        match result {
            Ok(session) => {
                let id = session.thread_id;
                let opened = taken.side_opened(id, m.pending_side_start->0.side_state);
                assert forall|a: ThreadId| #[trigger] opened.is_open(a) implies a == id by {
                    assert(!m.is_open(a));
                }
                lemma_dropping_narrows(opened, Some(session));
                assert forall|a: ThreadId| #[trigger] n.is_open(a) implies a == id by {
                    if m.displayed_thread_id == Some(
                        m.pending_side_start->0.side_state.parent_thread_id,
                    ) {
                        assert(opened.is_open(a));
                    } else {
                        assert(opened.fork_dropped(Some(session)).is_open(a));
                    }
                }
            },
            Err(error) => {
                lemma_dropping_narrows(taken, session);
                assert forall|a: ThreadId| !#[trigger] n.is_open(a) by {
                    if n.is_open(a) {
                        assert(taken.fork_dropped(session).is_open(a));
                        assert(m.is_open(a));
                    }
                }
            },
        }
    }
}

/// Whatever happens, at most one side conversation is open or may come back, and none is while
/// another is being prepared.
pub proof fn law_one_side(m: AppModel, event: Event)
    requires
        m.one_side(),
    ensures
        m.after(event).one_side(),
{
    let n = m.after(event);
    match event {
        Event::StartAsked(request_id, parent, message) => {
            assert(forall|a: ThreadId| #[trigger] n.is_open(a) ==> m.is_open(a));
        },
        Event::Prepared(request_id, result) => {
            lemma_prepared_opens_one(m, request_id, result);
        },
        Event::Switched(switch, error) => {
            lemma_discarding_narrows(m, switch.child_thread_id);
            let dropped = m.discarded_in_background(switch.child_thread_id);
            assert(no_wider(n, m) || no_wider(n, dropped));
            assert(no_wider(n, m));
        },
        Event::Selected(thread_id, side) => {
            if let Some(side) = side {
                lemma_discarding_narrows(m, side);
            }
            assert(no_wider(n, m));
        },
        Event::DiscardedInBackground(id) => {
            lemma_discarding_narrows(m, id);
        },
        Event::CleanupFinished(id, error) => {
            lemma_cleanup_narrows(m, id, error);
        },
        Event::DiscardedLocally(id) => {
            lemma_forgetting_narrows(m, id);
        },
        Event::Unsubscribed(id) => {
            lemma_forgetting_narrows(m.abandoned(id), id);
            assert(no_wider(n, m));
        },
        Event::StatusChanged(parent, change) => {
            lemma_status_narrows(m, parent, change);
        },
        _ => {
            assert(no_wider(n, m));
        },
    }
}

/// Whatever happens, the events of a thread that is being closed are ignored.
pub proof fn law_closing_is_silent(m: AppModel, event: Event)
    requires
        m.closing_is_silent(),
    ensures
        m.after(event).closing_is_silent(),
{
}

/// Whatever happens, the events of an open side conversation are heard, as long as a preparation
/// never hands out a thread that was abandoned before.
pub proof fn law_open_is_heard(m: AppModel, event: Event)
    requires
        m.open_is_heard(),
        event matches Event::Prepared(request_id, Ok(session))
            ==> !m.abandoned_side_threads.contains(session.thread_id),
    ensures
        m.after(event).open_is_heard(),
{
}

/// A start that is refused changes no thread and no preparation: the message goes back to the
/// composer, the user is told why, and the screen is brought up to date.
pub proof fn law_refused_start(
    m: AppModel,
    request_id: StartRequestId,
    parent: ThreadId,
    message: Option<UserMessage>,
)
    requires
        m.start_block() is Some,
    ensures
        ({
            let n = m.after(Event::StartAsked(request_id, parent, message));
            let back = match message {
                Some(message) => seq![EffectModel::RestoreToComposer(message)],
                None => seq![],
            };
            n == AppModel {
                side_ui: m.wanted_ui(),
                outbox: m.outbox + back + seq![EffectModel::ShowError(m.start_block()->0)],
                ..m
            }
        }),
{
    let n = m.after(Event::StartAsked(request_id, parent, message));
    let back = match message {
        Some(message) => seq![EffectModel::RestoreToComposer(message)],
        None => seq![],
    };
    assert(m.restored(message).wanted_ui() == m.wanted_ui());
    assert(n.outbox =~= m.outbox + back + seq![EffectModel::ShowError(m.start_block()->0)]);
}

/// Once a start has begun, every other is refused until it has answered or was given up.
pub proof fn law_one_start_at_a_time(
    m: AppModel,
    request_id: StartRequestId,
    parent: ThreadId,
    message: Option<UserMessage>,
)
    ensures
        m.start_begun(request_id, parent, message).start_block() == Some(
            SIDE_ALREADY_STARTING_MESSAGE@,
        ),
{
}

/// No side conversation starts while one is open, or is being closed and may come back.
pub proof fn law_no_start_beside_an_open_one(m: AppModel, id: ThreadId)
    requires
        m.is_open(id),
    ensures
        m.start_block() is Some,
{
}

/// A start that was given up is as if it had not been, but that its answer is still recognised: a
/// fork of its parent that is announced later counts as its work.
pub proof fn law_canceled_start(
    m: AppModel,
    request_id: StartRequestId,
    parent: ThreadId,
    message: Option<UserMessage>,
)
    requires
        m.pending_side_start is None,
    ensures
        ({
            let n = m.start_begun(request_id, parent, message).start_canceled();
            &&& n == AppModel {
                canceled_side_start_parents: m.canceled_side_start_parents.insert(
                    request_id,
                    parent,
                ),
                ..m
            }
            &&& n.awaits_fork_of(parent)
        }),
{
    let n = m.start_begun(request_id, parent, message).start_canceled();
    assert(n.canceled_side_start_parents.contains_key(request_id));
}

/// An answer to a start that nobody waits for opens no side conversation, moves the screen nowhere
/// and gives no message back; a fork that came with it is on its way out.
pub proof fn law_late_answer(
    m: AppModel,
    request_id: StartRequestId,
    result: Result<ThreadSessionState, SideThreadPrepareError>,
)
    requires
        !m.is_pending(request_id),
    ensures
        m.switch_due(request_id, result) is None,
        ({
            let n = m.prepared(request_id, result);
            &&& forall|id: ThreadId| #[trigger]
                n.side_threads.contains_key(id) ==> m.side_threads.contains_key(id)
            &&& n.pending_side_start == m.pending_side_start
            &&& crate::prepared::prepared_session(result) matches Some(session)
                ==> n.abandoned_side_threads.contains(session.thread_id)
        }),
{
}

/// A fork whose preparation failed, and whose history may thus stand without its boundary, is never
/// opened: the screen does not switch to it, and it is on its way out.
pub proof fn law_unmarked_fork_stays_closed(
    m: AppModel,
    request_id: StartRequestId,
    error: SideThreadPrepareError,
)
    ensures
        m.switch_due(request_id, Err(error)) is None,
        ({
            let n = m.prepared(request_id, Err(error));
            &&& forall|id: ThreadId| #[trigger]
                n.side_threads.contains_key(id) ==> m.side_threads.contains_key(id)
            &&& error.session matches Some(session) ==> n.abandoned_side_threads.contains(
                session.thread_id,
            )
        }),
{
}

/// The question with which a side conversation was asked for is not lost when the preparation
/// answers: it goes along with the switch, or back to where it was typed, as long as there is such
/// a place.
pub proof fn law_question_survives_preparation(
    m: AppModel,
    request_id: StartRequestId,
    result: Result<ThreadSessionState, SideThreadPrepareError>,
    question: UserMessage,
)
    requires
        m.is_pending(request_id),
        m.pending_side_start->0.user_message == Some(question),
        m.keeps_input_of(m.pending_side_start->0.side_state.parent_thread_id),
    ensures
        ({
            let parent = m.pending_side_start->0.side_state.parent_thread_id;
            match m.switch_due(request_id, result) {
                Some(switch) => switch.user_message == Some(question),
                None => m.prepared(request_id, result).hands_back(parent, question),
            }
        }),
{
    let pending = m.pending_side_start->0;
    let parent = pending.side_state.parent_thread_id;
    if m.switch_due(request_id, result) is None {
        let taken = m.answer_taken(request_id);
        let opened = match result {
            Ok(session) if m.displayed_thread_id != Some(parent) => taken.side_opened(
                session.thread_id,
                pending.side_state,
            ),
            _ => taken,
        };
        let dropped = opened.fork_dropped(crate::prepared::prepared_session(result));
        assert(dropped.keeps_input_of(parent));
        lemma_restored_for(dropped, parent, question);
        let back = dropped.restored_for(parent, Some(question));
        let n = m.prepared(request_id, result);
        let at = back.outbox.len() - 1;
        assert(n.outbox[at] == back.outbox[at]);
        assert(n.outbox.contains(back.outbox[at]));
    }
}

/// A message that goes back to a thread is the last work due.
proof fn lemma_restored_for(m: AppModel, thread_id: ThreadId, message: UserMessage)
    requires
        m.keeps_input_of(thread_id),
    ensures
        ({
            let last = m.restored_for(thread_id, Some(message)).outbox.last();
            ||| last == EffectModel::RestoreToComposer(message)
            ||| last == EffectModel::RestoreToThread(thread_id, message)
        }),
        m.restored_for(thread_id, Some(message)).outbox.len() > 0,
{
}

/// Nor is the question lost when the switch into the side conversation is tried: it is asked there,
/// or goes back to where it was typed, as long as there is such a place. Where the switch failed
/// and the parent is not active, it goes back once the screen has done what it could.
pub proof fn law_question_survives_switch(
    m: AppModel,
    switch: SideSwitch,
    error: Option<Seq<char>>,
    question: UserMessage,
)
    requires
        switch.user_message == Some(question),
        m.keeps_input_of(switch.parent_thread_id),
        error is None || m.active_thread_id == Some(switch.parent_thread_id),
    ensures
        ({
            let n = m.switched(switch, error);
            ||| n.outbox.contains(EffectModel::SubmitUserTurn(question))
            ||| n.hands_back(switch.parent_thread_id, question)
        }),
{
    let n = m.switched(switch, error);
    let parent = switch.parent_thread_id;
    if error is None && m.active_thread_id == Some(switch.child_thread_id) {
        assert(n.outbox.last() == EffectModel::SubmitUserTurn(question));
    } else {
        let dropped = m.discarded_in_background(switch.child_thread_id);
        lemma_restored_for(dropped, parent, question);
        let back = dropped.restored_for(parent, Some(question));
        let at = back.outbox.len() - 1;
        assert(n.outbox[at] == back.outbox[at]);
        assert(n.outbox.contains(back.outbox[at]));
    }
}

/// When a switch that failed is ended, the question goes back to where it was typed, as long as
/// there is such a place.
pub proof fn law_question_survives_failed_switch(
    m: AppModel,
    child: ThreadId,
    parent: ThreadId,
    question: UserMessage,
    error: Seq<char>,
)
    requires
        m.keeps_input_of(parent),
    ensures
        m.switch_given_up(child, parent, Some(question), error).hands_back(parent, question),
{
    lemma_restored_for(m, parent, question);
    let back = m.restored_for(parent, Some(question));
    let n = m.switch_given_up(child, parent, Some(question), error);
    let at = back.outbox.len() - 1;
    assert(n.outbox[at] == back.outbox[at]);
    assert(n.outbox.contains(back.outbox[at]));
}

/// An error that refuses to be displayed does not decide what the user is told of a start that
/// failed.
pub proof fn law_silent_error_decides_nothing(
    chain: Seq<Seq<char>>,
    at: int,
    text: Seq<char>,
)
    requires
        0 <= at <= chain.len(),
    ensures
        crate::start::start_error_text(chain.insert(at, crate::report::shown(None)), text)
            == crate::start::start_error_text(chain, text),
{
    let nothing = crate::report::shown(None);
    let with = chain.insert(at, nothing);
    reveal_strlit("no rollout found for thread id");
    reveal_strlit("includeTurns is unavailable before first user message");
    assert(!crate::start::says_not_started(nothing));
    if exists|i: int|
        0 <= i < chain.len() && crate::start::says_not_started(#[trigger] chain[i]) {
        let i = choose|i: int|
            0 <= i < chain.len() && crate::start::says_not_started(#[trigger] chain[i]);
        let j = if i < at { i } else { i + 1 };
        assert(crate::start::says_not_started(with[j]));
    }
}

/// A side conversation that is switched into is open, came from the thread that is shown, and
/// begins on the screen at its boundary: with no turns and no history but its own.
pub proof fn law_side_begins_at_its_boundary(
    m: AppModel,
    request_id: StartRequestId,
    session: ThreadSessionState,
)
    requires
        m.switch_due(request_id, Ok(session)) is Some,
    ensures
        ({
            let n = m.prepared(request_id, Ok(session));
            let switch = m.switch_due(request_id, Ok(session))->0;
            let kept = n.thread_event_channels[switch.child_thread_id];
            &&& switch.child_thread_id == session.thread_id
            &&& m.displayed_thread_id == Some(switch.parent_thread_id)
            &&& n.side_threads.contains_key(switch.child_thread_id)
            &&& n.side_threads[switch.child_thread_id].parent_thread_id == switch.parent_thread_id
            &&& n.thread_event_channels.contains_key(switch.child_thread_id)
            &&& kept.turns.len() == 0
            &&& kept.session->0.forked_from_id is None
        }),
{
}

/// Closing that failed undoes the discarding: the side conversation is open as it was, and its
/// events are heard again.
pub proof fn law_failed_cleanup_reopens(m: AppModel, id: ThreadId, error: Seq<char>)
    requires
        m.side_threads.contains_key(id),
        !m.abandoned_side_threads.contains(id),
        m.closing_is_silent(),
    ensures
        ({
            let n = m.discarded_in_background(id).cleanup_finished(id, Some(error));
            &&& n.side_threads == m.side_threads
            &&& n.side_cleanup_recovery == m.side_cleanup_recovery
            &&& n.abandoned_side_threads == m.abandoned_side_threads
            &&& n.thread_event_channels == m.thread_event_channels
            &&& n.active_thread_id == m.active_thread_id
            &&& n.outbox.contains(
                EffectModel::ShowError(crate::discard::close_failure_text(id, error)),
            )
        }),
{
    let n = m.discarded_in_background(id).cleanup_finished(id, Some(error));
    assert(!m.side_cleanup_recovery.contains_key(id));
    assert(n.side_threads =~= m.side_threads);
    assert(n.side_cleanup_recovery =~= m.side_cleanup_recovery);
    assert(n.abandoned_side_threads =~= m.abandoned_side_threads);
    assert(n.outbox[n.outbox.len() - 2] == EffectModel::ShowError(
        crate::discard::close_failure_text(id, error),
    ));
}

/// Closing that went well leaves nothing of the thread behind, but that its events are ignored.
pub proof fn law_cleanup_leaves_nothing(m: AppModel, id: ThreadId)
    requires
        !m.abandoned_side_threads.contains(id),
    ensures
        ({
            let n = m.discarded_in_background(id).cleanup_finished(id, None);
            &&& !n.side_threads.contains_key(id)
            &&& !n.side_cleanup_recovery.contains_key(id)
            &&& !n.pending_side_threads.contains(id)
            &&& !n.thread_event_channels.contains_key(id)
            &&& !n.agent_navigation.contains_key(id)
            &&& n.active_thread_id != Some(id)
            &&& n.abandoned_side_threads.contains(id)
        }),
{
}

/// Discarding a thread in the background twice is discarding it once.
pub proof fn law_discarding_once(m: AppModel, id: ThreadId)
    ensures
        m.discarded_in_background(id).discarded_in_background(id) == m.discarded_in_background(id),
{
}

/// Discarding a thread, at once or in the background, leaves every other as it was: open, listed,
/// kept and heard, or not.
pub proof fn law_discarding_is_local(m: AppModel, id: ThreadId, other: ThreadId)
    requires
        other != id,
    ensures
        same_for(m.discarded_in_background(id), m, other),
        same_for(m.locally_discarded(id), m, other),
{
}

/// `n` holds the same of a thread as `m`.
pub open spec fn same_for(n: AppModel, m: AppModel, thread_id: ThreadId) -> bool {
    &&& same_at(n.side_threads, m.side_threads, thread_id)
    &&& same_at(n.side_cleanup_recovery, m.side_cleanup_recovery, thread_id)
    &&& same_at(n.thread_event_channels, m.thread_event_channels, thread_id)
    &&& same_at(n.agent_navigation, m.agent_navigation, thread_id)
    &&& n.pending_side_threads.contains(thread_id) == m.pending_side_threads.contains(thread_id)
    &&& n.abandoned_side_threads.contains(thread_id) == m.abandoned_side_threads.contains(
        thread_id,
    )
    &&& (n.active_thread_id == Some(thread_id)) == (m.active_thread_id == Some(thread_id))
}

/// Two maps lead to the same from a key, or both to nothing.
pub open spec fn same_at<V>(n: Map<ThreadId, V>, m: Map<ThreadId, V>, key: ThreadId) -> bool {
    &&& n.contains_key(key) == m.contains_key(key)
    &&& m.contains_key(key) ==> n[key] == m[key]
}

/// Toggling goes back and forth between a side conversation and its parent.
pub proof fn law_toggle_goes_back(m: AppModel, target: ThreadId, back: Option<ThreadId>)
    requires
        m.one_side(),
        m.may_toggle_to(Some(target)),
        (AppModel { displayed_thread_id: Some(target), ..m }).may_toggle_to(back),
    ensures
        back == m.displayed_thread_id,
{
    let n = AppModel { displayed_thread_id: Some(target), ..m };
    let shown = m.displayed_thread_id->0;
    let id = choose|id: ThreadId| #[trigger]
        m.side_threads.contains_key(id) && Some(target) == crate::navigate::toggle_choice(
            shown,
            id,
            m.side_threads[id].parent_thread_id,
        );
    let id2 = choose|id: ThreadId| #[trigger]
        n.side_threads.contains_key(id) && back == crate::navigate::toggle_choice(
            target,
            id,
            n.side_threads[id].parent_thread_id,
        );
    assert(m.is_open(id) && m.is_open(id2));
}

/// A switch discards nothing but an open side conversation, never the thread switched to, and
/// nothing at all where the thread shown stays.
pub proof fn law_switch_discards_only_a_side(m: AppModel, target: ThreadId, side: ThreadId)
    requires
        m.may_discard(target, Some(side)),
    ensures
        m.side_threads.contains_key(side),
        side != target,
        m.displayed_thread_id != Some(target),
        m.displayed_thread_id == Some(side) || m.displayed_thread_id == Some(
            m.side_threads[side].parent_thread_id,
        ),
{
}

/// Leaving a side conversation, or leaving its parent for a third thread, discards it.
pub proof fn law_leaving_discards(
    m: AppModel,
    target: ThreadId,
    side: ThreadId,
    discarded: Option<ThreadId>,
)
    requires
        m.one_side(),
        m.side_threads.contains_key(side),
        m.displayed_thread_id == Some(side) || m.displayed_thread_id == Some(
            m.side_threads[side].parent_thread_id,
        ),
        target != side,
        m.displayed_thread_id != Some(target),
        m.may_discard(target, discarded),
    ensures
        discarded == Some(side),
{
    let shown = m.displayed_thread_id->0;
    assert(m.side_threads.dom().contains(side));
    let id = choose|id: ThreadId| #[trigger]
        m.side_threads.contains_key(id) && discarded == crate::navigate::discard_choice(
            shown,
            id,
            m.side_threads[id].parent_thread_id,
            target,
        );
    assert(m.is_open(id) && m.is_open(side));
}

/// A change of the status of a parent reaches every side conversation that came from it, and no
/// other.
pub proof fn law_status_reaches_its_sides(
    m: AppModel,
    parent: ThreadId,
    change: SideParentStatusChange,
    id: ThreadId,
)
    requires
        m.side_threads.contains_key(id),
    ensures
        ({
            let before = m.side_threads[id];
            let after = m.with_status(parent, change).side_threads[id];
            &&& after.parent_thread_id == before.parent_thread_id
            &&& before.parent_thread_id == parent ==> after.parent_status == change.applied(
                before.parent_status,
            )
            &&& before.parent_thread_id != parent ==> after == before
        }),
{
}

/// A change of status made twice is made once.
pub proof fn law_status_change_settles(
    m: AppModel,
    parent: ThreadId,
    change: SideParentStatusChange,
)
    ensures
        m.with_status(parent, change).with_status(parent, change) == m.with_status(parent, change),
{
    let n = m.with_status(parent, change);
    assert forall|id: ThreadId| #[trigger] n.side_threads.contains_key(id) implies
        crate::screen::restatused(n.side_threads[id], parent, change) == n.side_threads[id] by {
        assert(m.side_threads.contains_key(id));
    }
    assert(n.with_status(parent, change) =~= n);
}

/// Clearing what asks the user to act takes away nothing else.
pub proof fn law_clear_actionable(status: Option<SideParentStatus>)
    ensures
        ({
            let left = SideParentStatusChange::ClearActionable.applied(status);
            &&& left == status || left is None
            &&& left is None <==> status is None || status->0.actionable()
        }),
{
}

/// The screen says that a side conversation is shown exactly where one is, and exactly then blocks
/// renaming, keeps silent about interrupted turns, and labels the thread.
pub proof fn law_screen_tells_side(m: AppModel)
    ensures
        ({
            let ui = m.synced().side_ui;
            &&& ui.side_conversation_active == m.active_side_parent() is Some
            &&& ui.side_conversation_active == ui.thread_rename_block is Some
            &&& ui.side_conversation_active == ui.interrupted_turn_notice_mode is Suppress
            &&& ui.side_conversation_active ==> ui.context_label is Some
        }),
{
}

/// A fork is never kept, and its instructions end with those for side conversations. What the
/// parent was told stands before them in full.
pub proof fn law_fork_is_told(settings: ChatSettings)
    ensures
        ({
            let fork = crate::start::fork_config(settings);
            let told = fork.developer_instructions->0;
            let own = SIDE_DEVELOPER_INSTRUCTIONS@;
            &&& fork.ephemeral
            &&& fork.developer_instructions is Some
            &&& own.is_suffix_of(told)
            &&& settings.config@.developer_instructions matches Some(policy)
                ==> !crate::text::blank(policy) ==> policy.is_prefix_of(told)
        }),
{
    let told = crate::start::fork_config(settings).developer_instructions->0;
    let own = SIDE_DEVELOPER_INSTRUCTIONS@;
    assert(told.subrange(told.len() - own.len(), told.len() as int) =~= own);
    if let Some(policy) = settings.config@.developer_instructions {
        if !crate::text::blank(policy) {
            assert(told.subrange(0, policy.len() as int) =~= policy);
        }
    }
}

/// Closing a thread sends at most two interrupts.
pub proof fn law_one_retry(cleanup: SideCleanup, answer: Result<(), InterruptFailure>)
    requires
        cleanup.retried,
    ensures
        !cleanup.retries(answer),
{
}

/// A thread counts as closed exactly where it was unsubscribed from, whatever became of the
/// interrupt.
pub proof fn law_unsubscribed_is_closed(interrupt: Option<Seq<char>>, unsubscribe: Option<Seq<char>>)
    ensures
        crate::cleanup::cleanup_error(interrupt, unsubscribe) is None <==> unsubscribe is None,
{
}

} // verus!
