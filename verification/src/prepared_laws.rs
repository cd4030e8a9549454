//! What a caller sees once a preparation has answered.
//!
//! Each law here speaks of calls: `call_ensures` holds of the arguments and the result of every
//! call that returns.

use color_eyre::Report;
use vstd::prelude::*;
use crate::app::{
    AgentPickerEntry, App, AppModel, EffectModel, SideUiModel, ThreadEventStore,
    ThreadSessionState, Turn,
};
use crate::ids::{StartRequestId, ThreadId};
use crate::prepared::{FailedSideSwitch, SideSwitch, SideThreadPrepareError};
use crate::status::SideParentStatus;

verus! {

/// What is kept of a side thread at first, whatever was kept of it before and whatever turns came
/// with the fork: its session, with no mention of where it was forked from, and no turns.
pub proof fn law_snapshot_begins_empty(
    store: &mut ThreadEventStore,
    session: ThreadSessionState,
    turns: Vec<Turn>,
)
    requires
        call_ensures(App::install_side_thread_snapshot, (store, session, turns), ()),
    ensures
        final(store)@.turns.len() == 0,
        final(store)@.session is Some,
        final(store)@.session->0.thread_id == session.thread_id,
        final(store)@.session->0.details == session.details,
        final(store)@.session->0.forked_from_id is None,
{
}

/// A preparation that went well, while it is still wanted and its parent is shown, opens the side
/// conversation as it was pending: with its parent and with whatever status the parent has taken on
/// since. It is kept from its boundary on, and listed. The screen is to switch to it with the
/// question as it was asked. Nothing else changes.
pub proof fn law_wanted_side_opens(
    app: &mut App,
    store: &mut ThreadEventStore,
    turns: Vec<Turn>,
    request_id: StartRequestId,
    session: ThreadSessionState,
    r: Option<SideSwitch>,
)
    requires
        call_ensures(App::handle_side_thread_prepared, (app, request_id, Ok(session)), r),
        call_ensures(App::install_side_thread_snapshot, (store, session, turns), ()),
        old(app)@.pending_side_start is Some,
        old(app)@.pending_side_start->0.request_id == request_id,
        old(app)@.displayed_thread_id == Some(
            old(app)@.pending_side_start->0.side_state.parent_thread_id,
        ),
    ensures
        r == Some(
            SideSwitch {
                child_thread_id: session.thread_id,
                parent_thread_id: old(app)@.pending_side_start->0.side_state.parent_thread_id,
                user_message: old(app)@.pending_side_start->0.user_message,
            },
        ),
        final(app)@ == (AppModel {
            pending_side_start: None,
            side_threads: old(app)@.side_threads.insert(
                session.thread_id,
                old(app)@.pending_side_start->0.side_state,
            ),
            thread_event_channels: old(app)@.thread_event_channels.insert(
                session.thread_id,
                final(store)@,
            ),
            agent_navigation: old(app)@.agent_navigation.insert(
                session.thread_id,
                AgentPickerEntry { agent_nickname: None, agent_role: None, is_closed: false },
            ),
            pending_side_threads: old(app)@.pending_side_threads.remove(session.thread_id),
            canceled_side_start_parents: old(app)@.canceled_side_start_parents.remove(request_id),
            ..old(app)@
        }),
{
}

/// A status that reached a start while it was pending is the status of the side conversation that
/// opens.
pub proof fn law_status_reaches_the_opened_side(
    app: &mut App,
    next: &mut App,
    parent: ThreadId,
    status: Option<SideParentStatus>,
    session: ThreadSessionState,
    r: Option<SideSwitch>,
)
    requires
        old(app)@.pending_side_start is Some,
        old(app)@.pending_side_start->0.side_state.parent_thread_id == parent,
        old(app)@.displayed_thread_id == Some(parent),
        call_ensures(App::set_side_parent_status, (app, parent, status), ()),
        *old(next) == *final(app),
        call_ensures(
            App::handle_side_thread_prepared,
            (next, old(app)@.pending_side_start->0.request_id, Ok(session)),
            r,
        ),
    ensures
        r is Some,
        final(next)@.side_threads.contains_key(session.thread_id),
        final(next)@.side_threads[session.thread_id].parent_thread_id == parent,
        final(next)@.side_threads[session.thread_id].parent_status == status,
{
}

/// A side conversation opens, and a switch is due, only where a preparation went well that is still
/// wanted and whose parent is shown.
pub proof fn law_switch_is_due_only_where_wanted(
    app: &mut App,
    request_id: StartRequestId,
    result: Result<ThreadSessionState, SideThreadPrepareError>,
    r: Option<SideSwitch>,
)
    requires
        call_ensures(App::handle_side_thread_prepared, (app, request_id, result), r),
    ensures
        r is Some <==> {
            &&& result is Ok
            &&& old(app)@.pending_side_start is Some
            &&& old(app)@.pending_side_start->0.request_id == request_id
            &&& old(app)@.displayed_thread_id == Some(
                old(app)@.pending_side_start->0.side_state.parent_thread_id,
            )
        },
        !final(app)@.canceled_side_start_parents.contains_key(request_id),
        final(app)@.pending_side_start is Some ==> final(app)@.pending_side_start
            == old(app)@.pending_side_start && final(app)@.pending_side_start->0.request_id
            != request_id,
{
}

/// An answer that nobody waits for ends with the request forgotten and the fork, if one was made,
/// discarded like any side thread, from what is kept of it at its boundary. A start that is under
/// way goes on.
pub proof fn law_unwanted_answer(
    app: &mut App,
    store: &mut ThreadEventStore,
    turns: Vec<Turn>,
    other: &mut App,
    request_id: StartRequestId,
    result: Result<ThreadSessionState, SideThreadPrepareError>,
    session: ThreadSessionState,
    r: Option<SideSwitch>,
)
    requires
        call_ensures(App::handle_side_thread_prepared, (app, request_id, result), r),
        old(app)@.pending_side_start is Some ==> old(app)@.pending_side_start->0.request_id
            != request_id,
        match result {
            Ok(forked) => forked == session,
            Err(error) => error.session is Some ==> error.session->0 == session,
        },
        call_ensures(App::install_side_thread_snapshot, (store, session, turns), ()),
        old(other)@ == (AppModel {
            canceled_side_start_parents: old(app)@.canceled_side_start_parents.remove(request_id),
            thread_event_channels: old(app)@.thread_event_channels.insert(
                session.thread_id,
                final(store)@,
            ),
            ..old(app)@
        }),
        call_ensures(App::discard_side_thread_in_background, (other, session.thread_id), ()),
    ensures
        r is None,
        result is Ok || result->Err_0.session is Some ==> final(app)@ == final(other)@,
        result is Err && result->Err_0.session is None ==> final(app)@ == (AppModel {
            canceled_side_start_parents: old(app)@.canceled_side_start_parents.remove(request_id),
            ..old(app)@
        }),
{
}

/// An answer to a start whose parent is no longer shown ends with the start over, the fork, if one
/// was made, discarded, and the question back where it was typed. A fork that went well is set aside
/// as the side conversation that was pending, so that closing it can fail.
pub proof fn law_answer_out_of_sight(
    app: &mut App,
    store: &mut ThreadEventStore,
    turns: Vec<Turn>,
    other: &mut App,
    back: &mut App,
    request_id: StartRequestId,
    result: Result<ThreadSessionState, SideThreadPrepareError>,
    session: ThreadSessionState,
    r: Option<SideSwitch>,
)
    requires
        call_ensures(App::handle_side_thread_prepared, (app, request_id, result), r),
        old(app)@.pending_side_start is Some,
        old(app)@.pending_side_start->0.request_id == request_id,
        old(app)@.displayed_thread_id != Some(
            old(app)@.pending_side_start->0.side_state.parent_thread_id,
        ),
        match result {
            Ok(forked) => forked == session,
            Err(error) => error.session is Some && error.session->0 == session,
        },
        call_ensures(App::install_side_thread_snapshot, (store, session, turns), ()),
        old(other)@ == (AppModel {
            pending_side_start: None,
            canceled_side_start_parents: old(app)@.canceled_side_start_parents.remove(request_id),
            thread_event_channels: old(app)@.thread_event_channels.insert(
                session.thread_id,
                final(store)@,
            ),
            side_threads: if result is Ok {
                old(app)@.side_threads.insert(
                    session.thread_id,
                    old(app)@.pending_side_start->0.side_state,
                )
            } else {
                old(app)@.side_threads
            },
            ..old(app)@
        }),
        call_ensures(App::discard_side_thread_in_background, (other, session.thread_id), ()),
        *old(back) == *final(other),
        call_ensures(
            App::restore_side_user_message_for_thread,
            (
                back,
                old(app)@.pending_side_start->0.side_state.parent_thread_id,
                old(app)@.pending_side_start->0.user_message,
            ),
            (),
        ),
    ensures
        r is None,
        final(app)@ == final(back)@,
{
}

/// A preparation that failed before it made a fork is over; where its parent is no longer shown, the
/// question goes back to where it was typed and the user is told nothing.
pub proof fn law_failure_out_of_sight(
    app: &mut App,
    back: &mut App,
    request_id: StartRequestId,
    error: SideThreadPrepareError,
    r: Option<SideSwitch>,
)
    requires
        call_ensures(App::handle_side_thread_prepared, (app, request_id, Err(error)), r),
        error.session is None,
        old(app)@.pending_side_start is Some,
        old(app)@.pending_side_start->0.request_id == request_id,
        old(app)@.displayed_thread_id != Some(
            old(app)@.pending_side_start->0.side_state.parent_thread_id,
        ),
        old(back)@ == (AppModel {
            pending_side_start: None,
            canceled_side_start_parents: old(app)@.canceled_side_start_parents.remove(request_id),
            ..old(app)@
        }),
        call_ensures(
            App::restore_side_user_message_for_thread,
            (
                back,
                old(app)@.pending_side_start->0.side_state.parent_thread_id,
                old(app)@.pending_side_start->0.user_message,
            ),
            (),
        ),
    ensures
        r is None,
        final(app)@ == final(back)@,
{
}

/// A preparation that failed while its parent is shown is over: the question is back in the
/// composer, the label for side conversations is gone, and the user is told why, in this order and
/// behind the discarding of the fork, if one was made. What else the screen shows stays.
pub proof fn law_failure_in_sight(
    app: &mut App,
    store: &mut ThreadEventStore,
    turns: Vec<Turn>,
    other: &mut App,
    request_id: StartRequestId,
    error: SideThreadPrepareError,
    session: ThreadSessionState,
    told: String,
    r: Option<SideSwitch>,
)
    requires
        call_ensures(App::handle_side_thread_prepared, (app, request_id, Err(error)), r),
        call_ensures(App::side_start_error_message, (&error.error,), told),
        old(app)@.pending_side_start is Some,
        old(app)@.pending_side_start->0.request_id == request_id,
        old(app)@.displayed_thread_id == Some(
            old(app)@.pending_side_start->0.side_state.parent_thread_id,
        ),
        error.session is Some ==> error.session->0 == session,
        call_ensures(App::install_side_thread_snapshot, (store, session, turns), ()),
        old(other)@ == (AppModel {
            pending_side_start: None,
            canceled_side_start_parents: old(app)@.canceled_side_start_parents.remove(request_id),
            thread_event_channels: old(app)@.thread_event_channels.insert(
                session.thread_id,
                final(store)@,
            ),
            ..old(app)@
        }),
        call_ensures(App::discard_side_thread_in_background, (other, session.thread_id), ()),
    ensures
        r is None,
        ({
            let question = old(app)@.pending_side_start->0.user_message;
            let dropped = if error.session is Some {
                final(other)@
            } else {
                AppModel {
                    pending_side_start: None,
                    canceled_side_start_parents: old(app)@.canceled_side_start_parents.remove(
                        request_id,
                    ),
                    ..old(app)@
                }
            };
            final(app)@ == AppModel {
                side_ui: SideUiModel { context_label: None, ..old(app)@.side_ui },
                outbox: match question {
                    Some(question) => dropped.outbox.push(
                        EffectModel::RestoreToComposer(question),
                    ).push(EffectModel::ShowError(told@)),
                    None => dropped.outbox.push(EffectModel::ShowError(told@)),
                },
                ..dropped
            }
        }),
{
}

/// Where the switch lands in the side conversation its question is asked, whatever became of the
/// screen before, and nothing else changes.
pub proof fn law_switch_that_lands_asks(
    app: &mut App,
    switch: SideSwitch,
    r: Option<FailedSideSwitch>,
)
    requires
        call_ensures(App::finish_side_switch, (app, switch, Ok(())), r),
        old(app)@.active_thread_id == Some(switch.child_thread_id),
    ensures
        r is None,
        final(app)@ == (AppModel {
            outbox: match switch.user_message {
                Some(question) => old(app)@.outbox.push(EffectModel::SubmitUserTurn(question)),
                None => old(app)@.outbox,
            },
            ..old(app)@
        }),
{
}

/// Where the switch lands elsewhere the side conversation is discarded, and then its question goes
/// back to where it was typed.
pub proof fn law_switch_that_misses_gives_back(
    app: &mut App,
    other: &mut App,
    back: &mut App,
    switch: SideSwitch,
    r: Option<FailedSideSwitch>,
)
    requires
        call_ensures(App::finish_side_switch, (app, switch, Ok(())), r),
        old(app)@.active_thread_id != Some(switch.child_thread_id),
        old(other)@ == old(app)@,
        call_ensures(App::discard_side_thread_in_background, (other, switch.child_thread_id), ()),
        *old(back) == *final(other),
        call_ensures(
            App::restore_side_user_message_for_thread,
            (back, switch.parent_thread_id, switch.user_message),
            (),
        ),
    ensures
        r is None,
        final(app)@ == final(back)@,
{
}

/// Where the switch fails the side conversation is discarded. In its parent the switch is given up
/// at once; elsewhere the failure is handed out, with everything that giving it up takes.
pub proof fn law_failed_switch_is_given_up(
    app: &mut App,
    other: &mut App,
    ended: &mut App,
    switch: SideSwitch,
    error: Report,
    failed: FailedSideSwitch,
    r: Option<FailedSideSwitch>,
)
    requires
        call_ensures(App::finish_side_switch, (app, switch, Err(error)), r),
        old(other)@ == old(app)@,
        call_ensures(App::discard_side_thread_in_background, (other, switch.child_thread_id), ()),
        *old(ended) == *final(other),
        failed.child_thread_id == switch.child_thread_id,
        failed.parent_thread_id == switch.parent_thread_id,
        failed.user_message == switch.user_message,
        failed.error@ == crate::report::shown_text(error),
        call_ensures(App::give_up_side_switch, (ended, failed), ()),
    ensures
        old(app)@.active_thread_id == Some(switch.parent_thread_id) ==> r is None && final(app)@
            == final(ended)@,
        old(app)@.active_thread_id != Some(switch.parent_thread_id) ==> {
            &&& final(app)@ == final(other)@
            &&& r is Some
            &&& r->0.child_thread_id == switch.child_thread_id
            &&& r->0.parent_thread_id == switch.parent_thread_id
            &&& r->0.user_message == switch.user_message
            &&& r->0.error@ == crate::report::shown_text(error)
        },
{
}

/// To give a switch up is to put its question back to where it was typed, and then to tell the user
/// which side conversation it was and why.
pub proof fn law_giving_up_gives_back(app: &mut App, back: &mut App, failed: FailedSideSwitch)
    requires
        call_ensures(App::give_up_side_switch, (app, failed), ()),
        old(back)@ == old(app)@,
        call_ensures(
            App::restore_side_user_message_for_thread,
            (back, failed.parent_thread_id, failed.user_message),
            (),
        ),
    ensures
        final(app)@ == (AppModel {
            outbox: final(back)@.outbox.push(
                EffectModel::ShowError(
                    "Failed to switch into side conversation "@ + crate::ids::id_text(
                        failed.child_thread_id,
                    ) + ": "@ + failed.error@,
                ),
            ),
            ..final(back)@
        }),
{
}

} // verus!
