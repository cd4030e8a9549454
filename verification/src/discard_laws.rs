//! What a caller sees of taking side conversations back.
//!
//! Each law here speaks of calls: `call_ensures` holds of the arguments and the result of every
//! call that returns.

use color_eyre::Report;
use vstd::prelude::*;
use crate::app::{AgentPickerEntry, App, AppModel, EffectModel};
use crate::discard::InterruptRequest;
use crate::ids::ThreadId;

verus! {

/// A thread that is discarded in the background is out of sight at once: it is neither open nor
/// listed nor expected, its events are ignored, and its cleanup is due. What it was, if it was open,
/// is set aside whole. What is kept of it stays until the cleanup has answered.
pub proof fn law_discarded_thread_is_out_of_sight(app: &mut App, id: ThreadId)
    requires
        call_ensures(App::discard_side_thread_in_background, (app, id), ()),
        !old(app)@.abandoned_side_threads.contains(id),
    ensures
        final(app)@ == (AppModel {
            side_threads: old(app)@.side_threads.remove(id),
            agent_navigation: old(app)@.agent_navigation.remove(id),
            pending_side_threads: old(app)@.pending_side_threads.remove(id),
            abandoned_side_threads: old(app)@.abandoned_side_threads.insert(id),
            side_cleanup_recovery: final(app)@.side_cleanup_recovery,
            outbox: old(app)@.outbox + seq![
                EffectModel::SyncActiveAgentLabel,
                EffectModel::StartSideCleanup(id),
            ],
            ..old(app)@
        }),
        final(app)@.side_cleanup_recovery.remove(id) == old(app)@.side_cleanup_recovery.remove(id),
        final(app)@.side_cleanup_recovery.contains_key(id),
        old(app)@.side_threads.contains_key(id) ==> final(app)@.side_cleanup_recovery[id] == Some(
            old(app)@.side_threads[id],
        ),
        !old(app)@.side_threads.contains_key(id) ==> final(app)@.side_cleanup_recovery[id] is None,
{
    let (m, n) = (old(app)@, final(app)@);
    assert(n.outbox =~= m.outbox + seq![
        EffectModel::SyncActiveAgentLabel,
        EffectModel::StartSideCleanup(id),
    ]);
    assert(n.side_cleanup_recovery.remove(id) =~= m.side_cleanup_recovery.remove(id));
}

/// A thread whose events are ignored already is not discarded again.
pub proof fn law_discarded_thread_is_left_alone(app: &mut App, id: ThreadId)
    requires
        call_ensures(App::discard_side_thread_in_background, (app, id), ()),
        old(app)@.abandoned_side_threads.contains(id),
    ensures
        final(app)@ == old(app)@,
{
}

/// Nothing of a forgotten thread is left but whether its events are ignored, and it is no longer
/// active. Its events are listened to no more; where it was active that is let go of, and elsewhere
/// what waits in other threads is looked for again.
pub proof fn law_forgotten_thread_is_gone(app: &mut App, id: ThreadId)
    requires
        call_ensures(App::discard_thread_local_state, (app, id), ()),
    ensures
        final(app)@ == (AppModel {
            side_threads: old(app)@.side_threads.remove(id),
            agent_navigation: old(app)@.agent_navigation.remove(id),
            pending_side_threads: old(app)@.pending_side_threads.remove(id),
            side_cleanup_recovery: old(app)@.side_cleanup_recovery.remove(id),
            thread_event_channels: old(app)@.thread_event_channels.remove(id),
            active_thread_id: final(app)@.active_thread_id,
            outbox: final(app)@.outbox,
            ..old(app)@
        }),
        old(app)@.active_thread_id == Some(id) ==> final(app)@.active_thread_id is None
            && final(app)@.outbox == old(app)@.outbox + seq![
            EffectModel::AbortEventListener(id),
            EffectModel::ClearActiveThread,
            EffectModel::SyncActiveAgentLabel,
        ],
        old(app)@.active_thread_id != Some(id) ==> final(app)@.active_thread_id
            == old(app)@.active_thread_id && final(app)@.outbox == old(app)@.outbox + seq![
            EffectModel::AbortEventListener(id),
            EffectModel::RefreshPendingApprovals,
            EffectModel::SyncActiveAgentLabel,
        ],
{
    let (m, n) = (old(app)@, final(app)@);
    if m.active_thread_id == Some(id) {
        assert(n.outbox =~= m.outbox + seq![
            EffectModel::AbortEventListener(id),
            EffectModel::ClearActiveThread,
            EffectModel::SyncActiveAgentLabel,
        ]);
    } else {
        assert(n.outbox =~= m.outbox + seq![
            EffectModel::AbortEventListener(id),
            EffectModel::RefreshPendingApprovals,
            EffectModel::SyncActiveAgentLabel,
        ]);
    }
}

/// A side thread that the server closed is forgotten like any other.
pub proof fn law_closed_thread_is_forgotten(app: &mut App, other: &mut App, id: ThreadId)
    requires
        old(app)@ == old(other)@,
        call_ensures(App::discard_closed_side_thread, (app, id), ()),
        call_ensures(App::discard_thread_local_state, (other, id), ()),
    ensures
        final(app)@ == final(other)@,
{
}

/// An answer of a cleanup that nobody waits for changes nothing.
pub proof fn law_stray_cleanup_answer(app: &mut App, id: ThreadId, result: Result<(), String>)
    requires
        call_ensures(App::handle_side_thread_cleanup_finished, (app, id, result), ()),
        !old(app)@.side_cleanup_recovery.contains_key(id),
    ensures
        final(app)@ == old(app)@,
{
}

/// A cleanup that went well, and one that failed for a thread that was not open, end with the thread
/// forgotten. It goes on to be ignored.
pub proof fn law_cleaned_up_thread_is_forgotten(
    app: &mut App,
    other: &mut App,
    id: ThreadId,
    result: Result<(), String>,
)
    requires
        old(app)@ == old(other)@,
        old(app)@.side_cleanup_recovery.contains_key(id),
        result is Ok || old(app)@.side_cleanup_recovery[id] is None,
        call_ensures(App::handle_side_thread_cleanup_finished, (app, id, result), ()),
        call_ensures(App::discard_thread_local_state, (other, id), ()),
    ensures
        final(app)@ == final(other)@,
        final(app)@.abandoned_side_threads == old(app)@.abandoned_side_threads,
{
}

/// A cleanup that failed for a side conversation that was open brings it back as it was set aside.
/// Its events are heard again, it is listed without a name where something is kept of it, and the
/// user is told which one it is and why.
pub proof fn law_failed_cleanup_brings_back(
    app: &mut App,
    id: ThreadId,
    error: String,
)
    requires
        call_ensures(App::handle_side_thread_cleanup_finished, (app, id, Err(error)), ()),
        old(app)@.side_cleanup_recovery.contains_key(id),
        old(app)@.side_cleanup_recovery[id] is Some,
    ensures
        final(app)@ == (AppModel {
            side_threads: old(app)@.side_threads.insert(
                id,
                old(app)@.side_cleanup_recovery[id]->0,
            ),
            side_cleanup_recovery: old(app)@.side_cleanup_recovery.remove(id),
            abandoned_side_threads: old(app)@.abandoned_side_threads.remove(id),
            pending_side_threads: old(app)@.pending_side_threads.remove(id),
            agent_navigation: final(app)@.agent_navigation,
            outbox: old(app)@.outbox + seq![
                EffectModel::ShowError(
                    "Failed to close side conversation "@ + crate::ids::id_text(id)
                        + "; it is still open: "@ + error@,
                ),
                EffectModel::SyncActiveAgentLabel,
            ],
            ..old(app)@
        }),
        old(app)@.thread_event_channels.contains_key(id) ==> final(app)@.agent_navigation
            == old(app)@.agent_navigation.insert(
            id,
            AgentPickerEntry { agent_nickname: None, agent_role: None, is_closed: false },
        ),
        !old(app)@.thread_event_channels.contains_key(id) ==> final(app)@.agent_navigation
            == old(app)@.agent_navigation,
{
    let (m, n) = (old(app)@, final(app)@);
    assert(n.outbox =~= m.outbox + seq![
        EffectModel::ShowError(
            "Failed to close side conversation "@ + crate::ids::id_text(id)
                + "; it is still open: "@ + error@,
        ),
        EffectModel::SyncActiveAgentLabel,
    ]);
}

/// Discarding in the background and a cleanup that fails cancel out: whatever the parent's status,
/// and whichever thread is on the screen, the side conversation is open as it was.
pub proof fn law_failed_closing_undoes_discarding(
    app: &mut App,
    next: &mut App,
    id: ThreadId,
    error: String,
)
    requires
        old(app)@.side_threads.contains_key(id),
        !old(app)@.abandoned_side_threads.contains(id),
        !old(app)@.side_cleanup_recovery.contains_key(id),
        call_ensures(App::discard_side_thread_in_background, (app, id), ()),
        *old(next) == *final(app),
        call_ensures(App::handle_side_thread_cleanup_finished, (next, id, Err(error)), ()),
    ensures
        final(next)@.side_threads == old(app)@.side_threads,
        final(next)@.side_cleanup_recovery == old(app)@.side_cleanup_recovery,
        final(next)@.abandoned_side_threads == old(app)@.abandoned_side_threads,
        final(next)@.thread_event_channels == old(app)@.thread_event_channels,
        final(next)@.pending_side_threads == old(app)@.pending_side_threads.remove(id),
        final(next)@.active_thread_id == old(app)@.active_thread_id,
        final(next)@.pending_side_start == old(app)@.pending_side_start,
{
    let (m, n) = (old(app)@, final(next)@);
    assert(n.side_threads =~= m.side_threads);
    assert(n.side_cleanup_recovery =~= m.side_cleanup_recovery);
    assert(n.abandoned_side_threads =~= m.abandoned_side_threads);
    assert(n.pending_side_threads =~= m.pending_side_threads.remove(id));
}

/// A status that its parent takes on while a side conversation is being closed does not reach it:
/// what is set aside stays as it was.
pub proof fn law_set_aside_stays(
    app: &mut App,
    parent: ThreadId,
    change: crate::status::SideParentStatusChange,
)
    requires
        call_ensures(App::apply_side_parent_status_change, (app, parent, change), ()),
    ensures
        final(app)@.side_cleanup_recovery == old(app)@.side_cleanup_recovery,
{
}

/// A side thread that is to be closed at once is interrupted by the turn that is running, or in its
/// start where none is.
pub proof fn law_interrupt_names_the_turn(
    id: ThreadId,
    turn: Option<String>,
    r: InterruptRequest,
)
    requires
        call_ensures(App::interrupt_side_thread, (id, turn), r),
    ensures
        turn is Some ==> r == InterruptRequest::Turn(id, turn->0),
        turn is None ==> r == InterruptRequest::Startup(id),
{
}

/// Where the interrupt failed the thread stays as it was, and the user is told which one it is and
/// why. Where it went well nothing changes yet.
pub proof fn law_failed_interrupt_keeps_the_thread(
    app: &mut App,
    id: ThreadId,
    interrupt: Result<(), Report>,
    r: bool,
)
    requires
        call_ensures(App::discard_side_thread, (app, id, interrupt), r),
    ensures
        r <==> interrupt is Ok,
        r ==> final(app)@ == old(app)@,
        interrupt matches Err(error) ==> final(app)@ == (AppModel {
            outbox: old(app)@.outbox.push(
                EffectModel::ShowError(
                    "Failed to close side conversation "@ + crate::ids::id_text(id)
                        + "; it is still open: "@ + crate::report::shown_text(error),
                ),
            ),
            ..old(app)@
        }),
{
}

/// A thread that was unsubscribed from is forgotten and ignored from then on. One that could not be
/// stays as it was, and the user is told which one it is and why.
pub proof fn law_unsubscribed_thread_is_forgotten(
    app: &mut App,
    other: &mut App,
    id: ThreadId,
    unsubscribe: Result<(), Report>,
    r: bool,
)
    requires
        call_ensures(App::discard_unsubscribed_side_thread, (app, id, unsubscribe), r),
        old(other)@ == old(app)@,
        call_ensures(App::discard_thread_local_state, (other, id), ()),
    ensures
        r <==> unsubscribe is Ok,
        r ==> final(app)@ == (AppModel {
            abandoned_side_threads: old(app)@.abandoned_side_threads.insert(id),
            ..final(other)@
        }),
        unsubscribe matches Err(error) ==> final(app)@ == (AppModel {
            outbox: old(app)@.outbox.push(
                EffectModel::ShowError(
                    "Failed to close side conversation "@ + crate::ids::id_text(id)
                        + "; it is still open: "@ + crate::report::shown_text(error),
                ),
            ),
            ..old(app)@
        }),
{
}

} // verus!
