//! What a caller sees of moving between threads while a side conversation is open.
//!
//! Each law here speaks of calls: `call_ensures` holds of the arguments and the result of every
//! call that returns.

use color_eyre::Report;
use vstd::prelude::*;
use crate::app::{App, AppModel, EffectModel};
use crate::ids::ThreadId;

verus! {

/// `side` is open, and no other side conversation is.
pub open spec fn only_side(m: AppModel, side: ThreadId) -> bool {
    &&& m.side_threads.contains_key(side)
    &&& forall|id: ThreadId| #[trigger] m.side_threads.contains_key(id) ==> id == side
}

/// No side conversation is open.
pub open spec fn no_side(m: AppModel) -> bool {
    forall|id: ThreadId| !#[trigger] m.side_threads.contains_key(id)
}

/// The user returns from a side conversation exactly where one is shown and nothing else is in hand:
/// nothing over the chat, no popup, nothing typed. The thread returned to is the one that the side
/// conversation came from, whichever is the main thread.
pub proof fn law_return_leads_to_the_parent(app: &App, r: Option<ThreadId>)
    requires
        call_ensures(App::maybe_return_from_side, (app,), r),
    ensures
        r is Some <==> {
            &&& !app@.overlay_open
            &&& !app@.modal_or_popup_active
            &&& app@.composer_is_empty
            &&& app@.displayed_thread_id is Some
            &&& app@.side_threads.contains_key(app@.displayed_thread_id->0)
        },
        r is Some ==> r->0 == app@.side_threads[app@.displayed_thread_id->0].parent_thread_id,
{
}

/// The user has returned where the selection went well and no side conversation is shown any more.
pub proof fn law_returned_where_no_side_is_shown(
    app: &App,
    selected: &Result<(), Report>,
    r: bool,
)
    requires
        call_ensures(App::returned_from_side, (app, selected), r),
    ensures
        r <==> selected is Ok && (app@.displayed_thread_id is None
            || !app@.side_threads.contains_key(app@.displayed_thread_id->0)),
{
}

/// The side conversation that is open is discarded with a switch exactly where it or its parent is
/// shown and the switch leads to a third thread, or from it back to its parent: to any thread but
/// itself and the one that is shown.
pub proof fn law_left_side_is_discarded(
    app: &App,
    target: ThreadId,
    side: ThreadId,
    r: Option<ThreadId>,
)
    requires
        call_ensures(App::side_thread_to_discard_after_switch, (app, target), r),
        only_side(app@, side),
    ensures
        r is Some ==> r->0 == side,
        r is Some <==> {
            &&& app@.displayed_thread_id is Some
            &&& target != side
            &&& target != app@.displayed_thread_id->0
            &&& app@.displayed_thread_id->0 == side || app@.displayed_thread_id->0
                == app@.side_threads[side].parent_thread_id
        },
{
    assert(app@.side_threads.dom().contains(side));
}

/// With no side conversation open, or nothing shown, a switch discards nothing; and whichever of
/// several is looked at, only one that is left behind is discarded.
pub proof fn law_nothing_else_is_discarded(app: &App, target: ThreadId, r: Option<ThreadId>)
    requires
        call_ensures(App::side_thread_to_discard_after_switch, (app, target), r),
    ensures
        no_side(app@) || app@.displayed_thread_id is None ==> r is None,
        r matches Some(side) ==> {
            &&& app@.side_threads.contains_key(side)
            &&& target != side
            &&& app@.displayed_thread_id != Some(target)
            &&& app@.displayed_thread_id == Some(side) || app@.displayed_thread_id == Some(
                app@.side_threads[side].parent_thread_id,
            )
        },
{
    if no_side(app@) {
        assert(app@.side_threads.dom() =~= Set::empty());
    }
}

/// Toggling leads from the side conversation that is open to the thread it came from, from there to
/// the side conversation, and from anywhere else nowhere.
pub proof fn law_toggle_leads_across(app: &App, side: ThreadId, r: Option<ThreadId>)
    requires
        call_ensures(App::toggle_side_conversation, (app,), r),
        only_side(app@, side),
    ensures
        app@.displayed_thread_id == Some(side) ==> r == Some(
            app@.side_threads[side].parent_thread_id,
        ),
        app@.displayed_thread_id != Some(side) && app@.displayed_thread_id == Some(
            app@.side_threads[side].parent_thread_id,
        ) ==> r == Some(side),
        app@.displayed_thread_id != Some(side) && app@.displayed_thread_id != Some(
            app@.side_threads[side].parent_thread_id,
        ) ==> r is None,
{
    assert(app@.side_threads.dom().contains(side));
}

/// With no side conversation open, or nothing shown, toggling leads nowhere; and whichever of several
/// is looked at, it leads between that one and its parent.
pub proof fn law_toggle_leads_nowhere_else(app: &App, r: Option<ThreadId>)
    requires
        call_ensures(App::toggle_side_conversation, (app,), r),
    ensures
        no_side(app@) || app@.displayed_thread_id is None ==> r is None,
        r matches Some(target) ==> {
            ||| app@.side_threads.contains_key(app@.displayed_thread_id->0)
                && app@.side_threads[app@.displayed_thread_id->0].parent_thread_id == target
            ||| app@.side_threads.contains_key(target)
                && app@.side_threads[target].parent_thread_id == app@.displayed_thread_id->0
        },
{
    if no_side(app@) {
        assert(app@.side_threads.dom() =~= Set::empty());
    }
}

/// Whichever thread was selected, once it is active the side conversation that was to be discarded
/// with the switch is discarded in the background, and then the requests that wait in other threads
/// come up. Where the selection failed, led elsewhere, or left nothing behind, nothing changes. The
/// outcome of the selection is handed on.
pub proof fn law_selection_discards_what_is_left(
    app: &mut App,
    other: &mut App,
    thread_id: ThreadId,
    side: ThreadId,
    left: Option<ThreadId>,
    outcome: Result<(), Report>,
    r: Result<(), Report>,
)
    requires
        call_ensures(
            App::select_agent_thread_and_discard_side,
            (app, thread_id, left, outcome),
            r,
        ),
        left is Some ==> left->0 == side,
        old(other)@ == old(app)@,
        call_ensures(App::discard_side_thread_in_background, (other, side), ()),
    ensures
        r == outcome,
        outcome is Ok && left is Some && old(app)@.active_thread_id == Some(thread_id)
            ==> final(app)@ == (AppModel {
            outbox: final(other)@.outbox.push(EffectModel::SurfacePendingRequests),
            ..final(other)@
        }),
        outcome is Err || left is None || old(app)@.active_thread_id != Some(thread_id)
            ==> final(app)@ == old(app)@,
{
}

/// Whichever thread was selected, once it is active a side conversation that was left behind is no
/// longer open nor listed, its events are ignored, and its cleanup is due, followed by the requests
/// that wait in other threads.
pub proof fn law_left_side_is_closed(
    app: &mut App,
    thread_id: ThreadId,
    side: ThreadId,
    r: Result<(), Report>,
)
    requires
        call_ensures(
            App::select_agent_thread_and_discard_side,
            (app, thread_id, Some(side), Ok(())),
            r,
        ),
        old(app)@.active_thread_id == Some(thread_id),
        !old(app)@.abandoned_side_threads.contains(side),
    ensures
        !final(app)@.side_threads.contains_key(side),
        !final(app)@.agent_navigation.contains_key(side),
        final(app)@.abandoned_side_threads.contains(side),
        final(app)@.side_cleanup_recovery.contains_key(side),
        final(app)@.outbox == old(app)@.outbox + seq![
            EffectModel::SyncActiveAgentLabel,
            EffectModel::StartSideCleanup(side),
            EffectModel::SurfacePendingRequests,
        ],
{
    assert(final(app)@.outbox =~= old(app)@.outbox + seq![
        EffectModel::SyncActiveAgentLabel,
        EffectModel::StartSideCleanup(side),
        EffectModel::SurfacePendingRequests,
    ]);
}

/// To return from the side conversation that is open closes it: the thread returned to is its
/// parent, and with that switch the side conversation is the one to discard.
pub proof fn law_return_closes_the_side(
    app: &App,
    side: ThreadId,
    parent: Option<ThreadId>,
    left: Option<ThreadId>,
)
    requires
        only_side(app@, side),
        app@.side_threads[side].parent_thread_id != side,
        call_ensures(App::maybe_return_from_side, (app,), parent),
        parent is Some,
        call_ensures(App::side_thread_to_discard_after_switch, (app, parent->0), left),
    ensures
        parent == Some(app@.side_threads[side].parent_thread_id),
        left == Some(side),
{
    law_return_leads_to_the_parent(app, parent);
    law_left_side_is_discarded(app, parent->0, side, left);
}

} // verus!
