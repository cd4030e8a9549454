//! What a caller sees of the screen while side conversations are open.
//!
//! Each law here speaks of calls: `call_ensures` holds of the arguments and the result of every
//! call that returns.

use vstd::prelude::*;
use crate::app::{App, AppModel, ChatSettings, Effect, PendingSideStart};
use crate::ids::ThreadId;
use crate::prompts::SIDE_RENAME_BLOCK_MESSAGE;
use crate::protocol::{ServerNotification, ServerRequest, TurnStatus};
use crate::status::{SideParentStatus, SideParentStatusChange, SideThreadState};

verus! {

/// A thread goes by its name where it has one, and else by its identifier.
pub proof fn law_thread_goes_by_its_name(app: &App, id: ThreadId, r: String)
    requires
        call_ensures(App::thread_label, (app, id), r),
    ensures
        app@.thread_labels.contains_key(id) ==> r@ == app@.thread_labels[id],
        !app@.thread_labels.contains_key(id) ==> r@ == crate::ids::id_text(id),
{
}

/// The parent of the side conversation that is shown is the thread that it came from, whichever is
/// the main thread and whichever is active. There is none exactly where no side conversation is
/// shown.
pub proof fn law_shown_side_has_its_parent(app: &App, r: Option<ThreadId>)
    requires
        call_ensures(App::active_side_parent_thread_id, (app,), r),
    ensures
        r is Some <==> app@.displayed_thread_id is Some && app@.side_threads.contains_key(
            app@.displayed_thread_id->0,
        ),
        r is Some ==> r->0 == app@.side_threads[app@.displayed_thread_id->0].parent_thread_id,
{
}

/// Bringing the screen up to date changes nothing but the screen.
pub proof fn law_sync_changes_the_screen_only(app: &mut App)
    requires
        call_ensures(App::sync_side_thread_ui, (app,), ()),
    ensures
        final(app)@ == (AppModel { side_ui: final(app)@.side_ui, ..old(app)@ }),
{
}

/// While a side conversation is shown it is marked as one: it cannot be renamed, and of interrupted
/// turns nothing is said. Its label tells, in this order, where it came from, how its parent stands
/// wherever that is known, the key that switches wherever one is bound, and the key that closes.
pub proof fn law_side_is_labelled(
    app: &mut App,
    named: String,
    standing: &'static str,
)
    requires
        call_ensures(App::sync_side_thread_ui, (app,), ()),
        old(app)@.displayed_thread_id is Some,
        old(app)@.side_threads.contains_key(old(app)@.displayed_thread_id->0),
        call_ensures(
            App::thread_label,
            (
                &*old(app),
                old(app)@.side_threads[old(app)@.displayed_thread_id->0].parent_thread_id,
            ),
            named,
        ),
        old(app)@.side_threads[old(app)@.displayed_thread_id->0].parent_status is Some
            ==> call_ensures(
            SideParentStatus::label,
            (
                old(app)@.side_threads[old(app)@.displayed_thread_id->0].parent_status->0,
                old(app)@.primary_thread_id == Some(
                    old(app)@.side_threads[old(app)@.displayed_thread_id->0].parent_thread_id,
                ),
            ),
            standing,
        ),
    ensures
        final(app)@.side_ui.side_conversation_active,
        final(app)@.side_ui.thread_rename_block == Some(SIDE_RENAME_BLOCK_MESSAGE@),
        final(app)@.side_ui.interrupted_turn_notice_mode is Suppress,
        ({
            let state = old(app)@.side_threads[old(app)@.displayed_thread_id->0];
            let origin = if old(app)@.primary_thread_id == Some(state.parent_thread_id) {
                "from main thread"@
            } else {
                "from parent thread ("@ + named@ + ")"@
            };
            let status = if state.parent_status is Some {
                " · "@ + standing@
            } else {
                Seq::empty()
            };
            let switch = match old(app)@.toggle_side_hint {
                Some(key) => " · "@ + key + " to switch"@,
                None => Seq::empty(),
            };
            final(app)@.side_ui.context_label == Some(
                "Side "@ + origin + status + switch + " · "@ + "ctrl + c to close"@,
            )
        }),
{
    let m = old(app)@;
    let state = m.side_threads[m.displayed_thread_id->0];
    let parts = m.side_label_parts(state);
    let sep = " · "@;
    let line = crate::text::joined(parts, sep);
    let origin = parts[0];
    lemma_joined(parts, sep);
    let switch = match m.toggle_side_hint {
        Some(key) => sep + (key + " to switch"@),
        None => Seq::empty(),
    };
    let status = if state.parent_status is Some {
        sep + standing@
    } else {
        Seq::empty()
    };
    assert(line =~= origin + status + switch + sep + "ctrl + c to close"@);
    assert("Side "@ + line =~= "Side "@ + origin + status + switch + sep + "ctrl + c to close"@);
    if let Some(key) = m.toggle_side_hint {
        assert(switch =~= sep + key + " to switch"@);
    }
}

/// The parts of a label, put behind one another with the separator between each two.
proof fn lemma_joined(parts: Seq<Seq<char>>, sep: Seq<char>)
    ensures
        parts.len() == 2 ==> crate::text::joined(parts, sep) == parts[0] + sep + parts[1],
        parts.len() == 3 ==> crate::text::joined(parts, sep) == parts[0] + sep + parts[1] + sep
            + parts[2],
        parts.len() == 4 ==> crate::text::joined(parts, sep) == parts[0] + sep + parts[1] + sep
            + parts[2] + sep + parts[3],
{
    reveal_with_fuel(crate::text::joined, 5);
}

/// While a side conversation is shown whose parent has a status, the words of that status stand in
/// the label, whether or not a key is bound; and where a key is bound, its hint stands there too,
/// whether or not there is a status.
pub proof fn law_label_tells_status_and_key(
    app: &mut App,
    named: String,
    standing: &'static str,
)
    requires
        call_ensures(App::sync_side_thread_ui, (app,), ()),
        old(app)@.displayed_thread_id is Some,
        old(app)@.side_threads.contains_key(old(app)@.displayed_thread_id->0),
        call_ensures(
            App::thread_label,
            (
                &*old(app),
                old(app)@.side_threads[old(app)@.displayed_thread_id->0].parent_thread_id,
            ),
            named,
        ),
        old(app)@.side_threads[old(app)@.displayed_thread_id->0].parent_status is Some
            ==> call_ensures(
            SideParentStatus::label,
            (
                old(app)@.side_threads[old(app)@.displayed_thread_id->0].parent_status->0,
                old(app)@.primary_thread_id == Some(
                    old(app)@.side_threads[old(app)@.displayed_thread_id->0].parent_thread_id,
                ),
            ),
            standing,
        ),
    ensures
        final(app)@.side_ui.context_label is Some,
        old(app)@.side_threads[old(app)@.displayed_thread_id->0].parent_status is Some
            ==> crate::text::occurs(final(app)@.side_ui.context_label->0, standing@),
        old(app)@.toggle_side_hint matches Some(key) ==> crate::text::occurs(
            final(app)@.side_ui.context_label->0,
            key + " to switch"@,
        ),
{
    law_side_is_labelled(app, named, standing);
    let m = old(app)@;
    let state = m.side_threads[m.displayed_thread_id->0];
    let label = final(app)@.side_ui.context_label->0;
    let sep = " · "@;
    let origin = if m.primary_thread_id == Some(state.parent_thread_id) {
        "from main thread"@
    } else {
        "from parent thread ("@ + named@ + ")"@
    };
    let status = if state.parent_status is Some {
        sep + standing@
    } else {
        Seq::empty()
    };
    let before = "Side "@ + origin;
    if state.parent_status is Some {
        let at = (before + sep).len() as int;
        assert(label.subrange(at, at + standing@.len()) =~= standing@);
        assert(crate::text::occurs_at(label, standing@, at));
    }
    if let Some(key) = m.toggle_side_hint {
        let hint = key + " to switch"@;
        let at = (before + status + sep).len() as int;
        assert(label.subrange(at, at + hint.len()) =~= hint);
        assert(crate::text::occurs_at(label, hint, at));
    }
}

/// A status is told in the same words of every parent, behind whether it is the main thread.
pub proof fn law_status_words(
    status: SideParentStatus,
    main: &'static str,
    parent: &'static str,
)
    requires
        call_ensures(SideParentStatus::label, (status, true), main),
        call_ensures(SideParentStatus::label, (status, false), parent),
    ensures
        exists|words: Seq<char>|
            words.len() > 0 && main@ == "main "@ + words && #[trigger] ("parent "@ + words)
                == parent@,
{
    let words = status.words();
    reveal_strlit("needs input");
    reveal_strlit("needs approval");
    reveal_strlit("failed");
    reveal_strlit("interrupted");
    reveal_strlit("closed");
    reveal_strlit("finished");
    assert("parent "@ + words == parent@);
}

/// Where no side conversation is shown nothing is marked as one. There is then a label exactly where
/// a key is bound and some open side conversation came from the thread that is shown, and it tells
/// the key.
pub proof fn law_parent_is_told_the_key(app: &mut App)
    requires
        call_ensures(App::sync_side_thread_ui, (app,), ()),
        old(app)@.displayed_thread_id is None || !old(app)@.side_threads.contains_key(
            old(app)@.displayed_thread_id->0,
        ),
    ensures
        !final(app)@.side_ui.side_conversation_active,
        final(app)@.side_ui.thread_rename_block is None,
        final(app)@.side_ui.interrupted_turn_notice_mode is Default,
        final(app)@.side_ui.context_label is Some <==> {
            &&& old(app)@.toggle_side_hint is Some
            &&& old(app)@.displayed_thread_id is Some
            &&& exists|id: ThreadId| #[trigger]
                old(app)@.side_threads.contains_key(id)
                    && old(app)@.side_threads[id].parent_thread_id == old(app)@.displayed_thread_id->0
        },
        final(app)@.side_ui.context_label is Some ==> final(app)@.side_ui.context_label->0
            == old(app)@.toggle_side_hint->0 + " for side"@,
{
}

/// Setting the status of a parent gives it to every side conversation that came from that parent,
/// and to the one of it that is being prepared, and to no other; it may be taken away the same way.
pub proof fn law_status_is_set(
    app: &mut App,
    parent: ThreadId,
    status: Option<SideParentStatus>,
    id: ThreadId,
)
    requires
        call_ensures(App::set_side_parent_status, (app, parent, status), ()),
    ensures
        old(app)@.side_threads.contains_key(id) <==> final(app)@.side_threads.contains_key(id),
        old(app)@.side_threads.contains_key(id) ==> restatused_to(
            old(app)@.side_threads[id],
            final(app)@.side_threads[id],
            parent,
            status,
        ),
        only_status_changes(old(app)@, final(app)@),
        old(app)@.pending_side_start is Some ==> restatused_to(
            old(app)@.pending_side_start->0.side_state,
            final(app)@.pending_side_start->0.side_state,
            parent,
            status,
        ),
{
}

/// The side conversation `after` is `before`, but that it has that status where it came from
/// `parent`.
pub open spec fn restatused_to(
    before: SideThreadState,
    after: SideThreadState,
    parent: ThreadId,
    status: Option<SideParentStatus>,
) -> bool {
    &&& after.parent_thread_id == before.parent_thread_id
    &&& before.parent_thread_id == parent ==> after.parent_status == status
    &&& before.parent_thread_id != parent ==> after.parent_status == before.parent_status
}

/// From `m` to `n` nothing changes but open side conversations, the one that is being prepared, with
/// its request and its question kept, and the screen.
pub open spec fn only_status_changes(m: AppModel, n: AppModel) -> bool {
    &&& n == AppModel {
        side_threads: n.side_threads,
        pending_side_start: n.pending_side_start,
        side_ui: n.side_ui,
        ..m
    }
    &&& n.pending_side_start is Some <==> m.pending_side_start is Some
    &&& m.pending_side_start is Some ==> n.pending_side_start == Some(
        PendingSideStart {
            side_state: n.pending_side_start->0.side_state,
            ..m.pending_side_start->0
        },
    )
}

/// Clearing what asks the user to act takes away a status that waits for input or approval, and no
/// other, from every side conversation of that parent, open or being prepared.
pub proof fn law_action_status_is_cleared(app: &mut App, parent: ThreadId, id: ThreadId)
    requires
        call_ensures(App::clear_side_parent_action_status, (app, parent), ()),
    ensures
        old(app)@.side_threads.contains_key(id) <==> final(app)@.side_threads.contains_key(id),
        old(app)@.side_threads.contains_key(id) ==> restatused_to(
            old(app)@.side_threads[id],
            final(app)@.side_threads[id],
            parent,
            unless_acting(old(app)@.side_threads[id].parent_status),
        ),
        only_status_changes(old(app)@, final(app)@),
        old(app)@.pending_side_start is Some ==> restatused_to(
            old(app)@.pending_side_start->0.side_state,
            final(app)@.pending_side_start->0.side_state,
            parent,
            unless_acting(old(app)@.pending_side_start->0.side_state.parent_status),
        ),
{
}

/// A status, unless it waits for the user's input or approval.
pub open spec fn unless_acting(status: Option<SideParentStatus>) -> Option<SideParentStatus> {
    if status == Some(SideParentStatus::NeedsInput) || status == Some(
        SideParentStatus::NeedsApproval,
    ) {
        None
    } else {
        status
    }
}

/// The screen follows a change of status exactly where the change reached an open side conversation:
/// it is then what bringing it up to date makes of the new state, and otherwise it stays.
pub proof fn law_screen_follows_status(
    app: &mut App,
    screen: &mut App,
    parent: ThreadId,
    change: SideParentStatusChange,
)
    requires
        call_ensures(App::apply_side_parent_status_change, (app, parent, change), ()),
        old(screen)@ == final(app)@,
        call_ensures(App::sync_side_thread_ui, (screen,), ()),
    ensures
        old(app)@.side_threads == final(app)@.side_threads ==> final(app)@.side_ui == old(app)@.side_ui,
        old(app)@.side_threads != final(app)@.side_threads ==> final(app)@.side_ui == final(screen)@.side_ui,
{
    let (m, n) = (old(app)@, final(app)@);
    if m.status_changes(parent, change) {
        let id = choose|id: ThreadId| #[trigger]
            m.side_threads.contains_key(id) && crate::screen::restatused(
                m.side_threads[id],
                parent,
                change,
            ) != m.side_threads[id];
        assert(n.side_threads[id] != m.side_threads[id]);
    } else {
        assert(n.side_threads =~= m.side_threads);
    }
}

/// A change of status is one of the two operations: a status set or cleared, or what asks the user
/// to act cleared.
pub proof fn law_status_change_is_applied(
    app: &mut App,
    setting: &mut App,
    clearing: &mut App,
    acting: &mut App,
    parent: ThreadId,
    status: SideParentStatus,
    change: SideParentStatusChange,
)
    requires
        call_ensures(App::apply_side_parent_status_change, (app, parent, change), ()),
        old(setting)@ == old(app)@,
        old(clearing)@ == old(app)@,
        old(acting)@ == old(app)@,
        call_ensures(App::set_side_parent_status, (setting, parent, Some(status)), ()),
        call_ensures(App::set_side_parent_status, (clearing, parent, None), ()),
        call_ensures(App::clear_side_parent_action_status, (acting, parent), ()),
    ensures
        change == SideParentStatusChange::SetTo(status) ==> final(app)@ == final(setting)@,
        change is Clear ==> final(app)@ == final(clearing)@,
        change is ClearActionable ==> final(app)@ == final(acting)@,
{
}

/// A parent waits for the user exactly where it needs input or approval.
pub proof fn law_waiting_parent_acts(status: SideParentStatus, r: bool)
    requires
        call_ensures(SideParentStatus::is_actionable, (status,), r),
    ensures
        r <==> status is NeedsInput || status is NeedsApproval,
{
}

/// A request of the parent's asks the user for input, or for approval, or needs nobody.
pub proof fn law_requests_ask_the_user(request: &ServerRequest, r: Option<SideParentStatus>)
    requires
        call_ensures(SideParentStatus::for_request, (request,), r),
    ensures
        r == Some(SideParentStatus::NeedsInput) <==> *request is ToolRequestUserInput,
        r == Some(SideParentStatus::NeedsApproval) <==> {
            ||| *request is CommandExecutionRequestApproval
            ||| *request is FileChangeRequestApproval
            ||| *request is McpServerElicitationRequest
            ||| *request is PermissionsRequestApproval
            ||| *request is ApplyPatchApproval
            ||| *request is ExecCommandApproval
        },
        r is Some ==> r->0 is NeedsInput || r->0 is NeedsApproval,
{
}

/// A turn that starts clears the status of its thread, a turn or a thread that ends sets it to how
/// that ended, progress clears what asks the user to act, and nothing else changes it.
pub proof fn law_notifications_tell_the_status(
    notification: &ServerNotification,
    r: Option<SideParentStatusChange>,
)
    requires
        call_ensures(SideParentStatusChange::for_notification, (notification,), r),
    ensures
        r == Some(SideParentStatusChange::Clear) <==> *notification is TurnStarted,
        r == Some(SideParentStatusChange::ClearActionable) <==> *notification is ItemStarted
            || *notification is ServerRequestResolved,
        r == Some(SideParentStatusChange::SetTo(SideParentStatus::Closed))
            <==> *notification is ThreadClosed,
        r == Some(SideParentStatusChange::SetTo(SideParentStatus::Finished)) <==> *notification
            == ServerNotification::TurnCompleted(TurnStatus::Completed),
        r == Some(SideParentStatusChange::SetTo(SideParentStatus::Interrupted)) <==> *notification
            == ServerNotification::TurnCompleted(TurnStatus::Interrupted),
        r == Some(SideParentStatusChange::SetTo(SideParentStatus::Failed)) <==> *notification
            == ServerNotification::TurnCompleted(TurnStatus::Failed),
        *notification is Other || *notification is ThreadStarted || *notification
            == ServerNotification::TurnCompleted(TurnStatus::InProgress) ==> r is None,
{
}

/// At the beginning there is no thread, no side conversation and no work, and nothing is shown.
pub proof fn law_new_state(settings: ChatSettings, app: App, id: ThreadId)
    requires
        call_ensures(App::new, (settings,), app),
    ensures
        app@.primary_thread_id is None,
        app@.active_thread_id is None,
        app@.displayed_thread_id is None,
        app@.pending_side_start is None,
        !app@.side_threads.contains_key(id),
        !app@.pending_side_threads.contains(id),
        !app@.canceled_side_start_parents.contains_key(id),
        !app@.side_cleanup_recovery.contains_key(id),
        !app@.abandoned_side_threads.contains(id),
        !app@.thread_event_channels.contains_key(id),
        !app@.agent_navigation.contains_key(id),
        !app@.thread_labels.contains_key(id),
        app@.toggle_side_hint is None,
        !app@.overlay_open,
        !app@.modal_or_popup_active,
        app@.composer_is_empty,
        app@.chat_settings == settings,
        app@.side_ui.context_label is None,
        !app@.side_ui.side_conversation_active,
        app@.side_ui.thread_rename_block is None,
        app@.side_ui.interrupted_turn_notice_mode is Default,
        app@.outbox.len() == 0,
{
}

/// Work that was due is handed out once, in order, and nothing else changes.
pub proof fn law_work_is_handed_out_once(
    app: &mut App,
    next: &mut App,
    r: Vec<Effect>,
    again: Vec<Effect>,
)
    requires
        call_ensures(App::take_effects, (app,), r),
        *old(next) == *final(app),
        call_ensures(App::take_effects, (next,), again),
    ensures
        r@.len() == old(app)@.outbox.len(),
        forall|i: int| 0 <= i < r@.len() ==> (#[trigger] r@[i])@ == old(app)@.outbox[i],
        again@.len() == 0,
        final(app)@ == (AppModel { outbox: Seq::empty(), ..old(app)@ }),
{
    let seen = r@.map_values(|effect: Effect| effect@);
    assert forall|i: int| 0 <= i < r@.len() implies (#[trigger] r@[i])@ == old(app)@.outbox[i] by {
        assert(seen[i] == r@[i]@);
    }
    assert(again@.map_values(|effect: Effect| effect@).len() == again@.len());
}

/// The model of the state holds each of its parts as it is.
pub proof fn law_model_is_faithful(app: &App)
    ensures
        app@.primary_thread_id == app.primary_thread_id,
        app@.active_thread_id == app.active_thread_id,
        app@.displayed_thread_id == app.displayed_thread_id,
        app@.side_threads == app.side_threads@,
        app@.pending_side_start == app.pending_side_start,
        app@.pending_side_threads == app.pending_side_threads@,
        app@.canceled_side_start_parents == app.canceled_side_start_parents@,
        app@.side_cleanup_recovery == app.side_cleanup_recovery@,
        app@.abandoned_side_threads == app.abandoned_side_threads@,
        app@.thread_event_channels.dom() == app.thread_event_channels@.dom(),
        forall|id: ThreadId| #[trigger]
            app.thread_event_channels@.contains_key(id) ==> app@.thread_event_channels[id].session
                == app.thread_event_channels@[id].session && app@.thread_event_channels[id].turns
                == app.thread_event_channels@[id].turns@,
        app@.agent_navigation == app.agent_navigation@,
        app@.thread_labels.dom() == app.thread_labels@.dom(),
        forall|id: ThreadId| #[trigger]
            app.thread_labels@.contains_key(id) ==> app@.thread_labels[id]
                == app.thread_labels@[id]@,
        app@.toggle_side_hint is Some <==> app.toggle_side_hint is Some,
        app.toggle_side_hint is Some ==> app@.toggle_side_hint->0 == app.toggle_side_hint->0@,
        app@.overlay_open == app.overlay_open,
        app@.modal_or_popup_active == app.modal_or_popup_active,
        app@.composer_is_empty == app.composer_is_empty,
        app@.chat_settings == app.chat_settings,
        app@.side_ui.side_conversation_active == app.side_ui.side_conversation_active,
        app@.side_ui.interrupted_turn_notice_mode == app.side_ui.interrupted_turn_notice_mode,
        app@.side_ui.context_label is Some <==> app.side_ui.context_label is Some,
        app.side_ui.context_label is Some ==> app@.side_ui.context_label->0
            == app.side_ui.context_label->0@,
        app@.side_ui.thread_rename_block is Some <==> app.side_ui.thread_rename_block is Some,
        app.side_ui.thread_rename_block is Some ==> app@.side_ui.thread_rename_block->0
            == app.side_ui.thread_rename_block->0@,
        app@.outbox.len() == app.outbox@.len(),
        forall|i: int| 0 <= i < app.outbox@.len() ==> app@.outbox[i] == (#[trigger] app.outbox@[i])@,
{
    assert(app@.thread_event_channels.dom() =~= app.thread_event_channels@.dom());
    assert(app@.thread_labels.dom() =~= app.thread_labels@.dom());
}

} // verus!
