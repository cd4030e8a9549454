//! What a caller sees of starting a side conversation.
//!
//! Each law here speaks of calls: `call_ensures` holds of the arguments and the result of every
//! call that returns.

use color_eyre::Report;
use vstd::prelude::*;
use crate::app::{App, AppModel, Config, EffectModel, PendingSideStart, UserMessage};
use crate::ids::{thread_id_from_string, StartRequestId, ThreadId};
use crate::prompts::{
    SIDE_ALREADY_OPEN_MESSAGE, SIDE_ALREADY_STARTING_MESSAGE, SIDE_BOUNDARY_PROMPT,
    SIDE_DEVELOPER_INSTRUCTIONS, SIDE_MAIN_THREAD_UNAVAILABLE_MESSAGE,
    SIDE_NO_STARTED_CONVERSATION_MESSAGE,
};
use crate::protocol::{ContentItem, ResponseItem, ServerNotification};
use crate::status::SideThreadState;

verus! {

/// There is something in a text besides white space.
pub open spec fn says_something(text: Seq<char>) -> bool {
    exists|i: int| 0 <= i < text.len() && !crate::text::is_white_space(#[trigger] text[i])
}

/// Two texts are the same, or neither is there.
pub open spec fn same_text(a: Option<String>, b: Option<String>) -> bool {
    match (a, b) {
        (Some(a), Some(b)) => a@ == b@,
        (None, None) => true,
        _ => false,
    }
}

/// A side conversation may start exactly where there is a main thread, none is being prepared, none
/// is open, and none is being closed with a way back. Which thread is active or shown does not
/// matter. Of several reasons against it the user is told the first: that one is starting, that the
/// main thread is not ready, that one is open.
pub proof fn law_start_is_blocked_for_cause(app: &App, why: Option<&'static str>)
    requires
        call_ensures(App::side_start_block_message, (app,), why),
    ensures
        why is None <==> {
            &&& app@.primary_thread_id is Some
            &&& app@.pending_side_start is None
            &&& forall|id: ThreadId| !#[trigger] app@.side_threads.contains_key(id)
            &&& forall|id: ThreadId| #[trigger]
                app@.side_cleanup_recovery.contains_key(id) ==> app@.side_cleanup_recovery[id]
                    is None
        },
        app@.pending_side_start is Some ==> why->0@ == SIDE_ALREADY_STARTING_MESSAGE@,
        app@.pending_side_start is None && app@.primary_thread_id is None ==> why->0@
            == SIDE_MAIN_THREAD_UNAVAILABLE_MESSAGE@,
        app@.pending_side_start is None && app@.primary_thread_id is Some && why is Some
            ==> why->0@ == SIDE_ALREADY_OPEN_MESSAGE@,
{
    let m = app@;
    if exists|id: ThreadId| m.side_threads.contains_key(id) {
        let id = choose|id: ThreadId| m.side_threads.contains_key(id);
        assert(m.is_open(id));
    }
    if exists|id: ThreadId| #[trigger]
        m.side_cleanup_recovery.contains_key(id) && m.side_cleanup_recovery[id] is Some {
        let id = choose|id: ThreadId| #[trigger]
            m.side_cleanup_recovery.contains_key(id) && m.side_cleanup_recovery[id] is Some;
        assert(m.is_open(id));
    }
}

/// A start goes ahead exactly where nothing blocks it. The side conversation that is then being
/// prepared is one of the thread it was asked for, whichever that is, with the question as it was
/// asked and nothing known of the parent yet; nothing else changes.
pub proof fn law_start_goes_ahead(
    app: &mut App,
    parent: ThreadId,
    question: Option<UserMessage>,
    why: Option<&'static str>,
    r: Option<StartRequestId>,
)
    requires
        call_ensures(App::side_start_block_message, (&*old(app),), why),
        call_ensures(App::handle_start_side, (app, parent, question), r),
    ensures
        r is Some <==> why is None,
        r matches Some(request_id) ==> final(app)@ == (AppModel {
            pending_side_start: Some(
                PendingSideStart {
                    request_id,
                    side_state: SideThreadState { parent_thread_id: parent, parent_status: None },
                    user_message: question,
                },
            ),
            ..old(app)@
        }),
{
}

/// A start that is blocked changes no thread: the question goes back to the composer, the screen is
/// brought up to date, and the user is told what blocks it.
pub proof fn law_blocked_start_is_explained(
    app: &mut App,
    screen: &mut App,
    parent: ThreadId,
    question: Option<UserMessage>,
    why: Option<&'static str>,
)
    requires
        call_ensures(App::side_start_block_message, (&*old(app),), why),
        why is Some,
        old(screen)@ == old(app)@,
        call_ensures(App::sync_side_thread_ui, (screen,), ()),
        call_ensures(App::handle_start_side, (app, parent, question), None),
    ensures
        final(app)@ == (AppModel {
            outbox: match question {
                Some(question) => old(app)@.outbox.push(
                    EffectModel::RestoreToComposer(question),
                ).push(EffectModel::ShowError(why->0@)),
                None => old(app)@.outbox.push(EffectModel::ShowError(why->0@)),
            },
            ..final(screen)@
        }),
{
    assert(old(app)@.restored(question).wanted_ui() == old(app)@.wanted_ui());
}

/// A start under a given request is the same start: it goes ahead, or is refused, alike.
pub proof fn law_starts_agree(
    app: &mut App,
    other: &mut App,
    parent: ThreadId,
    question: Option<UserMessage>,
    drawn: Option<StartRequestId>,
    request_id: StartRequestId,
    begun: bool,
)
    requires
        old(app)@ == old(other)@,
        call_ensures(App::handle_start_side, (app, parent, question), drawn),
        call_ensures(App::start_side, (other, request_id, parent, question), begun),
    ensures
        begun == drawn is Some,
        !begun ==> final(other)@ == final(app)@,
        drawn == Some(request_id) ==> final(other)@ == final(app)@,
        begun ==> final(other)@.pending_side_start->0.request_id == request_id,
        begun ==> final(other)@ == (AppModel {
            pending_side_start: Some(
                PendingSideStart { request_id, ..final(app)@.pending_side_start->0 },
            ),
            ..final(app)@
        }),
{
}

/// A start that went ahead blocks every other until its preparation has answered or it was given
/// up.
pub proof fn law_one_preparation_at_a_time(
    app: &mut App,
    parent: ThreadId,
    question: Option<UserMessage>,
    r: Option<StartRequestId>,
    why: Option<&'static str>,
)
    requires
        call_ensures(App::handle_start_side, (app, parent, question), r),
        r is Some,
        call_ensures(App::side_start_block_message, (&*final(app),), why),
    ensures
        why is Some,
        why->0@ == SIDE_ALREADY_STARTING_MESSAGE@,
{
}

/// A message that goes back to the composer is the last work due, and nothing else changes.
pub proof fn law_message_back_to_composer(app: &mut App, message: Option<UserMessage>)
    requires
        call_ensures(App::restore_side_user_message, (app, message), ()),
    ensures
        final(app)@ == (AppModel {
            outbox: match message {
                Some(message) => old(app)@.outbox.push(EffectModel::RestoreToComposer(message)),
                None => old(app)@.outbox,
            },
            ..old(app)@
        }),
{
}

/// A message goes back to where it was typed: to the composer exactly where that thread is shown,
/// and else to what is kept of the thread exactly where something is. Nothing else changes.
pub proof fn law_message_back_to_its_thread(
    app: &mut App,
    thread_id: ThreadId,
    message: Option<UserMessage>,
)
    requires
        call_ensures(App::restore_side_user_message_for_thread, (app, thread_id, message), ()),
    ensures
        final(app)@ == (AppModel { outbox: final(app)@.outbox, ..old(app)@ }),
        message is None ==> final(app)@.outbox == old(app)@.outbox,
        message is Some && old(app)@.displayed_thread_id == Some(thread_id) ==> final(app)@.outbox
            == old(app)@.outbox.push(EffectModel::RestoreToComposer(message->0)),
        message is Some && old(app)@.displayed_thread_id != Some(thread_id)
            && old(app)@.thread_event_channels.contains_key(thread_id) ==> final(app)@.outbox
            == old(app)@.outbox.push(EffectModel::RestoreToThread(thread_id, message->0)),
        old(app)@.displayed_thread_id != Some(thread_id)
            && !old(app)@.thread_event_channels.contains_key(thread_id) ==> final(app)@.outbox
            == old(app)@.outbox,
{
}

/// A start that is given up hands its question back and leaves no preparation, but its request is
/// remembered along with its parent until it answers. Where none was under way nothing changes.
pub proof fn law_start_given_up(app: &mut App, r: Option<UserMessage>)
    requires
        call_ensures(App::cancel_pending_side_start_for_session_reset, (app,), r),
    ensures
        final(app)@.pending_side_start is None,
        old(app)@.pending_side_start is None ==> r is None && final(app)@ == old(app)@,
        old(app)@.pending_side_start matches Some(pending) ==> {
            &&& r == pending.user_message
            &&& final(app)@ == (AppModel {
                pending_side_start: None,
                canceled_side_start_parents: old(app)@.canceled_side_start_parents.insert(
                    pending.request_id,
                    pending.side_state.parent_thread_id,
                ),
                ..old(app)@
            })
        },
{
}

/// A forked thread is taken for the work of a preparation exactly where a start of its parent is
/// under way, or one was given up and has not answered. Exactly then it is remembered, and nothing
/// else changes.
pub proof fn law_fork_of_a_start(
    app: &mut App,
    thread_id: ThreadId,
    parent: Option<ThreadId>,
    r: bool,
)
    requires
        call_ensures(App::note_forked_thread, (app, thread_id, parent), r),
    ensures
        r <==> parent is Some && {
            ||| old(app)@.pending_side_start matches Some(pending)
                && pending.side_state.parent_thread_id == parent->0
            ||| exists|request: StartRequestId| #[trigger]
                old(app)@.canceled_side_start_parents.contains_key(request)
                    && old(app)@.canceled_side_start_parents[request] == parent->0
        },
        final(app)@ == (AppModel {
            pending_side_threads: if r {
                old(app)@.pending_side_threads.insert(thread_id)
            } else {
                old(app)@.pending_side_threads
            },
            ..old(app)@
        }),
{
}

/// The server announces a fork by an ephemeral thread that names the thread it was forked from.
/// Such a notification counts as that fork; any other that starts a thread counts for nothing.
pub proof fn law_announced_fork(
    app: &mut App,
    other: &mut App,
    thread_id: ThreadId,
    notification: &ServerNotification,
    origin: &str,
    parent: Option<ThreadId>,
    noted: bool,
    r: bool,
)
    requires
        call_ensures(App::note_pending_side_thread_started, (app, thread_id, notification), r),
        notification is ThreadStarted,
        old(other)@ == old(app)@,
        call_ensures(thread_id_from_string, (origin,), parent),
        call_ensures(App::note_forked_thread, (other, thread_id, parent), noted),
    ensures
        ({
            let thread = notification->ThreadStarted_0;
            &&& thread.ephemeral && thread.forked_from_id is Some && thread.forked_from_id->0@
                == origin@ ==> r == noted && final(app)@ == final(other)@
            &&& !thread.ephemeral || thread.forked_from_id is None ==> !r && final(app)@ == old(app)@
        }),
{
}

/// Any other notification only asks whether the thread was announced as a fork before.
pub proof fn law_other_notifications_ask(
    app: &mut App,
    thread_id: ThreadId,
    notification: &ServerNotification,
    r: bool,
)
    requires
        call_ensures(App::note_pending_side_thread_started, (app, thread_id, notification), r),
        !(notification is ThreadStarted),
    ensures
        r == old(app)@.pending_side_threads.contains(thread_id),
        final(app)@ == old(app)@,
{
}

/// The fork of a start is recognised from its announcement on.
pub proof fn law_announced_fork_is_known(
    app: &mut App,
    next: &mut App,
    thread_id: ThreadId,
    parent: Option<ThreadId>,
    noted: bool,
    notification: &ServerNotification,
    r: bool,
)
    requires
        call_ensures(App::note_forked_thread, (app, thread_id, parent), noted),
        noted,
        *old(next) == *final(app),
        !(notification is ThreadStarted),
        call_ensures(App::note_pending_side_thread_started, (next, thread_id, notification), r),
    ensures
        r,
{
}

/// What a fork is told: what the parent was told, where that says anything, unchanged and first,
/// and then, one line apart, that it is a side conversation.
pub proof fn law_fork_instructions(existing: Option<&str>, told: String)
    requires
        call_ensures(App::side_developer_instructions, (existing,), told),
    ensures
        existing matches Some(text) ==> says_something(text@) ==> told@ == text@ + "\n\n"@
            + SIDE_DEVELOPER_INSTRUCTIONS@,
        existing is None || !says_something(existing->0@) ==> told@ == SIDE_DEVELOPER_INSTRUCTIONS@,
{
    if let Some(text) = existing {
        assert(crate::text::blank(text@) <==> !says_something(text@));
    }
}

/// A fork runs as the chat does at present: under its model where the chat names one, and else under
/// the configured one, with its effort and its tier. It is never kept, it is told to be a side
/// conversation, and the rest of the configuration stands.
pub proof fn law_fork_runs_as_the_chat(
    app: &App,
    existing: Option<&str>,
    told: String,
    r: Config,
)
    requires
        call_ensures(App::side_fork_config, (app,), r),
        call_ensures(App::side_developer_instructions, (existing,), told),
        match (existing, app@.chat_settings.config.developer_instructions) {
            (Some(text), Some(configured)) => text@ == configured@,
            (None, None) => true,
            _ => false,
        },
    ensures
        says_something(app@.chat_settings.current_model@) ==> r.model is Some && r.model->0@
            == app@.chat_settings.current_model@,
        !says_something(app@.chat_settings.current_model@) ==> same_text(
            r.model,
            app@.chat_settings.config.model,
        ),
        same_text(r.model_reasoning_effort, app@.chat_settings.current_reasoning_effort),
        same_text(r.service_tier, app@.chat_settings.configured_service_tier),
        r.ephemeral,
        r.developer_instructions is Some,
        r.developer_instructions->0@ == told@,
        r.details@ == app@.chat_settings.config.details@,
{
    let settings = app@.chat_settings;
    let config = crate::start::fork_config(settings);
    assert(r@.model == config.model);
    assert(r@.model_reasoning_effort == config.model_reasoning_effort);
    assert(r@.service_tier == config.service_tier);
    assert(r@.developer_instructions == config.developer_instructions);
    assert(crate::text::blank(settings.current_model@) <==> !says_something(
        settings.current_model@,
    ));
}

/// The boundary is a user message that holds the boundary prompt and nothing else.
pub proof fn law_boundary_item(item: ResponseItem)
    requires
        call_ensures(App::side_boundary_prompt_item, (), item),
    ensures
        ({
            let ResponseItem::Message {
                id,
                role,
                content,
                phase,
                internal_chat_message_metadata_passthrough,
            } = item;
            &&& role@ == "user"@
            &&& content@.len() == 1
            &&& (content@[0]->InputText_text)@ == SIDE_BOUNDARY_PROMPT@
            &&& id is None
            &&& phase is None
            &&& internal_chat_message_metadata_passthrough is None
        }),
{
}

/// The server says that nothing was said in the conversation yet, in one of its two ways.
pub open spec fn tells_nothing_was_said(text: Seq<char>) -> bool {
    ||| crate::text::occurs(text, "no rollout found for thread id"@)
    ||| crate::text::occurs(text, "includeTurns is unavailable before first user message"@)
}

/// A start that failed is explained by the first prompt missing exactly where one of the errors
/// behind it says so, wherever it stands among them. Otherwise the user is told the error in full.
pub proof fn law_failed_start_is_explained(chain: &Vec<String>, text: &str, r: String)
    requires
        call_ensures(App::start_error_from_texts, (chain, text), r),
    ensures
        (exists|i: int| 0 <= i < chain@.len() && tells_nothing_was_said(#[trigger] chain@[i]@))
            ==> r@ == SIDE_NO_STARTED_CONVERSATION_MESSAGE@,
        (forall|i: int| 0 <= i < chain@.len() ==> !tells_nothing_was_said(#[trigger] chain@[i]@))
            ==> r@ == "Failed to start side conversation: "@ + text@,
{
    let texts = crate::text::texts(chain@);
    assert forall|i: int| 0 <= i < chain@.len() implies #[trigger] texts[i] == chain@[i]@ by {}
    if exists|i: int| 0 <= i < chain@.len() && tells_nothing_was_said(#[trigger] chain@[i]@) {
        let i = choose|i: int|
            0 <= i < chain@.len() && tells_nothing_was_said(#[trigger] chain@[i]@);
        assert(crate::start::says_not_started(texts[i]));
    }
}

/// A report is explained by the texts of its errors: of all of them, down to the last cause.
pub proof fn law_report_is_explained(err: &Report, r: String)
    requires
        call_ensures(App::side_start_error_message, (err,), r),
    ensures
        ({
            let chain = crate::report::report_chain(*err);
            &&& (exists|i: int|
                0 <= i < chain.len() && #[trigger] chain[i] is Some && tells_nothing_was_said(
                    chain[i]->0,
                )) ==> r@ == SIDE_NO_STARTED_CONVERSATION_MESSAGE@
            &&& (forall|i: int|
                0 <= i < chain.len() && #[trigger] chain[i] is Some ==> !tells_nothing_was_said(
                    chain[i]->0,
                )) ==> r@ == "Failed to start side conversation: "@ + (
            match crate::report::report_text(*err) {
                Some(text) => text,
                None => Seq::empty(),
            })
        }),
{
    let chain = crate::report::report_chain(*err);
    let shown = crate::report::shown_chain(*err);
    reveal_strlit("no rollout found for thread id");
    reveal_strlit("includeTurns is unavailable before first user message");
    assert(!crate::start::says_not_started(Seq::empty()));
    assert forall|i: int| 0 <= i < chain.len() implies #[trigger] shown[i]
        == crate::report::shown(chain[i]) by {}
    if exists|i: int|
        0 <= i < chain.len() && #[trigger] chain[i] is Some && tells_nothing_was_said(
            chain[i]->0,
        ) {
        let i = choose|i: int|
            0 <= i < chain.len() && #[trigger] chain[i] is Some && tells_nothing_was_said(
                chain[i]->0,
            );
        assert(crate::start::says_not_started(shown[i]));
    }
}

} // verus!
