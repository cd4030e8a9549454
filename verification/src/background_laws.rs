//! What a caller sees of the two conversations with the server that run in the background: the one
//! that prepares a side thread, and the one that closes it.
//!
//! Each law here speaks of calls: `call_ensures` holds of the arguments and the result of every
//! call that returns.

use std::path::PathBuf;
use color_eyre::Report;
use vstd::prelude::*;
use crate::app::{Config, ThreadSessionState};
use crate::cleanup::{
    CleanupRequestIds, CleanupStep, InterruptFailure, SideCleanup, SideUnsubscribe, TurnInterrupt,
};
use crate::ids::ThreadId;
use crate::prepared::SideThreadPrepareError;
use crate::prompts::SIDE_BOUNDARY_PROMPT;
use crate::protocol::ResponseItem;
use crate::server::{
    prepare_side_thread, ForkRequest, InjectRequest, SideEncode, SideFork, SideInject,
    ThreadParamsMode,
};

verus! {

/// A preparation first hands the boundary out to be encoded, and once it is, asks for the fork of
/// that parent, under that configuration and in the way that the server was asked to work.
pub proof fn law_preparation_asks_for_the_fork(
    config: Config,
    parent: ThreadId,
    mode: ThreadParamsMode,
    cwd: Option<PathBuf>,
    begun: (SideEncode, ResponseItem),
    item: String,
    r: Result<(SideFork, ForkRequest), SideThreadPrepareError>,
)
    requires
        call_ensures(prepare_side_thread, (config, parent, mode, cwd), begun),
        call_ensures(SideEncode::encoded, (begun.0, Ok(item)), r),
    ensures
        ({
            let ResponseItem::Message { id, role, content, phase, .. } = begun.1;
            &&& role@ == "user"@
            &&& content@.len() == 1
            &&& (content@[0]->InputText_text)@ == SIDE_BOUNDARY_PROMPT@
            &&& id is None
            &&& phase is None
        }),
        r is Ok,
        r->Ok_0.1.config == config,
        r->Ok_0.1.parent_thread_id == parent,
        r->Ok_0.1.thread_params_mode == mode,
        r->Ok_0.1.remote_cwd_override == cwd,
{
}

/// A boundary that could not be encoded ends the preparation before anything is forked, and the
/// reason is told.
pub proof fn law_unencoded_boundary_forks_nothing(
    begun: SideEncode,
    why: String,
    r: Result<(SideFork, ForkRequest), SideThreadPrepareError>,
)
    requires
        call_ensures(SideEncode::encoded, (begun, Err(why)), r),
    ensures
        r is Err,
        r->Err_0.session is None,
        crate::report::report_chain(r->Err_0.error) == seq![
            Some("failed to encode thread/inject_items payload: "@ + why@),
        ],
{
}

/// What was encoded, and nothing else, is injected into the fork, and into no other thread. Only
/// once that went well is the fork handed out, and it is handed out as it was made.
pub proof fn law_fork_is_ready_after_its_boundary(
    begun: SideEncode,
    item: String,
    encoded: Result<(SideFork, ForkRequest), SideThreadPrepareError>,
    session: ThreadSessionState,
    forked: Result<(SideInject, InjectRequest), SideThreadPrepareError>,
    outcome: Result<(), String>,
    r: Result<ThreadSessionState, SideThreadPrepareError>,
)
    requires
        call_ensures(SideEncode::encoded, (begun, Ok(item)), encoded),
        call_ensures(SideFork::forked, (encoded->Ok_0.0, Ok(session)), forked),
        call_ensures(SideInject::injected, (forked->Ok_0.0, outcome), r),
    ensures
        encoded is Ok,
        forked is Ok,
        forked->Ok_0.1.thread_id@ == crate::ids::id_text(session.thread_id),
        forked->Ok_0.1.items@.len() == 1,
        forked->Ok_0.1.items@[0]@ == item@,
        "side-thread-inject-items-"@.is_prefix_of(forked->Ok_0.1.request_id@),
        outcome is Ok ==> r == Ok::<ThreadSessionState, SideThreadPrepareError>(session),
        outcome matches Err(why) ==> {
            &&& r is Err
            &&& r->Err_0.session == Some(session)
            &&& crate::report::report_chain(r->Err_0.error) == seq![
                Some("thread/inject_items failed during TUI side conversation setup: "@ + why@),
            ]
        },
{
    let request = forked->Ok_0.1;
    let nonce = choose|nonce: u128|
        crate::ids::is_random_id(nonce) && #[trigger] request.injects(
            nonce,
            session.thread_id,
            encoded->Ok_0.0.boundary(),
        );
    let texts = crate::text::texts(request.items@);
    assert(texts.len() == request.items@.len());
    assert(texts[0] == request.items@[0]@);
    let name = "side-thread-inject-items-"@;
    assert(request.request_id@.subrange(0, name.len() as int) =~= name);
}

/// Under a given number the request for the injection is named by that number, and is otherwise the
/// same.
pub proof fn law_injection_is_named(
    fork: SideFork,
    session: ThreadSessionState,
    nonce: u128,
    drawn: Result<(SideInject, InjectRequest), SideThreadPrepareError>,
    given: Result<(SideInject, InjectRequest), SideThreadPrepareError>,
)
    requires
        call_ensures(SideFork::forked, (fork, Ok(session)), drawn),
        call_ensures(SideFork::forked_under, (fork, nonce, Ok(session)), given),
    ensures
        drawn is Ok,
        given is Ok,
        given->Ok_0.1.request_id@ == "side-thread-inject-items-"@ + crate::ids::id_text(nonce),
        given->Ok_0.1.thread_id@ == drawn->Ok_0.1.thread_id@,
        given->Ok_0.1.items@.len() == drawn->Ok_0.1.items@.len(),
        given->Ok_0.1.items@[0]@ == drawn->Ok_0.1.items@[0]@,
{
    let a = crate::text::texts(drawn->Ok_0.1.items@);
    let b = crate::text::texts(given->Ok_0.1.items@);
    assert(a.len() == drawn->Ok_0.1.items@.len());
    assert(b.len() == given->Ok_0.1.items@.len());
    assert(a[0] == drawn->Ok_0.1.items@[0]@);
    assert(b[0] == given->Ok_0.1.items@[0]@);
}

/// A fork that failed ends the preparation with nothing to take back, and the reason is handed on as
/// it is.
pub proof fn law_failed_fork_is_handed_on(
    fork: SideFork,
    why: Report,
    nonce: u128,
    drawn: Result<(SideInject, InjectRequest), SideThreadPrepareError>,
    given: Result<(SideInject, InjectRequest), SideThreadPrepareError>,
)
    requires
        call_ensures(SideFork::forked, (fork, Err(why)), drawn),
        call_ensures(SideFork::forked_under, (fork, nonce, Err(why)), given),
    ensures
        drawn is Err,
        drawn->Err_0.session is None,
        drawn->Err_0.error == why,
        given is Err,
        given->Err_0.session is None,
        given->Err_0.error == why,
{
}

/// Closing a thread begins with an interrupt of the turn that is known to run, or of the turn with
/// the empty name.
pub proof fn law_closing_begins_with_an_interrupt(
    id: ThreadId,
    turn: Option<String>,
    ids: CleanupRequestIds,
    r: (SideCleanup, TurnInterrupt),
)
    requires
        call_ensures(SideCleanup::begin, (id, turn, ids), r),
    ensures
        r.1.request_id == ids.interrupt,
        r.1.thread_id@ == crate::ids::id_text(id),
        turn is Some ==> r.1.turn_id@ == turn->0@,
        turn is None ==> r.1.turn_id@.len() == 0,
        r.0.thread_id == id,
        r.0.request_ids == ids,
        !r.0.retried,
{
}

/// The first interrupt is sent again exactly where the server names another turn as the one that is
/// running: to the same thread, for that turn, under the number for it.
pub proof fn law_interrupt_follows_the_turn(
    cleanup: SideCleanup,
    answer: Result<(), InterruptFailure>,
    r: CleanupStep,
)
    requires
        call_ensures(SideCleanup::answered, (cleanup, answer), r),
    ensures
        r is Interrupt <==> !cleanup.retried && answer is Err && answer->Err_0.actual_turn_id
            is Some,
        r matches CleanupStep::Interrupt(next, request) ==> {
            &&& request.request_id == cleanup.request_ids.retry
            &&& request.thread_id@ == crate::ids::id_text(cleanup.thread_id)
            &&& request.turn_id@ == answer->Err_0.actual_turn_id->0@
            &&& next.thread_id == cleanup.thread_id
            &&& next.request_ids == cleanup.request_ids
            &&& next.retried
        },
{
}

/// Otherwise the thread is unsubscribed from, whether or not the interrupt went well; why it failed
/// is kept.
pub proof fn law_interrupted_thread_is_unsubscribed(
    cleanup: SideCleanup,
    answer: Result<(), InterruptFailure>,
    r: CleanupStep,
)
    requires
        call_ensures(SideCleanup::answered, (cleanup, answer), r),
        r is Unsubscribe,
    ensures
        r->Unsubscribe_1.request_id == cleanup.request_ids.unsubscribe,
        r->Unsubscribe_1.thread_id@ == crate::ids::id_text(cleanup.thread_id),
        r->Unsubscribe_0.interrupt_error is Some <==> answer is Err,
        answer matches Err(failure) ==> r->Unsubscribe_0.interrupt_error->0@ == failure.message@,
{
}

/// Closing a thread takes one interrupt or two, and then the unsubscription.
pub proof fn law_second_interrupt_is_the_last(
    cleanup: SideCleanup,
    answer: Result<(), InterruptFailure>,
    step: CleanupStep,
    again: Result<(), InterruptFailure>,
    r: CleanupStep,
)
    requires
        call_ensures(SideCleanup::answered, (cleanup, answer), step),
        step is Interrupt,
        call_ensures(SideCleanup::answered, (step->Interrupt_0, again), r),
    ensures
        r is Unsubscribe,
        r->Unsubscribe_1.thread_id@ == crate::ids::id_text(cleanup.thread_id),
{
}

/// A thread that was unsubscribed from is closed, whatever became of its interrupt. One that could
/// not be is not, and the reason tells each step that failed.
pub proof fn law_closing_succeeds_where_unsubscribed(
    last: SideUnsubscribe,
    answer: Result<(), String>,
    r: Result<(), String>,
)
    requires
        call_ensures(SideUnsubscribe::answered, (last, answer), r),
    ensures
        r is Ok <==> answer is Ok,
        answer is Err && last.interrupt_error is None ==> r->Err_0@
            == "thread/unsubscribe failed: "@ + answer->Err_0@,
        answer is Err && last.interrupt_error is Some ==> r->Err_0@ == "turn/interrupt failed: "@
            + last.interrupt_error->0@ + "; thread/unsubscribe failed: "@ + answer->Err_0@,
{
}

} // verus!
