use std::path::PathBuf;

use color_eyre::eyre::Report;
use side_conversation::app::{Config, ThreadSessionState};
use side_conversation::cleanup::{
    CleanupRequestIds, CleanupStep, InterruptFailure, SideCleanup, SideUnsubscribe, TurnInterrupt,
};
use side_conversation::prompts::SIDE_BOUNDARY_PROMPT;
use side_conversation::protocol::{ContentItem, ResponseItem};
use side_conversation::server::{
    prepare_side_thread, InjectRequest, SideEncode, SideFork, SideInject, ThreadParamsMode,
};

const SIDE: u128 = 0x67e55044_10b1_426f_9247_bb680e5fe0c8;
const SIDE_TEXT: &str = "67e55044-10b1-426f-9247-bb680e5fe0c8";
const IDS: CleanupRequestIds = CleanupRequestIds { interrupt: 1, retry: 2, unsubscribe: 3 };

fn config() -> Config {
    Config {
        model: None,
        model_reasoning_effort: None,
        service_tier: None,
        ephemeral: true,
        developer_instructions: None,
        details: "rest".to_string(),
    }
}

fn session() -> ThreadSessionState {
    ThreadSessionState { thread_id: SIDE, forked_from_id: Some(1), details: String::new() }
}

fn preparation() -> (SideEncode, ResponseItem) {
    prepare_side_thread(config(), 1, ThreadParamsMode::Embedded, None)
}

fn fork() -> SideFork {
    preparation().0.encoded(Ok("item".to_string())).unwrap().0
}

fn show(request: &TurnInterrupt) -> String {
    format!("interrupt {} {} <{}>", request.request_id, request.thread_id, request.turn_id)
}

fn interrupting(step: CleanupStep) -> (SideCleanup, String) {
    match step {
        CleanupStep::Interrupt(next, request) => (next, show(&request)),
        CleanupStep::Unsubscribe(..) => panic!("expected an interrupt"),
    }
}

fn unsubscribing(step: CleanupStep) -> (SideUnsubscribe, String) {
    match step {
        CleanupStep::Interrupt(..) => panic!("expected to unsubscribe"),
        CleanupStep::Unsubscribe(next, request) => {
            (next, format!("unsubscribe {} {}", request.request_id, request.thread_id))
        }
    }
}

fn failure(message: &str, turn: Option<&str>) -> Result<(), InterruptFailure> {
    Err(InterruptFailure {
        message: message.to_string(),
        actual_turn_id: turn.map(|turn| turn.to_string()),
    })
}

#[test]
fn cleanup_interrupts_and_unsubscribes() {
    let (cleanup, request) = SideCleanup::begin(SIDE, Some("turn".to_string()), IDS);
    assert_eq!(show(&request), format!("interrupt 1 {} <turn>", SIDE_TEXT));
    let (last, request) = unsubscribing(cleanup.answered(Ok(())));
    assert_eq!(request, format!("unsubscribe 3 {}", SIDE_TEXT));
    assert_eq!(last.answered(Ok(())), Ok(()));
}

#[test]
fn cleanup_without_a_turn_names_none() {
    let (_, request) = SideCleanup::begin(SIDE, None, IDS);
    assert_eq!(show(&request), format!("interrupt 1 {} <>", SIDE_TEXT));
}

#[test]
fn cleanup_retries_a_turn_that_changed_once() {
    let (cleanup, _) = SideCleanup::begin(SIDE, Some("old".to_string()), IDS);
    let (cleanup, request) = interrupting(cleanup.answered(failure("raced", Some("new"))));
    assert_eq!(request, format!("interrupt 2 {} <new>", SIDE_TEXT));
    let (last, request) = unsubscribing(cleanup.answered(failure("again", Some("newer"))));
    assert_eq!(request, format!("unsubscribe 3 {}", SIDE_TEXT));
    assert_eq!(
        last.answered(Err("gone".to_string())),
        Err("turn/interrupt failed: again; thread/unsubscribe failed: gone".to_string())
    );
}

#[test]
fn cleanup_that_unsubscribed_went_well_whatever_the_interrupt_said() {
    let (cleanup, _) = SideCleanup::begin(SIDE, None, IDS);
    let (last, _) = unsubscribing(cleanup.answered(failure("refused", None)));
    assert_eq!(last.answered(Ok(())), Ok(()));
}

#[test]
fn cleanup_tells_of_an_unsubscribe_that_failed() {
    let last = SideUnsubscribe { interrupt_error: None };
    assert_eq!(
        last.answered(Err("gone".to_string())),
        Err("thread/unsubscribe failed: gone".to_string())
    );
}

#[test]
fn preparation_hands_out_the_boundary_to_encode() {
    let ResponseItem::Message { id, role, content, .. } = preparation().1;
    assert!(id.is_none());
    assert_eq!(role, "user");
    assert_eq!(content.len(), 1);
    let ContentItem::InputText { text } = &content[0];
    assert_eq!(text, SIDE_BOUNDARY_PROMPT);
}

#[test]
fn preparation_fails_where_the_boundary_cannot_be_encoded() {
    let error = preparation().0.encoded(Err("bad".to_string())).unwrap_err();
    assert!(error.session.is_none());
    assert_eq!(error.error.to_string(), "failed to encode thread/inject_items payload: bad");
    assert_eq!(error.error.chain().count(), 1);
}

#[test]
fn preparation_hands_the_fork_its_configuration() {
    let (_, request) = preparation().0.encoded(Ok("item".to_string())).unwrap();
    assert_eq!(request.parent_thread_id, 1);
    assert_eq!(request.config.details, "rest");
    assert!(request.config.ephemeral);
    assert_eq!(request.thread_params_mode, ThreadParamsMode::Embedded);
    assert_eq!(request.remote_cwd_override, None);
}

#[test]
fn preparation_hands_the_fork_where_a_remote_server_works() {
    let there = PathBuf::from("/srv/project");
    let (encode, _) =
        prepare_side_thread(config(), 2, ThreadParamsMode::Remote, Some(there.clone()));
    let (_, request) = encode.encoded(Ok("item".to_string())).unwrap();
    assert_eq!(request.parent_thread_id, 2);
    assert_eq!(request.thread_params_mode, ThreadParamsMode::Remote);
    assert_eq!(request.remote_cwd_override, Some(there));
}

#[test]
fn preparation_hands_on_why_the_fork_failed() {
    let error = fork().forked(Err(Report::msg("no rollout"))).unwrap_err();
    assert!(error.session.is_none());
    assert_eq!(error.error.to_string(), "no rollout");
}

#[test]
fn preparation_injects_the_boundary_into_the_fork() {
    let (next, request): (SideInject, InjectRequest) =
        fork().forked_under(SIDE, Ok(session())).unwrap();
    assert_eq!(request.request_id, format!("side-thread-inject-items-{}", SIDE_TEXT));
    assert_eq!(request.thread_id, SIDE_TEXT);
    assert_eq!(request.items, vec!["item".to_string()]);
    assert_eq!(next.injected(Ok(())).unwrap().thread_id, SIDE);
}

#[test]
fn preparation_names_each_injection_anew() {
    let (_, first) = fork().forked(Ok(session())).unwrap();
    let (_, second) = fork().forked(Ok(session())).unwrap();
    assert_ne!(first.request_id, second.request_id);
    assert!(first.request_id.starts_with("side-thread-inject-items-"));
    assert_eq!(first.request_id.len(), "side-thread-inject-items-".len() + 36);
}

#[test]
fn preparation_hands_the_fork_back_where_the_injection_failed() {
    let (next, _) = fork().forked(Ok(session())).unwrap();
    let error = next.injected(Err("closed".to_string())).unwrap_err();
    assert_eq!(error.session.unwrap().thread_id, SIDE);
    assert_eq!(
        error.error.to_string(),
        "thread/inject_items failed during TUI side conversation setup: closed"
    );
}
