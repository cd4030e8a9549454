use std::error::Error;
use std::fmt;

use color_eyre::eyre::Report;
use side_conversation::app::{
    App, ChatSettings, Config, Effect, InterruptedTurnNoticeMode, PendingSideStart,
    ThreadEventStore, ThreadSessionState, Turn, UserMessage,
};
use side_conversation::discard::InterruptRequest;
use side_conversation::ids::thread_id_from_string;
use side_conversation::prepared::{SideSwitch, SideThreadPrepareError};
use side_conversation::prompts::{
    SIDE_ALREADY_OPEN_MESSAGE, SIDE_ALREADY_STARTING_MESSAGE, SIDE_MAIN_THREAD_UNAVAILABLE_MESSAGE,
    SIDE_RENAME_BLOCK_MESSAGE,
};
use side_conversation::protocol::{ServerNotification, ServerRequest, StartedThread, TurnStatus};
use side_conversation::status::{SideParentStatus, SideParentStatusChange, SideThreadState};

const MAIN: u128 = 0x019da1a1_bed9_7a43_88a2_b49d43915021;
const MAIN_TEXT: &str = "019da1a1-bed9-7a43-88a2-b49d43915021";
const SIDE: u128 = 0x67e55044_10b1_426f_9247_bb680e5fe0c8;
const SIDE_TEXT: &str = "67e55044-10b1-426f-9247-bb680e5fe0c8";
const OTHER: u128 = 0xb;

fn settings() -> ChatSettings {
    ChatSettings {
        config: Config {
            model: None,
            model_reasoning_effort: None,
            service_tier: None,
            ephemeral: false,
            developer_instructions: None,
            details: String::new(),
        },
        current_model: String::new(),
        current_reasoning_effort: None,
        configured_service_tier: None,
    }
}

/// An error that cannot be displayed.
#[derive(Debug)]
struct Mute;

impl fmt::Display for Mute {
    fn fmt(&self, _f: &mut fmt::Formatter<'_>) -> fmt::Result {
        Err(fmt::Error)
    }
}

impl Error for Mute {}

fn question(text: &str) -> UserMessage {
    UserMessage { text: text.to_string(), attachments: Vec::new() }
}

fn session(thread_id: u128) -> ThreadSessionState {
    ThreadSessionState { thread_id, forked_from_id: Some(MAIN), details: "d".to_string() }
}

fn in_main() -> App {
    let mut app = App::new(settings());
    app.primary_thread_id = Some(MAIN);
    app.active_thread_id = Some(MAIN);
    app.displayed_thread_id = Some(MAIN);
    app.thread_event_channels.insert(MAIN, ThreadEventStore::new());
    app
}

fn in_side() -> App {
    let mut app = in_main();
    assert!(app.start_side(7, MAIN, None));
    let switch = app.handle_side_thread_prepared(7, Ok(session(SIDE)));
    let switch = switch.unwrap();
    app.active_thread_id = Some(SIDE);
    app.displayed_thread_id = Some(SIDE);
    assert!(app.finish_side_switch(switch, Ok(())).is_none());
    app.take_effects();
    app
}

fn show(effects: &Vec<Effect>) -> Vec<String> {
    effects
        .iter()
        .map(|effect| match effect {
            Effect::ShowError(message) => format!("error {}", message),
            Effect::RestoreToComposer(message) => format!("composer {}", message.text),
            Effect::RestoreToThread(id, message) => format!("input {:x} {}", id, message.text),
            Effect::SubmitUserTurn(message) => format!("submit {}", message.text),
            Effect::AbortEventListener(id) => format!("abort {:x}", id),
            Effect::ClearActiveThread => "clear".to_string(),
            Effect::RefreshPendingApprovals => "approvals".to_string(),
            Effect::SyncActiveAgentLabel => "agent".to_string(),
            Effect::StartSideCleanup(id) => format!("cleanup {:x}", id),
            Effect::SurfacePendingRequests => "surface".to_string(),
        })
        .collect()
}

fn due(app: &mut App) -> Vec<String> {
    let effects = app.take_effects();
    show(&effects)
}

#[test]
fn labels_name_the_parent_and_its_status() {
    let table = [
        (SideParentStatus::NeedsInput, "main needs input", "parent needs input"),
        (SideParentStatus::NeedsApproval, "main needs approval", "parent needs approval"),
        (SideParentStatus::Failed, "main failed", "parent failed"),
        (SideParentStatus::Interrupted, "main interrupted", "parent interrupted"),
        (SideParentStatus::Closed, "main closed", "parent closed"),
        (SideParentStatus::Finished, "main finished", "parent finished"),
    ];
    for (status, main, parent) in table {
        assert_eq!(status.label(true), main);
        assert_eq!(status.label(false), parent);
        let acts = matches!(status, SideParentStatus::NeedsInput | SideParentStatus::NeedsApproval);
        assert_eq!(status.is_actionable(), acts);
    }
}

#[test]
fn requests_ask_the_user_to_act_or_not() {
    assert_eq!(
        SideParentStatus::for_request(&ServerRequest::ToolRequestUserInput),
        Some(SideParentStatus::NeedsInput)
    );
    for request in [
        ServerRequest::CommandExecutionRequestApproval,
        ServerRequest::FileChangeRequestApproval,
        ServerRequest::McpServerElicitationRequest,
        ServerRequest::PermissionsRequestApproval,
        ServerRequest::ApplyPatchApproval,
        ServerRequest::ExecCommandApproval,
    ] {
        assert_eq!(
            SideParentStatus::for_request(&request),
            Some(SideParentStatus::NeedsApproval)
        );
    }
    for request in [
        ServerRequest::DynamicToolCall,
        ServerRequest::AttestationGenerate,
        ServerRequest::CurrentTimeRead,
        ServerRequest::ChatgptAuthTokensRefresh,
    ] {
        assert_eq!(SideParentStatus::for_request(&request), None);
    }
}

#[test]
fn notifications_change_the_status_of_the_parent() {
    let table = [
        (ServerNotification::TurnStarted, Some(SideParentStatusChange::Clear)),
        (
            ServerNotification::TurnCompleted(TurnStatus::Completed),
            Some(SideParentStatusChange::SetTo(SideParentStatus::Finished)),
        ),
        (
            ServerNotification::TurnCompleted(TurnStatus::Interrupted),
            Some(SideParentStatusChange::SetTo(SideParentStatus::Interrupted)),
        ),
        (
            ServerNotification::TurnCompleted(TurnStatus::Failed),
            Some(SideParentStatusChange::SetTo(SideParentStatus::Failed)),
        ),
        (ServerNotification::TurnCompleted(TurnStatus::InProgress), None),
        (
            ServerNotification::ThreadClosed,
            Some(SideParentStatusChange::SetTo(SideParentStatus::Closed)),
        ),
        (ServerNotification::ItemStarted, Some(SideParentStatusChange::ClearActionable)),
        (
            ServerNotification::ServerRequestResolved,
            Some(SideParentStatusChange::ClearActionable),
        ),
        (ServerNotification::Other, None),
        (
            ServerNotification::ThreadStarted(StartedThread {
                ephemeral: true,
                forked_from_id: None,
            }),
            None,
        ),
    ];
    for (notification, change) in table {
        assert_eq!(SideParentStatusChange::for_notification(&notification), change);
    }
}

#[test]
fn thread_ids_are_read_in_every_form() {
    assert_eq!(thread_id_from_string(MAIN_TEXT), Some(MAIN));
    assert_eq!(thread_id_from_string("67e5504410b1426f9247bb680e5fe0c8"), Some(SIDE));
    assert_eq!(
        thread_id_from_string("{67E55044-10B1-426F-9247-BB680E5FE0C8}"),
        Some(SIDE)
    );
    assert_eq!(thread_id_from_string(""), None);
    assert_eq!(thread_id_from_string("main"), None);
}

#[test]
fn threads_without_a_name_go_by_their_id() {
    let mut app = in_main();
    assert_eq!(app.thread_label(MAIN), MAIN_TEXT);
    assert_eq!(app.thread_label(0), "00000000-0000-0000-0000-000000000000");
    assert_eq!(thread_id_from_string(&app.thread_label(SIDE)), Some(SIDE));
    app.thread_labels.insert(MAIN, "Robie".to_string());
    assert_eq!(app.thread_label(MAIN), "Robie");
}

#[test]
fn start_is_refused_before_the_main_thread_is_ready() {
    let mut app = App::new(settings());
    assert_eq!(app.side_start_block_message(), Some(SIDE_MAIN_THREAD_UNAVAILABLE_MESSAGE));
    assert_eq!(app.handle_start_side(MAIN, Some(question("why"))), None);
    assert_eq!(
        due(&mut app),
        vec![
            "composer why".to_string(),
            format!("error {}", SIDE_MAIN_THREAD_UNAVAILABLE_MESSAGE),
        ]
    );
    assert!(app.pending_side_start.is_none());
}

#[test]
fn start_is_refused_while_one_is_starting() {
    let mut app = in_main();
    assert_eq!(app.side_start_block_message(), None);
    let request = app.handle_start_side(MAIN, Some(question("why"))).unwrap();
    assert_eq!((request >> 76) & 0xf, 4);
    assert_eq!((request >> 62) & 0x3, 2);
    assert_eq!(app.side_start_block_message(), Some(SIDE_ALREADY_STARTING_MESSAGE));
    assert_eq!(app.handle_start_side(MAIN, None), None);
    assert_eq!(due(&mut app), vec![format!("error {}", SIDE_ALREADY_STARTING_MESSAGE)]);
    let pending = app.pending_side_start.unwrap();
    assert_eq!(pending.request_id, request);
    assert_eq!(pending.side_state, SideThreadState::new(MAIN));
    assert_eq!(pending.user_message.unwrap().text, "why");
}

#[test]
fn start_is_refused_while_one_is_open_or_closing() {
    let mut app = in_side();
    assert_eq!(app.side_start_block_message(), Some(SIDE_ALREADY_OPEN_MESSAGE));
    app.discard_side_thread_in_background(SIDE);
    assert!(app.side_threads.is_empty());
    assert_eq!(app.side_start_block_message(), Some(SIDE_ALREADY_OPEN_MESSAGE));
    app.handle_side_thread_cleanup_finished(SIDE, Ok(()));
    assert_eq!(app.side_start_block_message(), None);
}

#[test]
fn start_requests_are_told_apart() {
    let mut first = in_main();
    let mut second = in_main();
    assert_ne!(first.handle_start_side(MAIN, None), second.handle_start_side(MAIN, None));
}

#[test]
fn forks_of_a_pending_parent_are_recognised() {
    let mut app = in_main();
    assert!(app.start_side(7, MAIN, None));
    let fork = |ephemeral: bool, from: Option<&str>| {
        ServerNotification::ThreadStarted(StartedThread {
            ephemeral,
            forked_from_id: from.map(|text| text.to_string()),
        })
    };
    assert!(!app.note_pending_side_thread_started(SIDE, &fork(false, Some(MAIN_TEXT))));
    assert!(!app.note_pending_side_thread_started(SIDE, &fork(true, None)));
    assert!(!app.note_pending_side_thread_started(SIDE, &fork(true, Some("nonsense"))));
    assert!(!app.note_pending_side_thread_started(SIDE, &fork(true, Some(SIDE_TEXT))));
    assert!(!app.note_pending_side_thread_started(SIDE, &ServerNotification::ItemStarted));
    assert!(app.pending_side_threads.is_empty());
    assert!(app.note_pending_side_thread_started(SIDE, &fork(true, Some(MAIN_TEXT))));
    assert!(app.pending_side_threads.contains(&SIDE));
    assert!(app.note_pending_side_thread_started(SIDE, &ServerNotification::ItemStarted));
}

#[test]
fn canceled_start_hands_the_question_back_and_is_still_recognised() {
    let mut app = in_main();
    assert!(app.cancel_pending_side_start_for_session_reset().is_none());
    assert!(app.start_side(7, MAIN, Some(question("why"))));
    assert_eq!(app.cancel_pending_side_start_for_session_reset().unwrap().text, "why");
    assert!(app.pending_side_start.is_none());
    assert_eq!(app.canceled_side_start_parents.get(&7), Some(&MAIN));
    assert!(app.note_forked_thread(SIDE, Some(MAIN)));
    assert!(!app.note_forked_thread(OTHER, None));
    assert!(!app.note_forked_thread(OTHER, Some(OTHER)));
    assert!(app.handle_side_thread_prepared(7, Ok(session(SIDE))).is_none());
    assert!(app.canceled_side_start_parents.is_empty());
    assert!(app.side_threads.is_empty());
    assert!(app.pending_side_threads.is_empty());
    assert!(app.abandoned_side_threads.contains(&SIDE));
    assert_eq!(app.side_cleanup_recovery.get(&SIDE), Some(&None));
    assert_eq!(due(&mut app), vec!["agent".to_string(), format!("cleanup {:x}", SIDE)]);
    app.handle_side_thread_cleanup_finished(SIDE, Err("gone".to_string()));
    assert!(app.side_threads.is_empty());
    assert!(app.abandoned_side_threads.contains(&SIDE));
    assert!(!app.thread_event_channels.contains_key(&SIDE));
}

#[test]
fn late_answer_without_a_fork_changes_nothing() {
    let mut app = in_main();
    let error = SideThreadPrepareError { session: None, error: Report::msg("x") };
    assert!(app.handle_side_thread_prepared(9, Err(error)).is_none());
    assert!(due(&mut app).is_empty());
    assert!(app.side_threads.is_empty());
}

#[test]
fn late_answer_leaves_another_start_alone() {
    let mut app = in_main();
    assert!(app.start_side(7, MAIN, None));
    assert!(app.handle_side_thread_prepared(8, Ok(session(SIDE))).is_none());
    assert_eq!(app.pending_side_start.as_ref().unwrap().request_id, 7);
    assert!(app.side_threads.is_empty());
}

#[test]
fn prepared_side_opens_at_its_boundary_and_asks() {
    let mut app = in_main();
    assert!(app.start_side(7, MAIN, Some(question("why"))));
    assert!(app.note_forked_thread(SIDE, Some(MAIN)));
    let switch = app.handle_side_thread_prepared(7, Ok(session(SIDE))).unwrap();
    assert_eq!(switch.child_thread_id, SIDE);
    assert_eq!(switch.parent_thread_id, MAIN);
    assert!(app.pending_side_start.is_none());
    assert!(app.pending_side_threads.is_empty());
    assert_eq!(app.side_threads.get(&SIDE), Some(&SideThreadState::new(MAIN)));
    let store = app.thread_event_channels.get(&SIDE).unwrap();
    assert!(store.turns.is_empty());
    let kept = store.session.as_ref().unwrap();
    assert_eq!(kept.thread_id, SIDE);
    assert_eq!(kept.forked_from_id, None);
    assert_eq!(kept.details, "d");
    let entry = app.agent_navigation.get(&SIDE).unwrap();
    assert!(entry.agent_nickname.is_none() && entry.agent_role.is_none() && !entry.is_closed);
    assert!(due(&mut app).is_empty());
    app.active_thread_id = Some(SIDE);
    app.displayed_thread_id = Some(SIDE);
    assert!(app.finish_side_switch(switch, Ok(())).is_none());
    assert_eq!(due(&mut app), vec!["submit why".to_string()]);
}

#[test]
fn snapshot_drops_the_turns_of_the_fork() {
    let mut store = ThreadEventStore::new();
    store.set_session(
        session(OTHER),
        vec![Turn { id: "t".to_string(), details: String::new() }],
    );
    let turns = vec![Turn { id: "u".to_string(), details: String::new() }];
    App::install_side_thread_snapshot(&mut store, session(SIDE), turns);
    assert!(store.turns.is_empty());
    assert_eq!(store.session.as_ref().unwrap().thread_id, SIDE);
    assert_eq!(store.session.as_ref().unwrap().forked_from_id, None);
}

#[test]
fn prepared_side_is_dropped_where_the_parent_is_no_longer_shown() {
    let mut app = in_main();
    assert!(app.start_side(7, MAIN, Some(question("why"))));
    app.displayed_thread_id = Some(OTHER);
    assert!(app.handle_side_thread_prepared(7, Ok(session(SIDE))).is_none());
    assert!(app.side_threads.is_empty());
    assert_eq!(
        app.side_cleanup_recovery.get(&SIDE),
        Some(&Some(SideThreadState::new(MAIN)))
    );
    assert_eq!(
        due(&mut app),
        vec![
            "agent".to_string(),
            format!("cleanup {:x}", SIDE),
            format!("input {:x} why", MAIN),
        ]
    );
}

#[test]
fn question_is_lost_only_with_its_thread() {
    let mut app = in_main();
    assert!(app.start_side(7, MAIN, Some(question("why"))));
    app.displayed_thread_id = Some(OTHER);
    app.thread_event_channels.remove(&MAIN);
    let error = SideThreadPrepareError { session: None, error: Report::msg("x") };
    assert!(app.handle_side_thread_prepared(7, Err(error)).is_none());
    assert!(due(&mut app).is_empty());
}

#[test]
fn failed_preparation_is_told_and_taken_back() {
    let mut app = in_main();
    app.side_ui.context_label = Some("old".to_string());
    assert!(app.start_side(7, MAIN, Some(question("why"))));
    let error = SideThreadPrepareError {
        session: Some(session(SIDE)),
        error: Report::msg("transport disconnected"),
    };
    assert!(app.handle_side_thread_prepared(7, Err(error)).is_none());
    assert_eq!(
        due(&mut app),
        vec![
            "agent".to_string(),
            format!("cleanup {:x}", SIDE),
            "composer why".to_string(),
            "error Failed to start side conversation: transport disconnected".to_string(),
        ]
    );
    assert_eq!(app.side_ui.context_label, None);
    assert!(app.side_threads.is_empty());
    assert_eq!(app.side_cleanup_recovery.get(&SIDE), Some(&None));
}

#[test]
fn failed_switch_from_the_parent_is_told_at_once() {
    let mut app = in_main();
    assert!(app.start_side(7, MAIN, Some(question("why"))));
    let switch = app.handle_side_thread_prepared(7, Ok(session(SIDE))).unwrap();
    assert!(app.finish_side_switch(switch, Err(Report::msg("no channel"))).is_none());
    assert_eq!(
        due(&mut app),
        vec![
            "agent".to_string(),
            format!("cleanup {:x}", SIDE),
            "composer why".to_string(),
            format!("error Failed to switch into side conversation {}: no channel", SIDE_TEXT),
        ]
    );
}

#[test]
fn failed_switch_elsewhere_goes_back_first() {
    let mut app = in_main();
    assert!(app.start_side(7, MAIN, Some(question("why"))));
    let switch = app.handle_side_thread_prepared(7, Ok(session(SIDE))).unwrap();
    app.active_thread_id = None;
    app.displayed_thread_id = None;
    let failed = app.finish_side_switch(switch, Err(Report::msg("no channel"))).unwrap();
    assert_eq!(failed.parent_thread_id, MAIN);
    assert_eq!(due(&mut app), vec!["agent".to_string(), format!("cleanup {:x}", SIDE)]);
    app.give_up_side_switch(failed);
    assert_eq!(
        due(&mut app),
        vec![
            format!("input {:x} why", MAIN),
            format!("error Failed to switch into side conversation {}: no channel", SIDE_TEXT),
        ]
    );
}

#[test]
fn switch_that_lands_elsewhere_is_taken_back() {
    let mut app = in_main();
    assert!(app.start_side(7, MAIN, Some(question("why"))));
    let switch = app.handle_side_thread_prepared(7, Ok(session(SIDE))).unwrap();
    assert!(app.finish_side_switch(switch, Ok(())).is_none());
    assert_eq!(
        due(&mut app),
        vec![
            "agent".to_string(),
            format!("cleanup {:x}", SIDE),
            "composer why".to_string(),
        ]
    );
}

#[test]
fn switch_without_a_question_asks_nothing() {
    let mut app = in_main();
    app.active_thread_id = Some(SIDE);
    let switch =
        SideSwitch { child_thread_id: SIDE, parent_thread_id: MAIN, user_message: None };
    assert!(app.finish_side_switch(switch, Ok(())).is_none());
    assert!(due(&mut app).is_empty());
}

#[test]
fn failed_cleanup_reopens_the_side_conversation() {
    let mut app = in_side();
    app.discard_side_thread_in_background(SIDE);
    assert!(app.side_threads.is_empty());
    assert!(!app.agent_navigation.contains_key(&SIDE));
    due(&mut app);
    app.handle_side_thread_cleanup_finished(SIDE, Err("boom".to_string()));
    assert_eq!(app.side_threads.get(&SIDE), Some(&SideThreadState::new(MAIN)));
    assert!(app.abandoned_side_threads.is_empty());
    assert!(app.side_cleanup_recovery.is_empty());
    assert!(app.agent_navigation.contains_key(&SIDE));
    assert_eq!(
        due(&mut app),
        vec![
            format!(
                "error Failed to close side conversation {}; it is still open: boom",
                SIDE_TEXT
            ),
            "agent".to_string(),
        ]
    );
}

#[test]
fn failed_cleanup_lists_no_thread_of_which_nothing_is_kept() {
    let mut app = in_side();
    app.discard_side_thread_in_background(SIDE);
    app.thread_event_channels.remove(&SIDE);
    app.handle_side_thread_cleanup_finished(SIDE, Err("boom".to_string()));
    assert!(app.side_threads.contains_key(&SIDE));
    assert!(!app.agent_navigation.contains_key(&SIDE));
}

#[test]
fn cleanup_leaves_nothing_behind() {
    let mut app = in_side();
    app.discard_side_thread_in_background(SIDE);
    due(&mut app);
    app.handle_side_thread_cleanup_finished(SIDE, Ok(()));
    assert!(!app.side_threads.contains_key(&SIDE));
    assert!(!app.side_cleanup_recovery.contains_key(&SIDE));
    assert!(!app.thread_event_channels.contains_key(&SIDE));
    assert!(!app.agent_navigation.contains_key(&SIDE));
    assert!(app.abandoned_side_threads.contains(&SIDE));
    assert_eq!(app.active_thread_id, None);
    assert_eq!(
        due(&mut app),
        vec![format!("abort {:x}", SIDE), "clear".to_string(), "agent".to_string()]
    );
    app.handle_side_thread_cleanup_finished(SIDE, Err("again".to_string()));
    assert!(due(&mut app).is_empty());
}

#[test]
fn discarding_twice_is_discarding_once() {
    let mut app = in_side();
    app.discard_side_thread_in_background(SIDE);
    assert_eq!(due(&mut app), vec!["agent".to_string(), format!("cleanup {:x}", SIDE)]);
    app.discard_side_thread_in_background(SIDE);
    assert!(due(&mut app).is_empty());
    assert_eq!(
        app.side_cleanup_recovery.get(&SIDE),
        Some(&Some(SideThreadState::new(MAIN)))
    );
}

#[test]
fn closed_thread_that_is_not_active_is_forgotten() {
    let mut app = in_side();
    app.active_thread_id = Some(MAIN);
    app.discard_closed_side_thread(SIDE);
    assert!(app.side_threads.is_empty());
    assert_eq!(app.active_thread_id, Some(MAIN));
    assert!(app.thread_event_channels.contains_key(&MAIN));
    assert_eq!(
        due(&mut app),
        vec![format!("abort {:x}", SIDE), "approvals".to_string(), "agent".to_string()]
    );
}

#[test]
fn interrupt_names_the_running_turn() {
    match App::interrupt_side_thread(SIDE, Some("turn".to_string())) {
        InterruptRequest::Turn(id, turn) => assert_eq!((id, turn.as_str()), (SIDE, "turn")),
        InterruptRequest::Startup(_) => panic!("a turn was running"),
    }
    match App::interrupt_side_thread(SIDE, None) {
        InterruptRequest::Turn(..) => panic!("no turn was running"),
        InterruptRequest::Startup(id) => assert_eq!(id, SIDE),
    }
}

#[test]
fn discarding_at_once_stops_at_a_failure() {
    let mut app = in_side();
    let told = |why: &str| {
        vec![format!(
            "error Failed to close side conversation {}; it is still open: {}",
            SIDE_TEXT, why
        )]
    };
    assert!(!app.discard_side_thread(SIDE, Err(Report::msg("busy"))));
    assert_eq!(due(&mut app), told("busy"));
    assert!(app.side_threads.contains_key(&SIDE));
    assert!(app.discard_side_thread(SIDE, Ok(())));
    assert!(due(&mut app).is_empty());
    let cause = Report::msg("inner").wrap_err("outer");
    assert!(!app.discard_unsubscribed_side_thread(SIDE, Err(cause)));
    assert_eq!(due(&mut app), told("outer"));
    assert!(app.side_threads.contains_key(&SIDE));
    assert!(app.discard_unsubscribed_side_thread(SIDE, Ok(())));
    assert!(app.side_threads.is_empty());
    assert!(app.abandoned_side_threads.contains(&SIDE));
}

#[test]
fn errors_that_cannot_be_displayed_show_nothing() {
    let mut app = in_side();
    assert!(!app.discard_side_thread(SIDE, Err(Report::new(Mute))));
    let still_open =
        format!("error Failed to close side conversation {}; it is still open: ", SIDE_TEXT);
    assert_eq!(due(&mut app), vec![still_open.clone()]);
    assert!(!app.discard_unsubscribed_side_thread(SIDE, Err(Report::new(Mute))));
    assert_eq!(due(&mut app), vec![still_open]);

    let mut app = in_main();
    assert!(app.start_side(7, MAIN, None));
    let error = SideThreadPrepareError { session: None, error: Report::new(Mute) };
    assert!(app.handle_side_thread_prepared(7, Err(error)).is_none());
    assert_eq!(due(&mut app), vec!["error Failed to start side conversation: ".to_string()]);

    let switch = SideSwitch { child_thread_id: SIDE, parent_thread_id: MAIN, user_message: None };
    assert!(app.finish_side_switch(switch, Err(Report::new(Mute))).is_none());
    let told = format!("error Failed to switch into side conversation {}: ", SIDE_TEXT);
    assert_eq!(due(&mut app).last(), Some(&told));
}

#[test]
fn screen_shows_the_side_conversation() {
    let mut app = in_side();
    app.toggle_side_hint = Some("ctrl + s".to_string());
    app.sync_side_thread_ui();
    assert_eq!(
        app.side_ui.context_label.as_deref(),
        Some("Side from main thread · ctrl + s to switch · ctrl + c to close")
    );
    assert!(app.side_ui.side_conversation_active);
    assert_eq!(app.side_ui.thread_rename_block.as_deref(), Some(SIDE_RENAME_BLOCK_MESSAGE));
    assert_eq!(
        app.side_ui.interrupted_turn_notice_mode,
        InterruptedTurnNoticeMode::Suppress
    );
    assert_eq!(app.active_side_parent_thread_id(), Some(MAIN));
}

#[test]
fn screen_names_a_parent_that_is_not_the_main_thread() {
    let mut app = in_side();
    app.primary_thread_id = Some(OTHER);
    app.thread_labels.insert(MAIN, "Robie".to_string());
    app.set_side_parent_status(MAIN, Some(SideParentStatus::NeedsApproval));
    assert_eq!(
        app.side_ui.context_label.as_deref(),
        Some("Side from parent thread (Robie) · parent needs approval · ctrl + c to close")
    );
}

#[test]
fn screen_shows_the_key_to_the_side_in_its_parent() {
    let mut app = in_side();
    app.displayed_thread_id = Some(MAIN);
    app.sync_side_thread_ui();
    assert_eq!(app.side_ui.context_label, None);
    app.toggle_side_hint = Some("ctrl + s".to_string());
    app.sync_side_thread_ui();
    assert_eq!(app.side_ui.context_label.as_deref(), Some("ctrl + s for side"));
    assert!(!app.side_ui.side_conversation_active);
    assert_eq!(app.side_ui.thread_rename_block, None);
    assert_eq!(app.side_ui.interrupted_turn_notice_mode, InterruptedTurnNoticeMode::Default);
    app.displayed_thread_id = Some(OTHER);
    app.sync_side_thread_ui();
    assert_eq!(app.side_ui.context_label, None);
    app.displayed_thread_id = None;
    app.sync_side_thread_ui();
    assert_eq!(app.side_ui.context_label, None);
    assert_eq!(app.active_side_parent_thread_id(), None);
}

#[test]
fn status_reaches_open_and_pending_sides_of_its_parent() {
    let mut app = in_side();
    app.pending_side_start = Some(PendingSideStart {
        request_id: 1,
        side_state: SideThreadState::new(MAIN),
        user_message: None,
    });
    app.side_threads.insert(OTHER, SideThreadState::new(OTHER));
    app.set_side_parent_status(MAIN, Some(SideParentStatus::NeedsInput));
    let status = |app: &App, id: u128| app.side_threads.get(&id).unwrap().parent_status;
    assert_eq!(status(&app, SIDE), Some(SideParentStatus::NeedsInput));
    assert_eq!(status(&app, OTHER), None);
    assert_eq!(
        app.pending_side_start.as_ref().unwrap().side_state.parent_status,
        Some(SideParentStatus::NeedsInput)
    );
    assert_eq!(
        app.side_ui.context_label.as_deref(),
        Some("Side from main thread · main needs input · ctrl + c to close")
    );
    app.apply_side_parent_status_change(MAIN, SideParentStatusChange::ClearActionable);
    assert_eq!(status(&app, SIDE), None);
    assert_eq!(app.pending_side_start.as_ref().unwrap().side_state.parent_status, None);
    app.apply_side_parent_status_change(
        MAIN,
        SideParentStatusChange::SetTo(SideParentStatus::Failed),
    );
    app.clear_side_parent_action_status(MAIN);
    assert_eq!(status(&app, SIDE), Some(SideParentStatus::Failed));
    app.apply_side_parent_status_change(MAIN, SideParentStatusChange::Clear);
    assert_eq!(status(&app, SIDE), None);
}

#[test]
fn unchanged_status_leaves_the_screen_alone() {
    let mut app = in_side();
    app.side_ui.context_label = Some("as it was".to_string());
    app.set_side_parent_status(MAIN, None);
    app.set_side_parent_status(OTHER, Some(SideParentStatus::Failed));
    app.clear_side_parent_action_status(MAIN);
    assert_eq!(app.side_ui.context_label.as_deref(), Some("as it was"));
    app.set_side_parent_status(MAIN, Some(SideParentStatus::Failed));
    assert_eq!(
        app.side_ui.context_label.as_deref(),
        Some("Side from main thread · main failed · ctrl + c to close")
    );
}

#[test]
fn toggle_goes_back_and_forth() {
    let mut app = in_side();
    assert_eq!(app.toggle_side_conversation(), Some(MAIN));
    app.displayed_thread_id = Some(MAIN);
    assert_eq!(app.toggle_side_conversation(), Some(SIDE));
    app.displayed_thread_id = Some(OTHER);
    assert_eq!(app.toggle_side_conversation(), None);
    app.displayed_thread_id = None;
    assert_eq!(app.toggle_side_conversation(), None);
    assert_eq!(in_main().toggle_side_conversation(), None);
}

#[test]
fn leaving_a_side_conversation_discards_it() {
    let mut app = in_side();
    assert_eq!(app.side_thread_to_discard_after_switch(MAIN), Some(SIDE));
    assert_eq!(app.side_thread_to_discard_after_switch(OTHER), Some(SIDE));
    assert_eq!(app.side_thread_to_discard_after_switch(SIDE), None);
    app.displayed_thread_id = Some(MAIN);
    assert_eq!(app.side_thread_to_discard_after_switch(SIDE), None);
    assert_eq!(app.side_thread_to_discard_after_switch(MAIN), None);
    assert_eq!(app.side_thread_to_discard_after_switch(OTHER), Some(SIDE));
    app.displayed_thread_id = Some(OTHER);
    assert_eq!(app.side_thread_to_discard_after_switch(MAIN), None);
    app.displayed_thread_id = None;
    assert_eq!(app.side_thread_to_discard_after_switch(MAIN), None);
    assert_eq!(in_main().side_thread_to_discard_after_switch(OTHER), None);
}

#[test]
fn selection_discards_the_side_once_the_thread_is_active() {
    let mut app = in_side();
    assert!(app.select_agent_thread_and_discard_side(MAIN, Some(SIDE), Ok(())).is_ok());
    assert!(due(&mut app).is_empty());
    assert!(app.side_threads.contains_key(&SIDE));
    app.active_thread_id = Some(MAIN);
    let failed = app.select_agent_thread_and_discard_side(
        MAIN,
        Some(SIDE),
        Err(Report::msg("no such thread")),
    );
    assert_eq!(failed.unwrap_err().to_string(), "no such thread");
    assert!(due(&mut app).is_empty());
    assert!(app.select_agent_thread_and_discard_side(MAIN, None, Ok(())).is_ok());
    assert!(due(&mut app).is_empty());
    assert!(app.select_agent_thread_and_discard_side(MAIN, Some(SIDE), Ok(())).is_ok());
    assert_eq!(
        due(&mut app),
        vec!["agent".to_string(), format!("cleanup {:x}", SIDE), "surface".to_string()]
    );
}

#[test]
fn return_waits_until_the_user_has_nothing_else_in_hand() {
    let mut app = in_side();
    assert_eq!(app.maybe_return_from_side(), Some(MAIN));
    app.overlay_open = true;
    assert_eq!(app.maybe_return_from_side(), None);
    app.overlay_open = false;
    app.modal_or_popup_active = true;
    assert_eq!(app.maybe_return_from_side(), None);
    app.modal_or_popup_active = false;
    app.composer_is_empty = false;
    assert_eq!(app.maybe_return_from_side(), None);
    app.composer_is_empty = true;
    assert!(!app.returned_from_side(&Ok(())));
    app.displayed_thread_id = Some(MAIN);
    assert_eq!(app.maybe_return_from_side(), None);
    assert!(app.returned_from_side(&Ok(())));
    assert!(!app.returned_from_side(&Err(Report::msg("x"))));
}

#[test]
fn question_goes_back_to_where_it_was_typed() {
    let mut app = in_main();
    app.restore_side_user_message(None);
    app.restore_side_user_message_for_thread(MAIN, None);
    assert!(due(&mut app).is_empty());
    app.restore_side_user_message(Some(question("a")));
    app.restore_side_user_message_for_thread(MAIN, Some(question("b")));
    app.displayed_thread_id = Some(OTHER);
    app.restore_side_user_message_for_thread(MAIN, Some(question("c")));
    app.restore_side_user_message_for_thread(SIDE, Some(question("d")));
    assert_eq!(
        due(&mut app),
        vec![
            "composer a".to_string(),
            "composer b".to_string(),
            format!("input {:x} c", MAIN),
        ]
    );
}
