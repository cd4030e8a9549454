use std::error::Error;
use std::fmt;
use std::sync::atomic::{AtomicUsize, Ordering};
use std::sync::Arc;

use color_eyre::eyre::Report;
use side_conversation::app::{App, ChatSettings, Config};
use side_conversation::prompts::{
    SIDE_BOUNDARY_PROMPT, SIDE_DEVELOPER_INSTRUCTIONS, SIDE_NO_STARTED_CONVERSATION_MESSAGE,
};
use side_conversation::protocol::{ContentItem, ResponseItem};
use side_conversation::text::{contains_text, is_blank, join_texts, text_plus};

fn settings() -> ChatSettings {
    ChatSettings {
        config: Config {
            model: Some("configured-model".to_string()),
            model_reasoning_effort: Some("low".to_string()),
            service_tier: Some("flex".to_string()),
            ephemeral: false,
            developer_instructions: Some("Be brief.".to_string()),
            details: "the rest".to_string(),
        },
        current_model: "current-model".to_string(),
        current_reasoning_effort: Some("high".to_string()),
        configured_service_tier: None,
    }
}

/// An error that is its own cause.
#[derive(Debug)]
struct Endless;

impl fmt::Display for Endless {
    fn fmt(&self, f: &mut fmt::Formatter<'_>) -> fmt::Result {
        f.write_str("no rollout found for thread id x")
    }
}

impl Error for Endless {
    fn source(&self) -> Option<&(dyn Error + 'static)> {
        Some(self)
    }
}

/// An error that cannot be displayed.
#[derive(Debug)]
struct Mute;

impl fmt::Display for Mute {
    fn fmt(&self, _f: &mut fmt::Formatter<'_>) -> fmt::Result {
        Err(fmt::Error)
    }
}

impl Error for Mute {}

/// An error that counts how often it is displayed.
#[derive(Debug)]
struct Counted(Arc<AtomicUsize>);

impl fmt::Display for Counted {
    fn fmt(&self, f: &mut fmt::Formatter<'_>) -> fmt::Result {
        self.0.fetch_add(1, Ordering::SeqCst);
        f.write_str("counted")
    }
}

impl Error for Counted {}

/// An error that says something over a cause that was given.
#[derive(Debug)]
struct Over<E>(&'static str, E);

impl<E> fmt::Display for Over<E> {
    fn fmt(&self, f: &mut fmt::Formatter<'_>) -> fmt::Result {
        f.write_str(self.0)
    }
}

impl<E: Error + 'static> Error for Over<E> {
    fn source(&self) -> Option<&(dyn Error + 'static)> {
        Some(&self.1)
    }
}

/// An error that cannot be displayed over a cause that can.
#[derive(Debug)]
struct MuteOver(Over<Mute>);

impl fmt::Display for MuteOver {
    fn fmt(&self, f: &mut fmt::Formatter<'_>) -> fmt::Result {
        f.write_str("no rollout found for thread id")?;
        Err(fmt::Error)
    }
}

impl Error for MuteOver {
    fn source(&self) -> Option<&(dyn Error + 'static)> {
        Some(&self.0)
    }
}

#[test]
fn side_boundary_prompt_marks_inherited_history_reference_only() {
    let item = App::side_boundary_prompt_item();
    let ResponseItem::Message { role, content, .. } = item;
    assert_eq!(role, "user");
    let [ContentItem::InputText { text }] = content.as_slice() else {
        panic!("expected hidden side boundary prompt text");
    };
    assert!(text.contains("Side conversation boundary."));
    assert!(text.contains("Everything before this boundary is inherited history"));
    assert!(text.contains("It is not your current task."));
    assert!(text.contains("Only messages submitted after this boundary are active"));
    assert!(text.contains("Do not continue, execute, or complete"));
    assert!(text.contains("separate from the main thread"));
    assert!(text.contains("External tools may be available according to this thread's current"));
    assert!(text.contains("Any tool calls or outputs visible before this boundary happened"));
    assert!(text.contains("Sub-agents are off-limits in this side conversation."));
    assert!(text.contains("Do not modify files"));
}

#[test]
fn side_start_error_message_explains_missing_first_prompt() {
    let err = Report::msg(
        "thread/fork failed during TUI bootstrap: thread/fork failed: no rollout found for thread id 019da1a1-bed9-7a43-88a2-b49d43915021",
    );

    assert_eq!(
        App::side_start_error_message(&err),
        "'/side' is unavailable until the current conversation has started. Send a message first, then try /side again."
    );
}

#[test]
fn side_start_error_message_uses_generic_start_wording() {
    let err = Report::msg("transport disconnected");

    assert_eq!(
        App::side_start_error_message(&err),
        "Failed to start side conversation: transport disconnected"
    );
}

#[test]
fn side_developer_instructions_appends_existing_policy() {
    let developer_instructions =
        App::side_developer_instructions(Some("Existing developer policy."));

    assert!(developer_instructions.contains("Existing developer policy."));
    assert!(developer_instructions.contains("You are in a side conversation, not the main thread."));
    assert!(developer_instructions.contains("Sub-agents are off-limits in this side conversation."));
}

#[test]
fn boundary_item_carries_nothing_but_the_prompt() {
    let ResponseItem::Message {
        id,
        role,
        content,
        phase,
        internal_chat_message_metadata_passthrough,
    } = App::side_boundary_prompt_item();
    assert!(id.is_none());
    assert_eq!(role, "user");
    assert_eq!(content.len(), 1);
    let ContentItem::InputText { text } = &content[0];
    assert_eq!(text, SIDE_BOUNDARY_PROMPT);
    assert!(phase.is_none());
    assert!(internal_chat_message_metadata_passthrough.is_none());
}

#[test]
fn start_error_is_explained_by_a_cause_down_the_chain() {
    let err = Report::msg("includeTurns is unavailable before first user message; retry")
        .wrap_err("thread/read failed")
        .wrap_err("could not start");
    assert_eq!(
        App::side_start_error_message(&err),
        SIDE_NO_STARTED_CONVERSATION_MESSAGE
    );
}

#[test]
fn start_error_is_decided_before_its_chain_ends() {
    assert_eq!(
        App::side_start_error_message(&Report::new(Endless)),
        SIDE_NO_STARTED_CONVERSATION_MESSAGE
    );
}

#[test]
fn start_error_reads_no_cause_behind_the_one_that_decides() {
    let count = Arc::new(AtomicUsize::new(0));
    let decides = "includeTurns is unavailable before first user message";
    assert_eq!(
        App::side_start_error_message(&Report::new(Over(decides, Counted(count.clone())))),
        SIDE_NO_STARTED_CONVERSATION_MESSAGE
    );
    assert_eq!(count.load(Ordering::SeqCst), 0);
    assert_eq!(
        App::side_start_error_message(&Report::new(Over("outer", Counted(count.clone())))),
        "Failed to start side conversation: outer"
    );
    assert_eq!(count.load(Ordering::SeqCst), 1);
}

#[test]
fn start_error_that_cannot_be_displayed_decides_and_shows_nothing() {
    assert_eq!(
        App::side_start_error_message(&Report::new(Mute)),
        "Failed to start side conversation: "
    );
    assert_eq!(
        App::side_start_error_message(&Report::new(Over("outer", Mute))),
        "Failed to start side conversation: outer"
    );
    assert_eq!(
        App::side_start_error_message(&Report::new(MuteOver(Over("inner", Mute)))),
        "Failed to start side conversation: "
    );
    let decides = "no rollout found for thread id x";
    assert_eq!(
        App::side_start_error_message(&Report::new(MuteOver(Over(decides, Mute)))),
        SIDE_NO_STARTED_CONVERSATION_MESSAGE
    );
}

#[test]
fn start_error_shows_the_outermost_error_only() {
    let err = Report::msg("connection reset").wrap_err("thread/fork failed");
    assert_eq!(
        App::side_start_error_message(&err),
        "Failed to start side conversation: thread/fork failed"
    );
}

#[test]
fn start_error_from_texts_looks_at_every_text() {
    let chain = vec!["outer".to_string(), "no rollout found for thread id x".to_string()];
    assert_eq!(
        App::start_error_from_texts(&chain, "outer"),
        SIDE_NO_STARTED_CONVERSATION_MESSAGE
    );
    assert_eq!(
        App::start_error_from_texts(&vec!["no rollout".to_string()], "no rollout"),
        "Failed to start side conversation: no rollout"
    );
    assert_eq!(
        App::start_error_from_texts(&Vec::new(), ""),
        "Failed to start side conversation: "
    );
}

#[test]
fn developer_instructions_keep_policy_first() {
    assert_eq!(
        App::side_developer_instructions(Some(" policy ")),
        format!(" policy \n\n{}", SIDE_DEVELOPER_INSTRUCTIONS)
    );
}

#[test]
fn developer_instructions_ignore_blank_policy() {
    assert_eq!(App::side_developer_instructions(None), SIDE_DEVELOPER_INSTRUCTIONS);
    assert_eq!(App::side_developer_instructions(Some("")), SIDE_DEVELOPER_INSTRUCTIONS);
    assert_eq!(
        App::side_developer_instructions(Some(" \t\r\n\u{a0}\u{3000}")),
        SIDE_DEVELOPER_INSTRUCTIONS
    );
}

#[test]
fn blank_agrees_with_trim_on_every_char() {
    let mut code: u32 = 0;
    while code <= 0x10ffff {
        if let Some(c) = char::from_u32(code) {
            let text = c.to_string();
            assert_eq!(is_blank(&text), text.trim().is_empty());
        }
        code += 1;
    }
}

#[test]
fn fork_config_takes_what_the_chat_runs_with() {
    let app = App::new(settings());
    let fork = app.side_fork_config();
    assert_eq!(fork.model.as_deref(), Some("current-model"));
    assert_eq!(fork.model_reasoning_effort.as_deref(), Some("high"));
    assert_eq!(fork.service_tier, None);
    assert!(fork.ephemeral);
    assert_eq!(
        fork.developer_instructions,
        Some(format!("Be brief.\n\n{}", SIDE_DEVELOPER_INSTRUCTIONS))
    );
    assert_eq!(fork.details, "the rest");
    assert!(!app.chat_settings.config.ephemeral);
}

#[test]
fn fork_config_keeps_the_configured_model_where_none_is_current() {
    let mut chat = settings();
    chat.current_model = "  ".to_string();
    chat.config.developer_instructions = None;
    let fork = App::new(chat).side_fork_config();
    assert_eq!(fork.model.as_deref(), Some("configured-model"));
    assert_eq!(fork.developer_instructions.as_deref(), Some(SIDE_DEVELOPER_INSTRUCTIONS));
}

#[test]
fn text_search_finds_parts_anywhere() {
    assert!(contains_text("abcabd", "abd"));
    assert!(contains_text("abc", "abc"));
    assert!(contains_text("abc", ""));
    assert!(contains_text("", ""));
    assert!(contains_text("größe", "ß"));
    assert!(!contains_text("abc", "abcd"));
    assert!(!contains_text("aab", "ba"));
}

#[test]
fn text_joins_with_separators_between() {
    let parts = vec!["a".to_string(), "b".to_string(), "c".to_string()];
    assert_eq!(join_texts(&parts, " · "), "a · b · c");
    assert_eq!(join_texts(&Vec::new(), ", "), "");
    assert_eq!(join_texts(&vec!["a".to_string()], ", "), "a");
    assert_eq!(text_plus("a", "b"), "ab");
}
