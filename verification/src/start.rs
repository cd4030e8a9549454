//! Starting a side conversation: whether it may start, what the fork is told and runs with, and
//! what becomes of the question that the user wanted to ask.

use color_eyre::Report;
use vstd::prelude::*;
use crate::app::{
    App, AppModel, ChatSettings, Config, ConfigModel, Effect, EffectModel, PendingSideStart,
    UserMessage,
};
use crate::ids::{random_id, thread_id_from_string, StartRequestId, ThreadId};
use crate::maps::{has_some, has_value};
use crate::prompts::{
    SIDE_ALREADY_OPEN_MESSAGE, SIDE_ALREADY_STARTING_MESSAGE, SIDE_BOUNDARY_PROMPT,
    SIDE_DEVELOPER_INSTRUCTIONS, SIDE_MAIN_THREAD_UNAVAILABLE_MESSAGE,
    SIDE_NO_STARTED_CONVERSATION_MESSAGE,
};
use crate::protocol::{ContentItem, ResponseItem, ServerNotification, StartedThread};
use crate::report::{show_cause, show_report};
use crate::status::SideThreadState;
use crate::text::{contains_text, is_blank, text_plus};

verus! {

/// The developer instructions of a fork: those of the parent, if they say anything, and behind them
/// those for side conversations.
pub open spec fn side_instructions(existing: Option<Seq<char>>) -> Seq<char> {
    match existing {
        Some(text) if !crate::text::blank(text) => text + "\n\n"@ + SIDE_DEVELOPER_INSTRUCTIONS@,
        _ => SIDE_DEVELOPER_INSTRUCTIONS@,
    }
}

/// The configuration of a fork: that of the chat, with what the chat runs with at present, never
/// kept, and told to be a side conversation.
pub open spec fn fork_config(settings: ChatSettings) -> ConfigModel {
    let config = settings.config@;
    ConfigModel {
        model: if crate::text::blank(settings.current_model@) {
            config.model
        } else {
            Some(settings.current_model@)
        },
        model_reasoning_effort: crate::text::opt_text(settings.current_reasoning_effort),
        service_tier: crate::text::opt_text(settings.configured_service_tier),
        ephemeral: true,
        developer_instructions: Some(side_instructions(config.developer_instructions)),
        details: config.details,
    }
}

/// The item that closes the inherited history off: a user message with the boundary prompt, and
/// nothing else.
pub open spec fn is_boundary_item(item: ResponseItem) -> bool {
    match item {
        ResponseItem::Message {
            id,
            role,
            content,
            phase,
            internal_chat_message_metadata_passthrough,
        } => {
            &&& id is None
            &&& role@ == "user"@
            &&& content@.len() == 1
            &&& content@[0] matches ContentItem::InputText { text }
            &&& text@ == SIDE_BOUNDARY_PROMPT@
            &&& phase is None
            &&& internal_chat_message_metadata_passthrough is None
        },
    }
}

/// A text by which the server says that nothing was said in the conversation yet.
pub open spec fn says_not_started(text: Seq<char>) -> bool {
    ||| crate::text::occurs(text, "no rollout found for thread id"@)
    ||| crate::text::occurs(text, "includeTurns is unavailable before first user message"@)
}

/// What the user is told of a start that failed, given the texts of the errors behind it and the
/// text of the whole.
pub open spec fn start_error_text(chain: Seq<Seq<char>>, text: Seq<char>) -> Seq<char> {
    if exists|i: int| 0 <= i < chain.len() && says_not_started(#[trigger] chain[i]) {
        SIDE_NO_STARTED_CONVERSATION_MESSAGE@
    } else {
        "Failed to start side conversation: "@ + text
    }
}

/// The parent that a started thread names, if it is a side thread by the looks of it: ephemeral,
/// and forked from a thread that can be read.
pub open spec fn started_parent(thread: StartedThread) -> Option<ThreadId> {
    match thread.forked_from_id {
        Some(text) if thread.ephemeral => crate::ids::parsed_id(text@),
        _ => None,
    }
}

impl AppModel {
    /// A side conversation is open, or is being closed and may come back.
    pub open spec fn is_open(self, id: ThreadId) -> bool {
        ||| self.side_threads.contains_key(id)
        ||| self.side_cleanup_recovery.contains_key(id) && self.side_cleanup_recovery[id] is Some
    }

    /// Why no side conversation may start now, if so.
    pub open spec fn start_block(self) -> Option<Seq<char>> {
        if self.pending_side_start is Some {
            Some(SIDE_ALREADY_STARTING_MESSAGE@)
        } else if self.primary_thread_id is None {
            Some(SIDE_MAIN_THREAD_UNAVAILABLE_MESSAGE@)
        } else if exists|id: ThreadId| self.is_open(id) {
            Some(SIDE_ALREADY_OPEN_MESSAGE@)
        } else {
            None
        }
    }

    /// The state with a message on its way back to the composer.
    pub open spec fn restored(self, message: Option<UserMessage>) -> AppModel {
        match message {
            Some(message) => self.emitted(EffectModel::RestoreToComposer(message)),
            None => self,
        }
    }

    /// The state with a message on its way back to where it was typed: to the composer, where that
    /// thread is shown, or else to what is kept of the thread. Where nothing is kept of it the
    /// message is lost.
    pub open spec fn restored_for(
        self,
        thread_id: ThreadId,
        message: Option<UserMessage>,
    ) -> AppModel {
        match message {
            Some(message) => if self.displayed_thread_id == Some(thread_id) {
                self.emitted(EffectModel::RestoreToComposer(message))
            } else if self.thread_event_channels.contains_key(thread_id) {
                self.emitted(EffectModel::RestoreToThread(thread_id, message))
            } else {
                self
            },
            None => self,
        }
    }

    /// The state after a start was refused.
    pub open spec fn start_refused(self, message: Option<UserMessage>, why: Seq<char>) -> AppModel {
        self.restored(message).synced().failed(why)
    }

    /// The state with a side conversation being prepared.
    pub open spec fn start_begun(
        self,
        request_id: StartRequestId,
        parent_thread_id: ThreadId,
        user_message: Option<UserMessage>,
    ) -> AppModel {
        AppModel {
            pending_side_start: Some(
                PendingSideStart {
                    request_id,
                    side_state: SideThreadState { parent_thread_id, parent_status: None },
                    user_message,
                },
            ),
            ..self
        }
    }

    /// A preparation for that parent has not answered yet, wanted or given up.
    pub open spec fn awaits_fork_of(self, parent: ThreadId) -> bool {
        ||| self.pending_side_start is Some
            && self.pending_side_start->0.side_state.parent_thread_id == parent
        ||| exists|request: StartRequestId| #[trigger]
            self.canceled_side_start_parents.contains_key(request)
                && self.canceled_side_start_parents[request] == parent
    }

    /// A thread forked from that parent is the work of a preparation.
    pub open spec fn expects_fork(self, parent: Option<ThreadId>) -> bool {
        match parent {
            Some(parent) => self.awaits_fork_of(parent),
            None => false,
        }
    }

    /// The state after a fork was announced.
    pub open spec fn fork_noted(self, thread_id: ThreadId, parent: Option<ThreadId>) -> AppModel {
        if self.expects_fork(parent) {
            AppModel { pending_side_threads: self.pending_side_threads.insert(thread_id), ..self }
        } else {
            self
        }
    }

    /// The state with the preparation given up; its answer is still to come.
    pub open spec fn start_canceled(self) -> AppModel {
        match self.pending_side_start {
            Some(pending) => AppModel {
                pending_side_start: None,
                canceled_side_start_parents: self.canceled_side_start_parents.insert(
                    pending.request_id,
                    pending.side_state.parent_thread_id,
                ),
                ..self
            },
            None => self,
        }
    }
}

impl App {
    /// The developer instructions of a fork, given those of the parent.
    pub fn side_developer_instructions(existing_instructions: Option<&str>) -> (r: String)
        ensures
            r@ == side_instructions(
                match existing_instructions {
                    Some(text) => Some(text@),
                    None => None,
                },
            ),
    {
        match existing_instructions {
            Some(text) => {
                if is_blank(text) {
                    SIDE_DEVELOPER_INSTRUCTIONS.to_owned()
                } else {
                    let mut instructions: String = text.to_owned();
                    instructions.append("\n\n");
                    instructions.append(SIDE_DEVELOPER_INSTRUCTIONS);
                    instructions
                }
            },
            None => SIDE_DEVELOPER_INSTRUCTIONS.to_owned(),
        }
    }

    /// The item that closes the inherited history off: a user message with the boundary prompt.
    pub fn side_boundary_prompt_item() -> (r: ResponseItem)
        ensures
            is_boundary_item(r),
    {
        let mut content: Vec<ContentItem> = Vec::new();
        content.push(ContentItem::InputText { text: SIDE_BOUNDARY_PROMPT.to_owned() });
        ResponseItem::Message {
            id: None,
            role: "user".to_owned(),
            content,
            phase: None,
            internal_chat_message_metadata_passthrough: None,
        }
    }

    /// The configuration that a fork runs under.
    pub fn side_fork_config(&self) -> (r: Config)
        ensures
            r@ == fork_config(self@.chat_settings),
    {
        let config: &Config = &self.chat_settings.config;
        let model: Option<String> = if is_blank(self.chat_settings.current_model.as_str()) {
            config.model.clone()
        } else {
            Some(self.chat_settings.current_model.clone())
        };
        let instructions: String = match &config.developer_instructions {
            Some(text) => Self::side_developer_instructions(Some(text.as_str())),
            None => Self::side_developer_instructions(None),
        };
        Config {
            model,
            model_reasoning_effort: self.chat_settings.current_reasoning_effort.clone(),
            service_tier: self.chat_settings.configured_service_tier.clone(),
            ephemeral: true,
            developer_instructions: Some(instructions),
            details: config.details.clone(),
        }
    }

    /// Why no side conversation may start now; `None` where one may.
    pub fn side_start_block_message(&self) -> (r: Option<&'static str>)
        ensures
            match r {
                Some(message) => Some(message@),
                None => None,
            } == self@.start_block(),
    {
        if self.pending_side_start.is_some() {
            Some(SIDE_ALREADY_STARTING_MESSAGE)
        } else if self.primary_thread_id.is_none() {
            Some(SIDE_MAIN_THREAD_UNAVAILABLE_MESSAGE)
        } else {
            let open: bool = !self.side_threads.is_empty();
            let closing: bool = has_some(&self.side_cleanup_recovery);
            proof {
                let dom = self@.side_threads.dom();
                if open {
                    let id = dom.choose();
                    assert(dom.contains(id));
                    assert(self@.is_open(id));
                } else {
                    assert(dom.len() == 0);
                    assert(forall|id: ThreadId| !dom.contains(id));
                }
                if closing {
                    let id = choose|id: ThreadId| #[trigger]
                        self@.side_cleanup_recovery.contains_key(id)
                            && self@.side_cleanup_recovery[id] is Some;
                    assert(self@.is_open(id));
                }
            }
            if open || closing {
                Some(SIDE_ALREADY_OPEN_MESSAGE)
            } else {
                None
            }
        }
    }

    /// Puts a message back into the composer.
    pub fn restore_side_user_message(&mut self, user_message: Option<UserMessage>)
        ensures
            final(self)@ == old(self)@.restored(user_message),
    {
        if let Some(message) = user_message {
            self.emit(Effect::RestoreToComposer(message));
        }
    }

    /// Puts a message back to where it was typed, if there is anything left of that thread.
    pub fn restore_side_user_message_for_thread(
        &mut self,
        thread_id: ThreadId,
        user_message: Option<UserMessage>,
    )
        ensures
            final(self)@ == old(self)@.restored_for(thread_id, user_message),
    {
        let message: UserMessage = match user_message {
            Some(message) => message,
            None => {
                return;
            },
        };
        let is_shown: bool = match self.current_displayed_thread_id() {
            Some(shown) => shown == thread_id,
            None => false,
        };
        if is_shown {
            self.emit(Effect::RestoreToComposer(message));
        } else if self.thread_event_channels.contains_key(&thread_id) {
            self.emit(Effect::RestoreToThread(thread_id, message));
        }
    }

    /// Begins a side conversation of `parent_thread_id`, or refuses it: then the message goes back
    /// to the composer and the user is told why. Where it begins the answer is the request under
    /// which its preparation is to be reported.
    pub fn handle_start_side(
        &mut self,
        parent_thread_id: ThreadId,
        user_message: Option<UserMessage>,
    ) -> (r: Option<StartRequestId>)
        ensures
            r is Some <==> old(self)@.start_block() is None,
            match r {
                Some(request_id) => {
                    &&& crate::ids::is_random_id(request_id)
                    &&& final(self)@ == old(self)@.start_begun(
                        request_id,
                        parent_thread_id,
                        user_message,
                    )
                },
                None => final(self)@ == old(self)@.start_refused(
                    user_message,
                    old(self)@.start_block()->0,
                ),
            },
    {
        match self.side_start_block_message() {
            Some(message) => {
                self.refuse_start(user_message, message);
                None
            },
            None => {
                let request_id: StartRequestId = random_id();
                self.begin_start(request_id, parent_thread_id, user_message);
                Some(request_id)
            },
        }
    }

    /// Begins a side conversation under a given request, or refuses it.
    pub fn start_side(
        &mut self,
        request_id: StartRequestId,
        parent_thread_id: ThreadId,
        user_message: Option<UserMessage>,
    ) -> (r: bool)
        ensures
            r == old(self)@.start_block() is None,
            final(self)@ == match old(self)@.start_block() {
                Some(why) => old(self)@.start_refused(user_message, why),
                None => old(self)@.start_begun(request_id, parent_thread_id, user_message),
            },
    {
        match self.side_start_block_message() {
            Some(message) => {
                self.refuse_start(user_message, message);
                false
            },
            None => {
                self.begin_start(request_id, parent_thread_id, user_message);
                true
            },
        }
    }

    /// Refuses a start.
    fn refuse_start(&mut self, user_message: Option<UserMessage>, why: &str)
        ensures
            final(self)@ == old(self)@.start_refused(user_message, why@),
    {
        self.restore_side_user_message(user_message);
        self.sync_side_thread_ui();
        self.emit(Effect::ShowError(why.to_owned()));
    }

    /// Records a start.
    fn begin_start(
        &mut self,
        request_id: StartRequestId,
        parent_thread_id: ThreadId,
        user_message: Option<UserMessage>,
    )
        ensures
            final(self)@ == old(self)@.start_begun(request_id, parent_thread_id, user_message),
    {
        self.pending_side_start = Some(
            PendingSideStart {
                request_id,
                side_state: SideThreadState::new(parent_thread_id),
                user_message,
            },
        );
    }

    /// Takes a notification about a thread, and tells whether the thread is the work of a
    /// preparation that has not answered yet.
    pub fn note_pending_side_thread_started(
        &mut self,
        thread_id: ThreadId,
        notification: &ServerNotification,
    ) -> (r: bool)
        ensures
            match *notification {
                ServerNotification::ThreadStarted(thread) => {
                    &&& r == old(self)@.expects_fork(started_parent(thread))
                    &&& final(self)@ == old(self)@.fork_noted(thread_id, started_parent(thread))
                },
                _ => {
                    &&& r == old(self)@.pending_side_threads.contains(thread_id)
                    &&& final(self)@ == old(self)@
                },
            },
    {
        let thread: &StartedThread = match notification {
            ServerNotification::ThreadStarted(thread) => thread,
            _ => {
                return self.pending_side_threads.contains(&thread_id);
            },
        };
        if !thread.ephemeral {
            return false;
        }
        let parent: Option<ThreadId> = match &thread.forked_from_id {
            Some(text) => thread_id_from_string(text.as_str()),
            None => None,
        };
        self.note_forked_thread(thread_id, parent)
    }

    /// Takes note of an ephemeral thread that was forked from `parent`, where that could be read,
    /// and tells whether it is the work of a preparation that has not answered yet.
    pub fn note_forked_thread(&mut self, thread_id: ThreadId, parent: Option<ThreadId>) -> (r: bool)
        ensures
            r == old(self)@.expects_fork(parent),
            final(self)@ == old(self)@.fork_noted(thread_id, parent),
    {
        let parent: ThreadId = match parent {
            Some(parent) => parent,
            None => {
                return false;
            },
        };
        let wanted: bool = match &self.pending_side_start {
            Some(pending) => pending.side_state.parent_thread_id == parent,
            None => false,
        };
        let expected: bool = wanted || has_value(&self.canceled_side_start_parents, parent);
        if expected {
            self.pending_side_threads.insert(thread_id);
        }
        expected
    }

    /// Gives the preparation under way up, and hands the message back that it was begun with.
    pub fn cancel_pending_side_start_for_session_reset(&mut self) -> (r: Option<UserMessage>)
        ensures
            r == match old(self)@.pending_side_start {
                Some(pending) => pending.user_message,
                None => None,
            },
            final(self)@ == old(self)@.start_canceled(),
    {
        match self.pending_side_start.take() {
            Some(pending) => {
                self.canceled_side_start_parents.insert(
                    pending.request_id,
                    pending.side_state.parent_thread_id,
                );
                pending.user_message
            },
            None => None,
        }
    }

    /// What the user is told of a start that failed. The errors behind it are read one by one until
    /// one decides, and the text of the whole only where none does. An error that refuses to be
    /// displayed decides nothing, and shows as nothing.
    pub fn side_start_error_message(err: &Report) -> (r: String)
        ensures
            r@ == start_error_text(
                crate::report::shown_chain(*err),
                crate::report::shown_text(*err),
            ),
    {
        let ghost all = crate::report::shown_chain(*err);
        let mut read: Vec<String> = Vec::new();
        let mut i: usize = 0;
        while i < usize::MAX
            invariant
                all == crate::report::shown_chain(*err),
                i == read.len(),
                i <= all.len(),
                i > 0 ==> all.len() <= usize::MAX,
                crate::text::texts(read@) == all.take(i as int),
            ensures
                crate::text::texts(read@) == all,
            decreases usize::MAX - i,
        {
            let cause: String = match show_cause(err, i) {
                Some(cause) => cause,
                None => {
                    assert(all.take(i as int) =~= all);
                    break;
                },
            };
            let decides: bool = Self::tells_not_started(cause.as_str());
            read.push(cause);
            assert(crate::text::texts(read@) =~= all.take(i + 1));
            if decides {
                assert(crate::text::texts(read@)[i as int] == all[i as int]);
                return Self::start_error_from_texts(&read, "");
            }
            i = i + 1;
            assert(i == usize::MAX ==> all.take(i as int) =~= all);
        }
        let text: String = show_report(err);
        Self::start_error_from_texts(&read, text.as_str())
    }

    /// Tells whether a text says that nothing was said in the conversation yet.
    fn tells_not_started(text: &str) -> (r: bool)
        ensures
            r == says_not_started(text@),
    {
        contains_text(text, "no rollout found for thread id") || contains_text(
            text,
            "includeTurns is unavailable before first user message",
        )
    }

    /// What the user is told of a start that failed, given the texts of the errors behind it and
    /// the text of the whole.
    pub fn start_error_from_texts(chain: &Vec<String>, text: &str) -> (r: String)
        ensures
            r@ == start_error_text(crate::text::texts(chain@), text@),
    {
        let ghost all = crate::text::texts(chain@);
        let mut i: usize = 0;
        while i < chain.len()
            invariant
                i <= chain.len(),
                all == crate::text::texts(chain@),
                forall|j: int| 0 <= j < i ==> !says_not_started(#[trigger] all[j]),
            decreases chain.len() - i,
        {
            let cause: &str = chain[i].as_str();
            assert(cause@ == all[i as int]);
            if Self::tells_not_started(cause) {
                assert(says_not_started(all[i as int]));
                return SIDE_NO_STARTED_CONVERSATION_MESSAGE.to_owned();
            }
            i = i + 1;
        }
        text_plus("Failed to start side conversation: ", text)
    }
}

} // verus!
