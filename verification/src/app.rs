//! The state that side conversations live in.

use std::collections::{HashMap, HashSet};
use vstd::prelude::*;
use crate::ids::{StartRequestId, ThreadId};
use crate::status::SideThreadState;

verus! {

/// A message that the user typed, carried as it is.
#[derive(Debug)]
pub struct UserMessage {
    pub text: String,
    /// What goes along with the text, each by its path or address.
    pub attachments: Vec<String>,
}

/// A side conversation that was asked for and is being prepared.
#[derive(Debug)]
pub struct PendingSideStart {
    pub request_id: StartRequestId,
    pub side_state: SideThreadState,
    /// What the user wants to ask first.
    pub user_message: Option<UserMessage>,
}

/// The session of a thread.
#[derive(Debug)]
pub struct ThreadSessionState {
    pub thread_id: ThreadId,
    /// The thread whose history this one shows as its own.
    pub forked_from_id: Option<ThreadId>,
    /// The rest of the session, carried as it is.
    pub details: String,
}

/// A turn of a thread, carried as it is.
#[derive(Debug)]
pub struct Turn {
    pub id: String,
    pub details: String,
}

/// What is kept of a thread while another is on the screen.
#[derive(Debug)]
pub struct ThreadEventStore {
    pub session: Option<ThreadSessionState>,
    /// The turns that the thread shows when it is displayed.
    pub turns: Vec<Turn>,
}

/// Model of [`ThreadEventStore`].
#[verifier::ext_equal]
pub ghost struct StoreModel {
    pub session: Option<ThreadSessionState>,
    pub turns: Seq<Turn>,
}

impl View for ThreadEventStore {
    type V = StoreModel;

    open spec fn view(&self) -> StoreModel {
        StoreModel { session: self.session, turns: self.turns@ }
    }
}

impl ThreadEventStore {
    /// A store without a session.
    pub fn new() -> (r: Self)
        ensures
            r@ == (StoreModel { session: None, turns: Seq::empty() }),
    {
        Self { session: None, turns: Vec::new() }
    }

    /// Replaces the session and the turns.
    pub fn set_session(&mut self, session: ThreadSessionState, turns: Vec<Turn>)
        ensures
            final(self)@ == (StoreModel { session: Some(session), turns: turns@ }),
    {
        self.session = Some(session);
        self.turns = turns;
    }
}

/// An entry of the agent picker.
#[derive(Debug)]
pub struct AgentPickerEntry {
    pub agent_nickname: Option<String>,
    pub agent_role: Option<String>,
    pub is_closed: bool,
}

/// How a turn that was interrupted is announced.
#[derive(Clone, Copy, Debug, PartialEq, Eq, Structural)]
pub enum InterruptedTurnNoticeMode {
    Default,
    Suppress,
}

/// The configuration that a session runs under.
#[derive(Debug)]
pub struct Config {
    pub model: Option<String>,
    pub model_reasoning_effort: Option<String>,
    pub service_tier: Option<String>,
    pub ephemeral: bool,
    pub developer_instructions: Option<String>,
    /// The rest of the configuration, carried as it is.
    pub details: String,
}

/// Model of [`Config`].
pub ghost struct ConfigModel {
    pub model: Option<Seq<char>>,
    pub model_reasoning_effort: Option<Seq<char>>,
    pub service_tier: Option<Seq<char>>,
    pub ephemeral: bool,
    pub developer_instructions: Option<Seq<char>>,
    pub details: Seq<char>,
}

impl View for Config {
    type V = ConfigModel;

    open spec fn view(&self) -> ConfigModel {
        ConfigModel {
            model: crate::text::opt_text(self.model),
            model_reasoning_effort: crate::text::opt_text(self.model_reasoning_effort),
            service_tier: crate::text::opt_text(self.service_tier),
            ephemeral: self.ephemeral,
            developer_instructions: crate::text::opt_text(self.developer_instructions),
            details: self.details@,
        }
    }
}

/// What the chat runs with at present. It may differ from what the configuration says.
#[derive(Debug)]
pub struct ChatSettings {
    pub config: Config,
    pub current_model: String,
    pub current_reasoning_effort: Option<String>,
    pub configured_service_tier: Option<String>,
}

/// What the screen shows of side conversations.
#[derive(Debug)]
pub struct SideUi {
    pub context_label: Option<String>,
    pub side_conversation_active: bool,
    /// Why the thread on the screen cannot be renamed.
    pub thread_rename_block: Option<String>,
    pub interrupted_turn_notice_mode: InterruptedTurnNoticeMode,
}

/// Model of [`SideUi`].
#[verifier::ext_equal]
pub ghost struct SideUiModel {
    pub context_label: Option<Seq<char>>,
    pub side_conversation_active: bool,
    pub thread_rename_block: Option<Seq<char>>,
    pub interrupted_turn_notice_mode: InterruptedTurnNoticeMode,
}

impl View for SideUi {
    type V = SideUiModel;

    open spec fn view(&self) -> SideUiModel {
        SideUiModel {
            context_label: crate::text::opt_text(self.context_label),
            side_conversation_active: self.side_conversation_active,
            thread_rename_block: crate::text::opt_text(self.thread_rename_block),
            interrupted_turn_notice_mode: self.interrupted_turn_notice_mode,
        }
    }
}

/// Work that a decision leaves to whoever drives the state, in the order in which it is due.
#[derive(Debug)]
pub enum Effect {
    /// Add an error message to the chat.
    ShowError(String),
    /// Put a message back into the composer on the screen.
    RestoreToComposer(UserMessage),
    /// Put a message back into the saved input of a thread that is not on the screen.
    RestoreToThread(ThreadId, UserMessage),
    /// Submit a message as a plain user turn of the thread on the screen.
    SubmitUserTurn(UserMessage),
    /// Stop listening to the events of a thread.
    AbortEventListener(ThreadId),
    /// Finish letting go of the thread that was active.
    ClearActiveThread,
    /// Look again for approvals that wait in threads that are not on the screen.
    RefreshPendingApprovals,
    /// Show again which agent is active.
    SyncActiveAgentLabel,
    /// Interrupt a side thread and unsubscribe from it.
    StartSideCleanup(ThreadId),
    /// Bring up the requests that wait in threads that are not on the screen.
    SurfacePendingRequests,
}

/// Model of [`Effect`].
pub ghost enum EffectModel {
    ShowError(Seq<char>),
    RestoreToComposer(UserMessage),
    RestoreToThread(ThreadId, UserMessage),
    SubmitUserTurn(UserMessage),
    AbortEventListener(ThreadId),
    ClearActiveThread,
    RefreshPendingApprovals,
    SyncActiveAgentLabel,
    StartSideCleanup(ThreadId),
    SurfacePendingRequests,
}

impl View for Effect {
    type V = EffectModel;

    open spec fn view(&self) -> EffectModel {
        match *self {
            Effect::ShowError(message) => EffectModel::ShowError(message@),
            Effect::RestoreToComposer(message) => EffectModel::RestoreToComposer(message),
            Effect::RestoreToThread(id, message) => EffectModel::RestoreToThread(id, message),
            Effect::SubmitUserTurn(message) => EffectModel::SubmitUserTurn(message),
            Effect::AbortEventListener(id) => EffectModel::AbortEventListener(id),
            Effect::ClearActiveThread => EffectModel::ClearActiveThread,
            Effect::RefreshPendingApprovals => EffectModel::RefreshPendingApprovals,
            Effect::SyncActiveAgentLabel => EffectModel::SyncActiveAgentLabel,
            Effect::StartSideCleanup(id) => EffectModel::StartSideCleanup(id),
            Effect::SurfacePendingRequests => EffectModel::SurfacePendingRequests,
        }
    }
}

/// Everything that decisions about side conversations read and change.
#[derive(Debug)]
pub struct App {
    /// The main thread, once there is one.
    pub primary_thread_id: Option<ThreadId>,
    /// The thread whose events go to the screen.
    pub active_thread_id: Option<ThreadId>,
    /// The thread that the screen shows.
    pub displayed_thread_id: Option<ThreadId>,
    /// The side conversations that are open.
    pub side_threads: HashMap<ThreadId, SideThreadState>,
    /// The side conversation that is being prepared.
    pub pending_side_start: Option<PendingSideStart>,
    /// Threads announced by the server that a preparation will turn out to have made.
    pub pending_side_threads: HashSet<ThreadId>,
    /// Preparations that were given up and have not answered yet, with the parent of each.
    pub canceled_side_start_parents: HashMap<StartRequestId, ThreadId>,
    /// Side threads that are being closed, with what to put back should that fail.
    pub side_cleanup_recovery: HashMap<ThreadId, Option<SideThreadState>>,
    /// Side threads whose events are to be ignored from now on.
    pub abandoned_side_threads: HashSet<ThreadId>,
    /// What is kept of each thread.
    pub thread_event_channels: HashMap<ThreadId, ThreadEventStore>,
    /// The threads that the agent picker lists.
    pub agent_navigation: HashMap<ThreadId, AgentPickerEntry>,
    /// The threads that have a name of their own.
    pub thread_labels: HashMap<ThreadId, String>,
    /// How the key that toggles the side conversation is shown, if one is bound.
    pub toggle_side_hint: Option<String>,
    /// Something covers the whole screen.
    pub overlay_open: bool,
    /// A modal or a popup is open.
    pub modal_or_popup_active: bool,
    /// Nothing stands in the composer.
    pub composer_is_empty: bool,
    pub chat_settings: ChatSettings,
    pub side_ui: SideUi,
    /// Work that is due, oldest first.
    pub outbox: Vec<Effect>,
}

/// Model of [`App`].
#[verifier::ext_equal]
pub ghost struct AppModel {
    pub primary_thread_id: Option<ThreadId>,
    pub active_thread_id: Option<ThreadId>,
    pub displayed_thread_id: Option<ThreadId>,
    pub side_threads: Map<ThreadId, SideThreadState>,
    pub pending_side_start: Option<PendingSideStart>,
    pub pending_side_threads: Set<ThreadId>,
    pub canceled_side_start_parents: Map<StartRequestId, ThreadId>,
    pub side_cleanup_recovery: Map<ThreadId, Option<SideThreadState>>,
    pub abandoned_side_threads: Set<ThreadId>,
    pub thread_event_channels: Map<ThreadId, StoreModel>,
    pub agent_navigation: Map<ThreadId, AgentPickerEntry>,
    pub thread_labels: Map<ThreadId, Seq<char>>,
    pub toggle_side_hint: Option<Seq<char>>,
    pub overlay_open: bool,
    pub modal_or_popup_active: bool,
    pub composer_is_empty: bool,
    pub chat_settings: ChatSettings,
    pub side_ui: SideUiModel,
    pub outbox: Seq<EffectModel>,
}

impl View for App {
    type V = AppModel;

    open spec fn view(&self) -> AppModel {
        AppModel {
            primary_thread_id: self.primary_thread_id,
            active_thread_id: self.active_thread_id,
            displayed_thread_id: self.displayed_thread_id,
            side_threads: self.side_threads@,
            pending_side_start: self.pending_side_start,
            pending_side_threads: self.pending_side_threads@,
            canceled_side_start_parents: self.canceled_side_start_parents@,
            side_cleanup_recovery: self.side_cleanup_recovery@,
            abandoned_side_threads: self.abandoned_side_threads@,
            thread_event_channels: self.thread_event_channels@.map_values(
                |store: ThreadEventStore| store@,
            ),
            agent_navigation: self.agent_navigation@,
            thread_labels: self.thread_labels@.map_values(|label: String| label@),
            toggle_side_hint: crate::text::opt_text(self.toggle_side_hint),
            overlay_open: self.overlay_open,
            modal_or_popup_active: self.modal_or_popup_active,
            composer_is_empty: self.composer_is_empty,
            chat_settings: self.chat_settings,
            side_ui: self.side_ui@,
            outbox: self.outbox@.map_values(|effect: Effect| effect@),
        }
    }
}

impl AppModel {
    /// The state with one more piece of work due.
    pub open spec fn emitted(self, effect: EffectModel) -> AppModel {
        AppModel { outbox: self.outbox.push(effect), ..self }
    }

    /// The state with an error message due.
    pub open spec fn failed(self, message: Seq<char>) -> AppModel {
        self.emitted(EffectModel::ShowError(message))
    }

    /// No thread, no side conversation and no work due.
    pub open spec fn initial(settings: ChatSettings) -> AppModel {
        AppModel {
            primary_thread_id: None,
            active_thread_id: None,
            displayed_thread_id: None,
            side_threads: Map::empty(),
            pending_side_start: None,
            pending_side_threads: Set::empty(),
            canceled_side_start_parents: Map::empty(),
            side_cleanup_recovery: Map::empty(),
            abandoned_side_threads: Set::empty(),
            thread_event_channels: Map::empty(),
            agent_navigation: Map::empty(),
            thread_labels: Map::empty(),
            toggle_side_hint: None,
            overlay_open: false,
            modal_or_popup_active: false,
            composer_is_empty: true,
            chat_settings: settings,
            side_ui: SideUiModel {
                context_label: None,
                side_conversation_active: false,
                thread_rename_block: None,
                interrupted_turn_notice_mode: InterruptedTurnNoticeMode::Default,
            },
            outbox: Seq::empty(),
        }
    }
}

impl App {
    /// The state before any thread exists.
    pub fn new(chat_settings: ChatSettings) -> (r: Self)
        ensures
            r@ == AppModel::initial(chat_settings),
    {
        App {
            primary_thread_id: None,
            active_thread_id: None,
            displayed_thread_id: None,
            side_threads: HashMap::new(),
            pending_side_start: None,
            pending_side_threads: HashSet::new(),
            canceled_side_start_parents: HashMap::new(),
            side_cleanup_recovery: HashMap::new(),
            abandoned_side_threads: HashSet::new(),
            thread_event_channels: HashMap::new(),
            agent_navigation: HashMap::new(),
            thread_labels: HashMap::new(),
            toggle_side_hint: None,
            overlay_open: false,
            modal_or_popup_active: false,
            composer_is_empty: true,
            chat_settings,
            side_ui: SideUi {
                context_label: None,
                side_conversation_active: false,
                thread_rename_block: None,
                interrupted_turn_notice_mode: InterruptedTurnNoticeMode::Default,
            },
            outbox: Vec::new(),
        }
    }

    /// Leaves a piece of work.
    pub(crate) fn emit(&mut self, effect: Effect)
        ensures
            final(self)@ == old(self)@.emitted(effect@),
    {
        self.outbox.push(effect);
    }

    /// Hands out the work that is due.
    pub fn take_effects(&mut self) -> (r: Vec<Effect>)
        ensures
            r@.map_values(|effect: Effect| effect@) == old(self)@.outbox,
            final(self)@ == (AppModel { outbox: Seq::empty(), ..old(self)@ }),
    {
        let mut due: Vec<Effect> = Vec::new();
        std::mem::swap(&mut due, &mut self.outbox);
        due
    }

    /// The thread that the screen shows.
    pub fn current_displayed_thread_id(&self) -> (r: Option<ThreadId>)
        ensures
            r == self@.displayed_thread_id,
    {
        self.displayed_thread_id
    }
}

} // verus!
