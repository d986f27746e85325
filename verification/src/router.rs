//! The message router: what is done with one inbound update.
//!
//! A voice message is located, downloaded and transcribed, and then handled as
//! the text that was heard. A text message that is the restart command ends
//! the chat's session: its thread is deleted and its mapping cleared, and
//! nothing is sent back. Any other text is answered by a run of the assistant,
//! after the chat's session was looked up and, for a chat without one, a
//! thread was created and stored. Every other update is ignored.
//!
//! The router is a state machine like the run that it contains: the driver
//! performs each action and hands the outcome to [`RouterState::step`], until
//! the action is `Finish`.
use vstd::prelude::*;
use vstd::string::StringExecFns;
use crate::run::{
    begin, run_begin, run_next, RunAction, RunActionView, RunError, RunEvent, RunEventView,
    RunState, RunStateView,
};
use crate::session::{Lookup, LookupView};
use crate::voice::{voice_file_name, voice_file_text, voice_url, voice_url_text};

verus! {

/// What the router is set up with once, when the process starts.
#[derive(Clone, Debug, PartialEq, Eq)]
pub struct Config {
    /// The bot's token on the chat platform.
    pub telegram_token: String,
    /// The assistant that answers.
    pub assistant_id: String,
}

/// A configuration as contracts see it.
pub struct ConfigView {
    pub telegram_token: Seq<char>,
    pub assistant_id: Seq<char>,
}

impl View for Config {
    type V = ConfigView;

    open spec fn view(&self) -> ConfigView {
        ConfigView { telegram_token: self.telegram_token@, assistant_id: self.assistant_id@ }
    }
}

/// What the router reads of a chat message.
#[derive(Clone, Debug, PartialEq, Eq)]
pub struct InboundMessage {
    /// The chat that the message came from.
    pub chat_id: i64,
    /// The file identifier of the voice recording, if the message is one.
    pub voice_file_id: Option<String>,
    /// The text, if the message is a text message.
    pub text: Option<String>,
}

/// An inbound update of the chat platform.
#[derive(Clone, Debug, PartialEq, Eq)]
pub enum Update {
    /// A chat message.
    Message(InboundMessage),
    /// Anything else: an edit, a callback, a membership change.
    Other,
}

/// A chat message as contracts see it.
pub struct InboundView {
    pub chat_id: i64,
    pub voice_file_id: Option<Seq<char>>,
    pub text: Option<Seq<char>>,
}

/// An update as contracts see it.
pub enum UpdateView {
    Message(InboundView),
    Other,
}

/// An optional string as contracts see it.
pub open spec fn text_view(text: Option<String>) -> Option<Seq<char>> {
    match text {
        Some(t) => Some(t@),
        None => None,
    }
}

impl View for InboundMessage {
    type V = InboundView;

    open spec fn view(&self) -> InboundView {
        InboundView {
            chat_id: self.chat_id,
            voice_file_id: text_view(self.voice_file_id),
            text: text_view(self.text),
        }
    }
}

impl View for Update {
    type V = UpdateView;

    open spec fn view(&self) -> UpdateView {
        match *self {
            Update::Message(message) => UpdateView::Message(message@),
            Update::Other => UpdateView::Other,
        }
    }
}

/// Why an update was given up.
#[derive(Clone, Copy, Debug, PartialEq, Eq, Structural)]
pub enum RouterError {
    /// The assistant service did not create a thread for the new session.
    CreateThread,
    /// The session store holds a value for the chat that is no thread
    /// identifier.
    InvalidSession,
    /// The run of the assistant ended without a reply.
    Run(RunError),
    /// The event does not answer the action that was pending.
    UnexpectedEvent,
}

/// How the handling of an update ended.
#[derive(Clone, Copy, Debug, PartialEq, Eq, Structural)]
pub enum Outcome {
    /// The assistant's reply was sent to the chat.
    Replied,
    /// The chat's session was ended on its command. Nothing was sent.
    Restarted,
    /// A voice message could not be fetched or transcribed. Nothing was sent.
    Skipped,
    /// The update was none that the router handles.
    Ignored,
    /// The update was given up. Nothing was sent.
    Failed(RouterError),
}

/// What the driver reports back after it performed an action.
#[derive(Clone, Debug, PartialEq, Eq)]
pub enum RouterEvent {
    /// An update arrived. This is the first event of every exchange.
    Update(Update),
    /// The platform's path of the voice file, or `None` if the platform did
    /// not give one.
    VoiceLocated(Option<String>),
    /// Whether the voice file was downloaded and written.
    VoiceDownloaded(bool),
    /// The text that was heard, or `None` if the transcription failed.
    Transcribed(Option<String>),
    /// What the session store holds for the chat.
    Session(Lookup),
    /// The identifier of the thread that was created, or `None` if the
    /// service did not create one.
    ThreadCreated(Option<String>),
    /// The pending action was carried out and has nothing to report. A thread
    /// deletion that failed is reported like one that worked.
    Done,
    /// The answer to the pending action of the assistant's run.
    Assistant(RunEvent),
}

/// What the driver is to do next.
#[derive(Clone, Debug, PartialEq, Eq)]
pub enum RouterAction {
    /// Ask the platform where the voice file is; answer with `VoiceLocated`.
    LocateVoice { file_id: String },
    /// Download `url` into the local file `file_name`; answer with
    /// `VoiceDownloaded`.
    DownloadVoice { url: String, file_name: String },
    /// Transcribe the local file; answer with `Transcribed`.
    Transcribe { file_name: String },
    /// Look the chat up in the session store; answer with `Session`.
    LookupSession { chat_id: i64 },
    /// Delete the thread, and go on whether or not that worked; answer with
    /// `Done`.
    DeleteThread { thread_id: String },
    /// Remove the chat's mapping from the session store; answer with `Done`.
    ClearSession { chat_id: i64 },
    /// Create a thread for a new session; answer with `ThreadCreated`.
    CreateThread,
    /// Store the chat's mapping to the thread; answer with `Done`.
    StoreSession { chat_id: i64, thread_id: String },
    /// Perform the action of the assistant's run; answer with `Assistant`.
    Assistant(RunAction),
    /// Send the text to the chat, and go on whether or not that worked;
    /// answer with `Done`.
    SendMessage { chat_id: i64, text: String },
    /// The update is dealt with.
    Finish(Outcome),
}

/// Where the handling of an update stands.
#[derive(Clone, Debug, PartialEq, Eq)]
pub enum RouterState {
    /// No update has arrived yet.
    Idle,
    /// The platform was asked where the voice file is.
    LocatingVoice { chat_id: i64, file_id: String },
    /// The voice file is being downloaded into `file_name`.
    DownloadingVoice { chat_id: i64, file_name: String },
    /// The voice file is being transcribed.
    Transcribing { chat_id: i64 },
    /// The session store was asked for the chat's thread.
    ResolvingSession { chat_id: i64, text: String },
    /// The thread of the session that ends is being deleted.
    DeletingThread { chat_id: i64 },
    /// The mapping of the session that ends is being cleared.
    ClearingSession,
    /// A thread for a new session was asked for.
    CreatingThread { chat_id: i64, text: String },
    /// The mapping of the new session is being stored.
    StoringSession { chat_id: i64, text: String, thread_id: String },
    /// The assistant runs on the text.
    Running { chat_id: i64, run: RunState },
    /// The reply is being sent.
    Sending,
    /// The update is dealt with.
    Done,
}

/// An event as contracts see it.
pub enum RouterEventView {
    Update(UpdateView),
    VoiceLocated(Option<Seq<char>>),
    VoiceDownloaded(bool),
    Transcribed(Option<Seq<char>>),
    Session(LookupView),
    ThreadCreated(Option<Seq<char>>),
    Done,
    Assistant(RunEventView),
}

/// An action as contracts see it.
pub enum RouterActionView {
    LocateVoice { file_id: Seq<char> },
    DownloadVoice { url: Seq<char>, file_name: Seq<char> },
    Transcribe { file_name: Seq<char> },
    LookupSession { chat_id: i64 },
    DeleteThread { thread_id: Seq<char> },
    ClearSession { chat_id: i64 },
    CreateThread,
    StoreSession { chat_id: i64, thread_id: Seq<char> },
    Assistant(RunActionView),
    SendMessage { chat_id: i64, text: Seq<char> },
    Finish(Outcome),
}

/// A state as contracts see it.
pub enum RouterStateView {
    Idle,
    LocatingVoice { chat_id: i64, file_id: Seq<char> },
    DownloadingVoice { chat_id: i64, file_name: Seq<char> },
    Transcribing { chat_id: i64 },
    ResolvingSession { chat_id: i64, text: Seq<char> },
    DeletingThread { chat_id: i64 },
    ClearingSession,
    CreatingThread { chat_id: i64, text: Seq<char> },
    StoringSession { chat_id: i64, text: Seq<char>, thread_id: Seq<char> },
    Running { chat_id: i64, run: RunStateView },
    Sending,
    Done,
}

impl View for RouterEvent {
    type V = RouterEventView;

    open spec fn view(&self) -> RouterEventView {
        match *self {
            RouterEvent::Update(update) => RouterEventView::Update(update@),
            RouterEvent::VoiceLocated(path) => RouterEventView::VoiceLocated(text_view(path)),
            RouterEvent::VoiceDownloaded(written) => RouterEventView::VoiceDownloaded(written),
            RouterEvent::Transcribed(text) => RouterEventView::Transcribed(text_view(text)),
            RouterEvent::Session(lookup) => RouterEventView::Session(lookup@),
            RouterEvent::ThreadCreated(id) => RouterEventView::ThreadCreated(text_view(id)),
            RouterEvent::Done => RouterEventView::Done,
            RouterEvent::Assistant(event) => RouterEventView::Assistant(event@),
        }
    }
}

impl View for RouterAction {
    type V = RouterActionView;

    open spec fn view(&self) -> RouterActionView {
        match *self {
            RouterAction::LocateVoice { file_id } => RouterActionView::LocateVoice {
                file_id: file_id@,
            },
            RouterAction::DownloadVoice { url, file_name } => RouterActionView::DownloadVoice {
                url: url@,
                file_name: file_name@,
            },
            RouterAction::Transcribe { file_name } => RouterActionView::Transcribe {
                file_name: file_name@,
            },
            RouterAction::LookupSession { chat_id } => RouterActionView::LookupSession { chat_id },
            RouterAction::DeleteThread { thread_id } => RouterActionView::DeleteThread {
                thread_id: thread_id@,
            },
            RouterAction::ClearSession { chat_id } => RouterActionView::ClearSession { chat_id },
            RouterAction::CreateThread => RouterActionView::CreateThread,
            RouterAction::StoreSession { chat_id, thread_id } => RouterActionView::StoreSession {
                chat_id,
                thread_id: thread_id@,
            },
            RouterAction::Assistant(action) => RouterActionView::Assistant(action@),
            RouterAction::SendMessage { chat_id, text } => RouterActionView::SendMessage {
                chat_id,
                text: text@,
            },
            RouterAction::Finish(outcome) => RouterActionView::Finish(outcome),
        }
    }
}

impl View for RouterState {
    type V = RouterStateView;

    open spec fn view(&self) -> RouterStateView {
        match *self {
            RouterState::Idle => RouterStateView::Idle,
            RouterState::LocatingVoice { chat_id, file_id } => RouterStateView::LocatingVoice {
                chat_id,
                file_id: file_id@,
            },
            RouterState::DownloadingVoice { chat_id, file_name } => {
                RouterStateView::DownloadingVoice { chat_id, file_name: file_name@ }
            },
            RouterState::Transcribing { chat_id } => RouterStateView::Transcribing { chat_id },
            RouterState::ResolvingSession { chat_id, text } => RouterStateView::ResolvingSession {
                chat_id,
                text: text@,
            },
            RouterState::DeletingThread { chat_id } => RouterStateView::DeletingThread { chat_id },
            RouterState::ClearingSession => RouterStateView::ClearingSession,
            RouterState::CreatingThread { chat_id, text } => RouterStateView::CreatingThread {
                chat_id,
                text: text@,
            },
            RouterState::StoringSession { chat_id, text, thread_id } => {
                RouterStateView::StoringSession { chat_id, text: text@, thread_id: thread_id@ }
            },
            RouterState::Running { chat_id, run } => RouterStateView::Running {
                chat_id,
                run: run@,
            },
            RouterState::Sending => RouterStateView::Sending,
            RouterState::Done => RouterStateView::Done,
        }
    }
}

impl RouterStateView {
    /// A state that an exchange can be in: while the assistant runs, its run
    /// is in a state of its own that it can be in, and is not over.
    pub open spec fn well_formed(self) -> bool {
        self matches RouterStateView::Running { run, .. } ==> run.well_formed() && !(run
            is Finished)
    }
}

/// The text that ends a chat's session.
pub open spec fn restart_command() -> Seq<char> {
    "/restart"@
}

/// The end of an exchange with the given outcome.
pub open spec fn finish(outcome: Outcome) -> (RouterStateView, RouterActionView) {
    (RouterStateView::Done, RouterActionView::Finish(outcome))
}

/// The end of an exchange on an event that answers no pending action.
pub open spec fn unexpected() -> (RouterStateView, RouterActionView) {
    finish(Outcome::Failed(RouterError::UnexpectedEvent))
}

/// What a text leads to, typed or heard: the chat's session is looked up.
pub open spec fn on_text(chat_id: i64, text: Seq<char>) -> (RouterStateView, RouterActionView) {
    (
        RouterStateView::ResolvingSession { chat_id, text },
        RouterActionView::LookupSession { chat_id },
    )
}

/// What an update leads to. A message with a voice recording is located, a
/// message with text is handled as that text, and a recording goes first where
/// a message has both. Everything else is ignored.
pub open spec fn on_update(update: UpdateView) -> (RouterStateView, RouterActionView) {
    match update {
        UpdateView::Message(message) => match (message.voice_file_id, message.text) {
            (Some(file_id), _) => (
                RouterStateView::LocatingVoice { chat_id: message.chat_id, file_id },
                RouterActionView::LocateVoice { file_id },
            ),
            (None, Some(text)) => on_text(message.chat_id, text),
            (None, None) => finish(Outcome::Ignored),
        },
        UpdateView::Other => finish(Outcome::Ignored),
    }
}

/// The start of the assistant's run on a text.
pub open spec fn start_run(config: ConfigView, chat_id: i64, text: Seq<char>) -> (
    RouterStateView,
    RouterActionView,
) {
    let (run, action) = run_begin(config.assistant_id, text);
    (RouterStateView::Running { chat_id, run }, RouterActionView::Assistant(action))
}

/// What the answer of the session store leads to.
///
/// For the restart command: a session has its thread deleted; without a
/// session there is nothing to end. For any other text: a session has the
/// assistant run; without one a thread is created first. A value in the store
/// that is no thread identifier ends the exchange, and nothing replaces it.
pub open spec fn on_lookup(config: ConfigView, chat_id: i64, text: Seq<char>, lookup: LookupView) -> (
    RouterStateView,
    RouterActionView,
) {
    match lookup {
        LookupView::Invalid => finish(Outcome::Failed(RouterError::InvalidSession)),
        LookupView::Thread(thread_id) => if text == restart_command() {
            (
                RouterStateView::DeletingThread { chat_id },
                RouterActionView::DeleteThread { thread_id },
            )
        } else {
            start_run(config, chat_id, text)
        },
        LookupView::Absent => if text == restart_command() {
            finish(Outcome::Restarted)
        } else {
            (RouterStateView::CreatingThread { chat_id, text }, RouterActionView::CreateThread)
        },
    }
}

/// What a step of the assistant's run leads to: its reply is sent to the chat,
/// its failure ends the exchange, and any other action is passed on.
pub open spec fn on_run_step(chat_id: i64, run: RunStateView, action: RunActionView) -> (
    RouterStateView,
    RouterActionView,
) {
    match action {
        RunActionView::Reply(text) => (
            RouterStateView::Sending,
            RouterActionView::SendMessage { chat_id, text },
        ),
        RunActionView::Abort(error) => finish(Outcome::Failed(RouterError::Run(error))),
        _ => (RouterStateView::Running { chat_id, run }, RouterActionView::Assistant(action)),
    }
}

/// The transition function of the router.
///
/// The event that answers the pending action moves the exchange on. Any other
/// event ends it with `UnexpectedEvent`, and so does every event after the
/// exchange is over.
pub open spec fn router_next(config: ConfigView, state: RouterStateView, event: RouterEventView) -> (
    RouterStateView,
    RouterActionView,
) {
    match (state, event) {
        (RouterStateView::Idle, RouterEventView::Update(update)) => on_update(update),
        (
            RouterStateView::LocatingVoice { chat_id, file_id },
            RouterEventView::VoiceLocated(located),
        ) => match located {
            Some(file_path) => (
                RouterStateView::DownloadingVoice { chat_id, file_name: voice_file_text(file_id) },
                RouterActionView::DownloadVoice {
                    url: voice_url_text(config.telegram_token, file_path),
                    file_name: voice_file_text(file_id),
                },
            ),
            None => finish(Outcome::Skipped),
        },
        (
            RouterStateView::DownloadingVoice { chat_id, file_name },
            RouterEventView::VoiceDownloaded(written),
        ) => if written {
            (RouterStateView::Transcribing { chat_id }, RouterActionView::Transcribe { file_name })
        } else {
            finish(Outcome::Skipped)
        },
        (RouterStateView::Transcribing { chat_id }, RouterEventView::Transcribed(heard)) => match heard {
            Some(text) => on_text(chat_id, text),
            None => finish(Outcome::Skipped),
        },
        (RouterStateView::ResolvingSession { chat_id, text }, RouterEventView::Session(lookup)) => {
            on_lookup(config, chat_id, text, lookup)
        },
        (RouterStateView::DeletingThread { chat_id }, RouterEventView::Done) => (
            RouterStateView::ClearingSession,
            RouterActionView::ClearSession { chat_id },
        ),
        (RouterStateView::ClearingSession, RouterEventView::Done) => finish(Outcome::Restarted),
        (
            RouterStateView::CreatingThread { chat_id, text },
            RouterEventView::ThreadCreated(created),
        ) => match created {
            Some(thread_id) => (
                RouterStateView::StoringSession { chat_id, text, thread_id },
                RouterActionView::StoreSession { chat_id, thread_id },
            ),
            None => finish(Outcome::Failed(RouterError::CreateThread)),
        },
        (RouterStateView::StoringSession { chat_id, text, thread_id }, RouterEventView::Done) => {
            start_run(config, chat_id, text)
        },
        (RouterStateView::Running { chat_id, run }, RouterEventView::Assistant(run_event)) => {
            let (next, action) = run_next(run, run_event);
            on_run_step(chat_id, next, action)
        },
        (RouterStateView::Sending, RouterEventView::Done) => finish(Outcome::Replied),
        _ => unexpected(),
    }
}

/// Whether a text is the restart command.
pub fn is_restart(text: &String) -> (restart: bool)
    ensures
        restart == (text@ == restart_command()),
{
    let command = String::from_str("/restart");
    *text == command
}

/// Ends the exchange with the given outcome.
fn finished(outcome: Outcome) -> (out: (RouterState, RouterAction))
    ensures
        out.0@ == finish(outcome).0,
        out.1@ == finish(outcome).1,
{
    (RouterState::Done, RouterAction::Finish(outcome))
}

/// Handles a text, typed or heard.
fn handle_text(chat_id: i64, text: String) -> (out: (RouterState, RouterAction))
    ensures
        out.0@ == on_text(chat_id, text@).0,
        out.1@ == on_text(chat_id, text@).1,
{
    (RouterState::ResolvingSession { chat_id, text }, RouterAction::LookupSession { chat_id })
}

/// Handles an update.
fn handle_update(update: Update) -> (out: (RouterState, RouterAction))
    ensures
        out.0@ == on_update(update@).0,
        out.1@ == on_update(update@).1,
{
    match update {
        Update::Message(message) => {
            let InboundMessage { chat_id, voice_file_id, text } = message;
            match voice_file_id {
                Some(file_id) => {
                    let action = RouterAction::LocateVoice { file_id: file_id.clone() };
                    (RouterState::LocatingVoice { chat_id, file_id }, action)
                },
                None => match text {
                    Some(text) => handle_text(chat_id, text),
                    None => finished(Outcome::Ignored),
                },
            }
        },
        Update::Other => finished(Outcome::Ignored),
    }
}

/// Starts the assistant's run on a text. `session_thread` is the thread of the
/// chat's session.
fn start(config: &Config, chat_id: i64, session_thread: &str, text: String) -> (out: (
    RouterState,
    RouterAction,
))
    ensures
        out.0@ == start_run(config@, chat_id, text@).0,
        out.1@ == start_run(config@, chat_id, text@).1,
        out.0@.well_formed(),
{
    let (run, action) = begin(config.assistant_id.clone(), session_thread, text);
    (RouterState::Running { chat_id, run }, RouterAction::Assistant(action))
}

/// Handles the answer of the session store.
fn handle_lookup(config: &Config, chat_id: i64, text: String, lookup: Lookup) -> (out: (
    RouterState,
    RouterAction,
))
    ensures
        out.0@ == on_lookup(config@, chat_id, text@, lookup@).0,
        out.1@ == on_lookup(config@, chat_id, text@, lookup@).1,
        out.0@.well_formed(),
{
    let restart = is_restart(&text);
    match lookup {
        Lookup::Invalid => finished(Outcome::Failed(RouterError::InvalidSession)),
        Lookup::Thread(thread_id) => {
            if restart {
                (RouterState::DeletingThread { chat_id }, RouterAction::DeleteThread { thread_id })
            } else {
                start(config, chat_id, thread_id.as_str(), text)
            }
        },
        Lookup::Absent => {
            if restart {
                finished(Outcome::Restarted)
            } else {
                (RouterState::CreatingThread { chat_id, text }, RouterAction::CreateThread)
            }
        },
    }
}

/// Handles a step of the assistant's run.
fn handle_run_step(chat_id: i64, run: RunState, action: RunAction) -> (out: (
    RouterState,
    RouterAction,
))
    requires
        run@.well_formed(),
        action@.is_final() <==> run@ is Finished,
    ensures
        out.0@ == on_run_step(chat_id, run@, action@).0,
        out.1@ == on_run_step(chat_id, run@, action@).1,
        out.0@.well_formed(),
{
    match action {
        RunAction::Reply(text) => (RouterState::Sending, RouterAction::SendMessage { chat_id, text }),
        RunAction::Abort(error) => finished(Outcome::Failed(RouterError::Run(error))),
        other => (RouterState::Running { chat_id, run }, RouterAction::Assistant(other)),
    }
}

impl RouterState {
    /// The state in which an update is awaited.
    pub fn new() -> (state: RouterState)
        ensures
            state@ is Idle,
            state@.well_formed(),
    {
        RouterState::Idle
    }

    /// Whether the update is dealt with.
    pub fn is_done(&self) -> (done: bool)
        ensures
            done == (self@ is Done),
    {
        match self {
            RouterState::Done => true,
            _ => false,
        }
    }

    /// Takes the answer to the pending action and gives the next state and
    /// action.
    pub fn step(self, config: &Config, event: RouterEvent) -> (out: (RouterState, RouterAction))
        ensures
            out.0@ == router_next(config@, self@, event@).0,
            out.1@ == router_next(config@, self@, event@).1,
            out.0@.well_formed(),
    {
        match self {
            RouterState::Idle => match event {
                RouterEvent::Update(update) => handle_update(update),
                _ => finished(Outcome::Failed(RouterError::UnexpectedEvent)),
            },
            RouterState::LocatingVoice { chat_id, file_id } => match event {
                RouterEvent::VoiceLocated(Some(file_path)) => {
                    let file_name = voice_file_name(file_id.as_str());
                    let action = RouterAction::DownloadVoice {
                        url: voice_url(config.telegram_token.as_str(), file_path.as_str()),
                        file_name: file_name.clone(),
                    };
                    (RouterState::DownloadingVoice { chat_id, file_name }, action)
                },
                RouterEvent::VoiceLocated(None) => finished(Outcome::Skipped),
                _ => finished(Outcome::Failed(RouterError::UnexpectedEvent)),
            },
            RouterState::DownloadingVoice { chat_id, file_name } => match event {
                RouterEvent::VoiceDownloaded(true) => (
                    RouterState::Transcribing { chat_id },
                    RouterAction::Transcribe { file_name },
                ),
                RouterEvent::VoiceDownloaded(false) => finished(Outcome::Skipped),
                _ => finished(Outcome::Failed(RouterError::UnexpectedEvent)),
            },
            RouterState::Transcribing { chat_id } => match event {
                RouterEvent::Transcribed(Some(text)) => handle_text(chat_id, text),
                RouterEvent::Transcribed(None) => finished(Outcome::Skipped),
                _ => finished(Outcome::Failed(RouterError::UnexpectedEvent)),
            },
            RouterState::ResolvingSession { chat_id, text } => match event {
                RouterEvent::Session(lookup) => handle_lookup(config, chat_id, text, lookup),
                _ => finished(Outcome::Failed(RouterError::UnexpectedEvent)),
            },
            RouterState::DeletingThread { chat_id } => match event {
                RouterEvent::Done => (
                    RouterState::ClearingSession,
                    RouterAction::ClearSession { chat_id },
                ),
                _ => finished(Outcome::Failed(RouterError::UnexpectedEvent)),
            },
            RouterState::ClearingSession => match event {
                RouterEvent::Done => finished(Outcome::Restarted),
                _ => finished(Outcome::Failed(RouterError::UnexpectedEvent)),
            },
            RouterState::CreatingThread { chat_id, text } => match event {
                RouterEvent::ThreadCreated(Some(thread_id)) => {
                    let action = RouterAction::StoreSession {
                        chat_id,
                        thread_id: thread_id.clone(),
                    };
                    (RouterState::StoringSession { chat_id, text, thread_id }, action)
                },
                RouterEvent::ThreadCreated(None) => finished(
                    Outcome::Failed(RouterError::CreateThread),
                ),
                _ => finished(Outcome::Failed(RouterError::UnexpectedEvent)),
            },
            RouterState::StoringSession { chat_id, text, thread_id } => match event {
                RouterEvent::Done => start(config, chat_id, thread_id.as_str(), text),
                _ => finished(Outcome::Failed(RouterError::UnexpectedEvent)),
            },
            RouterState::Running { chat_id, run } => match event {
                RouterEvent::Assistant(run_event) => {
                    let (next, action) = run.step(run_event);
                    handle_run_step(chat_id, next, action)
                },
                _ => finished(Outcome::Failed(RouterError::UnexpectedEvent)),
            },
            RouterState::Sending => match event {
                RouterEvent::Done => finished(Outcome::Replied),
                _ => finished(Outcome::Failed(RouterError::UnexpectedEvent)),
            },
            RouterState::Done => finished(Outcome::Failed(RouterError::UnexpectedEvent)),
        }
    }
}

} // verus!
