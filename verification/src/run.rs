//! One run of the assistant on one message: post the message, start the run,
//! poll its status a bounded number of times, and read the reply.
//!
//! The run is a state machine. [`begin`] gives the first state and action; the
//! driver performs each action against the assistant service and hands the
//! outcome to [`RunState::step`], until the action is a `Reply` or an `Abort`.
//!
//! A run always works on a thread of its own, which it creates first. The
//! thread that a chat session is mapped to takes no part in it, so the
//! assistant sees each message without the ones before it.
use vstd::prelude::*;
use crate::reply::{joined_text, latest_reply, page_view, ContentPartView, Message};
use crate::status::{timeout_message, timeout_text, RunStatus, StatusClass};

verus! {

/// How often a run's status is asked for before the wait is given up.
pub const MAX_POLLS: u8 = 5;

/// The pause before each poll, in seconds.
pub const POLL_INTERVAL_SECS: u64 = 8;

/// How many messages are asked for when the reply is fetched.
pub const FETCH_LIMIT: u32 = 1;

/// Why a run ended without a reply.
#[derive(Clone, Copy, Debug, PartialEq, Eq, Structural)]
pub enum RunError {
    /// The service did not create the thread.
    CreateThread,
    /// The service did not take the message.
    PostMessage,
    /// The service did not start the run.
    StartRun,
    /// The service did not report the run's status.
    RetrieveRun,
    /// The service did not list the thread's messages.
    ListMessages,
    /// The run completed, but the thread's page of messages was empty.
    NoMessage,
    /// The event does not answer the action that was pending.
    UnexpectedEvent,
}

/// What the driver reports back after it performed an action.
#[derive(Clone, Debug, PartialEq, Eq)]
pub enum RunEvent {
    /// A thread was created; its identifier.
    ThreadCreated(String),
    /// The message was posted into the thread.
    MessagePosted,
    /// The run was started; its identifier.
    RunStarted(String),
    /// The status that a poll found.
    Status(RunStatus),
    /// The page of messages that was fetched, oldest first.
    Messages(Vec<Message>),
    /// The call that the pending action asked for failed.
    CallFailed,
}

/// What the driver is to do next.
#[derive(Clone, Debug, PartialEq, Eq)]
pub enum RunAction {
    /// Create a thread; answer with `ThreadCreated`.
    CreateThread,
    /// Post `text` into the thread; answer with `MessagePosted`.
    PostMessage { thread_id: String, text: String },
    /// Start a run of the assistant on the thread; answer with `RunStarted`.
    StartRun { thread_id: String, assistant_id: String },
    /// Wait `wait_secs` seconds, then ask for the run's status; answer with
    /// `Status`.
    Poll { thread_id: String, run_id: String, wait_secs: u64 },
    /// List the newest `limit` messages of the thread; answer with `Messages`.
    FetchLatest { thread_id: String, limit: u32 },
    /// The run is over: this is the text to send back.
    Reply(String),
    /// The run is over and there is nothing to send back.
    Abort(RunError),
}

/// Where a run stands.
#[derive(Clone, Debug, PartialEq, Eq)]
pub enum RunState {
    /// A thread was asked for.
    CreatingThread { assistant_id: String, text: String },
    /// The message was handed to the thread.
    Posting { assistant_id: String, thread_id: String },
    /// The run was asked for.
    Starting { thread_id: String },
    /// `polls` polls were asked for, and the last one is not answered yet.
    Polling { thread_id: String, run_id: String, polls: u8 },
    /// The run completed and its reply was asked for.
    Fetching,
    /// The run is over.
    Finished,
}

/// An event as contracts see it.
pub enum RunEventView {
    ThreadCreated(Seq<char>),
    MessagePosted,
    RunStarted(Seq<char>),
    Status(RunStatus),
    Messages(Seq<Seq<ContentPartView>>),
    CallFailed,
}

/// An action as contracts see it.
pub enum RunActionView {
    CreateThread,
    PostMessage { thread_id: Seq<char>, text: Seq<char> },
    StartRun { thread_id: Seq<char>, assistant_id: Seq<char> },
    Poll { thread_id: Seq<char>, run_id: Seq<char>, wait_secs: u64 },
    FetchLatest { thread_id: Seq<char>, limit: u32 },
    Reply(Seq<char>),
    Abort(RunError),
}

/// A state as contracts see it.
pub enum RunStateView {
    CreatingThread { assistant_id: Seq<char>, text: Seq<char> },
    Posting { assistant_id: Seq<char>, thread_id: Seq<char> },
    Starting { thread_id: Seq<char> },
    Polling { thread_id: Seq<char>, run_id: Seq<char>, polls: u8 },
    Fetching,
    Finished,
}

impl View for RunEvent {
    type V = RunEventView;

    open spec fn view(&self) -> RunEventView {
        match *self {
            RunEvent::ThreadCreated(id) => RunEventView::ThreadCreated(id@),
            RunEvent::MessagePosted => RunEventView::MessagePosted,
            RunEvent::RunStarted(id) => RunEventView::RunStarted(id@),
            RunEvent::Status(status) => RunEventView::Status(status),
            RunEvent::Messages(page) => RunEventView::Messages(page_view(page@)),
            RunEvent::CallFailed => RunEventView::CallFailed,
        }
    }
}

impl View for RunAction {
    type V = RunActionView;

    open spec fn view(&self) -> RunActionView {
        match *self {
            RunAction::CreateThread => RunActionView::CreateThread,
            RunAction::PostMessage { thread_id, text } => RunActionView::PostMessage {
                thread_id: thread_id@,
                text: text@,
            },
            RunAction::StartRun { thread_id, assistant_id } => RunActionView::StartRun {
                thread_id: thread_id@,
                assistant_id: assistant_id@,
            },
            RunAction::Poll { thread_id, run_id, wait_secs } => RunActionView::Poll {
                thread_id: thread_id@,
                run_id: run_id@,
                wait_secs,
            },
            RunAction::FetchLatest { thread_id, limit } => RunActionView::FetchLatest {
                thread_id: thread_id@,
                limit,
            },
            RunAction::Reply(text) => RunActionView::Reply(text@),
            RunAction::Abort(error) => RunActionView::Abort(error),
        }
    }
}

impl View for RunState {
    type V = RunStateView;

    open spec fn view(&self) -> RunStateView {
        match *self {
            RunState::CreatingThread { assistant_id, text } => RunStateView::CreatingThread {
                assistant_id: assistant_id@,
                text: text@,
            },
            RunState::Posting { assistant_id, thread_id } => RunStateView::Posting {
                assistant_id: assistant_id@,
                thread_id: thread_id@,
            },
            RunState::Starting { thread_id } => RunStateView::Starting { thread_id: thread_id@ },
            RunState::Polling { thread_id, run_id, polls } => RunStateView::Polling {
                thread_id: thread_id@,
                run_id: run_id@,
                polls,
            },
            RunState::Fetching => RunStateView::Fetching,
            RunState::Finished => RunStateView::Finished,
        }
    }
}

impl RunStateView {
    /// A state that a run can be in: while it polls, at least one poll and at
    /// most `MAX_POLLS` were asked for.
    pub open spec fn well_formed(self) -> bool {
        self matches RunStateView::Polling { polls, .. } ==> 1 <= polls <= MAX_POLLS
    }
}

impl RunActionView {
    /// An action is final when the run is over with it.
    pub open spec fn is_final(self) -> bool {
        self is Reply || self is Abort
    }
}

/// The call that a state waits for, named by the error that its failure gives.
/// A run that is over waits for nothing.
pub open spec fn pending_call(state: RunStateView) -> RunError {
    match state {
        RunStateView::CreatingThread { .. } => RunError::CreateThread,
        RunStateView::Posting { .. } => RunError::PostMessage,
        RunStateView::Starting { .. } => RunError::StartRun,
        RunStateView::Polling { .. } => RunError::RetrieveRun,
        RunStateView::Fetching => RunError::ListMessages,
        RunStateView::Finished => RunError::UnexpectedEvent,
    }
}

/// The poll action of a run.
pub open spec fn poll_action(thread_id: Seq<char>, run_id: Seq<char>) -> RunActionView {
    RunActionView::Poll { thread_id, run_id, wait_secs: POLL_INTERVAL_SECS }
}

/// What a poll's answer leads to, when `polls` polls were asked for so far.
///
/// A pending status leads to one more poll while fewer than `MAX_POLLS` were
/// made, and to the timeout reply after that. A halted status ends the run at
/// once with its fixed reply. A completed run has its newest message fetched.
pub open spec fn after_status(
    thread_id: Seq<char>,
    run_id: Seq<char>,
    polls: u8,
    status: RunStatus,
) -> (RunStateView, RunActionView) {
    match status.class() {
        StatusClass::Pending => if polls < MAX_POLLS {
            (
                RunStateView::Polling { thread_id, run_id, polls: (polls + 1) as u8 },
                poll_action(thread_id, run_id),
            )
        } else {
            (RunStateView::Finished, RunActionView::Reply(timeout_text()))
        },
        StatusClass::Halted => (
            RunStateView::Finished,
            RunActionView::Reply(status.halt_text().unwrap()),
        ),
        StatusClass::Completed => (
            RunStateView::Fetching,
            RunActionView::FetchLatest { thread_id, limit: FETCH_LIMIT },
        ),
    }
}

/// What a fetched page leads to: the reply of its last message, which is the
/// newest; an empty page ends the run without a reply.
pub open spec fn after_messages(page: Seq<Seq<ContentPartView>>) -> (RunStateView, RunActionView) {
    if page.len() > 0 {
        (RunStateView::Finished, RunActionView::Reply(joined_text(page.last())))
    } else {
        (RunStateView::Finished, RunActionView::Abort(RunError::NoMessage))
    }
}

/// The first state and action of a run of the assistant `assistant_id` on
/// `text`: a thread is asked for.
pub open spec fn run_begin(assistant_id: Seq<char>, text: Seq<char>) -> (
    RunStateView,
    RunActionView,
) {
    (RunStateView::CreatingThread { assistant_id, text }, RunActionView::CreateThread)
}

/// The transition function of a run.
///
/// The event that answers the pending action moves the run on. A failed call
/// ends it with the error of that call. Any other event ends it with
/// `UnexpectedEvent`, and so does every event after the run is over.
pub open spec fn run_next(state: RunStateView, event: RunEventView) -> (
    RunStateView,
    RunActionView,
) {
    match (state, event) {
        (
            RunStateView::CreatingThread { assistant_id, text },
            RunEventView::ThreadCreated(thread_id),
        ) => (
            RunStateView::Posting { assistant_id, thread_id },
            RunActionView::PostMessage { thread_id, text },
        ),
        (RunStateView::Posting { assistant_id, thread_id }, RunEventView::MessagePosted) => (
            RunStateView::Starting { thread_id },
            RunActionView::StartRun { thread_id, assistant_id },
        ),
        (RunStateView::Starting { thread_id }, RunEventView::RunStarted(run_id)) => (
            RunStateView::Polling { thread_id, run_id, polls: 1 },
            poll_action(thread_id, run_id),
        ),
        (RunStateView::Polling { thread_id, run_id, polls }, RunEventView::Status(status)) => {
            after_status(thread_id, run_id, polls, status)
        },
        (RunStateView::Fetching, RunEventView::Messages(page)) => after_messages(page),
        (RunStateView::Finished, _) => (
            RunStateView::Finished,
            RunActionView::Abort(RunError::UnexpectedEvent),
        ),
        (_, RunEventView::CallFailed) => (
            RunStateView::Finished,
            RunActionView::Abort(pending_call(state)),
        ),
        _ => (RunStateView::Finished, RunActionView::Abort(RunError::UnexpectedEvent)),
    }
}

/// Starts a run of the assistant `assistant_id` on `text`.
///
/// `session_thread` is the thread that the chat session is mapped to. The run
/// does not use it: it creates a thread of its own, as the first action says.
pub fn begin(assistant_id: String, session_thread: &str, text: String) -> (out: (
    RunState,
    RunAction,
))
    ensures
        out.0@ == run_begin(assistant_id@, text@).0,
        out.1@ == run_begin(assistant_id@, text@).1,
        out.0@.well_formed(),
{
    (RunState::CreatingThread { assistant_id, text }, RunAction::CreateThread)
}

impl RunState {
    /// Whether the run is over.
    pub fn is_finished(&self) -> (finished: bool)
        ensures
            finished == (self@ is Finished),
    {
        match self {
            RunState::Finished => true,
            _ => false,
        }
    }

    /// Takes the answer to the pending action and gives the next state and
    /// action.
    pub fn step(self, event: RunEvent) -> (out: (RunState, RunAction))
        ensures
            out.0@ == run_next(self@, event@).0,
            out.1@ == run_next(self@, event@).1,
            out.0@.well_formed(),
    {
        match self {
            RunState::CreatingThread { assistant_id, text } => match event {
                RunEvent::ThreadCreated(thread_id) => {
                    let action = RunAction::PostMessage { thread_id: thread_id.clone(), text };
                    (RunState::Posting { assistant_id, thread_id }, action)
                },
                RunEvent::CallFailed => (RunState::Finished, RunAction::Abort(RunError::CreateThread)),
                _ => (RunState::Finished, RunAction::Abort(RunError::UnexpectedEvent)),
            },
            RunState::Posting { assistant_id, thread_id } => match event {
                RunEvent::MessagePosted => {
                    let action = RunAction::StartRun {
                        thread_id: thread_id.clone(),
                        assistant_id,
                    };
                    (RunState::Starting { thread_id }, action)
                },
                RunEvent::CallFailed => (RunState::Finished, RunAction::Abort(RunError::PostMessage)),
                _ => (RunState::Finished, RunAction::Abort(RunError::UnexpectedEvent)),
            },
            RunState::Starting { thread_id } => match event {
                RunEvent::RunStarted(run_id) => {
                    let action = RunAction::Poll {
                        thread_id: thread_id.clone(),
                        run_id: run_id.clone(),
                        wait_secs: POLL_INTERVAL_SECS,
                    };
                    (RunState::Polling { thread_id, run_id, polls: 1 }, action)
                },
                RunEvent::CallFailed => (RunState::Finished, RunAction::Abort(RunError::StartRun)),
                _ => (RunState::Finished, RunAction::Abort(RunError::UnexpectedEvent)),
            },
            RunState::Polling { thread_id, run_id, polls } => match event {
                RunEvent::Status(status) => on_status(thread_id, run_id, polls, status),
                RunEvent::CallFailed => (RunState::Finished, RunAction::Abort(RunError::RetrieveRun)),
                _ => (RunState::Finished, RunAction::Abort(RunError::UnexpectedEvent)),
            },
            RunState::Fetching => match event {
                RunEvent::Messages(page) => on_messages(&page),
                RunEvent::CallFailed => (RunState::Finished, RunAction::Abort(RunError::ListMessages)),
                _ => (RunState::Finished, RunAction::Abort(RunError::UnexpectedEvent)),
            },
            RunState::Finished => (RunState::Finished, RunAction::Abort(RunError::UnexpectedEvent)),
        }
    }
}

/// Decides what follows the answer to a poll, when `polls` polls were asked
/// for so far.
pub fn on_status(thread_id: String, run_id: String, polls: u8, status: RunStatus) -> (out: (
    RunState,
    RunAction,
))
    ensures
        out.0@ == after_status(thread_id@, run_id@, polls, status).0,
        out.1@ == after_status(thread_id@, run_id@, polls, status).1,
        out.0@.well_formed(),
{
    match status.classify() {
        StatusClass::Pending => {
            if polls < MAX_POLLS {
                let action = RunAction::Poll {
                    thread_id: thread_id.clone(),
                    run_id: run_id.clone(),
                    wait_secs: POLL_INTERVAL_SECS,
                };
                (RunState::Polling { thread_id, run_id, polls: polls + 1 }, action)
            } else {
                (RunState::Finished, RunAction::Reply(timeout_message()))
            }
        },
        StatusClass::Halted => match status.halt_message() {
            Some(message) => (RunState::Finished, RunAction::Reply(message)),
            None => unreached(),
        },
        StatusClass::Completed => (
            RunState::Fetching,
            RunAction::FetchLatest { thread_id, limit: FETCH_LIMIT },
        ),
    }
}

/// Decides what follows a fetched page of messages.
pub fn on_messages(page: &Vec<Message>) -> (out: (RunState, RunAction))
    ensures
        out.0@ == after_messages(page_view(page@)).0,
        out.1@ == after_messages(page_view(page@)).1,
{
    match latest_reply(page) {
        Some(reply) => (RunState::Finished, RunAction::Reply(reply)),
        None => (RunState::Finished, RunAction::Abort(RunError::NoMessage)),
    }
}

} // verus!
