use assistant_relay::reply::{ContentPart, Message};
use assistant_relay::run::{
    begin, on_messages, on_status, RunAction, RunError, RunEvent, RunState, FETCH_LIMIT,
    MAX_POLLS, POLL_INTERVAL_SECS,
};
use assistant_relay::status::RunStatus;

fn s(text: &str) -> String {
    text.to_string()
}

fn poll() -> RunAction {
    RunAction::Poll { thread_id: s("thread_1"), run_id: s("run_1"), wait_secs: 8 }
}

/// Drives a run up to its first poll and returns the state in which the answer
/// to that poll is awaited.
fn polling() -> RunState {
    let (state, _) = begin(s("asst_1"), "thread_0", s("Hello"));
    let (state, _) = state.step(RunEvent::ThreadCreated(s("thread_1")));
    let (state, _) = state.step(RunEvent::MessagePosted);
    let (state, action) = state.step(RunEvent::RunStarted(s("run_1")));
    assert_eq!(action, poll());
    state
}

fn feed(mut state: RunState, events: Vec<RunEvent>) -> (RunState, Vec<RunAction>) {
    let mut actions = Vec::new();
    for event in events {
        let (next, action) = state.step(event);
        state = next;
        actions.push(action);
    }
    (state, actions)
}

#[test]
fn policy_is_five_polls_eight_seconds_apart() {
    assert_eq!(MAX_POLLS, 5);
    assert_eq!(POLL_INTERVAL_SECS, 8);
    assert_eq!(FETCH_LIMIT, 1);
}

#[test]
fn run_begins_by_creating_a_thread_of_its_own() {
    let (state, action) = begin(s("asst_1"), "thread_0", s("Hello"));
    assert_eq!(action, RunAction::CreateThread);
    assert_eq!(state, RunState::CreatingThread { assistant_id: s("asst_1"), text: s("Hello") });
    assert!(!state.is_finished());
}

#[test]
fn run_does_not_depend_on_the_session_thread() {
    let with_one = begin(s("asst_1"), "thread_a", s("Hello"));
    let with_other = begin(s("asst_1"), "thread_b", s("Hello"));
    assert_eq!(with_one, with_other);
}

#[test]
fn run_posts_the_text_into_the_created_thread() {
    let (state, _) = begin(s("asst_1"), "thread_0", s("Hello"));
    let (state, action) = state.step(RunEvent::ThreadCreated(s("thread_1")));
    assert_eq!(action, RunAction::PostMessage { thread_id: s("thread_1"), text: s("Hello") });
    assert_eq!(state, RunState::Posting { assistant_id: s("asst_1"), thread_id: s("thread_1") });
}

#[test]
fn run_starts_the_configured_assistant_on_the_thread() {
    let (state, _) = begin(s("asst_1"), "thread_0", s("Hello"));
    let (state, _) = state.step(RunEvent::ThreadCreated(s("thread_1")));
    let (state, action) = state.step(RunEvent::MessagePosted);
    assert_eq!(action, RunAction::StartRun { thread_id: s("thread_1"), assistant_id: s("asst_1") });
    assert_eq!(state, RunState::Starting { thread_id: s("thread_1") });
}

#[test]
fn run_polls_once_the_run_is_started() {
    let state = polling();
    assert_eq!(state, RunState::Polling { thread_id: s("thread_1"), run_id: s("run_1"), polls: 1 });
}

#[test]
fn round_trip_hello_gives_hi_there() {
    let state = polling();
    let (state, action) = state.step(RunEvent::Status(RunStatus::Completed));
    assert_eq!(action, RunAction::FetchLatest { thread_id: s("thread_1"), limit: 1 });
    assert_eq!(state, RunState::Fetching);
    let page = vec![Message {
        content: vec![ContentPart::Image, ContentPart::Text(s("Hi there")), ContentPart::Image],
    }];
    let (state, action) = state.step(RunEvent::Messages(page));
    assert_eq!(action, RunAction::Reply(s("Hi there")));
    assert!(state.is_finished());
}

#[test]
fn in_progress_for_five_polls_gives_timeout_without_fetch() {
    let events = vec![RunEvent::Status(RunStatus::InProgress); 5];
    let (state, actions) = feed(polling(), events);
    assert_eq!(actions, vec![poll(), poll(), poll(), poll(), RunAction::Reply(s("Timeout"))]);
    assert!(state.is_finished());
    assert!(actions.iter().all(|a| !matches!(a, RunAction::FetchLatest { .. })));
}

#[test]
fn any_mix_of_pending_statuses_for_five_polls_gives_timeout() {
    let events = vec![
        RunEvent::Status(RunStatus::Queued),
        RunEvent::Status(RunStatus::InProgress),
        RunEvent::Status(RunStatus::Cancelling),
        RunEvent::Status(RunStatus::Queued),
        RunEvent::Status(RunStatus::Cancelling),
    ];
    let (state, actions) = feed(polling(), events);
    assert_eq!(actions[4], RunAction::Reply(s("Timeout")));
    assert_eq!(state, RunState::Finished);
}

#[test]
fn a_run_waits_forty_seconds_at_most() {
    let events = vec![RunEvent::Status(RunStatus::InProgress); 5];
    let (_, actions) = feed(polling(), events);
    let mut waited = 8;
    for action in &actions {
        if let RunAction::Poll { wait_secs, .. } = action {
            waited += wait_secs;
        }
    }
    assert_eq!(waited, 40);
}

#[test]
fn pending_status_counts_the_polls() {
    let (state, action) = polling().step(RunEvent::Status(RunStatus::Queued));
    assert_eq!(action, poll());
    assert_eq!(state, RunState::Polling { thread_id: s("thread_1"), run_id: s("run_1"), polls: 2 });
}

#[test]
fn halted_statuses_reply_at_once_without_fetch() {
    let cases = [
        (RunStatus::RequiresAction, "Action required for OpenAI assistant"),
        (RunStatus::Cancelled, "Run is cancelled"),
        (RunStatus::Failed, "Run is failed"),
        (RunStatus::Expired, "Run is expired"),
    ];
    for (status, reply) in cases {
        let (state, action) = polling().step(RunEvent::Status(status));
        assert_eq!(action, RunAction::Reply(s(reply)));
        assert!(state.is_finished());
    }
}

#[test]
fn halted_status_after_pending_polls_replies_with_its_text() {
    let events = vec![
        RunEvent::Status(RunStatus::Queued),
        RunEvent::Status(RunStatus::InProgress),
        RunEvent::Status(RunStatus::Failed),
    ];
    let (state, actions) = feed(polling(), events);
    assert_eq!(actions, vec![poll(), poll(), RunAction::Reply(s("Run is failed"))]);
    assert!(state.is_finished());
}

#[test]
fn completed_at_the_last_poll_is_still_fetched() {
    let mut events = vec![RunEvent::Status(RunStatus::InProgress); 4];
    events.push(RunEvent::Status(RunStatus::Completed));
    let (state, actions) = feed(polling(), events);
    assert_eq!(actions[4], RunAction::FetchLatest { thread_id: s("thread_1"), limit: 1 });
    assert_eq!(state, RunState::Fetching);
}

#[test]
fn only_the_last_message_of_the_page_is_read() {
    let page = vec![
        Message { content: vec![ContentPart::Text(s("Hello"))] },
        Message { content: vec![ContentPart::Text(s("Hi there"))] },
    ];
    let (state, action) = RunState::Fetching.step(RunEvent::Messages(page));
    assert_eq!(action, RunAction::Reply(s("Hi there")));
    assert!(state.is_finished());
}

#[test]
fn completed_run_with_an_empty_page_aborts() {
    let (state, action) = RunState::Fetching.step(RunEvent::Messages(vec![]));
    assert_eq!(action, RunAction::Abort(RunError::NoMessage));
    assert!(state.is_finished());
    assert_eq!(on_messages(&vec![]).1, RunAction::Abort(RunError::NoMessage));
}

#[test]
fn failed_call_aborts_with_the_error_of_that_call() {
    let (creating, _) = begin(s("asst_1"), "thread_0", s("Hello"));
    let cases = vec![
        (creating, RunError::CreateThread),
        (
            RunState::Posting { assistant_id: s("asst_1"), thread_id: s("thread_1") },
            RunError::PostMessage,
        ),
        (RunState::Starting { thread_id: s("thread_1") }, RunError::StartRun),
        (polling(), RunError::RetrieveRun),
        (RunState::Fetching, RunError::ListMessages),
    ];
    for (state, error) in cases {
        let (state, action) = state.step(RunEvent::CallFailed);
        assert_eq!(action, RunAction::Abort(error));
        assert!(state.is_finished());
    }
}

#[test]
fn event_that_answers_nothing_aborts() {
    let (state, _) = begin(s("asst_1"), "thread_0", s("Hello"));
    let (state, action) = state.step(RunEvent::Status(RunStatus::Completed));
    assert_eq!(action, RunAction::Abort(RunError::UnexpectedEvent));
    assert!(state.is_finished());
    let (state, action) = polling().step(RunEvent::MessagePosted);
    assert_eq!(action, RunAction::Abort(RunError::UnexpectedEvent));
    assert!(state.is_finished());
}

#[test]
fn finished_run_stays_finished() {
    let events = vec![
        RunEvent::CallFailed,
        RunEvent::Status(RunStatus::Completed),
        RunEvent::ThreadCreated(s("thread_2")),
    ];
    for event in events {
        let (state, action) = RunState::Finished.step(event);
        assert_eq!(action, RunAction::Abort(RunError::UnexpectedEvent));
        assert_eq!(state, RunState::Finished);
    }
}

#[test]
fn on_status_gives_up_at_the_poll_limit() {
    let (state, action) = on_status(s("thread_1"), s("run_1"), 4, RunStatus::InProgress);
    assert_eq!(action, poll());
    assert_eq!(state, RunState::Polling { thread_id: s("thread_1"), run_id: s("run_1"), polls: 5 });
    let (state, action) = on_status(s("thread_1"), s("run_1"), 5, RunStatus::InProgress);
    assert_eq!(action, RunAction::Reply(s("Timeout")));
    assert_eq!(state, RunState::Finished);
    let (state, action) = on_status(s("thread_1"), s("run_1"), 255, RunStatus::Queued);
    assert_eq!(action, RunAction::Reply(s("Timeout")));
    assert_eq!(state, RunState::Finished);
}
