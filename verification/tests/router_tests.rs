use assistant_relay::reply::{ContentPart, Message};
use assistant_relay::router::{
    is_restart, Config, InboundMessage, Outcome, RouterAction, RouterError, RouterEvent,
    RouterState, Update,
};
use assistant_relay::run::{RunAction, RunError, RunEvent, RunState};
use assistant_relay::session::{Lookup, SessionTable};
use assistant_relay::status::RunStatus;

fn owned(text: &str) -> String {
    text.to_string()
}

fn config() -> Config {
    Config { telegram_token: owned("123:abc"), assistant_id: owned("asst_1") }
}

fn typed(chat_id: i64, text: &str) -> RouterEvent {
    RouterEvent::Update(Update::Message(InboundMessage {
        chat_id,
        voice_file_id: None,
        text: Some(owned(text)),
    }))
}

fn spoken(chat_id: i64, file_id: &str) -> RouterEvent {
    RouterEvent::Update(Update::Message(InboundMessage {
        chat_id,
        voice_file_id: Some(owned(file_id)),
        text: None,
    }))
}

fn exchange(events: Vec<RouterEvent>) -> (RouterState, Vec<RouterAction>) {
    let config = config();
    let mut state = RouterState::new();
    let mut actions = Vec::new();
    for event in events {
        let (next, action) = state.step(&config, event);
        state = next;
        actions.push(action);
    }
    (state, actions)
}

/// Plays the part of the outside world for one update: a session store, a
/// service that creates the threads it is asked for from `fresh_threads`, and
/// an assistant whose run completes at the first poll with `answer`.
fn serve(
    table: &mut SessionTable,
    fresh_threads: &mut Vec<String>,
    update: RouterEvent,
    answer: &str,
) -> Vec<RouterAction> {
    let config = config();
    let mut state = RouterState::new();
    let mut event = update;
    let mut actions = Vec::new();
    loop {
        let (next, action) = state.step(&config, event);
        state = next;
        actions.push(action.clone());
        event = match action {
            RouterAction::Finish(_) => break,
            RouterAction::LookupSession { chat_id } => RouterEvent::Session(table.get(chat_id)),
            RouterAction::CreateThread => RouterEvent::ThreadCreated(Some(fresh_threads.remove(0))),
            RouterAction::StoreSession { chat_id, thread_id } => {
                table.set(chat_id, thread_id);
                RouterEvent::Done
            }
            RouterAction::ClearSession { chat_id } => {
                table.delete(chat_id);
                RouterEvent::Done
            }
            RouterAction::DeleteThread { .. } | RouterAction::SendMessage { .. } => {
                RouterEvent::Done
            }
            RouterAction::Assistant(run_action) => RouterEvent::Assistant(match run_action {
                RunAction::CreateThread => RunEvent::ThreadCreated(fresh_threads.remove(0)),
                RunAction::PostMessage { .. } => RunEvent::MessagePosted,
                RunAction::StartRun { .. } => RunEvent::RunStarted(owned("run_1")),
                RunAction::Poll { .. } => RunEvent::Status(RunStatus::Completed),
                RunAction::FetchLatest { .. } => RunEvent::Messages(vec![Message {
                    content: vec![ContentPart::Text(owned(answer))],
                }]),
                RunAction::Reply(_) | RunAction::Abort(_) => unreachable!(),
            }),
            RouterAction::LocateVoice { .. } => RouterEvent::VoiceLocated(Some(owned("voice/f.oga"))),
            RouterAction::DownloadVoice { .. } => RouterEvent::VoiceDownloaded(true),
            RouterAction::Transcribe { .. } => RouterEvent::Transcribed(Some(owned("Hello"))),
        };
    }
    assert!(state.is_done());
    actions
}

#[test]
fn router_starts_idle() {
    assert_eq!(RouterState::new(), RouterState::Idle);
    assert!(!RouterState::new().is_done());
}

#[test]
fn restart_command_is_recognised_exactly() {
    assert!(is_restart(&owned("/restart")));
    assert!(!is_restart(&owned("/restart ")));
    assert!(!is_restart(&owned("/Restart")));
    assert!(!is_restart(&owned("restart")));
    assert!(!is_restart(&owned("")));
}

#[test]
fn text_message_has_the_session_looked_up() {
    let (state, actions) = exchange(vec![typed(42, "Hello")]);
    assert_eq!(actions, vec![RouterAction::LookupSession { chat_id: 42 }]);
    assert_eq!(state, RouterState::ResolvingSession { chat_id: 42, text: owned("Hello") });
}

#[test]
fn first_message_creates_one_thread_and_stores_one_mapping() {
    let (state, actions) = exchange(vec![
        typed(42, "Hello"),
        RouterEvent::Session(Lookup::Absent),
        RouterEvent::ThreadCreated(Some(owned("thread_1"))),
        RouterEvent::Done,
    ]);
    assert_eq!(
        actions,
        vec![
            RouterAction::LookupSession { chat_id: 42 },
            RouterAction::CreateThread,
            RouterAction::StoreSession { chat_id: 42, thread_id: owned("thread_1") },
            RouterAction::Assistant(RunAction::CreateThread),
        ]
    );
    assert_eq!(
        state,
        RouterState::Running {
            chat_id: 42,
            run: RunState::CreatingThread { assistant_id: owned("asst_1"), text: owned("Hello") },
        }
    );
}

#[test]
fn message_of_a_chat_with_a_session_goes_to_the_assistant() {
    let (state, actions) = exchange(vec![
        typed(42, "Hello"),
        RouterEvent::Session(Lookup::Thread(owned("thread_1"))),
    ]);
    assert_eq!(
        actions,
        vec![
            RouterAction::LookupSession { chat_id: 42 },
            RouterAction::Assistant(RunAction::CreateThread),
        ]
    );
    assert!(matches!(state, RouterState::Running { chat_id: 42, .. }));
}

#[test]
fn restart_deletes_the_thread_and_clears_the_mapping_without_reply() {
    let (state, actions) = exchange(vec![
        typed(42, "/restart"),
        RouterEvent::Session(Lookup::Thread(owned("thread_1"))),
        RouterEvent::Done,
        RouterEvent::Done,
    ]);
    assert_eq!(
        actions,
        vec![
            RouterAction::LookupSession { chat_id: 42 },
            RouterAction::DeleteThread { thread_id: owned("thread_1") },
            RouterAction::ClearSession { chat_id: 42 },
            RouterAction::Finish(Outcome::Restarted),
        ]
    );
    assert!(state.is_done());
}

#[test]
fn restart_without_a_session_ends_at_once() {
    let (state, actions) =
        exchange(vec![typed(42, "/restart"), RouterEvent::Session(Lookup::Absent)]);
    assert_eq!(
        actions,
        vec![
            RouterAction::LookupSession { chat_id: 42 },
            RouterAction::Finish(Outcome::Restarted),
        ]
    );
    assert!(state.is_done());
}

#[test]
fn message_after_restart_gets_a_new_thread() {
    let mut table = SessionTable::new();
    let mut threads = vec![owned("thread_1"), owned("run_thread_1"), owned("thread_2"), owned("run_thread_2")];
    let first = serve(&mut table, &mut threads, typed(42, "Hello"), "Hi there");
    assert_eq!(first[1], RouterAction::CreateThread);
    assert_eq!(table.get(42), Lookup::Thread(owned("thread_1")));

    let restart = serve(&mut table, &mut threads, typed(42, "/restart"), "unused");
    assert_eq!(
        restart,
        vec![
            RouterAction::LookupSession { chat_id: 42 },
            RouterAction::DeleteThread { thread_id: owned("thread_1") },
            RouterAction::ClearSession { chat_id: 42 },
            RouterAction::Finish(Outcome::Restarted),
        ]
    );
    assert_eq!(table.get(42), Lookup::Absent);

    let next = serve(&mut table, &mut threads, typed(42, "Hello again"), "Hi again");
    assert_eq!(next[1], RouterAction::CreateThread);
    assert_eq!(next[2], RouterAction::StoreSession { chat_id: 42, thread_id: owned("thread_2") });
    assert_eq!(table.get(42), Lookup::Thread(owned("thread_2")));
}

#[test]
fn second_message_of_a_session_creates_no_session_thread() {
    let mut table = SessionTable::new();
    let mut threads = vec![owned("thread_1"), owned("run_thread_1"), owned("run_thread_2")];
    serve(&mut table, &mut threads, typed(42, "Hello"), "Hi there");
    let second = serve(&mut table, &mut threads, typed(42, "More"), "Sure");
    assert!(second.iter().all(|a| !matches!(
        a,
        RouterAction::CreateThread | RouterAction::StoreSession { .. }
    )));
    assert_eq!(table.get(42), Lookup::Thread(owned("thread_1")));
}

#[test]
fn sessions_of_different_chats_are_apart() {
    let mut table = SessionTable::new();
    let mut threads = vec![owned("thread_1"), owned("run_thread_1"), owned("thread_2"), owned("run_thread_2")];
    serve(&mut table, &mut threads, typed(1, "Hello"), "Hi");
    serve(&mut table, &mut threads, typed(2, "Hello"), "Hi");
    serve(&mut table, &mut threads, typed(1, "/restart"), "unused");
    assert_eq!(table.get(1), Lookup::Absent);
    assert_eq!(table.get(2), Lookup::Thread(owned("thread_2")));
}

#[test]
fn whole_exchange_sends_the_reply_to_the_chat() {
    let mut table = SessionTable::new();
    let mut threads = vec![owned("thread_1"), owned("run_thread_1")];
    let actions = serve(&mut table, &mut threads, typed(42, "Hello"), "Hi there");
    assert_eq!(
        actions,
        vec![
            RouterAction::LookupSession { chat_id: 42 },
            RouterAction::CreateThread,
            RouterAction::StoreSession { chat_id: 42, thread_id: owned("thread_1") },
            RouterAction::Assistant(RunAction::CreateThread),
            RouterAction::Assistant(RunAction::PostMessage {
                thread_id: owned("run_thread_1"),
                text: owned("Hello"),
            }),
            RouterAction::Assistant(RunAction::StartRun {
                thread_id: owned("run_thread_1"),
                assistant_id: owned("asst_1"),
            }),
            RouterAction::Assistant(RunAction::Poll {
                thread_id: owned("run_thread_1"),
                run_id: owned("run_1"),
                wait_secs: 8,
            }),
            RouterAction::Assistant(RunAction::FetchLatest {
                thread_id: owned("run_thread_1"),
                limit: 1,
            }),
            RouterAction::SendMessage { chat_id: 42, text: owned("Hi there") },
            RouterAction::Finish(Outcome::Replied),
        ]
    );
}

#[test]
fn timeout_is_sent_to_the_chat_as_the_reply() {
    let mut events = vec![
        typed(42, "Hello"),
        RouterEvent::Session(Lookup::Thread(owned("thread_1"))),
        RouterEvent::Assistant(RunEvent::ThreadCreated(owned("run_thread_1"))),
        RouterEvent::Assistant(RunEvent::MessagePosted),
        RouterEvent::Assistant(RunEvent::RunStarted(owned("run_1"))),
    ];
    for _ in 0..5 {
        events.push(RouterEvent::Assistant(RunEvent::Status(RunStatus::InProgress)));
    }
    events.push(RouterEvent::Done);
    let (state, actions) = exchange(events);
    assert_eq!(actions[9], RouterAction::SendMessage { chat_id: 42, text: owned("Timeout") });
    assert_eq!(actions[10], RouterAction::Finish(Outcome::Replied));
    assert!(state.is_done());
}

#[test]
fn failed_run_ends_the_exchange_without_reply() {
    let (state, actions) = exchange(vec![
        typed(42, "Hello"),
        RouterEvent::Session(Lookup::Thread(owned("thread_1"))),
        RouterEvent::Assistant(RunEvent::ThreadCreated(owned("run_thread_1"))),
        RouterEvent::Assistant(RunEvent::CallFailed),
    ]);
    assert_eq!(
        actions[3],
        RouterAction::Finish(Outcome::Failed(RouterError::Run(RunError::PostMessage)))
    );
    assert!(state.is_done());
    assert!(actions.iter().all(|a| !matches!(a, RouterAction::SendMessage { .. })));
}

#[test]
fn thread_that_is_not_created_ends_the_exchange() {
    let (state, actions) = exchange(vec![
        typed(42, "Hello"),
        RouterEvent::Session(Lookup::Absent),
        RouterEvent::ThreadCreated(None),
    ]);
    assert_eq!(actions[2], RouterAction::Finish(Outcome::Failed(RouterError::CreateThread)));
    assert!(state.is_done());
}

#[test]
fn invalid_session_ends_the_exchange() {
    for text in ["Hello", "/restart"] {
        let (state, actions) =
            exchange(vec![typed(42, text), RouterEvent::Session(Lookup::Invalid)]);
        assert_eq!(
            actions[1],
            RouterAction::Finish(Outcome::Failed(RouterError::InvalidSession))
        );
        assert!(state.is_done());
    }
}

#[test]
fn voice_message_is_located_first() {
    let (state, actions) = exchange(vec![spoken(42, "file_7")]);
    assert_eq!(actions, vec![RouterAction::LocateVoice { file_id: owned("file_7") }]);
    assert_eq!(state, RouterState::LocatingVoice { chat_id: 42, file_id: owned("file_7") });
}

#[test]
fn voice_goes_before_text_in_one_message() {
    let update = RouterEvent::Update(Update::Message(InboundMessage {
        chat_id: 42,
        voice_file_id: Some(owned("file_7")),
        text: Some(owned("Hello")),
    }));
    let (_, actions) = exchange(vec![update]);
    assert_eq!(actions, vec![RouterAction::LocateVoice { file_id: owned("file_7") }]);
}

#[test]
fn voice_that_is_not_located_sends_nothing() {
    let (state, actions) = exchange(vec![spoken(42, "file_7"), RouterEvent::VoiceLocated(None)]);
    assert_eq!(
        actions,
        vec![
            RouterAction::LocateVoice { file_id: owned("file_7") },
            RouterAction::Finish(Outcome::Skipped),
        ]
    );
    assert!(state.is_done());
}

#[test]
fn voice_download_failure_sends_nothing() {
    let (state, actions) = exchange(vec![
        spoken(42, "file_7"),
        RouterEvent::VoiceLocated(Some(owned("voice/file_7.oga"))),
        RouterEvent::VoiceDownloaded(false),
    ]);
    assert_eq!(
        actions,
        vec![
            RouterAction::LocateVoice { file_id: owned("file_7") },
            RouterAction::DownloadVoice {
                url: owned("https://api.telegram.org/file/bot123:abc/voice/file_7.oga"),
                file_name: owned("/tmp/file_7.ogg"),
            },
            RouterAction::Finish(Outcome::Skipped),
        ]
    );
    assert!(state.is_done());
    assert!(actions.iter().all(|a| !matches!(a, RouterAction::SendMessage { .. })));
}

#[test]
fn failed_transcription_sends_nothing() {
    let (state, actions) = exchange(vec![
        spoken(42, "file_7"),
        RouterEvent::VoiceLocated(Some(owned("voice/file_7.oga"))),
        RouterEvent::VoiceDownloaded(true),
        RouterEvent::Transcribed(None),
    ]);
    assert_eq!(actions[2], RouterAction::Transcribe { file_name: owned("/tmp/file_7.ogg") });
    assert_eq!(actions[3], RouterAction::Finish(Outcome::Skipped));
    assert!(state.is_done());
}

#[test]
fn transcribed_voice_goes_the_way_of_typed_text() {
    let (heard_state, heard_actions) = exchange(vec![
        spoken(42, "file_7"),
        RouterEvent::VoiceLocated(Some(owned("voice/file_7.oga"))),
        RouterEvent::VoiceDownloaded(true),
        RouterEvent::Transcribed(Some(owned("Hello"))),
    ]);
    let (typed_state, typed_actions) = exchange(vec![typed(42, "Hello")]);
    assert_eq!(heard_state, typed_state);
    assert_eq!(heard_actions[3], typed_actions[0]);
}

#[test]
fn voice_message_is_answered_like_a_typed_one() {
    let mut table = SessionTable::new();
    let mut threads = vec![owned("thread_1"), owned("run_thread_1")];
    let actions = serve(&mut table, &mut threads, spoken(42, "file_7"), "Hi there");
    assert_eq!(actions[3], RouterAction::LookupSession { chat_id: 42 });
    assert_eq!(actions[4], RouterAction::CreateThread);
    assert_eq!(
        actions[actions.len() - 2],
        RouterAction::SendMessage { chat_id: 42, text: owned("Hi there") }
    );
    assert_eq!(table.get(42), Lookup::Thread(owned("thread_1")));
}

#[test]
fn spoken_restart_ends_the_session() {
    let (_, actions) = exchange(vec![
        spoken(42, "file_7"),
        RouterEvent::VoiceLocated(Some(owned("voice/file_7.oga"))),
        RouterEvent::VoiceDownloaded(true),
        RouterEvent::Transcribed(Some(owned("/restart"))),
        RouterEvent::Session(Lookup::Thread(owned("thread_1"))),
    ]);
    assert_eq!(actions[4], RouterAction::DeleteThread { thread_id: owned("thread_1") });
}

#[test]
fn other_updates_are_ignored() {
    let (state, actions) = exchange(vec![RouterEvent::Update(Update::Other)]);
    assert_eq!(actions, vec![RouterAction::Finish(Outcome::Ignored)]);
    assert!(state.is_done());
}

#[test]
fn message_without_voice_or_text_is_ignored() {
    let update = RouterEvent::Update(Update::Message(InboundMessage {
        chat_id: 42,
        voice_file_id: None,
        text: None,
    }));
    let (state, actions) = exchange(vec![update]);
    assert_eq!(actions, vec![RouterAction::Finish(Outcome::Ignored)]);
    assert!(state.is_done());
}

#[test]
fn event_that_answers_nothing_ends_the_exchange() {
    let (state, actions) = exchange(vec![RouterEvent::Done]);
    assert_eq!(actions, vec![RouterAction::Finish(Outcome::Failed(RouterError::UnexpectedEvent))]);
    assert!(state.is_done());
    let (state, actions) = exchange(vec![typed(42, "Hello"), RouterEvent::VoiceDownloaded(true)]);
    assert_eq!(actions[1], RouterAction::Finish(Outcome::Failed(RouterError::UnexpectedEvent)));
    assert!(state.is_done());
}

#[test]
fn finished_exchange_stays_finished() {
    let (state, actions) = exchange(vec![
        RouterEvent::Update(Update::Other),
        typed(42, "Hello"),
        RouterEvent::Done,
    ]);
    assert_eq!(actions[1], RouterAction::Finish(Outcome::Failed(RouterError::UnexpectedEvent)));
    assert_eq!(actions[2], RouterAction::Finish(Outcome::Failed(RouterError::UnexpectedEvent)));
    assert_eq!(state, RouterState::Done);
}

#[test]
fn negative_chat_identifiers_are_kept() {
    let (_, actions) = exchange(vec![
        typed(-1001234567890, "Hello"),
        RouterEvent::Session(Lookup::Absent),
        RouterEvent::ThreadCreated(Some(owned("thread_1"))),
    ]);
    assert_eq!(actions[0], RouterAction::LookupSession { chat_id: -1001234567890 });
    assert_eq!(
        actions[2],
        RouterAction::StoreSession { chat_id: -1001234567890, thread_id: owned("thread_1") }
    );
}
