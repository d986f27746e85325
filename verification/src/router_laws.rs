//! What holds of every exchange: how sessions come and go, what the voice
//! path does, and that an exchange ends.
use vstd::prelude::*;
use crate::router::{
    on_text, restart_command, router_next, ConfigView, InboundView, Outcome, RouterActionView,
    RouterError, RouterEventView, RouterStateView, UpdateView,
};
use crate::run::{run_begin, run_next, RunActionView};
use crate::run_laws::{lemma_run_progress, steps_left};
use crate::session::{lookup_in, LookupView, Sessions};
use crate::voice::{voice_file_text, voice_url_text};

verus! {

/// The course of an exchange over a list of events: the state it ends in and
/// the actions it gave, one for each event, in order.
pub open spec fn router_trace(
    config: ConfigView,
    state: RouterStateView,
    events: Seq<RouterEventView>,
) -> (RouterStateView, Seq<RouterActionView>)
    decreases events.len(),
{
    if events.len() == 0 {
        (state, Seq::empty())
    } else {
        let (next, action) = router_next(config, state, events[0]);
        let (end, rest) = router_trace(config, next, events.drop_first());
        (end, seq![action] + rest)
    }
}

/// The store after the driver performed an action: storing a session maps the
/// chat to the thread, clearing one removes the chat, and no other action
/// touches the store.
pub open spec fn sessions_after(sessions: Sessions, action: RouterActionView) -> Sessions {
    match action {
        RouterActionView::StoreSession { chat_id, thread_id } => sessions.insert(chat_id, thread_id),
        RouterActionView::ClearSession { chat_id } => sessions.remove(chat_id),
        _ => sessions,
    }
}

/// The store after the driver performed a list of actions, in order.
pub open spec fn sessions_after_all(sessions: Sessions, actions: Seq<RouterActionView>) -> Sessions
    decreases actions.len(),
{
    if actions.len() == 0 {
        sessions
    } else {
        sessions_after_all(sessions_after(sessions, actions[0]), actions.drop_first())
    }
}

/// No action of the list sends a message to a chat.
pub open spec fn never_sends(actions: Seq<RouterActionView>) -> bool {
    forall|i: int| 0 <= i < actions.len() ==> !(#[trigger] actions[i] is SendMessage)
}

/// The update that carries a text message of a chat.
pub open spec fn text_update(chat_id: i64, text: Seq<char>) -> RouterEventView {
    RouterEventView::Update(
        UpdateView::Message(InboundView { chat_id, voice_file_id: None, text: Some(text) }),
    )
}

/// The update that carries a voice message of a chat. A caption, if the
/// message has one, changes nothing.
pub open spec fn voice_update(chat_id: i64, file_id: Seq<char>, caption: Option<Seq<char>>) -> RouterEventView {
    RouterEventView::Update(
        UpdateView::Message(InboundView { chat_id, voice_file_id: Some(file_id), text: caption }),
    )
}

/// The events that an exchange may still take before it is over.
pub open spec fn exchange_steps_left(state: RouterStateView) -> nat {
    match state {
        RouterStateView::Idle => 17,
        RouterStateView::LocatingVoice { .. } => 16,
        RouterStateView::DownloadingVoice { .. } => 15,
        RouterStateView::Transcribing { .. } => 14,
        RouterStateView::ResolvingSession { .. } => 13,
        RouterStateView::CreatingThread { .. } => 12,
        RouterStateView::StoringSession { .. } => 11,
        RouterStateView::Running { run, .. } => steps_left(run) + 1,
        RouterStateView::DeletingThread { .. } => 2,
        RouterStateView::ClearingSession => 1,
        RouterStateView::Sending => 1,
        RouterStateView::Done => 0,
    }
}

/// Every step leads to a state that an exchange can be in, whatever state it
/// was taken from: a run that is over is never kept.
pub proof fn lemma_exchange_step_is_well_formed(
    config: ConfigView,
    state: RouterStateView,
    event: RouterEventView,
)
    ensures
        router_next(config, state, event).0.well_formed(),
{
}

/// An exchange is over exactly when its action is `Finish`.
pub proof fn lemma_finish_ends_exchange(
    config: ConfigView,
    state: RouterStateView,
    event: RouterEventView,
)
    ensures
        router_next(config, state, event).1 is Finish <==> router_next(config, state, event).0 is Done,
{
}

/// An exchange that is over stays over, whatever it is told.
pub proof fn lemma_done_is_absorbing(config: ConfigView, event: RouterEventView)
    ensures
        router_next(config, RouterStateView::Done, event) == (
            RouterStateView::Done,
            RouterActionView::Finish(Outcome::Failed(RouterError::UnexpectedEvent)),
        ),
{
}

/// Every event brings an exchange that is not over nearer to its end, so a
/// driver that feeds events until the action is `Finish` stops after at most
/// 17 of them.
pub proof fn lemma_exchange_progress(
    config: ConfigView,
    state: RouterStateView,
    event: RouterEventView,
)
    requires
        !(state is Done),
    ensures
        exchange_steps_left(router_next(config, state, event).0) < exchange_steps_left(state),
{
    match (state, event) {
        (RouterStateView::Running { chat_id, run }, RouterEventView::Assistant(run_event)) => {
            if !(run is Finished) {
                lemma_run_progress(run, run_event);
            }
        },
        _ => {},
    }
}

/// A message is sent to a chat only with the reply of the assistant's run, and
/// to the chat whose message the run answers.
pub proof fn lemma_only_replies_are_sent(
    config: ConfigView,
    state: RouterStateView,
    event: RouterEventView,
)
    requires
        router_next(config, state, event).1 is SendMessage,
    ensures
        state is Running,
        event is Assistant,
        ({
            let run_action = run_next(state->run, event->Assistant_0).1;
            let sent = router_next(config, state, event).1;
            &&& run_action == RunActionView::Reply(sent->SendMessage_text)
            &&& sent->SendMessage_chat_id == state->Running_chat_id
        }),
{
}

/// A thread is created for a session only after the store answered that the
/// chat has none, and never on the restart command.
pub proof fn lemma_thread_created_only_without_session(
    config: ConfigView,
    state: RouterStateView,
    event: RouterEventView,
)
    requires
        router_next(config, state, event).1 is CreateThread,
    ensures
        state is ResolvingSession,
        event == RouterEventView::Session(LookupView::Absent),
        state->ResolvingSession_text != restart_command(),
{
}

/// A chat without a session that sends a text other than the restart command
/// gets exactly one thread and exactly one mapping, in that order, before the
/// assistant's run begins; the store then maps the chat to that thread.
pub proof fn lemma_first_message_opens_session(
    config: ConfigView,
    sessions: Sessions,
    chat_id: i64,
    text: Seq<char>,
    thread_id: Seq<char>,
)
    requires
        !sessions.dom().contains(chat_id),
        text != restart_command(),
    ensures
        ({
            let events = seq![
                text_update(chat_id, text),
                RouterEventView::Session(lookup_in(sessions, chat_id)),
                RouterEventView::ThreadCreated(Some(thread_id)),
                RouterEventView::Done,
            ];
            let (end, actions) = router_trace(config, RouterStateView::Idle, events);
            &&& actions == seq![
                RouterActionView::LookupSession { chat_id },
                RouterActionView::CreateThread,
                RouterActionView::StoreSession { chat_id, thread_id },
                RouterActionView::Assistant(run_begin(config.assistant_id, text).1),
            ]
            &&& end == RouterStateView::Running {
                chat_id,
                run: run_begin(config.assistant_id, text).0,
            }
            &&& sessions_after_all(sessions, actions) == sessions.insert(chat_id, thread_id)
            &&& lookup_in(sessions_after_all(sessions, actions), chat_id) == LookupView::Thread(
                thread_id,
            )
        }),
{
    let e1 = text_update(chat_id, text);
    let e2 = RouterEventView::Session(lookup_in(sessions, chat_id));
    let e3 = RouterEventView::ThreadCreated(Some(thread_id));
    let e4 = RouterEventView::Done;
    lemma_trace_of_four(config, RouterStateView::Idle, e1, e2, e3, e4);
    let a1 = RouterActionView::LookupSession { chat_id };
    let a2 = RouterActionView::CreateThread;
    let a3 = RouterActionView::StoreSession { chat_id, thread_id };
    let a4 = RouterActionView::Assistant(run_begin(config.assistant_id, text).1);
    lemma_sessions_after_four(sessions, a1, a2, a3, a4);
}

/// The restart command of a chat with a session deletes the session's thread,
/// then clears its mapping, and sends nothing. The store then holds no session
/// for the chat, so the chat's next message gets a thread that is created for
/// it: the deleted one is not used again.
pub proof fn lemma_restart_ends_session(
    config: ConfigView,
    sessions: Sessions,
    chat_id: i64,
    next_text: Seq<char>,
)
    requires
        sessions.dom().contains(chat_id),
        next_text != restart_command(),
    ensures
        ({
            let restart = seq![
                text_update(chat_id, restart_command()),
                RouterEventView::Session(lookup_in(sessions, chat_id)),
                RouterEventView::Done,
                RouterEventView::Done,
            ];
            let (end, actions) = router_trace(config, RouterStateView::Idle, restart);
            let after = sessions_after_all(sessions, actions);
            let next = seq![
                text_update(chat_id, next_text),
                RouterEventView::Session(lookup_in(after, chat_id)),
            ];
            let (then, next_actions) = router_trace(config, RouterStateView::Idle, next);
            &&& end is Done
            &&& actions == seq![
                RouterActionView::LookupSession { chat_id },
                RouterActionView::DeleteThread { thread_id: sessions[chat_id] },
                RouterActionView::ClearSession { chat_id },
                RouterActionView::Finish(Outcome::Restarted),
            ]
            &&& never_sends(actions)
            &&& after == sessions.remove(chat_id)
            &&& lookup_in(after, chat_id) == LookupView::Absent
            &&& next_actions == seq![
                RouterActionView::LookupSession { chat_id },
                RouterActionView::CreateThread,
            ]
            &&& then == RouterStateView::CreatingThread { chat_id, text: next_text }
        }),
{
    let e1 = text_update(chat_id, restart_command());
    let e2 = RouterEventView::Session(lookup_in(sessions, chat_id));
    let e3 = RouterEventView::Done;
    lemma_trace_of_four(config, RouterStateView::Idle, e1, e2, e3, e3);
    let a1 = RouterActionView::LookupSession { chat_id };
    let a2 = RouterActionView::DeleteThread { thread_id: sessions[chat_id] };
    let a3 = RouterActionView::ClearSession { chat_id };
    let a4 = RouterActionView::Finish(Outcome::Restarted);
    lemma_sessions_after_four(sessions, a1, a2, a3, a4);
    let after = sessions.remove(chat_id);
    let n1 = text_update(chat_id, next_text);
    let n2 = RouterEventView::Session(lookup_in(after, chat_id));
    lemma_trace_of_two(config, RouterStateView::Idle, n1, n2);
}

/// The restart command of a chat without a session has nothing to end: no
/// thread is created or deleted, the store is left as it is, and nothing is
/// sent.
pub proof fn lemma_restart_without_session(config: ConfigView, sessions: Sessions, chat_id: i64)
    requires
        !sessions.dom().contains(chat_id),
    ensures
        ({
            let events = seq![
                text_update(chat_id, restart_command()),
                RouterEventView::Session(lookup_in(sessions, chat_id)),
            ];
            let (end, actions) = router_trace(config, RouterStateView::Idle, events);
            &&& end is Done
            &&& actions == seq![
                RouterActionView::LookupSession { chat_id },
                RouterActionView::Finish(Outcome::Restarted),
            ]
        }),
{
    let e1 = text_update(chat_id, restart_command());
    let e2 = RouterEventView::Session(lookup_in(sessions, chat_id));
    lemma_trace_of_two(config, RouterStateView::Idle, e1, e2);
}

/// A voice message whose file the platform does not locate is dropped:
/// nothing is sent to the chat.
pub proof fn lemma_unlocated_voice_is_skipped(
    config: ConfigView,
    chat_id: i64,
    file_id: Seq<char>,
    caption: Option<Seq<char>>,
)
    ensures
        ({
            let events = seq![
                voice_update(chat_id, file_id, caption),
                RouterEventView::VoiceLocated(None),
            ];
            let (end, actions) = router_trace(config, RouterStateView::Idle, events);
            &&& end is Done
            &&& actions == seq![
                RouterActionView::LocateVoice { file_id },
                RouterActionView::Finish(Outcome::Skipped),
            ]
            &&& never_sends(actions)
        }),
{
    lemma_trace_of_two(
        config,
        RouterStateView::Idle,
        voice_update(chat_id, file_id, caption),
        RouterEventView::VoiceLocated(None),
    );
}

/// A voice message whose download fails is dropped: nothing is transcribed
/// and nothing is sent to the chat.
pub proof fn lemma_failed_download_is_skipped(
    config: ConfigView,
    chat_id: i64,
    file_id: Seq<char>,
    caption: Option<Seq<char>>,
    file_path: Seq<char>,
)
    ensures
        ({
            let events = seq![
                voice_update(chat_id, file_id, caption),
                RouterEventView::VoiceLocated(Some(file_path)),
                RouterEventView::VoiceDownloaded(false),
            ];
            let (end, actions) = router_trace(config, RouterStateView::Idle, events);
            &&& end is Done
            &&& actions == seq![
                RouterActionView::LocateVoice { file_id },
                RouterActionView::DownloadVoice {
                    url: voice_url_text(config.telegram_token, file_path),
                    file_name: voice_file_text(file_id),
                },
                RouterActionView::Finish(Outcome::Skipped),
            ]
            &&& never_sends(actions)
        }),
{
    lemma_trace_of_three(
        config,
        RouterStateView::Idle,
        voice_update(chat_id, file_id, caption),
        RouterEventView::VoiceLocated(Some(file_path)),
        RouterEventView::VoiceDownloaded(false),
    );
}

/// A voice message whose transcription fails is dropped: nothing is sent to
/// the chat.
pub proof fn lemma_failed_transcription_is_skipped(
    config: ConfigView,
    chat_id: i64,
    file_id: Seq<char>,
    caption: Option<Seq<char>>,
    file_path: Seq<char>,
)
    ensures
        ({
            let events = seq![
                voice_update(chat_id, file_id, caption),
                RouterEventView::VoiceLocated(Some(file_path)),
                RouterEventView::VoiceDownloaded(true),
                RouterEventView::Transcribed(None),
            ];
            let (end, actions) = router_trace(config, RouterStateView::Idle, events);
            &&& end is Done
            &&& actions[3] == RouterActionView::Finish(Outcome::Skipped)
            &&& never_sends(actions)
        }),
{
    lemma_trace_of_four(
        config,
        RouterStateView::Idle,
        voice_update(chat_id, file_id, caption),
        RouterEventView::VoiceLocated(Some(file_path)),
        RouterEventView::VoiceDownloaded(true),
        RouterEventView::Transcribed(None),
    );
}

/// A voice message that is downloaded and transcribed is handled as the text
/// that was heard: the exchange stands where a typed message with that text
/// puts it, with the same action pending, and so goes on in the same way.
pub proof fn lemma_heard_text_is_handled_as_typed(
    config: ConfigView,
    chat_id: i64,
    file_id: Seq<char>,
    caption: Option<Seq<char>>,
    file_path: Seq<char>,
    heard: Seq<char>,
)
    ensures
        ({
            let events = seq![
                voice_update(chat_id, file_id, caption),
                RouterEventView::VoiceLocated(Some(file_path)),
                RouterEventView::VoiceDownloaded(true),
                RouterEventView::Transcribed(Some(heard)),
            ];
            let (end, actions) = router_trace(config, RouterStateView::Idle, events);
            let typed = router_next(config, RouterStateView::Idle, text_update(chat_id, heard));
            &&& end == typed.0
            &&& actions[3] == typed.1
            &&& typed == on_text(chat_id, heard)
            &&& actions[2] == RouterActionView::Transcribe { file_name: voice_file_text(file_id) }
        }),
{
    lemma_trace_of_four(
        config,
        RouterStateView::Idle,
        voice_update(chat_id, file_id, caption),
        RouterEventView::VoiceLocated(Some(file_path)),
        RouterEventView::VoiceDownloaded(true),
        RouterEventView::Transcribed(Some(heard)),
    );
}

/// The trace of two events, step by step.
pub proof fn lemma_trace_of_two(
    config: ConfigView,
    state: RouterStateView,
    e1: RouterEventView,
    e2: RouterEventView,
)
    ensures
        ({
            let (s1, a1) = router_next(config, state, e1);
            let (s2, a2) = router_next(config, s1, e2);
            router_trace(config, state, seq![e1, e2]) == (s2, seq![a1, a2])
        }),
{
    let (s1, a1) = router_next(config, state, e1);
    let (s2, a2) = router_next(config, s1, e2);
    let events = seq![e1, e2];
    assert(events.drop_first() == seq![e2]);
    assert(seq![e2].drop_first() == Seq::<RouterEventView>::empty());
    assert(router_trace(config, s2, Seq::<RouterEventView>::empty()).1 == Seq::<
        RouterActionView,
    >::empty());
    assert(router_trace(config, s1, seq![e2]) == (s2, seq![a2])) by {
        assert(seq![a2] + Seq::<RouterActionView>::empty() == seq![a2]);
    }
    assert(seq![a1] + seq![a2] == seq![a1, a2]);
}

/// The trace of three events, step by step.
pub proof fn lemma_trace_of_three(
    config: ConfigView,
    state: RouterStateView,
    e1: RouterEventView,
    e2: RouterEventView,
    e3: RouterEventView,
)
    ensures
        ({
            let (s1, a1) = router_next(config, state, e1);
            let (s2, a2) = router_next(config, s1, e2);
            let (s3, a3) = router_next(config, s2, e3);
            router_trace(config, state, seq![e1, e2, e3]) == (s3, seq![a1, a2, a3])
        }),
{
    let (s1, a1) = router_next(config, state, e1);
    let (s2, a2) = router_next(config, s1, e2);
    let (s3, a3) = router_next(config, s2, e3);
    lemma_trace_of_two(config, s1, e2, e3);
    assert(seq![e1, e2, e3].drop_first() == seq![e2, e3]);
    assert(seq![a1] + seq![a2, a3] == seq![a1, a2, a3]);
}

/// The trace of four events, step by step.
pub proof fn lemma_trace_of_four(
    config: ConfigView,
    state: RouterStateView,
    e1: RouterEventView,
    e2: RouterEventView,
    e3: RouterEventView,
    e4: RouterEventView,
)
    ensures
        ({
            let (s1, a1) = router_next(config, state, e1);
            let (s2, a2) = router_next(config, s1, e2);
            let (s3, a3) = router_next(config, s2, e3);
            let (s4, a4) = router_next(config, s3, e4);
            router_trace(config, state, seq![e1, e2, e3, e4]) == (s4, seq![a1, a2, a3, a4])
        }),
{
    let (s1, a1) = router_next(config, state, e1);
    let (s2, a2) = router_next(config, s1, e2);
    let (s3, a3) = router_next(config, s2, e3);
    let (s4, a4) = router_next(config, s3, e4);
    lemma_trace_of_three(config, s1, e2, e3, e4);
    assert(seq![e1, e2, e3, e4].drop_first() == seq![e2, e3, e4]);
    assert(seq![a1] + seq![a2, a3, a4] == seq![a1, a2, a3, a4]);
}

/// The store after four actions, one by one.
pub proof fn lemma_sessions_after_four(
    sessions: Sessions,
    a1: RouterActionView,
    a2: RouterActionView,
    a3: RouterActionView,
    a4: RouterActionView,
)
    ensures
        sessions_after_all(sessions, seq![a1, a2, a3, a4]) == sessions_after(
            sessions_after(sessions_after(sessions_after(sessions, a1), a2), a3),
            a4,
        ),
{
    reveal_with_fuel(sessions_after_all, 5);
    assert(seq![a1, a2, a3, a4].drop_first() == seq![a2, a3, a4]);
    assert(seq![a2, a3, a4].drop_first() == seq![a3, a4]);
    assert(seq![a3, a4].drop_first() == seq![a4]);
    assert(seq![a4].drop_first() == Seq::<RouterActionView>::empty());
}

} // verus!
