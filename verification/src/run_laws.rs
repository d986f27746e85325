//! What holds of every run: how it ends for each course of the polls, and how
//! long it can wait.
use vstd::prelude::*;
use crate::reply::{joined_text, ContentPartView};
use crate::run::{
    poll_action, run_begin, run_next, RunActionView, RunError,
    RunEventView, RunStateView, FETCH_LIMIT, MAX_POLLS, POLL_INTERVAL_SECS,
};
use crate::status::{timeout_text, RunStatus, StatusClass};

verus! {

/// The run of a state machine over a list of events: the state it ends in and
/// the actions it gave, one for each event, in order.
pub open spec fn run_trace(state: RunStateView, events: Seq<RunEventView>) -> (
    RunStateView,
    Seq<RunActionView>,
)
    decreases events.len(),
{
    if events.len() == 0 {
        (state, Seq::empty())
    } else {
        let (next, action) = run_next(state, events[0]);
        let (end, rest) = run_trace(next, events.drop_first());
        (end, seq![action] + rest)
    }
}

/// The answers of a list of polls, as events.
pub open spec fn status_events(statuses: Seq<RunStatus>) -> Seq<RunEventView> {
    Seq::new(statuses.len(), |i: int| RunEventView::Status(statuses[i]))
}

/// Every status of the list is pending.
pub open spec fn all_pending(statuses: Seq<RunStatus>) -> bool {
    forall|i: int| 0 <= i < statuses.len() ==> (#[trigger] statuses[i]).class() == StatusClass::Pending
}

/// The poll action of a run, `n` times.
pub open spec fn polls_of(thread_id: Seq<char>, run_id: Seq<char>, n: nat) -> Seq<RunActionView> {
    Seq::new(n, |i: int| poll_action(thread_id, run_id))
}

/// No action of the list fetches messages.
pub open spec fn never_fetches(actions: Seq<RunActionView>) -> bool {
    forall|i: int| 0 <= i < actions.len() ==> !(#[trigger] actions[i] is FetchLatest)
}

/// The seconds that a list of actions asks the driver to wait, in all.
pub open spec fn total_wait(actions: Seq<RunActionView>) -> nat
    decreases actions.len(),
{
    if actions.len() == 0 {
        0
    } else {
        let first: nat = match actions[0] {
            RunActionView::Poll { wait_secs, .. } => wait_secs as nat,
            _ => 0,
        };
        first + total_wait(actions.drop_first())
    }
}

/// The polls that a state may still ask for.
pub open spec fn polls_left(state: RunStateView) -> nat {
    match state {
        RunStateView::CreatingThread { .. } => MAX_POLLS as nat,
        RunStateView::Posting { .. } => MAX_POLLS as nat,
        RunStateView::Starting { .. } => MAX_POLLS as nat,
        RunStateView::Polling { polls, .. } => if polls <= MAX_POLLS {
            (MAX_POLLS - polls) as nat
        } else {
            0
        },
        RunStateView::Fetching => 0,
        RunStateView::Finished => 0,
    }
}

/// The events that a state may still take before the run is over.
pub open spec fn steps_left(state: RunStateView) -> nat {
    match state {
        RunStateView::CreatingThread { .. } => MAX_POLLS as nat + 4,
        RunStateView::Posting { .. } => MAX_POLLS as nat + 3,
        RunStateView::Starting { .. } => MAX_POLLS as nat + 2,
        RunStateView::Polling { .. } => polls_left(state) + 2,
        RunStateView::Fetching => 1,
        RunStateView::Finished => 0,
    }
}

/// Every step leads to a state that a run can be in, whatever state it was
/// taken from: the polls of a run never pass `MAX_POLLS`.
pub proof fn lemma_step_is_well_formed(state: RunStateView, event: RunEventView)
    ensures
        run_next(state, event).0.well_formed(),
{
}

/// A run is over exactly when its action is final: a reply or an abort.
pub proof fn lemma_final_action_ends_run(state: RunStateView, event: RunEventView)
    ensures
        run_next(state, event).1.is_final() <==> run_next(state, event).0 is Finished,
{
}

/// A run that is over stays over, whatever it is told.
pub proof fn lemma_finished_is_absorbing(event: RunEventView)
    ensures
        run_next(RunStateView::Finished, event) == (
            RunStateView::Finished,
            RunActionView::Abort(RunError::UnexpectedEvent),
        ),
{
}

/// Every event brings a run that is not over nearer to its end, so a driver
/// that feeds events until the action is final stops after at most
/// `MAX_POLLS + 4` of them.
pub proof fn lemma_run_progress(state: RunStateView, event: RunEventView)
    requires
        !(state is Finished),
    ensures
        steps_left(run_next(state, event).0) < steps_left(state),
{
}

/// A failed call ends the run with the error of the call that was pending.
pub proof fn lemma_failed_call_aborts(state: RunStateView)
    requires
        !(state is Finished),
    ensures
        run_next(state, RunEventView::CallFailed).0 is Finished,
        run_next(state, RunEventView::CallFailed).1 is Abort,
        run_next(state, RunEventView::CallFailed).1 != RunActionView::Abort(
            RunError::UnexpectedEvent,
        ),
{
}

/// The trace of a list of events followed by another is the trace of the
/// first, continued by the trace of the second from where the first ended.
pub proof fn lemma_trace_concat(
    state: RunStateView,
    first: Seq<RunEventView>,
    second: Seq<RunEventView>,
)
    ensures
        run_trace(state, first + second).0 == run_trace(run_trace(state, first).0, second).0,
        run_trace(state, first + second).1 == run_trace(state, first).1 + run_trace(
            run_trace(state, first).0,
            second,
        ).1,
    decreases first.len(),
{
    if first.len() == 0 {
        assert(first + second == second);
        assert(Seq::<RunActionView>::empty() + run_trace(state, second).1 == run_trace(
            state,
            second,
        ).1);
    } else {
        let (next, action) = run_next(state, first[0]);
        lemma_trace_concat(next, first.drop_first(), second);
        assert((first + second).drop_first() == first.drop_first() + second);
        assert((first + second)[0] == first[0]);
        let a = run_trace(next, first.drop_first()).1;
        let b = run_trace(run_trace(state, first).0, second).1;
        assert(seq![action] + (a + b) == (seq![action] + a) + b);
    }
}

/// While the polls find the run pending and fewer than `MAX_POLLS` were made,
/// each answer leads to one more poll and to nothing else.
pub proof fn lemma_pending_polls_repeat(
    thread_id: Seq<char>,
    run_id: Seq<char>,
    polls: u8,
    statuses: Seq<RunStatus>,
)
    requires
        all_pending(statuses),
        polls + statuses.len() <= MAX_POLLS,
    ensures
        run_trace(RunStateView::Polling { thread_id, run_id, polls }, status_events(statuses)) == (
            RunStateView::Polling { thread_id, run_id, polls: (polls + statuses.len()) as u8 },
            polls_of(thread_id, run_id, statuses.len()),
        ),
    decreases statuses.len(),
{
    let state = RunStateView::Polling { thread_id, run_id, polls };
    let events = status_events(statuses);
    if statuses.len() == 0 {
        assert(polls_of(thread_id, run_id, 0) == Seq::<RunActionView>::empty());
    } else {
        assert(statuses[0].class() == StatusClass::Pending);
        assert(events[0] == RunEventView::Status(statuses[0]));
        let rest = statuses.drop_first();
        assert(events.drop_first() == status_events(rest));
        assert(all_pending(rest)) by {
            assert forall|i: int| 0 <= i < rest.len() implies (#[trigger] rest[i]).class()
                == StatusClass::Pending by {
                assert(rest[i] == statuses[i + 1]);
            }
        }
        lemma_pending_polls_repeat(thread_id, run_id, (polls + 1) as u8, rest);
        assert(seq![poll_action(thread_id, run_id)] + polls_of(thread_id, run_id, rest.len())
            == polls_of(thread_id, run_id, statuses.len()));
    }
}

/// A run that every one of `MAX_POLLS` polls finds pending ends with the
/// timeout reply, after `MAX_POLLS` polls in all, and fetches no message.
pub proof fn lemma_timeout_when_always_pending(
    thread_id: Seq<char>,
    run_id: Seq<char>,
    statuses: Seq<RunStatus>,
)
    requires
        statuses.len() == MAX_POLLS,
        all_pending(statuses),
    ensures
        ({
            let start = RunStateView::Polling { thread_id, run_id, polls: 1 };
            let (end, actions) = run_trace(start, status_events(statuses));
            &&& end is Finished
            &&& actions == polls_of(thread_id, run_id, (MAX_POLLS - 1) as nat).push(
                RunActionView::Reply(timeout_text()),
            )
            &&& never_fetches(actions)
        }),
{
    let start = RunStateView::Polling { thread_id, run_id, polls: 1 };
    let front = statuses.drop_last();
    let last = seq![statuses.last()];
    assert(statuses == front + last);
    assert(status_events(statuses) == status_events(front) + status_events(last));
    assert(all_pending(front)) by {
        assert forall|i: int| 0 <= i < front.len() implies (#[trigger] front[i]).class()
            == StatusClass::Pending by {
            assert(front[i] == statuses[i]);
        }
    }
    lemma_pending_polls_repeat(thread_id, run_id, 1, front);
    lemma_trace_concat(start, status_events(front), status_events(last));
    let waiting = RunStateView::Polling { thread_id, run_id, polls: MAX_POLLS };
    assert(run_trace(start, status_events(front)).0 == waiting);
    lemma_single_event_trace(waiting, RunEventView::Status(statuses.last()));
    assert(status_events(last) == seq![RunEventView::Status(statuses.last())]);
    assert(statuses.last().class() == StatusClass::Pending);
}

/// The trace of one event is the one step that it causes.
pub proof fn lemma_single_event_trace(state: RunStateView, event: RunEventView)
    ensures
        run_trace(state, seq![event]) == (
            run_next(state, event).0,
            seq![run_next(state, event).1],
        ),
{
    let events = seq![event];
    assert(events.drop_first().len() == 0);
    let next = run_next(state, event).0;
    assert(run_trace(next, events.drop_first()) == (next, Seq::<RunActionView>::empty()));
    assert(seq![run_next(state, event).1] + Seq::<RunActionView>::empty() == seq![
        run_next(state, event).1,
    ]);
}

/// A halted status ends the run at once with the fixed reply of that status:
/// after any number of pending polls below `MAX_POLLS`, the answer
/// `status` gives the reply and nothing is fetched.
pub proof fn lemma_halted_run_gives_fixed_reply(
    thread_id: Seq<char>,
    run_id: Seq<char>,
    pending: Seq<RunStatus>,
    status: RunStatus,
)
    requires
        all_pending(pending),
        pending.len() < MAX_POLLS,
        status.class() == StatusClass::Halted,
    ensures
        ({
            let start = RunStateView::Polling { thread_id, run_id, polls: 1 };
            let (end, actions) = run_trace(start, status_events(pending.push(status)));
            &&& end is Finished
            &&& actions == polls_of(thread_id, run_id, pending.len()).push(
                RunActionView::Reply(status.halt_text().unwrap()),
            )
            &&& never_fetches(actions)
        }),
{
    let start = RunStateView::Polling { thread_id, run_id, polls: 1 };
    let last = seq![status];
    assert(pending.push(status) == pending + last);
    assert(status_events(pending + last) == status_events(pending) + status_events(last));
    lemma_pending_polls_repeat(thread_id, run_id, 1, pending);
    lemma_trace_concat(start, status_events(pending), status_events(last));
    let waiting = RunStateView::Polling {
        thread_id,
        run_id,
        polls: (1 + pending.len()) as u8,
    };
    lemma_single_event_trace(waiting, RunEventView::Status(status));
    assert(status_events(last) == seq![RunEventView::Status(status)]);
}

/// A completed run has the newest message fetched and replies with its text:
/// after any number of pending polls below `MAX_POLLS`, the answer
/// `Completed` asks for the last `FETCH_LIMIT` messages of the run's thread, and
/// a page that is not empty gives the reply of its last message.
pub proof fn lemma_completed_run_gives_latest_message(
    thread_id: Seq<char>,
    run_id: Seq<char>,
    pending: Seq<RunStatus>,
    page: Seq<Seq<ContentPartView>>,
)
    requires
        all_pending(pending),
        pending.len() < MAX_POLLS,
        page.len() > 0,
    ensures
        ({
            let start = RunStateView::Polling { thread_id, run_id, polls: 1 };
            let events = status_events(pending.push(RunStatus::Completed)).push(
                RunEventView::Messages(page),
            );
            let (end, actions) = run_trace(start, events);
            &&& end is Finished
            &&& actions == polls_of(thread_id, run_id, pending.len()).push(
                RunActionView::FetchLatest { thread_id, limit: FETCH_LIMIT },
            ).push(RunActionView::Reply(joined_text(page.last())))
        }),
{
    let start = RunStateView::Polling { thread_id, run_id, polls: 1 };
    let done = seq![RunEventView::Status(RunStatus::Completed)];
    let fetched = seq![RunEventView::Messages(page)];
    let events = status_events(pending.push(RunStatus::Completed)).push(
        RunEventView::Messages(page),
    );
    assert(status_events(pending.push(RunStatus::Completed)) == status_events(pending) + done);
    assert(events == (status_events(pending) + done) + fetched);
    lemma_pending_polls_repeat(thread_id, run_id, 1, pending);
    lemma_trace_concat(start, status_events(pending) + done, fetched);
    lemma_trace_concat(start, status_events(pending), done);
    let waiting = RunStateView::Polling {
        thread_id,
        run_id,
        polls: (1 + pending.len()) as u8,
    };
    lemma_single_event_trace(waiting, RunEventView::Status(RunStatus::Completed));
    lemma_single_event_trace(RunStateView::Fetching, RunEventView::Messages(page));
}

/// The events of a run up to its first poll, when every call works.
pub open spec fn opening_events(thread_id: Seq<char>, run_id: Seq<char>) -> Seq<RunEventView> {
    seq![
        RunEventView::ThreadCreated(thread_id),
        RunEventView::MessagePosted,
        RunEventView::RunStarted(run_id),
    ]
}

/// A run whose calls work posts the text into the thread that was created for
/// it, starts the assistant on that thread, and asks for the first poll.
pub proof fn lemma_run_opening(
    assistant_id: Seq<char>,
    text: Seq<char>,
    thread_id: Seq<char>,
    run_id: Seq<char>,
)
    ensures
        run_trace(run_begin(assistant_id, text).0, opening_events(thread_id, run_id)) == (
            RunStateView::Polling { thread_id, run_id, polls: 1 },
            seq![
                RunActionView::PostMessage { thread_id, text },
                RunActionView::StartRun { thread_id, assistant_id },
                poll_action(thread_id, run_id),
            ],
        ),
{
    let e1 = RunEventView::ThreadCreated(thread_id);
    let e2 = RunEventView::MessagePosted;
    let e3 = RunEventView::RunStarted(run_id);
    let start = run_begin(assistant_id, text).0;
    let posting = RunStateView::Posting { assistant_id, thread_id };
    let starting = RunStateView::Starting { thread_id };
    assert(opening_events(thread_id, run_id) == (seq![e1] + seq![e2]) + seq![e3]);
    lemma_single_event_trace(start, e1);
    lemma_single_event_trace(posting, e2);
    lemma_single_event_trace(starting, e3);
    lemma_trace_concat(start, seq![e1], seq![e2]);
    lemma_trace_concat(start, seq![e1] + seq![e2], seq![e3]);
    let a1 = RunActionView::PostMessage { thread_id, text };
    let a2 = RunActionView::StartRun { thread_id, assistant_id };
    let a3 = poll_action(thread_id, run_id);
    assert((seq![a1] + seq![a2]) + seq![a3] == seq![a1, a2, a3]);
}

/// A whole run that every one of its `MAX_POLLS` polls finds pending replies
/// with the timeout text and never fetches a message.
pub proof fn lemma_whole_run_times_out(
    assistant_id: Seq<char>,
    text: Seq<char>,
    thread_id: Seq<char>,
    run_id: Seq<char>,
    statuses: Seq<RunStatus>,
)
    requires
        statuses.len() == MAX_POLLS,
        all_pending(statuses),
    ensures
        ({
            let events = opening_events(thread_id, run_id) + status_events(statuses);
            let (end, actions) = run_trace(run_begin(assistant_id, text).0, events);
            &&& end is Finished
            &&& actions.len() == events.len()
            &&& actions.last() == RunActionView::Reply(timeout_text())
            &&& never_fetches(actions)
        }),
{
    let start = run_begin(assistant_id, text).0;
    lemma_run_opening(assistant_id, text, thread_id, run_id);
    lemma_timeout_when_always_pending(thread_id, run_id, statuses);
    lemma_trace_concat(start, opening_events(thread_id, run_id), status_events(statuses));
}

/// The waits of two lists of actions add up.
pub proof fn lemma_total_wait_concat(a: Seq<RunActionView>, b: Seq<RunActionView>)
    ensures
        total_wait(a + b) == total_wait(a) + total_wait(b),
    decreases a.len(),
{
    if a.len() == 0 {
        assert(a + b == b);
    } else {
        lemma_total_wait_concat(a.drop_first(), b);
        assert((a + b).drop_first() == a.drop_first() + b);
        assert((a + b)[0] == a[0]);
    }
}

/// From any state, whatever the events, the actions ask the driver to wait no
/// longer than the polls that are left take.
pub proof fn lemma_wait_within_polls_left(state: RunStateView, events: Seq<RunEventView>)
    ensures
        total_wait(run_trace(state, events).1) <= polls_left(state) * POLL_INTERVAL_SECS,
    decreases events.len(),
{
    if events.len() == 0 {
        assert(polls_left(state) * POLL_INTERVAL_SECS >= 0) by (nonlinear_arith);
    } else {
        let (next, action) = run_next(state, events[0]);
        let rest = run_trace(next, events.drop_first()).1;
        lemma_wait_within_polls_left(next, events.drop_first());
        lemma_total_wait_concat(seq![action], rest);
        assert(seq![action].drop_first().len() == 0);
        assert(total_wait(seq![action].drop_first()) == 0);
        let first: nat = match action {
            RunActionView::Poll { wait_secs, .. } => wait_secs as nat,
            _ => 0,
        };
        assert(total_wait(seq![action]) == first);
        assert(first + polls_left(next) * POLL_INTERVAL_SECS <= polls_left(state)
            * POLL_INTERVAL_SECS) by {
            if action is Poll {
                assert(first == POLL_INTERVAL_SECS);
                assert(polls_left(next) + 1 <= polls_left(state));
                assert((polls_left(next) + 1) * POLL_INTERVAL_SECS <= polls_left(state)
                    * POLL_INTERVAL_SECS) by (nonlinear_arith)
                    requires
                        polls_left(next) + 1 <= polls_left(state),
                ;
                assert((polls_left(next) + 1) * POLL_INTERVAL_SECS == polls_left(next)
                    * POLL_INTERVAL_SECS + POLL_INTERVAL_SECS) by (nonlinear_arith);
            } else {
                assert(polls_left(next) <= polls_left(state));
                assert(polls_left(next) * POLL_INTERVAL_SECS <= polls_left(state)
                    * POLL_INTERVAL_SECS) by (nonlinear_arith)
                    requires
                        polls_left(next) <= polls_left(state),
                ;
            }
        }
    }
}

/// A whole run, whatever the service answers, waits at most
/// `MAX_POLLS * POLL_INTERVAL_SECS` seconds in all.
pub proof fn lemma_run_wait_bounded(
    assistant_id: Seq<char>,
    text: Seq<char>,
    events: Seq<RunEventView>,
)
    ensures
        total_wait(run_trace(run_begin(assistant_id, text).0, events).1) <= MAX_POLLS
            * POLL_INTERVAL_SECS,
        MAX_POLLS * POLL_INTERVAL_SECS == 40,
{
    lemma_wait_within_polls_left(run_begin(assistant_id, text).0, events);
}

} // verus!
