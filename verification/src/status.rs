//! Run statuses of the assistant service and what each one means for a
//! waiting caller.
use vstd::prelude::*;
use vstd::string::StringExecFns;

verus! {

/// The status that the assistant service reports for a run.
#[derive(Clone, Copy, Debug, PartialEq, Eq, Structural)]
pub enum RunStatus {
    Queued,
    InProgress,
    RequiresAction,
    Cancelling,
    Cancelled,
    Failed,
    Completed,
    Expired,
}

/// What a reported status means for the caller that waits for the run.
#[derive(Clone, Copy, Debug, PartialEq, Eq, Structural)]
pub enum StatusClass {
    /// The run may still change: ask again.
    Pending,
    /// The run ended without a reply.
    Halted,
    /// The run ended and the thread holds a reply.
    Completed,
}

/// The reply given when a run needs an action that nobody will supply.
pub open spec fn action_required_text() -> Seq<char> {
    "Action required for OpenAI assistant"@
}

/// The reply given for a cancelled run.
pub open spec fn cancelled_text() -> Seq<char> {
    "Run is cancelled"@
}

/// The reply given for a failed run.
pub open spec fn failed_text() -> Seq<char> {
    "Run is failed"@
}

/// The reply given for an expired run.
pub open spec fn expired_text() -> Seq<char> {
    "Run is expired"@
}

/// The reply given when the run was still pending at the last poll.
pub open spec fn timeout_text() -> Seq<char> {
    "Timeout"@
}

impl RunStatus {
    /// The class of this status.
    pub open spec fn class(self) -> StatusClass {
        match self {
            RunStatus::Queued | RunStatus::InProgress | RunStatus::Cancelling => StatusClass::Pending,
            RunStatus::RequiresAction
            | RunStatus::Cancelled
            | RunStatus::Failed
            | RunStatus::Expired => StatusClass::Halted,
            RunStatus::Completed => StatusClass::Completed,
        }
    }

    /// A status is terminal when no later poll can report another one.
    pub open spec fn is_terminal(self) -> bool {
        self.class() != StatusClass::Pending
    }

    /// The fixed reply of a halted run; `None` for every other status.
    pub open spec fn halt_text(self) -> Option<Seq<char>> {
        match self {
            RunStatus::RequiresAction => Some(action_required_text()),
            RunStatus::Cancelled => Some(cancelled_text()),
            RunStatus::Failed => Some(failed_text()),
            RunStatus::Expired => Some(expired_text()),
            _ => None,
        }
    }

    /// Classifies a status.
    pub fn classify(self) -> (class: StatusClass)
        ensures
            class == self.class(),
    {
        match self {
            RunStatus::Queued | RunStatus::InProgress | RunStatus::Cancelling => StatusClass::Pending,
            RunStatus::RequiresAction
            | RunStatus::Cancelled
            | RunStatus::Failed
            | RunStatus::Expired => StatusClass::Halted,
            RunStatus::Completed => StatusClass::Completed,
        }
    }

    /// The fixed reply for a halted run, and nothing for any other status.
    pub fn halt_message(self) -> (message: Option<String>)
        ensures
            message is Some <==> self.class() == StatusClass::Halted,
            match message {
                Some(m) => self.halt_text() == Some(m@),
                None => self.halt_text() is None,
            },
    {
        match self {
            RunStatus::RequiresAction => Some(
                String::from_str("Action required for OpenAI assistant"),
            ),
            RunStatus::Cancelled => Some(String::from_str("Run is cancelled")),
            RunStatus::Failed => Some(String::from_str("Run is failed")),
            RunStatus::Expired => Some(String::from_str("Run is expired")),
            _ => None,
        }
    }
}

/// The reply for a run that was still pending at the last poll.
pub fn timeout_message() -> (message: String)
    ensures
        message@ == timeout_text(),
{
    String::from_str("Timeout")
}

/// A halted status has a fixed reply, and only a halted status has one.
pub proof fn lemma_halt_text_iff_halted(status: RunStatus)
    ensures
        status.halt_text() is Some <==> status.class() == StatusClass::Halted,
{
}

/// The five fixed replies are pairwise different, so a reply tells which
/// ending the run took.
pub proof fn lemma_fixed_replies_differ()
    ensures
        action_required_text() != cancelled_text(),
        action_required_text() != failed_text(),
        action_required_text() != expired_text(),
        action_required_text() != timeout_text(),
        cancelled_text() != failed_text(),
        cancelled_text() != expired_text(),
        cancelled_text() != timeout_text(),
        failed_text() != expired_text(),
        failed_text() != timeout_text(),
        expired_text() != timeout_text(),
{
    reveal_strlit("Action required for OpenAI assistant");
    reveal_strlit("Run is cancelled");
    reveal_strlit("Run is failed");
    reveal_strlit("Run is expired");
    reveal_strlit("Timeout");
    assert(action_required_text().len() == 36);
    assert(cancelled_text().len() == 16);
    assert(failed_text().len() == 13);
    assert(expired_text().len() == 14);
    assert(timeout_text().len() == 7);
}

} // verus!
