//! Task lifecycle status and validated transitions.

use vstd::prelude::*;

use crate::terminal_cause::{cause_terminal_status, OriginatingCause, TerminalCause};
use crate::text::{debug_quote, debug_text, same_text};

verus! {

/// Lifecycle status of a task.
#[derive(Debug, Clone, Copy, PartialEq, Eq, Structural, Hash, PartialOrd, Ord)]
pub enum TaskStatus {
    /// Task has been admitted but not yet queued or started.
    Admitted,
    /// Task is waiting in the admission queue.
    Queued,
    /// Task is actively executing.
    Running,
    /// The task has entered its irreversible sealing region.
    Sealing,
    /// Task completed successfully.
    Done,
    /// Task failed with an error.
    Failed,
    /// Task was cancelled before completion.
    Cancelled,
}

/// The error text for a label that names no status.
pub open spec fn unknown_status_text(label: Seq<char>) -> Seq<char> {
    "unknown task status "@ + debug_text(label)
}

impl TaskStatus {
    /// Every lifecycle status in declaration order.
    pub const ALL: [TaskStatus; 7] = [
        TaskStatus::Admitted,
        TaskStatus::Queued,
        TaskStatus::Running,
        TaskStatus::Sealing,
        TaskStatus::Done,
        TaskStatus::Failed,
        TaskStatus::Cancelled,
    ];

    pub open spec fn spec_is_terminal(self) -> bool {
        self is Done || self is Failed || self is Cancelled
    }

    pub open spec fn spec_requires_cause(self) -> bool {
        self is Failed || self is Cancelled
    }

    pub open spec fn label(self) -> Seq<char> {
        match self {
            TaskStatus::Admitted => "admitted"@,
            TaskStatus::Queued => "queued"@,
            TaskStatus::Running => "running"@,
            TaskStatus::Sealing => "sealing"@,
            TaskStatus::Done => "done"@,
            TaskStatus::Failed => "failed"@,
            TaskStatus::Cancelled => "cancelled"@,
        }
    }

    /// Returns `true` if this status is terminal.
    pub fn is_terminal(self) -> (r: bool)
        ensures
            r == self.spec_is_terminal(),
    {
        match self {
            TaskStatus::Done | TaskStatus::Failed | TaskStatus::Cancelled => true,
            _ => false,
        }
    }

    /// Returns a static string label for the status.
    pub fn as_str(self) -> (r: &'static str)
        ensures
            r@ == self.label(),
    {
        match self {
            TaskStatus::Admitted => "admitted",
            TaskStatus::Queued => "queued",
            TaskStatus::Running => "running",
            TaskStatus::Sealing => "sealing",
            TaskStatus::Done => "done",
            TaskStatus::Failed => "failed",
            TaskStatus::Cancelled => "cancelled",
        }
    }

    /// Parse a status from its canonical label.
    ///
    /// Returns the unrecognized label, quoted, when no variant matches.
    pub fn parse_label(label: &str) -> (r: Result<Self, String>)
        ensures
            r matches Ok(s) ==> s.label() == label@,
            r is Err <==> (forall|s: TaskStatus| s.label() != label@),
            r matches Err(msg) ==> msg@ == unknown_status_text(label@),
    {
        let all = TaskStatus::ALL;
        let mut i: usize = 0;
        while i < 7
            invariant
                all@ == TaskStatus::ALL@,
                i <= 7,
                forall|j: int| 0 <= j < i ==> (#[trigger] all@[j]).label() != label@,
            decreases 7 - i,
        {
            let status = all[i];
            if same_text(status.as_str(), label) {
                return Ok(status);
            }
            i = i + 1;
        }
        assert forall|s: TaskStatus| s.label() != label@ by {
            match s {
                TaskStatus::Admitted => assert(all@[0] == s),
                TaskStatus::Queued => assert(all@[1] == s),
                TaskStatus::Running => assert(all@[2] == s),
                TaskStatus::Sealing => assert(all@[3] == s),
                TaskStatus::Done => assert(all@[4] == s),
                TaskStatus::Failed => assert(all@[5] == s),
                TaskStatus::Cancelled => assert(all@[6] == s),
            }
        }
        let mut msg = String::from_str("unknown task status ");
        let quoted = debug_quote(label);
        msg.append(quoted.as_str());
        Err(msg)
    }

    /// Whether a transition into this status must carry a [`TerminalCause`]:
    /// `Failed` and `Cancelled` do, nothing else may.
    pub fn requires_cause(self) -> (r: bool)
        ensures
            r == self.spec_requires_cause(),
    {
        match self {
            TaskStatus::Failed | TaskStatus::Cancelled => true,
            _ => false,
        }
    }

    /// Validate the *edge* of a lifecycle transition, ignoring the cause a
    /// terminal edge must carry.
    pub fn validate_transition(self, next: Self) -> (r: Result<(), TaskTransitionError>)
        ensures
            r is Ok <==> legal_edge(self, next),
            r is Err ==> r == Err::<(), TaskTransitionError>(
                TaskTransitionError::IllegalEdge { from: self, to: next },
            ),
    {
        if TaskTransition::edge_is_legal(self, next) {
            Ok(())
        } else {
            Err(TaskTransitionError::IllegalEdge { from: self, to: next })
        }
    }
}

/// The state machine's legal edges. A task may fail before it ever runs
/// (an inherited deadline or an exhausted budget is a hard limit wherever it
/// lands) but only a running task can succeed, and the irreversible sealing
/// region refuses cancellation.
pub open spec fn legal_edge(from: TaskStatus, to: TaskStatus) -> bool {
    match from {
        TaskStatus::Admitted => to is Queued || to is Running || to is Failed || to is Cancelled,
        TaskStatus::Queued => to is Running || to is Failed || to is Cancelled,
        TaskStatus::Running => to is Sealing || to is Done || to is Failed || to is Cancelled,
        TaskStatus::Sealing => to is Done || to is Failed,
        _ => false,
    }
}

/// A refused task lifecycle transition.
#[derive(Debug, Clone, Copy, PartialEq, Eq, Structural)]
pub enum TaskTransitionError {
    /// The edge is outside the state machine.
    IllegalEdge {
        /// The current status.
        from: TaskStatus,
        /// The refused target status.
        to: TaskStatus,
    },
    /// A terminal edge was built without saying why.
    MissingCause {
        /// The terminal status reached without a cause.
        to: TaskStatus,
    },
    /// A non-terminal edge, or the one into `Done`, carried a cause.
    UnexpectedCause {
        /// The target status the cause was offered for.
        to: TaskStatus,
    },
    /// The cause ends a task in a different status than the edge names.
    CauseMismatch {
        /// The cause offered.
        cause: OriginatingCause,
        /// The status that cause ends in.
        expected: TaskStatus,
        /// The status the edge named.
        to: TaskStatus,
    },
}

/// The message a refused transition displays.
pub open spec fn transition_error_text(e: TaskTransitionError) -> Seq<char> {
    match e {
        TaskTransitionError::IllegalEdge { from, to } => "invalid task transition from "@
            + from.label() + " to "@ + to.label(),
        TaskTransitionError::MissingCause { to } => "terminal transition to "@ + to.label()
            + " carries no cause"@,
        TaskTransitionError::UnexpectedCause { to } => "transition to "@ + to.label()
            + " cannot carry a terminal cause"@,
        TaskTransitionError::CauseMismatch { cause, expected, to } => "terminal cause "@
            + cause.label() + " ends a task in "@ + expected.label() + ", not "@ + to.label(),
    }
}

impl TaskTransitionError {
    /// The message (what `Display` prints).
    pub fn to_string(&self) -> (r: String)
        ensures
            r@ == transition_error_text(*self),
    {
        match *self {
            TaskTransitionError::IllegalEdge { from, to } => {
                let mut s = String::from_str("invalid task transition from ");
                s.append(from.as_str());
                s.append(" to ");
                s.append(to.as_str());
                s
            },
            TaskTransitionError::MissingCause { to } => {
                let mut s = String::from_str("terminal transition to ");
                s.append(to.as_str());
                s.append(" carries no cause");
                s
            },
            TaskTransitionError::UnexpectedCause { to } => {
                let mut s = String::from_str("transition to ");
                s.append(to.as_str());
                s.append(" cannot carry a terminal cause");
                s
            },
            TaskTransitionError::CauseMismatch { cause, expected, to } => {
                let mut s = String::from_str("terminal cause ");
                s.append(cause.as_str());
                s.append(" ends a task in ");
                s.append(expected.as_str());
                s.append(", not ");
                s.append(to.as_str());
                s
            },
        }
    }
}

/// The outcome of building the transition `from -> to` carrying `cause`.
pub open spec fn transition_outcome(
    from: TaskStatus,
    to: TaskStatus,
    cause: Option<TerminalCause>,
) -> Result<(TaskStatus, TaskStatus, Option<TerminalCause>), TaskTransitionError> {
    if !legal_edge(from, to) {
        Err(TaskTransitionError::IllegalEdge { from, to })
    } else {
        match cause {
            None => if to.spec_requires_cause() {
                Err(TaskTransitionError::MissingCause { to })
            } else {
                Ok((from, to, None))
            },
            Some(c) => if !to.spec_requires_cause() {
                Err(TaskTransitionError::UnexpectedCause { to })
            } else if cause_terminal_status(c@) != to {
                Err(
                    TaskTransitionError::CauseMismatch {
                        cause: c@.0,
                        expected: cause_terminal_status(c@),
                        to,
                    },
                )
            } else {
                Ok((from, to, Some(c)))
            },
        }
    }
}

/// A legal edge, carrying a cause exactly when it ends in `Failed` or
/// `Cancelled`, and then one that ends where the edge does.
pub open spec fn valid_transition(
    from: TaskStatus,
    to: TaskStatus,
    cause: Option<TerminalCause>,
) -> bool {
    &&& legal_edge(from, to)
    &&& cause is Some == to.spec_requires_cause()
    &&& (cause matches Some(c) ==> cause_terminal_status(c@) == to)
}

/// One validated lifecycle transition: a legal edge, carrying the
/// [`TerminalCause`] exactly when it ends in `Failed` or `Cancelled`.
#[derive(Debug, Clone, Copy, PartialEq, Eq, Structural)]
pub struct TaskTransition {
    from: TaskStatus,
    to: TaskStatus,
    cause: Option<TerminalCause>,
}

impl View for TaskTransition {
    type V = (TaskStatus, TaskStatus, Option<TerminalCause>);

    closed spec fn view(&self) -> (TaskStatus, TaskStatus, Option<TerminalCause>) {
        (self.from, self.to, self.cause)
    }
}

impl TaskTransition {
    #[verifier::type_invariant]
    spec fn well_formed(self) -> bool {
        valid_transition(self.from, self.to, self.cause)
    }

    /// Validate and construct one state-machine edge.
    ///
    /// A move into `Failed` or `Cancelled` must carry a cause whose own
    /// terminal status is that status; every other move must carry none.
    pub fn try_new(from: TaskStatus, to: TaskStatus, cause: Option<TerminalCause>) -> (r: Result<
        Self,
        TaskTransitionError,
    >)
        ensures
            (match transition_outcome(from, to, cause) {
                Ok(v) => r matches Ok(t) && t@ == v,
                Err(e) => r == Err::<Self, TaskTransitionError>(e),
            }),
    {
        if !Self::edge_is_legal(from, to) {
            return Err(TaskTransitionError::IllegalEdge { from, to });
        }
        match cause {
            None => {
                if to.requires_cause() {
                    Err(TaskTransitionError::MissingCause { to })
                } else {
                    Ok(TaskTransition { from, to, cause: None })
                }
            },
            Some(c) => {
                if !to.requires_cause() {
                    return Err(TaskTransitionError::UnexpectedCause { to });
                }
                let expected = c.terminal_status();
                if expected != to {
                    return Err(
                        TaskTransitionError::CauseMismatch { cause: c.origin(), expected, to },
                    );
                }
                Ok(TaskTransition { from, to, cause: Some(c) })
            },
        }
    }

    /// Whether `from -> to` is an edge of the state machine.
    pub fn edge_is_legal(from: TaskStatus, to: TaskStatus) -> (r: bool)
        ensures
            r == legal_edge(from, to),
    {
        match from {
            TaskStatus::Admitted => match to {
                TaskStatus::Queued | TaskStatus::Running | TaskStatus::Failed
                | TaskStatus::Cancelled => true,
                _ => false,
            },
            TaskStatus::Queued => match to {
                TaskStatus::Running | TaskStatus::Failed | TaskStatus::Cancelled => true,
                _ => false,
            },
            TaskStatus::Running => match to {
                TaskStatus::Sealing | TaskStatus::Done | TaskStatus::Failed
                | TaskStatus::Cancelled => true,
                _ => false,
            },
            TaskStatus::Sealing => match to {
                TaskStatus::Done | TaskStatus::Failed => true,
                _ => false,
            },
            TaskStatus::Done | TaskStatus::Failed | TaskStatus::Cancelled => false,
        }
    }

    /// Return the current status.
    pub fn from(self) -> (r: TaskStatus)
        ensures
            r == self@.0,
            valid_transition(self@.0, self@.1, self@.2),
    {
        proof {
            use_type_invariant(&self);
        }
        self.from
    }

    /// Return the target status.
    pub fn to(self) -> (r: TaskStatus)
        ensures
            r == self@.1,
            valid_transition(self@.0, self@.1, self@.2),
    {
        proof {
            use_type_invariant(&self);
        }
        self.to
    }

    /// Why the task ended, present exactly when `to` is `Failed` or
    /// `Cancelled`.
    pub fn cause(self) -> (r: Option<TerminalCause>)
        ensures
            r == self@.2,
            valid_transition(self@.0, self@.1, self@.2),
    {
        proof {
            use_type_invariant(&self);
        }
        self.cause
    }
}

/// What `try_new` accepts is exactly what a transition value may hold.
pub proof fn lemma_accepted_exactly_when_valid(
    from: TaskStatus,
    to: TaskStatus,
    cause: Option<TerminalCause>,
)
    ensures
        transition_outcome(from, to, cause) is Ok <==> valid_transition(from, to, cause),
        transition_outcome(from, to, cause) is Ok ==> transition_outcome(from, to, cause)
            == Ok::<(TaskStatus, TaskStatus, Option<TerminalCause>), TaskTransitionError>(
            (from, to, cause),
        ),
{
}

/// Terminal states admit no exits.
pub proof fn lemma_terminal_states_admit_no_exits(from: TaskStatus, to: TaskStatus)
    requires
        from.spec_is_terminal(),
    ensures
        !legal_edge(from, to),
{
}

/// Only a running (or sealing) task can succeed, and the sealing region
/// refuses cancellation.
pub proof fn lemma_success_and_sealing(from: TaskStatus)
    ensures
        legal_edge(from, TaskStatus::Done) <==> (from is Running || from is Sealing),
        !legal_edge(TaskStatus::Sealing, TaskStatus::Cancelled),
{
}

/// Every live status can end in any cause's terminal status except that a
/// sealing task cannot be cancelled: a terminal edge into the status a cause
/// ends in, carrying that cause, is always accepted.
pub proof fn lemma_matching_cause_is_accepted(from: TaskStatus, c: TerminalCause)
    requires
        legal_edge(from, cause_terminal_status(c@)),
    ensures
        transition_outcome(from, cause_terminal_status(c@), Some(c)) is Ok,
{
    crate::terminal_cause::lemma_cause_ends_in_caused_status(c@);
}

/// Each status is labelled by its snake_case name, and parsing that name
/// gives the status back: `admitted`, `queued`, `running`, `sealing`,
/// `done`, `failed`, `cancelled`.
pub proof fn lemma_status_label_names(s: TaskStatus)
    ensures
        s is Admitted <==> s.label() == "admitted"@,
        s is Queued <==> s.label() == "queued"@,
        s is Running <==> s.label() == "running"@,
        s is Sealing <==> s.label() == "sealing"@,
        s is Done <==> s.label() == "done"@,
        s is Failed <==> s.label() == "failed"@,
        s is Cancelled <==> s.label() == "cancelled"@,
{
    reveal_strlit("admitted");
    reveal_strlit("queued");
    reveal_strlit("running");
    reveal_strlit("sealing");
    reveal_strlit("done");
    reveal_strlit("failed");
    reveal_strlit("cancelled");
    if s != TaskStatus::Admitted && s.label() == "admitted"@ {
        lemma_status_labels_distinct(s, TaskStatus::Admitted);
    }
    if s != TaskStatus::Queued && s.label() == "queued"@ {
        lemma_status_labels_distinct(s, TaskStatus::Queued);
    }
    if s != TaskStatus::Running && s.label() == "running"@ {
        lemma_status_labels_distinct(s, TaskStatus::Running);
    }
    if s != TaskStatus::Sealing && s.label() == "sealing"@ {
        lemma_status_labels_distinct(s, TaskStatus::Sealing);
    }
    if s != TaskStatus::Done && s.label() == "done"@ {
        lemma_status_labels_distinct(s, TaskStatus::Done);
    }
    if s != TaskStatus::Failed && s.label() == "failed"@ {
        lemma_status_labels_distinct(s, TaskStatus::Failed);
    }
    if s != TaskStatus::Cancelled && s.label() == "cancelled"@ {
        lemma_status_labels_distinct(s, TaskStatus::Cancelled);
    }
}

/// Status labels are distinct, so a label names at most one status.
pub proof fn lemma_status_labels_distinct(a: TaskStatus, b: TaskStatus)
    requires
        a != b,
    ensures
        a.label() != b.label(),
{
    reveal_strlit("admitted");
    reveal_strlit("queued");
    reveal_strlit("running");
    reveal_strlit("sealing");
    reveal_strlit("done");
    reveal_strlit("failed");
    reveal_strlit("cancelled");
    if a.label() == b.label() {
        assert(a.label().len() == b.label().len());
        assert(a.label()[0] == b.label()[0]);
    }
}

} // verus!
