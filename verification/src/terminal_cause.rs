//! Why a task ended: the typed cause every terminal transition carries.
//!
//! A status says *where* a task ended; the cause says *why*, and which
//! party that is attributed to.

use vstd::prelude::*;

use crate::lifecycle::TaskStatus;

verus! {

/// The party a terminal outcome is attributed to.
#[derive(Debug, Clone, Copy, PartialEq, Eq, Structural, Hash)]
pub enum FaultSide {
    /// The principal that asked for the work.
    Caller,
    /// The operator that ran it.
    Provider,
}

impl FaultSide {
    pub open spec fn label(self) -> Seq<char> {
        match self {
            FaultSide::Caller => "caller"@,
            FaultSide::Provider => "provider"@,
        }
    }

    /// Stable label.
    pub fn as_str(self) -> (r: &'static str)
        ensures
            r@ == self.label(),
    {
        match self {
            FaultSide::Caller => "caller",
            FaultSide::Provider => "provider",
        }
    }

    /// The label as owned text (what `Display` prints).
    pub fn to_string(self) -> (r: String)
        ensures
            r@ == self.label(),
    {
        String::from_str(self.as_str())
    }
}

/// Who imposed the wall-clock deadline a task ran past.
#[derive(Debug, Clone, Copy, PartialEq, Eq, Structural, Hash)]
pub enum DeadlineAuthority {
    /// The caller set the deadline on the request.
    Caller,
    /// The provider's own ceiling for that kind of work applied.
    Provider,
}

/// The resource whose hard budget a task exhausted.
#[derive(Debug, Clone, Copy, PartialEq, Eq, Structural, Hash)]
pub enum BudgetResource {
    /// The subtree's wall-clock budget.
    WallTime,
    /// The subtree's token budget.
    Tokens,
}

impl BudgetResource {
    pub open spec fn label(self) -> Seq<char> {
        match self {
            BudgetResource::WallTime => "wall_time"@,
            BudgetResource::Tokens => "tokens"@,
        }
    }

    /// Stable label.
    pub fn as_str(self) -> (r: &'static str)
        ensures
            r@ == self.label(),
    {
        match self {
            BudgetResource::WallTime => "wall_time",
            BudgetResource::Tokens => "tokens",
        }
    }

    /// The label as owned text (what `Display` prints).
    pub fn to_string(self) -> (r: String)
        ensures
            r@ == self.label(),
    {
        String::from_str(self.as_str())
    }
}

/// The event that first ended a task, before any cascade.
///
/// Every variant knows the terminal status it ends in and the party it is
/// attributed to, so those two facts can never be recorded inconsistently
/// with the cause.
#[derive(Debug, Clone, Copy, PartialEq, Eq, Structural, Hash)]
pub enum OriginatingCause {
    /// The caller cancelled the work explicitly.
    CallerCancelled,
    /// The owning session closed, taking its trees with it.
    SessionClosed,
    /// A wall-clock deadline was reached.
    Deadline {
        /// Who set it.
        imposed_by: DeadlineAuthority,
    },
    /// A hard subtree budget was exhausted.
    BudgetExhausted {
        /// Which one.
        resource: BudgetResource,
    },
    /// The executor reported a failure.
    ExecutorFailed {
        /// Whose fault the executor classified it as.
        fault: FaultSide,
    },
    /// The progress watchdog saw no attributed progress in time.
    ProgressStalled,
    /// The node executing the task became unreachable.
    NodeLost,
    /// The host withdrew the resource the task was running on while the
    /// task was still live.
    HostEvicted,
    /// The host restarted before the task completed.
    HostRestarted,
}

impl OriginatingCause {
    /// Every originating cause, one per variant and field value.
    pub fn all() -> (r: [OriginatingCause; 12])
        ensures
            forall|c: OriginatingCause| #[trigger] r@.contains(c),
            forall|i: int, j: int| 0 <= i < j < 12 ==> r@[i] != r@[j],
    {
        let r = [
            OriginatingCause::CallerCancelled,
            OriginatingCause::SessionClosed,
            OriginatingCause::Deadline { imposed_by: DeadlineAuthority::Caller },
            OriginatingCause::Deadline { imposed_by: DeadlineAuthority::Provider },
            OriginatingCause::BudgetExhausted { resource: BudgetResource::WallTime },
            OriginatingCause::BudgetExhausted { resource: BudgetResource::Tokens },
            OriginatingCause::ExecutorFailed { fault: FaultSide::Caller },
            OriginatingCause::ExecutorFailed { fault: FaultSide::Provider },
            OriginatingCause::ProgressStalled,
            OriginatingCause::NodeLost,
            OriginatingCause::HostEvicted,
            OriginatingCause::HostRestarted,
        ];
        assert forall|c: OriginatingCause| #[trigger] r@.contains(c) by {
            match c {
                OriginatingCause::CallerCancelled => assert(r@[0] == c),
                OriginatingCause::SessionClosed => assert(r@[1] == c),
                OriginatingCause::Deadline { imposed_by } => match imposed_by {
                    DeadlineAuthority::Caller => assert(r@[2] == c),
                    DeadlineAuthority::Provider => assert(r@[3] == c),
                },
                OriginatingCause::BudgetExhausted { resource } => match resource {
                    BudgetResource::WallTime => assert(r@[4] == c),
                    BudgetResource::Tokens => assert(r@[5] == c),
                },
                OriginatingCause::ExecutorFailed { fault } => match fault {
                    FaultSide::Caller => assert(r@[6] == c),
                    FaultSide::Provider => assert(r@[7] == c),
                },
                OriginatingCause::ProgressStalled => assert(r@[8] == c),
                OriginatingCause::NodeLost => assert(r@[9] == c),
                OriginatingCause::HostEvicted => assert(r@[10] == c),
                OriginatingCause::HostRestarted => assert(r@[11] == c),
            }
        }
        r
    }

    /// Hard limits (a deadline, an exhausted budget, an executor failure, a
    /// restarted host) end in `Failed`; an explicit stop, a closed session,
    /// a stalled watchdog, a lost node or an evicting host end in
    /// `Cancelled`.
    pub open spec fn spec_terminal_status(self) -> TaskStatus {
        match self {
            OriginatingCause::Deadline { .. }
            | OriginatingCause::BudgetExhausted { .. }
            | OriginatingCause::ExecutorFailed { .. }
            | OriginatingCause::HostRestarted => TaskStatus::Failed,
            OriginatingCause::CallerCancelled
            | OriginatingCause::SessionClosed
            | OriginatingCause::ProgressStalled
            | OriginatingCause::NodeLost
            | OriginatingCause::HostEvicted => TaskStatus::Cancelled,
        }
    }

    /// A caller pays for what it asked for and then stopped, capped, or
    /// mis-specified; a provider answers for what it failed to deliver.
    pub open spec fn spec_fault_side(self) -> FaultSide {
        match self {
            OriginatingCause::CallerCancelled
            | OriginatingCause::SessionClosed
            | OriginatingCause::BudgetExhausted { .. } => FaultSide::Caller,
            OriginatingCause::Deadline { imposed_by } => match imposed_by {
                DeadlineAuthority::Caller => FaultSide::Caller,
                DeadlineAuthority::Provider => FaultSide::Provider,
            },
            OriginatingCause::ExecutorFailed { fault } => fault,
            OriginatingCause::ProgressStalled
            | OriginatingCause::NodeLost
            | OriginatingCause::HostEvicted
            | OriginatingCause::HostRestarted => FaultSide::Provider,
        }
    }

    /// The variant, ignoring its fields: what the label names.
    pub open spec fn kind(self) -> int {
        match self {
            OriginatingCause::CallerCancelled => 0,
            OriginatingCause::SessionClosed => 1,
            OriginatingCause::Deadline { .. } => 2,
            OriginatingCause::BudgetExhausted { .. } => 3,
            OriginatingCause::ExecutorFailed { .. } => 4,
            OriginatingCause::ProgressStalled => 5,
            OriginatingCause::NodeLost => 6,
            OriginatingCause::HostEvicted => 7,
            OriginatingCause::HostRestarted => 8,
        }
    }

    pub open spec fn label(self) -> Seq<char> {
        match self {
            OriginatingCause::CallerCancelled => "caller_cancelled"@,
            OriginatingCause::SessionClosed => "session_closed"@,
            OriginatingCause::Deadline { .. } => "deadline"@,
            OriginatingCause::BudgetExhausted { .. } => "budget_exhausted"@,
            OriginatingCause::ExecutorFailed { .. } => "executor_failed"@,
            OriginatingCause::ProgressStalled => "progress_stalled"@,
            OriginatingCause::NodeLost => "node_lost"@,
            OriginatingCause::HostEvicted => "host_evicted"@,
            OriginatingCause::HostRestarted => "host_restarted"@,
        }
    }

    /// The terminal status this cause ends the task in.
    pub fn terminal_status(self) -> (r: TaskStatus)
        ensures
            r == self.spec_terminal_status(),
    {
        match self {
            OriginatingCause::Deadline { .. }
            | OriginatingCause::BudgetExhausted { .. }
            | OriginatingCause::ExecutorFailed { .. }
            | OriginatingCause::HostRestarted => TaskStatus::Failed,
            OriginatingCause::CallerCancelled
            | OriginatingCause::SessionClosed
            | OriginatingCause::ProgressStalled
            | OriginatingCause::NodeLost
            | OriginatingCause::HostEvicted => TaskStatus::Cancelled,
        }
    }

    /// The party this cause is attributed to.
    pub fn fault_side(self) -> (r: FaultSide)
        ensures
            r == self.spec_fault_side(),
    {
        match self {
            OriginatingCause::CallerCancelled
            | OriginatingCause::SessionClosed
            | OriginatingCause::BudgetExhausted { .. } => FaultSide::Caller,
            OriginatingCause::Deadline { imposed_by } => match imposed_by {
                DeadlineAuthority::Caller => FaultSide::Caller,
                DeadlineAuthority::Provider => FaultSide::Provider,
            },
            OriginatingCause::ExecutorFailed { fault } => fault,
            OriginatingCause::ProgressStalled
            | OriginatingCause::NodeLost
            | OriginatingCause::HostEvicted
            | OriginatingCause::HostRestarted => FaultSide::Provider,
        }
    }

    /// Stable label of the cause kind.
    pub fn as_str(self) -> (r: &'static str)
        ensures
            r@ == self.label(),
    {
        match self {
            OriginatingCause::CallerCancelled => "caller_cancelled",
            OriginatingCause::SessionClosed => "session_closed",
            OriginatingCause::Deadline { .. } => "deadline",
            OriginatingCause::BudgetExhausted { .. } => "budget_exhausted",
            OriginatingCause::ExecutorFailed { .. } => "executor_failed",
            OriginatingCause::ProgressStalled => "progress_stalled",
            OriginatingCause::NodeLost => "node_lost",
            OriginatingCause::HostEvicted => "host_evicted",
            OriginatingCause::HostRestarted => "host_restarted",
        }
    }

    /// The label as owned text (what `Display` prints).
    pub fn to_string(self) -> (r: String)
        ensures
            r@ == self.label(),
    {
        String::from_str(self.as_str())
    }

    /// This cause as the task's own, direct terminal cause.
    pub fn direct(self) -> (r: TerminalCause)
        ensures
            r@ == (self, false),
    {
        TerminalCause { origin: self, cascaded: false }
    }

    /// This cause as inherited by a descendant the cascade stopped.
    pub fn cascaded(self) -> (r: TerminalCause)
        ensures
            r@ == (self, true),
    {
        TerminalCause { origin: self, cascaded: true }
    }
}

/// Why one task ended: the originating event, and whether the task was its
/// subject or collateral stopped by the cascade from it.
///
/// A cascade never nests: a descendant stopped because its parent was
/// stopped records the *originating* cause, so the whole tree settles under
/// one attribution however deep the stop propagated.
#[derive(Debug, Clone, Copy, PartialEq, Eq, Structural, Hash)]
pub struct TerminalCause {
    origin: OriginatingCause,
    cascaded: bool,
}

impl View for TerminalCause {
    type V = (OriginatingCause, bool);

    closed spec fn view(&self) -> (OriginatingCause, bool) {
        (self.origin, self.cascaded)
    }
}

/// Collateral is always `Cancelled`; a direct cause ends where its origin
/// says.
pub open spec fn cause_terminal_status(c: (OriginatingCause, bool)) -> TaskStatus {
    if c.1 {
        TaskStatus::Cancelled
    } else {
        c.0.spec_terminal_status()
    }
}

/// The cause a descendant stopped by the cascade from `c` records.
pub open spec fn descendant_cause(c: (OriginatingCause, bool)) -> (OriginatingCause, bool) {
    (c.0, true)
}

/// The text `Display` prints for a terminal cause.
pub open spec fn cause_text(c: (OriginatingCause, bool)) -> Seq<char> {
    if c.1 {
        "cascaded from "@ + c.0.label()
    } else {
        c.0.label()
    }
}

impl TerminalCause {
    /// The event that ended the task or the tree it belongs to.
    pub fn origin(self) -> (r: OriginatingCause)
        ensures
            r == self@.0,
    {
        self.origin
    }

    /// Whether the task was stopped by the cascade rather than being the
    /// cause's subject.
    pub fn is_cascaded(self) -> (r: bool)
        ensures
            r == self@.1,
    {
        self.cascaded
    }

    /// The cause a descendant stopped by the task's cascade records.
    pub fn for_descendant(self) -> (r: Self)
        ensures
            r@ == descendant_cause(self@),
    {
        self.origin.cascaded()
    }

    /// The terminal status this cause ends the task in.
    pub fn terminal_status(self) -> (r: TaskStatus)
        ensures
            r == cause_terminal_status(self@),
    {
        if self.cascaded {
            TaskStatus::Cancelled
        } else {
            self.origin.terminal_status()
        }
    }

    /// The party the outcome is attributed to: the origin's, cascade or not.
    pub fn fault_side(self) -> (r: FaultSide)
        ensures
            r == self@.0.spec_fault_side(),
    {
        self.origin.fault_side()
    }

    /// The origin label, prefixed with `cascaded from` when the task was
    /// collateral of the cascade (what `Display` prints).
    pub fn to_string(self) -> (r: String)
        ensures
            r@ == cause_text(self@),
    {
        if self.cascaded {
            let mut s = String::from_str("cascaded from ");
            s.append(self.origin.as_str());
            s
        } else {
            self.origin.to_string()
        }
    }
}

/// Every cause ends a task in a status that must carry a cause: `Failed`
/// or `Cancelled`, never `Done`, never a live status.
pub proof fn lemma_cause_ends_in_caused_status(c: (OriginatingCause, bool))
    ensures
        cause_terminal_status(c).spec_requires_cause(),
        cause_terminal_status(c).spec_is_terminal(),
{
}

/// A cascade never nests: passing a cause down once or many times records
/// the same thing, ends in `Cancelled`, and keeps the origin's attribution.
pub proof fn lemma_cascade_never_nests(c: (OriginatingCause, bool))
    ensures
        descendant_cause(descendant_cause(c)) == descendant_cause(c),
        cause_terminal_status(descendant_cause(c)) == TaskStatus::Cancelled,
        descendant_cause(c).0.spec_fault_side() == c.0.spec_fault_side(),
{
}

/// A direct cause ends where its origin says and is attributed as its
/// origin is.
pub proof fn lemma_direct_cause_follows_origin(o: OriginatingCause)
    ensures
        cause_terminal_status((o, false)) == o.spec_terminal_status(),
{
}

/// Causes of different kinds carry different labels.
pub proof fn lemma_cause_labels_distinct(a: OriginatingCause, b: OriginatingCause)
    requires
        a.kind() != b.kind(),
    ensures
        a.label() != b.label(),
{
    reveal_strlit("caller_cancelled");
    reveal_strlit("session_closed");
    reveal_strlit("deadline");
    reveal_strlit("budget_exhausted");
    reveal_strlit("executor_failed");
    reveal_strlit("progress_stalled");
    reveal_strlit("node_lost");
    reveal_strlit("host_evicted");
    reveal_strlit("host_restarted");
    if a.label() == b.label() {
        assert(a.label().len() == b.label().len());
        assert(a.label()[0] == b.label()[0]);
        assert(a.label()[1] == b.label()[1]);
        assert(a.label()[2] == b.label()[2]);
        assert(a.label()[5] == b.label()[5]);
    }
}

} // verus!
