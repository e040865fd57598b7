use tasktree::{
    BudgetResource, DeadlineAuthority, FaultSide, OriginatingCause, TaskStatus, TaskTransition,
    TaskTransitionError,
};

#[test]
fn lifecycle_terminal_states_admit_no_exits() {
    for terminal in [TaskStatus::Done, TaskStatus::Failed, TaskStatus::Cancelled] {
        assert!(terminal.is_terminal());
        for next in TaskStatus::ALL {
            assert!(terminal.validate_transition(next).is_err());
        }
    }
    assert!(
        TaskStatus::Running
            .validate_transition(TaskStatus::Sealing)
            .is_ok()
    );
    assert!(
        TaskStatus::Sealing
            .validate_transition(TaskStatus::Done)
            .is_ok()
    );
    assert!(
        TaskStatus::Sealing
            .validate_transition(TaskStatus::Cancelled)
            .is_err()
    );
}

#[test]
fn every_status_label_round_trips() {
    for status in TaskStatus::ALL {
        assert_eq!(TaskStatus::parse_label(status.as_str()).unwrap(), status);
    }
}

#[test]
fn unknown_status_label_is_quoted_in_the_error() {
    assert_eq!(
        TaskStatus::parse_label("paused"),
        Err("unknown task status \"paused\"".to_owned())
    );
}

#[test]
fn the_legal_edge_set_is_exactly_the_state_machine() {
    let legal = [
        (TaskStatus::Admitted, TaskStatus::Queued),
        (TaskStatus::Admitted, TaskStatus::Running),
        (TaskStatus::Admitted, TaskStatus::Failed),
        (TaskStatus::Admitted, TaskStatus::Cancelled),
        (TaskStatus::Queued, TaskStatus::Running),
        (TaskStatus::Queued, TaskStatus::Failed),
        (TaskStatus::Queued, TaskStatus::Cancelled),
        (TaskStatus::Running, TaskStatus::Sealing),
        (TaskStatus::Running, TaskStatus::Done),
        (TaskStatus::Running, TaskStatus::Failed),
        (TaskStatus::Running, TaskStatus::Cancelled),
        (TaskStatus::Sealing, TaskStatus::Done),
        (TaskStatus::Sealing, TaskStatus::Failed),
    ];
    for from in TaskStatus::ALL {
        for to in TaskStatus::ALL {
            assert_eq!(
                from.validate_transition(to).is_ok(),
                legal.contains(&(from, to)),
                "{from:?} -> {to:?}"
            );
        }
    }
}

#[test]
fn terminal_reversal_is_refused() {
    assert_eq!(
        TaskTransition::try_new(TaskStatus::Done, TaskStatus::Running, None),
        Err(TaskTransitionError::IllegalEdge {
            from: TaskStatus::Done,
            to: TaskStatus::Running,
        })
    );
    assert!(TaskTransition::try_new(
        TaskStatus::Cancelled,
        TaskStatus::Failed,
        Some(OriginatingCause::HostRestarted.direct())
    )
    .is_err());
}

#[test]
fn every_originating_cause_binds_one_terminal_status_and_one_fault_side() {
    let expected = [
        (
            OriginatingCause::CallerCancelled,
            TaskStatus::Cancelled,
            FaultSide::Caller,
        ),
        (
            OriginatingCause::SessionClosed,
            TaskStatus::Cancelled,
            FaultSide::Caller,
        ),
        (
            OriginatingCause::Deadline {
                imposed_by: DeadlineAuthority::Caller,
            },
            TaskStatus::Failed,
            FaultSide::Caller,
        ),
        (
            OriginatingCause::Deadline {
                imposed_by: DeadlineAuthority::Provider,
            },
            TaskStatus::Failed,
            FaultSide::Provider,
        ),
        (
            OriginatingCause::BudgetExhausted {
                resource: BudgetResource::WallTime,
            },
            TaskStatus::Failed,
            FaultSide::Caller,
        ),
        (
            OriginatingCause::BudgetExhausted {
                resource: BudgetResource::Tokens,
            },
            TaskStatus::Failed,
            FaultSide::Caller,
        ),
        (
            OriginatingCause::ExecutorFailed {
                fault: FaultSide::Caller,
            },
            TaskStatus::Failed,
            FaultSide::Caller,
        ),
        (
            OriginatingCause::ExecutorFailed {
                fault: FaultSide::Provider,
            },
            TaskStatus::Failed,
            FaultSide::Provider,
        ),
        (
            OriginatingCause::ProgressStalled,
            TaskStatus::Cancelled,
            FaultSide::Provider,
        ),
        (
            OriginatingCause::NodeLost,
            TaskStatus::Cancelled,
            FaultSide::Provider,
        ),
        (
            OriginatingCause::HostEvicted,
            TaskStatus::Cancelled,
            FaultSide::Provider,
        ),
        (
            OriginatingCause::HostRestarted,
            TaskStatus::Failed,
            FaultSide::Provider,
        ),
    ];
    assert_eq!(expected.len(), OriginatingCause::all().len());
    for (cause, status, fault) in expected {
        assert!(OriginatingCause::all().contains(&cause));
        assert_eq!(cause.terminal_status(), status, "{cause:?}");
        assert_eq!(cause.fault_side(), fault, "{cause:?}");
        assert_eq!(cause.direct().terminal_status(), status);
        assert_eq!(cause.direct().fault_side(), fault);
    }
}

#[test]
fn a_cascade_is_collateral_cancelled_under_the_origin_attribution() {
    for origin in OriginatingCause::all() {
        let cascaded = origin.cascaded();
        assert!(cascaded.is_cascaded());
        assert_eq!(cascaded.origin(), origin);
        assert_eq!(cascaded.terminal_status(), TaskStatus::Cancelled);
        assert_eq!(cascaded.fault_side(), origin.fault_side());
        // Propagating further changes nothing: a cascade never nests.
        assert_eq!(cascaded.for_descendant(), cascaded);
        assert_eq!(origin.direct().for_descendant(), cascaded);
    }
}

#[test]
fn a_terminal_edge_demands_a_cause_that_ends_where_the_edge_does() {
    let failed = OriginatingCause::HostRestarted.direct();
    let cancelled = OriginatingCause::CallerCancelled.direct();

    assert_eq!(
        TaskTransition::try_new(TaskStatus::Running, TaskStatus::Failed, None),
        Err(TaskTransitionError::MissingCause {
            to: TaskStatus::Failed
        })
    );
    assert_eq!(
        TaskTransition::try_new(TaskStatus::Running, TaskStatus::Done, Some(failed)),
        Err(TaskTransitionError::UnexpectedCause {
            to: TaskStatus::Done
        })
    );
    assert_eq!(
        TaskTransition::try_new(TaskStatus::Running, TaskStatus::Sealing, Some(cancelled)),
        Err(TaskTransitionError::UnexpectedCause {
            to: TaskStatus::Sealing
        })
    );
    assert_eq!(
        TaskTransition::try_new(TaskStatus::Running, TaskStatus::Cancelled, Some(failed)),
        Err(TaskTransitionError::CauseMismatch {
            cause: OriginatingCause::HostRestarted,
            expected: TaskStatus::Failed,
            to: TaskStatus::Cancelled,
        })
    );
    let ok = TaskTransition::try_new(TaskStatus::Running, TaskStatus::Failed, Some(failed))
        .expect("a failure with its cause");
    assert_eq!(ok.cause(), Some(failed));
    assert_eq!(
        TaskTransition::try_new(TaskStatus::Running, TaskStatus::Done, None)
            .expect("success carries no cause")
            .cause(),
        None
    );
}

#[test]
fn a_hard_limit_fails_a_task_that_never_ran_but_sealing_still_refuses_cancellation() {
    let budget = OriginatingCause::BudgetExhausted {
        resource: BudgetResource::Tokens,
    }
    .direct();
    assert!(
        TaskTransition::try_new(TaskStatus::Admitted, TaskStatus::Failed, Some(budget)).is_ok()
    );
    assert!(TaskTransition::try_new(TaskStatus::Queued, TaskStatus::Failed, Some(budget)).is_ok());
    assert_eq!(
        TaskTransition::try_new(
            TaskStatus::Sealing,
            TaskStatus::Cancelled,
            Some(OriginatingCause::CallerCancelled.direct())
        ),
        Err(TaskTransitionError::IllegalEdge {
            from: TaskStatus::Sealing,
            to: TaskStatus::Cancelled,
        })
    );
}

#[test]
fn a_transition_keeps_what_it_was_built_from() {
    let cause = OriginatingCause::SessionClosed.cascaded();
    let t = TaskTransition::try_new(TaskStatus::Queued, TaskStatus::Cancelled, Some(cause))
        .expect("cascade cancels");
    assert_eq!(t.from(), TaskStatus::Queued);
    assert_eq!(t.to(), TaskStatus::Cancelled);
    assert_eq!(t.cause(), Some(cause));
    // A cascaded hard limit cancels rather than fails.
    let collateral = OriginatingCause::HostRestarted.cascaded();
    assert!(
        TaskTransition::try_new(TaskStatus::Running, TaskStatus::Failed, Some(collateral))
            .is_err()
    );
}

#[test]
fn transition_errors_display_their_reason() {
    assert_eq!(
        TaskTransitionError::IllegalEdge {
            from: TaskStatus::Done,
            to: TaskStatus::Running
        }
        .to_string(),
        "invalid task transition from done to running"
    );
    assert_eq!(
        TaskTransitionError::MissingCause {
            to: TaskStatus::Failed
        }
        .to_string(),
        "terminal transition to failed carries no cause"
    );
    assert_eq!(
        TaskTransitionError::UnexpectedCause {
            to: TaskStatus::Done
        }
        .to_string(),
        "transition to done cannot carry a terminal cause"
    );
    assert_eq!(
        TaskTransitionError::CauseMismatch {
            cause: OriginatingCause::NodeLost,
            expected: TaskStatus::Cancelled,
            to: TaskStatus::Failed,
        }
        .to_string(),
        "terminal cause node_lost ends a task in cancelled, not failed"
    );
}

#[test]
fn cause_labels_are_distinct_and_stable() {
    let mut labels: Vec<&str> = OriginatingCause::all().iter().map(|c| c.as_str()).collect();
    labels.sort_unstable();
    labels.dedup();
    assert_eq!(labels.len(), 9, "one label per cause kind");
    assert_eq!(FaultSide::Caller.as_str(), "caller");
    assert_eq!(FaultSide::Provider.as_str(), "provider");
}

#[test]
fn causes_display_their_label_and_cascade() {
    assert_eq!(FaultSide::Provider.to_string(), "provider");
    assert_eq!(OriginatingCause::NodeLost.to_string(), "node_lost");
    assert_eq!(
        OriginatingCause::CallerCancelled.direct().to_string(),
        "caller_cancelled"
    );
    assert_eq!(
        OriginatingCause::CallerCancelled.cascaded().to_string(),
        "cascaded from caller_cancelled"
    );
}
