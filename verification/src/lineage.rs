//! Validated parent-child task lineage.

use vstd::prelude::*;

use crate::identity::{task_urn, TaskId};
use crate::scheme::UrnScheme;

verus! {

/// A structurally invalid task lineage.
#[derive(Debug, Clone, PartialEq, Eq)]
pub enum TaskLineageError<S: UrnScheme> {
    /// The task and parent belong to different task trees.
    TreeMismatch {
        /// Child task ID.
        task: TaskId<S>,
        /// Parent task ID.
        parent: TaskId<S>,
    },
    /// A task names itself as its parent.
    SelfParent {
        /// Self-parented task ID.
        task: TaskId<S>,
    },
}

impl<S: UrnScheme> TaskLineageError<S> {
    /// The message (what `Display` prints).
    pub fn to_string(&self) -> (r: String)
        ensures
            (match self {
                TaskLineageError::TreeMismatch { task, parent } => r@ == "task "@ + task_urn(
                    S::TASK_PREFIX@,
                    task@.0,
                    task@.1,
                ) + " and parent "@ + task_urn(S::TASK_PREFIX@, parent@.0, parent@.1)
                    + " belong to different task trees"@,
                TaskLineageError::SelfParent { task } => r@ == "task cannot be its own parent: "@
                    + task_urn(S::TASK_PREFIX@, task@.0, task@.1),
            }),
    {
        match self {
            TaskLineageError::TreeMismatch { task, parent } => {
                let mut s = String::from_str("task ");
                s.append(task.as_str());
                s.append(" and parent ");
                s.append(parent.as_str());
                s.append(" belong to different task trees");
                s
            },
            TaskLineageError::SelfParent { task } => {
                let mut s = String::from_str("task cannot be its own parent: ");
                s.append(task.as_str());
                s
            },
        }
    }
}

/// A parent-child edge is within one tree and never self-referential.
pub open spec fn valid_lineage(task: (Seq<u8>, Seq<u8>), parent: (Seq<u8>, Seq<u8>)) -> bool {
    task != parent && task.0 == parent.0
}

/// A validated child and its exact parent in one distributed task tree.
#[derive(Debug, PartialEq, Eq)]
pub struct TaskLineage<S: UrnScheme> {
    task: TaskId<S>,
    parent: TaskId<S>,
}

impl<S: UrnScheme> View for TaskLineage<S> {
    type V = ((Seq<u8>, Seq<u8>), (Seq<u8>, Seq<u8>));

    closed spec fn view(&self) -> ((Seq<u8>, Seq<u8>), (Seq<u8>, Seq<u8>)) {
        (self.task@, self.parent@)
    }
}

impl<S: UrnScheme> TaskLineage<S> {
    #[verifier::type_invariant]
    spec fn well_formed(self) -> bool {
        valid_lineage(self.task@, self.parent@)
    }

    /// Validate and construct one parent-child edge, rejecting
    /// self-parentage first and cross-tree parentage second.
    pub fn try_new(task: TaskId<S>, parent: TaskId<S>) -> (r: Result<Self, TaskLineageError<S>>)
        ensures
            task@ == parent@ ==> (r matches Err(TaskLineageError::SelfParent { task: t })
                && t@ == task@),
            task@ != parent@ && task@.0 != parent@.0 ==> (r matches Err(
                TaskLineageError::TreeMismatch { task: t, parent: p },
            ) && t@ == task@ && p@ == parent@),
            valid_lineage(task@, parent@) ==> (r matches Ok(l) && l@ == (task@, parent@)),
    {
        if task.same_task(&parent) {
            return Err(TaskLineageError::SelfParent { task });
        }
        if !task.tree().same_tree(parent.tree()) {
            return Err(TaskLineageError::TreeMismatch { task, parent });
        }
        TaskLineage { task, parent }.into_ok()
    }

    fn into_ok(self) -> (r: Result<Self, TaskLineageError<S>>)
        ensures
            r matches Ok(l) && l@ == self@,
    {
        Ok(self)
    }

    /// Return the child task identity.
    pub fn task(&self) -> (r: &TaskId<S>)
        ensures
            r@ == self@.0,
            valid_lineage(self@.0, self@.1),
    {
        proof {
            use_type_invariant(self);
        }
        &self.task
    }

    /// Return the exact parent task identity.
    pub fn parent(&self) -> (r: &TaskId<S>)
        ensures
            r@ == self@.1,
            valid_lineage(self@.0, self@.1),
    {
        proof {
            use_type_invariant(self);
        }
        &self.parent
    }

    /// Consume the edge into its child and parent identities.
    pub fn into_parts(self) -> (r: (TaskId<S>, TaskId<S>))
        ensures
            r.0@ == self@.0,
            r.1@ == self@.1,
            valid_lineage(r.0@, r.1@),
    {
        proof {
            use_type_invariant(&self);
        }
        let TaskLineage { task, parent } = self;
        (task, parent)
    }
}

impl<S: UrnScheme> Clone for TaskLineage<S> {
    fn clone(&self) -> (r: Self)
        ensures
            r@ == self@,
    {
        proof {
            use_type_invariant(self);
        }
        TaskLineage { task: self.task.duplicate(), parent: self.parent.duplicate() }
    }
}

} // verus!
