use vstd::prelude::*;

use crate::primitives::ids::{AssignmentId, DecisionId, ObjectiveId, TaskId, WorkerId};

verus! {

/// A task handed to a worker.
#[derive(Clone, Copy, Debug, PartialEq, Eq, Hash, Structural)]
pub struct Assignment {
    pub id: AssignmentId,
    pub task_id: TaskId,
    pub worker_id: WorkerId,
}

/// A lifecycle record that caused another.
#[derive(Clone, Copy, Debug, PartialEq, Eq, PartialOrd, Ord, Hash, Structural)]
pub enum CausalParent {
    Objective(ObjectiveId),
    Decision(DecisionId),
    Task(TaskId),
    Assignment(AssignmentId),
}

/// The assignment, if any, on whose behalf an action is taken.
#[derive(Clone, Copy, Debug, Default, PartialEq, Eq, Hash, Structural)]
pub struct ActionContext {
    pub assignment_id: Option<AssignmentId>,
}

impl ActionContext {
    /// The context of an action taken directly, for no assignment.
    pub fn direct() -> (r: Self)
        ensures
            r.assignment_id is None,
    {
        ActionContext { assignment_id: None }
    }

    /// The context of an action taken for `assignment_id`.
    pub fn for_assignment(assignment_id: AssignmentId) -> (r: Self)
        ensures
            r.assignment_id == Some(assignment_id),
    {
        ActionContext { assignment_id: Some(assignment_id) }
    }
}

} // verus!
