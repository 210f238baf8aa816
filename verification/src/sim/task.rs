use vstd::prelude::*;

use crate::primitives::ids::{DecisionId, ObjectiveId, ResourceNodeId, StorageId, TaskId};
use crate::primitives::quantity::Quantity;
use crate::sim::entity::ResourceKind;

verus! {

/// A decision emitted for an objective.
#[derive(Clone, Copy, Debug, PartialEq, Eq, Hash, Structural)]
pub struct Decision {
    pub id: DecisionId,
    pub objective_id: ObjectiveId,
    pub kind: DecisionKind,
}

/// What a decision does.
#[derive(Clone, Copy, Debug, PartialEq, Eq, Hash, Structural)]
pub enum DecisionKind {
    CreateTask { task_id: TaskId },
}

/// A bounded unit of work for an objective.
#[derive(Clone, Copy, Debug, PartialEq, Eq, Hash, Structural)]
pub struct Task {
    pub id: TaskId,
    pub objective_id: ObjectiveId,
    pub decision_id: Option<DecisionId>,
    pub kind: TaskKind,
}

/// What a task asks for.
#[derive(Clone, Copy, Debug, PartialEq, Eq, Hash, Structural)]
pub enum TaskKind {
    MineResource { resource: ResourceKind, quantity: Quantity, node_id: ResourceNodeId },
    DepositResource { storage_id: StorageId },
}

} // verus!
