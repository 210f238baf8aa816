use vstd::prelude::*;

use crate::primitives::ids::{ResourceNodeId, StorageId, WorkerId};
use crate::primitives::position::Position;
use crate::primitives::quantity::Quantity;

verus! {

/// An action a worker may attempt.
#[derive(Clone, Copy, Debug, PartialEq, Eq, Hash, Structural)]
pub enum WorkerAction {
    Move { worker_id: WorkerId, to: Position },
    Mine { worker_id: WorkerId, node_id: ResourceNodeId, quantity: Quantity },
    Deposit { worker_id: WorkerId, storage_id: StorageId },
    Recharge { worker_id: WorkerId, amount: Quantity },
    Wait { worker_id: WorkerId },
    DisableWorker { worker_id: WorkerId },
    RepairWorker { worker_id: WorkerId },
}

} // verus!
