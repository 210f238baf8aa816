use vstd::prelude::*;

use crate::ordered_map::{is_insert_point, lookup, OrderedMap};
use crate::primitives::ids::{AssignmentId, DecisionId, ObjectiveId, ResourceNodeId, StorageId, TaskId, WorkerId};
use crate::primitives::position::Position;
use crate::primitives::quantity::Quantity;
use crate::primitives::tick::Tick;
use crate::sim::action::WorkerAction;
use crate::sim::assignment::Assignment;
use crate::sim::entity::{
    inventory_get, Inventory, ResourceKind, ResourceNode, Storage, Worker, WorkerRole, WorkerStatus,
};
use crate::sim::objective::{Objective, ObjectiveKind};
use crate::sim::task::{Decision, DecisionKind, Task, TaskKind};
use crate::sim::world::{WorldState, WorldStateView};

verus! {

/// The objective of the mining bootstrap scenario.
pub fn mining_bootstrap_objective_id() -> (r: ObjectiveId)
    ensures
        r.0 == 1,
{
    ObjectiveId(1)
}

/// The decision of the mining bootstrap scenario.
pub fn mining_bootstrap_decision_id() -> (r: DecisionId)
    ensures
        r.0 == 1,
{
    DecisionId(1)
}

/// The mining task of the mining bootstrap scenario.
pub fn mining_bootstrap_task_id() -> (r: TaskId)
    ensures
        r.0 == 1,
{
    TaskId(1)
}

/// The mining assignment of the mining bootstrap scenario.
pub fn mining_bootstrap_assignment_id() -> (r: AssignmentId)
    ensures
        r.0 == 1,
{
    AssignmentId(1)
}

/// The miner of the mining bootstrap scenario.
pub fn mining_bootstrap_worker_id() -> (r: WorkerId)
    ensures
        r.0 == 1,
{
    WorkerId(1)
}

/// The iron node of the mining bootstrap scenario.
pub fn mining_bootstrap_node_id() -> (r: ResourceNodeId)
    ensures
        r.0 == 1,
{
    ResourceNodeId(1)
}

/// The depot of the mining bootstrap scenario.
pub fn mining_bootstrap_storage_id() -> (r: StorageId)
    ensures
        r.0 == 1,
{
    StorageId(1)
}

/// The stockpile the mining bootstrap objective asks for.
pub fn mining_bootstrap_stockpile_minimum() -> (r: Quantity)
    ensures
        r.0 == 10,
{
    Quantity(10)
}

/// The iron the node starts with.
pub fn mining_bootstrap_initial_node_iron() -> (r: Quantity)
    ensures
        r.0 == 100,
{
    Quantity(100)
}

/// The iron the node holds at the end of the scenario.
pub fn mining_bootstrap_expected_node_iron() -> (r: Quantity)
    ensures
        r.0 == 90,
{
    Quantity(90)
}

/// The iron the depot holds at the end of the scenario, and the quantity mined.
pub fn mining_bootstrap_expected_storage_iron() -> (r: Quantity)
    ensures
        r.0 == 10,
{
    Quantity(10)
}

/// The battery the miner starts with.
pub fn mining_bootstrap_worker_battery() -> (r: Quantity)
    ensures
        r.0 == 10,
{
    Quantity(10)
}

/// The tick at the end of the scenario.
pub fn mining_bootstrap_expected_final_tick() -> (r: Tick)
    ensures
        r.0 == 4,
{
    Tick(4)
}

/// The starting world of the mining scenarios: a miner at (0, 0), an iron node with 100 at
/// (1, 0) and an empty depot at (0, 1), at tick zero.
pub open spec fn mining_bootstrap_world_view() -> WorldStateView {
    WorldStateView {
        tick: Tick(0),
        workers: seq![
            (
                WorkerId(1),
                Worker {
                    id: WorkerId(1),
                    role: WorkerRole::Miner,
                    position: Position { x: 0, y: 0 },
                    battery: Quantity(10),
                    carried: None,
                    status: WorkerStatus::Active,
                },
            ),
        ],
        resource_nodes: seq![
            (
                ResourceNodeId(1),
                ResourceNode {
                    id: ResourceNodeId(1),
                    kind: ResourceKind::Iron,
                    position: Position { x: 1, y: 0 },
                    remaining: Quantity(100),
                },
            ),
        ],
        storage: seq![
            (
                StorageId(1),
                Storage {
                    id: StorageId(1),
                    position: Position { x: 0, y: 1 },
                    inventory: Inventory { iron: Some(Quantity(0)) },
                },
            ),
        ],
    }
}

/// Builds the starting world of the mining scenarios.
pub fn build_mining_bootstrap_world() -> (r: WorldState)
    ensures
        r@ == mining_bootstrap_world_view(),
{
    let mut state = WorldState::new();
    let worker = Worker {
        id: mining_bootstrap_worker_id(),
        role: WorkerRole::Miner,
        position: Position::new(0, 0),
        battery: mining_bootstrap_worker_battery(),
        carried: None,
        status: WorkerStatus::Active,
    };
    proof {
        assert(is_insert_point(state.workers@, worker.id, 0));
    }
    state.workers.insert(mining_bootstrap_worker_id(), worker);
    let node = ResourceNode {
        id: mining_bootstrap_node_id(),
        kind: ResourceKind::Iron,
        position: Position::new(1, 0),
        remaining: mining_bootstrap_initial_node_iron(),
    };
    proof {
        assert(is_insert_point(state.resource_nodes@, node.id, 0));
    }
    state.resource_nodes.insert(mining_bootstrap_node_id(), node);
    let mut inventory = Inventory::new();
    inventory.insert(ResourceKind::Iron, Quantity::zero());
    let depot = Storage {
        id: mining_bootstrap_storage_id(),
        position: Position::new(0, 1),
        inventory,
    };
    proof {
        assert(is_insert_point(state.storage@, depot.id, 0));
    }
    state.storage.insert(mining_bootstrap_storage_id(), depot);
    assert(state@.workers =~= mining_bootstrap_world_view().workers);
    assert(state@.resource_nodes =~= mining_bootstrap_world_view().resource_nodes);
    assert(state@.storage =~= mining_bootstrap_world_view().storage);
    state
}

/// The objective of the mining scenarios: keep at least 10 iron in stock.
pub open spec fn mining_bootstrap_objective_spec() -> Objective {
    Objective {
        id: ObjectiveId(1),
        kind: ObjectiveKind::MaintainStockpile { resource: ResourceKind::Iron, minimum: Quantity(10) },
    }
}

/// The objective of the mining scenarios.
pub fn mining_bootstrap_objective() -> (r: Objective)
    ensures
        r == mining_bootstrap_objective_spec(),
{
    Objective {
        id: mining_bootstrap_objective_id(),
        kind: ObjectiveKind::MaintainStockpile {
            resource: ResourceKind::Iron,
            minimum: mining_bootstrap_stockpile_minimum(),
        },
    }
}

/// The decision of the mining scenarios.
pub open spec fn mining_bootstrap_decision_spec() -> Decision {
    Decision {
        id: DecisionId(1),
        objective_id: ObjectiveId(1),
        kind: DecisionKind::CreateTask { task_id: TaskId(1) },
    }
}

/// The decision of the mining scenarios: create the mining task.
pub fn mining_bootstrap_decision() -> (r: Decision)
    ensures
        r == mining_bootstrap_decision_spec(),
{
    Decision {
        id: mining_bootstrap_decision_id(),
        objective_id: mining_bootstrap_objective_id(),
        kind: DecisionKind::CreateTask { task_id: mining_bootstrap_task_id() },
    }
}

/// The mining task of the mining scenarios.
pub open spec fn mining_bootstrap_task_spec() -> Task {
    Task {
        id: TaskId(1),
        objective_id: ObjectiveId(1),
        decision_id: Some(DecisionId(1)),
        kind: TaskKind::MineResource {
            resource: ResourceKind::Iron,
            quantity: Quantity(10),
            node_id: ResourceNodeId(1),
        },
    }
}

/// The mining task of the mining scenarios: mine 10 iron from the node.
pub fn mining_bootstrap_task() -> (r: Task)
    ensures
        r == mining_bootstrap_task_spec(),
{
    Task {
        id: mining_bootstrap_task_id(),
        objective_id: mining_bootstrap_objective_id(),
        decision_id: Some(mining_bootstrap_decision_id()),
        kind: TaskKind::MineResource {
            resource: ResourceKind::Iron,
            quantity: mining_bootstrap_expected_storage_iron(),
            node_id: mining_bootstrap_node_id(),
        },
    }
}

/// The mining assignment of the mining scenarios.
pub open spec fn mining_bootstrap_assignment_spec() -> Assignment {
    Assignment { id: AssignmentId(1), task_id: TaskId(1), worker_id: WorkerId(1) }
}

/// The mining assignment of the mining scenarios: the mining task to the miner.
pub fn mining_bootstrap_assignment() -> (r: Assignment)
    ensures
        r == mining_bootstrap_assignment_spec(),
{
    Assignment {
        id: mining_bootstrap_assignment_id(),
        task_id: mining_bootstrap_task_id(),
        worker_id: mining_bootstrap_worker_id(),
    }
}

/// The actions of the mining bootstrap scenario.
pub open spec fn mining_bootstrap_actions_spec() -> Seq<WorkerAction> {
    seq![
        WorkerAction::Move { worker_id: WorkerId(1), to: Position { x: 1, y: 0 } },
        WorkerAction::Mine { worker_id: WorkerId(1), node_id: ResourceNodeId(1), quantity: Quantity(10) },
        WorkerAction::Move { worker_id: WorkerId(1), to: Position { x: 0, y: 0 } },
        WorkerAction::Deposit { worker_id: WorkerId(1), storage_id: StorageId(1) },
    ]
}

/// The actions of the mining bootstrap scenario: step onto the node, mine, step back, deposit.
pub fn mining_bootstrap_actions() -> (r: Vec<WorkerAction>)
    ensures
        r@ == mining_bootstrap_actions_spec(),
{
    let mut out = Vec::new();
    out.push(WorkerAction::Move { worker_id: mining_bootstrap_worker_id(), to: Position::new(1, 0) });
    out.push(
        WorkerAction::Mine {
            worker_id: mining_bootstrap_worker_id(),
            node_id: mining_bootstrap_node_id(),
            quantity: mining_bootstrap_expected_storage_iron(),
        },
    );
    out.push(WorkerAction::Move { worker_id: mining_bootstrap_worker_id(), to: Position::new(0, 0) });
    out.push(
        WorkerAction::Deposit {
            worker_id: mining_bootstrap_worker_id(),
            storage_id: mining_bootstrap_storage_id(),
        },
    );
    assert(out@ =~= mining_bootstrap_actions_spec());
    out
}

/// The quantity of `resource` in depot `storage_id`; zero when the depot or the kind is absent.
pub open spec fn spec_stockpile(s: WorldStateView, storage_id: StorageId, resource: ResourceKind) -> Quantity {
    match s.depot(storage_id) {
        Some(d) => match inventory_get(d.inventory, resource) {
            Some(q) => q,
            None => Quantity(0),
        },
        None => Quantity(0),
    }
}

/// The quantity of `resource` stocked in depot `storage_id`.
pub fn stockpile_quantity(state: &WorldState, storage_id: StorageId, resource: ResourceKind) -> (r:
    Quantity)
    ensures
        r == spec_stockpile(state@, storage_id, resource),
{
    match state.storage.get(&storage_id) {
        Some(depot) => match depot.inventory.get(&resource) {
            Some(q) => q,
            None => Quantity::zero(),
        },
        None => Quantity::zero(),
    }
}

/// Whether the depot holds at least the objective's minimum of its resource.
pub open spec fn spec_objective_satisfied(s: WorldStateView, objective: Objective, storage_id: StorageId) -> bool {
    match objective.kind {
        ObjectiveKind::MaintainStockpile { resource, minimum } => spec_stockpile(
            s,
            storage_id,
            resource,
        ).0 >= minimum.0,
    }
}

/// Whether the objective holds in the world, measured at depot `storage_id`.
pub fn objective_satisfied(state: &WorldState, objective: &Objective, storage_id: StorageId) -> (r:
    bool)
    ensures
        r == spec_objective_satisfied(state@, *objective, storage_id),
{
    match objective.kind {
        ObjectiveKind::MaintainStockpile { resource, minimum } => {
            stockpile_quantity(state, storage_id, resource).0 >= minimum.0
        },
    }
}

} // verus!
