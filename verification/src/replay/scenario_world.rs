use vstd::prelude::*;

use crate::ordered_map::{lemma_single_entry, lookup, put};
use crate::primitives::error::SimError;
use crate::primitives::ids::{ResourceNodeId, StorageId, WorkerId};
use crate::primitives::position::{adjacent, same_or_adjacent, Position};
use crate::primitives::quantity::Quantity;
use crate::primitives::tick::Tick;
use crate::sim::action::WorkerAction;
use crate::sim::entity::{
    CarriedResource, Inventory, ResourceKind, ResourceNode, Storage, Worker, WorkerRole,
    WorkerStatus,
};
use crate::sim::assignment::Assignment;
use crate::sim::reducer::spec_apply_action;
use crate::sim::scheduler::schedule_in_range;
use crate::sim::task::Task;
use crate::sim::scenario::mining_bootstrap_world_view;
use crate::sim::world::WorldStateView;

verus! {

/// The miner of the mining scenarios in a given state.
pub open spec fn miner(
    position: Position,
    battery: u64,
    carried: Option<CarriedResource>,
    status: WorkerStatus,
) -> Worker {
    Worker {
        id: WorkerId(1),
        role: WorkerRole::Miner,
        position,
        battery: Quantity(battery),
        carried,
        status,
    }
}

/// The iron node of the mining scenarios with `remaining` iron.
pub open spec fn iron_node(remaining: u64) -> ResourceNode {
    ResourceNode {
        id: ResourceNodeId(1),
        kind: ResourceKind::Iron,
        position: Position { x: 1, y: 0 },
        remaining: Quantity(remaining),
    }
}

/// The depot of the mining scenarios holding `iron`.
pub open spec fn iron_depot(iron: u64) -> Storage {
    Storage {
        id: StorageId(1),
        position: Position { x: 0, y: 1 },
        inventory: Inventory { iron: Some(Quantity(iron)) },
    }
}

/// A world of the mining scenarios: the one miner, the one iron node and the one depot.
pub open spec fn mining_view(
    tick: u64,
    position: Position,
    battery: u64,
    carried: Option<CarriedResource>,
    status: WorkerStatus,
    node_iron: u64,
    depot_iron: u64,
) -> WorldStateView {
    WorldStateView {
        tick: Tick(tick),
        workers: seq![(WorkerId(1), miner(position, battery, carried, status))],
        resource_nodes: seq![(ResourceNodeId(1), iron_node(node_iron))],
        storage: seq![(StorageId(1), iron_depot(depot_iron))],
    }
}

/// Iron carried by the miner.
pub open spec fn carried_iron(quantity: u64) -> Option<CarriedResource> {
    Some(CarriedResource { kind: ResourceKind::Iron, quantity: Quantity(quantity) })
}

/// The starting world of the mining scenarios is a mining world at tick zero.
pub proof fn lemma_bootstrap_world_is_mining_view()
    ensures
        mining_bootstrap_world_view() == mining_view(
            0,
            Position { x: 0, y: 0 },
            10,
            None,
            WorkerStatus::Active,
            100,
            0,
        ),
{
}

/// Lookups and updates in a mining world find and replace the one entry of each kind.
pub proof fn lemma_mining_view_entries(
    tick: u64,
    position: Position,
    battery: u64,
    carried: Option<CarriedResource>,
    status: WorkerStatus,
    node_iron: u64,
    depot_iron: u64,
)
    ensures
        ({
            let v = mining_view(tick, position, battery, carried, status, node_iron, depot_iron);
            &&& v.worker(WorkerId(1)) == Some(miner(position, battery, carried, status))
            &&& v.node(ResourceNodeId(1)) == Some(iron_node(node_iron))
            &&& v.depot(StorageId(1)) == Some(iron_depot(depot_iron))
            &&& forall|j: WorkerId| j != WorkerId(1) ==> (#[trigger] v.worker(j)) is None
            &&& forall|j: ResourceNodeId| j != ResourceNodeId(1) ==> (#[trigger] v.node(j)) is None
            &&& forall|j: StorageId| j != StorageId(1) ==> (#[trigger] v.depot(j)) is None
            &&& forall|w: Worker| #[trigger]
                put(v.workers, WorkerId(1), w) == seq![(WorkerId(1), w)]
            &&& forall|n: ResourceNode| #[trigger]
                put(v.resource_nodes, ResourceNodeId(1), n) == seq![(ResourceNodeId(1), n)]
            &&& forall|d: Storage| #[trigger]
                put(v.storage, StorageId(1), d) == seq![(StorageId(1), d)]
        }),
{
    lemma_single_entry(WorkerId(1), miner(position, battery, carried, status));
    lemma_single_entry(ResourceNodeId(1), iron_node(node_iron));
    lemma_single_entry(StorageId(1), iron_depot(depot_iron));
}

/// The scheduler's steps in a mining world whose miner stands near the origin stay within
/// coordinate range, whatever the task and assignment.
pub proof fn lemma_mining_view_in_range(
    tick: u64,
    position: Position,
    battery: u64,
    carried: Option<CarriedResource>,
    status: WorkerStatus,
    node_iron: u64,
    depot_iron: u64,
    task: Task,
    a: Assignment,
)
    requires
        -1000 <= position.x <= 1000,
        -1000 <= position.y <= 1000,
    ensures
        schedule_in_range(
            mining_view(tick, position, battery, carried, status, node_iron, depot_iron),
            task,
            a,
        ),
{
    lemma_mining_view_entries(tick, position, battery, carried, status, node_iron, depot_iron);
}

/// An active miner with charge steps to an adjacent tile.
pub proof fn lemma_mining_move(
    tick: u64,
    position: Position,
    battery: u64,
    carried: Option<CarriedResource>,
    node_iron: u64,
    depot_iron: u64,
    to: Position,
)
    requires
        tick < u64::MAX,
        battery >= 1,
        adjacent(position, to),
    ensures
        spec_apply_action(
            mining_view(tick, position, battery, carried, WorkerStatus::Active, node_iron, depot_iron),
            WorkerAction::Move { worker_id: WorkerId(1), to },
        ) == Ok::<WorldStateView, SimError>(
            mining_view(
                (tick + 1) as u64,
                to,
                (battery - 1) as u64,
                carried,
                WorkerStatus::Active,
                node_iron,
                depot_iron,
            ),
        ),
{
    lemma_mining_view_entries(
        tick,
        position,
        battery,
        carried,
        WorkerStatus::Active,
        node_iron,
        depot_iron,
    );
}

/// An active, empty-handed miner next to the node with charge takes `quantity` of its iron.
pub proof fn lemma_mining_mine(
    tick: u64,
    position: Position,
    battery: u64,
    node_iron: u64,
    depot_iron: u64,
    quantity: u64,
)
    requires
        tick < u64::MAX,
        battery >= 1,
        0 < quantity <= node_iron,
        same_or_adjacent(position, Position { x: 1, y: 0 }),
    ensures
        spec_apply_action(
            mining_view(tick, position, battery, None, WorkerStatus::Active, node_iron, depot_iron),
            WorkerAction::Mine {
                worker_id: WorkerId(1),
                node_id: ResourceNodeId(1),
                quantity: Quantity(quantity),
            },
        ) == Ok::<WorldStateView, SimError>(
            mining_view(
                (tick + 1) as u64,
                position,
                (battery - 1) as u64,
                carried_iron(quantity),
                WorkerStatus::Active,
                (node_iron - quantity) as u64,
                depot_iron,
            ),
        ),
{
    lemma_mining_view_entries(
        tick,
        position,
        battery,
        None,
        WorkerStatus::Active,
        node_iron,
        depot_iron,
    );
    lemma_mining_view_entries(
        tick,
        position,
        (battery - 1) as u64,
        carried_iron(quantity),
        WorkerStatus::Active,
        node_iron,
        depot_iron,
    );
}

/// An active miner carrying iron next to the depot with charge stocks it there.
pub proof fn lemma_mining_deposit(
    tick: u64,
    position: Position,
    battery: u64,
    node_iron: u64,
    depot_iron: u64,
    quantity: u64,
)
    requires
        tick < u64::MAX,
        battery >= 1,
        depot_iron + quantity <= u64::MAX,
        same_or_adjacent(position, Position { x: 0, y: 1 }),
    ensures
        spec_apply_action(
            mining_view(
                tick,
                position,
                battery,
                carried_iron(quantity),
                WorkerStatus::Active,
                node_iron,
                depot_iron,
            ),
            WorkerAction::Deposit { worker_id: WorkerId(1), storage_id: StorageId(1) },
        ) == Ok::<WorldStateView, SimError>(
            mining_view(
                (tick + 1) as u64,
                position,
                (battery - 1) as u64,
                None,
                WorkerStatus::Active,
                node_iron,
                (depot_iron + quantity) as u64,
            ),
        ),
{
    lemma_mining_view_entries(
        tick,
        position,
        battery,
        carried_iron(quantity),
        WorkerStatus::Active,
        node_iron,
        depot_iron,
    );
    lemma_mining_view_entries(
        tick,
        position,
        (battery - 1) as u64,
        None,
        WorkerStatus::Active,
        node_iron,
        depot_iron,
    );
}

/// An active miner is disabled, and a disabled one repaired, each in one tick.
pub proof fn lemma_mining_disable_repair(
    tick: u64,
    position: Position,
    battery: u64,
    carried: Option<CarriedResource>,
    node_iron: u64,
    depot_iron: u64,
)
    requires
        tick < u64::MAX,
    ensures
        spec_apply_action(
            mining_view(tick, position, battery, carried, WorkerStatus::Active, node_iron, depot_iron),
            WorkerAction::DisableWorker { worker_id: WorkerId(1) },
        ) == Ok::<WorldStateView, SimError>(
            mining_view(
                (tick + 1) as u64,
                position,
                battery,
                carried,
                WorkerStatus::Disabled,
                node_iron,
                depot_iron,
            ),
        ),
        spec_apply_action(
            mining_view(tick, position, battery, carried, WorkerStatus::Disabled, node_iron, depot_iron),
            WorkerAction::RepairWorker { worker_id: WorkerId(1) },
        ) == Ok::<WorldStateView, SimError>(
            mining_view(
                (tick + 1) as u64,
                position,
                battery,
                carried,
                WorkerStatus::Active,
                node_iron,
                depot_iron,
            ),
        ),
        forall|node_id: ResourceNodeId, quantity: Quantity|
            quantity.0 > 0 ==> #[trigger] spec_apply_action(
                mining_view(
                    tick,
                    position,
                    battery,
                    carried,
                    WorkerStatus::Disabled,
                    node_iron,
                    depot_iron,
                ),
                WorkerAction::Mine { worker_id: WorkerId(1), node_id, quantity },
            ) == Err::<WorldStateView, SimError>(SimError::WorkerDisabled(WorkerId(1))),
{
    lemma_mining_view_entries(
        tick,
        position,
        battery,
        carried,
        WorkerStatus::Active,
        node_iron,
        depot_iron,
    );
    lemma_mining_view_entries(
        tick,
        position,
        battery,
        carried,
        WorkerStatus::Disabled,
        node_iron,
        depot_iron,
    );
}

} // verus!
