use vstd::prelude::*;

use crate::ordered_map::{
    entries_sorted, lemma_replace_frame, lemma_replace_sum, lookup, put, sum_values,
};
use crate::primitives::error::SimError;
use crate::primitives::ids::{ResourceNodeId, StorageId, WorkerId};
use crate::primitives::position::{adjacent, same_or_adjacent, Position};
use crate::primitives::quantity::Quantity;
use crate::primitives::tick::Tick;
use crate::sim::action::WorkerAction;
use crate::sim::entity::{
    inventory_get, inventory_put, CarriedResource, ResourceKind, ResourceNode, Storage, Worker,
    WorkerRole, WorkerStatus,
};
use crate::sim::world::{WorldState, WorldStateView};

verus! {

/// The battery charge that moving, mining and depositing each consume.
pub open spec fn action_battery_cost() -> u64 {
    1
}

/// The world one tick later, or the overflow error at the last tick.
pub open spec fn advance(s: WorldStateView) -> Result<WorldStateView, SimError> {
    if s.tick.0 == u64::MAX {
        Err(SimError::TickOverflow)
    } else {
        Ok(WorldStateView { tick: Tick((s.tick.0 + 1) as u64), ..s })
    }
}

/// The world with `w` stored under `id`.
pub open spec fn with_worker(s: WorldStateView, id: WorkerId, w: Worker) -> WorldStateView {
    WorldStateView { workers: put(s.workers, id, w), ..s }
}

/// The error for a worker whose battery cannot pay one action.
pub open spec fn battery_error(w: Worker) -> SimError {
    SimError::InsufficientBattery {
        worker_id: w.id,
        required: Quantity(action_battery_cost()),
        available: w.battery,
    }
}

/// The battery left after one action.
pub open spec fn drained(w: Worker) -> Quantity {
    Quantity((w.battery.0 - action_battery_cost()) as u64)
}

/// Moving to an adjacent tile costs one charge.
pub open spec fn spec_move(s: WorldStateView, id: WorkerId, to: Position) -> Result<
    WorldStateView,
    SimError,
> {
    match s.worker(id) {
        None => Err(SimError::UnknownWorker(id)),
        Some(w) => if w.status == WorkerStatus::Disabled {
            Err(SimError::WorkerDisabled(w.id))
        } else if w.battery.0 < action_battery_cost() {
            Err(battery_error(w))
        } else if !adjacent(w.position, to) {
            Err(SimError::NotAdjacent { from: w.position, to })
        } else {
            advance(with_worker(s, id, Worker { position: to, battery: drained(w), ..w }))
        },
    }
}

/// A miner next to a node takes `quantity` of its resource, for one charge.
pub open spec fn spec_mine(
    s: WorldStateView,
    id: WorkerId,
    node_id: ResourceNodeId,
    quantity: Quantity,
) -> Result<WorldStateView, SimError> {
    if quantity.0 == 0 {
        Err(SimError::InvalidAction("mine quantity must be greater than zero"))
    } else {
        match s.worker(id) {
            None => Err(SimError::UnknownWorker(id)),
            Some(w) => if w.status == WorkerStatus::Disabled {
                Err(SimError::WorkerDisabled(w.id))
            } else {
                match s.node(node_id) {
                    None => Err(SimError::UnknownResourceNode(node_id)),
                    Some(node) => if w.role != WorkerRole::Miner {
                        Err(SimError::InvalidAction("worker is not a miner"))
                    } else if w.carried is Some {
                        Err(SimError::InvalidAction("worker is already carrying a resource"))
                    } else if !same_or_adjacent(w.position, node.position) {
                        Err(SimError::NotAdjacent { from: w.position, to: node.position })
                    } else if w.battery.0 < action_battery_cost() {
                        Err(battery_error(w))
                    } else if node.remaining.0 < quantity.0 {
                        Err(
                            SimError::InsufficientResource {
                                resource_node_id: node_id,
                                requested: quantity,
                                available: node.remaining,
                            },
                        )
                    } else {
                        let w2 = Worker {
                            battery: drained(w),
                            carried: Some(CarriedResource { kind: node.kind, quantity }),
                            ..w
                        };
                        let n2 = crate::sim::entity::ResourceNode {
                            remaining: Quantity((node.remaining.0 - quantity.0) as u64),
                            ..node
                        };
                        let s1 = with_worker(s, id, w2);
                        advance(
                            WorldStateView {
                                resource_nodes: put(s1.resource_nodes, node_id, n2),
                                ..s1
                            },
                        )
                    },
                }
            },
        }
    }
}

/// A worker next to a depot adds what it carries to the depot's inventory, for one charge.
pub open spec fn spec_deposit(s: WorldStateView, id: WorkerId, storage_id: StorageId) -> Result<
    WorldStateView,
    SimError,
> {
    match s.worker(id) {
        None => Err(SimError::UnknownWorker(id)),
        Some(w) => if w.status == WorkerStatus::Disabled {
            Err(SimError::WorkerDisabled(w.id))
        } else {
            match s.depot(storage_id) {
                None => Err(SimError::UnknownStorage(storage_id)),
                Some(depot) => if !same_or_adjacent(w.position, depot.position) {
                    Err(SimError::NotAdjacent { from: w.position, to: depot.position })
                } else {
                    match w.carried {
                        None => Err(SimError::InvalidAction("worker is not carrying resource")),
                        Some(carried) => if w.battery.0 < action_battery_cost() {
                            Err(battery_error(w))
                        } else {
                            let current = match inventory_get(depot.inventory, carried.kind) {
                                Some(q) => q,
                                None => Quantity(0),
                            };
                            if current.0 + carried.quantity.0 > u64::MAX {
                                Err(
                                    SimError::CapacityExceeded {
                                        current,
                                        added: carried.quantity,
                                    },
                                )
                            } else {
                                let w2 = Worker { battery: drained(w), carried: None, ..w };
                                let d2 = crate::sim::entity::Storage {
                                    inventory: inventory_put(
                                        depot.inventory,
                                        carried.kind,
                                        Quantity((current.0 + carried.quantity.0) as u64),
                                    ),
                                    ..depot
                                };
                                let s1 = with_worker(s, id, w2);
                                advance(
                                    WorldStateView { storage: put(s1.storage, storage_id, d2), ..s1 },
                                )
                            }
                        },
                    }
                },
            }
        },
    }
}

/// An active worker gains `amount` of charge, unless the charge would overflow.
pub open spec fn spec_recharge(s: WorldStateView, id: WorkerId, amount: Quantity) -> Result<
    WorldStateView,
    SimError,
> {
    match s.worker(id) {
        None => Err(SimError::UnknownWorker(id)),
        Some(w) => if w.status == WorkerStatus::Disabled {
            Err(SimError::WorkerDisabled(w.id))
        } else if w.battery.0 + amount.0 > u64::MAX {
            Err(SimError::CapacityExceeded { current: w.battery, added: amount })
        } else {
            advance(
                with_worker(
                    s,
                    id,
                    Worker { battery: Quantity((w.battery.0 + amount.0) as u64), ..w },
                ),
            )
        },
    }
}

/// An active worker waits one tick.
pub open spec fn spec_wait(s: WorldStateView, id: WorkerId) -> Result<WorldStateView, SimError> {
    match s.worker(id) {
        None => Err(SimError::UnknownWorker(id)),
        Some(w) => if w.status == WorkerStatus::Disabled {
            Err(SimError::WorkerDisabled(w.id))
        } else {
            advance(s)
        },
    }
}

/// An active worker is disabled.
pub open spec fn spec_disable(s: WorldStateView, id: WorkerId) -> Result<WorldStateView, SimError> {
    match s.worker(id) {
        None => Err(SimError::UnknownWorker(id)),
        Some(w) => if w.status == WorkerStatus::Disabled {
            Err(SimError::InvalidAction("worker is already disabled"))
        } else {
            advance(with_worker(s, id, Worker { status: WorkerStatus::Disabled, ..w }))
        },
    }
}

/// A disabled worker is made active again.
pub open spec fn spec_repair(s: WorldStateView, id: WorkerId) -> Result<WorldStateView, SimError> {
    match s.worker(id) {
        None => Err(SimError::UnknownWorker(id)),
        Some(w) => if w.status == WorkerStatus::Active {
            Err(SimError::InvalidAction("worker is already active"))
        } else {
            advance(with_worker(s, id, Worker { status: WorkerStatus::Active, ..w }))
        },
    }
}

/// The world after `action`, or why the action is refused.
pub open spec fn spec_apply_action(s: WorldStateView, action: WorkerAction) -> Result<
    WorldStateView,
    SimError,
> {
    match action {
        WorkerAction::Move { worker_id, to } => spec_move(s, worker_id, to),
        WorkerAction::Mine { worker_id, node_id, quantity } => spec_mine(
            s,
            worker_id,
            node_id,
            quantity,
        ),
        WorkerAction::Deposit { worker_id, storage_id } => spec_deposit(s, worker_id, storage_id),
        WorkerAction::Recharge { worker_id, amount } => spec_recharge(s, worker_id, amount),
        WorkerAction::Wait { worker_id } => spec_wait(s, worker_id),
        WorkerAction::DisableWorker { worker_id } => spec_disable(s, worker_id),
        WorkerAction::RepairWorker { worker_id } => spec_repair(s, worker_id),
    }
}

/// An executed world result agrees with a specified one.
pub open spec fn world_result_is(
    r: Result<WorldState, SimError>,
    expected: Result<WorldStateView, SimError>,
) -> bool {
    match (r, expected) {
        (Ok(n), Ok(m)) => n@ == m,
        (Err(e), Err(f)) => e == f,
        _ => false,
    }
}

/// Applies one worker action to the world. A refused action leaves the given world as it
/// was; an applied one advances the tick by one.
pub fn apply_action(state: &WorldState, action: &WorkerAction) -> (r: Result<WorldState, SimError>)
    ensures
        world_result_is(r, spec_apply_action(state@, *action)),
{
    match *action {
        WorkerAction::Move { worker_id, to } => apply_move(state, worker_id, to),
        WorkerAction::Mine { worker_id, node_id, quantity } => apply_mine(
            state,
            worker_id,
            node_id,
            quantity,
        ),
        WorkerAction::Deposit { worker_id, storage_id } => apply_deposit(
            state,
            worker_id,
            storage_id,
        ),
        WorkerAction::Recharge { worker_id, amount } => apply_recharge(state, worker_id, amount),
        WorkerAction::Wait { worker_id } => apply_wait(state, worker_id),
        WorkerAction::DisableWorker { worker_id } => apply_disable_worker(state, worker_id),
        WorkerAction::RepairWorker { worker_id } => apply_repair_worker(state, worker_id),
    }
}

fn worker(state: &WorldState, worker_id: WorkerId) -> (r: Result<Worker, SimError>)
    ensures
        match state@.worker(worker_id) {
            Some(w) => r == Ok::<Worker, SimError>(w),
            None => r == Err::<Worker, SimError>(SimError::UnknownWorker(worker_id)),
        },
{
    match state.workers.get(&worker_id) {
        Some(w) => Ok(*w),
        None => Err(SimError::UnknownWorker(worker_id)),
    }
}

fn ensure_active(worker: &Worker) -> (r: Result<(), SimError>)
    ensures
        worker.status == WorkerStatus::Disabled ==> r == Err::<(), SimError>(
            SimError::WorkerDisabled(worker.id),
        ),
        worker.status != WorkerStatus::Disabled ==> r is Ok,
{
    if worker.status == WorkerStatus::Disabled {
        return Err(SimError::WorkerDisabled(worker.id));
    }
    Ok(())
}

fn battery_after_cost(worker: &Worker) -> (r: Result<Quantity, SimError>)
    ensures
        worker.battery.0 < action_battery_cost() ==> r == Err::<Quantity, SimError>(
            battery_error(*worker),
        ),
        worker.battery.0 >= action_battery_cost() ==> r == Ok::<Quantity, SimError>(
            drained(*worker),
        ),
{
    match worker.battery.checked_sub(Quantity::one()) {
        Some(b) => Ok(b),
        None => Err(
            SimError::InsufficientBattery {
                worker_id: worker.id,
                required: Quantity::one(),
                available: worker.battery,
            },
        ),
    }
}

fn advance_tick(state: &mut WorldState) -> (r: Result<(), SimError>)
    ensures
        match advance(old(state)@) {
            Ok(s) => r is Ok && final(state)@ == s,
            Err(e) => r == Err::<(), SimError>(e),
        },
{
    match state.tick.checked_next() {
        Some(t) => {
            state.tick = t;
            Ok(())
        },
        None => Err(SimError::TickOverflow),
    }
}

fn apply_move(state: &WorldState, worker_id: WorkerId, to: Position) -> (r: Result<
    WorldState,
    SimError,
>)
    ensures
        world_result_is(r, spec_move(state@, worker_id, to)),
{
    let w = worker(state, worker_id)?;
    ensure_active(&w)?;
    let battery = battery_after_cost(&w)?;
    if !w.position.is_adjacent(to) {
        return Err(SimError::NotAdjacent { from: w.position, to });
    }
    let mut next = state.duplicate();
    next.workers.insert(worker_id, Worker { position: to, battery, ..w });
    advance_tick(&mut next)?;
    Ok(next)
}

fn apply_mine(
    state: &WorldState,
    worker_id: WorkerId,
    node_id: ResourceNodeId,
    quantity: Quantity,
) -> (r: Result<WorldState, SimError>)
    ensures
        world_result_is(r, spec_mine(state@, worker_id, node_id, quantity)),
{
    if quantity.is_zero() {
        return Err(SimError::InvalidAction("mine quantity must be greater than zero"));
    }
    let w = worker(state, worker_id)?;
    ensure_active(&w)?;
    let node = match state.resource_nodes.get(&node_id) {
        Some(n) => *n,
        None => {
            return Err(SimError::UnknownResourceNode(node_id));
        },
    };
    if w.role != WorkerRole::Miner {
        return Err(SimError::InvalidAction("worker is not a miner"));
    }
    if w.carried.is_some() {
        return Err(SimError::InvalidAction("worker is already carrying a resource"));
    }
    if !w.position.is_same_or_adjacent(node.position) {
        return Err(SimError::NotAdjacent { from: w.position, to: node.position });
    }
    let battery = battery_after_cost(&w)?;
    let remaining = match node.remaining.checked_sub(quantity) {
        Some(q) => q,
        None => {
            return Err(
                SimError::InsufficientResource {
                    resource_node_id: node_id,
                    requested: quantity,
                    available: node.remaining,
                },
            );
        },
    };
    let mut next = state.duplicate();
    next.workers.insert(
        worker_id,
        Worker { battery, carried: Some(CarriedResource { kind: node.kind, quantity }), ..w },
    );
    next.resource_nodes.insert(node_id, crate::sim::entity::ResourceNode { remaining, ..node });
    advance_tick(&mut next)?;
    Ok(next)
}

fn apply_deposit(state: &WorldState, worker_id: WorkerId, storage_id: StorageId) -> (r: Result<
    WorldState,
    SimError,
>)
    ensures
        world_result_is(r, spec_deposit(state@, worker_id, storage_id)),
{
    let w = worker(state, worker_id)?;
    ensure_active(&w)?;
    let depot = match state.storage.get(&storage_id) {
        Some(d) => *d,
        None => {
            return Err(SimError::UnknownStorage(storage_id));
        },
    };
    if !w.position.is_same_or_adjacent(depot.position) {
        return Err(SimError::NotAdjacent { from: w.position, to: depot.position });
    }
    let carried = match w.carried {
        Some(c) => c,
        None => {
            return Err(SimError::InvalidAction("worker is not carrying resource"));
        },
    };
    let battery = battery_after_cost(&w)?;
    let current = match depot.inventory.get(&carried.kind) {
        Some(q) => q,
        None => Quantity::zero(),
    };
    let total = match current.checked_add(carried.quantity) {
        Some(t) => t,
        None => {
            return Err(SimError::CapacityExceeded { current, added: carried.quantity });
        },
    };
    let mut next = state.duplicate();
    next.workers.insert(worker_id, Worker { battery, carried: None, ..w });
    let mut inventory = depot.inventory;
    inventory.insert(carried.kind, total);
    next.storage.insert(storage_id, crate::sim::entity::Storage { inventory, ..depot });
    advance_tick(&mut next)?;
    Ok(next)
}

fn apply_recharge(state: &WorldState, worker_id: WorkerId, amount: Quantity) -> (r: Result<
    WorldState,
    SimError,
>)
    ensures
        world_result_is(r, spec_recharge(state@, worker_id, amount)),
{
    let w = worker(state, worker_id)?;
    ensure_active(&w)?;
    let battery = match w.battery.checked_add(amount) {
        Some(b) => b,
        None => {
            return Err(SimError::CapacityExceeded { current: w.battery, added: amount });
        },
    };
    let mut next = state.duplicate();
    next.workers.insert(worker_id, Worker { battery, ..w });
    advance_tick(&mut next)?;
    Ok(next)
}

fn apply_wait(state: &WorldState, worker_id: WorkerId) -> (r: Result<WorldState, SimError>)
    ensures
        world_result_is(r, spec_wait(state@, worker_id)),
{
    let w = worker(state, worker_id)?;
    ensure_active(&w)?;
    let mut next = state.duplicate();
    advance_tick(&mut next)?;
    Ok(next)
}

fn apply_disable_worker(state: &WorldState, worker_id: WorkerId) -> (r: Result<
    WorldState,
    SimError,
>)
    ensures
        world_result_is(r, spec_disable(state@, worker_id)),
{
    let w = worker(state, worker_id)?;
    if w.status == WorkerStatus::Disabled {
        return Err(SimError::InvalidAction("worker is already disabled"));
    }
    let mut next = state.duplicate();
    next.workers.insert(worker_id, Worker { status: WorkerStatus::Disabled, ..w });
    advance_tick(&mut next)?;
    Ok(next)
}

fn apply_repair_worker(state: &WorldState, worker_id: WorkerId) -> (r: Result<
    WorldState,
    SimError,
>)
    ensures
        world_result_is(r, spec_repair(state@, worker_id)),
{
    let w = worker(state, worker_id)?;
    if w.status == WorkerStatus::Active {
        return Err(SimError::InvalidAction("worker is already active"));
    }
    let mut next = state.duplicate();
    next.workers.insert(worker_id, Worker { status: WorkerStatus::Active, ..w });
    advance_tick(&mut next)?;
    Ok(next)
}

/// A successful action advances the world by exactly one tick.
pub proof fn lemma_action_advances_tick(s: WorldStateView, action: WorkerAction)
    ensures
        spec_apply_action(s, action) matches Ok(n) ==> n.tick.0 == s.tick.0 + 1,
{
}

/// The worker an action is about.
pub open spec fn acting_worker(action: WorkerAction) -> WorkerId {
    match action {
        WorkerAction::Move { worker_id, .. } => worker_id,
        WorkerAction::Mine { worker_id, .. } => worker_id,
        WorkerAction::Deposit { worker_id, .. } => worker_id,
        WorkerAction::Recharge { worker_id, .. } => worker_id,
        WorkerAction::Wait { worker_id } => worker_id,
        WorkerAction::DisableWorker { worker_id } => worker_id,
        WorkerAction::RepairWorker { worker_id } => worker_id,
    }
}

/// The resource node an action draws from, if any.
pub open spec fn touched_node(action: WorkerAction) -> Option<ResourceNodeId> {
    match action {
        WorkerAction::Mine { node_id, .. } => Some(node_id),
        _ => None,
    }
}

/// The depot an action delivers to, if any.
pub open spec fn touched_depot(action: WorkerAction) -> Option<StorageId> {
    match action {
        WorkerAction::Deposit { storage_id, .. } => Some(storage_id),
        _ => None,
    }
}

/// The entries of the world's three maps are sorted by key, as every world's are.
pub open spec fn world_sorted(s: WorldStateView) -> bool {
    &&& entries_sorted(s.workers)
    &&& entries_sorted(s.resource_nodes)
    &&& entries_sorted(s.storage)
}

/// What a successful action leaves alone: the world moves one tick on; no worker, node or
/// depot appears or disappears; every worker but the acting one, every node but the one
/// mined and every depot but the one delivered to is unchanged. Waiting changes nothing but
/// the tick.
pub proof fn lemma_action_frame(s: WorldStateView, action: WorkerAction)
    requires
        world_sorted(s),
        spec_apply_action(s, action) is Ok,
    ensures
        ({
            let n = spec_apply_action(s, action)->Ok_0;
            &&& n.tick.0 == s.tick.0 + 1
            &&& world_sorted(n)
            &&& forall|k: WorkerId| (#[trigger] n.worker(k) is Some) == (s.worker(k) is Some)
            &&& forall|k: WorkerId| k != acting_worker(action) ==> #[trigger] n.worker(k) == s.worker(k)
            &&& forall|k: ResourceNodeId| (#[trigger] n.node(k) is Some) == (s.node(k) is Some)
            &&& forall|k: ResourceNodeId|
                touched_node(action) != Some(k) ==> #[trigger] n.node(k) == s.node(k)
            &&& forall|k: StorageId| (#[trigger] n.depot(k) is Some) == (s.depot(k) is Some)
            &&& forall|k: StorageId|
                touched_depot(action) != Some(k) ==> #[trigger] n.depot(k) == s.depot(k)
            &&& action is Wait ==> n == WorldStateView { tick: n.tick, ..s }
        }),
{
    match action {
        WorkerAction::Move { worker_id, to } => {
            let w = s.worker(worker_id)->Some_0;
            lemma_replace_frame(s.workers, worker_id, Worker { position: to, battery: drained(w), ..w });
        },
        WorkerAction::Mine { worker_id, node_id, quantity } => {
            let w = s.worker(worker_id)->Some_0;
            let node = s.node(node_id)->Some_0;
            let w2 = Worker {
                battery: drained(w),
                carried: Some(CarriedResource { kind: node.kind, quantity }),
                ..w
            };
            let n2 = crate::sim::entity::ResourceNode {
                remaining: Quantity((node.remaining.0 - quantity.0) as u64),
                ..node
            };
            lemma_replace_frame(s.workers, worker_id, w2);
            lemma_replace_frame(s.resource_nodes, node_id, n2);
        },
        WorkerAction::Deposit { worker_id, storage_id } => {
            let w = s.worker(worker_id)->Some_0;
            let depot = s.depot(storage_id)->Some_0;
            let carried = w.carried->Some_0;
            let current = match inventory_get(depot.inventory, carried.kind) {
                Some(q) => q,
                None => Quantity(0),
            };
            let w2 = Worker { battery: drained(w), carried: None, ..w };
            let d2 = crate::sim::entity::Storage {
                inventory: inventory_put(
                    depot.inventory,
                    carried.kind,
                    Quantity((current.0 + carried.quantity.0) as u64),
                ),
                ..depot
            };
            lemma_replace_frame(s.workers, worker_id, w2);
            lemma_replace_frame(s.storage, storage_id, d2);
        },
        WorkerAction::Recharge { worker_id, amount } => {
            let w = s.worker(worker_id)->Some_0;
            lemma_replace_frame(
                s.workers,
                worker_id,
                Worker { battery: Quantity((w.battery.0 + amount.0) as u64), ..w },
            );
        },
        WorkerAction::Wait { .. } => {},
        WorkerAction::DisableWorker { worker_id } => {
            let w = s.worker(worker_id)->Some_0;
            lemma_replace_frame(s.workers, worker_id, Worker { status: WorkerStatus::Disabled, ..w });
        },
        WorkerAction::RepairWorker { worker_id } => {
            let w = s.worker(worker_id)->Some_0;
            lemma_replace_frame(s.workers, worker_id, Worker { status: WorkerStatus::Active, ..w });
        },
    }
}

/// The resource a node still holds.
pub open spec fn node_amount() -> spec_fn(ResourceNode) -> nat {
    |n: ResourceNode| n.remaining.0 as nat
}

/// The resource a worker carries.
pub open spec fn carried_amount() -> spec_fn(Worker) -> nat {
    |w: Worker|
        match w.carried {
            Some(c) => c.quantity.0 as nat,
            None => 0,
        }
}

/// The resource a depot holds.
pub open spec fn stored_amount() -> spec_fn(Storage) -> nat {
    |d: Storage|
        match inventory_get(d.inventory, ResourceKind::Iron) {
            Some(q) => q.0 as nat,
            None => 0,
        }
}

/// All resource in the world: what the nodes still hold, what the workers carry and what the
/// depots hold.
pub open spec fn resource_total(s: WorldStateView) -> nat {
    sum_values(s.resource_nodes, node_amount()) + sum_values(s.workers, carried_amount())
        + sum_values(s.storage, stored_amount())
}

/// Actions only move resource: mining takes from a node what the worker then carries, and
/// depositing hands what the worker carries to the depot. A successful action leaves the
/// world's total resource unchanged.
pub proof fn lemma_action_conserves_resource(s: WorldStateView, action: WorkerAction)
    requires
        spec_apply_action(s, action) is Ok,
    ensures
        resource_total(spec_apply_action(s, action)->Ok_0) == resource_total(s),
{
    match action {
        WorkerAction::Move { worker_id, to } => {
            let w = s.worker(worker_id)->Some_0;
            lemma_replace_sum(s.workers, worker_id, Worker { position: to, battery: drained(w), ..w }, carried_amount());
        },
        WorkerAction::Mine { worker_id, node_id, quantity } => {
            let w = s.worker(worker_id)->Some_0;
            let node = s.node(node_id)->Some_0;
            let w2 = Worker {
                battery: drained(w),
                carried: Some(CarriedResource { kind: node.kind, quantity }),
                ..w
            };
            let n2 = ResourceNode {
                remaining: Quantity((node.remaining.0 - quantity.0) as u64),
                ..node
            };
            lemma_replace_sum(s.workers, worker_id, w2, carried_amount());
            lemma_replace_sum(s.resource_nodes, node_id, n2, node_amount());
        },
        WorkerAction::Deposit { worker_id, storage_id } => {
            let w = s.worker(worker_id)->Some_0;
            let depot = s.depot(storage_id)->Some_0;
            let carried = w.carried->Some_0;
            let current = match inventory_get(depot.inventory, carried.kind) {
                Some(q) => q,
                None => Quantity(0),
            };
            let w2 = Worker { battery: drained(w), carried: None, ..w };
            let d2 = Storage {
                inventory: inventory_put(
                    depot.inventory,
                    carried.kind,
                    Quantity((current.0 + carried.quantity.0) as u64),
                ),
                ..depot
            };
            lemma_replace_sum(s.workers, worker_id, w2, carried_amount());
            lemma_replace_sum(s.storage, storage_id, d2, stored_amount());
        },
        WorkerAction::Recharge { worker_id, amount } => {
            let w = s.worker(worker_id)->Some_0;
            lemma_replace_sum(
                s.workers,
                worker_id,
                Worker { battery: Quantity((w.battery.0 + amount.0) as u64), ..w },
                carried_amount(),
            );
        },
        WorkerAction::Wait { .. } => {},
        WorkerAction::DisableWorker { worker_id } => {
            let w = s.worker(worker_id)->Some_0;
            lemma_replace_sum(s.workers, worker_id, Worker { status: WorkerStatus::Disabled, ..w }, carried_amount());
        },
        WorkerAction::RepairWorker { worker_id } => {
            let w = s.worker(worker_id)->Some_0;
            lemma_replace_sum(s.workers, worker_id, Worker { status: WorkerStatus::Active, ..w }, carried_amount());
        },
    }
}

/// The tiles are the same or one step apart, counted by coordinates.
pub open spec fn within_one_step(a: Position, b: Position) -> bool {
    let dx = a.x - b.x;
    let dy = a.y - b.y;
    (dx == 0 && -1 <= dy <= 1) || (dy == 0 && -1 <= dx <= 1)
}

/// What a successful action needs of the world and what it does to its worker and target.
/// Every action needs its worker to exist; all but repair need it active. A move goes one
/// step, onto another tile, for one charge. A mine needs a miner that carries nothing, on or
/// next to the node, asking for a positive quantity the node still holds; the worker then
/// carries that quantity of the node's resource and the node holds that much less. A deposit
/// needs a worker that carries something, on or next to the depot; the worker then carries
/// nothing and the depot holds that much more. Recharging adds the charge; disabling and
/// repairing flip the worker's status.
pub proof fn lemma_action_success_conditions(s: WorldStateView, action: WorkerAction)
    requires
        world_sorted(s),
        spec_apply_action(s, action) is Ok,
    ensures
        ({
            let n = spec_apply_action(s, action)->Ok_0;
            let id = acting_worker(action);
            &&& s.worker(id) is Some
            &&& n.worker(id) is Some
            &&& !(action is RepairWorker) ==> s.worker(id)->Some_0.status == WorkerStatus::Active
            &&& match action {
                WorkerAction::Move { to, .. } => {
                    let w = s.worker(id)->Some_0;
                    &&& w.battery.0 >= 1
                    &&& within_one_step(w.position, to) && w.position != to
                    &&& n.worker(id) == Some(
                        Worker { position: to, battery: Quantity((w.battery.0 - 1) as u64), ..w },
                    )
                },
                WorkerAction::Mine { node_id, quantity, .. } => {
                    let w = s.worker(id)->Some_0;
                    &&& s.node(node_id) is Some
                    &&& {
                        let node = s.node(node_id)->Some_0;
                        &&& w.role == WorkerRole::Miner
                        &&& w.carried is None
                        &&& w.battery.0 >= 1
                        &&& within_one_step(w.position, node.position)
                        &&& 0 < quantity.0 <= node.remaining.0
                        &&& n.worker(id)->Some_0.carried == Some(
                            CarriedResource { kind: node.kind, quantity },
                        )
                        &&& n.node(node_id) == Some(
                            ResourceNode {
                                remaining: Quantity((node.remaining.0 - quantity.0) as u64),
                                ..node
                            },
                        )
                    }
                },
                WorkerAction::Deposit { storage_id, .. } => {
                    let w = s.worker(id)->Some_0;
                    &&& s.depot(storage_id) is Some
                    &&& w.carried is Some
                    &&& {
                        let d = s.depot(storage_id)->Some_0;
                        let c = w.carried->Some_0;
                        let before = match d.inventory.iron {
                            Some(q) => q.0 as int,
                            None => 0int,
                        };
                        &&& w.battery.0 >= 1
                        &&& within_one_step(w.position, d.position)
                        &&& n.worker(id)->Some_0.carried is None
                        &&& n.depot(storage_id) is Some
                        &&& n.depot(storage_id)->Some_0.inventory.iron == Some(
                            Quantity((before + c.quantity.0) as u64),
                        )
                        &&& before + c.quantity.0 <= u64::MAX
                    }
                },
                WorkerAction::Recharge { amount, .. } => n.worker(id)->Some_0.battery.0
                    == s.worker(id)->Some_0.battery.0 + amount.0,
                WorkerAction::Wait { .. } => n.worker(id) == s.worker(id),
                WorkerAction::DisableWorker { .. } => n.worker(id)->Some_0.status
                    == WorkerStatus::Disabled,
                WorkerAction::RepairWorker { .. } => s.worker(id)->Some_0.status
                    == WorkerStatus::Disabled && n.worker(id)->Some_0.status == WorkerStatus::Active,
            }
        }),
{
    lemma_action_frame(s, action);
    match action {
        WorkerAction::Move { worker_id, to } => {
            let w = s.worker(worker_id)->Some_0;
            lemma_replace_frame(s.workers, worker_id, Worker { position: to, battery: drained(w), ..w });
        },
        WorkerAction::Mine { worker_id, node_id, quantity } => {
            let w = s.worker(worker_id)->Some_0;
            let node = s.node(node_id)->Some_0;
            let w2 = Worker {
                battery: drained(w),
                carried: Some(CarriedResource { kind: node.kind, quantity }),
                ..w
            };
            let n2 = ResourceNode {
                remaining: Quantity((node.remaining.0 - quantity.0) as u64),
                ..node
            };
            lemma_replace_frame(s.workers, worker_id, w2);
            lemma_replace_frame(s.resource_nodes, node_id, n2);
        },
        WorkerAction::Deposit { worker_id, storage_id } => {
            let w = s.worker(worker_id)->Some_0;
            let depot = s.depot(storage_id)->Some_0;
            let carried = w.carried->Some_0;
            let current = match inventory_get(depot.inventory, carried.kind) {
                Some(q) => q,
                None => Quantity(0),
            };
            let w2 = Worker { battery: drained(w), carried: None, ..w };
            let d2 = Storage {
                inventory: inventory_put(
                    depot.inventory,
                    carried.kind,
                    Quantity((current.0 + carried.quantity.0) as u64),
                ),
                ..depot
            };
            lemma_replace_frame(s.workers, worker_id, w2);
            lemma_replace_frame(s.storage, storage_id, d2);
        },
        WorkerAction::Recharge { worker_id, amount } => {
            let w = s.worker(worker_id)->Some_0;
            lemma_replace_frame(
                s.workers,
                worker_id,
                Worker { battery: Quantity((w.battery.0 + amount.0) as u64), ..w },
            );
        },
        WorkerAction::Wait { .. } => {},
        WorkerAction::DisableWorker { worker_id } => {
            let w = s.worker(worker_id)->Some_0;
            lemma_replace_frame(s.workers, worker_id, Worker { status: WorkerStatus::Disabled, ..w });
        },
        WorkerAction::RepairWorker { worker_id } => {
            let w = s.worker(worker_id)->Some_0;
            lemma_replace_frame(s.workers, worker_id, Worker { status: WorkerStatus::Active, ..w });
        },
    }
}

} // verus!
