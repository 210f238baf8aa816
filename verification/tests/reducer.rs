use lib::primitives::error::SimError;
use lib::primitives::ids::{ResourceNodeId, StorageId, WorkerId};
use lib::primitives::position::Position;
use lib::primitives::quantity::Quantity;
use lib::primitives::tick::Tick;
use lib::sim::action::WorkerAction;
use lib::sim::entity::{
    CarriedResource, Inventory, ResourceKind, ResourceNode, Storage, Worker, WorkerRole,
    WorkerStatus,
};
use lib::sim::reducer::apply_action;
use lib::sim::world::WorldState;

fn update_worker(state: &mut WorldState, id: WorkerId, change: impl FnOnce(&mut Worker)) {
    let mut worker = *state.workers.get(&id).expect("worker exists");
    change(&mut worker);
    state.workers.insert(id, worker);
}




fn worker_id(value: u64) -> WorkerId {
    WorkerId::new(value)
}

fn node_id(value: u64) -> ResourceNodeId {
    ResourceNodeId::new(value)
}

fn storage_id(value: u64) -> StorageId {
    StorageId::new(value)
}

fn base_world() -> WorldState {
    let mut state = WorldState::new();
    state.workers.insert(
        worker_id(1),
        Worker {
            id: worker_id(1),
            role: WorkerRole::Miner,
            position: Position::new(0, 0),
            battery: Quantity::new(3),
            carried: None,
            status: WorkerStatus::Active,
        },
    );
    state.workers.insert(
        worker_id(2),
        Worker {
            id: worker_id(2),
            role: WorkerRole::Hauler,
            position: Position::new(1, 0),
            battery: Quantity::new(3),
            carried: None,
            status: WorkerStatus::Active,
        },
    );
    state.resource_nodes.insert(
        node_id(1),
        ResourceNode {
            id: node_id(1),
            kind: ResourceKind::Iron,
            position: Position::new(0, 1),
            remaining: Quantity::new(10),
        },
    );
    state.storage.insert(
        storage_id(1),
        Storage {
            id: storage_id(1),
            position: Position::new(1, 1),
            inventory: Inventory::new(),
        },
    );
    state
}

#[test]
fn initial_world_can_be_constructed_deterministically() {
    let state = base_world();

    assert_eq!(state.tick, Tick::zero());
    assert_eq!(
        state.workers.keys(),
        vec![worker_id(1), worker_id(2)]
    );
    assert_eq!(
        state.resource_nodes.keys(),
        vec![node_id(1)]
    );
    assert_eq!(
        state.storage.keys(),
        vec![storage_id(1)]
    );
}

#[test]
fn move_to_adjacent_tile_succeeds_and_advances_tick() {
    let state = base_world();
    let next = apply_action(
        &state,
        &WorkerAction::Move {
            worker_id: worker_id(1),
            to: Position::new(1, 0),
        },
    )
    .expect("adjacent move should succeed");

    let worker = next.workers.get(&worker_id(1)).expect("worker exists");
    assert_eq!(worker.position, Position::new(1, 0));
    assert_eq!(worker.battery, Quantity::new(2));
    assert_eq!(next.tick, Tick::new(1));
}

#[test]
fn move_to_non_adjacent_tile_fails_and_does_not_advance_tick() {
    let state = base_world();
    let result = apply_action(
        &state,
        &WorkerAction::Move {
            worker_id: worker_id(1),
            to: Position::new(2, 0),
        },
    );

    assert!(matches!(result, Err(SimError::NotAdjacent { .. })));
    assert_eq!(state.tick, Tick::zero());
}

#[test]
fn move_with_insufficient_battery_fails() {
    let mut state = base_world();
    update_worker(&mut state, worker_id(1), |w| w.battery = Quantity::zero());
    let original = state.duplicate();

    let result = apply_action(
        &state,
        &WorkerAction::Move {
            worker_id: worker_id(1),
            to: Position::new(1, 0),
        },
    );

    assert!(matches!(result, Err(SimError::InsufficientBattery { .. })));
    assert_eq!(state, original);
}

#[test]
fn miner_can_mine_iron_from_node() {
    let state = base_world();
    let next = apply_action(
        &state,
        &WorkerAction::Mine {
            worker_id: worker_id(1),
            node_id: node_id(1),
            quantity: Quantity::new(4),
        },
    )
    .expect("miner should mine adjacent node");

    assert_eq!(next.tick, Tick::new(1));
}

#[test]
fn mining_reduces_node_remaining() {
    let state = base_world();
    let next = apply_action(
        &state,
        &WorkerAction::Mine {
            worker_id: worker_id(1),
            node_id: node_id(1),
            quantity: Quantity::new(4),
        },
    )
    .expect("mining should succeed");

    let node = next.resource_nodes.get(&node_id(1)).expect("node exists");
    assert_eq!(node.remaining, Quantity::new(6));
}

#[test]
fn mining_sets_worker_carried_resource() {
    let state = base_world();
    let next = apply_action(
        &state,
        &WorkerAction::Mine {
            worker_id: worker_id(1),
            node_id: node_id(1),
            quantity: Quantity::new(4),
        },
    )
    .expect("mining should succeed");

    let worker = next.workers.get(&worker_id(1)).expect("worker exists");
    assert_eq!(
        worker.carried,
        Some(CarriedResource {
            kind: ResourceKind::Iron,
            quantity: Quantity::new(4),
        })
    );
}

#[test]
fn non_miner_cannot_mine() {
    let state = base_world();
    let original = state.duplicate();
    let result = apply_action(
        &state,
        &WorkerAction::Mine {
            worker_id: worker_id(2),
            node_id: node_id(1),
            quantity: Quantity::new(1),
        },
    );

    assert!(matches!(result, Err(SimError::InvalidAction(_))));
    assert_eq!(state, original);
}

#[test]
fn worker_can_deposit_carried_iron_into_storage() {
    let mut state = base_world();
    let mut worker = *state.workers.get(&worker_id(1)).unwrap();
    worker.position = Position::new(1, 1);
    worker.carried = Some(CarriedResource {
        kind: ResourceKind::Iron,
        quantity: Quantity::new(4),
    });
    state.workers.insert(worker_id(1), worker);

    let next = apply_action(
        &state,
        &WorkerAction::Deposit {
            worker_id: worker_id(1),
            storage_id: storage_id(1),
        },
    )
    .expect("deposit should succeed");

    let storage = next.storage.get(&storage_id(1)).expect("storage exists");
    assert_eq!(
        storage.inventory.get(&ResourceKind::Iron),
        Some(Quantity::new(4))
    );
    assert_eq!(next.tick, Tick::new(1));
}

#[test]
fn deposit_clears_worker_carried_resource() {
    let mut state = base_world();
    let mut worker = *state.workers.get(&worker_id(1)).unwrap();
    worker.position = Position::new(1, 1);
    worker.carried = Some(CarriedResource {
        kind: ResourceKind::Iron,
        quantity: Quantity::new(4),
    });
    state.workers.insert(worker_id(1), worker);

    let next = apply_action(
        &state,
        &WorkerAction::Deposit {
            worker_id: worker_id(1),
            storage_id: storage_id(1),
        },
    )
    .expect("deposit should succeed");

    let worker = next.workers.get(&worker_id(1)).expect("worker exists");
    assert_eq!(worker.carried, None);
    assert_eq!(worker.battery, Quantity::new(2));
}

#[test]
fn same_initial_state_and_action_sequence_produces_identical_final_state() {
    let initial = base_world();
    let actions = [
        WorkerAction::Move {
            worker_id: worker_id(1),
            to: Position::new(0, 1),
        },
        WorkerAction::Mine {
            worker_id: worker_id(1),
            node_id: node_id(1),
            quantity: Quantity::new(3),
        },
        WorkerAction::Move {
            worker_id: worker_id(1),
            to: Position::new(1, 1),
        },
        WorkerAction::Deposit {
            worker_id: worker_id(1),
            storage_id: storage_id(1),
        },
    ];

    let first = actions.iter().try_fold(initial.duplicate(), |state, action| {
        apply_action(&state, action)
    });
    let second = actions
        .iter()
        .try_fold(initial, |state, action| apply_action(&state, action));

    assert_eq!(first, second);
}

#[test]
fn failed_action_leaves_state_unchanged() {
    let mut state = base_world();
    update_worker(&mut state, worker_id(1), |w| w.position = Position::new(1, 1));
    let original = state.duplicate();
    let result = apply_action(
        &state,
        &WorkerAction::Deposit {
            worker_id: worker_id(1),
            storage_id: storage_id(1),
        },
    );

    assert!(matches!(result, Err(SimError::InvalidAction(_))));
    assert_eq!(state, original);
}

#[test]
fn wait_advances_tick_without_other_state_changes() {
    let state = base_world();
    let next = apply_action(
        &state,
        &WorkerAction::Wait {
            worker_id: worker_id(1),
        },
    )
    .expect("wait should succeed");

    let mut expected = state.duplicate();
    expected.tick = Tick::new(1);
    assert_eq!(next, expected);
}

#[test]
fn recharge_is_unbounded_in_wp01_except_numeric_overflow() {
    let state = base_world();
    let next = apply_action(
        &state,
        &WorkerAction::Recharge {
            worker_id: worker_id(1),
            amount: Quantity::new(5),
        },
    )
    .expect("recharge should succeed");

    let worker = next.workers.get(&worker_id(1)).expect("worker exists");
    assert_eq!(worker.battery, Quantity::new(8));
    assert_eq!(next.tick, Tick::new(1));
}

#[test]
fn world_state_uses_deterministic_map_backed_storage() {
    let mut state = WorldState::new();
    state.workers.insert(
        worker_id(10),
        Worker {
            id: worker_id(10),
            role: WorkerRole::Hauler,
            position: Position::new(0, 0),
            battery: Quantity::one(),
            carried: None,
            status: WorkerStatus::Active,
        },
    );
    state.workers.insert(
        worker_id(2),
        Worker {
            id: worker_id(2),
            role: WorkerRole::Miner,
            position: Position::new(0, 0),
            battery: Quantity::one(),
            carried: None,
            status: WorkerStatus::Active,
        },
    );

    assert_eq!(
        state.workers.keys(),
        vec![worker_id(2), worker_id(10)]
    );
}

#[test]
fn new_workers_are_constructed_as_active() {
    let state = base_world();

    assert_eq!(
        state
            .workers
            .get(&worker_id(1))
            .expect("worker exists")
            .status,
        WorkerStatus::Active
    );
}

#[test]
fn disabled_worker_cannot_move() {
    let mut state = base_world();
    update_worker(&mut state, worker_id(1), |w| w.status = WorkerStatus::Disabled);

    let result = apply_action(
        &state,
        &WorkerAction::Move {
            worker_id: worker_id(1),
            to: Position::new(1, 0),
        },
    );

    assert_eq!(result, Err(SimError::WorkerDisabled(worker_id(1))));
}

#[test]
fn disabled_worker_cannot_mine() {
    let mut state = base_world();
    update_worker(&mut state, worker_id(1), |w| w.status = WorkerStatus::Disabled);

    let result = apply_action(
        &state,
        &WorkerAction::Mine {
            worker_id: worker_id(1),
            node_id: node_id(1),
            quantity: Quantity::new(1),
        },
    );

    assert_eq!(result, Err(SimError::WorkerDisabled(worker_id(1))));
}

#[test]
fn disabled_worker_cannot_deposit() {
    let mut state = base_world();
    let mut worker = *state.workers.get(&worker_id(1)).unwrap();
    worker.position = Position::new(1, 1);
    worker.status = WorkerStatus::Disabled;
    worker.carried = Some(CarriedResource {
        kind: ResourceKind::Iron,
        quantity: Quantity::new(1),
    });
    state.workers.insert(worker_id(1), worker);

    let result = apply_action(
        &state,
        &WorkerAction::Deposit {
            worker_id: worker_id(1),
            storage_id: storage_id(1),
        },
    );

    assert_eq!(result, Err(SimError::WorkerDisabled(worker_id(1))));
}

#[test]
fn failed_disabled_worker_action_leaves_state_unchanged() {
    let mut state = base_world();
    update_worker(&mut state, worker_id(1), |w| w.status = WorkerStatus::Disabled);
    let original = state.duplicate();

    let result = apply_action(
        &state,
        &WorkerAction::Wait {
            worker_id: worker_id(1),
        },
    );

    assert_eq!(result, Err(SimError::WorkerDisabled(worker_id(1))));
    assert_eq!(state, original);
}

#[test]
fn failed_disabled_worker_action_does_not_advance_tick() {
    let mut state = base_world();
    update_worker(&mut state, worker_id(1), |w| w.status = WorkerStatus::Disabled);

    let result = apply_action(
        &state,
        &WorkerAction::Recharge {
            worker_id: worker_id(1),
            amount: Quantity::new(1),
        },
    );

    assert_eq!(result, Err(SimError::WorkerDisabled(worker_id(1))));
    assert_eq!(state.tick, Tick::zero());
}

#[test]
fn disable_worker_disables_active_worker_and_advances_tick() {
    let state = base_world();

    let next = apply_action(
        &state,
        &WorkerAction::DisableWorker {
            worker_id: worker_id(1),
        },
    )
    .expect("disable should succeed");

    assert_eq!(
        next.workers
            .get(&worker_id(1))
            .expect("worker exists")
            .status,
        WorkerStatus::Disabled
    );
    assert_eq!(next.tick, Tick::new(1));
}

#[test]
fn disable_worker_rejects_already_disabled_worker() {
    let mut state = base_world();
    update_worker(&mut state, worker_id(1), |w| w.status = WorkerStatus::Disabled);
    let original = state.duplicate();

    let result = apply_action(
        &state,
        &WorkerAction::DisableWorker {
            worker_id: worker_id(1),
        },
    );

    assert!(matches!(result, Err(SimError::InvalidAction(_))));
    assert_eq!(state, original);
}

#[test]
fn repair_worker_reactivates_disabled_worker_and_advances_tick() {
    let mut state = base_world();
    update_worker(&mut state, worker_id(1), |w| w.status = WorkerStatus::Disabled);

    let next = apply_action(
        &state,
        &WorkerAction::RepairWorker {
            worker_id: worker_id(1),
        },
    )
    .expect("repair should succeed");

    assert_eq!(
        next.workers
            .get(&worker_id(1))
            .expect("worker exists")
            .status,
        WorkerStatus::Active
    );
    assert_eq!(next.tick, Tick::new(1));
}

#[test]
fn repair_worker_rejects_already_active_worker() {
    let state = base_world();
    let original = state.duplicate();

    let result = apply_action(
        &state,
        &WorkerAction::RepairWorker {
            worker_id: worker_id(1),
        },
    );

    assert!(matches!(result, Err(SimError::InvalidAction(_))));
    assert_eq!(state, original);
}

#[test]
fn repair_preserves_worker_position() {
    let mut state = base_world();
    let mut worker = *state.workers.get(&worker_id(1)).unwrap();
    worker.status = WorkerStatus::Disabled;
    worker.position = Position::new(1, 0);
    state.workers.insert(worker_id(1), worker);

    let next = apply_action(
        &state,
        &WorkerAction::RepairWorker {
            worker_id: worker_id(1),
        },
    )
    .expect("repair should succeed");

    assert_eq!(
        next.workers
            .get(&worker_id(1))
            .expect("worker exists")
            .position,
        Position::new(1, 0)
    );
}

#[test]
fn repair_preserves_worker_carried_resource() {
    let mut state = base_world();
    let mut worker = *state.workers.get(&worker_id(1)).unwrap();
    worker.status = WorkerStatus::Disabled;
    worker.carried = Some(CarriedResource {
        kind: ResourceKind::Iron,
        quantity: Quantity::new(2),
    });
    state.workers.insert(worker_id(1), worker);

    let next = apply_action(
        &state,
        &WorkerAction::RepairWorker {
            worker_id: worker_id(1),
        },
    )
    .expect("repair should succeed");

    assert_eq!(
        next.workers
            .get(&worker_id(1))
            .expect("worker exists")
            .carried,
        Some(CarriedResource {
            kind: ResourceKind::Iron,
            quantity: Quantity::new(2),
        })
    );
}
