use lib::primitives::ids::{AssignmentId, ResourceNodeId, StorageId, TaskId, WorkerId};
use lib::primitives::position::Position;
use lib::primitives::quantity::Quantity;
use lib::sim::action::WorkerAction;
use lib::sim::assignment::Assignment;
use lib::sim::entity::{CarriedResource, ResourceKind, Worker, WorkerStatus};
use lib::sim::reducer::apply_action;
use lib::sim::scenario::{
    build_mining_bootstrap_world, mining_bootstrap_assignment, mining_bootstrap_assignment_id,
    mining_bootstrap_expected_storage_iron, mining_bootstrap_node_id, mining_bootstrap_storage_id,
    mining_bootstrap_decision_id, mining_bootstrap_objective_id, mining_bootstrap_task,
    mining_bootstrap_worker_id,
};
use lib::sim::scheduler::{schedule_next_action, ScheduleBlockReason, ScheduleOutcome};
use lib::sim::task::{Task, TaskKind};
use lib::sim::world::WorldState;

fn update_worker(state: &mut WorldState, id: WorkerId, change: impl FnOnce(&mut Worker)) {
    let mut worker = *state.workers.get(&id).expect("worker exists");
    change(&mut worker);
    state.workers.insert(id, worker);
}



fn deposit_task() -> Task {
    Task {
        id: TaskId::new(2),
        objective_id: mining_bootstrap_objective_id(),
        decision_id: Some(mining_bootstrap_decision_id()),
        kind: TaskKind::DepositResource {
            storage_id: mining_bootstrap_storage_id(),
        },
    }
}

fn deposit_assignment() -> Assignment {
    Assignment {
        id: AssignmentId::new(2),
        task_id: TaskId::new(2),
        worker_id: mining_bootstrap_worker_id(),
    }
}

#[test]
fn scheduler_returns_blocked_for_unknown_worker() {
    let state = build_mining_bootstrap_world();
    let task = mining_bootstrap_task();
    let assignment = Assignment {
        worker_id: WorkerId::new(99),
        ..mining_bootstrap_assignment()
    };

    assert_eq!(
        schedule_next_action(&state, &task, &assignment),
        ScheduleOutcome::Blocked {
            assignment_id: mining_bootstrap_assignment_id(),
            reason: ScheduleBlockReason::UnknownWorker,
        }
    );
}

#[test]
fn scheduler_returns_blocked_for_disabled_worker() {
    let mut state = build_mining_bootstrap_world();
    update_worker(&mut state, mining_bootstrap_worker_id(), |w| w.status = WorkerStatus::Disabled);

    assert_eq!(
        schedule_next_action(
            &state,
            &mining_bootstrap_task(),
            &mining_bootstrap_assignment()
        ),
        ScheduleOutcome::Blocked {
            assignment_id: mining_bootstrap_assignment_id(),
            reason: ScheduleBlockReason::WorkerDisabled,
        }
    );
}

#[test]
fn scheduler_returns_blocked_for_unknown_task() {
    let state = build_mining_bootstrap_world();
    let assignment = Assignment {
        task_id: TaskId::new(99),
        ..mining_bootstrap_assignment()
    };

    assert_eq!(
        schedule_next_action(&state, &mining_bootstrap_task(), &assignment),
        ScheduleOutcome::Blocked {
            assignment_id: mining_bootstrap_assignment_id(),
            reason: ScheduleBlockReason::UnknownTask,
        }
    );
}

#[test]
fn scheduler_returns_blocked_for_unknown_resource_node() {
    let state = build_mining_bootstrap_world();
    let task = Task {
        kind: TaskKind::MineResource {
            resource: ResourceKind::Iron,
            quantity: mining_bootstrap_expected_storage_iron(),
            node_id: ResourceNodeId::new(99),
        },
        ..mining_bootstrap_task()
    };

    assert_eq!(
        schedule_next_action(&state, &task, &mining_bootstrap_assignment()),
        ScheduleOutcome::Blocked {
            assignment_id: mining_bootstrap_assignment_id(),
            reason: ScheduleBlockReason::UnknownResourceNode,
        }
    );
}

#[test]
fn scheduler_returns_blocked_for_unknown_storage() {
    let state = build_mining_bootstrap_world();
    let task = Task {
        kind: TaskKind::DepositResource {
            storage_id: StorageId::new(99),
        },
        ..deposit_task()
    };

    assert_eq!(
        schedule_next_action(&state, &task, &deposit_assignment()),
        ScheduleOutcome::Blocked {
            assignment_id: AssignmentId::new(2),
            reason: ScheduleBlockReason::UnknownStorage,
        }
    );
}

#[test]
fn mining_task_emits_deterministic_move_when_worker_is_not_adjacent_to_node() {
    let mut state = build_mining_bootstrap_world();
    update_worker(&mut state, mining_bootstrap_worker_id(), |w| w.position = Position::new(-1, 0));

    assert_eq!(
        schedule_next_action(
            &state,
            &mining_bootstrap_task(),
            &mining_bootstrap_assignment()
        ),
        ScheduleOutcome::Action {
            assignment_id: mining_bootstrap_assignment_id(),
            action: WorkerAction::Move {
                worker_id: mining_bootstrap_worker_id(),
                to: Position::new(0, 0),
            },
        }
    );
}

#[test]
fn mining_task_emits_mine_action_when_worker_is_adjacent_to_node() {
    let state = build_mining_bootstrap_world();

    assert_eq!(
        schedule_next_action(
            &state,
            &mining_bootstrap_task(),
            &mining_bootstrap_assignment()
        ),
        ScheduleOutcome::Action {
            assignment_id: mining_bootstrap_assignment_id(),
            action: WorkerAction::Mine {
                worker_id: mining_bootstrap_worker_id(),
                node_id: mining_bootstrap_node_id(),
                quantity: mining_bootstrap_expected_storage_iron(),
            },
        }
    );
}

#[test]
fn deposit_task_emits_deterministic_move_when_worker_is_not_adjacent_to_storage() {
    let mut state = build_mining_bootstrap_world();
    let mut worker = *state
        .workers
        .get(&mining_bootstrap_worker_id())
        .expect("worker exists");
    worker.position = Position::new(3, 1);
    worker.carried = Some(CarriedResource {
        kind: ResourceKind::Iron,
        quantity: Quantity::new(10),
    });
    state.workers.insert(mining_bootstrap_worker_id(), worker);

    assert_eq!(
        schedule_next_action(&state, &deposit_task(), &deposit_assignment()),
        ScheduleOutcome::Action {
            assignment_id: AssignmentId::new(2),
            action: WorkerAction::Move {
                worker_id: mining_bootstrap_worker_id(),
                to: Position::new(2, 1),
            },
        }
    );
}

#[test]
fn deposit_task_emits_deposit_action_when_worker_is_adjacent_to_storage() {
    let mut state = build_mining_bootstrap_world();
    state = apply_action(
        &state,
        &WorkerAction::Mine {
            worker_id: mining_bootstrap_worker_id(),
            node_id: mining_bootstrap_node_id(),
            quantity: mining_bootstrap_expected_storage_iron(),
        },
    )
    .expect("mine should apply");

    assert_eq!(
        schedule_next_action(&state, &deposit_task(), &deposit_assignment()),
        ScheduleOutcome::Action {
            assignment_id: AssignmentId::new(2),
            action: WorkerAction::Deposit {
                worker_id: mining_bootstrap_worker_id(),
                storage_id: mining_bootstrap_storage_id(),
            },
        }
    );
}

#[test]
fn movement_choice_is_deterministic_x_axis_first_then_y_axis() {
    let mut state = build_mining_bootstrap_world();
    update_worker(&mut state, mining_bootstrap_worker_id(), |w| w.position = Position::new(-2, -3));

    assert_eq!(
        schedule_next_action(
            &state,
            &mining_bootstrap_task(),
            &mining_bootstrap_assignment()
        ),
        ScheduleOutcome::Action {
            assignment_id: mining_bootstrap_assignment_id(),
            action: WorkerAction::Move {
                worker_id: mining_bootstrap_worker_id(),
                to: Position::new(-1, -3),
            },
        }
    );
}

#[test]
fn scheduler_function_does_not_mutate_state() {
    let state = build_mining_bootstrap_world();
    let before = state.duplicate();

    let _ = schedule_next_action(
        &state,
        &mining_bootstrap_task(),
        &mining_bootstrap_assignment(),
    );

    assert_eq!(state, before);
}

#[test]
fn mine_task_blocks_when_worker_already_carrying() {
    let mut state = build_mining_bootstrap_world();
    update_worker(&mut state, mining_bootstrap_worker_id(), |w| w.carried = Some(CarriedResource {
        kind: ResourceKind::Iron,
        quantity: Quantity::new(1),
    }));

    assert_eq!(
        schedule_next_action(
            &state,
            &mining_bootstrap_task(),
            &mining_bootstrap_assignment()
        ),
        ScheduleOutcome::Blocked {
            assignment_id: mining_bootstrap_assignment_id(),
            reason: ScheduleBlockReason::WorkerAlreadyCarrying,
        }
    );
}

#[test]
fn deposit_task_blocks_when_worker_not_carrying() {
    let state = build_mining_bootstrap_world();

    assert_eq!(
        schedule_next_action(&state, &deposit_task(), &deposit_assignment()),
        ScheduleOutcome::Blocked {
            assignment_id: AssignmentId::new(2),
            reason: ScheduleBlockReason::WorkerNotCarrying,
        }
    );
}
