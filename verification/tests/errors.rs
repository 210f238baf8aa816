use lib::primitives::error::SimError;
use lib::primitives::ids::{ResourceNodeId, StorageId, WorkerId};
use lib::primitives::position::Position;
use lib::primitives::quantity::Quantity;
use lib::sim::action::WorkerAction;
use lib::sim::entity::{CarriedResource, ResourceKind};
use lib::sim::policy::PolicyError;
use lib::sim::proposal::{
    parse_proposal_text, ProposalError, ProposalRejection, ProposalValidationError,
};
use lib::sim::reducer::apply_action;
use lib::sim::scenario::build_mining_bootstrap_world;

#[test]
fn mining_an_unknown_node_is_refused() {
    let state = build_mining_bootstrap_world();
    let result = apply_action(
        &state,
        &WorkerAction::Mine {
            worker_id: WorkerId::new(1),
            node_id: ResourceNodeId::new(7),
            quantity: Quantity::new(1),
        },
    );
    assert_eq!(result, Err(SimError::UnknownResourceNode(ResourceNodeId::new(7))));
}

#[test]
fn depositing_at_an_unknown_depot_is_refused() {
    let state = build_mining_bootstrap_world();
    let result = apply_action(
        &state,
        &WorkerAction::Deposit { worker_id: WorkerId::new(1), storage_id: StorageId::new(7) },
    );
    assert_eq!(result, Err(SimError::UnknownStorage(StorageId::new(7))));
}

#[test]
fn mining_more_than_the_node_holds_is_refused() {
    let state = build_mining_bootstrap_world();
    let result = apply_action(
        &state,
        &WorkerAction::Mine {
            worker_id: WorkerId::new(1),
            node_id: ResourceNodeId::new(1),
            quantity: Quantity::new(101),
        },
    );
    assert_eq!(
        result,
        Err(SimError::InsufficientResource {
            resource_node_id: ResourceNodeId::new(1),
            requested: Quantity::new(101),
            available: Quantity::new(100),
        })
    );
}

#[test]
fn depositing_past_the_depot_capacity_is_refused() {
    let mut state = build_mining_bootstrap_world();
    let mut depot = *state.storage.get(&StorageId::new(1)).unwrap();
    depot.inventory.insert(ResourceKind::Iron, Quantity::new(u64::MAX));
    state.storage.insert(StorageId::new(1), depot);
    let mut worker = *state.workers.get(&WorkerId::new(1)).unwrap();
    worker.carried = Some(CarriedResource { kind: ResourceKind::Iron, quantity: Quantity::new(1) });
    state.workers.insert(WorkerId::new(1), worker);

    let result = apply_action(
        &state,
        &WorkerAction::Deposit { worker_id: WorkerId::new(1), storage_id: StorageId::new(1) },
    );
    assert_eq!(
        result,
        Err(SimError::CapacityExceeded {
            current: Quantity::new(u64::MAX),
            added: Quantity::new(1),
        })
    );
}

#[test]
fn recharging_past_the_battery_limit_is_refused() {
    let state = build_mining_bootstrap_world();
    let result = apply_action(
        &state,
        &WorkerAction::Recharge { worker_id: WorkerId::new(1), amount: Quantity::new(u64::MAX) },
    );
    assert_eq!(
        result,
        Err(SimError::CapacityExceeded {
            current: Quantity::new(10),
            added: Quantity::new(u64::MAX),
        })
    );
}

#[test]
fn zero_minimum_and_line_without_equals_are_refused() {
    let zero = "objective=maintain_stockpile\nresource=iron\nminimum=0\nworker_id=1\nresource_node_id=1\nstorage_id=1\nmine_quantity=10";
    assert_eq!(
        parse_proposal_text(zero),
        Err(ProposalError::InvalidQuantity { key: "minimum" })
    );
    let malformed = "objective=maintain_stockpile\nresource iron";
    assert_eq!(
        parse_proposal_text(malformed),
        Err(ProposalError::MalformedLine("resource iron".to_string()))
    );
}

#[test]
fn reducer_error_messages_are_stable() {
    assert_eq!(SimError::UnknownWorker(WorkerId::new(4)).message(), "unknown worker: 4");
    assert_eq!(SimError::WorkerDisabled(WorkerId::new(1)).message(), "worker 1 is disabled");
    assert_eq!(
        SimError::NotAdjacent { from: Position::new(0, 0), to: Position::new(-2, 3) }.message(),
        "positions are not adjacent: (0, 0) -> (-2, 3)"
    );
    assert_eq!(
        SimError::CapacityExceeded { current: Quantity::new(5), added: Quantity::new(6) }.message(),
        "capacity exceeded: current 5, attempted addition 6"
    );
    assert_eq!(SimError::TickOverflow.message(), "tick overflow");
}

#[test]
fn policy_and_proposal_messages_are_stable() {
    assert_eq!(
        PolicyError::MineQuantityLimitExceeded {
            requested: Quantity::new(20),
            maximum: Quantity::new(10),
        }
        .message(),
        "mine quantity exceeds policy maximum: requested 20, maximum 10"
    );
    assert_eq!(
        ProposalRejection::Parse(ProposalError::UnsupportedResource("copper".to_string())).message(),
        "proposal parse rejected: proposal resource is unsupported: copper"
    );
    assert_eq!(
        ProposalRejection::Validation(ProposalValidationError::UnknownStorage {
            storage_id: StorageId::new(9),
        })
        .message(),
        "proposal validation rejected: proposal references unknown storage 9"
    );
}
