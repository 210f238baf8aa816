use lib::primitives::ids::{
    AssignmentId, DecisionId, ObjectiveId, ResourceNodeId, StorageId, TaskId, WorkerId,
};
use lib::primitives::quantity::Quantity;
use lib::sim::entity::ResourceKind;
use lib::sim::proposal::{
    accepted_proposal_to_plan, parse_proposal_text, validate_proposal_against_world,
    ProposalError, ProposalPlanIds, ProposalValidationError, ProposedObjective,
};
use lib::sim::scenario::{
    build_mining_bootstrap_world, mining_bootstrap_node_id, mining_bootstrap_storage_id,
    mining_bootstrap_worker_id,
};
use lib::sim::task::TaskKind;



fn valid_text() -> &'static str {
    "objective=maintain_stockpile\nresource=iron\nminimum=10\nworker_id=1\nresource_node_id=1\nstorage_id=1\nmine_quantity=10"
}

#[test]
fn empty_proposal_input_is_rejected() {
    assert_eq!(parse_proposal_text(""), Err(ProposalError::EmptyInput));
    assert_eq!(parse_proposal_text("  "), Err(ProposalError::EmptyInput));
}

#[test]
fn unknown_key_is_rejected() {
    let input = format!("{}\nextra=value", valid_text());
    assert_eq!(
        parse_proposal_text(&input),
        Err(ProposalError::UnknownKey("extra".to_string()))
    );
}

#[test]
fn duplicate_key_is_rejected() {
    let input = format!("{}\nresource=iron", valid_text());
    assert_eq!(
        parse_proposal_text(&input),
        Err(ProposalError::DuplicateKey("resource".to_string()))
    );
}

#[test]
fn missing_required_key_is_rejected() {
    let input = "objective=maintain_stockpile\nresource=iron\nminimum=10\nworker_id=1\nresource_node_id=1\nstorage_id=1";
    assert_eq!(
        parse_proposal_text(input),
        Err(ProposalError::MissingKey("mine_quantity"))
    );
}

#[test]
fn invalid_integer_is_rejected() {
    let input = "objective=maintain_stockpile\nresource=iron\nminimum=10\nworker_id=abc\nresource_node_id=1\nstorage_id=1\nmine_quantity=10";
    assert_eq!(
        parse_proposal_text(input),
        Err(ProposalError::InvalidInteger {
            key: "worker_id",
            value: "abc".to_string(),
        })
    );
}

#[test]
fn unsupported_objective_is_rejected() {
    let input = "objective=expand_base\nresource=iron\nminimum=10\nworker_id=1\nresource_node_id=1\nstorage_id=1\nmine_quantity=10";
    assert_eq!(
        parse_proposal_text(input),
        Err(ProposalError::UnsupportedObjective(
            "expand_base".to_string()
        ))
    );
}

#[test]
fn unsupported_resource_is_rejected() {
    let input = "objective=maintain_stockpile\nresource=copper\nminimum=10\nworker_id=1\nresource_node_id=1\nstorage_id=1\nmine_quantity=10";
    assert_eq!(
        parse_proposal_text(input),
        Err(ProposalError::UnsupportedResource("copper".to_string()))
    );
}

#[test]
fn valid_proposal_parses_deterministically() {
    let first = parse_proposal_text(valid_text()).expect("proposal should parse");
    let second = parse_proposal_text(valid_text()).expect("proposal should parse");

    assert_eq!(first, second);
    assert_eq!(first.worker_id, mining_bootstrap_worker_id());
    assert_eq!(first.resource_node_id, mining_bootstrap_node_id());
    assert_eq!(first.storage_id, mining_bootstrap_storage_id());
    assert_eq!(first.mine_quantity, Quantity::new(10));
    assert_eq!(
        first.objective,
        ProposedObjective::MaintainStockpile {
            resource: ResourceKind::Iron,
            minimum: Quantity::new(10),
        }
    );
}

#[test]
fn valid_proposal_validates_against_matching_world() {
    let state = build_mining_bootstrap_world();
    let proposal = parse_proposal_text(valid_text()).expect("proposal should parse");

    validate_proposal_against_world(&proposal, &state).expect("proposal should validate");
}

#[test]
fn validation_rejects_unknown_worker() {
    let state = build_mining_bootstrap_world();
    let mut proposal = parse_proposal_text(valid_text()).expect("proposal should parse");
    proposal.worker_id = WorkerId::new(99);

    assert_eq!(
        validate_proposal_against_world(&proposal, &state),
        Err(ProposalValidationError::UnknownWorker {
            worker_id: WorkerId::new(99),
        })
    );
}

#[test]
fn validation_rejects_unknown_resource_node() {
    let state = build_mining_bootstrap_world();
    let mut proposal = parse_proposal_text(valid_text()).expect("proposal should parse");
    proposal.resource_node_id = ResourceNodeId::new(99);

    assert_eq!(
        validate_proposal_against_world(&proposal, &state),
        Err(ProposalValidationError::UnknownResourceNode {
            node_id: ResourceNodeId::new(99),
        })
    );
}

#[test]
fn validation_rejects_unknown_storage() {
    let state = build_mining_bootstrap_world();
    let mut proposal = parse_proposal_text(valid_text()).expect("proposal should parse");
    proposal.storage_id = StorageId::new(99);

    assert_eq!(
        validate_proposal_against_world(&proposal, &state),
        Err(ProposalValidationError::UnknownStorage {
            storage_id: StorageId::new(99),
        })
    );
}

#[test]
fn validation_rejects_zero_quantity_or_minimum() {
    let state = build_mining_bootstrap_world();
    let mut proposal = parse_proposal_text(valid_text()).expect("proposal should parse");
    proposal.mine_quantity = Quantity::zero();

    assert_eq!(
        validate_proposal_against_world(&proposal, &state),
        Err(ProposalValidationError::InvalidQuantity {
            key: "mine_quantity",
        })
    );

    let mut proposal = parse_proposal_text(valid_text()).expect("proposal should parse");
    proposal.objective = ProposedObjective::MaintainStockpile {
        resource: ResourceKind::Iron,
        minimum: Quantity::zero(),
    };

    assert_eq!(
        validate_proposal_against_world(&proposal, &state),
        Err(ProposalValidationError::InvalidQuantity { key: "minimum" })
    );
}

#[test]
fn validation_rejects_mine_quantity_above_node_remaining() {
    let state = build_mining_bootstrap_world();
    let mut proposal = parse_proposal_text(valid_text()).expect("proposal should parse");
    proposal.mine_quantity = Quantity::new(101);

    assert_eq!(
        validate_proposal_against_world(&proposal, &state),
        Err(ProposalValidationError::InsufficientResource {
            node_id: mining_bootstrap_node_id(),
            requested: Quantity::new(101),
            remaining: Quantity::new(100),
        })
    );
}

#[test]
fn accepted_proposal_conversion_uses_explicit_ids_deterministically() {
    let proposal = parse_proposal_text(valid_text()).expect("proposal should parse");
    let ids = ProposalPlanIds {
        objective_id: ObjectiveId::new(11),
        decision_id: DecisionId::new(12),
        mine_task_id: TaskId::new(13),
        mine_assignment_id: AssignmentId::new(14),
        deposit_task_id: TaskId::new(15),
        deposit_assignment_id: AssignmentId::new(16),
    };

    let first = accepted_proposal_to_plan(&proposal, ids);
    let second = accepted_proposal_to_plan(&proposal, ids);

    assert_eq!(first, second);
    assert_eq!(first.objective.id, ObjectiveId::new(11));
    assert_eq!(first.decision.id, DecisionId::new(12));
    assert_eq!(first.mine_task.id, TaskId::new(13));
    assert_eq!(first.mine_assignment.id, AssignmentId::new(14));
    assert_eq!(first.deposit_task.id, TaskId::new(15));
    assert_eq!(first.deposit_assignment.id, AssignmentId::new(16));
    assert!(matches!(
        first.mine_task.kind,
        TaskKind::MineResource {
            resource: ResourceKind::Iron,
            quantity: Quantity(10),
            node_id: ResourceNodeId(1),
        }
    ));
    assert!(matches!(
        first.deposit_task.kind,
        TaskKind::DepositResource {
            storage_id: StorageId(1),
        }
    ));
}
