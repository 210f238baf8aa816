use lib::primitives::error::SimError;
use lib::primitives::ids::WorkerId;
use lib::primitives::position::Position;
use lib::primitives::quantity::Quantity;
use lib::primitives::tick::Tick;
use lib::replay::event_log::{
    parse_validate_and_record_proposal, record_action_with_policy, record_scheduled_step,
    EventKind, EventLog, ExecutionError, ScheduledExecutionError,
};
use lib::replay::replay::replay_events;
use lib::sim::action::WorkerAction;
use lib::sim::policy::{ActionPolicy, PolicyError};
use lib::sim::proposal::{ProposalError, ProposalRejection, ProposalValidationError};
use lib::sim::scenario::{
    build_mining_bootstrap_world, mining_bootstrap_assignment, mining_bootstrap_assignment_id,
    mining_bootstrap_expected_storage_iron, mining_bootstrap_node_id, mining_bootstrap_storage_id,
    mining_bootstrap_task, mining_bootstrap_worker_id,
};
use lib::sim::scheduler::ScheduleOutcome;



#[test]
fn policy_rejection_records_policy_rejected_without_action_requested() {
    let state = build_mining_bootstrap_world();
    let before = state.duplicate();
    let mut log = EventLog::new();
    let policy = ActionPolicy {
        max_mine_quantity: Some(Quantity::new(10)),
        ..ActionPolicy::default()
    };

    let result = record_action_with_policy(
        &state,
        &mut log,
        WorkerAction::Mine {
            worker_id: mining_bootstrap_worker_id(),
            node_id: mining_bootstrap_node_id(),
            quantity: Quantity::new(20),
        },
        Some(mining_bootstrap_assignment_id()),
        &policy,
    );

    assert_eq!(
        result,
        Err(ExecutionError::Policy(
            PolicyError::MineQuantityLimitExceeded {
                requested: Quantity::new(20),
                maximum: Quantity::new(10),
            }
        ))
    );
    assert_eq!(state, before);
    assert_eq!(state.tick, Tick::zero());
    assert_eq!(log.len(), 1);
    assert!(matches!(
        log.events()[0].kind,
        EventKind::PolicyRejected { .. }
    ));
    assert!(!log
        .events()
        .iter()
        .any(|event| matches!(event.kind, EventKind::ActionRequested { .. })));
}

#[test]
fn policy_accepted_successful_action_records_policy_requested_and_applied_events() {
    let state = build_mining_bootstrap_world();
    let mut log = EventLog::new();
    let policy = ActionPolicy::default();

    let next = record_action_with_policy(
        &state,
        &mut log,
        WorkerAction::Move {
            worker_id: mining_bootstrap_worker_id(),
            to: Position::new(1, 0),
        },
        Some(mining_bootstrap_assignment_id()),
        &policy,
    )
    .expect("policy-accepted move should apply");

    assert_eq!(next.tick, Tick::new(1));
    assert_eq!(log.len(), 3);
    assert!(matches!(
        log.events()[0].kind,
        EventKind::PolicyAccepted { .. }
    ));
    assert!(matches!(
        log.events()[1].kind,
        EventKind::ActionRequested { .. }
    ));
    assert!(matches!(
        log.events()[2].kind,
        EventKind::ActionApplied { .. }
    ));
    assert_eq!(log.events()[0].tick, Tick::zero());
    assert_eq!(log.events()[1].tick, Tick::zero());
    assert_eq!(log.events()[2].tick, Tick::new(1));
}

#[test]
fn policy_accepted_reducer_failure_records_requested_and_rejected_events() {
    let state = build_mining_bootstrap_world();
    let mut log = EventLog::new();
    let policy = ActionPolicy::default();

    let result = record_action_with_policy(
        &state,
        &mut log,
        WorkerAction::Move {
            worker_id: mining_bootstrap_worker_id(),
            to: Position::new(9, 9),
        },
        Some(mining_bootstrap_assignment_id()),
        &policy,
    );

    assert!(matches!(
        result,
        Err(ExecutionError::Sim(SimError::NotAdjacent { .. }))
    ));
    assert_eq!(log.len(), 3);
    assert!(matches!(
        log.events()[0].kind,
        EventKind::PolicyAccepted { .. }
    ));
    assert!(matches!(
        log.events()[1].kind,
        EventKind::ActionRequested { .. }
    ));
    assert!(matches!(
        log.events()[2].kind,
        EventKind::ActionRejected { .. }
    ));
    assert_eq!(log.events()[2].tick, state.tick);
}

#[test]
fn policy_rejection_replays_as_non_mutating_audit_fact() {
    let state = build_mining_bootstrap_world();
    let mut log = EventLog::new();
    let policy = ActionPolicy {
        max_mine_quantity: Some(Quantity::new(10)),
        ..ActionPolicy::default()
    };

    let result = record_action_with_policy(
        &state,
        &mut log,
        WorkerAction::Mine {
            worker_id: mining_bootstrap_worker_id(),
            node_id: mining_bootstrap_node_id(),
            quantity: Quantity::new(20),
        },
        Some(mining_bootstrap_assignment_id()),
        &policy,
    );

    assert!(matches!(result, Err(ExecutionError::Policy(_))));
    let replayed =
        replay_events(&state, log.events()).expect("policy event replay should succeed");
    assert_eq!(replayed, state);
}

#[test]
fn policy_accepted_action_replays_through_applied_action_event() {
    let state = build_mining_bootstrap_world();
    let mut log = EventLog::new();
    let policy = ActionPolicy {
        max_mine_quantity: Some(mining_bootstrap_expected_storage_iron()),
        ..ActionPolicy::default()
    };

    let next = record_action_with_policy(
        &state,
        &mut log,
        WorkerAction::Mine {
            worker_id: mining_bootstrap_worker_id(),
            node_id: mining_bootstrap_node_id(),
            quantity: mining_bootstrap_expected_storage_iron(),
        },
        Some(mining_bootstrap_assignment_id()),
        &policy,
    )
    .expect("policy-accepted mine should apply");

    let replayed =
        replay_events(&state, log.events()).expect("policy event replay should succeed");
    assert_eq!(replayed, next);
}

#[test]
fn scheduled_step_records_scheduler_emitted() {
    let state = build_mining_bootstrap_world();
    let mut log = EventLog::new();

    let _ = record_scheduled_step(
        &state,
        &mut log,
        &mining_bootstrap_task(),
        &mining_bootstrap_assignment(),
        &ActionPolicy::default(),
    )
    .expect("scheduled step should succeed");

    assert!(matches!(
        log.events()[0].kind,
        EventKind::SchedulerEmitted { .. }
    ));
    assert_eq!(log.events()[0].tick, state.tick);
}

#[test]
fn scheduled_action_preserves_assignment_context() {
    let state = build_mining_bootstrap_world();
    let mut log = EventLog::new();

    let _ = record_scheduled_step(
        &state,
        &mut log,
        &mining_bootstrap_task(),
        &mining_bootstrap_assignment(),
        &ActionPolicy::default(),
    )
    .expect("scheduled step should succeed");

    assert!(matches!(
        log.events()[0].kind,
        EventKind::SchedulerEmitted {
            assignment_id,
            ..
        } if assignment_id == mining_bootstrap_assignment_id()
    ));
    for event in &log.events()[1..] {
        assert_eq!(
            event.kind.assignment_id(),
            Some(mining_bootstrap_assignment_id())
        );
    }
}

#[test]
fn scheduled_step_uses_policy_aware_recording() {
    let state = build_mining_bootstrap_world();
    let mut log = EventLog::new();

    let _ = record_scheduled_step(
        &state,
        &mut log,
        &mining_bootstrap_task(),
        &mining_bootstrap_assignment(),
        &ActionPolicy::default(),
    )
    .expect("scheduled step should succeed");

    assert!(matches!(
        log.events()[0].kind,
        EventKind::SchedulerEmitted { .. }
    ));
    assert!(matches!(
        log.events()[1].kind,
        EventKind::PolicyAccepted { .. }
    ));
    assert!(matches!(
        log.events()[2].kind,
        EventKind::ActionRequested { .. }
    ));
    assert!(matches!(
        log.events()[3].kind,
        EventKind::ActionApplied { .. }
    ));
}

#[test]
fn policy_rejection_after_scheduler_emission_does_not_record_action_requested() {
    let state = build_mining_bootstrap_world();
    let before = state.duplicate();
    let mut log = EventLog::new();
    let policy = ActionPolicy {
        max_mine_quantity: Some(Quantity::new(5)),
        ..ActionPolicy::default()
    };

    let result = record_scheduled_step(
        &state,
        &mut log,
        &mining_bootstrap_task(),
        &mining_bootstrap_assignment(),
        &policy,
    );

    assert!(matches!(
        result,
        Err(ScheduledExecutionError::Execution(ExecutionError::Policy(
            PolicyError::MineQuantityLimitExceeded { .. }
        )))
    ));
    assert_eq!(state, before);
    assert_eq!(state.tick, Tick::zero());
    assert_eq!(log.len(), 2);
    assert!(matches!(
        log.events()[0].kind,
        EventKind::SchedulerEmitted {
            outcome: ScheduleOutcome::Action { .. },
            ..
        }
    ));
    assert!(matches!(
        log.events()[1].kind,
        EventKind::PolicyRejected { .. }
    ));
    assert!(!log
        .events()
        .iter()
        .any(|event| matches!(event.kind, EventKind::ActionRequested { .. })));
}

#[test]
fn scheduler_events_replay_as_non_mutating_audit_facts() {
    let state = build_mining_bootstrap_world();
    let mut log = EventLog::new();
    log.append(
        state.tick,
        EventKind::SchedulerEmitted {
            assignment_id: mining_bootstrap_assignment_id(),
            outcome: ScheduleOutcome::Complete {
                assignment_id: mining_bootstrap_assignment_id(),
            },
        },
    );

    let replayed =
        replay_events(&state, log.events()).expect("scheduler event replay should succeed");

    assert_eq!(replayed, state);
}

#[test]
fn parse_failure_records_proposal_received_and_rejected_only() {
    let state = build_mining_bootstrap_world();
    let mut log = EventLog::new();

    let result = parse_validate_and_record_proposal(
        &state,
        &mut log,
        "objective=maintain_stockpile\nresource=copper\nminimum=10\nworker_id=1\nresource_node_id=1\nstorage_id=1\nmine_quantity=10",
    );

    assert_eq!(
        result,
        Err(ProposalRejection::Parse(
            ProposalError::UnsupportedResource("copper".to_string())
        ))
    );
    assert_eq!(log.len(), 2);
    assert!(matches!(
        log.events()[0].kind,
        EventKind::ProposalReceived { .. }
    ));
    assert!(matches!(
        log.events()[1].kind,
        EventKind::ProposalRejected { .. }
    ));
    assert!(!log.events().iter().any(|event| matches!(
        event.kind,
        EventKind::ObjectiveAccepted { .. }
            | EventKind::TaskCreated { .. }
            | EventKind::TaskAssigned { .. }
            | EventKind::SchedulerEmitted { .. }
            | EventKind::ActionRequested { .. }
    )));
}

#[test]
fn validation_failure_records_received_parsed_and_rejected_only() {
    let state = build_mining_bootstrap_world();
    let mut log = EventLog::new();

    let result = parse_validate_and_record_proposal(
        &state,
        &mut log,
        "objective=maintain_stockpile\nresource=iron\nminimum=10\nworker_id=99\nresource_node_id=1\nstorage_id=1\nmine_quantity=10",
    );

    assert_eq!(
        result,
        Err(ProposalRejection::Validation(
            ProposalValidationError::UnknownWorker {
                worker_id: WorkerId::new(99),
            }
        ))
    );
    assert_eq!(log.len(), 3);
    assert!(matches!(
        log.events()[0].kind,
        EventKind::ProposalReceived { .. }
    ));
    assert!(matches!(
        log.events()[1].kind,
        EventKind::ProposalParsed { .. }
    ));
    assert!(matches!(
        log.events()[2].kind,
        EventKind::ProposalRejected { .. }
    ));
    assert!(!log.events().iter().any(|event| matches!(
        event.kind,
        EventKind::ObjectiveAccepted { .. }
            | EventKind::TaskCreated { .. }
            | EventKind::TaskAssigned { .. }
            | EventKind::SchedulerEmitted { .. }
            | EventKind::ActionRequested { .. }
    )));
}

#[test]
fn accepted_proposal_records_received_parsed_and_accepted() {
    let state = build_mining_bootstrap_world();
    let mut log = EventLog::new();

    let proposal = parse_validate_and_record_proposal(
        &state,
        &mut log,
        "objective=maintain_stockpile\nresource=iron\nminimum=10\nworker_id=1\nresource_node_id=1\nstorage_id=1\nmine_quantity=10",
    )
    .expect("proposal should be accepted");

    assert_eq!(proposal.worker_id, mining_bootstrap_worker_id());
    assert_eq!(proposal.resource_node_id, mining_bootstrap_node_id());
    assert_eq!(proposal.storage_id, mining_bootstrap_storage_id());
    assert_eq!(log.len(), 3);
    assert!(matches!(
        log.events()[0].kind,
        EventKind::ProposalReceived { .. }
    ));
    assert!(matches!(
        log.events()[1].kind,
        EventKind::ProposalParsed { .. }
    ));
    assert!(matches!(
        log.events()[2].kind,
        EventKind::ProposalAccepted { .. }
    ));
    assert!(log.events().iter().all(|event| event.tick == Tick::zero()));
}

#[test]
fn proposal_rejection_does_not_advance_tick_and_replays_without_mutation() {
    let state = build_mining_bootstrap_world();
    let before = state.duplicate();
    let mut log = EventLog::new();

    let result = parse_validate_and_record_proposal(
        &state,
        &mut log,
        "objective=maintain_stockpile\nresource=iron\nminimum=10\nworker_id=1\nresource_node_id=1\nstorage_id=1\nmine_quantity=999",
    );

    assert!(matches!(
        result,
        Err(ProposalRejection::Validation(
            ProposalValidationError::InsufficientResource { .. }
        ))
    ));
    assert_eq!(state, before);
    assert_eq!(state.tick, Tick::zero());

    let replayed =
        replay_events(&state, log.events()).expect("proposal event replay should succeed");
    assert_eq!(replayed, state);
}
