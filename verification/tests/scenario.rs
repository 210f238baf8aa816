use lib::primitives::error::SimError;
use lib::primitives::ids::{AssignmentId, EventId};
use lib::primitives::position::Position;
use lib::primitives::quantity::Quantity;
use lib::primitives::tick::Tick;
use lib::replay::event_log::{
    assignment_for_action_event, record_action_with_context, record_worker_failure,
    record_worker_recovery, EventKind, EventLog,
};
use lib::replay::replay::replay_events;
use lib::replay::scenario::{
    mining_bootstrap_stockpile_quantity, run_mining_bootstrap, run_policy_gate,
    run_proposal_adaptor, run_scheduled_mining, run_worker_failure_recovery,
    validate_mining_bootstrap_final_state, validate_policy_gate_final_state,
    validate_scheduled_mining_final_state, validate_worker_failure_recovery_final_state,
};
use lib::replay::verification::verify_replay;
use lib::sim::action::WorkerAction;
use lib::sim::entity::WorkerStatus;
use lib::sim::policy::PolicyError;
use lib::sim::scenario::{
    build_mining_bootstrap_world, mining_bootstrap_assignment_id,
    mining_bootstrap_expected_final_tick, mining_bootstrap_expected_node_iron,
    mining_bootstrap_expected_storage_iron, mining_bootstrap_initial_node_iron,
    mining_bootstrap_node_id, mining_bootstrap_objective, mining_bootstrap_storage_id,
    mining_bootstrap_worker_id, objective_satisfied,
};
use lib::sim::scheduler::ScheduleOutcome;



#[test]
fn mining_bootstrap_initial_world_is_deterministic() {
    let first = build_mining_bootstrap_world();
    let second = build_mining_bootstrap_world();

    assert_eq!(first, second);
    assert_eq!(first.tick, Tick::zero());
    assert_eq!(
        first
            .workers
            .get(&mining_bootstrap_worker_id())
            .expect("worker exists")
            .position,
        Position::new(0, 0)
    );
    assert_eq!(
        first
            .resource_nodes
            .get(&mining_bootstrap_node_id())
            .expect("node exists")
            .remaining,
        mining_bootstrap_initial_node_iron()
    );
    assert_eq!(mining_bootstrap_stockpile_quantity(&first), Quantity::zero());
}

#[test]
fn scenario_records_objective_accepted_event_first() {
    let run = run_mining_bootstrap().expect("scenario should run");

    assert_eq!(run.events[0].id, EventId::new(1));
    assert!(matches!(
        run.events[0].kind,
        EventKind::ObjectiveAccepted { .. }
    ));
}

#[test]
fn scenario_records_decision_emitted_after_objective_accepted() {
    let run = run_mining_bootstrap().expect("scenario should run");

    assert!(matches!(
        run.events[0].kind,
        EventKind::ObjectiveAccepted { .. }
    ));
    assert!(matches!(
        run.events[1].kind,
        EventKind::DecisionEmitted { .. }
    ));
}

#[test]
fn scenario_records_task_created_after_decision_emitted() {
    let run = run_mining_bootstrap().expect("scenario should run");

    assert!(matches!(
        run.events[1].kind,
        EventKind::DecisionEmitted { .. }
    ));
    assert!(matches!(run.events[2].kind, EventKind::TaskCreated { .. }));
}

#[test]
fn scenario_records_task_assigned_after_task_created() {
    let run = run_mining_bootstrap().expect("scenario should run");

    assert!(matches!(run.events[2].kind, EventKind::TaskCreated { .. }));
    assert!(matches!(run.events[3].kind, EventKind::TaskAssigned { .. }));
}

#[test]
fn scenario_records_assigned_worker_action_events_after_assignment() {
    let run = run_mining_bootstrap().expect("scenario should run");

    assert!(matches!(run.events[3].kind, EventKind::TaskAssigned { .. }));
    assert_eq!(run.events.len(), 12);
    for event in &run.events[4..] {
        assert!(matches!(
            event.kind,
            EventKind::ActionRequested { .. } | EventKind::ActionApplied { .. }
        ));
    }
}

#[test]
fn assigned_worker_action_events_retain_assignment_id() {
    let run = run_mining_bootstrap().expect("scenario should run");

    for event in &run.events[4..] {
        assert_eq!(
            assignment_for_action_event(event),
            Some(mining_bootstrap_assignment_id())
        );
    }
}

#[test]
fn scenario_final_state_contains_expected_storage_iron_quantity() {
    let run = run_mining_bootstrap().expect("scenario should run");

    assert_eq!(
        mining_bootstrap_stockpile_quantity(&run.final_state),
        mining_bootstrap_expected_storage_iron()
    );
}

#[test]
fn scenario_final_state_reduces_iron_node_quantity() {
    let run = run_mining_bootstrap().expect("scenario should run");

    assert_eq!(
        run.final_state
            .resource_nodes
            .get(&mining_bootstrap_node_id())
            .expect("node exists")
            .remaining,
        mining_bootstrap_expected_node_iron()
    );
}

#[test]
fn scenario_final_state_leaves_worker_carrying_no_resource() {
    let run = run_mining_bootstrap().expect("scenario should run");

    assert_eq!(
        run.final_state
            .workers
            .get(&mining_bootstrap_worker_id())
            .expect("worker exists")
            .carried,
        None
    );
}

#[test]
fn scenario_tick_advances_by_expected_successful_actions() {
    let run = run_mining_bootstrap().expect("scenario should run");

    assert_eq!(run.final_state.tick, mining_bootstrap_expected_final_tick());
}

#[test]
fn scenario_replay_reproduces_final_state() {
    let run = run_mining_bootstrap().expect("scenario should run");

    let replayed =
        replay_events(&run.initial_state, &run.events).expect("replay should succeed");

    assert_eq!(replayed, run.final_state);
    verify_replay(&run.initial_state, &run.events, &run.final_state)
        .expect("verification should pass");
}

#[test]
fn running_scenario_twice_produces_identical_events_and_final_state() {
    let first = run_mining_bootstrap().expect("first run should succeed");
    let second = run_mining_bootstrap().expect("second run should succeed");

    assert_eq!(first.initial_state, second.initial_state);
    assert_eq!(first.final_state, second.final_state);
    assert_eq!(first.events, second.events);
}

#[test]
fn objective_satisfaction_helper_returns_true_for_final_state() {
    let run = run_mining_bootstrap().expect("scenario should run");
    let objective = mining_bootstrap_objective();

    assert!(objective_satisfied(
        &run.final_state,
        &objective,
        mining_bootstrap_storage_id()
    ));
}

#[test]
fn objective_satisfaction_helper_returns_false_for_initial_state() {
    let run = run_mining_bootstrap().expect("scenario should run");
    let objective = mining_bootstrap_objective();

    assert!(!objective_satisfied(
        &run.initial_state,
        &objective,
        mining_bootstrap_storage_id()
    ));
}

#[test]
fn scenario_final_state_validation_accepts_expected_state() {
    let run = run_mining_bootstrap().expect("scenario should run");

    validate_mining_bootstrap_final_state(&run.final_state)
        .expect("final state should validate");
}

#[test]
fn failure_recording_appends_first_class_failure_event() {
    let state = build_mining_bootstrap_world();
    let mut log = EventLog::new();

    let next = record_worker_failure(
        &state,
        &mut log,
        mining_bootstrap_worker_id(),
        Some(mining_bootstrap_assignment_id()),
    )
    .expect("failure injection should succeed");

    assert!(matches!(
        log.events()[0].kind,
        EventKind::FailureInjected { .. }
    ));
    assert!(matches!(
        log.events()[1].kind,
        EventKind::ActionRequested {
            action: WorkerAction::DisableWorker { .. },
            ..
        }
    ));
    assert!(matches!(
        log.events()[2].kind,
        EventKind::ActionApplied {
            action: WorkerAction::DisableWorker { .. },
            ..
        }
    ));
    assert_eq!(
        next.workers
            .get(&mining_bootstrap_worker_id())
            .expect("worker exists")
            .status,
        WorkerStatus::Disabled
    );
}

#[test]
fn recovery_recording_appends_first_class_recovery_event() {
    let state = build_mining_bootstrap_world();
    let mut log = EventLog::new();
    let disabled = record_worker_failure(
        &state,
        &mut log,
        mining_bootstrap_worker_id(),
        Some(mining_bootstrap_assignment_id()),
    )
    .expect("failure injection should succeed");

    let recovered = record_worker_recovery(
        &disabled,
        &mut log,
        mining_bootstrap_worker_id(),
        Some(mining_bootstrap_assignment_id()),
    )
    .expect("recovery should succeed");

    assert!(matches!(
        log.events()[3].kind,
        EventKind::RecoveryEmitted { .. }
    ));
    assert!(matches!(
        log.events()[4].kind,
        EventKind::ActionRequested {
            action: WorkerAction::RepairWorker { .. },
            ..
        }
    ));
    assert!(matches!(
        log.events()[5].kind,
        EventKind::ActionApplied {
            action: WorkerAction::RepairWorker { .. },
            ..
        }
    ));
    assert_eq!(
        recovered
            .workers
            .get(&mining_bootstrap_worker_id())
            .expect("worker exists")
            .status,
        WorkerStatus::Active
    );
}

#[test]
fn attempted_action_while_disabled_records_requested_and_rejected() {
    let state = build_mining_bootstrap_world();
    let mut log = EventLog::new();
    let disabled = record_worker_failure(
        &state,
        &mut log,
        mining_bootstrap_worker_id(),
        Some(mining_bootstrap_assignment_id()),
    )
    .expect("failure injection should succeed");

    let result = record_action_with_context(
        &disabled,
        &mut log,
        WorkerAction::Mine {
            worker_id: mining_bootstrap_worker_id(),
            node_id: mining_bootstrap_node_id(),
            quantity: mining_bootstrap_expected_storage_iron(),
        },
        Some(mining_bootstrap_assignment_id()),
    );

    assert_eq!(
        result,
        Err(SimError::WorkerDisabled(mining_bootstrap_worker_id()))
    );
    assert!(matches!(
        log.events()[3].kind,
        EventKind::ActionRequested {
            action: WorkerAction::Mine { .. },
            ..
        }
    ));
    assert!(matches!(
        log.events()[4].kind,
        EventKind::ActionRejected {
            error: SimError::WorkerDisabled(_),
            ..
        }
    ));
    assert_eq!(log.events()[3].tick, disabled.tick);
    assert_eq!(log.events()[4].tick, disabled.tick);
}

#[test]
fn worker_failure_scenario_replay_reproduces_final_state() {
    let run = run_worker_failure_recovery().expect("worker failure scenario should run");

    let replayed =
        replay_events(&run.initial_state, &run.events).expect("replay should succeed");

    assert_eq!(replayed, run.final_state);
    verify_replay(&run.initial_state, &run.events, &run.final_state)
        .expect("verification should pass");
}

#[test]
fn worker_failure_scenario_final_state_satisfies_stockpile_objective() {
    let run = run_worker_failure_recovery().expect("worker failure scenario should run");
    let objective = mining_bootstrap_objective();

    assert!(objective_satisfied(
        &run.final_state,
        &objective,
        mining_bootstrap_storage_id()
    ));
    validate_worker_failure_recovery_final_state(&run.final_state)
        .expect("final state should validate");
}

#[test]
fn worker_failure_scenario_contains_failure_and_recovery_events_in_expected_order() {
    let run = run_worker_failure_recovery().expect("worker failure scenario should run");

    assert_eq!(run.events.len(), 20);
    assert!(matches!(
        run.events[0].kind,
        EventKind::ObjectiveAccepted { .. }
    ));
    assert!(matches!(
        run.events[1].kind,
        EventKind::DecisionEmitted { .. }
    ));
    assert!(matches!(run.events[2].kind, EventKind::TaskCreated { .. }));
    assert!(matches!(run.events[3].kind, EventKind::TaskAssigned { .. }));
    assert!(matches!(
        run.events[6].kind,
        EventKind::FailureInjected { .. }
    ));
    assert!(matches!(
        run.events[7].kind,
        EventKind::ActionRequested {
            action: WorkerAction::DisableWorker { .. },
            ..
        }
    ));
    assert!(matches!(
        run.events[8].kind,
        EventKind::ActionApplied {
            action: WorkerAction::DisableWorker { .. },
            ..
        }
    ));
    assert!(matches!(
        run.events[9].kind,
        EventKind::ActionRequested {
            action: WorkerAction::Mine { .. },
            ..
        }
    ));
    assert!(matches!(
        run.events[10].kind,
        EventKind::ActionRejected {
            error: SimError::WorkerDisabled(_),
            ..
        }
    ));
    assert!(matches!(
        run.events[11].kind,
        EventKind::RecoveryEmitted { .. }
    ));
    assert!(matches!(
        run.events[12].kind,
        EventKind::ActionRequested {
            action: WorkerAction::RepairWorker { .. },
            ..
        }
    ));
    assert!(matches!(
        run.events[13].kind,
        EventKind::ActionApplied {
            action: WorkerAction::RepairWorker { .. },
            ..
        }
    ));
}

#[test]
fn worker_failure_scenario_actions_retain_assignment_context() {
    let run = run_worker_failure_recovery().expect("worker failure scenario should run");

    for event in &run.events[4..] {
        if matches!(
            event.kind,
            EventKind::ActionRequested { .. }
                | EventKind::ActionApplied { .. }
                | EventKind::ActionRejected { .. }
        ) {
            assert_eq!(
                assignment_for_action_event(event),
                Some(mining_bootstrap_assignment_id())
            );
        }
    }
}

#[test]
fn running_worker_failure_scenario_twice_produces_identical_events_and_final_state() {
    let first = run_worker_failure_recovery().expect("first run should succeed");
    let second = run_worker_failure_recovery().expect("second run should succeed");

    assert_eq!(first.initial_state, second.initial_state);
    assert_eq!(first.final_state, second.final_state);
    assert_eq!(first.events, second.events);
}

#[test]
fn policy_gate_scenario_final_state_satisfies_stockpile_objective() {
    let run = run_policy_gate().expect("policy gate scenario should run");
    let objective = mining_bootstrap_objective();

    assert!(objective_satisfied(
        &run.final_state,
        &objective,
        mining_bootstrap_storage_id()
    ));
    validate_policy_gate_final_state(&run.final_state).expect("final state should validate");
}

#[test]
fn policy_gate_scenario_includes_policy_rejection_before_corrected_action() {
    let run = run_policy_gate().expect("policy gate scenario should run");

    assert_eq!(run.events.len(), 11);
    assert!(matches!(
        run.events[0].kind,
        EventKind::ObjectiveAccepted { .. }
    ));
    assert!(matches!(
        run.events[1].kind,
        EventKind::DecisionEmitted { .. }
    ));
    assert!(matches!(run.events[2].kind, EventKind::TaskCreated { .. }));
    assert!(matches!(run.events[3].kind, EventKind::TaskAssigned { .. }));
    assert!(matches!(
        run.events[4].kind,
        EventKind::PolicyRejected {
            error: PolicyError::MineQuantityLimitExceeded { .. },
            ..
        }
    ));
    assert!(matches!(
        run.events[5].kind,
        EventKind::PolicyAccepted {
            action: WorkerAction::Mine {
                quantity: Quantity(10),
                ..
            },
            ..
        }
    ));
    assert!(matches!(
        run.events[6].kind,
        EventKind::ActionRequested {
            action: WorkerAction::Mine {
                quantity: Quantity(10),
                ..
            },
            ..
        }
    ));
    assert!(matches!(
        run.events[7].kind,
        EventKind::ActionApplied {
            action: WorkerAction::Mine {
                quantity: Quantity(10),
                ..
            },
            ..
        }
    ));
}

#[test]
fn policy_gate_scenario_policy_and_action_events_retain_assignment_context() {
    let run = run_policy_gate().expect("policy gate scenario should run");

    for event in &run.events[4..] {
        assert_eq!(
            event.kind.assignment_id(),
            Some(mining_bootstrap_assignment_id())
        );
    }
}

#[test]
fn policy_gate_scenario_replay_reproduces_final_state() {
    let run = run_policy_gate().expect("policy gate scenario should run");

    let replayed =
        replay_events(&run.initial_state, &run.events).expect("replay should succeed");

    assert_eq!(replayed, run.final_state);
    verify_replay(&run.initial_state, &run.events, &run.final_state)
        .expect("verification should pass");
}

#[test]
fn running_policy_gate_scenario_twice_produces_identical_events_and_final_state() {
    let first = run_policy_gate().expect("first run should succeed");
    let second = run_policy_gate().expect("second run should succeed");

    assert_eq!(first.initial_state, second.initial_state);
    assert_eq!(first.final_state, second.final_state);
    assert_eq!(first.events, second.events);
}

#[test]
fn scheduled_mining_scenario_final_state_satisfies_stockpile_objective() {
    let run = run_scheduled_mining().expect("scheduled mining scenario should run");
    let objective = mining_bootstrap_objective();

    assert!(objective_satisfied(
        &run.final_state,
        &objective,
        mining_bootstrap_storage_id()
    ));
    validate_scheduled_mining_final_state(&run.final_state)
        .expect("final state should validate");
}

#[test]
fn scheduled_mining_scenario_records_scheduler_policy_and_action_events() {
    let run = run_scheduled_mining().expect("scheduled mining scenario should run");

    assert_eq!(run.events.len(), 14);
    assert!(matches!(
        run.events[0].kind,
        EventKind::ObjectiveAccepted { .. }
    ));
    assert!(matches!(
        run.events[1].kind,
        EventKind::DecisionEmitted { .. }
    ));
    assert!(matches!(run.events[2].kind, EventKind::TaskCreated { .. }));
    assert!(matches!(run.events[3].kind, EventKind::TaskAssigned { .. }));
    assert!(matches!(
        run.events[4].kind,
        EventKind::SchedulerEmitted {
            assignment_id: AssignmentId(1),
            outcome: ScheduleOutcome::Action {
                action: WorkerAction::Mine { .. },
                ..
            },
        }
    ));
    assert!(matches!(
        run.events[5].kind,
        EventKind::PolicyAccepted { .. }
    ));
    assert!(matches!(
        run.events[6].kind,
        EventKind::ActionRequested {
            action: WorkerAction::Mine { .. },
            ..
        }
    ));
    assert!(matches!(
        run.events[7].kind,
        EventKind::ActionApplied {
            action: WorkerAction::Mine { .. },
            ..
        }
    ));
    assert!(matches!(run.events[8].kind, EventKind::TaskCreated { .. }));
    assert!(matches!(run.events[9].kind, EventKind::TaskAssigned { .. }));
    assert!(matches!(
        run.events[10].kind,
        EventKind::SchedulerEmitted {
            assignment_id: AssignmentId(2),
            outcome: ScheduleOutcome::Action {
                action: WorkerAction::Deposit { .. },
                ..
            },
        }
    ));
}

#[test]
fn scheduled_mining_scenario_preserves_assignment_context() {
    let run = run_scheduled_mining().expect("scheduled mining scenario should run");

    for event in &run.events[4..8] {
        assert_eq!(
            event.kind.assignment_id(),
            Some(mining_bootstrap_assignment_id())
        );
    }
    for event in &run.events[10..] {
        assert_eq!(
            event.kind.assignment_id(),
            Some(AssignmentId::new(2))
        );
    }
}

#[test]
fn scheduled_mining_scenario_replay_reproduces_final_state() {
    let run = run_scheduled_mining().expect("scheduled mining scenario should run");

    let replayed =
        replay_events(&run.initial_state, &run.events).expect("replay should succeed");

    assert_eq!(replayed, run.final_state);
    verify_replay(&run.initial_state, &run.events, &run.final_state)
        .expect("verification should pass");
}

#[test]
fn running_scheduled_mining_scenario_twice_produces_identical_events_and_final_state() {
    let first = run_scheduled_mining().expect("first run should succeed");
    let second = run_scheduled_mining().expect("second run should succeed");

    assert_eq!(first.initial_state, second.initial_state);
    assert_eq!(first.final_state, second.final_state);
    assert_eq!(first.events, second.events);
}

#[test]
fn proposal_adaptor_scenario_records_rejected_then_accepted_proposal_flow() {
    let run = run_proposal_adaptor().expect("proposal adaptor scenario should run");

    assert_eq!(run.events.len(), 19);
    assert!(matches!(
        run.events[0].kind,
        EventKind::ProposalReceived { .. }
    ));
    assert!(matches!(
        run.events[1].kind,
        EventKind::ProposalRejected { .. }
    ));
    assert!(matches!(
        run.events[2].kind,
        EventKind::ProposalReceived { .. }
    ));
    assert!(matches!(
        run.events[3].kind,
        EventKind::ProposalParsed { .. }
    ));
    assert!(matches!(
        run.events[4].kind,
        EventKind::ProposalAccepted { .. }
    ));
    assert!(matches!(
        run.events[5].kind,
        EventKind::ObjectiveAccepted { .. }
    ));
    assert!(matches!(
        run.events[6].kind,
        EventKind::DecisionEmitted { .. }
    ));
    assert!(matches!(run.events[7].kind, EventKind::TaskCreated { .. }));
    assert!(matches!(run.events[8].kind, EventKind::TaskAssigned { .. }));
}

#[test]
fn rejected_proposal_path_does_not_create_executable_work() {
    let run = run_proposal_adaptor().expect("proposal adaptor scenario should run");

    assert!(!run.events[..2].iter().any(|event| matches!(
        event.kind,
        EventKind::ObjectiveAccepted { .. }
            | EventKind::TaskCreated { .. }
            | EventKind::TaskAssigned { .. }
            | EventKind::SchedulerEmitted { .. }
            | EventKind::ActionRequested { .. }
            | EventKind::ActionApplied { .. }
    )));
    assert_eq!(run.events[0].tick, Tick::zero());
    assert_eq!(run.events[1].tick, Tick::zero());
}

#[test]
fn proposal_adaptor_scenario_final_state_satisfies_stockpile_objective() {
    let run = run_proposal_adaptor().expect("proposal adaptor scenario should run");
    let objective = mining_bootstrap_objective();

    assert!(objective_satisfied(
        &run.final_state,
        &objective,
        mining_bootstrap_storage_id()
    ));
    validate_scheduled_mining_final_state(&run.final_state)
        .expect("final state should validate");
}

#[test]
fn proposal_adaptor_scenario_replay_reproduces_final_state() {
    let run = run_proposal_adaptor().expect("proposal adaptor scenario should run");

    let replayed =
        replay_events(&run.initial_state, &run.events).expect("replay should succeed");

    assert_eq!(replayed, run.final_state);
    verify_replay(&run.initial_state, &run.events, &run.final_state)
        .expect("verification should pass");
}

#[test]
fn running_proposal_adaptor_scenario_twice_produces_identical_events_and_final_state() {
    let first = run_proposal_adaptor().expect("first run should succeed");
    let second = run_proposal_adaptor().expect("second run should succeed");

    assert_eq!(first.initial_state, second.initial_state);
    assert_eq!(first.final_state, second.final_state);
    assert_eq!(first.events, second.events);
}
