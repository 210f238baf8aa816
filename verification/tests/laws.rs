use lib::cli::commands::{
    export_cli_artifact, run_cli, ArtifactFormat, CliError, CliScenario, EXIT_ARTIFACT_FAILED,
};
use lib::primitives::error::SimError;
use lib::primitives::ids::{EventId, ResourceNodeId, StorageId, WorkerId};
use lib::primitives::position::Position;
use lib::primitives::quantity::Quantity;
use lib::primitives::tick::Tick;
use lib::replay::artifact::{build_causal_artifact, proposal_adaptor_causal_artifact};
use lib::replay::causal_export::{export_causal_graph_lines, export_causal_graph_text};
use lib::replay::causal_graph::{build_causal_graph, CausalEdgeKind, CausalNodeKind};
use lib::replay::event_log::{
    record_action_with_context, record_objective_accepted, record_worker_failure,
    record_worker_recovery, EventEnvelope, EventKind, EventLog,
};
use lib::replay::replay::{replay_events, ReplayError};
use lib::replay::scenario::{
    run_mining_bootstrap, run_proposal_adaptor, run_scheduled_mining,
    validate_mining_bootstrap_final_state, validate_worker_failure_recovery_final_state,
    ScenarioError,
};
use lib::sim::action::WorkerAction;
use lib::sim::entity::{CarriedResource, ResourceKind, WorkerStatus};
use lib::sim::proposal::{parse_proposal_text, ProposalError, ProposalRejection};
use lib::sim::proposal_text::adaptor_proposal_text;
use lib::sim::reducer::apply_action;
use lib::sim::scenario::{
    build_mining_bootstrap_world, mining_bootstrap_actions, mining_bootstrap_objective,
};
use lib::sim::world::WorldState;

fn final_bootstrap_world() -> WorldState {
    run_mining_bootstrap().expect("scenario should run").final_state
}

#[test]
fn graph_has_one_node_per_event_in_order_and_edges_run_forward() {
    let run = run_scheduled_mining().expect("scenario should run");
    let graph = build_causal_graph(&run.events, true);

    assert_eq!(graph.nodes.len(), run.events.len() + 1);
    for (i, node) in graph.nodes.iter().enumerate() {
        assert_eq!(node.id.value(), i as u64 + 1);
        if i < run.events.len() {
            assert_eq!(node.event_id, Some(run.events[i].id));
        }
    }
    let last = graph.nodes.last().expect("replay node exists");
    assert_eq!(last.kind, CausalNodeKind::ReplayVerification);
    assert_eq!(last.event_id, None);
    for edge in &graph.edges {
        assert!(1 <= edge.from.value());
        assert!(edge.from.value() < edge.to.value());
        assert!(edge.to.value() <= graph.nodes.len() as u64);
    }
}

#[test]
fn successful_actions_advance_the_tick_by_exactly_one() {
    let mut state = build_mining_bootstrap_world();
    for action in mining_bootstrap_actions() {
        let before = state.tick.value();
        state = apply_action(&state, &action).expect("action should apply");
        assert_eq!(state.tick.value(), before + 1);
    }
    assert_eq!(state.tick, Tick::new(4));
}

#[test]
fn every_scenario_name_parses_back_to_its_scenario() {
    for scenario in [
        CliScenario::MiningBootstrap,
        CliScenario::WorkerFailure,
        CliScenario::PolicyGate,
        CliScenario::ScheduledMining,
        CliScenario::ProposalAdaptor,
    ] {
        assert_eq!(CliScenario::parse(scenario.name()), Ok(scenario));
    }
}

#[test]
fn proposal_adaptor_run_replays_to_its_final_state() {
    let run = run_proposal_adaptor().expect("scenario should run");
    assert_eq!(run.events.len(), 19);
    let replayed = replay_events(&run.initial_state, &run.events).expect("replay should succeed");
    assert_eq!(replayed, run.final_state);
    assert_eq!(run.final_state.tick, Tick::new(2));
}

#[test]
fn proposal_adaptor_graph_links_accepted_proposal_to_objective() {
    let artifact = proposal_adaptor_causal_artifact().expect("artifact should build");
    let graph = &artifact.graph;

    assert_eq!(artifact.event_count, 19);
    assert_eq!(graph.nodes.len(), 20);
    assert_eq!(graph.nodes[0].kind, CausalNodeKind::Proposal);
    assert_eq!(graph.nodes[1].kind, CausalNodeKind::ProposalRejected);
    assert_eq!(graph.nodes[4].kind, CausalNodeKind::ProposalAccepted);
    assert_eq!(graph.nodes[5].kind, CausalNodeKind::Objective);
    assert!(graph.edges.iter().any(|edge| edge.from == graph.nodes[4].id
        && edge.to == graph.nodes[5].id
        && edge.kind == CausalEdgeKind::Caused));
    assert!(graph.edges.iter().any(|edge| edge.from == graph.nodes[0].id
        && edge.to == graph.nodes[1].id
        && edge.kind == CausalEdgeKind::Caused));
    assert!(graph.nodes[1]
        .label
        .contains("proposal resource is unsupported: copper"));
}

#[test]
fn adaptor_proposal_text_spells_the_expected_lines() {
    let text = adaptor_proposal_text("iron");
    assert_eq!(
        text,
        "objective=maintain_stockpile\nresource=iron\nminimum=10\nworker_id=1\nresource_node_id=1\nstorage_id=1\nmine_quantity=10"
    );
    assert!(parse_proposal_text(&text).is_ok());
    assert_eq!(
        parse_proposal_text(&adaptor_proposal_text("copper")),
        Err(ProposalError::UnsupportedResource("copper".to_string()))
    );
}

#[test]
fn exports_escape_labels() {
    let events = vec![
        EventEnvelope {
            id: EventId::new(1),
            tick: Tick::zero(),
            kind: EventKind::ProposalReceived { text: "a".to_string() },
        },
        EventEnvelope {
            id: EventId::new(2),
            tick: Tick::zero(),
            kind: EventKind::ProposalRejected {
                rejection: ProposalRejection::Parse(ProposalError::MalformedLine(
                    "x|y\"z\\w".to_string(),
                )),
            },
        },
    ];
    let graph = build_causal_graph(&events, false);
    let text = export_causal_graph_text(&graph);
    let lines = export_causal_graph_lines(&graph);

    assert!(text.contains("label=\"ProposalRejected error=proposal parse rejected: proposal line is malformed: x|y\\\"z\\\\w\""));
    assert!(lines.contains("node|2|ProposalRejected|event=2|ProposalRejected error=proposal parse rejected: proposal line is malformed: x\\|y\"z\\\\w\n"));
    assert!(lines.contains("edge|1|2|Caused\n"));
}

#[test]
fn artifact_of_empty_events_has_only_its_replay_node() {
    let artifact = build_causal_artifact("empty", &[], true);
    assert_eq!(artifact.event_count, 0);
    assert_eq!(artifact.graph.nodes.len(), 1);
    assert!(artifact.graph.edges.is_empty());
    assert_eq!(artifact.graph.nodes[0].label, "ReplayVerification verified=true");
}

#[test]
fn event_log_numbers_events_from_one() {
    let mut log = EventLog::new();
    for _ in 0..5 {
        log.append(
            Tick::zero(),
            EventKind::FailureInjected {
                worker_id: WorkerId::new(1),
                reason: lib::sim::failure::FailureReason::Injected,
            },
        );
    }
    let ids: Vec<u64> = log.events().iter().map(|e| e.id.value()).collect();
    assert_eq!(ids, vec![1, 2, 3, 4, 5]);
}

#[test]
fn final_state_checks_report_each_mismatch() {
    let good = final_bootstrap_world();
    assert_eq!(validate_mining_bootstrap_final_state(&good), Ok(()));

    let mut wrong_tick = good.duplicate();
    wrong_tick.tick = Tick::new(9);
    assert_eq!(
        validate_mining_bootstrap_final_state(&wrong_tick),
        Err(ScenarioError::TickMismatch { expected: Tick::new(4), actual: Tick::new(9) })
    );

    let mut carrying = good.duplicate();
    let mut worker = *carrying.workers.get(&WorkerId::new(1)).unwrap();
    worker.carried = Some(CarriedResource { kind: ResourceKind::Iron, quantity: Quantity::new(1) });
    carrying.workers.insert(WorkerId::new(1), worker);
    assert_eq!(
        validate_mining_bootstrap_final_state(&carrying),
        Err(ScenarioError::WorkerStillCarrying(WorkerId::new(1)))
    );

    let mut drained = good.duplicate();
    let mut node = *drained.resource_nodes.get(&ResourceNodeId::new(1)).unwrap();
    node.remaining = Quantity::new(7);
    drained.resource_nodes.insert(ResourceNodeId::new(1), node);
    assert_eq!(
        validate_mining_bootstrap_final_state(&drained),
        Err(ScenarioError::ResourceQuantityMismatch {
            expected: Quantity::new(90),
            actual: Quantity::new(7),
        })
    );

    let mut short = good.duplicate();
    let mut depot = *short.storage.get(&StorageId::new(1)).unwrap();
    depot.inventory.insert(ResourceKind::Iron, Quantity::new(3));
    short.storage.insert(StorageId::new(1), depot);
    assert_eq!(
        validate_mining_bootstrap_final_state(&short),
        Err(ScenarioError::StorageQuantityMismatch {
            expected: Quantity::new(10),
            actual: Quantity::new(3),
        })
    );

    let empty = WorldState::new();
    assert_eq!(
        validate_mining_bootstrap_final_state(&empty),
        Err(ScenarioError::ExpectedStorageMissing(StorageId::new(1)))
    );

    let mut disabled = good.duplicate();
    disabled.tick = Tick::new(6);
    let mut worker = *disabled.workers.get(&WorkerId::new(1)).unwrap();
    worker.status = WorkerStatus::Disabled;
    disabled.workers.insert(WorkerId::new(1), worker);
    assert_eq!(
        validate_worker_failure_recovery_final_state(&disabled),
        Err(ScenarioError::ActionFailed(SimError::WorkerDisabled(WorkerId::new(1))))
    );
}

#[test]
fn scenario_error_messages_are_stable() {
    assert_eq!(
        ScenarioError::TickMismatch { expected: Tick::new(4), actual: Tick::new(9) }.message(),
        "tick mismatch: expected 4, actual 9"
    );
    assert_eq!(
        ScenarioError::WorkerStillCarrying(WorkerId::new(1)).message(),
        "worker 1 is still carrying resource"
    );
    assert_eq!(
        ScenarioError::ReplayFailed(ReplayError::FinalStateMismatch).message(),
        "scenario replay failed: replayed final state does not match expected"
    );
    assert_eq!(
        ScenarioError::ExpectedStorageMissing(StorageId::new(3)).message(),
        "expected storage missing: 3"
    );
    assert_eq!(
        ScenarioError::ObjectiveNotSatisfied.message(),
        "scenario objective is not satisfied"
    );
}

#[test]
fn cli_errors_name_what_was_wrong() {
    assert_eq!(
        run_cli(&["frobnicate"]),
        Err(CliError::InvalidUsage(
            "expected list-scenarios, run-scenario <scenario-name>, or export-artifact <scenario-name> <format>"
        ))
    );
    assert_eq!(
        run_cli(&["export-artifact", "scheduled-mining", "json"]),
        Err(CliError::UnsupportedArtifactFormat("json".to_string()))
    );
    assert_eq!(
        run_cli(&["export-artifact", "nowhere", "text"]),
        Err(CliError::UnsupportedScenario("nowhere".to_string()))
    );
    assert_eq!(
        export_cli_artifact("nowhere", ArtifactFormat::Lines),
        Err(CliError::UnsupportedScenario("nowhere".to_string()))
    );
    assert_eq!(
        CliError::UnsupportedArtifactFormat("json".to_string()).exit_code(),
        EXIT_ARTIFACT_FAILED
    );
    assert_eq!(
        CliError::ScenarioFailed { scenario: "s".to_string(), reason: "r".to_string() }.message(),
        "scenario 's' failed: r"
    );
    assert_eq!(
        CliError::ArtifactExportFailed { scenario: "s".to_string(), reason: "r".to_string() }
            .message(),
        "artifact export for scenario 's' failed: r"
    );
}

#[test]
fn cli_export_matches_the_artifact_export() {
    let via_cli = run_cli(&["export-artifact", "scheduled-mining", "lines"]).expect("export");
    let run = run_scheduled_mining().expect("scenario should run");
    let artifact = build_causal_artifact("scheduled-mining", &run.events, true);
    assert_eq!(via_cli, lib::replay::artifact::export_artifact_lines(&artifact));
}

#[test]
fn replay_rejects_a_rejected_action_that_would_succeed() {
    let state = build_mining_bootstrap_world();
    let events = vec![EventEnvelope {
        id: EventId::new(1),
        tick: Tick::zero(),
        kind: EventKind::ActionRejected {
            action: WorkerAction::Move { worker_id: WorkerId::new(1), to: Position::new(1, 0) },
            context: lib::sim::assignment::ActionContext::direct(),
            error: SimError::TickOverflow,
        },
    }];
    assert_eq!(
        replay_events(&state, &events),
        Err(ReplayError::RejectedActionUnexpectedlySucceeded { event_id: EventId::new(1) })
    );
}

#[test]
fn map_reads_back_what_was_written() {
    let mut map: lib::ordered_map::OrderedMap<WorkerId, u64> = lib::ordered_map::OrderedMap::new();
    assert_eq!(map.insert(WorkerId::new(2), 20), None);
    assert_eq!(map.insert(WorkerId::new(1), 10), None);
    assert_eq!(map.insert(WorkerId::new(2), 21), Some(20));
    assert_eq!(map.get(&WorkerId::new(2)), Some(&21));
    assert_eq!(map.get(&WorkerId::new(1)), Some(&10));
    assert_eq!(map.get(&WorkerId::new(3)), None);
    assert_eq!(map.keys(), vec![WorkerId::new(1), WorkerId::new(2)]);
    assert_eq!(map.len(), 2);
}

fn total_resource(state: &WorldState) -> u64 {
    let mut total = 0;
    for i in 0..state.resource_nodes.len() {
        total += state.resource_nodes.entry_at(i).1.remaining.value();
    }
    for i in 0..state.workers.len() {
        if let Some(c) = state.workers.entry_at(i).1.carried {
            total += c.quantity.value();
        }
    }
    for i in 0..state.storage.len() {
        if let Some(q) = state.storage.entry_at(i).1.inventory.iron {
            total += q.value();
        }
    }
    total
}

#[test]
fn actions_keep_keys_and_resource_and_touch_only_their_worker() {
    let mut state = build_mining_bootstrap_world();
    let start_total = total_resource(&state);
    for action in mining_bootstrap_actions() {
        let next = apply_action(&state, &action).expect("action should apply");
        assert_eq!(next.workers.keys(), state.workers.keys());
        assert_eq!(next.resource_nodes.keys(), state.resource_nodes.keys());
        assert_eq!(next.storage.keys(), state.storage.keys());
        assert_eq!(total_resource(&next), start_total);
        state = next;
    }
    let wait = WorkerAction::Wait { worker_id: WorkerId::new(1) };
    let waited = apply_action(&state, &wait).expect("wait should apply");
    assert_eq!(waited.tick.value(), state.tick.value() + 1);
    assert!(waited.workers.same_entries(&state.workers));
    assert!(waited.resource_nodes.same_entries(&state.resource_nodes));
    assert!(waited.storage.same_entries(&state.storage));
}

#[test]
fn a_log_built_by_mixed_recording_calls_replays_to_the_last_world() {
    let initial = build_mining_bootstrap_world();
    let mut log = EventLog::new();
    let mut state = initial.duplicate();
    record_objective_accepted(&mut log, state.tick, mining_bootstrap_objective());
    let actions = mining_bootstrap_actions();
    state = record_action_with_context(&state, &mut log, actions[0], None).expect("move");
    state = record_worker_failure(&state, &mut log, WorkerId::new(1), None).expect("disable");
    let refused = record_action_with_context(&state, &mut log, actions[1], None);
    assert!(refused.is_err());
    state = record_worker_recovery(&state, &mut log, WorkerId::new(1), None).expect("repair");
    state = record_action_with_context(&state, &mut log, actions[1], None).expect("mine");

    for (i, event) in log.events().iter().enumerate() {
        assert_eq!(event.id, EventId::new(i as u64 + 1));
    }
    let replayed = replay_events(&initial, log.events()).expect("log should replay");
    assert!(replayed.same_as(&state));
}

#[test]
fn a_successful_replay_has_increasing_ids_and_ordered_ticks() {
    let run = run_scheduled_mining().expect("scenario should run");
    let replayed = replay_events(&run.initial_state, &run.events).expect("log should replay");
    for pair in run.events.windows(2) {
        assert!(pair[0].id.value() < pair[1].id.value());
        assert!(pair[0].tick.value() <= pair[1].tick.value());
    }
    for event in &run.events {
        assert!(event.id.value() > 0);
        assert!(run.initial_state.tick.value() <= event.tick.value());
        assert!(event.tick.value() <= replayed.tick.value());
    }
}
