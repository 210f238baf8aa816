use lib::cli::commands::{
export_cli_artifact, list_scenarios, run_cli, run_cli_scenario, ArtifactFormat, CliError,
CliScenario, CliScenarioSummary, EXIT_ARTIFACT_FAILED, EXIT_INVALID_USAGE,
EXIT_SCENARIO_FAILED, EXIT_SUCCESS, EXIT_UNSUPPORTED_SCENARIO,
};
use lib::cli::output::{render_error, render_scenario_summary};
use lib::primitives::tick::Tick;


#[test]
fn scenario_list_order_is_deterministic() {
    assert_eq!(
        list_scenarios(),
        &[
            "mining-bootstrap",
            "worker-failure",
            "policy-gate",
            "scheduled-mining",
            "proposal-adaptor",
        ]
    );
}

#[test]
fn known_scenario_names_parse_successfully() {
    assert_eq!(
        CliScenario::parse("mining-bootstrap"),
        Ok(CliScenario::MiningBootstrap)
    );
    assert_eq!(
        CliScenario::parse("worker-failure"),
        Ok(CliScenario::WorkerFailure)
    );
    assert_eq!(
        CliScenario::parse("policy-gate"),
        Ok(CliScenario::PolicyGate)
    );
    assert_eq!(
        CliScenario::parse("scheduled-mining"),
        Ok(CliScenario::ScheduledMining)
    );
    assert_eq!(
        CliScenario::parse("proposal-adaptor"),
        Ok(CliScenario::ProposalAdaptor)
    );
}

#[test]
fn unknown_scenario_name_fails_deterministically() {
    assert_eq!(
        CliScenario::parse("unknown"),
        Err(CliError::UnsupportedScenario("unknown".to_string()))
    );
}

#[test]
fn run_scenario_mining_bootstrap_summary_is_deterministic() {
    let summary = run_cli_scenario("mining-bootstrap").expect("scenario should run");

    assert_eq!(summary.scenario_name, "mining-bootstrap");
    assert!(summary.replay_verified);
    assert_eq!(summary.event_count, 12);
    assert_eq!(summary.final_tick.value(), 4);
    assert!(summary.objective_satisfied);
}

#[test]
fn run_scenario_worker_failure_summary_is_deterministic() {
    let summary = run_cli_scenario("worker-failure").expect("scenario should run");

    assert_eq!(summary.scenario_name, "worker-failure");
    assert!(summary.replay_verified);
    assert_eq!(summary.event_count, 20);
    assert_eq!(summary.final_tick.value(), 6);
    assert!(summary.objective_satisfied);
}

#[test]
fn run_scenario_policy_gate_summary_is_deterministic() {
    let summary = run_cli_scenario("policy-gate").expect("scenario should run");

    assert_eq!(summary.scenario_name, "policy-gate");
    assert!(summary.replay_verified);
    assert_eq!(summary.event_count, 11);
    assert_eq!(summary.final_tick.value(), 2);
    assert!(summary.objective_satisfied);
}

#[test]
fn run_scenario_scheduled_mining_summary_is_deterministic() {
    let summary = run_cli_scenario("scheduled-mining").expect("scenario should run");

    assert_eq!(summary.scenario_name, "scheduled-mining");
    assert!(summary.replay_verified);
    assert_eq!(summary.event_count, 14);
    assert_eq!(summary.final_tick.value(), 2);
    assert!(summary.objective_satisfied);
}

#[test]
fn run_scenario_proposal_adaptor_summary_is_deterministic() {
    let summary = run_cli_scenario("proposal-adaptor").expect("scenario should run");

    assert_eq!(summary.scenario_name, "proposal-adaptor");
    assert!(summary.replay_verified);
    assert_eq!(summary.event_count, 19);
    assert_eq!(summary.final_tick.value(), 2);
    assert!(summary.objective_satisfied);
}

#[test]
fn running_same_scenario_twice_through_dispatch_produces_identical_summary() {
    let first = run_cli_scenario("proposal-adaptor").expect("scenario should run");
    let second = run_cli_scenario("proposal-adaptor").expect("scenario should run");

    assert_eq!(first, second);
}

#[test]
fn list_scenarios_output_is_stable() {
    let output = run_cli(&["list-scenarios"]).expect("list should succeed");

    assert_eq!(
        output,
        "supported_scenarios:\n- mining-bootstrap\n- worker-failure\n- policy-gate\n- scheduled-mining\n- proposal-adaptor\n"
    );
}

#[test]
fn run_scenario_output_is_stable() {
    let output = run_cli(&["run-scenario", "scheduled-mining"]).expect("scenario should run");

    assert_eq!(
        output,
        "scenario: scheduled-mining\nstatus: ok\nreplay_verified: true\nevents: 14\nfinal_tick: 2\nobjective_satisfied: true\n"
    );
}

#[test]
fn export_artifact_scheduled_mining_text_is_deterministic() {
    let first = export_cli_artifact("scheduled-mining", ArtifactFormat::Text)
        .expect("artifact should export");
    let second = export_cli_artifact("scheduled-mining", ArtifactFormat::Text)
        .expect("artifact should export");

    assert_eq!(first, second);
    assert!(first.contains("Scenario: scheduled-mining"));
    assert!(first.contains("# Causal Graph"));
}

#[test]
fn export_artifact_scheduled_mining_lines_is_deterministic() {
    let first = export_cli_artifact("scheduled-mining", ArtifactFormat::Lines)
        .expect("artifact should export");
    let second = export_cli_artifact("scheduled-mining", ArtifactFormat::Lines)
        .expect("artifact should export");

    assert_eq!(first, second);
    assert!(first.contains("artifact|scenario|scheduled-mining\n"));
    assert!(first.contains("node|"));
}

#[test]
fn export_artifact_proposal_adaptor_text_is_deterministic() {
    let first = export_cli_artifact("proposal-adaptor", ArtifactFormat::Text)
        .expect("artifact should export");
    let second = export_cli_artifact("proposal-adaptor", ArtifactFormat::Text)
        .expect("artifact should export");

    assert_eq!(first, second);
    assert!(first.contains("Scenario: proposal-adaptor"));
    assert!(first.contains("ProposalRejected"));
    assert!(first.contains("ProposalAccepted"));
}

#[test]
fn unsupported_artifact_format_fails_with_stable_error() {
    assert_eq!(
        ArtifactFormat::parse("json"),
        Err(CliError::UnsupportedArtifactFormat("json".to_string()))
    );
}

#[test]
fn invalid_usage_returns_invalid_usage_error() {
    assert!(matches!(run_cli(&[]), Err(CliError::InvalidUsage(_))));
    assert!(matches!(
        run_cli(&["run-scenario"]),
        Err(CliError::InvalidUsage(_))
    ));
}

#[test]
fn cli_output_does_not_include_absolute_project_paths() {
    let output = run_cli(&["run-scenario", "proposal-adaptor"]).expect("scenario should run");

    assert!(!output.contains("/home/"));
    assert!(!output.contains("Projects/piestyx"));
}

#[test]
fn cli_output_does_not_include_wall_clock_timestamps() {
    let output = run_cli(&["run-scenario", "scheduled-mining"]).expect("scenario should run");

    assert!(!output.contains("2026-"));
    assert!(!output.contains("T00:"));
    assert!(!output.contains("UTC"));
}

#[test]
fn exit_codes_are_stable() {
    assert_eq!(EXIT_SUCCESS, 0);
    assert_eq!(
        CliError::InvalidUsage("bad").exit_code(),
        EXIT_INVALID_USAGE
    );
    assert_eq!(
        CliError::UnsupportedScenario("bad".to_string()).exit_code(),
        EXIT_UNSUPPORTED_SCENARIO
    );
    assert_eq!(
        CliError::ScenarioFailed {
            scenario: "s".to_string(),
            reason: "r".to_string(),
        }
        .exit_code(),
        EXIT_SCENARIO_FAILED
    );
    assert_eq!(
        CliError::ArtifactExportFailed {
            scenario: "s".to_string(),
            reason: "r".to_string(),
        }
        .exit_code(),
        EXIT_ARTIFACT_FAILED
    );
}



#[test]
fn error_output_is_stable() {
    assert_eq!(
        render_error(&CliError::UnsupportedScenario("missing".to_string())),
        "error: unsupported scenario 'missing'"
    );
}

#[test]
fn summary_output_is_stable() {
    let summary = CliScenarioSummary {
        scenario_name: "scheduled-mining",
        replay_verified: true,
        event_count: 14,
        final_tick: Tick::new(2),
        objective_satisfied: true,
    };

    assert_eq!(
        render_scenario_summary(&summary),
        "scenario: scheduled-mining\nstatus: ok\nreplay_verified: true\nevents: 14\nfinal_tick: 2\nobjective_satisfied: true\n"
    );
}
