use vstd::prelude::*;
use vstd::string::StringExecFns;

use crate::primitives::error::same_str;
use crate::primitives::ids::StorageId;
use crate::primitives::tick::Tick;
use crate::replay::artifact::{
    artifact_lines, artifact_text, build_causal_artifact, export_artifact_lines,
    export_artifact_text, CausalArtifactView,
};
use crate::replay::causal_graph::spec_build_graph;
use crate::replay::event_log::EventEnvelope;
use crate::replay::scenario::{
    adaptor_run_events, bootstrap_events, bootstrap_worlds, failure_recovery_events,
    failure_worlds, gated_worlds, lemma_scenario_event_counts, policy_gate_events,
    run_mining_bootstrap, run_policy_gate, run_proposal_adaptor, run_scheduled_mining,
    run_worker_failure_recovery, run_is, scenario_error_text, scheduled_mining_events,
    ScenarioError, ScenarioRun,
};
use crate::sim::scenario::{
    mining_bootstrap_objective, mining_bootstrap_objective_spec, mining_bootstrap_storage_id,
    mining_bootstrap_world_view, objective_satisfied, spec_objective_satisfied,
};
use crate::sim::world::WorldStateView;
use crate::cli::output::{
    render_artifact_export, render_scenario_list, render_scenario_summary, scenario_list_text,
};
use crate::text::{bool_text, dec};

verus! {

/// The exit status of a successful command.
pub const EXIT_SUCCESS: i32 = 0;

/// The exit status of a command line that names no known command.
pub const EXIT_INVALID_USAGE: i32 = 1;

/// The exit status of a command that names an unknown scenario.
pub const EXIT_UNSUPPORTED_SCENARIO: i32 = 2;

/// The exit status of a scenario that did not finish.
pub const EXIT_SCENARIO_FAILED: i32 = 3;

/// The exit status of an artifact that could not be exported.
pub const EXIT_ARTIFACT_FAILED: i32 = 4;

/// A scenario the command line can run.
#[derive(Clone, Copy, Debug, PartialEq, Eq, Structural)]
pub enum CliScenario {
    MiningBootstrap,
    WorkerFailure,
    PolicyGate,
    ScheduledMining,
    ProposalAdaptor,
}

/// The command-line name of a scenario.
pub open spec fn scenario_name_text(s: CliScenario) -> Seq<char> {
    match s {
        CliScenario::MiningBootstrap => "mining-bootstrap"@,
        CliScenario::WorkerFailure => "worker-failure"@,
        CliScenario::PolicyGate => "policy-gate"@,
        CliScenario::ScheduledMining => "scheduled-mining"@,
        CliScenario::ProposalAdaptor => "proposal-adaptor"@,
    }
}

/// The scenario a command-line name names, if any.
pub open spec fn scenario_named(name: Seq<char>) -> Option<CliScenario> {
    if name == "mining-bootstrap"@ {
        Some(CliScenario::MiningBootstrap)
    } else if name == "worker-failure"@ {
        Some(CliScenario::WorkerFailure)
    } else if name == "policy-gate"@ {
        Some(CliScenario::PolicyGate)
    } else if name == "scheduled-mining"@ {
        Some(CliScenario::ScheduledMining)
    } else if name == "proposal-adaptor"@ {
        Some(CliScenario::ProposalAdaptor)
    } else {
        None
    }
}

/// The scenario names in their stable order.
pub open spec fn scenario_names() -> Seq<Seq<char>> {
    seq![
        "mining-bootstrap"@,
        "worker-failure"@,
        "policy-gate"@,
        "scheduled-mining"@,
        "proposal-adaptor"@,
    ]
}

/// Every scenario's name names that scenario.
pub proof fn lemma_scenario_name_round_trip(s: CliScenario)
    ensures
        scenario_named(scenario_name_text(s)) == Some(s),
{
    reveal_strlit("mining-bootstrap");
    reveal_strlit("worker-failure");
    reveal_strlit("policy-gate");
    reveal_strlit("scheduled-mining");
    reveal_strlit("proposal-adaptor");
    assert("mining-bootstrap"@ != "worker-failure"@ ==> true);
    match s {
        CliScenario::MiningBootstrap => {},
        CliScenario::WorkerFailure => {
            assert("worker-failure"@[0] != "mining-bootstrap"@[0]);
        },
        CliScenario::PolicyGate => {
            assert("policy-gate"@[0] != "mining-bootstrap"@[0]);
            assert("policy-gate"@[0] != "worker-failure"@[0]);
        },
        CliScenario::ScheduledMining => {
            assert("scheduled-mining"@[0] != "mining-bootstrap"@[0]);
            assert("scheduled-mining"@[0] != "worker-failure"@[0]);
            assert("scheduled-mining"@[0] != "policy-gate"@[0]);
        },
        CliScenario::ProposalAdaptor => {
            assert("proposal-adaptor"@[0] != "mining-bootstrap"@[0]);
            assert("proposal-adaptor"@[0] != "worker-failure"@[0]);
            assert("proposal-adaptor"@.len() != "policy-gate"@.len());
            assert("proposal-adaptor"@[0] != "scheduled-mining"@[0]);
        },
    }
}

impl CliScenario {
    /// The scenario a command-line name names, or the unsupported-scenario error.
    pub fn parse(name: &str) -> (r: Result<Self, CliError>)
        ensures
            match scenario_named(name@) {
                Some(s) => r == Ok::<CliScenario, CliError>(s),
                None => r matches Err(CliError::UnsupportedScenario(n)) && n@ == name@,
            },
    {
        if same_str(name, "mining-bootstrap") {
            Ok(CliScenario::MiningBootstrap)
        } else if same_str(name, "worker-failure") {
            Ok(CliScenario::WorkerFailure)
        } else if same_str(name, "policy-gate") {
            Ok(CliScenario::PolicyGate)
        } else if same_str(name, "scheduled-mining") {
            Ok(CliScenario::ScheduledMining)
        } else if same_str(name, "proposal-adaptor") {
            Ok(CliScenario::ProposalAdaptor)
        } else {
            Err(CliError::UnsupportedScenario(String::from_str(name)))
        }
    }

    /// The command-line name of the scenario.
    pub fn name(self) -> (r: &'static str)
        ensures
            r@ == scenario_name_text(self),
    {
        match self {
            CliScenario::MiningBootstrap => "mining-bootstrap",
            CliScenario::WorkerFailure => "worker-failure",
            CliScenario::PolicyGate => "policy-gate",
            CliScenario::ScheduledMining => "scheduled-mining",
            CliScenario::ProposalAdaptor => "proposal-adaptor",
        }
    }
}

/// A format in which an artifact can be exported.
#[derive(Clone, Copy, Debug, PartialEq, Eq, Structural)]
pub enum ArtifactFormat {
    Text,
    Lines,
}

/// The format a command-line value names, if any.
pub open spec fn format_named(value: Seq<char>) -> Option<ArtifactFormat> {
    if value == "text"@ {
        Some(ArtifactFormat::Text)
    } else if value == "lines"@ {
        Some(ArtifactFormat::Lines)
    } else {
        None
    }
}

impl ArtifactFormat {
    /// The format a command-line value names, or the unsupported-format error.
    pub fn parse(value: &str) -> (r: Result<Self, CliError>)
        ensures
            match format_named(value@) {
                Some(f) => r == Ok::<ArtifactFormat, CliError>(f),
                None => r matches Err(CliError::UnsupportedArtifactFormat(v)) && v@ == value@,
            },
    {
        if same_str(value, "text") {
            Ok(ArtifactFormat::Text)
        } else if same_str(value, "lines") {
            Ok(ArtifactFormat::Lines)
        } else {
            Err(CliError::UnsupportedArtifactFormat(String::from_str(value)))
        }
    }
}

/// What a finished scenario reports.
#[derive(Clone, Debug, PartialEq, Eq)]
pub struct CliScenarioSummary {
    pub scenario_name: &'static str,
    pub replay_verified: bool,
    pub event_count: usize,
    pub final_tick: Tick,
    pub objective_satisfied: bool,
}

/// Why a command failed.
#[derive(Clone, Debug, PartialEq, Eq)]
pub enum CliError {
    InvalidUsage(&'static str),
    UnsupportedScenario(String),
    UnsupportedArtifactFormat(String),
    ScenarioFailed { scenario: String, reason: String },
    ArtifactExportFailed { scenario: String, reason: String },
}

/// The exit status of an error.
pub open spec fn exit_code_of(e: CliError) -> i32 {
    match e {
        CliError::InvalidUsage(_) => EXIT_INVALID_USAGE,
        CliError::UnsupportedScenario(_) => EXIT_UNSUPPORTED_SCENARIO,
        CliError::ScenarioFailed { .. } => EXIT_SCENARIO_FAILED,
        CliError::UnsupportedArtifactFormat(_) => EXIT_ARTIFACT_FAILED,
        CliError::ArtifactExportFailed { .. } => EXIT_ARTIFACT_FAILED,
    }
}

/// The human-readable message of an error.
pub open spec fn cli_error_text(e: CliError) -> Seq<char> {
    match e {
        CliError::InvalidUsage(message) => "invalid usage: "@ + message@,
        CliError::UnsupportedScenario(name) => "unsupported scenario '"@ + name@ + "'"@,
        CliError::UnsupportedArtifactFormat(format) => "unsupported artifact format '"@ + format@
            + "'"@,
        CliError::ScenarioFailed { scenario, reason } => "scenario '"@ + scenario@ + "' failed: "@
            + reason@,
        CliError::ArtifactExportFailed { scenario, reason } => "artifact export for scenario '"@
            + scenario@ + "' failed: "@ + reason@,
    }
}

impl CliError {
    /// The exit status of the error.
    pub fn exit_code(&self) -> (r: i32)
        ensures
            r == exit_code_of(*self),
    {
        match self {
            CliError::InvalidUsage(_) => EXIT_INVALID_USAGE,
            CliError::UnsupportedScenario(_) => EXIT_UNSUPPORTED_SCENARIO,
            CliError::ScenarioFailed { .. } => EXIT_SCENARIO_FAILED,
            CliError::UnsupportedArtifactFormat(_) => EXIT_ARTIFACT_FAILED,
            CliError::ArtifactExportFailed { .. } => EXIT_ARTIFACT_FAILED,
        }
    }

    /// Appends the message of the error.
    pub fn push_message(&self, out: &mut String)
        ensures
            final(out)@ == old(out)@ + cli_error_text(*self),
    {
        match self {
            CliError::InvalidUsage(message) => {
                out.append("invalid usage: ");
                out.append(message);
            },
            CliError::UnsupportedScenario(name) => {
                out.append("unsupported scenario '");
                out.append(name.as_str());
                out.append("'");
            },
            CliError::UnsupportedArtifactFormat(format) => {
                out.append("unsupported artifact format '");
                out.append(format.as_str());
                out.append("'");
            },
            CliError::ScenarioFailed { scenario, reason } => {
                out.append("scenario '");
                out.append(scenario.as_str());
                out.append("' failed: ");
                out.append(reason.as_str());
            },
            CliError::ArtifactExportFailed { scenario, reason } => {
                out.append("artifact export for scenario '");
                out.append(scenario.as_str());
                out.append("' failed: ");
                out.append(reason.as_str());
            },
        }
        assert(final(out)@ =~= old(out)@ + cli_error_text(*self));
    }

    /// The message of the error.
    pub fn message(&self) -> (r: String)
        ensures
            r@ == cli_error_text(*self),
    {
        let mut out = String::new();
        self.push_message(&mut out);
        assert(out@ =~= cli_error_text(*self));
        out
    }
}

/// The names of the supported scenarios, in their stable order.
pub fn list_scenarios() -> (r: Vec<&'static str>)
    ensures
        r@.map_values(|s: &'static str| s@) == scenario_names(),
{
    let mut out: Vec<&'static str> = Vec::new();
    out.push(CliScenario::MiningBootstrap.name());
    out.push(CliScenario::WorkerFailure.name());
    out.push(CliScenario::PolicyGate.name());
    out.push(CliScenario::ScheduledMining.name());
    out.push(CliScenario::ProposalAdaptor.name());
    assert(out@.map_values(|s: &'static str| s@) =~= scenario_names());
    out
}

/// The world a scenario ends in.
pub open spec fn scenario_final_world(s: CliScenario) -> WorldStateView {
    match s {
        CliScenario::MiningBootstrap => bootstrap_worlds()[4],
        CliScenario::WorkerFailure => failure_worlds()[6],
        _ => gated_worlds()[2],
    }
}

/// The number of events a scenario records.
pub open spec fn scenario_event_count(s: CliScenario) -> nat {
    match s {
        CliScenario::MiningBootstrap => 12,
        CliScenario::WorkerFailure => 20,
        CliScenario::PolicyGate => 11,
        CliScenario::ScheduledMining => 14,
        CliScenario::ProposalAdaptor => 19,
    }
}

/// The events of a scenario whose events are pinned down in full (all but the proposal
/// adaptor, whose first events hold the proposal text).
pub open spec fn scenario_events(s: CliScenario) -> Seq<EventEnvelope> {
    match s {
        CliScenario::MiningBootstrap => bootstrap_events(),
        CliScenario::WorkerFailure => failure_recovery_events(),
        CliScenario::PolicyGate => policy_gate_events(),
        _ => scheduled_mining_events(),
    }
}

/// What a run of scenario `s` is known to hold.
pub open spec fn run_fits(s: CliScenario, r: Result<ScenarioRun, ScenarioError>) -> bool {
    &&& r matches Ok(run) ==> run.events@.len() <= 20
    &&& (r matches Ok(run) && {
        &&& run.final_state@ == scenario_final_world(s)
        &&& run.events@.len() == scenario_event_count(s)
        &&& s != CliScenario::ProposalAdaptor ==> run.events@ == scenario_events(s)
        &&& s == CliScenario::ProposalAdaptor ==> adaptor_run_events(run.events@)
    })
}

fn run_scenario(scenario: CliScenario) -> (r: Result<ScenarioRun, ScenarioError>)
    ensures
        run_fits(scenario, r),
{
    proof {
        lemma_scenario_event_counts();
    }
    let r = match scenario {
        CliScenario::MiningBootstrap => run_mining_bootstrap(),
        CliScenario::WorkerFailure => run_worker_failure_recovery(),
        CliScenario::PolicyGate => run_policy_gate(),
        CliScenario::ScheduledMining => run_scheduled_mining(),
        CliScenario::ProposalAdaptor => run_proposal_adaptor(),
    };
    r
}

/// The summary a scenario's run reports.
pub open spec fn summary_is(sum: CliScenarioSummary, s: CliScenario) -> bool {
    &&& sum.scenario_name@ == scenario_name_text(s)
    &&& sum.replay_verified
    &&& sum.event_count == scenario_event_count(s)
    &&& sum.final_tick == scenario_final_world(s).tick
    &&& sum.objective_satisfied
}

/// Runs the scenario a command-line name names and reports its summary: its name, that its
/// replay was verified, its event count, its final tick, and whether it met the mining
/// objective.
pub fn run_cli_scenario(name: &str) -> (r: Result<CliScenarioSummary, CliError>)
    ensures
        match scenario_named(name@) {
            None => r matches Err(CliError::UnsupportedScenario(n)) && n@ == name@,
            Some(s) => r matches Ok(sum) && summary_is(sum, s),
        },
{
    let scenario = CliScenario::parse(name)?;
    let run = match run_scenario(scenario) {
        Ok(run) => run,
        Err(error) => {
            proof {
                lemma_scenario_name_round_trip(scenario);
            }
            return Err(
                CliError::ScenarioFailed {
                    scenario: String::from_str(scenario.name()),
                    reason: error.message(),
                },
            );
        },
    };
    proof {
        crate::replay::scenario_world::lemma_mining_view_entries(
            4,
            crate::primitives::position::Position { x: 0, y: 0 },
            6,
            None,
            crate::sim::entity::WorkerStatus::Active,
            90,
            10,
        );
        crate::replay::scenario_world::lemma_mining_view_entries(
            6,
            crate::primitives::position::Position { x: 0, y: 0 },
            6,
            None,
            crate::sim::entity::WorkerStatus::Active,
            90,
            10,
        );
        crate::replay::scenario_world::lemma_mining_view_entries(
            2,
            crate::primitives::position::Position { x: 0, y: 0 },
            8,
            None,
            crate::sim::entity::WorkerStatus::Active,
            90,
            10,
        );
    }
    Ok(summary_from_run(scenario, &run))
}

fn summary_from_run(scenario: CliScenario, run: &ScenarioRun) -> (r: CliScenarioSummary)
    ensures
        r.scenario_name@ == scenario_name_text(scenario),
        r.replay_verified,
        r.event_count == run.events@.len(),
        r.final_tick == run.final_state@.tick,
        r.objective_satisfied == spec_objective_satisfied(
            run.final_state@,
            mining_bootstrap_objective_spec(),
            StorageId(1),
        ),
{
    let objective = mining_bootstrap_objective();
    CliScenarioSummary {
        scenario_name: scenario.name(),
        replay_verified: true,
        event_count: run.events.len(),
        final_tick: run.final_state.tick,
        objective_satisfied: objective_satisfied(
            &run.final_state,
            &objective,
            mining_bootstrap_storage_id(),
        ),
    }
}

/// The artifact exported for scenario `s` run with events `ev`.
pub open spec fn scenario_artifact(s: CliScenario, ev: Seq<EventEnvelope>) -> CausalArtifactView {
    CausalArtifactView {
        scenario_name: scenario_name_text(s),
        replay_verified: true,
        event_count: ev.len(),
        graph: spec_build_graph(ev, true),
    }
}

/// The export of scenario `s`'s artifact in a format: for the proposal adaptor, that of the
/// artifact of some event sequence of its run.
pub open spec fn export_is(s: CliScenario, format: ArtifactFormat, text: Seq<char>) -> bool {
    if s == CliScenario::ProposalAdaptor {
        exists|ev: Seq<EventEnvelope>| #[trigger] adaptor_run_events(ev) && text
            == artifact_export(scenario_artifact(s, ev), format)
    } else {
        text == artifact_export(scenario_artifact(s, scenario_events(s)), format)
    }
}

/// The export of an artifact in a format.
pub open spec fn artifact_export(a: CausalArtifactView, format: ArtifactFormat) -> Seq<char> {
    match format {
        ArtifactFormat::Text => artifact_text(a),
        ArtifactFormat::Lines => artifact_lines(a),
    }
}

/// Runs the scenario a command-line name names and exports its causal artifact, marked as
/// replay-verified, in the given format.
pub fn export_cli_artifact(name: &str, format: ArtifactFormat) -> (r: Result<String, CliError>)
    ensures
        match scenario_named(name@) {
            None => r matches Err(CliError::UnsupportedScenario(n)) && n@ == name@,
            Some(s) => r matches Ok(text) && export_is(s, format, text@),
        },
{
    let scenario = CliScenario::parse(name)?;
    let run = match run_scenario(scenario) {
        Ok(run) => run,
        Err(error) => {
            return Err(
                CliError::ArtifactExportFailed {
                    scenario: String::from_str(scenario.name()),
                    reason: error.message(),
                },
            );
        },
    };
    let artifact = build_causal_artifact(scenario.name(), run.events.as_slice(), true);
    proof {
        if scenario == CliScenario::ProposalAdaptor {
            assert(adaptor_run_events(run.events@));
        }
    }
    let output = match format {
        ArtifactFormat::Text => export_artifact_text(&artifact),
        ArtifactFormat::Lines => export_artifact_lines(&artifact),
    };
    Ok(output)
}

/// The summary text `run-scenario` prints for a scenario that runs to its known end.
pub open spec fn expected_summary_text(s: CliScenario) -> Seq<char> {
    "scenario: "@ + scenario_name_text(s) + "\nstatus: ok\nreplay_verified: "@ + bool_text(true)
        + "\nevents: "@ + dec(scenario_event_count(s)) + "\nfinal_tick: "@ + dec(
        scenario_final_world(s).tick.0 as nat,
    ) + "\nobjective_satisfied: "@ + bool_text(true) + "\n"@
}

/// The usage message for a command line that names no known command.
pub open spec fn usage_text() -> Seq<char> {
    "expected list-scenarios, run-scenario <scenario-name>, or export-artifact <scenario-name> <format>"@
}

/// Whether the command-line words are `list-scenarios`, `run-scenario NAME` or
/// `export-artifact NAME FORMAT`.
pub open spec fn is_known_command(words: Seq<Seq<char>>) -> bool {
    ||| words.len() == 1 && words[0] == "list-scenarios"@
    ||| words.len() == 2 && words[0] == "run-scenario"@
    ||| words.len() == 3 && words[0] == "export-artifact"@
}

/// Runs a command line (without the program name) and returns what it prints, or why it
/// failed.
pub fn run_cli(args: &[&str]) -> (r: Result<String, CliError>)
    ensures
        ({
            let words = args@.map_values(|a: &str| a@);
            &&& words.len() == 0 ==> (r matches Err(CliError::InvalidUsage(m)) && m@
                == "missing command"@)
            &&& (words.len() > 0 && !is_known_command(words)) ==> (r matches Err(
                CliError::InvalidUsage(m),
            ) && m@ == usage_text())
            &&& (words.len() == 1 && words[0] == "list-scenarios"@) ==> (r matches Ok(t) && t@
                == scenario_list_text(scenario_names()))
            &&& (words.len() == 2 && words[0] == "run-scenario"@) ==> match scenario_named(
                words[1],
            ) {
                None => r matches Err(CliError::UnsupportedScenario(n)) && n@ == words[1],
                Some(s) => r matches Ok(t) && t@ == expected_summary_text(s),
            }
            &&& (words.len() == 3 && words[0] == "export-artifact"@) ==> match format_named(
                words[2],
            ) {
                None => r matches Err(CliError::UnsupportedArtifactFormat(v)) && v@ == words[2],
                Some(f) => match scenario_named(words[1]) {
                    None => r matches Err(CliError::UnsupportedScenario(n)) && n@ == words[1],
                    Some(s) => r matches Ok(t) && export_is(s, f, t@),
                },
            }
        }),
{
    let ghost words = args@.map_values(|a: &str| a@);
    proof {
        reveal_strlit("list-scenarios");
        reveal_strlit("run-scenario");
        reveal_strlit("export-artifact");
    }
    if args.len() == 0 {
        return Err(CliError::InvalidUsage("missing command"));
    }
    assert(words[0] == args@[0]@);
    if args.len() == 1 && same_str(args[0], "list-scenarios") {
        let names = list_scenarios();
        let out = render_scenario_list(names.as_slice());
        return Ok(out);
    }
    if args.len() == 2 && same_str(args[0], "run-scenario") {
        assert(words[1] == args@[1]@);
        let summary = run_cli_scenario(args[1])?;
        let out = render_scenario_summary(&summary);
        return Ok(out);
    }
    if args.len() == 3 && same_str(args[0], "export-artifact") {
        assert(words[1] == args@[1]@);
        assert(words[2] == args@[2]@);
        let format = ArtifactFormat::parse(args[2])?;
        let output = export_cli_artifact(args[1], format)?;
        return Ok(render_artifact_export(output.as_str()));
    }
    Err(
        CliError::InvalidUsage(
            "expected list-scenarios, run-scenario <scenario-name>, or export-artifact <scenario-name> <format>",
        ),
    )
}

} // verus!
