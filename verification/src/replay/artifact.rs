use vstd::prelude::*;
use vstd::string::StringExecFns;

use crate::replay::causal_export::{escape_field, graph_lines, graph_text, push_escaped_field, push_graph_lines, push_graph_text};
use crate::replay::causal_graph::{build_causal_graph, spec_build_graph, CausalGraph, CausalGraphView};
use crate::replay::event_log::EventEnvelope;
use crate::replay::replay::spec_replay;
use crate::replay::scenario::{
    adaptor_run_events, lemma_scenario_event_counts, run_proposal_adaptor, run_scheduled_mining, scheduled_mining_events,
    ScenarioError,
};
use crate::replay::verification::verify_replay;
use crate::text::{bool_text, dec, push_bool, push_u64};

verus! {

/// A causal graph together with what it was made from: the scenario's name, whether replay
/// was verified, and the number of events.
#[derive(Clone, Debug, PartialEq, Eq)]
pub struct CausalArtifact {
    pub scenario_name: String,
    pub replay_verified: bool,
    pub event_count: usize,
    pub graph: CausalGraph,
}

/// Builds the artifact of an event sequence.
pub fn build_causal_artifact(scenario_name: &str, events: &[EventEnvelope], replay_verified: bool) -> (r:
    CausalArtifact)
    requires
        events@.len() + 3 < u64::MAX,
    ensures
        r.scenario_name@ == scenario_name@,
        r.replay_verified == replay_verified,
        r.event_count == events@.len(),
        r.graph@ == spec_build_graph(events@, replay_verified),
{
    CausalArtifact {
        scenario_name: String::from_str(scenario_name),
        replay_verified,
        event_count: events.len(),
        graph: build_causal_graph(events, replay_verified),
    }
}

/// The artifact of the scheduled mining scenario, whose replay is verified first. It is
/// always built.
pub fn scheduled_mining_causal_artifact() -> (r: Result<CausalArtifact, ScenarioError>)
    ensures
        r matches Ok(a) && {
            &&& a.scenario_name@ == "scheduled-mining"@
            &&& a.replay_verified
            &&& a.event_count == scheduled_mining_events().len()
            &&& a.graph@ == spec_build_graph(scheduled_mining_events(), true)
        },
{
    proof {
        lemma_scenario_event_counts();
    }
    let run = run_scheduled_mining()?;
    match verify_replay(&run.initial_state, run.events.as_slice(), &run.final_state) {
        Ok(()) => {},
        Err(e) => return Err(ScenarioError::ReplayFailed(e)),
    }
    Ok(build_causal_artifact("scheduled-mining", run.events.as_slice(), true))
}

/// The artifact of the proposal adaptor scenario, whose replay is verified first. It is
/// always built.
pub fn proposal_adaptor_causal_artifact() -> (r: Result<CausalArtifact, ScenarioError>)
    ensures
        r matches Ok(a) && {
            &&& a.scenario_name@ == "proposal-adaptor"@
            &&& a.replay_verified
            &&& a.event_count == 19
            &&& exists|ev: Seq<EventEnvelope>| #[trigger] adaptor_run_events(ev) && a.graph@
                == spec_build_graph(ev, true)
        },
{
    let run = run_proposal_adaptor()?;
    assert(adaptor_run_events(run.events@));
    match verify_replay(&run.initial_state, run.events.as_slice(), &run.final_state) {
        Ok(()) => {},
        Err(e) => return Err(ScenarioError::ReplayFailed(e)),
    }
    Ok(build_causal_artifact("proposal-adaptor", run.events.as_slice(), true))
}

/// The mathematical value of an artifact.
pub struct CausalArtifactView {
    pub scenario_name: Seq<char>,
    pub replay_verified: bool,
    pub event_count: nat,
    pub graph: CausalGraphView,
}

impl View for CausalArtifact {
    type V = CausalArtifactView;

    open spec fn view(&self) -> CausalArtifactView {
        CausalArtifactView {
            scenario_name: self.scenario_name@,
            replay_verified: self.replay_verified,
            event_count: self.event_count as nat,
            graph: self.graph@,
        }
    }
}

/// The human-readable export of an artifact: its metadata, then the text format of its
/// graph.
pub open spec fn artifact_text(a: CausalArtifactView) -> Seq<char> {
    "# Causal Artifact\n\nScenario: "@ + a.scenario_name + "\nReplay verified: "@ + bool_text(
        a.replay_verified,
    ) + "\nEvent count: "@ + dec(a.event_count) + "\nNode count: "@ + dec(a.graph.nodes.len())
        + "\nEdge count: "@ + dec(a.graph.edges.len()) + "\n\n"@ + graph_text(a.graph)
}

/// The line-based export of an artifact: one line per metadata field, then the line format
/// of its graph.
pub open spec fn artifact_lines(a: CausalArtifactView) -> Seq<char> {
    "artifact|scenario|"@ + escape_field(a.scenario_name) + "\nartifact|replay_verified|"@
        + bool_text(a.replay_verified) + "\nartifact|event_count|"@ + dec(a.event_count)
        + "\nartifact|node_count|"@ + dec(a.graph.nodes.len()) + "\nartifact|edge_count|"@ + dec(
        a.graph.edges.len(),
    ) + "\n"@ + graph_lines(a.graph)
}

/// The human-readable export of an artifact.
pub fn export_artifact_text(artifact: &CausalArtifact) -> (r: String)
    ensures
        r@ == artifact_text(artifact@),
{
    let mut out = String::new();
    out.append("# Causal Artifact\n\nScenario: ");
    out.append(artifact.scenario_name.as_str());
    out.append("\nReplay verified: ");
    push_bool(&mut out, artifact.replay_verified);
    out.append("\nEvent count: ");
    push_u64(&mut out, artifact.event_count as u64);
    out.append("\nNode count: ");
    push_u64(&mut out, artifact.graph.nodes.len() as u64);
    out.append("\nEdge count: ");
    push_u64(&mut out, artifact.graph.edges.len() as u64);
    out.append("\n\n");
    push_graph_text(&mut out, &artifact.graph);
    assert(out@ =~= artifact_text(artifact@));
    out
}

/// The line-based export of an artifact.
pub fn export_artifact_lines(artifact: &CausalArtifact) -> (r: String)
    ensures
        r@ == artifact_lines(artifact@),
{
    let mut out = String::new();
    out.append("artifact|scenario|");
    push_escaped_field(&mut out, artifact.scenario_name.as_str());
    out.append("\nartifact|replay_verified|");
    push_bool(&mut out, artifact.replay_verified);
    out.append("\nartifact|event_count|");
    push_u64(&mut out, artifact.event_count as u64);
    out.append("\nartifact|node_count|");
    push_u64(&mut out, artifact.graph.nodes.len() as u64);
    out.append("\nartifact|edge_count|");
    push_u64(&mut out, artifact.graph.edges.len() as u64);
    out.append("\n");
    push_graph_lines(&mut out, &artifact.graph);
    assert(out@ =~= artifact_lines(artifact@));
    out
}

} // verus!
