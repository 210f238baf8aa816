use vstd::prelude::*;
use vstd::string::StringExecFns;

use crate::cli::commands::{cli_error_text, CliError, CliScenarioSummary};
use crate::text::{bool_text, dec, push_bool, push_u64};

verus! {

/// The listing lines of scenario names: one `- name` line each.
pub open spec fn list_lines(names: Seq<Seq<char>>) -> Seq<char>
    decreases names.len(),
{
    if names.len() == 0 {
        Seq::empty()
    } else {
        list_lines(names.drop_last()) + "- "@ + names.last() + "\n"@
    }
}

/// The scenario listing: a heading, then one line per name.
pub open spec fn scenario_list_text(names: Seq<Seq<char>>) -> Seq<char> {
    "supported_scenarios:\n"@ + list_lines(names)
}

/// Renders the scenario listing.
pub fn render_scenario_list(scenarios: &[&str]) -> (r: String)
    ensures
        r@ == scenario_list_text(scenarios@.map_values(|s: &str| s@)),
{
    let ghost names = scenarios@.map_values(|s: &str| s@);
    let mut out = String::from_str("supported_scenarios:\n");
    let n = scenarios.len();
    let mut i: usize = 0;
    while i < n
        invariant
            n == scenarios@.len(),
            names == scenarios@.map_values(|s: &str| s@),
            0 <= i <= n,
            out@ == "supported_scenarios:\n"@ + list_lines(names.subrange(0, i as int)),
        decreases n - i,
    {
        out.append("- ");
        out.append(scenarios[i]);
        out.append("\n");
        proof {
            assert(names.subrange(0, i + 1).drop_last() =~= names.subrange(0, i as int));
            assert(names.subrange(0, i + 1).last() == scenarios@[i as int]@);
        }
        i = i + 1;
        assert(out@ =~= "supported_scenarios:\n"@ + list_lines(names.subrange(0, i as int)));
    }
    assert(names.subrange(0, n as int) =~= names);
    out
}

/// The summary text of a finished scenario.
pub open spec fn summary_text(s: CliScenarioSummary) -> Seq<char> {
    "scenario: "@ + s.scenario_name@ + "\nstatus: ok\nreplay_verified: "@ + bool_text(
        s.replay_verified,
    ) + "\nevents: "@ + dec(s.event_count as nat) + "\nfinal_tick: "@ + dec(s.final_tick.0 as nat)
        + "\nobjective_satisfied: "@ + bool_text(s.objective_satisfied) + "\n"@
}

/// Renders the summary of a finished scenario.
pub fn render_scenario_summary(summary: &CliScenarioSummary) -> (r: String)
    ensures
        r@ == summary_text(*summary),
{
    let mut out = String::from_str("scenario: ");
    out.append(summary.scenario_name);
    out.append("\nstatus: ok\nreplay_verified: ");
    push_bool(&mut out, summary.replay_verified);
    out.append("\nevents: ");
    push_u64(&mut out, summary.event_count as u64);
    out.append("\nfinal_tick: ");
    push_u64(&mut out, summary.final_tick.0);
    out.append("\nobjective_satisfied: ");
    push_bool(&mut out, summary.objective_satisfied);
    out.append("\n");
    assert(out@ =~= summary_text(*summary));
    out
}

/// Renders an exported artifact as it is.
pub fn render_artifact_export(artifact: &str) -> (r: String)
    ensures
        r@ == artifact@,
{
    String::from_str(artifact)
}

/// Renders an error: `error: ` and its message.
pub fn render_error(error: &CliError) -> (r: String)
    ensures
        r@ == "error: "@ + cli_error_text(*error),
{
    let mut out = String::from_str("error: ");
    error.push_message(&mut out);
    out
}

} // verus!
