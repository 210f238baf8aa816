use vstd::prelude::*;
use vstd::string::StringExecFns;

use crate::primitives::error::{sim_error_text, SimError};
use crate::primitives::ids::{
    AssignmentId, DecisionId, ObjectiveId, ResourceNodeId, StorageId, TaskId, WorkerId,
};
use crate::primitives::position::Position;
use crate::primitives::quantity::Quantity;
use crate::primitives::tick::Tick;
use crate::replay::event_log::{
    action_events, envelope, failure_events, parse_validate_and_record_proposal, policy_events,
    policy_outcome, proposal_events_are, record_action_with_context, record_action_with_policy, record_decision_emitted,
    record_objective_accepted, record_scheduled_step, record_task_assigned, record_task_created,
    record_worker_failure, record_worker_recovery, recovery_events, scheduled_events,
    scheduled_outcome, EventEnvelope, EventKind, EventLog, ExecutionError,
    ScheduledExecutionError,
};
use crate::replay::laws::{
    after_action, after_policy, after_scheduled, lemma_action_events_replay,
    lemma_audit_record_replays, lemma_failure_events_replay, lemma_policy_events_replay,
    lemma_proposal_events_replay, lemma_recovery_events_replay, lemma_scheduled_events_replay,
};
use crate::replay::replay::{replay_error_text, spec_replay, ReplayError};
use crate::replay::scenario_world::{
    carried_iron, lemma_bootstrap_world_is_mining_view, lemma_mining_deposit,
    lemma_mining_disable_repair, lemma_mining_mine, lemma_mining_move, lemma_mining_view_entries,
    lemma_mining_view_in_range, mining_view,
};
use crate::replay::verification::verify_replay;
use crate::sim::action::WorkerAction;
use crate::sim::assignment::{ActionContext, Assignment};
use crate::sim::entity::{inventory_get, ResourceKind, WorkerStatus};
use crate::sim::objective::Objective;
use crate::sim::policy::{policy_error_text, ActionPolicy, PolicyError};
use crate::sim::proposal_text::{
    adaptor_proposal, adaptor_proposal_text, adaptor_text, lemma_adaptor_texts_parse,
};
use crate::sim::proposal::{
    accepted_proposal_to_plan, rejection_text, spec_parse_proposal, spec_plan, ParsedProposal,
    ProposalErrorView, ProposalPlan, ProposalPlanIds, ProposalRejection, ProposedObjective,
};
use crate::sim::reducer::spec_apply_action;
use crate::sim::scenario::{
    build_mining_bootstrap_world, mining_bootstrap_actions, mining_bootstrap_actions_spec,
    mining_bootstrap_assignment, mining_bootstrap_assignment_id, mining_bootstrap_assignment_spec,
    mining_bootstrap_decision, mining_bootstrap_decision_spec, mining_bootstrap_expected_final_tick,
    mining_bootstrap_expected_node_iron, mining_bootstrap_expected_storage_iron,
    mining_bootstrap_node_id, mining_bootstrap_objective, mining_bootstrap_objective_spec,
    mining_bootstrap_storage_id, mining_bootstrap_task, mining_bootstrap_task_spec,
    mining_bootstrap_world_view, mining_bootstrap_worker_id, objective_satisfied,
    spec_objective_satisfied, spec_stockpile, stockpile_quantity,
};
use crate::sim::scheduler::{schedule_in_range, spec_schedule_next_action, ScheduleOutcome};
use crate::sim::task::{Decision, Task, TaskKind};
use crate::sim::world::{WorldState, WorldStateView};
use crate::text::{dec, push_u64};

verus! {

/// A finished scenario: the world it started from, the world it ended in, and its events.
#[derive(Debug, PartialEq, Eq)]
pub struct ScenarioRun {
    pub initial_state: WorldState,
    pub final_state: WorldState,
    pub events: Vec<EventEnvelope>,
}

/// Why a scenario did not finish as expected.
#[derive(Debug, PartialEq, Eq)]
pub enum ScenarioError {
    ActionFailed(SimError),
    PolicyFailed(PolicyError),
    ProposalRejected(ProposalRejection),
    ReplayFailed(ReplayError),
    ObjectiveNotSatisfied,
    ExpectedPolicyRejectionMissing,
    ExpectedWorkerMissing(WorkerId),
    ExpectedResourceNodeMissing(ResourceNodeId),
    ExpectedStorageMissing(StorageId),
    WorkerStillCarrying(WorkerId),
    StorageQuantityMismatch { expected: Quantity, actual: Quantity },
    ResourceQuantityMismatch { expected: Quantity, actual: Quantity },
    TickMismatch { expected: Tick, actual: Tick },
}

/// "expected X, actual Y" for two numbers.
pub open spec fn expected_actual_text(expected: u64, actual: u64) -> Seq<char> {
    "expected "@ + dec(expected as nat) + ", actual "@ + dec(actual as nat)
}

/// The human-readable message of a scenario error.
pub open spec fn scenario_error_text(e: ScenarioError) -> Seq<char> {
    match e {
        ScenarioError::ActionFailed(error) => "scenario action failed: "@ + sim_error_text(error),
        ScenarioError::PolicyFailed(error) => "scenario policy check failed: "@ + policy_error_text(
            error,
        ),
        ScenarioError::ProposalRejected(error) => "scenario proposal rejected: "@ + rejection_text(
            error,
        ),
        ScenarioError::ReplayFailed(error) => "scenario replay failed: "@ + replay_error_text(error),
        ScenarioError::ObjectiveNotSatisfied => "scenario objective is not satisfied"@,
        ScenarioError::ExpectedPolicyRejectionMissing =>
            "scenario expected a policy rejection that did not occur"@,
        ScenarioError::ExpectedWorkerMissing(worker_id) => "expected worker missing: "@ + dec(
            worker_id.0 as nat,
        ),
        ScenarioError::ExpectedResourceNodeMissing(node_id) => "expected resource node missing: "@
            + dec(node_id.0 as nat),
        ScenarioError::ExpectedStorageMissing(storage_id) => "expected storage missing: "@ + dec(
            storage_id.0 as nat,
        ),
        ScenarioError::WorkerStillCarrying(worker_id) => "worker "@ + dec(worker_id.0 as nat)
            + " is still carrying resource"@,
        ScenarioError::StorageQuantityMismatch { expected, actual } =>
            "storage quantity mismatch: "@ + expected_actual_text(expected.0, actual.0),
        ScenarioError::ResourceQuantityMismatch { expected, actual } =>
            "resource quantity mismatch: "@ + expected_actual_text(expected.0, actual.0),
        ScenarioError::TickMismatch { expected, actual } => "tick mismatch: "@
            + expected_actual_text(expected.0, actual.0),
    }
}

fn push_expected_actual(out: &mut String, expected: u64, actual: u64)
    ensures
        final(out)@ == old(out)@ + expected_actual_text(expected, actual),
{
    out.append("expected ");
    push_u64(out, expected);
    out.append(", actual ");
    push_u64(out, actual);
    assert(final(out)@ =~= old(out)@ + expected_actual_text(expected, actual));
}

impl ScenarioError {
    /// Appends the message of the error.
    pub fn push_message(&self, out: &mut String)
        ensures
            final(out)@ == old(out)@ + scenario_error_text(*self),
    {
        match self {
            ScenarioError::ActionFailed(error) => {
                out.append("scenario action failed: ");
                error.push_message(out);
            },
            ScenarioError::PolicyFailed(error) => {
                out.append("scenario policy check failed: ");
                error.push_message(out);
            },
            ScenarioError::ProposalRejected(error) => {
                out.append("scenario proposal rejected: ");
                error.push_message(out);
            },
            ScenarioError::ReplayFailed(error) => {
                out.append("scenario replay failed: ");
                error.push_message(out);
            },
            ScenarioError::ObjectiveNotSatisfied => {
                out.append("scenario objective is not satisfied");
            },
            ScenarioError::ExpectedPolicyRejectionMissing => {
                out.append("scenario expected a policy rejection that did not occur");
            },
            ScenarioError::ExpectedWorkerMissing(worker_id) => {
                out.append("expected worker missing: ");
                push_u64(out, worker_id.0);
            },
            ScenarioError::ExpectedResourceNodeMissing(node_id) => {
                out.append("expected resource node missing: ");
                push_u64(out, node_id.0);
            },
            ScenarioError::ExpectedStorageMissing(storage_id) => {
                out.append("expected storage missing: ");
                push_u64(out, storage_id.0);
            },
            ScenarioError::WorkerStillCarrying(worker_id) => {
                out.append("worker ");
                push_u64(out, worker_id.0);
                out.append(" is still carrying resource");
            },
            ScenarioError::StorageQuantityMismatch { expected, actual } => {
                out.append("storage quantity mismatch: ");
                push_expected_actual(out, expected.0, actual.0);
            },
            ScenarioError::ResourceQuantityMismatch { expected, actual } => {
                out.append("resource quantity mismatch: ");
                push_expected_actual(out, expected.0, actual.0);
            },
            ScenarioError::TickMismatch { expected, actual } => {
                out.append("tick mismatch: ");
                push_expected_actual(out, expected.0, actual.0);
            },
        }
        assert(final(out)@ =~= old(out)@ + scenario_error_text(*self));
    }

    /// The message of the error.
    pub fn message(&self) -> (r: String)
        ensures
            r@ == scenario_error_text(*self),
    {
        let mut out = String::new();
        self.push_message(&mut out);
        assert(out@ =~= scenario_error_text(*self));
        out
    }
}

/// The check of a finished mining world: 10 iron in the depot, 90 left in the node, the miner
/// empty-handed (and active, when asked), at the expected tick; the first failed check decides.
pub open spec fn spec_validate_final(
    s: WorldStateView,
    expected_tick: Tick,
    require_active: bool,
) -> Result<(), ScenarioError> {
    match s.depot(StorageId(1)) {
        None => Err(ScenarioError::ExpectedStorageMissing(StorageId(1))),
        Some(depot) => {
            let iron = match inventory_get(depot.inventory, ResourceKind::Iron) {
                Some(q) => q,
                None => Quantity(0),
            };
            if iron != Quantity(10) {
                Err(ScenarioError::StorageQuantityMismatch { expected: Quantity(10), actual: iron })
            } else {
                match s.node(ResourceNodeId(1)) {
                    None => Err(ScenarioError::ExpectedResourceNodeMissing(ResourceNodeId(1))),
                    Some(node) => if node.remaining != Quantity(90) {
                        Err(
                            ScenarioError::ResourceQuantityMismatch {
                                expected: Quantity(90),
                                actual: node.remaining,
                            },
                        )
                    } else {
                        match s.worker(WorkerId(1)) {
                            None => Err(ScenarioError::ExpectedWorkerMissing(WorkerId(1))),
                            Some(w) => if w.carried is Some {
                                Err(ScenarioError::WorkerStillCarrying(WorkerId(1)))
                            } else if require_active && w.status != WorkerStatus::Active {
                                Err(
                                    ScenarioError::ActionFailed(
                                        SimError::WorkerDisabled(WorkerId(1)),
                                    ),
                                )
                            } else if s.tick != expected_tick {
                                Err(
                                    ScenarioError::TickMismatch {
                                        expected: expected_tick,
                                        actual: s.tick,
                                    },
                                )
                            } else {
                                Ok(())
                            },
                        }
                    },
                }
            }
        },
    }
}

fn validate_final(state: &WorldState, expected_tick: Tick, require_active: bool) -> (r: Result<
    (),
    ScenarioError,
>)
    ensures
        r == spec_validate_final(state@, expected_tick, require_active),
{
    let storage_id = mining_bootstrap_storage_id();
    let depot = match state.storage.get(&storage_id) {
        Some(d) => d,
        None => return Err(ScenarioError::ExpectedStorageMissing(storage_id)),
    };
    let storage_iron = match depot.inventory.get(&ResourceKind::Iron) {
        Some(q) => q,
        None => Quantity::zero(),
    };
    let expected_iron = mining_bootstrap_expected_storage_iron();
    if storage_iron != expected_iron {
        return Err(
            ScenarioError::StorageQuantityMismatch { expected: expected_iron, actual: storage_iron },
        );
    }
    let node_id = mining_bootstrap_node_id();
    let node = match state.resource_nodes.get(&node_id) {
        Some(n) => n,
        None => return Err(ScenarioError::ExpectedResourceNodeMissing(node_id)),
    };
    let expected_node = mining_bootstrap_expected_node_iron();
    if node.remaining != expected_node {
        return Err(
            ScenarioError::ResourceQuantityMismatch {
                expected: expected_node,
                actual: node.remaining,
            },
        );
    }
    let worker_id = mining_bootstrap_worker_id();
    let worker = match state.workers.get(&worker_id) {
        Some(w) => w,
        None => return Err(ScenarioError::ExpectedWorkerMissing(worker_id)),
    };
    if worker.carried.is_some() {
        return Err(ScenarioError::WorkerStillCarrying(worker_id));
    }
    if require_active && worker.status != WorkerStatus::Active {
        return Err(ScenarioError::ActionFailed(SimError::WorkerDisabled(worker_id)));
    }
    if state.tick != expected_tick {
        return Err(ScenarioError::TickMismatch { expected: expected_tick, actual: state.tick });
    }
    Ok(())
}

/// Checks the world at the end of the mining bootstrap: finished at tick 4.
pub fn validate_mining_bootstrap_final_state(state: &WorldState) -> (r: Result<(), ScenarioError>)
    ensures
        r == spec_validate_final(state@, Tick(4), false),
{
    validate_final(state, mining_bootstrap_expected_final_tick(), false)
}

/// Checks the world at the end of the policy gate scenario: finished at tick 2.
pub fn validate_policy_gate_final_state(state: &WorldState) -> (r: Result<(), ScenarioError>)
    ensures
        r == spec_validate_final(state@, Tick(2), false),
{
    validate_final(state, Tick::new(2), false)
}

/// Checks the world at the end of the scheduled mining scenario, as for the policy gate.
pub fn validate_scheduled_mining_final_state(state: &WorldState) -> (r: Result<(), ScenarioError>)
    ensures
        r == spec_validate_final(state@, Tick(2), false),
{
    validate_policy_gate_final_state(state)
}

/// Checks the world at the end of the failure and recovery scenario: the miner active again,
/// finished at tick 6.
pub fn validate_worker_failure_recovery_final_state(state: &WorldState) -> (r: Result<
    (),
    ScenarioError,
>)
    ensures
        r == spec_validate_final(state@, Tick(6), true),
{
    validate_final(state, Tick::new(6), true)
}

/// The iron stocked in the depot of the mining scenarios.
pub fn mining_bootstrap_stockpile_quantity(state: &WorldState) -> (r: Quantity)
    ensures
        r == spec_stockpile(state@, StorageId(1), ResourceKind::Iron),
{
    stockpile_quantity(state, mining_bootstrap_storage_id(), ResourceKind::Iron)
}

/// The context of the actions taken for the mining assignment.
pub open spec fn mining_context() -> ActionContext {
    ActionContext { assignment_id: Some(AssignmentId(1)) }
}

/// The planning events recorded after `n` events at `tick`: the objective accepted, the
/// decision emitted, the task created and the task assigned.
pub open spec fn plan_events(
    n: nat,
    tick: Tick,
    objective: Objective,
    decision: Decision,
    task: Task,
    assignment: Assignment,
) -> Seq<EventEnvelope> {
    seq![
        envelope(n, tick, EventKind::ObjectiveAccepted { objective }),
        envelope(n + 1, tick, EventKind::DecisionEmitted { decision }),
        envelope(n + 2, tick, EventKind::TaskCreated { task }),
        envelope(n + 3, tick, EventKind::TaskAssigned { assignment }),
    ]
}

/// The planning events that open the mining scenarios.
pub open spec fn bootstrap_plan_events() -> Seq<EventEnvelope> {
    plan_events(
        0,
        Tick(0),
        mining_bootstrap_objective_spec(),
        mining_bootstrap_decision_spec(),
        mining_bootstrap_task_spec(),
        mining_bootstrap_assignment_spec(),
    )
}

/// The events of the first `count` actions, each taken in the world before it, after `n`
/// events.
pub open spec fn action_run_events(
    worlds: Seq<WorldStateView>,
    actions: Seq<WorkerAction>,
    n: nat,
    context: ActionContext,
    count: nat,
) -> Seq<EventEnvelope>
    decreases count,
{
    if count == 0 {
        Seq::empty()
    } else {
        action_run_events(worlds, actions, n, context, (count - 1) as nat) + action_events(
            worlds[count - 1],
            (n + 2 * (count - 1)) as nat,
            actions[count - 1],
            context,
        )
    }
}

proof fn lemma_action_run_len(
    worlds: Seq<WorldStateView>,
    actions: Seq<WorkerAction>,
    n: nat,
    context: ActionContext,
    count: nat,
)
    ensures
        action_run_events(worlds, actions, n, context, count).len() == 2 * count,
    decreases count,
{
    if count > 0 {
        lemma_action_run_len(worlds, actions, n, context, (count - 1) as nat);
    }
}

/// The worlds the mining bootstrap passes through: start, on the node, mined, back, stocked.
pub open spec fn bootstrap_worlds() -> Seq<WorldStateView> {
    seq![
        mining_view(0, Position { x: 0, y: 0 }, 10, None, WorkerStatus::Active, 100, 0),
        mining_view(1, Position { x: 1, y: 0 }, 9, None, WorkerStatus::Active, 100, 0),
        mining_view(2, Position { x: 1, y: 0 }, 8, carried_iron(10), WorkerStatus::Active, 90, 0),
        mining_view(3, Position { x: 0, y: 0 }, 7, carried_iron(10), WorkerStatus::Active, 90, 0),
        mining_view(4, Position { x: 0, y: 0 }, 6, None, WorkerStatus::Active, 90, 10),
    ]
}

/// The events of the mining bootstrap: the plan, then the four actions of the assignment.
#[verifier::opaque]
pub open spec fn bootstrap_events() -> Seq<EventEnvelope> {
    bootstrap_plan_events() + action_run_events(
        bootstrap_worlds(),
        mining_bootstrap_actions_spec(),
        4,
        mining_context(),
        4,
    )
}

proof fn lemma_bootstrap_steps()
    ensures
        forall|i: int|
            0 <= i < 4 ==> #[trigger] spec_apply_action(
                bootstrap_worlds()[i],
                mining_bootstrap_actions_spec()[i],
            ) == Ok::<WorldStateView, SimError>(bootstrap_worlds()[i + 1]),
{
    let w = bootstrap_worlds();
    let a = mining_bootstrap_actions_spec();
    lemma_mining_move(0, Position { x: 0, y: 0 }, 10, None, 100, 0, Position { x: 1, y: 0 });
    lemma_mining_mine(1, Position { x: 1, y: 0 }, 9, 100, 0, 10);
    lemma_mining_move(2, Position { x: 1, y: 0 }, 8, carried_iron(10), 90, 0, Position { x: 0, y: 0 });
    lemma_mining_deposit(3, Position { x: 0, y: 0 }, 7, 90, 0, 10);
    assert(spec_apply_action(w[0], a[0]) == Ok::<WorldStateView, SimError>(w[1]));
    assert(spec_apply_action(w[1], a[1]) == Ok::<WorldStateView, SimError>(w[2]));
    assert(spec_apply_action(w[2], a[2]) == Ok::<WorldStateView, SimError>(w[3]));
    assert(spec_apply_action(w[3], a[3]) == Ok::<WorldStateView, SimError>(w[4]));
}

/// The run holds the given worlds and events, and its events replay from its first world to
/// its last.
pub open spec fn run_is(
    run: ScenarioRun,
    initial: WorldStateView,
    last: WorldStateView,
    events: Seq<EventEnvelope>,
) -> bool {
    &&& run.initial_state@ == initial
    &&& run.final_state@ == last
    &&& run.events@ == events
    &&& spec_replay(initial, events) == Ok::<WorldStateView, ReplayError>(last)
}

fn copy_events(events: &[EventEnvelope]) -> (r: Vec<EventEnvelope>)
    ensures
        r@ == events@,
{
    let mut out: Vec<EventEnvelope> = Vec::new();
    let mut i: usize = 0;
    while i < events.len()
        invariant
            0 <= i <= events@.len(),
            out@ == events@.subrange(0, i as int),
        decreases events@.len() - i,
    {
        out.push(events[i].duplicate());
        i = i + 1;
        assert(out@ =~= events@.subrange(0, i as int));
    }
    assert(events@.subrange(0, events@.len() as int) =~= events@);
    out
}

fn record_plan(
    log: &mut EventLog,
    tick: Tick,
    objective: Objective,
    decision: Decision,
    task: Task,
    assignment: Assignment,
    Ghost(s0): Ghost<WorldStateView>,
    Ghost(s): Ghost<WorldStateView>,
)
    requires
        old(log)@.len() + 6 < u64::MAX,
        s.tick == tick,
        spec_replay(s0, old(log)@) == Ok::<WorldStateView, ReplayError>(s),
    ensures
        final(log)@ == old(log)@ + plan_events(
            old(log)@.len(),
            tick,
            objective,
            decision,
            task,
            assignment,
        ),
        spec_replay(s0, final(log)@) == Ok::<WorldStateView, ReplayError>(s),
{
    let ghost before = log@;
    log.witness_numbering();
    let ghost l0 = log@;
    record_objective_accepted(log, tick, objective);
    proof {
        lemma_audit_record_replays(s0, l0, s, EventKind::ObjectiveAccepted { objective });
    }
    log.witness_numbering();
    let ghost l1 = log@;
    record_decision_emitted(log, tick, decision);
    proof {
        lemma_audit_record_replays(s0, l1, s, EventKind::DecisionEmitted { decision });
    }
    log.witness_numbering();
    let ghost l2 = log@;
    record_task_created(log, tick, task);
    proof {
        lemma_audit_record_replays(s0, l2, s, EventKind::TaskCreated { task });
    }
    log.witness_numbering();
    let ghost l3 = log@;
    record_task_assigned(log, tick, assignment);
    proof {
        lemma_audit_record_replays(s0, l3, s, EventKind::TaskAssigned { assignment });
    }
    assert(log@ =~= before + plan_events(before.len(), tick, objective, decision, task, assignment));
}

fn record_step(
    state: &WorldState,
    log: &mut EventLog,
    action: WorkerAction,
    Ghost(s0): Ghost<WorldStateView>,
) -> (r: Result<WorldState, ScenarioError>)
    requires
        old(log)@.len() + 4 < u64::MAX,
        spec_replay(s0, old(log)@) == Ok::<WorldStateView, ReplayError>(state@),
    ensures
        final(log)@ == old(log)@ + action_events(state@, old(log)@.len(), action, mining_context()),
        spec_replay(s0, final(log)@) == Ok::<WorldStateView, ReplayError>(
            after_action(state@, action),
        ),
        match spec_apply_action(state@, action) {
            Ok(next) => r matches Ok(n) && n@ == next,
            Err(e) => r == Err::<WorldState, ScenarioError>(ScenarioError::ActionFailed(e)),
        },
{
    log.witness_numbering();
    let ghost before = log@;
    let r = record_action_with_context(state, log, action, Some(mining_bootstrap_assignment_id()));
    proof {
        lemma_action_events_replay(s0, before, state@, action, mining_context());
    }
    match r {
        Ok(next) => Ok(next),
        Err(error) => Err(ScenarioError::ActionFailed(error)),
    }
}

/// Runs the mining bootstrap: the plan for the stockpile objective, then the miner steps onto
/// the node, mines 10 iron, steps back and deposits it. The run always succeeds; its final
/// world passes its check and meets the objective, and its events replay to it.
pub fn run_mining_bootstrap() -> (r: Result<ScenarioRun, ScenarioError>)
    ensures
        r matches Ok(run) && run_is(
            run,
            mining_bootstrap_world_view(),
            bootstrap_worlds()[4],
            bootstrap_events(),
        ),
        spec_validate_final(bootstrap_worlds()[4], Tick(4), false) is Ok,
        spec_objective_satisfied(
            bootstrap_worlds()[4],
            mining_bootstrap_objective_spec(),
            StorageId(1),
        ),
{
    let initial_state = build_mining_bootstrap_world();
    let objective = mining_bootstrap_objective();
    let mut final_state = initial_state.duplicate();
    let mut log = EventLog::new();
    proof {
        lemma_bootstrap_world_is_mining_view();
        lemma_bootstrap_steps();
        assert(spec_replay(initial_state@, log@) == Ok::<WorldStateView, ReplayError>(
            initial_state@,
        ));
    }
    record_plan(
        &mut log,
        initial_state.tick,
        objective,
        mining_bootstrap_decision(),
        mining_bootstrap_task(),
        mining_bootstrap_assignment(),
        Ghost(initial_state@),
        Ghost(initial_state@),
    );
    let actions = mining_bootstrap_actions();
    let mut i: usize = 0;
    proof {
        assert(action_run_events(
            bootstrap_worlds(),
            mining_bootstrap_actions_spec(),
            4,
            mining_context(),
            0,
        ) =~= Seq::<EventEnvelope>::empty());
        assert(log@ =~= bootstrap_plan_events() + action_run_events(
            bootstrap_worlds(),
            mining_bootstrap_actions_spec(),
            4,
            mining_context(),
            0,
        ));
    }
    while i < actions.len()
        invariant
            actions@ == mining_bootstrap_actions_spec(),
            0 <= i <= 4,
            initial_state@ == mining_bootstrap_world_view(),
            final_state@ == bootstrap_worlds()[i as int],
            log@ == bootstrap_plan_events() + action_run_events(
                bootstrap_worlds(),
                mining_bootstrap_actions_spec(),
                4,
                mining_context(),
                i as nat,
            ),
            spec_replay(initial_state@, log@) == Ok::<WorldStateView, ReplayError>(final_state@),
            forall|k: int|
                0 <= k < 4 ==> #[trigger] spec_apply_action(
                    bootstrap_worlds()[k],
                    mining_bootstrap_actions_spec()[k],
                ) == Ok::<WorldStateView, SimError>(bootstrap_worlds()[k + 1]),
        decreases 4 - i,
    {
        proof {
            lemma_action_run_len(
                bootstrap_worlds(),
                mining_bootstrap_actions_spec(),
                4,
                mining_context(),
                i as nat,
            );
        }
        let ghost before = log@;
        let next = match record_step(&final_state, &mut log, actions[i], Ghost(initial_state@)) {
            Ok(n) => n,
            Err(e) => return Err(e),
        };
        final_state = next;
        i = i + 1;
        proof {
            assert(log@ =~= bootstrap_plan_events() + action_run_events(
                bootstrap_worlds(),
                mining_bootstrap_actions_spec(),
                4,
                mining_context(),
                i as nat,
            ));
        }
    }
    proof {
        lemma_mining_view_entries(4, Position { x: 0, y: 0 }, 6, None, WorkerStatus::Active, 90, 10);
        reveal(bootstrap_events);
    }
    validate_mining_bootstrap_final_state(&final_state)?;
    if !objective_satisfied(&final_state, &objective, mining_bootstrap_storage_id()) {
        return Err(ScenarioError::ObjectiveNotSatisfied);
    }
    match verify_replay(&initial_state, log.events(), &final_state) {
        Ok(()) => {},
        Err(e) => return Err(ScenarioError::ReplayFailed(e)),
    }
    let events = copy_events(log.events());
    Ok(ScenarioRun { initial_state, final_state, events })
}

fn record_failure_step(
    state: &WorldState,
    log: &mut EventLog,
    Ghost(s0): Ghost<WorldStateView>,
) -> (r: Result<WorldState, ScenarioError>)
    requires
        old(log)@.len() + 5 < u64::MAX,
        spec_replay(s0, old(log)@) == Ok::<WorldStateView, ReplayError>(state@),
    ensures
        final(log)@ == old(log)@ + failure_events(
            state@,
            old(log)@.len(),
            WorkerId(1),
            mining_context(),
        ),
        spec_replay(s0, final(log)@) == Ok::<WorldStateView, ReplayError>(
            after_action(state@, WorkerAction::DisableWorker { worker_id: WorkerId(1) }),
        ),
        match spec_apply_action(state@, WorkerAction::DisableWorker { worker_id: WorkerId(1) }) {
            Ok(next) => r matches Ok(n) && n@ == next,
            Err(e) => r == Err::<WorldState, ScenarioError>(ScenarioError::ActionFailed(e)),
        },
{
    log.witness_numbering();
    let ghost before = log@;
    let r = record_worker_failure(
        state,
        log,
        mining_bootstrap_worker_id(),
        Some(mining_bootstrap_assignment_id()),
    );
    proof {
        lemma_failure_events_replay(s0, before, state@, WorkerId(1), mining_context());
    }
    match r {
        Ok(next) => Ok(next),
        Err(error) => Err(ScenarioError::ActionFailed(error)),
    }
}

fn record_recovery_step(
    state: &WorldState,
    log: &mut EventLog,
    Ghost(s0): Ghost<WorldStateView>,
) -> (r: Result<WorldState, ScenarioError>)
    requires
        old(log)@.len() + 5 < u64::MAX,
        spec_replay(s0, old(log)@) == Ok::<WorldStateView, ReplayError>(state@),
    ensures
        final(log)@ == old(log)@ + recovery_events(
            state@,
            old(log)@.len(),
            WorkerId(1),
            mining_context(),
        ),
        spec_replay(s0, final(log)@) == Ok::<WorldStateView, ReplayError>(
            after_action(state@, WorkerAction::RepairWorker { worker_id: WorkerId(1) }),
        ),
        match spec_apply_action(state@, WorkerAction::RepairWorker { worker_id: WorkerId(1) }) {
            Ok(next) => r matches Ok(n) && n@ == next,
            Err(e) => r == Err::<WorldState, ScenarioError>(ScenarioError::ActionFailed(e)),
        },
{
    log.witness_numbering();
    let ghost before = log@;
    let r = record_worker_recovery(
        state,
        log,
        mining_bootstrap_worker_id(),
        Some(mining_bootstrap_assignment_id()),
    );
    proof {
        lemma_recovery_events_replay(s0, before, state@, WorkerId(1), mining_context());
    }
    match r {
        Ok(next) => Ok(next),
        Err(error) => Err(ScenarioError::ActionFailed(error)),
    }
}

/// The miner's move to `to`.
pub open spec fn move_to(x: i32, y: i32) -> WorkerAction {
    WorkerAction::Move { worker_id: WorkerId(1), to: Position { x, y } }
}

/// The miner's mining of `quantity` iron from the node.
pub open spec fn mine_iron(quantity: u64) -> WorkerAction {
    WorkerAction::Mine {
        worker_id: WorkerId(1),
        node_id: ResourceNodeId(1),
        quantity: Quantity(quantity),
    }
}

/// The miner's deposit at the depot.
pub open spec fn deposit_iron() -> WorkerAction {
    WorkerAction::Deposit { worker_id: WorkerId(1), storage_id: StorageId(1) }
}

/// The worlds of the failure and recovery scenario: start, on the node, disabled, repaired,
/// mined, back, stocked.
pub open spec fn failure_worlds() -> Seq<WorldStateView> {
    seq![
        mining_view(0, Position { x: 0, y: 0 }, 10, None, WorkerStatus::Active, 100, 0),
        mining_view(1, Position { x: 1, y: 0 }, 9, None, WorkerStatus::Active, 100, 0),
        mining_view(2, Position { x: 1, y: 0 }, 9, None, WorkerStatus::Disabled, 100, 0),
        mining_view(3, Position { x: 1, y: 0 }, 9, None, WorkerStatus::Active, 100, 0),
        mining_view(4, Position { x: 1, y: 0 }, 8, carried_iron(10), WorkerStatus::Active, 90, 0),
        mining_view(5, Position { x: 0, y: 0 }, 7, carried_iron(10), WorkerStatus::Active, 90, 0),
        mining_view(6, Position { x: 0, y: 0 }, 6, None, WorkerStatus::Active, 90, 10),
    ]
}

/// The events of the failure and recovery scenario: the plan; a step onto the node; the
/// injected failure; a refused mining attempt; the recovery; then mining, stepping back and
/// depositing.
#[verifier::opaque]
pub open spec fn failure_recovery_events() -> Seq<EventEnvelope> {
    let w = failure_worlds();
    let c = mining_context();
    bootstrap_plan_events() + action_events(w[0], 4, move_to(1, 0), c) + failure_events(
        w[1],
        6,
        WorkerId(1),
        c,
    ) + action_events(w[2], 9, mine_iron(10), c) + recovery_events(w[2], 11, WorkerId(1), c)
        + action_events(w[3], 14, mine_iron(10), c) + action_events(w[4], 16, move_to(0, 0), c)
        + action_events(w[5], 18, deposit_iron(), c)
}

/// Runs the failure and recovery scenario: after the plan, the miner steps onto the node and
/// fails; a mining attempt is refused because the miner is disabled; the miner is repaired,
/// then mines, steps back and deposits. The run always succeeds; its final world passes its
/// check and meets the objective, and its events replay to it.
pub fn run_worker_failure_recovery() -> (r: Result<ScenarioRun, ScenarioError>)
    ensures
        r matches Ok(run) && run_is(
            run,
            mining_bootstrap_world_view(),
            failure_worlds()[6],
            failure_recovery_events(),
        ),
        spec_validate_final(failure_worlds()[6], Tick(6), true) is Ok,
        spec_objective_satisfied(
            failure_worlds()[6],
            mining_bootstrap_objective_spec(),
            StorageId(1),
        ),
{
    let initial_state = build_mining_bootstrap_world();
    let objective = mining_bootstrap_objective();
    let mut final_state = initial_state.duplicate();
    let mut log = EventLog::new();
    let ghost s0 = initial_state@;
    let ghost w = failure_worlds();
    let ghost c = mining_context();
    proof {
        lemma_bootstrap_world_is_mining_view();
        assert(spec_replay(s0, log@) == Ok::<WorldStateView, ReplayError>(s0));
    }
    record_plan(
        &mut log,
        initial_state.tick,
        objective,
        mining_bootstrap_decision(),
        mining_bootstrap_task(),
        mining_bootstrap_assignment(),
        Ghost(s0),
        Ghost(s0),
    );
    let worker_id = mining_bootstrap_worker_id();
    proof {
        lemma_mining_move(0, Position { x: 0, y: 0 }, 10, None, 100, 0, Position { x: 1, y: 0 });
    }
    final_state = record_step(
        &final_state,
        &mut log,
        WorkerAction::Move { worker_id, to: Position::new(1, 0) },
        Ghost(s0),
    )?;
    proof {
        lemma_mining_disable_repair(1, Position { x: 1, y: 0 }, 9, None, 100, 0);
    }
    final_state = record_failure_step(&final_state, &mut log, Ghost(s0))?;
    let mine = WorkerAction::Mine {
        worker_id,
        node_id: mining_bootstrap_node_id(),
        quantity: mining_bootstrap_expected_storage_iron(),
    };
    proof {
        lemma_mining_disable_repair(2, Position { x: 1, y: 0 }, 9, None, 100, 0);
        assert(spec_apply_action(w[2], mine) == Err::<WorldStateView, SimError>(
            SimError::WorkerDisabled(WorkerId(1)),
        ));
    }
    match record_step(&final_state, &mut log, mine, Ghost(s0)) {
        Err(ScenarioError::ActionFailed(SimError::WorkerDisabled(id))) if id == worker_id => {},
        Err(error) => return Err(error),
        Ok(_) => {
            return Err(
                ScenarioError::ActionFailed(
                    SimError::InvalidAction("disabled worker action unexpectedly succeeded"),
                ),
            );
        },
    }
    final_state = record_recovery_step(&final_state, &mut log, Ghost(s0))?;
    proof {
        lemma_mining_mine(3, Position { x: 1, y: 0 }, 9, 100, 0, 10);
    }
    final_state = record_step(&final_state, &mut log, mine, Ghost(s0))?;
    proof {
        lemma_mining_move(4, Position { x: 1, y: 0 }, 8, carried_iron(10), 90, 0, Position { x: 0, y: 0 });
    }
    final_state = record_step(
        &final_state,
        &mut log,
        WorkerAction::Move { worker_id, to: Position::new(0, 0) },
        Ghost(s0),
    )?;
    proof {
        lemma_mining_deposit(5, Position { x: 0, y: 0 }, 7, 90, 0, 10);
    }
    final_state = record_step(
        &final_state,
        &mut log,
        WorkerAction::Deposit { worker_id, storage_id: mining_bootstrap_storage_id() },
        Ghost(s0),
    )?;
    proof {
        lemma_mining_view_entries(6, Position { x: 0, y: 0 }, 6, None, WorkerStatus::Active, 90, 10);
        reveal(failure_recovery_events);
        assert(log@ =~= failure_recovery_events());
    }
    validate_worker_failure_recovery_final_state(&final_state)?;
    if !objective_satisfied(&final_state, &objective, mining_bootstrap_storage_id()) {
        return Err(ScenarioError::ObjectiveNotSatisfied);
    }
    match verify_replay(&initial_state, log.events(), &final_state) {
        Ok(()) => {},
        Err(e) => return Err(ScenarioError::ReplayFailed(e)),
    }
    let events = copy_events(log.events());
    Ok(ScenarioRun { initial_state, final_state, events })
}

/// The policy of the policy-gated mining scenarios: keep one charge in reserve, no disabling
/// or repairing, and mine at most 10 at a time.
pub open spec fn mining_policy() -> ActionPolicy {
    ActionPolicy {
        min_battery_reserve: Some(Quantity(1)),
        allow_disable_worker: false,
        allow_repair_worker: false,
        max_mine_quantity: Some(Quantity(10)),
    }
}

fn policy_gate_policy() -> (r: ActionPolicy)
    ensures
        r == mining_policy(),
{
    ActionPolicy {
        min_battery_reserve: Some(Quantity::one()),
        allow_disable_worker: false,
        allow_repair_worker: false,
        max_mine_quantity: Some(mining_bootstrap_expected_storage_iron()),
    }
}

fn scheduled_mining_policy() -> (r: ActionPolicy)
    ensures
        r == mining_policy(),
{
    ActionPolicy {
        min_battery_reserve: Some(Quantity::one()),
        allow_disable_worker: false,
        allow_repair_worker: false,
        max_mine_quantity: Some(mining_bootstrap_expected_storage_iron()),
    }
}

fn record_policy_step(
    state: &WorldState,
    log: &mut EventLog,
    action: WorkerAction,
    policy: &ActionPolicy,
    Ghost(s0): Ghost<WorldStateView>,
) -> (r: Result<WorldState, ScenarioError>)
    requires
        old(log)@.len() + 5 < u64::MAX,
        spec_replay(s0, old(log)@) == Ok::<WorldStateView, ReplayError>(state@),
    ensures
        final(log)@ == old(log)@ + policy_events(
            state@,
            old(log)@.len(),
            action,
            mining_context(),
            *policy,
        ),
        spec_replay(s0, final(log)@) == Ok::<WorldStateView, ReplayError>(
            after_policy(state@, action, *policy),
        ),
        match policy_outcome(state@, action, *policy) {
            Ok(next) => r matches Ok(n) && n@ == next,
            Err(ExecutionError::Policy(e)) => r == Err::<WorldState, ScenarioError>(
                ScenarioError::PolicyFailed(e),
            ),
            Err(ExecutionError::Sim(e)) => r == Err::<WorldState, ScenarioError>(
                ScenarioError::ActionFailed(e),
            ),
        },
{
    log.witness_numbering();
    let ghost before = log@;
    let r = record_action_with_policy(
        state,
        log,
        action,
        Some(mining_bootstrap_assignment_id()),
        policy,
    );
    proof {
        lemma_policy_events_replay(s0, before, state@, action, mining_context(), *policy);
    }
    match r {
        Ok(next) => Ok(next),
        Err(ExecutionError::Policy(error)) => Err(ScenarioError::PolicyFailed(error)),
        Err(ExecutionError::Sim(error)) => Err(ScenarioError::ActionFailed(error)),
    }
}

/// The worlds of the policy-gated mining scenarios: start, mined in place, stocked.
pub open spec fn gated_worlds() -> Seq<WorldStateView> {
    seq![
        mining_view(0, Position { x: 0, y: 0 }, 10, None, WorkerStatus::Active, 100, 0),
        mining_view(1, Position { x: 0, y: 0 }, 9, carried_iron(10), WorkerStatus::Active, 90, 0),
        mining_view(2, Position { x: 0, y: 0 }, 8, None, WorkerStatus::Active, 90, 10),
    ]
}

proof fn lemma_gated_steps()
    ensures
        spec_apply_action(gated_worlds()[0], mine_iron(10)) == Ok::<WorldStateView, SimError>(
            gated_worlds()[1],
        ),
        spec_apply_action(gated_worlds()[1], deposit_iron()) == Ok::<WorldStateView, SimError>(
            gated_worlds()[2],
        ),
        policy_outcome(gated_worlds()[0], mine_iron(20), mining_policy()) == Err::<
            WorldStateView,
            ExecutionError,
        >(
            ExecutionError::Policy(
                PolicyError::MineQuantityLimitExceeded {
                    requested: Quantity(20),
                    maximum: Quantity(10),
                },
            ),
        ),
        policy_outcome(gated_worlds()[0], mine_iron(10), mining_policy()) == Ok::<
            WorldStateView,
            ExecutionError,
        >(gated_worlds()[1]),
        policy_outcome(gated_worlds()[1], deposit_iron(), mining_policy()) == Ok::<
            WorldStateView,
            ExecutionError,
        >(gated_worlds()[2]),
{
    lemma_mining_view_entries(0, Position { x: 0, y: 0 }, 10, None, WorkerStatus::Active, 100, 0);
    lemma_mining_view_entries(
        1,
        Position { x: 0, y: 0 },
        9,
        carried_iron(10),
        WorkerStatus::Active,
        90,
        0,
    );
    lemma_mining_mine(0, Position { x: 0, y: 0 }, 10, 100, 0, 10);
    lemma_mining_deposit(1, Position { x: 0, y: 0 }, 9, 90, 0, 10);
}

/// The events of the policy gate scenario: the plan; a refused request to mine 20; the
/// accepted mining of 10; the accepted deposit.
#[verifier::opaque]
pub open spec fn policy_gate_events() -> Seq<EventEnvelope> {
    let w = gated_worlds();
    let c = mining_context();
    let p = mining_policy();
    bootstrap_plan_events() + policy_events(w[0], 4, mine_iron(20), c, p) + policy_events(
        w[0],
        5,
        mine_iron(10),
        c,
        p,
    ) + policy_events(w[1], 8, deposit_iron(), c, p)
}

/// Runs the policy gate scenario: after the plan, a request to mine 20 is refused by the
/// policy before it reaches the world; mining 10 and depositing it then pass. The run always
/// succeeds; its final world passes its check and meets the objective, and its events replay
/// to it.
pub fn run_policy_gate() -> (r: Result<ScenarioRun, ScenarioError>)
    ensures
        r matches Ok(run) && run_is(
            run,
            mining_bootstrap_world_view(),
            gated_worlds()[2],
            policy_gate_events(),
        ),
        spec_validate_final(gated_worlds()[2], Tick(2), false) is Ok,
        spec_objective_satisfied(
            gated_worlds()[2],
            mining_bootstrap_objective_spec(),
            StorageId(1),
        ),
{
    let initial_state = build_mining_bootstrap_world();
    let objective = mining_bootstrap_objective();
    let mut final_state = initial_state.duplicate();
    let mut log = EventLog::new();
    let policy = policy_gate_policy();
    let ghost s0 = initial_state@;
    proof {
        lemma_bootstrap_world_is_mining_view();
        lemma_gated_steps();
        assert(spec_replay(s0, log@) == Ok::<WorldStateView, ReplayError>(s0));
    }
    record_plan(
        &mut log,
        initial_state.tick,
        objective,
        mining_bootstrap_decision(),
        mining_bootstrap_task(),
        mining_bootstrap_assignment(),
        Ghost(s0),
        Ghost(s0),
    );
    let worker_id = mining_bootstrap_worker_id();
    let node_id = mining_bootstrap_node_id();
    let rejected_quantity = Quantity::new(20);
    let maximum = mining_bootstrap_expected_storage_iron();
    match record_policy_step(
        &final_state,
        &mut log,
        WorkerAction::Mine { worker_id, node_id, quantity: rejected_quantity },
        &policy,
        Ghost(s0),
    ) {
        Err(
            ScenarioError::PolicyFailed(PolicyError::MineQuantityLimitExceeded { requested, maximum: m }),
        ) if requested == rejected_quantity && m == maximum => {},
        Err(error) => return Err(error),
        Ok(_) => return Err(ScenarioError::ExpectedPolicyRejectionMissing),
    }
    final_state = record_policy_step(
        &final_state,
        &mut log,
        WorkerAction::Mine { worker_id, node_id, quantity: maximum },
        &policy,
        Ghost(s0),
    )?;
    final_state = record_policy_step(
        &final_state,
        &mut log,
        WorkerAction::Deposit { worker_id, storage_id: mining_bootstrap_storage_id() },
        &policy,
        Ghost(s0),
    )?;
    proof {
        lemma_mining_view_entries(2, Position { x: 0, y: 0 }, 8, None, WorkerStatus::Active, 90, 10);
        reveal(policy_gate_events);
        assert(log@ =~= policy_gate_events());
    }
    validate_policy_gate_final_state(&final_state)?;
    if !objective_satisfied(&final_state, &objective, mining_bootstrap_storage_id()) {
        return Err(ScenarioError::ObjectiveNotSatisfied);
    }
    match verify_replay(&initial_state, log.events(), &final_state) {
        Ok(()) => {},
        Err(e) => return Err(ScenarioError::ReplayFailed(e)),
    }
    let events = copy_events(log.events());
    Ok(ScenarioRun { initial_state, final_state, events })
}

/// The deposit task of the scheduled mining scenarios.
pub open spec fn deposit_task_spec() -> Task {
    Task {
        id: TaskId(2),
        objective_id: ObjectiveId(1),
        decision_id: None,
        kind: TaskKind::DepositResource { storage_id: StorageId(1) },
    }
}

/// The deposit assignment of the scheduled mining scenarios.
pub open spec fn deposit_assignment_spec() -> Assignment {
    Assignment { id: AssignmentId(2), task_id: TaskId(2), worker_id: WorkerId(1) }
}

fn scheduled_mining_deposit_task() -> (r: Task)
    ensures
        r == deposit_task_spec(),
{
    Task {
        id: TaskId::new(2),
        objective_id: ObjectiveId::new(1),
        decision_id: None,
        kind: TaskKind::DepositResource { storage_id: mining_bootstrap_storage_id() },
    }
}

fn scheduled_mining_deposit_assignment() -> (r: Assignment)
    ensures
        r == deposit_assignment_spec(),
{
    Assignment {
        id: AssignmentId::new(2),
        task_id: TaskId::new(2),
        worker_id: mining_bootstrap_worker_id(),
    }
}

/// The events recording a new task and its assignment after `n` events at `tick`.
pub open spec fn task_events(n: nat, tick: Tick, task: Task, assignment: Assignment) -> Seq<
    EventEnvelope,
> {
    seq![
        envelope(n, tick, EventKind::TaskCreated { task }),
        envelope(n + 1, tick, EventKind::TaskAssigned { assignment }),
    ]
}

fn record_task(
    log: &mut EventLog,
    tick: Tick,
    task: Task,
    assignment: Assignment,
    Ghost(s0): Ghost<WorldStateView>,
    Ghost(s): Ghost<WorldStateView>,
)
    requires
        old(log)@.len() + 4 < u64::MAX,
        s.tick == tick,
        spec_replay(s0, old(log)@) == Ok::<WorldStateView, ReplayError>(s),
    ensures
        final(log)@ == old(log)@ + task_events(old(log)@.len(), tick, task, assignment),
        spec_replay(s0, final(log)@) == Ok::<WorldStateView, ReplayError>(s),
{
    let ghost before = log@;
    log.witness_numbering();
    let ghost l0 = log@;
    record_task_created(log, tick, task);
    proof {
        lemma_audit_record_replays(s0, l0, s, EventKind::TaskCreated { task });
    }
    log.witness_numbering();
    let ghost l1 = log@;
    record_task_assigned(log, tick, assignment);
    proof {
        lemma_audit_record_replays(s0, l1, s, EventKind::TaskAssigned { assignment });
    }
    assert(log@ =~= before + task_events(before.len(), tick, task, assignment));
}

fn scheduled_step(
    state: &WorldState,
    log: &mut EventLog,
    task: &Task,
    assignment: &Assignment,
    policy: &ActionPolicy,
    Ghost(s0): Ghost<WorldStateView>,
) -> (r: Result<WorldState, ScenarioError>)
    requires
        old(log)@.len() + 6 < u64::MAX,
        schedule_in_range(state@, *task, *assignment),
        spec_replay(s0, old(log)@) == Ok::<WorldStateView, ReplayError>(state@),
    ensures
        final(log)@ == old(log)@ + scheduled_events(
            state@,
            old(log)@.len(),
            *task,
            *assignment,
            *policy,
        ),
        spec_replay(s0, final(log)@) == Ok::<WorldStateView, ReplayError>(
            after_scheduled(state@, *task, *assignment, *policy),
        ),
        match scheduled_outcome(state@, *task, *assignment, *policy) {
            Ok(next) => r matches Ok(n) && n@ == next,
            Err(ScheduledExecutionError::Execution(ExecutionError::Policy(e))) => r == Err::<
                WorldState,
                ScenarioError,
            >(ScenarioError::PolicyFailed(e)),
            Err(ScheduledExecutionError::Execution(ExecutionError::Sim(e))) => r == Err::<
                WorldState,
                ScenarioError,
            >(ScenarioError::ActionFailed(e)),
        },
{
    log.witness_numbering();
    let ghost before = log@;
    let r = record_scheduled_step(state, log, task, assignment, policy);
    proof {
        lemma_scheduled_events_replay(s0, before, state@, *task, *assignment, *policy);
    }
    match r {
        Ok(next) => Ok(next),
        Err(ScheduledExecutionError::Execution(ExecutionError::Policy(error))) => Err(
            ScenarioError::PolicyFailed(error),
        ),
        Err(ScheduledExecutionError::Execution(ExecutionError::Sim(error))) => Err(
            ScenarioError::ActionFailed(error),
        ),
    }
}

proof fn lemma_scheduled_steps()
    ensures
        spec_schedule_next_action(
            gated_worlds()[0],
            mining_bootstrap_task_spec(),
            mining_bootstrap_assignment_spec(),
        ) == (ScheduleOutcome::Action { assignment_id: AssignmentId(1), action: mine_iron(10) }),
        schedule_in_range(
            gated_worlds()[0],
            mining_bootstrap_task_spec(),
            mining_bootstrap_assignment_spec(),
        ),
        scheduled_outcome(
            gated_worlds()[0],
            mining_bootstrap_task_spec(),
            mining_bootstrap_assignment_spec(),
            mining_policy(),
        ) == Ok::<WorldStateView, ScheduledExecutionError>(gated_worlds()[1]),
        spec_schedule_next_action(
            gated_worlds()[1],
            deposit_task_spec(),
            deposit_assignment_spec(),
        ) == (ScheduleOutcome::Action { assignment_id: AssignmentId(2), action: deposit_iron() }),
        schedule_in_range(gated_worlds()[1], deposit_task_spec(), deposit_assignment_spec()),
        scheduled_outcome(
            gated_worlds()[1],
            deposit_task_spec(),
            deposit_assignment_spec(),
            mining_policy(),
        ) == Ok::<WorldStateView, ScheduledExecutionError>(gated_worlds()[2]),
{
    lemma_gated_steps();
    lemma_mining_view_entries(0, Position { x: 0, y: 0 }, 10, None, WorkerStatus::Active, 100, 0);
    lemma_mining_view_entries(
        1,
        Position { x: 0, y: 0 },
        9,
        carried_iron(10),
        WorkerStatus::Active,
        90,
        0,
    );
}

/// The events of the scheduled mining scenario: the plan; the scheduled mining step; the
/// deposit task and its assignment; the scheduled deposit step.
#[verifier::opaque]
pub open spec fn scheduled_mining_events() -> Seq<EventEnvelope> {
    let w = gated_worlds();
    let p = mining_policy();
    bootstrap_plan_events() + scheduled_events(
        w[0],
        4,
        mining_bootstrap_task_spec(),
        mining_bootstrap_assignment_spec(),
        p,
    ) + task_events(8, Tick(1), deposit_task_spec(), deposit_assignment_spec()) + scheduled_events(
        w[1],
        10,
        deposit_task_spec(),
        deposit_assignment_spec(),
        p,
    )
}

/// Runs the scheduled mining scenario: after the plan, the scheduler proposes mining for the
/// mining assignment; then a deposit task is created and assigned, and the scheduler proposes
/// the deposit; both pass the policy. The run always succeeds; its final world passes its
/// check and meets the objective, and its events replay to it.
pub fn run_scheduled_mining() -> (r: Result<ScenarioRun, ScenarioError>)
    ensures
        r matches Ok(run) && run_is(
            run,
            mining_bootstrap_world_view(),
            gated_worlds()[2],
            scheduled_mining_events(),
        ),
        spec_validate_final(gated_worlds()[2], Tick(2), false) is Ok,
        spec_objective_satisfied(
            gated_worlds()[2],
            mining_bootstrap_objective_spec(),
            StorageId(1),
        ),
{
    let initial_state = build_mining_bootstrap_world();
    let objective = mining_bootstrap_objective();
    let mine_task = mining_bootstrap_task();
    let mine_assignment = mining_bootstrap_assignment();
    let deposit_task = scheduled_mining_deposit_task();
    let deposit_assignment = scheduled_mining_deposit_assignment();
    let policy = scheduled_mining_policy();
    let mut final_state = initial_state.duplicate();
    let mut log = EventLog::new();
    let ghost s0 = initial_state@;
    proof {
        lemma_bootstrap_world_is_mining_view();
        lemma_scheduled_steps();
        assert(spec_replay(s0, log@) == Ok::<WorldStateView, ReplayError>(s0));
    }
    record_plan(
        &mut log,
        initial_state.tick,
        objective,
        mining_bootstrap_decision(),
        mine_task,
        mine_assignment,
        Ghost(s0),
        Ghost(s0),
    );
    final_state = scheduled_step(
        &final_state,
        &mut log,
        &mine_task,
        &mine_assignment,
        &policy,
        Ghost(s0),
    )?;
    record_task(
        &mut log,
        final_state.tick,
        deposit_task,
        deposit_assignment,
        Ghost(s0),
        Ghost(final_state@),
    );
    final_state = scheduled_step(
        &final_state,
        &mut log,
        &deposit_task,
        &deposit_assignment,
        &policy,
        Ghost(s0),
    )?;
    proof {
        lemma_mining_view_entries(2, Position { x: 0, y: 0 }, 8, None, WorkerStatus::Active, 90, 10);
        reveal(scheduled_mining_events);
        assert(log@ =~= scheduled_mining_events());
    }
    validate_scheduled_mining_final_state(&final_state)?;
    if !objective_satisfied(&final_state, &objective, mining_bootstrap_storage_id()) {
        return Err(ScenarioError::ObjectiveNotSatisfied);
    }
    match verify_replay(&initial_state, log.events(), &final_state) {
        Ok(()) => {},
        Err(e) => return Err(ScenarioError::ReplayFailed(e)),
    }
    let events = copy_events(log.events());
    Ok(ScenarioRun { initial_state, final_state, events })
}

/// The identifiers given to the plan of the adaptor scenario.
pub open spec fn adaptor_plan_ids() -> ProposalPlanIds {
    ProposalPlanIds {
        objective_id: ObjectiveId(1),
        decision_id: DecisionId(1),
        mine_task_id: TaskId(1),
        mine_assignment_id: AssignmentId(1),
        deposit_task_id: TaskId(2),
        deposit_assignment_id: AssignmentId(2),
    }
}

fn proposal_adaptor_plan_ids() -> (r: ProposalPlanIds)
    ensures
        r == adaptor_plan_ids(),
{
    ProposalPlanIds {
        objective_id: ObjectiveId::new(1),
        decision_id: DecisionId::new(1),
        mine_task_id: TaskId::new(1),
        mine_assignment_id: AssignmentId::new(1),
        deposit_task_id: TaskId::new(2),
        deposit_assignment_id: AssignmentId::new(2),
    }
}

/// The proposal text the adaptor scenario offers first: it names copper, which is not
/// supported.
pub open spec fn invalid_adaptor_text() -> Seq<char> {
    adaptor_text("copper"@)
}

/// The proposal text the adaptor scenario offers second: it names iron.
pub open spec fn valid_adaptor_text() -> Seq<char> {
    adaptor_text("iron"@)
}

fn invalid_proposal_adaptor_text() -> (r: String)
    ensures
        r@ == invalid_adaptor_text(),
{
    adaptor_proposal_text("copper")
}

fn valid_proposal_adaptor_text() -> (r: String)
    ensures
        r@ == valid_adaptor_text(),
{
    adaptor_proposal_text("iron")
}

/// The work events of the adaptor scenario after its five proposal events: the plan made
/// from the proposal, the scheduled mining step, the deposit task and its assignment, and the
/// scheduled deposit step.
pub open spec fn adaptor_work_events() -> Seq<EventEnvelope> {
    let w = gated_worlds();
    let p = spec_plan(adaptor_proposal(), adaptor_plan_ids());
    let pol = mining_policy();
    plan_events(5, Tick(0), p.objective, p.decision, p.mine_task, p.mine_assignment)
        + scheduled_events(w[0], 9, p.mine_task, p.mine_assignment, pol) + task_events(
        13,
        Tick(1),
        p.deposit_task,
        p.deposit_assignment,
    ) + scheduled_events(w[1], 15, p.deposit_task, p.deposit_assignment, pol)
}

proof fn lemma_adaptor_steps()
    ensures
        ({
            let p = spec_plan(adaptor_proposal(), adaptor_plan_ids());
            &&& crate::sim::proposal::spec_validate_proposal(adaptor_proposal(), gated_worlds()[0])
                is Ok
            &&& schedule_in_range(gated_worlds()[0], p.mine_task, p.mine_assignment)
            &&& scheduled_outcome(gated_worlds()[0], p.mine_task, p.mine_assignment, mining_policy())
                == Ok::<WorldStateView, ScheduledExecutionError>(gated_worlds()[1])
            &&& schedule_in_range(gated_worlds()[1], p.deposit_task, p.deposit_assignment)
            &&& scheduled_outcome(
                gated_worlds()[1],
                p.deposit_task,
                p.deposit_assignment,
                mining_policy(),
            ) == Ok::<WorldStateView, ScheduledExecutionError>(gated_worlds()[2])
        }),
{
    lemma_gated_steps();
    lemma_mining_view_entries(0, Position { x: 0, y: 0 }, 10, None, WorkerStatus::Active, 100, 0);
    lemma_mining_view_entries(
        1,
        Position { x: 0, y: 0 },
        9,
        carried_iron(10),
        WorkerStatus::Active,
        90,
        0,
    );
    crate::ordered_map::lemma_key_index_unique(gated_worlds()[0].workers, WorkerId(1), 0);
    crate::ordered_map::lemma_key_index_unique(gated_worlds()[0].storage, StorageId(1), 0);
}

/// The mining bootstrap records 12 events, the failure and recovery scenario 20, the policy
/// gate 11 and scheduled mining 14.
pub proof fn lemma_scenario_event_counts()
    ensures
        bootstrap_events().len() == 12,
        failure_recovery_events().len() == 20,
        policy_gate_events().len() == 11,
        scheduled_mining_events().len() == 14,
{
    reveal(bootstrap_events);
    reveal(failure_recovery_events);
    reveal(policy_gate_events);
    reveal(scheduled_mining_events);
    lemma_action_run_len(bootstrap_worlds(), mining_bootstrap_actions_spec(), 4, mining_context(), 4);
    lemma_gated_steps();
    lemma_scheduled_steps();
    let w = failure_worlds();
    let c = mining_context();
    assert(action_events(w[0], 4, move_to(1, 0), c).len() == 2);
    assert(failure_events(w[1], 6, WorkerId(1), c).len() == 3);
    assert(action_events(w[2], 9, mine_iron(10), c).len() == 2);
    assert(recovery_events(w[2], 11, WorkerId(1), c).len() == 3);
    assert(action_events(w[3], 14, mine_iron(10), c).len() == 2);
    assert(action_events(w[4], 16, move_to(0, 0), c).len() == 2);
    assert(action_events(w[5], 18, deposit_iron(), c).len() == 2);
}

proof fn lemma_scheduled_events_len(
    s: WorldStateView,
    n: nat,
    task: Task,
    assignment: Assignment,
    policy: ActionPolicy,
)
    ensures
        scheduled_events(s, n, task, assignment, policy).len() <= 4,
{
}

fn record_proposal(
    state: &WorldState,
    log: &mut EventLog,
    text: &str,
    Ghost(s0): Ghost<WorldStateView>,
) -> (r: Result<ParsedProposal, ProposalRejection>)
    requires
        old(log)@.len() + 5 < u64::MAX,
        spec_replay(s0, old(log)@) == Ok::<WorldStateView, ReplayError>(state@),
    ensures
        proposal_events_are(old(log)@, final(log)@, state@, text@),
        crate::replay::event_log::proposal_outcome_is(r, state@, text@),
        spec_replay(s0, final(log)@) == Ok::<WorldStateView, ReplayError>(state@),
{
    log.witness_numbering();
    let ghost before = log@;
    let r = parse_validate_and_record_proposal(state, log, text);
    proof {
        lemma_proposal_events_replay(s0, before, log@, state@, text@);
    }
    r
}

/// The events of the proposal adaptor scenario: the copper text received and refused at
/// parsing; the iron text received, parsed and accepted; then the work made from it. They
/// replay from the starting world to the stocked one.
pub open spec fn adaptor_run_events(ev: Seq<EventEnvelope>) -> bool {
    &&& ev.len() == 19
    &&& proposal_events_are(
        Seq::<EventEnvelope>::empty(),
        ev.subrange(0, 2),
        gated_worlds()[0],
        invalid_adaptor_text(),
    )
    &&& proposal_events_are(ev.subrange(0, 2), ev.subrange(0, 5), gated_worlds()[0], valid_adaptor_text())
    &&& ev.subrange(5, 19) == adaptor_work_events()
    &&& spec_replay(gated_worlds()[0], ev) == Ok::<WorldStateView, ReplayError>(gated_worlds()[2])
}

/// Runs the proposal adaptor scenario: proposal text naming copper is refused at parsing and
/// creates no work; text naming iron is accepted and turned into a plan, whose mining and
/// deposit tasks the scheduler carries out through the policy gate. The run always succeeds;
/// its final world passes its check and meets the objective, and its events replay to it.
pub fn run_proposal_adaptor() -> (r: Result<ScenarioRun, ScenarioError>)
    ensures
        r matches Ok(run) ==> run.events@.len() <= 19,
        r matches Ok(run) && {
            &&& run.initial_state@ == mining_bootstrap_world_view()
            &&& run.final_state@ == gated_worlds()[2]
            &&& adaptor_run_events(run.events@)
        },
        spec_validate_final(gated_worlds()[2], Tick(2), false) is Ok,
        spec_objective_satisfied(
            gated_worlds()[2],
            spec_plan(adaptor_proposal(), adaptor_plan_ids()).objective,
            StorageId(1),
        ),
{
    let initial_state = build_mining_bootstrap_world();
    let mut final_state = initial_state.duplicate();
    let mut log = EventLog::new();
    let policy = scheduled_mining_policy();
    let ghost s0 = initial_state@;
    proof {
        lemma_bootstrap_world_is_mining_view();
        lemma_adaptor_steps();
        lemma_adaptor_texts_parse();
        lemma_mining_view_entries(2, Position { x: 0, y: 0 }, 8, None, WorkerStatus::Active, 90, 10);
        assert(spec_replay(s0, log@) == Ok::<WorldStateView, ReplayError>(s0));
    }
    let ghost l0 = log@;
    match record_proposal(&final_state, &mut log, invalid_proposal_adaptor_text().as_str(), Ghost(s0)) {
        Err(ProposalRejection::Parse(_)) => {},
        Err(error) => return Err(ScenarioError::ProposalRejected(error)),
        Ok(_) => {
            return Err(
                ScenarioError::ProposalRejected(
                    ProposalRejection::Parse(
                        crate::sim::proposal::ProposalError::UnsupportedResource(
                            String::from_str("copper"),
                        ),
                    ),
                ),
            );
        },
    }
    let ghost l1 = log@;
    let proposal = match record_proposal(
        &final_state,
        &mut log,
        valid_proposal_adaptor_text().as_str(),
        Ghost(s0),
    ) {
        Ok(p) => p,
        Err(error) => return Err(ScenarioError::ProposalRejected(error)),
    };
    let ghost l2 = log@;
    assert(l2.len() <= 5);
    let plan = accepted_proposal_to_plan(&proposal, proposal_adaptor_plan_ids());
    record_plan(
        &mut log,
        final_state.tick,
        plan.objective,
        plan.decision,
        plan.mine_task,
        plan.mine_assignment,
        Ghost(s0),
        Ghost(s0),
    );
    proof {
        lemma_mining_view_in_range(0, Position { x: 0, y: 0 }, 10, None, WorkerStatus::Active, 100, 0, plan.mine_task, plan.mine_assignment);
    }
    let ghost s_mine = final_state@;
    let ghost l3 = log@;
    final_state = scheduled_step(
        &final_state,
        &mut log,
        &plan.mine_task,
        &plan.mine_assignment,
        &policy,
        Ghost(s0),
    )?;
    proof {
        lemma_scheduled_events_len(s_mine, l3.len(), plan.mine_task, plan.mine_assignment, policy);
    }
    record_task(
        &mut log,
        final_state.tick,
        plan.deposit_task,
        plan.deposit_assignment,
        Ghost(s0),
        Ghost(final_state@),
    );
    proof {
        lemma_mining_view_in_range(1, Position { x: 0, y: 0 }, 9, carried_iron(10), WorkerStatus::Active, 90, 0, plan.deposit_task, plan.deposit_assignment);
    }
    let ghost s_dep = final_state@;
    let ghost l4 = log@;
    final_state = scheduled_step(
        &final_state,
        &mut log,
        &plan.deposit_task,
        &plan.deposit_assignment,
        &policy,
        Ghost(s0),
    )?;
    proof {
        lemma_scheduled_events_len(
            s_dep,
            l4.len(),
            plan.deposit_task,
            plan.deposit_assignment,
            policy,
        );
    }
    validate_scheduled_mining_final_state(&final_state)?;
    if !objective_satisfied(&final_state, &plan.objective, mining_bootstrap_storage_id()) {
        return Err(ScenarioError::ObjectiveNotSatisfied);
    }
    match verify_replay(&initial_state, log.events(), &final_state) {
        Ok(()) => {},
        Err(e) => return Err(ScenarioError::ReplayFailed(e)),
    }
    proof {
        assert(l1 =~= log@.subrange(0, 2));
        assert(l2 =~= log@.subrange(0, 5));
        assert(log@.subrange(5, 19) =~= adaptor_work_events());
    }
    let events = copy_events(log.events());
    Ok(ScenarioRun { initial_state, final_state, events })
}

} // verus!
