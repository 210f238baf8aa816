use vstd::prelude::*;
use vstd::string::StringExecFns;

use crate::ordered_map::{lookup, put, OrderedMap};
use crate::primitives::error::{sim_error_text, SimError};
use crate::primitives::ids::{AssignmentId, DecisionId, EventId, ObjectiveId, TaskId, WorkerId};
use crate::primitives::tick::Tick;
use crate::replay::causal_labels::{
    action_label, assignment_label, decision_label, objective_label, policy_error_label,
    proposal_summary, push_action_label, push_assignment_label, push_decision_label,
    push_objective_label, push_policy_error_label, push_proposal_summary, push_rejection,
    push_schedule_outcome_label, push_sim_error, push_task_label, schedule_outcome_label,
    task_label,
};
use crate::replay::event_log::{EventEnvelope, EventKind};
use crate::sim::action::WorkerAction;
use crate::sim::assignment::Assignment;
use crate::sim::objective::Objective;
use crate::sim::policy::PolicyError;
use crate::sim::proposal::{rejection_text, ParsedProposal, ProposalRejection};
use crate::sim::scheduler::ScheduleOutcome;
use crate::sim::task::{Decision, DecisionKind, Task};
use crate::text::{dec, push_u64};

verus! {

/// Identifier of a node of a causal graph.
#[derive(Clone, Copy, Debug, PartialEq, Eq, PartialOrd, Ord, Hash, Structural)]
pub struct CausalNodeId(pub u64);

impl CausalNodeId {
    /// The identifier with the given value.
    pub fn new(value: u64) -> (r: Self)
        ensures
            r.0 == value,
    {
        CausalNodeId(value)
    }

    /// The value of the identifier.
    pub fn value(self) -> (r: u64)
        ensures
            r == self.0,
    {
        self.0
    }
}

/// What a node of a causal graph stands for.
#[derive(Clone, Copy, Debug, PartialEq, Eq, Hash, Structural)]
pub enum CausalNodeKind {
    Proposal,
    ProposalAccepted,
    ProposalRejected,
    Objective,
    Decision,
    Task,
    Assignment,
    Scheduler,
    Policy,
    Action,
    StateTransition,
    Rejection,
    Failure,
    Recovery,
    ReplayVerification,
}

/// How one node of a causal graph led to another.
#[derive(Clone, Copy, Debug, PartialEq, Eq, Hash, Structural)]
pub enum CausalEdgeKind {
    Caused,
    Emitted,
    Assigned,
    Scheduled,
    AcceptedByPolicy,
    RejectedByPolicy,
    RequestedAction,
    AppliedAction,
    RejectedAction,
    VerifiedByReplay,
}

/// A directed edge between two nodes.
#[derive(Clone, Copy, Debug, PartialEq, Eq, Hash, Structural)]
pub struct CausalEdge {
    pub from: CausalNodeId,
    pub to: CausalNodeId,
    pub kind: CausalEdgeKind,
}

/// A node: its identifier, kind, label and the event it was made from, if any.
#[derive(Clone, Debug, PartialEq, Eq)]
pub struct CausalNode {
    pub id: CausalNodeId,
    pub kind: CausalNodeKind,
    pub label: String,
    pub event_id: Option<EventId>,
}

/// The mathematical value of a node.
pub struct CausalNodeView {
    pub id: CausalNodeId,
    pub kind: CausalNodeKind,
    pub label: Seq<char>,
    pub event_id: Option<EventId>,
}

impl View for CausalNode {
    type V = CausalNodeView;

    open spec fn view(&self) -> CausalNodeView {
        CausalNodeView { id: self.id, kind: self.kind, label: self.label@, event_id: self.event_id }
    }
}

/// A graph of what led to what in an event sequence.
#[derive(Clone, Debug, PartialEq, Eq)]
pub struct CausalGraph {
    pub nodes: Vec<CausalNode>,
    pub edges: Vec<CausalEdge>,
}

/// The mathematical value of a causal graph.
pub struct CausalGraphView {
    pub nodes: Seq<CausalNodeView>,
    pub edges: Seq<CausalEdge>,
}

/// The views of nodes.
pub open spec fn node_views(nodes: Seq<CausalNode>) -> Seq<CausalNodeView> {
    nodes.map_values(|n: CausalNode| n@)
}

impl View for CausalGraph {
    type V = CausalGraphView;

    open spec fn view(&self) -> CausalGraphView {
        CausalGraphView { nodes: node_views(self.nodes@), edges: self.edges@ }
    }
}

impl CausalGraph {
    /// A graph with no node and no edge.
    pub fn new() -> (r: Self)
        ensures
            r@.nodes.len() == 0,
            r@.edges.len() == 0,
    {
        CausalGraph { nodes: Vec::new(), edges: Vec::new() }
    }
}

impl Default for CausalGraph {
    fn default() -> (r: Self)
        ensures
            r@.nodes.len() == 0,
            r@.edges.len() == 0,
    {
        CausalGraph::new()
    }
}

/// What the graph builder knows while it reads events: the graph so far, the node made for
/// each lifecycle record and assignment step, and the nodes still waiting for a successor.
pub struct GraphState {
    pub nodes: Seq<CausalNodeView>,
    pub edges: Seq<CausalEdge>,
    pub objectives: Seq<(ObjectiveId, CausalNodeId)>,
    pub decisions: Seq<(DecisionId, CausalNodeId)>,
    pub decision_tasks: Seq<(TaskId, CausalNodeId)>,
    pub tasks: Seq<(TaskId, CausalNodeId)>,
    pub assignments: Seq<(AssignmentId, CausalNodeId)>,
    pub latest_scheduler: Seq<(AssignmentId, CausalNodeId)>,
    pub latest_policy: Seq<(AssignmentId, CausalNodeId)>,
    pub latest_action: Seq<(AssignmentId, CausalNodeId)>,
    pub latest_action_request: Option<CausalNodeId>,
    pub pending_failure: Option<(WorkerId, CausalNodeId)>,
    pub pending_recovery: Option<(WorkerId, CausalNodeId)>,
    pub latest_proposal: Option<CausalNodeId>,
    pub accepted_proposal: Option<CausalNodeId>,
    pub last_relevant: Option<CausalNodeId>,
}

/// The builder before any event.
pub open spec fn empty_graph_state() -> GraphState {
    GraphState {
        nodes: Seq::empty(),
        edges: Seq::empty(),
        objectives: Seq::empty(),
        decisions: Seq::empty(),
        decision_tasks: Seq::empty(),
        tasks: Seq::empty(),
        assignments: Seq::empty(),
        latest_scheduler: Seq::empty(),
        latest_policy: Seq::empty(),
        latest_action: Seq::empty(),
        latest_action_request: None,
        pending_failure: None,
        pending_recovery: None,
        latest_proposal: None,
        accepted_proposal: None,
        last_relevant: None,
    }
}

/// The identifier the next node gets: nodes are numbered 1, 2, 3, ... in order.
pub open spec fn next_node(g: GraphState) -> CausalNodeId {
    CausalNodeId((g.nodes.len() + 1) as u64)
}

/// The state with one more node, which becomes the last relevant node.
pub open spec fn with_node(
    g: GraphState,
    kind: CausalNodeKind,
    label: Seq<char>,
    event_id: Option<EventId>,
) -> GraphState {
    GraphState {
        nodes: g.nodes.push(CausalNodeView { id: next_node(g), kind, label, event_id }),
        last_relevant: Some(next_node(g)),
        ..g
    }
}

/// The state with one more edge.
pub open spec fn with_edge(
    g: GraphState,
    from: CausalNodeId,
    to: CausalNodeId,
    kind: CausalEdgeKind,
) -> GraphState {
    GraphState { edges: g.edges.push(CausalEdge { from, to, kind }), ..g }
}

/// The state with an edge from `parent`, when there is one.
pub open spec fn with_edge_from(
    g: GraphState,
    parent: Option<CausalNodeId>,
    to: CausalNodeId,
    kind: CausalEdgeKind,
) -> GraphState {
    match parent {
        Some(p) => with_edge(g, p, to, kind),
        None => g,
    }
}

/// The first of two optional parents that is present.
pub open spec fn first_of(a: Option<CausalNodeId>, b: Option<CausalNodeId>) -> Option<CausalNodeId> {
    match a {
        Some(x) => Some(x),
        None => b,
    }
}

/// Proposal text received: a proposal node that starts a proposal chain.
pub open spec fn step_proposal_received(g: GraphState, eid: EventId) -> GraphState {
    let n = next_node(g);
    let g1 = with_node(g, CausalNodeKind::Proposal, "ProposalReceived"@, Some(eid));
    GraphState { latest_proposal: Some(n), ..g1 }
}

/// A proposal parsed: a proposal node caused by the received text.
pub open spec fn step_proposal_parsed(g: GraphState, eid: EventId, p: ParsedProposal) -> GraphState {
    let n = next_node(g);
    let g1 = with_edge_from(
        with_node(
            g,
            CausalNodeKind::Proposal,
            "ProposalParsed "@ + proposal_summary(p),
            Some(eid),
        ),
        g.latest_proposal,
        n,
        CausalEdgeKind::Caused,
    );
    GraphState { latest_proposal: Some(n), ..g1 }
}

/// A proposal accepted: it ends the proposal chain and causes the next objective.
pub open spec fn step_proposal_accepted(g: GraphState, eid: EventId, p: ParsedProposal) -> GraphState {
    let n = next_node(g);
    let g1 = with_edge_from(
        with_node(
            g,
            CausalNodeKind::ProposalAccepted,
            "ProposalAccepted "@ + proposal_summary(p),
            Some(eid),
        ),
        g.latest_proposal,
        n,
        CausalEdgeKind::Caused,
    );
    GraphState { latest_proposal: None, accepted_proposal: Some(n), ..g1 }
}

/// A proposal rejected: it ends the proposal chain and causes nothing.
pub open spec fn step_proposal_rejected(
    g: GraphState,
    eid: EventId,
    r: ProposalRejection,
) -> GraphState {
    let n = next_node(g);
    let g1 = with_edge_from(
        with_node(
            g,
            CausalNodeKind::ProposalRejected,
            "ProposalRejected error="@ + rejection_text(r),
            Some(eid),
        ),
        g.latest_proposal,
        n,
        CausalEdgeKind::Caused,
    );
    GraphState { latest_proposal: None, ..g1 }
}

/// An objective accepted, caused by the proposal accepted just before it, if any.
pub open spec fn step_objective(g: GraphState, eid: EventId, o: Objective) -> GraphState {
    let n = next_node(g);
    let g1 = with_edge_from(
        with_node(g, CausalNodeKind::Objective, objective_label(o), Some(eid)),
        g.accepted_proposal,
        n,
        CausalEdgeKind::Caused,
    );
    GraphState { objectives: put(g.objectives, o.id, n), accepted_proposal: None, ..g1 }
}

/// A decision, caused by its objective.
pub open spec fn step_decision(g: GraphState, eid: EventId, d: Decision) -> GraphState {
    let n = next_node(g);
    let task_id = match d.kind {
        DecisionKind::CreateTask { task_id } => task_id,
    };
    let g1 = with_edge_from(
        with_node(g, CausalNodeKind::Decision, decision_label(d), Some(eid)),
        lookup(g.objectives, d.objective_id),
        n,
        CausalEdgeKind::Caused,
    );
    GraphState {
        decisions: put(g.decisions, d.id, n),
        decision_tasks: put(g.decision_tasks, task_id, n),
        ..g1
    }
}

/// A task, emitted by the decision it names, or else by the decision that named it.
pub open spec fn step_task(g: GraphState, eid: EventId, t: Task) -> GraphState {
    let n = next_node(g);
    let parent = match t.decision_id {
        Some(d) => lookup(g.decisions, d),
        None => lookup(g.decision_tasks, t.id),
    };
    let g1 = with_edge_from(
        with_node(g, CausalNodeKind::Task, task_label(t), Some(eid)),
        parent,
        n,
        CausalEdgeKind::Emitted,
    );
    GraphState { tasks: put(g.tasks, t.id, n), ..g1 }
}

/// An assignment of its task.
pub open spec fn step_assignment(g: GraphState, eid: EventId, a: Assignment) -> GraphState {
    let n = next_node(g);
    let g1 = with_edge_from(
        with_node(g, CausalNodeKind::Assignment, assignment_label(a), Some(eid)),
        lookup(g.tasks, a.task_id),
        n,
        CausalEdgeKind::Assigned,
    );
    GraphState { assignments: put(g.assignments, a.id, n), ..g1 }
}

/// The label of a failure node.
pub open spec fn failure_label(worker_id: WorkerId) -> Seq<char> {
    "FailureInjected worker="@ + dec(worker_id.0 as nat) + " reason=Injected"@
}

/// The label of a recovery node.
pub open spec fn recovery_label(worker_id: WorkerId) -> Seq<char> {
    "RecoveryEmitted worker="@ + dec(worker_id.0 as nat) + " recovery=RepairWorker"@
}

/// An injected failure, waiting for the disable request it leads to.
pub open spec fn step_failure(g: GraphState, eid: EventId, worker_id: WorkerId) -> GraphState {
    let n = next_node(g);
    let g1 = with_node(g, CausalNodeKind::Failure, failure_label(worker_id), Some(eid));
    GraphState { pending_failure: Some((worker_id, n)), ..g1 }
}

/// An emitted recovery, waiting for the repair request it leads to.
pub open spec fn step_recovery(g: GraphState, eid: EventId, worker_id: WorkerId) -> GraphState {
    let n = next_node(g);
    let g1 = with_node(g, CausalNodeKind::Recovery, recovery_label(worker_id), Some(eid));
    GraphState { pending_recovery: Some((worker_id, n)), ..g1 }
}

/// A scheduler outcome for an assignment.
pub open spec fn step_scheduler(
    g: GraphState,
    eid: EventId,
    assignment_id: AssignmentId,
    outcome: ScheduleOutcome,
) -> GraphState {
    let n = next_node(g);
    let g1 = with_edge_from(
        with_node(g, CausalNodeKind::Scheduler, schedule_outcome_label(outcome), Some(eid)),
        lookup(g.assignments, assignment_id),
        n,
        CausalEdgeKind::Scheduled,
    );
    GraphState { latest_scheduler: put(g.latest_scheduler, assignment_id, n), ..g1 }
}

/// The node a policy outcome for an assignment follows: its latest scheduler node, or else
/// the assignment.
pub open spec fn policy_parent(g: GraphState, a: AssignmentId) -> Option<CausalNodeId> {
    first_of(lookup(g.latest_scheduler, a), lookup(g.assignments, a))
}

/// An action accepted by the policy.
pub open spec fn step_policy_accepted(
    g: GraphState,
    eid: EventId,
    action: WorkerAction,
    assignment: Option<AssignmentId>,
) -> GraphState {
    let n = next_node(g);
    let g1 = with_node(g, CausalNodeKind::Policy, "PolicyAccepted "@ + action_label(action), Some(eid));
    match assignment {
        Some(a) => {
            let g2 = with_edge_from(g1, policy_parent(g, a), n, CausalEdgeKind::AcceptedByPolicy);
            GraphState { latest_policy: put(g.latest_policy, a, n), ..g2 }
        },
        None => g1,
    }
}

/// An action refused by the policy.
pub open spec fn step_policy_rejected(
    g: GraphState,
    eid: EventId,
    action: WorkerAction,
    assignment: Option<AssignmentId>,
    error: PolicyError,
) -> GraphState {
    let n = next_node(g);
    let g1 = with_node(
        g,
        CausalNodeKind::Rejection,
        "PolicyRejected "@ + action_label(action) + " error="@ + policy_error_label(error),
        Some(eid),
    );
    match assignment {
        Some(a) => with_edge_from(g1, policy_parent(g, a), n, CausalEdgeKind::RejectedByPolicy),
        None => g1,
    }
}

/// The state after linking a requested action to the failure or recovery that waits for it.
pub open spec fn link_pending(g: GraphState, action: WorkerAction, n: CausalNodeId) -> GraphState {
    match action {
        WorkerAction::DisableWorker { worker_id } => match g.pending_failure {
            Some((w, p)) => if w == worker_id {
                GraphState {
                    pending_failure: None,
                    ..with_edge(g, p, n, CausalEdgeKind::Emitted)
                }
            } else {
                g
            },
            None => g,
        },
        WorkerAction::RepairWorker { worker_id } => match g.pending_recovery {
            Some((w, p)) => if w == worker_id {
                GraphState {
                    pending_recovery: None,
                    ..with_edge(g, p, n, CausalEdgeKind::Emitted)
                }
            } else {
                g
            },
            None => g,
        },
        _ => g,
    }
}

/// A requested action, following the policy outcome (or assignment) it came from.
pub open spec fn step_action_requested(
    g: GraphState,
    eid: EventId,
    action: WorkerAction,
    assignment: Option<AssignmentId>,
) -> GraphState {
    let n = next_node(g);
    let g1 = with_node(g, CausalNodeKind::Action, "ActionRequested "@ + action_label(action), Some(eid));
    let g2 = match assignment {
        Some(a) => {
            let g3 = with_edge_from(
                g1,
                first_of(lookup(g.latest_policy, a), lookup(g.assignments, a)),
                n,
                CausalEdgeKind::RequestedAction,
            );
            GraphState { latest_action: put(g.latest_action, a, n), ..g3 }
        },
        None => g1,
    };
    link_pending(GraphState { latest_action_request: Some(n), ..g2 }, action, n)
}

/// The request an action outcome answers: the assignment's latest request, or else the
/// latest request of all.
pub open spec fn action_parent(g: GraphState, assignment: Option<AssignmentId>) -> Option<CausalNodeId> {
    match assignment {
        Some(a) => first_of(lookup(g.latest_action, a), g.latest_action_request),
        None => g.latest_action_request,
    }
}

/// An applied action: a state transition.
pub open spec fn step_action_applied(
    g: GraphState,
    eid: EventId,
    action: WorkerAction,
    assignment: Option<AssignmentId>,
    resulting_tick: Tick,
) -> GraphState {
    let n = next_node(g);
    with_edge_from(
        with_node(
            g,
            CausalNodeKind::StateTransition,
            "ActionApplied "@ + action_label(action) + " resulting_tick="@ + dec(
                resulting_tick.0 as nat,
            ),
            Some(eid),
        ),
        action_parent(g, assignment),
        n,
        CausalEdgeKind::AppliedAction,
    )
}

/// An action refused by the reducer.
pub open spec fn step_action_rejected(
    g: GraphState,
    eid: EventId,
    action: WorkerAction,
    assignment: Option<AssignmentId>,
    error: SimError,
) -> GraphState {
    let n = next_node(g);
    with_edge_from(
        with_node(
            g,
            CausalNodeKind::Rejection,
            "ActionRejected "@ + action_label(action) + " error="@ + sim_error_text(error),
            Some(eid),
        ),
        action_parent(g, assignment),
        n,
        CausalEdgeKind::RejectedAction,
    )
}

/// The builder after reading one more event.
pub open spec fn graph_step(g: GraphState, e: EventEnvelope) -> GraphState {
    match e.kind {
        EventKind::ProposalReceived { .. } => step_proposal_received(g, e.id),
        EventKind::ProposalParsed { proposal } => step_proposal_parsed(g, e.id, proposal),
        EventKind::ProposalAccepted { proposal } => step_proposal_accepted(g, e.id, proposal),
        EventKind::ProposalRejected { rejection } => step_proposal_rejected(g, e.id, rejection),
        EventKind::ObjectiveAccepted { objective } => step_objective(g, e.id, objective),
        EventKind::DecisionEmitted { decision } => step_decision(g, e.id, decision),
        EventKind::TaskCreated { task } => step_task(g, e.id, task),
        EventKind::TaskAssigned { assignment } => step_assignment(g, e.id, assignment),
        EventKind::FailureInjected { worker_id, .. } => step_failure(g, e.id, worker_id),
        EventKind::RecoveryEmitted { worker_id, .. } => step_recovery(g, e.id, worker_id),
        EventKind::SchedulerEmitted { assignment_id, outcome } => step_scheduler(
            g,
            e.id,
            assignment_id,
            outcome,
        ),
        EventKind::PolicyAccepted { action, context } => step_policy_accepted(
            g,
            e.id,
            action,
            context.assignment_id,
        ),
        EventKind::PolicyRejected { action, context, error } => step_policy_rejected(
            g,
            e.id,
            action,
            context.assignment_id,
            error,
        ),
        EventKind::ActionRequested { action, context } => step_action_requested(
            g,
            e.id,
            action,
            context.assignment_id,
        ),
        EventKind::ActionApplied { action, context, resulting_tick } => step_action_applied(
            g,
            e.id,
            action,
            context.assignment_id,
            resulting_tick,
        ),
        EventKind::ActionRejected { action, context, error } => step_action_rejected(
            g,
            e.id,
            action,
            context.assignment_id,
            error,
        ),
    }
}

/// The builder after reading `events` in order.
pub open spec fn graph_fold(events: Seq<EventEnvelope>) -> GraphState
    decreases events.len(),
{
    if events.len() == 0 {
        empty_graph_state()
    } else {
        graph_step(graph_fold(events.drop_last()), events.last())
    }
}

/// The causal graph of `events`: one node per event, in order, with the edges the builder
/// found; when replay was verified, a final replay node follows the last node.
pub open spec fn spec_build_graph(events: Seq<EventEnvelope>, replay_verified: bool) -> CausalGraphView {
    let g = graph_fold(events);
    let last = if replay_verified {
        with_edge_from(
            with_node(
                g,
                CausalNodeKind::ReplayVerification,
                "ReplayVerification verified=true"@,
                None,
            ),
            g.last_relevant,
            next_node(g),
            CausalEdgeKind::VerifiedByReplay,
        )
    } else {
        g
    };
    CausalGraphView { nodes: last.nodes, edges: last.edges }
}

struct GraphBuilder {
    nodes: Vec<CausalNode>,
    edges: Vec<CausalEdge>,
    next_node_id: u64,
    objectives: OrderedMap<ObjectiveId, CausalNodeId>,
    decisions: OrderedMap<DecisionId, CausalNodeId>,
    decision_tasks: OrderedMap<TaskId, CausalNodeId>,
    tasks: OrderedMap<TaskId, CausalNodeId>,
    assignments: OrderedMap<AssignmentId, CausalNodeId>,
    latest_scheduler: OrderedMap<AssignmentId, CausalNodeId>,
    latest_policy: OrderedMap<AssignmentId, CausalNodeId>,
    latest_action: OrderedMap<AssignmentId, CausalNodeId>,
    latest_action_request: Option<CausalNodeId>,
    pending_failure: Option<(WorkerId, CausalNodeId)>,
    pending_recovery: Option<(WorkerId, CausalNodeId)>,
    latest_proposal: Option<CausalNodeId>,
    accepted_proposal: Option<CausalNodeId>,
    last_relevant_node: Option<CausalNodeId>,
}

impl View for GraphBuilder {
    type V = GraphState;

    closed spec fn view(&self) -> GraphState {
        GraphState {
            nodes: node_views(self.nodes@),
            edges: self.edges@,
            objectives: self.objectives@,
            decisions: self.decisions@,
            decision_tasks: self.decision_tasks@,
            tasks: self.tasks@,
            assignments: self.assignments@,
            latest_scheduler: self.latest_scheduler@,
            latest_policy: self.latest_policy@,
            latest_action: self.latest_action@,
            latest_action_request: self.latest_action_request,
            pending_failure: self.pending_failure,
            pending_recovery: self.pending_recovery,
            latest_proposal: self.latest_proposal,
            accepted_proposal: self.accepted_proposal,
            last_relevant: self.last_relevant_node,
        }
    }
}

fn get_node<K: crate::ordered_map::MapKey>(map: &OrderedMap<K, CausalNodeId>, k: K) -> (r: Option<
    CausalNodeId,
>)
    ensures
        r == lookup(map@, k),
{
    match map.get(&k) {
        Some(n) => Some(*n),
        None => None,
    }
}

impl GraphBuilder {
    spec fn wf(&self) -> bool {
        self.next_node_id == self.nodes@.len() + 1
    }

    fn new() -> (r: Self)
        ensures
            r.wf(),
            r@ == empty_graph_state(),
    {
        let b = GraphBuilder {
            nodes: Vec::new(),
            edges: Vec::new(),
            next_node_id: 1,
            objectives: OrderedMap::new(),
            decisions: OrderedMap::new(),
            decision_tasks: OrderedMap::new(),
            tasks: OrderedMap::new(),
            assignments: OrderedMap::new(),
            latest_scheduler: OrderedMap::new(),
            latest_policy: OrderedMap::new(),
            latest_action: OrderedMap::new(),
            latest_action_request: None,
            pending_failure: None,
            pending_recovery: None,
            latest_proposal: None,
            accepted_proposal: None,
            last_relevant_node: None,
        };
        assert(b@.nodes =~= Seq::<CausalNodeView>::empty());
        b
    }

    fn add_node(&mut self, kind: CausalNodeKind, label: String, event_id: Option<EventId>) -> (r:
        CausalNodeId)
        requires
            old(self).wf(),
            old(self)@.nodes.len() + 2 < u64::MAX,
        ensures
            final(self).wf(),
            r == next_node(old(self)@),
            final(self)@ == with_node(old(self)@, kind, label@, event_id),
    {
        let node_id = CausalNodeId::new(self.next_node_id);
        self.next_node_id = self.next_node_id + 1;
        let ghost before = self.nodes@;
        let ghost label_view = label@;
        self.nodes.push(CausalNode { id: node_id, kind, label, event_id });
        self.last_relevant_node = Some(node_id);
        assert(node_views(self.nodes@) =~= node_views(before).push(
            CausalNodeView { id: node_id, kind, label: label_view, event_id },
        ));
        node_id
    }

    fn add_edge(&mut self, from: CausalNodeId, to: CausalNodeId, kind: CausalEdgeKind)
        requires
            old(self).wf(),
        ensures
            final(self).wf(),
            final(self)@ == with_edge(old(self)@, from, to, kind),
    {
        self.edges.push(CausalEdge { from, to, kind });
    }

    fn add_edge_from(&mut self, parent: Option<CausalNodeId>, to: CausalNodeId, kind: CausalEdgeKind)
        requires
            old(self).wf(),
        ensures
            final(self).wf(),
            final(self)@ == with_edge_from(old(self)@, parent, to, kind),
    {
        if let Some(p) = parent {
            self.add_edge(p, to, kind);
        }
    }

    fn add_proposal_received(&mut self, eid: EventId)
        requires
            old(self).wf(),
            old(self)@.nodes.len() + 2 < u64::MAX,
        ensures
            final(self).wf(),
            final(self)@ == step_proposal_received(old(self)@, eid),
    {
        let n = self.add_node(CausalNodeKind::Proposal, String::from_str("ProposalReceived"), Some(eid));
        self.latest_proposal = Some(n);
    }

    fn add_proposal_parsed(&mut self, eid: EventId, p: &ParsedProposal)
        requires
            old(self).wf(),
            old(self)@.nodes.len() + 2 < u64::MAX,
        ensures
            final(self).wf(),
            final(self)@ == step_proposal_parsed(old(self)@, eid, *p),
    {
        let parent = self.latest_proposal;
        let mut label = String::from_str("ProposalParsed ");
        push_proposal_summary(&mut label, p);
        let n = self.add_node(CausalNodeKind::Proposal, label, Some(eid));
        self.add_edge_from(parent, n, CausalEdgeKind::Caused);
        self.latest_proposal = Some(n);
    }

    fn add_proposal_accepted(&mut self, eid: EventId, p: &ParsedProposal)
        requires
            old(self).wf(),
            old(self)@.nodes.len() + 2 < u64::MAX,
        ensures
            final(self).wf(),
            final(self)@ == step_proposal_accepted(old(self)@, eid, *p),
    {
        let parent = self.latest_proposal;
        let mut label = String::from_str("ProposalAccepted ");
        push_proposal_summary(&mut label, p);
        let n = self.add_node(CausalNodeKind::ProposalAccepted, label, Some(eid));
        self.add_edge_from(parent, n, CausalEdgeKind::Caused);
        self.latest_proposal = None;
        self.accepted_proposal = Some(n);
    }

    fn add_proposal_rejected(&mut self, eid: EventId, r: &ProposalRejection)
        requires
            old(self).wf(),
            old(self)@.nodes.len() + 2 < u64::MAX,
        ensures
            final(self).wf(),
            final(self)@ == step_proposal_rejected(old(self)@, eid, *r),
    {
        let parent = self.latest_proposal;
        let mut label = String::from_str("ProposalRejected error=");
        push_rejection(&mut label, r);
        let n = self.add_node(CausalNodeKind::ProposalRejected, label, Some(eid));
        self.add_edge_from(parent, n, CausalEdgeKind::Caused);
        self.latest_proposal = None;
    }

    fn add_objective(&mut self, eid: EventId, o: &Objective)
        requires
            old(self).wf(),
            old(self)@.nodes.len() + 2 < u64::MAX,
        ensures
            final(self).wf(),
            final(self)@ == step_objective(old(self)@, eid, *o),
    {
        let parent = self.accepted_proposal;
        let mut label = String::new();
        push_objective_label(&mut label, o);
        let n = self.add_node(CausalNodeKind::Objective, label, Some(eid));
        self.add_edge_from(parent, n, CausalEdgeKind::Caused);
        self.objectives.insert(o.id, n);
        self.accepted_proposal = None;
    }

    fn add_decision(&mut self, eid: EventId, d: &Decision)
        requires
            old(self).wf(),
            old(self)@.nodes.len() + 2 < u64::MAX,
        ensures
            final(self).wf(),
            final(self)@ == step_decision(old(self)@, eid, *d),
    {
        let parent = get_node(&self.objectives, d.objective_id);
        let mut label = String::new();
        push_decision_label(&mut label, d);
        let n = self.add_node(CausalNodeKind::Decision, label, Some(eid));
        self.add_edge_from(parent, n, CausalEdgeKind::Caused);
        self.decisions.insert(d.id, n);
        match d.kind {
            DecisionKind::CreateTask { task_id } => {
                self.decision_tasks.insert(task_id, n);
            },
        }
    }

    fn add_task(&mut self, eid: EventId, t: &Task)
        requires
            old(self).wf(),
            old(self)@.nodes.len() + 2 < u64::MAX,
        ensures
            final(self).wf(),
            final(self)@ == step_task(old(self)@, eid, *t),
    {
        let parent = match t.decision_id {
            Some(d) => get_node(&self.decisions, d),
            None => get_node(&self.decision_tasks, t.id),
        };
        let mut label = String::new();
        push_task_label(&mut label, t);
        let n = self.add_node(CausalNodeKind::Task, label, Some(eid));
        self.add_edge_from(parent, n, CausalEdgeKind::Emitted);
        self.tasks.insert(t.id, n);
    }

    fn add_assignment(&mut self, eid: EventId, a: &Assignment)
        requires
            old(self).wf(),
            old(self)@.nodes.len() + 2 < u64::MAX,
        ensures
            final(self).wf(),
            final(self)@ == step_assignment(old(self)@, eid, *a),
    {
        let parent = get_node(&self.tasks, a.task_id);
        let mut label = String::new();
        push_assignment_label(&mut label, a);
        let n = self.add_node(CausalNodeKind::Assignment, label, Some(eid));
        self.add_edge_from(parent, n, CausalEdgeKind::Assigned);
        self.assignments.insert(a.id, n);
    }

    fn add_failure(&mut self, eid: EventId, worker_id: WorkerId)
        requires
            old(self).wf(),
            old(self)@.nodes.len() + 2 < u64::MAX,
        ensures
            final(self).wf(),
            final(self)@ == step_failure(old(self)@, eid, worker_id),
    {
        let mut label = String::from_str("FailureInjected worker=");
        push_u64(&mut label, worker_id.0);
        label.append(" reason=Injected");
        let n = self.add_node(CausalNodeKind::Failure, label, Some(eid));
        self.pending_failure = Some((worker_id, n));
    }

    fn add_recovery(&mut self, eid: EventId, worker_id: WorkerId)
        requires
            old(self).wf(),
            old(self)@.nodes.len() + 2 < u64::MAX,
        ensures
            final(self).wf(),
            final(self)@ == step_recovery(old(self)@, eid, worker_id),
    {
        let mut label = String::from_str("RecoveryEmitted worker=");
        push_u64(&mut label, worker_id.0);
        label.append(" recovery=RepairWorker");
        let n = self.add_node(CausalNodeKind::Recovery, label, Some(eid));
        self.pending_recovery = Some((worker_id, n));
    }

    fn add_scheduler(&mut self, eid: EventId, assignment_id: AssignmentId, outcome: &ScheduleOutcome)
        requires
            old(self).wf(),
            old(self)@.nodes.len() + 2 < u64::MAX,
        ensures
            final(self).wf(),
            final(self)@ == step_scheduler(old(self)@, eid, assignment_id, *outcome),
    {
        let parent = get_node(&self.assignments, assignment_id);
        let mut label = String::new();
        push_schedule_outcome_label(&mut label, outcome);
        let n = self.add_node(CausalNodeKind::Scheduler, label, Some(eid));
        self.add_edge_from(parent, n, CausalEdgeKind::Scheduled);
        self.latest_scheduler.insert(assignment_id, n);
    }

    fn policy_parent(&self, a: AssignmentId) -> (r: Option<CausalNodeId>)
        ensures
            r == policy_parent(self@, a),
    {
        match get_node(&self.latest_scheduler, a) {
            Some(s) => Some(s),
            None => get_node(&self.assignments, a),
        }
    }

    fn add_policy_accepted(
        &mut self,
        eid: EventId,
        action: &WorkerAction,
        assignment: Option<AssignmentId>,
    )
        requires
            old(self).wf(),
            old(self)@.nodes.len() + 2 < u64::MAX,
        ensures
            final(self).wf(),
            final(self)@ == step_policy_accepted(old(self)@, eid, *action, assignment),
    {
        let mut label = String::from_str("PolicyAccepted ");
        push_action_label(&mut label, action);
        match assignment {
            Some(a) => {
                let parent = self.policy_parent(a);
                let n = self.add_node(CausalNodeKind::Policy, label, Some(eid));
                self.add_edge_from(parent, n, CausalEdgeKind::AcceptedByPolicy);
                self.latest_policy.insert(a, n);
            },
            None => {
                self.add_node(CausalNodeKind::Policy, label, Some(eid));
            },
        }
    }

    fn add_policy_rejected(
        &mut self,
        eid: EventId,
        action: &WorkerAction,
        assignment: Option<AssignmentId>,
        error: &PolicyError,
    )
        requires
            old(self).wf(),
            old(self)@.nodes.len() + 2 < u64::MAX,
        ensures
            final(self).wf(),
            final(self)@ == step_policy_rejected(old(self)@, eid, *action, assignment, *error),
    {
        let mut label = String::from_str("PolicyRejected ");
        push_action_label(&mut label, action);
        label.append(" error=");
        push_policy_error_label(&mut label, error);
        match assignment {
            Some(a) => {
                let parent = self.policy_parent(a);
                let n = self.add_node(CausalNodeKind::Rejection, label, Some(eid));
                self.add_edge_from(parent, n, CausalEdgeKind::RejectedByPolicy);
            },
            None => {
                self.add_node(CausalNodeKind::Rejection, label, Some(eid));
            },
        }
    }

    fn link_pending_worker_event(&mut self, action: &WorkerAction, n: CausalNodeId)
        requires
            old(self).wf(),
        ensures
            final(self).wf(),
            final(self)@ == link_pending(old(self)@, *action, n),
    {
        match *action {
            WorkerAction::DisableWorker { worker_id } => {
                if let Some((w, p)) = self.pending_failure {
                    if w == worker_id {
                        self.add_edge(p, n, CausalEdgeKind::Emitted);
                        self.pending_failure = None;
                    }
                }
            },
            WorkerAction::RepairWorker { worker_id } => {
                if let Some((w, p)) = self.pending_recovery {
                    if w == worker_id {
                        self.add_edge(p, n, CausalEdgeKind::Emitted);
                        self.pending_recovery = None;
                    }
                }
            },
            _ => {},
        }
    }

    fn add_action_requested(
        &mut self,
        eid: EventId,
        action: &WorkerAction,
        assignment: Option<AssignmentId>,
    )
        requires
            old(self).wf(),
            old(self)@.nodes.len() + 2 < u64::MAX,
        ensures
            final(self).wf(),
            final(self)@ == step_action_requested(old(self)@, eid, *action, assignment),
    {
        let mut label = String::from_str("ActionRequested ");
        push_action_label(&mut label, action);
        let n = match assignment {
            Some(a) => {
                let parent = match get_node(&self.latest_policy, a) {
                    Some(p) => Some(p),
                    None => get_node(&self.assignments, a),
                };
                let n = self.add_node(CausalNodeKind::Action, label, Some(eid));
                self.add_edge_from(parent, n, CausalEdgeKind::RequestedAction);
                self.latest_action.insert(a, n);
                n
            },
            None => self.add_node(CausalNodeKind::Action, label, Some(eid)),
        };
        self.latest_action_request = Some(n);
        self.link_pending_worker_event(action, n);
    }

    fn action_parent(&self, assignment: Option<AssignmentId>) -> (r: Option<CausalNodeId>)
        ensures
            r == action_parent(self@, assignment),
    {
        match assignment {
            Some(a) => match get_node(&self.latest_action, a) {
                Some(x) => Some(x),
                None => self.latest_action_request,
            },
            None => self.latest_action_request,
        }
    }

    fn add_action_applied(
        &mut self,
        eid: EventId,
        action: &WorkerAction,
        assignment: Option<AssignmentId>,
        resulting_tick: Tick,
    )
        requires
            old(self).wf(),
            old(self)@.nodes.len() + 2 < u64::MAX,
        ensures
            final(self).wf(),
            final(self)@ == step_action_applied(
                old(self)@,
                eid,
                *action,
                assignment,
                resulting_tick,
            ),
    {
        let parent = self.action_parent(assignment);
        let mut label = String::from_str("ActionApplied ");
        push_action_label(&mut label, action);
        label.append(" resulting_tick=");
        push_u64(&mut label, resulting_tick.0);
        let n = self.add_node(CausalNodeKind::StateTransition, label, Some(eid));
        self.add_edge_from(parent, n, CausalEdgeKind::AppliedAction);
    }

    fn add_action_rejected(
        &mut self,
        eid: EventId,
        action: &WorkerAction,
        assignment: Option<AssignmentId>,
        error: &SimError,
    )
        requires
            old(self).wf(),
            old(self)@.nodes.len() + 2 < u64::MAX,
        ensures
            final(self).wf(),
            final(self)@ == step_action_rejected(old(self)@, eid, *action, assignment, *error),
    {
        let parent = self.action_parent(assignment);
        let mut label = String::from_str("ActionRejected ");
        push_action_label(&mut label, action);
        label.append(" error=");
        push_sim_error(&mut label, error);
        let n = self.add_node(CausalNodeKind::Rejection, label, Some(eid));
        self.add_edge_from(parent, n, CausalEdgeKind::RejectedAction);
    }

    fn add_event(&mut self, event: &EventEnvelope)
        requires
            old(self).wf(),
            old(self)@.nodes.len() + 2 < u64::MAX,
        ensures
            final(self).wf(),
            final(self)@ == graph_step(old(self)@, *event),
    {
        let eid = event.id;
        match &event.kind {
            EventKind::ProposalReceived { .. } => self.add_proposal_received(eid),
            EventKind::ProposalParsed { proposal } => self.add_proposal_parsed(eid, proposal),
            EventKind::ProposalAccepted { proposal } => self.add_proposal_accepted(eid, proposal),
            EventKind::ProposalRejected { rejection } => self.add_proposal_rejected(eid, rejection),
            EventKind::ObjectiveAccepted { objective } => self.add_objective(eid, objective),
            EventKind::DecisionEmitted { decision } => self.add_decision(eid, decision),
            EventKind::TaskCreated { task } => self.add_task(eid, task),
            EventKind::TaskAssigned { assignment } => self.add_assignment(eid, assignment),
            EventKind::FailureInjected { worker_id, .. } => self.add_failure(eid, *worker_id),
            EventKind::RecoveryEmitted { worker_id, .. } => self.add_recovery(eid, *worker_id),
            EventKind::SchedulerEmitted { assignment_id, outcome } => self.add_scheduler(
                eid,
                *assignment_id,
                outcome,
            ),
            EventKind::PolicyAccepted { action, context } => self.add_policy_accepted(
                eid,
                action,
                context.assignment_id,
            ),
            EventKind::PolicyRejected { action, context, error } => self.add_policy_rejected(
                eid,
                action,
                context.assignment_id,
                error,
            ),
            EventKind::ActionRequested { action, context } => self.add_action_requested(
                eid,
                action,
                context.assignment_id,
            ),
            EventKind::ActionApplied { action, context, resulting_tick } => self.add_action_applied(
                eid,
                action,
                context.assignment_id,
                *resulting_tick,
            ),
            EventKind::ActionRejected { action, context, error } => self.add_action_rejected(
                eid,
                action,
                context.assignment_id,
                error,
            ),
        }
    }

    fn finish(self) -> (r: CausalGraph)
        ensures
            r@.nodes == self@.nodes,
            r@.edges == self@.edges,
    {
        CausalGraph { nodes: self.nodes, edges: self.edges }
    }
}

/// Builds the causal graph of an event sequence: one node per event, numbered from 1 in
/// order, with edges from explicit identifiers, assignment context and adjacent
/// lifecycle pairs; when `replay_verified`, a replay node follows the last node.
pub fn build_causal_graph(events: &[EventEnvelope], replay_verified: bool) -> (r: CausalGraph)
    requires
        events@.len() + 3 < u64::MAX,
    ensures
        r@ == spec_build_graph(events@, replay_verified),
{
    let mut builder = GraphBuilder::new();
    let n = events.len();
    let mut i: usize = 0;
    while i < n
        invariant
            n == events@.len(),
            n + 3 < u64::MAX,
            0 <= i <= n,
            builder.wf(),
            builder@ == graph_fold(events@.subrange(0, i as int)),
            builder@.nodes.len() == i,
        decreases n - i,
    {
        builder.add_event(&events[i]);
        proof {
            assert(events@.subrange(0, i + 1).drop_last() =~= events@.subrange(0, i as int));
        }
        i = i + 1;
    }
    proof {
        assert(events@.subrange(0, n as int) =~= events@);
    }
    if replay_verified {
        let previous = builder.last_relevant_node;
        let node_id = builder.add_node(
            CausalNodeKind::ReplayVerification,
            String::from_str("ReplayVerification verified=true"),
            None,
        );
        builder.add_edge_from(previous, node_id, CausalEdgeKind::VerifiedByReplay);
    }
    builder.finish()
}

} // verus!
