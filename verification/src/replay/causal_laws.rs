use vstd::prelude::*;

use crate::ordered_map::{
    entries_sorted, has_key, insert_index, key_index, lemma_lookup_after_put, lemma_put_sorted,
    lookup, put,
};
use crate::ordered_map::MapKey;
use crate::replay::causal_graph::{
    action_parent, empty_graph_state, first_of, graph_fold, graph_step, link_pending,
    next_node, policy_parent, spec_build_graph, with_edge, with_edge_from, with_node,
    CausalNodeId, CausalNodeKind, GraphState,
};
use crate::primitives::error::sim_error_text;
use crate::primitives::ids::{AssignmentId, EventId};
use crate::replay::causal_graph::{failure_label, recovery_label, CausalEdge, CausalEdgeKind};
use crate::replay::causal_labels::{
    action_label, assignment_label, decision_label, objective_label, policy_error_label,
    proposal_summary, schedule_outcome_label, task_label,
};
use crate::replay::event_log::{EventEnvelope, EventKind};
use crate::sim::action::WorkerAction;
use crate::sim::proposal::rejection_text;
use crate::sim::task::DecisionKind;
use crate::text::dec;

verus! {

/// Every node identifier stored in `m` names one of the first `n` nodes.
pub open spec fn refs_within<K>(m: Seq<(K, CausalNodeId)>, n: nat) -> bool {
    forall|i: int| 0 <= i < m.len() ==> 1 <= (#[trigger] m[i]).1.0 <= n
}

/// The optional node identifier names one of the first `n` nodes.
pub open spec fn opt_within(o: Option<CausalNodeId>, n: nat) -> bool {
    o matches Some(x) ==> 1 <= x.0 <= n
}

/// The builder's state is consistent: nodes are numbered 1, 2, 3, ... in order, every edge
/// runs from an earlier node to a later one, and every remembered node exists.
pub open spec fn graph_state_ok(g: GraphState) -> bool {
    let n = g.nodes.len();
    &&& forall|i: int| 0 <= i < n ==> (#[trigger] g.nodes[i]).id.0 == i + 1
    &&& forall|j: int|
        0 <= j < g.edges.len() ==> 1 <= (#[trigger] g.edges[j]).from.0 < g.edges[j].to.0 <= n
    &&& entries_sorted(g.objectives)
    &&& entries_sorted(g.decisions)
    &&& entries_sorted(g.decision_tasks)
    &&& entries_sorted(g.tasks)
    &&& entries_sorted(g.assignments)
    &&& entries_sorted(g.latest_scheduler)
    &&& entries_sorted(g.latest_policy)
    &&& entries_sorted(g.latest_action)
    &&& refs_within(g.objectives, n)
    &&& refs_within(g.decisions, n)
    &&& refs_within(g.decision_tasks, n)
    &&& refs_within(g.tasks, n)
    &&& refs_within(g.assignments, n)
    &&& refs_within(g.latest_scheduler, n)
    &&& refs_within(g.latest_policy, n)
    &&& refs_within(g.latest_action, n)
    &&& opt_within(g.latest_action_request, n)
    &&& (g.pending_failure matches Some(p) ==> 1 <= p.1.0 <= n)
    &&& (g.pending_recovery matches Some(p) ==> 1 <= p.1.0 <= n)
    &&& opt_within(g.latest_proposal, n)
    &&& opt_within(g.accepted_proposal, n)
    &&& opt_within(g.last_relevant, n)
}

proof fn lemma_lookup_within<K>(m: Seq<(K, CausalNodeId)>, k: K, n: nat)
    requires
        refs_within(m, n),
    ensures
        opt_within(lookup(m, k), n),
{
    if has_key(m, k) {
        let i = key_index(m, k);
        assert(1 <= m[i].1.0 <= n);
    }
}

proof fn lemma_put_within<K: MapKey>(m: Seq<(K, CausalNodeId)>, k: K, v: CausalNodeId, n: nat)
    requires
        entries_sorted(m),
        refs_within(m, n),
        1 <= v.0 <= n,
    ensures
        entries_sorted(put(m, k, v)),
        refs_within(put(m, k, v), n),
{
    lemma_put_sorted(m, k, v);
    let r = put(m, k, v);
    if has_key(m, k) {
        let idx = key_index(m, k);
        assert forall|i: int| 0 <= i < r.len() implies 1 <= (#[trigger] r[i]).1.0 <= n by {
            if i != idx {
                assert(r[i] == m[i]);
            }
        }
    } else {
        let p = insert_index(m, k);
        assert forall|i: int| 0 <= i < r.len() implies 1 <= (#[trigger] r[i]).1.0 <= n by {
            if i < p {
                assert(r[i] == m[i]);
            } else if i > p {
                assert(r[i] == m[i - 1]);
            }
        }
    }
}

proof fn lemma_node_added(
    g: GraphState,
    kind: CausalNodeKind,
    label: Seq<char>,
    event_id: Option<EventId>,
)
    requires
        graph_state_ok(g),
        g.nodes.len() + 2 < u64::MAX,
    ensures
        graph_state_ok(with_node(g, kind, label, event_id)),
        next_node(g).0 == g.nodes.len() + 1,
        with_node(g, kind, label, event_id).nodes.len() == g.nodes.len() + 1,
        with_node(g, kind, label, event_id).nodes.subrange(0, g.nodes.len() as int) == g.nodes,
        with_node(g, kind, label, event_id).nodes.last().event_id == event_id,
{
    let g1 = with_node(g, kind, label, event_id);
    let n = g.nodes.len();
    assert forall|i: int| 0 <= i < n + 1 implies (#[trigger] g1.nodes[i]).id.0 == i + 1 by {
        if i < n {
            assert(g1.nodes[i] == g.nodes[i]);
        }
    }
    assert(g1.nodes.subrange(0, n as int) =~= g.nodes);
}

proof fn lemma_edge_added(
    g: GraphState,
    parent: Option<CausalNodeId>,
    to: CausalNodeId,
    kind: CausalEdgeKind,
)
    requires
        graph_state_ok(g),
        to.0 == g.nodes.len(),
        parent matches Some(p) ==> 1 <= p.0 < to.0,
    ensures
        graph_state_ok(with_edge_from(g, parent, to, kind)),
        with_edge_from(g, parent, to, kind).nodes == g.nodes,
{
    let g1 = with_edge_from(g, parent, to, kind);
    if let Some(p) = parent {
        assert forall|j: int| 0 <= j < g1.edges.len() implies 1 <= (#[trigger] g1.edges[j]).from.0
            < g1.edges[j].to.0 <= g1.nodes.len() by {
            if j < g.edges.len() {
                assert(g1.edges[j] == g.edges[j]);
            }
        }
    }
}

proof fn lemma_link_added(g: GraphState, action: WorkerAction, node: CausalNodeId)
    requires
        graph_state_ok(g),
        node.0 == g.nodes.len(),
        g.pending_failure matches Some(p) ==> p.1.0 < node.0,
        g.pending_recovery matches Some(p) ==> p.1.0 < node.0,
    ensures
        graph_state_ok(link_pending(g, action, node)),
        link_pending(g, action, node).nodes == g.nodes,
{
    match action {
        WorkerAction::DisableWorker { worker_id } => {
            if let Some((w, p)) = g.pending_failure {
                if w == worker_id {
                    lemma_edge_added(g, Some(p), node, CausalEdgeKind::Emitted);
                }
            }
        },
        WorkerAction::RepairWorker { worker_id } => {
            if let Some((w, p)) = g.pending_recovery {
                if w == worker_id {
                    lemma_edge_added(g, Some(p), node, CausalEdgeKind::Emitted);
                }
            }
        },
        _ => {},
    }
}

/// Reading one event keeps the builder consistent and adds exactly one node, made from that
/// event.
pub proof fn lemma_graph_step(g: GraphState, e: EventEnvelope)
    requires
        graph_state_ok(g),
        g.nodes.len() + 2 < u64::MAX,
    ensures
        graph_state_ok(graph_step(g, e)),
        graph_step(g, e).nodes.len() == g.nodes.len() + 1,
        graph_step(g, e).nodes.subrange(0, g.nodes.len() as int) == g.nodes,
        graph_step(g, e).nodes.last().event_id == Some(e.id),
        graph_step(g, e).last_relevant == Some(next_node(g)),
{
    let n = g.nodes.len();
    let nn = next_node(g);
    let eid = Some(e.id);
    match e.kind {
        EventKind::ProposalReceived { .. } => {
            lemma_node_added(g, CausalNodeKind::Proposal, "ProposalReceived"@, eid);
        },
        EventKind::ProposalParsed { proposal } => {
            let label = "ProposalParsed "@ + proposal_summary(proposal);
            lemma_node_added(g, CausalNodeKind::Proposal, label, eid);
            let g1 = with_node(g, CausalNodeKind::Proposal, label, eid);
            lemma_edge_added(g1, g.latest_proposal, nn, CausalEdgeKind::Caused);
        },
        EventKind::ProposalAccepted { proposal } => {
            let label = "ProposalAccepted "@ + proposal_summary(proposal);
            lemma_node_added(g, CausalNodeKind::ProposalAccepted, label, eid);
            let g1 = with_node(g, CausalNodeKind::ProposalAccepted, label, eid);
            lemma_edge_added(g1, g.latest_proposal, nn, CausalEdgeKind::Caused);
        },
        EventKind::ProposalRejected { rejection } => {
            let label = "ProposalRejected error="@ + rejection_text(rejection);
            lemma_node_added(g, CausalNodeKind::ProposalRejected, label, eid);
            let g1 = with_node(g, CausalNodeKind::ProposalRejected, label, eid);
            lemma_edge_added(g1, g.latest_proposal, nn, CausalEdgeKind::Caused);
        },
        EventKind::ObjectiveAccepted { objective } => {
            let label = objective_label(objective);
            lemma_node_added(g, CausalNodeKind::Objective, label, eid);
            let g1 = with_node(g, CausalNodeKind::Objective, label, eid);
            lemma_edge_added(g1, g.accepted_proposal, nn, CausalEdgeKind::Caused);
            lemma_put_within(g.objectives, objective.id, nn, n + 1);
        },
        EventKind::DecisionEmitted { decision } => {
            let label = decision_label(decision);
            let task_id = match decision.kind {
                DecisionKind::CreateTask { task_id } => task_id,
            };
            lemma_node_added(g, CausalNodeKind::Decision, label, eid);
            let g1 = with_node(g, CausalNodeKind::Decision, label, eid);
            lemma_lookup_within(g.objectives, decision.objective_id, n);
            lemma_edge_added(
                g1,
                lookup(g.objectives, decision.objective_id),
                nn,
                CausalEdgeKind::Caused,
            );
            lemma_put_within(g.decisions, decision.id, nn, n + 1);
            lemma_put_within(g.decision_tasks, task_id, nn, n + 1);
        },
        EventKind::TaskCreated { task } => {
            let label = task_label(task);
            lemma_node_added(g, CausalNodeKind::Task, label, eid);
            let g1 = with_node(g, CausalNodeKind::Task, label, eid);
            match task.decision_id {
                Some(d) => lemma_lookup_within(g.decisions, d, n),
                None => lemma_lookup_within(g.decision_tasks, task.id, n),
            }
            let parent = match task.decision_id {
                Some(d) => lookup(g.decisions, d),
                None => lookup(g.decision_tasks, task.id),
            };
            lemma_edge_added(g1, parent, nn, CausalEdgeKind::Emitted);
            lemma_put_within(g.tasks, task.id, nn, n + 1);
        },
        EventKind::TaskAssigned { assignment } => {
            let label = assignment_label(assignment);
            lemma_node_added(g, CausalNodeKind::Assignment, label, eid);
            let g1 = with_node(g, CausalNodeKind::Assignment, label, eid);
            lemma_lookup_within(g.tasks, assignment.task_id, n);
            lemma_edge_added(
                g1,
                lookup(g.tasks, assignment.task_id),
                nn,
                CausalEdgeKind::Assigned,
            );
            lemma_put_within(g.assignments, assignment.id, nn, n + 1);
        },
        EventKind::FailureInjected { worker_id, .. } => {
            lemma_node_added(g, CausalNodeKind::Failure, failure_label(worker_id), eid);
        },
        EventKind::RecoveryEmitted { worker_id, .. } => {
            lemma_node_added(g, CausalNodeKind::Recovery, recovery_label(worker_id), eid);
        },
        EventKind::SchedulerEmitted { assignment_id, outcome } => {
            let label = schedule_outcome_label(outcome);
            lemma_node_added(g, CausalNodeKind::Scheduler, label, eid);
            let g1 = with_node(g, CausalNodeKind::Scheduler, label, eid);
            lemma_lookup_within(g.assignments, assignment_id, n);
            lemma_edge_added(
                g1,
                lookup(g.assignments, assignment_id),
                nn,
                CausalEdgeKind::Scheduled,
            );
            lemma_put_within(g.latest_scheduler, assignment_id, nn, n + 1);
        },
        EventKind::PolicyAccepted { action, context } => {
            let label = "PolicyAccepted "@ + action_label(action);
            lemma_node_added(g, CausalNodeKind::Policy, label, eid);
            let g1 = with_node(g, CausalNodeKind::Policy, label, eid);
            if let Some(a) = context.assignment_id {
                lemma_lookup_within(g.latest_scheduler, a, n);
                lemma_lookup_within(g.assignments, a, n);
                lemma_edge_added(g1, policy_parent(g, a), nn, CausalEdgeKind::AcceptedByPolicy);
                lemma_put_within(g.latest_policy, a, nn, n + 1);
            }
        },
        EventKind::PolicyRejected { action, context, error } => {
            let label = "PolicyRejected "@ + action_label(action) + " error="@
                + policy_error_label(error);
            lemma_node_added(g, CausalNodeKind::Rejection, label, eid);
            let g1 = with_node(g, CausalNodeKind::Rejection, label, eid);
            if let Some(a) = context.assignment_id {
                lemma_lookup_within(g.latest_scheduler, a, n);
                lemma_lookup_within(g.assignments, a, n);
                lemma_edge_added(g1, policy_parent(g, a), nn, CausalEdgeKind::RejectedByPolicy);
            }
        },
        EventKind::ActionRequested { action, context } => {
            let label = "ActionRequested "@ + action_label(action);
            lemma_node_added(g, CausalNodeKind::Action, label, eid);
            let g1 = with_node(g, CausalNodeKind::Action, label, eid);
            let g2 = match context.assignment_id {
                Some(a) => {
                    lemma_lookup_within(g.latest_policy, a, n);
                    lemma_lookup_within(g.assignments, a, n);
                    let parent = first_of(lookup(g.latest_policy, a), lookup(g.assignments, a));
                    lemma_edge_added(g1, parent, nn, CausalEdgeKind::RequestedAction);
                    lemma_put_within(g.latest_action, a, nn, n + 1);
                    let g3 = with_edge_from(g1, parent, nn, CausalEdgeKind::RequestedAction);
                    GraphState { latest_action: put(g.latest_action, a, nn), ..g3 }
                },
                None => g1,
            };
            lemma_link_added(GraphState { latest_action_request: Some(nn), ..g2 }, action, nn);
        },
        EventKind::ActionApplied { action, context, resulting_tick } => {
            let label = "ActionApplied "@ + action_label(action) + " resulting_tick="@ + dec(
                resulting_tick.0 as nat,
            );
            lemma_node_added(g, CausalNodeKind::StateTransition, label, eid);
            let g1 = with_node(g, CausalNodeKind::StateTransition, label, eid);
            if let Some(a) = context.assignment_id {
                lemma_lookup_within(g.latest_action, a, n);
            }
            lemma_edge_added(
                g1,
                action_parent(g, context.assignment_id),
                nn,
                CausalEdgeKind::AppliedAction,
            );
        },
        EventKind::ActionRejected { action, context, error } => {
            let label = "ActionRejected "@ + action_label(action) + " error="@ + sim_error_text(
                error,
            );
            lemma_node_added(g, CausalNodeKind::Rejection, label, eid);
            let g1 = with_node(g, CausalNodeKind::Rejection, label, eid);
            if let Some(a) = context.assignment_id {
                lemma_lookup_within(g.latest_action, a, n);
            }
            lemma_edge_added(
                g1,
                action_parent(g, context.assignment_id),
                nn,
                CausalEdgeKind::RejectedAction,
            );
        },
    }
}

proof fn lemma_fold_ok(events: Seq<EventEnvelope>)
    requires
        events.len() + 3 < u64::MAX,
    ensures
        graph_state_ok(graph_fold(events)),
        graph_fold(events).nodes.len() == events.len(),
        forall|i: int|
            0 <= i < events.len() ==> (#[trigger] graph_fold(events).nodes[i]).event_id == Some(
                events[i].id,
            ),
        events.len() > 0 ==> graph_fold(events).last_relevant == Some(
            CausalNodeId(events.len() as u64),
        ),
    decreases events.len(),
{
    if events.len() == 0 {
        let g = empty_graph_state();
        assert(graph_state_ok(g));
    } else {
        let prefix = events.drop_last();
        lemma_fold_ok(prefix);
        let g = graph_fold(prefix);
        lemma_graph_step(g, events.last());
        let g1 = graph_fold(events);
        assert forall|i: int| 0 <= i < events.len() implies (#[trigger] g1.nodes[i]).event_id
            == Some(events[i].id) by {
            if i < prefix.len() {
                assert(g1.nodes.subrange(0, prefix.len() as int)[i] == g.nodes[i]);
                assert(prefix[i] == events[i]);
            }
        }
    }
}

/// The causal graph of an event sequence has one node per event, in order, numbered from 1:
/// node `i` is made from event `i`; with verified replay, one more node, made from no event,
/// closes the graph, joined to the last event's node by the replay edge. Every edge joins two of its nodes and runs from an earlier node to a
/// later one, so following edges always moves forward through the events.
pub proof fn lemma_graph_shape(events: Seq<EventEnvelope>, replay_verified: bool)
    requires
        events.len() + 3 < u64::MAX,
    ensures
        ({
            let g = spec_build_graph(events, replay_verified);
            &&& g.nodes.len() == events.len() + (if replay_verified {
                1int
            } else {
                0int
            })
            &&& forall|i: int| 0 <= i < g.nodes.len() ==> (#[trigger] g.nodes[i]).id.0 == i + 1
            &&& forall|i: int|
                0 <= i < events.len() ==> (#[trigger] g.nodes[i]).event_id == Some(events[i].id)
            &&& replay_verified ==> g.nodes[events.len() as int].event_id is None
                && g.nodes[events.len() as int].kind == CausalNodeKind::ReplayVerification
            &&& forall|j: int|
                0 <= j < g.edges.len() ==> 1 <= (#[trigger] g.edges[j]).from.0 < g.edges[j].to.0
                    <= g.nodes.len()
            &&& replay_verified && events.len() > 0 ==> g.edges.len() > 0 && g.edges.last()
                == CausalEdge {
                from: CausalNodeId(events.len() as u64),
                to: CausalNodeId((events.len() + 1) as u64),
                kind: CausalEdgeKind::VerifiedByReplay,
            }
        }),
{
    lemma_fold_ok(events);
    let g = graph_fold(events);
    if replay_verified {
        let label = "ReplayVerification verified=true"@;
        lemma_node_added(g, CausalNodeKind::ReplayVerification, label, None);
        let g1 = with_node(g, CausalNodeKind::ReplayVerification, label, None);
        lemma_edge_added(g1, g.last_relevant, next_node(g), CausalEdgeKind::VerifiedByReplay);
        let g2 = with_edge_from(g1, g.last_relevant, next_node(g), CausalEdgeKind::VerifiedByReplay);
        assert forall|i: int| 0 <= i < events.len() implies (#[trigger] g2.nodes[i]).event_id
            == Some(events[i].id) by {
            assert(g1.nodes.subrange(0, g.nodes.len() as int)[i] == g.nodes[i]);
        }
    }
}

/// The edges of `g2` start with those of `g`.
pub open spec fn edges_extend(g: GraphState, g2: GraphState) -> bool {
    &&& g2.edges.len() >= g.edges.len()
    &&& g2.edges.subrange(0, g.edges.len() as int) == g.edges
}

proof fn lemma_extend_trans(g: GraphState, g2: GraphState, g3: GraphState)
    requires
        edges_extend(g, g2),
        edges_extend(g2, g3),
    ensures
        edges_extend(g, g3),
{
    assert(g3.edges.subrange(0, g.edges.len() as int) =~= g.edges) by {
        assert forall|k: int| 0 <= k < g.edges.len() implies g3.edges[k] == g.edges[k] by {
            assert(g3.edges.subrange(0, g2.edges.len() as int)[k] == g2.edges[k]);
            assert(g2.edges.subrange(0, g.edges.len() as int)[k] == g.edges[k]);
        }
    }
}

proof fn lemma_edge_extends(g: GraphState, parent: Option<CausalNodeId>, to: CausalNodeId, kind: CausalEdgeKind)
    ensures
        edges_extend(g, with_edge_from(g, parent, to, kind)),
        edges_extend(g, g),
{
    assert(g.edges.subrange(0, g.edges.len() as int) =~= g.edges);
    assert(with_edge_from(g, parent, to, kind).edges.subrange(0, g.edges.len() as int) =~= g.edges);
}

proof fn lemma_link_extends(g: GraphState, action: WorkerAction, n: CausalNodeId)
    ensures
        edges_extend(g, link_pending(g, action, n)),
{
    assert(g.edges.subrange(0, g.edges.len() as int) =~= g.edges);
    assert(g.edges.push(CausalEdge { from: CausalNodeId(0), to: n, kind: CausalEdgeKind::Emitted }).subrange(
        0,
        g.edges.len() as int,
    ) =~= g.edges);
    match action {
        WorkerAction::DisableWorker { worker_id } => {
            if let Some((w, p)) = g.pending_failure {
                lemma_edge_extends(g, Some(p), n, CausalEdgeKind::Emitted);
            }
        },
        WorkerAction::RepairWorker { worker_id } => {
            if let Some((w, p)) = g.pending_recovery {
                lemma_edge_extends(g, Some(p), n, CausalEdgeKind::Emitted);
            }
        },
        _ => {},
    }
}

proof fn lemma_same_edges_extend(g: GraphState)
    ensures
        forall|g1: GraphState| g1.edges == g.edges ==> #[trigger] edges_extend(g, g1),
        forall|g1: GraphState, p: Option<CausalNodeId>, to: CausalNodeId, kind: CausalEdgeKind|
            g1.edges == g.edges ==> edges_extend(g, #[trigger] with_edge_from(g1, p, to, kind)),
{
    assert(g.edges.subrange(0, g.edges.len() as int) =~= g.edges);
    assert forall|g1: GraphState, p: Option<CausalNodeId>, to: CausalNodeId, kind: CausalEdgeKind|
        g1.edges == g.edges implies edges_extend(g, #[trigger] with_edge_from(g1, p, to, kind)) by {
        lemma_edge_extends(g1, p, to, kind);
    }
}

/// Reading an event only adds edges: the earlier edges stay, in order.
proof fn lemma_step_keeps_edges(g: GraphState, e: EventEnvelope)
    ensures
        edges_extend(g, graph_step(g, e)),
{
    let g2 = graph_step(g, e);
    let n = next_node(g);
    lemma_same_edges_extend(g);
    match e.kind {
        EventKind::ActionRequested { action, context } => {
            let g1 = with_node(g, CausalNodeKind::Action, "ActionRequested "@ + action_label(action), Some(e.id));
            let gm = match context.assignment_id {
                Some(a) => {
                    let g3 = with_edge_from(
                        g1,
                        first_of(lookup(g.latest_policy, a), lookup(g.assignments, a)),
                        n,
                        CausalEdgeKind::RequestedAction,
                    );
                    crate::replay::causal_graph::GraphState { latest_action: put(g.latest_action, a, n), ..g3 }
                },
                None => g1,
            };
            let gl = crate::replay::causal_graph::GraphState { latest_action_request: Some(n), ..gm };
            assert(edges_extend(g, gl));
            lemma_link_extends(gl, action, n);
            lemma_extend_trans(g, gl, g2);
        },
        EventKind::ProposalReceived { .. } => {},
        EventKind::ProposalParsed { .. } => {},
        EventKind::ProposalAccepted { .. } => {},
        EventKind::ProposalRejected { .. } => {},
        EventKind::ObjectiveAccepted { .. } => {},
        EventKind::DecisionEmitted { .. } => {},
        EventKind::TaskCreated { .. } => {},
        EventKind::TaskAssigned { .. } => {},
        EventKind::FailureInjected { .. } => {},
        EventKind::RecoveryEmitted { .. } => {},
        EventKind::SchedulerEmitted { .. } => {},
        EventKind::PolicyAccepted { context, .. } => {},
        EventKind::PolicyRejected { .. } => {},
        EventKind::ActionApplied { .. } => {},
        EventKind::ActionRejected { .. } => {},
    }
}

/// Reading an event records a scheduler outcome only for a scheduler event and an
/// assignment only for an assignment event; nothing else changes those records.
proof fn lemma_step_keeps_assignment_records(g: GraphState, e: EventEnvelope)
    ensures
        graph_step(g, e).latest_scheduler == match e.kind {
            EventKind::SchedulerEmitted { assignment_id, .. } => put(
                g.latest_scheduler,
                assignment_id,
                next_node(g),
            ),
            _ => g.latest_scheduler,
        },
        graph_step(g, e).assignments == match e.kind {
            EventKind::TaskAssigned { assignment } => put(g.assignments, assignment.id, next_node(g)),
            _ => g.assignments,
        },
{
}

/// The position of the latest scheduler outcome for assignment `a` among `events`.
pub open spec fn last_scheduled(events: Seq<EventEnvelope>, a: AssignmentId) -> Option<int>
    decreases events.len(),
{
    if events.len() == 0 {
        None
    } else if events.last().kind matches EventKind::SchedulerEmitted { assignment_id, .. }
        && assignment_id == a {
        Some(events.len() - 1)
    } else {
        last_scheduled(events.drop_last(), a)
    }
}

/// The position of the latest record of assignment `a` among `events`.
pub open spec fn last_assigned(events: Seq<EventEnvelope>, a: AssignmentId) -> Option<int>
    decreases events.len(),
{
    if events.len() == 0 {
        None
    } else if events.last().kind matches EventKind::TaskAssigned { assignment }
        && assignment.id == a {
        Some(events.len() - 1)
    } else {
        last_assigned(events.drop_last(), a)
    }
}

/// The node made from the event at position `j`, if any.
pub open spec fn node_at(j: Option<int>) -> Option<CausalNodeId> {
    match j {
        Some(k) => Some(CausalNodeId((k + 1) as u64)),
        None => None,
    }
}

proof fn lemma_fold_assignment_records(events: Seq<EventEnvelope>, a: AssignmentId)
    requires
        events.len() + 3 < u64::MAX,
    ensures
        lookup(graph_fold(events).latest_scheduler, a) == node_at(last_scheduled(events, a)),
        lookup(graph_fold(events).assignments, a) == node_at(last_assigned(events, a)),
    decreases events.len(),
{
    if events.len() > 0 {
        let prefix = events.drop_last();
        let e = events.last();
        lemma_fold_assignment_records(prefix, a);
        lemma_fold_ok(prefix);
        let g = graph_fold(prefix);
        lemma_step_keeps_assignment_records(g, e);
        match e.kind {
            EventKind::SchedulerEmitted { assignment_id, .. } => {
                lemma_lookup_after_put(g.latest_scheduler, assignment_id, next_node(g), a);
            },
            EventKind::TaskAssigned { assignment } => {
                lemma_lookup_after_put(g.assignments, assignment.id, next_node(g), a);
            },
            _ => {},
        }
    }
}

proof fn lemma_fold_edges_grow(events: Seq<EventEnvelope>, i: int)
    requires
        0 <= i <= events.len(),
    ensures
        graph_fold(events.take(i)).edges.len() <= graph_fold(events).edges.len(),
        graph_fold(events).edges.subrange(0, graph_fold(events.take(i)).edges.len() as int)
            == graph_fold(events.take(i)).edges,
    decreases events.len(),
{
    if i == events.len() {
        assert(events.take(i) =~= events);
        let es = graph_fold(events).edges;
        assert(es.subrange(0, es.len() as int) =~= es);
    } else {
        let prefix = events.drop_last();
        assert(prefix.take(i) =~= events.take(i));
        lemma_fold_edges_grow(prefix, i);
        let g = graph_fold(prefix);
        lemma_step_keeps_edges(g, events.last());
        let inner = graph_fold(events.take(i)).edges;
        let outer = graph_fold(events).edges;
        assert(outer.subrange(0, inner.len() as int) =~= inner) by {
            assert forall|k: int| 0 <= k < inner.len() implies outer[k] == inner[k] by {
                assert(outer.subrange(0, g.edges.len() as int)[k] == g.edges[k]);
                assert(g.edges.subrange(0, inner.len() as int)[k] == inner[k]);
            }
        }
    }
}

/// The event a policy outcome for assignment `a` follows, among the events before it: the
/// latest scheduler outcome for `a`, or else the latest record of `a`.
pub open spec fn policy_source(before: Seq<EventEnvelope>, a: AssignmentId) -> Option<int> {
    match last_scheduled(before, a) {
        Some(j) => Some(j),
        None => last_assigned(before, a),
    }
}

/// The edge from the node of event `j` to the node of policy decision `i`, of the kind that
/// decision calls for.
pub open spec fn policy_edge(events: Seq<EventEnvelope>, i: int, j: int) -> CausalEdge {
    CausalEdge {
        from: CausalNodeId((j + 1) as u64),
        to: CausalNodeId((i + 1) as u64),
        kind: if events[i].kind is PolicyRejected {
            CausalEdgeKind::RejectedByPolicy
        } else {
            CausalEdgeKind::AcceptedByPolicy
        },
    }
}

/// A policy decision for an assignment is linked to what it decided on. When event `i` is a
/// policy rejection (or acceptance) of an action for assignment `a`, and an earlier event
/// scheduled or recorded `a`, the causal graph holds an edge of kind `RejectedByPolicy` (or
/// `AcceptedByPolicy`) into the node of event `i`, from the node of the latest scheduler
/// outcome for `a` before it, or, when `a` was never scheduled before it, from the node of
/// the latest record of `a`.
pub proof fn lemma_policy_decision_linked(
    events: Seq<EventEnvelope>,
    replay_verified: bool,
    i: int,
    a: AssignmentId,
)
    requires
        events.len() + 3 < u64::MAX,
        0 <= i < events.len(),
        ({
            ||| events[i].kind matches EventKind::PolicyRejected { context, .. }
                && context.assignment_id == Some(a)
            ||| events[i].kind matches EventKind::PolicyAccepted { context, .. }
                && context.assignment_id == Some(a)
        }),
    ensures
        policy_source(events.take(i), a) matches Some(j) ==> exists|k: int|
            0 <= k < spec_build_graph(events, replay_verified).edges.len()
                && #[trigger] spec_build_graph(events, replay_verified).edges[k] == policy_edge(
                events,
                i,
                j,
            ),
{
    let before = events.take(i);
    let upto = events.take(i + 1);
    assert(upto.drop_last() =~= before);
    assert(upto.last() == events[i]);
    lemma_fold_ok(before);
    lemma_fold_assignment_records(before, a);
    let g = graph_fold(before);
    let g1 = graph_fold(upto);
    assert(g1 == graph_step(g, events[i]));
    lemma_fold_edges_grow(events, i + 1);
    lemma_fold_ok(events);
    let outer = graph_fold(events).edges;
    let graph = spec_build_graph(events, replay_verified);
    if let Some(j) = policy_source(before, a) {
        let k = g1.edges.len() - 1;
        assert(g1.edges[k] == policy_edge(events, i, j));
        assert(outer.subrange(0, g1.edges.len() as int)[k] == g1.edges[k]);
        assert(graph.edges[k] == outer[k]);
    }
}

} // verus!
