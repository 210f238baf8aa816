use vstd::prelude::*;

use crate::primitives::error::same_sim_error;
use crate::primitives::ids::{EventId, WorkerId};
use crate::replay::event_log::{
    action_events, envelope, failure_events, ids_sequential, is_parse_rejection, is_received,
    policy_events, policy_outcome, proposal_events_are, recovery_events, scheduled_events,
    scheduled_outcome, EventEnvelope, EventKind,
};
use crate::replay::replay::{
    last_id, lemma_replay_append, spec_apply_event, spec_replay, spec_replay_from,
    spec_replay_step, spec_validate_event_id,
};
use crate::sim::action::WorkerAction;
use crate::sim::assignment::{ActionContext, Assignment};
use crate::sim::failure::{FailureReason, RecoveryKind};
use crate::sim::policy::ActionPolicy;
use crate::sim::proposal::{spec_parse_proposal, spec_validate_proposal};
use crate::sim::reducer::spec_apply_action;
use crate::sim::scheduler::{spec_schedule_next_action, ScheduleOutcome};
use crate::sim::task::Task;
use crate::sim::world::WorldStateView;

verus! {

/// The world after an attempted action: the reducer's result, or the same world when refused.
pub open spec fn after_action(s: WorldStateView, action: WorkerAction) -> WorldStateView {
    match spec_apply_action(s, action) {
        Ok(n) => n,
        Err(_) => s,
    }
}

/// Whether an event kind is an audit fact, one that never changes the world on replay.
pub open spec fn is_audit_kind(kind: EventKind) -> bool {
    !(kind is ActionApplied) && !(kind is ActionRejected)
}

/// Every reducer error matches itself.
pub proof fn lemma_same_sim_error_reflexive(e: crate::primitives::error::SimError)
    ensures
        same_sim_error(e, e),
{
}

/// Replaying one event in front of others: the event's step, then the rest.
pub proof fn lemma_replay_cons(
    s: WorldStateView,
    e: EventEnvelope,
    rest: Seq<EventEnvelope>,
    previous: Option<EventId>,
)
    ensures
        spec_replay_from(s, seq![e] + rest, previous) == match spec_replay_step(s, e, previous) {
            Err(x) => Err(x),
            Ok(n) => spec_replay_from(n, rest, Some(e.id)),
        },
{
    assert((seq![e] + rest)[0] == e);
    assert((seq![e] + rest).drop_first() =~= rest);
}

/// After `n` numbered events the next identifier, `n + 1`, passes the identifier check.
pub proof fn lemma_next_id_accepted(past: Seq<EventEnvelope>)
    requires
        ids_sequential(past),
        past.len() + 1 < u64::MAX,
    ensures
        last_id(past, None) == (if past.len() == 0 {
            None::<EventId>
        } else {
            Some(EventId(past.len() as u64))
        }),
        spec_validate_event_id(EventId((past.len() + 1) as u64), last_id(past, None)) is Ok,
{
    if past.len() > 0 {
        assert(past[past.len() - 1].id.0 == past.len());
    }
}

/// An audit event recorded at the world's tick replays without changing the world.
pub proof fn lemma_audit_event_replays(s: WorldStateView, e: EventEnvelope)
    requires
        is_audit_kind(e.kind),
        e.tick == s.tick,
    ensures
        spec_apply_event(s, e) == Ok::<WorldStateView, crate::replay::replay::ReplayError>(s),
{
}

/// Replaying the events of an action attempt from its starting world yields the world after
/// the attempt, with the given identifiers accepted.
proof fn lemma_action_segment(
    s: WorldStateView,
    n: nat,
    action: WorkerAction,
    context: ActionContext,
    previous: Option<EventId>,
)
    requires
        n + 3 < u64::MAX,
        spec_validate_event_id(EventId((n + 1) as u64), previous) is Ok,
    ensures
        spec_replay_from(s, action_events(s, n, action, context), previous) == Ok::<
            WorldStateView,
            crate::replay::replay::ReplayError,
        >(after_action(s, action)),
{
    let evs = action_events(s, n, action, context);
    let e0 = evs[0];
    let e1 = evs[1];
    assert(evs =~= seq![e0] + (seq![e1] + Seq::<EventEnvelope>::empty()));
    lemma_replay_cons(s, e0, seq![e1] + Seq::<EventEnvelope>::empty(), previous);
    lemma_replay_cons(s, e1, Seq::<EventEnvelope>::empty(), Some(e0.id));
    match spec_apply_action(s, action) {
        Ok(next) => {},
        Err(err) => {
            lemma_same_sim_error_reflexive(err);
        },
    }
}

/// Events recorded for an action attempt on the replayed world replay to the world after
/// the attempt.
pub proof fn lemma_action_events_replay(
    s0: WorldStateView,
    past: Seq<EventEnvelope>,
    s: WorldStateView,
    action: WorkerAction,
    context: ActionContext,
)
    requires
        ids_sequential(past),
        past.len() + 3 < u64::MAX,
        spec_replay(s0, past) == Ok::<WorldStateView, crate::replay::replay::ReplayError>(s),
    ensures
        spec_replay(s0, past + action_events(s, past.len(), action, context)) == Ok::<
            WorldStateView,
            crate::replay::replay::ReplayError,
        >(after_action(s, action)),
{
    lemma_replay_append(s0, past, action_events(s, past.len(), action, context), None);
    lemma_next_id_accepted(past);
    lemma_action_segment(s, past.len(), action, context, last_id(past, None));
}

/// The world after a policy-gated attempt: unchanged when the policy or the reducer refuses.
pub open spec fn after_policy(s: WorldStateView, action: WorkerAction, policy: ActionPolicy) -> WorldStateView {
    match policy_outcome(s, action, policy) {
        Ok(n) => n,
        Err(_) => s,
    }
}

proof fn lemma_policy_segment(
    s: WorldStateView,
    n: nat,
    action: WorkerAction,
    context: ActionContext,
    policy: ActionPolicy,
    previous: Option<EventId>,
)
    requires
        n + 4 < u64::MAX,
        spec_validate_event_id(EventId((n + 1) as u64), previous) is Ok,
    ensures
        spec_replay_from(s, policy_events(s, n, action, context, policy), previous) == Ok::<
            WorldStateView,
            crate::replay::replay::ReplayError,
        >(after_policy(s, action, policy)),
{
    let evs = policy_events(s, n, action, context, policy);
    let e0 = evs[0];
    let rest = evs.drop_first();
    assert(evs =~= seq![e0] + rest);
    lemma_replay_cons(s, e0, rest, previous);
    match crate::sim::policy::spec_validate_action_policy(s, action, policy) {
        Err(_) => {
            assert(rest =~= Seq::<EventEnvelope>::empty());
        },
        Ok(()) => {
            assert(rest =~= action_events(s, n + 1, action, context));
            lemma_action_segment(s, n + 1, action, context, Some(e0.id));
            lemma_same_sim_error_reflexive(crate::primitives::error::SimError::TickOverflow);
        },
    }
}

/// Events recorded for a policy-gated attempt on the replayed world replay to the world after
/// the attempt.
pub proof fn lemma_policy_events_replay(
    s0: WorldStateView,
    past: Seq<EventEnvelope>,
    s: WorldStateView,
    action: WorkerAction,
    context: ActionContext,
    policy: ActionPolicy,
)
    requires
        ids_sequential(past),
        past.len() + 4 < u64::MAX,
        spec_replay(s0, past) == Ok::<WorldStateView, crate::replay::replay::ReplayError>(s),
    ensures
        spec_replay(s0, past + policy_events(s, past.len(), action, context, policy)) == Ok::<
            WorldStateView,
            crate::replay::replay::ReplayError,
        >(after_policy(s, action, policy)),
{
    lemma_replay_append(s0, past, policy_events(s, past.len(), action, context, policy), None);
    lemma_next_id_accepted(past);
    lemma_policy_segment(s, past.len(), action, context, policy, last_id(past, None));
}

/// The world after a scheduled step: unchanged when nothing is attempted or the attempt fails.
pub open spec fn after_scheduled(
    s: WorldStateView,
    task: Task,
    assignment: Assignment,
    policy: ActionPolicy,
) -> WorldStateView {
    match scheduled_outcome(s, task, assignment, policy) {
        Ok(n) => n,
        Err(_) => s,
    }
}

/// Events recorded for a scheduled step on the replayed world replay to the world after the
/// step.
pub proof fn lemma_scheduled_events_replay(
    s0: WorldStateView,
    past: Seq<EventEnvelope>,
    s: WorldStateView,
    task: Task,
    assignment: Assignment,
    policy: ActionPolicy,
)
    requires
        ids_sequential(past),
        past.len() + 5 < u64::MAX,
        spec_replay(s0, past) == Ok::<WorldStateView, crate::replay::replay::ReplayError>(s),
    ensures
        spec_replay(s0, past + scheduled_events(s, past.len(), task, assignment, policy)) == Ok::<
            WorldStateView,
            crate::replay::replay::ReplayError,
        >(after_scheduled(s, task, assignment, policy)),
{
    let n = past.len();
    let evs = scheduled_events(s, n, task, assignment, policy);
    lemma_replay_append(s0, past, evs, None);
    lemma_next_id_accepted(past);
    let e0 = evs[0];
    let rest = evs.drop_first();
    assert(evs =~= seq![e0] + rest);
    lemma_replay_cons(s, e0, rest, last_id(past, None));
    match spec_schedule_next_action(s, task, assignment) {
        ScheduleOutcome::Action { assignment_id, action } => {
            assert(rest =~= policy_events(
                s,
                n + 1,
                action,
                ActionContext { assignment_id: Some(assignment_id) },
                policy,
            ));
            lemma_policy_segment(
                s,
                n + 1,
                action,
                ActionContext { assignment_id: Some(assignment_id) },
                policy,
                Some(e0.id),
            );
        },
        _ => {
            assert(rest =~= Seq::<EventEnvelope>::empty());
        },
    }
}

/// An audit event recorded at the replayed world's tick, with the next identifier, replays
/// without changing the world.
pub proof fn lemma_audit_record_replays(
    s0: WorldStateView,
    past: Seq<EventEnvelope>,
    s: WorldStateView,
    kind: EventKind,
)
    requires
        ids_sequential(past),
        past.len() + 2 < u64::MAX,
        spec_replay(s0, past) == Ok::<WorldStateView, crate::replay::replay::ReplayError>(s),
        is_audit_kind(kind),
    ensures
        spec_replay(s0, past.push(envelope(past.len(), s.tick, kind))) == Ok::<
            WorldStateView,
            crate::replay::replay::ReplayError,
        >(s),
{
    let e = envelope(past.len(), s.tick, kind);
    assert(past.push(e) =~= past + (seq![e] + Seq::<EventEnvelope>::empty()));
    lemma_replay_append(s0, past, seq![e] + Seq::<EventEnvelope>::empty(), None);
    lemma_next_id_accepted(past);
    lemma_replay_cons(s, e, Seq::<EventEnvelope>::empty(), last_id(past, None));
}

/// Events recorded for an injected failure replay to the world after the disable action.
pub proof fn lemma_failure_events_replay(
    s0: WorldStateView,
    past: Seq<EventEnvelope>,
    s: WorldStateView,
    worker_id: WorkerId,
    context: ActionContext,
)
    requires
        ids_sequential(past),
        past.len() + 4 < u64::MAX,
        spec_replay(s0, past) == Ok::<WorldStateView, crate::replay::replay::ReplayError>(s),
    ensures
        spec_replay(s0, past + failure_events(s, past.len(), worker_id, context)) == Ok::<
            WorldStateView,
            crate::replay::replay::ReplayError,
        >(after_action(s, WorkerAction::DisableWorker { worker_id })),
{
    let n = past.len();
    let evs = failure_events(s, n, worker_id, context);
    lemma_replay_append(s0, past, evs, None);
    lemma_next_id_accepted(past);
    let e0 = evs[0];
    let rest = evs.drop_first();
    assert(evs =~= seq![e0] + rest);
    assert(rest =~= action_events(s, n + 1, WorkerAction::DisableWorker { worker_id }, context));
    lemma_replay_cons(s, e0, rest, last_id(past, None));
    lemma_action_segment(s, n + 1, WorkerAction::DisableWorker { worker_id }, context, Some(e0.id));
}

/// Events recorded for a recovery replay to the world after the repair action.
pub proof fn lemma_recovery_events_replay(
    s0: WorldStateView,
    past: Seq<EventEnvelope>,
    s: WorldStateView,
    worker_id: WorkerId,
    context: ActionContext,
)
    requires
        ids_sequential(past),
        past.len() + 4 < u64::MAX,
        spec_replay(s0, past) == Ok::<WorldStateView, crate::replay::replay::ReplayError>(s),
    ensures
        spec_replay(s0, past + recovery_events(s, past.len(), worker_id, context)) == Ok::<
            WorldStateView,
            crate::replay::replay::ReplayError,
        >(after_action(s, WorkerAction::RepairWorker { worker_id })),
{
    let n = past.len();
    let evs = recovery_events(s, n, worker_id, context);
    lemma_replay_append(s0, past, evs, None);
    lemma_next_id_accepted(past);
    let e0 = evs[0];
    let rest = evs.drop_first();
    assert(evs =~= seq![e0] + rest);
    assert(rest =~= action_events(s, n + 1, WorkerAction::RepairWorker { worker_id }, context));
    lemma_replay_cons(s, e0, rest, last_id(past, None));
    lemma_action_segment(s, n + 1, WorkerAction::RepairWorker { worker_id }, context, Some(e0.id));
}

/// Proposal events, accepted or rejected, replay without changing the world.
pub proof fn lemma_proposal_events_replay(
    s0: WorldStateView,
    past: Seq<EventEnvelope>,
    after: Seq<EventEnvelope>,
    s: WorldStateView,
    text: Seq<char>,
)
    requires
        ids_sequential(past),
        past.len() + 4 < u64::MAX,
        spec_replay(s0, past) == Ok::<WorldStateView, crate::replay::replay::ReplayError>(s),
        proposal_events_are(past, after, s, text),
    ensures
        spec_replay(s0, after) == Ok::<WorldStateView, crate::replay::replay::ReplayError>(s),
{
    let n = past.len();
    let added = after.subrange(n as int, after.len() as int);
    assert(after =~= past + added);
    lemma_replay_append(s0, past, added, None);
    lemma_next_id_accepted(past);
    let e0 = added[0];
    let r1 = added.drop_first();
    assert(added =~= seq![e0] + r1);
    lemma_replay_cons(s, e0, r1, last_id(past, None));
    let e1 = r1[0];
    let r2 = r1.drop_first();
    assert(r1 =~= seq![e1] + r2);
    lemma_replay_cons(s, e1, r2, Some(e0.id));
    match spec_parse_proposal(text) {
        Err(_) => {
            assert(r2 =~= Seq::<EventEnvelope>::empty());
        },
        Ok(p) => {
            let e2 = r2[0];
            assert(r2 =~= seq![e2] + Seq::<EventEnvelope>::empty());
            lemma_replay_cons(s, e2, Seq::<EventEnvelope>::empty(), Some(e1.id));
        },
    }
}

/// The world reached after replaying the first `i` events from `s`.
pub open spec fn world_before(
    s: WorldStateView,
    events: Seq<EventEnvelope>,
    previous: Option<EventId>,
    i: int,
) -> Result<WorldStateView, crate::replay::replay::ReplayError> {
    spec_replay_from(s, events.take(i), previous)
}

/// Identifiers are positive, strictly increasing, and above `previous` when there is one.
#[verifier::opaque]
pub open spec fn ids_increasing(events: Seq<EventEnvelope>, previous: Option<EventId>) -> bool {
    &&& forall|i: int| 0 <= i < events.len() ==> (#[trigger] events[i]).id.0 > 0
    &&& forall|i: int|
        0 <= i < events.len() && previous is Some ==> (#[trigger] events[i]).id.0
            > (previous->Some_0).0
    &&& forall|i: int, j: int|
        0 <= i < j < events.len() ==> (#[trigger] events[i]).id.0 < (#[trigger] events[j]).id.0
}

/// Every event's effect succeeds on the world replayed before it, and the event carries the
/// tick of the world after it.
#[verifier::opaque]
pub open spec fn steps_succeed(
    s: WorldStateView,
    events: Seq<EventEnvelope>,
    previous: Option<EventId>,
) -> bool {
    forall|i: int|
        0 <= i < events.len() ==> {
            &&& world_before(s, events, previous, i) is Ok
            &&& spec_apply_event(world_before(s, events, previous, i)->Ok_0, #[trigger] events[i]) is Ok
            &&& events[i].tick == spec_apply_event(
                world_before(s, events, previous, i)->Ok_0,
                events[i],
            )->Ok_0.tick
        }
}

/// Ticks never decrease, and all lie between `lo` and `hi`.
#[verifier::opaque]
pub open spec fn ticks_ordered(events: Seq<EventEnvelope>, lo: u64, hi: u64) -> bool {
    &&& forall|i: int| 0 <= i < events.len() ==> lo <= (#[trigger] events[i]).tick.0 <= hi
    &&& forall|i: int, j: int|
        0 <= i < j < events.len() ==> (#[trigger] events[i]).tick.0 <= (#[trigger] events[j]).tick.0
}

/// One successful replay step: the identifier is positive and above `previous`, the event's
/// effect yields the next world, whose tick the event carries and which is no earlier.
proof fn lemma_replay_head(s: WorldStateView, e: EventEnvelope, previous: Option<EventId>)
    requires
        spec_replay_step(s, e, previous) is Ok,
    ensures
        e.id.0 > 0,
        previous is Some ==> e.id.0 > (previous->Some_0).0,
        spec_apply_event(s, e) == spec_replay_step(s, e, previous),
        e.tick == spec_replay_step(s, e, previous)->Ok_0.tick,
        s.tick.0 <= spec_replay_step(s, e, previous)->Ok_0.tick.0,
{
    match e.kind {
        EventKind::ActionApplied { action, .. } => {
            crate::sim::reducer::lemma_action_advances_tick(s, action);
        },
        _ => {},
    }
}

/// What a successful replay says of its events: identifiers are positive and strictly
/// increasing (and above `previous`); every event's effect succeeds on the world replayed
/// before it, and the event is stamped with the tick of the world after it, so that applied
/// actions carry their resulting tick and every other event the current tick; ticks never
/// decrease, from the starting world's tick to the final world's.
pub proof fn lemma_replay_success(
    s: WorldStateView,
    events: Seq<EventEnvelope>,
    previous: Option<EventId>,
)
    requires
        spec_replay_from(s, events, previous) is Ok,
    ensures
        s.tick.0 <= spec_replay_from(s, events, previous)->Ok_0.tick.0,
        ids_increasing(events, previous),
        steps_succeed(s, events, previous),
        ticks_ordered(events, s.tick.0, spec_replay_from(s, events, previous)->Ok_0.tick.0),
    decreases events.len(),
{
    let f = spec_replay_from(s, events, previous)->Ok_0;
    if events.len() == 0 {
        reveal(ids_increasing);
        reveal(steps_succeed);
        reveal(ticks_ordered);
    } else {
        let e0 = events[0];
        let rest = events.drop_first();
        let n = spec_replay_step(s, e0, previous)->Ok_0;
        lemma_replay_head(s, e0, previous);
        assert(spec_replay_from(n, rest, Some(e0.id)) == Ok::<WorldStateView, crate::replay::replay::ReplayError>(f));
        lemma_replay_success(n, rest, Some(e0.id));
        assert(ids_increasing(events, previous)) by {
            reveal(ids_increasing);
            assert forall|i: int| 0 <= i < events.len() implies (#[trigger] events[i]).id.0 > 0 by {
                if i > 0 {
                    assert(events[i] == rest[i - 1]);
                }
            }
            assert forall|i: int| 0 <= i < events.len() && previous is Some implies (
            #[trigger] events[i]).id.0 > (previous->Some_0).0 by {
                if i > 0 {
                    assert(events[i] == rest[i - 1]);
                }
            }
            assert forall|i: int, j: int| 0 <= i < j < events.len() implies (
            #[trigger] events[i]).id.0 < (#[trigger] events[j]).id.0 by {
                assert(events[j] == rest[j - 1]);
                if i > 0 {
                    assert(events[i] == rest[i - 1]);
                }
            }
        }
        assert(steps_succeed(s, events, previous)) by {
            reveal(steps_succeed);
            assert(events.take(0) =~= Seq::<EventEnvelope>::empty());
            assert forall|i: int| 0 <= i < events.len() implies {
                &&& world_before(s, events, previous, i) is Ok
                &&& spec_apply_event(world_before(s, events, previous, i)->Ok_0, #[trigger] events[i]) is Ok
                &&& events[i].tick == spec_apply_event(
                    world_before(s, events, previous, i)->Ok_0,
                    events[i],
                )->Ok_0.tick
            } by {
                if i > 0 {
                    assert(events[i] == rest[i - 1]);
                    assert(events.take(i) =~= seq![e0] + rest.take(i - 1));
                    lemma_replay_cons(s, e0, rest.take(i - 1), previous);
                    assert(world_before(s, events, previous, i) == world_before(n, rest, Some(e0.id), i - 1));
                }
            }
        }
        assert(ticks_ordered(events, s.tick.0, f.tick.0)) by {
            reveal(ticks_ordered);
            assert forall|i: int| 0 <= i < events.len() implies s.tick.0 <= (
            #[trigger] events[i]).tick.0 <= f.tick.0 by {
                if i > 0 {
                    assert(events[i] == rest[i - 1]);
                }
            }
            assert forall|i: int, j: int| 0 <= i < j < events.len() implies (
            #[trigger] events[i]).tick.0 <= (#[trigger] events[j]).tick.0 by {
                assert(events[j] == rest[j - 1]);
                if i > 0 {
                    assert(events[i] == rest[i - 1]);
                }
            }
        }
    }
}

/// One recording call, as it is made on the world that the calls before it left.
pub enum RecordedCall {
    /// `record_action_with_context`.
    Action { action: WorkerAction, context: ActionContext },
    /// `record_action_with_policy`.
    Policy { action: WorkerAction, context: ActionContext, policy: ActionPolicy },
    /// `record_scheduled_step`.
    Scheduled { task: Task, assignment: Assignment, policy: ActionPolicy },
    /// `record_worker_failure`.
    Failure { worker_id: WorkerId, context: ActionContext },
    /// `record_worker_recovery`.
    Recovery { worker_id: WorkerId, context: ActionContext },
    /// A single record at the world's tick: an objective, decision, task or assignment, or
    /// one of the proposal records.
    Audit { kind: EventKind },
}

/// The events a call appends after `n` events, made on world `s`.
pub open spec fn call_events(s: WorldStateView, n: nat, c: RecordedCall) -> Seq<EventEnvelope> {
    match c {
        RecordedCall::Action { action, context } => action_events(s, n, action, context),
        RecordedCall::Policy { action, context, policy } => policy_events(s, n, action, context, policy),
        RecordedCall::Scheduled { task, assignment, policy } => scheduled_events(
            s,
            n,
            task,
            assignment,
            policy,
        ),
        RecordedCall::Failure { worker_id, context } => failure_events(s, n, worker_id, context),
        RecordedCall::Recovery { worker_id, context } => recovery_events(s, n, worker_id, context),
        RecordedCall::Audit { kind } => seq![envelope(n, s.tick, kind)],
    }
}

/// The world a call leaves: the world its successful result holds, or `s` when it fails.
pub open spec fn call_after(s: WorldStateView, c: RecordedCall) -> WorldStateView {
    match c {
        RecordedCall::Action { action, .. } => after_action(s, action),
        RecordedCall::Policy { action, policy, .. } => after_policy(s, action, policy),
        RecordedCall::Scheduled { task, assignment, policy } => after_scheduled(
            s,
            task,
            assignment,
            policy,
        ),
        RecordedCall::Failure { worker_id, .. } => after_action(
            s,
            WorkerAction::DisableWorker { worker_id },
        ),
        RecordedCall::Recovery { worker_id, .. } => after_action(
            s,
            WorkerAction::RepairWorker { worker_id },
        ),
        RecordedCall::Audit { .. } => s,
    }
}

/// A single record is an audit fact; every other call is allowed as it is.
pub open spec fn call_allowed(c: RecordedCall) -> bool {
    c matches RecordedCall::Audit { kind } ==> is_audit_kind(kind)
}

/// The log and the world after making `calls` in order on an empty log, starting from `s0`.
pub open spec fn recorded(s0: WorldStateView, calls: Seq<RecordedCall>) -> (
    Seq<EventEnvelope>,
    WorldStateView,
)
    decreases calls.len(),
{
    if calls.len() == 0 {
        (Seq::empty(), s0)
    } else {
        let (events, s) = recorded(s0, calls.drop_last());
        (events + call_events(s, events.len(), calls.last()), call_after(s, calls.last()))
    }
}

/// The events are numbered `n + 1`, `n + 2`, ... in order.
pub open spec fn numbered_from(events: Seq<EventEnvelope>, n: nat) -> bool {
    forall|i: int| 0 <= i < events.len() ==> (#[trigger] events[i]).id.0 == n + 1 + i
}

proof fn lemma_numbered_cons(e: EventEnvelope, rest: Seq<EventEnvelope>, n: nat)
    requires
        e.id.0 == n + 1,
        numbered_from(rest, n + 1),
    ensures
        numbered_from(seq![e] + rest, n),
{
    let all = seq![e] + rest;
    assert forall|i: int| 0 <= i < all.len() implies (#[trigger] all[i]).id.0 == n + 1 + i by {
        if i > 0 {
            assert(all[i] == rest[i - 1]);
        }
    }
}

proof fn lemma_call_numbered(s: WorldStateView, n: nat, c: RecordedCall)
    requires
        n + 5 < u64::MAX,
    ensures
        numbered_from(call_events(s, n, c), n),
        call_events(s, n, c).len() <= 4,
{
    let empty = Seq::<EventEnvelope>::empty();
    match c {
        RecordedCall::Action { action, context } => {},
        RecordedCall::Policy { action, context, policy } => {
            let e = envelope(n, s.tick, EventKind::PolicyAccepted { action, context });
            lemma_numbered_cons(e, action_events(s, n + 1, action, context), n);
        },
        RecordedCall::Scheduled { task, assignment, policy } => {
            let outcome = spec_schedule_next_action(s, task, assignment);
            let e = envelope(
                n,
                s.tick,
                EventKind::SchedulerEmitted { assignment_id: assignment.id, outcome },
            );
            match outcome {
                ScheduleOutcome::Action { assignment_id, action } => {
                    let context = ActionContext { assignment_id: Some(assignment_id) };
                    let e1 = envelope(n + 1, s.tick, EventKind::PolicyAccepted { action, context });
                    lemma_numbered_cons(e1, action_events(s, n + 2, action, context), n + 1);
                    lemma_numbered_cons(e, policy_events(s, n + 1, action, context, policy), n);
                },
                _ => {
                    lemma_numbered_cons(e, empty, n);
                },
            }
        },
        RecordedCall::Failure { worker_id, context } => {
            let e = envelope(
                n,
                s.tick,
                EventKind::FailureInjected { worker_id, reason: FailureReason::Injected },
            );
            lemma_numbered_cons(
                e,
                action_events(s, n + 1, WorkerAction::DisableWorker { worker_id }, context),
                n,
            );
        },
        RecordedCall::Recovery { worker_id, context } => {
            let e = envelope(
                n,
                s.tick,
                EventKind::RecoveryEmitted {
                    worker_id,
                    recovery: RecoveryKind::RepairWorker,
                },
            );
            lemma_numbered_cons(
                e,
                action_events(s, n + 1, WorkerAction::RepairWorker { worker_id }, context),
                n,
            );
        },
        RecordedCall::Audit { kind } => {},
    }
}

/// Replay over a whole recording: whatever recording calls are made, in whatever order, on
/// an empty log, each on the world that the calls before it left (the same world after a
/// refused attempt), the log is numbered 1, 2, 3, ... and replays from the starting world to
/// the world the last call left.
pub proof fn lemma_recorded_log_replays(s0: WorldStateView, calls: Seq<RecordedCall>)
    requires
        forall|i: int| 0 <= i < calls.len() ==> call_allowed(#[trigger] calls[i]),
        recorded(s0, calls).0.len() + 5 < u64::MAX,
    ensures
        ids_sequential(recorded(s0, calls).0),
        spec_replay(s0, recorded(s0, calls).0) == Ok::<
            WorldStateView,
            crate::replay::replay::ReplayError,
        >(recorded(s0, calls).1),
    decreases calls.len(),
{
    if calls.len() > 0 {
        let prefix = calls.drop_last();
        let c = calls.last();
        let (past, s) = recorded(s0, prefix);
        assert forall|i: int| 0 <= i < prefix.len() implies call_allowed(#[trigger] prefix[i]) by {
            assert(prefix[i] == calls[i]);
        }
        assert(call_allowed(calls[calls.len() - 1]));
        lemma_recorded_log_replays(s0, prefix);
        let added = call_events(s, past.len(), c);
        lemma_call_numbered(s, past.len(), c);
        let all = past + added;
        assert forall|i: int| 0 <= i < all.len() implies (#[trigger] all[i]).id.0 == i + 1 by {
            if i >= past.len() {
                assert(all[i] == added[i - past.len()]);
            } else {
                assert(all[i] == past[i]);
            }
        }
        match c {
            RecordedCall::Action { action, context } => {
                lemma_action_events_replay(s0, past, s, action, context);
            },
            RecordedCall::Policy { action, context, policy } => {
                lemma_policy_events_replay(s0, past, s, action, context, policy);
            },
            RecordedCall::Scheduled { task, assignment, policy } => {
                lemma_scheduled_events_replay(s0, past, s, task, assignment, policy);
            },
            RecordedCall::Failure { worker_id, context } => {
                lemma_failure_events_replay(s0, past, s, worker_id, context);
            },
            RecordedCall::Recovery { worker_id, context } => {
                lemma_recovery_events_replay(s0, past, s, worker_id, context);
            },
            RecordedCall::Audit { kind } => {
                assert(past.push(envelope(past.len(), s.tick, kind)) =~= all);
                lemma_audit_record_replays(s0, past, s, kind);
            },
        }
    }
}

/// Whether an event kind is work: an action requested, applied or refused by the reducer, a
/// lifecycle record, or a scheduler outcome.
pub open spec fn is_work_kind(kind: EventKind) -> bool {
    ||| kind is ObjectiveAccepted
    ||| kind is DecisionEmitted
    ||| kind is TaskCreated
    ||| kind is TaskAssigned
    ||| kind is SchedulerEmitted
    ||| kind is ActionRequested
    ||| kind is ActionApplied
    ||| kind is ActionRejected
}

/// An action the policy refuses is recorded as one policy rejection, at the world's tick, and
/// never reaches the reducer: nothing is requested, applied or refused by it.
pub proof fn lemma_policy_refusal_requests_nothing(
    s: WorldStateView,
    n: nat,
    action: WorkerAction,
    context: ActionContext,
    policy: ActionPolicy,
)
    requires
        crate::sim::policy::spec_validate_action_policy(s, action, policy) is Err,
    ensures
        policy_events(s, n, action, context, policy).len() == 1,
        policy_events(s, n, action, context, policy)[0].kind is PolicyRejected,
        policy_events(s, n, action, context, policy)[0].tick == s.tick,
        policy_outcome(s, action, policy) matches Err(e) && e is Policy,
{
}

/// Recording proposal text, whatever it holds, creates no work: every event it appends is a
/// proposal event, and all of them are recorded at the world's tick.
pub proof fn lemma_proposal_creates_no_work(
    before: Seq<EventEnvelope>,
    after: Seq<EventEnvelope>,
    s: WorldStateView,
    text: Seq<char>,
)
    requires
        proposal_events_are(before, after, s, text),
    ensures
        after.len() > before.len(),
        forall|i: int|
            before.len() <= i < after.len() ==> !is_work_kind((#[trigger] after[i]).kind)
                && after[i].tick == s.tick,
{
    let n = before.len() as int;
    assert forall|i: int| n <= i < after.len() implies !is_work_kind((#[trigger] after[i]).kind)
        && after[i].tick == s.tick by {
        if i > n + 1 {
            assert(i == n + 2);
        }
    }
}

/// A scheduled action the policy refuses leaves the world as it was and is recorded as the
/// scheduler's outcome followed by one policy rejection: nothing reaches the reducer.
pub proof fn lemma_scheduled_refusal_requests_nothing(
    s: WorldStateView,
    n: nat,
    task: Task,
    assignment: Assignment,
    policy: ActionPolicy,
)
    requires
        spec_schedule_next_action(s, task, assignment) matches ScheduleOutcome::Action {
            action,
            ..
        } && crate::sim::policy::spec_validate_action_policy(s, action, policy) is Err,
    ensures
        scheduled_events(s, n, task, assignment, policy).len() == 2,
        scheduled_events(s, n, task, assignment, policy)[0].kind is SchedulerEmitted,
        scheduled_events(s, n, task, assignment, policy)[1].kind is PolicyRejected,
        scheduled_outcome(s, task, assignment, policy) is Err,
{
}

} // verus!
