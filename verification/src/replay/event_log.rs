use vstd::prelude::*;
use vstd::string::StringExecFns;

use crate::primitives::error::{sim_error_text, SimError};
use crate::primitives::ids::{AssignmentId, EventId, WorkerId};
use crate::primitives::tick::Tick;
use crate::sim::action::WorkerAction;
use crate::sim::assignment::{ActionContext, Assignment};
use crate::sim::failure::{FailureReason, RecoveryKind};
use crate::sim::objective::Objective;
use crate::sim::policy::{
    policy_error_text, spec_validate_action_policy, validate_action_policy, ActionPolicy,
    PolicyError,
};
use crate::sim::proposal::{
    parse_proposal_text, spec_parse_proposal, spec_validate_proposal, validate_proposal_against_world,
    ParsedProposal, ProposalRejection,
};
use crate::sim::reducer::{apply_action, spec_apply_action, world_result_is};
use crate::sim::scheduler::{
    schedule_in_range, schedule_next_action, spec_schedule_next_action, ScheduleOutcome,
};
use crate::sim::task::{Decision, Task};
use crate::sim::world::{WorldState, WorldStateView};

verus! {

/// One recorded fact: its identifier, the tick it was recorded at, and what happened.
#[derive(Clone, Debug, PartialEq, Eq)]
pub struct EventEnvelope {
    pub id: EventId,
    pub tick: Tick,
    pub kind: EventKind,
}

/// What an event records.
#[derive(Clone, Debug, PartialEq, Eq)]
pub enum EventKind {
    ProposalReceived { text: String },
    ProposalParsed { proposal: ParsedProposal },
    ProposalAccepted { proposal: ParsedProposal },
    ProposalRejected { rejection: ProposalRejection },
    ObjectiveAccepted { objective: Objective },
    DecisionEmitted { decision: Decision },
    TaskCreated { task: Task },
    TaskAssigned { assignment: Assignment },
    FailureInjected { worker_id: WorkerId, reason: FailureReason },
    RecoveryEmitted { worker_id: WorkerId, recovery: RecoveryKind },
    SchedulerEmitted { assignment_id: AssignmentId, outcome: ScheduleOutcome },
    PolicyAccepted { action: WorkerAction, context: ActionContext },
    PolicyRejected { action: WorkerAction, context: ActionContext, error: PolicyError },
    ActionRequested { action: WorkerAction, context: ActionContext },
    ActionApplied { action: WorkerAction, context: ActionContext, resulting_tick: Tick },
    ActionRejected { action: WorkerAction, context: ActionContext, error: SimError },
}

/// The assignment an event belongs to, if any.
pub open spec fn kind_assignment_id(kind: EventKind) -> Option<AssignmentId> {
    match kind {
        EventKind::TaskAssigned { assignment } => Some(assignment.id),
        EventKind::SchedulerEmitted { assignment_id, .. } => Some(assignment_id),
        EventKind::ActionRequested { context, .. } => context.assignment_id,
        EventKind::ActionApplied { context, .. } => context.assignment_id,
        EventKind::ActionRejected { context, .. } => context.assignment_id,
        EventKind::PolicyAccepted { context, .. } => context.assignment_id,
        EventKind::PolicyRejected { context, .. } => context.assignment_id,
        _ => None,
    }
}

/// The assignment of an action event, if any.
pub open spec fn action_event_assignment(kind: EventKind) -> Option<AssignmentId> {
    match kind {
        EventKind::ActionRequested { context, .. } => context.assignment_id,
        EventKind::ActionApplied { context, .. } => context.assignment_id,
        EventKind::ActionRejected { context, .. } => context.assignment_id,
        _ => None,
    }
}

impl EventKind {
    /// The assignment this event belongs to, if any.
    pub fn assignment_id(&self) -> (r: Option<AssignmentId>)
        ensures
            r == kind_assignment_id(*self),
    {
        match self {
            EventKind::TaskAssigned { assignment } => Some(assignment.id),
            EventKind::SchedulerEmitted { assignment_id, .. } => Some(*assignment_id),
            EventKind::ActionRequested { context, .. } => context.assignment_id,
            EventKind::ActionApplied { context, .. } => context.assignment_id,
            EventKind::ActionRejected { context, .. } => context.assignment_id,
            EventKind::PolicyAccepted { context, .. } => context.assignment_id,
            EventKind::PolicyRejected { context, .. } => context.assignment_id,
            _ => None,
        }
    }

    /// A copy of the event kind.
    pub fn duplicate(&self) -> (r: Self)
        ensures
            r == *self,
    {
        match self {
            EventKind::ProposalReceived { text } => EventKind::ProposalReceived { text: text.clone() },
            EventKind::ProposalParsed { proposal } => EventKind::ProposalParsed { proposal: *proposal },
            EventKind::ProposalAccepted { proposal } => EventKind::ProposalAccepted {
                proposal: *proposal,
            },
            EventKind::ProposalRejected { rejection } => EventKind::ProposalRejected {
                rejection: rejection.duplicate(),
            },
            EventKind::ObjectiveAccepted { objective } => EventKind::ObjectiveAccepted {
                objective: *objective,
            },
            EventKind::DecisionEmitted { decision } => EventKind::DecisionEmitted {
                decision: *decision,
            },
            EventKind::TaskCreated { task } => EventKind::TaskCreated { task: *task },
            EventKind::TaskAssigned { assignment } => EventKind::TaskAssigned {
                assignment: *assignment,
            },
            EventKind::FailureInjected { worker_id, reason } => EventKind::FailureInjected {
                worker_id: *worker_id,
                reason: *reason,
            },
            EventKind::RecoveryEmitted { worker_id, recovery } => EventKind::RecoveryEmitted {
                worker_id: *worker_id,
                recovery: *recovery,
            },
            EventKind::SchedulerEmitted { assignment_id, outcome } => EventKind::SchedulerEmitted {
                assignment_id: *assignment_id,
                outcome: *outcome,
            },
            EventKind::PolicyAccepted { action, context } => EventKind::PolicyAccepted {
                action: *action,
                context: *context,
            },
            EventKind::PolicyRejected { action, context, error } => EventKind::PolicyRejected {
                action: *action,
                context: *context,
                error: *error,
            },
            EventKind::ActionRequested { action, context } => EventKind::ActionRequested {
                action: *action,
                context: *context,
            },
            EventKind::ActionApplied { action, context, resulting_tick } =>
                EventKind::ActionApplied {
                action: *action,
                context: *context,
                resulting_tick: *resulting_tick,
            },
            EventKind::ActionRejected { action, context, error } => EventKind::ActionRejected {
                action: *action,
                context: *context,
                error: *error,
            },
        }
    }
}

impl EventEnvelope {
    /// A copy of the event.
    pub fn duplicate(&self) -> (r: Self)
        ensures
            r == *self,
    {
        EventEnvelope { id: self.id, tick: self.tick, kind: self.kind.duplicate() }
    }
}

/// Why a recorded action was not applied.
#[derive(Clone, Copy, Debug, PartialEq, Eq)]
pub enum ExecutionError {
    Policy(PolicyError),
    Sim(SimError),
}

/// The human-readable message of an execution error.
pub open spec fn execution_error_text(e: ExecutionError) -> Seq<char> {
    match e {
        ExecutionError::Policy(p) => "policy rejected action: "@ + policy_error_text(p),
        ExecutionError::Sim(s) => "action execution failed: "@ + sim_error_text(s),
    }
}

impl ExecutionError {
    /// Appends the message of the error.
    pub fn push_message(&self, out: &mut String)
        ensures
            final(out)@ == old(out)@ + execution_error_text(*self),
    {
        match *self {
            ExecutionError::Policy(p) => {
                out.append("policy rejected action: ");
                p.push_message(out);
            },
            ExecutionError::Sim(s) => {
                out.append("action execution failed: ");
                s.push_message(out);
            },
        }
        assert(final(out)@ =~= old(out)@ + execution_error_text(*self));
    }
}

/// Why a scheduled step was not applied.
#[derive(Clone, Copy, Debug, PartialEq, Eq)]
pub enum ScheduledExecutionError {
    Execution(ExecutionError),
}

/// The human-readable message of a scheduled-step error.
pub open spec fn scheduled_error_text(e: ScheduledExecutionError) -> Seq<char> {
    match e {
        ScheduledExecutionError::Execution(x) => "scheduled action failed: "@ + execution_error_text(x),
    }
}

impl ScheduledExecutionError {
    /// Appends the message of the error.
    pub fn push_message(&self, out: &mut String)
        ensures
            final(out)@ == old(out)@ + scheduled_error_text(*self),
    {
        match *self {
            ScheduledExecutionError::Execution(x) => {
                out.append("scheduled action failed: ");
                x.push_message(out);
            },
        }
        assert(final(out)@ =~= old(out)@ + scheduled_error_text(*self));
    }
}

/// The event with identifier `n + 1`.
pub open spec fn envelope(n: nat, tick: Tick, kind: EventKind) -> EventEnvelope {
    EventEnvelope { id: EventId((n + 1) as u64), tick, kind }
}

/// Events numbered 1, 2, 3, ... in order.
pub open spec fn ids_sequential(events: Seq<EventEnvelope>) -> bool {
    &&& events.len() < u64::MAX
    &&& forall|i: int| 0 <= i < events.len() ==> (#[trigger] events[i]).id.0 == i + 1
}

/// An append-only, in-memory sequence of events numbered from 1.
#[derive(Debug, PartialEq, Eq)]
pub struct EventLog {
    events: Vec<EventEnvelope>,
    next_id: EventId,
}

impl View for EventLog {
    type V = Seq<EventEnvelope>;

    closed spec fn view(&self) -> Seq<EventEnvelope> {
        self.events@
    }
}

impl EventLog {
    #[verifier::type_invariant]
    closed spec fn numbered(self) -> bool {
        &&& ids_sequential(self.events@)
        &&& self.next_id.0 == self.events@.len() + 1
    }

    /// The events of every log are numbered 1, 2, 3, ... in order.
    pub fn witness_numbering(&self)
        ensures
            ids_sequential(self@),
    {
        proof {
            use_type_invariant(self);
        }
    }

    /// An empty log whose first event will be numbered 1.
    pub fn new() -> (r: Self)
        ensures
            r@ == Seq::<EventEnvelope>::empty(),
    {
        EventLog { events: Vec::new(), next_id: EventId::new(1) }
    }

    /// Appends an event with the next identifier and returns it.
    pub fn append(&mut self, tick: Tick, kind: EventKind) -> (r: EventEnvelope)
        requires
            old(self)@.len() + 2 < u64::MAX,
        ensures
            r == envelope(old(self)@.len(), tick, kind),
            final(self)@ == old(self)@.push(r),
    {
        proof {
            use_type_invariant(&*self);
        }
        let envelope = EventEnvelope { id: self.next_id, tick, kind };
        let next = match self.next_id.checked_next() {
            Some(n) => n,
            None => EventId::new(0),
        };
        let copy = envelope.duplicate();
        let mut taken = EventLog::new();
        std::mem::swap(&mut taken, self);
        let EventLog { mut events, next_id: _ } = taken;
        events.push(copy);
        *self = EventLog { events, next_id: next };
        envelope
    }

    /// The events, oldest first.
    pub fn events(&self) -> (r: &[EventEnvelope])
        ensures
            r@ == self@,
    {
        self.events.as_slice()
    }

    /// Whether the log holds no event.
    pub fn is_empty(&self) -> (r: bool)
        ensures
            r == (self@.len() == 0),
    {
        self.events.len() == 0
    }

    /// The number of events.
    pub fn len(&self) -> (r: usize)
        ensures
            r == self@.len(),
    {
        self.events.len()
    }
}

impl Default for EventLog {
    fn default() -> (r: Self)
        ensures
            r@ == Seq::<EventEnvelope>::empty(),
    {
        EventLog::new()
    }
}

/// The events an action attempt appends after `n` events: the request at the current tick,
/// then either the application at the next tick or the rejection at the current tick.
pub open spec fn action_events(
    s: WorldStateView,
    n: nat,
    action: WorkerAction,
    context: ActionContext,
) -> Seq<EventEnvelope> {
    match spec_apply_action(s, action) {
        Ok(next) => seq![
            envelope(n, s.tick, EventKind::ActionRequested { action, context }),
            envelope(
                n + 1,
                next.tick,
                EventKind::ActionApplied { action, context, resulting_tick: next.tick },
            ),
        ],
        Err(e) => seq![
            envelope(n, s.tick, EventKind::ActionRequested { action, context }),
            envelope(n + 1, s.tick, EventKind::ActionRejected { action, context, error: e }),
        ],
    }
}

/// The events a policy-gated action attempt appends after `n` events.
pub open spec fn policy_events(
    s: WorldStateView,
    n: nat,
    action: WorkerAction,
    context: ActionContext,
    policy: ActionPolicy,
) -> Seq<EventEnvelope> {
    match spec_validate_action_policy(s, action, policy) {
        Err(e) => seq![
            envelope(n, s.tick, EventKind::PolicyRejected { action, context, error: e }),
        ],
        Ok(()) => seq![envelope(n, s.tick, EventKind::PolicyAccepted { action, context })]
            + action_events(s, n + 1, action, context),
    }
}

/// The outcome of a policy-gated action attempt.
pub open spec fn policy_outcome(s: WorldStateView, action: WorkerAction, policy: ActionPolicy) -> Result<
    WorldStateView,
    ExecutionError,
> {
    match spec_validate_action_policy(s, action, policy) {
        Err(e) => Err(ExecutionError::Policy(e)),
        Ok(()) => match spec_apply_action(s, action) {
            Ok(next) => Ok(next),
            Err(e) => Err(ExecutionError::Sim(e)),
        },
    }
}

/// The events a scheduled step appends after `n` events: the scheduler's outcome, then the
/// policy-gated attempt of the action it proposes, if any.
pub open spec fn scheduled_events(
    s: WorldStateView,
    n: nat,
    task: Task,
    assignment: Assignment,
    policy: ActionPolicy,
) -> Seq<EventEnvelope> {
    let outcome = spec_schedule_next_action(s, task, assignment);
    seq![
        envelope(
            n,
            s.tick,
            EventKind::SchedulerEmitted { assignment_id: assignment.id, outcome },
        ),
    ] + match outcome {
        ScheduleOutcome::Action { assignment_id, action } => policy_events(
            s,
            n + 1,
            action,
            ActionContext { assignment_id: Some(assignment_id) },
            policy,
        ),
        _ => Seq::empty(),
    }
}

/// The outcome of a scheduled step: the world is unchanged when nothing is proposed.
pub open spec fn scheduled_outcome(
    s: WorldStateView,
    task: Task,
    assignment: Assignment,
    policy: ActionPolicy,
) -> Result<WorldStateView, ScheduledExecutionError> {
    match spec_schedule_next_action(s, task, assignment) {
        ScheduleOutcome::Action { action, .. } => match policy_outcome(s, action, policy) {
            Ok(next) => Ok(next),
            Err(e) => Err(ScheduledExecutionError::Execution(e)),
        },
        _ => Ok(s),
    }
}

/// An executed world result agrees with a specified one.
pub open spec fn outcome_is<E>(r: Result<WorldState, E>, expected: Result<WorldStateView, E>) -> bool {
    match (r, expected) {
        (Ok(n), Ok(m)) => n@ == m,
        (Err(e), Err(f)) => e == f,
        _ => false,
    }
}

/// Attempts a direct action and records the attempt.
pub fn record_action(state: &WorldState, log: &mut EventLog, action: WorkerAction) -> (r: Result<
    WorldState,
    SimError,
>)
    requires
        old(log)@.len() + 3 < u64::MAX,
    ensures
        final(log)@ == old(log)@ + action_events(
            state@,
            old(log)@.len(),
            action,
            ActionContext { assignment_id: None },
        ),
        world_result_is(r, spec_apply_action(state@, action)),
{
    record_action_with_context(state, log, action, None)
}

/// Attempts an action for an optional assignment and records the request and its outcome.
pub fn record_action_with_context(
    state: &WorldState,
    log: &mut EventLog,
    action: WorkerAction,
    assignment_id: Option<AssignmentId>,
) -> (r: Result<WorldState, SimError>)
    requires
        old(log)@.len() + 3 < u64::MAX,
    ensures
        final(log)@ == old(log)@ + action_events(
            state@,
            old(log)@.len(),
            action,
            ActionContext { assignment_id },
        ),
        world_result_is(r, spec_apply_action(state@, action)),
{
    let context = ActionContext { assignment_id };
    let pre_action_tick = state.tick;
    let ghost before = log@;
    log.append(pre_action_tick, EventKind::ActionRequested { action, context });
    match apply_action(state, &action) {
        Ok(next_state) => {
            let resulting_tick = next_state.tick;
            log.append(
                resulting_tick,
                EventKind::ActionApplied { action, context, resulting_tick },
            );
            assert(log@ =~= before + action_events(state@, before.len(), action, context));
            Ok(next_state)
        },
        Err(error) => {
            log.append(pre_action_tick, EventKind::ActionRejected { action, context, error });
            assert(log@ =~= before + action_events(state@, before.len(), action, context));
            Err(error)
        },
    }
}

/// Checks an action against a policy first: a refused action is recorded as a policy
/// rejection and never reaches the reducer.
pub fn record_action_with_policy(
    state: &WorldState,
    log: &mut EventLog,
    action: WorkerAction,
    assignment_id: Option<AssignmentId>,
    policy: &ActionPolicy,
) -> (r: Result<WorldState, ExecutionError>)
    requires
        old(log)@.len() + 4 < u64::MAX,
    ensures
        final(log)@ == old(log)@ + policy_events(
            state@,
            old(log)@.len(),
            action,
            ActionContext { assignment_id },
            *policy,
        ),
        outcome_is(r, policy_outcome(state@, action, *policy)),
{
    let context = ActionContext { assignment_id };
    let pre_action_tick = state.tick;
    let ghost before = log@;
    match validate_action_policy(state, &action, policy) {
        Ok(()) => {
            log.append(pre_action_tick, EventKind::PolicyAccepted { action, context });
            let ghost mid = log@;
            let r = record_action_with_context(state, log, action, assignment_id);
            assert(log@ =~= before + policy_events(state@, before.len(), action, context, *policy));
            match r {
                Ok(n) => Ok(n),
                Err(e) => Err(ExecutionError::Sim(e)),
            }
        },
        Err(error) => {
            log.append(pre_action_tick, EventKind::PolicyRejected { action, context, error });
            assert(log@ =~= before + policy_events(state@, before.len(), action, context, *policy));
            Err(ExecutionError::Policy(error))
        },
    }
}

/// Asks the scheduler for the next action of an assignment, records its outcome, and attempts
/// a proposed action through the policy gate.
pub fn record_scheduled_step(
    state: &WorldState,
    log: &mut EventLog,
    task: &Task,
    assignment: &Assignment,
    policy: &ActionPolicy,
) -> (r: Result<WorldState, ScheduledExecutionError>)
    requires
        old(log)@.len() + 5 < u64::MAX,
        schedule_in_range(state@, *task, *assignment),
    ensures
        final(log)@ == old(log)@ + scheduled_events(
            state@,
            old(log)@.len(),
            *task,
            *assignment,
            *policy,
        ),
        outcome_is(r, scheduled_outcome(state@, *task, *assignment, *policy)),
{
    let ghost before = log@;
    let outcome = schedule_next_action(state, task, assignment);
    log.append(state.tick, EventKind::SchedulerEmitted { assignment_id: assignment.id, outcome });
    match outcome {
        ScheduleOutcome::Action { assignment_id, action } => {
            let r = record_action_with_policy(state, log, action, Some(assignment_id), policy);
            assert(log@ =~= before + scheduled_events(
                state@,
                before.len(),
                *task,
                *assignment,
                *policy,
            ));
            match r {
                Ok(n) => Ok(n),
                Err(e) => Err(ScheduledExecutionError::Execution(e)),
            }
        },
        _ => {
            assert(log@ =~= before + scheduled_events(
                state@,
                before.len(),
                *task,
                *assignment,
                *policy,
            ));
            Ok(state.duplicate())
        },
    }
}

/// Records that an objective was accepted.
pub fn record_objective_accepted(log: &mut EventLog, tick: Tick, objective: Objective) -> (r:
    EventEnvelope)
    requires
        old(log)@.len() + 2 < u64::MAX,
    ensures
        r == envelope(old(log)@.len(), tick, EventKind::ObjectiveAccepted { objective }),
        final(log)@ == old(log)@.push(r),
{
    log.append(tick, EventKind::ObjectiveAccepted { objective })
}

/// Records that a decision was emitted.
pub fn record_decision_emitted(log: &mut EventLog, tick: Tick, decision: Decision) -> (r:
    EventEnvelope)
    requires
        old(log)@.len() + 2 < u64::MAX,
    ensures
        r == envelope(old(log)@.len(), tick, EventKind::DecisionEmitted { decision }),
        final(log)@ == old(log)@.push(r),
{
    log.append(tick, EventKind::DecisionEmitted { decision })
}

/// Records that a task was created.
pub fn record_task_created(log: &mut EventLog, tick: Tick, task: Task) -> (r: EventEnvelope)
    requires
        old(log)@.len() + 2 < u64::MAX,
    ensures
        r == envelope(old(log)@.len(), tick, EventKind::TaskCreated { task }),
        final(log)@ == old(log)@.push(r),
{
    log.append(tick, EventKind::TaskCreated { task })
}

/// Records that a task was assigned.
pub fn record_task_assigned(log: &mut EventLog, tick: Tick, assignment: Assignment) -> (r:
    EventEnvelope)
    requires
        old(log)@.len() + 2 < u64::MAX,
    ensures
        r == envelope(old(log)@.len(), tick, EventKind::TaskAssigned { assignment }),
        final(log)@ == old(log)@.push(r),
{
    log.append(tick, EventKind::TaskAssigned { assignment })
}

/// Records received proposal text.
pub fn record_proposal_text(log: &mut EventLog, tick: Tick, text: String) -> (r: EventEnvelope)
    requires
        old(log)@.len() + 2 < u64::MAX,
    ensures
        r == envelope(old(log)@.len(), tick, EventKind::ProposalReceived { text }),
        final(log)@ == old(log)@.push(r),
{
    log.append(tick, EventKind::ProposalReceived { text })
}

/// Records a proposal that parsed.
pub fn record_proposal_parsed(log: &mut EventLog, tick: Tick, proposal: ParsedProposal) -> (r:
    EventEnvelope)
    requires
        old(log)@.len() + 2 < u64::MAX,
    ensures
        r == envelope(old(log)@.len(), tick, EventKind::ProposalParsed { proposal }),
        final(log)@ == old(log)@.push(r),
{
    log.append(tick, EventKind::ProposalParsed { proposal })
}

/// Records a proposal that was accepted.
pub fn record_proposal_accepted(log: &mut EventLog, tick: Tick, proposal: ParsedProposal) -> (r:
    EventEnvelope)
    requires
        old(log)@.len() + 2 < u64::MAX,
    ensures
        r == envelope(old(log)@.len(), tick, EventKind::ProposalAccepted { proposal }),
        final(log)@ == old(log)@.push(r),
{
    log.append(tick, EventKind::ProposalAccepted { proposal })
}

/// Records a proposal that was rejected.
pub fn record_proposal_rejected(log: &mut EventLog, tick: Tick, rejection: ProposalRejection) -> (r:
    EventEnvelope)
    requires
        old(log)@.len() + 2 < u64::MAX,
    ensures
        r == envelope(old(log)@.len(), tick, EventKind::ProposalRejected { rejection }),
        final(log)@ == old(log)@.push(r),
{
    log.append(tick, EventKind::ProposalRejected { rejection })
}

/// The kind records `text` as received proposal text.
pub open spec fn is_received(kind: EventKind, text: Seq<char>) -> bool {
    kind matches EventKind::ProposalReceived { text: t } && t@ == text
}

/// The kind records a parse rejection with error `e`.
pub open spec fn is_parse_rejection(kind: EventKind, e: crate::sim::proposal::ProposalErrorView) -> bool {
    kind matches EventKind::ProposalRejected { rejection: ProposalRejection::Parse(x) } && x@ == e
}

/// The events that `parse_validate_and_record_proposal` appends to `before`, all at `tick`:
/// the text; then its parse rejection, or the parsed proposal followed by its validation
/// rejection or acceptance.
pub open spec fn proposal_events_are(
    before: Seq<EventEnvelope>,
    after: Seq<EventEnvelope>,
    s: WorldStateView,
    text: Seq<char>,
) -> bool {
    let n = before.len();
    &&& after.subrange(0, n as int) == before
    &&& after[n as int].id.0 == n + 1 && after[n as int].tick == s.tick
    &&& is_received(after[n as int].kind, text)
    &&& match spec_parse_proposal(text) {
        Err(e) => {
            &&& after.len() == n + 2
            &&& after[n + 1int].id.0 == n + 2 && after[n + 1int].tick == s.tick
            &&& is_parse_rejection(after[n + 1int].kind, e)
        },
        Ok(p) => {
            &&& after.len() == n + 3
            &&& after[n + 1int] == envelope(n + 1, s.tick, EventKind::ProposalParsed { proposal: p })
            &&& after[n + 2int] == envelope(
                n + 2,
                s.tick,
                match spec_validate_proposal(p, s) {
                    Err(v) => EventKind::ProposalRejected {
                        rejection: ProposalRejection::Validation(v),
                    },
                    Ok(()) => EventKind::ProposalAccepted { proposal: p },
                },
            )
        },
    }
}

/// The result of parsing and validating proposal text against world `s`.
pub open spec fn proposal_outcome_is(
    r: Result<ParsedProposal, ProposalRejection>,
    s: WorldStateView,
    text: Seq<char>,
) -> bool {
    match spec_parse_proposal(text) {
        Err(e) => r matches Err(ProposalRejection::Parse(x)) && x@ == e,
        Ok(p) => match spec_validate_proposal(p, s) {
            Err(v) => r == Err::<ParsedProposal, ProposalRejection>(
                ProposalRejection::Validation(v),
            ),
            Ok(()) => r == Ok::<ParsedProposal, ProposalRejection>(p),
        },
    }
}

/// Records proposal text, parses it, validates it against the world, and records the
/// acceptance or the rejection; all at the world's tick, without changing the world.
pub fn parse_validate_and_record_proposal(
    state: &WorldState,
    log: &mut EventLog,
    text: &str,
) -> (r: Result<ParsedProposal, ProposalRejection>)
    requires
        old(log)@.len() + 4 < u64::MAX,
    ensures
        proposal_events_are(old(log)@, final(log)@, state@, text@),
        proposal_outcome_is(r, state@, text@),
{
    let ghost before = log@;
    let tick = state.tick;
    record_proposal_text(log, tick, String::from_str(text));
    let proposal = match parse_proposal_text(text) {
        Ok(p) => p,
        Err(error) => {
            let rejection = ProposalRejection::Parse(error);
            record_proposal_rejected(log, tick, rejection.duplicate());
            assert(log@.subrange(0, before.len() as int) =~= before);
            return Err(rejection);
        },
    };
    record_proposal_parsed(log, tick, proposal);
    if let Err(error) = validate_proposal_against_world(&proposal, state) {
        let rejection = ProposalRejection::Validation(error);
        record_proposal_rejected(log, tick, rejection.duplicate());
        assert(log@.subrange(0, before.len() as int) =~= before);
        return Err(rejection);
    }
    record_proposal_accepted(log, tick, proposal);
    assert(log@.subrange(0, before.len() as int) =~= before);
    Ok(proposal)
}

/// The events that injecting a failure of `worker_id` appends after `n` events.
pub open spec fn failure_events(
    s: WorldStateView,
    n: nat,
    worker_id: WorkerId,
    context: ActionContext,
) -> Seq<EventEnvelope> {
    seq![
        envelope(
            n,
            s.tick,
            EventKind::FailureInjected { worker_id, reason: FailureReason::Injected },
        ),
    ] + action_events(s, n + 1, WorkerAction::DisableWorker { worker_id }, context)
}

/// The events that recovering `worker_id` appends after `n` events.
pub open spec fn recovery_events(
    s: WorldStateView,
    n: nat,
    worker_id: WorkerId,
    context: ActionContext,
) -> Seq<EventEnvelope> {
    seq![
        envelope(
            n,
            s.tick,
            EventKind::RecoveryEmitted { worker_id, recovery: RecoveryKind::RepairWorker },
        ),
    ] + action_events(s, n + 1, WorkerAction::RepairWorker { worker_id }, context)
}

/// Records an injected failure of a worker, then disables the worker through the reducer.
pub fn record_worker_failure(
    state: &WorldState,
    log: &mut EventLog,
    worker_id: WorkerId,
    assignment_id: Option<AssignmentId>,
) -> (r: Result<WorldState, SimError>)
    requires
        old(log)@.len() + 4 < u64::MAX,
    ensures
        final(log)@ == old(log)@ + failure_events(
            state@,
            old(log)@.len(),
            worker_id,
            ActionContext { assignment_id },
        ),
        world_result_is(r, spec_apply_action(state@, WorkerAction::DisableWorker { worker_id })),
{
    let ghost before = log@;
    log.append(state.tick, EventKind::FailureInjected { worker_id, reason: FailureReason::Injected });
    let r = record_action_with_context(
        state,
        log,
        WorkerAction::DisableWorker { worker_id },
        assignment_id,
    );
    assert(log@ =~= before + failure_events(
        state@,
        before.len(),
        worker_id,
        ActionContext { assignment_id },
    ));
    r
}

/// Records an explicit recovery of a worker, then repairs the worker through the reducer.
pub fn record_worker_recovery(
    state: &WorldState,
    log: &mut EventLog,
    worker_id: WorkerId,
    assignment_id: Option<AssignmentId>,
) -> (r: Result<WorldState, SimError>)
    requires
        old(log)@.len() + 4 < u64::MAX,
    ensures
        final(log)@ == old(log)@ + recovery_events(
            state@,
            old(log)@.len(),
            worker_id,
            ActionContext { assignment_id },
        ),
        world_result_is(r, spec_apply_action(state@, WorkerAction::RepairWorker { worker_id })),
{
    let ghost before = log@;
    log.append(
        state.tick,
        EventKind::RecoveryEmitted { worker_id, recovery: RecoveryKind::RepairWorker },
    );
    let r = record_action_with_context(
        state,
        log,
        WorkerAction::RepairWorker { worker_id },
        assignment_id,
    );
    assert(log@ =~= before + recovery_events(
        state@,
        before.len(),
        worker_id,
        ActionContext { assignment_id },
    ));
    r
}

/// The assignment of an action event (request, application or rejection), if any.
pub fn assignment_for_action_event(event: &EventEnvelope) -> (r: Option<AssignmentId>)
    ensures
        r == action_event_assignment(event.kind),
{
    match &event.kind {
        EventKind::ActionRequested { context, .. } => context.assignment_id,
        EventKind::ActionApplied { context, .. } => context.assignment_id,
        EventKind::ActionRejected { context, .. } => context.assignment_id,
        _ => None,
    }
}

/// The events belonging to an assignment.
pub open spec fn belongs_to(assignment_id: AssignmentId) -> spec_fn(EventEnvelope) -> bool {
    |e: EventEnvelope| kind_assignment_id(e.kind) == Some(assignment_id)
}

/// The events that belong to `assignment_id`, in order.
pub fn events_for_assignment(events: &[EventEnvelope], assignment_id: AssignmentId) -> (r: Vec<
    &EventEnvelope,
>)
    ensures
        r@.map_values(|e: &EventEnvelope| *e) == events@.filter(belongs_to(assignment_id)),
{
    let n = events.len();
    let mut out: Vec<&EventEnvelope> = Vec::new();
    let mut i: usize = 0;
    while i < n
        invariant
            n == events@.len(),
            0 <= i <= n,
            out@.map_values(|e: &EventEnvelope| *e) == events@.subrange(0, i as int).filter(
                belongs_to(assignment_id),
            ),
        decreases n - i,
    {
        reveal_with_fuel(Seq::<_>::filter, 1);
        let event = &events[i];
        let ghost before = out@;
        assert(events@.subrange(0, i + 1).drop_last() =~= events@.subrange(0, i as int));
        if event.kind.assignment_id() == Some(assignment_id) {
            out.push(event);
            assert(out@.map_values(|e: &EventEnvelope| *e) =~= before.map_values(
                |e: &EventEnvelope| *e,
            ).push(*event));
        }
        i = i + 1;
    }
    assert(events@.subrange(0, n as int) =~= events@);
    out
}

} // verus!
