use vstd::prelude::*;
use vstd::string::StringExecFns;

use crate::primitives::error::{same_sim_error, sim_error_text, SimError};
use crate::primitives::ids::EventId;
use crate::primitives::tick::Tick;
use crate::replay::event_log::{EventEnvelope, EventKind};
use crate::sim::reducer::{apply_action, spec_apply_action};
use crate::sim::world::{WorldState, WorldStateView};
use crate::text::{dec, push_u64};

verus! {

/// Why an event sequence does not replay.
#[derive(Clone, Copy, Debug, PartialEq, Eq)]
pub enum ReplayError {
    InvalidEventId { event_id: EventId },
    DuplicateEventId { event_id: EventId },
    NonMonotonicEventId { previous: EventId, current: EventId },
    EventTickMismatch { event_id: EventId, expected: Tick, actual: Tick },
    AppliedActionFailed { event_id: EventId, error: SimError },
    RejectedActionUnexpectedlySucceeded { event_id: EventId },
    RejectedActionErrorMismatch { event_id: EventId, expected: SimError, actual: SimError },
    ResultingTickMismatch { event_id: EventId, expected: Tick, actual: Tick },
    FinalStateMismatch,
}

/// The human-readable message of a replay error.
pub open spec fn replay_error_text(e: ReplayError) -> Seq<char> {
    match e {
        ReplayError::InvalidEventId { event_id } => "invalid event id: "@ + dec(event_id.0 as nat),
        ReplayError::DuplicateEventId { event_id } => "duplicate event id: "@ + dec(
            event_id.0 as nat,
        ),
        ReplayError::NonMonotonicEventId { previous, current } =>
            "non-monotonic event id: previous "@ + dec(previous.0 as nat) + ", current "@ + dec(
            current.0 as nat,
        ),
        ReplayError::EventTickMismatch { event_id, expected, actual } => "event "@ + dec(
            event_id.0 as nat,
        ) + " has tick mismatch: expected "@ + dec(expected.0 as nat) + ", actual "@ + dec(
            actual.0 as nat,
        ),
        ReplayError::AppliedActionFailed { event_id, error } => "applied action in event "@ + dec(
            event_id.0 as nat,
        ) + " failed during replay: "@ + sim_error_text(error),
        ReplayError::RejectedActionUnexpectedlySucceeded { event_id } => "rejected action in event "@
            + dec(event_id.0 as nat) + " unexpectedly succeeded during replay"@,
        ReplayError::RejectedActionErrorMismatch { event_id, expected, actual } =>
            "rejected action in event "@ + dec(event_id.0 as nat)
            + " failed with a different error: expected "@ + sim_error_text(expected)
            + ", actual "@ + sim_error_text(actual),
        ReplayError::ResultingTickMismatch { event_id, expected, actual } => "event "@ + dec(
            event_id.0 as nat,
        ) + " resulting tick mismatch: expected "@ + dec(expected.0 as nat) + ", actual "@ + dec(
            actual.0 as nat,
        ),
        ReplayError::FinalStateMismatch => "replayed final state does not match expected"@,
    }
}

impl ReplayError {
    /// Appends the message of the error.
    pub fn push_message(&self, out: &mut String)
        ensures
            final(out)@ == old(out)@ + replay_error_text(*self),
    {
        match *self {
            ReplayError::InvalidEventId { event_id } => {
                out.append("invalid event id: ");
                push_u64(out, event_id.0);
            },
            ReplayError::DuplicateEventId { event_id } => {
                out.append("duplicate event id: ");
                push_u64(out, event_id.0);
            },
            ReplayError::NonMonotonicEventId { previous, current } => {
                out.append("non-monotonic event id: previous ");
                push_u64(out, previous.0);
                out.append(", current ");
                push_u64(out, current.0);
            },
            ReplayError::EventTickMismatch { event_id, expected, actual } => {
                out.append("event ");
                push_u64(out, event_id.0);
                out.append(" has tick mismatch: expected ");
                push_u64(out, expected.0);
                out.append(", actual ");
                push_u64(out, actual.0);
            },
            ReplayError::AppliedActionFailed { event_id, error } => {
                out.append("applied action in event ");
                push_u64(out, event_id.0);
                out.append(" failed during replay: ");
                error.push_message(out);
            },
            ReplayError::RejectedActionUnexpectedlySucceeded { event_id } => {
                out.append("rejected action in event ");
                push_u64(out, event_id.0);
                out.append(" unexpectedly succeeded during replay");
            },
            ReplayError::RejectedActionErrorMismatch { event_id, expected, actual } => {
                out.append("rejected action in event ");
                push_u64(out, event_id.0);
                out.append(" failed with a different error: expected ");
                expected.push_message(out);
                out.append(", actual ");
                actual.push_message(out);
            },
            ReplayError::ResultingTickMismatch { event_id, expected, actual } => {
                out.append("event ");
                push_u64(out, event_id.0);
                out.append(" resulting tick mismatch: expected ");
                push_u64(out, expected.0);
                out.append(", actual ");
                push_u64(out, actual.0);
            },
            ReplayError::FinalStateMismatch => {
                out.append("replayed final state does not match expected");
            },
        }
        assert(final(out)@ =~= old(out)@ + replay_error_text(*self));
    }

    /// The message of the error.
    pub fn message(&self) -> (r: String)
        ensures
            r@ == replay_error_text(*self),
    {
        let mut out = String::new();
        self.push_message(&mut out);
        assert(out@ =~= replay_error_text(*self));
        out
    }
}

/// An event identifier is accepted after `previous`: it is not zero and it increases.
pub open spec fn spec_validate_event_id(event_id: EventId, previous: Option<EventId>) -> Result<
    (),
    ReplayError,
> {
    if event_id.0 == 0 {
        Err(ReplayError::InvalidEventId { event_id })
    } else {
        match previous {
            Some(p) => if event_id == p {
                Err(ReplayError::DuplicateEventId { event_id })
            } else if event_id.0 < p.0 {
                Err(ReplayError::NonMonotonicEventId { previous: p, current: event_id })
            } else {
                Ok(())
            },
            None => Ok(()),
        }
    }
}

/// An audit event only checks that it was recorded at the current tick.
pub open spec fn spec_check_tick(s: WorldStateView, e: EventEnvelope) -> Result<
    WorldStateView,
    ReplayError,
> {
    if e.tick != s.tick {
        Err(ReplayError::EventTickMismatch { event_id: e.id, expected: s.tick, actual: e.tick })
    } else {
        Ok(s)
    }
}

/// The effect of one event on the world: applied actions are reapplied, rejected actions must
/// still fail with the recorded error, every other event is an audit fact at the current tick.
pub open spec fn spec_apply_event(s: WorldStateView, e: EventEnvelope) -> Result<
    WorldStateView,
    ReplayError,
> {
    match e.kind {
        EventKind::ActionApplied { action, resulting_tick, .. } => match spec_apply_action(
            s,
            action,
        ) {
            Err(error) => Err(ReplayError::AppliedActionFailed { event_id: e.id, error }),
            Ok(n) => if n.tick != resulting_tick {
                Err(
                    ReplayError::ResultingTickMismatch {
                        event_id: e.id,
                        expected: n.tick,
                        actual: resulting_tick,
                    },
                )
            } else if n.tick != e.tick {
                Err(
                    ReplayError::EventTickMismatch {
                        event_id: e.id,
                        expected: n.tick,
                        actual: e.tick,
                    },
                )
            } else {
                Ok(n)
            },
        },
        EventKind::ActionRejected { action, error, .. } => if e.tick != s.tick {
            Err(ReplayError::EventTickMismatch { event_id: e.id, expected: s.tick, actual: e.tick })
        } else {
            match spec_apply_action(s, action) {
                Ok(_) => Err(ReplayError::RejectedActionUnexpectedlySucceeded { event_id: e.id }),
                Err(actual) => if !same_sim_error(actual, error) {
                    Err(
                        ReplayError::RejectedActionErrorMismatch {
                            event_id: e.id,
                            expected: error,
                            actual,
                        },
                    )
                } else {
                    Ok(s)
                },
            }
        },
        _ => spec_check_tick(s, e),
    }
}

/// One replay step: the identifier check, then the event's effect.
pub open spec fn spec_replay_step(s: WorldStateView, e: EventEnvelope, previous: Option<EventId>) -> Result<
    WorldStateView,
    ReplayError,
> {
    match spec_validate_event_id(e.id, previous) {
        Err(err) => Err(err),
        Ok(()) => spec_apply_event(s, e),
    }
}

/// The world after replaying `events` in order from `s`, the last identifier seen being
/// `previous`; the first failing event decides the error.
pub open spec fn spec_replay_from(
    s: WorldStateView,
    events: Seq<EventEnvelope>,
    previous: Option<EventId>,
) -> Result<WorldStateView, ReplayError>
    decreases events.len(),
{
    if events.len() == 0 {
        Ok(s)
    } else {
        match spec_replay_step(s, events[0], previous) {
            Err(e) => Err(e),
            Ok(next) => spec_replay_from(next, events.drop_first(), Some(events[0].id)),
        }
    }
}

/// The world after replaying `events` from `s`.
pub open spec fn spec_replay(s: WorldStateView, events: Seq<EventEnvelope>) -> Result<
    WorldStateView,
    ReplayError,
> {
    spec_replay_from(s, events, None)
}

/// The last identifier of `events`, or `previous` when there is none.
pub open spec fn last_id(events: Seq<EventEnvelope>, previous: Option<EventId>) -> Option<EventId> {
    if events.len() == 0 {
        previous
    } else {
        Some(events.last().id)
    }
}

/// Replaying a concatenation replays the first part, then the second from where it ended.
pub proof fn lemma_replay_append(
    s: WorldStateView,
    a: Seq<EventEnvelope>,
    b: Seq<EventEnvelope>,
    previous: Option<EventId>,
)
    ensures
        spec_replay_from(s, a + b, previous) == match spec_replay_from(s, a, previous) {
            Err(e) => Err(e),
            Ok(mid) => spec_replay_from(mid, b, last_id(a, previous)),
        },
    decreases a.len(),
{
    if a.len() == 0 {
        assert(a + b =~= b);
    } else {
        assert((a + b)[0] == a[0]);
        assert((a + b).drop_first() =~= a.drop_first() + b);
        match spec_replay_step(s, a[0], previous) {
            Err(e) => {},
            Ok(next) => {
                lemma_replay_append(next, a.drop_first(), b, Some(a[0].id));
                if a.len() > 1 {
                    assert(a.drop_first().last() == a.last());
                }
            },
        }
    }
}

fn validate_event_id(event_id: EventId, previous: Option<EventId>) -> (r: Result<(), ReplayError>)
    ensures
        r == spec_validate_event_id(event_id, previous),
{
    if event_id.0 == 0 {
        return Err(ReplayError::InvalidEventId { event_id });
    }
    if let Some(p) = previous {
        if event_id == p {
            return Err(ReplayError::DuplicateEventId { event_id });
        }
        if event_id.0 < p.0 {
            return Err(ReplayError::NonMonotonicEventId { previous: p, current: event_id });
        }
    }
    Ok(())
}

fn validate_event_tick(event_id: EventId, expected: Tick, actual: Tick) -> (r: Result<(), ReplayError>)
    ensures
        expected == actual ==> r is Ok,
        expected != actual ==> r == Err::<(), ReplayError>(
            ReplayError::EventTickMismatch { event_id, expected, actual },
        ),
{
    if expected != actual {
        return Err(ReplayError::EventTickMismatch { event_id, expected, actual });
    }
    Ok(())
}

fn apply_event(state: WorldState, event: &EventEnvelope) -> (r: Result<WorldState, ReplayError>)
    ensures
        match spec_apply_event(state@, *event) {
            Ok(n) => r matches Ok(x) && x@ == n,
            Err(e) => r == Err::<WorldState, ReplayError>(e),
        },
{
    match &event.kind {
        EventKind::ActionApplied { action, resulting_tick, .. } => {
            let next_state = match apply_action(&state, action) {
                Ok(n) => n,
                Err(error) => {
                    return Err(ReplayError::AppliedActionFailed { event_id: event.id, error });
                },
            };
            if next_state.tick != *resulting_tick {
                return Err(
                    ReplayError::ResultingTickMismatch {
                        event_id: event.id,
                        expected: next_state.tick,
                        actual: *resulting_tick,
                    },
                );
            }
            validate_event_tick(event.id, next_state.tick, event.tick)?;
            Ok(next_state)
        },
        EventKind::ActionRejected { action, error, .. } => {
            validate_event_tick(event.id, state.tick, event.tick)?;
            match apply_action(&state, action) {
                Ok(_) => Err(ReplayError::RejectedActionUnexpectedlySucceeded { event_id: event.id }),
                Err(actual) => {
                    if !actual.same_as(error) {
                        return Err(
                            ReplayError::RejectedActionErrorMismatch {
                                event_id: event.id,
                                expected: *error,
                                actual,
                            },
                        );
                    }
                    Ok(state)
                },
            }
        },
        _ => {
            validate_event_tick(event.id, state.tick, event.tick)?;
            Ok(state)
        },
    }
}

/// Rebuilds the world from `initial_state` and an event sequence. Only applied actions change
/// the world; malformed or inconsistent sequences are refused.
pub fn replay_events(initial_state: &WorldState, events: &[EventEnvelope]) -> (r: Result<
    WorldState,
    ReplayError,
>)
    ensures
        match spec_replay(initial_state@, events@) {
            Ok(n) => r matches Ok(x) && x@ == n,
            Err(e) => r == Err::<WorldState, ReplayError>(e),
        },
{
    let mut state = initial_state.duplicate();
    let mut previous: Option<EventId> = None;
    let n = events.len();
    let mut i: usize = 0;
    assert(events@.subrange(0, n as int) =~= events@);
    while i < n
        invariant
            n == events@.len(),
            0 <= i <= n,
            spec_replay(initial_state@, events@) == spec_replay_from(
                state@,
                events@.subrange(i as int, n as int),
                previous,
            ),
        decreases n - i,
    {
        let event = &events[i];
        let ghost rest = events@.subrange(i as int, n as int);
        assert(rest[0] == *event);
        assert(rest.drop_first() =~= events@.subrange(i + 1, n as int));
        validate_event_id(event.id, previous)?;
        state = apply_event(state, event)?;
        previous = Some(event.id);
        i = i + 1;
    }
    assert(events@.subrange(n as int, n as int) =~= Seq::<EventEnvelope>::empty());
    Ok(state)
}

} // verus!
