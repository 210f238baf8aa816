use vstd::prelude::*;

use crate::replay::event_log::EventEnvelope;
use crate::replay::replay::{replay_events, spec_replay, ReplayError};
use crate::sim::world::WorldState;

verus! {

/// Replays `events` from `initial_state` and checks that the result is `expected_final_state`.
pub fn verify_replay(
    initial_state: &WorldState,
    events: &[EventEnvelope],
    expected_final_state: &WorldState,
) -> (r: Result<(), ReplayError>)
    ensures
        match spec_replay(initial_state@, events@) {
            Ok(s) => if s == expected_final_state@ {
                r is Ok
            } else {
                r == Err::<(), ReplayError>(ReplayError::FinalStateMismatch)
            },
            Err(e) => r == Err::<(), ReplayError>(e),
        },
{
    let replayed = replay_events(initial_state, events)?;
    if !replayed.same_as(expected_final_state) {
        return Err(ReplayError::FinalStateMismatch);
    }
    Ok(())
}

} // verus!
