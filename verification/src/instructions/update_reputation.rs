//! Privileged reputation adjustment.

use vstd::prelude::*;

use crate::errors::SwarmError;
use crate::state::{spec_rep_after, Agent, SwarmState};

verus! {

/// Gate of `update_reputation`: the first rule the request breaks, if any.
/// Only the swarm's authority may adjust reputation, and the performance
/// score must lie in `[0, 1000]`.
pub open spec fn spec_update_reputation_err(
    swarm: SwarmState,
    caller: u64,
    performance_score: u16,
) -> Option<SwarmError> {
    if caller != swarm.authority {
        Some(SwarmError::Unauthorized)
    } else if performance_score > 1000 {
        Some(SwarmError::InvalidReputationScore)
    } else {
        None
    }
}

/// Adjust `agent`'s reputation from a recorded performance score.
///
/// Only the swarm authority may call this, with a score in `[0, 1000]`.
/// Scores above 500 raise the reputation by a tenth of the excess, scores at
/// or below 500 lower it by a tenth of the shortfall, and both directions
/// saturate at the `[0, 10000]` bounds. The agent is marked active at `now`.
/// On failure nothing changes.
pub fn update_reputation(
    swarm: &SwarmState,
    agent: &mut Agent,
    caller: u64,
    performance_score: u16,
    now: i64,
) -> (r: Result<(), SwarmError>)
    requires
        old(agent).wf(),
    ensures
        match r {
            Ok(()) => {
                &&& spec_update_reputation_err(*swarm, caller, performance_score) is None
                &&& final(agent).reputation == spec_rep_after(
                    old(agent).reputation as int,
                    performance_score as int,
                )
                &&& final(agent).last_active == now
                &&& (*final(agent) == Agent {
                    reputation: final(agent).reputation,
                    last_active: now,
                    ..*old(agent)
                })
            },
            Err(e) => {
                &&& spec_update_reputation_err(*swarm, caller, performance_score) == Some(e)
                &&& *final(agent) == *old(agent)
            },
        },
        final(agent).wf(),
{
    if caller != swarm.authority {
        return Err(SwarmError::Unauthorized);
    }
    if performance_score > 1000 {
        return Err(SwarmError::InvalidReputationScore);
    }

    agent.update_reputation(performance_score);
    agent.touch(now);
    Ok(())
}

} // verus!
