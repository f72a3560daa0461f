//! Swarm initialization.

use vstd::prelude::*;

use crate::constants::{MAX_AGENTS, MAX_PROPOSAL_TIMEOUT, MIN_AGENTS, MIN_PROPOSAL_TIMEOUT};
use crate::errors::SwarmError;
use crate::state::SwarmState;

verus! {

/// Validation outcome of `initialize`: the first rule the requested
/// configuration breaks, if any.
pub open spec fn spec_initialize_err(
    max_agents: u8,
    min_votes_required: u8,
    proposal_timeout: i64,
) -> Option<SwarmError> {
    if !(MIN_AGENTS <= max_agents <= MAX_AGENTS) {
        Some(SwarmError::InvalidVoteCount)
    } else if min_votes_required * 100 < max_agents * 51 {
        Some(SwarmError::MinAgentsNotMet)
    } else if !(MIN_PROPOSAL_TIMEOUT <= proposal_timeout <= MAX_PROPOSAL_TIMEOUT) {
        Some(SwarmError::InvalidProposalTimeout)
    } else {
        None
    }
}

/// Set up a swarm configuration.
///
/// The capacity must lie in `[3, 20]`, the vote floor must be at least the
/// ceiling of 51% of the capacity (so that quorum always implies a majority
/// of the capacity), and the proposal timeout must lie in `[300, 86400]`
/// seconds. The caller becomes the swarm's authority; all counters start at
/// zero.
pub fn initialize(
    authority: u64,
    max_agents: u8,
    min_votes_required: u8,
    proposal_timeout: i64,
) -> (r: Result<SwarmState, SwarmError>)
    ensures
        match r {
            Ok(swarm) => {
                &&& spec_initialize_err(max_agents, min_votes_required, proposal_timeout)
                    is None
                &&& swarm.authority == authority
                &&& swarm.max_agents == max_agents
                &&& swarm.active_agents == 0
                &&& swarm.min_votes_required == min_votes_required
                &&& swarm.proposal_timeout == proposal_timeout
                &&& swarm.total_proposals == 0
                &&& swarm.executed_proposals == 0
                &&& swarm.wf()
            },
            Err(e) => spec_initialize_err(max_agents, min_votes_required, proposal_timeout)
                == Some(e),
        },
{
    if !(MIN_AGENTS <= max_agents && max_agents <= MAX_AGENTS) {
        return Err(SwarmError::InvalidVoteCount);
    }
    if (min_votes_required as u32) * 100 < (max_agents as u32) * 51 {
        return Err(SwarmError::MinAgentsNotMet);
    }
    if !(MIN_PROPOSAL_TIMEOUT <= proposal_timeout && proposal_timeout <= MAX_PROPOSAL_TIMEOUT) {
        return Err(SwarmError::InvalidProposalTimeout);
    }
    Ok(SwarmState {
        authority,
        max_agents,
        active_agents: 0,
        min_votes_required,
        proposal_timeout,
        total_proposals: 0,
        executed_proposals: 0,
    })
}

} // verus!
