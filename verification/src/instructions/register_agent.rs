//! Agent registration.

use vstd::prelude::*;

use crate::AgentType;
use crate::constants::{INITIAL_REPUTATION, MAX_AGENT_NAME_LENGTH};
use crate::errors::SwarmError;
use crate::state::{Agent, AgentRegistry, SwarmState};

verus! {

/// Validation outcome of `register_agent`: the first rule the request
/// breaks, if any. The one-agent-per-owner rule of the storage layer is
/// checked first, then the name bound, then the capacity.
pub open spec fn spec_register_err(
    swarm: SwarmState,
    registry: AgentRegistry,
    owner: u64,
    name_len: nat,
) -> Option<SwarmError> {
    if registry.owners@.contains(owner) {
        Some(SwarmError::AgentAlreadyRegistered)
    } else if name_len > MAX_AGENT_NAME_LENGTH {
        Some(SwarmError::AgentNameTooLong)
    } else if swarm.active_agents >= swarm.max_agents {
        Some(SwarmError::MaxAgentsReached)
    } else {
        None
    }
}

/// Register a new agent for `owner`.
///
/// Fails if `owner` already has an agent, if the name exceeds 32 characters,
/// or if the swarm is at capacity. On success the population grows by one
/// (and hence stays within capacity), `owner` joins the membership ledger,
/// and the new agent starts active, at reputation 1000, with all counters
/// zero and both timestamps at `now`. On failure nothing changes.
pub fn register_agent(
    swarm: &mut SwarmState,
    registry: &mut AgentRegistry,
    owner: u64,
    agent_type: AgentType,
    name: String,
    now: i64,
) -> (r: Result<Agent, SwarmError>)
    requires
        old(swarm).wf(),
        old(registry).wf(),
        old(registry).matches_swarm(*old(swarm)),
    ensures
        match r {
            Ok(agent) => {
                &&& spec_register_err(*old(swarm), *old(registry), owner, name@.len()) is None
                &&& agent.owner == owner
                &&& agent.agent_type == agent_type
                &&& agent.name == name
                &&& agent.reputation == INITIAL_REPUTATION
                &&& agent.proposals_created == 0
                &&& agent.votes_cast == 0
                &&& agent.successful_proposals == 0
                &&& agent.registered_at == now
                &&& agent.last_active == now
                &&& agent.is_active
                &&& agent.wf()
                &&& final(swarm).active_agents == old(swarm).active_agents + 1
                &&& final(swarm).active_agents <= final(swarm).max_agents
                &&& (*final(swarm) == SwarmState {
                    active_agents: final(swarm).active_agents,
                    ..*old(swarm)
                })
                &&& final(registry).owners@ =~= old(registry).owners@.push(owner)
            },
            Err(e) => {
                &&& spec_register_err(*old(swarm), *old(registry), owner, name@.len())
                    == Some(e)
                &&& *final(swarm) == *old(swarm)
                &&& *final(registry) == *old(registry)
            },
        },
        final(swarm).wf(),
        final(registry).wf(),
        final(registry).matches_swarm(*final(swarm)),
{
    if registry.is_registered(owner) {
        return Err(SwarmError::AgentAlreadyRegistered);
    }
    if name.as_str().unicode_len() > MAX_AGENT_NAME_LENGTH {
        return Err(SwarmError::AgentNameTooLong);
    }
    if swarm.active_agents >= swarm.max_agents {
        return Err(SwarmError::MaxAgentsReached);
    }

    let agent = Agent {
        owner,
        agent_type,
        name,
        reputation: INITIAL_REPUTATION,
        proposals_created: 0,
        votes_cast: 0,
        successful_proposals: 0,
        registered_at: now,
        last_active: now,
        is_active: true,
    };
    registry.owners.push(owner);
    swarm.active_agents += 1;
    Ok(agent)
}

/// Registration never overfills the swarm: a request the validation lets
/// through finds room for one more agent, and once the population has
/// reached capacity every further attempt -- however well-formed -- is
/// turned away with the capacity error.
pub proof fn lemma_registration_capacity(
    swarm: SwarmState,
    registry: AgentRegistry,
    owner: u64,
    name_len: nat,
)
    requires
        swarm.wf(),
    ensures
        spec_register_err(swarm, registry, owner, name_len) is None
            ==> swarm.active_agents + 1 <= swarm.max_agents,
        swarm.active_agents == swarm.max_agents
            ==> spec_register_err(swarm, registry, owner, name_len) is Some,
        swarm.active_agents == swarm.max_agents && !registry.owners@.contains(owner)
            && name_len <= MAX_AGENT_NAME_LENGTH
            ==> spec_register_err(swarm, registry, owner, name_len)
                == Some(SwarmError::MaxAgentsReached),
{
}

} // verus!
