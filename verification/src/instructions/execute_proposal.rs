//! Proposal execution.

use vstd::prelude::*;

use crate::errors::SwarmError;
use crate::state::{Agent, Proposal, SwarmState};

verus! {

/// Gate of `execute_proposal`: the first rule the request breaks, if any.
/// An inactive executor is turned away first; then the proposal must be
/// unexecuted and unexpired, have reached quorum, and be approved.
pub open spec fn spec_execute_err(
    proposal: Proposal,
    swarm: SwarmState,
    agent: Agent,
    now: i64,
) -> Option<SwarmError> {
    if !agent.is_active {
        Some(SwarmError::Unauthorized)
    } else if proposal.executed {
        Some(SwarmError::ProposalAlreadyExecuted)
    } else if now > proposal.expires_at {
        Some(SwarmError::ProposalExpired)
    } else if !proposal.spec_has_quorum(swarm.min_votes_required, swarm.active_agents) {
        Some(SwarmError::InsufficientVotes)
    } else if !proposal.spec_is_approved() {
        Some(SwarmError::InsufficientVotes)
    } else {
        None
    }
}

/// Execute an approved proposal on behalf of the active agent `agent`.
///
/// The call succeeds exactly when, at `now`, the proposal is still open
/// (never executed, not past its expiry), has reached quorum against the
/// swarm's vote floor and registered population, and is approved by both the
/// weighted and the raw tally. On success the proposal flips -- one way --
/// to executed at `now`, the swarm's executed counter grows by one, and the
/// executor is marked active at `now`. On failure nothing changes.
pub fn execute_proposal(
    proposal: &mut Proposal,
    swarm: &mut SwarmState,
    agent: &mut Agent,
    now: i64,
) -> (r: Result<(), SwarmError>)
    requires
        old(proposal).wf(),
        old(swarm).wf(),
        old(agent).wf(),
        old(swarm).executed_proposals < u64::MAX,
    ensures
        match r {
            Ok(()) => {
                &&& spec_execute_err(*old(proposal), *old(swarm), *old(agent), now) is None
                &&& old(agent).is_active
                &&& !old(proposal).executed
                &&& now <= old(proposal).expires_at
                &&& old(proposal).spec_has_quorum(old(swarm).min_votes_required,
                    old(swarm).active_agents)
                &&& old(proposal).spec_is_approved()
                &&& final(proposal).executed
                &&& final(proposal).executed_at == now
                &&& (*final(proposal) == Proposal {
                    executed: true,
                    executed_at: now,
                    ..*old(proposal)
                })
                &&& final(swarm).executed_proposals == old(swarm).executed_proposals + 1
                &&& (*final(swarm) == SwarmState {
                    executed_proposals: final(swarm).executed_proposals,
                    ..*old(swarm)
                })
                &&& (*final(agent) == Agent { last_active: now, ..*old(agent) })
            },
            Err(e) => {
                &&& spec_execute_err(*old(proposal), *old(swarm), *old(agent), now) == Some(e)
                &&& *final(proposal) == *old(proposal)
                &&& *final(swarm) == *old(swarm)
                &&& *final(agent) == *old(agent)
            },
        },
        final(proposal).wf(),
        final(swarm).wf(),
        final(agent).wf(),
{
    if !agent.is_active {
        return Err(SwarmError::Unauthorized);
    }
    if proposal.executed {
        return Err(SwarmError::ProposalAlreadyExecuted);
    }
    if proposal.is_expired(now) {
        return Err(SwarmError::ProposalExpired);
    }
    if !proposal.has_quorum(swarm.min_votes_required, swarm.active_agents) {
        return Err(SwarmError::InsufficientVotes);
    }
    if !proposal.is_approved() {
        return Err(SwarmError::InsufficientVotes);
    }

    proposal.executed = true;
    proposal.executed_at = now;

    swarm.executed_proposals += 1;
    agent.touch(now);
    Ok(())
}

/// Execution happens at most once: from the moment a proposal carries the
/// executed mark, every further execution attempt by an active agent fails
/// with the already-executed error, whatever the time, the tallies, or the
/// swarm's configuration.
pub proof fn lemma_execute_only_once(
    proposal: Proposal,
    swarm: SwarmState,
    agent: Agent,
    now: i64,
)
    requires
        proposal.executed,
        agent.is_active,
    ensures
        spec_execute_err(proposal, swarm, agent, now)
            == Some(SwarmError::ProposalAlreadyExecuted),
{
}

} // verus!
