//! Proposal creation.

use vstd::prelude::*;

use crate::ProposalType;
use crate::constants::{MAX_DESCRIPTION_LENGTH, MAX_PROPOSAL_DATA_LENGTH};
use crate::errors::SwarmError;
use crate::state::{Agent, Proposal, SwarmState};

verus! {

/// Validation outcome of `create_proposal`: the first rule the request
/// breaks, if any. An inactive proposer is turned away before the payload
/// and description bounds; an expiry time that would leave the timestamp
/// range is rejected rather than wrapped.
pub open spec fn spec_create_err(
    swarm: SwarmState,
    agent: Agent,
    data_len: nat,
    description_len: nat,
    now: i64,
) -> Option<SwarmError> {
    if !agent.is_active {
        Some(SwarmError::Unauthorized)
    } else if data_len > MAX_PROPOSAL_DATA_LENGTH {
        Some(SwarmError::ProposalDataTooLong)
    } else if description_len > MAX_DESCRIPTION_LENGTH {
        Some(SwarmError::DescriptionTooLong)
    } else if now + swarm.proposal_timeout > i64::MAX {
        Some(SwarmError::ArithmeticOverflow)
    } else {
        None
    }
}

/// Create a proposal on behalf of the active agent `agent`.
///
/// Fails if the proposer is inactive, if the payload exceeds 1024 bytes, if
/// the description exceeds 256 characters, or if `now` plus the swarm's
/// timeout overflows the timestamp range. On success the proposal opens with
/// every tally at zero and expires exactly one timeout after `now`; the
/// swarm's proposal counter and the proposer's creation counter each grow by
/// one and the proposer is marked active at `now`. On failure nothing
/// changes.
pub fn create_proposal(
    swarm: &mut SwarmState,
    agent: &mut Agent,
    proposal_type: ProposalType,
    data: Vec<u8>,
    description: String,
    now: i64,
) -> (r: Result<Proposal, SwarmError>)
    requires
        old(swarm).wf(),
        old(agent).wf(),
        old(swarm).total_proposals < u64::MAX,
        old(agent).proposals_created < u32::MAX,
    ensures
        match r {
            Ok(proposal) => {
                &&& spec_create_err(*old(swarm), *old(agent), data@.len(), description@.len(),
                    now) is None
                &&& proposal.proposer == old(agent).owner
                &&& proposal.proposal_type == proposal_type
                &&& proposal.data == data
                &&& proposal.description == description
                &&& proposal.created_at == now
                &&& proposal.expires_at == now + old(swarm).proposal_timeout
                &&& !proposal.executed
                &&& proposal.executed_at == 0
                &&& proposal.votes_for == 0
                &&& proposal.votes_against == 0
                &&& proposal.votes_abstain == 0
                &&& proposal.weighted_votes_for == 0
                &&& proposal.weighted_votes_against == 0
                &&& proposal.total_voters == 0
                &&& proposal.voters@ =~= Seq::<u64>::empty()
                &&& proposal.wf()
                &&& final(swarm).total_proposals == old(swarm).total_proposals + 1
                &&& (*final(swarm) == SwarmState {
                    total_proposals: final(swarm).total_proposals,
                    ..*old(swarm)
                })
                &&& final(agent).proposals_created == old(agent).proposals_created + 1
                &&& final(agent).last_active == now
                &&& (*final(agent) == Agent {
                    proposals_created: final(agent).proposals_created,
                    last_active: now,
                    ..*old(agent)
                })
            },
            Err(e) => {
                &&& spec_create_err(*old(swarm), *old(agent), data@.len(), description@.len(),
                    now) == Some(e)
                &&& *final(swarm) == *old(swarm)
                &&& *final(agent) == *old(agent)
            },
        },
        final(swarm).wf(),
        final(agent).wf(),
{
    if !agent.is_active {
        return Err(SwarmError::Unauthorized);
    }
    if data.len() > MAX_PROPOSAL_DATA_LENGTH {
        return Err(SwarmError::ProposalDataTooLong);
    }
    if description.as_str().unicode_len() > MAX_DESCRIPTION_LENGTH {
        return Err(SwarmError::DescriptionTooLong);
    }
    let expires_at = match now.checked_add(swarm.proposal_timeout) {
        Some(t) => t,
        None => {
            return Err(SwarmError::ArithmeticOverflow);
        },
    };

    let proposal = Proposal {
        proposer: agent.owner,
        proposal_type,
        data,
        description,
        created_at: now,
        expires_at,
        executed: false,
        executed_at: 0,
        votes_for: 0,
        votes_against: 0,
        votes_abstain: 0,
        weighted_votes_for: 0,
        weighted_votes_against: 0,
        total_voters: 0,
        voters: Vec::new(),
    };

    swarm.total_proposals += 1;
    agent.proposals_created += 1;
    agent.touch(now);
    Ok(proposal)
}

} // verus!
