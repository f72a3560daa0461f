//! Vote casting.

use vstd::prelude::*;

use crate::VoteType;
use crate::constants::{MAX_AGENTS, MAX_REASONING_LENGTH};
use crate::errors::SwarmError;
use crate::state::{spec_vote_weight, Agent, Proposal};

verus! {

/// Validation outcome of `vote_proposal`: the first rule the request breaks,
/// if any. An inactive voter is turned away first; then the reasoning bound;
/// then the proposal must still be open (neither executed nor past its
/// expiry) and the voter must not have voted before.
pub open spec fn spec_vote_err(
    proposal: Proposal,
    agent: Agent,
    reasoning_len: nat,
    now: i64,
) -> Option<SwarmError> {
    if !agent.is_active {
        Some(SwarmError::Unauthorized)
    } else if reasoning_len > MAX_REASONING_LENGTH {
        Some(SwarmError::ReasoningTooLong)
    } else if proposal.executed {
        Some(SwarmError::ProposalAlreadyExecuted)
    } else if now > proposal.expires_at {
        Some(SwarmError::ProposalExpired)
    } else if proposal.voters@.contains(agent.owner) {
        Some(SwarmError::AlreadyVoted)
    } else {
        None
    }
}

/// Cast `agent`'s vote on an open proposal.
///
/// Fails if the voter is inactive, if the reasoning exceeds 512 characters,
/// if the proposal has executed or expired, or if the voter already voted.
/// On success the vote is recorded at the voter's current weight -- an
/// abstention counts toward the voter total but toward neither weighted
/// accumulator -- and the voter's cast counter and activity time move
/// forward. On failure nothing changes.
pub fn vote_proposal(
    proposal: &mut Proposal,
    agent: &mut Agent,
    vote: VoteType,
    reasoning: &String,
    now: i64,
) -> (r: Result<(), SwarmError>)
    requires
        old(proposal).wf(),
        old(agent).wf(),
        old(proposal).total_voters < MAX_AGENTS,
        old(agent).votes_cast < u32::MAX,
    ensures
        match r {
            Ok(()) => {
                &&& spec_vote_err(*old(proposal), *old(agent), reasoning@.len(), now) is None
                &&& final(proposal).votes_for == old(proposal).votes_for
                    + (if vote is Approve { 1int } else { 0 })
                &&& final(proposal).votes_against == old(proposal).votes_against
                    + (if vote is Reject { 1int } else { 0 })
                &&& final(proposal).votes_abstain == old(proposal).votes_abstain
                    + (if vote is Abstain { 1int } else { 0 })
                &&& final(proposal).weighted_votes_for == old(proposal).weighted_votes_for
                    + (if vote is Approve { spec_vote_weight(old(agent).reputation) } else { 0 })
                &&& final(proposal).weighted_votes_against
                    == old(proposal).weighted_votes_against
                    + (if vote is Reject { spec_vote_weight(old(agent).reputation) } else { 0 })
                &&& final(proposal).total_voters == old(proposal).total_voters + 1
                &&& final(proposal).voters@ =~= old(proposal).voters@.push(old(agent).owner)
                &&& final(proposal).executed == old(proposal).executed
                &&& final(proposal).expires_at == old(proposal).expires_at
                &&& final(proposal).created_at == old(proposal).created_at
                &&& final(proposal).executed_at == old(proposal).executed_at
                &&& final(proposal).proposer == old(proposal).proposer
                &&& final(proposal).proposal_type == old(proposal).proposal_type
                &&& final(proposal).data == old(proposal).data
                &&& final(proposal).description == old(proposal).description
                &&& final(agent).votes_cast == old(agent).votes_cast + 1
                &&& final(agent).last_active == now
                &&& (*final(agent) == Agent {
                    votes_cast: final(agent).votes_cast,
                    last_active: now,
                    ..*old(agent)
                })
            },
            Err(e) => {
                &&& spec_vote_err(*old(proposal), *old(agent), reasoning@.len(), now)
                    == Some(e)
                &&& *final(proposal) == *old(proposal)
                &&& *final(agent) == *old(agent)
            },
        },
        final(proposal).wf(),
        final(agent).wf(),
{
    if !agent.is_active {
        return Err(SwarmError::Unauthorized);
    }
    if reasoning.as_str().unicode_len() > MAX_REASONING_LENGTH {
        return Err(SwarmError::ReasoningTooLong);
    }
    if proposal.executed {
        return Err(SwarmError::ProposalAlreadyExecuted);
    }
    if proposal.is_expired(now) {
        return Err(SwarmError::ProposalExpired);
    }
    if proposal.has_voted(agent.owner) {
        return Err(SwarmError::AlreadyVoted);
    }

    let weight = agent.vote_weight();
    proposal.record_vote(agent.owner, vote, weight);

    agent.votes_cast += 1;
    agent.touch(now);
    Ok(())
}

/// A duplicate vote never lands: whenever the voter's identity already
/// stands in the proposal's voter list, the vote validation turns the
/// request away, whatever the choice, the reasoning, or the time.
pub proof fn lemma_duplicate_vote_rejected(
    proposal: Proposal,
    agent: Agent,
    reasoning_len: nat,
    now: i64,
)
    requires
        proposal.voters@.contains(agent.owner),
    ensures
        spec_vote_err(proposal, agent, reasoning_len, now) is Some,
        agent.is_active && reasoning_len <= MAX_REASONING_LENGTH && !proposal.executed
            && now <= proposal.expires_at
            ==> spec_vote_err(proposal, agent, reasoning_len, now)
                == Some(SwarmError::AlreadyVoted),
{
}

} // verus!
