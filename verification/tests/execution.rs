//! Tests of quorum, approval, and proposal execution.

use agent_swarm::errors::SwarmError;
use agent_swarm::instructions::{
    create_proposal, execute_proposal, initialize, register_agent, vote_proposal,
};
use agent_swarm::state::{Agent, AgentRegistry, Proposal, SwarmState};
use agent_swarm::{AgentType, ProposalType, VoteType};

fn swarm_of_five_with_timeout(timeout: i64) -> (SwarmState, Vec<Agent>) {
    let mut swarm = initialize(1, 5, 3, timeout).unwrap();
    let mut registry = AgentRegistry::new();
    let mut agents = Vec::new();
    for owner in [10u64, 20, 30, 40, 50] {
        let agent = register_agent(
            &mut swarm,
            &mut registry,
            owner,
            AgentType::Consensus,
            String::from("member"),
            0,
        )
        .unwrap();
        agents.push(agent);
    }
    (swarm, agents)
}

fn plain_proposal(swarm: &mut SwarmState, proposer: &mut Agent, now: i64) -> Proposal {
    create_proposal(
        swarm,
        proposer,
        ProposalType::Strategy,
        Vec::new(),
        String::from("change course"),
        now,
    )
    .unwrap()
}

#[test]
fn full_lifecycle_reaches_execution() {
    // Five agents at default reputation 1000 (weight 11000 each); three
    // approve, one rejects, one abstains; quorum and approval both hold and
    // the proposal executes.
    let (mut swarm, mut agents) = swarm_of_five_with_timeout(3600);
    let mut proposer = agents.remove(0);
    let mut proposal = plain_proposal(&mut swarm, &mut proposer, 1000);
    let reasoning = String::new();

    vote_proposal(&mut proposal, &mut proposer, VoteType::Approve, &reasoning, 1001).unwrap();
    vote_proposal(&mut proposal, &mut agents[0], VoteType::Approve, &reasoning, 1002).unwrap();
    vote_proposal(&mut proposal, &mut agents[1], VoteType::Approve, &reasoning, 1003).unwrap();
    vote_proposal(&mut proposal, &mut agents[2], VoteType::Reject, &reasoning, 1004).unwrap();
    vote_proposal(&mut proposal, &mut agents[3], VoteType::Abstain, &reasoning, 1005).unwrap();

    assert_eq!(proposal.votes_for, 3);
    assert_eq!(proposal.votes_against, 1);
    assert_eq!(proposal.votes_abstain, 1);
    assert_eq!(proposal.weighted_votes_for, 33000);
    assert_eq!(proposal.weighted_votes_against, 11000);
    assert_eq!(proposal.total_voters, 5);
    assert!(proposal.has_quorum(swarm.min_votes_required, swarm.active_agents));
    assert!(proposal.is_approved());

    execute_proposal(&mut proposal, &mut swarm, &mut proposer, 2000).unwrap();
    assert!(proposal.executed);
    assert_eq!(proposal.executed_at, 2000);
    assert_eq!(swarm.executed_proposals, 1);
}

#[test]
fn unanimous_approval_without_quorum_fails() {
    // Only two of five agents vote, both approving: the absolute floor of
    // three voters is missed, so execution fails however unanimous the vote.
    let (mut swarm, mut agents) = swarm_of_five_with_timeout(3600);
    let mut proposer = agents.remove(0);
    let mut proposal = plain_proposal(&mut swarm, &mut proposer, 1000);
    let reasoning = String::new();

    vote_proposal(&mut proposal, &mut agents[0], VoteType::Approve, &reasoning, 1001).unwrap();
    vote_proposal(&mut proposal, &mut agents[1], VoteType::Approve, &reasoning, 1002).unwrap();

    assert_eq!(proposal.total_voters, 2);
    assert!(!proposal.has_quorum(swarm.min_votes_required, swarm.active_agents));
    assert!(proposal.is_approved());

    let err = execute_proposal(&mut proposal, &mut swarm, &mut proposer, 2000).unwrap_err();
    assert_eq!(err, SwarmError::InsufficientVotes);
    assert!(!proposal.executed);
    assert_eq!(swarm.executed_proposals, 0);
}

#[test]
fn execution_fails_once_expired() {
    // With the shortest timeout, both voting and execution are turned away
    // one second past the expiry, whatever the tallies say.
    let mut swarm = initialize(1, 3, 2, 300).unwrap();
    let mut registry = AgentRegistry::new();
    let mut agents = Vec::new();
    for owner in [10u64, 20, 30] {
        agents.push(
            register_agent(&mut swarm, &mut registry, owner, AgentType::Consensus, String::new(), 0)
                .unwrap(),
        );
    }
    let mut proposer = agents.remove(0);
    let mut proposal = plain_proposal(&mut swarm, &mut proposer, 1000);
    let reasoning = String::new();
    vote_proposal(&mut proposal, &mut proposer, VoteType::Approve, &reasoning, 1001).unwrap();
    vote_proposal(&mut proposal, &mut agents[0], VoteType::Approve, &reasoning, 1002).unwrap();
    vote_proposal(&mut proposal, &mut agents[1], VoteType::Approve, &reasoning, 1003).unwrap();
    assert!(proposal.has_quorum(swarm.min_votes_required, swarm.active_agents));
    assert!(proposal.is_approved());

    let vote_err =
        vote_proposal(&mut proposal, &mut agents[0], VoteType::Approve, &reasoning, 1301)
            .unwrap_err();
    assert_eq!(vote_err, SwarmError::ProposalExpired);
    let exec_err = execute_proposal(&mut proposal, &mut swarm, &mut proposer, 1301).unwrap_err();
    assert_eq!(exec_err, SwarmError::ProposalExpired);
    assert!(!proposal.executed);
}

#[test]
fn executing_twice_fails_with_already_executed() {
    let (mut swarm, mut agents) = swarm_of_five_with_timeout(3600);
    let mut proposer = agents.remove(0);
    let mut proposal = plain_proposal(&mut swarm, &mut proposer, 1000);
    let reasoning = String::new();
    vote_proposal(&mut proposal, &mut proposer, VoteType::Approve, &reasoning, 1001).unwrap();
    vote_proposal(&mut proposal, &mut agents[0], VoteType::Approve, &reasoning, 1002).unwrap();
    vote_proposal(&mut proposal, &mut agents[1], VoteType::Approve, &reasoning, 1003).unwrap();

    execute_proposal(&mut proposal, &mut swarm, &mut proposer, 2000).unwrap();
    let err = execute_proposal(&mut proposal, &mut swarm, &mut agents[0], 2001).unwrap_err();
    assert_eq!(err, SwarmError::ProposalAlreadyExecuted);
    assert_eq!(swarm.executed_proposals, 1);
    // A vote after execution fails the same way.
    let vote_err =
        vote_proposal(&mut proposal, &mut agents[2], VoteType::Approve, &reasoning, 2002)
            .unwrap_err();
    assert_eq!(vote_err, SwarmError::ProposalAlreadyExecuted);
}

#[test]
fn weighted_and_raw_tallies_must_agree() {
    // Two low-reputation approvals outnumber one high-reputation rejection,
    // but the weighted tally leans the other way: the conservative rule
    // treats the disagreement as rejection.
    let (mut swarm, mut agents) = swarm_of_five_with_timeout(3600);
    let mut proposer = agents.remove(0);
    agents[0].reputation = 0; // weight 1000
    agents[1].reputation = 0; // weight 1000
    agents[2].reputation = 10000; // weight 101000
    let mut proposal = plain_proposal(&mut swarm, &mut proposer, 1000);
    let reasoning = String::new();

    vote_proposal(&mut proposal, &mut agents[0], VoteType::Approve, &reasoning, 1001).unwrap();
    vote_proposal(&mut proposal, &mut agents[1], VoteType::Approve, &reasoning, 1002).unwrap();
    vote_proposal(&mut proposal, &mut agents[2], VoteType::Reject, &reasoning, 1003).unwrap();

    assert_eq!(proposal.votes_for, 2);
    assert_eq!(proposal.votes_against, 1);
    assert_eq!(proposal.weighted_votes_for, 2000);
    assert_eq!(proposal.weighted_votes_against, 101000);
    assert!(proposal.has_quorum(swarm.min_votes_required, swarm.active_agents));
    assert!(!proposal.is_approved());

    let err = execute_proposal(&mut proposal, &mut swarm, &mut proposer, 2000).unwrap_err();
    assert_eq!(err, SwarmError::InsufficientVotes);
}

#[test]
fn quorum_needs_both_floors() {
    // With capacity 20 but only the vote floor 11 lowered by a small
    // population, the proportional floor still binds: 11 voters of 20
    // registered agents clear ceil(0.51 * 20) = 11; 10 do not clear the
    // absolute floor.
    let mut proposal = Proposal {
        proposer: 1,
        proposal_type: ProposalType::Emergency,
        data: Vec::new(),
        description: String::new(),
        created_at: 0,
        expires_at: 1000,
        executed: false,
        executed_at: 0,
        votes_for: 10,
        votes_against: 0,
        votes_abstain: 0,
        weighted_votes_for: 110000,
        weighted_votes_against: 0,
        total_voters: 10,
        voters: vec![1, 2, 3, 4, 5, 6, 7, 8, 9, 10],
    };
    // 10 voters: absolute floor of 11 missed.
    assert!(!proposal.has_quorum(11, 20));
    // 11 voters: both floors met.
    proposal.votes_for = 11;
    proposal.total_voters = 11;
    proposal.voters.push(11);
    assert!(proposal.has_quorum(11, 20));
    // Proportional floor alone can bind: 2 voters meet an absolute floor of
    // 2 but miss ceil(0.51 * 5) = 3.
    proposal.total_voters = 2;
    assert!(!proposal.has_quorum(2, 5));
    proposal.total_voters = 3;
    assert!(proposal.has_quorum(2, 5));
}

#[test]
fn execution_rejects_inactive_executor() {
    let (mut swarm, mut agents) = swarm_of_five_with_timeout(3600);
    let mut proposer = agents.remove(0);
    let mut proposal = plain_proposal(&mut swarm, &mut proposer, 1000);
    proposer.is_active = false;
    let err = execute_proposal(&mut proposal, &mut swarm, &mut proposer, 1001).unwrap_err();
    assert_eq!(err, SwarmError::Unauthorized);
}

#[test]
fn create_proposal_validates_bounds() {
    let (mut swarm, mut agents) = swarm_of_five_with_timeout(3600);
    let mut proposer = agents.remove(0);

    let err = create_proposal(
        &mut swarm,
        &mut proposer,
        ProposalType::Trade,
        vec![0u8; 1025],
        String::new(),
        1000,
    )
    .unwrap_err();
    assert_eq!(err, SwarmError::ProposalDataTooLong);

    let err = create_proposal(
        &mut swarm,
        &mut proposer,
        ProposalType::Trade,
        Vec::new(),
        "d".repeat(257),
        1000,
    )
    .unwrap_err();
    assert_eq!(err, SwarmError::DescriptionTooLong);

    proposer.is_active = false;
    let err = create_proposal(
        &mut swarm,
        &mut proposer,
        ProposalType::Trade,
        Vec::new(),
        String::new(),
        1000,
    )
    .unwrap_err();
    assert_eq!(err, SwarmError::Unauthorized);
    proposer.is_active = true;

    // An expiry past the end of the timestamp range is rejected, not wrapped.
    let err = create_proposal(
        &mut swarm,
        &mut proposer,
        ProposalType::Trade,
        Vec::new(),
        String::new(),
        i64::MAX - 100,
    )
    .unwrap_err();
    assert_eq!(err, SwarmError::ArithmeticOverflow);
    assert_eq!(swarm.total_proposals, 0);

    // A valid creation counts and stamps the proposal.
    let proposal = create_proposal(
        &mut swarm,
        &mut proposer,
        ProposalType::Trade,
        vec![0u8; 1024],
        "d".repeat(256),
        1000,
    )
    .unwrap();
    assert_eq!(proposal.proposer, 10);
    assert_eq!(proposal.created_at, 1000);
    assert_eq!(proposal.expires_at, 4600);
    assert_eq!(swarm.total_proposals, 1);
    assert_eq!(proposer.proposals_created, 1);
    assert_eq!(proposer.last_active, 1000);
}
