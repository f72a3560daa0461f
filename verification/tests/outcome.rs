//! Tests of outcome recording.

use agent_swarm::errors::SwarmError;
use agent_swarm::instructions::{
    create_proposal, execute_proposal, initialize, register_agent, record_outcome, vote_proposal,
};
use agent_swarm::state::{AgentRegistry, Proposal};
use agent_swarm::{AgentType, ProposalType, VoteType};

fn executed_proposal() -> Proposal {
    let mut swarm = initialize(1, 3, 2, 3600).unwrap();
    let mut registry = AgentRegistry::new();
    let mut agents = Vec::new();
    for owner in [10u64, 20, 30] {
        agents.push(
            register_agent(&mut swarm, &mut registry, owner, AgentType::Execution, String::new(), 0)
                .unwrap(),
        );
    }
    let mut proposer = agents.remove(0);
    let mut proposal = create_proposal(
        &mut swarm,
        &mut proposer,
        ProposalType::RiskLimit,
        Vec::new(),
        String::new(),
        100,
    )
    .unwrap();
    let reasoning = String::new();
    vote_proposal(&mut proposal, &mut proposer, VoteType::Approve, &reasoning, 101).unwrap();
    vote_proposal(&mut proposal, &mut agents[0], VoteType::Approve, &reasoning, 102).unwrap();
    execute_proposal(&mut proposal, &mut swarm, &mut proposer, 200).unwrap();
    proposal
}

#[test]
fn outcome_carries_the_report() {
    let proposal = executed_proposal();
    let outcome = record_outcome(&proposal, 0, 10, true, vec![9, 9], 300).unwrap();
    assert_eq!(outcome.proposal, 0);
    assert_eq!(outcome.executed_by, 10);
    assert!(outcome.success);
    assert_eq!(outcome.metrics, vec![9, 9]);
    assert_eq!(outcome.executed_at, 300);
}

#[test]
fn outcome_requires_an_executed_proposal() {
    let mut proposal = executed_proposal();
    proposal.executed = false;
    let err = record_outcome(&proposal, 0, 10, true, Vec::new(), 300).unwrap_err();
    assert_eq!(err, SwarmError::VotingInProgress);
}

#[test]
fn outcome_rejects_metrics_over_512_bytes() {
    let proposal = executed_proposal();
    let err = record_outcome(&proposal, 0, 10, false, vec![0u8; 513], 300).unwrap_err();
    assert_eq!(err, SwarmError::ProposalDataTooLong);
    // Exactly 512 bytes is accepted.
    record_outcome(&proposal, 0, 10, false, vec![0u8; 512], 300).unwrap();
}
