//! Tests of agent registration: capacity, uniqueness, name bounds.

use agent_swarm::errors::SwarmError;
use agent_swarm::instructions::{initialize, register_agent};
use agent_swarm::state::AgentRegistry;
use agent_swarm::AgentType;

#[test]
fn register_fills_in_the_new_agent() {
    let mut swarm = initialize(1, 5, 3, 3600).unwrap();
    let mut registry = AgentRegistry::new();
    let agent = register_agent(
        &mut swarm,
        &mut registry,
        42,
        AgentType::Analytics,
        String::from("scout"),
        1111,
    )
    .unwrap();
    assert_eq!(agent.owner, 42);
    assert_eq!(agent.agent_type, AgentType::Analytics);
    assert_eq!(agent.name, "scout");
    assert_eq!(agent.reputation, 1000);
    assert_eq!(agent.proposals_created, 0);
    assert_eq!(agent.votes_cast, 0);
    assert_eq!(agent.successful_proposals, 0);
    assert_eq!(agent.registered_at, 1111);
    assert_eq!(agent.last_active, 1111);
    assert!(agent.is_active);
    assert_eq!(swarm.active_agents, 1);
}

#[test]
fn register_counts_each_agent_up_to_capacity_then_fails() {
    let mut swarm = initialize(1, 3, 2, 3600).unwrap();
    let mut registry = AgentRegistry::new();
    for (i, owner) in [10u64, 20, 30].iter().enumerate() {
        let name = String::from("agent");
        register_agent(&mut swarm, &mut registry, *owner, AgentType::Consensus, name, 0)
            .unwrap();
        assert_eq!(swarm.active_agents, i as u8 + 1);
    }
    // The swarm is at capacity: the next registration fails and changes nothing.
    let err = register_agent(
        &mut swarm,
        &mut registry,
        40,
        AgentType::Consensus,
        String::from("late"),
        0,
    )
    .unwrap_err();
    assert_eq!(err, SwarmError::MaxAgentsReached);
    assert_eq!(swarm.active_agents, 3);
}

#[test]
fn register_rejects_duplicate_owner() {
    let mut swarm = initialize(1, 5, 3, 3600).unwrap();
    let mut registry = AgentRegistry::new();
    register_agent(&mut swarm, &mut registry, 42, AgentType::Consensus, String::new(), 0)
        .unwrap();
    let err = register_agent(
        &mut swarm,
        &mut registry,
        42,
        AgentType::Execution,
        String::from("again"),
        5,
    )
    .unwrap_err();
    assert_eq!(err, SwarmError::AgentAlreadyRegistered);
    assert_eq!(swarm.active_agents, 1);
}

#[test]
fn register_rejects_name_over_32_characters() {
    let mut swarm = initialize(1, 5, 3, 3600).unwrap();
    let mut registry = AgentRegistry::new();
    let long_name = "x".repeat(33);
    let err = register_agent(&mut swarm, &mut registry, 42, AgentType::Consensus, long_name, 0)
        .unwrap_err();
    assert_eq!(err, SwarmError::AgentNameTooLong);
    assert_eq!(swarm.active_agents, 0);

    // Exactly 32 characters is accepted.
    let edge_name = "x".repeat(32);
    register_agent(&mut swarm, &mut registry, 42, AgentType::Consensus, edge_name, 0).unwrap();
    assert_eq!(swarm.active_agents, 1);
}

#[test]
fn register_accepts_custom_agent_type() {
    let mut swarm = initialize(1, 5, 3, 3600).unwrap();
    let mut registry = AgentRegistry::new();
    let agent = register_agent(
        &mut swarm,
        &mut registry,
        9,
        AgentType::Custom(17),
        String::from("oddball"),
        0,
    )
    .unwrap();
    assert_eq!(agent.agent_type, AgentType::Custom(17));
}
