//! Protocol-wide bounds for the swarm.

use vstd::prelude::*;

verus! {

/// Longest agent name accepted at registration, in characters.
pub const MAX_AGENT_NAME_LENGTH: usize = 32;
/// Longest proposal description accepted, in characters.
pub const MAX_DESCRIPTION_LENGTH: usize = 256;
/// Longest vote reasoning accepted, in characters.
pub const MAX_REASONING_LENGTH: usize = 512;
/// Longest opaque proposal payload accepted, in bytes.
pub const MAX_PROPOSAL_DATA_LENGTH: usize = 1024;
/// Longest outcome metrics blob accepted, in bytes.
pub const MAX_OUTCOME_METRICS_LENGTH: usize = 512;

/// Smallest swarm capacity a configuration may name.
pub const MIN_AGENTS: u8 = 3;
/// Largest swarm capacity a configuration may name; also the capacity of a
/// proposal's voter list.
pub const MAX_AGENTS: u8 = 20;

/// Default proposal lifetime, in seconds.
pub const DEFAULT_PROPOSAL_TIMEOUT: i64 = 3600;
/// Shortest proposal lifetime a configuration may name, in seconds.
pub const MIN_PROPOSAL_TIMEOUT: i64 = 300;
/// Longest proposal lifetime a configuration may name, in seconds.
pub const MAX_PROPOSAL_TIMEOUT: i64 = 86400;

/// Reputation every agent starts with.
pub const INITIAL_REPUTATION: u16 = 1000;
/// Floor of the reputation range.
pub const MIN_REPUTATION: u16 = 0;
/// Ceiling of the reputation range.
pub const MAX_REPUTATION: u16 = 10000;

} // verus!
