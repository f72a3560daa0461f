//! Error taxonomy of the swarm core.
//!
//! Validation errors reject an input before any mutation; state-conflict
//! errors signal that an operation is inapplicable in the current state;
//! authorization errors signal a caller without the right to act; arithmetic
//! errors signal a timestamp pushed out of range. Every operation reports its
//! error synchronously and leaves all state untouched on failure.

use vstd::prelude::*;

verus! {

/// Everything a swarm operation can fail with.
#[derive(Clone, Copy, PartialEq, Eq, Structural, Debug)]
pub enum SwarmError {
    /// Agent name exceeds maximum length.
    AgentNameTooLong,
    /// Description exceeds maximum length.
    DescriptionTooLong,
    /// Reasoning exceeds maximum length.
    ReasoningTooLong,
    /// Proposal data (or outcome metrics) exceeds maximum length.
    ProposalDataTooLong,
    /// Maximum number of agents reached.
    MaxAgentsReached,
    /// Minimum number of agents not met.
    MinAgentsNotMet,
    /// Agent already registered.
    AgentAlreadyRegistered,
    /// Agent not found.
    AgentNotFound,
    /// Proposal not found.
    ProposalNotFound,
    /// Proposal already executed.
    ProposalAlreadyExecuted,
    /// Proposal already expired.
    ProposalExpired,
    /// Agent already voted on this proposal.
    AlreadyVoted,
    /// Insufficient votes to execute proposal.
    InsufficientVotes,
    /// Proposal voting still in progress.
    VotingInProgress,
    /// Unauthorized agent action.
    Unauthorized,
    /// Invalid proposal timeout.
    InvalidProposalTimeout,
    /// Invalid reputation score.
    InvalidReputationScore,
    /// Invalid vote count.
    InvalidVoteCount,
    /// Arithmetic overflow.
    ArithmeticOverflow,
    /// Swarm not initialized.
    SwarmNotInitialized,
}

} // verus!
