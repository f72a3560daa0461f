//! Governance and consensus core for a multi-agent coordination swarm.
//!
//! A fixed population of registered agents proposes actions, casts
//! reputation-weighted votes, and executes proposals that reach both a quorum
//! and a majority approval. A reputation adjuster feeds recorded outcomes of
//! past decisions back into each agent's voting power.
//!
//! The crate holds only the state machine itself: membership bookkeeping,
//! proposal lifecycle, vote tallying, quorum and approval evaluation, and
//! reputation adjustment. Storage, identity proofs, and any downstream action
//! dispatch belong to the surrounding host, which supplies plain values
//! (identity keys, the current time) to every operation.

use vstd::prelude::*;

pub mod constants;
pub mod errors;
pub mod state;
pub mod instructions;

verus! {

/// Role a registered agent plays in the swarm.
#[derive(Clone, Copy, PartialEq, Eq, Structural, Debug)]
pub enum AgentType {
    /// Coordinates decision-making.
    Consensus,
    /// Analyzes data and generates insights.
    Analytics,
    /// Executes approved transactions.
    Execution,
    /// Monitors and enforces risk limits.
    RiskManagement,
    /// Adapts strategies based on outcomes.
    Learning,
    /// Manages coalition governance.
    Governance,
    /// Monitors security threats.
    Security,
    /// Manages liquidity positions.
    Liquidity,
    /// Identifies arbitrage opportunities.
    Arbitrage,
    /// Community-defined agent type.
    Custom(u8),
}

/// Kind of action a proposal asks the swarm to take.
#[derive(Clone, Copy, PartialEq, Eq, Structural, Debug)]
pub enum ProposalType {
    /// Rebalance portfolio allocation.
    Rebalance,
    /// Execute a specific trade.
    Trade,
    /// Update risk parameters.
    RiskLimit,
    /// Change investment strategy.
    Strategy,
    /// Emergency action.
    Emergency,
}

/// Choice an agent makes when voting on a proposal.
#[derive(Clone, Copy, PartialEq, Eq, Structural, Debug)]
pub enum VoteType {
    Approve,
    Reject,
    Abstain,
}

} // verus!
