//! The operations of the swarm's external surface.
//!
//! Every operation takes the entities it touches by reference, together with
//! the plain values the host supplies: the caller's identity key and the
//! current time. Each one validates first and mutates only on success.

pub mod initialize;
pub mod register_agent;
pub mod create_proposal;
pub mod vote_proposal;
pub mod execute_proposal;
pub mod update_reputation;
pub mod record_outcome;

pub use initialize::initialize;
pub use register_agent::register_agent;
pub use create_proposal::create_proposal;
pub use vote_proposal::vote_proposal;
pub use execute_proposal::execute_proposal;
pub use update_reputation::update_reputation;
pub use record_outcome::record_outcome;
