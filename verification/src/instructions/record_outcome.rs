//! Outcome recording.

use vstd::prelude::*;

use crate::constants::MAX_OUTCOME_METRICS_LENGTH;
use crate::errors::SwarmError;
use crate::state::{Outcome, Proposal};

verus! {

/// Gate of `record_outcome`: the first rule the request breaks, if any. An
/// outcome exists only for an already-executed proposal, and the metrics
/// blob is bounded.
pub open spec fn spec_record_outcome_err(
    proposal: Proposal,
    metrics_len: nat,
) -> Option<SwarmError> {
    if !proposal.executed {
        Some(SwarmError::VotingInProgress)
    } else if metrics_len > MAX_OUTCOME_METRICS_LENGTH {
        Some(SwarmError::ProposalDataTooLong)
    } else {
        None
    }
}

/// Record the real-world outcome of an executed proposal.
///
/// Fails while the proposal is still unexecuted, or if the metrics blob
/// exceeds 512 bytes. On success the outcome carries the proposal's key,
/// the reporting executor, the success flag, the metrics, and `now`. The
/// one-outcome-per-proposal rule is the storage layer's: it keys outcomes
/// by `proposal_key` and must refuse a second record under the same key.
pub fn record_outcome(
    proposal: &Proposal,
    proposal_key: u64,
    executor: u64,
    success: bool,
    metrics: Vec<u8>,
    now: i64,
) -> (r: Result<Outcome, SwarmError>)
    ensures
        match r {
            Ok(outcome) => {
                &&& spec_record_outcome_err(*proposal, metrics@.len()) is None
                &&& outcome.proposal == proposal_key
                &&& outcome.executed_by == executor
                &&& outcome.success == success
                &&& outcome.metrics == metrics
                &&& outcome.executed_at == now
            },
            Err(e) => spec_record_outcome_err(*proposal, metrics@.len()) == Some(e),
        },
{
    if !proposal.executed {
        return Err(SwarmError::VotingInProgress);
    }
    if metrics.len() > MAX_OUTCOME_METRICS_LENGTH {
        return Err(SwarmError::ProposalDataTooLong);
    }
    Ok(Outcome { proposal: proposal_key, executed_by: executor, success, metrics, executed_at: now })
}

} // verus!
