//! Core entities of the swarm: configuration, agents, proposals, outcomes.

use vstd::prelude::*;

use crate::constants::{
    MAX_AGENTS, MAX_AGENT_NAME_LENGTH, MAX_DESCRIPTION_LENGTH, MAX_PROPOSAL_DATA_LENGTH,
    MAX_PROPOSAL_TIMEOUT, MAX_REPUTATION, MIN_AGENTS, MIN_PROPOSAL_TIMEOUT,
};

verus! {

/// Swarm-wide configuration and counters, written once at initialization and
/// mutated only by the lifecycle operations.
#[derive(Debug)]
pub struct SwarmState {
    /// Identity permitted to perform privileged operations.
    pub authority: u64,
    /// Capacity of the swarm.
    pub max_agents: u8,
    /// Number of currently registered agents.
    pub active_agents: u8,
    /// Absolute vote-count floor for quorum.
    pub min_votes_required: u8,
    /// Lifetime of each new proposal, in seconds.
    pub proposal_timeout: i64,
    /// Proposals ever created; never decreases.
    pub total_proposals: u64,
    /// Proposals ever executed; never decreases.
    pub executed_proposals: u64,
}

impl SwarmState {
    /// Configuration invariant: capacity within protocol bounds, population
    /// within capacity, vote floor at least the ceiling of 51% of capacity,
    /// timeout within protocol bounds.
    pub open spec fn wf(self) -> bool {
        &&& MIN_AGENTS <= self.max_agents <= MAX_AGENTS
        &&& self.active_agents <= self.max_agents
        &&& self.min_votes_required * 100 >= self.max_agents * 51
        &&& MIN_PROPOSAL_TIMEOUT <= self.proposal_timeout <= MAX_PROPOSAL_TIMEOUT
    }
}

/// Membership ledger of the swarm: the identities that already own an agent.
/// It is the registry's view of the storage layer's one-agent-per-owner rule.
#[derive(Debug)]
pub struct AgentRegistry {
    /// Owners of every registered agent, in registration order.
    pub owners: Vec<u64>,
}

impl AgentRegistry {
    /// No identity registers twice.
    pub open spec fn wf(self) -> bool {
        forall|i: int, j: int|
            0 <= i < j < self.owners@.len() ==> self.owners@[i] != self.owners@[j]
    }

    /// The registry lists exactly as many owners as the swarm counts active
    /// agents.
    pub open spec fn matches_swarm(self, swarm: SwarmState) -> bool {
        self.owners@.len() == swarm.active_agents
    }

    /// An empty ledger, for a freshly initialized swarm.
    pub fn new() -> (r: AgentRegistry)
        ensures
            r.owners@ =~= Seq::<u64>::empty(),
            r.wf(),
    {
        AgentRegistry { owners: Vec::new() }
    }

    /// Whether `owner` already owns an agent.
    pub fn is_registered(&self, owner: u64) -> (r: bool)
        ensures
            r == self.owners@.contains(owner),
    {
        let mut i: usize = 0;
        while i < self.owners.len()
            invariant
                i <= self.owners@.len(),
                forall|k: int| 0 <= k < i ==> self.owners@[k] != owner,
            decreases self.owners@.len() - i,
        {
            if self.owners[i] == owner {
                return true;
            }
            i += 1;
        }
        false
    }
}

/// Voting power of an agent with the given reputation: a base weight of 1000
/// plus 10 per reputation point.
pub open spec fn spec_vote_weight(reputation: u16) -> int {
    1000 + 10 * reputation
}

/// Reputation after one adjustment by `performance_score`: scores above 500
/// add a tenth of the excess, scores at or below 500 subtract a tenth of the
/// shortfall, and both directions saturate at the `[0, 10000]` bounds.
pub open spec fn spec_rep_after(reputation: int, performance_score: int) -> int {
    if performance_score > 500 {
        let raised = reputation + (performance_score - 500) / 10;
        if raised > MAX_REPUTATION {
            MAX_REPUTATION as int
        } else {
            raised
        }
    } else {
        let lowered = reputation - (500 - performance_score) / 10;
        if lowered < 0 {
            0
        } else {
            lowered
        }
    }
}

/// Reputation after `k` adjustments, each by the same performance score.
pub open spec fn spec_rep_iter(reputation: int, performance_score: int, k: nat) -> int
    decreases k,
{
    if k == 0 {
        reputation
    } else {
        spec_rep_after(spec_rep_iter(reputation, performance_score, (k - 1) as nat), performance_score)
    }
}

/// Vote weight is strictly monotonic in reputation, never below the base
/// weight of 1000, and caps at 101000 at the top of the reputation range.
pub proof fn lemma_vote_weight_monotonic(r1: u16, r2: u16)
    requires
        r1 <= r2,
    ensures
        spec_vote_weight(r1) <= spec_vote_weight(r2),
        r1 < r2 ==> spec_vote_weight(r1) < spec_vote_weight(r2),
        spec_vote_weight(0) == 1000,
        spec_vote_weight(10000) == 101000,
        spec_vote_weight(r1) >= 1000,
{
}

/// A repeated adjustment at the highest score walks the reputation up by 50
/// per step until it saturates: `k` steps from `reputation` land on the
/// smaller of `reputation + 50 * k` and the ceiling.
proof fn lemma_rep_iter_top(reputation: int, k: nat)
    requires
        0 <= reputation <= 10000,
    ensures
        spec_rep_iter(reputation, 1000, k) == if reputation + 50 * k > 10000 {
            10000int
        } else {
            reputation + 50 * k
        },
    decreases k,
{
    if k > 0 {
        lemma_rep_iter_top(reputation, (k - 1) as nat);
    }
}

/// A repeated adjustment at the lowest score walks the reputation down by 50
/// per step until it saturates at the floor.
proof fn lemma_rep_iter_bottom(reputation: int, k: nat)
    requires
        0 <= reputation <= 10000,
    ensures
        spec_rep_iter(reputation, 0, k) == if reputation - 50 * k < 0 {
            0int
        } else {
            reputation - 50 * k
        },
    decreases k,
{
    if k > 0 {
        lemma_rep_iter_bottom(reputation, (k - 1) as nat);
    }
}

/// Reputation updates saturate: from any valid reputation, 200 or more
/// adjustments at score 1000 converge to exactly the ceiling of 10000, and
/// 200 or more at score 0 converge to exactly the floor of 0; both bounds
/// are fixed points, so the reputation then stays there.
pub proof fn lemma_reputation_saturates(reputation: int, k: nat)
    requires
        0 <= reputation <= 10000,
        k >= 200,
    ensures
        spec_rep_iter(reputation, 1000, k) == 10000,
        spec_rep_iter(reputation, 0, k) == 0,
        spec_rep_after(10000, 1000) == 10000,
        spec_rep_after(0, 0) == 0,
{
    lemma_rep_iter_top(reputation, k);
    lemma_rep_iter_bottom(reputation, k);
    assert(50 * k >= 50 * 200) by (nonlinear_arith)
        requires
            k >= 200,
    ;
}

/// One registered participant of the swarm.
#[derive(Debug)]
pub struct Agent {
    /// Identity key of the registering caller; unique across the swarm.
    pub owner: u64,
    /// Role the agent plays.
    pub agent_type: crate::AgentType,
    /// Display name, at most 32 characters.
    pub name: String,
    /// Bounded performance score driving vote weight.
    pub reputation: u16,
    /// Proposals this agent created; never decreases.
    pub proposals_created: u32,
    /// Votes this agent cast; never decreases.
    pub votes_cast: u32,
    /// Proposals of this agent that executed; never decreases.
    pub successful_proposals: u32,
    /// Time of registration.
    pub registered_at: i64,
    /// Time of the agent's last action.
    pub last_active: i64,
    /// Inactive agents can neither propose nor vote.
    pub is_active: bool,
}

impl Agent {
    /// Agent invariant: reputation and name stay within their bounds.
    pub open spec fn wf(self) -> bool {
        &&& self.reputation <= MAX_REPUTATION
        &&& self.name@.len() <= MAX_AGENT_NAME_LENGTH
    }

    /// Weighted vote of this agent: base 1000 plus 10 per reputation point,
    /// so reputation never silences an agent and never more than centuples
    /// the base weight.
    pub fn vote_weight(&self) -> (w: u32)
        requires
            self.wf(),
        ensures
            w == spec_vote_weight(self.reputation),
            1000 <= w <= 101000,
    {
        1000 + (self.reputation as u32) * 10
    }

    /// Mark the agent active at `now`. Every agent-initiated operation calls
    /// this as its last step.
    pub fn touch(&mut self, now: i64)
        ensures
            *final(self) == (Agent { last_active: now, ..*old(self) }),
    {
        self.last_active = now;
    }

    /// Adjust reputation from a recorded performance score, saturating at the
    /// `[0, 10000]` bounds.
    pub fn update_reputation(&mut self, performance_score: u16)
        requires
            old(self).wf(),
        ensures
            final(self).reputation == spec_rep_after(
                old(self).reputation as int,
                performance_score as int,
            ),
            final(self).wf(),
            *final(self) == (Agent { reputation: final(self).reputation, ..*old(self) }),
    {
        let new_reputation: u16 = if performance_score > 500 {
            let raised = self.reputation + (performance_score - 500) / 10;
            if raised > MAX_REPUTATION {
                MAX_REPUTATION
            } else {
                raised
            }
        } else {
            let cut = (500 - performance_score) / 10;
            if self.reputation >= cut {
                self.reputation - cut
            } else {
                0
            }
        };
        self.reputation = new_reputation;
    }
}

/// A timed, votable unit of proposed action.
///
/// A proposal is `Open` from creation until it is either executed (an
/// explicit, one-way transition) or expires (implicit: the current time
/// passes `expires_at` while it is still unexecuted). Expiry is always
/// recomputed from the caller-supplied time, never stored.
#[derive(Debug)]
pub struct Proposal {
    /// Identity of the creating agent's owner.
    pub proposer: u64,
    /// Kind of action proposed.
    pub proposal_type: crate::ProposalType,
    /// Opaque payload for the downstream action executor, at most 1024 bytes.
    pub data: Vec<u8>,
    /// Human-readable description, at most 256 characters.
    pub description: String,
    /// Time of creation.
    pub created_at: i64,
    /// `created_at` plus the swarm's proposal timeout.
    pub expires_at: i64,
    /// Whether the proposal has executed; flips false to true exactly once.
    pub executed: bool,
    /// Time of execution, zero until `executed`.
    pub executed_at: i64,
    /// Unweighted count of approving votes.
    pub votes_for: u32,
    /// Unweighted count of rejecting votes.
    pub votes_against: u32,
    /// Unweighted count of abstentions.
    pub votes_abstain: u32,
    /// Reputation-weighted accumulation of approving votes.
    pub weighted_votes_for: u64,
    /// Reputation-weighted accumulation of rejecting votes.
    pub weighted_votes_against: u64,
    /// Count of distinct voters, abstentions included.
    pub total_voters: u8,
    /// Identities that have voted, in voting order; append-only, no repeats.
    pub voters: Vec<u64>,
}

impl Proposal {
    /// Tally invariant: the three unweighted counters partition the voter
    /// count, the voter count equals the voter list, and no identity appears
    /// in the list twice.
    pub open spec fn tally_consistent(self) -> bool {
        &&& self.votes_for + self.votes_against + self.votes_abstain == self.total_voters
        &&& self.total_voters == self.voters@.len()
        &&& forall|i: int, j: int|
            0 <= i < j < self.voters@.len() ==> self.voters@[i] != self.voters@[j]
    }

    /// Proposal invariant: payload and description within bounds, tallies
    /// consistent, voter list within capacity, and each weighted accumulator
    /// bounded by the largest possible weight per matching vote.
    pub open spec fn wf(self) -> bool {
        &&& self.data@.len() <= MAX_PROPOSAL_DATA_LENGTH
        &&& self.description@.len() <= MAX_DESCRIPTION_LENGTH
        &&& self.tally_consistent()
        &&& self.total_voters <= MAX_AGENTS
        &&& self.weighted_votes_for <= 101000 * self.votes_for
        &&& self.weighted_votes_against <= 101000 * self.votes_against
    }

    /// Quorum: the voter count meets both the absolute floor of the
    /// configuration and the ceiling of 51% of the registered population.
    /// (`total_voters * 100 >= active * 51` says, for whole numbers, exactly
    /// `total_voters >= ceil(0.51 * active)`.)
    pub open spec fn spec_has_quorum(self, min_votes: u8, total_agents: u8) -> bool {
        &&& self.total_voters >= min_votes
        &&& self.total_voters * 100 >= total_agents * 51
    }

    /// The proportional quorum floor is exactly the ceiling of 51% of the
    /// registered population: clearing `total_voters * 100 >= total_agents *
    /// 51` is, for whole vote counts, the same as reaching the smallest
    /// whole number at or above `0.51 * total_agents`.
    pub proof fn lemma_quorum_floor_is_majority_ceiling(total_voters: int, total_agents: int)
        requires
            0 <= total_voters,
            0 <= total_agents,
        ensures
            (total_voters * 100 >= total_agents * 51) <==> (total_voters >= (total_agents * 51
                + 99) / 100),
    {
        let a = total_agents * 51;
        vstd::arithmetic::div_mod::lemma_fundamental_div_mod(a + 99, 100);
        let q = (a + 99) / 100;
        let r = (a + 99) % 100;
        assert(a + 99 == 100 * q + r);
        assert(0 <= r < 100) by {
            vstd::arithmetic::div_mod::lemma_remainder_upper(a + 99, 100);
            vstd::arithmetic::div_mod::lemma_remainder_lower(a + 99, 100);
        }
        assert((total_voters * 100 >= a) <==> (total_voters >= q)) by (nonlinear_arith)
            requires
                a + 99 == 100 * q + r,
                0 <= r < 100,
                0 <= total_voters,
                0 <= a,
        ;
    }

    /// Whether the proposal has reached quorum against the swarm's vote floor
    /// and registered population.
    pub fn has_quorum(&self, min_votes: u8, total_agents: u8) -> (r: bool)
        ensures
            r == self.spec_has_quorum(min_votes, total_agents),
    {
        self.total_voters >= min_votes
            && (self.total_voters as u32) * 100 >= (total_agents as u32) * 51
    }

    /// Approval: the weighted and the raw comparison must both favor the
    /// proposal. Where the two disagree the proposal is not approved.
    pub open spec fn spec_is_approved(self) -> bool {
        &&& self.weighted_votes_for > self.weighted_votes_against
        &&& self.votes_for > self.votes_against
    }

    /// Whether the proposal is approved under reputation-weighted voting.
    pub fn is_approved(&self) -> (r: bool)
        ensures
            r == self.spec_is_approved(),
    {
        self.weighted_votes_for > self.weighted_votes_against
            && self.votes_for > self.votes_against
    }

    /// Whether the proposal's voting window has closed at `current_time`.
    pub fn is_expired(&self, current_time: i64) -> (r: bool)
        ensures
            r == (current_time > self.expires_at),
    {
        current_time > self.expires_at
    }

    /// Whether `agent` has already voted on this proposal.
    pub fn has_voted(&self, agent: u64) -> (r: bool)
        ensures
            r == self.voters@.contains(agent),
    {
        let mut i: usize = 0;
        while i < self.voters.len()
            invariant
                i <= self.voters@.len(),
                forall|k: int| 0 <= k < i ==> self.voters@[k] != agent,
            decreases self.voters@.len() - i,
        {
            if self.voters[i] == agent {
                return true;
            }
            i += 1;
        }
        false
    }

    /// Record one vote by a new voter: bump the matching unweighted counter;
    /// for approve and reject also add `weight` to the matching weighted
    /// accumulator; append the voter and count it. An abstention touches
    /// neither weighted accumulator but still consumes the voter's one slot
    /// and counts toward quorum.
    pub fn record_vote(&mut self, agent: u64, vote: crate::VoteType, weight: u32)
        requires
            old(self).wf(),
            !old(self).voters@.contains(agent),
            old(self).total_voters < MAX_AGENTS,
            weight <= 101000,
        ensures
            final(self).votes_for == old(self).votes_for
                + (if vote is Approve { 1int } else { 0 }),
            final(self).votes_against == old(self).votes_against
                + (if vote is Reject { 1int } else { 0 }),
            final(self).votes_abstain == old(self).votes_abstain
                + (if vote is Abstain { 1int } else { 0 }),
            final(self).weighted_votes_for == old(self).weighted_votes_for
                + (if vote is Approve { weight as int } else { 0 }),
            final(self).weighted_votes_against == old(self).weighted_votes_against
                + (if vote is Reject { weight as int } else { 0 }),
            final(self).total_voters == old(self).total_voters + 1,
            final(self).voters@ =~= old(self).voters@.push(agent),
            final(self).proposer == old(self).proposer,
            final(self).proposal_type == old(self).proposal_type,
            final(self).data == old(self).data,
            final(self).description == old(self).description,
            final(self).created_at == old(self).created_at,
            final(self).expires_at == old(self).expires_at,
            final(self).executed == old(self).executed,
            final(self).executed_at == old(self).executed_at,
            final(self).wf(),
    {
        match vote {
            crate::VoteType::Approve => {
                self.votes_for += 1;
                self.weighted_votes_for += weight as u64;
            },
            crate::VoteType::Reject => {
                self.votes_against += 1;
                self.weighted_votes_against += weight as u64;
            },
            crate::VoteType::Abstain => {
                self.votes_abstain += 1;
            },
        }
        self.voters.push(agent);
        self.total_voters += 1;
    }
}

/// Immutable record of an executed proposal's real-world effect, the durable
/// input a downstream learning process turns into performance scores.
#[derive(Debug)]
pub struct Outcome {
    /// Key of the proposal this outcome belongs to; one outcome per proposal.
    pub proposal: u64,
    /// Identity of the agent that reported the outcome.
    pub executed_by: u64,
    /// Whether the executed action succeeded.
    pub success: bool,
    /// Opaque measurement blob, at most 512 bytes.
    pub metrics: Vec<u8>,
    /// Time the outcome was recorded.
    pub executed_at: i64,
}

} // verus!
