//! The governance engine: proposals, staked voting, and quorum-gated
//! finalization.
//!
//! Per proposal the state machine is `Active --finalize--> Passed | Failed`;
//! the terminal states are irreversible, and a proposal passes only when the
//! approving votes reach the quorum threshold and its score clears the fixed
//! minimum.

use vstd::prelude::*;
use crate::errors::GovernanceError;
use crate::assoc::{
    assoc_find, assoc_get, distinct_keys, lemma_assoc_get_absent, lemma_assoc_get_index,
    lemma_assoc_get_push, lemma_assoc_get_update, lemma_distinct_push,
};
use vstd::arithmetic::div_mod::{
    lemma_fundamental_div_mod, lemma_mod_multiples_vanish, lemma_small_mod,
};

verus! {

/// The minimum stake an account must hold to cast a vote.
pub const MIN_STAKE_TO_VOTE: u64 = 100_000;

/// A proposal passes only if its score is strictly above this bound.
pub const PASS_SCORE_MIN: u32 = 50;

/// Lifecycle of a proposal: created `Active`, finalized into one of the two
/// terminal states.
#[derive(Clone, Copy, Debug, PartialEq, Eq, Structural)]
pub enum ProposalStatus {
    Active,
    Passed,
    Failed,
}

/// A governance proposal.
pub struct Proposal {
    pub title: String,
    pub description: Vec<u8>,
    pub votes_for: u32,
    pub votes_against: u32,
    pub status: ProposalStatus,
    /// Bounded score of the proposal, a pure function of its description.
    pub ai_score: u32,
}

/// Stake and voting history of one account.
pub struct VoterData {
    pub stake: u64,
    /// Proposal ids this account voted on, in order, duplicates kept.
    pub vote_history: Vec<u32>,
}

/// The authoritative governance state, owned by the caller and passed to
/// every operation explicitly. Proposal ids are assigned monotonically:
/// proposal `id` sits at position `id - 1` and ids are never reused.
pub struct GovernanceData {
    pub admin: u64,
    pub proposals: Vec<Proposal>,
    pub voters: Vec<(u64, VoterData)>,
    /// Minimum count of approving votes for a proposal to pass.
    pub quantum_threshold: u32,
}

/// The proposal score: ten times the description length, reduced modulo 100,
/// hence always within 0 to 99.
pub open spec fn ai_score_of(description: Seq<u8>) -> int {
    ((description.len() * 10) % 100) as int
}

/// The stake held by `account`; an account without a record holds 0.
pub open spec fn stake_of(s: Seq<(u64, VoterData)>, account: u64) -> int {
    match assoc_get(s, account) {
        Some(v) => v.stake as int,
        None => 0,
    }
}

/// The voting history of `account`; empty for an account without a record.
pub open spec fn history_of(s: Seq<(u64, VoterData)>, account: u64) -> Seq<u32> {
    match assoc_get(s, account) {
        Some(v) => v.vote_history@,
        None => Seq::empty(),
    }
}

/// The terminal status a finalized proposal reaches: `Passed` iff the
/// approving votes reach the threshold and the score clears the minimum.
pub open spec fn finalize_status(p: Proposal, threshold: u32) -> ProposalStatus {
    if p.votes_for >= threshold && p.ai_score > PASS_SCORE_MIN {
        ProposalStatus::Passed
    } else {
        ProposalStatus::Failed
    }
}

impl GovernanceData {
    /// Each voter has at most one record, and the quorum threshold is
    /// positive.
    pub open spec fn well_formed(&self) -> bool {
        &&& distinct_keys(self.voters@)
        &&& self.quantum_threshold >= 1
    }

    /// `id` was assigned to a proposal.
    pub open spec fn has_proposal(&self, id: u32) -> bool {
        1 <= id <= self.proposals@.len()
    }
}

/// The governance fields are exactly those of `pre`.
pub open spec fn gov_unchanged(pre: GovernanceData, post: GovernanceData) -> bool {
    &&& post.admin == pre.admin
    &&& post.quantum_threshold == pre.quantum_threshold
    &&& post.proposals@ == pre.proposals@
    &&& post.voters@ == pre.voters@
}

/// The full effect of a finalization call on the governance state.
pub open spec fn finalize_post(
    pre: GovernanceData,
    post: GovernanceData,
    pid: u32,
    r: Result<(), GovernanceError>,
) -> bool {
    if !pre.has_proposal(pid) {
        r == Err::<(), GovernanceError>(GovernanceError::ProposalNotFound) && gov_unchanged(
            pre,
            post,
        )
    } else if pre.proposals@[pid - 1].status != ProposalStatus::Active {
        r == Err::<(), GovernanceError>(GovernanceError::AlreadyFinalized) && gov_unchanged(
            pre,
            post,
        )
    } else {
        &&& r == Ok::<(), GovernanceError>(())
        &&& post.admin == pre.admin
        &&& post.quantum_threshold == pre.quantum_threshold
        &&& post.voters@ == pre.voters@
        &&& post.proposals@.len() == pre.proposals@.len()
        &&& forall|i: int|
            0 <= i < pre.proposals@.len() && i != pid - 1 ==> post.proposals@[i]
                == pre.proposals@[i]
        &&& post.proposals@[pid - 1].status == finalize_status(
            pre.proposals@[pid - 1],
            pre.quantum_threshold,
        )
        &&& post.proposals@[pid - 1].votes_for == pre.proposals@[pid - 1].votes_for
        &&& post.proposals@[pid - 1].votes_against == pre.proposals@[pid - 1].votes_against
        &&& post.proposals@[pid - 1].ai_score == pre.proposals@[pid - 1].ai_score
        &&& post.proposals@[pid - 1].title@ == pre.proposals@[pid - 1].title@
        &&& post.proposals@[pid - 1].description@ == pre.proposals@[pid - 1].description@
    }
}

/// The governance engine: every operation validates, then commits a whole
/// effect or fails with a typed error and leaves the state untouched.
pub struct PiCoinGovernance;

impl PiCoinGovernance {
    /// A fresh governance state with the given admin and quorum threshold,
    /// no proposals and no voters.
    pub fn initialize(admin: u64, quantum_threshold: u32) -> (r: GovernanceData)
        requires
            quantum_threshold >= 1,
        ensures
            r.well_formed(),
            r.admin == admin,
            r.quantum_threshold == quantum_threshold,
            r.proposals@.len() == 0,
            r.voters@.len() == 0,
            forall|a: u64| #[trigger] stake_of(r.voters@, a) == 0,
            forall|a: u64| #[trigger] history_of(r.voters@, a) == Seq::<u32>::empty(),
    {
        let r = GovernanceData {
            admin,
            proposals: Vec::new(),
            voters: Vec::new(),
            quantum_threshold,
        };
        proof {
            assert forall|a: u64| #[trigger]
                stake_of(r.voters@, a) == 0 && history_of(r.voters@, a) == Seq::<u32>::empty() by {
                lemma_assoc_get_absent(r.voters@, a);
            }
        }
        r
    }

    /// Creates a proposal under the next unused id, scored from its
    /// description, in the `Active` state.
    pub fn create_proposal(
        data: &mut GovernanceData,
        creator: u64,
        title: String,
        description: Vec<u8>,
        authorized: bool,
    ) -> (r: Result<u32, GovernanceError>)
        requires
            old(data).well_formed(),
            old(data).proposals@.len() < u32::MAX,
        ensures
            final(data).well_formed(),
            !authorized ==> r == Err::<u32, GovernanceError>(GovernanceError::Unauthorized)
                && gov_unchanged(*old(data), *final(data)),
            authorized ==> {
                &&& r == Ok::<u32, GovernanceError>((old(data).proposals@.len() + 1) as u32)
                &&& final(data).admin == old(data).admin
                &&& final(data).quantum_threshold == old(data).quantum_threshold
                &&& final(data).voters@ == old(data).voters@
                &&& final(data).proposals@.len() == old(data).proposals@.len() + 1
                &&& forall|i: int|
                    0 <= i < old(data).proposals@.len() ==> final(data).proposals@[i] == old(
                        data,
                    ).proposals@[i]
                &&& final(data).proposals@.last().title@ == title@
                &&& final(data).proposals@.last().description@ == description@
                &&& final(data).proposals@.last().votes_for == 0
                &&& final(data).proposals@.last().votes_against == 0
                &&& final(data).proposals@.last().status == ProposalStatus::Active
                &&& final(data).proposals@.last().ai_score == ai_score_of(description@)
            },
    {
        if !authorized {
            return Err(GovernanceError::Unauthorized);
        }
        let score: usize = (description.len() % 10) * 10;
        proof {
            let l = description@.len() as int;
            lemma_fundamental_div_mod(l, 10);
            assert(l * 10 == 100 * (l / 10) + 10 * (l % 10));
            lemma_mod_multiples_vanish(l / 10, 10 * (l % 10), 100);
            lemma_small_mod((10 * (l % 10)) as nat, 100);
        }
        let proposal_id = data.proposals.len() + 1;
        let proposal = Proposal {
            title,
            description,
            votes_for: 0,
            votes_against: 0,
            status: ProposalStatus::Active,
            ai_score: score as u32,
        };
        data.proposals.push(proposal);
        Ok(proposal_id as u32)
    }

    /// Adds `amount` to the stake of `staker`, creating the voter record on
    /// first use; stakes and histories of all other accounts are untouched.
    pub fn stake_tokens(
        data: &mut GovernanceData,
        staker: u64,
        amount: u64,
        authorized: bool,
    ) -> (r: Result<(), GovernanceError>)
        requires
            old(data).well_formed(),
            amount > 0,
            stake_of(old(data).voters@, staker) + amount <= u64::MAX,
        ensures
            final(data).well_formed(),
            !authorized ==> r == Err::<(), GovernanceError>(GovernanceError::Unauthorized)
                && gov_unchanged(*old(data), *final(data)),
            authorized ==> {
                &&& r == Ok::<(), GovernanceError>(())
                &&& final(data).admin == old(data).admin
                &&& final(data).quantum_threshold == old(data).quantum_threshold
                &&& final(data).proposals@ == old(data).proposals@
                &&& forall|a: u64| #[trigger]
                    stake_of(final(data).voters@, a) == stake_of(old(data).voters@, a) + (
                    if a == staker {
                        amount as int
                    } else {
                        0
                    })
                &&& forall|a: u64| #[trigger]
                    history_of(final(data).voters@, a) == history_of(old(data).voters@, a)
            },
    {
        if !authorized {
            return Err(GovernanceError::Unauthorized);
        }
        let ghost s0 = data.voters@;
        match assoc_find(&data.voters, staker) {
            Some(i) => {
                proof {
                    lemma_assoc_get_index(s0, i as int);
                }
                let entry = &mut data.voters[i];
                entry.1.stake = entry.1.stake + amount;
                proof {
                    let nvd = data.voters@[i as int].1;
                    assert(data.voters@ == s0.update(i as int, (s0[i as int].0, nvd)));
                    lemma_assoc_get_update(s0, i as int, nvd);
                }
            },
            None => {
                let vd = VoterData { stake: amount, vote_history: Vec::new() };
                proof {
                    lemma_assoc_get_absent(s0, staker);
                    lemma_distinct_push(s0, (staker, vd));
                    lemma_assoc_get_push(s0, (staker, vd));
                }
                data.voters.push((staker, vd));
            },
        }
        Ok(())
    }

    /// The stake currently held by `account`.
    pub fn voter_stake(data: &GovernanceData, account: u64) -> (r: u64)
        requires
            data.well_formed(),
        ensures
            r == stake_of(data.voters@, account),
    {
        match assoc_find(&data.voters, account) {
            Some(i) => {
                proof {
                    lemma_assoc_get_index(data.voters@, i as int);
                }
                data.voters[i].1.stake
            },
            None => {
                proof {
                    lemma_assoc_get_absent(data.voters@, account);
                }
                0
            },
        }
    }

    /// Casts a vote on a proposal: one counter is incremented and the
    /// proposal id is appended to the voter's history. The voter must hold
    /// at least the minimum stake, and the proposal must still be active:
    /// terminal proposals are immutable and accept no further votes.
    pub fn vote(
        data: &mut GovernanceData,
        voter: u64,
        proposal_id: u32,
        approve: bool,
        authorized: bool,
    ) -> (r: Result<(), GovernanceError>)
        requires
            old(data).well_formed(),
            forall|i: int|
                0 <= i < old(data).proposals@.len() ==> old(data).proposals@[i].votes_for
                    < u32::MAX && old(data).proposals@[i].votes_against < u32::MAX,
        ensures
            final(data).well_formed(),
            !authorized ==> r == Err::<(), GovernanceError>(GovernanceError::Unauthorized)
                && gov_unchanged(*old(data), *final(data)),
            authorized && stake_of(old(data).voters@, voter) < MIN_STAKE_TO_VOTE ==> r == Err::<
                (),
                GovernanceError,
            >(GovernanceError::InsufficientStake) && gov_unchanged(*old(data), *final(data)),
            authorized && stake_of(old(data).voters@, voter) >= MIN_STAKE_TO_VOTE && !old(
                data,
            ).has_proposal(proposal_id) ==> r == Err::<(), GovernanceError>(
                GovernanceError::ProposalNotFound,
            ) && gov_unchanged(*old(data), *final(data)),
            authorized && stake_of(old(data).voters@, voter) >= MIN_STAKE_TO_VOTE && old(
                data,
            ).has_proposal(proposal_id) && old(data).proposals@[proposal_id - 1].status
                != ProposalStatus::Active ==> r == Err::<(), GovernanceError>(
                GovernanceError::AlreadyFinalized,
            ) && gov_unchanged(*old(data), *final(data)),
            authorized && stake_of(old(data).voters@, voter) >= MIN_STAKE_TO_VOTE && old(
                data,
            ).has_proposal(proposal_id) && old(data).proposals@[proposal_id - 1].status
                == ProposalStatus::Active ==> {
                &&& r == Ok::<(), GovernanceError>(())
                &&& final(data).admin == old(data).admin
                &&& final(data).quantum_threshold == old(data).quantum_threshold
                &&& final(data).proposals@.len() == old(data).proposals@.len()
                &&& forall|i: int|
                    0 <= i < old(data).proposals@.len() && i != proposal_id - 1 ==> final(data).proposals@[i] == old(data).proposals@[i]
                &&& final(data).proposals@[proposal_id - 1].votes_for == old(
                    data,
                ).proposals@[proposal_id - 1].votes_for + (if approve {
                    1int
                } else {
                    0int
                })
                &&& final(data).proposals@[proposal_id - 1].votes_against == old(
                    data,
                ).proposals@[proposal_id - 1].votes_against + (if approve {
                    0int
                } else {
                    1int
                })
                &&& final(data).proposals@[proposal_id - 1].status == old(
                    data,
                ).proposals@[proposal_id - 1].status
                &&& final(data).proposals@[proposal_id - 1].ai_score == old(
                    data,
                ).proposals@[proposal_id - 1].ai_score
                &&& final(data).proposals@[proposal_id - 1].title@ == old(
                    data,
                ).proposals@[proposal_id - 1].title@
                &&& final(data).proposals@[proposal_id - 1].description@ == old(
                    data,
                ).proposals@[proposal_id - 1].description@
                &&& forall|a: u64| #[trigger]
                    stake_of(final(data).voters@, a) == stake_of(old(data).voters@, a)
                &&& forall|a: u64| #[trigger]
                    history_of(final(data).voters@, a) == if a == voter {
                        history_of(old(data).voters@, a).push(proposal_id)
                    } else {
                        history_of(old(data).voters@, a)
                    }
            },
    {
        if !authorized {
            return Err(GovernanceError::Unauthorized);
        }
        let ghost s0 = data.voters@;
        let (voter_idx, stake): (usize, u64) = match assoc_find(&data.voters, voter) {
            Some(i) => {
                proof {
                    lemma_assoc_get_index(s0, i as int);
                }
                (i, data.voters[i].1.stake)
            },
            None => {
                proof {
                    lemma_assoc_get_absent(s0, voter);
                }
                (0, 0)
            },
        };
        if stake < MIN_STAKE_TO_VOTE {
            return Err(GovernanceError::InsufficientStake);
        }
        if proposal_id < 1 || proposal_id as usize > data.proposals.len() {
            return Err(GovernanceError::ProposalNotFound);
        }
        let idx = (proposal_id - 1) as usize;
        if !matches!(data.proposals[idx].status, ProposalStatus::Active) {
            return Err(GovernanceError::AlreadyFinalized);
        }
        let ghost p0 = data.proposals@;
        {
            let p = &mut data.proposals[idx];
            if approve {
                p.votes_for = p.votes_for + 1;
            } else {
                p.votes_against = p.votes_against + 1;
            }
        }
        proof {
            assert(s0[voter_idx as int].0 == voter);
        }
        {
            let entry = &mut data.voters[voter_idx];
            entry.1.vote_history.push(proposal_id);
        }
        proof {
            let nvd = data.voters@[voter_idx as int].1;
            assert(data.voters@ == s0.update(voter_idx as int, (s0[voter_idx as int].0, nvd)));
            lemma_assoc_get_update(s0, voter_idx as int, nvd);
            assert(nvd.stake == s0[voter_idx as int].1.stake);
            assert(nvd.vote_history@ == s0[voter_idx as int].1.vote_history@.push(proposal_id));
        }
        Ok(())
    }

    /// Finalizes an active proposal into its terminal status; a second call
    /// on the same proposal fails with `AlreadyFinalized` and changes
    /// nothing.
    pub fn finalize_proposal(data: &mut GovernanceData, proposal_id: u32) -> (r: Result<
        (),
        GovernanceError,
    >)
        requires
            old(data).well_formed(),
        ensures
            final(data).well_formed(),
            finalize_post(*old(data), *final(data), proposal_id, r),
    {
        if proposal_id < 1 || proposal_id as usize > data.proposals.len() {
            return Err(GovernanceError::ProposalNotFound);
        }
        let idx = (proposal_id - 1) as usize;
        if !matches!(data.proposals[idx].status, ProposalStatus::Active) {
            return Err(GovernanceError::AlreadyFinalized);
        }
        let passed = data.proposals[idx].votes_for >= data.quantum_threshold
            && data.proposals[idx].ai_score > PASS_SCORE_MIN;
        {
            let p = &mut data.proposals[idx];
            p.status = if passed {
                ProposalStatus::Passed
            } else {
                ProposalStatus::Failed
            };
        }
        Ok(())
    }
}

/// Quorum gate: a proposal finalized with fewer approving votes than the
/// quorum threshold always fails, regardless of its score.
pub proof fn lemma_quorum_gate(p: Proposal, threshold: u32)
    requires
        p.votes_for < threshold,
    ensures
        finalize_status(p, threshold) == ProposalStatus::Failed,
{
}

/// Finalization is irreversible: after a successful finalization, a second
/// finalization of the same proposal fails with `AlreadyFinalized` and
/// leaves every proposal, in particular its status, unchanged.
pub proof fn lemma_finalize_irreversible(
    g0: GovernanceData,
    g1: GovernanceData,
    g2: GovernanceData,
    pid: u32,
    r1: Result<(), GovernanceError>,
    r2: Result<(), GovernanceError>,
)
    requires
        finalize_post(g0, g1, pid, r1),
        r1 is Ok,
        finalize_post(g1, g2, pid, r2),
    ensures
        r2 == Err::<(), GovernanceError>(GovernanceError::AlreadyFinalized),
        g2.proposals@ == g1.proposals@,
{
}

} // verus!
