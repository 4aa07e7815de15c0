//! Claims against the committed rewards root.
//!
//! The committed root is the root of a tree whose leaves bind a beneficiary to
//! the total that the beneficiary is entitled to since the beginning. A claim
//! proves such a leaf and is paid the part of the total that was not paid
//! before.

use vstd::prelude::*;
use vstd::bytes::{spec_u64_to_le_bytes, u64_to_le_bytes};
use crate::error::MiniNcnError;
use crate::hash::{hashv, keccak_hashv};
use crate::keys::{bytes_equal, Node, Pubkey};
use crate::merkle::{recompute, recomputed_root};
use crate::state::RewardsState;

verus! {

/// What a beneficiary submits with a claim.
#[derive(Debug, PartialEq, Eq)]
pub struct ClaimRewardsArgs {
    /// The index of the beneficiary's leaf in the rewards tree.
    pub index: u32,
    /// The total that the beneficiary is entitled to since the beginning.
    pub total_rewards: u64,
    /// The siblings on the way from the leaf to the root, the lowest first.
    pub proof: Vec<Node>,
}

/// The leaf of the rewards tree that entitles `owner` to `total_rewards` in
/// all: the digest of the owner's address followed by the total, the total
/// as eight bytes with the lowest first.
pub open spec fn claim_leaf_of(owner: Pubkey, total_rewards: u64) -> Node {
    keccak_hashv(owner@, spec_u64_to_le_bytes(total_rewards))
}

/// Computes the leaf that entitles `owner` to `total_rewards` in all.
pub fn claim_leaf(owner: &Pubkey, total_rewards: u64) -> (leaf: Node)
    ensures
        leaf == claim_leaf_of(*owner, total_rewards),
{
    let total = u64_to_le_bytes(total_rewards);
    hashv(owner.as_slice(), total.as_slice())
}

/// What a claim does to the beneficiary's record once the root that its
/// proof leads to is known: the record after the payout together with the
/// payout, or the reason for which the claim is turned down.
///
/// The proof must lead to the committed root. The payout is what the total
/// exceeds the sum of the earlier payouts by, and there must be something to
/// pay.
pub open spec fn settled(
    rewards_state: RewardsState,
    owner: Pubkey,
    total_rewards: u64,
    computed_root: Node,
    rewards_root: Node,
) -> Result<(RewardsState, u64), MiniNcnError> {
    if computed_root != rewards_root {
        Err(MiniNcnError::InvalidProof)
    } else if total_rewards <= rewards_state.claimed_rewards {
        Err(MiniNcnError::NothingToClaim)
    } else {
        Ok(
            (
                RewardsState { owner, claimed_rewards: total_rewards },
                (total_rewards - rewards_state.claimed_rewards) as u64,
            ),
        )
    }
}

/// What a claim of `owner` does to the beneficiary's record while
/// `rewards_root` is the committed root.
pub open spec fn claimed(
    rewards_state: RewardsState,
    rewards_root: Node,
    owner: Pubkey,
    index: u32,
    total_rewards: u64,
    proof: Seq<Node>,
) -> Result<(RewardsState, u64), MiniNcnError> {
    settled(
        rewards_state,
        owner,
        total_rewards,
        recomputed_root(claim_leaf_of(owner, total_rewards), proof, index as nat),
        rewards_root,
    )
}

/// Settles a claim of `owner` to `total_rewards` in all, given the root that
/// the claim's proof leads to. Returns the amount to pay out; the record then
/// holds the total. A claim that is turned down changes nothing.
pub fn settle_claim(
    rewards_state: &mut RewardsState,
    owner: &Pubkey,
    total_rewards: u64,
    computed_root: &Node,
    rewards_root: &Node,
) -> (payout: Result<u64, MiniNcnError>)
    ensures
        match payout {
            Ok(amount) => settled(
                *old(rewards_state),
                *owner,
                total_rewards,
                *computed_root,
                *rewards_root,
            ) == Ok::<(RewardsState, u64), MiniNcnError>((*final(rewards_state), amount)),
            Err(e) => settled(
                *old(rewards_state),
                *owner,
                total_rewards,
                *computed_root,
                *rewards_root,
            ) == Err::<(RewardsState, u64), MiniNcnError>(e) && *final(rewards_state) == *old(
                rewards_state,
            ),
        },
{
    if !bytes_equal(computed_root, rewards_root) {
        return Err(MiniNcnError::InvalidProof);
    }
    if total_rewards <= rewards_state.claimed_rewards {
        return Err(MiniNcnError::NothingToClaim);
    }
    let unclaimed_rewards: u64 = total_rewards - rewards_state.claimed_rewards;
    rewards_state.owner = *owner;
    rewards_state.claimed_rewards = total_rewards;
    Ok(unclaimed_rewards)
}

/// Claims the rewards of `owner` against the committed root `rewards_root`.
/// Returns the amount that the host is to move from the rewards pool to the
/// beneficiary.
pub fn claim_rewards(
    rewards_state: &mut RewardsState,
    rewards_root: &Node,
    owner: &Pubkey,
    args: &ClaimRewardsArgs,
) -> (payout: Result<u64, MiniNcnError>)
    ensures
        match payout {
            Ok(amount) => claimed(
                *old(rewards_state),
                *rewards_root,
                *owner,
                args.index,
                args.total_rewards,
                args.proof@,
            ) == Ok::<(RewardsState, u64), MiniNcnError>((*final(rewards_state), amount)),
            Err(e) => claimed(
                *old(rewards_state),
                *rewards_root,
                *owner,
                args.index,
                args.total_rewards,
                args.proof@,
            ) == Err::<(RewardsState, u64), MiniNcnError>(e) && *final(rewards_state) == *old(
                rewards_state,
            ),
        },
{
    let leaf = claim_leaf(owner, args.total_rewards);
    let computed_root = recompute(leaf, args.proof.as_slice(), args.index);
    settle_claim(rewards_state, owner, args.total_rewards, &computed_root, rewards_root)
}

/// A claim as it reaches the protocol: the root that is committed at the
/// time, the beneficiary, and what the beneficiary submits.
pub struct Claim {
    /// The committed root at the time of the claim.
    pub rewards_root: Node,
    /// The beneficiary.
    pub owner: Pubkey,
    /// The index of the beneficiary's leaf.
    pub index: u32,
    /// The total that the beneficiary claims to be entitled to.
    pub total_rewards: u64,
    /// The proof for the leaf.
    pub proof: Seq<Node>,
}

/// What `claim` does to the beneficiary's record.
pub open spec fn claim_outcome(rewards_state: RewardsState, claim: Claim) -> Result<
    (RewardsState, u64),
    MiniNcnError,
> {
    claimed(
        rewards_state,
        claim.rewards_root,
        claim.owner,
        claim.index,
        claim.total_rewards,
        claim.proof,
    )
}

/// The beneficiary's record after `claims`, made in their order.
pub open spec fn after_claims(rewards_state: RewardsState, claims: Seq<Claim>) -> RewardsState
    decreases claims.len(),
{
    if claims.len() == 0 {
        rewards_state
    } else {
        let next = match claim_outcome(rewards_state, claims[0]) {
            Ok((next, _)) => next,
            Err(_) => rewards_state,
        };
        after_claims(next, claims.drop_first())
    }
}

/// The sum of the payouts that `claims`, made in their order, bring.
pub open spec fn paid_out(rewards_state: RewardsState, claims: Seq<Claim>) -> nat
    decreases claims.len(),
{
    if claims.len() == 0 {
        0
    } else {
        match claim_outcome(rewards_state, claims[0]) {
            Ok((next, amount)) => amount as nat + paid_out(next, claims.drop_first()),
            Err(_) => paid_out(rewards_state, claims.drop_first()),
        }
    }
}

/// Whether one of `claims`, made in their order, is paid and proves a total
/// of `total_rewards`.
pub open spec fn proven_by(rewards_state: RewardsState, claims: Seq<Claim>, total_rewards: u64) -> bool
    decreases claims.len(),
{
    if claims.len() == 0 {
        false
    } else {
        match claim_outcome(rewards_state, claims[0]) {
            Ok((next, _)) => claims[0].total_rewards == total_rewards || proven_by(
                next,
                claims.drop_first(),
                total_rewards,
            ),
            Err(_) => proven_by(rewards_state, claims.drop_first(), total_rewards),
        }
    }
}

/// Nothing is paid twice: whatever claims are made on a record, the payouts
/// add up to what the record has grown by. The record never shrinks, and
/// unless no claim was paid, it holds in the end a total that a paid claim
/// has proven; so the payouts never exceed that total.
pub proof fn law_payouts_add_up(rewards_state: RewardsState, claims: Seq<Claim>)
    ensures
        rewards_state.claimed_rewards + paid_out(rewards_state, claims) == after_claims(
            rewards_state,
            claims,
        ).claimed_rewards,
        paid_out(rewards_state, claims) > 0 ==> proven_by(
            rewards_state,
            claims,
            after_claims(rewards_state, claims).claimed_rewards,
        ),
        paid_out(rewards_state, claims) <= after_claims(rewards_state, claims).claimed_rewards,
    decreases claims.len(),
{
    if claims.len() > 0 {
        match claim_outcome(rewards_state, claims[0]) {
            Ok((next, _)) => {
                law_payouts_add_up(next, claims.drop_first());
            },
            Err(_) => {
                law_payouts_add_up(rewards_state, claims.drop_first());
            },
        }
    }
}

/// A claim that was paid cannot be paid again: after a claim is paid, the
/// same claim against the same root has nothing to claim.
pub proof fn law_second_claim_pays_nothing(rewards_state: RewardsState, claim: Claim)
    requires
        claim_outcome(rewards_state, claim) is Ok,
    ensures
        claim_outcome(claim_outcome(rewards_state, claim)->Ok_0.0, claim) == Err::<
            (RewardsState, u64),
            MiniNcnError,
        >(MiniNcnError::NothingToClaim),
{
}

} // verus!
