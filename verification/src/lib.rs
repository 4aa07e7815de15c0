//! Stake-weighted, epoch-scoped agreement on a rewards root, and the payout of
//! rewards against the root that was agreed on.
//!
//! An authority proposes a root for an epoch, registered operators vote on it
//! with the weight of the stake delegated to them, and once more than two
//! thirds of the stake has approved, the root is committed. Beneficiaries then
//! claim what a Merkle proof against the committed root entitles them to; a
//! per-beneficiary record keeps any amount from being paid twice.
//!
//! The crate holds the rules only. Reading accounts, the clock, the membership
//! accumulator and the token transfer belong to the host program, which hands
//! this crate plain values and acts on what it returns.

pub mod ballot;
pub mod error;
pub mod hash;
pub mod keys;
pub mod ledger;
pub mod merkle;
pub mod protocol;
pub mod registry;
pub mod rewards;
pub mod state;

pub use crate::ballot::{
    check_consensus, check_vote, has_room, propose, read_vote_accounts, stake_weight, vote, Vote,
    VoteArgs,
};
pub use crate::error::MiniNcnError;
pub use crate::keys::{bytes_equal, Node, Pubkey};
pub use crate::ledger::{total_supply, DelegationInfo, OperatorInfo, TicketInfo, VaultInfo};
pub use crate::merkle::recompute;
pub use crate::registry::{
    initialize_ballot_box, initialize_ncn, initialize_operator, membership_request,
    prove_membership, VerifyLeaf,
};
pub use crate::rewards::{claim_leaf, claim_rewards, settle_claim, ClaimRewardsArgs};
pub use crate::state::{BallotBox, Config, FinalizeOutcome, RewardsState, VoterState};
