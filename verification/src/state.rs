//! The records that the protocol keeps.

use vstd::prelude::*;
use crate::keys::{Node, Pubkey};

verus! {

/// The identity of one instance of the protocol. It is written once, at setup.
#[derive(Clone, Copy, Debug, PartialEq, Eq)]
pub struct Config {
    /// The network that this instance serves.
    pub ncn: Pubkey,
    /// Who may propose a root and ask for the tally.
    pub authority: Pubkey,
}

/// The ballot box of an instance: the proposal of the current epoch, its
/// tally, and the last root that was agreed on.
///
/// The box is open while `proposed_rewards_root` holds a root, and idle
/// otherwise.
#[derive(Clone, Copy, Debug, PartialEq, Eq)]
pub struct BallotBox {
    /// The instance that the box belongs to.
    pub config: Pubkey,
    /// The epoch of the last proposal.
    pub epoch: u64,
    /// How many votes were accepted for the last proposal.
    pub operators_voted: u64,
    /// The stake behind the approving votes for the last proposal.
    pub approved_votes: u64,
    /// The accumulator that holds the registered operators.
    pub merkle_tree: Pubkey,
    /// The last root that reached the quorum.
    pub rewards_root: Node,
    /// The root that is being voted on, if any.
    pub proposed_rewards_root: Option<Node>,
}

/// What is remembered of one operator: the accounts that tie it to the vault,
/// and the last epoch in which it voted.
#[derive(Clone, Copy, Debug, PartialEq, Eq)]
pub struct VoterState {
    /// The instance that the operator is registered with.
    pub config: Pubkey,
    /// The operator.
    pub operator: Pubkey,
    /// The ticket that ties the operator to the vault.
    pub operator_vault_ticket: Pubkey,
    /// The vault's delegation to the operator.
    pub vault_operator_delegation: Pubkey,
    /// The last epoch in which a vote of the operator was accepted.
    pub last_voted_epoch: u64,
}

/// What one beneficiary has been paid so far.
#[derive(Clone, Copy, Debug, PartialEq, Eq)]
pub struct RewardsState {
    /// The beneficiary.
    pub owner: Pubkey,
    /// The sum of all payouts to the beneficiary.
    pub claimed_rewards: u64,
}

/// How a tally ended.
#[derive(Clone, Copy, Debug, PartialEq, Eq, Structural)]
pub enum FinalizeOutcome {
    /// The quorum was reached and the proposed root is now the committed one.
    Committed,
    /// The quorum was not reached and the epoch of the proposal has passed.
    Expired,
    /// The quorum was not reached and the epoch of the proposal still runs.
    StillOpen,
}

impl BallotBox {
    /// Whether a proposal is open: the box holds a proposed root.
    pub open spec fn spec_is_open(&self) -> bool {
        self.proposed_rewards_root is Some
    }

    /// Whether a proposal is open.
    #[verifier::when_used_as_spec(spec_is_open)]
    pub fn is_open(&self) -> (open: bool)
        ensures
            open == (self.proposed_rewards_root is Some),
    {
        self.proposed_rewards_root.is_some()
    }

    /// The box after a proposal of `proposed_rewards_root` for `epoch` was
    /// opened in it: the tally starts at zero.
    pub open spec fn opened(self, epoch: u64, proposed_rewards_root: Node) -> BallotBox {
        BallotBox {
            epoch,
            operators_voted: 0,
            approved_votes: 0,
            proposed_rewards_root: Some(proposed_rewards_root),
            ..self
        }
    }

    /// Opens a proposal of `proposed_rewards_root` for `epoch` and resets the
    /// tally, whatever the box held.
    pub fn propose(&mut self, epoch: u64, proposed_rewards_root: Node)
        ensures
            *final(self) == old(self).opened(epoch, proposed_rewards_root),
    {
        self.epoch = epoch;
        self.operators_voted = 0;
        self.approved_votes = 0;
        self.proposed_rewards_root = Some(proposed_rewards_root);
    }
}

} // verus!
