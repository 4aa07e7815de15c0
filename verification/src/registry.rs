//! Setting up an instance and registering operators.
//!
//! The registered operators are held by an append-only Merkle accumulator that
//! lives outside this crate. This module says which records a setup step
//! creates and which leaf stands for an operator; the host performs the
//! accumulator's append and verify with the values given here.

use vstd::prelude::*;
use crate::ballot::{Vote, VoteArgs};
use crate::keys::{bytes_equal, Node, Pubkey};
use crate::merkle::{recompute, recomputed_root};
use crate::state::{BallotBox, Config, VoterState};

verus! {

/// The record of an instance for the network `ncn`, on which `authority` may
/// propose and tally.
pub fn initialize_ncn(ncn: Pubkey, authority: Pubkey) -> (config: Config)
    ensures
        config == (Config { ncn, authority }),
{
    Config { ncn, authority }
}

/// A root of zero bytes: what a ballot box holds as its committed root before
/// any root was committed.
pub open spec fn no_root(root: Node) -> bool {
    forall|i: int| 0 <= i < 32 ==> root[i] == 0u8
}

/// The ballot box of the instance `config`, whose operators are held by the
/// accumulator `merkle_tree`: idle, at epoch zero, with an empty tally and no
/// root committed.
pub fn initialize_ballot_box(config: Pubkey, merkle_tree: Pubkey) -> (ballot_box: BallotBox)
    ensures
        ballot_box.config == config,
        ballot_box.merkle_tree == merkle_tree,
        ballot_box.epoch == 0,
        ballot_box.operators_voted == 0,
        ballot_box.approved_votes == 0,
        no_root(ballot_box.rewards_root),
        ballot_box.proposed_rewards_root is None,
{
    BallotBox {
        config,
        epoch: 0,
        operators_voted: 0,
        approved_votes: 0,
        merkle_tree,
        rewards_root: [0u8; 32],
        proposed_rewards_root: None,
    }
}

/// The record of an operator that has not voted yet.
pub open spec fn new_voter(
    config: Pubkey,
    operator: Pubkey,
    operator_vault_ticket: Pubkey,
    vault_operator_delegation: Pubkey,
) -> VoterState {
    VoterState {
        config,
        operator,
        operator_vault_ticket,
        vault_operator_delegation,
        last_voted_epoch: 0,
    }
}

/// The leaf that stands for `operator` in the accumulator: the bytes of the
/// operator's address.
pub open spec fn operator_leaf(operator: Pubkey) -> Node {
    operator
}

/// Registers `operator` with the instance `config`. Returns the operator's
/// record and the leaf that the host is to append to the accumulator.
///
/// Nothing here tests whether the operator was registered before: the host
/// creates the record of an operator once.
pub fn initialize_operator(
    config: Pubkey,
    operator: Pubkey,
    operator_vault_ticket: Pubkey,
    vault_operator_delegation: Pubkey,
) -> (registered: (VoterState, Node))
    ensures
        registered.0 == new_voter(config, operator, operator_vault_ticket, vault_operator_delegation),
        registered.1 == operator_leaf(operator),
{
    let voter_state = VoterState {
        config,
        operator,
        operator_vault_ticket,
        vault_operator_delegation,
        last_voted_epoch: 0,
    };
    (voter_state, operator)
}

/// Whether `proof` leads from the leaf of `operator`, at `index`, to `root`.
///
/// This shows that the operator is registered only if `root` is a root of the
/// accumulator, which the accumulator alone can tell.
pub fn prove_membership(operator: &Pubkey, root: &Node, proof: &[Node], index: u32) -> (proven:
    bool)
    ensures
        proven == (recomputed_root(operator_leaf(*operator), proof@, index as nat) == *root),
{
    let computed_root = recompute(*operator, proof, index);
    bytes_equal(&computed_root, root)
}

/// What the accumulator is asked to verify for a vote.
#[derive(Clone, Copy, Debug, PartialEq, Eq)]
pub struct VerifyLeaf {
    /// The root that the voter's proof is for.
    pub root: Node,
    /// The leaf whose membership is to be shown.
    pub leaf: Node,
    /// The index of the leaf.
    pub index: u32,
}

/// The question that the host puts to the accumulator before a vote is cast:
/// whether the leaf of the voting operator stands at the index, under the
/// root, that the voter has named.
pub fn membership_request(accounts: &Vote, args: &VoteArgs) -> (request: VerifyLeaf)
    ensures
        request == (VerifyLeaf {
            root: args.root,
            leaf: operator_leaf(accounts.operator),
            index: args.index,
        }),
{
    VerifyLeaf { root: args.root, leaf: accounts.operator, index: args.index }
}

} // verus!
