//! The ballot box as a state machine: a proposal opens it, votes add to the
//! tally, and the tally closes it.

use vstd::prelude::*;
use crate::error::MiniNcnError;
use crate::keys::{bytes_equal, Node, Pubkey};
use crate::ledger::{
    decode_delegation, decode_operator, decode_ticket, decode_vault, decoded_delegation,
    decoded_operator, decoded_ticket, decoded_vault, DelegationInfo, OperatorInfo, TicketInfo,
    VaultInfo,
};
use crate::state::{BallotBox, FinalizeOutcome, VoterState};

verus! {

/// What a proposal of `new_root` at `current_epoch` does to `ballot_box`: the
/// box that it opens, or the reason for which it is turned down.
///
/// A box that is open takes no proposal. An idle box takes one only for an
/// epoch later than the one it last handled.
pub open spec fn proposed(ballot_box: BallotBox, current_epoch: u64, new_root: Node) -> Result<
    BallotBox,
    MiniNcnError,
> {
    if ballot_box.is_open() {
        Err(MiniNcnError::ProposalAlreadyOpen)
    } else if current_epoch <= ballot_box.epoch {
        Err(MiniNcnError::EpochNotAdvanced)
    } else {
        Ok(ballot_box.opened(current_epoch, new_root))
    }
}

/// Proposes `new_root` for `current_epoch`.
pub fn propose(ballot_box: &mut BallotBox, current_epoch: u64, new_root: Node) -> (result: Result<
    (),
    MiniNcnError,
>)
    ensures
        match result {
            Ok(()) => proposed(*old(ballot_box), current_epoch, new_root) == Ok::<
                BallotBox,
                MiniNcnError,
            >(*final(ballot_box)),
            Err(e) => proposed(*old(ballot_box), current_epoch, new_root) == Err::<
                BallotBox,
                MiniNcnError,
            >(e) && *final(ballot_box) == *old(ballot_box),
        },
{
    if ballot_box.is_open() {
        return Err(MiniNcnError::ProposalAlreadyOpen);
    }
    if current_epoch <= ballot_box.epoch {
        return Err(MiniNcnError::EpochNotAdvanced);
    }
    ballot_box.propose(current_epoch, new_root);
    Ok(())
}

/// What a voter submits with a vote.
#[derive(Clone, Copy, Debug, PartialEq, Eq)]
pub struct VoteArgs {
    /// A root of the operator accumulator against which the voter's
    /// membership proof holds.
    pub root: Node,
    /// The index of the operator's leaf in the accumulator.
    pub index: u32,
    /// Whether the vote approves the proposed root.
    pub approved: bool,
}

/// The accounts that come with a vote, as far as the rules read them. An
/// account whose data could not be decoded is `None`.
#[derive(Clone, Copy, Debug, PartialEq, Eq)]
pub struct Vote {
    /// The operator that votes.
    pub operator: Pubkey,
    /// Who signed the vote.
    pub operator_admin: Pubkey,
    /// The vault whose stake gives the vote its weight.
    pub vault: Pubkey,
    /// The address of the operator-vault ticket that was handed in.
    pub operator_vault_ticket: Pubkey,
    /// What the vault account holds.
    pub vault_info: Option<VaultInfo>,
    /// What the operator account holds.
    pub operator_info: Option<OperatorInfo>,
    /// What the operator-vault ticket holds.
    pub ticket_info: Option<TicketInfo>,
    /// What the vault-operator delegation holds.
    pub delegation_info: Option<DelegationInfo>,
}

/// The accounts of a vote, read from their addresses and raw data.
pub fn read_vote_accounts(
    operator: Pubkey,
    operator_admin: Pubkey,
    vault: Pubkey,
    operator_vault_ticket: Pubkey,
    vault_data: &[u8],
    operator_data: &[u8],
    ticket_data: &[u8],
    delegation_data: &[u8],
) -> (accounts: Vote)
    ensures
        accounts == (Vote {
            operator,
            operator_admin,
            vault,
            operator_vault_ticket,
            vault_info: decoded_vault(vault_data@),
            operator_info: decoded_operator(operator_data@),
            ticket_info: decoded_ticket(ticket_data@),
            delegation_info: decoded_delegation(delegation_data@),
        }),
{
    Vote {
        operator,
        operator_admin,
        vault,
        operator_vault_ticket,
        vault_info: decode_vault(vault_data),
        operator_info: decode_operator(operator_data),
        ticket_info: decode_ticket(ticket_data),
        delegation_info: decode_delegation(delegation_data),
    }
}

/// Whether the signer of the vote is the admin that the operator account
/// names. An operator account that cannot be read names nobody.
pub open spec fn signed_by_admin(accounts: Vote) -> bool {
    accounts.operator_info matches Some(info) && info.admin == accounts.operator_admin
}

/// Whether the ticket that was handed in is the one recorded for the voter,
/// can be read, and ties the operator to the vault.
pub open spec fn ticket_fits(voter_state: VoterState, accounts: Vote) -> bool {
    &&& voter_state.operator_vault_ticket == accounts.operator_vault_ticket
    &&& accounts.ticket_info matches Some(ticket)
    &&& ticket.operator == accounts.operator
    &&& ticket.vault == accounts.vault
}

/// The weight of a vote: the stake that the vault delegates to the operator,
/// if the accounts handed in show it.
///
/// The ticket must fit, and the delegation must be readable and be one from
/// the vault to the operator. The weight is then the staked amount of the
/// delegation. The first of these that fails decides the reason.
pub open spec fn delegated_stake(voter_state: VoterState, accounts: Vote) -> Result<
    u64,
    MiniNcnError,
> {
    if !ticket_fits(voter_state, accounts) {
        Err(MiniNcnError::InvalidOperatorVaultTicket)
    } else {
        match accounts.delegation_info {
            None => Err(MiniNcnError::InvalidVaultOperatorDelegation),
            Some(delegation) => if delegation.operator != accounts.operator {
                Err(MiniNcnError::InvalidOperator)
            } else if delegation.vault != accounts.vault {
                Err(MiniNcnError::InvalidVault)
            } else {
                Ok(delegation.staked_amount)
            },
        }
    }
}

/// Whether a vote is admitted, and with which weight. The conditions are
/// tested in this order, and the first that fails decides:
///
/// 1. a proposal is open;
/// 2. the vote is cast in the epoch of the proposal;
/// 3. the operator has not voted in this epoch yet;
/// 4. the operator was shown to be registered;
/// 5. the vault account can be read;
/// 6. the vote is signed by the operator's admin;
/// 7. the accounts show the stake delegated to the operator.
pub open spec fn vote_weight(
    ballot_box: BallotBox,
    voter_state: VoterState,
    accounts: Vote,
    current_epoch: u64,
    membership_proven: bool,
) -> Result<u64, MiniNcnError> {
    if !ballot_box.is_open() {
        Err(MiniNcnError::EmptyProposedRoot)
    } else if current_epoch != ballot_box.epoch {
        Err(MiniNcnError::EpochMismatch)
    } else if voter_state.last_voted_epoch >= ballot_box.epoch {
        Err(MiniNcnError::DuplicateVote)
    } else if !membership_proven {
        Err(MiniNcnError::MembershipNotProven)
    } else if accounts.vault_info is None {
        Err(MiniNcnError::InvalidVault)
    } else if !signed_by_admin(accounts) {
        Err(MiniNcnError::UnauthorizedVoter)
    } else {
        delegated_stake(voter_state, accounts)
    }
}

/// Whether the tally of `ballot_box` can take one more vote of weight
/// `weight`: the two counters are 64 bits wide.
pub open spec fn tally_has_room(ballot_box: BallotBox, approved: bool, weight: u64) -> bool {
    &&& ballot_box.operators_voted < u64::MAX
    &&& approved ==> ballot_box.approved_votes + weight <= u64::MAX
}

/// Tests whether the tally of `ballot_box` can take one more vote of weight
/// `weight`. A host tests this before it casts a vote that is admitted.
pub fn has_room(ballot_box: &BallotBox, approved: bool, weight: u64) -> (room: bool)
    ensures
        room == tally_has_room(*ballot_box, approved, weight),
{
    ballot_box.operators_voted < u64::MAX && (!approved || weight <= u64::MAX
        - ballot_box.approved_votes)
}

/// The ballot box after an admitted vote of weight `weight` was counted.
pub open spec fn counted(ballot_box: BallotBox, approved: bool, weight: u64) -> BallotBox {
    BallotBox {
        operators_voted: (ballot_box.operators_voted + 1) as u64,
        approved_votes: if approved {
            (ballot_box.approved_votes + weight) as u64
        } else {
            ballot_box.approved_votes
        },
        ..ballot_box
    }
}

/// What a vote does to the ballot box and to the voter's record: the two
/// after the vote was counted, or the reason for which the vote is turned
/// down.
pub open spec fn voted(
    ballot_box: BallotBox,
    voter_state: VoterState,
    accounts: Vote,
    args: VoteArgs,
    current_epoch: u64,
    membership_proven: bool,
) -> Result<(BallotBox, VoterState), MiniNcnError> {
    match vote_weight(ballot_box, voter_state, accounts, current_epoch, membership_proven) {
        Ok(weight) => Ok(
            (
                counted(ballot_box, args.approved, weight),
                VoterState { last_voted_epoch: ballot_box.epoch, ..voter_state },
            ),
        ),
        Err(e) => Err(e),
    }
}

/// The stake that the accounts of a vote show to be delegated to the
/// operator.
pub fn stake_weight(voter_state: &VoterState, accounts: &Vote) -> (weight: Result<
    u64,
    MiniNcnError,
>)
    ensures
        weight == delegated_stake(*voter_state, *accounts),
{
    if !bytes_equal(&voter_state.operator_vault_ticket, &accounts.operator_vault_ticket) {
        return Err(MiniNcnError::InvalidOperatorVaultTicket);
    }
    let ticket = match accounts.ticket_info {
        Some(ticket) => ticket,
        None => {
            return Err(MiniNcnError::InvalidOperatorVaultTicket);
        },
    };
    if !bytes_equal(&ticket.operator, &accounts.operator) {
        return Err(MiniNcnError::InvalidOperatorVaultTicket);
    }
    if !bytes_equal(&ticket.vault, &accounts.vault) {
        return Err(MiniNcnError::InvalidOperatorVaultTicket);
    }
    let delegation = match accounts.delegation_info {
        Some(delegation) => delegation,
        None => {
            return Err(MiniNcnError::InvalidVaultOperatorDelegation);
        },
    };
    if !bytes_equal(&delegation.operator, &accounts.operator) {
        return Err(MiniNcnError::InvalidOperator);
    }
    if !bytes_equal(&delegation.vault, &accounts.vault) {
        return Err(MiniNcnError::InvalidVault);
    }
    Ok(delegation.staked_amount)
}

/// Whether a vote would be admitted, and with which weight; nothing is
/// counted.
pub fn check_vote(
    ballot_box: &BallotBox,
    voter_state: &VoterState,
    accounts: &Vote,
    current_epoch: u64,
    membership_proven: bool,
) -> (weight: Result<u64, MiniNcnError>)
    ensures
        weight == vote_weight(
            *ballot_box,
            *voter_state,
            *accounts,
            current_epoch,
            membership_proven,
        ),
{
    if !ballot_box.is_open() {
        return Err(MiniNcnError::EmptyProposedRoot);
    }
    if current_epoch != ballot_box.epoch {
        return Err(MiniNcnError::EpochMismatch);
    }
    if voter_state.last_voted_epoch >= ballot_box.epoch {
        return Err(MiniNcnError::DuplicateVote);
    }
    if !membership_proven {
        return Err(MiniNcnError::MembershipNotProven);
    }
    if accounts.vault_info.is_none() {
        return Err(MiniNcnError::InvalidVault);
    }
    let signed = match accounts.operator_info {
        Some(info) => bytes_equal(&info.admin, &accounts.operator_admin),
        None => false,
    };
    if !signed {
        return Err(MiniNcnError::UnauthorizedVoter);
    }
    stake_weight(voter_state, accounts)
}

/// Casts the vote of the operator that `voter_state` belongs to.
///
/// `current_epoch` is the epoch in which the vote is cast, and
/// `membership_proven` tells whether the accumulator of registered operators
/// has accepted the voter's proof for the leaf of the operator.
///
/// An admitted vote is counted: one more operator has voted, the weight of
/// the vote is added to the approving stake if the vote approves, and the
/// voter's record remembers the epoch. A vote that is turned down changes
/// nothing.
///
/// The two counters of the tally must have room for an admitted vote;
/// `check_vote` and `has_room` test this beforehand.
pub fn vote(
    ballot_box: &mut BallotBox,
    voter_state: &mut VoterState,
    accounts: &Vote,
    args: &VoteArgs,
    current_epoch: u64,
    membership_proven: bool,
) -> (result: Result<(), MiniNcnError>)
    requires
        vote_weight(
            *old(ballot_box),
            *old(voter_state),
            *accounts,
            current_epoch,
            membership_proven,
        ) matches Ok(weight) ==> tally_has_room(*old(ballot_box), args.approved, weight),
    ensures
        match result {
            Ok(()) => voted(
                *old(ballot_box),
                *old(voter_state),
                *accounts,
                *args,
                current_epoch,
                membership_proven,
            ) == Ok::<(BallotBox, VoterState), MiniNcnError>(
                (*final(ballot_box), *final(voter_state)),
            ),
            Err(e) => voted(
                *old(ballot_box),
                *old(voter_state),
                *accounts,
                *args,
                current_epoch,
                membership_proven,
            ) == Err::<(BallotBox, VoterState), MiniNcnError>(e) && *final(ballot_box) == *old(
                ballot_box,
            ) && *final(voter_state) == *old(voter_state),
        },
{
    let weight = match check_vote(
        ballot_box,
        voter_state,
        accounts,
        current_epoch,
        membership_proven,
    ) {
        Ok(weight) => weight,
        Err(e) => {
            return Err(e);
        },
    };
    ballot_box.operators_voted = ballot_box.operators_voted + 1;
    if args.approved {
        ballot_box.approved_votes = ballot_box.approved_votes + weight;
    }
    voter_state.last_voted_epoch = ballot_box.epoch;
    Ok(())
}

/// Whether `approved_votes` is more than two thirds of `total_supply`, the
/// two thirds rounded down.
pub open spec fn quorum_reached(approved_votes: u64, total_supply: u64) -> bool {
    approved_votes > (2 * total_supply) / 3
}

/// What a tally at `current_epoch`, against a stake supply of
/// `total_supply`, does to `ballot_box`, and how it ends.
///
/// An open box commits its proposal if the quorum is reached, and is closed
/// if the quorum is reached or the epoch of the proposal has passed. An idle
/// box is left as it is; for it the outcome tells only whether the epoch has
/// passed.
pub open spec fn tallied(ballot_box: BallotBox, total_supply: u64, current_epoch: u64) -> (
    BallotBox,
    FinalizeOutcome,
) {
    let expired = current_epoch > ballot_box.epoch;
    match ballot_box.proposed_rewards_root {
        Some(root) => {
            if quorum_reached(ballot_box.approved_votes, total_supply) {
                (
                    BallotBox { rewards_root: root, proposed_rewards_root: None, ..ballot_box },
                    FinalizeOutcome::Committed,
                )
            } else if expired {
                (BallotBox { proposed_rewards_root: None, ..ballot_box }, FinalizeOutcome::Expired)
            } else {
                (ballot_box, FinalizeOutcome::StillOpen)
            }
        },
        None => (
            ballot_box,
            if expired {
                FinalizeOutcome::Expired
            } else {
                FinalizeOutcome::StillOpen
            },
        ),
    }
}

/// Tallies the votes at `current_epoch` against a stake supply of
/// `total_supply`.
pub fn check_consensus(ballot_box: &mut BallotBox, total_supply: u64, current_epoch: u64) -> (outcome:
    FinalizeOutcome)
    ensures
        (*final(ballot_box), outcome) == tallied(*old(ballot_box), total_supply, current_epoch),
{
    let expired = current_epoch > ballot_box.epoch;
    match ballot_box.proposed_rewards_root {
        Some(root) => {
            let threshold: u128 = (2u128 * (total_supply as u128)) / 3u128;
            if (ballot_box.approved_votes as u128) > threshold {
                ballot_box.rewards_root = root;
                ballot_box.proposed_rewards_root = None;
                FinalizeOutcome::Committed
            } else if expired {
                ballot_box.proposed_rewards_root = None;
                FinalizeOutcome::Expired
            } else {
                FinalizeOutcome::StillOpen
            }
        },
        None => {
            if expired {
                FinalizeOutcome::Expired
            } else {
                FinalizeOutcome::StillOpen
            }
        },
    }
}

} // verus!
