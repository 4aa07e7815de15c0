//! Why an operation was turned down.

use vstd::prelude::*;

verus! {

/// The reasons for which the protocol turns an operation down. An operation
/// that is turned down changes nothing.
#[derive(Clone, Copy, Debug, PartialEq, Eq, Structural)]
pub enum MiniNcnError {
    /// The vault account cannot be read, or the delegation is from another
    /// vault.
    InvalidVault,
    /// The delegation is to another operator.
    InvalidOperator,
    /// The operator-vault ticket is not the one recorded for the voter, cannot
    /// be read, or names another operator or vault.
    InvalidOperatorVaultTicket,
    /// The vault-operator delegation cannot be read.
    InvalidVaultOperatorDelegation,
    /// A proposal was made while another one is still open.
    ProposalAlreadyOpen,
    /// A proposal was made for an epoch that is not later than the last one
    /// handled.
    EpochNotAdvanced,
    /// A vote was cast while no proposal is open.
    EmptyProposedRoot,
    /// A vote was cast for an epoch other than that of the open proposal.
    EpochMismatch,
    /// The operator has already voted in this epoch.
    DuplicateVote,
    /// The operator was not shown to be registered.
    MembershipNotProven,
    /// The signer is not the admin that the operator account names, or the
    /// operator account cannot be read.
    UnauthorizedVoter,
    /// A claim's proof does not lead to the committed root.
    InvalidProof,
    /// A claim entitles to no more than was already paid.
    NothingToClaim,
}

} // verus!
