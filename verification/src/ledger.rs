//! What the protocol reads from the accounts of the restaking and vault
//! programs: who administers an operator, which operator and vault a ticket
//! or a delegation ties together, how much stake is delegated, and how much
//! stake there is in all.
//!
//! The accounts arrive as raw account data. The client crates of the two
//! programs decode them; this module keeps of each account only the fields
//! that the rules depend on.

use vstd::prelude::*;
use crate::error::MiniNcnError;
use crate::keys::Pubkey;

verus! {

/// What is read from a vault account.
#[derive(Clone, Copy, Debug, PartialEq, Eq)]
pub struct VaultInfo {
    /// The supply of the vault's receipt token: the stake that there is in all.
    pub vrt_supply: u64,
}

/// What is read from an operator account.
#[derive(Clone, Copy, Debug, PartialEq, Eq)]
pub struct OperatorInfo {
    /// Who administers the operator.
    pub admin: Pubkey,
}

/// What is read from an operator-vault ticket.
#[derive(Clone, Copy, Debug, PartialEq, Eq)]
pub struct TicketInfo {
    /// The operator that the ticket was issued to.
    pub operator: Pubkey,
    /// The vault that the ticket admits the operator to.
    pub vault: Pubkey,
}

/// What is read from a vault-operator delegation.
#[derive(Clone, Copy, Debug, PartialEq, Eq)]
pub struct DelegationInfo {
    /// The vault that delegates.
    pub vault: Pubkey,
    /// The operator that the stake is delegated to.
    pub operator: Pubkey,
    /// The stake that is delegated and active.
    pub staked_amount: u64,
}

/// What `jito_vault_client::accounts::Vault::from_bytes` makes of `data`:
/// the vault's fields that matter here, or `None` if it rejects the data.
pub uninterp spec fn decoded_vault(data: Seq<u8>) -> Option<VaultInfo>;

/// What `jito_restaking_client::accounts::Operator::from_bytes` makes of
/// `data`, or `None` if it rejects the data.
pub uninterp spec fn decoded_operator(data: Seq<u8>) -> Option<OperatorInfo>;

/// What `jito_restaking_client::accounts::OperatorVaultTicket::from_bytes`
/// makes of `data`, or `None` if it rejects the data.
pub uninterp spec fn decoded_ticket(data: Seq<u8>) -> Option<TicketInfo>;

/// What `jito_vault_client::accounts::VaultOperatorDelegation::from_bytes`
/// makes of `data`, or `None` if it rejects the data.
pub uninterp spec fn decoded_delegation(data: Seq<u8>) -> Option<DelegationInfo>;

/// Calls `jito_vault_client::accounts::Vault::from_bytes`, which reads the
/// account's fields off the front of `data`, and keeps `vrt_supply`. The
/// contract claims only that the outcome depends on the bytes alone.
#[verifier::external_body]
pub(crate) fn decode_vault(data: &[u8]) -> (info: Option<VaultInfo>)
    ensures
        info == decoded_vault(data@),
{
    match jito_vault_client::accounts::Vault::from_bytes(data) {
        Ok(account) => Some(VaultInfo { vrt_supply: account.vrt_supply }),
        Err(_) => None,
    }
}

/// Calls `jito_restaking_client::accounts::Operator::from_bytes` and keeps
/// `admin`. The contract claims only that the outcome depends on the bytes
/// alone.
#[verifier::external_body]
pub(crate) fn decode_operator(data: &[u8]) -> (info: Option<OperatorInfo>)
    ensures
        info == decoded_operator(data@),
{
    match jito_restaking_client::accounts::Operator::from_bytes(data) {
        Ok(account) => Some(OperatorInfo { admin: account.admin.to_bytes() }),
        Err(_) => None,
    }
}

/// Calls `jito_restaking_client::accounts::OperatorVaultTicket::from_bytes`
/// and keeps `operator` and `vault`. The contract claims only that the
/// outcome depends on the bytes alone.
#[verifier::external_body]
pub(crate) fn decode_ticket(data: &[u8]) -> (info: Option<TicketInfo>)
    ensures
        info == decoded_ticket(data@),
{
    match jito_restaking_client::accounts::OperatorVaultTicket::from_bytes(data) {
        Ok(account) => Some(
            TicketInfo { operator: account.operator.to_bytes(), vault: account.vault.to_bytes() },
        ),
        Err(_) => None,
    }
}

/// Calls `jito_vault_client::accounts::VaultOperatorDelegation::from_bytes`
/// and keeps `vault`, `operator` and the staked amount of its delegation
/// state. The contract claims only that the outcome depends on the bytes
/// alone.
#[verifier::external_body]
pub(crate) fn decode_delegation(data: &[u8]) -> (info: Option<DelegationInfo>)
    ensures
        info == decoded_delegation(data@),
{
    match jito_vault_client::accounts::VaultOperatorDelegation::from_bytes(data) {
        Ok(account) => Some(
            DelegationInfo {
                vault: account.vault.to_bytes(),
                operator: account.operator.to_bytes(),
                staked_amount: account.delegation_state.staked_amount,
            },
        ),
        Err(_) => None,
    }
}

/// The stake supply that a tally is held against, given what was read from
/// the vault account: the supply of the vault's receipt token.
pub open spec fn supply_of(vault: Option<VaultInfo>) -> Result<u64, MiniNcnError> {
    match vault {
        Some(info) => Ok(info.vrt_supply),
        None => Err(MiniNcnError::InvalidVault),
    }
}

/// The stake supply recorded in the vault account whose data is `vault_data`.
pub fn total_supply(vault_data: &[u8]) -> (supply: Result<u64, MiniNcnError>)
    ensures
        supply == supply_of(decoded_vault(vault_data@)),
{
    match decode_vault(vault_data) {
        Some(info) => Ok(info.vrt_supply),
        None => Err(MiniNcnError::InvalidVault),
    }
}

} // verus!
