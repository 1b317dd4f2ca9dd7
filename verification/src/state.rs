//! The data the escrow operates on, as plain values: the two escrow record
//! layouts, the observable state of a fungible-token balance record, and one
//! "accounts" struct per operation holding everything that operation reads
//! and writes. The ledger runtime loads these values before an operation and
//! persists them afterwards; the operations themselves only decide and
//! compute.

use vstd::prelude::*;

use crate::ident::Identity;

verus! {

/// The persisted terms of one native-value escrow, keyed by the sender's
/// identity. All fields are written once, at deposit.
#[derive(Clone, Copy, Debug, PartialEq, Eq)]
pub struct EscrowNative {
    /// The depositor.
    pub sender_account: Identity,
    /// The only identity allowed to withdraw.
    pub receiver_account: Identity,
    /// Withdrawal is gated until `start_time + MIN_DELAY`.
    pub start_time: u64,
    /// The quantity deposited (informational; the withdrawal names its own
    /// amount).
    pub amount: u64,
}

/// The persisted terms of one fungible-token escrow, keyed by the sender's
/// identity.
#[derive(Clone, Copy, Debug, PartialEq, Eq)]
pub struct EscrowFungibleToken {
    /// The depositor.
    pub sender_account: Identity,
    /// The only identity allowed to withdraw.
    pub receiver_account: Identity,
    /// Which fungible token this escrow holds.
    pub token_mint: Identity,
    /// Withdrawal is gated until `start_time + MIN_DELAY`.
    pub start_time: u64,
    /// The token quantity deposited (informational).
    pub amount_token: u64,
}

/// The observable state of one fungible-token balance record: which token it
/// holds, who owns it, and its current balance.
#[derive(Clone, Copy, Debug, PartialEq, Eq)]
pub struct TokenAccount {
    /// The fungible-token type this record holds units of.
    pub mint: Identity,
    /// The identity whose authority spends from this record.
    pub owner: Identity,
    /// The current balance.
    pub amount: u64,
}

/// Everything a native deposit reads and writes.
#[derive(Clone, Copy, Debug, PartialEq, Eq)]
pub struct InitializeNative {
    /// The record slot derived from the sender's identity: `None` while no
    /// escrow record exists there.
    pub escrow_account: Option<EscrowNative>,
    /// The depositor.
    pub sender_account: Identity,
    /// Whether the depositor signed this transaction.
    pub sender_is_signer: bool,
    /// The depositor's native balance.
    pub sender_lamports: u64,
    /// The identity recorded as the receiver (recorded, not validated).
    pub receiver_account: Identity,
    /// The custodial vault.
    pub vault: Identity,
    /// The vault's native balance.
    pub vault_lamports: u64,
}

/// Everything a native withdrawal reads and writes.
#[derive(Clone, Copy, Debug, PartialEq, Eq)]
pub struct WithdrawNative {
    /// The record slot derived from the sender's identity.
    pub escrow_account: Option<EscrowNative>,
    /// The depositor whose identity keys the record slot.
    pub sender_account: Identity,
    /// The caller asking to withdraw.
    pub receiver_account: Identity,
    /// The caller's native balance.
    pub receiver_lamports: u64,
    /// The custodial vault.
    pub vault: Identity,
    /// The vault's native balance.
    pub vault_lamports: u64,
}

/// Everything a fungible-token deposit reads and writes.
#[derive(Clone, Copy, Debug, PartialEq, Eq)]
pub struct InitializeFungibleToken {
    /// The record slot derived from the sender's identity: re-initialization
    /// is tolerated, so an existing record is overwritten, not rejected.
    pub escrow_account: Option<EscrowFungibleToken>,
    /// The depositor.
    pub sender_account: Identity,
    /// Whether the depositor signed this transaction.
    pub sender_is_signer: bool,
    /// The identity recorded as the receiver (recorded, not validated).
    pub receiver_account: Identity,
    /// The fungible-token type being deposited.
    pub mint: Identity,
    /// The depositor's token balance record for `mint`.
    pub sender_associated_info: TokenAccount,
    /// The vault's token balance record for `mint`.
    pub vault_associated_info: TokenAccount,
    /// The custodial vault authority.
    pub vault: Identity,
}

impl InitializeFungibleToken {
    /// The shape the ledger runtime guarantees before a token deposit runs:
    /// both balance records hold the named token, and each is owned by the
    /// party it is debited from or credited to.
    pub open spec fn wf(self) -> bool {
        &&& self.sender_associated_info.mint == self.mint
        &&& self.sender_associated_info.owner == self.sender_account
        &&& self.vault_associated_info.mint == self.mint
        &&& self.vault_associated_info.owner == self.vault
    }
}

/// Everything a fungible-token withdrawal reads and writes.
#[derive(Clone, Copy, Debug, PartialEq, Eq)]
pub struct WithdrawFungibleToken {
    /// The record slot derived from the sender's identity.
    pub escrow_account: Option<EscrowFungibleToken>,
    /// The depositor whose identity keys the record slot.
    pub sender_account: Identity,
    /// The caller asking to withdraw.
    pub receiver_account: Identity,
    /// The fungible-token type being withdrawn.
    pub mint: Identity,
    /// The caller's token balance record for `mint` (created on demand by
    /// the runtime if it was absent, with a zero balance).
    pub receiver_associated_info: TokenAccount,
    /// The vault's token balance record for `mint`.
    pub vault_associated_info: TokenAccount,
    /// The custodial vault authority.
    pub vault: Identity,
}

impl WithdrawFungibleToken {
    /// The shape the ledger runtime guarantees before a token withdrawal
    /// runs.
    pub open spec fn wf(self) -> bool {
        &&& self.receiver_associated_info.mint == self.mint
        &&& self.receiver_associated_info.owner == self.receiver_account
        &&& self.vault_associated_info.mint == self.mint
        &&& self.vault_associated_info.owner == self.vault
    }
}

} // verus!
