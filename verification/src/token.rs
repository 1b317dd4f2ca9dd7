//! The fungible-token escrow operations: deposit and withdrawal. Same state
//! machine as the native variant, with two deliberate differences kept from
//! the design: the record slot tolerates re-initialization (an existing
//! record is overwritten, not rejected), and the value moves between token
//! balance records instead of native balances.

use vstd::prelude::*;

use crate::error::EscrowError;
use crate::gate::release_gate;
use crate::gate::release_gate_spec;
use crate::state::EscrowFungibleToken;
use crate::state::InitializeFungibleToken;
use crate::state::TokenAccount;
use crate::state::WithdrawFungibleToken;

verus! {

/// The token deposit transition: with the sender signing and their token
/// balance sufficient, (over)write the escrow record with exactly the
/// supplied terms and move `amount` token units from the sender's balance
/// record to the vault's. Otherwise fail — `NotAuthorized` without the
/// sender's signature, `InsufficientFunds` on a short token balance — and
/// change nothing. Unlike the native variant, an occupied record slot is
/// not an error.
pub open spec fn token_deposit_spec(
    ctx: InitializeFungibleToken,
    start_time: u64,
    amount: u64,
) -> (InitializeFungibleToken, Result<(), EscrowError>) {
    if !ctx.sender_is_signer {
        (ctx, Err(EscrowError::NotAuthorized))
    } else if ctx.sender_associated_info.amount < amount {
        (ctx, Err(EscrowError::InsufficientFunds))
    } else {
        (
            InitializeFungibleToken {
                escrow_account: Some(
                    EscrowFungibleToken {
                        sender_account: ctx.sender_account,
                        receiver_account: ctx.receiver_account,
                        token_mint: ctx.mint,
                        start_time,
                        amount_token: amount,
                    },
                ),
                sender_associated_info: TokenAccount {
                    amount: (ctx.sender_associated_info.amount - amount) as u64,
                    ..ctx.sender_associated_info
                },
                vault_associated_info: TokenAccount {
                    amount: (ctx.vault_associated_info.amount + amount) as u64,
                    ..ctx.vault_associated_info
                },
                ..ctx
            },
            Ok(()),
        )
    }
}

/// Deposits `amount` token units into escrow, recording `start_time`, the
/// parties and the token mint in the escrow record keyed by the sender.
pub fn intialize_fungible_token(
    ctx: &mut InitializeFungibleToken,
    start_time: u64,
    amount: u64,
) -> (r: Result<(), EscrowError>)
    requires
        old(ctx).wf(),
        old(ctx).vault_associated_info.amount + amount <= u64::MAX,
    ensures
        (*final(ctx), r) == token_deposit_spec(*old(ctx), start_time, amount),
        r is Ok <==> (old(ctx).sender_is_signer
            && old(ctx).sender_associated_info.amount >= amount),
        r is Err ==> *final(ctx) == *old(ctx),
        r is Ok ==> final(ctx).escrow_account == Some(
            EscrowFungibleToken {
                sender_account: old(ctx).sender_account,
                receiver_account: old(ctx).receiver_account,
                token_mint: old(ctx).mint,
                start_time,
                amount_token: amount,
            },
        ),
        r is Ok ==> final(ctx).sender_associated_info.amount
            == old(ctx).sender_associated_info.amount - amount
            && final(ctx).vault_associated_info.amount
            == old(ctx).vault_associated_info.amount + amount,
        final(ctx).wf(),
{
    if !ctx.sender_is_signer {
        return Err(EscrowError::NotAuthorized);
    }
    if ctx.sender_associated_info.amount < amount {
        return Err(EscrowError::InsufficientFunds);
    }
    ctx.escrow_account = Some(
        EscrowFungibleToken {
            sender_account: ctx.sender_account,
            receiver_account: ctx.receiver_account,
            token_mint: ctx.mint,
            start_time,
            amount_token: amount,
        },
    );
    ctx.sender_associated_info.amount = ctx.sender_associated_info.amount - amount;
    ctx.vault_associated_info.amount = ctx.vault_associated_info.amount + amount;
    Ok(())
}

/// The token withdrawal transition: with an escrow record present, the
/// caller equal to its recorded receiver, the time gate passed and the
/// vault's token balance sufficient, move `amount` token units from the
/// vault's balance record to the caller's. Otherwise fail — `NotFound`,
/// then the release gate's error, then `InsufficientFunds` — and change
/// nothing.
/// The escrow record itself is never modified: withdrawal does not consume
/// it.
pub open spec fn token_withdraw_spec(
    ctx: WithdrawFungibleToken,
    now: u64,
    amount: u64,
) -> (WithdrawFungibleToken, Result<(), EscrowError>) {
    match ctx.escrow_account {
        None => (ctx, Err(EscrowError::NotFound)),
        Some(escrow) => match release_gate_spec(
            escrow.receiver_account,
            ctx.receiver_account,
            escrow.start_time,
            now,
        ) {
            Err(e) => (ctx, Err(e)),
            Ok(()) => if ctx.vault_associated_info.amount < amount {
                (ctx, Err(EscrowError::InsufficientFunds))
            } else {
                (
                    WithdrawFungibleToken {
                        vault_associated_info: TokenAccount {
                            amount: (ctx.vault_associated_info.amount - amount) as u64,
                            ..ctx.vault_associated_info
                        },
                        receiver_associated_info: TokenAccount {
                            amount: (ctx.receiver_associated_info.amount + amount) as u64,
                            ..ctx.receiver_associated_info
                        },
                        ..ctx
                    },
                    Ok(()),
                )
            },
        },
    }
}

/// Withdraws `amount` token units from the vault's balance record to the
/// recorded receiver's, where `now` is the ledger's current timestamp.
pub fn withdraw_fungible_token(
    ctx: &mut WithdrawFungibleToken,
    now: u64,
    amount: u64,
) -> (r: Result<(), EscrowError>)
    requires
        old(ctx).wf(),
        old(ctx).receiver_associated_info.amount + amount <= u64::MAX,
    ensures
        (*final(ctx), r) == token_withdraw_spec(*old(ctx), now, amount),
        r is Err ==> *final(ctx) == *old(ctx),
        final(ctx).escrow_account == old(ctx).escrow_account,
        r is Ok <==> (old(ctx).escrow_account matches Some(escrow)
            && escrow.receiver_account@ == old(ctx).receiver_account@
            && now as int >= escrow.start_time + crate::MIN_DELAY
            && old(ctx).vault_associated_info.amount >= amount),
        r is Ok ==> final(ctx).vault_associated_info.amount
            == old(ctx).vault_associated_info.amount - amount
            && final(ctx).receiver_associated_info.amount
            == old(ctx).receiver_associated_info.amount + amount,
        final(ctx).wf(),
{
    let escrow = match &ctx.escrow_account {
        None => {
            return Err(EscrowError::NotFound);
        },
        Some(escrow) => *escrow,
    };
    if let Err(e) = release_gate(
        &escrow.receiver_account,
        &ctx.receiver_account,
        escrow.start_time,
        now,
    ) {
        return Err(e);
    }
    if ctx.vault_associated_info.amount < amount {
        return Err(EscrowError::InsufficientFunds);
    }
    ctx.vault_associated_info.amount = ctx.vault_associated_info.amount - amount;
    ctx.receiver_associated_info.amount = ctx.receiver_associated_info.amount + amount;
    Ok(())
}

} // verus!
