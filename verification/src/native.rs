//! The native-value escrow operations: deposit and withdrawal. Each is a
//! transition on the accounts it touches — the spec functions below say the
//! whole transition, and each executable operation is proved to implement
//! its spec function exactly. A rejected operation leaves every account
//! unchanged.

use vstd::prelude::*;

use crate::error::EscrowError;
use crate::gate::release_gate;
use crate::gate::release_gate_spec;
use crate::state::EscrowNative;
use crate::state::InitializeNative;
use crate::state::WithdrawNative;

verus! {

/// The native deposit transition: with the sender signing and the record
/// slot empty, write a fresh escrow record carrying exactly the supplied
/// terms and move `amount` lamports from the sender to the vault. Otherwise
/// fail — `NotAuthorized` without the sender's signature, `AlreadyExists` on
/// an occupied slot, `InsufficientFunds` on a short sender balance — and
/// change nothing.
pub open spec fn native_deposit_spec(
    ctx: InitializeNative,
    start_time: u64,
    amount: u64,
) -> (InitializeNative, Result<(), EscrowError>) {
    if !ctx.sender_is_signer {
        (ctx, Err(EscrowError::NotAuthorized))
    } else if ctx.escrow_account is Some {
        (ctx, Err(EscrowError::AlreadyExists))
    } else if ctx.sender_lamports < amount {
        (ctx, Err(EscrowError::InsufficientFunds))
    } else {
        (
            InitializeNative {
                escrow_account: Some(
                    EscrowNative {
                        sender_account: ctx.sender_account,
                        receiver_account: ctx.receiver_account,
                        start_time,
                        amount,
                    },
                ),
                sender_lamports: (ctx.sender_lamports - amount) as u64,
                vault_lamports: (ctx.vault_lamports + amount) as u64,
                ..ctx
            },
            Ok(()),
        )
    }
}

/// Deposits `amount` lamports into escrow, recording `start_time` and the
/// accounts' identities in a fresh escrow record keyed by the sender.
pub fn initialize_native_sol(
    ctx: &mut InitializeNative,
    start_time: u64,
    amount: u64,
) -> (r: Result<(), EscrowError>)
    requires
        old(ctx).vault_lamports + amount <= u64::MAX,
    ensures
        (*final(ctx), r) == native_deposit_spec(*old(ctx), start_time, amount),
        r is Ok <==> (old(ctx).sender_is_signer && old(ctx).escrow_account is None
            && old(ctx).sender_lamports >= amount),
        r is Err ==> *final(ctx) == *old(ctx),
        r is Ok ==> final(ctx).escrow_account == Some(
            EscrowNative {
                sender_account: old(ctx).sender_account,
                receiver_account: old(ctx).receiver_account,
                start_time,
                amount,
            },
        ),
        r is Ok ==> final(ctx).sender_lamports == old(ctx).sender_lamports - amount
            && final(ctx).vault_lamports == old(ctx).vault_lamports + amount,
{
    if !ctx.sender_is_signer {
        return Err(EscrowError::NotAuthorized);
    }
    if ctx.escrow_account.is_some() {
        return Err(EscrowError::AlreadyExists);
    }
    if ctx.sender_lamports < amount {
        return Err(EscrowError::InsufficientFunds);
    }
    ctx.escrow_account = Some(
        EscrowNative {
            sender_account: ctx.sender_account,
            receiver_account: ctx.receiver_account,
            start_time,
            amount,
        },
    );
    ctx.sender_lamports = ctx.sender_lamports - amount;
    ctx.vault_lamports = ctx.vault_lamports + amount;
    Ok(())
}

/// The native withdrawal transition: with an escrow record present, the
/// caller equal to its recorded receiver, the time gate passed and the vault
/// balance sufficient, move `amount` lamports from the vault to the caller.
/// Otherwise fail — `NotFound`, then the release gate's error, then
/// `InsufficientFunds` — and change nothing. The escrow record itself is
/// never modified: withdrawal does not consume it.
pub open spec fn native_withdraw_spec(
    ctx: WithdrawNative,
    now: u64,
    amount: u64,
) -> (WithdrawNative, Result<(), EscrowError>) {
    match ctx.escrow_account {
        None => (ctx, Err(EscrowError::NotFound)),
        Some(escrow) => match release_gate_spec(
            escrow.receiver_account,
            ctx.receiver_account,
            escrow.start_time,
            now,
        ) {
            Err(e) => (ctx, Err(e)),
            Ok(()) => if ctx.vault_lamports < amount {
                (ctx, Err(EscrowError::InsufficientFunds))
            } else {
                (
                    WithdrawNative {
                        vault_lamports: (ctx.vault_lamports - amount) as u64,
                        receiver_lamports: (ctx.receiver_lamports + amount) as u64,
                        ..ctx
                    },
                    Ok(()),
                )
            },
        },
    }
}

/// Withdraws `amount` lamports from the vault to the recorded receiver,
/// where `now` is the ledger's current timestamp.
pub fn withdraw_native_sol(
    ctx: &mut WithdrawNative,
    now: u64,
    amount: u64,
) -> (r: Result<(), EscrowError>)
    requires
        old(ctx).receiver_lamports + amount <= u64::MAX,
    ensures
        (*final(ctx), r) == native_withdraw_spec(*old(ctx), now, amount),
        r is Err ==> *final(ctx) == *old(ctx),
        final(ctx).escrow_account == old(ctx).escrow_account,
        r is Ok <==> (old(ctx).escrow_account matches Some(escrow)
            && escrow.receiver_account@ == old(ctx).receiver_account@
            && now as int >= escrow.start_time + crate::MIN_DELAY
            && old(ctx).vault_lamports >= amount),
        r is Ok ==> final(ctx).vault_lamports == old(ctx).vault_lamports - amount
            && final(ctx).receiver_lamports == old(ctx).receiver_lamports + amount,
{
    let escrow = match &ctx.escrow_account {
        None => {
            return Err(EscrowError::NotFound);
        },
        Some(escrow) => *escrow,
    };
    if let Err(e) = release_gate(
        &escrow.receiver_account,
        &ctx.receiver_account,
        escrow.start_time,
        now,
    ) {
        return Err(e);
    }
    if ctx.vault_lamports < amount {
        return Err(EscrowError::InsufficientFunds);
    }
    ctx.vault_lamports = ctx.vault_lamports - amount;
    ctx.receiver_lamports = ctx.receiver_lamports + amount;
    Ok(())
}

} // verus!
