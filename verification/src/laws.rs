//! The escrow's guarantees, stated and proved once over the transition spec
//! functions that the executable operations are proved to implement. Each
//! law quantifies over whole account states, not chosen values.

use vstd::prelude::*;

use crate::MIN_DELAY;
use crate::error::EscrowError;
use crate::native::native_deposit_spec;
use crate::native::native_withdraw_spec;
use crate::state::InitializeFungibleToken;
use crate::state::InitializeNative;
use crate::state::WithdrawFungibleToken;
use crate::state::WithdrawNative;
use crate::token::token_deposit_spec;
use crate::token::token_withdraw_spec;

verus! {

/// A successful native deposit records exactly the sender, receiver,
/// release time and amount that were supplied at creation.
pub proof fn law_native_deposit_records_terms(
    ctx: InitializeNative,
    start_time: u64,
    amount: u64,
)
    requires
        native_deposit_spec(ctx, start_time, amount).1 is Ok,
    ensures
        ({
            let escrow = native_deposit_spec(ctx, start_time, amount).0.escrow_account;
            escrow matches Some(e) && e.sender_account == ctx.sender_account
                && e.receiver_account == ctx.receiver_account && e.start_time == start_time
                && e.amount == amount
        }),
{
}

/// A successful token deposit records exactly the sender, receiver, mint,
/// release time and amount that were supplied at creation.
pub proof fn law_token_deposit_records_terms(
    ctx: InitializeFungibleToken,
    start_time: u64,
    amount: u64,
)
    requires
        token_deposit_spec(ctx, start_time, amount).1 is Ok,
    ensures
        ({
            let escrow = token_deposit_spec(ctx, start_time, amount).0.escrow_account;
            escrow matches Some(e) && e.sender_account == ctx.sender_account
                && e.receiver_account == ctx.receiver_account && e.token_mint == ctx.mint
                && e.start_time == start_time && e.amount_token == amount
        }),
{
}

/// Once a native escrow record exists, no operation of the native variant
/// changes it: a repeated deposit is rejected before it can write, and a
/// withdrawal never touches the record.
pub proof fn law_native_record_immutable(
    d: InitializeNative,
    w: WithdrawNative,
    start_time: u64,
    now: u64,
    amount: u64,
)
    ensures
        d.escrow_account is Some ==> native_deposit_spec(d, start_time, amount).0.escrow_account
            == d.escrow_account,
        native_withdraw_spec(w, now, amount).0.escrow_account == w.escrow_account,
{
}

/// A token withdrawal never changes the escrow record. (A second token
/// deposit is the documented exception: the token variant tolerates
/// re-initialization, so it overwrites the record with its own terms.)
pub proof fn law_token_record_immutable_under_withdraw(
    w: WithdrawFungibleToken,
    now: u64,
    amount: u64,
)
    ensures
        token_withdraw_spec(w, now, amount).0.escrow_account == w.escrow_account,
{
}

/// Before `start_time + MIN_DELAY` a withdrawal always fails, whoever
/// calls; when the caller is the recorded receiver, the error is
/// `TooEarly`. Both variants.
pub proof fn law_withdraw_too_early(
    wn: WithdrawNative,
    wt: WithdrawFungibleToken,
    now: u64,
    amount: u64,
)
    requires
        wn.escrow_account matches Some(e) && (now as int) < e.start_time + MIN_DELAY,
        wt.escrow_account matches Some(e) && (now as int) < e.start_time + MIN_DELAY,
    ensures
        native_withdraw_spec(wn, now, amount).1 is Err,
        native_withdraw_spec(wn, now, amount).0 == wn,
        wn.receiver_account@ == wn.escrow_account->0.receiver_account@
            ==> native_withdraw_spec(wn, now, amount).1 == Err::<(), EscrowError>(
            EscrowError::TooEarly,
        ),
        token_withdraw_spec(wt, now, amount).1 is Err,
        token_withdraw_spec(wt, now, amount).0 == wt,
        wt.receiver_account@ == wt.escrow_account->0.receiver_account@
            ==> token_withdraw_spec(wt, now, amount).1 == Err::<(), EscrowError>(
            EscrowError::TooEarly,
        ),
{
}

/// A caller other than the recorded receiver is always rejected with
/// `Unauthorized`, regardless of timing, and nothing changes. Both
/// variants.
pub proof fn law_withdraw_unauthorized(
    wn: WithdrawNative,
    wt: WithdrawFungibleToken,
    now: u64,
    amount: u64,
)
    requires
        wn.escrow_account matches Some(e) && wn.receiver_account@ != e.receiver_account@,
        wt.escrow_account matches Some(e) && wt.receiver_account@ != e.receiver_account@,
    ensures
        native_withdraw_spec(wn, now, amount).1 == Err::<(), EscrowError>(
            EscrowError::Unauthorized,
        ),
        native_withdraw_spec(wn, now, amount).0 == wn,
        token_withdraw_spec(wt, now, amount).1 == Err::<(), EscrowError>(
            EscrowError::Unauthorized,
        ),
        token_withdraw_spec(wt, now, amount).0 == wt,
{
}

/// Depositing native value twice under the same sender key: whatever terms
/// the second deposit carries, it fails with `AlreadyExists` and changes
/// nothing.
pub proof fn law_native_deposit_not_repeatable(
    ctx: InitializeNative,
    first_start: u64,
    first_amount: u64,
    second_start: u64,
    second_amount: u64,
)
    requires
        native_deposit_spec(ctx, first_start, first_amount).1 is Ok,
    ensures
        ({
            let after_first = native_deposit_spec(ctx, first_start, first_amount).0;
            let second = native_deposit_spec(after_first, second_start, second_amount);
            second.1 == Err::<(), EscrowError>(EscrowError::AlreadyExists) && second.0
                == after_first
        }),
{
}

/// Depositing tokens twice under the same sender key succeeds both times —
/// the documented asymmetry from the native variant — provided the second
/// amount is still covered by the sender's remaining balance.
pub proof fn law_token_deposit_repeatable(
    ctx: InitializeFungibleToken,
    first_start: u64,
    first_amount: u64,
    second_start: u64,
    second_amount: u64,
)
    requires
        token_deposit_spec(ctx, first_start, first_amount).1 is Ok,
        token_deposit_spec(ctx, first_start, first_amount).0.sender_associated_info.amount
            >= second_amount,
    ensures
        token_deposit_spec(
            token_deposit_spec(ctx, first_start, first_amount).0,
            second_start,
            second_amount,
        ).1 is Ok,
{
}

/// Round trip, native variant: depositing `amount` and then withdrawing
/// `amount` after the delay leaves the vault balance exactly where it began
/// — net zero, absent other operations on the vault.
pub proof fn law_native_round_trip(
    d: InitializeNative,
    start_time: u64,
    amount: u64,
    w: WithdrawNative,
    now: u64,
)
    requires
        d.vault_lamports + amount <= u64::MAX,
        w.receiver_lamports + amount <= u64::MAX,
        native_deposit_spec(d, start_time, amount).1 is Ok,
        w.escrow_account == native_deposit_spec(d, start_time, amount).0.escrow_account,
        w.vault_lamports == native_deposit_spec(d, start_time, amount).0.vault_lamports,
        w.receiver_account@ == d.receiver_account@,
        now as int >= start_time + MIN_DELAY,
    ensures
        native_withdraw_spec(w, now, amount).1 is Ok,
        native_withdraw_spec(w, now, amount).0.vault_lamports == d.vault_lamports,
{
}

/// Round trip, token variant: depositing `amount` token units and then
/// withdrawing `amount` after the delay leaves the vault's token balance
/// exactly where it began.
pub proof fn law_token_round_trip(
    d: InitializeFungibleToken,
    start_time: u64,
    amount: u64,
    w: WithdrawFungibleToken,
    now: u64,
)
    requires
        d.vault_associated_info.amount + amount <= u64::MAX,
        w.receiver_associated_info.amount + amount <= u64::MAX,
        token_deposit_spec(d, start_time, amount).1 is Ok,
        w.escrow_account == token_deposit_spec(d, start_time, amount).0.escrow_account,
        w.vault_associated_info == token_deposit_spec(d, start_time, amount).0
            .vault_associated_info,
        w.receiver_account@ == d.receiver_account@,
        now as int >= start_time + MIN_DELAY,
    ensures
        token_withdraw_spec(w, now, amount).1 is Ok,
        token_withdraw_spec(w, now, amount).0.vault_associated_info.amount
            == d.vault_associated_info.amount,
{
}

/// Atomicity: a rejected operation — any variant, any error — leaves every
/// account exactly as it was.
pub proof fn law_errors_change_nothing(
    dn: InitializeNative,
    wn: WithdrawNative,
    dt: InitializeFungibleToken,
    wt: WithdrawFungibleToken,
    start_time: u64,
    now: u64,
    amount: u64,
)
    ensures
        native_deposit_spec(dn, start_time, amount).1 is Err ==> native_deposit_spec(
            dn,
            start_time,
            amount,
        ).0 == dn,
        native_withdraw_spec(wn, now, amount).1 is Err ==> native_withdraw_spec(
            wn,
            now,
            amount,
        ).0 == wn,
        token_deposit_spec(dt, start_time, amount).1 is Err ==> token_deposit_spec(
            dt,
            start_time,
            amount,
        ).0 == dt,
        token_withdraw_spec(wt, now, amount).1 is Err ==> token_withdraw_spec(wt, now, amount).0
            == wt,
{
}

} // verus!
