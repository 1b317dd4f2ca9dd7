use token_withdraw::MIN_DELAY;
use token_withdraw::authority::vault_authority;
use token_withdraw::error::EscrowError;
use token_withdraw::gate::release_gate;
use token_withdraw::ident::Identity;
use token_withdraw::ident::identity_eq;
use token_withdraw::native::initialize_native_sol;
use token_withdraw::native::withdraw_native_sol;
use token_withdraw::state::EscrowFungibleToken;
use token_withdraw::state::EscrowNative;
use token_withdraw::state::InitializeFungibleToken;
use token_withdraw::state::InitializeNative;
use token_withdraw::state::TokenAccount;
use token_withdraw::state::WithdrawFungibleToken;
use token_withdraw::state::WithdrawNative;
use token_withdraw::token::intialize_fungible_token;
use token_withdraw::token::withdraw_fungible_token;

fn id(tag: u8) -> Identity {
    Identity { bytes: [tag; 32] }
}

fn deposit_ctx() -> InitializeNative {
    InitializeNative {
        escrow_account: None,
        sender_account: id(1),
        sender_is_signer: true,
        sender_lamports: 1_000,
        receiver_account: id(2),
        vault: id(3),
        vault_lamports: 50,
    }
}

fn withdraw_ctx(escrow: Option<EscrowNative>, vault_lamports: u64) -> WithdrawNative {
    WithdrawNative {
        escrow_account: escrow,
        sender_account: id(1),
        receiver_account: id(2),
        receiver_lamports: 0,
        vault: id(3),
        vault_lamports,
    }
}

fn token_deposit_ctx() -> InitializeFungibleToken {
    InitializeFungibleToken {
        escrow_account: None,
        sender_account: id(1),
        sender_is_signer: true,
        receiver_account: id(2),
        mint: id(9),
        sender_associated_info: TokenAccount { mint: id(9), owner: id(1), amount: 400 },
        vault_associated_info: TokenAccount { mint: id(9), owner: id(3), amount: 0 },
        vault: id(3),
    }
}

fn token_withdraw_ctx(
    escrow: Option<EscrowFungibleToken>,
    vault_amount: u64,
) -> WithdrawFungibleToken {
    WithdrawFungibleToken {
        escrow_account: escrow,
        sender_account: id(1),
        receiver_account: id(2),
        mint: id(9),
        receiver_associated_info: TokenAccount { mint: id(9), owner: id(2), amount: 0 },
        vault_associated_info: TokenAccount { mint: id(9), owner: id(3), amount: vault_amount },
        vault: id(3),
    }
}

#[test]
fn identity_eq_compares_bytes() {
    assert!(identity_eq(&id(7), &id(7)));
    assert!(!identity_eq(&id(7), &id(8)));
    let mut almost = id(7);
    almost.bytes[31] = 8;
    assert!(!identity_eq(&id(7), &almost));
}

#[test]
fn deposit_records_exact_terms() {
    let mut ctx = deposit_ctx();
    assert_eq!(initialize_native_sol(&mut ctx, 10, 100), Ok(()));
    assert_eq!(
        ctx.escrow_account,
        Some(EscrowNative {
            sender_account: id(1),
            receiver_account: id(2),
            start_time: 10,
            amount: 100,
        })
    );
    assert_eq!(ctx.sender_lamports, 900);
    assert_eq!(ctx.vault_lamports, 150);
}

#[test]
fn deposit_requires_signer() {
    let mut ctx = deposit_ctx();
    ctx.sender_is_signer = false;
    assert_eq!(initialize_native_sol(&mut ctx, 10, 100), Err(EscrowError::NotAuthorized));
    let mut unchanged = deposit_ctx();
    unchanged.sender_is_signer = false;
    assert_eq!(ctx, unchanged);
}

#[test]
fn deposit_rejects_short_balance() {
    let mut ctx = deposit_ctx();
    ctx.sender_lamports = 99;
    assert_eq!(initialize_native_sol(&mut ctx, 10, 100), Err(EscrowError::InsufficientFunds));
    assert_eq!(ctx.sender_lamports, 99);
    assert_eq!(ctx.vault_lamports, 50);
    assert_eq!(ctx.escrow_account, None);
}

#[test]
fn second_native_deposit_already_exists() {
    let mut ctx = deposit_ctx();
    assert_eq!(initialize_native_sol(&mut ctx, 10, 100), Ok(()));
    let after_first = ctx;
    assert_eq!(initialize_native_sol(&mut ctx, 20, 30), Err(EscrowError::AlreadyExists));
    assert_eq!(ctx, after_first);
}

#[test]
fn withdraw_without_record_not_found() {
    let mut w = withdraw_ctx(None, 100);
    assert_eq!(withdraw_native_sol(&mut w, 1_000, 100), Err(EscrowError::NotFound));
    assert_eq!(w, withdraw_ctx(None, 100));
}

#[test]
fn withdraw_wrong_caller_unauthorized_regardless_of_timing() {
    let escrow = Some(EscrowNative {
        sender_account: id(1),
        receiver_account: id(2),
        start_time: 10,
        amount: 100,
    });
    let mut w = withdraw_ctx(escrow, 100);
    w.receiver_account = id(4);
    // Even long after the release time, a caller other than the recorded
    // receiver is rejected.
    assert_eq!(withdraw_native_sol(&mut w, 1_000_000, 100), Err(EscrowError::Unauthorized));
    assert_eq!(w.vault_lamports, 100);
    assert_eq!(w.receiver_lamports, 0);
}

#[test]
fn deposit_then_early_then_late_withdraw() {
    // Deposit at time 10, attempt at 11: too early; attempt at 13: 100 units
    // reach the receiver.
    let mut ctx = deposit_ctx();
    assert_eq!(initialize_native_sol(&mut ctx, 10, 100), Ok(()));
    let mut w = withdraw_ctx(ctx.escrow_account, ctx.vault_lamports);
    assert_eq!(withdraw_native_sol(&mut w, 11, 100), Err(EscrowError::TooEarly));
    assert_eq!(w.receiver_lamports, 0);
    assert_eq!(withdraw_native_sol(&mut w, 13, 100), Ok(()));
    assert_eq!(w.receiver_lamports, 100);
    // Round trip: the vault is back at its balance before the deposit.
    assert_eq!(w.vault_lamports, 50);
    // The record survives the withdrawal untouched.
    assert_eq!(w.escrow_account, ctx.escrow_account);
}

#[test]
fn second_withdraw_drains_vault_then_fails() {
    // Only 100 units were ever deposited: the first withdrawal of 100
    // succeeds, the second fails on the vault balance.
    let mut ctx = deposit_ctx();
    ctx.vault_lamports = 0;
    assert_eq!(initialize_native_sol(&mut ctx, 10, 100), Ok(()));
    let mut w = withdraw_ctx(ctx.escrow_account, ctx.vault_lamports);
    assert_eq!(withdraw_native_sol(&mut w, 13, 100), Ok(()));
    assert_eq!(withdraw_native_sol(&mut w, 13, 100), Err(EscrowError::InsufficientFunds));
    assert_eq!(w.vault_lamports, 0);
    assert_eq!(w.receiver_lamports, 100);
}

#[test]
fn gate_boundary_times() {
    assert_eq!(MIN_DELAY, 2);
    let stored = id(2);
    assert_eq!(release_gate(&stored, &id(2), 10, 11), Err(EscrowError::TooEarly));
    assert_eq!(release_gate(&stored, &id(2), 10, 12), Ok(()));
    assert_eq!(release_gate(&stored, &id(2), 0, 0), Err(EscrowError::TooEarly));
    assert_eq!(release_gate(&stored, &id(2), 0, 2), Ok(()));
    // A start time near the top of the range can never be released.
    assert_eq!(release_gate(&stored, &id(2), u64::MAX - 1, u64::MAX), Err(EscrowError::TooEarly));
    assert_eq!(release_gate(&stored, &id(4), 10, 12), Err(EscrowError::Unauthorized));
}

#[test]
fn token_deposit_records_exact_terms() {
    let mut ctx = token_deposit_ctx();
    assert_eq!(intialize_fungible_token(&mut ctx, 10, 100), Ok(()));
    assert_eq!(
        ctx.escrow_account,
        Some(EscrowFungibleToken {
            sender_account: id(1),
            receiver_account: id(2),
            token_mint: id(9),
            start_time: 10,
            amount_token: 100,
        })
    );
    assert_eq!(ctx.sender_associated_info.amount, 300);
    assert_eq!(ctx.vault_associated_info.amount, 100);
}

#[test]
fn token_deposit_requires_signer() {
    let mut ctx = token_deposit_ctx();
    ctx.sender_is_signer = false;
    assert_eq!(intialize_fungible_token(&mut ctx, 10, 100), Err(EscrowError::NotAuthorized));
    assert_eq!(ctx.escrow_account, None);
}

#[test]
fn token_deposit_rejects_short_balance() {
    let mut ctx = token_deposit_ctx();
    ctx.sender_associated_info.amount = 99;
    assert_eq!(intialize_fungible_token(&mut ctx, 10, 100), Err(EscrowError::InsufficientFunds));
    assert_eq!(ctx.vault_associated_info.amount, 0);
    assert_eq!(ctx.escrow_account, None);
}

#[test]
fn second_token_deposit_succeeds() {
    // The token variant tolerates re-initialization: both deposits succeed,
    // and the second overwrites the recorded terms.
    let mut ctx = token_deposit_ctx();
    assert_eq!(intialize_fungible_token(&mut ctx, 10, 100), Ok(()));
    assert_eq!(intialize_fungible_token(&mut ctx, 20, 50), Ok(()));
    assert_eq!(ctx.sender_associated_info.amount, 250);
    assert_eq!(ctx.vault_associated_info.amount, 150);
    assert_eq!(ctx.escrow_account.unwrap().start_time, 20);
    assert_eq!(ctx.escrow_account.unwrap().amount_token, 50);
}

#[test]
fn token_withdraw_full_cycle() {
    let mut ctx = token_deposit_ctx();
    assert_eq!(intialize_fungible_token(&mut ctx, 10, 100), Ok(()));
    let mut w = token_withdraw_ctx(ctx.escrow_account, ctx.vault_associated_info.amount);
    assert_eq!(withdraw_fungible_token(&mut w, 11, 100), Err(EscrowError::TooEarly));
    assert_eq!(withdraw_fungible_token(&mut w, 13, 100), Ok(()));
    assert_eq!(w.receiver_associated_info.amount, 100);
    // Round trip: the vault's token balance is back where it began.
    assert_eq!(w.vault_associated_info.amount, 0);
    assert_eq!(w.escrow_account, ctx.escrow_account);
}

#[test]
fn token_withdraw_guards() {
    let mut w = token_withdraw_ctx(None, 100);
    assert_eq!(withdraw_fungible_token(&mut w, 1_000, 100), Err(EscrowError::NotFound));

    let escrow = Some(EscrowFungibleToken {
        sender_account: id(1),
        receiver_account: id(2),
        token_mint: id(9),
        start_time: 10,
        amount_token: 100,
    });
    let mut w = token_withdraw_ctx(escrow, 100);
    w.receiver_account = id(4);
    w.receiver_associated_info.owner = id(4);
    assert_eq!(withdraw_fungible_token(&mut w, 1_000, 100), Err(EscrowError::Unauthorized));

    let mut w = token_withdraw_ctx(escrow, 40);
    assert_eq!(withdraw_fungible_token(&mut w, 1_000, 100), Err(EscrowError::InsufficientFunds));
    assert_eq!(w.vault_associated_info.amount, 40);
}

#[test]
fn vault_authority_matches_ledger_derivation() {
    let program_id = id(11);
    let derived = vault_authority(&program_id).expect("derivation should find a bump");
    // The same derivation, performed directly with the ledger primitive.
    let pk = anchor_lang::prelude::Pubkey::new_from_array(program_id.bytes);
    let (expected, expected_bump) =
        anchor_lang::prelude::Pubkey::find_program_address(&[b"FIND_PROGRAM"], &pk);
    assert_eq!(derived.0.bytes, expected.to_bytes());
    assert_eq!(derived.1, expected_bump);
    // Derived, not echoed: the authority is a different identity from the
    // program's own.
    assert_ne!(derived.0.bytes, program_id.bytes);
}

#[test]
fn vault_authority_is_deterministic() {
    let program_id = id(12);
    let first = vault_authority(&program_id).expect("derivation should find a bump");
    let second = vault_authority(&program_id).expect("derivation should find a bump");
    assert_eq!(first.0, second.0);
    assert_eq!(first.1, second.1);
    // A different program identity yields a different authority.
    let other = vault_authority(&id(13)).expect("derivation should find a bump");
    assert_ne!(first.0, other.0);
}
