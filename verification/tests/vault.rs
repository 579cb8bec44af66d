use vault_core::bank::VaultBank;
use vault_core::errors::ErrorCode;
use vault_core::policy::{authorize, check_withdraw, max_withdrawal};
use vault_core::state::VaultState;

#[test]
fn initialize_then_find_holds_reserve() {
    let mut bank = VaultBank::new(100, 10);
    assert_eq!(bank.minimum_reserve(), 100);
    bank.fund(1, 1_000);
    assert_eq!(bank.initialize(1, 254, 253), Ok(()));
    assert_eq!(bank.find(1), Ok(VaultState { vault_bump: 254, state_bump: 253 }));
    assert_eq!(bank.vault_balance(1), Some(100));
    assert_eq!(bank.funds_balance(1), 890);
}

#[test]
fn initialize_twice_fails_and_moves_nothing() {
    let mut bank = VaultBank::new(100, 10);
    bank.fund(1, 1_000);
    assert_eq!(bank.initialize(1, 254, 253), Ok(()));
    let funds_before = bank.funds_balance(1);
    let vault_before = bank.vault_balance(1);
    assert_eq!(bank.initialize(1, 200, 199), Err(ErrorCode::AlreadyInitialized));
    assert_eq!(bank.funds_balance(1), funds_before);
    assert_eq!(bank.vault_balance(1), vault_before);
    assert_eq!(bank.find(1), Ok(VaultState { vault_bump: 254, state_bump: 253 }));
}

#[test]
fn initialize_without_funds_fails() {
    let mut bank = VaultBank::new(100, 10);
    bank.fund(1, 109);
    assert_eq!(bank.initialize(1, 254, 253), Err(ErrorCode::InsufficientFunds));
    assert_eq!(bank.find(1), Err(ErrorCode::NotFound));
    assert_eq!(bank.funds_balance(1), 109);
    bank.fund(1, 1);
    assert_eq!(bank.initialize(1, 254, 253), Ok(()));
    assert_eq!(bank.funds_balance(1), 0);
}

#[test]
fn deposit_adds_to_vault() {
    let mut bank = VaultBank::new(100, 10);
    bank.fund(1, 1_000);
    assert_eq!(bank.initialize(1, 254, 253), Ok(()));
    assert_eq!(bank.deposit(1, 500), Ok(()));
    assert_eq!(bank.vault_balance(1), Some(600));
    assert_eq!(bank.funds_balance(1), 390);
    assert_eq!(bank.deposit(1, 390), Ok(()));
    assert_eq!(bank.vault_balance(1), Some(990));
    assert_eq!(bank.funds_balance(1), 0);
}

#[test]
fn deposit_needs_a_vault_and_funds() {
    let mut bank = VaultBank::new(100, 10);
    bank.fund(1, 200);
    assert_eq!(bank.deposit(1, 50), Err(ErrorCode::NotFound));
    assert_eq!(bank.initialize(1, 254, 253), Ok(()));
    assert_eq!(bank.funds_balance(1), 90);
    assert_eq!(bank.deposit(1, 91), Err(ErrorCode::InsufficientFunds));
    assert_eq!(bank.vault_balance(1), Some(100));
    assert_eq!(bank.funds_balance(1), 90);
}

#[test]
fn withdraw_at_the_boundary_succeeds() {
    let mut bank = VaultBank::new(100, 10);
    bank.fund(1, 1_000);
    assert_eq!(bank.initialize(1, 254, 253), Ok(()));
    assert_eq!(bank.deposit(1, 400), Ok(()));
    // balance 500, reserve 100: 400 is the maximum allowed withdrawal.
    assert_eq!(bank.withdraw(1, 400), Ok(()));
    assert_eq!(bank.vault_balance(1), Some(100));
}

#[test]
fn withdraw_below_reserve_fails() {
    let mut bank = VaultBank::new(100, 10);
    bank.fund(1, 1_000);
    assert_eq!(bank.initialize(1, 254, 253), Ok(()));
    assert_eq!(bank.deposit(1, 400), Ok(()));
    // balance 500: anything in 401..=500 breaches the reserve floor.
    assert_eq!(bank.withdraw(1, 401), Err(ErrorCode::BelowRentExemption));
    assert_eq!(bank.withdraw(1, 500), Err(ErrorCode::BelowRentExemption));
    assert_eq!(bank.vault_balance(1), Some(500));
}

#[test]
fn withdraw_over_balance_fails() {
    let mut bank = VaultBank::new(100, 10);
    bank.fund(1, 1_000);
    assert_eq!(bank.initialize(1, 254, 253), Ok(()));
    assert_eq!(bank.deposit(1, 400), Ok(()));
    assert_eq!(bank.withdraw(1, 501), Err(ErrorCode::InsufficientVaultBalance));
    assert_eq!(bank.withdraw(1, u64::MAX - 1_000), Err(ErrorCode::InsufficientVaultBalance));
    assert_eq!(bank.vault_balance(1), Some(500));
}

#[test]
fn withdraw_without_a_vault_fails() {
    let mut bank = VaultBank::new(100, 10);
    bank.fund(1, 1_000);
    assert_eq!(bank.withdraw(1, 10), Err(ErrorCode::NotFound));
    assert_eq!(bank.funds_balance(1), 1_000);
}

#[test]
fn deposit_withdraw_round_trip() {
    let mut bank = VaultBank::new(100, 10);
    bank.fund(1, 1_000);
    assert_eq!(bank.initialize(1, 254, 253), Ok(()));
    assert_eq!(bank.deposit(1, 300), Ok(()));
    let before = bank.vault_balance(1);
    let funds_before = bank.funds_balance(1);
    assert_eq!(bank.deposit(1, 250), Ok(()));
    assert_eq!(bank.withdraw(1, 250), Ok(()));
    assert_eq!(bank.vault_balance(1), before);
    assert_eq!(bank.funds_balance(1), funds_before);
}

#[test]
fn close_succeeds_and_record_is_gone() {
    let mut bank = VaultBank::new(100, 10);
    bank.fund(1, 1_000);
    assert_eq!(bank.initialize(1, 254, 253), Ok(()));
    // Balance equals the reserve: a plain withdrawal of even 1 is
    // refused, yet close drains everything.
    assert_eq!(bank.withdraw(1, 1), Err(ErrorCode::BelowRentExemption));
    assert_eq!(bank.close(1), Ok(()));
    assert_eq!(bank.find(1), Err(ErrorCode::NotFound));
    assert_eq!(bank.vault_balance(1), None);
    assert_eq!(bank.funds_balance(1), 1_000);
    assert_eq!(bank.close(1), Err(ErrorCode::NotFound));
}

#[test]
fn full_scenario() {
    let mut bank = VaultBank::new(100, 0);
    bank.fund(9, 10_000);
    assert_eq!(bank.initialize(9, 255, 254), Ok(()));
    assert_eq!(bank.vault_balance(9), Some(100));
    assert_eq!(bank.deposit(9, 500), Ok(()));
    assert_eq!(bank.vault_balance(9), Some(600));
    assert_eq!(bank.withdraw(9, 450), Ok(()));
    assert_eq!(bank.vault_balance(9), Some(150));
    assert_eq!(bank.withdraw(9, 60), Err(ErrorCode::BelowRentExemption));
    assert_eq!(bank.vault_balance(9), Some(150));
    let funds_before = bank.funds_balance(9);
    assert_eq!(bank.close(9), Ok(()));
    assert_eq!(bank.funds_balance(9), funds_before + 150);
    assert_eq!(bank.find(9), Err(ErrorCode::NotFound));
}

#[test]
fn owners_are_isolated() {
    let mut bank = VaultBank::new(100, 10);
    bank.fund(1, 500);
    bank.fund(2, 500);
    assert_eq!(bank.initialize(1, 254, 253), Ok(()));
    assert_eq!(bank.initialize(2, 252, 251), Ok(()));
    assert_eq!(bank.deposit(1, 200), Ok(()));
    assert_eq!(bank.vault_balance(1), Some(300));
    assert_eq!(bank.vault_balance(2), Some(100));
    assert_eq!(bank.close(1), Ok(()));
    assert_eq!(bank.find(1), Err(ErrorCode::NotFound));
    assert_eq!(bank.find(2), Ok(VaultState { vault_bump: 252, state_bump: 251 }));
    assert_eq!(bank.vault_balance(2), Some(100));
}

#[test]
fn large_values() {
    let mut bank = VaultBank::new(1, 0);
    bank.fund(1, u64::MAX);
    assert_eq!(bank.initialize(1, 254, 253), Ok(()));
    assert_eq!(bank.deposit(1, u64::MAX - 1), Ok(()));
    assert_eq!(bank.vault_balance(1), Some(u64::MAX));
    assert_eq!(bank.funds_balance(1), 0);
    assert_eq!(bank.withdraw(1, u64::MAX - 1), Ok(()));
    assert_eq!(bank.vault_balance(1), Some(1));
    assert_eq!(bank.funds_balance(1), u64::MAX - 1);
}

#[test]
fn reserve_plus_cost_beyond_u64_is_unfundable() {
    let mut bank = VaultBank::new(u64::MAX, 1);
    bank.fund(1, u64::MAX);
    assert_eq!(bank.initialize(1, 254, 253), Err(ErrorCode::InsufficientFunds));
    assert_eq!(bank.find(1), Err(ErrorCode::NotFound));
}

#[test]
fn check_withdraw_rule() {
    assert_eq!(check_withdraw(600, 100, 450), Ok(()));
    assert_eq!(check_withdraw(600, 100, 500), Ok(()));
    assert_eq!(check_withdraw(600, 100, 501), Err(ErrorCode::BelowRentExemption));
    assert_eq!(check_withdraw(600, 100, 600), Err(ErrorCode::BelowRentExemption));
    assert_eq!(check_withdraw(600, 100, 601), Err(ErrorCode::InsufficientVaultBalance));
    assert_eq!(check_withdraw(150, 100, 60), Err(ErrorCode::BelowRentExemption));
    assert_eq!(check_withdraw(150, 100, 50), Ok(()));
    // A vault below its reserve (only reachable outside the normal
    // lifecycle) allows no withdrawal at all.
    assert_eq!(check_withdraw(50, 100, 1), Err(ErrorCode::BelowRentExemption));
}

#[test]
fn max_withdrawal_is_the_boundary() {
    assert_eq!(max_withdrawal(600, 100), 500);
    assert_eq!(max_withdrawal(100, 100), 0);
    assert_eq!(max_withdrawal(50, 100), 0);
    assert_eq!(max_withdrawal(u64::MAX, 0), u64::MAX);
}

#[test]
fn authorize_checks_both_bumps() {
    let state = VaultState { vault_bump: 254, state_bump: 253 };
    assert_eq!(authorize(&state, 253, 254), Ok(()));
    assert_eq!(authorize(&state, 254, 254), Err(ErrorCode::AuthorizationFailure));
    assert_eq!(authorize(&state, 253, 253), Err(ErrorCode::AuthorizationFailure));
    assert_eq!(authorize(&state, 0, 0), Err(ErrorCode::AuthorizationFailure));
}
