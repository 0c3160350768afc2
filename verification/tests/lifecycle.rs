//! End-to-end lifecycle scenarios against the vault store.

use time_locked_wallet::errors::TimeLockError;
use time_locked_wallet::instructions::close::{close_empty_account, force_close_expired};
use time_locked_wallet::instructions::deposit::{deposit_sol, deposit_token};
use time_locked_wallet::instructions::initialize::initialize;
use time_locked_wallet::instructions::withdraw::{withdraw_and_close_sol, withdraw_sol};
use time_locked_wallet::registry::VaultRegistry;
use time_locked_wallet::state::{AssetType, GRACE_PERIOD};
use time_locked_wallet::utils::get_wallet_info;

const OWNER: u64 = 7;

fn fresh_native_vault(reg: &mut VaultRegistry, unlock: i64, now: i64) -> usize {
    let ev = initialize(reg, OWNER, unlock, AssetType::Native, now).unwrap();
    ev.time_lock_account
}

#[test]
fn locked_then_unlocked_withdrawal() {
    // initialize at T with unlock T+10, deposit 50 at T, withdraw at T+5
    // refused by the time gate, withdraw at T+11 pays 50 and empties the vault.
    let t: i64 = 1_000;
    let mut reg = VaultRegistry::new();
    let id = fresh_native_vault(&mut reg, t + 10, t);

    let dep = deposit_sol(&mut reg, id, 50, true, t).unwrap();
    assert_eq!(dep.new_balance, 50);

    let early = withdraw_sol(&mut reg, id, t + 5, true);
    assert_eq!(early, Err(TimeLockError::TimeLockNotExpired));
    assert_eq!(get_wallet_info(&reg, id, t + 5).unwrap().amount, 50);

    let paid = withdraw_sol(&mut reg, id, t + 11, true).unwrap();
    assert_eq!(paid.amount, 50);
    assert_eq!(paid.recipient, OWNER);
    assert_eq!(paid.remaining_balance, 0);
    assert_eq!(get_wallet_info(&reg, id, t + 11).unwrap().amount, 0);
}

#[test]
fn failed_transfer_restores_balance() {
    // A failing transfer adapter during withdraw: the balance is restored to
    // its pre-withdraw value and TransferFailed is surfaced.
    let t: i64 = 50;
    let mut reg = VaultRegistry::new();
    let id = fresh_native_vault(&mut reg, t + 1, t);
    deposit_sol(&mut reg, id, 900, true, t).unwrap();

    let r = withdraw_sol(&mut reg, id, t + 2, false);
    assert_eq!(r, Err(TimeLockError::TransferFailed));
    assert_eq!(get_wallet_info(&reg, id, t + 2).unwrap().amount, 900);

    // The vault stays fully usable afterwards.
    let paid = withdraw_sol(&mut reg, id, t + 2, true).unwrap();
    assert_eq!(paid.amount, 900);
}

#[test]
fn initialize_rejects_past_unlock_time() {
    let mut reg = VaultRegistry::new();
    let past = initialize(&mut reg, OWNER, 99, AssetType::Native, 100);
    assert_eq!(past, Err(TimeLockError::InvalidTimestamp));
    let at_now = initialize(&mut reg, OWNER, 100, AssetType::Native, 100);
    assert_eq!(at_now, Err(TimeLockError::InvalidTimestamp));
    assert_eq!(reg.vault_count(), 0);
    assert_eq!(get_wallet_info(&reg, 0, 100), Err(TimeLockError::NotInitialized));
}

#[test]
fn zero_deposit_rejected_without_effect() {
    let mut reg = VaultRegistry::new();
    let id = fresh_native_vault(&mut reg, 20, 10);
    deposit_sol(&mut reg, id, 5, true, 10).unwrap();

    let r = deposit_sol(&mut reg, id, 0, true, 11);
    assert_eq!(r, Err(TimeLockError::InvalidAmount));
    assert_eq!(get_wallet_info(&reg, id, 11).unwrap().amount, 5);
}

#[test]
fn sequential_deposits_accumulate() {
    let mut reg = VaultRegistry::new();
    let id = fresh_native_vault(&mut reg, 20, 10);
    let a = deposit_sol(&mut reg, id, 30, true, 11).unwrap();
    assert_eq!(a.new_balance, 30);
    let b = deposit_sol(&mut reg, id, 12, true, 12).unwrap();
    assert_eq!(b.new_balance, 42);
}

#[test]
fn overflowing_deposit_rejected_without_effect() {
    let mut reg = VaultRegistry::new();
    let id = fresh_native_vault(&mut reg, 20, 10);
    deposit_sol(&mut reg, id, u64::MAX, true, 11).unwrap();

    let r = deposit_sol(&mut reg, id, 1, true, 12);
    assert_eq!(r, Err(TimeLockError::ArithmeticOverflow));
    assert_eq!(get_wallet_info(&reg, id, 12).unwrap().amount, u64::MAX);
}

#[test]
fn nested_operation_refused_while_processing() {
    let mut reg = VaultRegistry::new();
    let id = fresh_native_vault(&mut reg, 20, 10);
    deposit_sol(&mut reg, id, 40, true, 10).unwrap();

    // Simulate the window inside an outer operation: the guard is held.
    let mut v = reg.slot(id).unwrap();
    v.start_operation().unwrap();
    reg.put(id, v);

    assert_eq!(deposit_sol(&mut reg, id, 1, true, 11), Err(TimeLockError::OperationInProgress));
    assert_eq!(withdraw_sol(&mut reg, id, 25, true), Err(TimeLockError::OperationInProgress));
    // Closure checks emptiness before the guard, so here the earlier check wins.
    assert_eq!(close_empty_account(&mut reg, id, 10, 25), Err(TimeLockError::AccountNotEmpty));

    // On an empty vault the nested closure is refused by the guard itself.
    let empty = fresh_native_vault(&mut reg, 20, 10);
    let mut e = reg.slot(empty).unwrap();
    e.start_operation().unwrap();
    reg.put(empty, e);
    assert_eq!(close_empty_account(&mut reg, empty, 10, 25), Err(TimeLockError::OperationInProgress));

    // The outer operation finishes and releases the guard; the vault is
    // usable again and deposits succeeded nowhere in between.
    let mut v = reg.slot(id).unwrap();
    v.end_operation();
    reg.put(id, v);
    let dep = deposit_sol(&mut reg, id, 1, true, 12).unwrap();
    assert_eq!(dep.new_balance, 41);
}

#[test]
fn guard_released_after_each_outcome() {
    let mut reg = VaultRegistry::new();
    let id = fresh_native_vault(&mut reg, 20, 10);
    deposit_sol(&mut reg, id, 9, true, 10).unwrap();
    // Failure outcome (refused transfer), then success outcome.
    assert_eq!(withdraw_sol(&mut reg, id, 21, false), Err(TimeLockError::TransferFailed));
    let paid = withdraw_sol(&mut reg, id, 21, true).unwrap();
    assert_eq!(paid.amount, 9);
}

#[test]
fn empty_vault_cannot_withdraw() {
    let mut reg = VaultRegistry::new();
    let id = fresh_native_vault(&mut reg, 20, 10);
    assert_eq!(withdraw_sol(&mut reg, id, 21, true), Err(TimeLockError::InsufficientBalance));
}

#[test]
fn time_gate_is_independent_of_balance() {
    // Before the unlock time the refusal is always the time gate's, whether
    // the vault is empty or funded.
    let mut reg = VaultRegistry::new();
    let id = fresh_native_vault(&mut reg, 20, 10);
    assert_eq!(withdraw_sol(&mut reg, id, 15, true), Err(TimeLockError::TimeLockNotExpired));
    deposit_sol(&mut reg, id, 8, true, 10).unwrap();
    assert_eq!(withdraw_sol(&mut reg, id, 15, true), Err(TimeLockError::TimeLockNotExpired));
}

#[test]
fn close_refused_until_empty() {
    let mut reg = VaultRegistry::new();
    let id = fresh_native_vault(&mut reg, 20, 10);
    deposit_sol(&mut reg, id, 3, true, 10).unwrap();

    assert_eq!(close_empty_account(&mut reg, id, 500, 11), Err(TimeLockError::AccountNotEmpty));

    withdraw_sol(&mut reg, id, 21, true).unwrap();
    let closed = close_empty_account(&mut reg, id, 500, 22).unwrap();
    assert_eq!(closed.recipient, OWNER);
    assert_eq!(closed.collateral_refunded, 500);

    // The identity is terminal: nothing may target it again.
    assert_eq!(get_wallet_info(&reg, id, 23), Err(TimeLockError::NotInitialized));
    assert_eq!(deposit_sol(&mut reg, id, 1, true, 23), Err(TimeLockError::NotInitialized));
    assert_eq!(withdraw_sol(&mut reg, id, 23, true), Err(TimeLockError::NotInitialized));
}

#[test]
fn force_close_waits_for_grace_period() {
    let unlock: i64 = 1_000;
    let caller: u64 = 99;
    let mut reg = VaultRegistry::new();
    let id = fresh_native_vault(&mut reg, unlock, 500);

    // Exactly at the end of the grace period: still refused.
    let at_boundary = force_close_expired(&mut reg, id, caller, 800, unlock + GRACE_PERIOD);
    assert_eq!(at_boundary, Err(TimeLockError::TimeLockNotExpired));

    // One second past: succeeds, and the collateral goes to the caller.
    let closed = force_close_expired(&mut reg, id, caller, 800, unlock + GRACE_PERIOD + 1).unwrap();
    assert_eq!(closed.recipient, caller);
    assert_eq!(closed.owner, OWNER);
    assert_eq!(closed.collateral_refunded, 800);
    assert_eq!(get_wallet_info(&reg, id, unlock + GRACE_PERIOD + 2), Err(TimeLockError::NotInitialized));
}

#[test]
fn withdraw_and_close_removes_vault() {
    let mut reg = VaultRegistry::new();
    let id = fresh_native_vault(&mut reg, 20, 10);
    deposit_sol(&mut reg, id, 77, true, 10).unwrap();

    // A failed payout closes nothing.
    assert_eq!(withdraw_and_close_sol(&mut reg, id, 21, false), Err(TimeLockError::TransferFailed));
    assert_eq!(get_wallet_info(&reg, id, 21).unwrap().amount, 77);

    let paid = withdraw_and_close_sol(&mut reg, id, 21, true).unwrap();
    assert_eq!(paid.amount, 77);
    assert_eq!(get_wallet_info(&reg, id, 22), Err(TimeLockError::NotInitialized));
}

#[test]
fn asset_kind_is_enforced() {
    let mut reg = VaultRegistry::new();
    let id = fresh_native_vault(&mut reg, 20, 10);
    assert_eq!(
        deposit_token(&mut reg, id, 4242, 5, true, 10),
        Err(TimeLockError::InvalidAssetType)
    );

    let tok = initialize(&mut reg, OWNER, 20, AssetType::Custodied, 10).unwrap();
    assert_eq!(
        deposit_sol(&mut reg, tok.time_lock_account, 5, true, 10),
        Err(TimeLockError::InvalidAssetType)
    );
}

#[test]
fn identities_are_issued_in_order() {
    let mut reg = VaultRegistry::new();
    let a = initialize(&mut reg, 1, 20, AssetType::Native, 10).unwrap();
    let b = initialize(&mut reg, 2, 30, AssetType::Custodied, 10).unwrap();
    assert_eq!(a.time_lock_account, 0);
    assert_eq!(b.time_lock_account, 1);
    assert_eq!(reg.vault_count(), 2);
    assert_eq!(get_wallet_info(&reg, 0, 10).unwrap().owner, 1);
    assert_eq!(get_wallet_info(&reg, 1, 10).unwrap().owner, 2);
}
