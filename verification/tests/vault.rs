//! Per-record behaviour: the guard, the checks, custody pinning, and the
//! error taxonomy.

use time_locked_wallet::errors::{ErrorKind, TimeLockError};
use time_locked_wallet::events::{CloseReason, ReentrancyDetected, ValidationFailed};
use time_locked_wallet::instructions::close::{close_token_account, force_close_expired};
use time_locked_wallet::instructions::deposit::deposit_token;
use time_locked_wallet::instructions::initialize::initialize;
use time_locked_wallet::instructions::withdraw::withdraw_token;
use time_locked_wallet::registry::VaultRegistry;
use time_locked_wallet::state::{AssetType, TimeLockAccount, GRACE_PERIOD};
use time_locked_wallet::utils::get_wallet_info;

#[test]
fn fresh_record_is_empty_and_at_rest() {
    let v = TimeLockAccount::new(11, 500, AssetType::Custodied);
    assert_eq!(v.owner, 11);
    assert_eq!(v.unlock_timestamp, 500);
    assert_eq!(v.asset_type, AssetType::Custodied);
    assert_eq!(v.balance, 0);
    assert_eq!(v.custody_reference, None);
    assert!(v.is_initialized);
    assert!(!v.is_processing);
}

#[test]
fn guard_acquire_and_release() {
    let mut v = TimeLockAccount::new(1, 10, AssetType::Native);
    assert_eq!(v.start_operation(), Ok(()));
    assert!(v.is_processing);
    assert_eq!(v.start_operation(), Err(TimeLockError::OperationInProgress));
    v.end_operation();
    assert!(!v.is_processing);
    assert_eq!(v.start_operation(), Ok(()));
}

#[test]
fn monitored_guard_reports_the_attempt() {
    let mut v = TimeLockAccount::new(1, 10, AssetType::Native);
    assert_eq!(v.start_operation_with_monitoring(42, 3, 99), Ok(()));
    let refused = v.start_operation_with_monitoring(42, 3, 100);
    assert_eq!(
        refused,
        Err(ReentrancyDetected { time_lock_account: 3, caller: 42, timestamp: 100 })
    );
    // The refusal left the guard held for the outer operation.
    assert!(v.is_processing);
}

#[test]
fn unlock_check_is_inclusive() {
    let v = TimeLockAccount::new(1, 10, AssetType::Native);
    assert!(!v.is_unlocked(9));
    assert!(v.is_unlocked(10));
    assert!(v.is_unlocked(11));
}

#[test]
fn withdrawal_validation_orders_its_checks() {
    let mut v = TimeLockAccount::new(1, 10, AssetType::Native);
    v.is_initialized = false;
    assert_eq!(v.validate_sol_withdrawal(50), Err(TimeLockError::NotInitialized));
    v.is_initialized = true;
    assert_eq!(v.validate_sol_withdrawal(9), Err(TimeLockError::TimeLockNotExpired));
    assert_eq!(v.validate_sol_withdrawal(10), Err(TimeLockError::InsufficientBalance));
    v.balance = 5;
    assert_eq!(v.validate_sol_withdrawal(10), Ok(()));
}

#[test]
fn custody_reference_pinned_on_first_deposit_only() {
    let mut reg = VaultRegistry::new();
    let id = initialize(&mut reg, 5, 100, AssetType::Custodied, 10).unwrap().time_lock_account;
    assert_eq!(get_wallet_info(&reg, id, 10).unwrap().custody_reference, None);

    deposit_token(&mut reg, id, 777, 40, true, 11).unwrap();
    assert_eq!(get_wallet_info(&reg, id, 11).unwrap().custody_reference, Some(777));

    // A later deposit through another container name does not re-pin it.
    deposit_token(&mut reg, id, 888, 2, true, 12).unwrap();
    let info = get_wallet_info(&reg, id, 12).unwrap();
    assert_eq!(info.custody_reference, Some(777));
    assert_eq!(info.amount, 42);
}

#[test]
fn failed_token_deposit_leaves_nothing_behind() {
    let mut reg = VaultRegistry::new();
    let id = initialize(&mut reg, 5, 100, AssetType::Custodied, 10).unwrap().time_lock_account;
    assert_eq!(deposit_token(&mut reg, id, 777, 40, false, 11), Err(TimeLockError::TransferFailed));
    let info = get_wallet_info(&reg, id, 11).unwrap();
    assert_eq!(info.amount, 0);
    assert_eq!(info.custody_reference, None);
}

#[test]
fn token_withdrawal_keeps_vault_open() {
    let mut reg = VaultRegistry::new();
    let id = initialize(&mut reg, 5, 100, AssetType::Custodied, 10).unwrap().time_lock_account;
    deposit_token(&mut reg, id, 777, 40, true, 11).unwrap();

    assert_eq!(withdraw_token(&mut reg, id, 50, true), Err(TimeLockError::TimeLockNotExpired));
    let paid = withdraw_token(&mut reg, id, 100, true).unwrap();
    assert_eq!(paid.amount, 40);
    assert_eq!(paid.asset_type, AssetType::Custodied);

    // The emptied vault still exists until it is closed.
    assert_eq!(get_wallet_info(&reg, id, 101).unwrap().amount, 0);
}

#[test]
fn token_close_requires_empty_container() {
    let mut reg = VaultRegistry::new();
    let id = initialize(&mut reg, 5, 100, AssetType::Custodied, 10).unwrap().time_lock_account;
    deposit_token(&mut reg, id, 777, 40, true, 11).unwrap();
    withdraw_token(&mut reg, id, 100, true).unwrap();

    // The host still reports tokens sitting in the container.
    assert_eq!(close_token_account(&mut reg, id, 40, 200, 101), Err(TimeLockError::AccountNotEmpty));

    let closed = close_token_account(&mut reg, id, 0, 200, 101).unwrap();
    assert_eq!(closed.reason, CloseReason::OwnerClosed);
    assert_eq!(closed.recipient, 5);
    assert_eq!(get_wallet_info(&reg, id, 102), Err(TimeLockError::NotInitialized));
}

#[test]
fn forced_closure_reports_overdue_time() {
    let unlock: i64 = 2_000;
    let mut reg = VaultRegistry::new();
    let id = initialize(&mut reg, 5, unlock, AssetType::Native, 100).unwrap().time_lock_account;
    let now: i64 = unlock + GRACE_PERIOD + 17;
    let closed = force_close_expired(&mut reg, id, 77, 300, now).unwrap();
    assert_eq!(
        closed.reason,
        CloseReason::ForceExpired { overdue_seconds: GRACE_PERIOD + 17 }
    );
    assert_eq!(closed.timestamp, now);
}

#[test]
fn error_codes_are_stable() {
    assert_eq!(TimeLockError::TimeLockNotExpired.code(), 1001);
    assert_eq!(TimeLockError::InvalidTimestamp.code(), 1002);
    assert_eq!(TimeLockError::InsufficientBalance.code(), 1101);
    assert_eq!(TimeLockError::InvalidAmount.code(), 1102);
    assert_eq!(TimeLockError::AccountNotEmpty.code(), 1103);
    assert_eq!(TimeLockError::InvalidAssetType.code(), 1201);
    assert_eq!(TimeLockError::OperationInProgress.code(), 1401);
    assert_eq!(TimeLockError::NotInitialized.code(), 1501);
    assert_eq!(TimeLockError::ArithmeticOverflow.code(), 1601);
    assert_eq!(TimeLockError::TransferFailed.code(), 1602);
}

#[test]
fn error_taxonomy_groups() {
    assert_eq!(TimeLockError::InvalidTimestamp.kind(), ErrorKind::Input);
    assert_eq!(TimeLockError::InvalidAmount.kind(), ErrorKind::Input);
    assert_eq!(TimeLockError::InvalidAssetType.kind(), ErrorKind::Input);
    assert_eq!(TimeLockError::NotInitialized.kind(), ErrorKind::State);
    assert_eq!(TimeLockError::TimeLockNotExpired.kind(), ErrorKind::State);
    assert_eq!(TimeLockError::InsufficientBalance.kind(), ErrorKind::State);
    assert_eq!(TimeLockError::AccountNotEmpty.kind(), ErrorKind::State);
    assert_eq!(TimeLockError::OperationInProgress.kind(), ErrorKind::State);
    assert_eq!(TimeLockError::ArithmeticOverflow.kind(), ErrorKind::Arithmetic);
    assert_eq!(TimeLockError::TransferFailed.kind(), ErrorKind::External);
}

#[test]
fn validation_failure_record_carries_the_refusal() {
    let rec = ValidationFailed::new(4, 9, TimeLockError::InsufficientBalance, 123, 0, 200);
    assert_eq!(rec.time_lock_account, 4);
    assert_eq!(rec.caller, 9);
    assert_eq!(rec.error, TimeLockError::InsufficientBalance);
    assert_eq!(rec.timestamp, 123);
    assert_eq!(rec.current_balance, 0);
    assert_eq!(rec.unlock_timestamp, 200);
}
