//! Event records emitted to observers of the vault lifecycle.
//!
//! The library returns these records; it never consumes them.  Successful
//! operations hand one back alongside their result, and hosts build the
//! failure records from the typed errors they receive.

use vstd::prelude::*;

use crate::errors::TimeLockError;
use crate::state::AssetType;

verus! {

/// A vault was created.  `current_timestamp` lets clients display a
/// countdown without reading the clock themselves.
#[derive(Clone, Copy, Debug, PartialEq, Eq, Structural)]
pub struct TimeLockCreated {
    pub time_lock_account: usize,
    pub owner: u64,
    pub unlock_timestamp: i64,
    pub asset_type: AssetType,
    pub current_timestamp: i64,
}

/// A deposit was credited to a vault.
#[derive(Clone, Copy, Debug, PartialEq, Eq, Structural)]
pub struct DepositEvent {
    pub time_lock_account: usize,
    pub depositor: u64,
    pub amount: u64,
    pub new_balance: u64,
    pub timestamp: i64,
    pub asset_type: AssetType,
}

/// A withdrawal was paid out to the vault's owner.
#[derive(Clone, Copy, Debug, PartialEq, Eq, Structural)]
pub struct WithdrawalEvent {
    pub time_lock_account: usize,
    pub owner: u64,
    pub recipient: u64,
    pub amount: u64,
    pub remaining_balance: u64,
    pub timestamp: i64,
    pub asset_type: AssetType,
}

/// A nested operation was attempted while another was in flight.
#[derive(Clone, Copy, Debug, PartialEq, Eq, Structural)]
pub struct ReentrancyDetected {
    pub time_lock_account: usize,
    pub caller: u64,
    pub timestamp: i64,
}

/// A request was refused by a precondition check.
#[derive(Clone, Copy, Debug, PartialEq, Eq, Structural)]
pub struct ValidationFailed {
    pub time_lock_account: usize,
    pub caller: u64,
    pub error: TimeLockError,
    pub timestamp: i64,
    pub current_balance: u64,
    pub unlock_timestamp: i64,
}

/// Why a vault was destroyed: by its owner once empty, or by a permissionless
/// cleanup after the grace period, which records how long past the unlock
/// time the vault had sat.
#[derive(Clone, Copy, Debug, PartialEq, Eq, Structural)]
pub enum CloseReason {
    OwnerClosed,
    ForceExpired { overdue_seconds: i64 },
}

/// A vault was destroyed and its storage collateral refunded.
#[derive(Clone, Copy, Debug, PartialEq, Eq, Structural)]
pub struct AccountClosed {
    pub time_lock_account: usize,
    pub owner: u64,
    pub recipient: u64,
    pub collateral_refunded: u64,
    pub timestamp: i64,
    pub reason: CloseReason,
}

impl ValidationFailed {
    /// Builds the failure record for a refused request against the vault's
    /// state at the time of the refusal.
    pub fn new(
        time_lock_account: usize,
        caller: u64,
        error: TimeLockError,
        timestamp: i64,
        current_balance: u64,
        unlock_timestamp: i64,
    ) -> (r: ValidationFailed)
        ensures
            r == (ValidationFailed {
                time_lock_account,
                caller,
                error,
                timestamp,
                current_balance,
                unlock_timestamp,
            }),
    {
        ValidationFailed { time_lock_account, caller, error, timestamp, current_balance, unlock_timestamp }
    }
}

} // verus!
