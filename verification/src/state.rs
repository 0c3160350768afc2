//! The vault record, its invariant, and the per-vault guard and checks.

use vstd::prelude::*;

use crate::errors::TimeLockError;
use crate::events::ReentrancyDetected;

verus! {

/// Seconds past the unlock time after which anyone may force-close a vault:
/// one year.
pub const GRACE_PERIOD: i64 = 86400 * 365;

/// The kind of asset a vault holds: the native currency, or a custodied
/// token held in an external container that the vault only references.
#[derive(Clone, Copy, Debug, PartialEq, Eq, Structural)]
pub enum AssetType {
    Native,
    Custodied,
}

/// One time-locked vault.
///
/// `owner`, `unlock_timestamp` and `asset_type` are fixed at creation.
/// `balance` is the single source of truth for the amount held.
/// `custody_reference` names the external container of a custodied vault and
/// is set at most once, on the first deposit.  `is_processing` is the
/// reentrancy guard: true only strictly inside one in-flight operation.
#[derive(Clone, Copy, Debug, PartialEq, Eq)]
pub struct TimeLockAccount {
    pub owner: u64,
    pub unlock_timestamp: i64,
    pub asset_type: AssetType,
    pub balance: u64,
    pub custody_reference: Option<u64>,
    pub is_initialized: bool,
    pub is_processing: bool,
}

impl TimeLockAccount {
    /// Well-formedness: an uninitialized record is empty and at rest, and a
    /// native vault never references a custody container.
    pub open spec fn wf(self) -> bool {
        &&& !self.is_initialized ==> self.balance == 0 && self.custody_reference is None
            && !self.is_processing
        &&& self.asset_type is Native ==> self.custody_reference is None
    }

    /// The record `initialize` creates: empty, at rest, and initialized.
    pub open spec fn new_spec(owner: u64, unlock_timestamp: i64, asset_type: AssetType)
        -> TimeLockAccount
    {
        TimeLockAccount {
            owner,
            unlock_timestamp,
            asset_type,
            balance: 0,
            custody_reference: None,
            is_initialized: true,
            is_processing: false,
        }
    }

    /// Builds a fresh vault record for `owner`, locked until
    /// `unlock_timestamp`.
    pub fn new(owner: u64, unlock_timestamp: i64, asset_type: AssetType) -> (v: TimeLockAccount)
        ensures
            v == Self::new_spec(owner, unlock_timestamp, asset_type),
            v.wf(),
    {
        TimeLockAccount {
            owner,
            unlock_timestamp,
            asset_type,
            balance: 0,
            custody_reference: None,
            is_initialized: true,
            is_processing: false,
        }
    }

    /// Tries to acquire the reentrancy guard.  Refuses with
    /// `OperationInProgress` when another operation is already in flight.
    pub fn start_operation(&mut self) -> (r: Result<(), TimeLockError>)
        ensures
            old(self).is_processing ==> r == Err::<(), TimeLockError>(
                TimeLockError::OperationInProgress,
            ) && *final(self) == *old(self),
            !old(self).is_processing ==> r == Ok::<(), TimeLockError>(()) && *final(self) == (
                TimeLockAccount { is_processing: true, ..*old(self) }),
    {
        if self.is_processing {
            Err(TimeLockError::OperationInProgress)
        } else {
            self.is_processing = true;
            Ok(())
        }
    }

    /// Like `start_operation`, but a refusal also reports who attempted the
    /// nested operation and when, as an audit record for the host to log.
    pub fn start_operation_with_monitoring(&mut self, caller: u64, vault_id: usize, now: i64)
        -> (r: Result<(), ReentrancyDetected>)
        ensures
            old(self).is_processing ==> r == Err::<(), ReentrancyDetected>(
                ReentrancyDetected { time_lock_account: vault_id, caller, timestamp: now },
            ) && *final(self) == *old(self),
            !old(self).is_processing ==> r == Ok::<(), ReentrancyDetected>(()) && *final(self)
                == (TimeLockAccount { is_processing: true, ..*old(self) }),
    {
        if self.is_processing {
            Err(ReentrancyDetected { time_lock_account: vault_id, caller, timestamp: now })
        } else {
            self.is_processing = true;
            Ok(())
        }
    }

    /// Releases the reentrancy guard.
    pub fn end_operation(&mut self)
        ensures
            *final(self) == (TimeLockAccount { is_processing: false, ..*old(self) }),
    {
        self.is_processing = false;
    }

    /// Whether the unlock time has been reached at `now`.
    pub fn is_unlocked(&self, now: i64) -> (r: bool)
        ensures
            r == (now >= self.unlock_timestamp),
    {
        now >= self.unlock_timestamp
    }

    /// The outcome of the withdrawal precondition checks at `now`:
    /// initialization first, then the time gate, then the balance.
    pub open spec fn validate_withdrawal_spec(self, now: i64) -> Result<(), TimeLockError> {
        if !self.is_initialized {
            Err(TimeLockError::NotInitialized)
        } else if now < self.unlock_timestamp {
            Err(TimeLockError::TimeLockNotExpired)
        } else if self.balance == 0 {
            Err(TimeLockError::InsufficientBalance)
        } else {
            Ok(())
        }
    }

    /// Checks the withdrawal preconditions against this record and `now`,
    /// without touching any state.
    pub fn validate_sol_withdrawal(&self, now: i64) -> (r: Result<(), TimeLockError>)
        ensures
            r == self.validate_withdrawal_spec(now),
    {
        if !self.is_initialized {
            Err(TimeLockError::NotInitialized)
        } else if !self.is_unlocked(now) {
            Err(TimeLockError::TimeLockNotExpired)
        } else if self.balance == 0 {
            Err(TimeLockError::InsufficientBalance)
        } else {
            Ok(())
        }
    }
}

} // verus!
