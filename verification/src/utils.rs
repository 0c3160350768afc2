//! Read-only views of a vault for clients.

use vstd::prelude::*;

use crate::errors::TimeLockError;
use crate::registry::{slot_of, VaultRegistry};
use crate::state::{AssetType, TimeLockAccount};

verus! {

/// Whether the vault's unlock time has been reached at `now`.
pub fn is_withdrawal_available(time_lock_account: &TimeLockAccount, now: i64) -> (r: bool)
    ensures
        r == (now >= time_lock_account.unlock_timestamp),
{
    now >= time_lock_account.unlock_timestamp
}

/// The signed distance from `now` to the unlock time: positive while the
/// vault is still locked, negative once the unlock time has passed,
/// saturated at the ends of the representable range.
pub open spec fn time_distance_spec(unlock_timestamp: i64, now: i64) -> i64 {
    if unlock_timestamp - now > i64::MAX {
        i64::MAX
    } else if unlock_timestamp - now < i64::MIN {
        i64::MIN
    } else {
        (unlock_timestamp - now) as i64
    }
}

/// Seconds until the vault unlocks, negative once it already has; saturated
/// at the ends of the representable range.
pub fn get_time_remaining(time_lock_account: &TimeLockAccount, now: i64) -> (r: i64)
    ensures
        r == time_distance_spec(time_lock_account.unlock_timestamp, now),
{
    let wide: i128 = time_lock_account.unlock_timestamp as i128 - now as i128;
    if wide > i64::MAX as i128 {
        i64::MAX
    } else if wide < i64::MIN as i128 {
        i64::MIN
    } else {
        wide as i64
    }
}

/// A snapshot of one vault for clients: its fixed parameters, its balance,
/// and the state of its time gate at the moment of the query.
#[derive(Clone, Copy, Debug, PartialEq, Eq)]
pub struct WalletInfo {
    pub owner: u64,
    pub unlock_timestamp: i64,
    pub asset_type: AssetType,
    pub amount: u64,
    pub custody_reference: Option<u64>,
    pub is_unlocked: bool,
    pub time_remaining: i64,
}

/// The snapshot `get_wallet_info` reports for a record `v` at `now`:
/// `time_remaining` is the seconds still to wait, zero once unlocked.
pub open spec fn wallet_info_spec(v: TimeLockAccount, now: i64) -> WalletInfo {
    WalletInfo {
        owner: v.owner,
        unlock_timestamp: v.unlock_timestamp,
        asset_type: v.asset_type,
        amount: v.balance,
        custody_reference: v.custody_reference,
        is_unlocked: now >= v.unlock_timestamp,
        time_remaining: if now >= v.unlock_timestamp {
            0
        } else {
            time_distance_spec(v.unlock_timestamp, now)
        },
    }
}

/// Reports a snapshot of the vault at `id` without modifying any state.
/// Fails `NotInitialized` for an unknown or destroyed identity.
pub fn get_wallet_info(reg: &VaultRegistry, id: usize, now: i64) -> (r: Result<
    WalletInfo,
    TimeLockError,
>)
    ensures
        r matches Ok(info) ==> slot_of(reg@, id) matches Some(v) && info == wallet_info_spec(
            v,
            now,
        ),
        r is Err ==> r == Err::<WalletInfo, TimeLockError>(TimeLockError::NotInitialized)
            && slot_of(reg@, id) is None,
{
    let v = match reg.slot(id) {
        None => {
            return Err(TimeLockError::NotInitialized);
        },
        Some(v) => v,
    };
    let time_remaining: i64 = if v.is_unlocked(now) {
        0
    } else {
        get_time_remaining(&v, now)
    };
    Ok(
        WalletInfo {
            owner: v.owner,
            unlock_timestamp: v.unlock_timestamp,
            asset_type: v.asset_type,
            amount: v.balance,
            custody_reference: v.custody_reference,
            is_unlocked: now >= v.unlock_timestamp,
            time_remaining,
        },
    )
}

} // verus!
