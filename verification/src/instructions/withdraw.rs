//! Withdrawals: effect before interaction, with compensation.
//!
//! Unlike deposit, withdrawal zeroes the recorded balance before the host
//! moves the funds, so an adapter that re-enters during the transfer sees an
//! empty vault and cannot double-withdraw.  When the host then reports a
//! failed transfer, the balance is restored exactly and `TransferFailed` is
//! surfaced.

use vstd::prelude::*;

use crate::errors::TimeLockError;
use crate::events::WithdrawalEvent;
use crate::registry::{
    lemma_at_rest_update, lemma_wf_vaults_update, slot_of, vaults_at_rest, VaultRegistry,
};
use crate::state::{AssetType, TimeLockAccount};

verus! {

/// The precondition checks of a withdrawal, in the order they are made: an
/// uninitialized record, a mismatched asset kind, the time gate, an empty
/// vault, and an already held guard.
pub open spec fn withdraw_checks(v: TimeLockAccount, kind: AssetType, now: i64) -> Option<
    TimeLockError,
> {
    if !v.is_initialized {
        Some(TimeLockError::NotInitialized)
    } else if v.asset_type != kind {
        Some(TimeLockError::InvalidAssetType)
    } else if now < v.unlock_timestamp {
        Some(TimeLockError::TimeLockNotExpired)
    } else if v.balance == 0 {
        Some(TimeLockError::InsufficientBalance)
    } else if v.is_processing {
        Some(TimeLockError::OperationInProgress)
    } else {
        None
    }
}

/// What a withdrawal does to one vault record.  Success pays out the whole
/// balance and leaves the record empty; every failure, the compensated
/// transfer failure included, leaves the record exactly as it was.
pub open spec fn withdraw_transition(
    v: TimeLockAccount,
    kind: AssetType,
    now: i64,
    transfer_ok: bool,
) -> (TimeLockAccount, Result<u64, TimeLockError>) {
    match withdraw_checks(v, kind, now) {
        Some(e) => (v, Err(e)),
        None => if transfer_ok {
            ((TimeLockAccount { balance: 0, ..v }), Ok(v.balance))
        } else {
            (v, Err(TimeLockError::TransferFailed))
        },
    }
}

/// What a withdrawal does to the store: an unknown or destroyed identity is
/// `NotInitialized`; otherwise the vault record steps by
/// `withdraw_transition`.  On success the slot keeps the emptied record, or
/// is destroyed when `close_vault` asks for withdraw-and-close, and the
/// event reports the amount paid to the owner.
pub open spec fn withdraw_spec(
    s: Seq<Option<TimeLockAccount>>,
    id: usize,
    kind: AssetType,
    close_vault: bool,
    now: i64,
    transfer_ok: bool,
) -> (Seq<Option<TimeLockAccount>>, Result<WithdrawalEvent, TimeLockError>) {
    match slot_of(s, id) {
        None => (s, Err(TimeLockError::NotInitialized)),
        Some(v) => {
            let (v2, r) = withdraw_transition(v, kind, now, transfer_ok);
            match r {
                Ok(amount) => (
                    s.update(id as int, if close_vault { None } else { Some(v2) }),
                    Ok(
                        WithdrawalEvent {
                            time_lock_account: id,
                            owner: v.owner,
                            recipient: v.owner,
                            amount,
                            remaining_balance: 0,
                            timestamp: now,
                            asset_type: kind,
                        },
                    ),
                ),
                Err(e) => (s, Err(e)),
            }
        },
    }
}

/// Pays the whole balance of the vault at `id` out to its owner, once the
/// unlock time has passed.
///
/// Fails `NotInitialized` for an unknown or destroyed identity,
/// `InvalidAssetType` when the vault holds another kind of asset,
/// `TimeLockNotExpired` whenever `now` is before the unlock time,
/// `InsufficientBalance` on an empty vault, and `OperationInProgress` while
/// another operation is in flight.  The balance is zeroed before the host
/// moves the funds; when the host reports failure (`transfer_ok` false) the
/// balance is restored exactly and `TransferFailed` is surfaced, so every
/// failure leaves the store unchanged.  On success the vault is empty and
/// the event reports the amount, which equals the balance before the call.
pub fn withdraw(
    reg: &mut VaultRegistry,
    id: usize,
    kind: AssetType,
    now: i64,
    transfer_ok: bool,
) -> (r: Result<WithdrawalEvent, TimeLockError>)
    requires
        old(reg).wf(),
    ensures
        final(reg).wf(),
        (final(reg)@, r) == withdraw_spec(old(reg)@, id, kind, false, now, transfer_ok),
{
    let mut v = match reg.slot(id) {
        None => {
            return Err(TimeLockError::NotInitialized);
        },
        Some(v) => v,
    };
    let owner = v.owner;
    if !v.is_initialized {
        return Err(TimeLockError::NotInitialized);
    }
    if v.asset_type != kind {
        return Err(TimeLockError::InvalidAssetType);
    }
    match v.validate_sol_withdrawal(now) {
        Err(e) => {
            return Err(e);
        },
        Ok(()) => {},
    }
    match v.start_operation_with_monitoring(owner, id, now) {
        Err(_) => {
            return Err(TimeLockError::OperationInProgress);
        },
        Ok(()) => {},
    }
    let amount_to_transfer = v.balance;
    v.balance = 0;
    if !transfer_ok {
        // Compensation: the failed payout must not be reflected in the
        // recorded balance.
        v.balance = amount_to_transfer;
        v.end_operation();
        return Err(TimeLockError::TransferFailed);
    }
    v.end_operation();
    proof {
        lemma_wf_vaults_update(reg@, id, Some(v));
    }
    reg.put(id, v);
    Ok(
        WithdrawalEvent {
            time_lock_account: id,
            owner,
            recipient: owner,
            amount: amount_to_transfer,
            remaining_balance: 0,
            timestamp: now,
            asset_type: kind,
        },
    )
}

/// Withdraws the native balance of a native vault to its owner.
pub fn withdraw_sol(reg: &mut VaultRegistry, id: usize, now: i64, transfer_ok: bool) -> (r:
    Result<WithdrawalEvent, TimeLockError>)
    requires
        old(reg).wf(),
    ensures
        final(reg).wf(),
        (final(reg)@, r) == withdraw_spec(
            old(reg)@,
            id,
            AssetType::Native,
            false,
            now,
            transfer_ok,
        ),
{
    withdraw(reg, id, AssetType::Native, now, transfer_ok)
}

/// Withdraws the custodied tokens of a custodied vault to its owner.
pub fn withdraw_token(reg: &mut VaultRegistry, id: usize, now: i64, transfer_ok: bool) -> (r:
    Result<WithdrawalEvent, TimeLockError>)
    requires
        old(reg).wf(),
    ensures
        final(reg).wf(),
        (final(reg)@, r) == withdraw_spec(
            old(reg)@,
            id,
            AssetType::Custodied,
            false,
            now,
            transfer_ok,
        ),
{
    withdraw(reg, id, AssetType::Custodied, now, transfer_ok)
}

/// Withdraws the native balance to the owner and, on success, destroys the
/// emptied vault in the same operation.
pub fn withdraw_and_close_sol(reg: &mut VaultRegistry, id: usize, now: i64, transfer_ok: bool)
    -> (r: Result<WithdrawalEvent, TimeLockError>)
    requires
        old(reg).wf(),
    ensures
        final(reg).wf(),
        (final(reg)@, r) == withdraw_spec(old(reg)@, id, AssetType::Native, true, now, transfer_ok),
{
    let ghost s0 = reg@;
    let ev = match withdraw(reg, id, AssetType::Native, now, transfer_ok) {
        Err(e) => {
            return Err(e);
        },
        Ok(ev) => ev,
    };
    proof {
        lemma_wf_vaults_update(reg@, id, None);
        assert(s0.update(id as int, Some(withdraw_transition(s0[id as int].unwrap(),
            AssetType::Native, now, transfer_ok).0)).update(id as int, None) =~= s0.update(
            id as int, None));
    }
    reg.remove(id);
    Ok(ev)
}

/// Whenever `now` is before the unlock time, withdrawal fails
/// `TimeLockNotExpired` and changes nothing — independent of the balance, of
/// the guard, and of what the transfer adapter would have answered.
pub proof fn lemma_withdraw_time_gate(v: TimeLockAccount, kind: AssetType, now: i64,
    transfer_ok: bool)
    requires
        v.is_initialized,
        v.asset_type == kind,
        now < v.unlock_timestamp,
    ensures
        withdraw_transition(v, kind, now, transfer_ok) == (
            v,
            Err::<u64, TimeLockError>(TimeLockError::TimeLockNotExpired),
        ),
{
}

/// A successful withdrawal leaves the balance at zero and pays out exactly
/// the balance the vault held before it.
pub proof fn lemma_withdraw_conserves_balance(
    v: TimeLockAccount,
    kind: AssetType,
    now: i64,
    transfer_ok: bool,
)
    ensures
        ({
            let (v2, r) = withdraw_transition(v, kind, now, transfer_ok);
            r matches Ok(amount) ==> amount == v.balance && v2.balance == 0
        }),
{
}

/// A failed payout is fully compensated: the record after the refused
/// withdrawal is exactly the record before it.
pub proof fn lemma_withdraw_rollback(v: TimeLockAccount, kind: AssetType, now: i64)
    ensures
        withdraw_transition(v, kind, now, false).0 == v,
        withdraw_checks(v, kind, now) is None ==> withdraw_transition(v, kind, now, false).1
            == Err::<u64, TimeLockError>(TimeLockError::TransferFailed),
{
}

/// While the guard is held, a withdrawal whose earlier checks pass is
/// refused as `OperationInProgress` and changes nothing.
pub proof fn lemma_withdraw_nested_refused(
    v: TimeLockAccount,
    kind: AssetType,
    now: i64,
    transfer_ok: bool,
)
    requires
        v.is_processing,
        v.is_initialized,
        v.asset_type == kind,
        now >= v.unlock_timestamp,
        v.balance > 0,
    ensures
        withdraw_transition(v, kind, now, transfer_ok) == (
            v,
            Err::<u64, TimeLockError>(TimeLockError::OperationInProgress),
        ),
{
}

/// A withdrawal never leaves the guard held: a vault at rest is at rest
/// again after the operation, whatever its outcome.
pub proof fn lemma_withdraw_releases_guard(
    v: TimeLockAccount,
    kind: AssetType,
    now: i64,
    transfer_ok: bool,
)
    ensures
        withdraw_transition(v, kind, now, transfer_ok).0.is_processing == v.is_processing,
{
}

/// A withdrawal never touches the vault's identity: owner, unlock time,
/// asset kind, initialization and the custody reference are exactly what
/// they were.
pub proof fn lemma_withdraw_preserves_identity(
    v: TimeLockAccount,
    kind: AssetType,
    now: i64,
    transfer_ok: bool,
)
    ensures
        ({
            let v2 = withdraw_transition(v, kind, now, transfer_ok).0;
            &&& v2.owner == v.owner
            &&& v2.unlock_timestamp == v.unlock_timestamp
            &&& v2.asset_type == v.asset_type
            &&& v2.is_initialized == v.is_initialized
            &&& v2.custody_reference == v.custody_reference
        }),
{
}

/// A withdrawal leaves a store at rest again, whatever its outcome and
/// whether or not it destroys the emptied vault.
pub proof fn lemma_withdraw_leaves_store_at_rest(
    s: Seq<Option<TimeLockAccount>>,
    id: usize,
    kind: AssetType,
    close_vault: bool,
    now: i64,
    transfer_ok: bool,
)
    requires
        vaults_at_rest(s),
    ensures
        vaults_at_rest(withdraw_spec(s, id, kind, close_vault, now, transfer_ok).0),
{
    match slot_of(s, id) {
        None => {},
        Some(v) => {
            let (v2, r) = withdraw_transition(v, kind, now, transfer_ok);
            if r is Ok {
                lemma_at_rest_update(
                    s,
                    id,
                    if close_vault {
                        None
                    } else {
                        Some(v2)
                    },
                );
            }
        },
    }
}

} // verus!
