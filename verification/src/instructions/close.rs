//! Closure: owner-initiated cleanup of an empty vault, and permissionless
//! forced cleanup long after expiry.

use vstd::prelude::*;

use crate::errors::TimeLockError;
use crate::events::{AccountClosed, CloseReason};
use crate::registry::{
    lemma_at_rest_update, lemma_wf_vaults_update, slot_of, vaults_at_rest, VaultRegistry,
};
use crate::state::{AssetType, TimeLockAccount, GRACE_PERIOD};

verus! {

/// The precondition checks of an owner-initiated closure, in the order they
/// are made: an uninitialized record, a mismatched asset kind, remaining
/// funds in the vault or (for custodied vaults) in the custody container,
/// and an already held guard.
pub open spec fn close_checks(
    v: TimeLockAccount,
    kind: AssetType,
    custody_balance: u64,
) -> Option<TimeLockError> {
    if !v.is_initialized {
        Some(TimeLockError::NotInitialized)
    } else if v.asset_type != kind {
        Some(TimeLockError::InvalidAssetType)
    } else if v.balance != 0 {
        Some(TimeLockError::AccountNotEmpty)
    } else if v.asset_type is Custodied && custody_balance != 0 {
        Some(TimeLockError::AccountNotEmpty)
    } else if v.is_processing {
        Some(TimeLockError::OperationInProgress)
    } else {
        None
    }
}

/// What an owner-initiated closure does to the store: every failure leaves
/// it unchanged; success destroys the slot and refunds the storage
/// collateral to the owner.
pub open spec fn close_spec(
    s: Seq<Option<TimeLockAccount>>,
    id: usize,
    kind: AssetType,
    custody_balance: u64,
    collateral_refund: u64,
    now: i64,
) -> (Seq<Option<TimeLockAccount>>, Result<AccountClosed, TimeLockError>) {
    match slot_of(s, id) {
        None => (s, Err(TimeLockError::NotInitialized)),
        Some(v) => match close_checks(v, kind, custody_balance) {
            Some(e) => (s, Err(e)),
            None => (
                s.update(id as int, None),
                Ok(
                    AccountClosed {
                        time_lock_account: id,
                        owner: v.owner,
                        recipient: v.owner,
                        collateral_refunded: collateral_refund,
                        timestamp: now,
                        reason: CloseReason::OwnerClosed,
                    },
                ),
            ),
        },
    }
}

/// Whether `now` is strictly past the unlock time plus the grace period,
/// measured without wrapping.
pub open spec fn grace_elapsed(unlock_timestamp: i64, now: i64) -> bool {
    now > unlock_timestamp + GRACE_PERIOD
}

/// How long past its unlock time a vault has sat at `now`, saturated at the
/// largest representable duration.
pub open spec fn overdue_spec(unlock_timestamp: i64, now: i64) -> i64 {
    if now - unlock_timestamp > i64::MAX {
        i64::MAX
    } else {
        (now - unlock_timestamp) as i64
    }
}

/// What a forced closure does to the store: it refuses until the grace
/// period after the unlock time has elapsed, and then destroys the slot
/// whatever the balance, crediting the storage collateral to the caller who
/// performed the cleanup.
pub open spec fn force_close_spec(
    s: Seq<Option<TimeLockAccount>>,
    id: usize,
    caller: u64,
    collateral_refund: u64,
    now: i64,
) -> (Seq<Option<TimeLockAccount>>, Result<AccountClosed, TimeLockError>) {
    match slot_of(s, id) {
        None => (s, Err(TimeLockError::NotInitialized)),
        Some(v) => if !v.is_initialized {
            (s, Err(TimeLockError::NotInitialized))
        } else if !grace_elapsed(v.unlock_timestamp, now) {
            (s, Err(TimeLockError::TimeLockNotExpired))
        } else if v.is_processing {
            (s, Err(TimeLockError::OperationInProgress))
        } else {
            (
                s.update(id as int, None),
                Ok(
                    AccountClosed {
                        time_lock_account: id,
                        owner: v.owner,
                        recipient: caller,
                        collateral_refunded: collateral_refund,
                        timestamp: now,
                        reason: CloseReason::ForceExpired {
                            overdue_seconds: overdue_spec(v.unlock_timestamp, now),
                        },
                    },
                ),
            )
        },
    }
}

/// Destroys the empty native vault at `id` and refunds its storage
/// collateral to the owner.
///
/// Fails `NotInitialized` for an unknown or destroyed identity,
/// `InvalidAssetType` for a custodied vault (whose container this entry
/// point cannot inspect), `AccountNotEmpty` whenever funds remain, and
/// `OperationInProgress` while another operation is in flight; every failure
/// leaves the store unchanged.
pub fn close_empty_account(
    reg: &mut VaultRegistry,
    id: usize,
    collateral_refund: u64,
    now: i64,
) -> (r: Result<AccountClosed, TimeLockError>)
    requires
        old(reg).wf(),
    ensures
        final(reg).wf(),
        (final(reg)@, r) == close_spec(old(reg)@, id, AssetType::Native, 0, collateral_refund, now),
{
    close_for_kind(reg, id, AssetType::Native, 0, collateral_refund, now)
}

/// Destroys the custodied vault at `id` once both the recorded balance and
/// its custody container (whose current holding the host reports as
/// `custody_balance`) are empty, and refunds the storage collateral to the
/// owner.
///
/// Fails `NotInitialized` for an unknown or destroyed identity,
/// `InvalidAssetType` for a native vault, `AccountNotEmpty` whenever the
/// vault or its container still holds funds, and `OperationInProgress` while
/// another operation is in flight; every failure leaves the store unchanged.
pub fn close_token_account(
    reg: &mut VaultRegistry,
    id: usize,
    custody_balance: u64,
    collateral_refund: u64,
    now: i64,
) -> (r: Result<AccountClosed, TimeLockError>)
    requires
        old(reg).wf(),
    ensures
        final(reg).wf(),
        (final(reg)@, r) == close_spec(
            old(reg)@,
            id,
            AssetType::Custodied,
            custody_balance,
            collateral_refund,
            now,
        ),
{
    close_for_kind(reg, id, AssetType::Custodied, custody_balance, collateral_refund, now)
}

/// The shared owner-initiated closure, parameterized over the asset kind the
/// entry point serves.
fn close_for_kind(
    reg: &mut VaultRegistry,
    id: usize,
    kind: AssetType,
    custody_balance: u64,
    collateral_refund: u64,
    now: i64,
) -> (r: Result<AccountClosed, TimeLockError>)
    requires
        old(reg).wf(),
    ensures
        final(reg).wf(),
        (final(reg)@, r) == close_spec(old(reg)@, id, kind, custody_balance, collateral_refund, now),
{
    let v = match reg.slot(id) {
        None => {
            return Err(TimeLockError::NotInitialized);
        },
        Some(v) => v,
    };
    if !v.is_initialized {
        return Err(TimeLockError::NotInitialized);
    }
    if v.asset_type != kind {
        return Err(TimeLockError::InvalidAssetType);
    }
    if v.balance != 0 {
        return Err(TimeLockError::AccountNotEmpty);
    }
    if v.asset_type == AssetType::Custodied && custody_balance != 0 {
        return Err(TimeLockError::AccountNotEmpty);
    }
    if v.is_processing {
        return Err(TimeLockError::OperationInProgress);
    }
    proof {
        lemma_wf_vaults_update(reg@, id, None);
    }
    reg.remove(id);
    Ok(
        AccountClosed {
            time_lock_account: id,
            owner: v.owner,
            recipient: v.owner,
            collateral_refunded: collateral_refund,
            timestamp: now,
            reason: CloseReason::OwnerClosed,
        },
    )
}

/// Destroys the vault at `id` once the grace period after its unlock time
/// has elapsed.  Anyone may call this; the storage collateral is credited to
/// `caller` as a cleanup incentive, not to the owner.
///
/// Fails `NotInitialized` for an unknown or destroyed identity,
/// `TimeLockNotExpired` unless `now` is strictly past the unlock time plus
/// the grace period, and `OperationInProgress` while another operation is in
/// flight; every failure leaves the store unchanged.  The closure event is
/// tagged as forced and reports how long past its unlock time the vault had
/// sat.
pub fn force_close_expired(
    reg: &mut VaultRegistry,
    id: usize,
    caller: u64,
    collateral_refund: u64,
    now: i64,
) -> (r: Result<AccountClosed, TimeLockError>)
    requires
        old(reg).wf(),
    ensures
        final(reg).wf(),
        (final(reg)@, r) == force_close_spec(old(reg)@, id, caller, collateral_refund, now),
{
    let v = match reg.slot(id) {
        None => {
            return Err(TimeLockError::NotInitialized);
        },
        Some(v) => v,
    };
    if !v.is_initialized {
        return Err(TimeLockError::NotInitialized);
    }
    if !(v.unlock_timestamp <= i64::MAX - GRACE_PERIOD && now > v.unlock_timestamp
        + GRACE_PERIOD) {
        return Err(TimeLockError::TimeLockNotExpired);
    }
    if v.is_processing {
        return Err(TimeLockError::OperationInProgress);
    }
    let wide_overdue: i128 = now as i128 - v.unlock_timestamp as i128;
    let overdue_seconds: i64 = if wide_overdue > i64::MAX as i128 {
        i64::MAX
    } else {
        wide_overdue as i64
    };
    proof {
        lemma_wf_vaults_update(reg@, id, None);
    }
    reg.remove(id);
    Ok(
        AccountClosed {
            time_lock_account: id,
            owner: v.owner,
            recipient: caller,
            collateral_refunded: collateral_refund,
            timestamp: now,
            reason: CloseReason::ForceExpired { overdue_seconds },
        },
    )
}

/// Owner-initiated closure fails `AccountNotEmpty` whenever funds remain,
/// and succeeds and destroys the vault when the vault (and, for a custodied
/// vault, its container) is empty and at rest.
pub proof fn lemma_close_only_when_empty(
    s: Seq<Option<TimeLockAccount>>,
    id: usize,
    kind: AssetType,
    custody_balance: u64,
    collateral_refund: u64,
    now: i64,
)
    requires
        slot_of(s, id) matches Some(v) && v.is_initialized && v.asset_type == kind,
    ensures
        ({
            let v = slot_of(s, id).unwrap();
            let (s2, r) = close_spec(s, id, kind, custody_balance, collateral_refund, now);
            &&& v.balance != 0 ==> r == Err::<AccountClosed, TimeLockError>(
                TimeLockError::AccountNotEmpty,
            ) && s2 == s
            &&& v.balance == 0 && (v.asset_type is Custodied ==> custody_balance == 0)
                && !v.is_processing ==> r is Ok && slot_of(s2, id) is None
        }),
{
    let v = slot_of(s, id).unwrap();
    if v.balance == 0 && (v.asset_type is Custodied ==> custody_balance == 0)
        && !v.is_processing {
        assert(slot_of(s.update(id as int, None), id) is None);
    }
}

/// While the guard is held, a closure whose earlier checks pass is refused
/// as `OperationInProgress` and changes nothing; the same holds for a
/// forced closure past its grace period.
pub proof fn lemma_close_nested_refused(
    s: Seq<Option<TimeLockAccount>>,
    id: usize,
    kind: AssetType,
    caller: u64,
    collateral_refund: u64,
    now: i64,
)
    requires
        slot_of(s, id) matches Some(v) && v.is_initialized && v.is_processing,
    ensures
        ({
            let v = slot_of(s, id).unwrap();
            v.asset_type == kind && v.balance == 0 ==> close_spec(
                s,
                id,
                kind,
                0,
                collateral_refund,
                now,
            ) == (
                s,
                Err::<AccountClosed, TimeLockError>(TimeLockError::OperationInProgress),
            )
        }),
        ({
            let v = slot_of(s, id).unwrap();
            grace_elapsed(v.unlock_timestamp, now) ==> force_close_spec(
                s,
                id,
                caller,
                collateral_refund,
                now,
            ) == (s, Err::<AccountClosed, TimeLockError>(TimeLockError::OperationInProgress))
        }),
{
}

/// Closure leaves a store at rest again, whatever its outcome: a destroyed
/// slot holds no operation, and a refusal changes nothing.
pub proof fn lemma_close_leaves_store_at_rest(
    s: Seq<Option<TimeLockAccount>>,
    id: usize,
    kind: AssetType,
    custody_balance: u64,
    caller: u64,
    collateral_refund: u64,
    now: i64,
)
    requires
        vaults_at_rest(s),
    ensures
        vaults_at_rest(close_spec(s, id, kind, custody_balance, collateral_refund, now).0),
        vaults_at_rest(force_close_spec(s, id, caller, collateral_refund, now).0),
{
    match slot_of(s, id) {
        None => {},
        Some(v) => {
            if close_spec(s, id, kind, custody_balance, collateral_refund, now).1 is Ok
                || force_close_spec(s, id, caller, collateral_refund, now).1 is Ok {
                lemma_at_rest_update(s, id, None);
            }
        },
    }
}

/// Forced closure fails `TimeLockNotExpired` until the grace period after
/// the unlock time has elapsed — whatever the balance and whoever calls —
/// and once it succeeds, the collateral is credited to the caller, not the
/// owner, and the vault is destroyed.
pub proof fn lemma_force_close_grace(
    s: Seq<Option<TimeLockAccount>>,
    id: usize,
    caller: u64,
    collateral_refund: u64,
    now: i64,
)
    requires
        slot_of(s, id) matches Some(v) && v.is_initialized,
    ensures
        ({
            let v = slot_of(s, id).unwrap();
            let (s2, r) = force_close_spec(s, id, caller, collateral_refund, now);
            &&& now <= v.unlock_timestamp + GRACE_PERIOD ==> r == Err::<
                AccountClosed,
                TimeLockError,
            >(TimeLockError::TimeLockNotExpired) && s2 == s
            &&& r matches Ok(ev) ==> ev.recipient == caller && ev.reason is ForceExpired
                && slot_of(s2, id) is None
        }),
{
    let v = slot_of(s, id).unwrap();
    let (s2, r) = force_close_spec(s, id, caller, collateral_refund, now);
    if r is Ok {
        assert(slot_of(s.update(id as int, None), id) is None);
    }
}

} // verus!
