//! Deposits: interaction before effect.
//!
//! The host executes the inbound transfer after the checks pass and before
//! the balance moves, so a failed transfer is never reflected in the
//! recorded balance.  The adapter's outcome reaches the library as
//! `transfer_ok`.

use vstd::prelude::*;

use crate::errors::TimeLockError;
use crate::events::DepositEvent;
use crate::registry::{
    lemma_at_rest_update, lemma_wf_vaults_update, slot_of, vaults_at_rest, VaultRegistry,
};
use crate::state::{AssetType, TimeLockAccount};

verus! {

/// The precondition checks of a deposit, in the order they are made: a zero
/// amount, an uninitialized record, a mismatched asset kind, and an already
/// held guard.
pub open spec fn deposit_checks(v: TimeLockAccount, kind: AssetType, amount: u64) -> Option<
    TimeLockError,
> {
    if amount == 0 {
        Some(TimeLockError::InvalidAmount)
    } else if !v.is_initialized {
        Some(TimeLockError::NotInitialized)
    } else if v.asset_type != kind {
        Some(TimeLockError::InvalidAssetType)
    } else if v.is_processing {
        Some(TimeLockError::OperationInProgress)
    } else {
        None
    }
}

/// What a deposit does to one vault record.  Every failure leaves the record
/// exactly as it was; success credits `amount` and, for the first deposit
/// into a custodied vault, pins the custody container.
pub open spec fn deposit_transition(
    v: TimeLockAccount,
    kind: AssetType,
    custody: u64,
    amount: u64,
    transfer_ok: bool,
) -> (TimeLockAccount, Result<u64, TimeLockError>) {
    match deposit_checks(v, kind, amount) {
        Some(e) => (v, Err(e)),
        None => if !transfer_ok {
            (v, Err(TimeLockError::TransferFailed))
        } else if v.balance + amount > u64::MAX {
            (v, Err(TimeLockError::ArithmeticOverflow))
        } else {
            let new_balance = (v.balance + amount) as u64;
            let custody_reference = if kind is Custodied && v.custody_reference is None {
                Some(custody)
            } else {
                v.custody_reference
            };
            (
                (TimeLockAccount { balance: new_balance, custody_reference, ..v }),
                Ok(new_balance),
            )
        },
    }
}

/// What a deposit does to the store: an unknown or destroyed identity is
/// `NotInitialized`; otherwise the vault record steps by
/// `deposit_transition`, and success reports the credited balance in a
/// deposit event.
pub open spec fn deposit_spec(
    s: Seq<Option<TimeLockAccount>>,
    id: usize,
    kind: AssetType,
    custody: u64,
    amount: u64,
    transfer_ok: bool,
    now: i64,
) -> (Seq<Option<TimeLockAccount>>, Result<DepositEvent, TimeLockError>) {
    match slot_of(s, id) {
        None => (s, Err(TimeLockError::NotInitialized)),
        Some(v) => {
            let (v2, r) = deposit_transition(v, kind, custody, amount, transfer_ok);
            match r {
                Ok(new_balance) => (
                    s.update(id as int, Some(v2)),
                    Ok(
                        DepositEvent {
                            time_lock_account: id,
                            depositor: v.owner,
                            amount,
                            new_balance,
                            timestamp: now,
                            asset_type: kind,
                        },
                    ),
                ),
                Err(e) => (s, Err(e)),
            }
        },
    }
}

/// Credits `amount` to the vault at `id`, after the host's inbound transfer
/// reported `transfer_ok`.
///
/// Fails `InvalidAmount` on a zero amount, `NotInitialized` for an unknown
/// or destroyed identity, `InvalidAssetType` when the vault holds another
/// kind of asset, `OperationInProgress` while another operation is in
/// flight, `TransferFailed` when the host's transfer failed, and
/// `ArithmeticOverflow` when crediting would overflow; every failure leaves
/// the store unchanged.  On success the balance grows by exactly `amount`, a
/// custodied vault's first deposit pins `custody` as its container, and the
/// event reports the new balance.
pub fn deposit(
    reg: &mut VaultRegistry,
    id: usize,
    kind: AssetType,
    custody: u64,
    amount: u64,
    transfer_ok: bool,
    now: i64,
) -> (r: Result<DepositEvent, TimeLockError>)
    requires
        old(reg).wf(),
    ensures
        final(reg).wf(),
        (final(reg)@, r) == deposit_spec(old(reg)@, id, kind, custody, amount, transfer_ok, now),
{
    let mut v = match reg.slot(id) {
        None => {
            return Err(TimeLockError::NotInitialized);
        },
        Some(v) => v,
    };
    let owner = v.owner;
    if amount == 0 {
        return Err(TimeLockError::InvalidAmount);
    }
    if !v.is_initialized {
        return Err(TimeLockError::NotInitialized);
    }
    if v.asset_type != kind {
        return Err(TimeLockError::InvalidAssetType);
    }
    match v.start_operation() {
        Err(e) => {
            return Err(e);
        },
        Ok(()) => {},
    }
    if !transfer_ok {
        v.end_operation();
        return Err(TimeLockError::TransferFailed);
    }
    if amount > u64::MAX - v.balance {
        v.end_operation();
        return Err(TimeLockError::ArithmeticOverflow);
    }
    let new_balance = v.balance + amount;
    v.balance = new_balance;
    if kind == AssetType::Custodied && v.custody_reference.is_none() {
        v.custody_reference = Some(custody);
    }
    v.end_operation();
    proof {
        lemma_wf_vaults_update(reg@, id, Some(v));
    }
    reg.put(id, v);
    Ok(
        DepositEvent {
            time_lock_account: id,
            depositor: owner,
            amount,
            new_balance,
            timestamp: now,
            asset_type: kind,
        },
    )
}

/// Credits a deposit of the native currency to a native vault.
pub fn deposit_sol(
    reg: &mut VaultRegistry,
    id: usize,
    amount: u64,
    transfer_ok: bool,
    now: i64,
) -> (r: Result<DepositEvent, TimeLockError>)
    requires
        old(reg).wf(),
    ensures
        final(reg).wf(),
        (final(reg)@, r) == deposit_spec(
            old(reg)@,
            id,
            AssetType::Native,
            0,
            amount,
            transfer_ok,
            now,
        ),
{
    deposit(reg, id, AssetType::Native, 0, amount, transfer_ok, now)
}

/// Credits a deposit of custodied tokens to a custodied vault; `custody`
/// names the container the host moved the tokens into.
pub fn deposit_token(
    reg: &mut VaultRegistry,
    id: usize,
    custody: u64,
    amount: u64,
    transfer_ok: bool,
    now: i64,
) -> (r: Result<DepositEvent, TimeLockError>)
    requires
        old(reg).wf(),
    ensures
        final(reg).wf(),
        (final(reg)@, r) == deposit_spec(
            old(reg)@,
            id,
            AssetType::Custodied,
            custody,
            amount,
            transfer_ok,
            now,
        ),
{
    deposit(reg, id, AssetType::Custodied, custody, amount, transfer_ok, now)
}

/// A zero deposit is always refused as `InvalidAmount` and never changes the
/// record, whatever its state and whatever the transfer adapter would have
/// answered.
pub proof fn lemma_deposit_zero_amount(
    v: TimeLockAccount,
    kind: AssetType,
    custody: u64,
    transfer_ok: bool,
)
    ensures
        deposit_transition(v, kind, custody, 0, transfer_ok) == (
            v,
            Err::<u64, TimeLockError>(TimeLockError::InvalidAmount),
        ),
{
}

/// While the guard is held, a deposit whose input checks pass is refused as
/// `OperationInProgress` and changes nothing.
pub proof fn lemma_deposit_nested_refused(
    v: TimeLockAccount,
    kind: AssetType,
    custody: u64,
    amount: u64,
    transfer_ok: bool,
)
    requires
        v.is_processing,
        amount > 0,
        v.is_initialized,
        v.asset_type == kind,
    ensures
        deposit_transition(v, kind, custody, amount, transfer_ok) == (
            v,
            Err::<u64, TimeLockError>(TimeLockError::OperationInProgress),
        ),
{
}

/// A deposit never leaves the guard held: a vault at rest is at rest again
/// after the operation, whatever its outcome.
pub proof fn lemma_deposit_releases_guard(
    v: TimeLockAccount,
    kind: AssetType,
    custody: u64,
    amount: u64,
    transfer_ok: bool,
)
    ensures
        deposit_transition(v, kind, custody, amount, transfer_ok).0.is_processing
            == v.is_processing,
{
}

/// A deposit never touches the vault's identity: owner, unlock time, asset
/// kind and initialization are exactly what they were, and a custody
/// container, once pinned, is never re-pinned.
pub proof fn lemma_deposit_preserves_identity(
    v: TimeLockAccount,
    kind: AssetType,
    custody: u64,
    amount: u64,
    transfer_ok: bool,
)
    ensures
        ({
            let v2 = deposit_transition(v, kind, custody, amount, transfer_ok).0;
            &&& v2.owner == v.owner
            &&& v2.unlock_timestamp == v.unlock_timestamp
            &&& v2.asset_type == v.asset_type
            &&& v2.is_initialized == v.is_initialized
            &&& v.custody_reference matches Some(c) ==> v2.custody_reference == Some(c)
        }),
{
}

/// A deposit leaves a store at rest again, whatever its outcome.
pub proof fn lemma_deposit_leaves_store_at_rest(
    s: Seq<Option<TimeLockAccount>>,
    id: usize,
    kind: AssetType,
    custody: u64,
    amount: u64,
    transfer_ok: bool,
    now: i64,
)
    requires
        vaults_at_rest(s),
    ensures
        vaults_at_rest(deposit_spec(s, id, kind, custody, amount, transfer_ok, now).0),
{
    match slot_of(s, id) {
        None => {},
        Some(v) => {
            let (v2, r) = deposit_transition(v, kind, custody, amount, transfer_ok);
            if r is Ok {
                lemma_at_rest_update(s, id, Some(v2));
            }
        },
    }
}

/// Sequential deposits of `a` then `b` into an empty vault at rest yield a
/// balance of exactly `a + b` when that sum is representable; when it is
/// not, the second deposit fails `ArithmeticOverflow` and leaves the balance
/// at `a`.
pub proof fn lemma_sequential_deposits(
    v: TimeLockAccount,
    kind: AssetType,
    custody: u64,
    a: u64,
    b: u64,
)
    requires
        v.is_initialized,
        !v.is_processing,
        v.asset_type == kind,
        v.balance == 0,
        a > 0,
        b > 0,
    ensures
        ({
            let (v1, r1) = deposit_transition(v, kind, custody, a, true);
            let (v2, r2) = deposit_transition(v1, kind, custody, b, true);
            &&& r1 == Ok::<u64, TimeLockError>(a)
            &&& a + b <= u64::MAX ==> r2 == Ok::<u64, TimeLockError>((a + b) as u64)
                && v2.balance == a + b
            &&& a + b > u64::MAX ==> r2 == Err::<u64, TimeLockError>(
                TimeLockError::ArithmeticOverflow,
            ) && v2.balance == a
        }),
{
}

} // verus!
