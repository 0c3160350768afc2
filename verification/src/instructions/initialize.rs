//! Vault creation.

use vstd::prelude::*;

use crate::errors::TimeLockError;
use crate::events::TimeLockCreated;
use crate::registry::{lemma_at_rest_push, lemma_wf_vaults_push, vaults_at_rest, VaultRegistry};
use crate::state::{AssetType, TimeLockAccount};

verus! {

/// What `initialize` does to a store `s`: refuses an unlock time that is not
/// strictly in the future, and otherwise appends a fresh empty vault under
/// the next identity.
pub open spec fn initialize_spec(
    s: Seq<Option<TimeLockAccount>>,
    owner: u64,
    unlock_timestamp: i64,
    asset_type: AssetType,
    now: i64,
) -> (Seq<Option<TimeLockAccount>>, Result<TimeLockCreated, TimeLockError>) {
    if unlock_timestamp <= now {
        (s, Err(TimeLockError::InvalidTimestamp))
    } else {
        (
            s.push(Some(TimeLockAccount::new_spec(owner, unlock_timestamp, asset_type))),
            Ok(
                TimeLockCreated {
                    time_lock_account: s.len() as usize,
                    owner,
                    unlock_timestamp,
                    asset_type,
                    current_timestamp: now,
                },
            ),
        )
    }
}

/// Creates a vault for `owner` that unlocks at `unlock_timestamp`.
///
/// Fails `InvalidTimestamp`, creating nothing, when the unlock time is not
/// strictly later than `now`.  On success the new vault starts empty and at
/// rest, and the creation event reports its identity and `now`.
pub fn initialize(
    reg: &mut VaultRegistry,
    owner: u64,
    unlock_timestamp: i64,
    asset_type: AssetType,
    now: i64,
) -> (r: Result<TimeLockCreated, TimeLockError>)
    requires
        old(reg).wf(),
    ensures
        final(reg).wf(),
        (final(reg)@, r) == initialize_spec(old(reg)@, owner, unlock_timestamp, asset_type, now),
{
    if unlock_timestamp <= now {
        return Err(TimeLockError::InvalidTimestamp);
    }
    let v = TimeLockAccount::new(owner, unlock_timestamp, asset_type);
    proof {
        lemma_wf_vaults_push(reg@, v);
    }
    let id = reg.append(v);
    Ok(
        TimeLockCreated {
            time_lock_account: id,
            owner,
            unlock_timestamp,
            asset_type,
            current_timestamp: now,
        },
    )
}

/// Creation never leaves an operation in flight: a store at rest is at rest
/// again after `initialize`, whatever its outcome, and the new vault starts
/// at rest.
pub proof fn lemma_initialize_leaves_store_at_rest(
    s: Seq<Option<TimeLockAccount>>,
    owner: u64,
    unlock_timestamp: i64,
    asset_type: AssetType,
    now: i64,
)
    requires
        vaults_at_rest(s),
    ensures
        vaults_at_rest(initialize_spec(s, owner, unlock_timestamp, asset_type, now).0),
{
    if unlock_timestamp > now {
        lemma_at_rest_push(s, TimeLockAccount::new_spec(owner, unlock_timestamp, asset_type));
    }
}

/// An unlock time at or before `now` is always refused as `InvalidTimestamp`
/// and creates no vault, whatever the store holds.
pub proof fn lemma_initialize_rejects_past_unlock(
    s: Seq<Option<TimeLockAccount>>,
    owner: u64,
    unlock_timestamp: i64,
    asset_type: AssetType,
    now: i64,
)
    requires
        unlock_timestamp <= now,
    ensures
        initialize_spec(s, owner, unlock_timestamp, asset_type, now) == (
            s,
            Err::<TimeLockCreated, TimeLockError>(TimeLockError::InvalidTimestamp),
        ),
{
}

} // verus!
