//! The store of vault records.
//!
//! A vault's identity is its slot index.  Creation appends a slot, closure
//! empties it, and an emptied slot is never reused, so a destroyed identity
//! can never be the target of a later operation.

use vstd::prelude::*;

use crate::state::TimeLockAccount;

verus! {

/// The record at `id` in a store `s`, or `None` when `id` was never issued
/// or the vault was destroyed.
pub open spec fn slot_of(s: Seq<Option<TimeLockAccount>>, id: usize) -> Option<TimeLockAccount> {
    if id < s.len() {
        s[id as int]
    } else {
        None
    }
}

/// Every live record in `s` is well-formed.
pub open spec fn wf_vaults(s: Seq<Option<TimeLockAccount>>) -> bool {
    forall|i: int| 0 <= i < s.len() ==> (#[trigger] s[i] matches Some(v) ==> v.wf())
}

/// Every live record in `s` is at rest: no operation is in flight on it.
pub open spec fn vaults_at_rest(s: Seq<Option<TimeLockAccount>>) -> bool {
    forall|i: int| 0 <= i < s.len() ==> (#[trigger] s[i] matches Some(v) ==> !v.is_processing)
}

/// The store of vault records, viewed as the sequence of its slots.
pub struct VaultRegistry {
    vaults: Vec<Option<TimeLockAccount>>,
}

impl View for VaultRegistry {
    type V = Seq<Option<TimeLockAccount>>;

    closed spec fn view(&self) -> Seq<Option<TimeLockAccount>> {
        self.vaults@
    }
}

impl VaultRegistry {
    /// Every live record is well-formed.
    pub open spec fn wf(&self) -> bool {
        wf_vaults(self@)
    }

    /// An empty store.
    pub fn new() -> (r: VaultRegistry)
        ensures
            r@.len() == 0,
            r.wf(),
    {
        VaultRegistry { vaults: Vec::new() }
    }

    /// How many identities have ever been issued, live or destroyed.
    pub fn vault_count(&self) -> (n: usize)
        ensures
            n == self@.len(),
    {
        self.vaults.len()
    }

    /// Reads the record at `id`, or `None` when no live vault has that
    /// identity.
    pub fn slot(&self, id: usize) -> (r: Option<TimeLockAccount>)
        ensures
            r == slot_of(self@, id),
    {
        if id < self.vaults.len() {
            self.vaults[id]
        } else {
            None
        }
    }

    /// Issues the next identity to `v` and stores it.
    pub fn append(&mut self, v: TimeLockAccount) -> (id: usize)
        ensures
            final(self)@ == old(self)@.push(Some(v)),
            id == old(self)@.len(),
    {
        let id = self.vaults.len();
        self.vaults.push(Some(v));
        id
    }

    /// Replaces the record at `id`.
    pub fn put(&mut self, id: usize, v: TimeLockAccount)
        requires
            id < old(self)@.len(),
        ensures
            final(self)@ == old(self)@.update(id as int, Some(v)),
    {
        self.vaults.set(id, Some(v));
    }

    /// Destroys the vault at `id`; the slot stays empty forever.
    pub fn remove(&mut self, id: usize)
        requires
            id < old(self)@.len(),
        ensures
            final(self)@ == old(self)@.update(id as int, None),
    {
        self.vaults.set(id, None);
    }
}

/// Appending a well-formed record keeps the store well-formed.
pub proof fn lemma_wf_vaults_push(s: Seq<Option<TimeLockAccount>>, v: TimeLockAccount)
    requires
        wf_vaults(s),
        v.wf(),
    ensures
        wf_vaults(s.push(Some(v))),
{
    let s2 = s.push(Some(v));
    assert forall|i: int| 0 <= i < s2.len() implies (#[trigger] s2[i] matches Some(w) ==> w.wf())
    by {
        if i < s.len() {
            assert(s2[i] == s[i]);
        }
    }
}

/// Appending a record at rest keeps the store at rest.
pub proof fn lemma_at_rest_push(s: Seq<Option<TimeLockAccount>>, v: TimeLockAccount)
    requires
        vaults_at_rest(s),
        !v.is_processing,
    ensures
        vaults_at_rest(s.push(Some(v))),
{
    let s2 = s.push(Some(v));
    assert forall|i: int| 0 <= i < s2.len() implies (#[trigger] s2[i] matches Some(w)
        ==> !w.is_processing) by {
        if i < s.len() {
            assert(s2[i] == s[i]);
        }
    }
}

/// Replacing a slot with a record at rest, or emptying it, keeps the store
/// at rest.
pub proof fn lemma_at_rest_update(
    s: Seq<Option<TimeLockAccount>>,
    id: usize,
    slot: Option<TimeLockAccount>,
)
    requires
        vaults_at_rest(s),
        id < s.len(),
        slot matches Some(v) ==> !v.is_processing,
    ensures
        vaults_at_rest(s.update(id as int, slot)),
{
    let s2 = s.update(id as int, slot);
    assert forall|i: int| 0 <= i < s2.len() implies (#[trigger] s2[i] matches Some(w)
        ==> !w.is_processing) by {
        if i != id {
            assert(s2[i] == s[i]);
        }
    }
}

/// Replacing a slot with a well-formed record, or emptying it, keeps the
/// store well-formed.
pub proof fn lemma_wf_vaults_update(
    s: Seq<Option<TimeLockAccount>>,
    id: usize,
    slot: Option<TimeLockAccount>,
)
    requires
        wf_vaults(s),
        id < s.len(),
        slot matches Some(v) ==> v.wf(),
    ensures
        wf_vaults(s.update(id as int, slot)),
{
    let s2 = s.update(id as int, slot);
    assert forall|i: int| 0 <= i < s2.len() implies (#[trigger] s2[i] matches Some(w) ==> w.wf())
    by {
        if i != id {
            assert(s2[i] == s[i]);
        }
    }
}

} // verus!
