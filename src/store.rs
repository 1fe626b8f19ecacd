//! The pending-sanction store: records that bridge a command and the later
//! submission of its reason form, each consumed at most once and only within
//! its time to live.
use vstd::prelude::*;
use std::collections::HashMap;

use crate::sanction::SanctionKind;

verus! {

broadcast use vstd::std_specs::hash::group_hash_axioms;

/// Seconds a pending record stays consumable: the platform's interaction
/// validity window.
pub const PENDING_TTL_SECS: u64 = 900;

/// A sanction waiting for its reason, keyed by the id of the command interaction.
#[derive(Clone, Copy, Debug, PartialEq, Eq, Structural)]
pub struct PendingSanction {
    pub interaction_id: u64,
    pub kind: SanctionKind,
    pub target_id: u64,
    /// Creation time, in seconds.
    pub created_at: u64,
}

/// Why a store operation failed.
#[derive(Clone, Copy, Debug, PartialEq, Eq, Structural)]
pub enum StoreError {
    /// A live record already has this key: the event was delivered twice.
    AlreadyExists,
    /// No live record has this key: unknown, already consumed or expired.
    NotFound,
}

/// Whether `record` can still be consumed at time `now`.
pub open spec fn is_live(record: PendingSanction, now: u64) -> bool {
    now < record.created_at + PENDING_TTL_SECS
}

/// Whether `m` holds a record under `key` that is live at `now`.
pub open spec fn has_live(m: Map<u64, PendingSanction>, key: u64, now: u64) -> bool {
    m.contains_key(key) && is_live(m[key], now)
}

/// What `create` returns on the records `m`.
pub open spec fn create_result(m: Map<u64, PendingSanction>, key: u64, now: u64) -> Result<(), StoreError> {
    if has_live(m, key, now) {
        Err(StoreError::AlreadyExists)
    } else {
        Ok(())
    }
}

/// The records after `create` on `m`.
pub open spec fn after_create(
    m: Map<u64, PendingSanction>,
    key: u64,
    kind: SanctionKind,
    target_id: u64,
    now: u64,
) -> Map<u64, PendingSanction> {
    if has_live(m, key, now) {
        m
    } else {
        m.insert(key, PendingSanction { interaction_id: key, kind, target_id, created_at: now })
    }
}

/// What `consume` returns on the records `m`.
pub open spec fn consume_result(m: Map<u64, PendingSanction>, key: u64, now: u64) -> Result<PendingSanction, StoreError> {
    if has_live(m, key, now) {
        Ok(m[key])
    } else {
        Err(StoreError::NotFound)
    }
}

/// The records after `consume` on `m`: the key is gone, live or not.
pub open spec fn after_consume(m: Map<u64, PendingSanction>, key: u64) -> Map<u64, PendingSanction> {
    m.remove(key)
}

/// The records of the store, keyed by interaction id.
pub struct PendingSanctionStore {
    records: HashMap<u64, PendingSanction>,
}

impl View for PendingSanctionStore {
    type V = Map<u64, PendingSanction>;

    closed spec fn view(&self) -> Map<u64, PendingSanction> {
        self.records@
    }
}

impl PendingSanctionStore {
    /// Each record is stored under its own interaction id.
    pub open spec fn wf(&self) -> bool {
        forall|k: u64| #[trigger] self@.contains_key(k) ==> self@[k].interaction_id == k
    }

    /// An empty store.
    pub fn new() -> (r: PendingSanctionStore)
        ensures
            r.wf(),
            r@ == Map::<u64, PendingSanction>::empty(),
    {
        PendingSanctionStore { records: HashMap::new() }
    }

    /// Records a sanction waiting for its reason, created at `now`; fails
    /// when a live record already has the key.
    pub fn create(&mut self, key: u64, kind: SanctionKind, target_id: u64, now: u64) -> (r: Result<(), StoreError>)
        requires
            old(self).wf(),
        ensures
            final(self).wf(),
            r == create_result(old(self)@, key, now),
            final(self)@ == after_create(old(self)@, key, kind, target_id, now),
    {
        if self.live(key, now) {
            return Err(StoreError::AlreadyExists);
        }
        let record = PendingSanction { interaction_id: key, kind, target_id, created_at: now };
        self.records.insert(key, record);
        Ok(())
    }

    /// Takes out the record under `key` in one step; succeeds only when it is
    /// live at `now`.
    pub fn consume(&mut self, key: u64, now: u64) -> (r: Result<PendingSanction, StoreError>)
        requires
            old(self).wf(),
        ensures
            final(self).wf(),
            r == consume_result(old(self)@, key, now),
            final(self)@ == after_consume(old(self)@, key),
    {
        match self.records.remove(&key) {
            Some(record) => {
                if now < record.created_at || now - record.created_at < PENDING_TTL_SECS {
                    Ok(record)
                } else {
                    Err(StoreError::NotFound)
                }
            },
            None => Err(StoreError::NotFound),
        }
    }

    /// Whether a record under `key` is live at `now`.
    pub fn live(&self, key: u64, now: u64) -> (r: bool)
        ensures
            r == has_live(self@, key, now),
    {
        match self.records.get(&key) {
            Some(record) => now < record.created_at || now - record.created_at < PENDING_TTL_SECS,
            None => false,
        }
    }
}

/// Of two consumptions of one key, at most one returns the record: the first
/// does when the record is live, and the second finds nothing.
pub proof fn consume_at_most_once(m: Map<u64, PendingSanction>, key: u64, first: u64, second: u64)
    ensures
        consume_result(after_consume(m, key), key, second) == Err::<PendingSanction, StoreError>(StoreError::NotFound),
        has_live(m, key, first) ==> consume_result(m, key, first) == Ok::<PendingSanction, StoreError>(m[key]),
{
}

/// A record that `create` made at `created` and that was not consumed within its time to live
/// can no longer be consumed.
pub proof fn expired_record_is_unconsumable(
    m: Map<u64, PendingSanction>,
    key: u64,
    kind: SanctionKind,
    target_id: u64,
    created: u64,
    now: u64,
)
    requires
        create_result(m, key, created) is Ok,
        now >= created + PENDING_TTL_SECS,
    ensures
        consume_result(after_create(m, key, kind, target_id, created), key, now) == Err::<PendingSanction, StoreError>(StoreError::NotFound),
{
}

} // verus!
