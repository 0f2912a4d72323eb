//! The ephemeral keyed state store: what the handshake keeps between requests, its
//! model, and an in-memory store with time-to-live semantics.

use vstd::prelude::*;
use crate::schemas::{CliAuthState, CliSessionData};

verus! {

/// A record kept in the store.
#[derive(Debug, Clone, PartialEq, Eq)]
pub enum StoredValue {
    /// A pending authorization request, under a state key.
    AuthState(CliAuthState),
    /// The subject that completed a login, under a pointer key.
    Pointer(String),
    /// A subject's session, under a session key.
    Session(CliSessionData),
}

impl StoredValue {
    /// A copy of this value.
    pub fn copy(&self) -> (r: Self)
        ensures
            r == *self,
    {
        match self {
            StoredValue::AuthState(s) => StoredValue::AuthState(s.copy()),
            StoredValue::Pointer(p) => StoredValue::Pointer(p.clone()),
            StoredValue::Session(s) => StoredValue::Session(s.copy()),
        }
    }
}

/// A change to the store that a step of the handshake asks for.
#[derive(Debug, Clone, PartialEq, Eq)]
pub enum StoreOp {
    /// Store `value` under `key`, to expire `ttl` seconds from now.
    Put { key: String, value: StoredValue, ttl: u64 },
    /// Remove whatever is stored under `key`.
    Delete { key: String },
}

/// What the store holds at one instant: the live entries, by key.
pub type StoreModel = Map<Seq<char>, StoredValue>;

/// The store after one change.
pub open spec fn apply_op(m: StoreModel, op: StoreOp) -> StoreModel {
    match op {
        StoreOp::Put { key, value, .. } => m.insert(key@, value),
        StoreOp::Delete { key } => m.remove(key@),
    }
}

/// The store after a sequence of changes, made in order.
pub open spec fn apply_ops(m: StoreModel, ops: Seq<StoreOp>) -> StoreModel
    decreases ops.len(),
{
    if ops.len() == 0 {
        m
    } else {
        apply_op(apply_ops(m, ops.drop_last()), ops.last())
    }
}

/// `op` stores `value` under `k` for `ttl` seconds.
pub open spec fn puts(op: StoreOp, k: Seq<char>, value: StoredValue, ttl: u64) -> bool {
    match op {
        StoreOp::Put { key, value: v, ttl: t } => key@ == k && v == value && t == ttl,
        StoreOp::Delete { .. } => false,
    }
}

/// `op` removes what is stored under `k`.
pub open spec fn deletes(op: StoreOp, k: Seq<char>) -> bool {
    match op {
        StoreOp::Put { .. } => false,
        StoreOp::Delete { key } => key@ == k,
    }
}

/// Two changes made in order.
pub proof fn lemma_apply_two(m: StoreModel, ops: Seq<StoreOp>)
    requires
        ops.len() == 2,
    ensures
        apply_ops(m, ops) == apply_op(apply_op(m, ops[0]), ops[1]),
{
    let first = ops.drop_last();
    assert(first.drop_last() =~= Seq::<StoreOp>::empty());
    assert(first.last() == ops[0]);
    assert(apply_ops(m, first.drop_last()) == m);
    assert(apply_ops(m, first) == apply_op(m, ops[0]));
}

/// One write to the in-memory store; `None` records a deletion.
pub struct StoreEntry {
    pub key: String,
    pub value: Option<StoredValue>,
    /// Last instant, in seconds, at which the entry can be read.
    pub expires_at: u64,
}

/// The value under `k` at instant `now`: the latest write to `k` decides.
pub open spec fn entry_lookup(s: Seq<StoreEntry>, k: Seq<char>, now: u64) -> Option<StoredValue>
    decreases s.len(),
{
    if s.len() == 0 {
        None
    } else if s.last().key@ == k {
        if now <= s.last().expires_at {
            s.last().value
        } else {
            None
        }
    } else {
        entry_lookup(s.drop_last(), k, now)
    }
}

/// The last instant at which a value written at `now` with time-to-live `ttl` is live.
pub open spec fn expiry(now: u64, ttl: u64) -> u64 {
    if now + ttl <= u64::MAX {
        (now + ttl) as u64
    } else {
        u64::MAX
    }
}

/// An in-memory store with time-to-live semantics. Time is given by the caller, in
/// seconds. A value put with time-to-live `t` at instant `now` can be read up to
/// `now + t` and is absent after.
pub struct MemoryStore {
    entries: Vec<StoreEntry>,
}

impl MemoryStore {
    /// The value under `k` at instant `now`.
    pub closed spec fn value_at(&self, k: Seq<char>, now: u64) -> Option<StoredValue> {
        entry_lookup(self.entries@, k, now)
    }

    /// What the store holds at instant `now`.
    pub open spec fn view_at(&self, now: u64) -> StoreModel {
        Map::new(
            |k: Seq<char>| self.value_at(k, now) is Some,
            |k: Seq<char>| self.value_at(k, now)->0,
        )
    }

    /// An empty store.
    pub fn new() -> (r: Self)
        ensures
            forall|k: Seq<char>, t: u64| #[trigger] r.value_at(k, t) is None,
            forall|t: u64| r.view_at(t) == StoreModel::empty(),
    {
        let r = MemoryStore { entries: Vec::new() };
        assert forall|t: u64| r.view_at(t) == StoreModel::empty() by {
            assert(r.view_at(t) =~= StoreModel::empty());
        }
        r
    }

    /// Stores `value` under `key` at instant `now`, to expire `ttl` seconds later.
    pub fn put(&mut self, key: String, value: StoredValue, ttl: u64, now: u64)
        ensures
            forall|k: Seq<char>, t: u64|
                k != key@ ==> #[trigger] final(self).value_at(k, t) == old(self).value_at(k, t),
            forall|t: u64|
                t <= expiry(now, ttl) ==> #[trigger] final(self).value_at(key@, t) == Some(value),
            forall|t: u64| t > expiry(now, ttl) ==> (#[trigger] final(self).value_at(key@, t)) is None,
            final(self).view_at(now) == old(self).view_at(now).insert(key@, value),
    {
        let expires_at = if ttl <= u64::MAX - now {
            now + ttl
        } else {
            u64::MAX
        };
        let ghost k0 = key@;
        self.entries.push(StoreEntry { key, value: Some(value), expires_at });
        assert(self.entries@.drop_last() =~= old(self).entries@);
        assert(self.view_at(now) =~= old(self).view_at(now).insert(k0, value));
    }

    /// Removes whatever is stored under `key`.
    pub fn delete(&mut self, key: String)
        ensures
            forall|k: Seq<char>, t: u64|
                k != key@ ==> #[trigger] final(self).value_at(k, t) == old(self).value_at(k, t),
            forall|t: u64| (#[trigger] final(self).value_at(key@, t)) is None,
            forall|t: u64| final(self).view_at(t) == old(self).view_at(t).remove(key@),
    {
        let ghost k0 = key@;
        self.entries.push(StoreEntry { key, value: None, expires_at: u64::MAX });
        assert(self.entries@.drop_last() =~= old(self).entries@);
        assert forall|t: u64| self.view_at(t) == old(self).view_at(t).remove(k0) by {
            assert(self.view_at(t) =~= old(self).view_at(t).remove(k0));
        }
    }

    /// The value under `key` at instant `now`, if any.
    pub fn get(&self, key: &String, now: u64) -> (r: Option<StoredValue>)
        ensures
            r == self.value_at(key@, now),
            r == (if self.view_at(now).contains_key(key@) {
                Some(self.view_at(now)[key@])
            } else {
                None
            }),
    {
        let mut i = self.entries.len();
        assert(self.entries@.take(i as int) =~= self.entries@);
        while i > 0
            invariant
                i <= self.entries@.len(),
                entry_lookup(self.entries@, key@, now) == entry_lookup(
                    self.entries@.take(i as int),
                    key@,
                    now,
                ),
            decreases i,
        {
            let ghost prefix = self.entries@.take(i as int);
            assert(prefix.drop_last() =~= self.entries@.take(i - 1));
            let e = &self.entries[i - 1];
            if e.key == *key {
                if now <= e.expires_at {
                    return match &e.value {
                        Some(v) => Some(v.copy()),
                        None => None,
                    };
                } else {
                    return None;
                }
            }
            i = i - 1;
        }
        None
    }

    /// Takes the value under `key` out of the store in one step: what `get` would have
    /// returned at instant `now`, and the key is removed.
    pub fn take(&mut self, key: &String, now: u64) -> (r: Option<StoredValue>)
        ensures
            r == (if old(self).view_at(now).contains_key(key@) {
                Some(old(self).view_at(now)[key@])
            } else {
                None
            }),
            forall|t: u64| final(self).view_at(t) == old(self).view_at(t).remove(key@),
    {
        let r = self.get(key, now);
        self.delete(key.clone());
        r
    }

    /// Makes one change at instant `now`.
    pub fn apply(&mut self, op: StoreOp, now: u64)
        ensures
            final(self).view_at(now) == apply_op(old(self).view_at(now), op),
    {
        match op {
            StoreOp::Put { key, value, ttl } => self.put(key, value, ttl, now),
            StoreOp::Delete { key } => self.delete(key),
        }
    }

    /// Makes the changes in order, all at instant `now`.
    pub fn apply_all(&mut self, ops: Vec<StoreOp>, now: u64)
        ensures
            final(self).view_at(now) == apply_ops(old(self).view_at(now), ops@),
    {
        let ghost start = self.view_at(now);
        let ghost all = ops@;
        let mut rest = ops;
        let mut done: usize = 0;
        assert(all.len() == rest.len());
        assert(all.take(0) =~= Seq::<StoreOp>::empty());
        while rest.len() > 0
            invariant
                done + rest@.len() == all.len(),
                all.len() <= usize::MAX,
                rest@ == all.skip(done as int),
                self.view_at(now) == apply_ops(start, all.take(done as int)),
            decreases rest@.len(),
        {
            let op = rest.remove(0);
            assert(op == all[done as int]);
            assert(all.take(done + 1).drop_last() =~= all.take(done as int));
            assert(rest@ =~= all.skip(done + 1));
            self.apply(op, now);
            done = done + 1;
        }
        assert(all.take(done as int) =~= all);
    }
}

} // verus!
