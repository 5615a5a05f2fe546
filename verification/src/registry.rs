//! The session registry: a process-wide table from subscription key to the
//! session that owns the engine-side producer, plus the key allocator.
//!
//! Keys start at 1, increase monotonically, and are never reused.  The
//! registry exclusively owns every entry it holds; `remove` transfers
//! ownership back to the caller for teardown and is an idempotent no-op on
//! an absent key.

use std::collections::BTreeMap;
use vstd::prelude::*;

verus! {

/// Table of open subscription sessions, keyed by a monotonically increasing
/// integer key.  `S` is whatever the caller stores per session (typically a
/// handle that keeps the engine-side producer alive).
pub struct SessionRegistry<S> {
    next_key: i32,
    table: BTreeMap<i32, S>,
}

impl<S> SessionRegistry<S> {
    /// The sessions currently registered, as a map from key to session.
    pub closed spec fn sessions(&self) -> Map<i32, S> {
        self.table@
    }

    /// The key the next allocation will hand out.
    pub closed spec fn next_key_spec(&self) -> int {
        self.next_key as int
    }

    /// Well-formedness: keys start at 1 and every registered key was
    /// allocated before the allocator's current position, so a fresh key can
    /// never collide with a live session.
    pub open spec fn wf(&self) -> bool {
        &&& 1 <= self.next_key_spec()
        &&& forall|k: i32| self.sessions().contains_key(k) ==> 1 <= k < self.next_key_spec()
    }

    /// An empty registry whose first allocation will return 1.
    pub fn new() -> (r: Self)
        ensures
            r.wf(),
            r.sessions() == Map::<i32, S>::empty(),
            r.next_key_spec() == 1,
    {
        SessionRegistry { next_key: 1, table: BTreeMap::new() }
    }

    /// Hands out the next unused key and advances the allocator.  No two
    /// calls ever return the same key, and the key is never that of a live
    /// session.
    pub fn allocate_key(&mut self) -> (key: i32)
        requires
            old(self).wf(),
            old(self).next_key_spec() < i32::MAX,
        ensures
            final(self).wf(),
            allocates(*old(self), *final(self), key),
            1 <= key,
            key as int == old(self).next_key_spec(),
            final(self).next_key_spec() == key as int + 1,
            final(self).sessions() == old(self).sessions(),
            !old(self).sessions().contains_key(key),
    {
        let key = self.next_key;
        self.next_key = self.next_key + 1;
        proof {
            assert(self.sessions() == old(self).sessions());
            assert(forall|k: i32| self.sessions().contains_key(k) ==> 1 <= k
                < self.next_key_spec());
        }
        key
    }

    /// Stores a session under an allocated key.  Fails only if the key is
    /// already live, in which case the session is handed back untouched.
    pub fn insert(&mut self, key: i32, session: S) -> (r: Result<(), S>)
        requires
            old(self).wf(),
            1 <= key < old(self).next_key_spec(),
        ensures
            final(self).wf(),
            final(self).next_key_spec() == old(self).next_key_spec(),
            !old(self).sessions().contains_key(key) ==> r is Ok && final(self).sessions()
                == old(self).sessions().insert(key, session),
            old(self).sessions().contains_key(key) ==> (r matches Err(s) && s == session
                && final(self).sessions() == old(self).sessions()),
    {
        if self.table.contains_key(&key) {
            Err(session)
        } else {
            self.table.insert(key, session);
            proof {
                assert forall|k: i32| self.sessions().contains_key(k) implies 1 <= k
                    < self.next_key_spec() by {
                    if k != key {
                        assert(old(self).sessions().contains_key(k));
                    }
                }
            }
            Ok(())
        }
    }

    /// Removes a key and transfers ownership of its session to the caller.
    /// Removing an absent key is a successful no-op that returns `None`.
    pub fn remove(&mut self, key: i32) -> (r: Option<S>)
        requires
            old(self).wf(),
        ensures
            final(self).wf(),
            final(self).next_key_spec() == old(self).next_key_spec(),
            final(self).sessions() == old(self).sessions().remove(key),
            !final(self).sessions().contains_key(key),
            old(self).sessions().contains_key(key) ==> (r matches Some(s) && s == old(
                self,
            ).sessions()[key]),
            !old(self).sessions().contains_key(key) ==> r is None && final(self).sessions() == old(
                self,
            ).sessions(),
    {
        let r = self.table.remove(&key);
        proof {
            if !old(self).sessions().contains_key(key) {
                assert(old(self).sessions().remove(key) =~= old(self).sessions());
            }
        }
        r
    }

    /// Whether the allocator can still hand out a key.  False only once
    /// the process has started `i32::MAX - 1` queries.
    pub fn can_allocate(&self) -> (r: bool)
        ensures
            r == (self.next_key_spec() < i32::MAX),
    {
        self.next_key < i32::MAX
    }

    /// Whether a key denotes a live session.
    pub fn contains_key(&self, key: i32) -> (r: bool)
        ensures
            r == self.sessions().contains_key(key),
    {
        self.table.contains_key(&key)
    }

    /// Whether no session is live.
    pub fn is_empty(&self) -> (r: bool)
        ensures
            r == (self.sessions().len() == 0),
    {
        self.table.is_empty()
    }
}

/// One allocation step: `post` is `pre` after `allocate_key` returned `key`.
pub open spec fn allocates<S>(pre: SessionRegistry<S>, post: SessionRegistry<S>, key: i32) -> bool {
    &&& pre.wf()
    &&& post.wf()
    &&& key as int == pre.next_key_spec()
    &&& post.next_key_spec() == key as int + 1
    &&& post.sessions() == pre.sessions()
}

/// A run of successive allocations: `regs[0]` steps to `regs[i + 1]` by
/// allocating `keys[i]`.
pub open spec fn allocation_run<S>(regs: Seq<SessionRegistry<S>>, keys: Seq<i32>) -> bool {
    &&& regs.len() == keys.len() + 1
    &&& forall|i: int| 0 <= i < keys.len() ==> allocates(regs[i], regs[i + 1], keys[i])
}

/// Along any run of allocations the keys handed out are strictly increasing
/// in issuance order, and therefore pairwise distinct.
pub proof fn lemma_run_keys_strictly_increase<S>(
    regs: Seq<SessionRegistry<S>>,
    keys: Seq<i32>,
    i: int,
    j: int,
)
    requires
        allocation_run(regs, keys),
        0 <= i < j < keys.len(),
    ensures
        keys[i] < keys[j],
        keys[i] != keys[j],
    decreases j - i,
{
    if i + 1 == j {
        assert(allocates(regs[i], regs[i + 1], keys[i]));
        assert(allocates(regs[j], regs[j + 1], keys[j]));
    } else {
        lemma_run_keys_strictly_increase(regs, keys, i, j - 1);
        assert(allocates(regs[j - 1], regs[j], keys[j - 1]));
        assert(allocates(regs[j], regs[j + 1], keys[j]));
    }
}

/// Tearing one session down touches no other: after a removal the removed
/// key is gone, while every other key is registered exactly as before, with
/// the same session.
pub proof fn lemma_remove_preserves_others<S>(m: Map<i32, S>, key: i32, other: i32)
    requires
        other != key,
    ensures
        !m.remove(key).contains_key(key),
        m.remove(key).contains_key(other) == m.contains_key(other),
        m.contains_key(other) ==> m.remove(key)[other] == m[other],
{
}

/// Double removal is safe: removing a key a second time, on whatever path —
/// dispatcher-observed closure after an explicit cancellation, say — finds
/// the registry exactly as the first removal left it.
pub proof fn lemma_remove_idempotent<S>(m: Map<i32, S>, key: i32)
    ensures
        m.remove(key).remove(key) == m.remove(key),
{
    assert(m.remove(key).remove(key) =~= m.remove(key));
}

/// A freshly allocated key never denotes a session that was live before or
/// during the allocation.
pub proof fn lemma_fresh_key_unused<S>(pre: SessionRegistry<S>, post: SessionRegistry<S>, key: i32)
    requires
        allocates(pre, post, key),
    ensures
        !pre.sessions().contains_key(key),
        !post.sessions().contains_key(key),
{
}

/// A key is never reused after removal: once a key below the allocator's
/// position is gone from the registry, registering a further session — which
/// by `allocate_key`'s contract stores it under the allocator's position —
/// cannot bring that key back.
pub proof fn lemma_removed_key_never_returns<S>(
    pre: SessionRegistry<S>,
    post: SessionRegistry<S>,
    fresh_key: i32,
    session: S,
    removed: i32,
)
    requires
        pre.wf(),
        !pre.sessions().contains_key(removed),
        removed < pre.next_key_spec(),
        fresh_key as int == pre.next_key_spec(),
        post.sessions() == pre.sessions().insert(fresh_key, session),
    ensures
        !post.sessions().contains_key(removed),
{
}

} // verus!
