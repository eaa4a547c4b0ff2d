//! Keyed, single-slot memo cache bridging background tasks and the render pass.
//!
//! The render loop runs every frame; starting a network or crypto call from
//! inside render logic without this cache would re-issue the call on every
//! repaint.  Each logical asynchronous operation is named by a stable `u64`
//! key, which doubles as the handle to its slot; the same key always denotes
//! the same logical request.  [`AsyncResultCache::begin`] is a no-op while a
//! task is outstanding or a result awaits consumption, so repeated calls
//! across frames coalesce into one task.  [`AsyncResultCache::take`] consumes
//! a delivered result exactly once; reading [`AsyncResultCache::is_pending`]
//! never consumes anything.

use vstd::prelude::*;

verus! {

/// One slot of the cache: the state of a single keyed operation.
///
/// `pending` is true while a background task is outstanding and has not yet
/// delivered its outcome.  `result` holds a delivered but not yet consumed
/// outcome; the error side carries the failure message verbatim.
pub struct Slot<T> {
    pub key: u64,
    pub pending: bool,
    pub result: Option<Result<T, String>>,
}

/// What `begin` does to the cache contents: if the key already shows an
/// outstanding task or an unconsumed result, nothing changes and no task is to
/// be spawned; otherwise the slot becomes pending and a task must be spawned.
pub open spec fn begin_step<T>(m: Map<u64, Slot<T>>, key: u64) -> (Map<u64, Slot<T>>, bool) {
    if m.contains_key(key) && (m[key].pending || m[key].result is Some) {
        (m, false)
    } else {
        (m.insert(key, Slot { key, pending: true, result: None }), true)
    }
}

/// What `take` does to the cache contents: a stored result is removed and
/// returned; absence returns nothing and changes nothing.
pub open spec fn take_step<T>(m: Map<u64, Slot<T>>, key: u64) -> (
    Map<u64, Slot<T>>,
    Option<Result<T, String>>,
) {
    if m.contains_key(key) && m[key].result is Some {
        (m.insert(key, Slot { key, pending: m[key].pending, result: None }), m[key].result)
    } else {
        (m, None)
    }
}

/// What `complete` does to the cache contents: the task's outcome is stored
/// and the slot is no longer pending.
pub open spec fn complete_step<T>(
    m: Map<u64, Slot<T>>,
    key: u64,
    outcome: Result<T, String>,
) -> Map<u64, Slot<T>> {
    m.insert(key, Slot { key, pending: false, result: Some(outcome) })
}

/// A duplicate submission coalesces: whatever the cache held before, once
/// `begin` has run for a key, a second `begin` for the same key spawns no
/// task.  Together with `begin`'s own postcondition this gives exactly one
/// task execution for two calls in immediate succession.
pub proof fn lemma_begin_coalesces<T>(m: Map<u64, Slot<T>>, key: u64)
    ensures
        begin_step(begin_step(m, key).0, key).1 == false,
{
}

/// A result is consumed at most once: after a `take` for a key, a second
/// `take` for the same key returns nothing (and changes nothing), until a new
/// task delivers a new result.
pub proof fn lemma_take_consumes_once<T>(m: Map<u64, Slot<T>>, key: u64)
    ensures
        take_step(take_step(m, key).0, key).1 is None,
        take_step(take_step(m, key).0, key).0 == take_step(m, key).0,
{
}

/// Keyed, single-slot memo cache for the outcomes of background tasks.
///
/// Viewed as a map from operation key to slot state.  At most one slot exists
/// per key, and at most one background task may be outstanding per key at any
/// time.
pub struct AsyncResultCache<T> {
    slots: Vec<Slot<T>>,
}

impl<T> AsyncResultCache<T> {
    /// No two slots share a key, and each slot records its own key.
    pub closed spec fn wf(&self) -> bool {
        forall|i: int, j: int|
            0 <= i < self.slots@.len() && 0 <= j < self.slots@.len() && i != j
                ==> self.slots@[i].key != self.slots@[j].key
    }

    /// The cache contents as a map from key to slot.
    pub closed spec fn view(&self) -> Map<u64, Slot<T>> {
        Self::map_of(self.slots@)
    }

    spec fn map_of(s: Seq<Slot<T>>) -> Map<u64, Slot<T>>
        decreases s.len(),
    {
        if s.len() == 0 {
            Map::empty()
        } else {
            Self::map_of(s.drop_last()).insert(s.last().key, s.last())
        }
    }

    proof fn lemma_map_of_contains(s: Seq<Slot<T>>, key: u64)
        ensures
            Self::map_of(s).contains_key(key) <==> exists|i: int|
                0 <= i < s.len() && s[i].key == key,
        decreases s.len(),
    {
        if s.len() > 0 {
            Self::lemma_map_of_contains(s.drop_last(), key);
            if Self::map_of(s).contains_key(key) {
                if s.last().key != key {
                    let i = choose|i: int| 0 <= i < s.drop_last().len() && s.drop_last()[i].key == key;
                    assert(s[i].key == key);
                }
            }
            if exists|i: int| 0 <= i < s.len() && s[i].key == key {
                let i = choose|i: int| 0 <= i < s.len() && s[i].key == key;
                if i < s.len() - 1 {
                    assert(s.drop_last()[i].key == key);
                }
            }
        }
    }

    proof fn lemma_map_of_index(s: Seq<Slot<T>>, i: int)
        requires
            0 <= i < s.len(),
            forall|p: int, q: int|
                0 <= p < s.len() && 0 <= q < s.len() && p != q ==> s[p].key != s[q].key,
        ensures
            Self::map_of(s).contains_key(s[i].key),
            Self::map_of(s)[s[i].key] == s[i],
        decreases s.len(),
    {
        if i == s.len() - 1 {
            Self::lemma_map_of_contains(s.drop_last(), s[i].key);
        } else {
            Self::lemma_map_of_index(s.drop_last(), i);
            assert(s.drop_last()[i] == s[i]);
        }
    }

    proof fn lemma_map_of_update(s: Seq<Slot<T>>, i: int, slot: Slot<T>)
        requires
            0 <= i < s.len(),
            slot.key == s[i].key,
            forall|p: int, q: int|
                0 <= p < s.len() && 0 <= q < s.len() && p != q ==> s[p].key != s[q].key,
        ensures
            Self::map_of(s.update(i, slot)) == Self::map_of(s).insert(slot.key, slot),
        decreases s.len(),
    {
        let t = s.update(i, slot);
        if i == s.len() - 1 {
            assert(t.drop_last() =~= s.drop_last());
        } else {
            Self::lemma_map_of_update(s.drop_last(), i, slot);
            assert(t.drop_last() =~= s.drop_last().update(i, slot));
            assert(t.last() == s.last());
            // The updated key differs from the last slot's key, so the two
            // inserts commute.
            assert(Self::map_of(t) =~= Self::map_of(s).insert(slot.key, slot));
        }
    }

    proof fn lemma_map_of_push(s: Seq<Slot<T>>, slot: Slot<T>)
        ensures
            Self::map_of(s.push(slot)) == Self::map_of(s).insert(slot.key, slot),
    {
        assert(s.push(slot).drop_last() =~= s);
    }

    /// An empty cache: no keys, no tasks.
    pub fn new() -> (r: Self)
        ensures
            r.wf(),
            r@ == Map::<u64, Slot<T>>::empty(),
    {
        AsyncResultCache { slots: Vec::new() }
    }

    /// Index of the slot for `key`, if one exists.
    fn find(&self, key: u64) -> (r: Option<usize>)
        ensures
            match r {
                Some(i) => i < self.slots@.len() && self.slots@[i as int].key == key,
                None => forall|i: int| 0 <= i < self.slots@.len() ==> self.slots@[i].key != key,
            },
    {
        let mut i: usize = 0;
        while i < self.slots.len()
            invariant
                i <= self.slots@.len(),
                forall|j: int| 0 <= j < i ==> self.slots@[j].key != key,
            decreases self.slots@.len() - i,
        {
            if self.slots[i].key == key {
                return Some(i);
            }
            i = i + 1;
        }
        None
    }

    /// Ensures a slot exists for `key`, creating an idle, empty one if absent.
    /// An existing slot is left untouched.
    pub fn get_or_create(&mut self, key: u64)
        requires
            old(self).wf(),
        ensures
            final(self).wf(),
            final(self)@ == if old(self)@.contains_key(key) {
                old(self)@
            } else {
                old(self)@.insert(key, Slot { key, pending: false, result: None })
            },
    {
        proof {
            Self::lemma_map_of_contains(self.slots@, key);
        }
        match self.find(key) {
            Some(_) => {},
            None => {
                let slot = Slot { key, pending: false, result: None };
                proof {
                    Self::lemma_map_of_push(self.slots@, slot);
                }
                self.slots.push(slot);
            },
        }
    }

    /// True iff a task for `key` is outstanding and no result has yet been
    /// delivered.  Never consumes anything.
    pub fn is_pending(&self, key: u64) -> (r: bool)
        requires
            self.wf(),
        ensures
            r == (self@.contains_key(key) && self@[key].pending),
    {
        proof {
            Self::lemma_map_of_contains(self.slots@, key);
        }
        match self.find(key) {
            Some(i) => {
                proof {
                    Self::lemma_map_of_index(self.slots@, i as int);
                }
                self.slots[i].pending
            },
            None => false,
        }
    }

    /// If `key` shows neither an outstanding task nor an unconsumed result,
    /// marks the slot pending and reports that the caller must schedule the
    /// task; otherwise changes nothing and reports that submissions coalesce.
    pub fn begin(&mut self, key: u64) -> (spawn: bool)
        requires
            old(self).wf(),
        ensures
            final(self).wf(),
            final(self)@ == begin_step(old(self)@, key).0,
            spawn == begin_step(old(self)@, key).1,
    {
        proof {
            Self::lemma_map_of_contains(self.slots@, key);
        }
        match self.find(key) {
            Some(i) => {
                proof {
                    Self::lemma_map_of_index(self.slots@, i as int);
                }
                if self.slots[i].pending {
                    return false;
                }
                let occupied = match &self.slots[i].result {
                    Some(_) => true,
                    None => false,
                };
                if occupied {
                    return false;
                }
                let slot = Slot { key, pending: true, result: None };
                proof {
                    Self::lemma_map_of_update(self.slots@, i as int, slot);
                }
                self.slots[i] = slot;
                true
            },
            None => {
                let slot = Slot { key, pending: true, result: None };
                proof {
                    Self::lemma_map_of_push(self.slots@, slot);
                }
                self.slots.push(slot);
                true
            },
        }
    }

    /// Removes and returns the stored result for `key` if one is present;
    /// otherwise returns nothing.  Calling again without a newly delivered
    /// result yields nothing.
    pub fn take(&mut self, key: u64) -> (r: Option<Result<T, String>>)
        requires
            old(self).wf(),
        ensures
            final(self).wf(),
            final(self)@ == take_step(old(self)@, key).0,
            r == take_step(old(self)@, key).1,
    {
        proof {
            Self::lemma_map_of_contains(self.slots@, key);
        }
        match self.find(key) {
            Some(i) => {
                proof {
                    Self::lemma_map_of_index(self.slots@, i as int);
                }
                let pending = self.slots[i].pending;
                let mut slot = Slot { key, pending, result: None };
                core::mem::swap(&mut self.slots[i], &mut slot);
                proof {
                    Self::lemma_map_of_update(
                        old(self).slots@,
                        i as int,
                        Slot { key, pending, result: None },
                    );
                }
                match slot.result {
                    Some(outcome) => Some(outcome),
                    None => {
                        // The slot held no result: put it back unchanged.
                        proof {
                            assert(self.slots@ =~= old(self).slots@.update(
                                i as int,
                                Slot { key, pending, result: None },
                            ));
                            assert(self.slots@ =~= old(self).slots@);
                        }
                        None
                    },
                }
            },
            None => None,
        }
    }

    /// Delivers a completed task's outcome into the slot for `key`: the slot
    /// stops being pending and retains the outcome until consumed by `take`.
    pub fn complete(&mut self, key: u64, outcome: Result<T, String>)
        requires
            old(self).wf(),
        ensures
            final(self).wf(),
            final(self)@ == complete_step(old(self)@, key, outcome),
    {
        proof {
            Self::lemma_map_of_contains(self.slots@, key);
        }
        match self.find(key) {
            Some(i) => {
                proof {
                    Self::lemma_map_of_index(self.slots@, i as int);
                }
                let slot = Slot { key, pending: false, result: Some(outcome) };
                proof {
                    Self::lemma_map_of_update(self.slots@, i as int, slot);
                }
                self.slots[i] = slot;
            },
            None => {
                let slot = Slot { key, pending: false, result: Some(outcome) };
                proof {
                    Self::lemma_map_of_push(self.slots@, slot);
                }
                self.slots.push(slot);
            },
        }
    }
}

} // verus!
