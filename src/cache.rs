use vstd::prelude::*;

verus! {

/// A cache key: descriptions are the same exactly when their views are
/// equal, and executable code decides it.
pub trait CacheKey: Sized + View {
    fn same(&self, other: &Self) -> (r: bool)
        ensures
            r == (self@ == other@),
    ;
}

/// A cached object: its native handle and how many strong owners it has.
/// An entry with no strong owner is expired: its object is gone.
#[derive(Clone, Copy, Debug, PartialEq, Eq, Structural)]
pub struct Slot {
    pub handle: u64,
    pub strong: u64,
}

/// Whether `m` holds a live object for `d`.
pub open spec fn is_live<K>(m: Map<K, Slot>, d: K) -> bool {
    m.contains_key(d) && m[d].strong > 0
}

/// What a lookup of `d` hands out: the live object, or nothing.
pub open spec fn acquire_result<K>(m: Map<K, Slot>, d: K) -> Option<u64> {
    if is_live(m, d) {
        Some(m[d].handle)
    } else {
        None
    }
}

/// The cache after a lookup of `d`: a live object gains one owner.
pub open spec fn acquire_next<K>(m: Map<K, Slot>, d: K) -> Map<K, Slot> {
    if is_live(m, d) {
        m.insert(d, Slot { handle: m[d].handle, strong: (m[d].strong + 1) as u64 })
    } else {
        m
    }
}

/// The cache after a freshly built object `h` is recorded for `d`.
pub open spec fn install_next<K>(m: Map<K, Slot>, d: K, h: u64) -> Map<K, Slot> {
    m.insert(d, Slot { handle: h, strong: 1 })
}

/// The cache after one owner of the object for `d` lets go of it.
pub open spec fn release_next<K>(m: Map<K, Slot>, d: K) -> Map<K, Slot> {
    m.insert(d, Slot { handle: m[d].handle, strong: (m[d].strong - 1) as u64 })
}

/// Whether letting go of the object for `d` leaves it with no owner, so that
/// the native object must be destroyed.
pub open spec fn release_destroys<K>(m: Map<K, Slot>, d: K) -> bool {
    m[d].strong == 1
}

/// Deduplicating cache from an immutable description to the object built
/// for it. Equal descriptions share one live object; an object whose owners
/// are all gone is destroyed and rebuilt on the next request.
pub struct DedupCache<K> {
    descs: Vec<K>,
    slots: Vec<Slot>,
}

impl<K: View> DedupCache<K> {
    spec fn has(&self, d: K::V) -> bool {
        exists|i: int| 0 <= i < self.descs@.len() && self.descs@[i]@ == d
    }

    spec fn index_of(&self, d: K::V) -> int {
        choose|i: int| 0 <= i < self.descs@.len() && self.descs@[i]@ == d
    }

    /// The map from each description to its slot.
    pub closed spec fn view(&self) -> Map<K::V, Slot> {
        Map::new(|d: K::V| self.has(d), |d: K::V| self.slots@[self.index_of(d)])
    }

    /// Descriptions are unique and each has one slot.
    pub closed spec fn wf(&self) -> bool {
        &&& self.descs@.len() == self.slots@.len()
        &&& forall|i: int, j: int|
            0 <= i < j < self.descs@.len() ==> self.descs@[i]@ != self.descs@[j]@
    }

    /// Number of descriptions recorded, live or expired.
    pub closed spec fn entry_count(&self) -> nat {
        self.descs@.len()
    }

    /// Number of descriptions recorded, live or expired.
    pub fn len(&self) -> (r: usize)
        ensures
            r == self.entry_count(),
    {
        self.descs.len()
    }

    proof fn lemma_index(&self, i: int)
        requires
            self.wf(),
            0 <= i < self.descs@.len(),
        ensures
            self.has(self.descs@[i]@),
            self.index_of(self.descs@[i]@) == i,
            self@.contains_key(self.descs@[i]@),
            self@[self.descs@[i]@] == self.slots@[i],
    {
        let d = self.descs@[i]@;
        assert(self.has(d));
        let j = self.index_of(d);
        assert(self.descs@[j]@ == d);
        if j < i {
            assert(self.descs@[j]@ != self.descs@[i]@);
        } else if i < j {
            assert(self.descs@[i]@ != self.descs@[j]@);
        }
    }

    /// An empty cache.
    pub fn new() -> (r: Self)
        ensures
            r.wf(),
            r@ == Map::<K::V, Slot>::empty(),
            r.entry_count() == 0,
    {
        let r = DedupCache { descs: Vec::new(), slots: Vec::new() };
        assert(r@ =~= Map::<K::V, Slot>::empty());
        r
    }

    fn find(&self, desc: &K) -> (r: Option<usize>)
        where
            K: CacheKey,
        requires
            self.wf(),
        ensures
            match r {
                Some(i) => i < self.descs@.len() && self.descs@[i as int]@ == desc@,
                None => !self.has(desc@),
            },
    {
        let mut i: usize = 0;
        while i < self.descs.len()
            invariant
                i <= self.descs@.len(),
                forall|j: int| 0 <= j < i ==> self.descs@[j]@ != desc@,
            decreases self.descs@.len() - i,
        {
            if self.descs[i].same(desc) {
                return Some(i);
            }
            i = i + 1;
        }
        None
    }

    /// Number of strong owners of the object cached for `desc`; zero when
    /// there is none or it expired.
    pub fn strong_count(&self, desc: &K) -> (r: u64)
        where
            K: CacheKey,
        requires
            self.wf(),
        ensures
            r == (if self@.contains_key(desc@) { self@[desc@].strong } else { 0 }),
    {
        match self.find(desc) {
            Some(i) => {
                proof { self.lemma_index(i as int); }
                self.slots[i].strong
            }
            None => 0,
        }
    }

    /// Whether `h` is the handle of a live object.
    pub open spec fn is_live_handle(&self, h: u64) -> bool {
        exists|d: K::V| #[trigger] is_live(self@, d) && self@[d].handle == h
    }

    /// Handles of the live objects, and no others.
    pub fn live_handles(&self) -> (r: Vec<u64>)
        requires
            self.wf(),
        ensures
            forall|d: K::V| #[trigger] is_live(self@, d) ==> r@.contains(self@[d].handle),
            forall|i: int| 0 <= i < r@.len() ==> self.is_live_handle(#[trigger] r@[i]),
    {
        let mut r: Vec<u64> = Vec::new();
        let mut i: usize = 0;
        while i < self.slots.len()
            invariant
                self.wf(),
                i <= self.slots@.len(),
                forall|j: int|
                    0 <= j < i && self.slots@[j].strong > 0 ==> r@.contains(self.slots@[j].handle),
                forall|k: int| 0 <= k < r@.len() ==> self.is_live_handle(#[trigger] r@[k]),
            decreases self.slots@.len() - i,
        {
            let slot = self.slots[i];
            if slot.strong > 0 {
                proof { self.lemma_index(i as int); }
                let ghost before = r@;
                r.push(slot.handle);
                proof {
                    assert(r@[before.len() as int] == slot.handle);
                    let d = self.descs@[i as int]@;
                    assert(is_live(self@, d) && self@[d].handle == slot.handle);
                    assert(self.is_live_handle(slot.handle));
                    assert forall|k: int| 0 <= k < r@.len() implies self.is_live_handle(#[trigger] r@[k]) by {
                        if k < before.len() {
                            assert(r@[k] == before[k]);
                        }
                    }
                    assert forall|j: int|
                        0 <= j < i + 1 && self.slots@[j].strong > 0 implies r@.contains(self.slots@[j].handle) by {
                        if j < i {
                            let k = choose|k: int| 0 <= k < before.len() && before[k] == self.slots@[j].handle;
                            assert(r@[k] == before[k]);
                        }
                    }
                }
            }
            i = i + 1;
        }
        proof {
            assert forall|d: K::V| #[trigger] is_live(self@, d) implies r@.contains(self@[d].handle) by {
                let j = self.index_of(d);
                self.lemma_index(j);
            }
        }
        r
    }

    /// The live object for `desc`, if any, without taking a share of it.
    pub fn lookup(&self, desc: &K) -> (r: Option<u64>)
        where
            K: CacheKey,
        requires
            self.wf(),
        ensures
            r == acquire_result(self@, desc@),
    {
        match self.find(desc) {
            Some(i) => {
                proof { self.lemma_index(i as int); }
                if self.slots[i].strong > 0 {
                    Some(self.slots[i].handle)
                } else {
                    None
                }
            },
            None => None,
        }
    }

    /// Looks `desc` up. A live object gains one owner and is returned; for
    /// an absent or expired entry nothing changes and `None` says that the
    /// object must be built and recorded with `install`.
    pub fn acquire(&mut self, desc: &K) -> (r: Option<u64>)
        where
            K: CacheKey,
        requires
            old(self).wf(),
            is_live(old(self)@, desc@) ==> old(self)@[desc@].strong < u64::MAX,
        ensures
            final(self).wf(),
            r == acquire_result(old(self)@, desc@),
            final(self)@ == acquire_next(old(self)@, desc@),
            final(self).entry_count() == old(self).entry_count(),
    {
        match self.find(desc) {
            Some(i) => {
                proof { self.lemma_index(i as int); }
                let slot = self.slots[i];
                if slot.strong > 0 {
                    let ghost before = *self;
                    self.slots.set(i, Slot { handle: slot.handle, strong: slot.strong + 1 });
                    proof {
                        let m = acquire_next(before@, desc@);
                        assert forall|d: K::V| #[trigger] self@.contains_key(d) == m.contains_key(d) by {
                            if self.has(d) {
                    let j = self.index_of(d);
                    assert(before.descs@[j]@ == d);
                }
                if before.has(d) {
                    let j = before.index_of(d);
                    assert(self.descs@[j]@ == d);
                }
                        }
                        assert forall|d: K::V| #[trigger] m.contains_key(d) implies self@[d] == m[d] by {
                            let j = before.index_of(d);
                            before.lemma_index(j);
                            self.lemma_index(j);
                        }
                        assert(self@ =~= m);
                    }
                    Some(slot.handle)
                } else {
                    None
                }
            }
            None => None,
        }
    }

    /// Records the freshly built object `handle` for `desc`, with one owner,
    /// in place of an expired entry if there is one.
    pub fn install(&mut self, desc: K, handle: u64)
        where
            K: CacheKey,
        requires
            old(self).wf(),
            !is_live(old(self)@, desc@),
        ensures
            final(self).wf(),
            final(self)@ == install_next(old(self)@, desc@, handle),
            final(self).entry_count() == old(self).entry_count() + if old(self)@.contains_key(desc@) {
                0int
            } else {
                1int
            },
    {
        let ghost before = *self;
        let ghost d = desc@;
        let slot = Slot { handle, strong: 1 };
        match self.find(&desc) {
            Some(i) => {
                self.slots.set(i, slot);
                proof {
                    let m = install_next(before@, d, handle);
                    assert forall|k: K::V| #[trigger] self@.contains_key(k) == m.contains_key(k) by {
                        if k == d {
                            self.lemma_index(i as int);
                        } else {
                            assert(self.has(k) == before.has(k));
                        }
                    }
                    assert forall|k: K::V| #[trigger] m.contains_key(k) implies self@[k] == m[k] by {
                        if k == d {
                            self.lemma_index(i as int);
                        } else {
                            let j = before.index_of(k);
                            before.lemma_index(j);
                            self.lemma_index(j);
                        }
                    }
                    assert(self@ =~= m);
                }
            }
            None => {
                self.descs.push(desc);
                self.slots.push(slot);
                proof {
                    let m = install_next(before@, d, handle);
                    let n = before.descs@.len() as int;
                    assert(self.descs@[n]@ == d);
                    assert forall|k: K::V| #[trigger] self@.contains_key(k) == m.contains_key(k) by {
                        if k == d {
                            self.lemma_index(n);
                        } else if self.has(k) {
                            let j = self.index_of(k);
                            assert(before.descs@[j]@ == k);
                        } else if before.has(k) {
                            let j = before.index_of(k);
                            assert(self.descs@[j]@ == k);
                        }
                    }
                    assert forall|k: K::V| #[trigger] m.contains_key(k) implies self@[k] == m[k] by {
                        if k == d {
                            self.lemma_index(n);
                        } else {
                            let j = before.index_of(k);
                            before.lemma_index(j);
                            self.lemma_index(j);
                        }
                    }
                    assert(self@ =~= m);
                }
            }
        }
    }

    /// One owner of the object for `desc` lets go of it. Returns whether
    /// that was the last owner, in which case the native object `handle`
    /// must be destroyed; the entry stays, expired, until it is rebuilt.
    pub fn release(&mut self, desc: &K, handle: u64) -> (destroy: bool)
        where
            K: CacheKey,
        requires
            old(self).wf(),
            is_live(old(self)@, desc@),
            old(self)@[desc@].handle == handle,
        ensures
            final(self).wf(),
            final(self)@ == release_next(old(self)@, desc@),
            destroy == release_destroys(old(self)@, desc@),
            final(self).entry_count() == old(self).entry_count(),
    {
        let ghost before = *self;
        let i = match self.find(desc) {
            Some(i) => i,
            None => {
                proof {
                    assert(false);
                }
                0
            }
        };
        proof { self.lemma_index(i as int); }
        let slot = self.slots[i];
        self.slots.set(i, Slot { handle: slot.handle, strong: slot.strong - 1 });
        proof {
            let m = release_next(before@, desc@);
            assert forall|d: K::V| #[trigger] self@.contains_key(d) == m.contains_key(d) by {
                if self.has(d) {
                    let j = self.index_of(d);
                    assert(before.descs@[j]@ == d);
                }
                if before.has(d) {
                    let j = before.index_of(d);
                    assert(self.descs@[j]@ == d);
                }
            }
            assert forall|d: K::V| #[trigger] m.contains_key(d) implies self@[d] == m[d] by {
                let j = before.index_of(d);
                before.lemma_index(j);
                self.lemma_index(j);
            }
            assert(self@ =~= m);
        }
        slot.strong == 1
    }
}

/// Equal descriptions share one object: once a request for `d1` has handed
/// out `h`, whether it found `h` live or built and recorded it, a request for
/// an equal `d2` made while that result is still owned returns `h` again, and
/// `h` then has one owner more (owner counts stay below the `u64` limit).
pub proof fn cache_identity<K>(m0: Map<K, Slot>, m1: Map<K, Slot>, d1: K, d2: K, h: u64)
    requires
        d1 == d2,
        (acquire_result(m0, d1) == Some(h) && m1 == acquire_next(m0, d1)) || (!is_live(m0, d1)
            && m1 == install_next(m0, d1, h)),
        is_live(m0, d1) ==> m0[d1].strong + 2 <= u64::MAX,
    ensures
        acquire_result(m1, d2) == Some(h),
        acquire_next(m1, d2)[d2].handle == h,
        acquire_next(m1, d2)[d2].strong == m1[d1].strong + 1,
{
}

/// When the last owner of the object cached for `d` lets it go, the object
/// is destroyed, and the next request for `d` finds nothing live, so a new
/// object is built and recorded; the dead handle is never handed out again.
pub proof fn cache_recreation<K>(m: Map<K, Slot>, d: K, h_new: u64)
    requires
        is_live(m, d),
        m[d].strong == 1,
    ensures
        release_destroys(m, d),
        acquire_result(release_next(m, d), d) is None,
        acquire_next(release_next(m, d), d) == release_next(m, d),
        !is_live(release_next(m, d), d),
        acquire_result(install_next(release_next(m, d), d, h_new), d) == Some(h_new),
{
}

} // verus!
