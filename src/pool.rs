use vstd::prelude::*;

use crate::types::OutOfMemory;

verus! {

/// Largest number of command pools a queue keeps. A new pool is made only
/// while there are fewer; past that the most recently used one serves.
pub const MAX_POOLS: usize = 3;

/// What a command pool holds: its native handle, the command buffers it
/// made that are free for reuse, and how many of its buffers are handed out.
pub struct PoolView {
    pub handle: u64,
    pub free: Seq<u64>,
    pub allocated: nat,
}

/// A native command pool with its bookkeeping. Command buffers return to
/// the free list of the pool that made them and are reused from there
/// before a new one is allocated.
pub struct Pool {
    handle: u64,
    free: Vec<u64>,
    allocated: usize,
}

impl View for Pool {
    type V = PoolView;

    closed spec fn view(&self) -> PoolView {
        PoolView { handle: self.handle, free: self.free@, allocated: self.allocated as nat }
    }
}

impl Pool {
    /// Bookkeeping for the freshly created native pool `handle`.
    pub fn new(handle: u64) -> (r: Pool)
        ensures
            r@ == (PoolView { handle, free: Seq::empty(), allocated: 0 }),
    {
        Pool { handle, free: Vec::new(), allocated: 0 }
    }

    /// The native pool handle.
    pub fn handle(&self) -> (r: u64)
        ensures
            r == self@.handle,
    {
        self.handle
    }

    /// Number of command buffers handed out and not yet returned.
    pub fn allocated(&self) -> (r: usize)
        ensures
            r == self@.allocated,
    {
        self.allocated
    }

    /// The free command buffer that the next allocation reuses, if any.
    pub fn next_free(&self) -> (r: Option<u64>)
        ensures
            self@.free.len() == 0 ==> r is None,
            self@.free.len() > 0 ==> r == Some(self@.free.last()),
    {
        if self.free.len() == 0 {
            None
        } else {
            Some(self.free[self.free.len() - 1])
        }
    }

    /// Hands out a command buffer. With a free one, `begun` says whether
    /// recording could begin on it: then it leaves the free list. Without,
    /// `fresh` is the outcome of a native allocation; a fresh buffer on
    /// which recording could not begin joins the free list.
    pub fn allocate(&mut self, fresh: Option<Result<u64, OutOfMemory>>, begun: bool) -> (r: Result<u64, OutOfMemory>)
        requires
            (old(self)@.free.len() == 0) == (fresh is Some),
            old(self)@.allocated < usize::MAX,
        ensures
            final(self)@.handle == old(self)@.handle,
            old(self)@.free.len() > 0 && begun ==> r == Ok::<u64, OutOfMemory>(old(self)@.free.last())
                && final(self)@.free == old(self)@.free.drop_last()
                && final(self)@.allocated == old(self)@.allocated + 1,
            old(self)@.free.len() > 0 && !begun ==> r is Err && final(self)@ == old(self)@,
            fresh matches Some(Err(_)) ==> r is Err && final(self)@ == old(self)@,
            fresh matches Some(Ok(c)) ==> (begun ==> r == Ok::<u64, OutOfMemory>(c)
                && final(self)@.free == old(self)@.free
                && final(self)@.allocated == old(self)@.allocated + 1) && (!begun ==> r is Err
                && final(self)@.free == old(self)@.free.push(c)
                && final(self)@.allocated == old(self)@.allocated),
    {
        match fresh {
            None => {
                if begun {
                    let c = self.free.pop().unwrap();
                    self.allocated = self.allocated + 1;
                    Ok(c)
                } else {
                    Err(OutOfMemory)
                }
            }
            Some(Err(e)) => Err(e),
            Some(Ok(c)) => {
                if begun {
                    self.allocated = self.allocated + 1;
                    Ok(c)
                } else {
                    self.free.push(c);
                    Err(OutOfMemory)
                }
            }
        }
    }

    /// Takes back a command buffer made by this pool.
    pub fn deallocate(&mut self, cbuf: u64)
        ensures
            final(self)@.handle == old(self)@.handle,
            final(self)@.free == old(self)@.free.push(cbuf),
            final(self)@.allocated == (if old(self)@.allocated > 0 {
                old(self)@.allocated - 1
            } else {
                0
            }),
    {
        self.free.push(cbuf);
        if self.allocated > 0 {
            self.allocated = self.allocated - 1;
        }
    }
}

/// Whether the least recently used pool has nothing handed out, so that it
/// is reset and becomes the most recently used.
pub open spec fn needs_reset_spec(p: Seq<PoolView>) -> bool {
    p.len() > 0 && p[0].allocated == 0
}

/// Whether a new pool is made before allocating: there is none yet, or
/// there are fewer than the bound and the most recently used one has
/// buffers handed out.
pub open spec fn needs_new_pool_spec(p: Seq<PoolView>) -> bool {
    p.len() == 0 || (p.len() < MAX_POOLS && p.last().allocated != 0)
}

/// Whether some pool in `p` has the native handle `h`.
pub open spec fn has_pool(p: Seq<PoolView>, h: u64) -> bool {
    exists|i: int| 0 <= i < p.len() && p[i].handle == h
}

/// The pools after command buffer `c.0` returns to the pool with handle `c.1`.
pub open spec fn return_one(p: Seq<PoolView>, c: (u64, u64)) -> Seq<PoolView> {
    Seq::new(
        p.len(),
        |j: int|
            if p[j].handle == c.1 {
                PoolView {
                    handle: p[j].handle,
                    free: p[j].free.push(c.0),
                    allocated: if p[j].allocated > 0 {
                        (p[j].allocated - 1) as nat
                    } else {
                        0
                    },
                }
            } else {
                p[j]
            },
    )
}

/// The pools after each `(command buffer, pool)` pair of `cs` returns, in order.
pub open spec fn return_all(p: Seq<PoolView>, cs: Seq<(u64, u64)>) -> Seq<PoolView>
    decreases cs.len(),
{
    if cs.len() == 0 {
        p
    } else {
        return_one(return_all(p, cs.drop_last()), cs.last())
    }
}

/// Returning command buffers keeps the pools and their handles.
pub proof fn lemma_return_all_keeps_pools(p: Seq<PoolView>, cs: Seq<(u64, u64)>)
    requires
        pools_wf(p),
    ensures
        pools_wf(return_all(p, cs)),
        return_all(p, cs).len() == p.len(),
        forall|j: int| 0 <= j < p.len() ==> #[trigger] return_all(p, cs)[j].handle == p[j].handle,
    decreases cs.len(),
{
    if cs.len() > 0 {
        lemma_return_all_keeps_pools(p, cs.drop_last());
    }
}

/// The command pools of a queue, least recently used first.
pub struct CommandPools {
    pools: Vec<Pool>,
}

impl View for CommandPools {
    type V = Seq<PoolView>;

    closed spec fn view(&self) -> Seq<PoolView> {
        self.pools@.map_values(|p: Pool| p@)
    }
}

/// At most `MAX_POOLS` pools, with distinct handles.
pub open spec fn pools_wf(p: Seq<PoolView>) -> bool {
    &&& p.len() <= MAX_POOLS
    &&& forall|i: int, j: int| 0 <= i < j < p.len() ==> p[i].handle != p[j].handle
}

impl CommandPools {
    pub fn new() -> (r: CommandPools)
        ensures
            r@ == Seq::<PoolView>::empty(),
    {
        let r = CommandPools { pools: Vec::new() };
        assert(r@ =~= Seq::<PoolView>::empty());
        r
    }

    /// Number of pools.
    pub fn len(&self) -> (r: usize)
        ensures
            r == self@.len(),
    {
        self.pools.len()
    }

    /// Native handles of every pool, least recently used first.
    pub fn handles(&self) -> (r: Vec<u64>)
        ensures
            r@.len() == self@.len(),
            forall|i: int| 0 <= i < r@.len() ==> r@[i] == self@[i].handle,
    {
        let mut r: Vec<u64> = Vec::new();
        let mut i: usize = 0;
        while i < self.pools.len()
            invariant
                i <= self.pools@.len(),
                r@.len() == i,
                forall|j: int| 0 <= j < i ==> r@[j] == self@[j].handle,
            decreases self.pools@.len() - i,
        {
            r.push(self.pools[i].handle());
            i = i + 1;
        }
        r
    }

    /// Whether the next allocation starts by resetting the least recently
    /// used pool.
    pub fn needs_reset(&self) -> (r: bool)
        ensures
            r == needs_reset_spec(self@),
    {
        self.pools.len() > 0 && self.pools[0].allocated() == 0
    }

    /// Native handle of the pool to reset.
    pub fn front_handle(&self) -> (r: Option<u64>)
        ensures
            self@.len() == 0 ==> r is None,
            self@.len() > 0 ==> r == Some(self@[0].handle),
    {
        if self.pools.len() == 0 {
            None
        } else {
            Some(self.pools[0].handle())
        }
    }

    /// Applies the outcome of resetting the least recently used pool, when
    /// `needs_reset` asked for it: the reset pool moves to the most recently
    /// used place. A failed reset is reported and changes nothing.
    pub fn refresh(&mut self, reset: Result<(), OutOfMemory>) -> (r: Result<(), OutOfMemory>)
        requires
            pools_wf(old(self)@),
        ensures
            pools_wf(final(self)@),
            !needs_reset_spec(old(self)@) ==> r is Ok && final(self)@ == old(self)@,
            needs_reset_spec(old(self)@) && reset is Err ==> r is Err && final(self)@ == old(self)@,
            needs_reset_spec(old(self)@) && reset is Ok ==> r is Ok && final(self)@ == old(self)@.subrange(
                1,
                old(self)@.len() as int,
            ).push(old(self)@[0]),
    {
        if self.needs_reset() {
            match reset {
                Err(e) => Err(e),
                Ok(()) => {
                    let ghost before = self@;
                    let p = self.pools.remove(0);
                    self.pools.push(p);
                    assert(self@ =~= before.subrange(1, before.len() as int).push(before[0]));
                    proof {
                        assert forall|i: int, j: int| 0 <= i < j < self@.len() implies self@[i].handle
                            != self@[j].handle by {
                            let n = before.len() as int;
                            if j == n - 1 {
                                assert(before[i + 1].handle != before[0].handle);
                            } else {
                                assert(before[i + 1].handle != before[j + 1].handle);
                            }
                        }
                    }
                    Ok(())
                }
            }
        } else {
            Ok(())
        }
    }

    /// Whether the next allocation needs a new native pool.
    pub fn needs_new_pool(&self) -> (r: bool)
        ensures
            r == needs_new_pool_spec(self@),
    {
        let n = self.pools.len();
        n == 0 || (n < MAX_POOLS && self.pools[n - 1].allocated() != 0)
    }

    /// Picks the pool to allocate from: the most recently used one, after
    /// adding the pool that `created` brings when `needs_new_pool` asked for
    /// one. Returns its index; the pool count never passes the bound.
    pub fn get_pool(&mut self, created: Option<Result<u64, OutOfMemory>>) -> (r: Result<usize, OutOfMemory>)
        requires
            pools_wf(old(self)@),
            (created is Some) == needs_new_pool_spec(old(self)@),
            created matches Some(Ok(h)) ==> !has_pool(old(self)@, h),
        ensures
            pools_wf(final(self)@),
            created is None ==> final(self)@ == old(self)@ && r == Ok::<usize, OutOfMemory>(
                (old(self)@.len() - 1) as usize,
            ),
            created matches Some(Err(_)) ==> r is Err && final(self)@ == old(self)@,
            created matches Some(Ok(h)) ==> final(self)@ == old(self)@.push(
                PoolView { handle: h, free: Seq::empty(), allocated: 0 },
            ) && r == Ok::<usize, OutOfMemory>(old(self)@.len() as usize),
    {
        match created {
            None => Ok(self.pools.len() - 1),
            Some(Err(e)) => Err(e),
            Some(Ok(h)) => {
                let ghost before = self@;
                self.pools.push(Pool::new(h));
                assert(self@ =~= before.push(PoolView { handle: h, free: Seq::empty(), allocated: 0 }));
                proof {
                    assert forall|i: int, j: int| 0 <= i < j < self@.len() implies self@[i].handle
                        != self@[j].handle by {
                        if j == before.len() {
                            if self@[i].handle == h {
                                assert(has_pool(before, h));
                            }
                        }
                    }
                }
                Ok(self.pools.len() - 1)
            }
        }
    }

    /// The free command buffer that allocating from pool `idx` reuses.
    pub fn next_free(&self, idx: usize) -> (r: Option<u64>)
        requires
            idx < self@.len(),
        ensures
            self@[idx as int].free.len() == 0 ==> r is None,
            self@[idx as int].free.len() > 0 ==> r == Some(self@[idx as int].free.last()),
    {
        self.pools[idx].next_free()
    }

    /// Native handle of pool `idx`.
    pub fn handle_at(&self, idx: usize) -> (r: u64)
        requires
            idx < self@.len(),
        ensures
            r == self@[idx as int].handle,
    {
        self.pools[idx].handle()
    }

    /// Allocates from pool `idx` as `Pool::allocate` does; the other pools
    /// are untouched.
    pub fn allocate(&mut self, idx: usize, fresh: Option<Result<u64, OutOfMemory>>, begun: bool) -> (r: Result<u64, OutOfMemory>)
        requires
            pools_wf(old(self)@),
            idx < old(self)@.len(),
            (old(self)@[idx as int].free.len() == 0) == (fresh is Some),
            old(self)@[idx as int].allocated < usize::MAX,
        ensures
            pools_wf(final(self)@),
            final(self)@.len() == old(self)@.len(),
            forall|j: int| 0 <= j < old(self)@.len() && j != idx ==> final(self)@[j] == old(self)@[j],
            final(self)@[idx as int].handle == old(self)@[idx as int].handle,
            r is Ok ==> final(self)@[idx as int].allocated == old(self)@[idx as int].allocated + 1,
            old(self)@[idx as int].free.len() > 0 && begun ==> r == Ok::<u64, OutOfMemory>(
                old(self)@[idx as int].free.last(),
            ) && final(self)@[idx as int].free == old(self)@[idx as int].free.drop_last(),
            old(self)@[idx as int].free.len() > 0 && !begun ==> r is Err && final(self)@ == old(self)@,
            fresh matches Some(Err(_)) ==> r is Err && final(self)@ == old(self)@,
            fresh matches Some(Ok(c)) ==> (begun ==> r == Ok::<u64, OutOfMemory>(c)
                && final(self)@[idx as int].free == old(self)@[idx as int].free) && (!begun ==> r is Err
                && final(self)@[idx as int].free == old(self)@[idx as int].free.push(c)
                && final(self)@[idx as int].allocated == old(self)@[idx as int].allocated),
    {
        let ghost before = self@;
        let mut p = self.pools.remove(idx);
        let r = p.allocate(fresh, begun);
        self.pools.insert(idx, p);
        proof {
            assert forall|j: int| 0 <= j < before.len() && j != idx implies self@[j] == before[j] by {}
            if r is Err && (fresh is None || fresh matches Some(Err(_))) {
                assert(self@ =~= before);
            }
            assert forall|i: int, j: int| 0 <= i < j < self@.len() implies self@[i].handle
                != self@[j].handle by {
                assert(before[i].handle != before[j].handle);
            }
        }
        r
    }

    /// Returns command buffer `cbuf` to the pool with handle `pool`, which
    /// made it. Returns whether such a pool was found; without one nothing
    /// changes.
    pub fn deallocate(&mut self, cbuf: u64, pool: u64) -> (found: bool)
        requires
            pools_wf(old(self)@),
        ensures
            pools_wf(final(self)@),
            found == has_pool(old(self)@, pool),
            final(self)@.len() == old(self)@.len(),
            forall|j: int|
                0 <= j < old(self)@.len() ==> #[trigger] final(self)@[j].handle == old(self)@[j].handle,
            forall|j: int|
                0 <= j < old(self)@.len() && old(self)@[j].handle != pool ==> final(self)@[j]
                    == old(self)@[j],
            forall|j: int|
                0 <= j < old(self)@.len() && old(self)@[j].handle == pool ==> final(self)@[j].free
                    == old(self)@[j].free.push(cbuf),
            !found ==> final(self)@ == old(self)@,
            final(self)@ == return_one(old(self)@, (cbuf, pool)),
    {
        let ghost before = self@;
        let mut i: usize = 0;
        while i < self.pools.len()
            invariant
                i <= self.pools@.len(),
                self@ == before,
                before == old(self)@,
                pools_wf(before),
                forall|j: int| 0 <= j < i ==> before[j].handle != pool,
            decreases self.pools@.len() - i,
        {
            if self.pools[i].handle() == pool {
                assert(before[i as int] == self.pools@[i as int]@);
                assert(has_pool(before, pool));
                let mut p = self.pools.remove(i);
                p.deallocate(cbuf);
                self.pools.insert(i, p);
                proof {
                    assert(has_pool(before, pool));
                    assert forall|j: int| 0 <= j < before.len() && j != i implies self@[j] == before[j] by {}
                    assert forall|j: int| 0 <= j < before.len() && before[j].handle == pool implies j == i by {
                        if j != i {
                            if j < i {
                                assert(before[j].handle != before[i as int].handle);
                            } else {
                                assert(before[i as int].handle != before[j].handle);
                            }
                        }
                    }
                    assert forall|a: int, b: int| 0 <= a < b < self@.len() implies self@[a].handle
                        != self@[b].handle by {
                        assert(before[a].handle != before[b].handle);
                    }
                    assert(self@ =~= return_one(before, (cbuf, pool)));
                }
                return true;
            }
            assert(before[i as int] == self.pools@[i as int]@);
            i = i + 1;
        }
        assert(self@ =~= return_one(before, (cbuf, pool)));
        false
    }
}

/// However often command buffers are requested, finished and returned, a
/// queue never holds more than `MAX_POOLS` pools: a new pool is asked for
/// only below the bound, and resetting or returning buffers keeps the count.
pub proof fn pool_count_bound(p: Seq<PoolView>, cs: Seq<(u64, u64)>)
    requires
        pools_wf(p),
    ensures
        p.len() <= MAX_POOLS,
        needs_new_pool_spec(p) ==> p.len() + 1 <= MAX_POOLS,
        needs_reset_spec(p) ==> p.subrange(1, p.len() as int).push(p[0]).len() == p.len(),
        return_all(p, cs).len() == p.len(),
{
    lemma_return_all_keeps_pools(p, cs);
}

} // verus!
