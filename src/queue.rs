use vstd::prelude::*;

use crate::pool::{
    has_pool, lemma_return_all_keeps_pools, needs_new_pool_spec, needs_reset_spec, pools_wf,
    return_all, CommandPools, PoolView,
};
use crate::surface::Frame;
use crate::types::{DeviceError, OutOfMemory};

verus! {

/// Largest number of closed epochs waiting for their fences. When a new
/// epoch is needed and this many are pending, the oldest is waited for and
/// reused.
pub const MAX_EPOCHS: usize = 3;

/// A presentation recorded on a command buffer. `swapchain` is zero for the
/// stand-in image of a zero-area surface, which is signalled but never
/// presented.
#[derive(Clone, Copy, Debug, PartialEq, Eq, Structural)]
pub struct PresentRequest {
    pub swapchain: u64,
    pub image_index: u32,
    pub present: u64,
    pub fence: u64,
}

/// A finished command buffer: its native handle, the pool that made it, the
/// resources it keeps alive, and the presentations recorded on it.
pub struct CommandBuffer {
    pub handle: u64,
    pub pool: u64,
    pub refs: Vec<u64>,
    pub presents: Vec<PresentRequest>,
}

/// What an epoch holds: a fence, the resources that its submissions keep
/// alive, and each submitted command buffer with the pool that made it.
pub struct EpochView {
    pub fence: u64,
    pub refs: Seq<u64>,
    pub cbufs: Seq<(u64, u64)>,
}

/// A generation of submitted work that shares one fence. Its resources are
/// released and its command buffers returned only after the fence signals.
pub struct Epoch {
    fence: u64,
    refs: Vec<u64>,
    cbufs: Vec<(u64, u64)>,
}

impl View for Epoch {
    type V = EpochView;

    closed spec fn view(&self) -> EpochView {
        EpochView { fence: self.fence, refs: self.refs@, cbufs: self.cbufs@ }
    }
}

/// An epoch with fence `f` and nothing in it yet.
pub open spec fn fresh_epoch(f: u64) -> EpochView {
    EpochView { fence: f, refs: Seq::empty(), cbufs: Seq::empty() }
}

/// The resources of all of `cbs`, in order.
pub open spec fn refs_of(cbs: Seq<CommandBuffer>) -> Seq<u64>
    decreases cbs.len(),
{
    if cbs.len() == 0 {
        Seq::empty()
    } else {
        refs_of(cbs.drop_last()) + cbs.last().refs@
    }
}

/// Each of `cbs` as a pair of its handle and its pool.
pub open spec fn handles_of(cbs: Seq<CommandBuffer>) -> Seq<(u64, u64)> {
    cbs.map_values(|c: CommandBuffer| (c.handle, c.pool))
}

/// Epoch `e` after `cbs` were submitted under it.
pub open spec fn with_submitted(e: EpochView, cbs: Seq<CommandBuffer>) -> EpochView {
    EpochView { fence: e.fence, refs: e.refs + refs_of(cbs), cbufs: e.cbufs + handles_of(cbs) }
}

/// Epoch `e` after its fence signalled and it was reset for reuse.
pub open spec fn reset_epoch(e: EpochView) -> EpochView {
    fresh_epoch(e.fence)
}

/// What a queue holds: its command pools, the open epoch if any, the closed
/// epochs oldest first, and the semaphores the next submission waits on.
pub struct QueueView {
    pub pools: Seq<PoolView>,
    pub current: Option<EpochView>,
    pub pending: Seq<EpochView>,
    pub waits: Seq<(u64, u32)>,
}

/// Whether some epoch of `v` keeps resource `id` alive.
pub open spec fn retained(v: QueueView, id: u64) -> bool {
    (v.current matches Some(e) && e.refs.contains(id)) || exists|i: int|
        0 <= i < v.pending.len() && #[trigger] v.pending[i].refs.contains(id)
}

/// Number of epoch objects that exist: the pending ones and the open one.
pub open spec fn epoch_count(v: QueueView) -> nat {
    v.pending.len() + if v.current is Some {
        1nat
    } else {
        0nat
    }
}

/// The queue after `cbs` were submitted with success under the open epoch.
/// A checkpoint closes the epoch, which then waits behind the others.
pub open spec fn submit_next(v: QueueView, cbs: Seq<CommandBuffer>, check_point: bool) -> QueueView {
    let e = with_submitted(v.current.unwrap(), cbs);
    if check_point {
        QueueView { pools: v.pools, current: None, pending: v.pending.push(e), waits: Seq::empty() }
    } else {
        QueueView { pools: v.pools, current: Some(e), pending: v.pending, waits: Seq::empty() }
    }
}

/// What the next submission needs before it can proceed.
#[derive(Clone, Copy, Debug, PartialEq, Eq, Structural)]
pub enum EpochStep {
    /// An epoch is open.
    Ready,
    /// The pending queue is full: wait on this fence of the oldest epoch,
    /// reset the fence, then `recycle_oldest`.
    WaitOldest(u64),
    /// Create a fence, then `open_epoch`.
    CreateFence,
}

/// The native outcome of a queue submission.
#[derive(Clone, Copy, Debug, PartialEq, Eq, Structural)]
pub enum SubmitOutcome {
    Success,
    OutOfDeviceMemory,
    DeviceLost,
}

/// What to hand to the native submission: command buffers, semaphores to
/// wait on with their stages, semaphores to signal, and the fence if the
/// submission is a checkpoint.
pub struct Submission {
    pub cbufs: Vec<u64>,
    pub waits: Vec<(u64, u32)>,
    pub signals: Vec<u64>,
    pub fence: Option<u64>,
}

/// The presentation requests of `cbs`, in order.
pub open spec fn presents_of(cbs: Seq<CommandBuffer>) -> Seq<PresentRequest>
    decreases cbs.len(),
{
    if cbs.len() == 0 {
        Seq::empty()
    } else {
        presents_of(cbs.drop_last()) + cbs.last().presents@
    }
}

/// The semaphores that the presentations `ps` signal.
pub open spec fn signals_of(ps: Seq<PresentRequest>) -> Seq<u64> {
    ps.map_values(|p: PresentRequest| p.present)
}

/// The presentations of `ps` that go to a real swapchain, in order.
pub open spec fn real_presents(ps: Seq<PresentRequest>) -> Seq<PresentRequest>
    decreases ps.len(),
{
    if ps.len() == 0 {
        Seq::empty()
    } else if ps.last().swapchain != 0 {
        real_presents(ps.drop_last()).push(ps.last())
    } else {
        real_presents(ps.drop_last())
    }
}

/// The queue after a wait for idle: every pending epoch has released its
/// resources and keeps its fence and command buffers.
pub open spec fn idle_next(v: QueueView) -> QueueView {
    QueueView {
        pools: v.pools,
        current: v.current,
        pending: v.pending.map_values(
            |e: EpochView| EpochView { fence: e.fence, refs: Seq::empty(), cbufs: e.cbufs },
        ),
        waits: v.waits,
    }
}

/// The queue after its oldest pending epoch was waited for, reset and
/// reopened.
pub open spec fn recycle_next(v: QueueView) -> QueueView {
    QueueView {
        pools: return_all(v.pools, v.pending[0].cbufs),
        current: Some(reset_epoch(v.pending[0])),
        pending: v.pending.subrange(1, v.pending.len() as int),
        waits: v.waits,
    }
}

/// A submission queue with command pools and the epoch pipeline for
/// deferred destruction.
pub struct Queue {
    pools: CommandPools,
    current: Option<Epoch>,
    pending: Vec<Epoch>,
    waits: Vec<(u64, u32)>,
}

impl View for Queue {
    type V = QueueView;

    closed spec fn view(&self) -> QueueView {
        QueueView {
            pools: self.pools@,
            current: match self.current {
                Some(e) => Some(e@),
                None => None,
            },
            pending: self.pending@.map_values(|e: Epoch| e@),
            waits: self.waits@,
        }
    }
}

/// Pools within their bound, at most `MAX_EPOCHS` pending epochs, and fewer
/// while an epoch is open.
pub open spec fn queue_wf(v: QueueView) -> bool {
    &&& pools_wf(v.pools)
    &&& v.pending.len() <= MAX_EPOCHS
    &&& v.current is Some ==> v.pending.len() < MAX_EPOCHS
}

impl Queue {
    /// A queue with no pools and no epochs.
    pub fn new() -> (r: Queue)
        ensures
            queue_wf(r@),
            r@.pools == Seq::<PoolView>::empty(),
            r@.current is None,
            r@.pending == Seq::<EpochView>::empty(),
            r@.waits == Seq::<(u64, u32)>::empty(),
    {
        let r = Queue { pools: CommandPools::new(), current: None, pending: Vec::new(), waits: Vec::new() };
        assert(r@.pending =~= Seq::<EpochView>::empty());
        r
    }

    /// The command pools.
    pub fn pools(&self) -> (r: &CommandPools)
        ensures
            r@ == self@.pools,
    {
        &self.pools
    }

    /// Number of closed epochs waiting for their fences.
    pub fn pending_len(&self) -> (r: usize)
        ensures
            r == self@.pending.len(),
    {
        self.pending.len()
    }

    /// Whether an epoch is open.
    pub fn has_open_epoch(&self) -> (r: bool)
        ensures
            r == (self@.current is Some),
    {
        self.current.is_some()
    }

    /// Applies the outcome of resetting the least recently used pool, as
    /// `CommandPools::refresh` does.
    pub fn refresh_pools(&mut self, reset: Result<(), OutOfMemory>) -> (r: Result<(), OutOfMemory>)
        requires
            queue_wf(old(self)@),
        ensures
            queue_wf(final(self)@),
            final(self)@.current == old(self)@.current,
            final(self)@.pending == old(self)@.pending,
            final(self)@.waits == old(self)@.waits,
            !needs_reset_spec(old(self)@.pools) ==> r is Ok && final(self)@.pools == old(self)@.pools,
            needs_reset_spec(old(self)@.pools) && reset is Err ==> r is Err && final(self)@.pools
                == old(self)@.pools,
            needs_reset_spec(old(self)@.pools) && reset is Ok ==> r is Ok && final(self)@.pools
                == old(self)@.pools.subrange(1, old(self)@.pools.len() as int).push(
                old(self)@.pools[0],
            ),
    {
        self.pools.refresh(reset)
    }

    /// Picks the pool for the next command buffer, as
    /// `CommandPools::get_pool` does.
    pub fn get_pool(&mut self, created: Option<Result<u64, OutOfMemory>>) -> (r: Result<usize, OutOfMemory>)
        requires
            queue_wf(old(self)@),
            (created is Some) == needs_new_pool_spec(old(self)@.pools),
            created matches Some(Ok(h)) ==> !has_pool(old(self)@.pools, h),
        ensures
            queue_wf(final(self)@),
            final(self)@.current == old(self)@.current,
            final(self)@.pending == old(self)@.pending,
            final(self)@.waits == old(self)@.waits,
            created is None ==> final(self)@.pools == old(self)@.pools && r == Ok::<usize, OutOfMemory>(
                (old(self)@.pools.len() - 1) as usize,
            ),
            created matches Some(Err(_)) ==> r is Err && final(self)@.pools == old(self)@.pools,
            created matches Some(Ok(h)) ==> final(self)@.pools == old(self)@.pools.push(
                PoolView { handle: h, free: Seq::empty(), allocated: 0 },
            ) && r == Ok::<usize, OutOfMemory>(old(self)@.pools.len() as usize),
    {
        self.pools.get_pool(created)
    }

    /// Hands out a command buffer of pool `idx` as `CommandPools::allocate`
    /// does, with the pool's handle.
    pub fn allocate(&mut self, idx: usize, fresh: Option<Result<u64, OutOfMemory>>, begun: bool) -> (r: Result<(u64, u64), OutOfMemory>)
        requires
            queue_wf(old(self)@),
            idx < old(self)@.pools.len(),
            (old(self)@.pools[idx as int].free.len() == 0) == (fresh is Some),
            old(self)@.pools[idx as int].allocated < usize::MAX,
        ensures
            queue_wf(final(self)@),
            final(self)@.current == old(self)@.current,
            final(self)@.pending == old(self)@.pending,
            final(self)@.waits == old(self)@.waits,
            final(self)@.pools.len() == old(self)@.pools.len(),
            forall|j: int|
                0 <= j < old(self)@.pools.len() && j != idx ==> final(self)@.pools[j] == old(
                    self,
                )@.pools[j],
            r matches Ok((c, p)) ==> p == old(self)@.pools[idx as int].handle
                && final(self)@.pools[idx as int].allocated == old(self)@.pools[idx as int].allocated + 1,
            old(self)@.pools[idx as int].free.len() > 0 && begun ==> r == Ok::<(u64, u64), OutOfMemory>(
                (old(self)@.pools[idx as int].free.last(), old(self)@.pools[idx as int].handle),
            ),
            old(self)@.pools[idx as int].free.len() > 0 && !begun ==> r is Err && final(self)@.pools
                == old(self)@.pools,
            fresh matches Some(Err(_)) ==> r is Err && final(self)@.pools == old(self)@.pools,
            fresh matches Some(Ok(c)) ==> (begun ==> r == Ok::<(u64, u64), OutOfMemory>(
                (c, old(self)@.pools[idx as int].handle),
            )) && (!begun
                ==> r is Err && final(self)@.pools[idx as int].free == old(self)@.pools[idx as int].free.push(c)),
    {
        let h = self.pools.handle_at(idx);
        match self.pools.allocate(idx, fresh, begun) {
            Ok(c) => Ok((c, h)),
            Err(e) => Err(e),
        }
    }

    /// Registers a semaphore that the next submission waits on before
    /// `stage`.
    pub fn add_wait(&mut self, semaphore: u64, stage: u32)
        ensures
            final(self)@.pools == old(self)@.pools,
            final(self)@.current == old(self)@.current,
            final(self)@.pending == old(self)@.pending,
            final(self)@.waits == old(self)@.waits.push((semaphore, stage)),
    {
        self.waits.push((semaphore, stage));
    }

    /// Synchronizes the access to `frame`: the next submission waits on its
    /// acquire semaphore, if it has one, before `stage`. A frame is
    /// synchronized exactly once.
    pub fn sync_frame(&mut self, frame: &mut Frame, stage: u32)
        requires
            !old(frame).synced,
        ensures
            final(frame).synced,
            final(frame).swapchain == old(frame).swapchain,
            final(frame).image == old(frame).image,
            final(frame).idx == old(frame).idx,
            final(frame).acquire == old(frame).acquire,
            final(frame).present == old(frame).present,
            final(self)@.pools == old(self)@.pools,
            final(self)@.current == old(self)@.current,
            final(self)@.pending == old(self)@.pending,
            old(frame).acquire != 0 ==> final(self)@.waits == old(self)@.waits.push((old(frame).acquire, stage)),
            old(frame).acquire == 0 ==> final(self)@.waits == old(self)@.waits,
    {
        match frame.sync() {
            Some(s) => self.add_wait(s, stage),
            None => {},
        }
    }

    /// What the next submission needs: nothing while an epoch is open; else
    /// the oldest epoch's fence when the pending queue is full; else a new
    /// fence.
    pub fn epoch_step(&self) -> (r: EpochStep)
        requires
            queue_wf(self@),
        ensures
            self@.current is Some ==> r == EpochStep::Ready,
            self@.current is None && self@.pending.len() >= MAX_EPOCHS ==> r == EpochStep::WaitOldest(
                self@.pending[0].fence,
            ),
            self@.current is None && self@.pending.len() < MAX_EPOCHS ==> r == EpochStep::CreateFence,
    {
        if self.current.is_some() {
            EpochStep::Ready
        } else if self.pending.len() >= MAX_EPOCHS {
            EpochStep::WaitOldest(self.pending[0].fence)
        } else {
            EpochStep::CreateFence
        }
    }

    /// Opens a new epoch with the fence that was created for it.
    pub fn open_epoch(&mut self, fence: Result<u64, OutOfMemory>) -> (r: Result<(), DeviceError>)
        requires
            queue_wf(old(self)@),
            old(self)@.current is None,
            old(self)@.pending.len() < MAX_EPOCHS,
        ensures
            queue_wf(final(self)@),
            final(self)@.pools == old(self)@.pools,
            final(self)@.pending == old(self)@.pending,
            final(self)@.waits == old(self)@.waits,
            fence matches Ok(f) ==> r is Ok && final(self)@.current == Some(fresh_epoch(f)),
            fence is Err ==> r == Err::<(), DeviceError>(DeviceError::OutOfMemory) && final(self)@.current
                is None,
    {
        match fence {
            Ok(f) => {
                self.current = Some(Epoch { fence: f, refs: Vec::new(), cbufs: Vec::new() });
                proof {
                    assert(self@.current.unwrap().refs =~= Seq::<u64>::empty());
                    assert(self@.current.unwrap().cbufs =~= Seq::<(u64, u64)>::empty());
                }
                Ok(())
            }
            Err(_) => Err(DeviceError::OutOfMemory),
        }
    }

    /// Returns every command buffer of `cs` to its pool.
    fn return_cbufs(&mut self, cs: &Vec<(u64, u64)>)
        requires
            queue_wf(old(self)@),
        ensures
            queue_wf(final(self)@),
            final(self)@.pools == return_all(old(self)@.pools, cs@),
            final(self)@.current == old(self)@.current,
            final(self)@.pending == old(self)@.pending,
            final(self)@.waits == old(self)@.waits,
    {
        let ghost p0 = self@.pools;
        let mut i: usize = 0;
        while i < cs.len()
            invariant
                i <= cs@.len(),
                queue_wf(self@),
                self@.pools == return_all(p0, cs@.take(i as int)),
                self@.current == old(self)@.current,
                self@.pending == old(self)@.pending,
                self@.waits == old(self)@.waits,
            decreases cs@.len() - i,
        {
            let (c, p) = cs[i];
            self.pools.deallocate(c, p);
            assert(cs@.take(i + 1).drop_last() =~= cs@.take(i as int));
            i = i + 1;
        }
        assert(cs@.take(cs@.len() as int) =~= cs@);
    }

    /// Reuses the oldest pending epoch once its fence was waited for:
    /// `waited` is the wait's outcome and `reset` that of resetting the
    /// fence. After a successful wait the epoch's resources are released and
    /// its command buffers returned to their pools; it becomes the open epoch
    /// if its fence was reset, and stays oldest otherwise.
    pub fn recycle_oldest(&mut self, waited: Result<(), DeviceError>, reset: Result<(), OutOfMemory>) -> (r: Result<(), DeviceError>)
        requires
            queue_wf(old(self)@),
            old(self)@.current is None,
            old(self)@.pending.len() >= MAX_EPOCHS,
        ensures
            queue_wf(final(self)@),
            final(self)@.waits == old(self)@.waits,
            waited matches Err(e) ==> r == Err::<(), DeviceError>(e) && final(self)@ == old(self)@,
            waited is Ok ==> final(self)@.pools == return_all(old(self)@.pools, old(self)@.pending[0].cbufs),
            waited is Ok && reset is Err ==> r == Err::<(), DeviceError>(DeviceError::OutOfMemory)
                && final(self)@.current is None && final(self)@.pending == old(self)@.pending.update(
                0,
                reset_epoch(old(self)@.pending[0]),
            ),
            waited is Ok && reset is Ok ==> final(self)@ == recycle_next(old(self)@),
            waited is Ok && reset is Ok ==> r is Ok && final(self)@.current == Some(
                reset_epoch(old(self)@.pending[0]),
            ) && final(self)@.pending == old(self)@.pending.subrange(
                1,
                old(self)@.pending.len() as int,
            ),
    {
        match waited {
            Err(e) => {
                return Err(e);
            },
            Ok(()) => {},
        }
        let ghost before = self@;
        let oldest = self.pending.remove(0);
        let ghost rest = self@.pending;
        assert(rest =~= before.pending.subrange(1, before.pending.len() as int));
        self.return_cbufs(&oldest.cbufs);
        let recycled = Epoch { fence: oldest.fence, refs: Vec::new(), cbufs: Vec::new() };
        assert(recycled@ =~= reset_epoch(before.pending[0]));
        proof { lemma_return_all_keeps_pools(before.pools, oldest.cbufs@); }
        match reset {
            Ok(()) => {
                self.current = Some(recycled);
                Ok(())
            },
            Err(_) => {
                let ghost mid = self.pending@;
                self.pending.insert(0, recycled);
                proof {
                    assert(self.pending@ == mid.insert(0, recycled));
                    assert forall|j: int| 0 < j < self@.pending.len() implies self@.pending[j]
                        == before.pending[j] by {
                        assert(self.pending@[j] == mid[j - 1]);
                        assert(rest[j - 1] == mid[j - 1]@);
                    }
                    assert(self@.pending =~= before.pending.update(0, reset_epoch(before.pending[0])));
                }
                Err(DeviceError::OutOfMemory)
            },
        }
    }
    /// Each of `cbs` as a pair of its handle and its pool.
    fn cbuf_handles(cbs: &Vec<CommandBuffer>) -> (r: Vec<(u64, u64)>)
        ensures
            r@ == handles_of(cbs@),
    {
        let mut r: Vec<(u64, u64)> = Vec::new();
        let mut i: usize = 0;
        while i < cbs.len()
            invariant
                i <= cbs@.len(),
                r@ == handles_of(cbs@.take(i as int)),
            decreases cbs@.len() - i,
        {
            r.push((cbs[i].handle, cbs[i].pool));
            assert(handles_of(cbs@.take(i + 1)) =~= handles_of(cbs@.take(i as int)).push(
                (cbs@[i as int].handle, cbs@[i as int].pool),
            ));
            i = i + 1;
        }
        assert(cbs@.take(cbs@.len() as int) =~= cbs@);
        r
    }

    /// What to hand to the native submission of `cbs`: their handles, the
    /// registered waits, a signal for every presentation they recorded, and
    /// the open epoch's fence if this is a checkpoint.
    pub fn submission(&self, cbs: &Vec<CommandBuffer>, check_point: bool) -> (r: Submission)
        requires
            self@.current is Some,
        ensures
            r.cbufs@ == cbs@.map_values(|c: CommandBuffer| c.handle),
            r.waits@ == self@.waits,
            r.signals@ == signals_of(presents_of(cbs@)),
            check_point ==> r.fence == Some(self@.current.unwrap().fence),
            !check_point ==> r.fence is None,
    {
        let mut handles: Vec<u64> = Vec::new();
        let mut signals: Vec<u64> = Vec::new();
        let mut i: usize = 0;
        while i < cbs.len()
            invariant
                i <= cbs@.len(),
                handles@ == cbs@.take(i as int).map_values(|c: CommandBuffer| c.handle),
                signals@ == signals_of(presents_of(cbs@.take(i as int))),
            decreases cbs@.len() - i,
        {
            let cb = &cbs[i];
            handles.push(cb.handle);
            let mut j: usize = 0;
            while j < cb.presents.len()
                invariant
                    i < cbs@.len(),
                    *cb == cbs@[i as int],
                    j <= cb.presents@.len(),
                    signals@ == signals_of(presents_of(cbs@.take(i as int)) + cb.presents@.take(j as int)),
                decreases cb.presents@.len() - j,
            {
                signals.push(cb.presents[j].present);
                assert(presents_of(cbs@.take(i as int)) + cb.presents@.take(j + 1) =~= (presents_of(
                    cbs@.take(i as int),
                ) + cb.presents@.take(j as int)).push(cb.presents@[j as int]));
                j = j + 1;
            }
            assert(cbs@.take(i + 1).drop_last() =~= cbs@.take(i as int));
            assert(cb.presents@.take(cb.presents@.len() as int) =~= cb.presents@);
            assert(handles@ =~= cbs@.take(i + 1).map_values(|c: CommandBuffer| c.handle));
            i = i + 1;
        }
        assert(cbs@.take(cbs@.len() as int) =~= cbs@);
        let fence = if check_point {
            match &self.current {
                Some(e) => Some(e.fence),
                None => None,
            }
        } else {
            None
        };
        let mut waits: Vec<(u64, u32)> = Vec::new();
        let mut k: usize = 0;
        while k < self.waits.len()
            invariant
                k <= self.waits@.len(),
                waits@ == self.waits@.take(k as int),
            decreases self.waits@.len() - k,
        {
            waits.push(self.waits[k]);
            assert(self.waits@.take(k + 1) =~= self.waits@.take(k as int).push(self.waits@[k as int]));
            k = k + 1;
        }
        assert(self.waits@.take(self.waits@.len() as int) =~= self.waits@);
        Submission { cbufs: handles, waits, signals, fence }
    }

    /// The presentations of `cbs` that go to a real swapchain, to present
    /// after a successful submission.
    pub fn presents(cbs: &Vec<CommandBuffer>) -> (r: Vec<PresentRequest>)
        ensures
            r@ == real_presents(presents_of(cbs@)),
    {
        let mut r: Vec<PresentRequest> = Vec::new();
        let mut i: usize = 0;
        while i < cbs.len()
            invariant
                i <= cbs@.len(),
                r@ == real_presents(presents_of(cbs@.take(i as int))),
            decreases cbs@.len() - i,
        {
            let cb = &cbs[i];
            let mut j: usize = 0;
            while j < cb.presents.len()
                invariant
                    i < cbs@.len(),
                    *cb == cbs@[i as int],
                    j <= cb.presents@.len(),
                    r@ == real_presents(presents_of(cbs@.take(i as int)) + cb.presents@.take(j as int)),
                decreases cb.presents@.len() - j,
            {
                let pr = cb.presents[j];
                let ghost prev = presents_of(cbs@.take(i as int)) + cb.presents@.take(j as int);
                assert(prev.push(pr).drop_last() =~= prev);
                assert(presents_of(cbs@.take(i as int)) + cb.presents@.take(j + 1) =~= prev.push(pr));
                if pr.swapchain != 0 {
                    r.push(pr);
                }
                j = j + 1;
            }
            assert(cbs@.take(i + 1).drop_last() =~= cbs@.take(i as int));
            assert(cb.presents@.take(cb.presents@.len() as int) =~= cb.presents@);
            i = i + 1;
        }
        assert(cbs@.take(cbs@.len() as int) =~= cbs@);
        r
    }

    /// Drops command buffers without submitting them: each returns to the
    /// pool that made it and its resources are released.
    pub fn discard(&mut self, cbs: Vec<CommandBuffer>)
        requires
            queue_wf(old(self)@),
        ensures
            queue_wf(final(self)@),
            final(self)@.pools == return_all(old(self)@.pools, handles_of(cbs@)),
            final(self)@.current == old(self)@.current,
            final(self)@.pending == old(self)@.pending,
            final(self)@.waits == old(self)@.waits,
    {
        let hs = Self::cbuf_handles(&cbs);
        self.return_cbufs(&hs);
    }

    /// Applies the outcome of the native submission of `cbs`, which needs an
    /// open epoch. On success their resources and command buffers join the
    /// open epoch, the waits are consumed, and a checkpoint closes the epoch.
    /// When device memory ran out the command buffers return to their pools
    /// and their resources are released. When the device is lost they are
    /// dropped and nothing else changes.
    pub fn submit(&mut self, cbs: Vec<CommandBuffer>, check_point: bool, outcome: SubmitOutcome) -> (r: Result<(), DeviceError>)
        requires
            queue_wf(old(self)@),
            old(self)@.current is Some,
        ensures
            queue_wf(final(self)@),
            outcome == SubmitOutcome::Success ==> r is Ok && final(self)@ == submit_next(
                old(self)@,
                cbs@,
                check_point,
            ),
            outcome == SubmitOutcome::OutOfDeviceMemory ==> r == Err::<(), DeviceError>(
                DeviceError::OutOfMemory,
            ) && final(self)@.pools == return_all(old(self)@.pools, handles_of(cbs@))
                && final(self)@.current == old(self)@.current && final(self)@.pending == old(
                self,
            )@.pending && final(self)@.waits == old(self)@.waits,
            outcome == SubmitOutcome::DeviceLost ==> r == Err::<(), DeviceError>(
                DeviceError::DeviceLost,
            ) && final(self)@ == old(self)@,
    {
        match outcome {
            SubmitOutcome::DeviceLost => {
                return Err(DeviceError::DeviceLost);
            },
            SubmitOutcome::OutOfDeviceMemory => {
                self.discard(cbs);
                return Err(DeviceError::OutOfMemory);
            },
            SubmitOutcome::Success => {},
        }
        let ghost before = self@;
        let mut e = match self.current.take() {
            Some(e) => e,
            None => {
                return Err(DeviceError::DeviceLost);
            },
        };
        let ghost e0 = e@;
        let mut i: usize = 0;
        while i < cbs.len()
            invariant
                i <= cbs@.len(),
                e@ == with_submitted(e0, cbs@.take(i as int)),
            decreases cbs@.len() - i,
        {
            let cb = &cbs[i];
            let mut j: usize = 0;
            while j < cb.refs.len()
                invariant
                    i < cbs@.len(),
                    *cb == cbs@[i as int],
                    j <= cb.refs@.len(),
                    e@.fence == e0.fence,
                    e@.refs == e0.refs + refs_of(cbs@.take(i as int)) + cb.refs@.take(j as int),
                    e@.cbufs == e0.cbufs + handles_of(cbs@.take(i as int)),
                decreases cb.refs@.len() - j,
            {
                e.refs.push(cb.refs[j]);
                assert(cb.refs@.take(j + 1) =~= cb.refs@.take(j as int).push(cb.refs@[j as int]));
                assert(e@.refs =~= e0.refs + refs_of(cbs@.take(i as int)) + cb.refs@.take(j + 1));
                j = j + 1;
            }
            e.cbufs.push((cb.handle, cb.pool));
            proof {
                let t = cbs@.take(i + 1);
                assert(t.drop_last() =~= cbs@.take(i as int));
                assert(cb.refs@.take(cb.refs@.len() as int) =~= cb.refs@);
                assert(e@.refs =~= e0.refs + refs_of(t));
                assert(handles_of(t) =~= handles_of(cbs@.take(i as int)).push((cb.handle, cb.pool)));
                assert(e@.cbufs =~= e0.cbufs + handles_of(t));
            }
            i = i + 1;
        }
        assert(cbs@.take(cbs@.len() as int) =~= cbs@);
        self.waits.clear();
        if check_point {
            self.pending.push(e);
            assert(self@.pending =~= before.pending.push(with_submitted(e0, cbs@)));
        } else {
            self.current = Some(e);
        }
        assert(self@.waits =~= Seq::<(u64, u32)>::empty());
        Ok(())
    }

    /// Applies the outcome of waiting until the native queue is idle. After
    /// a successful wait every pending epoch releases its resources; its
    /// fence and command buffers wait for the next recycling.
    pub fn wait_idle(&mut self, result: Result<(), OutOfMemory>) -> (r: Result<(), OutOfMemory>)
        requires
            queue_wf(old(self)@),
        ensures
            queue_wf(final(self)@),
            r == result,
            result is Ok ==> final(self)@ == idle_next(old(self)@),
            result is Err ==> final(self)@ == old(self)@,
    {
        if result.is_err() {
            return result;
        }
        let ghost before = self@;
        let mut i: usize = 0;
        while i < self.pending.len()
            invariant
                i <= self@.pending.len(),
                self@.pending.len() == before.pending.len(),
                self@.pools == before.pools,
                self@.current == before.current,
                self@.waits == before.waits,
                forall|j: int| 0 <= j < i ==> #[trigger] self@.pending[j] == idle_next(before).pending[j],
                forall|j: int| i <= j < self@.pending.len() ==> #[trigger] self@.pending[j] == before.pending[j],
            decreases self@.pending.len() - i,
        {
            let ghost mid = self.pending@;
            let ghost midv = self@.pending;
            let mut e = self.pending.remove(i);
            e.refs = Vec::new();
            self.pending.insert(i, e);
            proof {
                assert(self.pending@ == mid.remove(i as int).insert(i as int, e));
                assert(e@.refs =~= Seq::<u64>::empty());
                assert forall|j: int| 0 <= j < self@.pending.len() && j != i implies self@.pending[j]
                    == midv[j] by {
                    assert(midv[j] == mid[j]@);
                }
                assert(midv[i as int] == mid[i as int]@);
                assert(self@.pending[i as int] == idle_next(before).pending[i as int]);
                assert forall|j: int| 0 <= j < i + 1 implies #[trigger] self@.pending[j] == idle_next(
                    before,
                ).pending[j] by {
                    if j < i {
                        assert(midv[j] == idle_next(before).pending[j]);
                    }
                }
                assert forall|j: int| i + 1 <= j < self@.pending.len() implies #[trigger] self@.pending[j]
                    == before.pending[j] by {
                    assert(midv[j] == before.pending[j]);
                }
            }
            i = i + 1;
        }
        assert(self@.pending =~= idle_next(before).pending);
        result
    }

    /// Whether some epoch keeps resource `id` alive.
    pub fn is_retained(&self, id: u64) -> (r: bool)
        ensures
            r == retained(self@, id),
    {
        if let Some(e) = &self.current {
            if contains(&e.refs, id) {
                return true;
            }
        }
        let mut i: usize = 0;
        while i < self.pending.len()
            invariant
                i <= self@.pending.len(),
                !(self@.current matches Some(e) && e.refs.contains(id)),
                forall|j: int| 0 <= j < i ==> !(#[trigger] self@.pending[j].refs.contains(id)),
            decreases self@.pending.len() - i,
        {
            if contains(&self.pending[i].refs, id) {
                assert(self@.pending[i as int].refs.contains(id));
                return true;
            }
            i = i + 1;
        }
        false
    }

    /// Number of epoch objects in existence.
    pub fn epoch_count(&self) -> (r: usize)
        requires
            queue_wf(self@),
        ensures
            r == epoch_count(self@),
    {
        self.pending.len() + if self.current.is_some() {
            1
        } else {
            0
        }
    }

    /// Takes the queue apart once the device is idle: every epoch's fence to
    /// destroy, and the handles of all pools, after each command buffer
    /// returned to its pool.
    pub fn teardown(self) -> (r: (Vec<u64>, Vec<u64>))
        requires
            queue_wf(self@),
        ensures
            r.0@.len() == self@.pending.len() + if self@.current is Some {
                1int
            } else {
                0int
            },
            forall|j: int| 0 <= j < self@.pending.len() ==> r.0@[j] == self@.pending[j].fence,
            self@.current matches Some(e) ==> r.0@.last() == e.fence,
            r.1@.len() == self@.pools.len(),
            forall|j: int| 0 <= j < self@.pools.len() ==> r.1@[j] == self@.pools[j].handle,
    {
        let mut q = self;
        let ghost v = q@;
        let mut fences: Vec<u64> = Vec::new();
        let mut i: usize = 0;
        while i < q.pending.len()
            invariant
                i <= q@.pending.len(),
                queue_wf(q@),
                q@.pending == v.pending,
                q@.current == v.current,
                q@.pools.len() == v.pools.len(),
                forall|j: int| 0 <= j < v.pools.len() ==> #[trigger] q@.pools[j].handle == v.pools[j].handle,
                fences@.len() == i,
                forall|j: int| 0 <= j < i ==> fences@[j] == v.pending[j].fence,
            decreases q@.pending.len() - i,
        {
            let cs = q.pending[i].cbufs.clone();
            proof { lemma_return_all_keeps_pools(q@.pools, cs@); }
            q.return_cbufs(&cs);
            fences.push(q.pending[i].fence);
            i = i + 1;
        }
        match q.current.take() {
            Some(e) => {
                fences.push(e.fence);
            },
            None => {},
        }
        (fences, q.pools.handles())
    }
}

/// Whether `v` holds `x`.
fn contains(v: &Vec<u64>, x: u64) -> (r: bool)
    ensures
        r == v@.contains(x),
{
    let mut i: usize = 0;
    while i < v.len()
        invariant
            i <= v@.len(),
            forall|j: int| 0 <= j < i ==> v@[j] != x,
        decreases v@.len() - i,
    {
        if v[i] == x {
            return true;
        }
        i = i + 1;
    }
    false
}

/// Epochs stay bounded: in every state that the queue operations keep, at
/// most `MAX_EPOCHS` closed epochs wait and at most one more is open, so the
/// epoch objects in existence never exceed `MAX_EPOCHS + 1`; a submission,
/// checkpointed or not, and the recycling of the oldest epoch both keep
/// this, however many submissions were made.
pub proof fn epoch_bound(v: QueueView, cbs: Seq<CommandBuffer>, check_point: bool)
    requires
        queue_wf(v),
    ensures
        epoch_count(v) <= MAX_EPOCHS + 1,
        v.current is Some ==> queue_wf(submit_next(v, cbs, check_point)) && epoch_count(
            submit_next(v, cbs, check_point),
        ) <= MAX_EPOCHS + 1,
        v.current is None && v.pending.len() >= MAX_EPOCHS ==> queue_wf(recycle_next(v))
            && epoch_count(recycle_next(v)) <= MAX_EPOCHS + 1,
{
    if v.current is None && v.pending.len() >= MAX_EPOCHS {
        lemma_return_all_keeps_pools(v.pools, v.pending[0].cbufs);
    }
}

/// A successful submission keeps every resource that its command buffers
/// reference alive, and everything that was kept alive before stays so.
pub proof fn submitted_refs_retained(v: QueueView, cbs: Seq<CommandBuffer>, check_point: bool, id: u64)
    requires
        queue_wf(v),
        v.current is Some,
        refs_of(cbs).contains(id) || retained(v, id),
    ensures
        retained(submit_next(v, cbs, check_point), id),
{
    let e = v.current.unwrap();
    let e2 = with_submitted(e, cbs);
    let n = submit_next(v, cbs, check_point);
    if e.refs.contains(id) {
        let k = choose|k: int| 0 <= k < e.refs.len() && e.refs[k] == id;
        assert(e2.refs[k] == id);
        assert(e2.refs.contains(id));
    } else if refs_of(cbs).contains(id) {
        let k = choose|k: int| 0 <= k < refs_of(cbs).len() && refs_of(cbs)[k] == id;
        assert(e2.refs[e.refs.len() + k] == id);
        assert(e2.refs.contains(id));
    } else {
        let i = choose|i: int| 0 <= i < v.pending.len() && #[trigger] v.pending[i].refs.contains(id);
        if check_point {
            assert(n.pending[i] == v.pending[i]);
            assert(n.pending[i].refs.contains(id));
        }
    }
    if !check_point {
        assert(n.current == Some(e2));
        assert(n.pending == v.pending);
    }
    if check_point && (e.refs.contains(id) || refs_of(cbs).contains(id)) {
        assert(n.pending[v.pending.len() as int] == e2);
        assert(n.pending[v.pending.len() as int].refs.contains(id));
    }
}

/// Recycling the oldest pending epoch, which happens only after its fence
/// was waited for, releases only that epoch's resources: a resource kept
/// alive by any younger epoch or by the open one stays alive.
pub proof fn recycle_releases_only_oldest(v: QueueView, id: u64)
    requires
        queue_wf(v),
        v.current is None,
        v.pending.len() >= MAX_EPOCHS,
        exists|i: int| 1 <= i < v.pending.len() && #[trigger] v.pending[i].refs.contains(id),
    ensures
        retained(recycle_next(v), id),
{
    let i = choose|i: int| 1 <= i < v.pending.len() && #[trigger] v.pending[i].refs.contains(id);
    assert(recycle_next(v).pending[i - 1] == v.pending[i]);
}


} // verus!
