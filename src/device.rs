use vstd::prelude::*;

use crate::cache::{acquire_result, acquire_next, install_next, is_live, release_destroys, release_next, DedupCache, Slot};
use crate::registry::{holds, teardown_rank, tracked_kind, HandleKind, PoolKind, Registry};
use crate::layout::{PipelineLayoutDesc, SetLayoutDesc};
use crate::sampler::SamplerDesc;
use crate::desc::ArgumentLayout;
use crate::desc::Memory;
use crate::format::PixelFormat;
use crate::image::{Swizzle, ViewDesc};
use crate::types::{allocation_failure_of, classify, classify_allocation, failure_of, AllocationFailure, Failure, NativeError, OutOfMemory};

verus! {

/// Memory the device reads fast.
pub const FAST_DEVICE_ACCESS: u8 = 0x01;

/// Memory the host can map.
pub const HOST_ACCESS: u8 = 0x02;

/// Memory the host reads back.
pub const DOWNLOAD: u8 = 0x04;

/// Memory the host writes for the device.
pub const UPLOAD: u8 = 0x08;

/// The allocator usage flags of each kind of memory.
pub open spec fn usage_of(m: Memory) -> u8 {
    match m {
        Memory::Device => FAST_DEVICE_ACCESS,
        Memory::Shared => HOST_ACCESS,
        Memory::Upload => HOST_ACCESS | UPLOAD,
        Memory::Download => HOST_ACCESS | DOWNLOAD,
    }
}

/// A request to the memory sub-allocator.
#[derive(Clone, Copy, Debug, PartialEq, Eq, Structural)]
pub struct AllocRequest {
    pub size: u64,
    pub align_mask: u64,
    pub usage: u8,
    pub memory_types: u32,
}

/// The allocator usage flags of `memory`.
pub fn memory_usage(memory: Memory) -> (r: u8)
    ensures
        r == usage_of(memory),
{
    match memory {
        Memory::Device => FAST_DEVICE_ACCESS,
        Memory::Shared => HOST_ACCESS,
        Memory::Upload => HOST_ACCESS | UPLOAD,
        Memory::Download => HOST_ACCESS | DOWNLOAD,
    }
}

/// The allocation request for an object that needs `size` bytes aligned to
/// `alignment` (a power of two, as the driver reports it) in one of the
/// memory types of `type_bits`.
pub fn memory_request(size: u64, alignment: u64, type_bits: u32, memory: Memory) -> (r: AllocRequest)
    requires
        alignment > 0,
    ensures
        r.size == size,
        r.align_mask == alignment - 1,
        r.memory_types == type_bits,
        r.usage == usage_of(memory),
{
    AllocRequest { size, align_mask: alignment - 1, usage: memory_usage(memory), memory_types: type_bits }
}

/// The size of a new buffer as the driver takes it: out of memory when
/// `size` does not fit.
pub fn buffer_size(size: usize) -> (r: Result<u64, OutOfMemory>)
    ensures
        size <= u64::MAX ==> r == Ok::<u64, OutOfMemory>(size as u64),
        size > u64::MAX ==> r is Err,
{
    if size as u128 <= u64::MAX as u128 {
        Ok(size as u64)
    } else {
        Err(OutOfMemory)
    }
}

/// The view of a whole new image: its format, every layer and level, as-is.
pub fn default_view(format: PixelFormat, layers: u32, levels: u32) -> (r: ViewDesc)
    ensures
        r == (ViewDesc {
            format,
            base_layer: 0,
            layers,
            base_level: 0,
            levels,
            swizzle: Swizzle::identity_spec(),
        }),
{
    ViewDesc { format, base_layer: 0, layers, base_level: 0, levels, swizzle: Swizzle::identity() }
}

/// What follows a step of creating a buffer or an image.
#[derive(Clone, Copy, Debug, PartialEq, Eq, Structural)]
pub enum CreateStep {
    /// Memory was allocated: bind it to the object.
    Bind,
    /// The image is bound to its memory: create its default view.
    CreateView,
    /// Undo: destroy `object`, free its memory block if `free_block`, and
    /// report `error`.
    RollBack { object: u64, free_block: bool, error: Failure },
    /// The buffer is made and tracked under this index.
    Buffer(usize),
    /// The image and its default view are made and tracked under these
    /// indices.
    Image { image: usize, view: usize },
}

/// What follows the allocation of memory for the new buffer or image
/// `object`: binding, or destroying the object and reporting the failure.
pub fn after_allocation(object: u64, alloc: Result<(), AllocationFailure>) -> (r: CreateStep)
    ensures
        alloc is Ok ==> r == CreateStep::Bind,
        alloc matches Err(e) ==> r == (CreateStep::RollBack {
            object,
            free_block: false,
            error: allocation_failure_of(e),
        }),
{
    match alloc {
        Ok(()) => CreateStep::Bind,
        Err(e) => CreateStep::RollBack { object, free_block: false, error: classify_allocation(e) },
    }
}

/// What follows binding memory to the new image `image`: its default view,
/// or destroying it and freeing its memory.
pub fn after_image_bind(image: u64, bound: Result<(), NativeError>) -> (r: CreateStep)
    ensures
        bound is Ok ==> r == CreateStep::CreateView,
        bound matches Err(e) ==> r == (CreateStep::RollBack { object: image, free_block: true, error: failure_of(e) }),
{
    match bound {
        Ok(()) => CreateStep::CreateView,
        Err(e) => CreateStep::RollBack { object: image, free_block: true, error: classify(e) },
    }
}

/// The device-level state shared by all resources: the deduplicating
/// caches of samplers, descriptor set layouts and pipeline layouts, the
/// device's limit on sampler objects, and the index pools of every other
/// native handle it made.
pub struct Device {
    samplers: DedupCache<SamplerDesc>,
    set_layouts: DedupCache<SetLayoutDesc>,
    pipeline_layouts: DedupCache<PipelineLayoutDesc>,
    max_samplers: u32,
    registry: Registry,
}

impl Device {
    pub closed spec fn wf(&self) -> bool {
        &&& self.samplers.wf()
        &&& self.set_layouts.wf()
        &&& self.pipeline_layouts.wf()
    }

    /// The descriptor set layout cache.
    pub closed spec fn set_layouts(&self) -> Map<Seq<ArgumentLayout>, Slot> {
        self.set_layouts@
    }

    /// The pipeline layout cache.
    pub closed spec fn pipeline_layouts(&self) -> Map<(Seq<Seq<ArgumentLayout>>, usize), Slot> {
        self.pipeline_layouts@
    }

    /// The sampler cache.
    pub closed spec fn samplers(&self) -> Map<SamplerDesc, Slot> {
        self.samplers@
    }

    /// Number of sampler descriptions recorded, live or expired.
    pub closed spec fn sampler_entries(&self) -> nat {
        self.samplers.entry_count()
    }

    /// The handles of kind `t` that the device tracks, by index.
    pub closed spec fn handles(&self, t: PoolKind) -> Map<usize, u64> {
        self.registry.handles(t)
    }

    /// The most sampler objects the device can hold.
    pub closed spec fn max_samplers(&self) -> u32 {
        self.max_samplers
    }

    /// A device that can hold `max_samplers` sampler objects.
    pub fn new(max_samplers: u32) -> (r: Device)
        ensures
            r.wf(),
            r.samplers() == Map::<SamplerDesc, Slot>::empty(),
            r.set_layouts() == Map::<Seq<ArgumentLayout>, Slot>::empty(),
            r.pipeline_layouts() == Map::<(Seq<Seq<ArgumentLayout>>, usize), Slot>::empty(),
            r.sampler_entries() == 0,
            r.max_samplers() == max_samplers,
            forall|t: PoolKind| #[trigger] r.handles(t) == Map::<usize, u64>::empty(),
    {
        Device {
            samplers: DedupCache::new(),
            set_layouts: DedupCache::new(),
            pipeline_layouts: DedupCache::new(),
            max_samplers,
            registry: Registry::new(),
        }
    }

    /// Records the native handle `h` of a new resource of kind `t`; returns
    /// the index under which its last owner gives it back.
    pub fn track(&mut self, t: PoolKind, h: u64) -> (idx: usize)
        ensures
            final(self).wf() == old(self).wf(),
            final(self).samplers() == old(self).samplers(),
            final(self).set_layouts() == old(self).set_layouts(),
            final(self).pipeline_layouts() == old(self).pipeline_layouts(),
            final(self).sampler_entries() == old(self).sampler_entries(),
            final(self).max_samplers() == old(self).max_samplers(),
            !old(self).handles(t).contains_key(idx),
            final(self).handles(t) == old(self).handles(t).insert(idx, h),
            forall|u: PoolKind| u != t ==> #[trigger] final(self).handles(u) == old(self).handles(u),
    {
        self.registry.add(t, h)
    }

    /// The last owner of the resource of kind `t` under `idx` dropped it:
    /// forgets it and returns the native handle to destroy.
    pub fn untrack(&mut self, t: PoolKind, idx: usize) -> (h: u64)
        requires
            old(self).handles(t).contains_key(idx),
        ensures
            final(self).wf() == old(self).wf(),
            final(self).samplers() == old(self).samplers(),
            final(self).set_layouts() == old(self).set_layouts(),
            final(self).pipeline_layouts() == old(self).pipeline_layouts(),
            final(self).sampler_entries() == old(self).sampler_entries(),
            final(self).max_samplers() == old(self).max_samplers(),
            h == old(self).handles(t)[idx],
            final(self).handles(t) == old(self).handles(t).remove(idx),
            forall|u: PoolKind| u != t ==> #[trigger] final(self).handles(u) == old(self).handles(u),
    {
        self.registry.remove(t, idx)
    }

    /// Whether a handle of kind `t` is tracked under `idx`.
    pub fn is_tracked(&self, t: PoolKind, idx: usize) -> (r: bool)
        ensures
            r == self.handles(t).contains_key(idx),
    {
        self.registry.contains(t, idx)
    }

    /// What follows binding memory to the new buffer `buffer`: on success
    /// the buffer is tracked; on failure it is destroyed and its memory
    /// freed, and nothing is tracked.
    pub fn after_buffer_bind(&mut self, buffer: u64, bound: Result<(), NativeError>) -> (r: CreateStep)
        ensures
            final(self).wf() == old(self).wf(),
            final(self).samplers() == old(self).samplers(),
            final(self).set_layouts() == old(self).set_layouts(),
            final(self).pipeline_layouts() == old(self).pipeline_layouts(),
            final(self).sampler_entries() == old(self).sampler_entries(),
            final(self).max_samplers() == old(self).max_samplers(),
            forall|u: PoolKind| u != PoolKind::Buffer ==> #[trigger] final(self).handles(u) == old(self).handles(u),
            bound matches Err(e) ==> r == (CreateStep::RollBack { object: buffer, free_block: true, error: failure_of(e) })
                && final(self).handles(PoolKind::Buffer) == old(self).handles(PoolKind::Buffer),
            bound is Ok ==> (r matches CreateStep::Buffer(idx) && !old(self).handles(PoolKind::Buffer).contains_key(idx)
                && final(self).handles(PoolKind::Buffer) == old(self).handles(PoolKind::Buffer).insert(idx, buffer)),
    {
        match bound {
            Ok(()) => {
                let idx = self.track(PoolKind::Buffer, buffer);
                CreateStep::Buffer(idx)
            },
            Err(e) => CreateStep::RollBack { object: buffer, free_block: true, error: classify(e) },
        }
    }

    /// What follows creating the default view of the new image `image`: on
    /// success the view and the image are tracked; on failure the image is
    /// destroyed and its memory freed, and nothing is tracked.
    pub fn after_image_view(&mut self, image: u64, view: Result<u64, NativeError>) -> (r: CreateStep)
        ensures
            final(self).wf() == old(self).wf(),
            final(self).samplers() == old(self).samplers(),
            final(self).set_layouts() == old(self).set_layouts(),
            final(self).pipeline_layouts() == old(self).pipeline_layouts(),
            final(self).sampler_entries() == old(self).sampler_entries(),
            final(self).max_samplers() == old(self).max_samplers(),
            forall|u: PoolKind| u != PoolKind::Image && u != PoolKind::ImageView ==> #[trigger] final(self).handles(u) == old(self).handles(u),
            view matches Err(e) ==> r == (CreateStep::RollBack { object: image, free_block: true, error: failure_of(e) })
                && final(self).handles(PoolKind::Image) == old(self).handles(PoolKind::Image)
                && final(self).handles(PoolKind::ImageView) == old(self).handles(PoolKind::ImageView),
            view matches Ok(v) ==> (r matches CreateStep::Image { image: i, view: w }
                && !old(self).handles(PoolKind::Image).contains_key(i)
                && !old(self).handles(PoolKind::ImageView).contains_key(w)
                && final(self).handles(PoolKind::Image) == old(self).handles(PoolKind::Image).insert(i, image)
                && final(self).handles(PoolKind::ImageView) == old(self).handles(PoolKind::ImageView).insert(w, v)),
    {
        match view {
            Ok(v) => {
                let w = self.track(PoolKind::ImageView, v);
                let i = self.track(PoolKind::Image, image);
                CreateStep::Image { image: i, view: w }
            },
            Err(e) => CreateStep::RollBack { object: image, free_block: true, error: classify(e) },
        }
    }

    /// Whether teardown may destroy `e`: a handle the device tracks, or a
    /// cached object still in use.
    pub open spec fn destroyable(&self, e: (HandleKind, u64)) -> bool {
        match e.0 {
            HandleKind::Sampler => exists|d: SamplerDesc| #[trigger] is_live(self.samplers(), d) && self.samplers()[d].handle == e.1,
            HandleKind::SetLayout => exists|d: Seq<ArgumentLayout>| #[trigger] is_live(self.set_layouts(), d) && self.set_layouts()[d].handle == e.1,
            HandleKind::PipelineLayout => exists|d: (Seq<Seq<ArgumentLayout>>, usize)| #[trigger] is_live(self.pipeline_layouts(), d) && self.pipeline_layouts()[d].handle == e.1,
            HandleKind::Buffer => holds(self.handles(PoolKind::Buffer), e.1),
            HandleKind::ImageView => holds(self.handles(PoolKind::ImageView), e.1),
            HandleKind::Image => holds(self.handles(PoolKind::Image), e.1),
            HandleKind::Memory => holds(self.handles(PoolKind::Memory), e.1),
            HandleKind::Pipeline => holds(self.handles(PoolKind::Pipeline), e.1),
            HandleKind::ShaderModule => holds(self.handles(PoolKind::ShaderModule), e.1),
        }
    }

    /// Takes the device apart once it is idle: every handle it still tracks
    /// and every cached object still in use, in teardown order (buffers,
    /// image views, images, memory, samplers, pipelines, pipeline layouts,
    /// set layouts, shader modules).
    pub fn teardown(self) -> (r: Vec<(HandleKind, u64)>)
        requires
            self.wf(),
        ensures
            forall|i: int, j: int|
                0 <= i < j < r@.len() ==> teardown_rank(r@[i].0) <= teardown_rank(r@[j].0),
            forall|t: PoolKind, k: usize| #[trigger]
                self.handles(t).contains_key(k) ==> r@.contains((tracked_kind(t), self.handles(t)[k])),
            forall|d: SamplerDesc| #[trigger]
                is_live(self.samplers(), d) ==> r@.contains((HandleKind::Sampler, self.samplers()[d].handle)),
            forall|d: Seq<ArgumentLayout>| #[trigger]
                is_live(self.set_layouts(), d) ==> r@.contains((HandleKind::SetLayout, self.set_layouts()[d].handle)),
            forall|d: (Seq<Seq<ArgumentLayout>>, usize)| #[trigger]
                is_live(self.pipeline_layouts(), d) ==> r@.contains(
                    (HandleKind::PipelineLayout, self.pipeline_layouts()[d].handle),
                ),
            forall|i: int| 0 <= i < r@.len() ==> self.destroyable(#[trigger] r@[i]),
    {
        let ghost before = self;
        let mut dev = self;
        let samplers = dev.samplers.live_handles();
        let pipeline_layouts = dev.pipeline_layouts.live_handles();
        let set_layouts = dev.set_layouts.live_handles();
        let r = dev.registry.teardown(&samplers, &pipeline_layouts, &set_layouts);
        proof {
            assert forall|d: SamplerDesc| #[trigger] is_live(before.samplers(), d) implies r@.contains(
                (HandleKind::Sampler, before.samplers()[d].handle),
            ) by {
                let k = choose|k: int| 0 <= k < samplers@.len() && samplers@[k] == before.samplers()[d].handle;
                assert(r@.contains((HandleKind::Sampler, samplers@[k])));
            }
            assert forall|d: Seq<ArgumentLayout>| #[trigger] is_live(before.set_layouts(), d) implies r@.contains(
                (HandleKind::SetLayout, before.set_layouts()[d].handle),
            ) by {
                let k = choose|k: int| 0 <= k < set_layouts@.len() && set_layouts@[k] == before.set_layouts()[d].handle;
                assert(r@.contains((HandleKind::SetLayout, set_layouts@[k])));
            }
            assert forall|d: (Seq<Seq<ArgumentLayout>>, usize)| #[trigger] is_live(before.pipeline_layouts(), d) implies r@.contains(
                (HandleKind::PipelineLayout, before.pipeline_layouts()[d].handle),
            ) by {
                let k = choose|k: int|
                    0 <= k < pipeline_layouts@.len() && pipeline_layouts@[k] == before.pipeline_layouts()[d].handle;
                assert(r@.contains((HandleKind::PipelineLayout, pipeline_layouts@[k])));
            }
            assert forall|i: int| 0 <= i < r@.len() implies before.destroyable(#[trigger] r@[i]) by {
                let e = r@[i];
                if e.0 == HandleKind::Sampler {
                    let k = choose|k: int| 0 <= k < samplers@.len() && samplers@[k] == e.1;
                    assert(before.samplers.is_live_handle(samplers@[k]));
                } else if e.0 == HandleKind::SetLayout {
                    let k = choose|k: int| 0 <= k < set_layouts@.len() && set_layouts@[k] == e.1;
                    assert(before.set_layouts.is_live_handle(set_layouts@[k]));
                } else if e.0 == HandleKind::PipelineLayout {
                    let k = choose|k: int| 0 <= k < pipeline_layouts@.len() && pipeline_layouts@[k] == e.1;
                    assert(before.pipeline_layouts.is_live_handle(pipeline_layouts@[k]));
                }
            }
        }
        r
    }

    /// Returns the sampler for `desc`: the live one when there is one, with
    /// one owner more; else, below the device's limit, the one that `create`
    /// builds, recorded with one owner; else out of memory.
    pub fn new_sampler<F>(&mut self, desc: SamplerDesc, create: F) -> (r: Result<u64, OutOfMemory>)
        where
            F: FnOnce(SamplerDesc) -> Result<u64, OutOfMemory>,
        requires
            old(self).wf(),
            create.requires((desc,)),
            is_live(old(self).samplers(), desc) ==> old(self).samplers()[desc].strong < u64::MAX,
        ensures
            final(self).wf(),
            final(self).max_samplers() == old(self).max_samplers(),
            final(self).set_layouts() == old(self).set_layouts(),
            final(self).pipeline_layouts() == old(self).pipeline_layouts(),
            is_live(old(self).samplers(), desc) ==> final(self).sampler_entries() == old(self).sampler_entries(),
            !is_live(old(self).samplers(), desc) && r is Ok ==> final(self).sampler_entries() == old(self).sampler_entries()
                + if old(self).samplers().contains_key(desc) { 0int } else { 1int },
            r is Err ==> final(self).sampler_entries() == old(self).sampler_entries(),
            is_live(old(self).samplers(), desc) ==> r == Ok::<u64, OutOfMemory>(
                old(self).samplers()[desc].handle,
            ) && final(self).samplers() == acquire_next(old(self).samplers(), desc),
            !is_live(old(self).samplers(), desc) && old(self).sampler_entries() >= old(self).max_samplers()
                ==> r is Err && final(self).samplers() == old(self).samplers(),
            !is_live(old(self).samplers(), desc) && old(self).sampler_entries() < old(self).max_samplers()
                ==> exists|c: Result<u64, OutOfMemory>|
                #![trigger create.ensures((desc,), c)]
                create.ensures((desc,), c) && (c is Ok ==> r == c && final(self).samplers()
                    == install_next(old(self).samplers(), desc, c->Ok_0)) && (c is Err ==> r is Err
                    && final(self).samplers() == old(self).samplers()),
    {
        match self.samplers.acquire(&desc) {
            Some(h) => Ok(h),
            None => {
                if self.samplers.len() >= self.max_samplers as usize {
                    return Err(OutOfMemory);
                }
                let c = create(desc);
                match c {
                    Ok(h) => {
                        self.samplers.install(desc, h);
                        Ok(h)
                    },
                    Err(e) => Err(e),
                }
            },
        }
    }

    /// One owner of sampler `handle`, made for `desc`, lets go of it.
    /// Returns whether the native sampler must now be destroyed: it had no
    /// other owner.
    pub fn drop_sampler(&mut self, desc: &SamplerDesc, handle: u64) -> (destroy: bool)
        requires
            old(self).wf(),
            is_live(old(self).samplers(), *desc),
            old(self).samplers()[*desc].handle == handle,
        ensures
            final(self).wf(),
            final(self).max_samplers() == old(self).max_samplers(),
            final(self).set_layouts() == old(self).set_layouts(),
            final(self).pipeline_layouts() == old(self).pipeline_layouts(),
            final(self).samplers() == release_next(old(self).samplers(), *desc),
            destroy == release_destroys(old(self).samplers(), *desc),
    {
        self.samplers.release(desc, handle)
    }

    /// Returns the descriptor set layout for `desc`: the live one, with one
    /// owner more, or the one that `create` builds, recorded with one owner.
    pub fn new_set_layout<F>(&mut self, desc: SetLayoutDesc, create: F) -> (r: Result<u64, OutOfMemory>)
        where
            F: FnOnce(&SetLayoutDesc) -> Result<u64, OutOfMemory>,
        requires
            old(self).wf(),
            create.requires((&desc,)),
            is_live(old(self).set_layouts(), desc@) ==> old(self).set_layouts()[desc@].strong < u64::MAX,
        ensures
            final(self).wf(),
            final(self).samplers() == old(self).samplers(),
            final(self).pipeline_layouts() == old(self).pipeline_layouts(),
            is_live(old(self).set_layouts(), desc@) ==> r == Ok::<u64, OutOfMemory>(
                old(self).set_layouts()[desc@].handle,
            ) && final(self).set_layouts() == acquire_next(old(self).set_layouts(), desc@),
            !is_live(old(self).set_layouts(), desc@) ==> exists|c: Result<u64, OutOfMemory>|
                #![trigger create.ensures((&desc,), c)]
                create.ensures((&desc,), c) && (c is Ok ==> r == c && final(self).set_layouts()
                    == install_next(old(self).set_layouts(), desc@, c->Ok_0)) && (c is Err ==> r is Err
                    && final(self).set_layouts() == old(self).set_layouts()),
    {
        match self.set_layouts.acquire(&desc) {
            Some(h) => Ok(h),
            None => {
                let c = create(&desc);
                match c {
                    Ok(h) => {
                        self.set_layouts.install(desc, h);
                        Ok(h)
                    },
                    Err(e) => Err(e),
                }
            },
        }
    }

    /// One owner of set layout `handle`, made for `desc`, lets go of it.
    /// Returns whether the native layout must now be destroyed.
    pub fn drop_set_layout(&mut self, desc: &SetLayoutDesc, handle: u64) -> (destroy: bool)
        requires
            old(self).wf(),
            is_live(old(self).set_layouts(), desc@),
            old(self).set_layouts()[desc@].handle == handle,
        ensures
            final(self).wf(),
            final(self).samplers() == old(self).samplers(),
            final(self).pipeline_layouts() == old(self).pipeline_layouts(),
            final(self).set_layouts() == release_next(old(self).set_layouts(), desc@),
            destroy == release_destroys(old(self).set_layouts(), desc@),
    {
        self.set_layouts.release(desc, handle)
    }

    /// Returns the pipeline layout for `desc`: the live one, with one owner
    /// more, or the one that `create` builds, recorded with one owner.
    pub fn new_pipeline_layout<F>(&mut self, desc: PipelineLayoutDesc, create: F) -> (r: Result<u64, OutOfMemory>)
        where
            F: FnOnce(&PipelineLayoutDesc) -> Result<u64, OutOfMemory>,
        requires
            old(self).wf(),
            create.requires((&desc,)),
            is_live(old(self).pipeline_layouts(), desc@) ==> old(self).pipeline_layouts()[desc@].strong
                < u64::MAX,
        ensures
            final(self).wf(),
            final(self).samplers() == old(self).samplers(),
            final(self).set_layouts() == old(self).set_layouts(),
            is_live(old(self).pipeline_layouts(), desc@) ==> r == Ok::<u64, OutOfMemory>(
                old(self).pipeline_layouts()[desc@].handle,
            ) && final(self).pipeline_layouts() == acquire_next(old(self).pipeline_layouts(), desc@),
            !is_live(old(self).pipeline_layouts(), desc@) ==> exists|c: Result<u64, OutOfMemory>|
                #![trigger create.ensures((&desc,), c)]
                create.ensures((&desc,), c) && (c is Ok ==> r == c && final(self).pipeline_layouts()
                    == install_next(old(self).pipeline_layouts(), desc@, c->Ok_0)) && (c is Err ==> r is Err
                    && final(self).pipeline_layouts() == old(self).pipeline_layouts()),
    {
        match self.pipeline_layouts.acquire(&desc) {
            Some(h) => Ok(h),
            None => {
                let c = create(&desc);
                match c {
                    Ok(h) => {
                        self.pipeline_layouts.install(desc, h);
                        Ok(h)
                    },
                    Err(e) => Err(e),
                }
            },
        }
    }

    /// One owner of pipeline layout `handle`, made for `desc`, lets go of
    /// it. Returns whether the native layout must now be destroyed.
    pub fn drop_pipeline_layout(&mut self, desc: &PipelineLayoutDesc, handle: u64) -> (destroy: bool)
        requires
            old(self).wf(),
            is_live(old(self).pipeline_layouts(), desc@),
            old(self).pipeline_layouts()[desc@].handle == handle,
        ensures
            final(self).wf(),
            final(self).samplers() == old(self).samplers(),
            final(self).set_layouts() == old(self).set_layouts(),
            final(self).pipeline_layouts() == release_next(old(self).pipeline_layouts(), desc@),
            destroy == release_destroys(old(self).pipeline_layouts(), desc@),
    {
        self.pipeline_layouts.release(desc, handle)
    }

    /// The live sampler for `desc`, if any, without taking a share of it.
    pub fn live_sampler(&self, desc: &SamplerDesc) -> (r: Option<u64>)
        requires
            self.wf(),
        ensures
            r == acquire_result(self.samplers(), *desc),
    {
        self.samplers.lookup(desc)
    }

    /// Number of owners of the sampler cached for `desc`.
    pub fn sampler_strong_count(&self, desc: &SamplerDesc) -> (r: u64)
        requires
            self.wf(),
        ensures
            r == (if self.samplers().contains_key(*desc) {
                self.samplers()[*desc].strong
            } else {
                0
            }),
    {
        self.samplers.strong_count(desc)
    }
}

} // verus!
