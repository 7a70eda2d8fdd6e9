use vstd::prelude::*;

use slab::Slab;

verus! {

#[verifier::external_type_specification]
#[verifier::external_body]
#[verifier::reject_recursive_types(T)]
pub struct ExSlab<T>(Slab<T>);

/// The handles that a slab holds, by key.
pub uninterp spec fn slab_contents(s: Slab<u64>) -> Map<usize, u64>;

/// A pool with no handles.
pub open spec fn no_handles() -> Map<usize, u64> {
    Map::empty()
}

/// Relies on `Slab::new`: a new slab holds nothing.
#[verifier::external_body]
fn slab_new() -> (r: Slab<u64>)
    ensures
        slab_contents(r) == no_handles(),
{
    Slab::new()
}

/// Relies on `Slab::insert`: the value is stored under the returned key,
/// which held no value before; nothing else changes.
#[verifier::external_body]
fn slab_insert(s: &mut Slab<u64>, v: u64) -> (k: usize)
    ensures
        !slab_contents(*old(s)).contains_key(k),
        slab_contents(*final(s)) == slab_contents(*old(s)).insert(k, v),
{
    s.insert(v)
}

/// Relies on `Slab::remove`: returns the value under `k` and frees the key.
/// It panics on a key without a value, which `requires` leaves out.
#[verifier::external_body]
fn slab_remove(s: &mut Slab<u64>, k: usize) -> (v: u64)
    requires
        slab_contents(*old(s)).contains_key(k),
    ensures
        v == slab_contents(*old(s))[k],
        slab_contents(*final(s)) == slab_contents(*old(s)).remove(k),
{
    s.remove(k)
}

/// Relies on `Slab::contains`: whether a value is stored under `k`.
#[verifier::external_body]
fn slab_contains(s: &Slab<u64>, k: usize) -> (r: bool)
    ensures
        r == slab_contents(*s).contains_key(k),
{
    s.contains(k)
}

/// Relies on `Slab::drain`: every stored value comes out, once per key, and
/// the slab is left empty.
#[verifier::external_body]
fn slab_drain(s: &mut Slab<u64>) -> (r: Vec<u64>)
    ensures
        slab_contents(*final(s)) == no_handles(),
        r@.len() == slab_contents(*old(s)).dom().len(),
        forall|k: usize| #[trigger]
            slab_contents(*old(s)).contains_key(k) ==> r@.contains(slab_contents(*old(s))[k]),
        forall|i: int|
            #![trigger r@[i]]
            0 <= i < r@.len() ==> exists|k: usize| #[trigger]
                slab_contents(*old(s)).contains_key(k) && slab_contents(*old(s))[k] == r@[i],
{
    s.drain().collect()
}

/// Kinds of native objects that a device destroys on teardown.
#[derive(Clone, Copy, Debug, PartialEq, Eq, Hash, Structural)]
pub enum HandleKind {
    Buffer,
    ImageView,
    Image,
    Memory,
    Sampler,
    Pipeline,
    PipelineLayout,
    SetLayout,
    ShaderModule,
}

/// Place of each kind in the teardown order: buffers, image views, images,
/// memory blocks, samplers, pipelines, pipeline layouts, set layouts, and
/// shader modules last.
pub open spec fn teardown_rank(k: HandleKind) -> int {
    match k {
        HandleKind::Buffer => 0,
        HandleKind::ImageView => 1,
        HandleKind::Image => 2,
        HandleKind::Memory => 3,
        HandleKind::Sampler => 4,
        HandleKind::Pipeline => 5,
        HandleKind::PipelineLayout => 6,
        HandleKind::SetLayout => 7,
        HandleKind::ShaderModule => 8,
    }
}

/// Kinds whose handles a registry tracks by index.
#[derive(Clone, Copy, Debug, PartialEq, Eq, Hash, Structural)]
pub enum PoolKind {
    Memory,
    Buffer,
    Image,
    ImageView,
    ShaderModule,
    Pipeline,
}

/// The teardown kind of a tracked kind.
pub open spec fn tracked_kind(t: PoolKind) -> HandleKind {
    match t {
        PoolKind::Memory => HandleKind::Memory,
        PoolKind::Buffer => HandleKind::Buffer,
        PoolKind::Image => HandleKind::Image,
        PoolKind::ImageView => HandleKind::ImageView,
        PoolKind::ShaderModule => HandleKind::ShaderModule,
        PoolKind::Pipeline => HandleKind::Pipeline,
    }
}

/// Whether `m` holds handle `h` under some index.
pub open spec fn holds(m: Map<usize, u64>, h: u64) -> bool {
    exists|k: usize| #[trigger] m.contains_key(k) && m[k] == h
}

/// Whether teardown may destroy `e`: a handle tracked in `reg`, or one of
/// the cached objects in use that the caller named.
pub open spec fn teardown_source(
    reg: Registry,
    samplers: Seq<u64>,
    pipeline_layouts: Seq<u64>,
    set_layouts: Seq<u64>,
    e: (HandleKind, u64),
) -> bool {
    match e.0 {
        HandleKind::Sampler => samplers.contains(e.1),
        HandleKind::PipelineLayout => pipeline_layouts.contains(e.1),
        HandleKind::SetLayout => set_layouts.contains(e.1),
        HandleKind::Buffer => holds(reg.handles(PoolKind::Buffer), e.1),
        HandleKind::ImageView => holds(reg.handles(PoolKind::ImageView), e.1),
        HandleKind::Image => holds(reg.handles(PoolKind::Image), e.1),
        HandleKind::Memory => holds(reg.handles(PoolKind::Memory), e.1),
        HandleKind::Pipeline => holds(reg.handles(PoolKind::Pipeline), e.1),
        HandleKind::ShaderModule => holds(reg.handles(PoolKind::ShaderModule), e.1),
    }
}

/// Index pools of every native handle a device made, by kind, so that the
/// device can destroy whatever is left when it goes.
pub struct Registry {
    memory: Slab<u64>,
    buffers: Slab<u64>,
    images: Slab<u64>,
    image_views: Slab<u64>,
    shader_modules: Slab<u64>,
    pipelines: Slab<u64>,
}

impl Registry {
    /// The handles of kind `t`, by index.
    pub closed spec fn handles(&self, t: PoolKind) -> Map<usize, u64> {
        match t {
            PoolKind::Memory => slab_contents(self.memory),
            PoolKind::Buffer => slab_contents(self.buffers),
            PoolKind::Image => slab_contents(self.images),
            PoolKind::ImageView => slab_contents(self.image_views),
            PoolKind::ShaderModule => slab_contents(self.shader_modules),
            PoolKind::Pipeline => slab_contents(self.pipelines),
        }
    }

    /// A registry with no handles.
    pub fn new() -> (r: Registry)
        ensures
            forall|t: PoolKind| #[trigger] r.handles(t) == no_handles(),
    {
        Registry {
            memory: slab_new(),
            buffers: slab_new(),
            images: slab_new(),
            image_views: slab_new(),
            shader_modules: slab_new(),
            pipelines: slab_new(),
        }
    }

    fn slab_mut(&mut self, t: PoolKind) -> (r: &mut Slab<u64>)
        ensures
            slab_contents(*r) == old(self).handles(t),
            final(self).handles(t) == slab_contents(*final(r)),
            forall|u: PoolKind| u != t ==> #[trigger] final(self).handles(u) == old(self).handles(u),
    {
        match t {
            PoolKind::Memory => &mut self.memory,
            PoolKind::Buffer => &mut self.buffers,
            PoolKind::Image => &mut self.images,
            PoolKind::ImageView => &mut self.image_views,
            PoolKind::ShaderModule => &mut self.shader_modules,
            PoolKind::Pipeline => &mut self.pipelines,
        }
    }

    /// Records the new native handle `h` of kind `t`; returns its index.
    pub fn add(&mut self, t: PoolKind, h: u64) -> (idx: usize)
        ensures
            !old(self).handles(t).contains_key(idx),
            final(self).handles(t) == old(self).handles(t).insert(idx, h),
            forall|u: PoolKind| u != t ==> #[trigger] final(self).handles(u) == old(self).handles(u),
    {
        let s = self.slab_mut(t);
        slab_insert(s, h)
    }

    /// Whether a handle of kind `t` is recorded under `idx`.
    pub fn contains(&self, t: PoolKind, idx: usize) -> (r: bool)
        ensures
            r == self.handles(t).contains_key(idx),
    {
        match t {
            PoolKind::Memory => slab_contains(&self.memory, idx),
            PoolKind::Buffer => slab_contains(&self.buffers, idx),
            PoolKind::Image => slab_contains(&self.images, idx),
            PoolKind::ImageView => slab_contains(&self.image_views, idx),
            PoolKind::ShaderModule => slab_contains(&self.shader_modules, idx),
            PoolKind::Pipeline => slab_contains(&self.pipelines, idx),
        }
    }

    /// Forgets the handle of kind `t` under `idx` when its last owner drops
    /// it; returns the handle to destroy.
    pub fn remove(&mut self, t: PoolKind, idx: usize) -> (h: u64)
        requires
            old(self).handles(t).contains_key(idx),
        ensures
            h == old(self).handles(t)[idx],
            final(self).handles(t) == old(self).handles(t).remove(idx),
            forall|u: PoolKind| u != t ==> #[trigger] final(self).handles(u) == old(self).handles(u),
    {
        let s = self.slab_mut(t);
        slab_remove(s, idx)
    }

    /// Empties every pool and lists what to destroy, in teardown order:
    /// buffers, image views, images, memory blocks, then the `samplers`
    /// still in use, pipelines, the `pipeline_layouts` and `set_layouts`
    /// still in use, and shader modules.
    pub fn teardown(&mut self, samplers: &Vec<u64>, pipeline_layouts: &Vec<u64>, set_layouts: &Vec<u64>) -> (r: Vec<(HandleKind, u64)>)
        ensures
            forall|t: PoolKind| #[trigger] final(self).handles(t) == no_handles(),
            forall|i: int, j: int|
                0 <= i < j < r@.len() ==> teardown_rank(r@[i].0) <= teardown_rank(r@[j].0),
            forall|t: PoolKind, k: usize| #[trigger]
                old(self).handles(t).contains_key(k) ==> r@.contains((tracked_kind(t), old(self).handles(t)[k])),
            forall|i: int| 0 <= i < samplers@.len() ==> r@.contains((HandleKind::Sampler, #[trigger] samplers@[i])),
            forall|i: int|
                0 <= i < pipeline_layouts@.len() ==> r@.contains((HandleKind::PipelineLayout, #[trigger] pipeline_layouts@[i])),
            forall|i: int| 0 <= i < set_layouts@.len() ==> r@.contains((HandleKind::SetLayout, #[trigger] set_layouts@[i])),
            r@.len() == old(self).handles(PoolKind::Buffer).dom().len() + old(self).handles(
                PoolKind::ImageView,
            ).dom().len() + old(self).handles(PoolKind::Image).dom().len() + old(self).handles(
                PoolKind::Memory,
            ).dom().len() + old(self).handles(PoolKind::Pipeline).dom().len() + old(self).handles(
                PoolKind::ShaderModule,
            ).dom().len() + samplers@.len() + pipeline_layouts@.len() + set_layouts@.len(),
            forall|i: int|
                0 <= i < r@.len() ==> teardown_source(*old(self), samplers@, pipeline_layouts@, set_layouts@, #[trigger] r@[i]),
    {
        let ghost before = *self;
        let ghost src = |e: (HandleKind, u64)| teardown_source(before, samplers@, pipeline_layouts@, set_layouts@, e);
        let mut r: Vec<(HandleKind, u64)> = Vec::new();
        let buffers = slab_drain(&mut self.buffers);
        proof {
            assert forall|i: int| 0 <= i < buffers@.len() implies src((HandleKind::Buffer, #[trigger] buffers@[i])) by {
                let k = choose|k: usize| slab_contents(before.buffers).contains_key(k)
                    && slab_contents(before.buffers)[k] == buffers@[i];
                assert(before.handles(PoolKind::Buffer).contains_key(k));
            }
        }
        append(&mut r, HandleKind::Buffer, &buffers, Ghost(src));
        let views = slab_drain(&mut self.image_views);
        proof {
            assert forall|i: int| 0 <= i < views@.len() implies src((HandleKind::ImageView, #[trigger] views@[i])) by {
                let k = choose|k: usize| slab_contents(before.image_views).contains_key(k)
                    && slab_contents(before.image_views)[k] == views@[i];
                assert(before.handles(PoolKind::ImageView).contains_key(k));
            }
        }
        append(&mut r, HandleKind::ImageView, &views, Ghost(src));
        let images = slab_drain(&mut self.images);
        proof {
            assert forall|i: int| 0 <= i < images@.len() implies src((HandleKind::Image, #[trigger] images@[i])) by {
                let k = choose|k: usize| slab_contents(before.images).contains_key(k)
                    && slab_contents(before.images)[k] == images@[i];
                assert(before.handles(PoolKind::Image).contains_key(k));
            }
        }
        append(&mut r, HandleKind::Image, &images, Ghost(src));
        let memory = slab_drain(&mut self.memory);
        proof {
            assert forall|i: int| 0 <= i < memory@.len() implies src((HandleKind::Memory, #[trigger] memory@[i])) by {
                let k = choose|k: usize| slab_contents(before.memory).contains_key(k)
                    && slab_contents(before.memory)[k] == memory@[i];
                assert(before.handles(PoolKind::Memory).contains_key(k));
            }
        }
        append(&mut r, HandleKind::Memory, &memory, Ghost(src));
        proof {
            assert forall|i: int| 0 <= i < samplers@.len() implies src((HandleKind::Sampler, #[trigger] samplers@[i])) by {
                assert(samplers@[i] == samplers@[i]);
            }
        }
        append(&mut r, HandleKind::Sampler, samplers, Ghost(src));
        let pipelines = slab_drain(&mut self.pipelines);
        proof {
            assert forall|i: int| 0 <= i < pipelines@.len() implies src((HandleKind::Pipeline, #[trigger] pipelines@[i])) by {
                let k = choose|k: usize| slab_contents(before.pipelines).contains_key(k)
                    && slab_contents(before.pipelines)[k] == pipelines@[i];
                assert(before.handles(PoolKind::Pipeline).contains_key(k));
            }
        }
        append(&mut r, HandleKind::Pipeline, &pipelines, Ghost(src));
        proof {
            assert forall|i: int| 0 <= i < pipeline_layouts@.len() implies src((HandleKind::PipelineLayout, #[trigger] pipeline_layouts@[i])) by {
                assert(pipeline_layouts@[i] == pipeline_layouts@[i]);
            }
        }
        append(&mut r, HandleKind::PipelineLayout, pipeline_layouts, Ghost(src));
        proof {
            assert forall|i: int| 0 <= i < set_layouts@.len() implies src((HandleKind::SetLayout, #[trigger] set_layouts@[i])) by {
                assert(set_layouts@[i] == set_layouts@[i]);
            }
        }
        append(&mut r, HandleKind::SetLayout, set_layouts, Ghost(src));
        let modules = slab_drain(&mut self.shader_modules);
        proof {
            assert forall|i: int| 0 <= i < modules@.len() implies src((HandleKind::ShaderModule, #[trigger] modules@[i])) by {
                let k = choose|k: usize| slab_contents(before.shader_modules).contains_key(k)
                    && slab_contents(before.shader_modules)[k] == modules@[i];
                assert(before.handles(PoolKind::ShaderModule).contains_key(k));
            }
        }
        append(&mut r, HandleKind::ShaderModule, &modules, Ghost(src));
        proof {
            assert forall|t: PoolKind| #[trigger] self.handles(t) == no_handles() by {
                match t {
                    PoolKind::Memory => {},
                    PoolKind::Buffer => {},
                    PoolKind::Image => {},
                    PoolKind::ImageView => {},
                    PoolKind::ShaderModule => {},
                    PoolKind::Pipeline => {},
                }
            }
        }
        r
    }
}

/// Appends each of `hs`, tagged with `kind`, keeping `r` in teardown order.
fn append(r: &mut Vec<(HandleKind, u64)>, kind: HandleKind, hs: &Vec<u64>, Ghost(src): Ghost<spec_fn((HandleKind, u64)) -> bool>)
    requires
        forall|i: int| 0 <= i < old(r)@.len() ==> src(#[trigger] old(r)@[i]),
        forall|i: int| 0 <= i < hs@.len() ==> src((kind, #[trigger] hs@[i])),
        forall|i: int| 0 <= i < old(r)@.len() ==> teardown_rank(old(r)@[i].0) <= teardown_rank(kind),
        forall|i: int, j: int|
            0 <= i < j < old(r)@.len() ==> teardown_rank(old(r)@[i].0) <= teardown_rank(old(r)@[j].0),
    ensures
        final(r)@.len() == old(r)@.len() + hs@.len(),
        final(r)@.subrange(0, old(r)@.len() as int) == old(r)@,
        forall|i: int| 0 <= i < hs@.len() ==> final(r)@[old(r)@.len() + i] == (kind, hs@[i]),
        forall|i: int, j: int|
            0 <= i < j < final(r)@.len() ==> teardown_rank(final(r)@[i].0) <= teardown_rank(final(r)@[j].0),
        forall|i: int| 0 <= i < final(r)@.len() ==> teardown_rank(final(r)@[i].0) <= teardown_rank(kind),
        forall|i: int| 0 <= i < final(r)@.len() ==> src(#[trigger] final(r)@[i]),
{
    let ghost r0 = r@;
    let mut i: usize = 0;
    proof {
        assert forall|a: int| 0 <= a < r@.len() implies src(#[trigger] r@[a]) by {
            assert(r@[a] == r0[a]);
        }
    }
    while i < hs.len()
        invariant
            i <= hs@.len(),
            r@.len() == r0.len() + i,
            r@.subrange(0, r0.len() as int) == r0,
            forall|j: int| 0 <= j < i ==> r@[r0.len() + j] == (kind, hs@[j]),
            forall|a: int, b: int| 0 <= a < b < r@.len() ==> teardown_rank(r@[a].0) <= teardown_rank(r@[b].0),
            forall|a: int| 0 <= a < r@.len() ==> teardown_rank(r@[a].0) <= teardown_rank(kind),
            forall|a: int| 0 <= a < r0.len() ==> teardown_rank(r0[a].0) <= teardown_rank(kind),
            forall|a: int| 0 <= a < r@.len() ==> src(#[trigger] r@[a]),
            forall|a: int| 0 <= a < hs@.len() ==> src((kind, #[trigger] hs@[a])),
        decreases hs@.len() - i,
    {
        let ghost before = r@;
        r.push((kind, hs[i]));
        proof {
            assert(r@.subrange(0, r0.len() as int) =~= r0);
            assert(src((kind, hs@[i as int])));
            assert forall|a: int| 0 <= a < r@.len() implies src(#[trigger] r@[a]) by {
                if a < before.len() {
                    assert(r@[a] == before[a]);
                }
            }
        }
        i = i + 1;
    }
}

} // verus!
