use mev::{
    after_allocation, after_image_bind, buffer_size, default_view, memory_request, memory_usage,
    surface_enabled, AllocRequest, AllocationFailure, CreateStep, Failure, Features, NativeError,
    ArgumentKind, ArgumentLayout, PipelineLayoutDesc, SetLayoutDesc, ShaderStages,
    BufferDesc, BufferIndex, BufferSlice, BufferUsage, Bindings, Device, HandleKind, Instance,
    Memory, PixelFormat, PoolKind, Registry, SamplerDesc, Swizzle, ViewCache, ViewDesc, ViewLookup,
};

#[test]
fn tracked_handles_come_back_on_drop() {
    let mut dev = Device::new(16);
    let b = dev.track(PoolKind::Buffer, 500);
    let i = dev.track(PoolKind::Image, 600);
    assert_eq!(dev.untrack(PoolKind::Buffer, b), 500);
    assert_eq!(dev.untrack(PoolKind::Image, i), 600);
    let b2 = dev.track(PoolKind::Buffer, 501);
    assert_eq!(dev.untrack(PoolKind::Buffer, b2), 501);
}

#[test]
fn teardown_destroys_in_order() {
    let mut dev = Device::new(16);
    dev.track(PoolKind::ShaderModule, 9);
    dev.track(PoolKind::Pipeline, 8);
    dev.track(PoolKind::Memory, 4);
    dev.track(PoolKind::Image, 3);
    dev.track(PoolKind::ImageView, 2);
    dev.track(PoolKind::Buffer, 1);
    let live = dev.new_sampler(SamplerDesc::new(), |_| Ok(5)).unwrap();
    let mut other = SamplerDesc::new();
    other.normalized = false;
    let dead = dev.new_sampler(other, |_| Ok(6)).unwrap();
    assert!(dev.drop_sampler(&other, dead));
    let order = dev.teardown();
    assert_eq!(
        order,
        vec![
            (HandleKind::Buffer, 1),
            (HandleKind::ImageView, 2),
            (HandleKind::Image, 3),
            (HandleKind::Memory, 4),
            (HandleKind::Sampler, live),
            (HandleKind::Pipeline, 8),
            (HandleKind::ShaderModule, 9),
        ]
    );
}

#[test]
fn registry_teardown_places_layouts() {
    let mut r = Registry::new();
    r.add(PoolKind::ShaderModule, 70);
    r.add(PoolKind::Pipeline, 50);
    let out = r.teardown(&vec![40], &vec![60], &vec![65]);
    assert_eq!(
        out,
        vec![
            (HandleKind::Sampler, 40),
            (HandleKind::Pipeline, 50),
            (HandleKind::PipelineLayout, 60),
            (HandleKind::SetLayout, 65),
            (HandleKind::ShaderModule, 70),
        ]
    );
    assert!(!r.contains(PoolKind::Pipeline, 0));
}

#[test]
fn image_views_are_cached_per_description() {
    let mut views = ViewCache::new();
    let parent = ViewDesc::new(PixelFormat::Rgba8Unorm);
    let mut made = 0u32;
    assert_eq!(views.get_view(&parent, parent, |_| { made += 1; Ok((1, 0)) }), Ok(ViewLookup::Same));
    let sub = ViewDesc::new(PixelFormat::Rgba8Unorm).layers(1..2);
    assert_eq!(views.get_view(&parent, sub, |_| Ok((10, 3))), Ok(ViewLookup::View(10)));
    assert_eq!(views.get_view(&parent, sub, |_| Ok((11, 4))), Ok(ViewLookup::View(10)));
    let swz = ViewDesc::new(PixelFormat::Rgba8Unorm).swizzle(Swizzle::rrrr());
    assert_eq!(views.get_view(&parent, swz, |_| Ok((12, 5))), Ok(ViewLookup::View(12)));
    assert_eq!(made, 0);
    assert_eq!(views.take_indices(), vec![3, 5]);
    assert!(views.take_indices().is_empty());
}

#[test]
fn sub_views_count_from_the_parent() {
    let mut views = ViewCache::new();
    let parent = ViewDesc::new(PixelFormat::R8Unorm).layers(2..4);
    let mut seen = ViewDesc::new(PixelFormat::R8Unorm);
    let r = views.get_view(&parent, ViewDesc::new(PixelFormat::R8Unorm).layers(1..2), |d| {
        seen = d;
        Ok((7, 1))
    });
    assert_eq!(r, Ok(ViewLookup::View(7)));
    assert_eq!(seen.base_layer, 3);
    let same = ViewDesc { base_layer: 0, ..parent };
    assert_eq!(views.get_view(&parent, same, |_| Ok((8, 2))), Ok(ViewLookup::Same));
}

#[test]
fn buffer_slices_clamp() {
    let b = BufferSlice::whole(1, 256);
    let (head, tail) = b.split_at(64);
    assert_eq!((head.offset(), head.size()), (0, 64));
    assert_eq!((tail.offset(), tail.size()), (64, 192));
    let (all, rest) = b.split_at(1000);
    assert_eq!((all.size(), rest.offset(), rest.size()), (256, 256, 0));
    let part = tail.slice(16..32);
    assert_eq!((part.buffer(), part.offset(), part.size()), (1, 80, 16));
    let clamped = tail.slice(100..500);
    assert_eq!((clamped.offset(), clamped.size()), (164, 92));
    assert_eq!((10..5).range(20), 5..5);
    assert_eq!((3..50).range(20), 3..20);
}

#[test]
fn upload_buffer_description() {
    let d = BufferDesc { size: 256, usage: BufferUsage { bits: 0x2 }, memory: Memory::Upload, name: "upload" };
    assert_eq!(d.size, 256);
    assert_eq!(d.memory, Memory::Upload);
}

#[test]
fn bindings_start_unassigned() {
    let mut b = Bindings::new();
    assert_eq!(b.groups[3].bindings[10], 0xff);
    assert_eq!(b.push_constants, None);
    b.set_push_constants(4);
    assert_eq!(b.push_constants, Some(4));
}

#[test]
fn in_process_instance_capabilities() {
    let i = Instance::load().unwrap();
    let caps = i.capabilities();
    assert_eq!(caps.devices.len(), 1);
    assert_eq!(caps.devices[0].families[0].queue_count, 32);
    assert_eq!(caps.devices[0].families[0].queue_flags.bits, 0x7);
}

fn uniform(size: usize) -> ArgumentLayout {
    ArgumentLayout { kind: ArgumentKind::UniformBuffer, size, stages: ShaderStages { bits: 1 } }
}

#[test]
fn equal_layouts_share_one_object() {
    let mut dev = Device::new(16);
    let a = dev.new_set_layout(SetLayoutDesc { arguments: vec![uniform(16)] }, |_| Ok(31)).unwrap();
    let b = dev.new_set_layout(SetLayoutDesc { arguments: vec![uniform(16)] }, |_| Ok(32)).unwrap();
    assert_eq!((a, b), (31, 31));
    let c = dev.new_set_layout(SetLayoutDesc { arguments: vec![uniform(32)] }, |_| Ok(33)).unwrap();
    assert_eq!(c, 33);
    let desc = SetLayoutDesc { arguments: vec![uniform(16)] };
    assert!(!dev.drop_set_layout(&desc, 31));
    assert!(dev.drop_set_layout(&desc, 31));
    assert_eq!(dev.new_set_layout(desc, |_| Ok(34)), Ok(34));

    let p = |n: usize| PipelineLayoutDesc { groups: vec![SetLayoutDesc { arguments: vec![uniform(n)] }], constants: 4 };
    let l1 = dev.new_pipeline_layout(p(8), |_| Ok(41)).unwrap();
    let l2 = dev.new_pipeline_layout(p(8), |_| Ok(42)).unwrap();
    assert_eq!((l1, l2), (41, 41));
    let other = PipelineLayoutDesc { constants: 8, ..p(8) };
    assert_eq!(dev.new_pipeline_layout(other, |_| Ok(43)), Ok(43));
    assert!(!dev.drop_pipeline_layout(&p(8), 41));

    let order = dev.teardown();
    assert!(order.contains(&(HandleKind::SetLayout, 33)));
    assert!(order.contains(&(HandleKind::SetLayout, 34)));
    assert!(order.contains(&(HandleKind::PipelineLayout, 41)));
    assert!(order.contains(&(HandleKind::PipelineLayout, 43)));
    assert_eq!(order.len(), 4);
}

#[test]
fn memory_requests_follow_memory_kind() {
    let r = memory_request(256, 64, 0b1010, Memory::Upload);
    assert_eq!(r, AllocRequest { size: 256, align_mask: 63, usage: 0x02 | 0x08, memory_types: 0b1010 });
    assert_eq!(memory_usage(Memory::Device), 0x01);
    assert_eq!(memory_usage(Memory::Shared), 0x02);
    assert_eq!(memory_usage(Memory::Download), 0x06);
    assert_eq!(buffer_size(256), Ok(256u64));
}

#[test]
fn upload_buffer_is_created_and_tracked() {
    let mut dev = Device::new(4);
    assert_eq!(after_allocation(77, Ok(())), CreateStep::Bind);
    let step = dev.after_buffer_bind(77, Ok(()));
    let idx = match step {
        CreateStep::Buffer(idx) => idx,
        other => panic!("unexpected {:?}", other),
    };
    assert!(dev.is_tracked(PoolKind::Buffer, idx));
    assert_eq!(dev.untrack(PoolKind::Buffer, idx), 77);
    assert!(!dev.is_tracked(PoolKind::Buffer, idx));
}

#[test]
fn failed_creation_rolls_back() {
    let mut dev = Device::new(4);
    assert_eq!(
        after_allocation(5, Err(AllocationFailure::NoCompatibleMemoryTypes)),
        CreateStep::RollBack { object: 5, free_block: false, error: Failure::OutOfMemory }
    );
    assert_eq!(
        after_allocation(5, Err(AllocationFailure::OutOfHostMemory)),
        CreateStep::RollBack { object: 5, free_block: false, error: Failure::Abort }
    );
    assert_eq!(
        dev.after_buffer_bind(6, Err(NativeError::OutOfDeviceMemory)),
        CreateStep::RollBack { object: 6, free_block: true, error: Failure::OutOfMemory }
    );
    assert!(!dev.is_tracked(PoolKind::Buffer, 0));
    assert_eq!(after_image_bind(7, Ok(())), CreateStep::CreateView);
    assert_eq!(
        after_image_bind(7, Err(NativeError::OutOfDeviceMemory)),
        CreateStep::RollBack { object: 7, free_block: true, error: Failure::OutOfMemory }
    );
    assert_eq!(
        dev.after_image_view(7, Err(NativeError::OutOfHostMemory)),
        CreateStep::RollBack { object: 7, free_block: true, error: Failure::Abort }
    );
    assert!(!dev.is_tracked(PoolKind::Image, 0));
    assert!(dev.teardown().is_empty());
}

#[test]
fn image_and_default_view_are_tracked() {
    let mut dev = Device::new(4);
    let v = default_view(PixelFormat::Rgba8Unorm, 6, 3);
    assert_eq!((v.base_layer, v.layers, v.base_level, v.levels), (0, 6, 0, 3));
    assert_eq!(v.swizzle, Swizzle::identity());
    let (image, view) = match dev.after_image_view(90, Ok(91)) {
        CreateStep::Image { image, view } => (image, view),
        other => panic!("unexpected {:?}", other),
    };
    assert!(dev.is_tracked(PoolKind::Image, image));
    assert!(dev.is_tracked(PoolKind::ImageView, view));
    assert_eq!(dev.teardown(), vec![(HandleKind::ImageView, 91), (HandleKind::Image, 90)]);
}

#[test]
fn live_sampler_lookup_and_surface_feature() {
    let mut dev = Device::new(4);
    let d = SamplerDesc::new();
    assert_eq!(dev.live_sampler(&d), None);
    let s = dev.new_sampler(d, |_| Ok(12)).unwrap();
    assert_eq!(dev.live_sampler(&d), Some(s));
    assert!(dev.drop_sampler(&d, s));
    assert_eq!(dev.live_sampler(&d), None);
    assert!(surface_enabled(Features { bits: 1 }));
    assert!(!surface_enabled(Features { bits: 0 }));
}
