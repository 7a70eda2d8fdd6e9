use mev::{AddressMode, CacheKey, DedupCache, Device, Filter, OutOfMemory, SamplerDesc};

fn linear_clamp() -> SamplerDesc {
    let mut d = SamplerDesc::new();
    d.min_filter = Filter::Linear;
    d.mag_filter = Filter::Linear;
    d.address_mode = [AddressMode::ClampToEdge; 3];
    d
}

#[test]
fn equal_descriptions_share_one_object() {
    let mut c: DedupCache<SamplerDesc> = DedupCache::new();
    let d1 = linear_clamp();
    let d2 = linear_clamp();
    assert_eq!(c.acquire(&d1), None);
    c.install(d1, 11);
    assert_eq!(c.acquire(&d2), Some(11));
    assert_eq!(c.strong_count(&d1), 2);
    assert_eq!(c.len(), 1);
}

#[test]
fn expired_object_is_rebuilt() {
    let mut c: DedupCache<SamplerDesc> = DedupCache::new();
    let d = linear_clamp();
    c.install(d, 11);
    assert_eq!(c.acquire(&d), Some(11));
    assert!(!c.release(&d, 11));
    assert!(c.release(&d, 11));
    assert_eq!(c.strong_count(&d), 0);
    assert_eq!(c.acquire(&d), None);
    c.install(d, 12);
    assert_eq!(c.acquire(&d), Some(12));
    assert_eq!(c.len(), 1);
}

#[test]
fn different_descriptions_get_different_objects() {
    let mut c: DedupCache<SamplerDesc> = DedupCache::new();
    let a = SamplerDesc::new();
    let b = linear_clamp();
    assert!(!a.same(&b));
    assert!(a.same(&SamplerDesc::new()));
    c.install(a, 1);
    assert_eq!(c.acquire(&b), None);
    c.install(b, 2);
    assert_eq!(c.acquire(&a), Some(1));
    assert_eq!(c.acquire(&b), Some(2));
    assert_eq!(c.len(), 2);
}

#[test]
fn anisotropy_bits_take_part_in_equality() {
    let a = SamplerDesc::new();
    let mut b = SamplerDesc::new();
    b.anisotropy_bits = Some(16.0f32.to_bits());
    assert!(!a.same(&b));
    let mut c = SamplerDesc::new();
    c.anisotropy_bits = Some(16.0f32.to_bits());
    assert!(b.same(&c));
    assert_eq!(SamplerDesc::new().max_lod_bits, f32::INFINITY.to_bits());
}

#[test]
fn two_identical_samplers_share_native_object() {
    let mut dev = Device::new(4000);
    let mut built = 0u32;
    let d = linear_clamp();
    let s1 = dev.new_sampler(d, |_| { built += 1; Ok(900) }).unwrap();
    let s2 = dev.new_sampler(linear_clamp(), |_| Ok(901)).unwrap();
    assert_eq!(built, 1);
    assert_eq!(s1, s2);
    assert_eq!(dev.sampler_strong_count(&d), 2);
    assert!(!dev.drop_sampler(&d, s1));
    assert!(dev.drop_sampler(&d, s2));
    let s3 = dev.new_sampler(d, |_| Ok(902)).unwrap();
    assert_eq!(s3, 902);
}

#[test]
fn sampler_limit_is_out_of_memory() {
    let mut dev = Device::new(1);
    dev.new_sampler(SamplerDesc::new(), |_| Ok(1)).unwrap();
    assert_eq!(dev.new_sampler(linear_clamp(), |_| Ok(2)), Err(OutOfMemory));
    assert_eq!(dev.new_sampler(SamplerDesc::new(), |_| Ok(3)), Ok(1));
}

#[test]
fn failed_sampler_creation_records_nothing() {
    let mut dev = Device::new(10);
    assert_eq!(dev.new_sampler(SamplerDesc::new(), |_| Err(OutOfMemory)), Err(OutOfMemory));
    assert_eq!(dev.sampler_strong_count(&SamplerDesc::new()), 0);
}
