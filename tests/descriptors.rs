use mev::{
    classify, classify_allocation, AllocationFailure, Failure, NativeError, ComponentSwizzle, DeviceError, Extent, Extent1, Extent2, Extent3, ImageDesc, ImageExtent,
    ImageUsage, Offset1, Offset2, Offset3, OutOfMemory, PixelFormat, Swizzle, ViewDesc,
};

#[test]
fn pixel_format_sizes() {
    assert_eq!(PixelFormat::R8Unorm.size(), 1);
    assert_eq!(PixelFormat::Rg16Float.size(), 4);
    assert_eq!(PixelFormat::Rgb32Float.size(), 12);
    assert_eq!(PixelFormat::Rgba32Uint.size(), 16);
    assert_eq!(PixelFormat::Bgr8Srgb.size(), 3);
    assert_eq!(PixelFormat::D24UnormS8Uint.size(), 4);
    assert_eq!(PixelFormat::D32FloatS8Uint.size(), 5);
    assert_eq!(PixelFormat::S8Uint.size(), 1);
}

#[test]
fn pixel_format_kinds() {
    assert!(PixelFormat::Rgba8Unorm.is_color());
    assert!(!PixelFormat::D16Unorm.is_color());
    assert!(PixelFormat::D16Unorm.is_depth());
    assert!(!PixelFormat::S8Uint.is_depth());
    assert!(PixelFormat::S8Uint.is_stencil());
    assert!(PixelFormat::D24UnormS8Uint.is_stencil());
    assert!(!PixelFormat::D32Float.is_stencil());
    assert!(PixelFormat::Bgra8Srgb.is_srgb());
    assert!(!PixelFormat::Bgra8Unorm.is_srgb());
}

#[test]
fn offsets_and_extents_convert() {
    let o = Offset1::new(5i32);
    assert_eq!(o.to_3d(), Offset3::new(5, 0, 0));
    assert_eq!(Offset3::new(1, 2, 3).to_2d(), Offset2::new(1, 2));
    assert_eq!(Offset2::new(1, 2).x(), 1);
    assert_eq!(Offset3::new(1, 2, 3).z(), 3);
    assert_eq!(Extent1::new(4u32).to_2d(), Extent2::new(4, 1));
    assert_eq!(Extent2::new(4u32, 5).to_3d(), Extent3::new(4, 5, 1));
    assert_eq!(Extent3::new(4u32, 5, 6).to_1d(), Extent1::new(4));
    assert_eq!(Extent3::new(4u32, 5, 6).depth(), 6);
}

#[test]
fn image_extent_dimensions() {
    let e = ImageExtent::D1(Extent([7]));
    assert_eq!((e.width(), e.height(), e.depth()), (7, 1, 1));
    assert_eq!(e.into_3d(), Extent([7, 1, 1]));
    let e = ImageExtent::D3(Extent([2, 3, 4]));
    assert_eq!(e.into_2d(), Extent([2, 3]));
    assert_eq!(e.into_1d(), Extent([2]));
    assert_eq!(e.expect_3d(), Extent([2, 3, 4]));
    assert_eq!(ImageExtent::from(Extent2::new(8, 9)).expect_2d(), Extent([8, 9]));
    assert_eq!(ImageExtent::D1(Extent([3])).expect_1d(), Extent([3]));
}

#[test]
fn image_descriptions() {
    let d = ImageDesc::new_d2_texture(64, 32, PixelFormat::Rgba8Unorm).layers(6).levels(3).with_name("sky");
    assert_eq!(d.extent, ImageExtent::D2(Extent([64, 32])));
    assert_eq!(d.usage, ImageUsage::from_bits(mev::image::SAMPLED | mev::image::TRANSFER_DST));
    assert_eq!((d.layers, d.levels, d.name), (6, 3, "sky"));
    let rt = ImageDesc::new_d3_rt(4, 4, 4, PixelFormat::R8Unorm);
    assert!(rt.usage.contains(ImageUsage::from_bits(mev::image::TARGET)));
    assert!(!rt.usage.contains(ImageUsage::from_bits(mev::image::STORAGE)));
    assert_eq!(rt.name, "");
    let d1 = ImageDesc::new_d1_rt(9, PixelFormat::R8Unorm);
    assert_eq!(d1.extent, ImageExtent::D1(Extent([9])));
    assert_eq!(ImageDesc::new_d1_texture(2, PixelFormat::R8Unorm).usage.bits, 0x6);
    assert_eq!(ImageDesc::new_d2_rt(2, 2, PixelFormat::R8Unorm).usage.bits, 0x14);
    assert_eq!(ImageDesc::new_d3_texture(1, 1, 1, PixelFormat::R8Unorm).layers, 1);
    assert_eq!(ImageUsage::from_bits(1).union(ImageUsage::from_bits(8)).bits, 9);
}

#[test]
fn view_descriptions() {
    let v = ViewDesc::new(PixelFormat::Rgba8Unorm).layers(2..5).levels(1..2).swizzle(Swizzle::rrrr());
    assert_eq!((v.base_layer, v.layers, v.base_level, v.levels), (2, 3, 1, 1));
    assert_eq!(v.swizzle, Swizzle::rrrr());
    assert_eq!(ViewDesc::new(PixelFormat::R8Unorm).swizzle, Swizzle::identity());
}

#[test]
fn swizzles_combine() {
    let s = Swizzle::rrrr().mul(Swizzle::one_one_one_r());
    assert_eq!(s.r, ComponentSwizzle::One);
    assert_eq!(s.a, ComponentSwizzle::R);
    let t = Swizzle::one_one_one_r().mul(Swizzle::identity());
    assert_eq!(t, Swizzle::one_one_one_r());
    assert_eq!(Swizzle::default(), Swizzle::identity());
    assert_eq!(ComponentSwizzle::default(), ComponentSwizzle::Identity);
}

#[test]
fn device_errors() {
    assert_eq!(DeviceError::from(OutOfMemory), DeviceError::OutOfMemory);
    assert_eq!(DeviceError::OutOfMemory.abort_on_device_lost(), OutOfMemory);
    assert_eq!(DeviceError::OutOfMemory.to_string(), "out of memory");
    assert_eq!(DeviceError::DeviceLost.to_string(), "device lost");
}

#[test]
fn native_failures_are_classified() {
    assert_eq!(classify(NativeError::OutOfDeviceMemory), Failure::OutOfMemory);
    assert_eq!(classify(NativeError::OutOfHostMemory), Failure::Abort);
    assert_eq!(classify(NativeError::DeviceLost), Failure::DeviceLost);
    assert_eq!(classify(NativeError::FullScreenExclusiveModeLost), Failure::SurfaceLost);
    assert_eq!(classify(NativeError::OutOfDate), Failure::OutOfDate);
    assert_eq!(classify_allocation(AllocationFailure::TooManyObjects), Failure::OutOfMemory);
    assert_eq!(classify_allocation(AllocationFailure::OutOfHostMemory), Failure::Abort);
}

#[test]
fn vulkan_format_codes() {
    assert_eq!(PixelFormat::R8Unorm.to_vk_format(), Some(9));
    assert_eq!(PixelFormat::Rgba8Srgb.to_vk_format(), Some(43));
    assert_eq!(PixelFormat::D32FloatS8Uint.to_vk_format(), Some(130));
    assert_eq!(PixelFormat::R32Unorm.to_vk_format(), None);
    assert_eq!(PixelFormat::from_vk_format(44), Some(PixelFormat::Bgra8Unorm));
    assert_eq!(PixelFormat::from_vk_format(109), Some(PixelFormat::Rgba32Float));
    assert_eq!(PixelFormat::from_vk_format(11), None);
    for code in 0..200 {
        if let Some(f) = PixelFormat::from_vk_format(code) {
            assert_eq!(f.to_vk_format(), Some(code));
        }
    }
}

#[test]
fn offsets_and_extents_map_and_cast() {
    let o = Offset2::new(3i32, -4).map(|c: i32| c * 2);
    assert_eq!(o, Offset2::new(6, -8));
    let e: Extent3<u32> = Extent3::cast(Extent3::new(1u8, 2u8, 3u8));
    assert_eq!(e, Extent3::new(1, 2, 3));
    let ok: Result<Extent2<u32>, _> = Extent2::try_cast(Extent2::new(5i32, 6i32));
    assert_eq!(ok, Ok(Extent2::new(5, 6)));
    let bad: Result<Offset3<u8>, _> = Offset3::try_cast(Offset3::new(1i32, 300, -1));
    assert!(bad.is_err());
    assert_eq!(Extent1::new(9u32).map(|w: u32| w + 1), Extent1::new(10));
    let one: Offset1<i64> = Offset1::cast(Offset1::new(7i32));
    assert_eq!(one.x(), 7);
}
