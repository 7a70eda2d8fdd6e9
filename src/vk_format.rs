use vstd::prelude::*;

use crate::format::PixelFormat;

verus! {

/// The Vulkan format code of `f`, if Vulkan has one. Vulkan has no 32-bit
/// normalized formats.
pub open spec fn vk_format_code(f: PixelFormat) -> Option<i32> {
    match f {
        PixelFormat::R8Unorm => Some(9i32),
        PixelFormat::R8Snorm => Some(10i32),
        PixelFormat::R8Uint => Some(13i32),
        PixelFormat::R8Sint => Some(14i32),
        PixelFormat::R8Srgb => Some(15i32),
        PixelFormat::R16Unorm => Some(70i32),
        PixelFormat::R16Snorm => Some(71i32),
        PixelFormat::R16Uint => Some(74i32),
        PixelFormat::R16Sint => Some(75i32),
        PixelFormat::R16Float => Some(76i32),
        PixelFormat::R32Uint => Some(98i32),
        PixelFormat::R32Sint => Some(99i32),
        PixelFormat::R32Float => Some(100i32),
        PixelFormat::Rg8Unorm => Some(16i32),
        PixelFormat::Rg8Snorm => Some(17i32),
        PixelFormat::Rg8Uint => Some(20i32),
        PixelFormat::Rg8Sint => Some(21i32),
        PixelFormat::Rg8Srgb => Some(22i32),
        PixelFormat::Rg16Unorm => Some(77i32),
        PixelFormat::Rg16Snorm => Some(78i32),
        PixelFormat::Rg16Uint => Some(81i32),
        PixelFormat::Rg16Sint => Some(82i32),
        PixelFormat::Rg16Float => Some(83i32),
        PixelFormat::Rg32Uint => Some(101i32),
        PixelFormat::Rg32Sint => Some(102i32),
        PixelFormat::Rg32Float => Some(103i32),
        PixelFormat::Rgb8Unorm => Some(23i32),
        PixelFormat::Rgb8Snorm => Some(24i32),
        PixelFormat::Rgb8Uint => Some(27i32),
        PixelFormat::Rgb8Sint => Some(28i32),
        PixelFormat::Rgb8Srgb => Some(29i32),
        PixelFormat::Rgb16Unorm => Some(84i32),
        PixelFormat::Rgb16Snorm => Some(85i32),
        PixelFormat::Rgb16Uint => Some(88i32),
        PixelFormat::Rgb16Sint => Some(89i32),
        PixelFormat::Rgb16Float => Some(90i32),
        PixelFormat::Rgb32Uint => Some(104i32),
        PixelFormat::Rgb32Sint => Some(105i32),
        PixelFormat::Rgb32Float => Some(106i32),
        PixelFormat::Rgba8Unorm => Some(37i32),
        PixelFormat::Rgba8Snorm => Some(38i32),
        PixelFormat::Rgba8Uint => Some(41i32),
        PixelFormat::Rgba8Sint => Some(42i32),
        PixelFormat::Rgba8Srgb => Some(43i32),
        PixelFormat::Rgba16Unorm => Some(91i32),
        PixelFormat::Rgba16Snorm => Some(92i32),
        PixelFormat::Rgba16Uint => Some(95i32),
        PixelFormat::Rgba16Sint => Some(96i32),
        PixelFormat::Rgba16Float => Some(97i32),
        PixelFormat::Rgba32Uint => Some(107i32),
        PixelFormat::Rgba32Sint => Some(108i32),
        PixelFormat::Rgba32Float => Some(109i32),
        PixelFormat::Bgr8Unorm => Some(30i32),
        PixelFormat::Bgr8Snorm => Some(31i32),
        PixelFormat::Bgr8Uint => Some(34i32),
        PixelFormat::Bgr8Sint => Some(35i32),
        PixelFormat::Bgr8Srgb => Some(36i32),
        PixelFormat::Bgra8Unorm => Some(44i32),
        PixelFormat::Bgra8Snorm => Some(45i32),
        PixelFormat::Bgra8Uint => Some(48i32),
        PixelFormat::Bgra8Sint => Some(49i32),
        PixelFormat::Bgra8Srgb => Some(50i32),
        PixelFormat::D16Unorm => Some(124i32),
        PixelFormat::D32Float => Some(126i32),
        PixelFormat::S8Uint => Some(127i32),
        PixelFormat::D16UnormS8Uint => Some(128i32),
        PixelFormat::D24UnormS8Uint => Some(129i32),
        PixelFormat::D32FloatS8Uint => Some(130i32),
        PixelFormat::R32Unorm
        | PixelFormat::R32Snorm
        | PixelFormat::Rg32Unorm
        | PixelFormat::Rg32Snorm
        | PixelFormat::Rgb32Unorm
        | PixelFormat::Rgb32Snorm
        | PixelFormat::Rgba32Unorm
        | PixelFormat::Rgba32Snorm => None,
    }
}

impl PixelFormat {
    /// The Vulkan format code of this format, if Vulkan has one.
    pub fn to_vk_format(&self) -> (r: Option<i32>)
        ensures
            r == vk_format_code(*self),
    {
        match self {
            PixelFormat::R8Unorm => Some(9i32),
            PixelFormat::R8Snorm => Some(10i32),
            PixelFormat::R8Uint => Some(13i32),
            PixelFormat::R8Sint => Some(14i32),
            PixelFormat::R8Srgb => Some(15i32),
            PixelFormat::R16Unorm => Some(70i32),
            PixelFormat::R16Snorm => Some(71i32),
            PixelFormat::R16Uint => Some(74i32),
            PixelFormat::R16Sint => Some(75i32),
            PixelFormat::R16Float => Some(76i32),
            PixelFormat::R32Uint => Some(98i32),
            PixelFormat::R32Sint => Some(99i32),
            PixelFormat::R32Float => Some(100i32),
            PixelFormat::Rg8Unorm => Some(16i32),
            PixelFormat::Rg8Snorm => Some(17i32),
            PixelFormat::Rg8Uint => Some(20i32),
            PixelFormat::Rg8Sint => Some(21i32),
            PixelFormat::Rg8Srgb => Some(22i32),
            PixelFormat::Rg16Unorm => Some(77i32),
            PixelFormat::Rg16Snorm => Some(78i32),
            PixelFormat::Rg16Uint => Some(81i32),
            PixelFormat::Rg16Sint => Some(82i32),
            PixelFormat::Rg16Float => Some(83i32),
            PixelFormat::Rg32Uint => Some(101i32),
            PixelFormat::Rg32Sint => Some(102i32),
            PixelFormat::Rg32Float => Some(103i32),
            PixelFormat::Rgb8Unorm => Some(23i32),
            PixelFormat::Rgb8Snorm => Some(24i32),
            PixelFormat::Rgb8Uint => Some(27i32),
            PixelFormat::Rgb8Sint => Some(28i32),
            PixelFormat::Rgb8Srgb => Some(29i32),
            PixelFormat::Rgb16Unorm => Some(84i32),
            PixelFormat::Rgb16Snorm => Some(85i32),
            PixelFormat::Rgb16Uint => Some(88i32),
            PixelFormat::Rgb16Sint => Some(89i32),
            PixelFormat::Rgb16Float => Some(90i32),
            PixelFormat::Rgb32Uint => Some(104i32),
            PixelFormat::Rgb32Sint => Some(105i32),
            PixelFormat::Rgb32Float => Some(106i32),
            PixelFormat::Rgba8Unorm => Some(37i32),
            PixelFormat::Rgba8Snorm => Some(38i32),
            PixelFormat::Rgba8Uint => Some(41i32),
            PixelFormat::Rgba8Sint => Some(42i32),
            PixelFormat::Rgba8Srgb => Some(43i32),
            PixelFormat::Rgba16Unorm => Some(91i32),
            PixelFormat::Rgba16Snorm => Some(92i32),
            PixelFormat::Rgba16Uint => Some(95i32),
            PixelFormat::Rgba16Sint => Some(96i32),
            PixelFormat::Rgba16Float => Some(97i32),
            PixelFormat::Rgba32Uint => Some(107i32),
            PixelFormat::Rgba32Sint => Some(108i32),
            PixelFormat::Rgba32Float => Some(109i32),
            PixelFormat::Bgr8Unorm => Some(30i32),
            PixelFormat::Bgr8Snorm => Some(31i32),
            PixelFormat::Bgr8Uint => Some(34i32),
            PixelFormat::Bgr8Sint => Some(35i32),
            PixelFormat::Bgr8Srgb => Some(36i32),
            PixelFormat::Bgra8Unorm => Some(44i32),
            PixelFormat::Bgra8Snorm => Some(45i32),
            PixelFormat::Bgra8Uint => Some(48i32),
            PixelFormat::Bgra8Sint => Some(49i32),
            PixelFormat::Bgra8Srgb => Some(50i32),
            PixelFormat::D16Unorm => Some(124i32),
            PixelFormat::D32Float => Some(126i32),
            PixelFormat::S8Uint => Some(127i32),
            PixelFormat::D16UnormS8Uint => Some(128i32),
            PixelFormat::D24UnormS8Uint => Some(129i32),
            PixelFormat::D32FloatS8Uint => Some(130i32),
            PixelFormat::R32Unorm
            | PixelFormat::R32Snorm
            | PixelFormat::Rg32Unorm
            | PixelFormat::Rg32Snorm
            | PixelFormat::Rgb32Unorm
            | PixelFormat::Rgb32Snorm
            | PixelFormat::Rgba32Unorm
            | PixelFormat::Rgba32Snorm => None,
        }
    }

    /// The format with Vulkan format code `code`, if this library has one.
    pub fn from_vk_format(code: i32) -> (r: Option<PixelFormat>)
        ensures
            r matches Some(f) ==> vk_format_code(f) == Some(code),
            r is None ==> forall|f: PixelFormat| vk_format_code(f) != Some(code),
    {
        match code {
            9 => Some(PixelFormat::R8Unorm),
            10 => Some(PixelFormat::R8Snorm),
            13 => Some(PixelFormat::R8Uint),
            14 => Some(PixelFormat::R8Sint),
            15 => Some(PixelFormat::R8Srgb),
            70 => Some(PixelFormat::R16Unorm),
            71 => Some(PixelFormat::R16Snorm),
            74 => Some(PixelFormat::R16Uint),
            75 => Some(PixelFormat::R16Sint),
            76 => Some(PixelFormat::R16Float),
            98 => Some(PixelFormat::R32Uint),
            99 => Some(PixelFormat::R32Sint),
            100 => Some(PixelFormat::R32Float),
            16 => Some(PixelFormat::Rg8Unorm),
            17 => Some(PixelFormat::Rg8Snorm),
            20 => Some(PixelFormat::Rg8Uint),
            21 => Some(PixelFormat::Rg8Sint),
            22 => Some(PixelFormat::Rg8Srgb),
            77 => Some(PixelFormat::Rg16Unorm),
            78 => Some(PixelFormat::Rg16Snorm),
            81 => Some(PixelFormat::Rg16Uint),
            82 => Some(PixelFormat::Rg16Sint),
            83 => Some(PixelFormat::Rg16Float),
            101 => Some(PixelFormat::Rg32Uint),
            102 => Some(PixelFormat::Rg32Sint),
            103 => Some(PixelFormat::Rg32Float),
            23 => Some(PixelFormat::Rgb8Unorm),
            24 => Some(PixelFormat::Rgb8Snorm),
            27 => Some(PixelFormat::Rgb8Uint),
            28 => Some(PixelFormat::Rgb8Sint),
            29 => Some(PixelFormat::Rgb8Srgb),
            84 => Some(PixelFormat::Rgb16Unorm),
            85 => Some(PixelFormat::Rgb16Snorm),
            88 => Some(PixelFormat::Rgb16Uint),
            89 => Some(PixelFormat::Rgb16Sint),
            90 => Some(PixelFormat::Rgb16Float),
            104 => Some(PixelFormat::Rgb32Uint),
            105 => Some(PixelFormat::Rgb32Sint),
            106 => Some(PixelFormat::Rgb32Float),
            37 => Some(PixelFormat::Rgba8Unorm),
            38 => Some(PixelFormat::Rgba8Snorm),
            41 => Some(PixelFormat::Rgba8Uint),
            42 => Some(PixelFormat::Rgba8Sint),
            43 => Some(PixelFormat::Rgba8Srgb),
            91 => Some(PixelFormat::Rgba16Unorm),
            92 => Some(PixelFormat::Rgba16Snorm),
            95 => Some(PixelFormat::Rgba16Uint),
            96 => Some(PixelFormat::Rgba16Sint),
            97 => Some(PixelFormat::Rgba16Float),
            107 => Some(PixelFormat::Rgba32Uint),
            108 => Some(PixelFormat::Rgba32Sint),
            109 => Some(PixelFormat::Rgba32Float),
            30 => Some(PixelFormat::Bgr8Unorm),
            31 => Some(PixelFormat::Bgr8Snorm),
            34 => Some(PixelFormat::Bgr8Uint),
            35 => Some(PixelFormat::Bgr8Sint),
            36 => Some(PixelFormat::Bgr8Srgb),
            44 => Some(PixelFormat::Bgra8Unorm),
            45 => Some(PixelFormat::Bgra8Snorm),
            48 => Some(PixelFormat::Bgra8Uint),
            49 => Some(PixelFormat::Bgra8Sint),
            50 => Some(PixelFormat::Bgra8Srgb),
            124 => Some(PixelFormat::D16Unorm),
            126 => Some(PixelFormat::D32Float),
            127 => Some(PixelFormat::S8Uint),
            128 => Some(PixelFormat::D16UnormS8Uint),
            129 => Some(PixelFormat::D24UnormS8Uint),
            130 => Some(PixelFormat::D32FloatS8Uint),
            _ => None,
        }
    }
}

/// Distinct formats have distinct Vulkan codes, so converting a format to
/// its code and back gives the format again.
pub proof fn vk_format_round_trip(f: PixelFormat, g: PixelFormat)
    requires
        vk_format_code(f) is Some,
        vk_format_code(f) == vk_format_code(g),
    ensures
        f == g,
{
}

} // verus!
