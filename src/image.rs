use vstd::prelude::*;

use crate::extent::{Extent, Extent1, Extent2, Extent3};
use crate::format::PixelFormat;

verus! {

/// Image component swizzle.
#[derive(Clone, Copy, Debug, PartialEq, Eq, Hash, Structural)]
pub enum ComponentSwizzle {
    Identity,
    Zero,
    One,
    R,
    G,
    B,
    A,
}

impl Default for ComponentSwizzle {
    fn default() -> (r: Self)
        ensures
            r == ComponentSwizzle::Identity,
    {
        ComponentSwizzle::Identity
    }
}

/// Image swizzle for each component.
///
/// It is used to remap components of an image in image views.
#[derive(Clone, Copy, Debug, PartialEq, Eq, Hash, Structural)]
pub struct Swizzle {
    pub r: ComponentSwizzle,
    pub g: ComponentSwizzle,
    pub b: ComponentSwizzle,
    pub a: ComponentSwizzle,
}

/// Where component `c` of a swizzle applied after `s` reads from, `own` being
/// what `s` gives for the component's own place.
pub open spec fn compose_component(s: Swizzle, c: ComponentSwizzle, own: ComponentSwizzle) -> ComponentSwizzle {
    match c {
        ComponentSwizzle::Identity => own,
        ComponentSwizzle::Zero => ComponentSwizzle::Zero,
        ComponentSwizzle::One => ComponentSwizzle::One,
        ComponentSwizzle::R => s.r,
        ComponentSwizzle::G => s.g,
        ComponentSwizzle::B => s.b,
        ComponentSwizzle::A => s.a,
    }
}

impl Default for Swizzle {
    fn default() -> (r: Self)
        ensures
            r == Swizzle::identity_spec(),
    {
        Swizzle::identity()
    }
}

impl Swizzle {
    pub open spec fn identity_spec() -> Swizzle {
        Swizzle {
            r: ComponentSwizzle::Identity,
            g: ComponentSwizzle::Identity,
            b: ComponentSwizzle::Identity,
            a: ComponentSwizzle::Identity,
        }
    }

    /// Identity swizzle, i.e. use as-is.
    pub fn identity() -> (r: Swizzle)
        ensures
            r == Swizzle::identity_spec(),
    {
        Swizzle {
            r: ComponentSwizzle::Identity,
            g: ComponentSwizzle::Identity,
            b: ComponentSwizzle::Identity,
            a: ComponentSwizzle::Identity,
        }
    }

    /// Every component reads the red one.
    pub fn rrrr() -> (r: Swizzle)
        ensures
            r == (Swizzle {
                r: ComponentSwizzle::R,
                g: ComponentSwizzle::R,
                b: ComponentSwizzle::R,
                a: ComponentSwizzle::R,
            }),
    {
        Swizzle { r: ComponentSwizzle::R, g: ComponentSwizzle::R, b: ComponentSwizzle::R, a: ComponentSwizzle::R }
    }

    /// Red, green and blue are one; alpha reads the red component.
    pub fn one_one_one_r() -> (r: Swizzle)
        ensures
            r == (Swizzle {
                r: ComponentSwizzle::One,
                g: ComponentSwizzle::One,
                b: ComponentSwizzle::One,
                a: ComponentSwizzle::R,
            }),
    {
        Swizzle { r: ComponentSwizzle::One, g: ComponentSwizzle::One, b: ComponentSwizzle::One, a: ComponentSwizzle::R }
    }

    fn component(&self, c: ComponentSwizzle, own: ComponentSwizzle) -> (r: ComponentSwizzle)
        ensures
            r == compose_component(*self, c, own),
    {
        match c {
            ComponentSwizzle::Identity => own,
            ComponentSwizzle::Zero => ComponentSwizzle::Zero,
            ComponentSwizzle::One => ComponentSwizzle::One,
            ComponentSwizzle::R => self.r,
            ComponentSwizzle::G => self.g,
            ComponentSwizzle::B => self.b,
            ComponentSwizzle::A => self.a,
        }
    }

    /// Combines two swizzles: `rhs` applied to what `self` gives.
    pub fn mul(self, rhs: Swizzle) -> (r: Swizzle)
        ensures
            r.r == compose_component(self, rhs.r, self.r),
            r.g == compose_component(self, rhs.g, self.g),
            r.b == compose_component(self, rhs.b, self.b),
            r.a == compose_component(self, rhs.a, self.a),
    {
        let r = self.component(rhs.r, self.r);
        let g = self.component(rhs.g, self.g);
        let b = self.component(rhs.b, self.b);
        let a = self.component(rhs.a, self.a);
        Swizzle { r, g, b, a }
    }
}

/// Extent of the image.
///
/// It can be 1D, 2D or 3D.
#[derive(Clone, Copy, Debug, PartialEq, Eq, Hash)]
pub enum ImageExtent {
    D1(Extent1),
    D2(Extent2),
    D3(Extent3),
}

impl ImageExtent {
    /// Width, height and depth, with one for the dimensions the image
    /// does not have.
    pub open spec fn dims(&self) -> (u32, u32, u32) {
        match self {
            ImageExtent::D1(e) => (e.0@[0], 1, 1),
            ImageExtent::D2(e) => (e.0@[0], e.0@[1], 1),
            ImageExtent::D3(e) => (e.0@[0], e.0@[1], e.0@[2]),
        }
    }

    /// Returns the width of the image.
    pub fn width(&self) -> (r: u32)
        ensures
            r == self.dims().0,
    {
        match self {
            ImageExtent::D1(e) => e.width(),
            ImageExtent::D2(e) => e.width(),
            ImageExtent::D3(e) => e.width(),
        }
    }

    /// Returns the height of the image; 1 for a 1D image.
    pub fn height(&self) -> (r: u32)
        ensures
            r == self.dims().1,
    {
        match self {
            ImageExtent::D1(_) => 1,
            ImageExtent::D2(e) => e.height(),
            ImageExtent::D3(e) => e.height(),
        }
    }

    /// Returns the depth of the image; 1 for a 1D or 2D image.
    pub fn depth(&self) -> (r: u32)
        ensures
            r == self.dims().2,
    {
        match self {
            ImageExtent::D1(_) => 1,
            ImageExtent::D2(_) => 1,
            ImageExtent::D3(e) => e.depth(),
        }
    }

    /// The extent of a 1D image.
    pub fn expect_1d(self) -> (r: Extent1<u32>)
        requires
            self is D1,
        ensures
            self == ImageExtent::D1(r),
    {
        match self {
            ImageExtent::D1(e) => e,
            _ => {
                proof {
                    assert(false);
                }
                Extent([0])
            },
        }
    }

    /// The extent of a 2D image.
    pub fn expect_2d(self) -> (r: Extent2<u32>)
        requires
            self is D2,
        ensures
            self == ImageExtent::D2(r),
    {
        match self {
            ImageExtent::D2(e) => e,
            _ => {
                proof {
                    assert(false);
                }
                Extent([0, 0])
            },
        }
    }

    /// The extent of a 3D image.
    pub fn expect_3d(self) -> (r: Extent3<u32>)
        requires
            self is D3,
        ensures
            self == ImageExtent::D3(r),
    {
        match self {
            ImageExtent::D3(e) => e,
            _ => {
                proof {
                    assert(false);
                }
                Extent([0, 0, 0])
            },
        }
    }

    /// The width alone.
    pub fn into_1d(self) -> (r: Extent1<u32>)
        ensures
            r.0@ == seq![self.dims().0],
    {
        match self {
            ImageExtent::D1(e) => {
                assert(e.0@ =~= seq![e.0@[0]]);
                e
            },
            ImageExtent::D2(e) => e.to_1d(),
            ImageExtent::D3(e) => e.to_1d(),
        }
    }

    /// Width and height, the height of a 1D image being 1.
    pub fn into_2d(self) -> (r: Extent2<u32>)
        ensures
            r.0@ == seq![self.dims().0, self.dims().1],
    {
        match self {
            ImageExtent::D1(e) => Extent([e.0[0], 1]),
            ImageExtent::D2(e) => {
                assert(e.0@ =~= seq![e.0@[0], e.0@[1]]);
                e
            },
            ImageExtent::D3(e) => e.to_2d(),
        }
    }

    /// Width, height and depth, with 1 for missing dimensions.
    pub fn into_3d(self) -> (r: Extent3<u32>)
        ensures
            r.0@ == seq![self.dims().0, self.dims().1, self.dims().2],
    {
        match self {
            ImageExtent::D1(e) => Extent([e.0[0], 1, 1]),
            ImageExtent::D2(e) => Extent([e.0[0], e.0[1], 1]),
            ImageExtent::D3(e) => {
                assert(e.0@ =~= seq![e.0@[0], e.0@[1], e.0@[2]]);
                e
            },
        }
    }
}

impl From<Extent1> for ImageExtent {
    fn from(extent: Extent1) -> (r: ImageExtent)
        ensures
            r == ImageExtent::D1(extent),
    {
        ImageExtent::D1(extent)
    }
}

impl vstd::std_specs::convert::FromSpecImpl<Extent1> for ImageExtent {
    open spec fn obeys_from_spec() -> bool {
        true
    }

    open spec fn from_spec(v: Extent1) -> ImageExtent {
        ImageExtent::D1(v)
    }
}

impl From<Extent2> for ImageExtent {
    fn from(extent: Extent2) -> (r: ImageExtent)
        ensures
            r == ImageExtent::D2(extent),
    {
        ImageExtent::D2(extent)
    }
}

impl vstd::std_specs::convert::FromSpecImpl<Extent2> for ImageExtent {
    open spec fn obeys_from_spec() -> bool {
        true
    }

    open spec fn from_spec(v: Extent2) -> ImageExtent {
        ImageExtent::D2(v)
    }
}

impl From<Extent3> for ImageExtent {
    fn from(extent: Extent3) -> (r: ImageExtent)
        ensures
            r == ImageExtent::D3(extent),
    {
        ImageExtent::D3(extent)
    }
}

impl vstd::std_specs::convert::FromSpecImpl<Extent3> for ImageExtent {
    open spec fn obeys_from_spec() -> bool {
        true
    }

    open spec fn from_spec(v: Extent3) -> ImageExtent {
        ImageExtent::D3(v)
    }
}

/// Image usage flags.
///
/// Image can only be used according to usage flags specified during creation.
#[derive(Clone, Copy, Debug, PartialEq, Eq, Hash, Structural)]
pub struct ImageUsage {
    pub bits: u32,
}

/// Image can be used as a source for transfer operations.
pub const TRANSFER_SRC: u32 = 0x0000_0001;

/// Image can be used as a destination for transfer operations.
pub const TRANSFER_DST: u32 = 0x0000_0002;

/// Image can be used as a sampled image in shader arguments.
pub const SAMPLED: u32 = 0x0000_0004;

/// Image can be used as a storage image in shader arguments.
pub const STORAGE: u32 = 0x0000_0008;

/// Image can be used as a target for rendering.
pub const TARGET: u32 = 0x0000_0010;

impl ImageUsage {
    /// Usage with exactly the flags `bits`.
    pub fn from_bits(bits: u32) -> (r: ImageUsage)
        ensures
            r.bits == bits,
    {
        ImageUsage { bits }
    }

    /// Flags of either usage.
    pub fn union(self, other: ImageUsage) -> (r: ImageUsage)
        ensures
            r.bits == self.bits | other.bits,
    {
        ImageUsage { bits: self.bits | other.bits }
    }

    /// Whether every flag of `other` is set.
    pub fn contains(self, other: ImageUsage) -> (r: bool)
        ensures
            r == (self.bits & other.bits == other.bits),
    {
        self.bits & other.bits == other.bits
    }
}

/// Description used for image creation.
pub struct ImageDesc<'a> {
    /// Image extent.
    pub extent: ImageExtent,
    /// Image pixel format.
    pub format: PixelFormat,
    /// Image usage flags.
    pub usage: ImageUsage,
    /// Image layers count.
    pub layers: u32,
    /// Image mip levels count.
    pub levels: u32,
    /// Image debug name.
    pub name: &'a str,
}

impl<'a> ImageDesc<'a> {
    /// A description with one layer, one mip level and no name.
    pub fn new(extent: ImageExtent, format: PixelFormat, usage: ImageUsage) -> (r: Self)
        ensures
            r.extent == extent,
            r.format == format,
            r.usage == usage,
            r.layers == 1,
            r.levels == 1,
            r.name@.len() == 0,
    {
        proof { reveal_strlit(""); }
        ImageDesc { extent, format, usage, layers: 1, levels: 1, name: "" }
    }

    /// A 1D image description.
    pub fn new_d1(width: u32, format: PixelFormat, usage: ImageUsage) -> (r: Self)
        ensures
            r.extent == ImageExtent::D1(Extent([width])),
            r.format == format,
            r.usage == usage,
            r.layers == 1,
            r.levels == 1,
            r.name@.len() == 0,
    {
        ImageDesc::new(ImageExtent::D1(Extent([width])), format, usage)
    }

    /// A 2D image description.
    pub fn new_d2(width: u32, height: u32, format: PixelFormat, usage: ImageUsage) -> (r: Self)
        ensures
            r.extent == ImageExtent::D2(Extent([width, height])),
            r.format == format,
            r.usage == usage,
            r.layers == 1,
            r.levels == 1,
            r.name@.len() == 0,
    {
        ImageDesc::new(ImageExtent::D2(Extent([width, height])), format, usage)
    }

    /// A 3D image description.
    pub fn new_d3(width: u32, height: u32, depth: u32, format: PixelFormat, usage: ImageUsage) -> (r: Self)
        ensures
            r.extent == ImageExtent::D3(Extent([width, height, depth])),
            r.format == format,
            r.usage == usage,
            r.layers == 1,
            r.levels == 1,
            r.name@.len() == 0,
    {
        ImageDesc::new(ImageExtent::D3(Extent([width, height, depth])), format, usage)
    }

    /// Sets the layers count.
    pub fn layers(self, layers: u32) -> (r: Self)
        ensures
            r.layers == layers,
            r.extent == self.extent,
            r.format == self.format,
            r.usage == self.usage,
            r.levels == self.levels,
            r.name == self.name,
    {
        ImageDesc { layers, ..self }
    }

    /// Sets the mip levels count.
    pub fn levels(self, levels: u32) -> (r: Self)
        ensures
            r.levels == levels,
            r.extent == self.extent,
            r.format == self.format,
            r.usage == self.usage,
            r.layers == self.layers,
            r.name == self.name,
    {
        ImageDesc { levels, ..self }
    }

    /// A 1D texture: sampled and written by transfers.
    pub fn new_d1_texture(width: u32, format: PixelFormat) -> (r: Self)
        ensures
            r.extent == ImageExtent::D1(Extent([width])),
            r.format == format,
            r.usage.bits == SAMPLED | TRANSFER_DST,
            r.layers == 1,
            r.levels == 1,
            r.name@.len() == 0,
    {
        ImageDesc::new_d1(width, format, ImageUsage { bits: SAMPLED | TRANSFER_DST })
    }

    /// A 2D texture: sampled and written by transfers.
    pub fn new_d2_texture(width: u32, height: u32, format: PixelFormat) -> (r: Self)
        ensures
            r.extent == ImageExtent::D2(Extent([width, height])),
            r.format == format,
            r.usage.bits == SAMPLED | TRANSFER_DST,
            r.layers == 1,
            r.levels == 1,
            r.name@.len() == 0,
    {
        ImageDesc::new_d2(width, height, format, ImageUsage { bits: SAMPLED | TRANSFER_DST })
    }

    /// A 3D texture: sampled and written by transfers.
    pub fn new_d3_texture(width: u32, height: u32, depth: u32, format: PixelFormat) -> (r: Self)
        ensures
            r.extent == ImageExtent::D3(Extent([width, height, depth])),
            r.format == format,
            r.usage.bits == SAMPLED | TRANSFER_DST,
            r.layers == 1,
            r.levels == 1,
            r.name@.len() == 0,
    {
        ImageDesc::new_d3(width, height, depth, format, ImageUsage { bits: SAMPLED | TRANSFER_DST })
    }

    /// A 1D render target: sampled and rendered to.
    pub fn new_d1_rt(width: u32, format: PixelFormat) -> (r: Self)
        ensures
            r.extent == ImageExtent::D1(Extent([width])),
            r.format == format,
            r.usage.bits == SAMPLED | TARGET,
            r.layers == 1,
            r.levels == 1,
            r.name@.len() == 0,
    {
        ImageDesc::new_d1(width, format, ImageUsage { bits: SAMPLED | TARGET })
    }

    /// A 2D render target: sampled and rendered to.
    pub fn new_d2_rt(width: u32, height: u32, format: PixelFormat) -> (r: Self)
        ensures
            r.extent == ImageExtent::D2(Extent([width, height])),
            r.format == format,
            r.usage.bits == SAMPLED | TARGET,
            r.layers == 1,
            r.levels == 1,
            r.name@.len() == 0,
    {
        ImageDesc::new_d2(width, height, format, ImageUsage { bits: SAMPLED | TARGET })
    }

    /// A 3D render target: sampled and rendered to.
    pub fn new_d3_rt(width: u32, height: u32, depth: u32, format: PixelFormat) -> (r: Self)
        ensures
            r.extent == ImageExtent::D3(Extent([width, height, depth])),
            r.format == format,
            r.usage.bits == SAMPLED | TARGET,
            r.layers == 1,
            r.levels == 1,
            r.name@.len() == 0,
    {
        ImageDesc::new_d3(width, height, depth, format, ImageUsage { bits: SAMPLED | TARGET })
    }

    /// Sets the debug name.
    pub fn with_name(self, name: &'a str) -> (r: Self)
        ensures
            r.name == name,
            r.extent == self.extent,
            r.format == self.format,
            r.usage == self.usage,
            r.layers == self.layers,
            r.levels == self.levels,
    {
        ImageDesc { name, ..self }
    }
}

/// Description used for image view creation.
#[derive(Clone, Copy, Debug, PartialEq, Eq, Hash, Structural)]
pub struct ViewDesc {
    /// View pixel format; compatible with the image's.
    pub format: PixelFormat,
    /// Layer of the image that is the view's first layer.
    pub base_layer: u32,
    /// Number of layers in the view.
    pub layers: u32,
    /// Mip level of the image that is the view's first level.
    pub base_level: u32,
    /// Number of mip levels in the view.
    pub levels: u32,
    /// Image component swizzle.
    pub swizzle: Swizzle,
}

impl ViewDesc {
    /// A view of the first layer and level, as-is.
    pub fn new(format: PixelFormat) -> (r: Self)
        ensures
            r == (ViewDesc {
                format,
                base_layer: 0,
                layers: 1,
                base_level: 0,
                levels: 1,
                swizzle: Swizzle::identity_spec(),
            }),
    {
        ViewDesc { format, base_layer: 0, layers: 1, base_level: 0, levels: 1, swizzle: Swizzle::identity() }
    }

    /// Sets the range of layers.
    pub fn layers(self, range: std::ops::Range<u32>) -> (r: Self)
        requires
            range.start <= range.end,
        ensures
            r == (ViewDesc { base_layer: range.start, layers: (range.end - range.start) as u32, ..self }),
    {
        ViewDesc { layers: range.end - range.start, base_layer: range.start, ..self }
    }

    /// Sets the range of mip levels.
    pub fn levels(self, range: std::ops::Range<u32>) -> (r: Self)
        requires
            range.start <= range.end,
        ensures
            r == (ViewDesc { base_level: range.start, levels: (range.end - range.start) as u32, ..self }),
    {
        ViewDesc { levels: range.end - range.start, base_level: range.start, ..self }
    }

    /// Sets the component swizzle.
    pub fn swizzle(self, swizzle: Swizzle) -> (r: Self)
        ensures
            r == (ViewDesc { swizzle, ..self }),
    {
        ViewDesc { swizzle, ..self }
    }
}

} // verus!
