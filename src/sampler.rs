use vstd::prelude::*;

use crate::cache::CacheKey;

verus! {

/// Texel filter.
#[derive(Clone, Copy, Debug, PartialEq, Eq, Hash, Structural)]
pub enum Filter {
    Nearest,
    Linear,
}

/// Filter between mip levels.
#[derive(Clone, Copy, Debug, PartialEq, Eq, Hash, Structural)]
pub enum MipMapMode {
    Nearest,
    Linear,
}

/// What a coordinate outside the image reads.
#[derive(Clone, Copy, Debug, PartialEq, Eq, Hash, Structural)]
pub enum AddressMode {
    Repeat,
    MirrorRepeat,
    ClampToEdge,
}

/// Bit pattern of positive infinity in single precision.
pub const LOD_UNBOUNDED_BITS: u32 = 0x7f80_0000;

/// Description of a sampler. The level-of-detail bounds and the anisotropy
/// are single-precision values held as their bit patterns, so that two
/// descriptions are equal exactly when every value has the same bits.
#[derive(Clone, Copy, Debug, PartialEq, Eq, Hash)]
pub struct SamplerDesc {
    pub min_filter: Filter,
    pub mag_filter: Filter,
    pub mip_map_mode: MipMapMode,
    pub address_mode: [AddressMode; 3],
    pub anisotropy_bits: Option<u32>,
    pub min_lod_bits: u32,
    pub max_lod_bits: u32,
    pub normalized: bool,
}

impl SamplerDesc {
    /// Nearest filtering, repeating addresses, no anisotropy, every level of
    /// detail, normalized coordinates.
    pub fn new() -> (r: SamplerDesc)
        ensures
            r.min_filter == Filter::Nearest,
            r.mag_filter == Filter::Nearest,
            r.mip_map_mode == MipMapMode::Nearest,
            r.address_mode@ == seq![AddressMode::Repeat, AddressMode::Repeat, AddressMode::Repeat],
            r.anisotropy_bits is None,
            r.min_lod_bits == 0,
            r.max_lod_bits == LOD_UNBOUNDED_BITS,
            r.normalized,
    {
        SamplerDesc {
            min_filter: Filter::Nearest,
            mag_filter: Filter::Nearest,
            mip_map_mode: MipMapMode::Nearest,
            address_mode: [AddressMode::Repeat, AddressMode::Repeat, AddressMode::Repeat],
            anisotropy_bits: None,
            min_lod_bits: 0,
            max_lod_bits: LOD_UNBOUNDED_BITS,
            normalized: true,
        }
    }
}

impl View for SamplerDesc {
    type V = SamplerDesc;

    open spec fn view(&self) -> SamplerDesc {
        *self
    }
}

impl CacheKey for SamplerDesc {
    fn same(&self, other: &Self) -> (r: bool) {
        let aniso = match (self.anisotropy_bits, other.anisotropy_bits) {
            (Some(a), Some(b)) => a == b,
            (None, None) => true,
            _ => false,
        };
        let r = self.min_filter == other.min_filter && self.mag_filter == other.mag_filter
            && self.mip_map_mode == other.mip_map_mode && self.address_mode[0] == other.address_mode[0]
            && self.address_mode[1] == other.address_mode[1] && self.address_mode[2]
            == other.address_mode[2] && aniso && self.min_lod_bits == other.min_lod_bits
            && self.max_lod_bits == other.max_lod_bits && self.normalized == other.normalized;
        proof {
            if r {
                assert(self.address_mode@ =~= other.address_mode@);
                assert(self.address_mode == other.address_mode);
            }
        }
        r
    }
}

} // verus!
