//! Sampler descriptions.

use vstd::prelude::*;

verus! {

/// What a sampler returns outside the texture.
#[derive(Clone, Copy, Debug, PartialEq, Eq, Structural)]
pub enum AddressMode {
    ClampToEdge,
    Repeat,
    MirrorRepeat,
}

/// How a sampler picks a value between texels.
#[derive(Clone, Copy, Debug, PartialEq, Eq, Structural)]
pub enum FilterMode {
    Nearest,
    Linear,
}

/// A sampler to create. The level-of-detail clamps are 32-bit floats, held
/// as their bit patterns.
#[derive(Clone, Copy, Debug, PartialEq, Eq, Structural)]
pub struct SamplerDescriptor {
    pub address_mode_u: AddressMode,
    pub address_mode_v: AddressMode,
    pub address_mode_w: AddressMode,
    pub mag_filter: FilterMode,
    pub min_filter: FilterMode,
    pub mipmap_filter: FilterMode,
    pub lod_min_clamp: u32,
    pub lod_max_clamp: u32,
}

/// Bit pattern of the float 0.0.
pub const F32_ZERO: u32 = 0x0000_0000;

/// Bit pattern of the float 1.0.
pub const F32_ONE: u32 = 0x3f80_0000;

/// Bit pattern of the float 100.0.
pub const F32_HUNDRED: u32 = 0x42c8_0000;

impl SamplerDescriptor {
    /// Whether a sampler of this description interpolates anywhere. One that
    /// does can be bound at a filtering sampler slot only.
    pub open spec fn filters(self) -> bool {
        self.mag_filter == FilterMode::Linear || self.min_filter == FilterMode::Linear
            || self.mipmap_filter == FilterMode::Linear
    }

    /// The sampler of the depth texture, as mathematics: clamped to the edge
    /// in every direction, nearest texel, levels of detail 0 to 100.
    pub open spec fn spec_depth() -> SamplerDescriptor {
        SamplerDescriptor {
            address_mode_u: AddressMode::ClampToEdge,
            address_mode_v: AddressMode::ClampToEdge,
            address_mode_w: AddressMode::ClampToEdge,
            mag_filter: FilterMode::Nearest,
            min_filter: FilterMode::Nearest,
            mipmap_filter: FilterMode::Nearest,
            lod_min_clamp: F32_ZERO,
            lod_max_clamp: F32_HUNDRED,
        }
    }

    /// The sampler of the depth texture. It never interpolates, as the
    /// non-filtering slot that it is bound at demands.
    pub fn depth() -> (r: SamplerDescriptor)
        ensures
            r == SamplerDescriptor::spec_depth(),
            !r.filters(),
    {
        SamplerDescriptor {
            address_mode_u: AddressMode::ClampToEdge,
            address_mode_v: AddressMode::ClampToEdge,
            address_mode_w: AddressMode::ClampToEdge,
            mag_filter: FilterMode::Nearest,
            min_filter: FilterMode::Nearest,
            mipmap_filter: FilterMode::Nearest,
            lod_min_clamp: F32_ZERO,
            lod_max_clamp: F32_HUNDRED,
        }
    }
}

} // verus!
