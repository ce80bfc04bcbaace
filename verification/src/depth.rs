//! The depth target that the sprite pass tests against.

use vstd::prelude::*;
use crate::pipeline::DepthCompare;

verus! {

/// Pixel format of a depth target.
#[derive(Clone, Copy, Debug, PartialEq, Eq, Structural)]
pub enum DepthFormat {
    /// One 32-bit floating-point depth value per pixel, no stencil.
    Depth32Float,
}

/// What a depth target is created with: a single-sampled two-dimensional
/// texture without mip chain, usable as a render attachment and as a
/// sampled texture.
#[derive(Clone, Copy, Debug, PartialEq, Eq, Structural)]
pub struct DepthTexture {
    pub width: u32,
    pub height: u32,
    pub depth_or_array_layers: u32,
    pub mip_level_count: u32,
    pub sample_count: u32,
    pub format: DepthFormat,
}

/// The depth target for a surface of `w` by `h` pixels.
pub open spec fn depth_texture_of(w: u32, h: u32) -> DepthTexture {
    DepthTexture {
        width: w,
        height: h,
        depth_or_array_layers: 1,
        mip_level_count: 1,
        sample_count: 1,
        format: DepthFormat::Depth32Float,
    }
}

/// Describes the depth target for a surface of the given size (width,
/// height). The target always has the surface's own dimensions.
pub fn create_depth_texture(window_size: (u32, u32)) -> (d: DepthTexture)
    ensures
        d == depth_texture_of(window_size.0, window_size.1),
{
    let (width, height) = window_size;
    DepthTexture {
        width,
        height,
        depth_or_array_layers: 1,
        mip_level_count: 1,
        sample_count: 1,
        format: DepthFormat::Depth32Float,
    }
}

/// What a sampler does with coordinates outside the texture.
#[derive(Clone, Copy, Debug, PartialEq, Eq, Structural)]
pub enum AddressMode {
    ClampToEdge,
    Repeat,
}

/// How a sampler picks a value between texels or between mip levels.
#[derive(Clone, Copy, Debug, PartialEq, Eq, Structural)]
pub enum FilterMode {
    Nearest,
    Linear,
}

/// What a comparison sampler is created with. The two level-of-detail
/// clamps are bit patterns of 32-bit floating-point numbers.
#[derive(Clone, Copy, Debug, PartialEq, Eq, Structural)]
pub struct SamplerDesc {
    pub address_mode_u: AddressMode,
    pub address_mode_v: AddressMode,
    pub address_mode_w: AddressMode,
    pub mag_filter: FilterMode,
    pub min_filter: FilterMode,
    pub mipmap_filter: FilterMode,
    pub compare: DepthCompare,
    pub lod_min_clamp: u32,
    pub lod_max_clamp: u32,
}

/// Bit pattern of the lowest level of detail that the depth sampler uses:
/// 0.0.
pub const DEPTH_LOD_MIN: u32 = 0;

/// Bit pattern of the highest level of detail that the depth sampler uses:
/// 100.0.
pub const DEPTH_LOD_MAX: u32 = 0x42c8_0000;

/// The depth target's sampler: clamped to the edge on all three axes,
/// linear within a level and nearest between levels, comparing with "less
/// or equal", over levels of detail 0.0 to 100.0.
pub open spec fn depth_sampler_of() -> SamplerDesc {
    SamplerDesc {
        address_mode_u: AddressMode::ClampToEdge,
        address_mode_v: AddressMode::ClampToEdge,
        address_mode_w: AddressMode::ClampToEdge,
        mag_filter: FilterMode::Linear,
        min_filter: FilterMode::Linear,
        mipmap_filter: FilterMode::Nearest,
        compare: DepthCompare::LessEqual,
        lod_min_clamp: DEPTH_LOD_MIN,
        lod_max_clamp: DEPTH_LOD_MAX,
    }
}

/// Describes the sampler that is created together with the depth target.
pub fn depth_sampler() -> (s: SamplerDesc)
    ensures
        s == depth_sampler_of(),
{
    SamplerDesc {
        address_mode_u: AddressMode::ClampToEdge,
        address_mode_v: AddressMode::ClampToEdge,
        address_mode_w: AddressMode::ClampToEdge,
        mag_filter: FilterMode::Linear,
        min_filter: FilterMode::Linear,
        mipmap_filter: FilterMode::Nearest,
        compare: DepthCompare::LessEqual,
        lod_min_clamp: DEPTH_LOD_MIN,
        lod_max_clamp: DEPTH_LOD_MAX,
    }
}

} // verus!
