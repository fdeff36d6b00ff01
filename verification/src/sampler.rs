//! How a shader reads an image between and beyond its texels.

use vstd::prelude::*;
use crate::binding::{Bind, BindGroupEntry, BindingResource};
use crate::pipeline::CompareFunction;

verus! {

/// How texels are picked when an image is shown larger or smaller.
#[derive(Clone, Copy, Debug, PartialEq, Eq, Structural)]
pub enum FilterMode {
    Nearest,
    Linear,
}

/// What is read beyond the edge of an image.
#[derive(Clone, Copy, Debug, PartialEq, Eq, Structural)]
pub enum AddressMode {
    ClampToEdge,
    Repeat,
    MirrorRepeat,
    ClampToBorder,
}

/// The color beyond the edge when the address mode clamps to a border.
#[derive(Clone, Copy, Debug, PartialEq, Eq, Structural)]
pub enum SamplerBorderColor {
    TransparentBlack,
    OpaqueBlack,
    OpaqueWhite,
    Zero,
}

/// What the driver is asked for when a sampler is made.
#[derive(Clone, Copy, Debug, PartialEq, Eq)]
pub struct SamplerDescriptor {
    pub address_mode_u: AddressMode,
    pub address_mode_v: AddressMode,
    pub address_mode_w: AddressMode,
    pub mag_filter: FilterMode,
    pub min_filter: FilterMode,
    pub mipmap_filter: FilterMode,
    /// The lowest level of detail, in whole levels.
    pub lod_min_clamp: u32,
    /// The highest level of detail, in whole levels.
    pub lod_max_clamp: u32,
    pub compare: Option<CompareFunction>,
    pub anisotropy_clamp: u16,
    pub border_color: Option<SamplerBorderColor>,
}

/// A sampler on the GPU, as the CPU knows it.
#[derive(Clone, Copy, Debug, PartialEq, Eq)]
pub struct Sampler {
    /// The request that the sampler was made with.
    pub descriptor: SamplerDescriptor,
}

impl Bind for Sampler {
    open spec fn resource(&self) -> BindingResource {
        BindingResource::Sampler
    }

    fn binding(&self, index: u32) -> (entry: BindGroupEntry) {
        BindGroupEntry { binding: index, resource: BindingResource::Sampler }
    }
}

} // verus!
