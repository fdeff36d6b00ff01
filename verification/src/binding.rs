//! The slots through which a shader sees resources, and the groups of
//! resources that fill them.

use vstd::prelude::*;
use crate::error::ContractError;

verus! {

/// The shader stages that can see a slot.
#[derive(Clone, Copy, Debug, PartialEq, Eq, Structural)]
pub struct ShaderStages {
    pub vertex: bool,
    pub fragment: bool,
    pub compute: bool,
}

/// The kind of resource that a slot takes.
#[derive(Debug, Clone, Copy, PartialEq, Eq, Structural)]
pub enum BindingType {
    UniformBuffer,
    UniformBufferDynamic,
    Sampler,
    SampledTexture { multisampled: bool },
}

/// How a shader reads a buffer.
#[derive(Debug, Clone, Copy, PartialEq, Eq, Structural)]
pub enum BufferBindingType {
    Uniform,
    Storage { read_only: bool },
}

/// How a shader uses a sampler.
#[derive(Debug, Clone, Copy, PartialEq, Eq, Structural)]
pub enum SamplerBindingType {
    Filtering,
    NonFiltering,
    Comparison,
}

/// What a shader gets when it samples an image.
#[derive(Debug, Clone, Copy, PartialEq, Eq, Structural)]
pub enum TextureSampleType {
    Float { filterable: bool },
    Depth,
    Sint,
    Uint,
}

/// The shape in which a shader sees an image.
#[derive(Debug, Clone, Copy, PartialEq, Eq, Structural)]
pub enum TextureViewDimension {
    D1,
    D2,
    D2Array,
    Cube,
    CubeArray,
    D3,
}

/// The kind of a slot in the terms of the driver.
#[derive(Debug, Clone, Copy, PartialEq, Eq)]
pub enum SlotType {
    Buffer { ty: BufferBindingType, has_dynamic_offset: bool, min_binding_size: Option<u64> },
    Sampler(SamplerBindingType),
    Texture {
        sample_type: TextureSampleType,
        view_dimension: TextureViewDimension,
        multisampled: bool,
    },
}

/// The declaration of one slot: what it takes and who sees it.
#[derive(Debug, Clone, Copy, PartialEq, Eq, Structural)]
pub struct Binding {
    pub binding: BindingType,
    pub stage: ShaderStages,
}

/// One slot of a layout as the driver takes it.
#[derive(Debug, Clone, Copy, PartialEq, Eq)]
pub struct BindGroupLayoutEntry {
    /// The index of the slot in its set.
    pub binding: u32,
    pub visibility: ShaderStages,
    pub ty: SlotType,
    /// The length of the array in the slot, if the slot holds an array.
    pub count: Option<u32>,
}

/// What a resource offers to a slot.
#[derive(Debug, Clone, Copy, PartialEq, Eq)]
pub enum BindingResource {
    /// A range of a buffer; without a size, all of it from `offset` on.
    Buffer { offset: u64, size: Option<u64> },
    Sampler,
    TextureView,
}

/// One resource in one slot.
#[derive(Debug, Clone, Copy, PartialEq, Eq)]
pub struct BindGroupEntry {
    /// The index of the slot in its set.
    pub binding: u32,
    pub resource: BindingResource,
}

/// A group of bindings.
#[derive(Clone, Debug, PartialEq, Eq)]
pub struct BindingGroup {
    /// The resources of the group, slot by slot.
    pub entries: Vec<BindGroupEntry>,
    /// The index of the group in its pipeline: the `n` of the `@group(n)`
    /// attribute in the shader.
    pub set_index: u32,
}

/// The layout of a `BindingGroup`.
#[derive(Clone, Debug, PartialEq, Eq)]
pub struct BindingGroupLayout {
    /// The slots of the layout.
    pub entries: Vec<BindGroupLayoutEntry>,
    /// The number of slots.
    pub size: usize,
    pub set_index: u32,
}

/// A resource that can be bound.
pub trait Bind {
    /// What the resource offers to a slot.
    spec fn resource(&self) -> BindingResource;

    /// Describes the resource as the content of the slot `index`.
    fn binding(&self, index: u32) -> (entry: BindGroupEntry)
        ensures
            entry.binding == index,
            entry.resource == self.resource(),
    ;
}

impl ShaderStages {
    /// Seen by no stage.
    pub open spec fn spec_none() -> ShaderStages {
        ShaderStages { vertex: false, fragment: false, compute: false }
    }

    /// Seen by the vertex stage only.
    pub open spec fn spec_vertex() -> ShaderStages {
        ShaderStages { vertex: true, fragment: false, compute: false }
    }

    /// Seen by the fragment stage only.
    pub open spec fn spec_fragment() -> ShaderStages {
        ShaderStages { vertex: false, fragment: true, compute: false }
    }

    pub fn none() -> (stages: ShaderStages)
        ensures
            stages == Self::spec_none(),
    {
        ShaderStages { vertex: false, fragment: false, compute: false }
    }

    pub fn vertex() -> (stages: ShaderStages)
        ensures
            stages == Self::spec_vertex(),
    {
        ShaderStages { vertex: true, fragment: false, compute: false }
    }

    pub fn fragment() -> (stages: ShaderStages)
        ensures
            stages == Self::spec_fragment(),
    {
        ShaderStages { vertex: false, fragment: true, compute: false }
    }
}

impl BindingType {
    /// The kind of the slot in the terms of the driver. Uniform buffers are
    /// bound whole, with or without a dynamic offset. Images are flat and are
    /// sampled as filterable floats. Samplers filter.
    pub open spec fn spec_to_wgpu(self) -> SlotType {
        match self {
            BindingType::UniformBuffer => SlotType::Buffer {
                ty: BufferBindingType::Uniform,
                has_dynamic_offset: false,
                min_binding_size: None,
            },
            BindingType::UniformBufferDynamic => SlotType::Buffer {
                ty: BufferBindingType::Uniform,
                has_dynamic_offset: true,
                min_binding_size: None,
            },
            BindingType::SampledTexture { multisampled } => SlotType::Texture {
                sample_type: TextureSampleType::Float { filterable: true },
                view_dimension: TextureViewDimension::D2,
                multisampled,
            },
            BindingType::Sampler => SlotType::Sampler(SamplerBindingType::Filtering),
        }
    }

    /// The kind of the slot in the terms of the driver.
    pub fn to_wgpu(&self) -> (ty: SlotType)
        ensures
            ty == self.spec_to_wgpu(),
    {
        match self {
            BindingType::UniformBuffer => SlotType::Buffer {
                ty: BufferBindingType::Uniform,
                has_dynamic_offset: false,
                min_binding_size: None,
            },
            BindingType::UniformBufferDynamic => SlotType::Buffer {
                ty: BufferBindingType::Uniform,
                has_dynamic_offset: true,
                min_binding_size: None,
            },
            BindingType::SampledTexture { multisampled } => SlotType::Texture {
                sample_type: TextureSampleType::Float { filterable: true },
                view_dimension: TextureViewDimension::D2,
                multisampled: *multisampled,
            },
            BindingType::Sampler => SlotType::Sampler(SamplerBindingType::Filtering),
        }
    }
}

/// The slot that a declaration compiles to when it stands at position
/// `index` of its set.
pub open spec fn compiled_slot(slot: Binding, index: int) -> BindGroupLayoutEntry {
    BindGroupLayoutEntry {
        binding: index as u32,
        visibility: slot.stage,
        ty: slot.binding.spec_to_wgpu(),
        count: None,
    }
}

/// The slots that a list of declarations compiles to. Each slot is indexed by
/// its position in the list.
pub open spec fn compiled_slots(slots: Seq<Binding>) -> Seq<BindGroupLayoutEntry> {
    Seq::new(slots.len(), |i: int| compiled_slot(slots[i], i))
}

impl BindingGroup {
    pub fn new(set_index: u32, entries: Vec<BindGroupEntry>) -> (group: Self)
        ensures
            group.set_index == set_index,
            group.entries == entries,
    {
        Self { entries, set_index }
    }

    /// The group fills the slots of `layout`, one resource to each slot and
    /// in the order of the slots.
    pub open spec fn fills(self, layout: BindingGroupLayout) -> bool {
        &&& self.set_index == layout.set_index
        &&& self.entries@.len() == layout.size
        &&& forall|i: int| 0 <= i < self.entries@.len() ==> (#[trigger] self.entries@[i]).binding == i
    }
}

impl BindingGroupLayout {
    pub fn new(set_index: u32, entries: Vec<BindGroupLayoutEntry>, size: usize) -> (layout: Self)
        ensures
            layout.set_index == set_index,
            layout.entries == entries,
            layout.size == size,
    {
        Self { entries, size, set_index }
    }

    /// The number of slots is the number of entries, and each entry is
    /// indexed by its position.
    pub open spec fn wf(self) -> bool {
        &&& self.size == self.entries@.len()
        &&& forall|i: int| 0 <= i < self.entries@.len() ==> (#[trigger] self.entries@[i]).binding == i
    }

    /// What [`BindingGroupLayout::check_resources`] answers for `count`
    /// resources.
    pub open spec fn resources_check(self, count: nat) -> Result<(), ContractError> {
        if count != self.size {
            Err(ContractError::SlotCountMismatch)
        } else if count > u32::MAX {
            Err(ContractError::Arithmetic)
        } else {
            Ok(())
        }
    }

    /// Decides whether `count` resources can fill the layout: there must be
    /// exactly one for each slot.
    pub fn check_resources(&self, count: usize) -> (checked: Result<(), ContractError>)
        ensures
            checked == self.resources_check(count as nat),
    {
        if count != self.size {
            Err(ContractError::SlotCountMismatch)
        } else if count > u32::MAX as usize {
            Err(ContractError::Arithmetic)
        } else {
            Ok(())
        }
    }
}

/// A binding group is accepted for exactly as many resources as its layout
/// has slots: with fewer or with more the count is refused, so no group is
/// ever cut short or filled up.
pub proof fn lemma_slot_count(layout: BindingGroupLayout, count: nat)
    ensures
        layout.resources_check(count) is Ok ==> count == layout.size,
        count != layout.size ==> layout.resources_check(count) == Err::<(), ContractError>(
            ContractError::SlotCountMismatch,
        ),
        count == layout.size && count <= u32::MAX ==> layout.resources_check(count) is Ok,
{
}

} // verus!
