//! The device: the one place where resources are described for the driver.
//!
//! Every function here works out what the driver is to be asked for and what
//! the CPU keeps of the result. The request stands in the place of the handle
//! that the driver gives back: in the `descriptor` of a texture, a buffer, a
//! sampler or a pipeline, and in the `entries` of a layout or a group.

use vstd::prelude::*;
use vstd::layout::size_of;
use crate::binding::{
    Bind,
    BindGroupEntry,
    BindGroupLayoutEntry,
    Binding,
    BindingGroup,
    BindingGroupLayout,
    compiled_slot,
    compiled_slots,
};
use crate::blending::{BlendState, Blending};
use crate::buffers::frame::Framebuffer;
use crate::buffers::{
    BufferInitDescriptor,
    BufferUsages,
    BufferWrite,
    DepthBuffer,
    IndexBuffer,
    UniformBuffer,
};
use crate::error::ContractError;
use crate::format::TextureFormat;
use crate::frame::CommandEncoderDescriptor;
use crate::geometry::Size;
use crate::pipeline::{
    ColorTargetState,
    ColorWrites,
    CompareFunction,
    DepthBiasState,
    DepthStencilState,
    FragmentState,
    FrontFace,
    MultisampleState,
    Pipeline,
    PipelineLayout,
    PolygonMode,
    PrimitiveState,
    PrimitiveTopology,
    RenderPipelineDescriptor,
    BindingSet,
    StencilFaceState,
    StencilState,
    VertexState,
};
use crate::sampler::{AddressMode, FilterMode, Sampler, SamplerDescriptor};
use crate::shader::Shader;
use crate::texture::{
    Extent3d,
    Texture,
    TextureDescriptor,
    TextureDimension,
    TextureUsages,
    TextureView,
};
use crate::vertex::{VertexBuffer, VertexBufferLayout, VertexLayout};

verus! {

/// When the images of a surface are shown.
#[derive(Clone, Copy, Debug, PartialEq, Eq, Structural)]
pub enum PresentMode {
    AutoVsync,
    AutoNoVsync,
    Fifo,
    FifoRelaxed,
    Immediate,
    Mailbox,
}

/// How the alpha of a surface is read by what lies behind it.
#[derive(Clone, Copy, Debug, PartialEq, Eq, Structural)]
pub enum CompositeAlphaMode {
    Auto,
    Opaque,
    PreMultiplied,
    PostMultiplied,
    Inherit,
}

/// The optional abilities that a device is asked to have.
#[derive(Clone, Copy, Debug, PartialEq, Eq, Structural)]
pub enum Features {
    Empty,
    AllWebgpu,
    AllNative,
}

/// The limits that a device is asked to keep.
#[derive(Clone, Copy, Debug, PartialEq, Eq, Structural)]
pub enum Limits {
    Default,
    DownlevelDefaults,
    DownlevelWebgl2Defaults,
}

/// What the driver should favor when it manages memory.
#[derive(Clone, Copy, Debug, PartialEq, Eq, Structural)]
pub enum MemoryHints {
    Performance,
    MemoryUsage,
}

/// What an adapter is asked for when a device is opened.
#[derive(Clone, Copy, Debug, PartialEq, Eq, Structural)]
pub struct DeviceDescriptor {
    pub required_features: Features,
    pub required_limits: Limits,
    pub memory_hints: MemoryHints,
}

/// What a surface is configured with. No view formats are asked for besides
/// the format of the surface itself.
#[derive(Clone, Copy, Debug, PartialEq, Eq, Structural)]
pub struct SurfaceConfiguration {
    pub usage: TextureUsages,
    pub format: TextureFormat,
    pub present_mode: PresentMode,
    pub width: u32,
    pub height: u32,
    pub alpha_mode: CompositeAlphaMode,
    pub desired_maximum_frame_latency: u32,
}

/// Collects what a device is built from.
#[derive(Clone, Copy, Debug, PartialEq, Eq)]
pub struct DeviceBuilder {
    surface: bool,
}

/// The connection to the driver, as the CPU knows it.
#[derive(Clone, Copy, Debug, PartialEq, Eq)]
pub struct Device {
    surface: bool,
    configuration: Option<SurfaceConfiguration>,
    size: Size<u32>,
}

impl SurfaceConfiguration {
    /// The configuration for a surface that is rendered to and nothing else,
    /// with at most two frames in flight and the alpha mode left to the
    /// driver.
    pub open spec fn presenting(size: Size<u32>, mode: PresentMode, format: TextureFormat) -> SurfaceConfiguration {
        SurfaceConfiguration {
            usage: TextureUsages { render_attachment: true, ..TextureUsages::spec_empty() },
            format,
            present_mode: mode,
            width: size.width,
            height: size.height,
            alpha_mode: CompositeAlphaMode::Auto,
            desired_maximum_frame_latency: 2,
        }
    }
}

impl DeviceBuilder {
    /// Whether the device will have a surface to present to.
    pub closed spec fn has_surface(self) -> bool {
        self.surface
    }

    /// A builder for a device without a surface.
    pub fn new() -> (builder: Self)
        ensures
            !builder.has_surface(),
    {
        Self { surface: false }
    }

    /// Gives the device a surface to present to.
    pub fn with_surface(self) -> (builder: DeviceBuilder)
        ensures
            builder.has_surface(),
    {
        Self { surface: true }
    }

    /// What the adapter is asked for: no optional features, the default
    /// limits, memory managed for speed.
    pub fn request(&self) -> (request: DeviceDescriptor)
        ensures
            request == (DeviceDescriptor {
                required_features: Features::Empty,
                required_limits: Limits::Default,
                memory_hints: MemoryHints::Performance,
            }),
    {
        DeviceDescriptor {
            required_features: Features::Empty,
            required_limits: Limits::Default,
            memory_hints: MemoryHints::Performance,
        }
    }

    /// Finishes the device once the adapter has answered the request. If the
    /// adapter refused, its error is handed on. Otherwise the device has the
    /// surface of the builder, which is not configured yet, and no size.
    pub fn build<E>(self, answer: Result<(), E>) -> (built: Result<Device, E>)
        ensures
            answer matches Err(e) ==> built == Err::<Device, E>(e),
            answer is Ok ==> (built matches Ok(device) && device.has_surface() == self.has_surface()
                && device.configuration() is None && device.spec_size() == (Size {
                width: 0u32,
                height: 0u32,
            })),
    {
        match answer {
            Err(e) => Err(e),
            Ok(()) => Ok(
                Device {
                    surface: self.surface,
                    configuration: None,
                    size: Size { width: 0, height: 0 },
                },
            ),
        }
    }
}

impl Device {
    /// The size that the surface was last configured with. Before the first
    /// configuration it is zero by zero.
    pub closed spec fn spec_size(self) -> Size<u32> {
        self.size
    }

    /// Whether the device was built with a surface to present to.
    pub closed spec fn has_surface(self) -> bool {
        self.surface
    }

    /// What the surface was last configured with, if it ever was.
    pub closed spec fn configuration(self) -> Option<SurfaceConfiguration> {
        self.configuration
    }

    /// The size that the surface is configured with: zero by zero as long as
    /// nothing is configured.
    pub open spec fn configured_size(self) -> Size<u32> {
        match self.configuration() {
            Some(configuration) => Size { width: configuration.width, height: configuration.height },
            None => Size { width: 0, height: 0 },
        }
    }

    /// Only a surface that exists is configured, and the remembered size is
    /// the size that it is configured with.
    #[verifier::type_invariant]
    pub closed spec fn wf(self) -> bool {
        &&& self.configuration is Some ==> self.surface
        &&& self.size == self.configured_size()
    }

    /// Whether frames can be acquired: there is a surface and it has been
    /// configured.
    pub open spec fn presentable(self) -> bool {
        self.has_surface() && self.configuration() is Some
    }

    /// Whether the device was built with a surface to present to.
    pub fn surface(&self) -> (surface: bool)
        ensures
            surface == self.has_surface(),
    {
        self.surface
    }

    /// What the surface was last configured with, if it ever was.
    pub fn current_configuration(&self) -> (configuration: Option<SurfaceConfiguration>)
        ensures
            configuration == self.configuration(),
            configuration is Some ==> self.has_surface(),
    {
        proof {
            use_type_invariant(self);
        }
        self.configuration
    }

    /// The size that the surface was last configured with.
    pub fn size(&self) -> (size: Size<u32>)
        ensures
            size == self.spec_size(),
            size == self.configured_size(),
    {
        proof {
            use_type_invariant(self);
        }
        self.size
    }

    /// Describes a command encoder without a name.
    pub fn create_command_encoder(&self) -> (encoder: CommandEncoderDescriptor)
        ensures
            encoder.label is None,
    {
        CommandEncoderDescriptor { label: None }
    }

    /// Decides whether the device can be configured: it must have been built
    /// with a surface.
    pub fn check_configure(&self) -> (checked: Result<(), ContractError>)
        ensures
            checked is Ok <==> self.has_surface(),
            checked is Err ==> checked == Err::<(), ContractError>(ContractError::NoSurface),
    {
        if self.surface {
            Ok(())
        } else {
            Err(ContractError::NoSurface)
        }
    }

    /// Configures the surface for images of the given size and format, or
    /// configures it anew. The size is remembered for the frames and depth
    /// buffers that follow.
    pub fn configure(
        &mut self,
        size: Size<u32>,
        mode: PresentMode,
        format: TextureFormat,
    ) -> (configuration: SurfaceConfiguration)
        requires
            old(self).has_surface(),
        ensures
            configuration == SurfaceConfiguration::presenting(size, mode, format),
            final(self).has_surface(),
            final(self).configuration() == Some(configuration),
            final(self).spec_size() == size,
            final(self).presentable(),
    {
        let configuration = SurfaceConfiguration {
            usage: TextureUsages {
                copy_src: false,
                copy_dst: false,
                texture_binding: false,
                storage_binding: false,
                render_attachment: true,
            },
            format,
            present_mode: mode,
            width: size.width,
            height: size.height,
            alpha_mode: CompositeAlphaMode::Auto,
            desired_maximum_frame_latency: 2,
        };
        *self = Device { surface: true, configuration: Some(configuration), size };
        configuration
    }

    /// Compiles the declarations of each binding set into a layout. The set
    /// index of each layout is its position in the list.
    pub fn create_pipeline_layout(&self, ss: &[BindingSet]) -> (layout: PipelineLayout)
        requires
            ss@.len() <= u32::MAX,
            forall|i: int| 0 <= i < ss@.len() ==> (#[trigger] ss@[i]).0@.len() <= u32::MAX,
        ensures
            layout.compiles(ss@),
    {
        let mut sets: Vec<BindingGroupLayout> = Vec::new();
        let mut i: usize = 0;
        while i < ss.len()
            invariant
                i <= ss@.len() <= u32::MAX,
                forall|k: int| 0 <= k < ss@.len() ==> (#[trigger] ss@[k]).0@.len() <= u32::MAX,
                sets@.len() == i,
                forall|k: int|
                    0 <= k < i ==> (#[trigger] sets@[k]).set_index == k && sets@[k].wf()
                        && sets@[k].entries@ == compiled_slots(ss@[k].0@) && sets@[k].size
                        == ss@[k].0@.len(),
            decreases ss@.len() - i,
        {
            sets.push(self.create_binding_group_layout(i as u32, ss[i].0));
            i += 1;
        }
        PipelineLayout { sets }
    }

    /// Describes a shader module for the given program text.
    pub fn create_shader(&self, source: &str) -> (shader: Shader)
        ensures
            shader.source@ == source@,
    {
        Shader { source: source.to_owned() }
    }

    /// The texture that [`Device::create_texture`] describes: a flat image
    /// with one mip level.
    pub open spec fn texture_of(
        size: Size<u32>,
        format: TextureFormat,
        usage: TextureUsages,
        sample_count: u32,
    ) -> Texture {
        Texture {
            descriptor: TextureDescriptor {
                size: Extent3d::of(size),
                mip_level_count: 1,
                sample_count,
                dimension: TextureDimension::D2,
                format,
                usage,
            },
            view: TextureView { format, extent: Extent3d::of(size) },
            extent: Extent3d::of(size),
            format,
            size,
        }
    }

    /// The depth buffer that [`Device::create_zbuffer`] describes: an image
    /// in the depth format that can be rendered to and copied into.
    pub open spec fn zbuffer_of(size: Size<u32>, sample_count: u32) -> DepthBuffer {
        DepthBuffer {
            texture: Self::texture_of(
                size,
                DepthBuffer::FORMAT,
                TextureUsages { copy_dst: true, render_attachment: true, ..TextureUsages::spec_empty() },
                sample_count,
            ),
        }
    }

    /// The framebuffer that [`Device::create_framebuffer`] describes: a
    /// color image that can be rendered to, sampled and copied both ways,
    /// and a depth buffer of the same size and sample count.
    pub open spec fn framebuffer_of(size: Size<u32>, format: TextureFormat, sample_count: u32) -> Framebuffer {
        Framebuffer {
            texture: Self::texture_of(
                size,
                format,
                TextureUsages {
                    copy_src: true,
                    copy_dst: true,
                    texture_binding: true,
                    storage_binding: false,
                    render_attachment: true,
                },
                sample_count,
            ),
            depth: Self::zbuffer_of(size, sample_count),
        }
    }

    /// Describes a flat image of the given size, format and uses.
    pub fn create_texture(
        &self,
        size: Size<u32>,
        format: TextureFormat,
        usage: TextureUsages,
        sample_count: u32,
    ) -> (texture: Texture)
        ensures
            texture == Self::texture_of(size, format, usage, sample_count),
            texture.wf(),
    {
        let texture_extent = Extent3d {
            width: size.width,
            height: size.height,
            depth_or_array_layers: 1,
        };
        Texture {
            descriptor: TextureDescriptor {
                size: texture_extent,
                mip_level_count: 1,
                sample_count,
                dimension: TextureDimension::D2,
                format,
                usage,
            },
            view: TextureView { format, extent: texture_extent },
            extent: texture_extent,
            format,
            size,
        }
    }

    /// Describes an off-screen render target: a color image together with a
    /// depth buffer of the same size and sample count.
    pub fn create_framebuffer(
        &self,
        size: Size<u32>,
        format: TextureFormat,
        sample_count: u32,
    ) -> (fb: Framebuffer)
        ensures
            fb == Self::framebuffer_of(size, format, sample_count),
            fb.wf(),
    {
        let extent = Extent3d { width: size.width, height: size.height, depth_or_array_layers: 1 };
        let usage = TextureUsages {
            copy_src: true,
            copy_dst: true,
            texture_binding: true,
            storage_binding: false,
            render_attachment: true,
        };
        Framebuffer {
            texture: Texture {
                descriptor: TextureDescriptor {
                    size: extent,
                    mip_level_count: 1,
                    sample_count,
                    dimension: TextureDimension::D2,
                    format,
                    usage,
                },
                view: TextureView { format, extent },
                extent,
                format,
                size,
            },
            depth: self.create_zbuffer(size, sample_count),
        }
    }

    /// Describes a depth buffer of the given size.
    pub fn create_zbuffer(&self, size: Size<u32>, sample_count: u32) -> (depth: DepthBuffer)
        ensures
            depth == Self::zbuffer_of(size, sample_count),
            depth.wf(),
    {
        let format = DepthBuffer::FORMAT;
        let extent = Extent3d { width: size.width, height: size.height, depth_or_array_layers: 1 };
        let usage = TextureUsages {
            copy_src: false,
            copy_dst: true,
            texture_binding: false,
            storage_binding: false,
            render_attachment: true,
        };
        DepthBuffer {
            texture: Texture {
                descriptor: TextureDescriptor {
                    size: extent,
                    mip_level_count: 1,
                    sample_count,
                    dimension: TextureDimension::D2,
                    format,
                    usage,
                },
                view: TextureView { format, extent },
                extent,
                format,
                size,
            },
        }
    }

    /// Fills the slots of `layout` with the given resources, in the order of
    /// the slots. There must be exactly one resource for each slot. The
    /// resources may all be of one type or, as `&dyn Bind`, of several.
    pub fn create_binding_group<B: Bind + ?Sized>(
        &self,
        layout: &BindingGroupLayout,
        binds: &[&B],
    ) -> (group: BindingGroup)
        requires
            layout.resources_check(binds@.len()) is Ok,
        ensures
            group.fills(*layout),
            group.entries@.len() == binds@.len(),
            forall|i: int|
                0 <= i < binds@.len() ==> (#[trigger] group.entries@[i]).resource == binds@[i].resource(),
    {
        let mut bindings: Vec<BindGroupEntry> = Vec::new();
        let mut i: usize = 0;
        while i < binds.len()
            invariant
                i <= binds@.len() <= u32::MAX,
                bindings@.len() == i,
                forall|k: int|
                    0 <= k < i ==> (#[trigger] bindings@[k]).binding == k && bindings@[k].resource
                        == binds@[k].resource(),
            decreases binds@.len() - i,
        {
            bindings.push(binds[i].binding(i as u32));
            i += 1;
        }
        BindingGroup::new(layout.set_index, bindings)
    }

    /// Describes a buffer of vertices with the given contents.
    pub fn create_buffer<T>(&self, vertices: &[T]) -> (buffer: VertexBuffer)
        requires
            vertices@.len() * size_of::<T>() <= u32::MAX,
        ensures
            buffer.size == vertices@.len() * size_of::<T>(),
            buffer.descriptor == (BufferInitDescriptor {
                label: None,
                size: (vertices@.len() * size_of::<T>()) as usize,
                usage: BufferUsages::spec_vertex(),
            }),
            buffer.wf(),
    {
        let descriptor = self.create_buffer_from_slice(vertices, BufferUsages::vertex());
        VertexBuffer { descriptor, size: descriptor.size as u32 }
    }

    /// Describes a buffer of shader constants with the given contents. The
    /// buffer can be written again later.
    pub fn create_uniform_buffer<T>(&self, buf: &[T]) -> (buffer: UniformBuffer)
        ensures
            buffer.size == size_of::<T>(),
            buffer.count == buf@.len(),
            (buffer.descriptor.label matches Some(label) && label@ == "Uniform Buffer"@),
            buffer.descriptor.size == buf@.len() * size_of::<T>(),
            buffer.descriptor.usage == BufferUsages::spec_uniform(),
            buffer.wf(),
    {
        broadcast use vstd::layout::layout_of_slices;

        assert(buf@.len() * size_of::<T>() == size_of::<T>() * buf@.len()) by (nonlinear_arith);
        UniformBuffer {
            size: core::mem::size_of::<T>(),
            count: buf.len(),
            descriptor: BufferInitDescriptor {
                label: Some("Uniform Buffer"),
                size: core::mem::size_of_val(buf),
                usage: BufferUsages::uniform(),
            },
        }
    }

    /// Describes a buffer of vertex indices with the given contents.
    pub fn create_index(&self, indices: &[u16]) -> (buffer: IndexBuffer)
        requires
            indices@.len() <= u32::MAX,
        ensures
            buffer.elements == indices@.len(),
            buffer.descriptor == (BufferInitDescriptor {
                label: None,
                size: (2 * indices@.len()) as usize,
                usage: BufferUsages::spec_index(),
            }),
            buffer.wf(),
    {
        broadcast use vstd::layout::layout_of_primitives;

        let descriptor = self.create_buffer_from_slice(indices, BufferUsages::index());
        IndexBuffer { descriptor, elements: indices.len() as u32 }
    }

    /// The sampler that [`Device::create_sampler`] describes: it clamps to
    /// the edge in every direction, picks the nearest mip level between level
    /// 0 and level 100, does not compare and does not filter anisotropically.
    pub open spec fn sampler_of(min_filter: FilterMode, mag_filter: FilterMode) -> Sampler {
        Sampler {
            descriptor: SamplerDescriptor {
                address_mode_u: AddressMode::ClampToEdge,
                address_mode_v: AddressMode::ClampToEdge,
                address_mode_w: AddressMode::ClampToEdge,
                mag_filter,
                min_filter,
                mipmap_filter: FilterMode::Nearest,
                lod_min_clamp: 0,
                lod_max_clamp: 100,
                compare: None,
                anisotropy_clamp: 1,
                border_color: None,
            },
        }
    }

    /// Describes a sampler that clamps to the edge of the image, picks the
    /// nearest mip level and filters as asked when the image is shown larger
    /// or smaller.
    pub fn create_sampler(&self, min_filter: FilterMode, mag_filter: FilterMode) -> (sampler: Sampler)
        ensures
            sampler == Self::sampler_of(min_filter, mag_filter),
    {
        Sampler {
            descriptor: SamplerDescriptor {
                address_mode_u: AddressMode::ClampToEdge,
                address_mode_v: AddressMode::ClampToEdge,
                address_mode_w: AddressMode::ClampToEdge,
                mag_filter,
                min_filter,
                mipmap_filter: FilterMode::Nearest,
                lod_min_clamp: 0,
                lod_max_clamp: 100,
                compare: None,
                anisotropy_clamp: 1,
                border_color: None,
            },
        }
    }

    /// Compiles the declarations of the slots of one binding set into a
    /// layout. The layout has as many slots as there are declarations, and
    /// each slot is indexed by the position of its declaration.
    pub fn create_binding_group_layout(
        &self,
        index: u32,
        slots: &[Binding],
    ) -> (layout: BindingGroupLayout)
        requires
            slots@.len() <= u32::MAX,
        ensures
            layout.set_index == index,
            layout.size == slots@.len(),
            layout.entries@ == compiled_slots(slots@),
            layout.wf(),
    {
        let mut bindings: Vec<BindGroupLayoutEntry> = Vec::new();
        let mut i: usize = 0;
        while i < slots.len()
            invariant
                i <= slots@.len() <= u32::MAX,
                bindings@.len() == i,
                forall|k: int| 0 <= k < i ==> #[trigger] bindings@[k] == compiled_slot(slots@[k], k),
            decreases slots@.len() - i,
        {
            bindings.push(
                BindGroupLayoutEntry {
                    binding: bindings.len() as u32,
                    visibility: slots[i].stage,
                    ty: slots[i].binding.to_wgpu(),
                    count: None,
                },
            );
            i += 1;
        }
        assert(bindings@ =~= compiled_slots(slots@));
        let size: usize = bindings.len();
        BindingGroupLayout::new(index, bindings, size)
    }

    /// Describes a buffer that holds the elements of `slice` byte for byte
    /// and serves the given uses.
    pub fn create_buffer_from_slice<T>(
        &self,
        slice: &[T],
        usage: BufferUsages,
    ) -> (descriptor: BufferInitDescriptor)
        ensures
            descriptor == (BufferInitDescriptor {
                label: None,
                size: (slice@.len() * size_of::<T>()) as usize,
                usage,
            }),
            descriptor.size == slice@.len() * size_of::<T>(),
    {
        broadcast use vstd::layout::layout_of_slices;

        BufferInitDescriptor { label: None, size: core::mem::size_of_val(slice), usage }
    }

    /// Describes the write that puts the elements of `slice` at the start of
    /// a buffer of shader constants. Whether the elements have the layout
    /// that the buffer was made for is up to the caller. If they have the
    /// size and the number of the elements of the buffer, the write covers
    /// the buffer exactly.
    pub fn update_uniform_buffer<T>(&self, slice: &[T], buf: &UniformBuffer) -> (write: BufferWrite)
        ensures
            write.offset == 0,
            write.size == slice@.len() * size_of::<T>(),
            buf.wf() && size_of::<T>() == buf.size && slice@.len() == buf.count ==> write.size
                == buf.descriptor.size,
    {
        broadcast use vstd::layout::layout_of_slices;

        assert(slice@.len() * size_of::<T>() == size_of::<T>() * slice@.len()) by (nonlinear_arith);
        BufferWrite { offset: 0, size: core::mem::size_of_val(slice) }
    }

    /// Describes the render pipeline for the given layouts, blend equation,
    /// shader, target format and sample settings. Everything else is the
    /// same for every pipeline; [`Pipeline::compiled_from`] spells it out.
    pub fn create_pipeline(
        &self,
        pipeline_layout: PipelineLayout,
        vertex_layout: VertexLayout,
        blending: Blending,
        shader: &Shader,
        swapchain_format: TextureFormat,
        multisample: MultisampleState,
    ) -> (pipeline: Pipeline)
        ensures
            pipeline.layout == pipeline_layout,
            pipeline.vertex_layout == vertex_layout,
            pipeline.compiled_from(
                pipeline_layout.sets@,
                vertex_layout.spec_attributes(),
                vertex_layout.spec_size(),
                shader.source@,
                blending,
                swapchain_format,
                multisample,
            ),
    {
        let vertex_attrs = VertexBufferLayout::from(&vertex_layout);

        let mut sets: Vec<u32> = Vec::new();
        let mut i: usize = 0;
        while i < pipeline_layout.sets.len()
            invariant
                i <= pipeline_layout.sets@.len(),
                sets@.len() == i,
                forall|k: int| 0 <= k < i ==> #[trigger] sets@[k] == pipeline_layout.sets@[k].set_index,
            decreases pipeline_layout.sets@.len() - i,
        {
            sets.push(pipeline_layout.sets[i].set_index);
            i += 1;
        }

        let mut buffers: Vec<VertexBufferLayout> = Vec::new();
        buffers.push(vertex_attrs);
        let mut targets: Vec<Option<ColorTargetState>> = Vec::new();
        targets.push(
            Some(
                ColorTargetState {
                    format: swapchain_format,
                    blend: Some(BlendState::from(blending)),
                    write_mask: ColorWrites { red: true, green: true, blue: true, alpha: true },
                },
            ),
        );

        let descriptor = RenderPipelineDescriptor {
            bind_group_layouts: sets,
            vertex: VertexState {
                module: Shader { source: shader.source.clone() },
                entry_point: "vs_main",
                buffers,
            },
            primitive: PrimitiveState {
                topology: PrimitiveTopology::TriangleList,
                strip_index_format: None,
                front_face: FrontFace::Ccw,
                cull_mode: None,
                polygon_mode: PolygonMode::Fill,
                unclipped_depth: false,
                conservative: false,
            },
            depth_stencil: Some(
                DepthStencilState {
                    format: DepthBuffer::FORMAT,
                    depth_write_enabled: true,
                    depth_compare: CompareFunction::LessEqual,
                    stencil: StencilState {
                        front: StencilFaceState::ignore(),
                        back: StencilFaceState::ignore(),
                        read_mask: 0,
                        write_mask: 0,
                    },
                    bias: DepthBiasState { constant: 0, slope_scale: 0, clamp: 0 },
                },
            ),
            multisample,
            multiview: None,
            fragment: Some(
                FragmentState {
                    module: Shader { source: shader.source.clone() },
                    entry_point: "fs_main",
                    targets,
                },
            ),
        };

        Pipeline { layout: pipeline_layout, vertex_layout, descriptor }
    }
}

} // verus!
