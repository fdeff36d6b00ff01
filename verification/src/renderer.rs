//! The renderer: frames, pipelines, batches of canvas operations and
//! readbacks, on top of a device.

use vstd::prelude::*;
use vstd::layout::size_of;
use crate::binding::{Bind, BindingGroup, BindingGroupLayout};
use crate::blending::Blending;
use crate::buffers::frame::Framebuffer;
use crate::buffers::{
    BufferDescriptor,
    BufferUsages,
    BufferWrite,
    DepthBuffer,
    UniformBuffer,
    UniformWrite,
    lemma_write_idempotent,
    overwritten,
};
use crate::canvas::{Canvas, Step};
use crate::device::{Device, DeviceBuilder, PresentMode, SurfaceConfiguration};
use crate::error::ContractError;
use crate::format::TextureFormat;
use crate::frame::{CommandEncoderDescriptor, Frame};
use crate::geometry::{Rect, Size};
use crate::pipeline::{AbstractPipeline, MultisampleState};
use crate::readback::{MapMode, ReadRequest, TextureRead};
use crate::sampler::{FilterMode, Sampler};
use crate::texture::{
    Extent3d,
    Origin3d,
    TEXEL_BYTES,
    TexelCopyBufferLayout,
    TexelCopyTextureInfo,
    Texture,
    TextureAspect,
    TextureUsages,
    TextureView,
};
use crate::vertex::{VertexBuffer, VertexLayout, packed_attributes, packed_size};

verus! {

/// How much power the adapter should draw.
#[derive(Clone, Copy, Debug, PartialEq, Eq, Structural)]
pub enum PowerPreference {
    NoPreference,
    LowPower,
    HighPerformance,
}

/// What an instance is asked for when an adapter is looked for.
#[derive(Clone, Copy, Debug, PartialEq, Eq, Structural)]
pub struct RequestAdapterOptions {
    /// Whether the adapter must be able to present to the surface of the
    /// builder.
    pub compatible_surface: bool,
    pub power_preference: PowerPreference,
    pub force_fallback_adapter: bool,
}

/// How a renderer gets its adapter.
#[derive(Clone, Copy, Debug, PartialEq, Eq, Structural)]
pub enum AdapterSource {
    /// The adapter that the builder was given is used.
    Given,
    /// An adapter is asked for with these options.
    Requested(RequestAdapterOptions),
}

/// Collects what a renderer is built from.
#[derive(Clone, Copy, Debug, PartialEq, Eq, Structural)]
pub struct RendererBuilder {
    surface: bool,
    instance: bool,
    adapter: bool,
    sample_count: u32,
    offscreen: bool,
}

/// Builds resources, drives pipelines and submits commands.
#[derive(Debug)]
pub struct Renderer {
    device: Device,
    /// Enables MSAA for values > 1.
    sample_count: u32,
}

/// An image of the surface that has been acquired and not yet presented.
#[derive(Clone, Copy, Debug, PartialEq, Eq, Structural)]
pub struct SurfaceImage {
    /// Whether the surface should be configured anew although the image can
    /// still be shown.
    pub suboptimal: bool,
}

/// One frame of the surface: the image that is rendered to and a depth
/// buffer of its own.
#[derive(Clone, Copy, Debug, PartialEq, Eq, Structural)]
pub struct RenderFrame {
    pub view: TextureView,
    /// The image, until it has been handed over for presentation.
    pub image: Option<SurfaceImage>,
    pub depth: DepthBuffer,
    pub size: Size<u32>,
}

/// Can be rendered to in a pass.
pub trait RenderTarget {
    /// Color component.
    spec fn spec_color_target(&self) -> TextureView;

    /// Depth component.
    spec fn spec_zdepth_target(&self) -> TextureView;

    /// Color component.
    fn color_target(&self) -> (view: &TextureView)
        ensures
            *view == self.spec_color_target(),
    ;

    /// Depth component.
    fn zdepth_target(&self) -> (view: &TextureView)
        ensures
            *view == self.spec_zdepth_target(),
    ;
}

/// One operation of a batch, on one canvas.
pub enum Op<'a, C: Canvas> {
    Clear(&'a C, C::Color),
    Fill(&'a C, &'a [C::Color]),
    Transfer { f: &'a C, buf: &'a [C::Color], rect: Rect<i32> },
    Blit(&'a C, Rect<u32>, Rect<u32>),
}

impl RenderTarget for Framebuffer {
    open spec fn spec_color_target(&self) -> TextureView {
        self.texture.view
    }

    open spec fn spec_zdepth_target(&self) -> TextureView {
        self.depth.texture.view
    }

    fn color_target(&self) -> (view: &TextureView) {
        &self.texture.view
    }

    fn zdepth_target(&self) -> (view: &TextureView) {
        &self.depth.texture.view
    }
}

impl RenderTarget for RenderFrame {
    open spec fn spec_color_target(&self) -> TextureView {
        self.view
    }

    open spec fn spec_zdepth_target(&self) -> TextureView {
        self.depth.texture.view
    }

    fn color_target(&self) -> (view: &TextureView) {
        &self.view
    }

    fn zdepth_target(&self) -> (view: &TextureView) {
        &self.depth.texture.view
    }
}

impl RenderFrame {
    /// The frame after its image has been handed over.
    pub open spec fn released(self) -> RenderFrame {
        RenderFrame { image: None, ..self }
    }

    /// Hands the image over for presentation when the frame ends. The image
    /// is given out the first time and never again, so that it is presented
    /// exactly once on whatever path the frame ends.
    pub fn release(&mut self) -> (image: Option<SurfaceImage>)
        ensures
            image == old(self).image,
            *final(self) == old(self).released(),
    {
        self.image.take()
    }
}

/// Preparing a pipeline twice for the same frame and carrying out both
/// writes leaves the buffer as carrying out one of them does, whatever the
/// buffer held and however the shader constants are laid out in bytes.
pub proof fn lemma_prepared_twice<T: AbstractPipeline>(
    pip: T,
    context: T::PrepareContext,
    held: Seq<u8>,
    bytes_of: spec_fn(Seq<T::Uniforms>) -> Seq<u8>,
)
    ensures
        pip.prepared(context) matches Some(pair) ==> overwritten(
            overwritten(held, 0, bytes_of(pair.1)),
            0,
            bytes_of(pair.1),
        ) == overwritten(held, 0, bytes_of(pair.1)),
{
    if let Some(pair) = pip.prepared(context) {
        lemma_write_idempotent(held, 0, bytes_of(pair.1));
    }
}

/// A frame gives its image out once: after the first release there is
/// nothing left to present, however often the frame is released again.
pub proof fn lemma_released_once(frame: RenderFrame)
    ensures
        frame.released().image is None,
        frame.released().released() == frame.released(),
{
}

impl<'a, C: Canvas> Op<'a, C> where C::Color: Copy {
    /// Whether the canvas of the operation accepts it.
    pub open spec fn accepted(self) -> bool {
        match self {
            Op::Clear(f, color) => f.accepts_clear(),
            Op::Fill(f, buf) => f.accepts_fill(buf@.len()),
            Op::Transfer { f, buf, rect } => f.accepts_transfer(buf@.len(), rect),
            Op::Blit(f, src, dst) => f.accepts_blit(src, dst),
        }
    }

    /// Whether `steps` are what the canvas of the operation asks for.
    pub open spec fn encoded(self, steps: Seq<Step<C::Color>>) -> bool {
        match self {
            Op::Clear(f, color) => f.cleared(color, steps),
            Op::Fill(f, buf) => f.filled(buf@.len(), steps),
            Op::Transfer { f, buf, rect } => f.transferred(buf@.len(), rect, steps),
            Op::Blit(f, src, dst) => f.blitted(src, dst, steps),
        }
    }

    /// Decides whether the canvas of the operation accepts it.
    pub fn check(&self) -> (checked: Result<(), ContractError>)
        ensures
            checked is Ok <==> self.accepted(),
    {
        match *self {
            Op::Clear(f, color) => f.check_clear(),
            Op::Fill(f, buf) => f.check_fill(buf.len()),
            Op::Transfer { f, buf, rect } => f.check_transfer(buf.len(), rect),
            Op::Blit(f, src, dst) => f.check_blit(src, dst),
        }
    }

    /// Lets the canvas of the operation say what the operation asks of the
    /// driver.
    pub fn encode(&self) -> (steps: Vec<Step<C::Color>>)
        requires
            self.accepted(),
        ensures
            self.encoded(steps@),
    {
        match *self {
            Op::Clear(f, color) => f.clear(color),
            Op::Fill(f, buf) => f.fill(buf),
            Op::Transfer { f, buf, rect } => f.transfer(buf, rect),
            Op::Blit(f, src, dst) => f.blit(src, dst),
        }
    }
}

impl RendererBuilder {
    /// Whether the builder holds a surface.
    pub closed spec fn has_surface(self) -> bool {
        self.surface
    }

    /// Whether the builder holds an instance.
    pub closed spec fn has_instance(self) -> bool {
        self.instance
    }

    /// Whether the builder holds an adapter.
    pub closed spec fn has_adapter(self) -> bool {
        self.adapter
    }

    /// Whether the renderer will render off screen.
    pub closed spec fn is_offscreen(self) -> bool {
        self.offscreen
    }

    /// The number of samples for each pixel.
    pub closed spec fn spec_sample_count(self) -> u32 {
        self.sample_count
    }

    /// Whether the builder holds the handles that its kind of renderer
    /// needs: an adapter for a renderer off screen, an instance and a surface
    /// for one on screen.
    pub open spec fn complete(self) -> bool {
        if self.is_offscreen() {
            self.has_adapter()
        } else {
            self.has_instance() && self.has_surface()
        }
    }

    /// A builder that holds nothing, for a renderer on screen.
    pub fn new() -> (builder: Self)
        ensures
            !builder.has_surface(),
            !builder.has_instance(),
            !builder.has_adapter(),
            !builder.is_offscreen(),
            builder.spec_sample_count() == 0,
    {
        Self { surface: false, instance: false, adapter: false, sample_count: 0, offscreen: false }
    }

    /// Gives the builder a surface and the instance that the surface comes
    /// from.
    pub fn with_surface(self, sample_count: u32) -> (builder: Self)
        ensures
            builder.has_surface(),
            builder.has_instance(),
            builder.has_adapter() == self.has_adapter(),
            builder.is_offscreen() == self.is_offscreen(),
            builder.spec_sample_count() == sample_count,
    {
        Self {
            surface: true,
            instance: true,
            adapter: self.adapter,
            sample_count,
            offscreen: self.offscreen,
        }
    }

    /// Gives the builder an adapter and says whether the renderer renders
    /// off screen.
    pub fn with_offscreen(self, offscreen: bool, sample_count: u32) -> (builder: Self)
        ensures
            builder.has_adapter(),
            builder.is_offscreen() == offscreen,
            builder.has_surface() == self.has_surface(),
            builder.has_instance() == self.has_instance(),
            builder.spec_sample_count() == sample_count,
    {
        Self {
            surface: self.surface,
            instance: self.instance,
            adapter: true,
            sample_count,
            offscreen,
        }
    }

    /// Decides whether the builder is complete.
    pub fn check_build(&self) -> (checked: Result<(), ContractError>)
        ensures
            checked is Ok <==> self.complete(),
            checked is Err ==> checked == Err::<(), ContractError>(ContractError::MissingHandle),
    {
        let complete = if self.offscreen {
            self.adapter
        } else {
            self.instance && self.surface
        };
        if complete {
            Ok(())
        } else {
            Err(ContractError::MissingHandle)
        }
    }

    /// Says where the adapter comes from. Off screen the given adapter is
    /// used. On screen an adapter is asked for that can present to the
    /// surface, with no wish as to power and without falling back to
    /// software.
    pub fn adapter(&self) -> (source: AdapterSource)
        requires
            self.complete(),
        ensures
            self.is_offscreen() ==> source == AdapterSource::Given,
            !self.is_offscreen() ==> source == AdapterSource::Requested(
                RequestAdapterOptions {
                    compatible_surface: true,
                    power_preference: PowerPreference::NoPreference,
                    force_fallback_adapter: false,
                },
            ),
    {
        if self.offscreen {
            AdapterSource::Given
        } else {
            AdapterSource::Requested(
                RequestAdapterOptions {
                    compatible_surface: true,
                    power_preference: PowerPreference::NoPreference,
                    force_fallback_adapter: false,
                },
            )
        }
    }

    /// Finishes the renderer once the adapter has answered the request for a
    /// device. If the adapter refused, its error is handed on. Otherwise the
    /// renderer has the sample count of the builder and a device that is not
    /// configured yet, with a surface exactly if it renders on screen.
    pub fn build<E>(self, answer: Result<(), E>) -> (built: Result<Renderer, E>)
        requires
            self.complete(),
        ensures
            answer matches Err(e) ==> built == Err::<Renderer, E>(e),
            answer is Ok ==> (built matches Ok(renderer) && renderer.spec_sample_count()
                == self.spec_sample_count() && renderer.spec_device().has_surface()
                == !self.is_offscreen() && renderer.spec_device().configuration() is None
                && renderer.spec_device().spec_size() == (Size { width: 0u32, height: 0u32 })),
    {
        let builder = if self.offscreen {
            DeviceBuilder::new()
        } else {
            DeviceBuilder::new().with_surface()
        };
        match builder.build(answer) {
            Ok(device) => Ok(Renderer { device, sample_count: self.sample_count }),
            Err(e) => Err(e),
        }
    }
}

impl Renderer {
    /// The device of the renderer.
    pub closed spec fn spec_device(self) -> Device {
        self.device
    }

    /// The number of samples for each pixel.
    pub closed spec fn spec_sample_count(self) -> u32 {
        self.sample_count
    }

    /// A renderer on a device that exists, with the given number of samples
    /// for each pixel.
    pub fn new(device: Device, sample_count: u32) -> (renderer: Self)
        ensures
            renderer.spec_device() == device,
            renderer.spec_sample_count() == sample_count,
    {
        Renderer { device, sample_count }
    }

    /// The device of the renderer.
    pub fn device(&self) -> (device: &Device)
        ensures
            *device == self.spec_device(),
    {
        &self.device
    }

    pub fn sample_count(&self) -> (count: u32)
        ensures
            count == self.spec_sample_count(),
    {
        self.sample_count
    }

    /// Configures the surface of the device; see [`Device::configure`].
    pub fn configure(
        &mut self,
        size: Size<u32>,
        mode: PresentMode,
        format: TextureFormat,
    ) -> (configuration: SurfaceConfiguration)
        requires
            old(self).spec_device().has_surface(),
        ensures
            configuration == SurfaceConfiguration::presenting(size, mode, format),
            final(self).spec_device().has_surface(),
            final(self).spec_device().configuration() == Some(configuration),
            final(self).spec_device().spec_size() == size,
            final(self).spec_device().presentable(),
            final(self).spec_sample_count() == old(self).spec_sample_count(),
    {
        self.device.configure(size, mode, format)
    }

    /// The frame that [`Renderer::current_frame`] makes of an acquired
    /// image: it shows the image in the format and the size that the surface
    /// is configured with, and has a fresh depth buffer of that size.
    pub open spec fn frame_of(self, image: SurfaceImage) -> RenderFrame {
        let size = self.spec_device().configured_size();
        RenderFrame {
            view: TextureView {
                format: self.spec_device().configuration()->Some_0.format,
                extent: Extent3d::of(size),
            },
            image: Some(image),
            depth: Device::zbuffer_of(size, self.spec_sample_count()),
            size,
        }
    }

    /// Decides whether frames can be acquired: the device must have a
    /// surface and the surface must have been configured.
    pub fn check_current_frame(&self) -> (checked: Result<(), ContractError>)
        ensures
            checked is Ok <==> self.spec_device().presentable(),
            checked is Err ==> checked == Err::<(), ContractError>(ContractError::NoSurface),
    {
        if self.device.current_configuration().is_some() {
            Ok(())
        } else {
            Err(ContractError::NoSurface)
        }
    }

    /// Makes a frame of the next image of the surface. `acquired` is what the
    /// surface answered when it was asked for the image. An error of the
    /// surface is handed on as it is: it may pass when the surface is
    /// configured anew.
    pub fn current_frame<E>(&self, acquired: Result<SurfaceImage, E>) -> (frame: Result<RenderFrame, E>)
        requires
            self.spec_device().presentable(),
        ensures
            acquired matches Err(e) ==> frame == Err::<RenderFrame, E>(e),
            acquired matches Ok(image) ==> frame == Ok::<RenderFrame, E>(self.frame_of(image)),
            frame matches Ok(f) ==> f.depth.texture.size == f.size && f.depth.wf() && f.size
                == self.spec_device().spec_size(),
    {
        match acquired {
            Err(e) => Err(e),
            Ok(image) => {
                let size = self.device.size();
                let format = self.device.current_configuration().unwrap().format;
                Ok(
                    RenderFrame {
                        view: TextureView {
                            format,
                            extent: Extent3d {
                                width: size.width,
                                height: size.height,
                                depth_or_array_layers: 1,
                            },
                        },
                        image: Some(image),
                        depth: self.device.create_zbuffer(size, self.sample_count),
                        size,
                    },
                )
            },
        }
    }

    /// Describes a flat image. A multisampled image has the sample count of
    /// the renderer, any other has one sample for each pixel.
    pub fn texture(
        &self,
        size: Size<u32>,
        format: TextureFormat,
        usage: TextureUsages,
        multisampled: bool,
    ) -> (texture: Texture)
        ensures
            texture == Device::texture_of(
                size,
                format,
                usage,
                if multisampled {
                    self.spec_sample_count()
                } else {
                    1
                },
            ),
            texture.wf(),
    {
        let sample_count: u32 = if multisampled {
            self.sample_count
        } else {
            1
        };
        self.device.create_texture(size, format, usage, sample_count)
    }

    /// Describes an off-screen render target with the sample count of the
    /// renderer.
    pub fn framebuffer(&self, size: Size<u32>, format: TextureFormat) -> (fb: Framebuffer)
        ensures
            fb == Device::framebuffer_of(size, format, self.spec_sample_count()),
            fb.wf(),
    {
        self.device.create_framebuffer(size, format, self.sample_count)
    }

    /// Describes a depth buffer with the sample count of the renderer.
    pub fn zbuffer(&self, size: Size<u32>) -> (depth: DepthBuffer)
        ensures
            depth == Device::zbuffer_of(size, self.spec_sample_count()),
            depth.wf(),
    {
        self.device.create_zbuffer(size, self.sample_count)
    }

    /// Describes a buffer of vertices; see [`Device::create_buffer`].
    pub fn vertex_buffer<T>(&self, verts: &[T]) -> (buffer: VertexBuffer)
        requires
            verts@.len() * size_of::<T>() <= u32::MAX,
        ensures
            buffer.size == verts@.len() * size_of::<T>(),
            buffer.descriptor.size == verts@.len() * size_of::<T>(),
            buffer.descriptor.usage == BufferUsages::spec_vertex(),
            buffer.descriptor.label is None,
    {
        self.device.create_buffer(verts)
    }

    /// Describes a buffer of shader constants; see
    /// [`Device::create_uniform_buffer`].
    pub fn uniform_buffer<T>(&self, buf: &[T]) -> (buffer: UniformBuffer)
        ensures
            buffer.size == size_of::<T>(),
            buffer.count == buf@.len(),
            buffer.descriptor.size == buf@.len() * size_of::<T>(),
            buffer.descriptor.usage == BufferUsages::spec_uniform(),
            buffer.wf(),
    {
        self.device.create_uniform_buffer(buf)
    }

    /// Fills the slots of a layout; see [`Device::create_binding_group`].
    pub fn binding_group<B: Bind + ?Sized>(
        &self,
        layout: &BindingGroupLayout,
        binds: &[&B],
    ) -> (group: BindingGroup)
        requires
            layout.resources_check(binds@.len()) is Ok,
        ensures
            group.fills(*layout),
            group.entries@.len() == binds@.len(),
            forall|i: int|
                0 <= i < binds@.len() ==> (#[trigger] group.entries@[i]).resource == binds@[i].resource(),
    {
        self.device.create_binding_group(layout, binds)
    }

    /// Describes a sampler; see [`Device::create_sampler`].
    pub fn sampler(&self, min_filter: FilterMode, mag_filter: FilterMode) -> (sampler: Sampler)
        ensures
            sampler.descriptor.min_filter == min_filter,
            sampler.descriptor.mag_filter == mag_filter,
            sampler == Device::sampler_of(min_filter, mag_filter),
    {
        self.device.create_sampler(min_filter, mag_filter)
    }

    /// The sample settings of every pipeline of the renderer: every sample
    /// of the sample count is written.
    pub fn multisample(&self) -> (multisample: MultisampleState)
        ensures
            multisample == MultisampleState::every_sample(self.spec_sample_count()),
    {
        MultisampleState { count: self.sample_count, mask: u64::MAX, alpha_to_coverage_enabled: false }
    }

    /// Builds a pipeline of the kind `T`: compiles the layouts and the
    /// shader of its description, describes the render pipeline for the
    /// given blend equation and target format, and lets `T` set itself up
    /// around it. The pipeline writes every sample of the sample count of
    /// the renderer.
    pub fn pipeline<T: AbstractPipeline>(&self, blending: Blending, format: TextureFormat) -> (pipeline: T)
        ensures
            ({
                let compiled = pipeline.spec_parts().pipeline;
                &&& compiled.layout.compiled_of(T::described_sets())
                &&& compiled.vertex_layout.spec_attributes() == packed_attributes(
                    T::described_vertex(),
                )
                &&& compiled.vertex_layout.spec_size() == packed_size(T::described_vertex())
                &&& compiled.vertex_layout.wf()
                &&& compiled.compiled_from(
                    compiled.layout.sets@,
                    compiled.vertex_layout.spec_attributes(),
                    compiled.vertex_layout.spec_size(),
                    T::described_shader(),
                    blending,
                    format,
                    MultisampleState::every_sample(self.spec_sample_count()),
                )
            }),
    {
        let desc = T::description();
        let pip_layout = self.device.create_pipeline_layout(desc.pipeline_layout);
        let vertex_layout = VertexLayout::from(desc.vertex_layout);
        let shader = self.device.create_shader(desc.shader);

        T::setup(
            self.device.create_pipeline(
                pip_layout,
                vertex_layout,
                blending,
                &shader,
                format,
                self.multisample(),
            ),
            &self.device,
        )
    }

    /// Describes the readback of the color image of a framebuffer.
    pub fn read(&self, fb: &Framebuffer) -> (request: ReadRequest)
        requires
            ReadRequest::spec_check(*fb) is Ok,
        ensures
            request.describes(*fb),
    {
        let bytesize: usize = 4 * fb.size();
        ReadRequest {
            bytesize,
            buffer: BufferDescriptor {
                size: bytesize as u64,
                usage: BufferUsages::readback(),
                mapped_at_creation: false,
            },
            copy: TextureRead {
                source: TexelCopyTextureInfo {
                    mip_level: 0,
                    origin: Origin3d { x: 0, y: 0, z: 0 },
                    aspect: TextureAspect::All,
                },
                layout: TexelCopyBufferLayout {
                    offset: 0,
                    bytes_per_row: Some(TEXEL_BYTES * fb.texture.size.width),
                    rows_per_image: Some(fb.texture.size.height),
                },
                extent: fb.texture.extent,
            },
            range: 0..bytesize as u64,
            mode: MapMode::Read,
        }
    }

    /// Whether `write` is what becomes of what a pipeline prepared. Nothing
    /// prepared means nothing written. New contents go into the buffer that
    /// the pipeline named, all of them and from the start of the buffer.
    pub open spec fn writes<U>(
        prepared: Option<(UniformBuffer, Seq<U>)>,
        write: Option<UniformWrite<U>>,
    ) -> bool {
        match prepared {
            Some(pair) => {
                &&& write matches Some(w)
                &&& w.buffer == pair.0
                &&& w.uniforms@ == pair.1
                &&& w.write == (BufferWrite {
                    offset: 0,
                    size: (pair.1.len() * size_of::<U>()) as usize,
                })
            },
            None => write is None,
        }
    }

    /// Turns what a pipeline prepared for a frame into a write. Nothing
    /// prepared means nothing written. New contents are written from the
    /// start of the buffer, whatever was written before.
    pub fn write_prepared<U>(
        &self,
        prepared: Option<(&UniformBuffer, Vec<U>)>,
    ) -> (write: Option<UniformWrite<U>>)
        ensures
            prepared is None ==> write is None,
            prepared matches Some(pair) ==> Self::writes(Some((*pair.0, pair.1@)), write),
    {
        match prepared {
            Some((buffer, uniforms)) => {
                let write = self.device.update_uniform_buffer(uniforms.as_slice(), buffer);
                Some(UniformWrite { buffer: *buffer, write, uniforms })
            },
            None => None,
        }
    }

    /// Lets a pipeline prepare itself for a frame and describes the write
    /// of its new shader constants into the buffer that it names, if it has
    /// any.
    pub fn update_pipeline<T: AbstractPipeline>(
        &mut self,
        pip: &T,
        p: T::PrepareContext,
    ) -> (write: Option<UniformWrite<T::Uniforms>>)
        ensures
            Self::writes(pip.prepared(p), write),
            *final(self) == *old(self),
    {
        self.write_prepared(pip.prepare(p))
    }

    /// Begins the recording of a frame.
    pub fn frame(&mut self) -> (frame: Frame)
        ensures
            frame.encoder.label is None,
            *final(self) == *old(self),
    {
        let encoder = self.device.create_command_encoder();
        Frame::new(encoder)
    }

    /// Ends the recording of a frame and names what is submitted: the
    /// commands of the frame and nothing else.
    pub fn present(&mut self, frame: Frame) -> (submitted: Vec<CommandEncoderDescriptor>)
        ensures
            submitted@ == seq![frame.encoder],
            *final(self) == *old(self),
    {
        let mut submitted: Vec<CommandEncoderDescriptor> = Vec::new();
        submitted.push(frame.encoder);
        submitted
    }

    /// Encodes a batch of canvas operations for one submission. The result
    /// holds, for each operation and in the order of the batch, what its
    /// canvas asks of the driver.
    pub fn submit<C: Canvas>(&mut self, commands: &[Op<C>]) -> (encoded: Vec<Vec<Step<C::Color>>>)
        where
            C::Color: Copy,
        requires
            forall|i: int| 0 <= i < commands@.len() ==> (#[trigger] commands@[i]).accepted(),
        ensures
            encoded@.len() == commands@.len(),
            forall|i: int| 0 <= i < commands@.len() ==> commands@[i].encoded((#[trigger] encoded@[i])@),
            *final(self) == *old(self),
    {
        let mut encoded: Vec<Vec<Step<C::Color>>> = Vec::new();
        let mut i: usize = 0;
        while i < commands.len()
            invariant
                i <= commands@.len(),
                encoded@.len() == i,
                forall|k: int| 0 <= k < commands@.len() ==> (#[trigger] commands@[k]).accepted(),
                forall|k: int| 0 <= k < i ==> commands@[k].encoded((#[trigger] encoded@[k])@),
            decreases commands@.len() - i,
        {
            encoded.push(commands[i].encode());
            i += 1;
        }
        encoded
    }
}

} // verus!
