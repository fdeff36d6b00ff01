use easygpu::blending::{BlendComponent, BlendFactor, BlendOp, BlendState, Blending};
use easygpu::buffers::{BufferInitDescriptor, BufferUsages, BufferWrite, DepthBuffer};
use easygpu::binding::{Binding, BindingType, ShaderStages};
use easygpu::device::{
    CompositeAlphaMode, Device, DeviceBuilder, DeviceDescriptor, Features, Limits, MemoryHints,
    PresentMode, SurfaceConfiguration,
};
use easygpu::error::ContractError;
use easygpu::format::TextureFormat;
use easygpu::geometry::Size;
use easygpu::pipeline::{
    BindingSet, ColorTargetState, ColorWrites, CompareFunction, DepthBiasState, DepthStencilState,
    FrontFace, MultisampleState, PolygonMode, PrimitiveState, PrimitiveTopology, StencilFaceState,
    StencilOperation, StencilState,
};
use easygpu::sampler::{AddressMode, FilterMode, SamplerDescriptor};
use easygpu::texture::{
    Extent3d, TextureDescriptor, TextureDimension, TextureUsages, TextureView,
};
use easygpu::vertex::{VertexFormat, VertexLayout, VertexStepMode};

fn fragment_module(pipeline: &easygpu::pipeline::Pipeline) -> &str {
    pipeline.descriptor.fragment.as_ref().unwrap().module.source.as_str()
}

fn offscreen() -> Device {
    DeviceBuilder::new().build::<()>(Ok(())).unwrap()
}

fn onscreen() -> Device {
    DeviceBuilder::new().with_surface().build::<()>(Ok(())).unwrap()
}

#[test]
fn builder_asks_for_a_plain_device() {
    assert_eq!(
        DeviceBuilder::new().request(),
        DeviceDescriptor {
            required_features: Features::Empty,
            required_limits: Limits::Default,
            memory_hints: MemoryHints::Performance,
        }
    );
}

#[test]
fn built_device_has_no_size() {
    let device = offscreen();
    assert!(!device.surface());
    assert_eq!(device.size(), Size::new(0, 0));
    assert_eq!(device.current_configuration(), None);

    let device = onscreen();
    assert!(device.surface());
    assert_eq!(device.size(), Size::new(0, 0));
    assert_eq!(device.current_configuration(), None);
}

#[test]
fn build_hands_on_the_error_of_the_adapter() {
    let built = DeviceBuilder::new().with_surface().build(Err("no device"));
    assert_eq!(built, Err("no device"));
}

#[test]
fn configure_needs_a_surface() {
    assert_eq!(offscreen().check_configure(), Err(ContractError::NoSurface));
    assert_eq!(onscreen().check_configure(), Ok(()));
}

#[test]
fn configure_remembers_the_size() {
    let mut device = onscreen();
    let size = Size::new(800, 600);
    let configuration = device.configure(size, PresentMode::Fifo, TextureFormat::Bgra8UnormSrgb);
    assert_eq!(
        configuration,
        SurfaceConfiguration {
            usage: TextureUsages {
                copy_src: false,
                copy_dst: false,
                texture_binding: false,
                storage_binding: false,
                render_attachment: true,
            },
            format: TextureFormat::Bgra8UnormSrgb,
            present_mode: PresentMode::Fifo,
            width: 800,
            height: 600,
            alpha_mode: CompositeAlphaMode::Auto,
            desired_maximum_frame_latency: 2,
        }
    );
    assert_eq!(device.size(), size);
    assert_eq!(device.current_configuration(), Some(configuration));
    assert!(device.surface());

    let again = device.configure(Size::new(1, 2), PresentMode::Mailbox, TextureFormat::Rgba8Unorm);
    assert_eq!(device.size(), Size::new(1, 2));
    assert_eq!(device.current_configuration(), Some(again));
    assert_eq!(again.present_mode, PresentMode::Mailbox);
}

#[test]
fn shader_keeps_its_source() {
    let shader = offscreen().create_shader("@vertex fn vs_main() {}");
    assert_eq!(shader.source, "@vertex fn vs_main() {}");
}

#[test]
fn texture_is_flat_with_one_mip_level() {
    let usage = TextureUsages { texture_binding: true, copy_dst: true, ..TextureUsages::empty() };
    let texture = offscreen().create_texture(Size::new(640, 480), TextureFormat::Rgba8Unorm, usage, 4);
    let extent = Extent3d { width: 640, height: 480, depth_or_array_layers: 1 };
    assert_eq!(
        texture.descriptor,
        TextureDescriptor {
            size: extent,
            mip_level_count: 1,
            sample_count: 4,
            dimension: TextureDimension::D2,
            format: TextureFormat::Rgba8Unorm,
            usage,
        }
    );
    assert_eq!(texture.extent, extent);
    assert_eq!(texture.format, TextureFormat::Rgba8Unorm);
    assert_eq!(texture.size, Size::new(640, 480));
    assert_eq!(texture.view, TextureView { format: TextureFormat::Rgba8Unorm, extent });
}

#[test]
fn zbuffer_has_the_depth_format() {
    let depth = offscreen().create_zbuffer(Size::new(32, 16), 1);
    assert_eq!(DepthBuffer::FORMAT, TextureFormat::Depth32Float);
    assert_eq!(depth.texture.format, TextureFormat::Depth32Float);
    assert_eq!(depth.texture.descriptor.format, TextureFormat::Depth32Float);
    assert_eq!(depth.texture.size, Size::new(32, 16));
    assert_eq!(
        depth.texture.descriptor.usage,
        TextureUsages { copy_dst: true, render_attachment: true, ..TextureUsages::empty() }
    );
    assert_eq!(depth.texture.descriptor.sample_count, 1);
    assert_eq!(depth.texture.descriptor.mip_level_count, 1);
}

#[test]
fn framebuffer_pairs_color_with_depth_of_the_same_extent() {
    let fb = offscreen().create_framebuffer(Size::new(100, 50), TextureFormat::Bgra8Unorm, 4);
    assert_eq!(fb.texture.extent, fb.depth.texture.extent);
    assert_eq!(fb.texture.size, fb.depth.texture.size);
    assert_eq!(fb.texture.descriptor.sample_count, 4);
    assert_eq!(fb.depth.texture.descriptor.sample_count, 4);
    assert_eq!(fb.texture.format, TextureFormat::Bgra8Unorm);
    assert_eq!(fb.depth, offscreen().create_zbuffer(Size::new(100, 50), 4));
    assert_eq!(
        fb.texture.descriptor.usage,
        TextureUsages {
            copy_src: true,
            copy_dst: true,
            texture_binding: true,
            storage_binding: false,
            render_attachment: true,
        }
    );
    assert_eq!(fb.width(), 100);
    assert_eq!(fb.height(), 50);
    assert_eq!(fb.size(), 5000);
}

#[test]
fn vertex_buffer_counts_bytes() {
    let buffer = offscreen().create_buffer(&[[0u32; 4]; 6]);
    assert_eq!(buffer.size, 96);
    assert_eq!(
        buffer.descriptor,
        BufferInitDescriptor { label: None, size: 96, usage: BufferUsages::vertex() }
    );
    let empty: [u64; 0] = [];
    assert_eq!(offscreen().create_buffer(&empty).size, 0);
}

#[test]
fn uniform_buffer_remembers_element_size_and_count() {
    let buffer = offscreen().create_uniform_buffer(&[[0u8; 128]; 3]);
    assert_eq!(buffer.size, 128);
    assert_eq!(buffer.count, 3);
    assert_eq!(buffer.descriptor.size, 384);
    assert_eq!(buffer.descriptor.label, Some("Uniform Buffer"));
    assert_eq!(
        buffer.descriptor.usage,
        BufferUsages { uniform: true, copy_dst: true, ..BufferUsages::empty() }
    );
}

#[test]
fn index_buffer_counts_indices() {
    let buffer = offscreen().create_index(&[0, 1, 2, 2, 3, 0]);
    assert_eq!(buffer.elements, 6);
    assert_eq!(
        buffer.descriptor,
        BufferInitDescriptor { label: None, size: 12, usage: BufferUsages::index() }
    );
}

#[test]
fn buffer_from_slice_has_the_bytes_of_the_slice() {
    let usage = BufferUsages { storage: true, ..BufferUsages::empty() };
    let descriptor = offscreen().create_buffer_from_slice(&[0u16; 5], usage);
    assert_eq!(descriptor, BufferInitDescriptor { label: None, size: 10, usage });
}

#[test]
fn sampler_clamps_to_the_edge() {
    let sampler = offscreen().create_sampler(FilterMode::Linear, FilterMode::Nearest);
    assert_eq!(
        sampler.descriptor,
        SamplerDescriptor {
            address_mode_u: AddressMode::ClampToEdge,
            address_mode_v: AddressMode::ClampToEdge,
            address_mode_w: AddressMode::ClampToEdge,
            mag_filter: FilterMode::Nearest,
            min_filter: FilterMode::Linear,
            mipmap_filter: FilterMode::Nearest,
            lod_min_clamp: 0,
            lod_max_clamp: 100,
            compare: None,
            anisotropy_clamp: 1,
            border_color: None,
        }
    );
}

#[test]
fn uniform_write_starts_at_the_first_byte() {
    let device = offscreen();
    let buffer = device.create_uniform_buffer(&[[1u32; 32]]);
    let write = device.update_uniform_buffer(&[[2u32; 32]], &buffer);
    assert_eq!(write, BufferWrite { offset: 0, size: 128 });
    assert_eq!(write.size, buffer.descriptor.size);
    // The same payload gives the same write, whatever was written before.
    assert_eq!(device.update_uniform_buffer(&[[2u32; 32]], &buffer), write);
}

#[test]
fn command_encoder_has_no_name() {
    assert_eq!(offscreen().create_command_encoder().label, None);
}

#[test]
fn pipeline_has_the_fixed_state() {
    let device = offscreen();
    let slots = [Binding { binding: BindingType::UniformBuffer, stage: ShaderStages::vertex() }];
    let layout = device.create_pipeline_layout(&[BindingSet(&slots), BindingSet(&[])]);
    let vertex_layout = VertexLayout::from(&[VertexFormat::Floatx3, VertexFormat::UBytex4]);
    let shader = device.create_shader("shader");
    let multisample = MultisampleState { count: 4, mask: !0, alpha_to_coverage_enabled: false };
    let pipeline = device.create_pipeline(
        layout,
        vertex_layout,
        Blending::default(),
        &shader,
        TextureFormat::Bgra8UnormSrgb,
        multisample,
    );
    let d = &pipeline.descriptor;
    assert_eq!(d.bind_group_layouts, vec![0, 1]);
    assert_eq!(d.vertex.module, shader);
    assert_eq!(d.vertex.module.source, "shader");
    assert_eq!(fragment_module(&pipeline), "shader");
    assert_eq!(d.vertex.entry_point, "vs_main");
    assert_eq!(d.vertex.buffers.len(), 1);
    assert_eq!(d.vertex.buffers[0].array_stride, 16);
    assert_eq!(d.vertex.buffers[0].step_mode, VertexStepMode::Vertex);
    assert_eq!(d.vertex.buffers[0].attributes.len(), 2);
    assert_eq!(d.vertex.buffers[0].attributes[1].offset, 12);
    assert_eq!(
        d.primitive,
        PrimitiveState {
            topology: PrimitiveTopology::TriangleList,
            strip_index_format: None,
            front_face: FrontFace::Ccw,
            cull_mode: None,
            polygon_mode: PolygonMode::Fill,
            unclipped_depth: false,
            conservative: false,
        }
    );
    let ignore = StencilFaceState {
        compare: CompareFunction::Always,
        fail_op: StencilOperation::Keep,
        depth_fail_op: StencilOperation::Keep,
        pass_op: StencilOperation::Keep,
    };
    assert_eq!(StencilFaceState::ignore(), ignore);
    assert_eq!(
        d.depth_stencil,
        Some(DepthStencilState {
            format: TextureFormat::Depth32Float,
            depth_write_enabled: true,
            depth_compare: CompareFunction::LessEqual,
            stencil: StencilState { front: ignore, back: ignore, read_mask: 0, write_mask: 0 },
            bias: DepthBiasState { constant: 0, slope_scale: 0, clamp: 0 },
        })
    );
    assert_eq!(d.multisample, multisample);
    assert_eq!(d.multiview, None);
    let fragment = d.fragment.as_ref().unwrap();
    assert_eq!(fragment.entry_point, "fs_main");
    let component = BlendComponent {
        src_factor: BlendFactor::SrcAlpha,
        dst_factor: BlendFactor::OneMinusSrcAlpha,
        operation: BlendOp::Add,
    };
    assert_eq!(
        fragment.targets,
        vec![Some(ColorTargetState {
            format: TextureFormat::Bgra8UnormSrgb,
            blend: Some(BlendState { color: component, alpha: component }),
            write_mask: ColorWrites { red: true, green: true, blue: true, alpha: true },
        })]
    );
    assert_eq!(pipeline.layout.sets.len(), 2);
    assert_eq!(pipeline.vertex_layout.size(), 16);
}
