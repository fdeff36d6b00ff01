use easygpu::blending::{BlendState, Blending};
use easygpu::buffers::{BufferUsages, BufferWrite, UniformBuffer, UniformWrite};
use easygpu::canvas::Step;
use easygpu::color::{Bgra8, Rgba8};
use easygpu::device::PresentMode;
use easygpu::error::ContractError;
use easygpu::format::TextureFormat;
use easygpu::frame::Frame;
use easygpu::geometry::{Point, Rect, Size};
use easygpu::pipeline::{AbstractPipeline, MultisampleState};
use easygpu::renderer::{
    AdapterSource, Op, PowerPreference, RenderFrame, RenderTarget, Renderer, RendererBuilder,
    RequestAdapterOptions, SurfaceImage,
};
use easygpu::sampler::FilterMode;
use easygpu::shape::{LyonPipeline, Srgb, UniformBlock};
use easygpu::texture::{Extent3d, Origin3d, Texture, TextureUsages, TextureView};
use easygpu::vertex::VertexLayout;

#[derive(Clone, Copy, Debug, PartialEq, Eq)]
struct Block([u32; 32]);

impl UniformBlock for Block {
    fn identity() -> Self {
        Block([1; 32])
    }
}

fn offscreen(sample_count: u32) -> Renderer {
    RendererBuilder::new().with_offscreen(true, sample_count).build::<()>(Ok(())).unwrap()
}

fn onscreen(sample_count: u32) -> Renderer {
    RendererBuilder::new().with_surface(sample_count).build::<()>(Ok(())).unwrap()
}

fn rect(x: i32, y: i32, width: i32, height: i32) -> Rect<i32> {
    Rect::new(Point::new(x, y), Size::new(width, height))
}

#[test]
fn builder_needs_the_handles_of_its_kind() {
    assert_eq!(RendererBuilder::new().check_build(), Err(ContractError::MissingHandle));
    assert_eq!(RendererBuilder::new().with_surface(1).check_build(), Ok(()));
    assert_eq!(RendererBuilder::new().with_offscreen(true, 1).check_build(), Ok(()));
    // An adapter alone does not make a renderer on screen.
    assert_eq!(
        RendererBuilder::new().with_offscreen(false, 1).check_build(),
        Err(ContractError::MissingHandle)
    );
    assert_eq!(RendererBuilder::new().with_surface(1).with_offscreen(false, 1).check_build(), Ok(()));
}

#[test]
fn builder_says_where_the_adapter_comes_from() {
    assert_eq!(RendererBuilder::new().with_offscreen(true, 1).adapter(), AdapterSource::Given);
    assert_eq!(
        RendererBuilder::new().with_surface(1).adapter(),
        AdapterSource::Requested(RequestAdapterOptions {
            compatible_surface: true,
            power_preference: PowerPreference::NoPreference,
            force_fallback_adapter: false,
        })
    );
}

#[test]
fn built_renderer_keeps_the_sample_count() {
    let r = offscreen(4);
    assert_eq!(r.sample_count(), 4);
    assert!(!r.device().surface());
    assert_eq!(r.device().size(), Size::new(0, 0));

    let r = onscreen(8);
    assert_eq!(r.sample_count(), 8);
    assert!(r.device().surface());
    // The last call of the builder sets the sample count.
    let r = RendererBuilder::new().with_surface(2).with_offscreen(true, 16).build::<()>(Ok(()));
    assert_eq!(r.unwrap().sample_count(), 16);
}

#[test]
fn renderer_build_hands_on_the_error_of_the_adapter() {
    let built = RendererBuilder::new().with_offscreen(true, 1).build(Err(42));
    assert_eq!(built.err(), Some(42));
}

#[test]
fn frames_need_a_configured_surface() {
    assert_eq!(offscreen(1).check_current_frame(), Err(ContractError::NoSurface));
    let mut r = onscreen(1);
    assert_eq!(r.check_current_frame(), Err(ContractError::NoSurface));
    r.configure(Size::new(4, 4), PresentMode::Fifo, TextureFormat::Bgra8Unorm);
    assert_eq!(r.check_current_frame(), Ok(()));
}

#[test]
fn frame_has_a_depth_buffer_of_the_configured_size() {
    let mut r = onscreen(4);
    r.configure(Size::new(800, 600), PresentMode::Fifo, TextureFormat::Bgra8UnormSrgb);
    let image = SurfaceImage { suboptimal: false };
    let frame = r.current_frame::<()>(Ok(image)).unwrap();
    assert_eq!(frame.size, Size::new(800, 600));
    assert_eq!(frame.image, Some(image));
    assert_eq!(frame.depth, r.zbuffer(Size::new(800, 600)));
    assert_eq!(frame.depth.texture.descriptor.sample_count, 4);
    let extent = Extent3d { width: 800, height: 600, depth_or_array_layers: 1 };
    assert_eq!(frame.view, TextureView { format: TextureFormat::Bgra8UnormSrgb, extent });
    assert_eq!(*frame.color_target(), frame.view);
    assert_eq!(*frame.zdepth_target(), frame.depth.texture.view);
    assert_eq!(frame.zdepth_target().format, TextureFormat::Depth32Float);
}

#[test]
fn frame_follows_a_new_configuration() {
    let mut r = onscreen(1);
    r.configure(Size::new(800, 600), PresentMode::Fifo, TextureFormat::Bgra8Unorm);
    r.configure(Size::new(1024, 768), PresentMode::Fifo, TextureFormat::Bgra8Unorm);
    let frame = r.current_frame::<()>(Ok(SurfaceImage { suboptimal: true })).unwrap();
    assert_eq!(frame.size, Size::new(1024, 768));
    assert_eq!(frame.depth.texture.size, Size::new(1024, 768));
}

#[test]
fn frame_hands_on_the_error_of_the_surface() {
    let mut r = onscreen(1);
    r.configure(Size::new(8, 8), PresentMode::Fifo, TextureFormat::Bgra8Unorm);
    assert_eq!(r.current_frame(Err("outdated")), Err("outdated"));
    // The renderer is as it was: the next frame can be acquired.
    assert!(r.current_frame::<&str>(Ok(SurfaceImage { suboptimal: false })).is_ok());
}

#[test]
fn frame_releases_its_image_once() {
    let mut r = onscreen(1);
    r.configure(Size::new(8, 8), PresentMode::Fifo, TextureFormat::Bgra8Unorm);
    let image = SurfaceImage { suboptimal: false };
    let mut frame: RenderFrame = r.current_frame::<()>(Ok(image)).unwrap();
    let before = frame;
    assert_eq!(frame.release(), Some(image));
    assert_eq!(frame.release(), None);
    assert_eq!(frame.release(), None);
    assert_eq!(frame.view, before.view);
    assert_eq!(frame.depth, before.depth);
    assert_eq!(frame.size, before.size);
}

#[test]
fn framebuffer_is_a_render_target() {
    let fb = offscreen(1).framebuffer(Size::new(3, 3), TextureFormat::Bgra8Unorm);
    assert_eq!(*fb.color_target(), fb.texture.view);
    assert_eq!(*fb.zdepth_target(), fb.depth.texture.view);
    assert_eq!(fb.color_target().format, TextureFormat::Bgra8Unorm);
    assert_eq!(Texture::from(fb), fb.texture);
}

#[test]
fn texture_is_multisampled_only_on_request() {
    let r = offscreen(4);
    let usage = TextureUsages::empty();
    let plain = r.texture(Size::new(2, 2), TextureFormat::Rgba8Unorm, usage, false);
    assert_eq!(plain.descriptor.sample_count, 1);
    let multi = r.texture(Size::new(2, 2), TextureFormat::Rgba8Unorm, usage, true);
    assert_eq!(multi.descriptor.sample_count, 4);
    assert_eq!(multi, r.device().create_texture(Size::new(2, 2), TextureFormat::Rgba8Unorm, usage, 4));
}

#[test]
fn resources_of_the_renderer_are_those_of_the_device() {
    let r = offscreen(2);
    let size = Size::new(5, 7);
    assert_eq!(
        r.framebuffer(size, TextureFormat::Bgra8Unorm),
        r.device().create_framebuffer(size, TextureFormat::Bgra8Unorm, 2)
    );
    assert_eq!(r.zbuffer(size), r.device().create_zbuffer(size, 2));
    assert_eq!(r.vertex_buffer(&[0u32; 9]), r.device().create_buffer(&[0u32; 9]));
    assert_eq!(r.uniform_buffer(&[0u64; 2]), r.device().create_uniform_buffer(&[0u64; 2]));
    assert_eq!(
        r.sampler(FilterMode::Linear, FilterMode::Linear),
        r.device().create_sampler(FilterMode::Linear, FilterMode::Linear)
    );
    let layout = r.device().create_binding_group_layout(0, &[]);
    let none: [&UniformBuffer; 0] = [];
    assert_eq!(r.binding_group(&layout, &none), r.device().create_binding_group(&layout, &none));
}

#[test]
fn pipeline_is_compiled_for_the_sample_count_of_the_renderer() {
    let r = offscreen(4);
    let shape: LyonPipeline<Srgb, Block> = r.pipeline(Blending::default(), TextureFormat::Bgra8UnormSrgb);
    let parts = shape.parts();
    assert_eq!(
        parts.pipeline.descriptor.multisample,
        MultisampleState { count: 4, mask: u64::MAX, alpha_to_coverage_enabled: false }
    );
    assert_eq!(parts.pipeline.vertex_layout.size(), 16);
    assert_eq!(parts.pipeline.layout.sets.len(), 1);
    assert_eq!(parts.pipeline.descriptor.bind_group_layouts, vec![0]);
}

#[test]
fn pipeline_is_the_one_that_its_description_names() {
    let r = offscreen(1);
    let shape: LyonPipeline<Srgb, Block> = r.pipeline(Blending::constant(), TextureFormat::Bgra8Unorm);
    let description = LyonPipeline::<Srgb, Block>::description();
    let compiled = &shape.parts().pipeline;

    // One layout for each declared set, with the slots that it declares.
    assert_eq!(compiled.layout.sets.len(), description.pipeline_layout.len());
    for (i, set) in compiled.layout.sets.iter().enumerate() {
        assert_eq!(set.set_index, i as u32);
        assert_eq!(*set, r.device().create_binding_group_layout(i as u32, description.pipeline_layout[i].0));
    }
    // The vertex layout of the declared attributes.
    let packed = VertexLayout::from(description.vertex_layout);
    assert_eq!(compiled.vertex_layout.size(), packed.size());
    assert_eq!(compiled.vertex_layout.attributes(), packed.attributes());
    assert_eq!(compiled.descriptor.vertex.buffers[0].attributes, *packed.attributes());
    // The declared shader, in both stages.
    assert_eq!(compiled.descriptor.vertex.module.source, description.shader);
    assert_eq!(compiled.descriptor.fragment.as_ref().unwrap().module.source, description.shader);
    // The blend equation and the format that were asked for.
    let target = compiled.descriptor.fragment.as_ref().unwrap().targets[0].unwrap();
    assert_eq!(target.format, TextureFormat::Bgra8Unorm);
    assert_eq!(target.blend, Some(BlendState::from(Blending::constant())));
    // The shader constants are bound as shader constants.
    assert_eq!(shape.parts().uniforms.descriptor.usage, BufferUsages::uniform());
    assert_eq!(shape.parts().uniforms.descriptor.label, Some("Uniform Buffer"));
}

#[test]
fn renderer_on_a_device_that_exists() {
    let mut device = easygpu::device::DeviceBuilder::new().with_surface().build::<()>(Ok(())).unwrap();
    device.configure(Size::new(3, 2), PresentMode::Fifo, TextureFormat::Bgra8Unorm);
    let r = Renderer::new(device, 4);
    assert_eq!(r.sample_count(), 4);
    assert_eq!(*r.device(), device);
    assert_eq!(r.check_current_frame(), Ok(()));
    let frame = r.current_frame::<()>(Ok(SurfaceImage { suboptimal: false })).unwrap();
    assert_eq!(frame.size, Size::new(3, 2));
}

#[test]
fn nothing_prepared_means_nothing_written() {
    let r = offscreen(1);
    assert_eq!(r.write_prepared::<u32>(None), None);
    let buffer = r.uniform_buffer(&[[0u32; 32]]);
    assert_eq!(
        r.write_prepared(Some((&buffer, vec![[7u32; 32]]))),
        Some(UniformWrite {
            buffer,
            write: BufferWrite { offset: 0, size: 128 },
            uniforms: vec![[7u32; 32]],
        })
    );
    assert_eq!(
        r.write_prepared(Some((&buffer, Vec::<u64>::new()))),
        Some(UniformWrite {
            buffer,
            write: BufferWrite { offset: 0, size: 0 },
            uniforms: Vec::new(),
        })
    );
}

#[test]
fn update_pipeline_writes_what_was_prepared() {
    let mut r = offscreen(1);
    let shape: LyonPipeline<Srgb, Block> = r.pipeline(Blending::default(), TextureFormat::Bgra8Unorm);
    let first = r.update_pipeline(&shape, Block([3; 32]));
    assert_eq!(
        first,
        Some(UniformWrite {
            buffer: shape.parts().uniforms,
            write: BufferWrite { offset: 0, size: 128 },
            uniforms: vec![Block([3; 32])],
        })
    );
    // Preparing the same frame twice writes the same bytes to the same place.
    let second = r.update_pipeline(&shape, Block([3; 32]));
    assert_eq!(second, first);
}

#[test]
fn present_submits_the_frame() {
    let mut r = offscreen(1);
    let frame: Frame = r.frame();
    assert_eq!(frame.encoder.label, None);
    assert_eq!(r.present(frame), vec![frame.encoder]);
}

#[test]
fn submit_encodes_each_operation_in_order() {
    let mut r = offscreen(1);
    let texture = r.texture(Size::new(4, 4), TextureFormat::Rgba8Unorm, TextureUsages::empty(), false);
    let red = Rgba8::new(255, 0, 0, 255);
    let blue = Rgba8::new(0, 0, 255, 255);
    let patch = vec![blue; 4];
    let whole = vec![blue; 16];
    let src = Rect::new(Point::new(0u32, 0u32), Size::new(1u32, 1u32));
    let dst = Rect::new(Point::new(2u32, 2u32), Size::new(2u32, 2u32));
    let ops = [
        Op::Clear(&texture, red),
        Op::Transfer { f: &texture, buf: &patch, rect: rect(1, 1, 2, 2) },
        Op::Fill(&texture, &whole),
        Op::Blit(&texture, src, dst),
    ];
    let encoded = r.submit(&ops);
    assert_eq!(encoded.len(), 4);

    assert_eq!(encoded[0].len(), 1);
    match &encoded[0][0] {
        Step::ClearColor(clear) => {
            assert_eq!(clear.texels, vec![red; 16]);
            assert_eq!(clear.upload, Texture::fill(&texture, &clear.texels));
        }
        other => panic!("{:?}", other),
    }
    assert_eq!(encoded[1].len(), 1);
    match &encoded[1][0] {
        Step::Fill(upload) => {
            assert_eq!(*upload, Texture::transfer(&texture, &patch, rect(1, 1, 2, 2)));
            assert_eq!(upload.copy.destination.origin, Origin3d { x: 1, y: 1, z: 0 });
        }
        other => panic!("{:?}", other),
    }
    assert_eq!(encoded[2].len(), 1);
    match &encoded[2][0] {
        Step::Fill(upload) => assert_eq!(*upload, Texture::fill(&texture, &whole)),
        other => panic!("{:?}", other),
    }
    assert_eq!(encoded[3].len(), 1);
    match &encoded[3][0] {
        Step::Blit(copy) => assert_eq!(*copy, texture.blit(src, dst)),
        other => panic!("{:?}", other),
    }
}

#[test]
fn submit_of_nothing_encodes_nothing() {
    let mut r = offscreen(1);
    let ops: [Op<Texture>; 0] = [];
    assert!(r.submit(&ops).is_empty());
}

#[test]
fn clearing_a_framebuffer_clears_color_then_depth() {
    let mut r = offscreen(1);
    let fb = r.framebuffer(Size::new(2, 3), TextureFormat::Bgra8Unorm);
    let red = Bgra8::new(255, 0, 0, 255);
    let encoded = r.submit(&[Op::Clear(&fb, red)]);
    assert_eq!(encoded.len(), 1);
    assert_eq!(encoded[0].len(), 2);
    match &encoded[0][0] {
        Step::ClearColor(clear) => {
            assert_eq!(clear.texels, vec![red; 6]);
            assert_eq!(clear.upload.copy.extent, fb.texture.extent);
            assert_eq!(clear.upload.copy.layout.bytes_per_row, Some(8));
        }
        other => panic!("{:?}", other),
    }
    match &encoded[0][1] {
        Step::ClearDepth(clear) => {
            assert_eq!(clear.texels, vec![0u32; 6]);
            assert_eq!(clear.upload.copy.extent, fb.depth.texture.extent);
            assert_eq!(clear.upload.staging.size, 24);
        }
        other => panic!("{:?}", other),
    }
}

#[test]
fn operations_are_checked_by_their_canvas() {
    let r = offscreen(1);
    let texture = r.texture(Size::new(4, 4), TextureFormat::Rgba8Unorm, TextureUsages::empty(), false);
    let red = Rgba8::new(255, 0, 0, 255);
    let short = vec![red; 15];
    let whole = vec![red; 16];
    let same = Rect::new(Point::new(0u32, 0u32), Size::new(2u32, 2u32));
    let other = Rect::new(Point::new(0u32, 0u32), Size::new(1u32, 2u32));
    assert_eq!(Op::Clear(&texture, red).check(), Ok(()));
    assert_eq!(Op::Fill(&texture, &whole).check(), Ok(()));
    assert_eq!(Op::Fill(&texture, &short).check(), Err(ContractError::TexelBufferTooShort));
    assert_eq!(
        Op::Transfer { f: &texture, buf: &whole, rect: rect(0, 0, 17, 1) }.check(),
        Err(ContractError::TransferTooLarge)
    );
    assert_eq!(Op::Transfer { f: &texture, buf: &whole, rect: rect(0, 0, 4, 4) }.check(), Ok(()));
    assert_eq!(Op::Blit(&texture, same, same).check(), Err(ContractError::BlitSameArea));
    assert_eq!(Op::Blit(&texture, same, other).check(), Ok(()));
}

#[test]
fn framebuffer_operations_go_to_the_color_image() {
    let mut r = offscreen(1);
    let fb = r.framebuffer(Size::new(4, 4), TextureFormat::Bgra8Unorm);
    let blue = Bgra8::new(0, 0, 255, 255);
    let patch = vec![blue; 4];
    let short = vec![blue; 3];
    assert_eq!(Op::Fill(&fb, &short).check(), Err(ContractError::TexelBufferTooShort));
    let src = Rect::new(Point::new(0u32, 0u32), Size::new(1u32, 1u32));
    let dst = Rect::new(Point::new(2u32, 2u32), Size::new(2u32, 2u32));
    let encoded = r.submit(&[
        Op::Transfer { f: &fb, buf: &patch, rect: rect(3, 3, -2, -2) },
        Op::Blit(&fb, src, dst),
    ]);
    match &encoded[0][0] {
        Step::Fill(upload) => {
            assert_eq!(*upload, Texture::transfer(&fb.texture, &patch, rect(1, 1, 2, 2)));
        }
        other => panic!("{:?}", other),
    }
    match &encoded[1][0] {
        Step::Blit(copy) => assert_eq!(*copy, fb.texture.blit(src, dst)),
        other => panic!("{:?}", other),
    }
}

#[test]
fn multisample_writes_every_sample() {
    assert_eq!(
        offscreen(4).multisample(),
        MultisampleState { count: 4, mask: u64::MAX, alpha_to_coverage_enabled: false }
    );
}
