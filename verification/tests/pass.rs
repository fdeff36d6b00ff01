use easygpu::binding::BindingGroup;
use easygpu::color::Rgba8;
use easygpu::device::{Device, DeviceBuilder};
use easygpu::format::TextureFormat;
use easygpu::geometry::Size;
use easygpu::blending::Blending;
use easygpu::pass::{
    Draw, LoadOp, Operations, PassCommand, PassOp, RenderPass, RenderPassDepthStencilAttachment,
    RenderPassExt, StoreOp,
};
use easygpu::pipeline::IndexFormat;
use easygpu::renderer::{RenderTarget, Renderer, RendererBuilder};
use easygpu::shape::{LyonPipeline, Srgb, UniformBlock};

#[derive(Clone, Copy)]
struct Block(u64);

impl UniformBlock for Block {
    fn identity() -> Self {
        Block(0)
    }
}

struct Triangle;

impl Draw for Triangle {
    fn draw<C: Copy>(&self, binding: &BindingGroup, pass: &mut RenderPass<C>) {
        pass.set_binding(binding, &[]);
        pass.draw_indexed(0..3, 0..1);
    }
}

fn device() -> Device {
    DeviceBuilder::new().build::<()>(Ok(())).unwrap()
}

fn pass() -> RenderPass<Rgba8> {
    let fb = device().create_framebuffer(Size::new(4, 4), TextureFormat::Bgra8Unorm, 1);
    RenderPass::begin(fb.color_target(), None, fb.zdepth_target(), PassOp::Load())
}

const RED: Rgba8 = Rgba8 { r: 255, g: 0, b: 0, a: 255 };

#[test]
fn pass_op_translates_to_load_op() {
    assert_eq!(PassOp::Clear(RED).to_wgpu(), LoadOp::Clear(RED));
    assert_eq!(PassOp::<Rgba8>::Load().to_wgpu(), LoadOp::Load);
}

#[test]
fn clear_to_red_pass_with_no_draws() {
    let fb = device().create_framebuffer(Size::new(4, 4), TextureFormat::Bgra8Unorm, 1);
    let pass: RenderPass<Rgba8> =
        RenderPass::begin(fb.color_target(), None, fb.zdepth_target(), PassOp::Clear(RED));
    assert!(pass.commands.is_empty());
    let color = pass.descriptor.color_attachment;
    assert_eq!(color.view, fb.texture.view);
    assert_eq!(color.resolve_target, None);
    assert_eq!(color.ops, Operations { load: LoadOp::Clear(RED), store: StoreOp::Store });
    assert_eq!(
        pass.descriptor.depth_stencil_attachment,
        RenderPassDepthStencilAttachment {
            view: fb.depth.texture.view,
            depth_ops: Some(Operations { load: LoadOp::Clear(1), store: StoreOp::Store }),
            stencil_ops: Some(Operations { load: LoadOp::Clear(0), store: StoreOp::Store }),
        }
    );
}

#[test]
fn pass_that_loads_resolves_to_the_given_target() {
    let dev = device();
    let multisampled = dev.create_framebuffer(Size::new(4, 4), TextureFormat::Bgra8Unorm, 4);
    let resolved = dev.create_framebuffer(Size::new(4, 4), TextureFormat::Bgra8UnormSrgb, 1);
    let pass: RenderPass<Rgba8> = RenderPass::begin(
        multisampled.color_target(),
        Some(resolved.color_target()),
        multisampled.zdepth_target(),
        PassOp::Load(),
    );
    assert_eq!(pass.descriptor.color_attachment.resolve_target, Some(resolved.texture.view));
    assert_eq!(pass.descriptor.color_attachment.ops.load, LoadOp::Load);
    assert_eq!(pass.descriptor.color_attachment.ops.store, StoreOp::Store);
}

#[test]
fn set_binding_names_the_set_of_the_group() {
    let mut pass = pass();
    let group = BindingGroup::new(2, Vec::new());
    pass.set_binding(&group, &[256, 512]);
    assert_eq!(
        pass.commands,
        vec![PassCommand::SetBindGroup { index: 2, offsets: vec![256, 512] }]
    );
}

#[test]
fn set_easy_pipeline_binds_the_group_of_the_pipeline() {
    let renderer: Renderer = RendererBuilder::new().with_offscreen(true, 1).build::<()>(Ok(())).unwrap();
    let shape: LyonPipeline<Srgb, Block> =
        renderer.pipeline(Blending::default(), TextureFormat::Bgra8Unorm);
    let mut pass = pass();
    pass.draw_indexed(0..3, 0..1);
    pass.set_easy_pipeline(&shape);
    assert_eq!(pass.commands.len(), 3);
    assert_eq!(pass.commands[1], PassCommand::SetPipeline);
    assert_eq!(pass.commands[2], PassCommand::SetBindGroup { index: 0, offsets: Vec::new() });
}

#[test]
fn buffers_are_bound_whole() {
    let dev = device();
    let mut pass = pass();
    pass.set_easy_index_buffer(&dev.create_index(&[0, 1, 2]));
    pass.set_easy_vertex_buffer(&dev.create_buffer(&[0u32; 3]));
    assert_eq!(
        pass.commands,
        vec![
            PassCommand::SetIndexBuffer { format: IndexFormat::Uint16 },
            PassCommand::SetVertexBuffer { slot: 0 },
        ]
    );
}

#[test]
fn draw_buffer_draws_the_whole_buffer_once() {
    let mut pass = pass();
    let buffer = device().create_buffer(&[0u8; 36]);
    pass.draw_buffer(&buffer);
    assert_eq!(
        pass.commands,
        vec![
            PassCommand::SetVertexBuffer { slot: 0 },
            PassCommand::Draw { vertices: 0..36, instances: 0..1 },
        ]
    );
}

#[test]
fn draw_buffer_range_draws_the_range_once() {
    let mut pass = pass();
    let buffer = device().create_buffer(&[0u8; 36]);
    pass.draw_buffer_range(&buffer, 6..12);
    assert_eq!(
        pass.commands,
        vec![
            PassCommand::SetVertexBuffer { slot: 0 },
            PassCommand::Draw { vertices: 6..12, instances: 0..1 },
        ]
    );
}

#[test]
fn draw_indexed_starts_at_the_first_vertex() {
    let mut pass = pass();
    pass.draw_indexed(3..9, 0..4);
    assert_eq!(
        pass.commands,
        vec![PassCommand::DrawIndexed { indices: 3..9, base_vertex: 0, instances: 0..4 }]
    );
}

#[test]
fn commands_are_recorded_in_order() {
    let mut pass = pass();
    let dev = device();
    let vertices = dev.create_buffer(&[0u32; 4]);
    pass.set_easy_index_buffer(&dev.create_index(&[0, 1, 2, 2, 3, 0]));
    pass.set_easy_vertex_buffer(&vertices);
    pass.draw_indexed(0..6, 0..1);
    pass.draw_buffer(&vertices);
    let before = pass.descriptor;
    assert_eq!(pass.commands.len(), 5);
    assert_eq!(pass.commands[0], PassCommand::SetIndexBuffer { format: IndexFormat::Uint16 });
    assert_eq!(
        pass.commands[2],
        PassCommand::DrawIndexed { indices: 0..6, base_vertex: 0, instances: 0..1 }
    );
    assert_eq!(pass.commands[4], PassCommand::Draw { vertices: 0..16, instances: 0..1 });
    assert_eq!(pass.descriptor, before);
}

#[test]
fn easy_draw_lets_the_drawable_record() {
    let mut pass = pass();
    let group = BindingGroup::new(1, Vec::new());
    pass.easy_draw(&Triangle, &group);
    assert_eq!(
        pass.commands,
        vec![
            PassCommand::SetBindGroup { index: 1, offsets: Vec::new() },
            PassCommand::DrawIndexed { indices: 0..3, base_vertex: 0, instances: 0..1 },
        ]
    );
}
