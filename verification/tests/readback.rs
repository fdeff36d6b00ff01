use easygpu::buffers::{BufferDescriptor, BufferUsages};
use easygpu::color::{decode_pixels, Bgra8};
use easygpu::device::DeviceBuilder;
use easygpu::error::ContractError;
use easygpu::format::TextureFormat;
use easygpu::geometry::Size;
use easygpu::pass::{LoadOp, PassOp, RenderPass, RenderPassExt, StoreOp};
use easygpu::readback::{MapMode, ReadAction, ReadRequest, ReadStage, TextureRead};
use easygpu::renderer::{RenderTarget, Renderer, RendererBuilder};
use easygpu::texture::{
    Extent3d, Origin3d, TexelCopyBufferLayout, TexelCopyTextureInfo, TextureAspect,
};

fn renderer() -> Renderer {
    RendererBuilder::new().with_offscreen(true, 1).build::<()>(Ok(())).unwrap()
}

#[test]
fn read_request_covers_the_whole_color_image() {
    let r = renderer();
    let fb = r.framebuffer(Size::new(4, 3), TextureFormat::Bgra8Unorm);
    assert_eq!(ReadRequest::check(&fb), Ok(()));
    let request = r.read(&fb);
    assert_eq!(request.bytesize, 48);
    assert_eq!(
        request.buffer,
        BufferDescriptor {
            size: 48,
            usage: BufferUsages { map_read: true, copy_dst: true, ..BufferUsages::empty() },
            mapped_at_creation: false,
        }
    );
    assert_eq!(
        request.copy,
        TextureRead {
            source: TexelCopyTextureInfo {
                mip_level: 0,
                origin: Origin3d { x: 0, y: 0, z: 0 },
                aspect: TextureAspect::All,
            },
            layout: TexelCopyBufferLayout {
                offset: 0,
                bytes_per_row: Some(16),
                rows_per_image: Some(3),
            },
            extent: Extent3d { width: 4, height: 3, depth_or_array_layers: 1 },
        }
    );
    assert_eq!(request.range, 0..48);
    assert_eq!(request.mode, MapMode::Read);
}

#[test]
fn read_of_a_framebuffer_beyond_the_range_is_refused() {
    let device = DeviceBuilder::new().build::<()>(Ok(())).unwrap();
    let fb = device.create_framebuffer(Size::new(65536, 65536), TextureFormat::Bgra8Unorm, 1);
    assert_eq!(ReadRequest::check(&fb), Err(ContractError::Arithmetic));
    let wide = device.create_framebuffer(Size::new(1 << 30, 1), TextureFormat::Bgra8Unorm, 1);
    assert_eq!(ReadRequest::check(&wide), Err(ContractError::Arithmetic));
}

#[test]
fn readback_submits_then_waits_then_delivers() {
    let (stage, action) = ReadRequest::step::<()>(ReadStage::Recorded, None);
    assert_eq!((stage, action), (ReadStage::Waiting, ReadAction::Submit));
    let (stage, action) = ReadRequest::step::<()>(stage, None);
    assert_eq!((stage, action), (ReadStage::Waiting, ReadAction::Wait));
    let (stage, action) = ReadRequest::step::<()>(stage, None);
    assert_eq!((stage, action), (ReadStage::Waiting, ReadAction::Wait));
    let (stage, action) = ReadRequest::step::<()>(stage, Some(Ok(())));
    assert_eq!((stage, action), (ReadStage::Mapped, ReadAction::Deliver));
    let (stage, action) = ReadRequest::step::<()>(stage, None);
    assert_eq!((stage, action), (ReadStage::Finished, ReadAction::Unmap));
}

#[test]
fn readback_ends_with_the_error_of_the_driver() {
    let (stage, _) = ReadRequest::step::<&str>(ReadStage::Recorded, None);
    let (stage, action) = ReadRequest::step(stage, Some(Err("lost")));
    assert_eq!((stage, action), (ReadStage::Finished, ReadAction::Fail("lost")));
}

#[test]
fn readback_does_not_look_at_signals_before_it_waits() {
    let (stage, action) = ReadRequest::step(ReadStage::Recorded, Some(Err("early")));
    assert_eq!((stage, action), (ReadStage::Waiting, ReadAction::Submit));
    let (stage, action) = ReadRequest::step(ReadStage::Mapped, Some(Err("late")));
    assert_eq!((stage, action), (ReadStage::Finished, ReadAction::Unmap));
}

#[test]
fn deliver_reads_four_bytes_to_the_pixel() {
    let r = renderer();
    let fb = r.framebuffer(Size::new(2, 1), TextureFormat::Bgra8Unorm);
    let request = r.read(&fb);
    let mapped = [1u8, 2, 3, 4, 5, 6, 7, 8];
    assert_eq!(request.check_deliver(&mapped), Ok(()));
    assert_eq!(
        request.deliver(&mapped),
        vec![Bgra8 { b: 1, g: 2, r: 3, a: 4 }, Bgra8 { b: 5, g: 6, r: 7, a: 8 }]
    );
}

#[test]
fn bytes_that_are_not_whole_pixels_are_refused() {
    let r = renderer();
    let fb = r.framebuffer(Size::new(2, 1), TextureFormat::Bgra8Unorm);
    let request = r.read(&fb);
    assert_eq!(request.check_deliver(&[0u8; 7]), Err(ContractError::MisalignedReadback));
    assert_eq!(request.check_deliver(&[0u8; 1]), Err(ContractError::MisalignedReadback));
    assert_eq!(request.check_deliver(&[0u8; 9]), Err(ContractError::MisalignedReadback));
    assert_eq!(request.check_deliver(&[0u8; 8]), Ok(()));
    assert_eq!(request.check_deliver(&[]), Ok(()));
}

#[test]
fn whole_pixels_are_always_delivered() {
    let r = renderer();
    let fb = r.framebuffer(Size::new(2, 1), TextureFormat::Bgra8Unorm);
    let request = r.read(&fb);
    assert_eq!(request.check_deliver(&[0u8; 12]), Ok(()));
    assert_eq!(request.deliver(&[0u8; 12]), vec![Bgra8::new(0, 0, 0, 0); 3]);
}

#[test]
fn finished_readback_stays_finished() {
    let (stage, action) = ReadRequest::step::<()>(ReadStage::Finished, Some(Ok(())));
    assert_eq!((stage, action), (ReadStage::Finished, ReadAction::Wait));
    let (stage, action) = ReadRequest::step(ReadStage::Finished, Some(Err("late")));
    assert_eq!((stage, action), (ReadStage::Finished, ReadAction::Wait));
}

#[test]
fn deliver_of_an_empty_framebuffer_is_empty() {
    let r = renderer();
    let fb = r.framebuffer(Size::new(0, 5), TextureFormat::Bgra8Unorm);
    let request = r.read(&fb);
    assert_eq!(request.bytesize, 0);
    assert_eq!(request.check_deliver(&[]), Ok(()));
    assert_eq!(request.deliver(&[]), Vec::new());
}

#[test]
fn decode_pixels_leaves_out_a_broken_last_pixel() {
    assert_eq!(decode_pixels(&[9, 8, 7, 6, 5]), vec![Bgra8 { b: 9, g: 8, r: 7, a: 6 }]);
    assert_eq!(decode_pixels(&[1, 2, 3]), Vec::new());
    assert_eq!(Bgra8::new(7, 8, 9, 6), Bgra8 { b: 9, g: 8, r: 7, a: 6 });
}

#[test]
fn pass_cleared_to_red_reads_back_red() {
    let red = Bgra8::new(255, 0, 0, 255);
    let r = renderer();
    let fb = r.framebuffer(Size::new(2, 2), TextureFormat::Bgra8Unorm);

    // A pass that clears to red and draws nothing.
    let pass: RenderPass<Bgra8> =
        RenderPass::begin(fb.color_target(), None, fb.zdepth_target(), PassOp::Clear(red));
    assert!(pass.commands.is_empty());
    // What a driver holds for the target after this pass.
    let mut held = vec![Bgra8::new(0, 0, 0, 0); fb.size()];
    if let LoadOp::Clear(color) = pass.descriptor.color_attachment.ops.load {
        held.fill(color);
    }
    assert_eq!(pass.descriptor.color_attachment.ops.store, StoreOp::Store);
    let mapped: Vec<u8> = held.iter().flat_map(|p| [p.b, p.g, p.r, p.a]).collect();

    let request = r.read(&fb);
    assert_eq!(request.check_deliver(&mapped), Ok(()));
    let pixels = request.deliver(&mapped);
    assert_eq!(pixels.len(), 4);
    assert!(pixels.iter().all(|p| *p == red));
}
