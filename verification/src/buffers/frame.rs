//! Off-screen render targets.

use vstd::prelude::*;
use crate::binding::{Bind, BindGroupEntry, BindingResource};
use crate::buffers::DepthBuffer;
use crate::texture::Texture;

verus! {

/// Off-screen framebuffer. Can be used as a render target in render passes.
#[derive(Clone, Copy, Debug, PartialEq, Eq, Structural)]
pub struct Framebuffer {
    pub texture: Texture,
    pub depth: DepthBuffer,
}

impl Framebuffer {
    /// The color image and the depth buffer agree with themselves and have
    /// the same extent.
    pub open spec fn wf(self) -> bool {
        &&& self.texture.wf()
        &&& self.depth.wf()
        &&& self.depth.texture.extent == self.texture.extent
        &&& self.depth.texture.size == self.texture.size
    }

    /// Size in pixels of the framebuffer.
    pub fn size(&self) -> (pixels: usize)
        requires
            self.texture.size.spec_area() <= u32::MAX,
        ensures
            pixels == self.texture.size.spec_area(),
    {
        self.texture.size.area() as usize
    }

    /// Framebuffer width, in pixels.
    pub fn width(&self) -> (width: u32)
        ensures
            width == self.texture.size.width,
    {
        self.texture.size.width
    }

    /// Framebuffer height, in pixels.
    pub fn height(&self) -> (height: u32)
        ensures
            height == self.texture.size.height,
    {
        self.texture.size.height
    }
}

impl Bind for Framebuffer {
    /// A view of the color image.
    open spec fn resource(&self) -> BindingResource {
        BindingResource::TextureView
    }

    fn binding(&self, index: u32) -> (entry: BindGroupEntry) {
        BindGroupEntry { binding: index, resource: BindingResource::TextureView }
    }
}

} // verus!
