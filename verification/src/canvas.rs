//! What can be cleared, filled, transferred into and blitted within.

use vstd::prelude::*;
use crate::buffers::frame::Framebuffer;
use crate::color::{Bgra8, Rgba8};
use crate::error::ContractError;
use crate::geometry::Rect;
use crate::texture::{Clear, Texture, TextureCopy, Upload, staging_for};

verus! {

/// One thing that a canvas operation asks of the driver.
#[derive(Debug)]
pub enum Step<T> {
    /// Stage the texels that the caller gave and copy them into the color
    /// image.
    Fill(Upload),
    /// Stage a color written out for every texel and copy it into the color
    /// image.
    ClearColor(Clear<T>),
    /// Stage a zero for every texel and copy it into the depth image.
    ClearDepth(Clear<u32>),
    /// Copy one region of the color image onto another.
    Blit(TextureCopy),
}

/// A target whose texels can be set from the CPU.
pub trait Canvas {
    /// The type of one texel.
    type Color;

    /// Whether the canvas is small enough to be cleared.
    spec fn accepts_clear(&self) -> bool;

    /// Whether a buffer of `len` texels can fill the canvas.
    spec fn accepts_fill(&self, len: nat) -> bool;

    /// Whether `len` texels can be transferred into `rect`.
    spec fn accepts_transfer(&self, len: nat, rect: Rect<i32>) -> bool;

    /// Whether a blit from `from` to `dst` is accepted.
    spec fn accepts_blit(&self, from: Rect<u32>, dst: Rect<u32>) -> bool;

    /// Whether `steps` are what clearing to `color` asks for.
    spec fn cleared(&self, color: Self::Color, steps: Seq<Step<Self::Color>>) -> bool;

    /// Whether `steps` are what filling from `len` texels asks for.
    spec fn filled(&self, len: nat, steps: Seq<Step<Self::Color>>) -> bool;

    /// Whether `steps` are what transferring `len` texels into `rect` asks
    /// for.
    spec fn transferred(&self, len: nat, rect: Rect<i32>, steps: Seq<Step<Self::Color>>) -> bool;

    /// Whether `steps` are what a blit from `from` to `dst` asks for.
    spec fn blitted(&self, from: Rect<u32>, dst: Rect<u32>, steps: Seq<Step<Self::Color>>) -> bool;

    /// Decides whether the canvas can be cleared.
    fn check_clear(&self) -> (checked: Result<(), ContractError>)
        ensures
            checked is Ok <==> self.accepts_clear(),
    ;

    /// Decides whether a buffer of `len` texels can fill the canvas.
    fn check_fill(&self, len: usize) -> (checked: Result<(), ContractError>)
        ensures
            checked is Ok <==> self.accepts_fill(len as nat),
    ;

    /// Decides whether `len` texels can be transferred into `rect`.
    fn check_transfer(&self, len: usize, rect: Rect<i32>) -> (checked: Result<(), ContractError>)
        ensures
            checked is Ok <==> self.accepts_transfer(len as nat, rect),
    ;

    /// Decides whether a blit from `from` to `dst` is accepted.
    fn check_blit(&self, from: Rect<u32>, dst: Rect<u32>) -> (checked: Result<(), ContractError>)
        ensures
            checked is Ok <==> self.accepts_blit(from, dst),
    ;

    /// Sets every texel to `color`.
    fn clear(&self, color: Self::Color) -> (steps: Vec<Step<Self::Color>>)
        requires
            self.accepts_clear(),
        ensures
            self.cleared(color, steps@),
    ;

    /// Sets every texel from `buf`, row by row.
    fn fill(&self, buf: &[Self::Color]) -> (steps: Vec<Step<Self::Color>>)
        requires
            self.accepts_fill(buf@.len()),
        ensures
            self.filled(buf@.len(), steps@),
    ;

    /// Sets the texels of the rectangle `r` from `buf`.
    fn transfer(&self, buf: &[Self::Color], r: Rect<i32>) -> (steps: Vec<Step<Self::Color>>)
        requires
            self.accepts_transfer(buf@.len(), r),
        ensures
            self.transferred(buf@.len(), r, steps@),
    ;

    /// Copies the region `from` onto the region that starts where `dst`
    /// starts.
    fn blit(&self, from: Rect<u32>, dst: Rect<u32>) -> (steps: Vec<Step<Self::Color>>)
        requires
            self.accepts_blit(from, dst),
        ensures
            self.blitted(from, dst, steps@),
    ;
}

/// Whether `steps` is the single step of uploading the caller's texels by
/// `upload`.
pub open spec fn only_fill<T>(steps: Seq<Step<T>>, upload: Upload) -> bool {
    steps.len() == 1 && steps[0] == Step::<T>::Fill(upload)
}

/// Whether `step` spreads `color` over the whole of `texture`.
pub open spec fn clears_color<T>(step: Step<T>, texture: Texture, color: T) -> bool {
    &&& step matches Step::ClearColor(clear)
    &&& clear.texels@ == Seq::new(texture.size.spec_area() as nat, |i: int| color)
    &&& clear.upload.staging == staging_for::<T>(texture.size.spec_area() as nat)
    &&& clear.upload.copy == texture.fill_copy()
}

/// Whether `step` spreads zeros over the whole of the depth image `texture`.
pub open spec fn clears_depth<T>(step: Step<T>, texture: Texture) -> bool {
    &&& step matches Step::ClearDepth(clear)
    &&& clear.texels@ == Seq::new(texture.size.spec_area() as nat, |i: int| 0u32)
    &&& clear.upload.staging == staging_for::<u32>(texture.size.spec_area() as nat)
    &&& clear.upload.copy == texture.fill_copy()
}

impl Canvas for Texture {
    type Color = Rgba8;

    open spec fn accepts_clear(&self) -> bool {
        Texture::clear_check::<Rgba8>(*self) is Ok
    }

    open spec fn accepts_fill(&self, len: nat) -> bool {
        Texture::fill_check(*self, len) is Ok
    }

    open spec fn accepts_transfer(&self, len: nat, rect: Rect<i32>) -> bool {
        Texture::transfer_check(*self, len, rect) is Ok
    }

    open spec fn accepts_blit(&self, from: Rect<u32>, dst: Rect<u32>) -> bool {
        Texture::blit_check(from, dst) is Ok
    }

    open spec fn cleared(&self, color: Rgba8, steps: Seq<Step<Rgba8>>) -> bool {
        steps.len() == 1 && clears_color(steps[0], *self, color)
    }

    open spec fn filled(&self, len: nat, steps: Seq<Step<Rgba8>>) -> bool {
        only_fill(steps, Upload { staging: staging_for::<Rgba8>(len), copy: self.fill_copy() })
    }

    open spec fn transferred(&self, len: nat, rect: Rect<i32>, steps: Seq<Step<Rgba8>>) -> bool {
        only_fill(
            steps,
            Upload { staging: staging_for::<Rgba8>(len), copy: self.transfer_copy(len, rect) },
        )
    }

    open spec fn blitted(&self, from: Rect<u32>, dst: Rect<u32>, steps: Seq<Step<Rgba8>>) -> bool {
        steps.len() == 1 && steps[0] == Step::<Rgba8>::Blit(Texture::blit_copy(from, dst))
    }

    fn check_clear(&self) -> (checked: Result<(), ContractError>) {
        Texture::check_clear::<Rgba8>(self)
    }

    fn check_fill(&self, len: usize) -> (checked: Result<(), ContractError>) {
        Texture::check_fill(self, len)
    }

    fn check_transfer(&self, len: usize, rect: Rect<i32>) -> (checked: Result<(), ContractError>) {
        Texture::check_transfer(self, len, rect)
    }

    fn check_blit(&self, from: Rect<u32>, dst: Rect<u32>) -> (checked: Result<(), ContractError>) {
        Texture::check_blit(from, dst)
    }

    fn clear(&self, color: Rgba8) -> (steps: Vec<Step<Rgba8>>) {
        let mut steps: Vec<Step<Rgba8>> = Vec::new();
        steps.push(Step::ClearColor(Texture::clear(self, color)));
        steps
    }

    fn fill(&self, buf: &[Rgba8]) -> (steps: Vec<Step<Rgba8>>) {
        let mut steps: Vec<Step<Rgba8>> = Vec::new();
        steps.push(Step::Fill(Texture::fill(self, buf)));
        steps
    }

    fn transfer(&self, buf: &[Rgba8], r: Rect<i32>) -> (steps: Vec<Step<Rgba8>>) {
        let mut steps: Vec<Step<Rgba8>> = Vec::new();
        steps.push(Step::Fill(Texture::transfer(self, buf, r)));
        steps
    }

    fn blit(&self, from: Rect<u32>, dst: Rect<u32>) -> (steps: Vec<Step<Rgba8>>) {
        let mut steps: Vec<Step<Rgba8>> = Vec::new();
        steps.push(Step::Blit(Texture::blit(self, from, dst)));
        steps
    }
}

impl Canvas for Framebuffer {
    type Color = Bgra8;

    open spec fn accepts_clear(&self) -> bool {
        &&& Texture::clear_check::<Bgra8>(self.texture) is Ok
        &&& Texture::clear_check::<u32>(self.depth.texture) is Ok
    }

    open spec fn accepts_fill(&self, len: nat) -> bool {
        Texture::fill_check(self.texture, len) is Ok
    }

    open spec fn accepts_transfer(&self, len: nat, rect: Rect<i32>) -> bool {
        Texture::transfer_check(self.texture, len, rect) is Ok
    }

    open spec fn accepts_blit(&self, from: Rect<u32>, dst: Rect<u32>) -> bool {
        Texture::blit_check(from, dst) is Ok
    }

    /// The color image is cleared to the color first, then the depth buffer
    /// is cleared to zero.
    open spec fn cleared(&self, color: Bgra8, steps: Seq<Step<Bgra8>>) -> bool {
        &&& steps.len() == 2
        &&& clears_color(steps[0], self.texture, color)
        &&& clears_depth(steps[1], self.depth.texture)
    }

    open spec fn filled(&self, len: nat, steps: Seq<Step<Bgra8>>) -> bool {
        only_fill(steps, Upload { staging: staging_for::<Bgra8>(len), copy: self.texture.fill_copy() })
    }

    open spec fn transferred(&self, len: nat, rect: Rect<i32>, steps: Seq<Step<Bgra8>>) -> bool {
        only_fill(
            steps,
            Upload {
                staging: staging_for::<Bgra8>(len),
                copy: self.texture.transfer_copy(len, rect),
            },
        )
    }

    open spec fn blitted(&self, from: Rect<u32>, dst: Rect<u32>, steps: Seq<Step<Bgra8>>) -> bool {
        steps.len() == 1 && steps[0] == Step::<Bgra8>::Blit(Texture::blit_copy(from, dst))
    }

    fn check_clear(&self) -> (checked: Result<(), ContractError>) {
        match Texture::check_clear::<Bgra8>(&self.texture) {
            Ok(()) => Texture::check_clear::<u32>(&self.depth.texture),
            Err(e) => Err(e),
        }
    }

    fn check_fill(&self, len: usize) -> (checked: Result<(), ContractError>) {
        Texture::check_fill(&self.texture, len)
    }

    fn check_transfer(&self, len: usize, rect: Rect<i32>) -> (checked: Result<(), ContractError>) {
        Texture::check_transfer(&self.texture, len, rect)
    }

    fn check_blit(&self, from: Rect<u32>, dst: Rect<u32>) -> (checked: Result<(), ContractError>) {
        Texture::check_blit(from, dst)
    }

    fn clear(&self, color: Bgra8) -> (steps: Vec<Step<Bgra8>>) {
        let mut steps: Vec<Step<Bgra8>> = Vec::new();
        steps.push(Step::ClearColor(Texture::clear(&self.texture, color)));
        steps.push(Step::ClearDepth(Texture::clear(&self.depth.texture, 0u32)));
        steps
    }

    fn fill(&self, buf: &[Bgra8]) -> (steps: Vec<Step<Bgra8>>) {
        let mut steps: Vec<Step<Bgra8>> = Vec::new();
        steps.push(Step::Fill(Texture::fill(&self.texture, buf)));
        steps
    }

    fn transfer(&self, buf: &[Bgra8], r: Rect<i32>) -> (steps: Vec<Step<Bgra8>>) {
        let mut steps: Vec<Step<Bgra8>> = Vec::new();
        steps.push(Step::Fill(Texture::transfer(&self.texture, buf, r)));
        steps
    }

    fn blit(&self, from: Rect<u32>, dst: Rect<u32>) -> (steps: Vec<Step<Bgra8>>) {
        let mut steps: Vec<Step<Bgra8>> = Vec::new();
        steps.push(Step::Blit(Texture::blit(&self.texture, from, dst)));
        steps
    }
}

} // verus!
