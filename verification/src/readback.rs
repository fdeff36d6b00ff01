//! Reading the pixels of a framebuffer back to the CPU.
//!
//! A readback copies the color image into a buffer that the CPU can map,
//! waits until the driver reports the buffer as mapped and then reads the
//! bytes as pixels.

use vstd::prelude::*;
use core::ops::Range;
use crate::buffers::frame::Framebuffer;
use crate::buffers::{BufferDescriptor, BufferUsages};
use crate::color::{Bgra8, decode_pixels, pixels_of};
use crate::error::ContractError;
use crate::texture::{
    Extent3d,
    Origin3d,
    TEXEL_BYTES,
    TexelCopyBufferLayout,
    TexelCopyTextureInfo,
    TextureAspect,
};

verus! {

/// What a buffer is mapped for.
#[derive(Clone, Copy, Debug, PartialEq, Eq, Structural)]
pub enum MapMode {
    Read,
    Write,
}

/// A copy from an image into a buffer.
#[derive(Clone, Copy, Debug, PartialEq, Eq)]
pub struct TextureRead {
    pub source: TexelCopyTextureInfo,
    pub layout: TexelCopyBufferLayout,
    pub extent: Extent3d,
}

/// Everything that one readback asks of the driver.
#[derive(Debug, PartialEq, Eq)]
pub struct ReadRequest {
    /// The number of bytes that the pixels take.
    pub bytesize: usize,
    /// The buffer that receives the pixels.
    pub buffer: BufferDescriptor,
    /// The copy out of the color image.
    pub copy: TextureRead,
    /// The bytes of the buffer that are mapped.
    pub range: Range<u64>,
    pub mode: MapMode,
}

/// How far a readback has come.
#[derive(Clone, Copy, Debug, PartialEq, Eq, Structural)]
pub enum ReadStage {
    /// The copy is recorded and nothing has been handed to the driver.
    Recorded,
    /// The copy is submitted and the driver has been asked to map the buffer.
    Waiting,
    /// The driver has reported the buffer as mapped.
    Mapped,
    /// The readback has ended, well or badly.
    Finished,
}

/// What is to be done next in a readback.
#[derive(Debug, PartialEq, Eq)]
pub enum ReadAction<E> {
    /// Submit the recorded copy and ask for the buffer to be mapped.
    Submit,
    /// Nothing has been reported yet: look again.
    Wait,
    /// Read the mapped bytes and hand the pixels to the caller.
    Deliver,
    /// Unmap the buffer and end with success.
    Unmap,
    /// End with this error.
    Fail(E),
}

impl ReadRequest {
    /// What [`ReadRequest::check`] answers for a framebuffer.
    pub open spec fn spec_check(fb: Framebuffer) -> Result<(), ContractError> {
        if fb.texture.size.spec_area() > u32::MAX || TEXEL_BYTES * fb.texture.size.spec_area()
            > usize::MAX || TEXEL_BYTES * fb.texture.size.width > u32::MAX {
            Err(ContractError::Arithmetic)
        } else {
            Ok(())
        }
    }

    /// The readback of the whole color image of `fb`: a buffer of four bytes
    /// to the pixel that can be copied into and mapped for reading, a copy of
    /// the whole extent from the first texel with tightly packed rows, and a
    /// mapping of the whole buffer.
    pub open spec fn describes(self, fb: Framebuffer) -> bool {
        &&& self.bytesize == TEXEL_BYTES * fb.texture.size.spec_area()
        &&& self.buffer == (BufferDescriptor {
            size: self.bytesize as u64,
            usage: BufferUsages::spec_readback(),
            mapped_at_creation: false,
        })
        &&& self.copy == (TextureRead {
            source: TexelCopyTextureInfo {
                mip_level: 0,
                origin: Origin3d { x: 0, y: 0, z: 0 },
                aspect: TextureAspect::All,
            },
            layout: TexelCopyBufferLayout {
                offset: 0,
                bytes_per_row: Some((TEXEL_BYTES * fb.texture.size.width) as u32),
                rows_per_image: Some(fb.texture.size.height),
            },
            extent: fb.texture.extent,
        })
        &&& self.range.start == 0
        &&& self.range.end == self.bytesize
        &&& self.mode == MapMode::Read
    }

    /// Decides whether the pixels of `fb` can be read back: their number and
    /// the bytes they take must fit the integers of the driver.
    pub fn check(fb: &Framebuffer) -> (checked: Result<(), ContractError>)
        ensures
            checked == Self::spec_check(*fb),
    {
        if !fb.texture.size.area_fits() {
            return Err(ContractError::Arithmetic);
        }
        let area: usize = fb.size();
        if area.checked_mul(TEXEL_BYTES as usize).is_none() || fb.texture.size.width.checked_mul(
            TEXEL_BYTES,
        ).is_none() {
            return Err(ContractError::Arithmetic);
        }
        Ok(())
    }

    /// The stage that follows `stage` when the driver has reported `signal`
    /// since the last step, and what is to be done on the way. `signal` is
    /// nothing, success or an error, and counts only while the readback
    /// waits.
    pub open spec fn spec_step<E>(stage: ReadStage, signal: Option<Result<(), E>>) -> (
        ReadStage,
        ReadAction<E>,
    ) {
        match stage {
            ReadStage::Recorded => (ReadStage::Waiting, ReadAction::Submit),
            ReadStage::Waiting => match signal {
                None => (ReadStage::Waiting, ReadAction::Wait),
                Some(Ok(())) => (ReadStage::Mapped, ReadAction::Deliver),
                Some(Err(e)) => (ReadStage::Finished, ReadAction::Fail(e)),
            },
            ReadStage::Mapped => (ReadStage::Finished, ReadAction::Unmap),
            ReadStage::Finished => (ReadStage::Finished, ReadAction::Wait),
        }
    }

    /// Takes a readback one step further. The readback starts at
    /// [`ReadStage::Recorded`] and is stepped until it is finished.
    pub fn step<E>(stage: ReadStage, signal: Option<Result<(), E>>) -> (next: (ReadStage, ReadAction<E>))
        ensures
            next == Self::spec_step(stage, signal),
    {
        match stage {
            ReadStage::Recorded => (ReadStage::Waiting, ReadAction::Submit),
            ReadStage::Waiting => match signal {
                None => (ReadStage::Waiting, ReadAction::Wait),
                Some(Ok(())) => (ReadStage::Mapped, ReadAction::Deliver),
                Some(Err(err)) => (ReadStage::Finished, ReadAction::Fail(err)),
            },
            ReadStage::Mapped => (ReadStage::Finished, ReadAction::Unmap),
            ReadStage::Finished => (ReadStage::Finished, ReadAction::Wait),
        }
    }

    /// What [`ReadRequest::check_deliver`] answers for `len` mapped bytes.
    pub open spec fn deliver_check(len: nat) -> Result<(), ContractError> {
        if len % (TEXEL_BYTES as nat) == 0 {
            Ok(())
        } else {
            Err(ContractError::MisalignedReadback)
        }
    }

    /// Decides whether the mapped bytes can be read as pixels: they must make
    /// up whole pixels of four bytes.
    pub fn check_deliver(&self, mapped: &[u8]) -> (checked: Result<(), ContractError>)
        ensures
            checked == Self::deliver_check(mapped@.len()),
    {
        if mapped.len() % 4 == 0 {
            Ok(())
        } else {
            Err(ContractError::MisalignedReadback)
        }
    }

    /// Reads the mapped bytes as the pixels that are handed to the caller:
    /// four bytes to the pixel, in the order in which they are mapped, and
    /// every byte in a pixel.
    pub fn deliver(&self, mapped: &[u8]) -> (pixels: Vec<Bgra8>)
        requires
            Self::deliver_check(mapped@.len()) is Ok,
        ensures
            pixels@ == pixels_of(mapped@),
            TEXEL_BYTES * pixels@.len() == mapped@.len(),
    {
        decode_pixels(mapped)
    }
}

impl ReadStage {
    /// How far the stage is from the start.
    pub open spec fn rank(self) -> nat {
        match self {
            ReadStage::Recorded => 0,
            ReadStage::Waiting => 1,
            ReadStage::Mapped => 2,
            ReadStage::Finished => 3,
        }
    }
}

/// A readback submits once: the copy is submitted in the step that leaves the
/// first stage and in no other, and no step leads back to the first stage.
pub proof fn lemma_submits_once<E>(stage: ReadStage, signal: Option<Result<(), E>>)
    ensures
        ReadRequest::spec_step(stage, signal).1 is Submit <==> stage is Recorded,
        !(ReadRequest::spec_step(stage, signal).0 is Recorded),
{
}

/// A readback only moves forward, and every step but a wait moves it on.
pub proof fn lemma_moves_forward<E>(stage: ReadStage, signal: Option<Result<(), E>>)
    ensures
        ReadRequest::spec_step(stage, signal).0.rank() >= stage.rank(),
        !(stage is Finished) && !(ReadRequest::spec_step(stage, signal).1 is Wait)
            ==> ReadRequest::spec_step(stage, signal).0.rank() > stage.rank(),
{
}

/// Pixels are delivered only when the driver has reported the buffer as
/// mapped, and the readback ends with success only after they have been
/// delivered. It ends with an error exactly when the driver reports one
/// while the readback waits, and then with that error.
pub proof fn lemma_delivers_when_mapped<E>(stage: ReadStage, signal: Option<Result<(), E>>)
    ensures
        ReadRequest::spec_step(stage, signal).1 is Deliver <==> (stage is Waiting && signal matches Some(
            Ok(_),
        )),
        ReadRequest::spec_step(stage, signal).1 is Unmap <==> stage is Mapped,
        ReadRequest::spec_step(stage, signal).1 is Fail <==> (stage is Waiting && signal matches Some(
            Err(_),
        )),
        signal matches Some(Err(e)) ==> (stage is Waiting ==> ReadRequest::spec_step(stage, signal).1
            == ReadAction::Fail(e)),
        ReadRequest::spec_step(stage, signal).1 is Wait && !(stage is Finished) ==> (stage is Waiting
            && signal is None),
{
}

/// The bytes of a readback always make up whole pixels: when as many bytes
/// arrive as were asked for, each of them belongs to a pixel and there are as
/// many pixels as the framebuffer has.
pub proof fn lemma_readback_whole_pixels(request: ReadRequest, fb: Framebuffer, mapped: Seq<u8>)
    requires
        request.describes(fb),
        mapped.len() == request.bytesize,
    ensures
        ReadRequest::deliver_check(mapped.len()) is Ok,
        pixels_of(mapped).len() == fb.texture.size.spec_area(),
{
}

} // verus!
