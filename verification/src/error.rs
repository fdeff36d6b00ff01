//! The ways in which a caller can break the contract of an operation.
//!
//! An operation states in its `requires` what it needs. Where a caller can
//! get that wrong, a `check` function beside the operation decides the
//! condition at run time and names what is wrong, so that code that is not
//! verified can stop with a message before it calls the operation.

use vstd::prelude::*;

verus! {

/// Why an operation may not be carried out.
#[derive(Clone, Copy, Debug, PartialEq, Eq, Structural)]
pub enum ContractError {
    /// A coordinate, an area or a row pitch cannot be held in the integers
    /// that the driver takes, or a copy of no rows was asked for.
    Arithmetic,
    /// A texel buffer holds fewer texels than the image it is to fill.
    TexelBufferTooShort,
    /// A transfer covers more texels than its destination image has.
    TransferTooLarge,
    /// The two rectangles of a blit cover the same number of texels.
    BlitSameArea,
    /// A binding group was given another number of resources than its layout
    /// has slots.
    SlotCountMismatch,
    /// A presentation surface is needed and the device was built without one.
    NoSurface,
    /// A renderer was asked for without the handles that its kind needs.
    MissingHandle,
    /// The values of a clear do not make up whole texels of four bytes.
    MisalignedTexels,
    /// The bytes of a readback do not make up whole pixels of four bytes.
    MisalignedReadback,
}

impl ContractError {
    /// The text that [`ContractError::message`] gives.
    pub open spec fn spec_message(self) -> Seq<char> {
        match self {
            ContractError::Arithmetic => "fatal: value out of range for the driver"@,
            ContractError::TexelBufferTooShort => "fatal: incorrect length for texel buffer"@,
            ContractError::TransferTooLarge => "fatal: transfer size must be <= texture size"@,
            ContractError::BlitSameArea => "source and destination rectangles must differ in area"@,
            ContractError::SlotCountMismatch => "layout slot count does not match bindings"@,
            ContractError::NoSurface => "configure only works when initialized with a surface"@,
            ContractError::MissingHandle => "renderer built without the handles it needs"@,
            ContractError::MisalignedTexels => "fatal: clear value does not make up whole texels"@,
            ContractError::MisalignedReadback => "Renderer::read: framebuffer is not a valid Bgra8 buffer"@,
        }
    }

    /// A sentence for the person who made the call.
    pub fn message(&self) -> (text: &'static str)
        ensures
            text@ == self.spec_message(),
    {
        match self {
            ContractError::Arithmetic => "fatal: value out of range for the driver",
            ContractError::TexelBufferTooShort => "fatal: incorrect length for texel buffer",
            ContractError::TransferTooLarge => "fatal: transfer size must be <= texture size",
            ContractError::BlitSameArea => "source and destination rectangles must differ in area",
            ContractError::SlotCountMismatch => "layout slot count does not match bindings",
            ContractError::NoSurface => "configure only works when initialized with a surface",
            ContractError::MissingHandle => "renderer built without the handles it needs",
            ContractError::MisalignedTexels => "fatal: clear value does not make up whole texels",
            ContractError::MisalignedReadback => "Renderer::read: framebuffer is not a valid Bgra8 buffer",
        }
    }
}

} // verus!
