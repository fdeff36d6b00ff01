//! The recording of the commands of one frame.

use vstd::prelude::*;

verus! {

/// What the driver is asked for when a command encoder is made.
#[derive(Clone, Copy, Debug, PartialEq, Eq)]
pub struct CommandEncoderDescriptor {
    /// A name that shows up in the driver's diagnostics.
    pub label: Option<&'static str>,
}

/// A frame that is being recorded.
#[derive(Clone, Copy, Debug, PartialEq, Eq)]
pub struct Frame {
    /// The encoder that takes the commands of the frame.
    pub encoder: CommandEncoderDescriptor,
}

impl Frame {
    pub fn new(encoder: CommandEncoderDescriptor) -> (frame: Self)
        ensures
            frame.encoder == encoder,
    {
        Frame { encoder }
    }
}

} // verus!
