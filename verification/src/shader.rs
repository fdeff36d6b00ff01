//! Shader programs.

use vstd::prelude::*;

verus! {

/// A shader module, as the CPU knows it: the text it is compiled from.
#[derive(Clone, Debug, PartialEq, Eq)]
pub struct Shader {
    /// The program in the shading language of the driver.
    pub source: String,
}

} // verus!
