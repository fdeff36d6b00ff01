//! Typed descriptions of GPU resources, pipelines and copy commands.
//!
//! Everything here is computed and checked on the CPU: the shape of each
//! resource, the layout of each binding set, the fixed-function state of each
//! pipeline and the extent of each copy. A thin layer outside this crate hands
//! the descriptions to the GPU driver.

pub mod binding;
pub mod blending;
pub mod buffers;
pub mod canvas;
pub mod color;
pub mod device;
pub mod error;
pub mod format;
pub mod frame;
pub mod geometry;
pub mod pass;
pub mod pipeline;
pub mod readback;
pub mod renderer;
pub mod sampler;
pub mod shader;
pub mod shape;
pub mod texture;
pub mod vertex;
