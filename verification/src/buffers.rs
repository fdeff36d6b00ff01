//! Buffers on the GPU: what they may be used for, how large they are and what
//! the CPU remembers of them.

use vstd::prelude::*;
use crate::binding::{Bind, BindGroupEntry, BindingResource};
use crate::format::TextureFormat;
use crate::texture::Texture;

pub mod frame;

verus! {

/// The uses that a buffer is allocated for.
#[derive(Clone, Copy, Debug, PartialEq, Eq, Structural)]
pub struct BufferUsages {
    pub map_read: bool,
    pub map_write: bool,
    pub copy_src: bool,
    pub copy_dst: bool,
    pub index: bool,
    pub vertex: bool,
    pub uniform: bool,
    pub storage: bool,
    pub indirect: bool,
    pub query_resolve: bool,
}

impl BufferUsages {
    /// No use at all.
    pub open spec fn spec_empty() -> BufferUsages {
        BufferUsages {
            map_read: false,
            map_write: false,
            copy_src: false,
            copy_dst: false,
            index: false,
            vertex: false,
            uniform: false,
            storage: false,
            indirect: false,
            query_resolve: false,
        }
    }

    /// The source of a copy, and nothing else.
    pub open spec fn spec_copy_src() -> BufferUsages {
        BufferUsages { copy_src: true, ..Self::spec_empty() }
    }

    /// Vertex data, and nothing else.
    pub open spec fn spec_vertex() -> BufferUsages {
        BufferUsages { vertex: true, ..Self::spec_empty() }
    }

    /// Index data, and nothing else.
    pub open spec fn spec_index() -> BufferUsages {
        BufferUsages { index: true, ..Self::spec_empty() }
    }

    /// Shader constants that can be written again later.
    pub open spec fn spec_uniform() -> BufferUsages {
        BufferUsages { uniform: true, copy_dst: true, ..Self::spec_empty() }
    }

    /// A staging area that receives a copy and is then read by the CPU.
    pub open spec fn spec_readback() -> BufferUsages {
        BufferUsages { map_read: true, copy_dst: true, ..Self::spec_empty() }
    }

    pub fn empty() -> (usage: BufferUsages)
        ensures
            usage == Self::spec_empty(),
    {
        BufferUsages {
            map_read: false,
            map_write: false,
            copy_src: false,
            copy_dst: false,
            index: false,
            vertex: false,
            uniform: false,
            storage: false,
            indirect: false,
            query_resolve: false,
        }
    }

    pub fn copy_src() -> (usage: BufferUsages)
        ensures
            usage == Self::spec_copy_src(),
    {
        let mut usage = Self::empty();
        usage.copy_src = true;
        usage
    }

    pub fn vertex() -> (usage: BufferUsages)
        ensures
            usage == Self::spec_vertex(),
    {
        let mut usage = Self::empty();
        usage.vertex = true;
        usage
    }

    pub fn index() -> (usage: BufferUsages)
        ensures
            usage == Self::spec_index(),
    {
        let mut usage = Self::empty();
        usage.index = true;
        usage
    }

    pub fn uniform() -> (usage: BufferUsages)
        ensures
            usage == Self::spec_uniform(),
    {
        let mut usage = Self::empty();
        usage.uniform = true;
        usage.copy_dst = true;
        usage
    }

    pub fn readback() -> (usage: BufferUsages)
        ensures
            usage == Self::spec_readback(),
    {
        let mut usage = Self::empty();
        usage.map_read = true;
        usage.copy_dst = true;
        usage
    }
}

/// A buffer that is allocated together with its first contents.
#[derive(Clone, Copy, Debug, PartialEq, Eq)]
pub struct BufferInitDescriptor {
    /// A name that shows up in the driver's diagnostics.
    pub label: Option<&'static str>,
    /// The number of bytes of the contents, which is the size of the buffer.
    pub size: usize,
    pub usage: BufferUsages,
}

/// A buffer that is allocated without contents.
#[derive(Clone, Copy, Debug, PartialEq, Eq, Structural)]
pub struct BufferDescriptor {
    /// The size in bytes.
    pub size: u64,
    pub usage: BufferUsages,
    /// Whether the CPU can write to the buffer right after allocation.
    pub mapped_at_creation: bool,
}

/// A write of new contents into a buffer that exists.
#[derive(Clone, Copy, Debug, PartialEq, Eq, Structural)]
pub struct BufferWrite {
    /// Where the write starts, in bytes from the start of the buffer.
    pub offset: u64,
    /// The number of bytes written.
    pub size: usize,
}

/// New contents on their way into a buffer of shader constants.
#[derive(Debug, PartialEq, Eq)]
pub struct UniformWrite<U> {
    /// The buffer that is written.
    pub buffer: UniformBuffer,
    /// Where the new contents go and how many bytes they take.
    pub write: BufferWrite,
    /// The new contents.
    pub uniforms: Vec<U>,
}

/// A buffer of shader constants on the GPU, as the CPU knows it.
#[derive(Clone, Copy, Debug, PartialEq, Eq)]
pub struct UniformBuffer {
    /// The request that the buffer was allocated with.
    pub descriptor: BufferInitDescriptor,
    /// The size of one element in bytes.
    pub size: usize,
    /// The number of elements.
    pub count: usize,
}

/// A buffer of 16-bit vertex indices on the GPU, as the CPU knows it.
#[derive(Clone, Copy, Debug, PartialEq, Eq)]
pub struct IndexBuffer {
    /// The request that the buffer was allocated with.
    pub descriptor: BufferInitDescriptor,
    /// The number of indices.
    pub elements: u32,
}

/// An image that holds nothing but depth.
#[derive(Clone, Copy, Debug, PartialEq, Eq, Structural)]
pub struct DepthBuffer {
    pub texture: Texture,
}

impl IndexBuffer {
    /// The contents are a whole number of 16-bit indices.
    pub open spec fn wf(self) -> bool {
        self.descriptor.size == 2 * self.elements
    }
}

impl UniformBuffer {
    /// The contents are a whole number of elements: the buffer is as large
    /// as its elements together.
    pub open spec fn wf(self) -> bool {
        self.descriptor.size == self.size * self.count
    }
}

impl Bind for UniformBuffer {
    /// The whole buffer from its first byte.
    open spec fn resource(&self) -> BindingResource {
        BindingResource::Buffer { offset: 0, size: None }
    }

    fn binding(&self, index: u32) -> (entry: BindGroupEntry) {
        BindGroupEntry { binding: index, resource: BindingResource::Buffer { offset: 0, size: None } }
    }
}

impl DepthBuffer {
    /// The one format that every depth buffer has.
    pub const FORMAT: TextureFormat = TextureFormat::Depth32Float;

    /// The image has the depth format and agrees with itself.
    pub open spec fn wf(self) -> bool {
        &&& self.texture.wf()
        &&& self.texture.format == Self::FORMAT
    }
}

/// What a buffer holds after `payload` has been written into it from the
/// byte `offset` on, where the buffer held `held` before. A write that does
/// not fit into the buffer leaves it as it was.
pub open spec fn overwritten(held: Seq<u8>, offset: nat, payload: Seq<u8>) -> Seq<u8> {
    if offset + payload.len() <= held.len() {
        held.take(offset as int) + payload + held.skip((offset + payload.len()) as int)
    } else {
        held
    }
}

/// A write that is as long as the buffer and starts at its first byte leaves
/// exactly the payload in the buffer, whatever the buffer held.
pub proof fn lemma_write_replaces(held: Seq<u8>, payload: Seq<u8>)
    requires
        payload.len() == held.len(),
    ensures
        overwritten(held, 0, payload) == payload,
{
    assert(overwritten(held, 0, payload) =~= payload);
}

/// Shader constants that are written whole read back as they were written:
/// a payload of the size that a buffer of shader constants was made with,
/// written from the start, is all that the buffer holds afterwards.
pub proof fn lemma_uniform_round_trip(buffer: UniformBuffer, held: Seq<u8>, payload: Seq<u8>)
    requires
        buffer.wf(),
        held.len() == buffer.descriptor.size,
        payload.len() == buffer.size * buffer.count,
    ensures
        overwritten(held, 0, payload) == payload,
{
    lemma_write_replaces(held, payload);
}

/// Writing the same payload to the same place twice leaves what writing it
/// once leaves: the last write wins and nothing adds up.
pub proof fn lemma_write_idempotent(held: Seq<u8>, offset: nat, payload: Seq<u8>)
    ensures
        overwritten(overwritten(held, offset, payload), offset, payload) == overwritten(
            held,
            offset,
            payload,
        ),
{
    assert(overwritten(overwritten(held, offset, payload), offset, payload) =~= overwritten(
        held,
        offset,
        payload,
    ));
}

/// Of two writes to the same place and of the same length only the second
/// shows: what the first wrote is gone.
pub proof fn lemma_last_write_wins(held: Seq<u8>, offset: nat, first: Seq<u8>, second: Seq<u8>)
    requires
        first.len() == second.len(),
    ensures
        overwritten(overwritten(held, offset, first), offset, second) == overwritten(
            held,
            offset,
            second,
        ),
{
    assert(overwritten(overwritten(held, offset, first), offset, second) =~= overwritten(
        held,
        offset,
        second,
    ));
}

} // verus!
