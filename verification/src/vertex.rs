//! The layout of the vertices that a pipeline reads.

use vstd::prelude::*;
use crate::buffers::{BufferInitDescriptor, BufferUsages};

verus! {

/// The type of one vertex attribute.
#[derive(Clone, Copy, Debug, PartialEq, Eq, Structural)]
pub enum VertexFormat {
    /// One 32-bit float.
    Float,
    /// Two 32-bit floats.
    Floatx2,
    /// Three 32-bit floats.
    Floatx3,
    /// Four 32-bit floats.
    Floatx4,
    /// Four unsigned bytes, read as values between 0 and 1.
    UBytex4,
}

/// Whether a vertex buffer advances with each vertex or with each instance.
#[derive(Clone, Copy, Debug, PartialEq, Eq, Structural)]
pub enum VertexStepMode {
    Vertex,
    Instance,
}

/// One attribute of a vertex: where it lies in the vertex and where the
/// shader receives it.
#[derive(Clone, Copy, Debug, PartialEq, Eq, Structural)]
pub struct VertexAttribute {
    pub shader_location: u32,
    /// The distance in bytes from the start of the vertex.
    pub offset: u64,
    pub format: VertexFormat,
}

/// The attributes of a vertex, packed one after the other.
#[derive(Clone, Debug)]
pub struct VertexLayout {
    attributes: Vec<VertexAttribute>,
    size: usize,
}

/// The layout of a vertex buffer as the driver takes it.
#[derive(Clone, Debug, PartialEq, Eq)]
pub struct VertexBufferLayout {
    /// The distance in bytes from one vertex to the next.
    pub array_stride: u64,
    pub step_mode: VertexStepMode,
    pub attributes: Vec<VertexAttribute>,
}

/// A buffer of vertices on the GPU, as the CPU knows it.
#[derive(Clone, Copy, Debug, PartialEq, Eq)]
pub struct VertexBuffer {
    /// The request that the buffer was allocated with.
    pub descriptor: BufferInitDescriptor,
    /// The size of the contents in bytes.
    pub size: u32,
}

impl VertexBuffer {
    /// The remembered size is the size of the contents.
    pub open spec fn wf(self) -> bool {
        self.descriptor.size == self.size
    }
}

impl VertexFormat {
    /// The number of bytes that an attribute of this type takes.
    pub open spec fn spec_bytesize(self) -> nat {
        match self {
            VertexFormat::Float => 4,
            VertexFormat::Floatx2 => 8,
            VertexFormat::Floatx3 => 12,
            VertexFormat::Floatx4 => 16,
            VertexFormat::UBytex4 => 4,
        }
    }

    /// The number of bytes that an attribute of this type takes.
    pub fn bytesize(self) -> (bytes: usize)
        ensures
            bytes == self.spec_bytesize(),
    {
        match self {
            VertexFormat::Float => 4,
            VertexFormat::Floatx2 => 8,
            VertexFormat::Floatx3 => 12,
            VertexFormat::Floatx4 => 16,
            VertexFormat::UBytex4 => 4,
        }
    }
}

/// The number of bytes that attributes of the given types take when they are
/// packed one after the other.
pub open spec fn packed_size(formats: Seq<VertexFormat>) -> nat
    decreases formats.len(),
{
    if formats.len() == 0 {
        0
    } else {
        packed_size(formats.drop_last()) + formats.last().spec_bytesize()
    }
}

/// The attributes of a packed vertex: the attribute at position `i` has the
/// type `formats[i]`, goes to shader location `i` and starts where the
/// attributes before it end.
pub open spec fn packed_attributes(formats: Seq<VertexFormat>) -> Seq<VertexAttribute> {
    Seq::new(
        formats.len(),
        |i: int|
            VertexAttribute {
                shader_location: i as u32,
                offset: packed_size(formats.take(i)) as u64,
                format: formats[i],
            },
    )
}

/// Whether no two of the attributes overlap and all of them lie inside a
/// vertex of `size` bytes: each starts at or after the end of the one before
/// it, and shader locations count up from zero.
pub open spec fn attributes_disjoint(attributes: Seq<VertexAttribute>, size: nat) -> bool {
    &&& forall|i: int|
        0 <= i < attributes.len() ==> (#[trigger] attributes[i]).shader_location == i
    &&& forall|i: int|
        0 <= i < attributes.len() ==> (#[trigger] attributes[i]).offset
            + attributes[i].format.spec_bytesize() <= size
    &&& forall|i: int, j: int|
        0 <= i < j < attributes.len() ==> (#[trigger] attributes[i]).offset
            + attributes[i].format.spec_bytesize() <= (#[trigger] attributes[j]).offset
}

/// Adding one attribute to the end adds its size.
pub proof fn lemma_packed_size_step(formats: Seq<VertexFormat>, i: int)
    requires
        0 <= i < formats.len(),
    ensures
        packed_size(formats.take(i + 1)) == packed_size(formats.take(i)) + formats[i].spec_bytesize(),
{
    assert(formats.take(i + 1).drop_last() =~= formats.take(i));
}

/// Every attribute takes between 4 and 16 bytes, so a packed vertex takes
/// between 4 and 16 bytes for each of its attributes.
pub proof fn lemma_packed_size_bounds(formats: Seq<VertexFormat>)
    ensures
        4 * formats.len() <= packed_size(formats) <= 16 * formats.len(),
    decreases formats.len(),
{
    if formats.len() > 0 {
        lemma_packed_size_bounds(formats.drop_last());
    }
}

/// A longer prefix of the attributes takes at least as many bytes, and more
/// if it is strictly longer.
pub proof fn lemma_packed_size_monotone(formats: Seq<VertexFormat>, i: int, j: int)
    requires
        0 <= i <= j <= formats.len(),
    ensures
        packed_size(formats.take(i)) <= packed_size(formats.take(j)),
        i < j ==> packed_size(formats.take(i)) + formats[i].spec_bytesize() <= packed_size(
            formats.take(j),
        ),
    decreases j - i,
{
    if i < j {
        lemma_packed_size_step(formats, j - 1);
        lemma_packed_size_monotone(formats, i, j - 1);
        if i == j - 1 {
        }
    }
}

/// Packed attributes never overlap: their offsets grow strictly with their
/// position and the last one ends where the vertex ends.
pub proof fn lemma_packed_disjoint(formats: Seq<VertexFormat>)
    requires
        formats.len() <= u32::MAX,
        packed_size(formats) <= u64::MAX,
    ensures
        attributes_disjoint(packed_attributes(formats), packed_size(formats)),
        forall|i: int, j: int|
            0 <= i < j < formats.len() ==> (#[trigger] packed_attributes(formats)[i]).offset
                < (#[trigger] packed_attributes(formats)[j]).offset,
{
    let attributes = packed_attributes(formats);
    assert(formats.take(formats.len() as int) =~= formats);
    assert forall|i: int| 0 <= i < attributes.len() implies (#[trigger] attributes[i]).offset
        + attributes[i].format.spec_bytesize() <= packed_size(formats) by {
        lemma_packed_size_monotone(formats, i, formats.len() as int);
    }
    assert forall|i: int, j: int| 0 <= i < j < attributes.len() implies (#[trigger] attributes[i]).offset
        + attributes[i].format.spec_bytesize() <= (#[trigger] attributes[j]).offset by {
        lemma_packed_size_monotone(formats, i, j);
        lemma_packed_size_monotone(formats, j, formats.len() as int);
    }
}

impl VertexLayout {
    /// The attributes in the order of their shader locations.
    pub closed spec fn spec_attributes(self) -> Seq<VertexAttribute> {
        self.attributes@
    }

    /// The size of one vertex in bytes.
    pub closed spec fn spec_size(self) -> nat {
        self.size as nat
    }

    /// The attributes do not overlap and lie inside the vertex.
    pub open spec fn wf(self) -> bool {
        attributes_disjoint(self.spec_attributes(), self.spec_size())
    }

    /// Packs attributes of the given types one after the other, in the order
    /// given. The vertex is as large as its attributes together.
    pub fn from(vertex_formats: &[VertexFormat]) -> (layout: Self)
        requires
            vertex_formats@.len() <= u32::MAX,
            packed_size(vertex_formats@) <= usize::MAX,
        ensures
            layout.spec_attributes() == packed_attributes(vertex_formats@),
            layout.spec_size() == packed_size(vertex_formats@),
            layout.wf(),
    {
        let mut layout = VertexLayout { attributes: Vec::new(), size: 0 };
        let mut i: usize = 0;
        while i < vertex_formats.len()
            invariant
                i <= vertex_formats@.len() <= u32::MAX,
                packed_size(vertex_formats@) <= usize::MAX,
                layout.attributes@.len() == i,
                layout.size == packed_size(vertex_formats@.take(i as int)),
                forall|j: int|
                    0 <= j < i ==> layout.attributes@[j] == packed_attributes(vertex_formats@)[j],
            decreases vertex_formats@.len() - i,
        {
            let format = vertex_formats[i];
            proof {
                lemma_packed_size_step(vertex_formats@, i as int);
                lemma_packed_size_monotone(
                    vertex_formats@,
                    i as int + 1,
                    vertex_formats@.len() as int,
                );
                assert(vertex_formats@.take(vertex_formats@.len() as int) =~= vertex_formats@);
            }
            layout.attributes.push(
                VertexAttribute {
                    shader_location: layout.attributes.len() as u32,
                    offset: layout.size as u64,
                    format,
                },
            );
            layout.size += format.bytesize();
            i += 1;
        }
        proof {
            assert(vertex_formats@.take(vertex_formats@.len() as int) =~= vertex_formats@);
            assert(layout.attributes@ =~= packed_attributes(vertex_formats@));
            lemma_packed_disjoint(vertex_formats@);
        }
        layout
    }

    /// The size of one vertex in bytes.
    pub fn size(&self) -> (size: usize)
        ensures
            size == self.spec_size(),
    {
        self.size
    }

    /// The attributes in the order of their shader locations.
    pub fn attributes(&self) -> (attributes: &Vec<VertexAttribute>)
        ensures
            attributes@ == self.spec_attributes(),
    {
        &self.attributes
    }
}

impl Default for VertexLayout {
    /// The layout of a vertex without attributes.
    fn default() -> (layout: Self)
        ensures
            layout.spec_attributes() == Seq::<VertexAttribute>::empty(),
            layout.spec_size() == 0,
            layout.wf(),
    {
        VertexLayout { attributes: Vec::new(), size: 0 }
    }
}

impl VertexBufferLayout {
    /// Describes a buffer that holds one vertex of the given layout after the
    /// other and advances with each vertex.
    pub fn from(layout: &VertexLayout) -> (buffer_layout: Self)
        ensures
            buffer_layout.array_stride == layout.spec_size(),
            buffer_layout.step_mode == VertexStepMode::Vertex,
            buffer_layout.attributes@ == layout.spec_attributes(),
    {
        let mut attributes: Vec<VertexAttribute> = Vec::new();
        let mut i: usize = 0;
        while i < layout.attributes.len()
            invariant
                i <= layout.attributes@.len(),
                attributes@ == layout.attributes@.take(i as int),
            decreases layout.attributes@.len() - i,
        {
            attributes.push(layout.attributes[i]);
            assert(layout.attributes@.take(i as int + 1) =~= layout.attributes@.take(i as int).push(
                layout.attributes@[i as int],
            ));
            i += 1;
        }
        assert(layout.attributes@.take(i as int) =~= layout.attributes@);
        VertexBufferLayout {
            array_stride: layout.size as u64,
            step_mode: VertexStepMode::Vertex,
            attributes,
        }
    }
}

} // verus!
