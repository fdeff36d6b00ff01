//! A pipeline that draws flat-colored shapes: triangles whose vertices carry
//! a position and a color, moved by two matrices.

use vstd::prelude::*;
use vstd::layout::size_of;
use core::marker::PhantomData;
use crate::binding::{Bind, Binding, BindingType, ShaderStages};
use crate::buffers::{BufferUsages, UniformBuffer};
use crate::device::Device;
use crate::format::TextureFormat;
use crate::pipeline::{
    AbstractPipeline,
    BindingSet,
    Pipeline,
    PipelineCore,
    PipelineDescription,
    PipelineLayout,
};
use crate::vertex::VertexFormat;

verus! {

/// The shader of the shape pipeline. A vertex is moved by the transformation
/// and then by the projection; its color is handed through to the fragment.
pub const SHAPE_SHADER: &'static str = "struct Uniforms {
    ortho: mat4x4<f32>,
    transform: mat4x4<f32>,
}

@group(0) @binding(0)
var<uniform> uniforms: Uniforms;

struct VertexOutput {
    @builtin(position) position: vec4<f32>,
    @location(0) color: vec4<f32>,
}

@vertex
fn vs_main(@location(0) position: vec3<f32>, @location(1) color: vec4<f32>) -> VertexOutput {
    var out: VertexOutput;
    out.position = uniforms.ortho * uniforms.transform * vec4<f32>(position, 1.0);
    out.color = color;
    return out;
}

@fragment
fn fs_main(in: VertexOutput) -> @location(0) vec4<f32> {
    return in.color;
}
";

/// A block of shader constants that has a value to start from.
pub trait UniformBlock: Copy {
    /// The block that leaves every vertex where it is.
    fn identity() -> Self;
}

/// Says which shader a shape pipeline runs and what it renders to.
pub trait VertexShaderSource {
    fn shader() -> &'static str;

    fn sampler_format() -> TextureFormat;
}

/// Shapes whose colors are stored in sRGB.
pub struct Srgb;

/// Shapes whose colors are stored as they are.
pub struct Normal;

/// A pipeline for rendering shapes. `T` names the shader and `U` is the
/// block of shader constants.
pub struct LyonPipeline<T, U> {
    pipeline: PipelineCore,
    _phantom: PhantomData<(T, U)>,
}

impl VertexShaderSource for Srgb {
    fn shader() -> (source: &'static str)
        ensures
            source@ == SHAPE_SHADER@,
    {
        SHAPE_SHADER
    }

    fn sampler_format() -> (format: TextureFormat)
        ensures
            format == TextureFormat::Bgra8UnormSrgb,
    {
        TextureFormat::Bgra8UnormSrgb
    }
}

/// The attributes of a shape vertex: a position of three floats and a color
/// of four bytes.
pub open spec fn shape_vertex() -> Seq<VertexFormat> {
    seq![VertexFormat::Floatx3, VertexFormat::UBytex4]
}

/// The one slot of a shape pipeline: the block of shader constants, seen by
/// the vertex stage.
pub open spec fn shape_slot() -> Binding {
    Binding { binding: BindingType::UniformBuffer, stage: ShaderStages::spec_vertex() }
}

impl<T: VertexShaderSource, U: UniformBlock> AbstractPipeline for LyonPipeline<T, U> {
    type PrepareContext = U;

    type Uniforms = U;

    closed spec fn spec_parts(&self) -> PipelineCore {
        self.pipeline
    }

    /// A shape pipeline binds its shader constants to the one slot of the
    /// first set.
    open spec fn suits(layout: PipelineLayout) -> bool {
        layout.sets@.len() >= 1 && layout.sets@[0].size == 1
    }

    open spec fn described_vertex() -> Seq<VertexFormat> {
        shape_vertex()
    }

    open spec fn described_sets() -> Seq<Seq<Binding>> {
        seq![seq![shape_slot()]]
    }

    open spec fn described_shader() -> Seq<char> {
        SHAPE_SHADER@
    }

    fn parts(&self) -> (parts: &PipelineCore) {
        &self.pipeline
    }

    fn description() -> (description: PipelineDescription<'static>) {
        let vertex_layout: &'static [VertexFormat] = &[VertexFormat::Floatx3, VertexFormat::UBytex4];
        let pipeline_layout: &'static [BindingSet<'static>] = &[
            BindingSet(
                &[
                    Binding {
                        binding: BindingType::UniformBuffer,
                        stage: ShaderStages { vertex: true, fragment: false, compute: false },
                    },
                ],
            ),
        ];
        proof {
            assert(vertex_layout@ =~= shape_vertex());
            assert(pipeline_layout@[0].0@ =~= seq![shape_slot()]);
            crate::vertex::lemma_packed_size_bounds(vertex_layout@);
        }
        PipelineDescription { vertex_layout, pipeline_layout, shader: SHAPE_SHADER }
    }

    fn setup(pipeline: Pipeline, dev: &Device) -> (shape: Self)
        ensures
            shape.spec_parts().uniforms.count == 1,
            shape.spec_parts().uniforms.size == size_of::<U>(),
            shape.spec_parts().uniforms.descriptor.size == size_of::<U>(),
            shape.spec_parts().uniforms.descriptor.usage == BufferUsages::spec_uniform(),
            (shape.spec_parts().uniforms.descriptor.label matches Some(label) && label@
                == "Uniform Buffer"@),
            shape.spec_parts().uniforms.wf(),
            shape.spec_parts().bindings.fills(pipeline.layout.sets@[0]),
            shape.spec_parts().bindings.entries@.len() == 1,
            shape.spec_parts().bindings.entries@[0].resource == shape.spec_parts().uniforms.resource(),
    {
        let mut initial: Vec<U> = Vec::new();
        initial.push(U::identity());
        let uniforms = dev.create_uniform_buffer(initial.as_slice());
        let mut resources: Vec<&UniformBuffer> = Vec::new();
        resources.push(&uniforms);
        let bindings = dev.create_binding_group(&pipeline.layout.sets[0], resources.as_slice());
        Self { pipeline: PipelineCore { pipeline, uniforms, bindings }, _phantom: PhantomData }
    }

    /// Every frame gets new shader constants: the block that was handed in.
    open spec fn prepared(&self, context: U) -> Option<(UniformBuffer, Seq<U>)> {
        Some((self.spec_parts().uniforms, seq![context]))
    }

    fn prepare(&self, context: U) -> (prepared: Option<(&UniformBuffer, Vec<U>)>) {
        let mut uniforms: Vec<U> = Vec::new();
        uniforms.push(context);
        assert(uniforms@ =~= seq![context]);
        Some((&self.pipeline.uniforms, uniforms))
    }
}

} // verus!
