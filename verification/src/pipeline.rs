//! Render pipelines: the state that the driver compiles them from, the sets
//! of bindings they expect and the contract between a pipeline and the
//! renderer that drives it.

use vstd::prelude::*;
use crate::binding::{Binding, BindingGroup, BindingGroupLayout, compiled_slots};
use crate::blending::{BlendState, Blending};
use crate::buffers::UniformBuffer;
use crate::device::Device;
use crate::format::TextureFormat;
use crate::shader::Shader;
use crate::error::ContractError;
use crate::vertex::{
    VertexBufferLayout,
    VertexFormat,
    VertexLayout,
    VertexStepMode,
    lemma_packed_size_monotone,
    lemma_packed_size_step,
    packed_size,
};

verus! {

/// How vertices are joined to primitives.
#[derive(Clone, Copy, Debug, PartialEq, Eq, Structural)]
pub enum PrimitiveTopology {
    PointList,
    LineList,
    LineStrip,
    TriangleList,
    TriangleStrip,
}

/// The winding order of the vertices of a front face.
#[derive(Clone, Copy, Debug, PartialEq, Eq, Structural)]
pub enum FrontFace {
    Ccw,
    Cw,
}

/// A side of a primitive.
#[derive(Clone, Copy, Debug, PartialEq, Eq, Structural)]
pub enum Face {
    Front,
    Back,
}

/// How the inside of a polygon is drawn.
#[derive(Clone, Copy, Debug, PartialEq, Eq, Structural)]
pub enum PolygonMode {
    Fill,
    Line,
    Point,
}

/// The width of a vertex index.
#[derive(Clone, Copy, Debug, PartialEq, Eq, Structural)]
pub enum IndexFormat {
    Uint16,
    Uint32,
}

/// A comparison between a new value and the value in the target.
#[derive(Clone, Copy, Debug, PartialEq, Eq, Structural)]
pub enum CompareFunction {
    Never,
    Less,
    Equal,
    LessEqual,
    Greater,
    NotEqual,
    GreaterEqual,
    Always,
}

/// What happens to a stencil value.
#[derive(Clone, Copy, Debug, PartialEq, Eq, Structural)]
pub enum StencilOperation {
    Keep,
    Zero,
    Replace,
    Invert,
    IncrementClamp,
    DecrementClamp,
    IncrementWrap,
    DecrementWrap,
}

/// How primitives are assembled and rasterized.
#[derive(Clone, Copy, Debug, PartialEq, Eq)]
pub struct PrimitiveState {
    pub topology: PrimitiveTopology,
    pub strip_index_format: Option<IndexFormat>,
    pub front_face: FrontFace,
    pub cull_mode: Option<Face>,
    pub polygon_mode: PolygonMode,
    pub unclipped_depth: bool,
    pub conservative: bool,
}

/// The stencil test of one side of a primitive.
#[derive(Clone, Copy, Debug, PartialEq, Eq, Structural)]
pub struct StencilFaceState {
    pub compare: CompareFunction,
    pub fail_op: StencilOperation,
    pub depth_fail_op: StencilOperation,
    pub pass_op: StencilOperation,
}

/// The stencil test of both sides.
#[derive(Clone, Copy, Debug, PartialEq, Eq, Structural)]
pub struct StencilState {
    pub front: StencilFaceState,
    pub back: StencilFaceState,
    pub read_mask: u32,
    pub write_mask: u32,
}

/// What is added to the depth of a fragment, in whole units.
#[derive(Clone, Copy, Debug, PartialEq, Eq, Structural)]
pub struct DepthBiasState {
    pub constant: i32,
    pub slope_scale: i32,
    pub clamp: i32,
}

/// The depth and stencil tests of a pipeline.
#[derive(Clone, Copy, Debug, PartialEq, Eq, Structural)]
pub struct DepthStencilState {
    pub format: TextureFormat,
    pub depth_write_enabled: bool,
    pub depth_compare: CompareFunction,
    pub stencil: StencilState,
    pub bias: DepthBiasState,
}

/// How many samples a pipeline writes for each pixel.
#[derive(Clone, Copy, Debug, PartialEq, Eq, Structural)]
pub struct MultisampleState {
    pub count: u32,
    /// One bit for each sample that is written.
    pub mask: u64,
    pub alpha_to_coverage_enabled: bool,
}

/// The channels of a color target that a pipeline writes.
#[derive(Clone, Copy, Debug, PartialEq, Eq, Structural)]
pub struct ColorWrites {
    pub red: bool,
    pub green: bool,
    pub blue: bool,
    pub alpha: bool,
}

/// One color target of a pipeline.
#[derive(Clone, Copy, Debug, PartialEq, Eq)]
pub struct ColorTargetState {
    pub format: TextureFormat,
    pub blend: Option<BlendState>,
    pub write_mask: ColorWrites,
}

/// The vertex stage of a pipeline.
#[derive(Clone, Debug, PartialEq, Eq)]
pub struct VertexState {
    /// The shader that the stage runs.
    pub module: Shader,
    /// The name of the function in the shader that the stage starts at.
    pub entry_point: &'static str,
    pub buffers: Vec<VertexBufferLayout>,
}

/// The fragment stage of a pipeline.
#[derive(Clone, Debug, PartialEq, Eq)]
pub struct FragmentState {
    /// The shader that the stage runs.
    pub module: Shader,
    /// The name of the function in the shader that the stage starts at.
    pub entry_point: &'static str,
    pub targets: Vec<Option<ColorTargetState>>,
}

/// What the driver is asked for when a render pipeline is compiled.
#[derive(Clone, Debug, PartialEq, Eq)]
pub struct RenderPipelineDescriptor {
    /// The set index of each binding set that the pipeline expects, in the
    /// order of the sets.
    pub bind_group_layouts: Vec<u32>,
    pub vertex: VertexState,
    pub primitive: PrimitiveState,
    pub depth_stencil: Option<DepthStencilState>,
    pub multisample: MultisampleState,
    pub fragment: Option<FragmentState>,
    /// The number of views that are rendered to at once, if more than one.
    pub multiview: Option<u32>,
}

/// A compiled render pipeline, as the CPU knows it.
#[derive(Clone, Debug)]
pub struct Pipeline {
    /// The request that the pipeline was compiled from.
    pub descriptor: RenderPipelineDescriptor,
    pub layout: PipelineLayout,
    pub vertex_layout: VertexLayout,
}

/// The declarations of the slots of one binding set.
#[derive(Debug)]
pub struct BindingSet<'a>(pub &'a [Binding]);

/// The layouts of the binding sets of a pipeline, in the order of the sets.
#[derive(Clone, Debug)]
pub struct PipelineLayout {
    pub sets: Vec<BindingGroupLayout>,
}

/// What every usable pipeline consists of: the compiled pipeline, the group
/// of resources bound to it and its buffer of shader constants.
#[derive(Debug)]
pub struct PipelineCore {
    pub pipeline: Pipeline,
    pub bindings: BindingGroup,
    pub uniforms: UniformBuffer,
}

/// The static description of a pipeline: the types of its vertex attributes,
/// the declarations of its binding sets and the text of its shader.
#[derive(Debug)]
pub struct PipelineDescription<'a> {
    pub vertex_layout: &'a [VertexFormat],
    pub pipeline_layout: &'a [BindingSet<'a>],
    pub shader: &'static str,
}

/// A kind of pipeline that the renderer can build and drive.
pub trait AbstractPipeline: Sized {
    /// What `prepare` needs to know about the frame that is about to be
    /// drawn.
    type PrepareContext;

    /// The block of shader constants of the pipeline.
    type Uniforms: Copy;

    /// The parts that every pipeline has.
    spec fn spec_parts(&self) -> PipelineCore;

    /// The parts that every pipeline has.
    fn parts(&self) -> (parts: &PipelineCore)
        ensures
            *parts == self.spec_parts(),
    ;

    /// Whether the pipeline can be set up on binding sets of this layout.
    spec fn suits(layout: PipelineLayout) -> bool;

    /// The types of the vertex attributes that the pipeline reads, in the
    /// order of their shader locations.
    spec fn described_vertex() -> Seq<VertexFormat>;

    /// The declarations of the slots of each binding set of the pipeline, in
    /// the order of the sets.
    spec fn described_sets() -> Seq<Seq<Binding>>;

    /// The text of the shader of the pipeline.
    spec fn described_shader() -> Seq<char>;

    /// The static description that the pipeline is compiled from: its vertex
    /// attributes, its binding sets and its shader. It is small enough to be
    /// compiled, and the layout that its binding sets compile to is one that
    /// the pipeline can be set up on.
    fn description() -> (description: PipelineDescription<'static>)
        ensures
            description.wf(),
            description.describes(
                Self::described_vertex(),
                Self::described_sets(),
                Self::described_shader(),
            ),
            forall|layout: PipelineLayout| #[trigger]
                layout.compiles(description.pipeline_layout@) ==> Self::suits(layout),
    ;

    /// Builds the pipeline around its compiled form: allocates its shader
    /// constants and binds its resources.
    fn setup(pip: Pipeline, dev: &Device) -> (pipeline: Self)
        requires
            Self::suits(pip.layout),
        ensures
            pipeline.spec_parts().pipeline == pip,
    ;

    /// The buffer of shader constants that the pipeline writes for a frame
    /// and its new contents, or nothing if the contents stay as they are.
    /// They depend on the pipeline and on the frame and on nothing else.
    spec fn prepared(&self, context: Self::PrepareContext) -> Option<
        (UniformBuffer, Seq<Self::Uniforms>),
    >;

    /// Called once for each frame before anything is drawn with the
    /// pipeline. Gives the buffer of shader constants and its new contents,
    /// or nothing if the contents stay as they are.
    fn prepare(
        &self,
        context: Self::PrepareContext,
    ) -> (prepared: Option<(&UniformBuffer, Vec<Self::Uniforms>)>)
        ensures
            prepared is None <==> self.prepared(context) is None,
            prepared matches Some(pair) ==> self.prepared(context) == Some((*pair.0, pair.1@)),
    ;
}

impl StencilFaceState {
    /// The test that always passes and keeps every stencil value.
    pub open spec fn spec_ignore() -> StencilFaceState {
        StencilFaceState {
            compare: CompareFunction::Always,
            fail_op: StencilOperation::Keep,
            depth_fail_op: StencilOperation::Keep,
            pass_op: StencilOperation::Keep,
        }
    }

    pub fn ignore() -> (face: StencilFaceState)
        ensures
            face == Self::spec_ignore(),
    {
        StencilFaceState {
            compare: CompareFunction::Always,
            fail_op: StencilOperation::Keep,
            depth_fail_op: StencilOperation::Keep,
            pass_op: StencilOperation::Keep,
        }
    }
}

impl ColorWrites {
    /// Every channel.
    pub open spec fn spec_all() -> ColorWrites {
        ColorWrites { red: true, green: true, blue: true, alpha: true }
    }
}

impl MultisampleState {
    /// Every sample of `count` samples is written, and alpha does not thin
    /// them out.
    pub open spec fn every_sample(count: u32) -> MultisampleState {
        MultisampleState { count, mask: u64::MAX, alpha_to_coverage_enabled: false }
    }
}

impl<'a> PipelineDescription<'a> {
    /// The description is small enough for every index and every size in it
    /// to be held in the integers of the driver.
    pub open spec fn wf(self) -> bool {
        &&& self.vertex_layout@.len() <= u32::MAX
        &&& packed_size(self.vertex_layout@) <= usize::MAX
        &&& self.pipeline_layout@.len() <= u32::MAX
        &&& forall|i: int|
            0 <= i < self.pipeline_layout@.len() ==> (#[trigger] self.pipeline_layout@[i]).0@.len()
                <= u32::MAX
    }

    /// Whether the description names these vertex attributes, these binding
    /// sets and this shader text.
    pub open spec fn describes(
        self,
        vertex: Seq<VertexFormat>,
        sets: Seq<Seq<Binding>>,
        shader: Seq<char>,
    ) -> bool {
        &&& self.vertex_layout@ == vertex
        &&& self.pipeline_layout@.len() == sets.len()
        &&& forall|i: int|
            0 <= i < self.pipeline_layout@.len() ==> (#[trigger] self.pipeline_layout@[i]).0@
                == sets[i]
        &&& self.shader@ == shader
    }

    /// Decides whether the description is small enough to be compiled.
    pub fn check(&self) -> (checked: Result<(), ContractError>)
        ensures
            checked is Ok <==> self.wf(),
            checked is Err ==> checked == Err::<(), ContractError>(ContractError::Arithmetic),
    {
        if self.vertex_layout.len() > u32::MAX as usize || self.pipeline_layout.len()
            > u32::MAX as usize {
            return Err(ContractError::Arithmetic);
        }
        let mut size: usize = 0;
        let mut i: usize = 0;
        while i < self.vertex_layout.len()
            invariant
                i <= self.vertex_layout@.len(),
                size == packed_size(self.vertex_layout@.take(i as int)),
            decreases self.vertex_layout@.len() - i,
        {
            proof {
                lemma_packed_size_step(self.vertex_layout@, i as int);
                lemma_packed_size_monotone(
                    self.vertex_layout@,
                    i as int + 1,
                    self.vertex_layout@.len() as int,
                );
                assert(self.vertex_layout@.take(self.vertex_layout@.len() as int)
                    =~= self.vertex_layout@);
            }
            match size.checked_add(self.vertex_layout[i].bytesize()) {
                Some(sum) => {
                    size = sum;
                },
                None => {
                    return Err(ContractError::Arithmetic);
                },
            }
            i += 1;
        }
        assert(self.vertex_layout@.take(self.vertex_layout@.len() as int) =~= self.vertex_layout@);
        let mut k: usize = 0;
        while k < self.pipeline_layout.len()
            invariant
                k <= self.pipeline_layout@.len(),
                forall|j: int|
                    0 <= j < k ==> (#[trigger] self.pipeline_layout@[j]).0@.len() <= u32::MAX,
            decreases self.pipeline_layout@.len() - k,
        {
            if self.pipeline_layout[k].0.len() > u32::MAX as usize {
                return Err(ContractError::Arithmetic);
            }
            k += 1;
        }
        Ok(())
    }
}

impl PipelineLayout {
    /// Each layout agrees with itself and stands at the position that its set
    /// index names.
    pub open spec fn wf(self) -> bool {
        &&& self.sets@.len() <= u32::MAX
        &&& forall|i: int|
            0 <= i < self.sets@.len() ==> (#[trigger] self.sets@[i]).set_index == i && self.sets@[i].wf()
    }

    /// Whether the layout has one set for each list of declarations, in
    /// their order, and each set has the slots that its declarations compile
    /// to.
    pub open spec fn compiled_of(self, declared: Seq<Seq<Binding>>) -> bool {
        &&& self.wf()
        &&& self.sets@.len() == declared.len()
        &&& forall|i: int|
            0 <= i < declared.len() ==> (#[trigger] self.sets@[i]).entries@ == compiled_slots(
                declared[i],
            ) && self.sets@[i].size == declared[i].len()
    }

    /// Whether the layout is what the declared binding sets compile to: one
    /// layout for each set, in the order of the sets, with one slot for each
    /// declaration, in the order of the declarations.
    pub open spec fn compiles(self, declared: Seq<BindingSet>) -> bool {
        &&& self.wf()
        &&& self.sets@.len() == declared.len()
        &&& forall|i: int|
            0 <= i < declared.len() ==> (#[trigger] self.sets@[i]).entries@ == compiled_slots(
                declared[i].0@,
            ) && self.sets@[i].size == declared[i].0@.len()
    }
}

impl Pipeline {
    /// Whether the request of the pipeline is the one that is made for the
    /// given layouts, shader, blend equation, target format and sample
    /// settings. Both stages run the same shader. The
    /// choices that are the same for every pipeline are spelled out here:
    /// triangle lists with counter-clockwise front faces, nothing culled,
    /// filled polygons; a depth test that passes on less or equal and writes
    /// depth; no stencil test and no depth bias; one color target that takes
    /// every channel and blends color and alpha by the same equation; the
    /// shader entered at `vs_main` and `fs_main`.
    pub open spec fn compiled_from(
        self,
        sets: Seq<BindingGroupLayout>,
        attributes: Seq<crate::vertex::VertexAttribute>,
        stride: nat,
        shader: Seq<char>,
        blending: Blending,
        format: TextureFormat,
        multisample: MultisampleState,
    ) -> bool {
        let d = self.descriptor;
        &&& d.bind_group_layouts@.len() == sets.len()
        &&& forall|i: int|
            0 <= i < sets.len() ==> #[trigger] d.bind_group_layouts@[i] == sets[i].set_index
        &&& d.vertex.module.source@ == shader
        &&& d.vertex.entry_point@ == "vs_main"@
        &&& d.vertex.buffers@.len() == 1
        &&& d.vertex.buffers@[0].array_stride == stride
        &&& d.vertex.buffers@[0].step_mode == VertexStepMode::Vertex
        &&& d.vertex.buffers@[0].attributes@ == attributes
        &&& d.primitive == (PrimitiveState {
            topology: PrimitiveTopology::TriangleList,
            strip_index_format: None,
            front_face: FrontFace::Ccw,
            cull_mode: None,
            polygon_mode: PolygonMode::Fill,
            unclipped_depth: false,
            conservative: false,
        })
        &&& d.depth_stencil == Some(
            DepthStencilState {
                format: crate::buffers::DepthBuffer::FORMAT,
                depth_write_enabled: true,
                depth_compare: CompareFunction::LessEqual,
                stencil: StencilState {
                    front: StencilFaceState::spec_ignore(),
                    back: StencilFaceState::spec_ignore(),
                    read_mask: 0,
                    write_mask: 0,
                },
                bias: DepthBiasState { constant: 0, slope_scale: 0, clamp: 0 },
            },
        )
        &&& d.multisample == multisample
        &&& d.multiview == None::<u32>
        &&& d.fragment matches Some(fragment)
        &&& fragment.module.source@ == shader
        &&& fragment.entry_point@ == "fs_main"@
        &&& fragment.targets@.len() == 1
        &&& fragment.targets@[0] == Some(
            ColorTargetState {
                format,
                blend: Some(BlendState::spec_from(blending)),
                write_mask: ColorWrites::spec_all(),
            },
        )
    }
}

} // verus!
