//! Render passes: what they render to and what is recorded into them.

use vstd::prelude::*;
use core::ops::Range;
use crate::binding::BindingGroup;
use crate::buffers::IndexBuffer;
use crate::pipeline::{AbstractPipeline, IndexFormat};
use crate::texture::TextureView;
use crate::vertex::VertexBuffer;

verus! {

/// What a render pass does to its color target before it draws.
#[derive(Debug)]
pub enum PassOp<C> {
    /// Fill the target with one color.
    Clear(C),
    /// Keep what the target holds.
    Load(),
}

/// What happens to an attachment when a pass begins.
#[derive(Clone, Copy, Debug, PartialEq, Eq)]
pub enum LoadOp<V> {
    Clear(V),
    Load,
}

/// What happens to an attachment when a pass ends.
#[derive(Clone, Copy, Debug, PartialEq, Eq, Structural)]
pub enum StoreOp {
    Store,
    Discard,
}

/// What happens to an attachment at both ends of a pass.
#[derive(Clone, Copy, Debug, PartialEq, Eq)]
pub struct Operations<V> {
    pub load: LoadOp<V>,
    pub store: StoreOp,
}

/// The color target of a pass.
#[derive(Clone, Copy, Debug, PartialEq, Eq)]
pub struct RenderPassColorAttachment<C> {
    pub view: TextureView,
    /// Where the samples of a multisampled target are resolved to.
    pub resolve_target: Option<TextureView>,
    pub ops: Operations<C>,
}

/// The depth and stencil target of a pass. Depth is given in whole units.
#[derive(Clone, Copy, Debug, PartialEq, Eq)]
pub struct RenderPassDepthStencilAttachment {
    pub view: TextureView,
    pub depth_ops: Option<Operations<u32>>,
    pub stencil_ops: Option<Operations<u32>>,
}

/// What the driver is asked for when a render pass begins.
#[derive(Clone, Copy, Debug, PartialEq, Eq)]
pub struct RenderPassDescriptor<C> {
    pub color_attachment: RenderPassColorAttachment<C>,
    pub depth_stencil_attachment: RenderPassDepthStencilAttachment,
}

/// One command that is recorded into a render pass.
#[derive(Debug, PartialEq, Eq)]
pub enum PassCommand {
    /// Use the pipeline that was named.
    SetPipeline,
    /// Bind the group that was named to the set `index`.
    SetBindGroup { index: u32, offsets: Vec<u32> },
    /// Read indices of the given width from the whole of the buffer that was
    /// named.
    SetIndexBuffer { format: IndexFormat },
    /// Read the vertices of input `slot` from the whole of the buffer that
    /// was named.
    SetVertexBuffer { slot: u32 },
    Draw { vertices: Range<u32>, instances: Range<u32> },
    DrawIndexed { indices: Range<u32>, base_vertex: i32, instances: Range<u32> },
}

/// A render pass that is being recorded.
#[derive(Debug)]
pub struct RenderPass<C> {
    pub descriptor: RenderPassDescriptor<C>,
    /// The commands recorded so far, in the order in which they will run.
    pub commands: Vec<PassCommand>,
}

/// Something that can record the commands that draw it.
pub trait Draw {
    /// Whether `commands` are what draws `self` with the resources of
    /// `binding`. A drawable that does not say what draws it is drawn by
    /// whatever it records.
    open spec fn drawn_by(&self, binding: &BindingGroup, commands: Seq<PassCommand>) -> bool {
        true
    }

    /// Records the commands that draw `self` with the resources of
    /// `binding`. A pass only grows: what was recorded before stays as it
    /// was, and what is recorded behind it is what draws `self`.
    fn draw<C: Copy>(&self, binding: &BindingGroup, pass: &mut RenderPass<C>)
        ensures
            final(pass).descriptor == old(pass).descriptor,
            old(pass).commands@.is_prefix_of(final(pass).commands@),
            self.drawn_by(binding, added(old(pass).commands@, final(pass).commands@)),
    ;
}

/// The commands of `after` that stand behind those of `before`.
pub open spec fn added(before: Seq<PassCommand>, after: Seq<PassCommand>) -> Seq<PassCommand> {
    after.skip(before.len() as int)
}

impl<C> PassOp<C> {
    /// The load operation that the pass operation stands for.
    pub open spec fn spec_to_wgpu(self) -> LoadOp<C> {
        match self {
            PassOp::Clear(color) => LoadOp::Clear(color),
            PassOp::Load() => LoadOp::Load,
        }
    }
}

impl<C: Copy> PassOp<C> {
    /// The load operation that the pass operation stands for.
    pub fn to_wgpu(&self) -> (load: LoadOp<C>)
        ensures
            load == self.spec_to_wgpu(),
    {
        match self {
            PassOp::Clear(color) => LoadOp::Clear(*color),
            PassOp::Load() => LoadOp::Load,
        }
    }
}

/// Whether `after` is `before` with exactly `added` commands recorded behind
/// it.
pub open spec fn extends(after: Seq<PassCommand>, before: Seq<PassCommand>, added: nat) -> bool {
    &&& after.len() == before.len() + added
    &&& after.take(before.len() as int) == before
}

/// Whether `command` binds a group to the set `index` with the given dynamic
/// offsets.
pub open spec fn binds(command: PassCommand, index: u32, offsets: Seq<u32>) -> bool {
    command matches PassCommand::SetBindGroup { index: i, offsets: o } && i == index && o@ == offsets
}

/// Whether `command` reads the vertices of the first input from a buffer.
pub open spec fn reads_vertices(command: PassCommand) -> bool {
    command == (PassCommand::SetVertexBuffer { slot: 0 })
}

/// Whether `command` draws the vertices `start..end` once.
pub open spec fn draws_once(command: PassCommand, start: u32, end: u32) -> bool {
    command == (PassCommand::Draw { vertices: start..end, instances: 0u32..1u32 })
}

/// The operations of a render pass.
pub trait RenderPassExt<C>: Sized {
    /// What the pass was begun with.
    spec fn begun_with(&self) -> RenderPassDescriptor<C>;

    /// The commands recorded so far.
    spec fn recorded(&self) -> Seq<PassCommand>;

    /// Begins a pass that renders to `view` and tests against `depth`. The
    /// color target is loaded as `op` says and stored at the end. Depth is
    /// cleared to one and stencil to zero, and both are stored.
    fn begin(
        view: &TextureView,
        resolve_target: Option<&TextureView>,
        depth: &TextureView,
        op: PassOp<C>,
    ) -> (pass: Self)
        ensures
            pass.recorded().len() == 0,
            pass.begun_with().color_attachment.view == *view,
            pass.begun_with().color_attachment.resolve_target == (match resolve_target {
                Some(target) => Some(*target),
                None => None,
            }),
            pass.begun_with().color_attachment.ops == (Operations {
                load: op.spec_to_wgpu(),
                store: StoreOp::Store,
            }),
            pass.begun_with().depth_stencil_attachment == (RenderPassDepthStencilAttachment {
                view: *depth,
                depth_ops: Some(Operations { load: LoadOp::Clear(1u32), store: StoreOp::Store }),
                stencil_ops: Some(Operations { load: LoadOp::Clear(0u32), store: StoreOp::Store }),
            }),
    ;

    /// Uses a pipeline together with the group of resources that belongs to
    /// it.
    fn set_easy_pipeline<T: AbstractPipeline>(&mut self, pipeline: &T)
        ensures
            final(self).begun_with() == old(self).begun_with(),
            extends(final(self).recorded(), old(self).recorded(), 2),
            final(self).recorded()[old(self).recorded().len() as int] == PassCommand::SetPipeline,
            binds(
                final(self).recorded().last(),
                pipeline.spec_parts().bindings.set_index,
                Seq::empty(),
            ),
    ;

    /// Binds a group to the set that the group names.
    fn set_binding(&mut self, group: &BindingGroup, offsets: &[u32])
        ensures
            final(self).begun_with() == old(self).begun_with(),
            extends(final(self).recorded(), old(self).recorded(), 1),
            binds(final(self).recorded().last(), group.set_index, offsets@),
    ;

    /// Reads 16-bit indices from the whole of an index buffer.
    fn set_easy_index_buffer(&mut self, index_buf: &IndexBuffer)
        ensures
            final(self).begun_with() == old(self).begun_with(),
            extends(final(self).recorded(), old(self).recorded(), 1),
            final(self).recorded().last() == (PassCommand::SetIndexBuffer {
                format: IndexFormat::Uint16,
            }),
    ;

    /// Reads the vertices of the first input from the whole of a vertex
    /// buffer.
    fn set_easy_vertex_buffer(&mut self, vertex_buf: &VertexBuffer)
        ensures
            final(self).begun_with() == old(self).begun_with(),
            extends(final(self).recorded(), old(self).recorded(), 1),
            reads_vertices(final(self).recorded().last()),
    ;

    /// Lets `drawable` record what draws it, behind what is recorded
    /// already: the pass grows by the commands that draw `drawable` with the
    /// resources of `binding`, and by nothing else.
    fn easy_draw<T: Draw>(&mut self, drawable: &T, binding: &BindingGroup)
        ensures
            final(self).begun_with() == old(self).begun_with(),
            old(self).recorded().is_prefix_of(final(self).recorded()),
            drawable.drawn_by(binding, added(old(self).recorded(), final(self).recorded())),
    ;

    /// Draws a whole vertex buffer once.
    fn draw_buffer(&mut self, buf: &VertexBuffer)
        ensures
            final(self).begun_with() == old(self).begun_with(),
            extends(final(self).recorded(), old(self).recorded(), 2),
            reads_vertices(final(self).recorded()[old(self).recorded().len() as int]),
            draws_once(final(self).recorded().last(), 0, buf.size),
    ;

    /// Draws a range of a vertex buffer once.
    fn draw_buffer_range(&mut self, buf: &VertexBuffer, range: Range<u32>)
        ensures
            final(self).begun_with() == old(self).begun_with(),
            extends(final(self).recorded(), old(self).recorded(), 2),
            reads_vertices(final(self).recorded()[old(self).recorded().len() as int]),
            draws_once(final(self).recorded().last(), range.start, range.end),
    ;

    /// Draws indexed vertices, counted from the first vertex of the buffer.
    fn draw_indexed(&mut self, indices: Range<u32>, instances: Range<u32>)
        ensures
            final(self).begun_with() == old(self).begun_with(),
            extends(final(self).recorded(), old(self).recorded(), 1),
            final(self).recorded().last() == (PassCommand::DrawIndexed {
                indices,
                base_vertex: 0,
                instances,
            }),
    ;
}

impl<C: Copy> RenderPassExt<C> for RenderPass<C> {
    open spec fn begun_with(&self) -> RenderPassDescriptor<C> {
        self.descriptor
    }

    open spec fn recorded(&self) -> Seq<PassCommand> {
        self.commands@
    }

    fn begin(
        view: &TextureView,
        resolve_target: Option<&TextureView>,
        depth: &TextureView,
        op: PassOp<C>,
    ) -> (pass: Self) {
        let resolve_target = match resolve_target {
            Some(target) => Some(*target),
            None => None,
        };
        RenderPass {
            descriptor: RenderPassDescriptor {
                color_attachment: RenderPassColorAttachment {
                    view: *view,
                    resolve_target,
                    ops: Operations { load: op.to_wgpu(), store: StoreOp::Store },
                },
                depth_stencil_attachment: RenderPassDepthStencilAttachment {
                    view: *depth,
                    depth_ops: Some(Operations { load: LoadOp::Clear(1), store: StoreOp::Store }),
                    stencil_ops: Some(Operations { load: LoadOp::Clear(0), store: StoreOp::Store }),
                },
            },
            commands: Vec::new(),
        }
    }

    fn set_easy_pipeline<T: AbstractPipeline>(&mut self, pipeline: &T) {
        let ghost before = self.commands@;
        self.commands.push(PassCommand::SetPipeline);
        let ghost pushed = self.commands@;
        let none: Vec<u32> = Vec::new();
        self.set_binding(&pipeline.parts().bindings, none.as_slice());
        proof {
            let kept = self.commands@.take(pushed.len() as int);
            assert(kept[before.len() as int] == self.commands@[before.len() as int]);
            assert(self.commands@.take(before.len() as int) =~= before);
        }
    }

    fn set_binding(&mut self, group: &BindingGroup, offsets: &[u32]) {
        let ghost before = self.commands@;
        let offsets = vstd::slice::slice_to_vec(offsets);
        self.commands.push(PassCommand::SetBindGroup { index: group.set_index, offsets });
        assert(self.commands@.take(before.len() as int) =~= before);
    }

    fn set_easy_index_buffer(&mut self, index_buf: &IndexBuffer) {
        let ghost before = self.commands@;
        self.commands.push(PassCommand::SetIndexBuffer { format: IndexFormat::Uint16 });
        assert(self.commands@.take(before.len() as int) =~= before);
    }

    fn set_easy_vertex_buffer(&mut self, vertex_buf: &VertexBuffer) {
        let ghost before = self.commands@;
        self.commands.push(PassCommand::SetVertexBuffer { slot: 0 });
        assert(self.commands@.take(before.len() as int) =~= before);
    }

    fn easy_draw<T: Draw>(&mut self, drawable: &T, binding: &BindingGroup) {
        drawable.draw(binding, self);
    }

    fn draw_buffer(&mut self, buf: &VertexBuffer) {
        let ghost before = self.commands@;
        self.set_easy_vertex_buffer(buf);
        let ghost bound = self.commands@;
        self.commands.push(PassCommand::Draw { vertices: 0..buf.size, instances: 0..1 });
        proof {
            assert(bound.take(before.len() as int) == before);
            assert(self.commands@.take(before.len() as int) =~= before);
        }
    }

    fn draw_buffer_range(&mut self, buf: &VertexBuffer, range: Range<u32>) {
        let ghost before = self.commands@;
        self.set_easy_vertex_buffer(buf);
        let ghost bound = self.commands@;
        self.commands.push(PassCommand::Draw { vertices: range, instances: 0..1 });
        proof {
            assert(bound.take(before.len() as int) == before);
            assert(self.commands@.take(before.len() as int) =~= before);
        }
    }

    fn draw_indexed(&mut self, indices: Range<u32>, instances: Range<u32>) {
        let ghost before = self.commands@;
        self.commands.push(PassCommand::DrawIndexed { indices, base_vertex: 0, instances });
        assert(self.commands@.take(before.len() as int) =~= before);
    }
}

} // verus!
