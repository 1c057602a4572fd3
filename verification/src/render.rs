//! The commands of one submission: clearing a target, or drawing to it.

use vstd::prelude::*;
use crate::buffer::{Buffer, IndexBufferUsage, VertexBufferUsage};
use crate::function::{ArgumentsContainer, FunctionDef, FunctionPrototype};
use crate::math::{Scalar, ONE_BITS, ZERO_BITS};
use crate::pass::{
    ColorAttachments, ColorClearValues, DepthAttachmentType, DepthClearValue, InputAttachments,
    RenderPassPrototype,
};
use crate::raw::{
    ClearAttachment, ClearRect, Extent2D, Offset2D, Rect2D, INDEX_TYPE_UINT32,
    PIPELINE_BIND_POINT_GRAPHICS,
};
use crate::target::Target;

verus! {

/// The rectangle that covers an image of the extent `extent`.
pub open spec fn whole(extent: Extent2D) -> Rect2D {
    Rect2D { offset: Offset2D { x: 0, y: 0 }, extent }
}

/// The rectangle that covers an image of the extent `extent`.
pub fn whole_area(extent: Extent2D) -> (area: Rect2D)
    ensures
        area == whole(extent),
{
    Rect2D { offset: Offset2D { x: 0, y: 0 }, extent }
}

/// The first layer of an image of the extent `extent`, all of it.
pub open spec fn whole_layer(extent: Extent2D) -> ClearRect {
    ClearRect { rect: whole(extent), base_array_layer: 0, layer_count: 1 }
}

/// A render pass that does nothing but clear attachments of its target.
pub struct ClearCommands {
    /// Handle of the render pass to begin.
    pub render_pass: u64,
    /// Handle of the framebuffer to begin the render pass on.
    pub framebuffer: u64,
    /// The part of the framebuffer that the render pass covers.
    pub render_area: Rect2D,
    /// What to clear, and to what.
    pub clear_attachments: Vec<ClearAttachment>,
    /// The part of each attachment to clear, at the position of its clearing.
    pub clear_rects: Vec<ClearRect>,
}

/// One indexed draw with its resources.
#[derive(Debug, Copy, Clone, PartialEq, Eq, Structural)]
pub struct DrawCommand {
    /// Handle of the pipeline layout under which the descriptor set is bound.
    pub pipeline_layout: u64,
    /// Handle of the descriptor set to bind.
    pub descriptor_set: u64,
    /// The vertex buffer slot to bind the vertex buffer to.
    pub first_binding: u32,
    /// Handle of the vertex buffer.
    pub vertex_buffer: u64,
    /// Where the vertices start in the vertex buffer, in bytes.
    pub vertex_buffer_offset: u64,
    /// Handle of the index buffer.
    pub index_buffer: u64,
    /// Where the indices start in the index buffer, in bytes.
    pub index_buffer_offset: u64,
    /// The code of the type of the indices.
    pub index_type: i32,
    pub index_count: u32,
    pub instance_count: u32,
    pub first_index: u32,
    pub vertex_offset: i32,
    pub first_instance: u32,
}

/// A render pass that draws to its target with one pipeline.
pub struct PassCommands {
    /// Handle of the render pass to begin.
    pub render_pass: u64,
    /// Handle of the framebuffer to begin the render pass on.
    pub framebuffer: u64,
    /// The part of the framebuffer that the render pass covers.
    pub render_area: Rect2D,
    /// The extent of the viewport, which starts at the origin.
    pub viewport: Extent2D,
    /// The depth that the near plane is mapped to.
    pub min_depth: Scalar,
    /// The depth that the far plane is mapped to.
    pub max_depth: Scalar,
    /// The part of the framebuffer outside of which nothing is drawn.
    pub scissor: Rect2D,
    /// The code of the kind of pipeline to bind.
    pub bind_point: i32,
    /// Handle of the pipeline to bind.
    pub pipeline: u64,
    /// The draws, in the order in which they are recorded.
    pub draws: Vec<DrawCommand>,
}

/// The vertices, the indices and the bound resources of one draw with a
/// pipeline of the signature `F`.
pub struct DrawArgs<'a, F: FunctionPrototype> {
    pub bindings: &'a ArgumentsContainer<F>,
    pub vertices: &'a Buffer<VertexBufferUsage, [F::VertexInput]>,
    pub indices: &'a Buffer<IndexBufferUsage, [u32]>,
}

impl<'a, F> DrawArgs<'a, F> where F: FunctionPrototype {
    /// The draw of all the indices, once, with the resources bound under the
    /// pipeline layout `pipeline_layout`. An index count that does not fit in
    /// 32 bits is cut to its low 32 bits.
    pub open spec fn command(&self, pipeline_layout: u64) -> DrawCommand {
        DrawCommand {
            pipeline_layout,
            descriptor_set: self.bindings.descriptor_set,
            first_binding: 0,
            vertex_buffer: self.vertices.buffer,
            vertex_buffer_offset: 0,
            index_buffer: self.indices.buffer,
            index_buffer_offset: 0,
            index_type: INDEX_TYPE_UINT32,
            index_count: self.indices.len as u32,
            instance_count: 1,
            first_index: 0,
            vertex_offset: 0,
            first_instance: 0,
        }
    }
}

impl<'a, F> Clone for DrawArgs<'a, F> where F: FunctionPrototype {
    fn clone(&self) -> (copy: Self)
        ensures
            copy == *self,
    {
        Self { bindings: self.bindings, vertices: self.vertices, indices: self.indices }
    }
}

impl<'a, F> Copy for DrawArgs<'a, F> where F: FunctionPrototype {

}

impl<'a, F> From<
    (
        &'a ArgumentsContainer<F>,
        &'a Buffer<VertexBufferUsage, [F::VertexInput]>,
        &'a Buffer<IndexBufferUsage, [u32]>,
    ),
> for DrawArgs<'a, F> where F: FunctionPrototype {
    fn from(
        t: (
            &'a ArgumentsContainer<F>,
            &'a Buffer<VertexBufferUsage, [F::VertexInput]>,
            &'a Buffer<IndexBufferUsage, [u32]>,
        ),
    ) -> (args: Self) {
        Self { bindings: t.0, vertices: t.1, indices: t.2 }
    }
}

impl<'a, F> vstd::std_specs::convert::FromSpecImpl<
    (
        &'a ArgumentsContainer<F>,
        &'a Buffer<VertexBufferUsage, [F::VertexInput]>,
        &'a Buffer<IndexBufferUsage, [u32]>,
    ),
> for DrawArgs<'a, F> where F: FunctionPrototype {
    open spec fn obeys_from_spec() -> bool {
        true
    }

    /// The bound resources, the vertices and the indices, in this order.
    open spec fn from_spec(
        t: (
            &'a ArgumentsContainer<F>,
            &'a Buffer<VertexBufferUsage, [F::VertexInput]>,
            &'a Buffer<IndexBufferUsage, [u32]>,
        ),
    ) -> Self {
        DrawArgs { bindings: t.0, vertices: t.1, indices: t.2 }
    }
}

/// Records the commands of submissions.
pub struct RenderEngine {
    /// Handle of the pool that the command buffers come from.
    pub command_pool: u64,
}

impl RenderEngine {
    /// The engine that records into command buffers of `command_pool`.
    pub fn new(command_pool: u64) -> (made: Self)
        ensures
            made.command_pool == command_pool,
    {
        Self { command_pool }
    }

    /// The commands that clear the colour attachments of `target` to `colors`
    /// and its depth attachment to `depth`, each over its whole first layer.
    pub fn clear<G: RenderPassPrototype>(
        &self,
        target: &Target<G>,
        colors: <G::ColorAttachments as ColorAttachments<G::SampleCount>>::ClearValues,
        depth: <G::DepthAttachment as DepthAttachmentType<G::SampleCount>>::ClearValue,
    ) -> (commands: ClearCommands)
        requires
            G::InputAttachments::spec_desc().len() + colors.spec_as_raw().len() <= u32::MAX,
        ensures
            commands.render_pass == target.render_pass,
            commands.framebuffer == target.framebuffer,
            commands.render_area == whole(target.attachments.extent),
            commands.clear_attachments@ == crate::pass::raw_clears(
                G::InputAttachments::spec_desc().len(),
                colors.spec_as_raw(),
                depth.spec_as_raw(),
            ),
            commands.clear_rects@ == Seq::new(
                commands.clear_attachments@.len(),
                |i: int| whole_layer(target.attachments.extent),
            ),
    {
        let extent = target.attachments.extent();
        let clear_attachments = target.attachments.clears(colors, depth);
        let amount = clear_attachments.len();
        let mut clear_rects: Vec<ClearRect> = Vec::new();
        let mut i: usize = 0;
        while i < amount
            invariant
                0 <= i <= amount,
                clear_rects@ == Seq::new(i as nat, |k: int| whole_layer(extent)),
            decreases amount - i,
        {
            clear_rects.push(
                ClearRect { rect: whole_area(extent), base_array_layer: 0, layer_count: 1 },
            );
            assert(clear_rects@ =~= Seq::new((i + 1) as nat, |k: int| whole_layer(extent)));
            i += 1;
        }
        ClearCommands {
            render_pass: target.render_pass,
            framebuffer: target.framebuffer,
            render_area: whole_area(extent),
            clear_attachments,
            clear_rects,
        }
    }

    /// The commands that draw `draws` to `target` with the pipeline
    /// `function`: viewport and scissor cover the whole target, depth runs
    /// from zero to one, and each draw draws all its indices once.
    pub fn pass<'a, F: FunctionPrototype>(
        &self,
        target: &Target<F::RenderPass>,
        function: &FunctionDef<F>,
        draws: &[DrawArgs<'a, F>],
    ) -> (commands: PassCommands)
        ensures
            commands.render_pass == target.render_pass,
            commands.framebuffer == target.framebuffer,
            commands.render_area == whole(target.attachments.extent),
            commands.viewport == target.attachments.extent,
            commands.min_depth.bits == ZERO_BITS,
            commands.max_depth.bits == ONE_BITS,
            commands.scissor == whole(target.attachments.extent),
            commands.bind_point == PIPELINE_BIND_POINT_GRAPHICS,
            commands.pipeline == function.pipeline,
            commands.draws@ == Seq::new(
                draws@.len(),
                |i: int| draws@[i].command(function.pipeline_layout),
            ),
    {
        let extent = target.attachments.extent;
        let mut recorded: Vec<DrawCommand> = Vec::new();
        let amount = draws.len();
        let mut i: usize = 0;
        while i < amount
            invariant
                amount == draws@.len(),
                0 <= i <= amount,
                recorded@ == Seq::new(
                    i as nat,
                    |k: int| draws@[k].command(function.pipeline_layout),
                ),
            decreases amount - i,
        {
            let draw = &draws[i];
            recorded.push(
                DrawCommand {
                    pipeline_layout: function.pipeline_layout,
                    descriptor_set: draw.bindings.descriptor_set,
                    first_binding: 0,
                    vertex_buffer: draw.vertices.buffer,
                    vertex_buffer_offset: 0,
                    index_buffer: draw.indices.buffer,
                    index_buffer_offset: 0,
                    index_type: INDEX_TYPE_UINT32,
                    index_count: #[verifier::truncate]
                    (draw.indices.len as u32),
                    instance_count: 1,
                    first_index: 0,
                    vertex_offset: 0,
                    first_instance: 0,
                },
            );
            assert(recorded@ =~= Seq::new(
                (i + 1) as nat,
                |k: int| draws@[k].command(function.pipeline_layout),
            ));
            i += 1;
        }
        PassCommands {
            render_pass: target.render_pass,
            framebuffer: target.framebuffer,
            render_area: whole_area(extent),
            viewport: Extent2D { width: extent.width, height: extent.height },
            min_depth: Scalar { bits: ZERO_BITS },
            max_depth: Scalar { bits: ONE_BITS },
            scissor: whole_area(Extent2D { width: extent.width, height: extent.height }),
            bind_point: PIPELINE_BIND_POINT_GRAPHICS,
            pipeline: function.pipeline,
            draws: recorded,
        }
    }
}

} // verus!
