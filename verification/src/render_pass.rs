//! Render passes as descriptions: the attachments with their load and store
//! policy, and the commands recorded between begin and end.

use vstd::prelude::*;
use crate::layout::TextureViewId;
use crate::pipeline::IndexFormat;

verus! {

/// A colour; each channel a 64-bit float, held as its bit pattern.
#[derive(Clone, Copy, Debug, PartialEq, Eq, Structural)]
pub struct Color {
    pub r: u64,
    pub g: u64,
    pub b: u64,
    pub a: u64,
}

/// What a pass does with the colour that its target holds when it begins.
#[derive(Clone, Copy, Debug, PartialEq, Eq, Structural)]
pub enum LoadOp {
    /// Overwrite all of it with one colour.
    Clear(Color),
    /// Keep it, so that the pass draws on top of earlier passes.
    Load,
}

#[derive(Clone, Copy, Debug, PartialEq, Eq, Structural)]
pub struct Operations {
    pub load: LoadOp,
    /// Whether what the pass draws is written back to the target.
    pub store: bool,
}

#[derive(Clone, Copy, Debug, PartialEq, Eq, Structural)]
pub struct ColorAttachment {
    pub view: TextureViewId,
    pub resolve_target: Option<TextureViewId>,
    pub ops: Operations,
}

/// What a pass does with the depth that its depth buffer holds when it
/// begins. The clear value is a 32-bit float, held as its bit pattern.
#[derive(Clone, Copy, Debug, PartialEq, Eq, Structural)]
pub enum DepthLoadOp {
    Clear(u32),
    Load,
}

#[derive(Clone, Copy, Debug, PartialEq, Eq, Structural)]
pub struct DepthAttachment {
    pub view: TextureViewId,
    pub load: DepthLoadOp,
    pub store: bool,
}

/// One command of a pass. The objects that a command names belong to
/// whoever built the pass.
#[derive(Clone, Copy, Debug, PartialEq, Eq, Structural)]
pub enum RenderCommand {
    /// Use the builder's pipeline.
    SetPipeline,
    /// Bind, at group `index`, the builder's bind group over the depth
    /// buffer of the given generation.
    SetBindGroup { index: u32, generation: u64 },
    /// Bind all of the builder's vertex buffer at `slot`.
    SetVertexBuffer { slot: u32 },
    /// Bind all of the builder's index buffer.
    SetIndexBuffer { format: IndexFormat },
    /// Draw the indices `first_index..end_index` for the instances
    /// `first_instance..end_instance`.
    DrawIndexed {
        first_index: u32,
        end_index: u32,
        base_vertex: i32,
        first_instance: u32,
        end_instance: u32,
    },
}

/// A render pass to record.
#[derive(Clone, Debug)]
pub struct RenderPass {
    pub label: String,
    pub color_attachments: Vec<Option<ColorAttachment>>,
    pub depth_stencil_attachment: Option<DepthAttachment>,
    pub commands: Vec<RenderCommand>,
}

/// Whether the pass keeps what earlier passes drew into its colour targets:
/// none of its colour attachments clears.
pub open spec fn keeps_earlier_color(pass: RenderPass) -> bool {
    forall|i: int|
        0 <= i < pass.color_attachments@.len() ==> match #[trigger] pass.color_attachments@[i] {
            Some(a) => a.ops.load == LoadOp::Load,
            None => true,
        }
}

} // verus!
