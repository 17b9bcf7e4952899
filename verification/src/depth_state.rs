//! The depth buffer and the pass that shows it on screen.
//!
//! A [`DepthState`] describes the depth texture of the render target, the
//! bind group over it, and a pipeline that draws one quad over the whole
//! target with a fragment shader that turns depth into colour. When the
//! target is resized the depth texture is replaced; the old one is retired
//! with its bind group and lives on until the passes recorded against it
//! have completed.
//!
//! The objects of a `DepthState` are named by generation: the depth texture
//! of generation `g` has the view `TextureViewId(g)`, and the one sampler is
//! `SamplerId(0)`. The owner of the device keeps the objects under these
//! names.

use vstd::pervasive::unreached;
use vstd::prelude::*;
use vstd::slice::slice_to_vec;
use crate::depth_visualisation_bind_group::{
    create_depth_vis_bind_group, create_depth_vis_bind_group_layout, depth_vis_entries,
    lemma_depth_vis_binding,
};
use crate::globals::{RenderTargetConfig, TextureFormat};
use crate::layout::{
    fragment_slots, layout_kinds, layout_label, BindGroup, BindGroupEntry, BindGroupLayout,
    BindingSlot, LayoutKind, SamplerId, TextureViewId,
};
use crate::lifetime::{
    generations_well_formed, is_live, spec_release, spec_replace, uses_in_flight, Generations,
    GenerationsView, Retired,
};
use crate::model::{is_vertex_layout, ModelVertex};
use crate::pipeline::{
    fixed_primitive, is_scene_pipeline, no_multisampling, replacing_targets,
    IndexFormat, RenderPipelineDescriptor, ShaderModuleId,
};
use crate::pod::{cast_halves, cast_words, is_image_of_halves, is_image_of_words};
use crate::render_pass::{
    keeps_earlier_color, ColorAttachment, LoadOp, Operations, RenderCommand, RenderPass,
};
use crate::sampler::{SamplerDescriptor, F32_ONE, F32_ZERO};
use crate::tx::{is_depth_texture, TextureWrapper};

verus! {

/// What a buffer will be used for.
#[derive(Clone, Copy, Debug, PartialEq, Eq, Structural)]
pub struct BufferUsages {
    pub vertex: bool,
    pub index: bool,
}

/// A buffer to create with its contents.
#[derive(Clone, Debug)]
pub struct BufferInit {
    pub label: String,
    pub contents: Vec<u8>,
    pub usage: BufferUsages,
}

/// The words of one corner of the quad: position `(x, y, 0)`, texture
/// coordinates `(u, v)`, normal `(0, 0, 0)`.
pub open spec fn corner_words(x: u32, y: u32, u: u32, v: u32) -> Seq<u32> {
    seq![x, y, F32_ZERO, u, v, F32_ZERO, F32_ZERO, F32_ZERO]
}

/// The four corners of the quad that covers the render target, counter-
/// clockwise from the origin, with the texture's top row at the top.
pub open spec fn whole_screen_vertices() -> Seq<u32> {
    corner_words(F32_ZERO, F32_ZERO, F32_ZERO, F32_ONE) + corner_words(
        F32_ONE,
        F32_ZERO,
        F32_ONE,
        F32_ONE,
    ) + corner_words(F32_ONE, F32_ONE, F32_ONE, F32_ZERO) + corner_words(
        F32_ZERO,
        F32_ONE,
        F32_ZERO,
        F32_ZERO,
    )
}

/// The two triangles of the quad, each wound counter-clockwise.
pub open spec fn whole_screen_indices() -> Seq<u16> {
    seq![0, 1, 2, 0, 2, 3]
}

/// Number of indices of the quad.
pub const NUM_INDICES: u32 = 6;

/// The quad is four whole vertices, and every index names one of them.
pub proof fn lemma_quad_indices_in_range()
    ensures
        whole_screen_vertices().len() == 4 * 8,
        whole_screen_indices().len() == NUM_INDICES,
        forall|i: int|
            0 <= i < whole_screen_indices().len() ==> 0 <= #[trigger] whole_screen_indices()[i] < 4,
{
}

/// Whether `p` is the depth-visualization pipeline for a target of the
/// given format: one bind group layout (depth texture and sampler), one
/// vertex buffer of mesh vertices, the entry points of `shader`, colour
/// that replaces what is there, the fixed culling policy, and no depth
/// test at all.
pub open spec fn is_depth_vis_pipeline(
    p: RenderPipelineDescriptor,
    format: TextureFormat,
    shader: ShaderModuleId,
) -> bool {
    &&& is_scene_pipeline(p, format, shader)
    &&& p.label@ == "Depth Pass Render Pipeline"@
    &&& p.bind_group_layouts@.len() == 1
    &&& p.bind_group_layouts@[0]@ == fragment_slots(layout_kinds(LayoutKind::DepthVisualization))
    &&& p.bind_group_layouts@[0].spec_label() == layout_label(LayoutKind::DepthVisualization)
    &&& p.buffers@.len() == 1
    &&& is_vertex_layout(p.buffers@[0])
    &&& p.depth_stencil is None
}

/// The commands of the depth-visualization pass over the depth buffer of
/// the given generation.
pub open spec fn depth_vis_commands(generation: u64) -> Seq<RenderCommand> {
    seq![
        RenderCommand::SetPipeline,
        RenderCommand::SetBindGroup { index: 0, generation },
        RenderCommand::SetVertexBuffer { slot: 0 },
        RenderCommand::SetIndexBuffer { format: IndexFormat::Uint16 },
        RenderCommand::DrawIndexed {
            first_index: 0,
            end_index: NUM_INDICES,
            base_vertex: 0,
            first_instance: 0,
            end_instance: 1,
        },
    ]
}

/// Whether `pass` is the depth-visualization pass into `target`: it keeps
/// the colour that is there, stores what it draws, has no depth attachment,
/// and draws the quad once.
pub open spec fn is_depth_vis_pass(
    pass: RenderPass,
    target: TextureViewId,
    generation: u64,
) -> bool {
    &&& pass.label@ == "Depth Visualisation Render Pass"@
    &&& pass.color_attachments@ == seq![
        Some(
            ColorAttachment {
                view: target,
                resolve_target: None,
                ops: Operations { load: LoadOp::Load, store: true },
            },
        ),
    ]
    &&& pass.depth_stencil_attachment is None
    &&& pass.commands@ == depth_vis_commands(generation)
}

/// What a [`DepthState`] holds, as mathematics.
pub ghost struct DepthStateView {
    /// The render target that the depth texture was made for.
    pub target: RenderTargetConfig,
    pub depth_texture: TextureWrapper,
    pub depth_sampler: SamplerDescriptor,
    /// The slots of the bind group layout.
    pub bind_group_layout: Seq<BindingSlot>,
    pub bind_group_layout_label: Seq<char>,
    pub bind_group: BindGroup,
    pub pipeline: RenderPipelineDescriptor,
    pub vertex_buffer: BufferInit,
    pub index_buffer: BufferInit,
    pub num_indices: u32,
    /// The depth textures so far, each with the bind group over it.
    pub buffers: GenerationsView,
}

/// The depth buffer of the render target with all that the
/// depth-visualization pass needs.
#[derive(Debug)]
pub struct DepthState {
    target: RenderTargetConfig,
    depth_texture: TextureWrapper,
    depth_sampler: SamplerDescriptor,
    bind_group_layout: BindGroupLayout,
    bind_group: BindGroup,
    pipeline: RenderPipelineDescriptor,
    vertex_buffer: BufferInit,
    index_buffer: BufferInit,
    num_indices: u32,
    buffers: Generations,
}

impl View for DepthState {
    type V = DepthStateView;

    closed spec fn view(&self) -> DepthStateView {
        DepthStateView {
            target: self.target,
            depth_texture: self.depth_texture,
            depth_sampler: self.depth_sampler,
            bind_group_layout: self.bind_group_layout@,
            bind_group_layout_label: self.bind_group_layout.spec_label(),
            bind_group: self.bind_group,
            pipeline: self.pipeline,
            vertex_buffer: self.vertex_buffer,
            index_buffer: self.index_buffer,
            num_indices: self.num_indices,
            buffers: self.buffers@,
        }
    }
}

/// The bind group that was built over the depth texture of generation `g`.
/// A retired bind group is this one for its generation: it goes on naming
/// the depth texture that it was built over, never a later one.
pub open spec fn bind_group_of(g: u64) -> Seq<BindGroupEntry> {
    depth_vis_entries(TextureViewId(g), SamplerId(0))
}

/// The invariant of a depth state: the depth texture has the size of the
/// target; the bind group binds the view of the current depth texture and
/// the sampler; the pipeline draws into the target's format; the buffers
/// hold the quad.
pub open spec fn depth_state_well_formed(v: DepthStateView) -> bool {
    &&& is_depth_texture(v.depth_texture, v.target, "depth_texture"@)
    &&& v.depth_sampler == SamplerDescriptor::spec_depth()
    &&& v.bind_group_layout == fragment_slots(layout_kinds(LayoutKind::DepthVisualization))
    &&& v.bind_group_layout_label == layout_label(LayoutKind::DepthVisualization)
    &&& v.bind_group.label@ == "depth_vis_bind_group"@
    &&& v.bind_group.entries@ == bind_group_of(v.buffers.current)
    &&& is_depth_vis_pipeline(v.pipeline, v.target.format, v.pipeline.shader)
    &&& is_image_of_words(v.vertex_buffer.contents@, whole_screen_vertices())
    &&& v.vertex_buffer.usage == (BufferUsages { vertex: true, index: false })
    &&& is_image_of_halves(v.index_buffer.contents@, whole_screen_indices())
    &&& v.index_buffer.usage == (BufferUsages { vertex: false, index: true })
    &&& v.num_indices == NUM_INDICES
    &&& generations_well_formed(v.buffers)
}

fn push_corner(out: &mut Vec<u32>, x: u32, y: u32, u: u32, v: u32)
    ensures
        final(out)@ == old(out)@ + corner_words(x, y, u, v),
{
    out.push(x);
    out.push(y);
    out.push(F32_ZERO);
    out.push(u);
    out.push(v);
    out.push(F32_ZERO);
    out.push(F32_ZERO);
    out.push(F32_ZERO);
    assert(out@ =~= old(out)@ + corner_words(x, y, u, v));
}

fn quad_vertex_buffer() -> (r: BufferInit)
    ensures
        r.label@ == "Vertex Buffer"@,
        is_image_of_words(r.contents@, whole_screen_vertices()),
        r.usage == (BufferUsages { vertex: true, index: false }),
{
    let mut words: Vec<u32> = Vec::new();
    push_corner(&mut words, F32_ZERO, F32_ZERO, F32_ZERO, F32_ONE);
    push_corner(&mut words, F32_ONE, F32_ZERO, F32_ONE, F32_ONE);
    push_corner(&mut words, F32_ONE, F32_ONE, F32_ONE, F32_ZERO);
    push_corner(&mut words, F32_ZERO, F32_ONE, F32_ZERO, F32_ZERO);
    assert(words@ =~= whole_screen_vertices());
    BufferInit {
        label: "Vertex Buffer".to_owned(),
        contents: slice_to_vec(cast_words(words.as_slice())),
        usage: BufferUsages { vertex: true, index: false },
    }
}

fn quad_index_buffer() -> (r: BufferInit)
    ensures
        r.label@ == "Index Buffer"@,
        is_image_of_halves(r.contents@, whole_screen_indices()),
        r.usage == (BufferUsages { vertex: false, index: true }),
{
    let mut indices: Vec<u16> = Vec::new();
    indices.push(0);
    indices.push(1);
    indices.push(2);
    indices.push(0);
    indices.push(2);
    indices.push(3);
    assert(indices@ =~= whole_screen_indices());
    BufferInit {
        label: "Index Buffer".to_owned(),
        contents: slice_to_vec(cast_halves(indices.as_slice())),
        usage: BufferUsages { vertex: false, index: true },
    }
}

/// The bind group over the depth texture of the given generation.
fn bind_group_over(layout: &BindGroupLayout, generation: u64) -> (r: BindGroup)
    requires
        layout@ == fragment_slots(layout_kinds(LayoutKind::DepthVisualization)),
    ensures
        r.label@ == "depth_vis_bind_group"@,
        r.entries@ == bind_group_of(generation),
{
    proof {
        lemma_depth_vis_binding(TextureViewId(generation), SamplerId(0));
    }
    match create_depth_vis_bind_group(layout, TextureViewId(generation), SamplerId(0)) {
        Ok(group) => group,
        Err(_) => unreached(),
    }
}

/// Describes the depth-visualization pipeline for a target of the given
/// format.
pub fn depth_vis_pipeline(format: TextureFormat, shader: ShaderModuleId) -> (r:
    RenderPipelineDescriptor)
    ensures
        is_depth_vis_pipeline(r, format, shader),
{
    let mut bind_group_layouts: Vec<BindGroupLayout> = Vec::new();
    bind_group_layouts.push(create_depth_vis_bind_group_layout());
    let mut buffers = Vec::new();
    buffers.push(ModelVertex::desc());
    RenderPipelineDescriptor {
        label: "Depth Pass Render Pipeline".to_owned(),
        layout_label: "Render Pipeline Layout".to_owned(),
        bind_group_layouts,
        shader,
        vertex_entry_point: "vs_main".to_owned(),
        fragment_entry_point: "fs_main".to_owned(),
        buffers,
        targets: replacing_targets(format),
        primitive: fixed_primitive(),
        depth_stencil: None,
        multisample: no_multisampling(),
    }
}

impl DepthState {
    /// Describes the depth buffer of the render target and the pass that
    /// shows it: the quad's vertex and index buffers, the depth texture of
    /// the target's size, its sampler, the bind group layout and the bind
    /// group over the texture's view, and the pipeline for the target's
    /// format with `shader`. Nothing is in flight and nothing is retired.
    pub fn new(config: &RenderTargetConfig, shader: ShaderModuleId) -> (r: DepthState)
        ensures
            depth_state_well_formed(r@),
            r@.target == *config,
            r@.pipeline.shader == shader,
            r@.buffers == (GenerationsView { current: 0, in_flight: 0, retired: Seq::empty() }),
            r@.vertex_buffer.label@ == "Vertex Buffer"@,
            r@.index_buffer.label@ == "Index Buffer"@,
    {
        let vertex_buffer = quad_vertex_buffer();
        let index_buffer = quad_index_buffer();
        let depth_texture = TextureWrapper::create_depth_texture(config, "depth_texture");
        let depth_sampler = SamplerDescriptor::depth();
        let bind_group_layout = create_depth_vis_bind_group_layout();
        let bind_group = bind_group_over(&bind_group_layout, 0);
        let pipeline = depth_vis_pipeline(config.format, shader);
        DepthState {
            target: *config,
            depth_texture,
            depth_sampler,
            bind_group_layout,
            bind_group,
            pipeline,
            vertex_buffer,
            index_buffer,
            num_indices: NUM_INDICES,
            buffers: Generations::new(),
        }
    }

    /// The current depth texture.
    pub fn depth_texture(&self) -> (r: &TextureWrapper)
        ensures
            *r == self@.depth_texture,
    {
        &self.depth_texture
    }

    /// The view of the current depth texture, for a depth attachment.
    pub fn depth_view(&self) -> (r: TextureViewId)
        ensures
            r == TextureViewId(self@.buffers.current),
    {
        TextureViewId(self.buffers.current())
    }

    pub fn depth_sampler(&self) -> (r: &SamplerDescriptor)
        ensures
            *r == self@.depth_sampler,
    {
        &self.depth_sampler
    }

    pub fn bind_group_layout(&self) -> (r: &BindGroupLayout)
        ensures
            r@ == self@.bind_group_layout,
            r.spec_label() == self@.bind_group_layout_label,
    {
        &self.bind_group_layout
    }

    /// The bind group over the current depth texture.
    pub fn bind_group(&self) -> (r: &BindGroup)
        ensures
            *r == self@.bind_group,
    {
        &self.bind_group
    }

    pub fn pipeline(&self) -> (r: &RenderPipelineDescriptor)
        ensures
            *r == self@.pipeline,
    {
        &self.pipeline
    }

    pub fn vertex_buffer(&self) -> (r: &BufferInit)
        ensures
            *r == self@.vertex_buffer,
    {
        &self.vertex_buffer
    }

    pub fn index_buffer(&self) -> (r: &BufferInit)
        ensures
            *r == self@.index_buffer,
    {
        &self.index_buffer
    }

    pub fn num_indices(&self) -> (r: u32)
        ensures
            r == self@.num_indices,
    {
        self.num_indices
    }

    /// The depth textures that have not been freed, with their uses.
    pub fn buffers(&self) -> (r: &Generations)
        ensures
            r@ == self@.buffers,
    {
        &self.buffers
    }

    /// Replaces the depth texture by one of the new target's size and
    /// builds the bind group anew over it: a bind group cannot be patched.
    /// The pipeline is described anew for the new target's format.
    ///
    /// The old depth texture and the bind group over it are retired, not
    /// freed: by [`lemma_replace_keeps_live`] every depth texture that lived
    /// before lives after, with the uses that it had, so that frames already
    /// recorded against it run on memory that is still there.
    ///
    /// [`lemma_replace_keeps_live`]: crate::lifetime::lemma_replace_keeps_live
    pub fn resize(&mut self, config: &RenderTargetConfig)
        requires
            depth_state_well_formed(old(self)@),
            old(self)@.buffers.current < u64::MAX,
        ensures
            depth_state_well_formed(final(self)@),
            final(self)@.target == *config,
            final(self)@.depth_texture.texture.size.width == config.width,
            final(self)@.depth_texture.texture.size.height == config.height,
            final(self)@.buffers == spec_replace(old(self)@.buffers),
            final(self)@.pipeline.shader == old(self)@.pipeline.shader,
            final(self)@.vertex_buffer == old(self)@.vertex_buffer,
            final(self)@.index_buffer == old(self)@.index_buffer,
    {
        self.depth_texture = TextureWrapper::create_depth_texture(config, "depth_texture");
        self.buffers.replace();
        self.bind_group = bind_group_over(&self.bind_group_layout, self.buffers.current());
        self.pipeline.targets = replacing_targets(config.format);
        self.target = *config;
    }

    /// Describes the pass that draws the depth buffer into `texture_view`,
    /// and notes that one more pass is recorded against the current depth
    /// texture.
    ///
    /// The pass loads the colour that is in the target and never clears it:
    /// it is drawn after the scene, on top of it.
    pub fn build_render_pass(&mut self, texture_view: TextureViewId) -> (r: RenderPass)
        requires
            depth_state_well_formed(old(self)@),
            old(self)@.buffers.in_flight < u64::MAX,
        ensures
            depth_state_well_formed(final(self)@),
            is_depth_vis_pass(r, texture_view, old(self)@.buffers.current),
            keeps_earlier_color(r),
            final(self)@ == (DepthStateView {
                buffers: GenerationsView {
                    in_flight: (old(self)@.buffers.in_flight + 1) as u64,
                    ..old(self)@.buffers
                },
                ..old(self)@
            }),
    {
        let mut color_attachments: Vec<Option<ColorAttachment>> = Vec::new();
        color_attachments.push(
            Some(
                ColorAttachment {
                    view: texture_view,
                    resolve_target: None,
                    ops: Operations { load: LoadOp::Load, store: true },
                },
            ),
        );
        let generation = self.buffers.current();
        let mut commands: Vec<RenderCommand> = Vec::new();
        commands.push(RenderCommand::SetPipeline);
        commands.push(RenderCommand::SetBindGroup { index: 0, generation });
        commands.push(RenderCommand::SetVertexBuffer { slot: 0 });
        commands.push(RenderCommand::SetIndexBuffer { format: IndexFormat::Uint16 });
        commands.push(
            RenderCommand::DrawIndexed {
                first_index: 0,
                end_index: self.num_indices,
                base_vertex: 0,
                first_instance: 0,
                end_instance: 1,
            },
        );
        assert(commands@ =~= depth_vis_commands(generation));
        self.buffers.record_use();
        RenderPass {
            label: "Depth Visualisation Render Pass".to_owned(),
            color_attachments,
            depth_stencil_attachment: None,
            commands,
        }
    }

    /// Notes that one pass recorded against the depth texture of the given
    /// generation has completed. Returns whether such a pass was
    /// outstanding; if none was, nothing changes.
    pub fn pass_completed(&mut self, generation: u64) -> (r: bool)
        requires
            depth_state_well_formed(old(self)@),
        ensures
            depth_state_well_formed(final(self)@),
            r == (uses_in_flight(old(self)@.buffers, generation) > 0),
            !r ==> final(self)@ == old(self)@,
            final(self)@.buffers.current == old(self)@.buffers.current,
            forall|g: u64|
                is_live(final(self)@.buffers, g) == is_live(
                    old(self)@.buffers,
                    g,
                ),
            forall|g: u64|
                uses_in_flight(final(self)@.buffers, g) == if r && g
                    == generation {
                    (uses_in_flight(old(self)@.buffers, g) - 1) as u64
                } else {
                    uses_in_flight(old(self)@.buffers, g)
                },
            final(self)@ == (DepthStateView { buffers: final(self)@.buffers, ..old(self)@ }),
    {
        self.buffers.complete(generation)
    }

    /// Frees the retired depth textures, each with its bind group, that no
    /// outstanding pass uses, and returns their generations. The current
    /// depth texture is never freed, nor one in use.
    pub fn release_retired(&mut self) -> (freed: Vec<u64>)
        requires
            depth_state_well_formed(old(self)@),
        ensures
            depth_state_well_formed(final(self)@),
            final(self)@.buffers == spec_release(old(self)@.buffers),
            freed@ == old(self)@.buffers.retired.filter(|r: Retired| r.in_flight == 0).map_values(
                |r: Retired| r.generation,
            ),
            final(self)@ == (DepthStateView { buffers: final(self)@.buffers, ..old(self)@ }),
    {
        self.buffers.release()
    }
}

} // verus!
