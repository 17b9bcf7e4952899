//! Render pipelines: what is compiled, and when it has to be compiled again.
//!
//! A pipeline object is immutable once built. When the render target or a
//! shader or layout changes, the pipeline is invalidated and a fresh object
//! is built; the old one stays valid for the frames already recorded against
//! it and is dropped only when none of them is outstanding.

use vstd::prelude::*;
use crate::globals::{RenderTargetConfig, TextureFormat};
use crate::layout::BindGroupLayout;
use crate::lifetime::{
    generations_well_formed, is_live, spec_release, spec_replace, uses_in_flight, Generations,
    GenerationsView, Retired,
};
use crate::main_instance::{is_instance_layout, MainInstanceRaw};
use crate::model::{is_vertex_layout, ModelVertex};
use crate::vertex::VertexBufferLayout;

verus! {

/// Handle of a compiled and validated shader module that the owner of the
/// device keeps. Shader text is never looked at here.
#[derive(Clone, Copy, Debug, PartialEq, Eq, Structural)]
pub struct ShaderModuleId(pub u64);

#[derive(Clone, Copy, Debug, PartialEq, Eq, Structural)]
pub enum PrimitiveTopology {
    PointList,
    LineList,
    LineStrip,
    TriangleList,
    TriangleStrip,
}

#[derive(Clone, Copy, Debug, PartialEq, Eq, Structural)]
pub enum IndexFormat {
    Uint16,
    Uint32,
}

/// Which winding marks the front of a triangle.
#[derive(Clone, Copy, Debug, PartialEq, Eq, Structural)]
pub enum FrontFace {
    Ccw,
    Cw,
}

#[derive(Clone, Copy, Debug, PartialEq, Eq, Structural)]
pub enum Face {
    Front,
    Back,
}

#[derive(Clone, Copy, Debug, PartialEq, Eq, Structural)]
pub enum PolygonMode {
    Fill,
    Line,
    Point,
}

/// How triangles are assembled and which of them are drawn.
#[derive(Clone, Copy, Debug, PartialEq, Eq, Structural)]
pub struct PrimitiveState {
    pub topology: PrimitiveTopology,
    pub strip_index_format: Option<IndexFormat>,
    pub front_face: FrontFace,
    pub cull_mode: Option<Face>,
    pub polygon_mode: PolygonMode,
    pub unclipped_depth: bool,
    pub conservative: bool,
}

/// How a fragment's colour meets the colour already in the target.
#[derive(Clone, Copy, Debug, PartialEq, Eq, Structural)]
pub enum BlendState {
    /// The fragment's colour replaces what is there.
    Replace,
    /// The fragment's colour is mixed in by its alpha.
    AlphaBlending,
}

/// The channels that a pipeline writes.
#[derive(Clone, Copy, Debug, PartialEq, Eq, Structural)]
pub struct ColorWrites {
    pub red: bool,
    pub green: bool,
    pub blue: bool,
    pub alpha: bool,
}

#[derive(Clone, Copy, Debug, PartialEq, Eq, Structural)]
pub struct ColorTargetState {
    pub format: TextureFormat,
    pub blend: Option<BlendState>,
    pub write_mask: ColorWrites,
}

#[derive(Clone, Copy, Debug, PartialEq, Eq, Structural)]
pub struct MultisampleState {
    pub count: u32,
    pub mask: u64,
    pub alpha_to_coverage_enabled: bool,
}

/// When a fragment passes the depth test.
#[derive(Clone, Copy, Debug, PartialEq, Eq, Structural)]
pub enum DepthTest {
    /// When it is nearer than what the depth buffer holds.
    Less,
    /// Always.
    Always,
}

#[derive(Clone, Copy, Debug, PartialEq, Eq, Structural)]
pub struct DepthStencilState {
    pub format: TextureFormat,
    pub depth_write_enabled: bool,
    pub depth_test: DepthTest,
}

/// A render pipeline to compile.
#[derive(Debug)]
pub struct RenderPipelineDescriptor {
    pub label: String,
    /// Label of the pipeline layout.
    pub layout_label: String,
    /// The bind group layouts of the pipeline layout, by group index.
    pub bind_group_layouts: Vec<BindGroupLayout>,
    /// The module that holds both entry points.
    pub shader: ShaderModuleId,
    pub vertex_entry_point: String,
    pub fragment_entry_point: String,
    /// The vertex buffers, by slot.
    pub buffers: Vec<VertexBufferLayout>,
    /// The colour targets of the fragment stage.
    pub targets: Vec<Option<ColorTargetState>>,
    pub primitive: PrimitiveState,
    pub depth_stencil: Option<DepthStencilState>,
    pub multisample: MultisampleState,
}

/// The one culling policy of every pipeline: triangle lists, front faces
/// wound counter-clockwise, back faces culled, triangles filled.
pub open spec fn fixed_primitive_state() -> PrimitiveState {
    PrimitiveState {
        topology: PrimitiveTopology::TriangleList,
        strip_index_format: None,
        front_face: FrontFace::Ccw,
        cull_mode: Some(Face::Back),
        polygon_mode: PolygonMode::Fill,
        unclipped_depth: false,
        conservative: false,
    }
}

/// One colour target in the target's format, written in all channels, the
/// fragment's colour replacing what is there.
pub open spec fn replacing_target(format: TextureFormat) -> ColorTargetState {
    ColorTargetState {
        format,
        blend: Some(BlendState::Replace),
        write_mask: ColorWrites { red: true, green: true, blue: true, alpha: true },
    }
}

/// One sample per pixel, all of them written.
pub open spec fn single_sample() -> MultisampleState {
    MultisampleState { count: 1, mask: u64::MAX, alpha_to_coverage_enabled: false }
}

/// What both pipelines of this crate have in common: one shader module
/// with the entry points `vs_main` and `fs_main`, one colour target in the
/// render target's format that fragments replace, the fixed culling policy
/// and no multisampling.
pub open spec fn is_scene_pipeline(
    p: RenderPipelineDescriptor,
    format: TextureFormat,
    shader: ShaderModuleId,
) -> bool {
    &&& p.layout_label@ == "Render Pipeline Layout"@
    &&& p.shader == shader
    &&& p.vertex_entry_point@ == "vs_main"@
    &&& p.fragment_entry_point@ == "fs_main"@
    &&& p.targets@ == seq![Some(replacing_target(format))]
    &&& p.primitive == fixed_primitive_state()
    &&& p.multisample == single_sample()
}

pub(crate) fn fixed_primitive() -> (r: PrimitiveState)
    ensures
        r == fixed_primitive_state(),
{
    PrimitiveState {
        topology: PrimitiveTopology::TriangleList,
        strip_index_format: None,
        front_face: FrontFace::Ccw,
        cull_mode: Some(Face::Back),
        polygon_mode: PolygonMode::Fill,
        unclipped_depth: false,
        conservative: false,
    }
}

pub(crate) fn replacing_targets(format: TextureFormat) -> (r: Vec<Option<ColorTargetState>>)
    ensures
        r@ == seq![Some(replacing_target(format))],
{
    let mut targets: Vec<Option<ColorTargetState>> = Vec::new();
    targets.push(
        Some(
            ColorTargetState {
                format,
                blend: Some(BlendState::Replace),
                write_mask: ColorWrites { red: true, green: true, blue: true, alpha: true },
            },
        ),
    );
    targets
}

pub(crate) fn no_multisampling() -> (r: MultisampleState)
    ensures
        r == single_sample(),
{
    MultisampleState { count: 1, mask: u64::MAX, alpha_to_coverage_enabled: false }
}

/// Where a pipeline stands between being built and being built again.
#[derive(Clone, Copy, Debug, PartialEq, Eq, Structural)]
pub enum PipelineState {
    /// Nothing was built yet.
    Uninitialized,
    /// An object exists that fits the render target.
    Built,
    /// The object no longer fits and must not be used for new frames.
    Invalidated,
    /// A fresh object is being compiled.
    Rebuilding,
}

/// What can happen to a pipeline.
#[derive(Clone, Copy, Debug, PartialEq, Eq, Structural)]
pub enum PipelineEvent {
    /// The first object was compiled.
    Build,
    /// The render target's size, format or sample count changed.
    TargetChanged,
    /// A shader or a bind group layout of the pipeline changed.
    ShaderOrLayoutChanged,
    /// Compiling a fresh object has begun.
    RebuildStarted,
    /// The fresh object is ready.
    RebuildFinished,
}

/// The state after `event`, or `None` where the event cannot happen in
/// `state`. A change of the target, a shader or a layout invalidates
/// whatever was built or is being built; before the first build there is
/// nothing to invalidate.
pub open spec fn spec_next_state(state: PipelineState, event: PipelineEvent) -> Option<
    PipelineState,
> {
    match (state, event) {
        (PipelineState::Uninitialized, PipelineEvent::Build) => Some(PipelineState::Built),
        (PipelineState::Uninitialized, PipelineEvent::TargetChanged) => Some(
            PipelineState::Uninitialized,
        ),
        (PipelineState::Uninitialized, PipelineEvent::ShaderOrLayoutChanged) => Some(
            PipelineState::Uninitialized,
        ),
        (PipelineState::Built, PipelineEvent::TargetChanged) => Some(PipelineState::Invalidated),
        (PipelineState::Built, PipelineEvent::ShaderOrLayoutChanged) => Some(
            PipelineState::Invalidated,
        ),
        (PipelineState::Invalidated, PipelineEvent::TargetChanged) => Some(
            PipelineState::Invalidated,
        ),
        (PipelineState::Invalidated, PipelineEvent::ShaderOrLayoutChanged) => Some(
            PipelineState::Invalidated,
        ),
        (PipelineState::Invalidated, PipelineEvent::RebuildStarted) => Some(
            PipelineState::Rebuilding,
        ),
        (PipelineState::Rebuilding, PipelineEvent::TargetChanged) => Some(
            PipelineState::Invalidated,
        ),
        (PipelineState::Rebuilding, PipelineEvent::ShaderOrLayoutChanged) => Some(
            PipelineState::Invalidated,
        ),
        (PipelineState::Rebuilding, PipelineEvent::RebuildFinished) => Some(PipelineState::Built),
        _ => None,
    }
}

/// Executable form of [`spec_next_state`].
pub fn next_state(state: PipelineState, event: PipelineEvent) -> (r: Option<PipelineState>)
    ensures
        r == spec_next_state(state, event),
{
    match state {
        PipelineState::Uninitialized => match event {
            PipelineEvent::Build => Some(PipelineState::Built),
            PipelineEvent::TargetChanged => Some(PipelineState::Uninitialized),
            PipelineEvent::ShaderOrLayoutChanged => Some(PipelineState::Uninitialized),
            _ => None,
        },
        PipelineState::Built => match event {
            PipelineEvent::TargetChanged => Some(PipelineState::Invalidated),
            PipelineEvent::ShaderOrLayoutChanged => Some(PipelineState::Invalidated),
            _ => None,
        },
        PipelineState::Invalidated => match event {
            PipelineEvent::TargetChanged => Some(PipelineState::Invalidated),
            PipelineEvent::ShaderOrLayoutChanged => Some(PipelineState::Invalidated),
            PipelineEvent::RebuildStarted => Some(PipelineState::Rebuilding),
            _ => None,
        },
        PipelineState::Rebuilding => match event {
            PipelineEvent::TargetChanged => Some(PipelineState::Invalidated),
            PipelineEvent::ShaderOrLayoutChanged => Some(PipelineState::Invalidated),
            PipelineEvent::RebuildFinished => Some(PipelineState::Built),
            _ => None,
        },
    }
}

/// A change of the render target never leaves a pipeline built: whatever
/// was built before is invalid after it.
pub proof fn lemma_target_change_invalidates(state: PipelineState)
    ensures
        spec_next_state(state, PipelineEvent::TargetChanged) is Some,
        spec_next_state(state, PipelineEvent::TargetChanged) != Some(PipelineState::Built),
        state == PipelineState::Built ==> spec_next_state(state, PipelineEvent::TargetChanged)
            == Some(PipelineState::Invalidated),
{
}

/// A pipeline gets to `Built` only by a build: the first one, or the end of
/// a rebuild.
pub proof fn lemma_built_only_by_building(state: PipelineState, event: PipelineEvent)
    requires
        spec_next_state(state, event) == Some(PipelineState::Built),
    ensures
        (state == PipelineState::Uninitialized && event == PipelineEvent::Build) || (state
            == PipelineState::Rebuilding && event == PipelineEvent::RebuildFinished),
{
}

/// What a [`RenderPipeline`] holds, as mathematics.
pub ghost struct RenderPipelineView {
    pub state: PipelineState,
    /// The target that the current object was built for; read only while an
    /// object exists.
    pub built_for: RenderTargetConfig,
    /// The target that frames are rendered into now.
    pub target: RenderTargetConfig,
    pub objects: GenerationsView,
}

/// One pipeline with the objects built for it so far.
#[derive(Debug)]
pub struct RenderPipeline {
    state: PipelineState,
    built_for: RenderTargetConfig,
    target: RenderTargetConfig,
    objects: Generations,
}

impl View for RenderPipeline {
    type V = RenderPipelineView;

    closed spec fn view(&self) -> RenderPipelineView {
        RenderPipelineView {
            state: self.state,
            built_for: self.built_for,
            target: self.target,
            objects: self.objects@,
        }
    }
}

/// The invariant: a pipeline that is built, or is being rebuilt, is so for
/// the target as it is now.
pub open spec fn pipeline_well_formed(v: RenderPipelineView) -> bool {
    &&& generations_well_formed(v.objects)
    &&& v.state == PipelineState::Built || v.state == PipelineState::Rebuilding ==> v.built_for
        == v.target
}

/// What an event asks the owner of the device to do.
#[derive(Clone, Copy, Debug, PartialEq, Eq, Structural)]
pub enum PipelineAction {
    /// Nothing.
    Nothing,
    /// Compile an object for the target and keep it under this generation;
    /// objects of earlier generations stay until they are released.
    Compile { generation: u64, target: RenderTargetConfig },
}

impl RenderPipeline {
    /// A pipeline of which nothing is built yet.
    pub fn new(target: RenderTargetConfig) -> (r: RenderPipeline)
        ensures
            pipeline_well_formed(r@),
            r@.state == PipelineState::Uninitialized,
            r@.target == target,
            r@.objects == (GenerationsView { current: 0, in_flight: 0, retired: Seq::empty() }),
    {
        RenderPipeline {
            state: PipelineState::Uninitialized,
            built_for: target,
            target,
            objects: Generations::new(),
        }
    }

    pub fn state(&self) -> (r: PipelineState)
        ensures
            r == self@.state,
    {
        self.state
    }

    /// The target that frames are rendered into now.
    pub fn target(&self) -> (r: RenderTargetConfig)
        ensures
            r == self@.target,
    {
        self.target
    }

    /// The objects built so far that have not been freed.
    pub fn objects(&self) -> (r: &Generations)
        ensures
            r@ == self@.objects,
    {
        &self.objects
    }

    /// Whether new frames may be recorded against the current object: only
    /// while the pipeline is built, and then the object fits the target.
    pub fn usable(&self) -> (r: bool)
        requires
            pipeline_well_formed(self@),
        ensures
            r == (self@.state == PipelineState::Built),
            r ==> self@.built_for == self@.target,
    {
        self.state == PipelineState::Built
    }

    /// Notes that the first object was compiled for the current target.
    /// Returns whether that could happen: only before anything was built.
    pub fn build(&mut self) -> (r: bool)
        requires
            pipeline_well_formed(old(self)@),
        ensures
            pipeline_well_formed(final(self)@),
            r == (old(self)@.state == PipelineState::Uninitialized),
            r ==> final(self)@ == (RenderPipelineView {
                state: PipelineState::Built,
                built_for: old(self)@.target,
                ..old(self)@
            }),
            !r ==> final(self)@ == old(self)@,
    {
        match next_state(self.state, PipelineEvent::Build) {
            Some(next) => {
                self.state = next;
                self.built_for = self.target;
                true
            },
            None => false,
        }
    }

    /// Notes that the render target changed. Whatever was built or was being
    /// built no longer fits.
    pub fn target_changed(&mut self, target: RenderTargetConfig)
        requires
            pipeline_well_formed(old(self)@),
        ensures
            pipeline_well_formed(final(self)@),
            final(self)@.target == target,
            final(self)@.built_for == old(self)@.built_for,
            final(self)@.objects == old(self)@.objects,
            Some(final(self)@.state) == spec_next_state(
                old(self)@.state,
                PipelineEvent::TargetChanged,
            ),
            final(self)@.state != PipelineState::Built,
    {
        self.target = target;
        match next_state(self.state, PipelineEvent::TargetChanged) {
            Some(next) => {
                self.state = next;
            },
            None => {},
        }
    }

    /// Notes that a shader or a bind group layout of the pipeline changed.
    pub fn shader_or_layout_changed(&mut self)
        requires
            pipeline_well_formed(old(self)@),
        ensures
            pipeline_well_formed(final(self)@),
            final(self)@.target == old(self)@.target,
            final(self)@.built_for == old(self)@.built_for,
            final(self)@.objects == old(self)@.objects,
            Some(final(self)@.state) == spec_next_state(
                old(self)@.state,
                PipelineEvent::ShaderOrLayoutChanged,
            ),
            final(self)@.state != PipelineState::Built,
    {
        match next_state(self.state, PipelineEvent::ShaderOrLayoutChanged) {
            Some(next) => {
                self.state = next;
            },
            None => {},
        }
    }

    /// Begins to rebuild an invalidated pipeline: a fresh object is to be
    /// compiled for the target as it is now. The old object is retired, not
    /// freed: frames recorded against it may still be outstanding.
    ///
    /// Returns `Nothing`, and changes nothing, unless the pipeline is
    /// invalidated.
    pub fn begin_rebuild(&mut self) -> (r: PipelineAction)
        requires
            pipeline_well_formed(old(self)@),
            old(self)@.objects.current < u64::MAX,
        ensures
            pipeline_well_formed(final(self)@),
            old(self)@.state != PipelineState::Invalidated ==> r == PipelineAction::Nothing
                && final(self)@ == old(self)@,
            old(self)@.state == PipelineState::Invalidated ==> {
                &&& r == (PipelineAction::Compile {
                    generation: (old(self)@.objects.current + 1) as u64,
                    target: old(self)@.target,
                })
                &&& final(self)@.state == PipelineState::Rebuilding
                &&& final(self)@.target == old(self)@.target
                &&& final(self)@.built_for == old(self)@.target
                &&& final(self)@.objects == spec_replace(old(self)@.objects)
            },
    {
        match next_state(self.state, PipelineEvent::RebuildStarted) {
            Some(next) => {
                self.objects.replace();
                self.state = next;
                self.built_for = self.target;
                PipelineAction::Compile { generation: self.objects.current(), target: self.target }
            },
            None => PipelineAction::Nothing,
        }
    }

    /// Notes that a pass was recorded against the current object, and
    /// returns its generation. Returns `None`, and notes nothing, unless the
    /// pipeline is built: a stale object takes no new passes.
    pub fn record_use(&mut self) -> (r: Option<u64>)
        requires
            pipeline_well_formed(old(self)@),
            old(self)@.objects.in_flight < u64::MAX,
        ensures
            pipeline_well_formed(final(self)@),
            r is Some <==> old(self)@.state == PipelineState::Built,
            r matches Some(g) ==> g == old(self)@.objects.current && final(self)@ == (
            RenderPipelineView {
                objects: GenerationsView {
                    in_flight: (old(self)@.objects.in_flight + 1) as u64,
                    ..old(self)@.objects
                },
                ..old(self)@
            }),
            r is None ==> final(self)@ == old(self)@,
    {
        if self.state == PipelineState::Built {
            self.objects.record_use();
            Some(self.objects.current())
        } else {
            None
        }
    }

    /// Notes that one pass recorded against the object of the given
    /// generation has completed. Returns whether such a pass was
    /// outstanding; if none was, nothing changes.
    pub fn pass_completed(&mut self, generation: u64) -> (r: bool)
        requires
            pipeline_well_formed(old(self)@),
        ensures
            pipeline_well_formed(final(self)@),
            r == (uses_in_flight(old(self)@.objects, generation) > 0),
            !r ==> final(self)@ == old(self)@,
            final(self)@ == (RenderPipelineView { objects: final(self)@.objects, ..old(self)@ }),
            final(self)@.objects.current == old(self)@.objects.current,
            forall|g: u64| is_live(final(self)@.objects, g) == is_live(old(self)@.objects, g),
            forall|g: u64|
                uses_in_flight(final(self)@.objects, g) == if r && g == generation {
                    (uses_in_flight(old(self)@.objects, g) - 1) as u64
                } else {
                    uses_in_flight(old(self)@.objects, g)
                },
    {
        self.objects.complete(generation)
    }

    /// Drops the replaced objects that no outstanding pass uses and returns
    /// their generations. The current object is never dropped, nor one in
    /// use.
    pub fn release_retired(&mut self) -> (freed: Vec<u64>)
        requires
            pipeline_well_formed(old(self)@),
        ensures
            pipeline_well_formed(final(self)@),
            final(self)@ == (RenderPipelineView {
                objects: spec_release(old(self)@.objects),
                ..old(self)@
            }),
            freed@ == old(self)@.objects.retired.filter(|r: Retired| r.in_flight == 0).map_values(
                |r: Retired| r.generation,
            ),
    {
        self.objects.release()
    }

    /// Notes that the fresh object is ready. Returns whether a rebuild was
    /// under way. It is not when the target changed meanwhile: the pipeline
    /// is then invalidated, and the object that was compiled is stale.
    pub fn finish_rebuild(&mut self) -> (r: bool)
        requires
            pipeline_well_formed(old(self)@),
        ensures
            pipeline_well_formed(final(self)@),
            r == (old(self)@.state == PipelineState::Rebuilding),
            r ==> final(self)@ == (RenderPipelineView {
                state: PipelineState::Built,
                ..old(self)@
            }),
            !r ==> final(self)@ == old(self)@,
    {
        match next_state(self.state, PipelineEvent::RebuildFinished) {
            Some(next) => {
                self.state = next;
                true
            },
            None => false,
        }
    }
}

/// The two pipelines of a frame.
#[derive(Clone, Copy, Debug, PartialEq, Eq, Structural)]
pub enum PipelineKind {
    /// Draws the meshes: vertex and instance input, the texture array
    /// sampled by layer index and sampler flag.
    MainScene,
    /// Draws the depth buffer as colour over the whole target.
    DepthVisualization,
}

/// The depth test of the main scene pipeline: against a depth buffer in the
/// depth format, nearer fragments win and are written.
pub open spec fn scene_depth_test() -> DepthStencilState {
    DepthStencilState {
        format: TextureFormat::Depth32Float,
        depth_write_enabled: true,
        depth_test: DepthTest::Less,
    }
}

/// Whether `p` is the main scene pipeline for a target of the given format:
/// the given bind group layout, a buffer of mesh vertices and a buffer of
/// instances, and a depth test if and only if `depth_test` is set.
pub open spec fn is_main_scene_pipeline(
    p: RenderPipelineDescriptor,
    format: TextureFormat,
    shader: ShaderModuleId,
    bind_group_layout: BindGroupLayout,
    depth_test: bool,
) -> bool {
    &&& is_scene_pipeline(p, format, shader)
    &&& p.label@ == "Render Pipeline"@
    &&& p.bind_group_layouts@.len() == 1
    &&& p.bind_group_layouts@[0]@ == bind_group_layout@
    &&& p.bind_group_layouts@[0].spec_label() == bind_group_layout.spec_label()
    &&& p.buffers@.len() == 2
    &&& is_vertex_layout(p.buffers@[0])
    &&& is_instance_layout(p.buffers@[1])
    &&& p.depth_stencil == if depth_test {
        Some(scene_depth_test())
    } else {
        None
    }
}

/// Describes the main scene pipeline for a target of the given format.
pub fn main_scene_pipeline(
    format: TextureFormat,
    shader: ShaderModuleId,
    bind_group_layout: BindGroupLayout,
    depth_test: bool,
) -> (r: RenderPipelineDescriptor)
    ensures
        is_main_scene_pipeline(r, format, shader, bind_group_layout, depth_test),
{
    let mut bind_group_layouts: Vec<BindGroupLayout> = Vec::new();
    bind_group_layouts.push(bind_group_layout);
    let mut buffers: Vec<VertexBufferLayout> = Vec::new();
    buffers.push(ModelVertex::desc());
    buffers.push(MainInstanceRaw::desc());
    let depth_stencil = if depth_test {
        Some(
            DepthStencilState {
                format: TextureFormat::Depth32Float,
                depth_write_enabled: true,
                depth_test: DepthTest::Less,
            },
        )
    } else {
        None
    };
    RenderPipelineDescriptor {
        label: "Render Pipeline".to_owned(),
        layout_label: "Render Pipeline Layout".to_owned(),
        bind_group_layouts,
        shader,
        vertex_entry_point: "vs_main".to_owned(),
        fragment_entry_point: "fs_main".to_owned(),
        buffers,
        targets: replacing_targets(format),
        primitive: fixed_primitive(),
        depth_stencil,
        multisample: no_multisampling(),
    }
}

/// What a [`RenderPipelineSet`] holds, as mathematics.
pub ghost struct RenderPipelineSetView {
    pub main_scene: RenderPipelineView,
    pub depth_visualization: RenderPipelineView,
}

impl RenderPipelineSetView {
    /// The pipeline of the given kind.
    pub open spec fn of(self, kind: PipelineKind) -> RenderPipelineView {
        match kind {
            PipelineKind::MainScene => self.main_scene,
            PipelineKind::DepthVisualization => self.depth_visualization,
        }
    }
}

/// The pipelines of a frame, both for one render target.
#[derive(Debug)]
pub struct RenderPipelineSet {
    main_scene: RenderPipeline,
    depth_visualization: RenderPipeline,
}

impl View for RenderPipelineSet {
    type V = RenderPipelineSetView;

    closed spec fn view(&self) -> RenderPipelineSetView {
        RenderPipelineSetView {
            main_scene: self.main_scene@,
            depth_visualization: self.depth_visualization@,
        }
    }
}

/// The invariant: each pipeline is well formed, and both know the same
/// target.
pub open spec fn pipeline_set_well_formed(v: RenderPipelineSetView) -> bool {
    &&& pipeline_well_formed(v.main_scene)
    &&& pipeline_well_formed(v.depth_visualization)
    &&& v.main_scene.target == v.depth_visualization.target
}

impl RenderPipelineSet {
    /// Two pipelines of which nothing is built yet.
    pub fn new(target: RenderTargetConfig) -> (r: RenderPipelineSet)
        ensures
            pipeline_set_well_formed(r@),
            forall|kind: PipelineKind|
                (#[trigger] r@.of(kind)).state == PipelineState::Uninitialized && r@.of(kind).target
                    == target,
    {
        RenderPipelineSet {
            main_scene: RenderPipeline::new(target),
            depth_visualization: RenderPipeline::new(target),
        }
    }

    /// The pipeline of the given kind.
    pub fn get(&self, kind: PipelineKind) -> (r: &RenderPipeline)
        ensures
            r@ == self@.of(kind),
    {
        match kind {
            PipelineKind::MainScene => &self.main_scene,
            PipelineKind::DepthVisualization => &self.depth_visualization,
        }
    }

    /// Whether a frame may be recorded: both pipelines are built, and then
    /// both fit the target.
    pub fn usable(&self) -> (r: bool)
        requires
            pipeline_set_well_formed(self@),
        ensures
            r == (forall|kind: PipelineKind|
                (#[trigger] self@.of(kind)).state == PipelineState::Built),
            r ==> forall|kind: PipelineKind|
                (#[trigger] self@.of(kind)).built_for == self@.main_scene.target,
    {
        let r = self.main_scene.usable() && self.depth_visualization.usable();
        proof {
            if !r {
                if self@.main_scene.state != PipelineState::Built {
                    assert(self@.of(PipelineKind::MainScene).state != PipelineState::Built);
                } else {
                    assert(self@.of(PipelineKind::DepthVisualization).state
                        != PipelineState::Built);
                }
            }
        }
        r
    }

    /// Notes that the render target changed. Both pipelines depend on its
    /// format, so neither is built afterwards.
    pub fn target_changed(&mut self, target: RenderTargetConfig)
        requires
            pipeline_set_well_formed(old(self)@),
        ensures
            pipeline_set_well_formed(final(self)@),
            forall|kind: PipelineKind|
                {
                    let before = #[trigger] old(self)@.of(kind);
                    let after = final(self)@.of(kind);
                    &&& after.target == target
                    &&& after.built_for == before.built_for
                    &&& after.objects == before.objects
                    &&& Some(after.state) == spec_next_state(
                        before.state,
                        PipelineEvent::TargetChanged,
                    )
                    &&& after.state != PipelineState::Built
                },
    {
        self.main_scene.target_changed(target);
        self.depth_visualization.target_changed(target);
    }

    /// [`RenderPipeline::build`] on the pipeline of the given kind.
    pub fn build(&mut self, kind: PipelineKind) -> (r: bool)
        requires
            pipeline_set_well_formed(old(self)@),
        ensures
            pipeline_set_well_formed(final(self)@),
            r == (old(self)@.of(kind).state == PipelineState::Uninitialized),
            r ==> final(self)@.of(kind) == (RenderPipelineView {
                state: PipelineState::Built,
                built_for: old(self)@.of(kind).target,
                ..old(self)@.of(kind)
            }),
            !r ==> final(self)@ == old(self)@,
            forall|other: PipelineKind|
                other != kind ==> #[trigger] final(self)@.of(other) == old(self)@.of(other),
    {
        match kind {
            PipelineKind::MainScene => self.main_scene.build(),
            PipelineKind::DepthVisualization => self.depth_visualization.build(),
        }
    }

    /// [`RenderPipeline::begin_rebuild`] on the pipeline of the given kind.
    pub fn begin_rebuild(&mut self, kind: PipelineKind) -> (r: PipelineAction)
        requires
            pipeline_set_well_formed(old(self)@),
            old(self)@.of(kind).objects.current < u64::MAX,
        ensures
            pipeline_set_well_formed(final(self)@),
            old(self)@.of(kind).state != PipelineState::Invalidated ==> r
                == PipelineAction::Nothing && final(self)@ == old(self)@,
            old(self)@.of(kind).state == PipelineState::Invalidated ==> {
                let before = old(self)@.of(kind);
                let after = final(self)@.of(kind);
                &&& r == (PipelineAction::Compile {
                    generation: (before.objects.current + 1) as u64,
                    target: before.target,
                })
                &&& after.state == PipelineState::Rebuilding
                &&& after.target == before.target
                &&& after.built_for == before.target
                &&& after.objects == spec_replace(before.objects)
            },
            forall|other: PipelineKind|
                other != kind ==> #[trigger] final(self)@.of(other) == old(self)@.of(other),
    {
        match kind {
            PipelineKind::MainScene => self.main_scene.begin_rebuild(),
            PipelineKind::DepthVisualization => self.depth_visualization.begin_rebuild(),
        }
    }

    /// [`RenderPipeline::finish_rebuild`] on the pipeline of the given kind.
    pub fn finish_rebuild(&mut self, kind: PipelineKind) -> (r: bool)
        requires
            pipeline_set_well_formed(old(self)@),
        ensures
            pipeline_set_well_formed(final(self)@),
            r == (old(self)@.of(kind).state == PipelineState::Rebuilding),
            r ==> final(self)@.of(kind) == (RenderPipelineView {
                state: PipelineState::Built,
                ..old(self)@.of(kind)
            }),
            !r ==> final(self)@ == old(self)@,
            forall|other: PipelineKind|
                other != kind ==> #[trigger] final(self)@.of(other) == old(self)@.of(other),
    {
        match kind {
            PipelineKind::MainScene => self.main_scene.finish_rebuild(),
            PipelineKind::DepthVisualization => self.depth_visualization.finish_rebuild(),
        }
    }
}

} // verus!
