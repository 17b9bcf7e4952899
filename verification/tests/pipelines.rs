use render_resources::globals::{RenderTargetConfig, TextureFormat};
use render_resources::layout::{layout, LayoutKind};
use render_resources::lifetime::Retired;
use render_resources::main_bind_group::create_bind_group_layout;
use render_resources::main_instance::MainInstanceRaw;
use render_resources::model::ModelVertex;
use render_resources::pipeline::{
    main_scene_pipeline, next_state, BlendState, ColorTargetState, ColorWrites, DepthStencilState,
    DepthTest, Face, FrontFace, MultisampleState, PipelineAction, PipelineEvent, PipelineKind,
    PipelineState, PolygonMode, PrimitiveState, PrimitiveTopology, RenderPipeline,
    RenderPipelineSet, ShaderModuleId,
};
use render_resources::depth_state::depth_vis_pipeline;
use render_resources::pipeline::PipelineEvent::{
    Build, RebuildFinished, RebuildStarted, ShaderOrLayoutChanged, TargetChanged,
};
use render_resources::pipeline::PipelineState::{Built, Invalidated, Rebuilding, Uninitialized};

fn config(width: u32, height: u32, format: TextureFormat) -> RenderTargetConfig {
    RenderTargetConfig { width, height, format }
}

fn small() -> RenderTargetConfig {
    config(640, 480, TextureFormat::Bgra8UnormSrgb)
}

fn large() -> RenderTargetConfig {
    config(1920, 1080, TextureFormat::Bgra8UnormSrgb)
}

fn fixed_policy() -> PrimitiveState {
    PrimitiveState {
        topology: PrimitiveTopology::TriangleList,
        strip_index_format: None,
        front_face: FrontFace::Ccw,
        cull_mode: Some(Face::Back),
        polygon_mode: PolygonMode::Fill,
        unclipped_depth: false,
        conservative: false,
    }
}

#[test]
fn state_machine_follows_the_build_cycle() {
    assert_eq!(next_state(Uninitialized, Build), Some(Built));
    assert_eq!(next_state(Built, TargetChanged), Some(Invalidated));
    assert_eq!(next_state(Built, ShaderOrLayoutChanged), Some(Invalidated));
    assert_eq!(next_state(Invalidated, RebuildStarted), Some(Rebuilding));
    assert_eq!(next_state(Rebuilding, RebuildFinished), Some(Built));
}

#[test]
fn state_machine_invalidates_on_every_change() {
    for event in [TargetChanged, ShaderOrLayoutChanged] {
        assert_eq!(next_state(Uninitialized, event), Some(Uninitialized));
        assert_eq!(next_state(Built, event), Some(Invalidated));
        assert_eq!(next_state(Invalidated, event), Some(Invalidated));
        assert_eq!(next_state(Rebuilding, event), Some(Invalidated));
    }
}

#[test]
fn state_machine_refuses_what_cannot_happen() {
    assert_eq!(next_state(Uninitialized, RebuildStarted), None);
    assert_eq!(next_state(Uninitialized, RebuildFinished), None);
    assert_eq!(next_state(Built, Build), None);
    assert_eq!(next_state(Built, RebuildStarted), None);
    assert_eq!(next_state(Built, RebuildFinished), None);
    assert_eq!(next_state(Invalidated, Build), None);
    assert_eq!(next_state(Invalidated, RebuildFinished), None);
    assert_eq!(next_state(Rebuilding, Build), None);
    assert_eq!(next_state(Rebuilding, RebuildStarted), None);
}

#[test]
fn pipeline_is_built_once() {
    let mut p = RenderPipeline::new(small());
    assert_eq!(p.state(), PipelineState::Uninitialized);
    assert_eq!(p.target(), small());
    assert!(!p.usable());
    assert!(p.build());
    assert_eq!(p.state(), PipelineState::Built);
    assert!(p.usable());
    assert!(!p.build());
    assert_eq!(p.state(), PipelineState::Built);
    assert_eq!(p.objects().current(), 0);
}

#[test]
fn resize_invalidates_and_rebuild_makes_a_fresh_object() {
    let mut p = RenderPipeline::new(small());
    assert!(p.build());
    assert_eq!(p.record_use(), Some(0));
    p.target_changed(large());
    assert_eq!(p.state(), PipelineState::Invalidated);
    assert_eq!(p.target(), large());
    assert!(!p.usable());
    assert_eq!(p.record_use(), None);
    assert!(!p.finish_rebuild());
    assert_eq!(p.begin_rebuild(), PipelineAction::Compile { generation: 1, target: large() });
    assert_eq!(p.state(), PipelineState::Rebuilding);
    assert_eq!(p.begin_rebuild(), PipelineAction::Nothing);
    assert_eq!(p.objects().retired(), &vec![Retired { generation: 0, in_flight: 1 }]);
    assert!(p.finish_rebuild());
    assert_eq!(p.state(), PipelineState::Built);
    assert!(p.usable());
    assert_eq!(p.record_use(), Some(1));
}

#[test]
fn old_pipeline_object_is_dropped_only_when_unused() {
    let mut p = RenderPipeline::new(small());
    assert!(p.build());
    assert_eq!(p.record_use(), Some(0));
    p.shader_or_layout_changed();
    assert_eq!(p.state(), PipelineState::Invalidated);
    assert_eq!(p.begin_rebuild(), PipelineAction::Compile { generation: 1, target: small() });
    assert!(p.finish_rebuild());
    assert!(p.release_retired().is_empty());
    assert!(p.objects().is_live(0));
    assert!(p.pass_completed(0));
    assert!(!p.pass_completed(0));
    assert_eq!(p.release_retired(), vec![0]);
    assert!(!p.objects().is_live(0));
    assert!(p.objects().is_live(1));
}

#[test]
fn change_during_rebuild_makes_the_rebuild_stale() {
    let mut p = RenderPipeline::new(small());
    assert!(p.build());
    p.target_changed(large());
    assert_eq!(p.begin_rebuild(), PipelineAction::Compile { generation: 1, target: large() });
    p.target_changed(small());
    assert_eq!(p.state(), PipelineState::Invalidated);
    assert!(!p.finish_rebuild());
    assert_eq!(p.begin_rebuild(), PipelineAction::Compile { generation: 2, target: small() });
    assert!(p.finish_rebuild());
    assert!(p.usable());
    assert_eq!(p.release_retired(), vec![0, 1]);
}

#[test]
fn change_before_the_first_build_invalidates_nothing() {
    let mut p = RenderPipeline::new(small());
    p.target_changed(large());
    p.shader_or_layout_changed();
    assert_eq!(p.state(), PipelineState::Uninitialized);
    assert_eq!(p.begin_rebuild(), PipelineAction::Nothing);
    assert!(p.build());
    assert_eq!(p.target(), large());
}

#[test]
fn pipeline_set_is_usable_when_both_are_built() {
    let mut set = RenderPipelineSet::new(small());
    assert!(!set.usable());
    assert!(set.build(PipelineKind::MainScene));
    assert!(!set.usable());
    assert!(set.build(PipelineKind::DepthVisualization));
    assert!(set.usable());
    assert!(!set.build(PipelineKind::MainScene));
}

#[test]
fn pipeline_set_invalidates_both_on_resize() {
    let mut set = RenderPipelineSet::new(small());
    assert!(set.build(PipelineKind::MainScene));
    assert!(set.build(PipelineKind::DepthVisualization));
    set.target_changed(large());
    for kind in [PipelineKind::MainScene, PipelineKind::DepthVisualization] {
        assert_eq!(set.get(kind).state(), PipelineState::Invalidated);
        assert_eq!(set.get(kind).target(), large());
    }
    assert!(!set.usable());
    assert_eq!(
        set.begin_rebuild(PipelineKind::MainScene),
        PipelineAction::Compile { generation: 1, target: large() }
    );
    assert!(set.finish_rebuild(PipelineKind::MainScene));
    assert!(!set.usable());
    assert_eq!(set.get(PipelineKind::DepthVisualization).state(), PipelineState::Invalidated);
    assert!(!set.finish_rebuild(PipelineKind::DepthVisualization));
    assert_eq!(
        set.begin_rebuild(PipelineKind::DepthVisualization),
        PipelineAction::Compile { generation: 1, target: large() }
    );
    assert!(set.finish_rebuild(PipelineKind::DepthVisualization));
    assert!(set.usable());
}

#[test]
fn main_scene_pipeline_with_depth_test() {
    let p = main_scene_pipeline(
        TextureFormat::Bgra8UnormSrgb,
        ShaderModuleId(3),
        create_bind_group_layout(2),
        true,
    );
    assert_eq!(p.label, "Render Pipeline");
    assert_eq!(p.layout_label, "Render Pipeline Layout");
    assert_eq!(p.shader, ShaderModuleId(3));
    assert_eq!(p.vertex_entry_point, "vs_main");
    assert_eq!(p.fragment_entry_point, "fs_main");
    assert_eq!(p.bind_group_layouts.len(), 1);
    assert_eq!(p.bind_group_layouts[0].slots(), create_bind_group_layout(2).slots());
    assert_eq!(p.buffers.len(), 2);
    assert_eq!(p.buffers[0].attributes, ModelVertex::desc().attributes);
    assert_eq!(p.buffers[0].array_stride, 32);
    assert_eq!(p.buffers[1].attributes, MainInstanceRaw::desc().attributes);
    assert_eq!(p.buffers[1].array_stride, 72);
    assert_eq!(
        p.targets,
        vec![Some(ColorTargetState {
            format: TextureFormat::Bgra8UnormSrgb,
            blend: Some(BlendState::Replace),
            write_mask: ColorWrites { red: true, green: true, blue: true, alpha: true },
        })]
    );
    assert_eq!(p.primitive, fixed_policy());
    assert_eq!(
        p.depth_stencil,
        Some(DepthStencilState {
            format: TextureFormat::Depth32Float,
            depth_write_enabled: true,
            depth_test: DepthTest::Less,
        })
    );
    assert_eq!(
        p.multisample,
        MultisampleState { count: 1, mask: u64::MAX, alpha_to_coverage_enabled: false }
    );
}

#[test]
fn main_scene_pipeline_without_depth_test() {
    let p = main_scene_pipeline(
        TextureFormat::Rgba8Unorm,
        ShaderModuleId(3),
        layout(LayoutKind::MainScene),
        false,
    );
    assert_eq!(p.depth_stencil, None);
    assert_eq!(p.targets[0].unwrap().format, TextureFormat::Rgba8Unorm);
    assert_eq!(p.primitive, fixed_policy());
}

#[test]
fn depth_vis_pipeline_never_tests_depth() {
    let p = depth_vis_pipeline(TextureFormat::Rgba8UnormSrgb, ShaderModuleId(8));
    assert_eq!(p.bind_group_layouts.len(), 1);
    assert_eq!(p.bind_group_layouts[0].slots(), layout(LayoutKind::DepthVisualization).slots());
    assert_eq!(p.bind_group_layouts[0].label(), "depth_tx_bind_group_layout");
    assert_eq!(p.label, "Depth Pass Render Pipeline");
    assert_eq!(p.depth_stencil, None);
    assert_eq!(p.targets[0].unwrap().blend, Some(BlendState::Replace));
    assert_eq!(p.primitive, fixed_policy());
    assert_eq!(p.buffers.len(), 1);
}
