use render_resources::depth_state::DepthState;
use render_resources::error::{FrameError, TransientSurfaceError};
use render_resources::frame::{
    plan_frame, AcquireOutcome, FrameAction, FrameRequest, PassPlan,
};
use render_resources::globals::{RenderTargetConfig, TextureFormat};
use render_resources::layout::TextureViewId;
use render_resources::pipeline::{PipelineKind, ShaderModuleId};
use render_resources::render_pass::{
    Color, ColorAttachment, DepthAttachment, DepthLoadOp, LoadOp, Operations,
};

fn sky() -> Color {
    Color { r: 0.1f64.to_bits(), g: 0.2f64.to_bits(), b: 0.3f64.to_bits(), a: 1.0f64.to_bits() }
}

fn request(scene_load: LoadOp, depth_buffer: Option<u64>, depth_overlay: bool) -> FrameRequest {
    FrameRequest { scene_load, depth_buffer: depth_buffer.map(TextureViewId), depth_overlay }
}

fn color(view: u64, load: LoadOp) -> ColorAttachment {
    ColorAttachment {
        view: TextureViewId(view),
        resolve_target: None,
        ops: Operations { load, store: true },
    }
}

fn acquired(view: u64) -> AcquireOutcome {
    AcquireOutcome::Acquired(TextureViewId(view))
}

#[test]
fn frame_without_overlay_has_the_scene_pass_alone() {
    let plan = plan_frame(acquired(5), &request(LoadOp::Clear(sky()), None, false)).unwrap();
    assert_eq!(plan.target, TextureViewId(5));
    assert_eq!(
        plan.passes,
        vec![PassPlan {
            pipeline: PipelineKind::MainScene,
            color: color(5, LoadOp::Clear(sky())),
            depth: None,
        }]
    );
}

#[test]
fn frame_with_overlay_has_the_scene_pass_then_the_overlay() {
    let plan = plan_frame(acquired(5), &request(LoadOp::Clear(sky()), Some(9), true)).unwrap();
    assert_eq!(
        plan.passes,
        vec![
            PassPlan {
                pipeline: PipelineKind::MainScene,
                color: color(5, LoadOp::Clear(sky())),
                depth: Some(DepthAttachment {
                    view: TextureViewId(9),
                    load: DepthLoadOp::Clear(1.0f32.to_bits()),
                    store: true,
                }),
            },
            PassPlan {
                pipeline: PipelineKind::DepthVisualization,
                color: color(5, LoadOp::Load),
                depth: None,
            },
        ]
    );
}

#[test]
fn scene_pass_may_load_and_the_overlay_always_loads() {
    for scene_load in [LoadOp::Load, LoadOp::Clear(sky())] {
        let plan = plan_frame(acquired(1), &request(scene_load, None, true)).unwrap();
        assert_eq!(plan.passes.len(), 2);
        assert_eq!(plan.passes[0].color.ops.load, scene_load);
        assert_eq!(plan.passes[1].color.ops.load, LoadOp::Load);
        assert_eq!(plan.passes[1].color.view, plan.passes[0].color.view);
        assert!(plan.passes[0].color.ops.store);
        assert!(plan.passes[1].color.ops.store);
    }
}

#[test]
fn lost_surface_is_a_transient_error() {
    let result = plan_frame(AcquireOutcome::Lost, &request(LoadOp::Load, None, true));
    assert_eq!(result.err(), Some(FrameError::Transient(TransientSurfaceError::SurfaceLost)));
}

#[test]
fn outdated_surface_is_a_transient_error() {
    let result = plan_frame(AcquireOutcome::Outdated, &request(LoadOp::Load, Some(1), false));
    assert_eq!(result.err(), Some(FrameError::Transient(TransientSurfaceError::SurfaceOutdated)));
}

#[test]
fn lost_device_is_not_transient() {
    let result = plan_frame(AcquireOutcome::DeviceLost, &request(LoadOp::Load, None, false));
    assert_eq!(result.err(), Some(FrameError::DeviceLost));
}

#[test]
fn frame_is_recorded_in_one_scope_and_submitted_once() {
    let plan = plan_frame(acquired(5), &request(LoadOp::Load, None, true)).unwrap();
    let actions = plan.actions();
    assert_eq!(
        actions,
        vec![
            FrameAction::BeginRecording,
            FrameAction::RecordPass(0),
            FrameAction::RecordPass(1),
            FrameAction::EndRecording,
            FrameAction::Submit,
            FrameAction::Present,
        ]
    );
    assert_eq!(actions.iter().filter(|a| **a == FrameAction::Submit).count(), 1);
}

#[test]
fn frame_of_one_pass_has_five_steps() {
    let plan = plan_frame(acquired(5), &request(LoadOp::Load, None, false)).unwrap();
    assert_eq!(
        plan.actions(),
        vec![
            FrameAction::BeginRecording,
            FrameAction::RecordPass(0),
            FrameAction::EndRecording,
            FrameAction::Submit,
            FrameAction::Present,
        ]
    );
}

#[test]
fn overlay_pass_of_the_plan_is_the_pass_that_the_depth_state_builds() {
    let config = RenderTargetConfig { width: 64, height: 64, format: TextureFormat::Bgra8Unorm };
    let mut depth = DepthState::new(&config, ShaderModuleId(0));
    let frame = request(LoadOp::Clear(sky()), Some(depth.depth_view().0), true);
    let plan = plan_frame(AcquireOutcome::Acquired(TextureViewId(40)), &frame).unwrap();
    let pass = depth.build_render_pass(plan.target);
    assert_eq!(pass.color_attachments, vec![Some(plan.passes[1].color)]);
    assert_eq!(pass.depth_stencil_attachment, plan.passes[1].depth);
}
