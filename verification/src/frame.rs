//! One frame: which passes are recorded, in which order, and what is done
//! with them.
//!
//! The owner of the device asks the surface for the next target image and
//! hands the answer to [`plan_frame`]. On a plan it opens one recording
//! scope, records the passes in order, closes the scope, submits once and
//! presents. Without a plan it records nothing and submits nothing.

use vstd::prelude::*;
use crate::error::{FrameError, TransientSurfaceError};
use crate::layout::TextureViewId;
use crate::pipeline::PipelineKind;
use crate::render_pass::{ColorAttachment, DepthAttachment, DepthLoadOp, LoadOp, Operations};
use crate::sampler::F32_ONE;

verus! {

/// What the surface answered when asked for the next target image.
#[derive(Clone, Copy, Debug, PartialEq, Eq, Structural)]
pub enum AcquireOutcome {
    /// The image, by the view over it.
    Acquired(TextureViewId),
    /// The surface is stale and has to be configured again.
    Lost,
    /// The surface no longer fits the window.
    Outdated,
    /// The device is gone.
    DeviceLost,
}

/// What the caller wants of a frame.
#[derive(Clone, Copy, Debug, PartialEq, Eq, Structural)]
pub struct FrameRequest {
    /// Whether the scene pass clears the target or draws on what is there.
    pub scene_load: LoadOp,
    /// The depth buffer that the scene pass tests against and writes, if
    /// it tests depth.
    pub depth_buffer: Option<TextureViewId>,
    /// Whether the depth buffer is drawn over the scene afterwards.
    pub depth_overlay: bool,
}

/// One pass of a frame.
#[derive(Clone, Copy, Debug, PartialEq, Eq, Structural)]
pub struct PassPlan {
    pub pipeline: PipelineKind,
    pub color: ColorAttachment,
    pub depth: Option<DepthAttachment>,
}

/// One step of a frame, as the owner of the device performs it.
#[derive(Clone, Copy, Debug, PartialEq, Eq, Structural)]
pub enum FrameAction {
    /// Open the recording scope.
    BeginRecording,
    /// Record the pass at this place of the plan.
    RecordPass(usize),
    /// Close the recording scope.
    EndRecording,
    /// Hand what was recorded to the queue.
    Submit,
    /// Show the target image.
    Present,
}

/// The passes of a frame into one target image.
#[derive(Clone, Debug)]
pub struct FramePlan {
    pub target: TextureViewId,
    pub passes: Vec<PassPlan>,
}

/// The scene pass: it writes colour under the caller's load policy, and
/// depth, cleared to the far plane, if a depth buffer is given.
pub open spec fn scene_pass(target: TextureViewId, request: FrameRequest) -> PassPlan {
    PassPlan {
        pipeline: PipelineKind::MainScene,
        color: ColorAttachment {
            view: target,
            resolve_target: None,
            ops: Operations { load: request.scene_load, store: true },
        },
        depth: match request.depth_buffer {
            Some(view) => Some(
                DepthAttachment { view, load: DepthLoadOp::Clear(F32_ONE), store: true },
            ),
            None => None,
        },
    }
}

/// The overlay pass: it draws over the colour that the scene pass left,
/// which it loads and never clears, and tests no depth.
pub open spec fn overlay_pass(target: TextureViewId) -> PassPlan {
    PassPlan {
        pipeline: PipelineKind::DepthVisualization,
        color: ColorAttachment {
            view: target,
            resolve_target: None,
            ops: Operations { load: LoadOp::Load, store: true },
        },
        depth: None,
    }
}

/// The passes of a frame: the scene, then the overlay if one is wanted.
pub open spec fn planned_passes(target: TextureViewId, request: FrameRequest) -> Seq<PassPlan> {
    if request.depth_overlay {
        seq![scene_pass(target, request), overlay_pass(target)]
    } else {
        seq![scene_pass(target, request)]
    }
}

/// The steps of a frame of `passes` passes: one recording scope around all
/// passes in order, then one submission, then the presentation.
pub open spec fn frame_actions(passes: nat) -> Seq<FrameAction> {
    seq![FrameAction::BeginRecording] + Seq::new(
        passes,
        |i: int| FrameAction::RecordPass(i as usize),
    ) + seq![FrameAction::EndRecording, FrameAction::Submit, FrameAction::Present]
}

/// What [`plan_frame`] answers to each outcome of the acquisition.
pub open spec fn spec_plan_frame(acquired: AcquireOutcome, request: FrameRequest) -> Result<
    (TextureViewId, Seq<PassPlan>),
    FrameError,
> {
    match acquired {
        AcquireOutcome::Acquired(target) => Ok((target, planned_passes(target, request))),
        AcquireOutcome::Lost => Err(FrameError::Transient(TransientSurfaceError::SurfaceLost)),
        AcquireOutcome::Outdated => Err(
            FrameError::Transient(TransientSurfaceError::SurfaceOutdated),
        ),
        AcquireOutcome::DeviceLost => Err(FrameError::DeviceLost),
    }
}

/// An overlay never erases the scene: wherever a frame has a pass after the
/// first, that pass loads the colour that is in the target, and it writes
/// to the same target as the pass before it.
pub proof fn lemma_later_passes_load(target: TextureViewId, request: FrameRequest, i: int)
    requires
        0 < i < planned_passes(target, request).len(),
    ensures
        planned_passes(target, request)[i].color.ops.load == LoadOp::Load,
        planned_passes(target, request)[i].color.view == planned_passes(
            target,
            request,
        )[i - 1].color.view,
        planned_passes(target, request)[i - 1].pipeline == PipelineKind::MainScene,
        planned_passes(target, request)[i].pipeline == PipelineKind::DepthVisualization,
{
}

/// In the steps of a frame everything is recorded before the one `Submit`,
/// and `Present` comes last.
pub proof fn lemma_single_submission(passes: nat)
    ensures
        frame_actions(passes).len() == passes + 4,
        frame_actions(passes)[0] == FrameAction::BeginRecording,
        forall|i: int|
            0 <= i < passes ==> #[trigger] frame_actions(passes)[i + 1] == FrameAction::RecordPass(
                i as usize,
            ),
        frame_actions(passes)[passes as int + 1] == FrameAction::EndRecording,
        frame_actions(passes)[passes as int + 2] == FrameAction::Submit,
        frame_actions(passes)[passes as int + 3] == FrameAction::Present,
        forall|i: int|
            0 <= i < frame_actions(passes).len() && #[trigger] frame_actions(passes)[i]
                == FrameAction::Submit ==> i == passes + 2,
{
}

/// Plans the frame that follows an acquisition.
///
/// With a target image the plan holds the scene pass and, if wanted, the
/// overlay pass after it. A lost or outdated surface gives a transient
/// error and a lost device `DeviceLost`; then there is no plan, so nothing
/// is recorded or submitted.
pub fn plan_frame(acquired: AcquireOutcome, request: &FrameRequest) -> (r: Result<
    FramePlan,
    FrameError,
>)
    ensures
        match r {
            Ok(plan) => spec_plan_frame(acquired, *request) == Ok::<
                (TextureViewId, Seq<PassPlan>),
                FrameError,
            >((plan.target, plan.passes@)),
            Err(e) => spec_plan_frame(acquired, *request) == Err::<
                (TextureViewId, Seq<PassPlan>),
                FrameError,
            >(e),
        },
{
    let target = match acquired {
        AcquireOutcome::Acquired(target) => target,
        AcquireOutcome::Lost => {
            return Err(FrameError::Transient(TransientSurfaceError::SurfaceLost));
        },
        AcquireOutcome::Outdated => {
            return Err(FrameError::Transient(TransientSurfaceError::SurfaceOutdated));
        },
        AcquireOutcome::DeviceLost => {
            return Err(FrameError::DeviceLost);
        },
    };
    let mut passes: Vec<PassPlan> = Vec::new();
    passes.push(
        PassPlan {
            pipeline: PipelineKind::MainScene,
            color: ColorAttachment {
                view: target,
                resolve_target: None,
                ops: Operations { load: request.scene_load, store: true },
            },
            depth: match request.depth_buffer {
                Some(view) => Some(
                    DepthAttachment { view, load: DepthLoadOp::Clear(F32_ONE), store: true },
                ),
                None => None,
            },
        },
    );
    if request.depth_overlay {
        passes.push(
            PassPlan {
                pipeline: PipelineKind::DepthVisualization,
                color: ColorAttachment {
                    view: target,
                    resolve_target: None,
                    ops: Operations { load: LoadOp::Load, store: true },
                },
                depth: None,
            },
        );
    }
    assert(passes@ =~= planned_passes(target, *request));
    Ok(FramePlan { target, passes })
}

impl FramePlan {
    /// The steps of the frame, in the order in which they are performed.
    pub fn actions(&self) -> (r: Vec<FrameAction>)
        ensures
            r@ == frame_actions(self.passes@.len()),
    {
        let mut actions: Vec<FrameAction> = Vec::new();
        actions.push(FrameAction::BeginRecording);
        let mut i: usize = 0;
        while i < self.passes.len()
            invariant
                i <= self.passes.len(),
                actions@ == seq![FrameAction::BeginRecording] + Seq::new(
                    i as nat,
                    |k: int| FrameAction::RecordPass(k as usize),
                ),
            decreases self.passes.len() - i,
        {
            actions.push(FrameAction::RecordPass(i));
            assert(actions@ =~= seq![FrameAction::BeginRecording] + Seq::new(
                (i + 1) as nat,
                |k: int| FrameAction::RecordPass(k as usize),
            ));
            i += 1;
        }
        actions.push(FrameAction::EndRecording);
        actions.push(FrameAction::Submit);
        actions.push(FrameAction::Present);
        assert(actions@ =~= frame_actions(self.passes@.len()));
        actions
    }
}

} // verus!
