//! The bind group of the depth-visualization pass.

use vstd::prelude::*;
use crate::error::ConstructionError;
use crate::layout::{
    arity_matches, bound_entries, build_bind_group, fragment_slots, layout, layout_kinds,
    texture_rank, BindGroup, BindGroupEntry, BindGroupLayout, BindingResource, LayoutKind,
    SamplerId, TextureViewId,
};

verus! {

/// The entries of the depth-visualization bind group over its own layout.
pub open spec fn depth_vis_entries(depth_texture_view: TextureViewId, sampler: SamplerId) -> Seq<
    BindGroupEntry,
> {
    seq![
        BindGroupEntry { binding: 0, resource: BindingResource::TextureView(depth_texture_view) },
        BindGroupEntry { binding: 1, resource: BindingResource::Sampler(sampler) },
    ]
}

/// Over the depth-visualization layout one texture view and one sampler
/// match the slots and are bound at 0 and 1.
pub proof fn lemma_depth_vis_binding(depth_texture_view: TextureViewId, sampler: SamplerId)
    ensures
        arity_matches(fragment_slots(layout_kinds(LayoutKind::DepthVisualization)), 1, 1),
        bound_entries(
            fragment_slots(layout_kinds(LayoutKind::DepthVisualization)),
            seq![depth_texture_view],
            seq![sampler],
        ) == depth_vis_entries(depth_texture_view, sampler),
{
    reveal_with_fuel(texture_rank, 3);
    assert(bound_entries(
        fragment_slots(layout_kinds(LayoutKind::DepthVisualization)),
        seq![depth_texture_view],
        seq![sampler],
    ) =~= depth_vis_entries(depth_texture_view, sampler));
}

/// Binds the depth texture's view and its sampler to `layout`, under the
/// label `depth_vis_bind_group`.
///
/// Fails with `SlotArityError` unless `layout` has slots for exactly one
/// texture view and one sampler.
pub fn create_depth_vis_bind_group(
    layout: &BindGroupLayout,
    depth_texture_view: TextureViewId,
    sampler: SamplerId,
) -> (r: Result<BindGroup, ConstructionError>)
    ensures
        r is Ok <==> arity_matches(layout@, 1, 1),
        r matches Ok(g) ==> g.label@ == "depth_vis_bind_group"@ && g.entries@ == bound_entries(
            layout@,
            seq![depth_texture_view],
            seq![sampler],
        ),
        r matches Err(e) ==> e == ConstructionError::SlotArityError,
{
    let mut textures: Vec<TextureViewId> = Vec::new();
    textures.push(depth_texture_view);
    let mut samplers: Vec<SamplerId> = Vec::new();
    samplers.push(sampler);
    assert(textures@ =~= seq![depth_texture_view]);
    assert(samplers@ =~= seq![sampler]);
    build_bind_group(layout, &textures, &samplers, "depth_vis_bind_group")
}

/// The layout of the depth-visualization bind group: the depth texture,
/// sampled without filtering, then a non-filtering sampler.
pub fn create_depth_vis_bind_group_layout() -> (r: BindGroupLayout)
    ensures
        r@ == fragment_slots(layout_kinds(LayoutKind::DepthVisualization)),
        r.spec_label() == "depth_tx_bind_group_layout"@,
{
    layout(LayoutKind::DepthVisualization)
}

} // verus!
