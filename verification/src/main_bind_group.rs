//! The bind group of the main scene pass: everything that enters its
//! fragment shader besides vertex input.
//!
//! Separate textures cannot be indexed dynamically within one draw, so the
//! scene's images live in one layered texture and the shader picks the layer.
//! All layers then have one size.

use vstd::prelude::*;
use crate::error::ConstructionError;
use crate::layout::{
    arity_matches, bound_entries, build_bind_group, fragment_slots, layout, layout_kinds,
    texture_rank, BindGroup, BindGroupEntry, BindGroupLayout, BindingResource, BindingSlot,
    LayoutKind, SamplerId, TextureViewId,
};

verus! {

/// The slots of the main scene layout: the layered colour texture (declared
/// with `number_of_textures` elements), a linear and a nearest sampler, the
/// depth texture and its non-filtering sampler.
pub open spec fn main_scene_slots(number_of_textures: u32) -> Seq<BindingSlot> {
    let plain = fragment_slots(layout_kinds(LayoutKind::MainSceneWithDepth));
    plain.update(0, BindingSlot { count: Some(number_of_textures), ..plain[0] })
}

/// The entries of the main scene bind group over its own layout.
pub open spec fn main_scene_entries(
    texture_view: TextureViewId,
    linear_sampler: SamplerId,
    nearest_sampler: SamplerId,
    depth_texture_view: TextureViewId,
    depth_texture_sampler: SamplerId,
) -> Seq<BindGroupEntry> {
    seq![
        BindGroupEntry { binding: 0, resource: BindingResource::TextureView(texture_view) },
        BindGroupEntry { binding: 1, resource: BindingResource::Sampler(linear_sampler) },
        BindGroupEntry { binding: 2, resource: BindingResource::Sampler(nearest_sampler) },
        BindGroupEntry { binding: 3, resource: BindingResource::TextureView(depth_texture_view) },
        BindGroupEntry { binding: 4, resource: BindingResource::Sampler(depth_texture_sampler) },
    ]
}

/// Over the main scene layout two texture views and three samplers match
/// the slots, and they are bound at 0 and 3, and at 1, 2 and 4.
pub proof fn lemma_main_scene_binding(
    number_of_textures: u32,
    texture_view: TextureViewId,
    linear_sampler: SamplerId,
    nearest_sampler: SamplerId,
    depth_texture_view: TextureViewId,
    depth_texture_sampler: SamplerId,
)
    ensures
        arity_matches(main_scene_slots(number_of_textures), 2, 3),
        bound_entries(
            main_scene_slots(number_of_textures),
            seq![texture_view, depth_texture_view],
            seq![linear_sampler, nearest_sampler, depth_texture_sampler],
        ) == main_scene_entries(
            texture_view,
            linear_sampler,
            nearest_sampler,
            depth_texture_view,
            depth_texture_sampler,
        ),
{
    reveal_with_fuel(texture_rank, 6);
    assert(bound_entries(
        main_scene_slots(number_of_textures),
        seq![texture_view, depth_texture_view],
        seq![linear_sampler, nearest_sampler, depth_texture_sampler],
    ) =~= main_scene_entries(
        texture_view,
        linear_sampler,
        nearest_sampler,
        depth_texture_view,
        depth_texture_sampler,
    ));
}

/// Binds the scene's layered texture, its two samplers, the depth texture
/// and the depth sampler to `layout`.
///
/// Fails with `SlotArityError` unless `layout` has slots for exactly two
/// texture views and three samplers.
pub fn create_bind_group(
    layout: &BindGroupLayout,
    label: &str,
    texture_view: TextureViewId,
    linear_sampler: SamplerId,
    nearest_sampler: SamplerId,
    depth_texture_view: TextureViewId,
    depth_texture_sampler: SamplerId,
) -> (r: Result<BindGroup, ConstructionError>)
    ensures
        r is Ok <==> arity_matches(layout@, 2, 3),
        r matches Ok(g) ==> g.label@ == label@ && g.entries@ == bound_entries(
            layout@,
            seq![texture_view, depth_texture_view],
            seq![linear_sampler, nearest_sampler, depth_texture_sampler],
        ),
        r matches Err(e) ==> e == ConstructionError::SlotArityError,
{
    let mut textures: Vec<TextureViewId> = Vec::new();
    textures.push(texture_view);
    textures.push(depth_texture_view);
    let mut samplers: Vec<SamplerId> = Vec::new();
    samplers.push(linear_sampler);
    samplers.push(nearest_sampler);
    samplers.push(depth_texture_sampler);
    assert(textures@ =~= seq![texture_view, depth_texture_view]);
    assert(samplers@ =~= seq![linear_sampler, nearest_sampler, depth_texture_sampler]);
    build_bind_group(layout, &textures, &samplers, label)
}

/// The layout of the main scene bind group. `number_of_textures` is recorded
/// as the element count of the colour texture slot and must not be 0.
pub fn create_bind_group_layout(number_of_textures: u32) -> (r: BindGroupLayout)
    requires
        number_of_textures > 0,
    ensures
        r@ == main_scene_slots(number_of_textures),
        r.spec_label() == "texture_bind_group_layout"@,
{
    layout(LayoutKind::MainSceneWithDepth).with_first_count(number_of_textures)
}

} // verus!
