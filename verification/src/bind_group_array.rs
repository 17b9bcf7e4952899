//! The bind group of a pass that writes a storage texture array.

use vstd::prelude::*;
use crate::error::ConstructionError;
use crate::layout::{
    arity_matches, bound_entries, build_bind_group, fragment_slots, layout, layout_kinds,
    texture_rank, BindGroup, BindGroupEntry, BindGroupLayout, BindingResource, LayoutKind,
    SamplerId, TextureViewId,
};

verus! {

/// The entries of the storage bind group over its own layout.
pub open spec fn storage_entries(
    texture: TextureViewId,
    linear_sampler: SamplerId,
    nearest_sampler: SamplerId,
) -> Seq<BindGroupEntry> {
    seq![
        BindGroupEntry { binding: 0, resource: BindingResource::TextureView(texture) },
        BindGroupEntry { binding: 1, resource: BindingResource::Sampler(linear_sampler) },
        BindGroupEntry { binding: 2, resource: BindingResource::Sampler(nearest_sampler) },
    ]
}

/// Over the storage layout, and over the plain main scene layout, one
/// texture view and two samplers match the slots and are bound at 0, 1 and 2.
pub proof fn lemma_storage_binding(
    kind: LayoutKind,
    texture: TextureViewId,
    linear_sampler: SamplerId,
    nearest_sampler: SamplerId,
)
    requires
        kind == LayoutKind::StorageArray || kind == LayoutKind::MainScene,
    ensures
        arity_matches(fragment_slots(layout_kinds(kind)), 1, 2),
        bound_entries(
            fragment_slots(layout_kinds(kind)),
            seq![texture],
            seq![linear_sampler, nearest_sampler],
        ) == storage_entries(texture, linear_sampler, nearest_sampler),
{
    reveal_with_fuel(texture_rank, 4);
    assert(bound_entries(
        fragment_slots(layout_kinds(kind)),
        seq![texture],
        seq![linear_sampler, nearest_sampler],
    ) =~= storage_entries(texture, linear_sampler, nearest_sampler));
}

/// Binds one view over all layers of the texture and two samplers to
/// `layout`.
///
/// Fails with `SlotArityError` unless `layout` has slots for exactly one
/// texture view and two samplers.
pub fn create_bind_group(
    layout: &BindGroupLayout,
    label: &str,
    texture: TextureViewId,
    linear_sampler: SamplerId,
    nearest_sampler: SamplerId,
) -> (r: Result<BindGroup, ConstructionError>)
    ensures
        r is Ok <==> arity_matches(layout@, 1, 2),
        r matches Ok(g) ==> g.label@ == label@ && g.entries@ == bound_entries(
            layout@,
            seq![texture],
            seq![linear_sampler, nearest_sampler],
        ),
        r matches Err(e) ==> e == ConstructionError::SlotArityError,
{
    let mut textures: Vec<TextureViewId> = Vec::new();
    textures.push(texture);
    let mut samplers: Vec<SamplerId> = Vec::new();
    samplers.push(linear_sampler);
    samplers.push(nearest_sampler);
    assert(textures@ =~= seq![texture]);
    assert(samplers@ =~= seq![linear_sampler, nearest_sampler]);
    build_bind_group(layout, &textures, &samplers, label)
}

/// The layout of the storage bind group: a write-only storage texture array
/// in the crate's texture format, then two filtering samplers.
pub fn create_bind_group_layout() -> (r: BindGroupLayout)
    ensures
        r@ == fragment_slots(layout_kinds(LayoutKind::StorageArray)),
        r.spec_label() == "texture_bind_group_layout"@,
{
    layout(LayoutKind::StorageArray)
}

} // verus!
