//! Binding-slot schemas and the bind groups built against them.
//!
//! A [`BindGroupLayout`] is an ordered list of slots whose indices count up
//! from 0. A [`BindGroup`] names, slot by slot, the texture view or sampler
//! that a shader stage will see there. Both are descriptions: the handles in
//! a bind group stand for resources that the owner of the device keeps, and
//! the bind group borrows them.

use vstd::pervasive::unreached;
use vstd::prelude::*;
use crate::error::ConstructionError;
use crate::globals::{TextureFormat, TEXTURE_FORMAT};

verus! {

/// The shader stages that can see a binding.
#[derive(Clone, Copy, Debug, PartialEq, Eq, Structural)]
pub struct ShaderStages {
    pub vertex: bool,
    pub fragment: bool,
    pub compute: bool,
}

/// Visible to the fragment stage only.
pub open spec fn fragment_only() -> ShaderStages {
    ShaderStages { vertex: false, fragment: true, compute: false }
}

/// What a slot binds.
#[derive(Clone, Copy, Debug, PartialEq, Eq, Structural)]
pub enum ResourceKind {
    /// A layered texture, sampled; the shader picks the layer.
    SampledTextureArray { filterable: bool },
    /// A single two-dimensional texture, sampled.
    SampledTexture2D { filterable: bool },
    /// A sampler that may interpolate between texels.
    FilteringSampler,
    /// A sampler that never interpolates.
    NonFilteringSampler,
    /// A layered texture that the shader writes and never reads.
    StorageTextureArray { format: TextureFormat },
}

/// One entry of a layout.
#[derive(Clone, Copy, Debug, PartialEq, Eq, Structural)]
pub struct BindingSlot {
    pub index: u32,
    pub visibility: ShaderStages,
    pub kind: ResourceKind,
    /// Element count of an arrayed binding (a fixed-size list of separate
    /// textures). Kept for layouts of that older scheme; a layered texture
    /// under one array view needs none.
    pub count: Option<u32>,
}

/// Whether a slot of this kind binds a texture view; the other kinds bind a
/// sampler.
pub open spec fn is_texture_kind(kind: ResourceKind) -> bool {
    kind is SampledTextureArray || kind is SampledTexture2D || kind is StorageTextureArray
}

/// How many of the first `n` slots bind a texture.
pub open spec fn texture_rank(slots: Seq<BindingSlot>, n: int) -> nat
    decreases n,
{
    if n <= 0 {
        0
    } else {
        texture_rank(slots, n - 1) + if is_texture_kind(slots[n - 1].kind) {
            1nat
        } else {
            0nat
        }
    }
}

/// How many of the first `n` slots bind a sampler.
pub open spec fn sampler_rank(slots: Seq<BindingSlot>, n: int) -> nat {
    if n <= 0 {
        0
    } else {
        (n - texture_rank(slots, n)) as nat
    }
}

/// Whether a filtering sampler may stand at position `n`. A sampler goes with
/// the nearest texture slot before it; it may filter unless that texture is
/// sampled with a non-filterable sample type.
pub open spec fn filtering_allowed(slots: Seq<BindingSlot>, n: int) -> bool
    decreases n,
{
    if n <= 0 {
        true
    } else {
        match slots[n - 1].kind {
            ResourceKind::SampledTextureArray { filterable } => filterable,
            ResourceKind::SampledTexture2D { filterable } => filterable,
            ResourceKind::StorageTextureArray { .. } => true,
            _ => filtering_allowed(slots, n - 1),
        }
    }
}

/// Whether the slot at `i` can work with the slots before it.
pub open spec fn slot_compatible(slots: Seq<BindingSlot>, i: int) -> bool {
    match slots[i].kind {
        ResourceKind::FilteringSampler => filtering_allowed(slots, i),
        ResourceKind::StorageTextureArray { format } => format.storage_capable(),
        _ => true,
    }
}

/// Whether every slot can work with the slots before it.
pub open spec fn slots_compatible(slots: Seq<BindingSlot>) -> bool {
    forall|i: int| 0 <= i < slots.len() ==> slot_compatible(slots, i)
}

/// The invariant of a layout: indices count up from 0, so they are unique;
/// no filtering sampler goes with a non-filterable texture; storage slots
/// have a storage-capable format; an element count is positive and stands on
/// a sampled layered texture only.
pub open spec fn layout_well_formed(slots: Seq<BindingSlot>) -> bool {
    &&& slots.len() <= u32::MAX
    &&& forall|i: int| 0 <= i < slots.len() ==> (#[trigger] slots[i]).index == i
    &&& slots_compatible(slots)
    &&& forall|i: int|
        0 <= i < slots.len() ==> match (#[trigger] slots[i]).count {
            Some(n) => n > 0 && slots[i].kind is SampledTextureArray,
            None => true,
        }
}

/// The slots that a list of kinds stands for: in order, visible to the
/// fragment stage, none arrayed.
pub open spec fn fragment_slots(kinds: Seq<ResourceKind>) -> Seq<BindingSlot> {
    Seq::new(
        kinds.len(),
        |i: int|
            BindingSlot {
                index: i as u32,
                visibility: fragment_only(),
                kind: kinds[i],
                count: None,
            },
    )
}

/// A validated binding-slot schema.
#[derive(Debug)]
pub struct BindGroupLayout {
    label: String,
    slots: Vec<BindingSlot>,
}

impl View for BindGroupLayout {
    type V = Seq<BindingSlot>;

    closed spec fn view(&self) -> Seq<BindingSlot> {
        self.slots@
    }
}

impl Clone for BindGroupLayout {
    fn clone(&self) -> (r: Self)
        ensures
            r@ == self@,
            r.spec_label() == self.spec_label(),
    {
        proof {
            use_type_invariant(self);
        }
        let slots = self.slots.clone();
        assert(slots@ =~= self.slots@);
        BindGroupLayout { label: self.label.clone(), slots }
    }
}

impl BindGroupLayout {
    #[verifier::type_invariant]
    spec fn well_formed(self) -> bool {
        layout_well_formed(self.slots@)
    }

    /// The label, as characters.
    pub closed spec fn spec_label(self) -> Seq<char> {
        self.label@
    }

    /// Builds the layout whose slots bind `kinds`, in that order, for the
    /// fragment stage. The pairing of textures and samplers is checked here,
    /// not when something is drawn: a filtering sampler behind a
    /// non-filterable texture, or a storage slot whose format cannot be
    /// written, gives `UnsupportedFormatCombination`.
    pub fn new(label: &str, kinds: &Vec<ResourceKind>) -> (r: Result<
        BindGroupLayout,
        ConstructionError,
    >)
        requires
            kinds.len() <= u32::MAX,
        ensures
            r is Ok <==> slots_compatible(fragment_slots(kinds@)),
            r matches Ok(l) ==> l@ == fragment_slots(kinds@) && l.spec_label() == label@,
            r matches Err(e) ==> e == ConstructionError::UnsupportedFormatCombination,
    {
        let ghost target = fragment_slots(kinds@);
        let mut slots: Vec<BindingSlot> = Vec::new();
        let mut may_filter = true;
        let mut i: usize = 0;
        while i < kinds.len()
            invariant
                kinds.len() <= u32::MAX,
                i <= kinds.len(),
                target == fragment_slots(kinds@),
                slots@ == target.take(i as int),
                may_filter == filtering_allowed(target, i as int),
                forall|j: int| 0 <= j < i ==> slot_compatible(target, j),
            decreases kinds.len() - i,
        {
            let kind = kinds[i];
            let ok = match kind {
                ResourceKind::FilteringSampler => may_filter,
                ResourceKind::StorageTextureArray { format } => format.is_storage_capable(),
                _ => true,
            };
            if !ok {
                assert(!slot_compatible(target, i as int));
                return Err(ConstructionError::UnsupportedFormatCombination);
            }
            may_filter = match kind {
                ResourceKind::SampledTextureArray { filterable } => filterable,
                ResourceKind::SampledTexture2D { filterable } => filterable,
                ResourceKind::StorageTextureArray { .. } => true,
                _ => may_filter,
            };
            slots.push(
                BindingSlot {
                    index: i as u32,
                    visibility: ShaderStages { vertex: false, fragment: true, compute: false },
                    kind,
                    count: None,
                },
            );
            assert(slots@ == target.take(i + 1));
            i += 1;
        }
        assert(target.take(i as int) == target);
        Ok(BindGroupLayout { label: label.to_owned(), slots })
    }

    /// The slots, in binding order. Every layout that exists is well formed.
    pub fn slots(&self) -> (r: &Vec<BindingSlot>)
        ensures
            r@ == self@,
            layout_well_formed(self@),
    {
        proof {
            use_type_invariant(self);
        }
        &self.slots
    }

    pub fn label(&self) -> (r: &str)
        ensures
            r@ == self.spec_label(),
    {
        self.label.as_str()
    }

    /// The same layout with `count` as the element count of its first slot,
    /// which must bind a sampled layered texture.
    pub(crate) fn with_first_count(self, count: u32) -> (r: BindGroupLayout)
        requires
            count > 0,
            self@.len() > 0,
            self@[0].kind is SampledTextureArray,
        ensures
            r@ == self@.update(0, BindingSlot { count: Some(count), ..self@[0] }),
            r.spec_label() == self.spec_label(),
    {
        proof {
            use_type_invariant(&self);
        }
        let BindGroupLayout { label, mut slots } = self;
        let ghost before = slots@;
        let first = slots[0];
        slots.set(0, BindingSlot { count: Some(count), ..first });
        proof {
            let after = slots@;
            assert forall|i: int| 0 <= i < after.len() implies slot_compatible(after, i) by {
                lemma_filtering_ignores_count(before, after, i);
                assert(slot_compatible(before, i));
            }
        }
        BindGroupLayout { label, slots }
    }
}

/// Whether a filtering sampler may stand at `n` depends on the kinds before
/// it alone.
proof fn lemma_filtering_ignores_count(a: Seq<BindingSlot>, b: Seq<BindingSlot>, n: int)
    requires
        a.len() == b.len(),
        n <= a.len(),
        forall|i: int| 0 <= i < a.len() ==> (#[trigger] a[i]).kind == b[i].kind,
    ensures
        filtering_allowed(a, n) == filtering_allowed(b, n),
    decreases n,
{
    if n > 0 {
        lemma_filtering_ignores_count(a, b, n - 1);
    }
}

/// The layouts that this crate knows by name.
#[derive(Clone, Copy, Debug, PartialEq, Eq, Structural)]
pub enum LayoutKind {
    /// A layered colour texture with a linear and a nearest sampler.
    MainScene,
    /// `MainScene`, then the depth texture with its sampler.
    MainSceneWithDepth,
    /// The depth texture with one non-filtering sampler.
    DepthVisualization,
    /// A write-only storage texture array with two samplers.
    StorageArray,
}

/// The kinds that the slots of a named layout bind, in order.
pub open spec fn layout_kinds(kind: LayoutKind) -> Seq<ResourceKind> {
    match kind {
        LayoutKind::MainScene => seq![
            ResourceKind::SampledTextureArray { filterable: true },
            ResourceKind::FilteringSampler,
            ResourceKind::FilteringSampler,
        ],
        LayoutKind::MainSceneWithDepth => seq![
            ResourceKind::SampledTextureArray { filterable: true },
            ResourceKind::FilteringSampler,
            ResourceKind::FilteringSampler,
            ResourceKind::SampledTexture2D { filterable: false },
            ResourceKind::NonFilteringSampler,
        ],
        LayoutKind::DepthVisualization => seq![
            ResourceKind::SampledTexture2D { filterable: false },
            ResourceKind::NonFilteringSampler,
        ],
        LayoutKind::StorageArray => seq![
            ResourceKind::StorageTextureArray { format: TEXTURE_FORMAT },
            ResourceKind::FilteringSampler,
            ResourceKind::FilteringSampler,
        ],
    }
}

/// The label of a named layout.
pub open spec fn layout_label(kind: LayoutKind) -> Seq<char> {
    match kind {
        LayoutKind::DepthVisualization => "depth_tx_bind_group_layout"@,
        _ => "texture_bind_group_layout"@,
    }
}

/// Every named layout passes the check of [`BindGroupLayout::new`].
pub proof fn lemma_named_layouts_compatible(kind: LayoutKind)
    ensures
        slots_compatible(fragment_slots(layout_kinds(kind))),
{
    reveal_with_fuel(filtering_allowed, 6);
}

/// The layout of the given kind.
pub fn layout(kind: LayoutKind) -> (r: BindGroupLayout)
    ensures
        r@ == fragment_slots(layout_kinds(kind)),
        r.spec_label() == layout_label(kind),
{
    let mut kinds: Vec<ResourceKind> = Vec::new();
    let label = match kind {
        LayoutKind::MainScene => {
            kinds.push(ResourceKind::SampledTextureArray { filterable: true });
            kinds.push(ResourceKind::FilteringSampler);
            kinds.push(ResourceKind::FilteringSampler);
            "texture_bind_group_layout"
        },
        LayoutKind::MainSceneWithDepth => {
            kinds.push(ResourceKind::SampledTextureArray { filterable: true });
            kinds.push(ResourceKind::FilteringSampler);
            kinds.push(ResourceKind::FilteringSampler);
            kinds.push(ResourceKind::SampledTexture2D { filterable: false });
            kinds.push(ResourceKind::NonFilteringSampler);
            "texture_bind_group_layout"
        },
        LayoutKind::DepthVisualization => {
            kinds.push(ResourceKind::SampledTexture2D { filterable: false });
            kinds.push(ResourceKind::NonFilteringSampler);
            "depth_tx_bind_group_layout"
        },
        LayoutKind::StorageArray => {
            kinds.push(ResourceKind::StorageTextureArray { format: TEXTURE_FORMAT });
            kinds.push(ResourceKind::FilteringSampler);
            kinds.push(ResourceKind::FilteringSampler);
            "texture_bind_group_layout"
        },
    };
    assert(kinds@ == layout_kinds(kind));
    proof {
        lemma_named_layouts_compatible(kind);
    }
    match BindGroupLayout::new(label, &kinds) {
        Ok(l) => l,
        Err(_) => unreached(),
    }
}

/// Handle of a texture view that the owner of the device keeps.
#[derive(Clone, Copy, Debug, PartialEq, Eq, Structural)]
pub struct TextureViewId(pub u64);

/// Handle of a sampler that the owner of the device keeps.
#[derive(Clone, Copy, Debug, PartialEq, Eq, Structural)]
pub struct SamplerId(pub u64);

/// The resource bound at one slot.
#[derive(Clone, Copy, Debug, PartialEq, Eq, Structural)]
pub enum BindingResource {
    TextureView(TextureViewId),
    Sampler(SamplerId),
}

/// One slot of a bind group, filled.
#[derive(Clone, Copy, Debug, PartialEq, Eq, Structural)]
pub struct BindGroupEntry {
    pub binding: u32,
    pub resource: BindingResource,
}

/// Resources bound to the slots of a layout. It names the resources by
/// handle and copies no pixel data, so it is of use only while they live.
#[derive(Clone, Debug)]
pub struct BindGroup {
    pub label: String,
    pub entries: Vec<BindGroupEntry>,
}

/// Whether `textures` texture views and `samplers` samplers fill the slots:
/// as many of each as the layout has slots for.
pub open spec fn arity_matches(slots: Seq<BindingSlot>, textures: nat, samplers: nat) -> bool {
    &&& textures == texture_rank(slots, slots.len() as int)
    &&& samplers == sampler_rank(slots, slots.len() as int)
}

/// The entry of slot `i`: the next texture view for a texture slot, the next
/// sampler for a sampler slot, each list taken in order.
pub open spec fn bound_entry(
    slots: Seq<BindingSlot>,
    textures: Seq<TextureViewId>,
    samplers: Seq<SamplerId>,
    i: int,
) -> BindGroupEntry {
    BindGroupEntry {
        binding: slots[i].index,
        resource: if is_texture_kind(slots[i].kind) {
            BindingResource::TextureView(textures[texture_rank(slots, i) as int])
        } else {
            BindingResource::Sampler(samplers[sampler_rank(slots, i) as int])
        },
    }
}

/// The entries of the bind group that binds `textures` and `samplers` to
/// `slots`.
pub open spec fn bound_entries(
    slots: Seq<BindingSlot>,
    textures: Seq<TextureViewId>,
    samplers: Seq<SamplerId>,
) -> Seq<BindGroupEntry> {
    Seq::new(slots.len(), |i: int| bound_entry(slots, textures, samplers, i))
}

/// Texture slots and sampler slots together are all the slots, and neither
/// count falls from one prefix to the next.
pub proof fn lemma_ranks(slots: Seq<BindingSlot>, n: int)
    requires
        0 <= n,
    ensures
        texture_rank(slots, n) + sampler_rank(slots, n) == n,
        n > 0 ==> texture_rank(slots, n - 1) <= texture_rank(slots, n),
        n > 0 ==> sampler_rank(slots, n - 1) <= sampler_rank(slots, n),
    decreases n,
{
    if n > 0 {
        lemma_ranks(slots, n - 1);
    }
}

/// Resources fill the slots exactly when there are as many resources as
/// slots. This holds wherever the resources, if their number is that of the
/// slots, are also split as the slots are, into as many texture views as
/// there are texture slots.
pub proof fn lemma_arity_by_count(slots: Seq<BindingSlot>, textures: nat, samplers: nat)
    requires
        textures + samplers == slots.len() ==> textures == texture_rank(slots, slots.len() as int),
    ensures
        arity_matches(slots, textures, samplers) <==> textures + samplers == slots.len(),
{
    lemma_ranks(slots, slots.len() as int);
}

/// Binds `textures` to the texture slots of `layout` and `samplers` to its
/// sampler slots, each in order.
///
/// Fails with `SlotArityError` exactly when the number of texture views or
/// the number of samplers differs from the number of slots that the layout
/// has for them.
pub fn build_bind_group(
    layout: &BindGroupLayout,
    textures: &Vec<TextureViewId>,
    samplers: &Vec<SamplerId>,
    label: &str,
) -> (r: Result<BindGroup, ConstructionError>)
    ensures
        r is Ok <==> arity_matches(layout@, textures@.len(), samplers@.len()),
        r matches Ok(g) ==> g.label@ == label@ && g.entries@ == bound_entries(
            layout@,
            textures@,
            samplers@,
        ),
        r matches Err(e) ==> e == ConstructionError::SlotArityError,
{
    let slots = layout.slots();
    let n = slots.len();
    let mut entries: Vec<BindGroupEntry> = Vec::new();
    let mut t: usize = 0;
    let mut s: usize = 0;
    let mut i: usize = 0;
    while i < n
        invariant
            n == slots@.len(),
            slots@ == layout@,
            i <= n,
            t == texture_rank(slots@, i as int),
            s == sampler_rank(slots@, i as int),
            t <= textures.len(),
            s <= samplers.len(),
            entries@.len() == i,
            forall|j: int|
                0 <= j < i ==> #[trigger] entries@[j] == bound_entry(
                    slots@,
                    textures@,
                    samplers@,
                    j,
                ),
        decreases n - i,
    {
        proof {
            lemma_ranks(slots@, i as int);
            lemma_ranks(slots@, i + 1);
            lemma_rank_bounded(slots@, i + 1, n as int);
        }
        let slot = slots[i];
        let is_texture = match slot.kind {
            ResourceKind::SampledTextureArray { .. } => true,
            ResourceKind::SampledTexture2D { .. } => true,
            ResourceKind::StorageTextureArray { .. } => true,
            _ => false,
        };
        if is_texture {
            if t >= textures.len() {
                return Err(ConstructionError::SlotArityError);
            }
            entries.push(
                BindGroupEntry {
                    binding: slot.index,
                    resource: BindingResource::TextureView(textures[t]),
                },
            );
            t += 1;
        } else {
            if s >= samplers.len() {
                return Err(ConstructionError::SlotArityError);
            }
            entries.push(
                BindGroupEntry {
                    binding: slot.index,
                    resource: BindingResource::Sampler(samplers[s]),
                },
            );
            s += 1;
        }
        i += 1;
    }
    if t != textures.len() || s != samplers.len() {
        return Err(ConstructionError::SlotArityError);
    }
    assert(entries@ =~= bound_entries(slots@, textures@, samplers@));
    Ok(BindGroup { label: label.to_owned(), entries })
}

/// A longer prefix of the slots has at least as many texture slots and at
/// least as many sampler slots.
proof fn lemma_rank_bounded(slots: Seq<BindingSlot>, m: int, n: int)
    requires
        0 <= m <= n,
    ensures
        texture_rank(slots, m) <= texture_rank(slots, n),
        sampler_rank(slots, m) <= sampler_rank(slots, n),
    decreases n - m,
{
    if m < n {
        lemma_rank_bounded(slots, m, n - 1);
        lemma_ranks(slots, n);
    }
}

} // verus!
