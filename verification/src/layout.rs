//! Bind group layouts and the bind groups that fill them.
//!
//! A layout declares, slot by slot, what a shader expects. A bind group
//! supplies one resource per slot. The two must agree in every slot, or the
//! group cannot be used with a pipeline that was built for the layout.

use vstd::prelude::*;

verus! {

/// The shader stages that can see a binding.
#[derive(Clone, Copy, Debug, PartialEq, Eq, Structural)]
pub struct ShaderStages {
    pub vertex: bool,
    pub fragment: bool,
}

/// How a texture is sampled.
#[derive(Clone, Copy, Debug, PartialEq, Eq, Structural)]
pub enum SampleKind {
    /// Filterable colour values.
    Float,
    /// Depth values.
    Depth,
}

/// How a sampler reads.
#[derive(Clone, Copy, Debug, PartialEq, Eq, Structural)]
pub enum SamplerKind {
    /// Filters between texels.
    Filtering,
    /// Compares against a reference depth.
    Comparison,
}

/// What a slot of a layout expects.
#[derive(Clone, Copy, Debug, PartialEq, Eq, Structural)]
pub enum BindingKind {
    /// A uniform buffer, bound whole, without dynamic offset.
    Uniform,
    /// A two-dimensional, single-sampled texture.
    Texture(SampleKind),
    /// A sampler.
    Sampler(SamplerKind),
}

/// One slot of a bind group layout.
#[derive(Clone, Copy, Debug, PartialEq, Eq, Structural)]
pub struct LayoutEntry {
    pub binding: u32,
    pub visibility: ShaderStages,
    pub kind: BindingKind,
}

/// One resource of a bind group.
#[derive(Clone, Copy, Debug, PartialEq, Eq, Structural)]
pub struct BindEntry {
    pub binding: u32,
    pub resource: BindingKind,
}

/// The layouts that the renderer builds.
#[derive(Clone, Copy, Debug, PartialEq, Eq, Structural)]
pub enum GroupLayout {
    /// A colour texture and its sampler, for the fragment stage.
    Texture,
    /// The camera's uniform, for the vertex stage.
    Camera,
    /// The rotation's uniform, for the vertex stage.
    Rotation,
    /// The light's uniform, for both stages.
    Light,
    /// The gradient's uniform, for the fragment stage.
    Gradient,
    /// The depth buffer and a comparison sampler, for the fragment stage.
    Depth,
}

/// Visible to the vertex stage alone.
pub open spec fn vertex_only() -> ShaderStages {
    ShaderStages { vertex: true, fragment: false }
}

/// Visible to the fragment stage alone.
pub open spec fn fragment_only() -> ShaderStages {
    ShaderStages { vertex: false, fragment: true }
}

/// Visible to both stages.
pub open spec fn both_stages() -> ShaderStages {
    ShaderStages { vertex: true, fragment: true }
}

/// A layout of one uniform buffer at slot 0.
pub open spec fn uniform_entries(visibility: ShaderStages) -> Seq<LayoutEntry> {
    seq![LayoutEntry { binding: 0, visibility, kind: BindingKind::Uniform }]
}

/// A layout of a texture at slot 0 and a sampler at slot 1, for the fragment stage.
pub open spec fn sampled_entries(sample: SampleKind, sampler: SamplerKind) -> Seq<LayoutEntry> {
    seq![
        LayoutEntry { binding: 0, visibility: fragment_only(), kind: BindingKind::Texture(sample) },
        LayoutEntry { binding: 1, visibility: fragment_only(), kind: BindingKind::Sampler(sampler) },
    ]
}

/// The slots of a layout count up from zero.
pub open spec fn layout_wf(entries: Seq<LayoutEntry>) -> bool {
    forall|i: int| 0 <= i < entries.len() ==> (#[trigger] entries[i]).binding == i
}

/// The group supplies, slot by slot, what the layout expects.
pub open spec fn group_matches(layout: Seq<LayoutEntry>, group: Seq<BindEntry>) -> bool {
    &&& layout.len() == group.len()
    &&& forall|i: int|
        0 <= i < layout.len() ==> (#[trigger] group[i]).binding == layout[i].binding && group[i].resource
            == layout[i].kind
}

/// The bind group that fills `layout` with resources of the expected kinds.
pub open spec fn group_for(layout: Seq<LayoutEntry>) -> Seq<BindEntry> {
    Seq::new(
        layout.len(),
        |i: int| BindEntry { binding: layout[i].binding, resource: layout[i].kind },
    )
}

impl GroupLayout {
    /// The slots of this layout.
    pub open spec fn spec_entries(self) -> Seq<LayoutEntry> {
        match self {
            GroupLayout::Texture => sampled_entries(SampleKind::Float, SamplerKind::Filtering),
            GroupLayout::Camera => uniform_entries(vertex_only()),
            GroupLayout::Rotation => uniform_entries(vertex_only()),
            GroupLayout::Light => uniform_entries(both_stages()),
            GroupLayout::Gradient => uniform_entries(fragment_only()),
            GroupLayout::Depth => sampled_entries(SampleKind::Depth, SamplerKind::Comparison),
        }
    }

    /// Builds the slots of this layout.
    pub fn entries(self) -> (entries: Vec<LayoutEntry>)
        ensures
            entries@ == self.spec_entries(),
            layout_wf(entries@),
    {
        let fragment = ShaderStages { vertex: false, fragment: true };
        let vertex = ShaderStages { vertex: true, fragment: false };
        let both = ShaderStages { vertex: true, fragment: true };
        let mut entries: Vec<LayoutEntry> = Vec::new();
        match self {
            GroupLayout::Texture => {
                entries.push(
                    LayoutEntry {
                        binding: 0,
                        visibility: fragment,
                        kind: BindingKind::Texture(SampleKind::Float),
                    },
                );
                entries.push(
                    LayoutEntry {
                        binding: 1,
                        visibility: fragment,
                        kind: BindingKind::Sampler(SamplerKind::Filtering),
                    },
                );
            },
            GroupLayout::Camera => {
                entries.push(
                    LayoutEntry { binding: 0, visibility: vertex, kind: BindingKind::Uniform },
                );
            },
            GroupLayout::Rotation => {
                entries.push(
                    LayoutEntry { binding: 0, visibility: vertex, kind: BindingKind::Uniform },
                );
            },
            GroupLayout::Light => {
                entries.push(
                    LayoutEntry { binding: 0, visibility: both, kind: BindingKind::Uniform },
                );
            },
            GroupLayout::Gradient => {
                entries.push(
                    LayoutEntry { binding: 0, visibility: fragment, kind: BindingKind::Uniform },
                );
            },
            GroupLayout::Depth => {
                entries.push(
                    LayoutEntry {
                        binding: 0,
                        visibility: fragment,
                        kind: BindingKind::Texture(SampleKind::Depth),
                    },
                );
                entries.push(
                    LayoutEntry {
                        binding: 1,
                        visibility: fragment,
                        kind: BindingKind::Sampler(SamplerKind::Comparison),
                    },
                );
            },
        }
        assert(entries@ =~= self.spec_entries());
        entries
    }

    /// Builds the bind group that fills this layout.
    pub fn bind_group(self) -> (group: Vec<BindEntry>)
        ensures
            group@ == group_for(self.spec_entries()),
            group_matches(self.spec_entries(), group@),
    {
        let entries = self.entries();
        let mut group: Vec<BindEntry> = Vec::new();
        let mut i: usize = 0;
        while i < entries.len()
            invariant
                i <= entries@.len(),
                entries@ == self.spec_entries(),
                group@ == group_for(entries@.take(i as int)),
            decreases entries@.len() - i,
        {
            group.push(BindEntry { binding: entries[i].binding, resource: entries[i].kind });
            i += 1;
            assert(group@ =~= group_for(entries@.take(i as int)));
        }
        assert(entries@.take(i as int) =~= entries@);
        group
    }
}

/// Whether `group` fills `layout`.
pub fn matches_layout(layout: &Vec<LayoutEntry>, group: &Vec<BindEntry>) -> (ok: bool)
    ensures
        ok == group_matches(layout@, group@),
{
    if layout.len() != group.len() {
        return false;
    }
    let mut i: usize = 0;
    while i < layout.len()
        invariant
            i <= layout@.len(),
            layout@.len() == group@.len(),
            forall|k: int|
                0 <= k < i ==> (#[trigger] group@[k]).binding == layout@[k].binding && group@[k].resource
                    == layout@[k].kind,
        decreases layout@.len() - i,
    {
        if group[i].binding != layout[i].binding || group[i].resource != layout[i].kind {
            return false;
        }
        i += 1;
    }
    true
}

/// A group built for a layout fills that layout.
pub proof fn lemma_group_for_matches(layout: Seq<LayoutEntry>)
    ensures
        group_matches(layout, group_for(layout)),
{
}

/// A group fills at most one of two layouts that differ in what a slot
/// expects: a group made for one layout cannot stand in for the other.
pub proof fn lemma_group_matches_one_kind(
    a: Seq<LayoutEntry>,
    b: Seq<LayoutEntry>,
    group: Seq<BindEntry>,
    slot: int,
)
    requires
        group_matches(a, group),
        0 <= slot < a.len(),
        slot < b.len(),
        a[slot].kind != b[slot].kind,
    ensures
        !group_matches(b, group),
{
    if group_matches(b, group) {
        assert(group[slot].resource == a[slot].kind);
        assert(group[slot].resource == b[slot].kind);
    }
}

/// A texture group cannot be bound where the depth overlay expects its
/// depth texture, nor the other way round.
pub proof fn lemma_texture_and_depth_groups_differ()
    ensures
        !group_matches(
            GroupLayout::Depth.spec_entries(),
            group_for(GroupLayout::Texture.spec_entries()),
        ),
        !group_matches(
            GroupLayout::Texture.spec_entries(),
            group_for(GroupLayout::Depth.spec_entries()),
        ),
{
    lemma_group_for_matches(GroupLayout::Texture.spec_entries());
    lemma_group_for_matches(GroupLayout::Depth.spec_entries());
    lemma_group_matches_one_kind(
        GroupLayout::Texture.spec_entries(),
        GroupLayout::Depth.spec_entries(),
        group_for(GroupLayout::Texture.spec_entries()),
        0,
    );
    lemma_group_matches_one_kind(
        GroupLayout::Depth.spec_entries(),
        GroupLayout::Texture.spec_entries(),
        group_for(GroupLayout::Depth.spec_entries()),
        0,
    );
}

} // verus!
