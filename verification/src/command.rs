//! What a frame records: the commands of its passes, its copies, its
//! submission and its presentation, as plain values in recording order.

use vstd::prelude::*;
use crate::buffer::BufferDimensions;
use crate::layout::GroupLayout;
use crate::surface::SurfaceFormat;
use crate::vertex::{
    pack_formats, InstanceRaw, ModelVertex, StepMode, VertexBufferLayout, INSTANCE_FIRST_LOCATION,
};

verus! {

/// A render pipeline of the renderer.
#[derive(Clone, Copy, Debug, PartialEq, Eq, Structural)]
pub enum PipelineId {
    /// Draws the instanced, textured, lit geometry.
    Main,
    /// Draws the model that marks the light's position.
    Light,
    /// Draws the depth buffer into a corner of the frame.
    DepthOverlay,
}

/// A bind group of the renderer.
#[derive(Clone, Copy, Debug, PartialEq, Eq, Structural)]
pub enum BindGroupRef {
    /// The registered texture of the given slot.
    Texture(usize),
    /// The material of the model's first mesh.
    Material,
    Camera,
    Rotation,
    Light,
    /// The depth buffer with its comparison sampler.
    Depth,
}

/// A vertex or index buffer of the renderer.
#[derive(Clone, Copy, Debug, PartialEq, Eq, Structural)]
pub enum BufferRef {
    Vertices,
    Instances,
    Indices,
    OverlayVertices,
    OverlayIndices,
}

/// A render pass of a frame.
#[derive(Clone, Copy, Debug, PartialEq, Eq, Structural)]
pub enum PassKind {
    /// Colour and depth, both cleared first.
    Main,
    /// Colour only, drawn over what the frame holds.
    DepthOverlay,
}

/// What a pass does with the colour that the frame holds when it begins.
#[derive(Clone, Copy, Debug, PartialEq, Eq, Structural)]
pub enum ColorLoad {
    /// Replaces it with the clear colour.
    Clear,
    /// Keeps it.
    Load,
}

/// What the capture of a frame needs to know.
#[derive(Clone, Copy, Debug, PartialEq, Eq, Structural)]
pub struct Capture {
    /// Sizes of the frame and of its rows in the read-back buffer.
    pub dims: BufferDimensions,
    /// Bytes of a buffer row, as the copy states them.
    pub bytes_per_row: u32,
    /// Bytes of the read-back buffer.
    pub buffer_size: u64,
    /// Slot of the registry under which the captured frame is bound.
    pub slot: usize,
}

/// One recorded step of a frame.
#[derive(Clone, Copy, Debug, PartialEq, Eq, Structural)]
pub enum Command {
    BeginPass { pass: PassKind, color: ColorLoad, depth_attached: bool },
    SetBindGroup { index: u32, group: BindGroupRef },
    SetVertexBuffer { slot: u32, buffer: BufferRef },
    SetIndexBuffer { buffer: BufferRef },
    SetPipeline { pipeline: PipelineId },
    /// Draws the model at the light's position, from the model's own
    /// vertices and indices. What the pass has set stays set.
    DrawLightModel,
    /// Draws the model once per instance, from the model's own vertices
    /// and indices. What the pass has set stays set.
    DrawModelInstanced { instances: u32 },
    /// Draws the indices from `first_index` up to `end_index`.
    DrawIndexed { first_index: u32, end_index: u32, base_vertex: i32, instances: u32 },
    EndPass,
    /// Copies the frame into a new buffer that the processor can map.
    CopyFrameToBuffer { capture: Capture },
    /// Copies the frame into a new texture and binds it in the registry.
    CopyFrameToTexture { capture: Capture },
    /// Finishes the encoder and hands its commands to the queue.
    Submit,
    /// Maps the buffer, waits until the submission is done, and stores the image.
    ReadBack { capture: Capture },
    /// Shows the frame.
    Present,
}

impl BindGroupRef {
    /// The layout that this group was made for.
    pub open spec fn spec_layout(self) -> GroupLayout {
        match self {
            BindGroupRef::Texture(_) => GroupLayout::Texture,
            BindGroupRef::Material => GroupLayout::Texture,
            BindGroupRef::Camera => GroupLayout::Camera,
            BindGroupRef::Rotation => GroupLayout::Rotation,
            BindGroupRef::Light => GroupLayout::Light,
            BindGroupRef::Depth => GroupLayout::Depth,
        }
    }

    /// The layout that this group was made for.
    #[verifier::when_used_as_spec(spec_layout)]
    pub fn layout(self) -> (layout: GroupLayout)
        ensures
            layout == self.spec_layout(),
    {
        match self {
            BindGroupRef::Texture(_) => GroupLayout::Texture,
            BindGroupRef::Material => GroupLayout::Texture,
            BindGroupRef::Camera => GroupLayout::Camera,
            BindGroupRef::Rotation => GroupLayout::Rotation,
            BindGroupRef::Light => GroupLayout::Light,
            BindGroupRef::Depth => GroupLayout::Depth,
        }
    }
}

impl PipelineId {
    /// The bind group layouts of this pipeline, by index.
    pub open spec fn spec_groups(self) -> Seq<GroupLayout> {
        match self {
            PipelineId::Main | PipelineId::Light => seq![
                GroupLayout::Texture,
                GroupLayout::Camera,
                GroupLayout::Rotation,
                GroupLayout::Light,
            ],
            PipelineId::DepthOverlay => seq![GroupLayout::Depth],
        }
    }

    /// Whether this pipeline tests and writes depth.
    pub open spec fn spec_uses_depth(self) -> bool {
        self != PipelineId::DepthOverlay
    }
}

impl PassKind {
    /// The bind group layouts that every pipeline of this pass shares.
    pub open spec fn groups(self) -> Seq<GroupLayout> {
        match self {
            PassKind::Main => PipelineId::Main.spec_groups(),
            PassKind::DepthOverlay => PipelineId::DepthOverlay.spec_groups(),
        }
    }
}

/// What a render pipeline is built from.
pub struct PipelineDesc {
    pub id: PipelineId,
    /// The bind group layouts, by index.
    pub groups: Vec<GroupLayout>,
    /// The vertex buffers, by slot.
    pub vertex_buffers: Vec<VertexBufferLayout>,
    /// Format of the colour target.
    pub target: SurfaceFormat,
    /// Whether the pipeline has a depth attachment.
    pub uses_depth: bool,
}

impl PipelineDesc {
    /// Describes the pipeline `id` for a colour target of format `target`.
    /// The main pipeline reads vertices and instances, the other two
    /// vertices only; the overlay alone has no depth attachment.
    pub fn new(id: PipelineId, target: SurfaceFormat) -> (desc: Self)
        ensures
            desc.id == id,
            desc.target == target,
            desc.groups@ == id.spec_groups(),
            desc.uses_depth == id.spec_uses_depth(),
            desc.vertex_buffers@.len() == (if id == PipelineId::Main {
                2int
            } else {
                1int
            }),
            desc.vertex_buffers@[0].attributes@ == pack_formats(ModelVertex::formats(), 0),
            desc.vertex_buffers@[0].step_mode == StepMode::Vertex,
            desc.vertex_buffers@[0].array_stride == 32,
            desc.vertex_buffers@[0].packed_from(0),
            id == PipelineId::Main ==> {
                &&& desc.vertex_buffers@[1].attributes@ == pack_formats(
                    InstanceRaw::formats(),
                    INSTANCE_FIRST_LOCATION,
                )
                &&& desc.vertex_buffers@[1].step_mode == StepMode::Instance
                &&& desc.vertex_buffers@[1].array_stride == 100
                &&& desc.vertex_buffers@[1].packed_from(INSTANCE_FIRST_LOCATION as int)
            },
    {
        let mut groups: Vec<GroupLayout> = Vec::new();
        let mut vertex_buffers: Vec<VertexBufferLayout> = Vec::new();
        vertex_buffers.push(ModelVertex::desc());
        let uses_depth = match id {
            PipelineId::Main => {
                groups.push(GroupLayout::Texture);
                groups.push(GroupLayout::Camera);
                groups.push(GroupLayout::Rotation);
                groups.push(GroupLayout::Light);
                vertex_buffers.push(InstanceRaw::desc());
                true
            },
            PipelineId::Light => {
                groups.push(GroupLayout::Texture);
                groups.push(GroupLayout::Camera);
                groups.push(GroupLayout::Rotation);
                groups.push(GroupLayout::Light);
                true
            },
            PipelineId::DepthOverlay => {
                groups.push(GroupLayout::Depth);
                false
            },
        };
        assert(groups@ =~= id.spec_groups());
        PipelineDesc { id, groups, vertex_buffers, target, uses_depth }
    }
}

/// Whether a bind group may be set at `index` in a pass of kind `pass`:
/// the pass's pipelines expect a group of its layout there.
pub open spec fn binding_fits(pass: PassKind, index: u32, group: BindGroupRef) -> bool {
    index < pass.groups().len() && pass.groups()[index as int] == group.spec_layout()
}

} // verus!
