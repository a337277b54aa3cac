//! The pass that shows the depth buffer in a corner of the frame.

use vstd::prelude::*;
use crate::command::{BindGroupRef, BufferRef, ColorLoad, Command, PassKind, PipelineDesc, PipelineId};
use crate::command::binding_fits;
use crate::recorder::{lemma_replay_prefix, record, Recorder};
use crate::render::RenderPass;
use crate::surface::{Size, SurfaceConfig};
use crate::vertex::{pack_formats, ModelVertex, StepMode};

verus! {

/// Indices of the quad.
pub const DEPTH_INDEX_COUNT: u32 = 6;

/// The depth overlay. Its texture is as large as the surface, so it is
/// made anew whenever the surface changes size; its pipeline and its
/// buffers are made once.
#[derive(Clone, Copy, Debug, PartialEq, Eq, Structural)]
pub struct DepthPass {
    /// Size of the depth texture.
    pub texture_size: Size,
}

/// The commands of the overlay pass: it keeps the colour that the frame
/// holds, has no depth attachment of its own, and draws the quad once.
pub open spec fn overlay_commands() -> Seq<Command> {
    seq![
        Command::BeginPass {
            pass: PassKind::DepthOverlay,
            color: ColorLoad::Load,
            depth_attached: false,
        },
        Command::SetPipeline { pipeline: PipelineId::DepthOverlay },
        Command::SetBindGroup { index: 0, group: BindGroupRef::Depth },
        Command::SetVertexBuffer { slot: 0, buffer: BufferRef::OverlayVertices },
        Command::SetIndexBuffer { buffer: BufferRef::OverlayIndices },
        Command::DrawIndexed { first_index: 0, end_index: 6, base_vertex: 0, instances: 1 },
        Command::EndPass,
    ]
}

/// Whether the overlay may be recorded behind `recorded`: every command of
/// `recorded` is allowed where it stands, the main pass is among them and
/// closed, and neither an overlay nor a copy has been recorded.
pub open spec fn overlay_may_follow(recorded: Seq<Command>) -> bool {
    match Recorder::start().replay(recorded, 0) {
        Some(before) => before.may_begin(PassKind::DepthOverlay),
        None => false,
    }
}

/// The overlay pass is allowed command by command wherever an overlay may
/// begin, and leaves the recorder between passes with the overlay done.
pub proof fn lemma_overlay_allowed(commands: Seq<Command>, at: int, before: Recorder)
    requires
        0 <= at,
        at + overlay_commands().len() <= commands.len(),
        commands.subrange(at, at + overlay_commands().len()) == overlay_commands(),
        before.may_begin(PassKind::DepthOverlay),
    ensures
        before.replay(commands, at) == (Recorder { overlay_done: true, ..before }).replay(
            commands,
            at + overlay_commands().len(),
        ),
{
    let overlay = overlay_commands();
    assert forall|i: int| 0 <= i < overlay.len() implies commands[at + i] == overlay[i] by {
        assert(commands.subrange(at, at + overlay.len())[i] == commands[at + i]);
    }
    let r0 = before;
    assert(commands[at] == overlay[0]);
    assert(commands[at + 1] == overlay[1]);
    assert(commands[at + 2] == overlay[2]);
    assert(commands[at + 3] == overlay[3]);
    assert(commands[at + 4] == overlay[4]);
    assert(commands[at + 5] == overlay[5]);
    assert(commands[at + 6] == overlay[6]);
    let r1 = r0.step(commands[at])->0;
    let r2 = r1.step(commands[at + 1])->0;
    let r3 = r2.step(commands[at + 2])->0;
    let r4 = r3.step(commands[at + 3])->0;
    let r5 = r4.step(commands[at + 4])->0;
    let r6 = r5.step(commands[at + 5])->0;
    let r7 = r6.step(commands[at + 6])->0;
    assert(r0.step(commands[at]) is Some);
    assert(r1.step(commands[at + 1]) is Some);
    assert(r2.step(commands[at + 2]) is Some);
    assert(r3.step(commands[at + 3]) is Some);
    assert(r4.step(commands[at + 4]) is Some);
    assert(r5.step(commands[at + 5]) is Some);
    assert(r6.step(commands[at + 6]) is Some);
    assert(r7 == Recorder { overlay_done: true, ..before });
    assert(r6.replay(commands, at + 6) == r7.replay(commands, at + 7));
    assert(r5.replay(commands, at + 5) == r6.replay(commands, at + 6));
    assert(r4.replay(commands, at + 4) == r5.replay(commands, at + 5));
    assert(r3.replay(commands, at + 3) == r4.replay(commands, at + 4));
    assert(r2.replay(commands, at + 2) == r3.replay(commands, at + 3));
    assert(r1.replay(commands, at + 1) == r2.replay(commands, at + 2));
    assert(r0.replay(commands, at) == r1.replay(commands, at + 1));
}

impl DepthPass {
    /// Builds the pass with a depth texture of the surface's size.
    pub fn new(config: &SurfaceConfig) -> (pass: Self)
        ensures
            pass.texture_size == config.size(),
    {
        DepthPass { texture_size: Size { width: config.width, height: config.height } }
    }

    /// Describes the pass's pipeline for the surface's format.
    pub fn pipeline(config: &SurfaceConfig) -> (desc: PipelineDesc)
        ensures
            desc.id == PipelineId::DepthOverlay,
            desc.target == config.format,
            desc.groups@ == PipelineId::DepthOverlay.spec_groups(),
            !desc.uses_depth,
            desc.vertex_buffers@.len() == 1,
            desc.vertex_buffers@[0].attributes@ == pack_formats(ModelVertex::formats(), 0),
            desc.vertex_buffers@[0].step_mode == StepMode::Vertex,
            desc.vertex_buffers@[0].array_stride == 32,
    {
        PipelineDesc::new(PipelineId::DepthOverlay, config.format)
    }

    /// Makes the depth texture and its bind group anew for the surface's size.
    pub fn resize(&mut self, config: &SurfaceConfig)
        ensures
            final(self).texture_size == config.size(),
    {
        self.texture_size = Size { width: config.width, height: config.height };
    }

    /// Whether the overlay may be recorded behind what `encoder` holds.
    pub fn may_render(encoder: &Vec<Command>) -> (may: bool)
        ensures
            may == overlay_may_follow(encoder@),
    {
        match record(encoder) {
            Some(before) => before.can_begin(PassKind::DepthOverlay),
            None => false,
        }
    }

    /// Records the pass behind what `encoder` holds. The overlay draws over
    /// what the main pass drew, so the main pass has to be recorded and
    /// closed, and nothing may have been copied yet. With the overlay the
    /// recording stays one that is allowed command by command.
    pub fn render(&self, encoder: &mut Vec<Command>)
        requires
            overlay_may_follow(old(encoder)@),
        ensures
            final(encoder)@ == old(encoder)@ + overlay_commands(),
            Recorder::start().replay(final(encoder)@, 0) == Some(
                Recorder { overlay_done: true, ..Recorder::start().replay(old(encoder)@, 0)->0 },
            ),
    {
        encoder.push(
            Command::BeginPass {
                pass: PassKind::DepthOverlay,
                color: ColorLoad::Load,
                depth_attached: false,
            },
        );
        encoder.push(Command::SetPipeline { pipeline: PipelineId::DepthOverlay });
        encoder.push(Command::SetBindGroup { index: 0, group: BindGroupRef::Depth });
        encoder.push(Command::SetVertexBuffer { slot: 0, buffer: BufferRef::OverlayVertices });
        encoder.push(Command::SetIndexBuffer { buffer: BufferRef::OverlayIndices });
        encoder.push(
            Command::DrawIndexed {
                first_index: 0,
                end_index: DEPTH_INDEX_COUNT,
                base_vertex: 0,
                instances: 1,
            },
        );
        encoder.push(Command::EndPass);
        proof {
            let recorded = old(encoder)@;
            let all = recorded + overlay_commands();
            assert(encoder@ =~= all);
            let before = Recorder::start().replay(recorded, 0)->0;
            lemma_replay_prefix(Recorder::start(), recorded, overlay_commands(), 0);
            assert(all.subrange(
                recorded.len() as int,
                recorded.len() as int + overlay_commands().len() as int,
            ) =~= overlay_commands());
            lemma_overlay_allowed(all, recorded.len() as int, before);
        }
    }
}

impl RenderPass for DepthPass {
    open spec fn target_size(&self) -> Size {
        self.texture_size
    }

    open spec fn commands(&self) -> Seq<Command> {
        overlay_commands()
    }

    open spec fn may_follow(&self, recorded: Seq<Command>) -> bool {
        overlay_may_follow(recorded)
    }

    fn may_render(&self, encoder: &Vec<Command>) -> (may: bool) {
        DepthPass::may_render(encoder)
    }

    fn new(config: &SurfaceConfig) -> (pass: Self) {
        DepthPass::new(config)
    }

    fn resize(&mut self, config: &SurfaceConfig) {
        DepthPass::resize(self, config)
    }

    fn render(&mut self, encoder: &mut Vec<Command>) {
        DepthPass::render(self, encoder)
    }

    fn update(&mut self) {
    }
}

/// The overlay keeps what was drawn before it: its pass loads the colour
/// and attaches no depth. Its one bind group is the one its pipeline
/// expects, and its draw covers the whole quad.
pub proof fn lemma_overlay_pass()
    ensures
        overlay_commands().first() == (Command::BeginPass {
            pass: PassKind::DepthOverlay,
            color: ColorLoad::Load,
            depth_attached: false,
        }),
        overlay_commands().last() == Command::EndPass,
        forall|i: int|
            0 < i < overlay_commands().len() ==> !(overlay_commands()[i] is BeginPass),
        forall|i: int|
            0 <= i < overlay_commands().len() - 1 ==> !(overlay_commands()[i] is EndPass),
        forall|i: int, index: u32, group: BindGroupRef|
            0 <= i < overlay_commands().len() && overlay_commands()[i] == (Command::SetBindGroup {
                index,
                group,
            }) ==> binding_fits(PassKind::DepthOverlay, index, group),
        forall|i: int|
            0 <= i < overlay_commands().len() ==> !(overlay_commands()[i] is Submit)
                && !(overlay_commands()[i] is Present),
{
}

} // verus!
