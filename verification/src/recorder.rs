//! The order in which the commands of a frame may follow one another.
//!
//! A recorder goes through a frame command by command and keeps what the
//! next command depends on: whether a pass is open and what is bound in
//! it, which passes and copies have been recorded, and whether the frame
//! has been submitted. A frame is accepted if every command is allowed
//! where it stands and the frame ends presented.

use vstd::prelude::*;
use crate::command::{binding_fits, BindGroupRef, BufferRef, Capture, ColorLoad, Command, PassKind, PipelineId};
use crate::layout::GroupLayout;

verus! {

/// How far the recording of a frame has come.
#[derive(Clone, Copy, Debug, PartialEq, Eq, Structural)]
pub enum Stage {
    /// The encoder is open.
    Recording,
    /// The encoder was finished and its commands were handed to the queue.
    Submitted,
    /// The frame was shown.
    Presented,
}

/// What is set in the open pass.
#[derive(Clone, Copy, Debug, PartialEq, Eq, Structural)]
pub struct PassState {
    pub kind: PassKind,
    pub pipeline: Option<PipelineId>,
    /// Whether a bind group is set at the index 0, 1, 2, 3.
    pub group0: bool,
    pub group1: bool,
    pub group2: bool,
    pub group3: bool,
    /// Whether a vertex buffer is set at the slot 0, 1.
    pub vertex0: bool,
    pub vertex1: bool,
    /// Whether an index buffer is set.
    pub indexed: bool,
    /// Whether the pass has drawn anything.
    pub drawn: bool,
}

/// What the recorder keeps between two commands.
#[derive(Clone, Copy, Debug, PartialEq, Eq, Structural)]
pub struct Recorder {
    pub stage: Stage,
    /// The open pass, if one is open.
    pub pass: Option<PassState>,
    /// Whether the main pass was recorded and closed.
    pub main_done: bool,
    /// Whether the depth overlay was recorded and closed.
    pub overlay_done: bool,
    /// The capture whose copy into a buffer was recorded.
    pub buffer_copy: Option<Capture>,
    /// Whether the copy into a texture was recorded.
    pub texture_copy: bool,
    /// Whether the captured frame was read back.
    pub read_back: bool,
}

/// Whether a pass of kind `kind` may begin this way. The main pass clears
/// colour and depth; the overlay keeps the colour and has no depth.
pub open spec fn pass_begins(kind: PassKind, color: ColorLoad, depth_attached: bool) -> bool {
    match kind {
        PassKind::Main => color == ColorLoad::Clear && depth_attached,
        PassKind::DepthOverlay => color == ColorLoad::Load && !depth_attached,
    }
}

/// Whether `pipeline` draws in a pass of kind `kind`.
pub open spec fn pipeline_fits(kind: PassKind, pipeline: PipelineId) -> bool {
    match kind {
        PassKind::Main => pipeline == PipelineId::Main || pipeline == PipelineId::Light,
        PassKind::DepthOverlay => pipeline == PipelineId::DepthOverlay,
    }
}

/// Whether `buffer` is a vertex buffer for the slot `slot` of a pass of kind `kind`.
pub open spec fn vertex_buffer_fits(kind: PassKind, slot: u32, buffer: BufferRef) -> bool {
    match kind {
        PassKind::Main => (slot == 0 && buffer == BufferRef::Vertices) || (slot == 1 && buffer
            == BufferRef::Instances),
        PassKind::DepthOverlay => slot == 0 && buffer == BufferRef::OverlayVertices,
    }
}

/// Whether `buffer` is the index buffer of a pass of kind `kind`.
pub open spec fn index_buffer_fits(kind: PassKind, buffer: BufferRef) -> bool {
    match kind {
        PassKind::Main => buffer == BufferRef::Indices,
        PassKind::DepthOverlay => buffer == BufferRef::OverlayIndices,
    }
}

/// Whether a capture states its sizes as the copies need them: the frame
/// has pixels, its rows are padded as its width asks, a row's bytes are not
/// zero, and the buffer holds all rows.
pub open spec fn capture_sound(capture: Capture) -> bool {
    &&& capture.dims.wf()
    &&& capture.dims.width > 0
    &&& capture.dims.height > 0
    &&& capture.bytes_per_row > 0
    &&& capture.bytes_per_row == capture.dims.padded_bytes_per_row
    &&& capture.buffer_size == capture.dims.spec_buffer_size()
}

impl PassState {
    /// A pass of kind `kind` in which nothing is set yet.
    pub open spec fn opened(kind: PassKind) -> PassState {
        PassState {
            kind,
            pipeline: None,
            group0: false,
            group1: false,
            group2: false,
            group3: false,
            vertex0: false,
            vertex1: false,
            indexed: false,
            drawn: false,
        }
    }

    /// The pass after a bind group was set at `index`.
    pub open spec fn with_group(self, index: u32) -> PassState {
        if index == 0 {
            PassState { group0: true, ..self }
        } else if index == 1 {
            PassState { group1: true, ..self }
        } else if index == 2 {
            PassState { group2: true, ..self }
        } else {
            PassState { group3: true, ..self }
        }
    }

    /// The pass after a vertex buffer was set at `slot`.
    pub open spec fn with_vertex(self, slot: u32) -> PassState {
        if slot == 0 {
            PassState { vertex0: true, ..self }
        } else {
            PassState { vertex1: true, ..self }
        }
    }

    /// Whether a bind group is set at every index that `pipeline` reads.
    pub open spec fn groups_set(self, pipeline: PipelineId) -> bool {
        match pipeline {
            PipelineId::Main | PipelineId::Light => self.group0 && self.group1 && self.group2
                && self.group3,
            PipelineId::DepthOverlay => self.group0,
        }
    }

    /// Whether a vertex buffer is set at every slot that `pipeline` reads.
    pub open spec fn vertices_set(self, pipeline: PipelineId) -> bool {
        match pipeline {
            PipelineId::Main => self.vertex0 && self.vertex1,
            PipelineId::Light | PipelineId::DepthOverlay => self.vertex0,
        }
    }

    /// Whether `command` may draw in this pass: a pipeline is set, every
    /// bind group and buffer that the pipeline reads is set, and the drawn
    /// range of indices does not end before it begins. The model is drawn
    /// from its own vertices and indices, so it asks for none of the
    /// pass's but, when instanced, for the instance buffer.
    pub open spec fn may_draw(self, command: Command) -> bool {
        match command {
            Command::DrawLightModel => self.pipeline == Some(PipelineId::Light) && self.groups_set(
                PipelineId::Light,
            ),
            Command::DrawModelInstanced { instances } => self.pipeline == Some(PipelineId::Main)
                && self.groups_set(PipelineId::Main) && self.vertex1,
            Command::DrawIndexed { first_index, end_index, base_vertex, instances } => {
                &&& self.pipeline matches Some(pipeline)
                &&& pipeline != PipelineId::Light
                &&& self.groups_set(pipeline)
                &&& self.vertices_set(pipeline)
                &&& self.indexed
                &&& first_index <= end_index
            },
            _ => false,
        }
    }

    /// The pass after `command`, or `None` if the command is not allowed
    /// in the pass. Bind groups go where the pass's pipelines expect their
    /// layout, buffers where the pass reads them, pipelines into their own
    /// pass, and a draw needs all that its pipeline reads.
    pub open spec fn step(self, command: Command) -> Option<PassState> {
        match command {
            Command::SetBindGroup { index, group } => if binding_fits(self.kind, index, group) {
                Some(self.with_group(index))
            } else {
                None
            },
            Command::SetVertexBuffer { slot, buffer } => if vertex_buffer_fits(
                self.kind,
                slot,
                buffer,
            ) {
                Some(self.with_vertex(slot))
            } else {
                None
            },
            Command::SetIndexBuffer { buffer } => if index_buffer_fits(self.kind, buffer) {
                Some(PassState { indexed: true, ..self })
            } else {
                None
            },
            Command::SetPipeline { pipeline } => if pipeline_fits(self.kind, pipeline) {
                Some(PassState { pipeline: Some(pipeline), ..self })
            } else {
                None
            },
            Command::DrawLightModel
            | Command::DrawModelInstanced { .. }
            | Command::DrawIndexed { .. } => if self.may_draw(command) {
                Some(PassState { drawn: true, ..self })
            } else {
                None
            },
            _ => None,
        }
    }

    /// Whether a group of layout `layout` may be set at `index` of this pass.
    fn expects(&self, index: u32, group: BindGroupRef) -> (fits: bool)
        ensures
            fits == binding_fits(self.kind, index, group),
    {
        let layout = group.layout();
        match self.kind {
            PassKind::Main => (index == 0 && layout == GroupLayout::Texture) || (index == 1
                && layout == GroupLayout::Camera) || (index == 2 && layout == GroupLayout::Rotation)
                || (index == 3 && layout == GroupLayout::Light),
            PassKind::DepthOverlay => index == 0 && layout == GroupLayout::Depth,
        }
    }

    /// Whether `command` may draw in this pass.
    fn can_draw(&self, command: Command) -> (may: bool)
        ensures
            may == self.may_draw(command),
    {
        let all_groups = self.group0 && self.group1 && self.group2 && self.group3;
        match command {
            Command::DrawLightModel => match self.pipeline {
                Some(PipelineId::Light) => all_groups,
                _ => false,
            },
            Command::DrawModelInstanced { instances } => match self.pipeline {
                Some(PipelineId::Main) => all_groups && self.vertex1,
                _ => false,
            },
            Command::DrawIndexed { first_index, end_index, base_vertex, instances } => {
                let bound = match self.pipeline {
                    Some(PipelineId::Main) => all_groups && self.vertex0 && self.vertex1,
                    Some(PipelineId::DepthOverlay) => self.group0 && self.vertex0,
                    _ => false,
                };
                bound && self.indexed && first_index <= end_index
            },
            _ => false,
        }
    }

    /// Takes one command of a pass. Returns whether it is allowed; if it
    /// is not, the pass stays as it was.
    pub fn advance(&mut self, command: Command) -> (allowed: bool)
        ensures
            allowed == (old(self).step(command) is Some),
            *final(self) == (match old(self).step(command) {
                Some(next) => next,
                None => *old(self),
            }),
    {
        match command {
            Command::SetBindGroup { index, group } => {
                let fits = self.expects(index, group);
                if fits {
                    if index == 0 {
                        self.group0 = true;
                    } else if index == 1 {
                        self.group1 = true;
                    } else if index == 2 {
                        self.group2 = true;
                    } else {
                        self.group3 = true;
                    }
                }
                fits
            },
            Command::SetVertexBuffer { slot, buffer } => {
                let fits = match self.kind {
                    PassKind::Main => (slot == 0 && buffer == BufferRef::Vertices) || (slot == 1
                        && buffer == BufferRef::Instances),
                    PassKind::DepthOverlay => slot == 0 && buffer == BufferRef::OverlayVertices,
                };
                if fits {
                    if slot == 0 {
                        self.vertex0 = true;
                    } else {
                        self.vertex1 = true;
                    }
                }
                fits
            },
            Command::SetIndexBuffer { buffer } => {
                let fits = match self.kind {
                    PassKind::Main => buffer == BufferRef::Indices,
                    PassKind::DepthOverlay => buffer == BufferRef::OverlayIndices,
                };
                if fits {
                    self.indexed = true;
                }
                fits
            },
            Command::SetPipeline { pipeline } => {
                let fits = match self.kind {
                    PassKind::Main => pipeline == PipelineId::Main || pipeline == PipelineId::Light,
                    PassKind::DepthOverlay => pipeline == PipelineId::DepthOverlay,
                };
                if fits {
                    self.pipeline = Some(pipeline);
                }
                fits
            },
            Command::DrawLightModel
            | Command::DrawModelInstanced { .. }
            | Command::DrawIndexed { .. } => {
                let may = self.can_draw(command);
                if may {
                    self.drawn = true;
                }
                may
            },
            _ => false,
        }
    }
}

impl Recorder {
    /// The recorder before the first command of a frame.
    pub open spec fn start() -> Recorder {
        Recorder {
            stage: Stage::Recording,
            pass: None,
            main_done: false,
            overlay_done: false,
            buffer_copy: None,
            texture_copy: false,
            read_back: false,
        }
    }

    /// Whether the recorder stands between passes with the encoder open.
    pub open spec fn between_passes(self) -> bool {
        self.stage == Stage::Recording && self.pass is None
    }

    /// Whether a pass of kind `kind` may begin: between passes and before
    /// any copy, the main pass first and once, the overlay after it and once.
    pub open spec fn may_begin(self, kind: PassKind) -> bool {
        &&& self.between_passes()
        &&& self.buffer_copy is None
        &&& !self.texture_copy
        &&& !self.overlay_done
        &&& match kind {
            PassKind::Main => !self.main_done,
            PassKind::DepthOverlay => self.main_done,
        }
    }

    /// The recorder after `command`, or `None` if the command is not
    /// allowed where it stands.
    ///
    /// A pass begins between passes and before any copy, and ends after
    /// it has drawn. The copies of a capture are recorded between passes,
    /// after the main pass, the buffer's first, and both for the same
    /// capture. The submission follows either both copies or none. The
    /// read-back follows the submission of its capture, and the
    /// presentation follows the submission and, if there is a capture, its
    /// read-back. Every other command belongs into an open pass.
    pub open spec fn step(self, command: Command) -> Option<Recorder> {
        match command {
            Command::BeginPass { pass, color, depth_attached } => {
                if self.may_begin(pass) && pass_begins(pass, color, depth_attached) {
                    Some(Recorder { pass: Some(PassState::opened(pass)), ..self })
                } else {
                    None
                }
            },
            Command::EndPass => match self.pass {
                Some(pass) => if self.stage == Stage::Recording && pass.drawn {
                    Some(
                        match pass.kind {
                            PassKind::Main => Recorder { pass: None, main_done: true, ..self },
                            PassKind::DepthOverlay => Recorder {
                                pass: None,
                                overlay_done: true,
                                ..self
                            },
                        },
                    )
                } else {
                    None
                },
                None => None,
            },
            Command::CopyFrameToBuffer { capture } => {
                if self.between_passes() && self.main_done && self.buffer_copy is None
                    && !self.texture_copy && capture_sound(capture) {
                    Some(Recorder { buffer_copy: Some(capture), ..self })
                } else {
                    None
                }
            },
            Command::CopyFrameToTexture { capture } => {
                if self.between_passes() && self.buffer_copy == Some(capture) && !self.texture_copy {
                    Some(Recorder { texture_copy: true, ..self })
                } else {
                    None
                }
            },
            Command::Submit => {
                if self.between_passes() && self.main_done && (self.buffer_copy is Some)
                    == self.texture_copy {
                    Some(Recorder { stage: Stage::Submitted, ..self })
                } else {
                    None
                }
            },
            Command::ReadBack { capture } => {
                if self.stage == Stage::Submitted && self.buffer_copy == Some(capture)
                    && !self.read_back {
                    Some(Recorder { read_back: true, ..self })
                } else {
                    None
                }
            },
            Command::Present => {
                if self.stage == Stage::Submitted && (self.buffer_copy is Some) == self.read_back {
                    Some(Recorder { stage: Stage::Presented, ..self })
                } else {
                    None
                }
            },
            _ => match self.pass {
                Some(pass) => if self.stage == Stage::Recording {
                    match pass.step(command) {
                        Some(next) => Some(Recorder { pass: Some(next), ..self }),
                        None => None,
                    }
                } else {
                    None
                },
                None => None,
            },
        }
    }

    /// The recorder after the commands of `commands` from place `from` on,
    /// or `None` if one of them is not allowed where it stands.
    pub open spec fn replay(self, commands: Seq<Command>, from: int) -> Option<Recorder>
        decreases commands.len() - from,
    {
        if from < 0 || from >= commands.len() {
            Some(self)
        } else {
            match self.step(commands[from]) {
                Some(next) => next.replay(commands, from + 1),
                None => None,
            }
        }
    }

    /// Whether a pass of kind `kind` may begin where the recorder stands.
    pub fn can_begin(&self, kind: PassKind) -> (may: bool)
        ensures
            may == self.may_begin(kind),
    {
        let between = self.stage == Stage::Recording && self.pass.is_none();
        let in_turn = match kind {
            PassKind::Main => !self.main_done,
            PassKind::DepthOverlay => self.main_done,
        };
        between && self.buffer_copy.is_none() && !self.texture_copy && !self.overlay_done && in_turn
    }

    /// Whether `capture` is the one whose copy into a buffer was recorded.
    fn copied(&self, capture: Capture) -> (same: bool)
        ensures
            same == (self.buffer_copy == Some(capture)),
    {
        match self.buffer_copy {
            Some(copied) => copied == capture,
            None => false,
        }
    }

    /// Takes one command. Returns whether it is allowed where it stands;
    /// if it is not, the recorder stays as it was.
    pub fn advance(&mut self, command: Command) -> (allowed: bool)
        ensures
            allowed == (old(self).step(command) is Some),
            *final(self) == (match old(self).step(command) {
                Some(next) => next,
                None => *old(self),
            }),
    {
        let between = self.stage == Stage::Recording && self.pass.is_none();
        match command {
            Command::BeginPass { pass, color, depth_attached } => {
                let begins = match pass {
                    PassKind::Main => color == ColorLoad::Clear && depth_attached,
                    PassKind::DepthOverlay => color == ColorLoad::Load && !depth_attached,
                };
                let may = self.can_begin(pass) && begins;
                if may {
                    self.pass = Some(
                        PassState {
                            kind: pass,
                            pipeline: None,
                            group0: false,
                            group1: false,
                            group2: false,
                            group3: false,
                            vertex0: false,
                            vertex1: false,
                            indexed: false,
                            drawn: false,
                        },
                    );
                }
                may
            },
            Command::EndPass => match self.pass {
                Some(pass) => {
                    let may = self.stage == Stage::Recording && pass.drawn;
                    if may {
                        match pass.kind {
                            PassKind::Main => {
                                self.main_done = true;
                            },
                            PassKind::DepthOverlay => {
                                self.overlay_done = true;
                            },
                        }
                        self.pass = None;
                    }
                    may
                },
                None => false,
            },
            Command::CopyFrameToBuffer { capture } => {
                let may = between && self.main_done && self.buffer_copy.is_none()
                    && !self.texture_copy && capture.is_sound();
                if may {
                    self.buffer_copy = Some(capture);
                }
                may
            },
            Command::CopyFrameToTexture { capture } => {
                let may = between && self.copied(capture) && !self.texture_copy;
                if may {
                    self.texture_copy = true;
                }
                may
            },
            Command::Submit => {
                let may = between && self.main_done && self.buffer_copy.is_some()
                    == self.texture_copy;
                if may {
                    self.stage = Stage::Submitted;
                }
                may
            },
            Command::ReadBack { capture } => {
                let may = self.stage == Stage::Submitted && self.copied(capture) && !self.read_back;
                if may {
                    self.read_back = true;
                }
                may
            },
            Command::Present => {
                let may = self.stage == Stage::Submitted && self.buffer_copy.is_some()
                    == self.read_back;
                if may {
                    self.stage = Stage::Presented;
                }
                may
            },
            _ => match self.pass {
                Some(pass) => {
                    if self.stage == Stage::Recording {
                        let mut next = pass;
                        let may = next.advance(command);
                        if may {
                            self.pass = Some(next);
                        }
                        may
                    } else {
                        false
                    }
                },
                None => false,
            },
        }
    }
}

impl Capture {
    /// Whether the capture states its sizes as the copies need them.
    pub fn is_sound(&self) -> (sound: bool)
        ensures
            sound == capture_sound(*self),
    {
        self.dims.is_valid() && self.dims.width > 0 && self.dims.height > 0 && self.bytes_per_row
            > 0 && self.bytes_per_row as u64 == self.dims.padded_bytes_per_row
            && self.dims.buffer_size() == Some(self.buffer_size)
    }
}

/// Whether `commands` are a frame: every command is allowed where it
/// stands, and at the end the frame is presented.
pub open spec fn accepts(commands: Seq<Command>) -> bool {
    match Recorder::start().replay(commands, 0) {
        Some(end) => end.stage == Stage::Presented,
        None => false,
    }
}

/// Goes through `commands` from the start of a frame. Returns the
/// recorder behind the last of them, or `None` if one of them is not
/// allowed where it stands.
pub fn record(commands: &Vec<Command>) -> (end: Option<Recorder>)
    ensures
        end == Recorder::start().replay(commands@, 0),
{
    let mut recorder = Recorder {
        stage: Stage::Recording,
        pass: None,
        main_done: false,
        overlay_done: false,
        buffer_copy: None,
        texture_copy: false,
        read_back: false,
    };
    let mut i: usize = 0;
    while i < commands.len()
        invariant
            i <= commands@.len(),
            Recorder::start().replay(commands@, 0) == recorder.replay(commands@, i as int),
        decreases commands@.len() - i,
    {
        if !recorder.advance(commands[i]) {
            return None;
        }
        i += 1;
    }
    Some(recorder)
}

/// Checks whether `commands` are a frame.
pub fn check_frame(commands: &Vec<Command>) -> (accepted: bool)
    ensures
        accepted == accepts(commands@),
{
    match record(commands) {
        Some(end) => end.stage == Stage::Presented,
        None => false,
    }
}

/// What was recorded stays as it was when more is recorded behind it: the
/// recorder goes through the longer recording as through the shorter one,
/// and then on from where the shorter one ended.
pub proof fn lemma_replay_prefix(start: Recorder, recorded: Seq<Command>, more: Seq<Command>, from: int)
    requires
        0 <= from <= recorded.len(),
    ensures
        start.replay(recorded + more, from) == (match start.replay(recorded, from) {
            Some(end) => end.replay(recorded + more, recorded.len() as int),
            None => None,
        }),
    decreases recorded.len() - from,
{
    if from < recorded.len() {
        assert((recorded + more)[from] == recorded[from]);
        match start.step(recorded[from]) {
            Some(next) => {
                lemma_replay_prefix(next, recorded, more, from + 1);
            },
            None => {},
        }
    }
}

/// Nothing follows the presentation, and the only step that presents is
/// the presentation: a frame that is accepted is presented by its last
/// command and by no other.
pub proof fn lemma_presented_ends(recorder: Recorder, command: Command)
    ensures
        recorder.stage == Stage::Presented ==> recorder.step(command) is None,
        recorder.stage != Stage::Presented && recorder.step(command) is Some && recorder.step(
            command,
        )->0.stage == Stage::Presented ==> command == Command::Present,
{
}

/// A frame is submitted once: only the submission leaves the recording
/// stage, and nothing leads back into it.
pub proof fn lemma_submitted_once(recorder: Recorder, command: Command)
    ensures
        recorder.stage == Stage::Recording && recorder.step(command) is Some && recorder.step(
            command,
        )->0.stage != Stage::Recording ==> command == Command::Submit,
        recorder.stage != Stage::Recording && recorder.step(command) is Some ==> recorder.step(
            command,
        )->0.stage != Stage::Recording && command != Command::Submit,
{
}

} // verus!
