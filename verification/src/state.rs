//! The frame orchestrator: what it holds between frames, and what each
//! of its steps decides.
//!
//! The orchestrator itself touches no graphics object. `render` answers
//! with the commands of the frame, in recording order, and whoever owns the
//! device carries them out; `resize` and `update` say what has to be
//! configured, rebuilt or written.

use vstd::prelude::*;
use crate::command::{BindGroupRef, BufferRef, Capture, ColorLoad, Command, PassKind, PipelineDesc, PipelineId};
use crate::command::binding_fits;
use crate::data::{NUM_INDICES, SHAPE_BASE_VERTEX, SHAPE_FIRST_INDEX};
use crate::depth::{
    lemma_overlay_allowed, lemma_overlay_pass, overlay_commands, overlay_may_follow, DepthPass,
};
use crate::keys::KeyState;
use crate::layout::GroupLayout;
use crate::light::LightBundle;
use crate::recorder::{accepts, capture_sound, Recorder, Stage};
use crate::registry::{names_after_insert, slot_after_insert, lemma_insert_keeps_names, TextureRegistry};
use crate::screenshot::{
    capturable, capture_of, lemma_capturable_sizes, lemma_capture_fits, lemma_capture_rows,
};
use crate::surface::{InitError, Size, SurfaceConfig, SurfaceError, SurfaceFormat, negotiate_format};
use crate::vertex::{
    grid, instance_grid, pack_formats, phase_after, Instance, InstanceRaw, ModelVertex,
    RotationUniform, StepMode, INSTANCE_FIRST_LOCATION, STEPS_PER_TURN,
};

verus! {

/// Texture choice that stands for the material of the model.
pub const MATERIAL_CHOICE: usize = 4;

/// The name of the registered texture of choice `choice`.
pub open spec fn texture_label(choice: int) -> Seq<char> {
    if choice == 0 {
        "tree.png"@
    } else if choice == 1 {
        "gari.png"@
    } else if choice == 2 {
        "baba.png"@
    } else {
        "moon.png"@
    }
}

/// The name under which a captured frame is registered.
pub open spec fn loop_label() -> Seq<char> {
    "loop"@
}

/// Every texture that a choice can name is among `names`.
pub open spec fn has_all_labels(names: Seq<Seq<char>>) -> bool {
    forall|choice: int| 0 <= choice < MATERIAL_CHOICE ==> names.contains(#[trigger] texture_label(choice))
}

/// The name of the registered texture of choice `choice`.
pub fn label_of(choice: usize) -> (label: String)
    requires
        choice < MATERIAL_CHOICE,
    ensures
        label@ == texture_label(choice as int),
{
    if choice == 0 {
        "tree.png".to_owned()
    } else if choice == 1 {
        "gari.png".to_owned()
    } else if choice == 2 {
        "baba.png".to_owned()
    } else {
        "moon.png".to_owned()
    }
}

/// What the model offers to the frame.
#[derive(Clone, Copy, Debug, PartialEq, Eq, Structural)]
pub struct ModelInfo {
    /// Number of meshes.
    pub meshes: usize,
    /// Number of materials.
    pub materials: usize,
    /// The material that the first mesh names.
    pub first_material: usize,
}

/// The colour that a frame is cleared with.
#[derive(Clone, Copy, Debug, PartialEq, Eq, Structural)]
pub enum ClearColor {
    Black,
    /// A colour taken from where the cursor stands in the window.
    FromCursor,
}

/// A uniform buffer that is written before a frame.
#[derive(Clone, Copy, Debug, PartialEq, Eq, Structural)]
pub enum UniformWrite {
    Camera,
    Rotation,
    Light,
}

/// The orchestrator's state between frames.
pub struct State {
    pub clear_color: ClearColor,
    pub size: Size,
    pub config: SurfaceConfig,
    pub texture_bind_group: TextureRegistry,
    pub num_indices: u32,
    pub instances: Vec<Instance>,
    pub mouse_pressed: bool,
    pub rotation: RotationUniform,
    pub depth_pass: DepthPass,
    pub keys: KeyState,
    pub light_bundle: LightBundle,
}

/// The bind group of the texture choice `choice`, among the names `names`.
pub open spec fn texture_choice(names: Seq<Seq<char>>, choice: usize) -> BindGroupRef {
    if choice == MATERIAL_CHOICE {
        BindGroupRef::Material
    } else {
        BindGroupRef::Texture(names.index_of(texture_label(choice as int)) as usize)
    }
}

/// The commands of the main pass. It clears colour and depth, binds the
/// three uniforms and the chosen texture, draws the light's marker and
/// then the instanced geometry: the flat shape if `alt_shape`, else the model.
pub open spec fn main_pass_commands(
    texture: BindGroupRef,
    alt_shape: bool,
    num_indices: u32,
    instances: u32,
) -> Seq<Command> {
    seq![
        Command::BeginPass { pass: PassKind::Main, color: ColorLoad::Clear, depth_attached: true },
        Command::SetBindGroup { index: 1, group: BindGroupRef::Camera },
        Command::SetBindGroup { index: 2, group: BindGroupRef::Rotation },
        Command::SetBindGroup { index: 3, group: BindGroupRef::Light },
        Command::SetVertexBuffer { slot: 0, buffer: BufferRef::Vertices },
        Command::SetVertexBuffer { slot: 1, buffer: BufferRef::Instances },
        Command::SetIndexBuffer { buffer: BufferRef::Indices },
        Command::SetBindGroup { index: 0, group: texture },
        Command::SetPipeline { pipeline: PipelineId::Light },
        Command::DrawLightModel,
        Command::SetPipeline { pipeline: PipelineId::Main },
        if alt_shape {
            Command::DrawIndexed {
                first_index: SHAPE_FIRST_INDEX,
                end_index: num_indices,
                base_vertex: SHAPE_BASE_VERTEX,
                instances,
            }
        } else {
            Command::DrawModelInstanced { instances }
        },
        Command::EndPass,
    ]
}

/// The commands that end the recording of a frame: with a capture, the two
/// copies of the frame, then the one submission, then the read-back;
/// without, the submission alone.
pub open spec fn closing_commands(capture: Option<Capture>) -> Seq<Command> {
    match capture {
        Some(capture) => seq![
            Command::CopyFrameToBuffer { capture },
            Command::CopyFrameToTexture { capture },
            Command::Submit,
            Command::ReadBack { capture },
        ],
        None => seq![Command::Submit],
    }
}

impl State {
    /// What holds of the state between any two steps.
    pub open spec fn wf(&self) -> bool {
        &&& self.keys.wf()
        &&& self.rotation.wf()
        &&& self.light_bundle.wf()
        &&& self.texture_bind_group.wf()
        &&& has_all_labels(self.texture_bind_group@)
        &&& self.config.size() == self.size
        &&& self.depth_pass.texture_size == self.size
        &&& self.num_indices >= SHAPE_FIRST_INDEX
        &&& self.instances@.len() <= u32::MAX
    }

    /// The capture of a frame of this state, if such a frame can be
    /// captured: it has the state's size and is bound where the name
    /// "loop" stands in the registry, or will stand.
    pub open spec fn capture_of_frame(&self) -> Option<Capture> {
        if capturable(self.size) {
            Some(
                capture_of(
                    self.size,
                    slot_after_insert(self.texture_bind_group@, loop_label()) as usize,
                ),
            )
        } else {
            None
        }
    }

    /// The capture that the next frame makes, if it makes one.
    pub open spec fn pending_capture(&self) -> Option<Capture> {
        if self.keys.screenshot {
            self.capture_of_frame()
        } else {
            None
        }
    }

    /// The commands of the next frame.
    pub open spec fn frame_commands(&self) -> Seq<Command> {
        main_pass_commands(
            texture_choice(self.texture_bind_group@, self.keys.next_tab_index()),
            self.keys.alt_shape,
            self.num_indices,
            self.instances@.len() as u32,
        ) + (if self.keys.show_depth {
            overlay_commands()
        } else {
            Seq::<Command>::empty()
        }) + closing_commands(self.pending_capture()) + seq![Command::Present]
    }

    /// The names of the registry after the next frame.
    pub open spec fn names_after_frame(&self) -> Seq<Seq<char>> {
        if self.pending_capture() is Some {
            names_after_insert(self.texture_bind_group@, loop_label())
        } else {
            self.texture_bind_group@
        }
    }

    /// The flags after the next frame: both requests are consumed.
    pub open spec fn keys_after_frame(&self) -> KeyState {
        self.keys.frame_consumed()
    }

    /// Sets the orchestrator up.
    ///
    /// `size` is the window's size, `supported` the formats that the
    /// surface lists, `textures` the registry after the texture files were
    /// loaded, and `model` what the loaded model holds. The surface is
    /// configured with the first listed format. Setting up fails when no
    /// format is listed, when a texture that a choice can name is missing,
    /// when the model has no mesh, or when its first mesh names a material
    /// that it does not have; the first of these that holds decides.
    pub fn new(
        size: Size,
        supported: &Vec<SurfaceFormat>,
        textures: TextureRegistry,
        model: ModelInfo,
    ) -> (state: Result<State, InitError>)
        ensures
            supported@.len() == 0 ==> state is Err && state->Err_0 == InitError::NoSurfaceFormat,
            supported@.len() > 0 && !has_all_labels(textures@) ==> state is Err && state->Err_0
                == InitError::MissingTexture,
            supported@.len() > 0 && has_all_labels(textures@) && model.meshes == 0 ==> state is Err
                && state->Err_0 == InitError::EmptyModel,
            supported@.len() > 0 && has_all_labels(textures@) && model.meshes > 0
                && model.first_material >= model.materials ==> state is Err && state->Err_0
                == InitError::MissingMaterial,
            supported@.len() > 0 && has_all_labels(textures@) && model.meshes > 0
                && model.first_material < model.materials ==> state is Ok && ({
                let s = state->Ok_0;
                &&& s.wf()
                &&& s.size == size
                &&& s.config == SurfaceConfig::queued(size, supported@[0])
                &&& s.clear_color == ClearColor::Black
                &&& s.keys == KeyState::initial()
                &&& s.texture_bind_group@ == textures@
                &&& s.num_indices == NUM_INDICES
                &&& s.instances@ == grid()
                &&& !s.mouse_pressed
                &&& s.rotation.phase == 0
                &&& s.light_bundle.phase == 0
                &&& s.depth_pass.texture_size == size
            }),
    {
        let format = match negotiate_format(supported) {
            Ok(format) => format,
            Err(error) => {
                return Err(error);
            },
        };
        let config = SurfaceConfig::new(size, format);
        let mut choice: usize = 0;
        while choice < MATERIAL_CHOICE
            invariant
                choice <= MATERIAL_CHOICE,
                supported@.len() > 0,
                choice > 0 ==> textures.wf(),
                forall|c: int| 0 <= c < choice ==> textures@.contains(#[trigger] texture_label(c)),
            decreases MATERIAL_CHOICE - choice,
        {
            let label = label_of(choice);
            if textures.lookup(&label).is_none() {
                assert(!textures@.contains(texture_label(choice as int)));
                return Err(InitError::MissingTexture);
            }
            choice += 1;
        }
        if model.meshes == 0 {
            return Err(InitError::EmptyModel);
        }
        if model.first_material >= model.materials {
            return Err(InitError::MissingMaterial);
        }
        let instances = instance_grid();
        let depth_pass = DepthPass::new(&config);
        Ok(
            State {
                clear_color: ClearColor::Black,
                size,
                config,
                texture_bind_group: textures,
                num_indices: NUM_INDICES,
                instances,
                mouse_pressed: false,
                rotation: RotationUniform::new(),
                depth_pass,
                keys: KeyState::default(),
                light_bundle: LightBundle::new(),
            },
        )
    }

    /// Whether the state is one that the steps below can start from: the
    /// flags and phases are in range, every texture that a choice can name
    /// is registered, configuration and depth texture have the state's
    /// size, and the flat shape has indices to draw.
    pub fn is_valid(&self) -> (valid: bool)
        ensures
            valid == self.wf(),
    {
        let mut choice: usize = 0;
        while choice < MATERIAL_CHOICE
            invariant
                choice <= MATERIAL_CHOICE,
                choice > 0 ==> self.texture_bind_group.wf(),
                forall|c: int|
                    0 <= c < choice ==> self.texture_bind_group@.contains(#[trigger] texture_label(c)),
            decreases MATERIAL_CHOICE - choice,
        {
            let label = label_of(choice);
            if self.texture_bind_group.lookup(&label).is_none() {
                assert(!self.texture_bind_group@.contains(texture_label(choice as int)));
                return false;
            }
            choice += 1;
        }
        self.keys.is_valid() && self.rotation.phase < STEPS_PER_TURN && self.light_bundle.phase
            < STEPS_PER_TURN && self.config.width == self.size.width && self.config.height
            == self.size.height && self.depth_pass.texture_size.width == self.size.width
            && self.depth_pass.texture_size.height == self.size.height && self.num_indices
            >= SHAPE_FIRST_INDEX && self.instances.len() <= u32::MAX as usize
    }

    /// Describes the pipeline `id` for the surface's format.
    pub fn pipeline(&self, id: PipelineId) -> (desc: PipelineDesc)
        ensures
            desc.id == id,
            desc.target == self.config.format,
            desc.groups@ == id.spec_groups(),
            desc.uses_depth == id.spec_uses_depth(),
            desc.vertex_buffers@.len() == (if id == PipelineId::Main {
                2int
            } else {
                1int
            }),
            desc.vertex_buffers@[0].attributes@ == pack_formats(ModelVertex::formats(), 0),
            desc.vertex_buffers@[0].step_mode == StepMode::Vertex,
            desc.vertex_buffers@[0].array_stride == 32,
            id == PipelineId::Main ==> {
                &&& desc.vertex_buffers@[1].attributes@ == pack_formats(
                    InstanceRaw::formats(),
                    INSTANCE_FIRST_LOCATION,
                )
                &&& desc.vertex_buffers@[1].step_mode == StepMode::Instance
                &&& desc.vertex_buffers@[1].array_stride == 100
            },
    {
        PipelineDesc::new(id, self.config.format)
    }

    /// Takes a new size of the window.
    ///
    /// A size with a zero side, as a minimised window reports it, is
    /// passed over: nothing changes and `None` is returned. Otherwise the
    /// state takes the size, and the configuration to configure the
    /// surface with is returned; the depth texture is made anew for it.
    pub fn resize(&mut self, new_size: Size) -> (reconfigure: Option<SurfaceConfig>)
        requires
            old(self).wf(),
        ensures
            final(self).wf(),
            !new_size.spec_is_drawable() ==> *final(self) == *old(self) && reconfigure is None,
            new_size.spec_is_drawable() ==> {
                &&& reconfigure == Some(old(self).config.resized(new_size))
                &&& final(self).size == new_size
                &&& final(self).config == old(self).config.resized(new_size)
                &&& final(self).config.width == new_size.width
                &&& final(self).config.height == new_size.height
                &&& final(self).depth_pass.texture_size == new_size
                &&& final(self).clear_color == old(self).clear_color
                &&& final(self).texture_bind_group == old(self).texture_bind_group
                &&& final(self).num_indices == old(self).num_indices
                &&& final(self).instances == old(self).instances
                &&& final(self).mouse_pressed == old(self).mouse_pressed
                &&& final(self).rotation == old(self).rotation
                &&& final(self).keys == old(self).keys
                &&& final(self).light_bundle == old(self).light_bundle
            },
    {
        if new_size.is_drawable() {
            self.size = new_size;
            self.config.width = new_size.width;
            self.config.height = new_size.height;
            let config = self.config;
            self.depth_pass.resize(&config);
            Some(config)
        } else {
            None
        }
    }

    /// Advances what moves between frames, and says which uniforms have to
    /// be written, in this order: the camera's, the rotation's if the
    /// rotation is switched on, the light's. The rotation advances by one
    /// step only while it is switched on; the light advances in any case.
    pub fn update(&mut self) -> (writes: Vec<UniformWrite>)
        requires
            old(self).wf(),
        ensures
            final(self).wf(),
            writes@ == (if old(self).keys.rotate {
                seq![UniformWrite::Camera, UniformWrite::Rotation, UniformWrite::Light]
            } else {
                seq![UniformWrite::Camera, UniformWrite::Light]
            }),
            final(self).rotation.phase == (if old(self).keys.rotate {
                phase_after(old(self).rotation.phase)
            } else {
                old(self).rotation.phase
            }),
            final(self).light_bundle.phase == phase_after(old(self).light_bundle.phase),
            final(self).clear_color == old(self).clear_color,
            final(self).size == old(self).size,
            final(self).config == old(self).config,
            final(self).texture_bind_group == old(self).texture_bind_group,
            final(self).num_indices == old(self).num_indices,
            final(self).instances == old(self).instances,
            final(self).mouse_pressed == old(self).mouse_pressed,
            final(self).depth_pass == old(self).depth_pass,
            final(self).keys == old(self).keys,
    {
        let mut writes: Vec<UniformWrite> = Vec::new();
        writes.push(UniformWrite::Camera);
        if self.keys.rotate {
            self.rotation.advance();
            writes.push(UniformWrite::Rotation);
        }
        self.light_bundle.update();
        writes.push(UniformWrite::Light);
        proof {
            if old(self).keys.rotate {
                assert(writes@ =~= seq![
                    UniformWrite::Camera,
                    UniformWrite::Rotation,
                    UniformWrite::Light,
                ]);
            } else {
                assert(writes@ =~= seq![UniformWrite::Camera, UniformWrite::Light]);
            }
        }
        writes
    }

    /// Records one frame.
    ///
    /// `acquired` says how acquiring the surface's next image went. If it
    /// failed, nothing is recorded, nothing changes, and the failure is
    /// handed back. Otherwise the answer is the frame's commands in
    /// recording order: the main pass, the depth overlay if it is switched
    /// on, the capture's copies if a screenshot was asked for, one
    /// submission, the read-back of a capture, and the presentation. Each
    /// command is allowed where it stands. Both one-shot requests are
    /// consumed, and a capture registers the frame under the name "loop".
    /// A request for a screenshot of a frame that cannot be captured,
    /// because it has no pixels or its rows are too long for a copy, is
    /// consumed all the same: such a frame is recorded without a capture.
    #[verifier::rlimit(40)]
    pub fn render(&mut self, acquired: Result<(), SurfaceError>) -> (frame: Result<
        Vec<Command>,
        SurfaceError,
    >)
        requires
            old(self).wf(),
        ensures
            final(self).wf(),
            acquired matches Err(error) ==> *final(self) == *old(self) && frame == Err::<
                Vec<Command>,
                SurfaceError,
            >(error),
            acquired is Ok ==> {
                &&& frame is Ok
                &&& frame->Ok_0@ == old(self).frame_commands()
                &&& accepts(frame->Ok_0@)
                &&& final(self).keys == old(self).keys_after_frame()
                &&& final(self).texture_bind_group@ == old(self).names_after_frame()
                &&& final(self).clear_color == old(self).clear_color
                &&& final(self).size == old(self).size
                &&& final(self).config == old(self).config
                &&& final(self).num_indices == old(self).num_indices
                &&& final(self).instances == old(self).instances
                &&& final(self).mouse_pressed == old(self).mouse_pressed
                &&& final(self).rotation == old(self).rotation
                &&& final(self).depth_pass == old(self).depth_pass
                &&& final(self).light_bundle == old(self).light_bundle
            },
    {
        match acquired {
            Err(error) => {
                return Err(error);
            },
            Ok(()) => {},
        }
        let mut encoder: Vec<Command> = Vec::new();
        let choice = self.keys.take_tab();
        let texture = if choice == MATERIAL_CHOICE {
            BindGroupRef::Material
        } else {
            let label = label_of(choice);
            match self.texture_bind_group.lookup(&label) {
                Some(slot) => BindGroupRef::Texture(slot),
                None => {
                    proof {
                        assert(self.texture_bind_group@.contains(texture_label(choice as int)));
                    }
                    BindGroupRef::Material
                },
            }
        };
        let instances = self.instances.len() as u32;
        encoder.push(
            Command::BeginPass { pass: PassKind::Main, color: ColorLoad::Clear, depth_attached: true },
        );
        encoder.push(Command::SetBindGroup { index: 1, group: BindGroupRef::Camera });
        encoder.push(Command::SetBindGroup { index: 2, group: BindGroupRef::Rotation });
        encoder.push(Command::SetBindGroup { index: 3, group: BindGroupRef::Light });
        encoder.push(Command::SetVertexBuffer { slot: 0, buffer: BufferRef::Vertices });
        encoder.push(Command::SetVertexBuffer { slot: 1, buffer: BufferRef::Instances });
        encoder.push(Command::SetIndexBuffer { buffer: BufferRef::Indices });
        encoder.push(Command::SetBindGroup { index: 0, group: texture });
        encoder.push(Command::SetPipeline { pipeline: PipelineId::Light });
        encoder.push(Command::DrawLightModel);
        encoder.push(Command::SetPipeline { pipeline: PipelineId::Main });
        if self.keys.alt_shape {
            encoder.push(
                Command::DrawIndexed {
                    first_index: SHAPE_FIRST_INDEX,
                    end_index: self.num_indices,
                    base_vertex: SHAPE_BASE_VERTEX,
                    instances,
                },
            );
        } else {
            encoder.push(Command::DrawModelInstanced { instances });
        }
        encoder.push(Command::EndPass);
        let ghost main = main_pass_commands(
            texture_choice(old(self).texture_bind_group@, old(self).keys.next_tab_index()),
            old(self).keys.alt_shape,
            old(self).num_indices,
            old(self).instances@.len() as u32,
        );
        assert(encoder@ =~= main);
        if self.keys.show_depth {
            assert(overlay_may_follow(encoder@)) by {
                assert(main.subrange(0, main_pass_len()) =~= main);
                lemma_main_pass_allowed(
                    main,
                    texture_choice(old(self).texture_bind_group@, old(self).keys.next_tab_index()),
                    old(self).keys.alt_shape,
                    old(self).num_indices,
                    old(self).instances@.len() as u32,
                );
                assert(after_main_pass().replay(main, main_pass_len()) == Some(after_main_pass()));
            }
            self.depth_pass.render(&mut encoder);
        }
        let ghost passes = main + (if old(self).keys.show_depth {
            overlay_commands()
        } else {
            Seq::<Command>::empty()
        });
        assert(encoder@ =~= passes);
        if self.keys.take_screenshot() {
            self.create_screenshot(&mut encoder);
        } else {
            encoder.push(Command::Submit);
        }
        assert(encoder@ =~= passes + closing_commands(old(self).pending_capture()));
        encoder.push(Command::Present);
        proof {
            assert(encoder@ =~= old(self).frame_commands());
            lemma_frame_accepted(&*old(self));
        }
        Ok(encoder)
    }

    /// Records the capture of the frame and its submission behind what
    /// `encoder` holds.
    ///
    /// The request is cleared first, so that a capture that fails half-way
    /// is not tried again with every frame. Then both copies of the frame
    /// are recorded before the one submission, so that they see what the
    /// passes drew: one into a buffer that can be read back, one into a new
    /// texture that is registered under the name "loop", in place of an
    /// earlier capture if there is one. The read-back follows the
    /// submission. Both copies and the read-back carry the same capture. It
    /// has the state's size, and its rows are padded to the least multiple
    /// of the copy alignment that holds a row. A frame that cannot be
    /// captured is submitted as it is.
    pub fn create_screenshot(&mut self, encoder: &mut Vec<Command>)
        requires
            old(self).wf(),
        ensures
            final(self).wf(),
            final(self).keys == old(self).keys.screenshot_consumed(),
            final(encoder)@ == old(encoder)@ + closing_commands(old(self).capture_of_frame()),
            old(self).size.width > 0 && old(self).size.height > 0 && 4 * old(self).size.width + 255
                <= u32::MAX ==> old(self).capture_of_frame() is Some,
            old(self).capture_of_frame() matches Some(capture) ==> {
                &&& capture_sound(capture)
                &&& capture.dims.width == old(self).size.width
                &&& capture.dims.height == old(self).size.height
                &&& capture.bytes_per_row % 256 == 0
                &&& capture.bytes_per_row >= 4 * old(self).size.width
                &&& capture.bytes_per_row - 4 * old(self).size.width < 256
                &&& capture.slot < final(self).texture_bind_group@.len()
                &&& final(self).texture_bind_group@[capture.slot as int] == loop_label()
            },
            final(self).texture_bind_group@ == (if capturable(old(self).size) {
                names_after_insert(old(self).texture_bind_group@, loop_label())
            } else {
                old(self).texture_bind_group@
            }),
            final(self).clear_color == old(self).clear_color,
            final(self).size == old(self).size,
            final(self).config == old(self).config,
            final(self).num_indices == old(self).num_indices,
            final(self).instances == old(self).instances,
            final(self).mouse_pressed == old(self).mouse_pressed,
            final(self).rotation == old(self).rotation,
            final(self).depth_pass == old(self).depth_pass,
            final(self).light_bundle == old(self).light_bundle,
    {
        self.keys.screenshot = false;
        proof {
            lemma_capturable_sizes(self.size);
        }
        match Capture::plan(self.size, 0) {
            None => {
                encoder.push(Command::Submit);
                assert(encoder@ =~= old(encoder)@ + closing_commands(None));
            },
            Some(planned) => {
                let ghost names = self.texture_bind_group@;
                let slot = self.texture_bind_group.insert("loop".to_owned());
                proof {
                    assert forall|choice: int| 0 <= choice < MATERIAL_CHOICE implies names_after_insert(
                        names,
                        loop_label(),
                    ).contains(#[trigger] texture_label(choice)) by {
                        lemma_insert_keeps_names(names, loop_label(), texture_label(choice));
                    }
                    lemma_capture_fits(self.size, slot);
                    lemma_capture_rows(self.size, slot);
                }
                let capture = Capture { slot, ..planned };
                encoder.push(Command::CopyFrameToBuffer { capture });
                encoder.push(Command::CopyFrameToTexture { capture });
                encoder.push(Command::Submit);
                encoder.push(Command::ReadBack { capture });
                assert(encoder@ =~= old(encoder)@ + closing_commands(Some(capture)));
            },
        }
    }
}

/// Number of commands of the main pass.
pub open spec fn main_pass_len() -> int {
    13
}

/// Place of the submission among the commands of the next frame of `state`.
pub open spec fn submission_index(state: &State) -> int {
    main_pass_len() + (if state.keys.show_depth {
        overlay_commands().len() as int
    } else {
        0
    }) + (if state.pending_capture() is Some {
        2int
    } else {
        0
    })
}

/// A frame is submitted exactly once, whatever its flags: one command of
/// the frame is a submission, and it stands at the submission's place.
pub proof fn lemma_single_submission(state: &State, i: int)
    requires
        0 <= i < state.frame_commands().len(),
    ensures
        0 <= submission_index(state) < state.frame_commands().len(),
        state.frame_commands()[submission_index(state)] == Command::Submit,
        state.frame_commands()[i] is Submit <==> i == submission_index(state),
{
    lemma_overlay_pass();
}

/// A frame is presented exactly once, as its last command.
pub proof fn lemma_presented_last(state: &State, i: int)
    requires
        0 <= i < state.frame_commands().len(),
    ensures
        state.frame_commands().last() == Command::Present,
        state.frame_commands()[i] is Present <==> i == state.frame_commands().len() - 1,
        submission_index(state) < state.frame_commands().len() - 1,
{
    lemma_overlay_pass();
}

/// The main pass comes first and is closed before anything else is
/// recorded: it starts the frame by clearing colour and depth, and ends at
/// the last of its commands.
pub proof fn lemma_main_pass_first(state: &State, i: int)
    requires
        0 <= i < main_pass_len(),
    ensures
        state.frame_commands().len() >= main_pass_len() + 2,
        state.frame_commands()[0] == (Command::BeginPass {
            pass: PassKind::Main,
            color: ColorLoad::Clear,
            depth_attached: true,
        }),
        state.frame_commands()[main_pass_len() - 1] == Command::EndPass,
        0 < i ==> !(state.frame_commands()[i] is BeginPass),
        i < main_pass_len() - 1 ==> !(state.frame_commands()[i] is EndPass),
{
}

/// With the overlay switched on, its pass is recorded right behind the
/// main pass and before the submission, and it loads the colour that the
/// main pass drew. With the overlay switched off, the frame has no second pass.
pub proof fn lemma_overlay_after_main(state: &State, i: int)
    requires
        0 <= i < state.frame_commands().len(),
    ensures
        state.keys.show_depth ==> {
            &&& state.frame_commands().subrange(
                main_pass_len(),
                main_pass_len() + overlay_commands().len(),
            ) == overlay_commands()
            &&& state.frame_commands()[main_pass_len()] == (Command::BeginPass {
                pass: PassKind::DepthOverlay,
                color: ColorLoad::Load,
                depth_attached: false,
            })
            &&& main_pass_len() + overlay_commands().len() <= submission_index(state)
        },
        !state.keys.show_depth && i > 0 ==> !(state.frame_commands()[i] is BeginPass),
        i >= main_pass_len() && state.frame_commands()[i] is BeginPass ==> i == main_pass_len()
            && state.keys.show_depth,
{
    lemma_overlay_pass();
    if state.keys.show_depth {
        assert(state.frame_commands().subrange(
            main_pass_len(),
            main_pass_len() + overlay_commands().len(),
        ) =~= overlay_commands());
    }
}

/// Every bind group of a frame is set at an index at which the pipelines
/// of its pass expect a group of its layout.
pub proof fn lemma_bindings_fit(state: &State, i: int, index: u32, group: BindGroupRef)
    requires
        0 <= i < state.frame_commands().len(),
        state.frame_commands()[i] == (Command::SetBindGroup { index, group }),
    ensures
        i < main_pass_len() ==> binding_fits(PassKind::Main, index, group),
        i >= main_pass_len() ==> state.keys.show_depth && binding_fits(
            PassKind::DepthOverlay,
            index,
            group,
        ),
{
    lemma_overlay_pass();
    if i >= main_pass_len() {
        if state.keys.show_depth {
            let j = i - main_pass_len();
            if j < overlay_commands().len() {
                assert(overlay_commands()[j] == state.frame_commands()[i]);
            }
        }
    }
}

/// A frame with a capture records both copies of the frame right before
/// its one submission and behind its passes, and reads back behind the
/// submission. The captured frame is registered under the name "loop" at
/// the slot that the copies name. A frame without a capture records no
/// copy and no read-back.
pub proof fn lemma_capture_in_frame(state: &State, i: int)
    requires
        state.wf(),
        0 <= i < state.frame_commands().len(),
    ensures
        state.pending_capture() matches Some(capture) ==> {
            &&& state.frame_commands()[submission_index(state) - 2]
                == Command::CopyFrameToBuffer { capture }
            &&& state.frame_commands()[submission_index(state) - 1]
                == Command::CopyFrameToTexture { capture }
            &&& state.frame_commands()[submission_index(state) + 1] == Command::ReadBack { capture }
            &&& (state.frame_commands()[i] is CopyFrameToBuffer <==> i == submission_index(state)
                - 2)
            &&& (state.frame_commands()[i] is CopyFrameToTexture <==> i == submission_index(state)
                - 1)
            &&& (state.frame_commands()[i] is ReadBack <==> i == submission_index(state) + 1)
            &&& capture.slot < state.names_after_frame().len()
            &&& state.names_after_frame()[capture.slot as int] == loop_label()
            &&& capture.dims.width == state.size.width
            &&& capture.dims.height == state.size.height
        },
        state.pending_capture() is None ==> !(state.frame_commands()[i] is CopyFrameToBuffer) && !(
        state.frame_commands()[i] is CopyFrameToTexture) && !(state.frame_commands()[i] is ReadBack),
        state.pending_capture() is Some <==> state.keys.screenshot && capturable(state.size),
{
    lemma_overlay_pass();
    state.texture_bind_group.lemma_len_fits();
    let names = state.texture_bind_group@;
    if state.pending_capture() is Some {
        lemma_insert_keeps_names(names, loop_label(), loop_label());
        let after = names_after_insert(names, loop_label());
        if names.contains(loop_label()) {
            let first = names.index_of(loop_label());
            assert(names[first] == loop_label());
        } else {
            assert(after[names.len() as int] == loop_label());
        }
        assert(after.len() <= names.len() + 1);
    }
}

/// A request is served by one frame only: the frame after a frame finds
/// neither request, so it makes no capture and keeps the texture that the
/// frame before it chose.
pub proof fn lemma_requests_served_once(before: &State, after: &State)
    requires
        before.wf(),
        after.keys == before.keys_after_frame(),
    ensures
        after.pending_capture() is None,
        after.keys.next_tab_index() == before.keys.next_tab_index(),
        after.keys_after_frame() == after.keys,
        !after.keys.tab && !after.keys.screenshot,
{
}

/// The recorder after the main pass of a frame.
pub open spec fn after_main_pass() -> Recorder {
    Recorder { main_done: true, ..Recorder::start() }
}

/// The main pass of a frame is allowed command by command, whichever
/// texture is chosen and whichever shape is drawn, and leaves the recorder
/// between passes.
pub proof fn lemma_main_pass_allowed(
    commands: Seq<Command>,
    texture: BindGroupRef,
    alt_shape: bool,
    num_indices: u32,
    instances: u32,
)
    requires
        texture.spec_layout() == GroupLayout::Texture,
        num_indices >= SHAPE_FIRST_INDEX,
        commands.len() >= main_pass_len(),
        commands.subrange(0, main_pass_len()) == main_pass_commands(
            texture,
            alt_shape,
            num_indices,
            instances,
        ),
    ensures
        Recorder::start().replay(commands, 0) == after_main_pass().replay(commands, main_pass_len()),
{
    let main = main_pass_commands(texture, alt_shape, num_indices, instances);
    assert forall|i: int| 0 <= i < main_pass_len() implies commands[i] == main[i] by {
        assert(commands.subrange(0, main_pass_len())[i] == commands[i]);
    }
    let r0 = Recorder::start();
    let r1 = r0.step(commands[0])->0;
    let r2 = r1.step(commands[1])->0;
    let r3 = r2.step(commands[2])->0;
    let r4 = r3.step(commands[3])->0;
    let r5 = r4.step(commands[4])->0;
    let r6 = r5.step(commands[5])->0;
    let r7 = r6.step(commands[6])->0;
    let r8 = r7.step(commands[7])->0;
    let r9 = r8.step(commands[8])->0;
    let r10 = r9.step(commands[9])->0;
    let r11 = r10.step(commands[10])->0;
    let r12 = r11.step(commands[11])->0;
    let r13 = r12.step(commands[12])->0;
    assert(r0.step(commands[0]) is Some);
    assert(r1.step(commands[1]) is Some);
    assert(r2.step(commands[2]) is Some);
    assert(r3.step(commands[3]) is Some);
    assert(r4.step(commands[4]) is Some);
    assert(r5.step(commands[5]) is Some);
    assert(r6.step(commands[6]) is Some);
    assert(r7.step(commands[7]) is Some);
    assert(r8.step(commands[8]) is Some);
    assert(r9.step(commands[9]) is Some);
    assert(r10.step(commands[10]) is Some);
    assert(r11.step(commands[11]) is Some);
    assert(r12.step(commands[12]) is Some);
    assert(r13 == after_main_pass());
    assert(r12.replay(commands, 12) == r13.replay(commands, 13));
    assert(r11.replay(commands, 11) == r12.replay(commands, 12));
    assert(r10.replay(commands, 10) == r11.replay(commands, 11));
    assert(r9.replay(commands, 9) == r10.replay(commands, 10));
    assert(r8.replay(commands, 8) == r9.replay(commands, 9));
    assert(r7.replay(commands, 7) == r8.replay(commands, 8));
    assert(r6.replay(commands, 6) == r7.replay(commands, 7));
    assert(r5.replay(commands, 5) == r6.replay(commands, 6));
    assert(r4.replay(commands, 4) == r5.replay(commands, 5));
    assert(r3.replay(commands, 3) == r4.replay(commands, 4));
    assert(r2.replay(commands, 2) == r3.replay(commands, 3));
    assert(r1.replay(commands, 1) == r2.replay(commands, 2));
    assert(r0.replay(commands, 0) == r1.replay(commands, 1));
}

/// The commands that close a frame are allowed behind its passes and
/// leave the frame presented.
pub proof fn lemma_closing_allowed(
    commands: Seq<Command>,
    at: int,
    passes: Recorder,
    capture: Option<Capture>,
)
    requires
        0 <= at,
        passes == after_main_pass() || passes == (Recorder {
            overlay_done: true,
            ..after_main_pass()
        }),
        capture matches Some(c) ==> capture_sound(c),
        commands.len() == at + closing_commands(capture).len() + 1,
        commands.subrange(at, commands.len() as int) == closing_commands(capture) + seq![
            Command::Present,
        ],
    ensures
        passes.replay(commands, at) is Some,
        passes.replay(commands, at)->0.stage == Stage::Presented,
{
    let tail = closing_commands(capture) + seq![Command::Present];
    assert forall|i: int| 0 <= i < tail.len() implies commands[at + i] == tail[i] by {
        assert(commands.subrange(at, commands.len() as int)[i] == commands[at + i]);
    }
    match capture {
        Some(c) => {
            assert(commands[at] == tail[0]);
            assert(commands[at + 1] == tail[1]);
            assert(commands[at + 2] == tail[2]);
            assert(commands[at + 3] == tail[3]);
            assert(commands[at + 4] == tail[4]);
            let r1 = passes.step(commands[at])->0;
            let r2 = r1.step(commands[at + 1])->0;
            let r3 = r2.step(commands[at + 2])->0;
            let r4 = r3.step(commands[at + 3])->0;
            let r5 = r4.step(commands[at + 4])->0;
            assert(passes.step(commands[at]) is Some);
            assert(r1.step(commands[at + 1]) is Some);
            assert(r2.step(commands[at + 2]) is Some);
            assert(r3.step(commands[at + 3]) is Some);
            assert(r4.step(commands[at + 4]) is Some);
            assert(r5.stage == Stage::Presented);
            assert(r5.replay(commands, at + 5) == Some(r5));
            assert(r4.replay(commands, at + 4) == r5.replay(commands, at + 5));
            assert(r3.replay(commands, at + 3) == r4.replay(commands, at + 4));
            assert(r2.replay(commands, at + 2) == r3.replay(commands, at + 3));
            assert(r1.replay(commands, at + 1) == r2.replay(commands, at + 2));
            assert(passes.replay(commands, at) == r1.replay(commands, at + 1));
        },
        None => {
            assert(commands[at] == tail[0]);
            assert(commands[at + 1] == tail[1]);
            let r1 = passes.step(commands[at])->0;
            let r2 = r1.step(commands[at + 1])->0;
            assert(passes.step(commands[at]) is Some);
            assert(r1.step(commands[at + 1]) is Some);
            assert(r2.stage == Stage::Presented);
            assert(r2.replay(commands, at + 2) == Some(r2));
            assert(r1.replay(commands, at + 1) == r2.replay(commands, at + 2));
            assert(passes.replay(commands, at) == r1.replay(commands, at + 1));
        },
    }
}

/// Every frame is recorded in an allowed order: each of its commands is
/// allowed where it stands, and the frame ends presented.
pub proof fn lemma_frame_accepted(state: &State)
    requires
        state.wf(),
    ensures
        accepts(state.frame_commands()),
{
    let commands = state.frame_commands();
    let names = state.texture_bind_group@;
    let texture = texture_choice(names, state.keys.next_tab_index());
    let main = main_pass_commands(
        texture,
        state.keys.alt_shape,
        state.num_indices,
        state.instances@.len() as u32,
    );
    let capture = state.pending_capture();
    state.texture_bind_group.lemma_len_fits();
    if capture is Some {
        lemma_capture_fits(
            state.size,
            slot_after_insert(names, loop_label()) as usize,
        );
    }
    assert(commands.subrange(0, main_pass_len()) =~= main);
    lemma_main_pass_allowed(
        commands,
        texture,
        state.keys.alt_shape,
        state.num_indices,
        state.instances@.len() as u32,
    );
    if state.keys.show_depth {
        let at = main_pass_len() + overlay_commands().len();
        assert(commands.subrange(main_pass_len(), at) =~= overlay_commands());
        lemma_overlay_allowed(commands, main_pass_len(), after_main_pass());
        assert(commands.subrange(at, commands.len() as int) =~= closing_commands(capture) + seq![
            Command::Present,
        ]);
        lemma_closing_allowed(
            commands,
            at,
            Recorder { overlay_done: true, ..after_main_pass() },
            capture,
        );
    } else {
        assert(commands.subrange(main_pass_len(), commands.len() as int) =~= closing_commands(
            capture,
        ) + seq![Command::Present]);
        lemma_closing_allowed(commands, main_pass_len(), after_main_pass(), capture);
    }
}

} // verus!
