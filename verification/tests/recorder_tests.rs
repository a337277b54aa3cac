use frame_pipeline::command::{BindGroupRef, BufferRef, Capture, ColorLoad, Command, PassKind, PipelineId};
use frame_pipeline::keys::Key;
use frame_pipeline::depth::DepthPass;
use frame_pipeline::recorder::{check_frame, record, PassState, Recorder, Stage};
use frame_pipeline::registry::TextureRegistry;
use frame_pipeline::state::{ModelInfo, State};
use frame_pipeline::surface::{Size, SurfaceFormat};

fn fresh_state(width: u32, height: u32) -> State {
    let mut textures = TextureRegistry::new();
    for name in ["gari.png", "tree.png", "baba.png", "moon.png"] {
        textures.insert(name.to_string());
    }
    State::new(
        Size { width, height },
        &vec![SurfaceFormat { code: 0 }],
        textures,
        ModelInfo { meshes: 1, materials: 1, first_material: 0 },
    )
    .ok()
    .unwrap()
}

fn start() -> Recorder {
    Recorder {
        stage: Stage::Recording,
        pass: None,
        main_done: false,
        overlay_done: false,
        buffer_copy: None,
        texture_copy: false,
        read_back: false,
    }
}

fn full_frame() -> Vec<Command> {
    let mut state = fresh_state(800, 600);
    state.keys.press(Key::Z);
    state.keys.press(Key::P);
    state.render(Ok(())).unwrap()
}

fn without(frame: &[Command], place: usize) -> Vec<Command> {
    let mut shorter = frame.to_vec();
    shorter.remove(place);
    shorter
}

fn swapped(frame: &[Command], a: usize, b: usize) -> Vec<Command> {
    let mut other = frame.to_vec();
    other.swap(a, b);
    other
}

#[test]
fn every_rendered_frame_is_accepted() {
    for flags in 0..32u32 {
        for (width, height) in [(800u32, 600u32), (1, 1), (0, 0), (65, 3)] {
            let mut state = fresh_state(width, height);
            for (bit, key) in [Key::Y, Key::Tab, Key::P, Key::R, Key::Z].iter().enumerate() {
                if flags & (1 << bit) != 0 {
                    state.keys.press(*key);
                }
            }
            for _ in 0..3 {
                let frame = state.render(Ok(())).unwrap();
                assert!(check_frame(&frame));
            }
        }
    }
}

#[test]
fn full_frame_has_the_expected_shape() {
    let frame = full_frame();
    assert_eq!(frame.len(), 13 + 7 + 4 + 1);
    assert!(check_frame(&frame));
    assert_eq!(frame[22], Command::Submit);
    assert_eq!(frame[24], Command::Present);
}

#[test]
fn a_frame_must_be_complete() {
    let frame = full_frame();
    assert!(!check_frame(&[].to_vec()));
    for length in 0..frame.len() {
        assert!(!check_frame(&frame[..length].to_vec()), "a prefix of {} commands", length);
    }
    let mut longer = frame.clone();
    longer.push(Command::Present);
    assert!(!check_frame(&longer));
    let mut longer = frame.clone();
    longer.push(Command::Submit);
    assert!(!check_frame(&longer));
}

#[test]
fn what_a_frame_cannot_do_without() {
    let frame = full_frame();
    // The model brings its own vertices and indices, and either of the
    // two draws of the main pass makes the pass a drawing one.
    let optional = [4usize, 6, 9, 11];
    for place in 0..frame.len() {
        let accepted = check_frame(&without(&frame, place));
        assert_eq!(accepted, optional.contains(&place), "without command {}", place);
    }
    // Without both draws the main pass draws nothing.
    assert!(!check_frame(&without(&without(&frame, 11), 9)));
}

#[test]
fn flat_shape_needs_its_vertices_and_indices() {
    let mut state = fresh_state(800, 600);
    state.keys.press(Key::Y);
    let frame = state.render(Ok(())).unwrap();
    assert!(check_frame(&frame));
    assert_eq!(frame[4], Command::SetVertexBuffer { slot: 0, buffer: BufferRef::Vertices });
    assert_eq!(frame[5], Command::SetVertexBuffer { slot: 1, buffer: BufferRef::Instances });
    assert_eq!(frame[6], Command::SetIndexBuffer { buffer: BufferRef::Indices });
    assert!(!check_frame(&without(&frame, 4)));
    assert!(!check_frame(&without(&frame, 5)));
    assert!(!check_frame(&without(&frame, 6)));
}

#[test]
fn light_marker_may_be_left_out_only_as_a_whole() {
    let frame = full_frame();
    assert_eq!(frame[8], Command::SetPipeline { pipeline: PipelineId::Light });
    assert_eq!(frame[9], Command::DrawLightModel);
    assert!(!check_frame(&without(&frame, 8)));
    assert!(check_frame(&without(&frame, 9)));
    assert!(check_frame(&without(&without(&frame, 9), 8)));
}

#[test]
fn order_matters() {
    let frame = full_frame();
    // The overlay before the main pass.
    let mut overlay_first = frame[13..20].to_vec();
    overlay_first.extend_from_slice(&frame[..13]);
    overlay_first.extend_from_slice(&frame[20..]);
    assert!(!check_frame(&overlay_first));
    // The submission before the copies.
    assert!(!check_frame(&swapped(&frame, 20, 22)));
    assert!(!check_frame(&swapped(&frame, 21, 22)));
    // The texture's copy before the buffer's.
    assert!(!check_frame(&swapped(&frame, 20, 21)));
    // The read-back before the submission.
    assert!(!check_frame(&swapped(&frame, 22, 23)));
    // The presentation before the read-back.
    assert!(!check_frame(&swapped(&frame, 23, 24)));
    // The draw before its pipeline.
    assert!(!check_frame(&swapped(&frame, 10, 11)));
    // The texture may be bound before the uniforms.
    assert!(check_frame(&swapped(&frame, 1, 7)));
}

#[test]
fn passes_begin_as_their_kind_asks() {
    let frame = full_frame();
    let mut loaded = frame.clone();
    loaded[0] =
        Command::BeginPass { pass: PassKind::Main, color: ColorLoad::Load, depth_attached: true };
    assert!(!check_frame(&loaded));
    let mut flat = frame.clone();
    flat[0] =
        Command::BeginPass { pass: PassKind::Main, color: ColorLoad::Clear, depth_attached: false };
    assert!(!check_frame(&flat));
    let mut cleared = frame.clone();
    cleared[13] = Command::BeginPass {
        pass: PassKind::DepthOverlay,
        color: ColorLoad::Clear,
        depth_attached: false,
    };
    assert!(!check_frame(&cleared));
    let mut twice = frame.clone();
    twice[13] =
        Command::BeginPass { pass: PassKind::Main, color: ColorLoad::Clear, depth_attached: true };
    assert!(!check_frame(&twice));
}

#[test]
fn bind_groups_go_where_their_layout_is_expected() {
    let frame = full_frame();
    let mut wrong_index = frame.clone();
    wrong_index[1] = Command::SetBindGroup { index: 2, group: BindGroupRef::Camera };
    assert!(!check_frame(&wrong_index));
    let mut depth_as_texture = frame.clone();
    depth_as_texture[7] = Command::SetBindGroup { index: 0, group: BindGroupRef::Depth };
    assert!(!check_frame(&depth_as_texture));
    let mut texture_as_depth = frame.clone();
    texture_as_depth[15] = Command::SetBindGroup { index: 0, group: BindGroupRef::Texture(0) };
    assert!(!check_frame(&texture_as_depth));
    let mut material = frame.clone();
    material[7] = Command::SetBindGroup { index: 0, group: BindGroupRef::Material };
    assert!(check_frame(&material));
    let mut beyond = frame.clone();
    beyond[3] = Command::SetBindGroup { index: 4, group: BindGroupRef::Light };
    assert!(!check_frame(&beyond));
}

#[test]
fn buffers_and_pipelines_belong_to_their_pass() {
    let frame = full_frame();
    let mut wrong_slot = frame.clone();
    wrong_slot[5] = Command::SetVertexBuffer { slot: 0, buffer: BufferRef::Instances };
    assert!(!check_frame(&wrong_slot));
    let mut wrong_indices = frame.clone();
    wrong_indices[17] = Command::SetIndexBuffer { buffer: BufferRef::Indices };
    assert!(!check_frame(&wrong_indices));
    let mut wrong_pipeline = frame.clone();
    wrong_pipeline[14] = Command::SetPipeline { pipeline: PipelineId::Main };
    assert!(!check_frame(&wrong_pipeline));
    let mut overlay_in_main = frame.clone();
    overlay_in_main[10] = Command::SetPipeline { pipeline: PipelineId::DepthOverlay };
    assert!(!check_frame(&overlay_in_main));
}

#[test]
fn draws_need_a_range_that_does_not_end_before_it_begins() {
    let mut state = fresh_state(800, 600);
    state.keys.press(Key::Y);
    let frame = state.render(Ok(())).unwrap();
    assert!(check_frame(&frame));
    let mut inverted = frame.clone();
    inverted[11] =
        Command::DrawIndexed { first_index: 9, end_index: 8, base_vertex: 5, instances: 81 };
    assert!(!check_frame(&inverted));
    let mut empty = frame.clone();
    empty[11] = Command::DrawIndexed { first_index: 9, end_index: 9, base_vertex: 5, instances: 0 };
    assert!(check_frame(&empty));
}

#[test]
fn copies_need_a_sound_capture_and_the_same_one() {
    let frame = full_frame();
    let capture = Capture::plan(Size { width: 800, height: 600 }, 4).unwrap();
    assert!(capture.is_sound());
    let other = Capture::plan(Size { width: 800, height: 601 }, 4).unwrap();
    let mut mixed = frame.clone();
    mixed[21] = Command::CopyFrameToTexture { capture: other };
    assert!(!check_frame(&mixed));
    let mut mixed = frame.clone();
    mixed[23] = Command::ReadBack { capture: other };
    assert!(!check_frame(&mixed));
    for broken in [
        Capture { bytes_per_row: 3200, ..capture },
        Capture { buffer_size: capture.buffer_size - 1, ..capture },
        Capture {
            dims: frame_pipeline::buffer::BufferDimensions {
                padded_bytes_per_row: 3200,
                ..capture.dims
            },
            bytes_per_row: 3200,
            buffer_size: 3200 * 600,
            slot: 4,
        },
    ] {
        assert!(!broken.is_sound());
        let mut unsound = frame.clone();
        unsound[20] = Command::CopyFrameToBuffer { capture: broken };
        unsound[21] = Command::CopyFrameToTexture { capture: broken };
        unsound[23] = Command::ReadBack { capture: broken };
        assert!(!check_frame(&unsound));
    }
}

#[test]
fn recorder_steps_one_command_at_a_time() {
    let mut recorder = start();
    assert!(!recorder.advance(Command::Submit));
    assert!(!recorder.advance(Command::Present));
    assert!(!recorder.advance(Command::EndPass));
    assert!(!recorder.advance(Command::DrawLightModel));
    assert_eq!(recorder, start());
    assert!(recorder.advance(Command::BeginPass {
        pass: PassKind::Main,
        color: ColorLoad::Clear,
        depth_attached: true
    }));
    let pass = recorder.pass.unwrap();
    assert_eq!(pass.kind, PassKind::Main);
    assert_eq!(pass.pipeline, None);
    assert!(!pass.drawn);
    assert!(!recorder.advance(Command::EndPass));
    assert!(!recorder.advance(Command::Submit));
    assert!(recorder.advance(Command::SetPipeline { pipeline: PipelineId::Main }));
    assert!(!recorder.advance(Command::DrawModelInstanced { instances: 1 }));
    for (index, group) in [
        (0, BindGroupRef::Material),
        (1, BindGroupRef::Camera),
        (2, BindGroupRef::Rotation),
        (3, BindGroupRef::Light),
    ] {
        assert!(recorder.advance(Command::SetBindGroup { index, group }));
    }
    assert!(!recorder.advance(Command::DrawModelInstanced { instances: 1 }));
    assert!(recorder.advance(Command::SetVertexBuffer { slot: 1, buffer: BufferRef::Instances }));
    assert!(recorder.advance(Command::DrawModelInstanced { instances: 1 }));
    assert!(recorder.pass.unwrap().drawn);
    assert!(recorder.advance(Command::EndPass));
    assert!(recorder.main_done);
    assert_eq!(recorder.pass, None);
    assert!(recorder.advance(Command::Submit));
    assert_eq!(recorder.stage, Stage::Submitted);
    assert!(!recorder.advance(Command::Submit));
    assert!(recorder.advance(Command::Present));
    assert_eq!(recorder.stage, Stage::Presented);
    let end = recorder;
    assert!(!recorder.advance(Command::Present));
    assert_eq!(recorder, end);
}

#[test]
fn pass_state_steps_on_its_own() {
    let mut pass = PassState {
        kind: PassKind::DepthOverlay,
        pipeline: None,
        group0: false,
        group1: false,
        group2: false,
        group3: false,
        vertex0: false,
        vertex1: false,
        indexed: false,
        drawn: false,
    };
    let draw = Command::DrawIndexed { first_index: 0, end_index: 6, base_vertex: 0, instances: 1 };
    assert!(!pass.advance(draw));
    assert!(!pass.advance(Command::Submit));
    assert!(!pass.advance(Command::EndPass));
    assert!(pass.advance(Command::SetPipeline { pipeline: PipelineId::DepthOverlay }));
    assert!(pass.advance(Command::SetBindGroup { index: 0, group: BindGroupRef::Depth }));
    assert!(!pass.advance(Command::SetBindGroup { index: 1, group: BindGroupRef::Camera }));
    assert!(pass.advance(Command::SetVertexBuffer { slot: 0, buffer: BufferRef::OverlayVertices }));
    assert!(!pass.advance(draw));
    assert!(pass.advance(Command::SetIndexBuffer { buffer: BufferRef::OverlayIndices }));
    assert!(pass.advance(draw));
    assert!(pass.drawn && pass.group0 && pass.vertex0 && pass.indexed);
    assert!(!pass.group1 && !pass.vertex1);
}

#[test]
fn record_says_where_a_recording_stands() {
    let frame = full_frame();
    assert_eq!(record(&vec![]), Some(start()));
    let after_main = record(&frame[..13].to_vec()).unwrap();
    assert_eq!(after_main, Recorder { main_done: true, ..start() });
    let after_overlay = record(&frame[..20].to_vec()).unwrap();
    assert_eq!(after_overlay, Recorder { main_done: true, overlay_done: true, ..start() });
    let in_pass = record(&frame[..5].to_vec()).unwrap();
    assert!(in_pass.pass.is_some());
    let end = record(&frame).unwrap();
    assert_eq!(end.stage, Stage::Presented);
    assert!(end.read_back && end.texture_copy && end.buffer_copy.is_some());
    assert_eq!(record(&vec![Command::Submit]), None);
    assert_eq!(record(&swapped(&frame, 10, 11)), None);
}

#[test]
fn a_pass_begins_in_its_turn() {
    let frame = full_frame();
    assert!(start().can_begin(PassKind::Main));
    assert!(!start().can_begin(PassKind::DepthOverlay));
    let after_main = record(&frame[..13].to_vec()).unwrap();
    assert!(!after_main.can_begin(PassKind::Main));
    assert!(after_main.can_begin(PassKind::DepthOverlay));
    let after_overlay = record(&frame[..20].to_vec()).unwrap();
    assert!(!after_overlay.can_begin(PassKind::Main));
    assert!(!after_overlay.can_begin(PassKind::DepthOverlay));
    let in_pass = record(&frame[..5].to_vec()).unwrap();
    assert!(!in_pass.can_begin(PassKind::DepthOverlay));
}

#[test]
fn overlay_may_be_recorded_only_behind_the_main_pass() {
    let frame = full_frame();
    assert!(!DepthPass::may_render(&vec![]));
    assert!(!DepthPass::may_render(&vec![Command::Submit]));
    for length in 0..frame.len() {
        let recorded = frame[..length].to_vec();
        assert_eq!(DepthPass::may_render(&recorded), length == 13, "behind {} commands", length);
    }
    let mut state = fresh_state(800, 600);
    state.keys.press(Key::P);
    let captured = state.render(Ok(())).unwrap();
    for length in 0..captured.len() {
        let recorded = captured[..length].to_vec();
        assert_eq!(DepthPass::may_render(&recorded), length == 13, "behind {} commands", length);
    }
    let mut encoder = frame[..13].to_vec();
    assert!(DepthPass::may_render(&encoder));
    DepthPass { texture_size: Size { width: 1, height: 1 } }.render(&mut encoder);
    assert_eq!(encoder, frame[..20].to_vec());
    assert!(!DepthPass::may_render(&encoder));
}
