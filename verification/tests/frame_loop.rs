use scene_render::camera::AspectRatio;
use scene_render::command::{BindGroup, Command, CommandEncoder, LoadOp, Pipeline, Upload};
use scene_render::command::VertexBuffer;
use scene_render::input::{InputEvent, Key, LoopControl};
use scene_render::model::{Mesh, Model};
use scene_render::state::{create_render_pass, Directive, FrameEvent, FramePhase, State};
use scene_render::surface::{ColorFormat, ConfigError, DepthTexture, PhysicalSize, PresentMode};
use scene_render::surface::{SurfaceConfiguration, SurfaceFault, SurfaceState};

type Rgb = (u8, u8, u8);

const GREEN: Rgb = (0, 255, 0);

fn cube() -> Model {
    Model::new(vec![Mesh { num_elements: 36, material: 0 }], 1).unwrap()
}

fn fresh() -> State<Rgb> {
    State::new(800, 600, ColorFormat::Bgra8UnormSrgb, cube(), GREEN).unwrap()
}

fn config(width: u32, height: u32) -> SurfaceConfiguration {
    SurfaceConfiguration {
        format: ColorFormat::Bgra8UnormSrgb,
        width,
        height,
        present_mode: PresentMode::Mailbox,
    }
}

/// Everything about the state that a test can see.
fn snapshot(state: &State<Rgb>) -> String {
    let pass = state.color_pass();
    let instances: Vec<_> = (0..pass.instances().len()).map(|i| pass.instances().get(i)).collect();
    format!(
        "{:?} {:?} {:?} {:?} {:?} {:?} {:?} {:?} {:?} {:?} {:?} {:?} {:?}",
        state.context(),
        state.physical_size(),
        state.depth_texture(),
        state.phase(),
        state.resized(),
        state.frames(),
        pass.clear_color(),
        pass.camera_resources(),
        pass.light_resources(),
        pass.space_state_on(),
        pass.size(),
        pass.object_rotation(),
        instances,
    )
}

fn frame_of_one_cube(depth_texture: DepthTexture) -> Vec<Command> {
    vec![
        Command::BeginRenderPass { color: LoadOp::Clear, depth: LoadOp::Clear, depth_texture },
        Command::EndRenderPass,
        Command::WriteBuffer(Upload::CameraUniform),
        Command::WriteBuffer(Upload::InstanceBuffer { bytes: 10_000 }),
        Command::WriteBuffer(Upload::LightUniform),
        Command::BeginRenderPass { color: LoadOp::Load, depth: LoadOp::Load, depth_texture },
        Command::SetVertexBuffer { slot: 1, buffer: VertexBuffer::Instances },
        Command::SetPipeline(Pipeline::Render),
        Command::SetVertexBuffer { slot: 0, buffer: VertexBuffer::Mesh(0) },
        Command::SetIndexBuffer { mesh: 0 },
        Command::SetBindGroup { index: 0, group: BindGroup::Material(0) },
        Command::SetBindGroup { index: 1, group: BindGroup::Camera },
        Command::SetBindGroup { index: 2, group: BindGroup::Light },
        Command::DrawIndexed { indices: 36, instances: 100 },
        Command::EndRenderPass,
        Command::BeginRenderPass { color: LoadOp::Load, depth: LoadOp::Load, depth_texture },
        Command::SetPipeline(Pipeline::Light),
        Command::SetVertexBuffer { slot: 0, buffer: VertexBuffer::Mesh(0) },
        Command::SetIndexBuffer { mesh: 0 },
        Command::SetBindGroup { index: 0, group: BindGroup::Camera },
        Command::SetBindGroup { index: 1, group: BindGroup::Light },
        Command::DrawIndexed { indices: 36, instances: 1 },
        Command::EndRenderPass,
    ]
}

/// Drives one undisturbed frame.
fn draw_one_frame(state: &mut State<Rgb>) {
    assert_eq!(state.render(FrameEvent::FrameRequested), Directive::Acquire);
    assert!(matches!(state.render(FrameEvent::Acquired), Directive::Draw(_)));
    assert_eq!(state.render(FrameEvent::Presented), Directive::Wait);
}

#[test]
fn start_up_configures_the_surface() {
    let state = fresh();
    assert_eq!(state.context().state, SurfaceState::Configured { width: 800, height: 600 });
    assert_eq!(state.config(), config(800, 600));
    assert_eq!(state.physical_size(), PhysicalSize { width: 800, height: 600 });
    assert_eq!(state.depth_texture(), DepthTexture { width: 800, height: 600 });
    assert_eq!(state.phase(), FramePhase::Idle);
    assert!(!state.resized());
    assert_eq!(state.frames(), 0);
    assert_eq!(state.color_pass().instances().len(), 100);
    assert_eq!(*state.color_pass().clear_color(), GREEN);
    assert_eq!(
        state.color_pass().camera_resources().camera.aspect,
        AspectRatio { width: 800, height: 600 }
    );
}

#[test]
fn start_up_turns_a_zero_dimension_down() {
    for (width, height) in [(0u32, 600u32), (800, 0), (0, 0)] {
        let result = State::new(width, height, ColorFormat::Bgra8UnormSrgb, cube(), GREEN);
        assert_eq!(result.err(), Some(ConfigError::ZeroDimension));
    }
}

#[test]
fn resize_to_zero_is_rejected_and_changes_nothing() {
    for (width, height) in [(0u32, 600u32), (800, 0), (0, 0)] {
        let mut state = fresh();
        draw_one_frame(&mut state);
        let before = snapshot(&state);
        assert!(!state.resize(PhysicalSize { width, height }));
        assert_eq!(snapshot(&state), before);
        assert_eq!(state.context().state, SurfaceState::Configured { width: 800, height: 600 });
        assert_eq!(state.depth_texture(), DepthTexture { width: 800, height: 600 });
    }
}

#[test]
fn resize_sets_aspect_ratio_and_depth_size() {
    for (width, height) in [(1024u32, 768u32), (1, 1), (1, 4000), (u32::MAX, 7)] {
        let mut state = fresh();
        assert!(state.resize(PhysicalSize { width, height }));
        assert_eq!(state.color_pass().camera_resources().camera.aspect, AspectRatio { width, height });
        assert_eq!(state.depth_texture(), DepthTexture { width, height });
        assert_eq!(state.context().state, SurfaceState::Configured { width, height });
        assert_eq!(state.config(), config(width, height));
        assert_eq!(state.physical_size(), PhysicalSize { width, height });
        assert_eq!(state.color_pass().size(), PhysicalSize { width, height });
        assert!(state.resized());
    }
}

#[test]
fn resize_keeps_the_pipelines() {
    let mut state = fresh();
    let render = format!("{:?}", state.color_pass().render_pipeline());
    let light = format!("{:?}", state.color_pass().light_render_pipeline());
    assert!(state.resize(PhysicalSize { width: 320, height: 200 }));
    assert_eq!(format!("{:?}", state.color_pass().render_pipeline()), render);
    assert_eq!(format!("{:?}", state.color_pass().light_render_pipeline()), light);
}

#[test]
fn an_undisturbed_frame_is_acquired_drawn_and_counted() {
    let mut state = fresh();
    assert_eq!(state.render(FrameEvent::FrameRequested), Directive::Acquire);
    assert_eq!(state.phase(), FramePhase::AcquiringFrame { retried: false });
    let directive = state.render(FrameEvent::Acquired);
    assert_eq!(
        directive,
        Directive::Draw(CommandEncoder {
            label: "Render Pass".to_string(),
            commands: frame_of_one_cube(DepthTexture { width: 800, height: 600 }),
        })
    );
    assert_eq!(state.phase(), FramePhase::Rendering);
    assert_eq!(state.frames(), 0);
    assert_eq!(state.render(FrameEvent::Presented), Directive::Wait);
    assert_eq!(state.phase(), FramePhase::Presented);
    assert_eq!(state.frames(), 1);
    // The frame moved the scene on by one step.
    assert_eq!(state.color_pass().instances().get(55).unwrap().rotation.yaw.value(), 2);
    assert_eq!(state.color_pass().light_resources().orbit.value(), 1);
    assert_eq!(state.color_pass().object_rotation().value(), 0);
}

#[test]
fn frames_follow_one_another() {
    let mut state = fresh();
    for n in 1..=5u64 {
        draw_one_frame(&mut state);
        assert_eq!(state.frames(), n);
        assert_eq!(
            state.color_pass().instances().get(0).unwrap().rotation.yaw.value() as u64,
            2 * n
        );
    }
}

#[test]
fn a_new_size_reaches_the_platform_before_the_next_image() {
    let mut state = fresh();
    draw_one_frame(&mut state);
    assert!(state.resize(PhysicalSize { width: 1024, height: 768 }));
    assert_eq!(
        state.render(FrameEvent::FrameRequested),
        Directive::Reconfigure {
            config: config(1024, 768),
            depth_texture: Some(DepthTexture { width: 1024, height: 768 }),
        }
    );
    assert_eq!(state.phase(), FramePhase::Reconfiguring { retry: false });
    assert!(!state.resized());
    assert_eq!(state.render(FrameEvent::Reconfigured), Directive::Acquire);
    assert_eq!(state.phase(), FramePhase::AcquiringFrame { retried: false });
    match state.render(FrameEvent::Acquired) {
        Directive::Draw(encoder) => {
            assert_eq!(encoder.commands, frame_of_one_cube(DepthTexture { width: 1024, height: 768 }));
        }
        other => panic!("expected a frame, not {:?}", other),
    }
}

#[test]
fn a_lost_surface_is_reconfigured_once_and_the_frame_retried() {
    let mut state = fresh();
    assert_eq!(state.render(FrameEvent::FrameRequested), Directive::Acquire);
    assert_eq!(
        state.render(FrameEvent::AcquireFailed(SurfaceFault::Lost)),
        Directive::Reconfigure { config: config(800, 600), depth_texture: None }
    );
    assert_eq!(state.context().state, SurfaceState::Lost);
    assert_eq!(state.phase(), FramePhase::Reconfiguring { retry: true });
    assert_eq!(state.render(FrameEvent::Reconfigured), Directive::Acquire);
    assert_eq!(state.context().state, SurfaceState::Configured { width: 800, height: 600 });
    assert_eq!(state.phase(), FramePhase::AcquiringFrame { retried: true });
    // The retry succeeds: the frame is drawn after all.
    assert!(matches!(state.render(FrameEvent::Acquired), Directive::Draw(_)));
    assert_eq!(state.render(FrameEvent::Presented), Directive::Wait);
    assert_eq!(state.frames(), 1);
}

#[test]
fn a_surface_lost_twice_in_a_frame_gives_the_frame_up() {
    let mut state = fresh();
    state.render(FrameEvent::FrameRequested);
    state.render(FrameEvent::AcquireFailed(SurfaceFault::Lost));
    state.render(FrameEvent::Reconfigured);
    assert_eq!(state.render(FrameEvent::AcquireFailed(SurfaceFault::Lost)), Directive::Skip);
    assert_eq!(state.phase(), FramePhase::Idle);
    assert_eq!(state.frames(), 0);
    assert_eq!(state.context().state, SurfaceState::Lost);
    // The next frame starts by configuring the surface; the depth texture stays.
    assert_eq!(
        state.render(FrameEvent::FrameRequested),
        Directive::Reconfigure { config: config(800, 600), depth_texture: None }
    );
    assert_eq!(state.render(FrameEvent::Reconfigured), Directive::Acquire);
    assert_eq!(state.phase(), FramePhase::AcquiringFrame { retried: false });
}

#[test]
fn out_of_memory_is_fatal_and_no_frame_follows() {
    let mut state = fresh();
    draw_one_frame(&mut state);
    state.render(FrameEvent::FrameRequested);
    assert_eq!(state.render(FrameEvent::AcquireFailed(SurfaceFault::OutOfMemory)), Directive::Fatal);
    assert_eq!(state.context().state, SurfaceState::OutOfMemory);
    assert_eq!(state.frames(), 1);
    let ended = snapshot(&state);
    assert_eq!(state.render(FrameEvent::FrameRequested), Directive::Fatal);
    assert_eq!(state.render(FrameEvent::Acquired), Directive::Wait);
    assert_eq!(state.render(FrameEvent::Reconfigured), Directive::Wait);
    assert_eq!(state.render(FrameEvent::Presented), Directive::Wait);
    assert_eq!(state.render(FrameEvent::AcquireFailed(SurfaceFault::Lost)), Directive::Wait);
    assert_eq!(state.render(FrameEvent::FrameRequested), Directive::Fatal);
    assert!(!state.resize(PhysicalSize { width: 640, height: 480 }));
    assert_eq!(snapshot(&state), ended);
}

#[test]
fn a_transient_failure_skips_the_frame_without_a_trace() {
    for fault in [SurfaceFault::Timeout, SurfaceFault::Outdated] {
        let mut state = fresh();
        let before = snapshot(&state);
        assert_eq!(state.render(FrameEvent::FrameRequested), Directive::Acquire);
        assert_eq!(state.render(FrameEvent::AcquireFailed(fault)), Directive::Skip);
        assert_eq!(snapshot(&state), before);
        assert_eq!(state.frames(), 0);

        // The next frame is what the skipped one would have been.
        let mut untouched = fresh();
        assert_eq!(
            state.render(FrameEvent::FrameRequested),
            untouched.render(FrameEvent::FrameRequested)
        );
        assert_eq!(state.render(FrameEvent::Acquired), untouched.render(FrameEvent::Acquired));
        assert_eq!(state.render(FrameEvent::Presented), untouched.render(FrameEvent::Presented));
        assert_eq!(snapshot(&state), snapshot(&untouched));
        assert_eq!(state.frames(), 1);
    }
}

#[test]
fn a_transient_failure_after_a_frame_keeps_the_count() {
    let mut state = fresh();
    draw_one_frame(&mut state);
    draw_one_frame(&mut state);
    state.render(FrameEvent::FrameRequested);
    assert_eq!(state.render(FrameEvent::AcquireFailed(SurfaceFault::Timeout)), Directive::Skip);
    assert_eq!(state.frames(), 2);
    assert_eq!(state.phase(), FramePhase::Idle);
    assert_eq!(state.color_pass().instances().get(0).unwrap().rotation.yaw.value(), 4);
}

#[test]
fn events_out_of_turn_are_passed_over() {
    let mut state = fresh();
    let before = snapshot(&state);
    assert_eq!(state.render(FrameEvent::Acquired), Directive::Wait);
    assert_eq!(state.render(FrameEvent::AcquireFailed(SurfaceFault::OutOfMemory)), Directive::Wait);
    assert_eq!(state.render(FrameEvent::Reconfigured), Directive::Wait);
    assert_eq!(state.render(FrameEvent::Presented), Directive::Wait);
    assert_eq!(snapshot(&state), before);
    state.render(FrameEvent::FrameRequested);
    let acquiring = snapshot(&state);
    assert_eq!(state.render(FrameEvent::FrameRequested), Directive::Wait);
    assert_eq!(state.render(FrameEvent::Presented), Directive::Wait);
    assert_eq!(snapshot(&state), acquiring);
}

#[test]
fn ninety_frames_turn_the_centre_by_half_a_turn() {
    let mut state = fresh();
    for _ in 0..90 {
        draw_one_frame(&mut state);
    }
    let centre = state.color_pass().instances().get(55).unwrap();
    assert!(centre.position.is_zero());
    assert_eq!(centre.rotation.yaw.value(), 180);
    assert_eq!(centre.rotation.angle.value(), 0);
    assert_eq!(state.frames(), 90);
    assert_eq!(state.color_pass().light_resources().orbit.value(), 90);
}

#[test]
fn update_moves_the_scene_and_names_the_buffers() {
    let mut state = fresh();
    let uploads = state.update();
    assert_eq!(
        uploads,
        vec![
            Upload::CameraUniform,
            Upload::InstanceBuffer { bytes: 10_000 },
            Upload::LightUniform
        ]
    );
    assert_eq!(state.color_pass().instances().get(3).unwrap().rotation.yaw.value(), 2);
    assert_eq!(state.color_pass().light_resources().orbit.value(), 1);
    assert_eq!(state.frames(), 0);
    assert_eq!(state.phase(), FramePhase::Idle);
}

#[test]
fn create_render_pass_records_the_frame_under_its_label() {
    let state = fresh();
    let encoder = create_render_pass("scene", &state);
    assert_eq!(encoder.label, "scene");
    assert_eq!(encoder.commands, frame_of_one_cube(DepthTexture { width: 800, height: 600 }));
}

#[test]
fn space_switches_the_flag() {
    let mut state = fresh();
    assert!(!state.color_pass().space_state_on());
    assert!(state.input(&InputEvent::Keyboard { key: Key::Space, pressed: true }));
    assert!(state.color_pass().space_state_on());
    assert!(state.color_pass().camera_resources().camera_controller.is_up_pressed);
    assert!(!state.input(&InputEvent::Keyboard { key: Key::Space, pressed: false }));
    assert!(state.color_pass().space_state_on());
    assert!(!state.color_pass().camera_resources().camera_controller.is_up_pressed);
    assert!(state.input(&InputEvent::Keyboard { key: Key::Space, pressed: true }));
    assert!(!state.color_pass().space_state_on());
}

#[test]
fn other_input_does_not_switch_the_flag() {
    let mut state = fresh();
    assert!(!state.input(&InputEvent::CursorMoved));
    assert!(!state.input(&InputEvent::Keyboard { key: Key::W, pressed: true }));
    assert!(!state.input(&InputEvent::Other));
    assert!(!state.color_pass().space_state_on());
    assert!(state.color_pass().camera_resources().camera_controller.is_forward_pressed);
}

#[test]
fn window_events_resize_and_end_the_loop() {
    let mut state = fresh();
    assert_eq!(
        state.window_event(&InputEvent::Resized { width: 300, height: 200 }),
        LoopControl::Continue
    );
    assert_eq!(state.depth_texture(), DepthTexture { width: 300, height: 200 });
    assert!(state.resized());
    assert_eq!(
        state.window_event(&InputEvent::ScaleFactorChanged { width: 600, height: 400 }),
        LoopControl::Continue
    );
    assert_eq!(state.physical_size(), PhysicalSize { width: 600, height: 400 });
    assert_eq!(
        state.window_event(&InputEvent::Resized { width: 0, height: 400 }),
        LoopControl::Continue
    );
    assert_eq!(state.physical_size(), PhysicalSize { width: 600, height: 400 });
    assert!(state.resized());
    assert_eq!(
        state.window_event(&InputEvent::Keyboard { key: Key::A, pressed: true }),
        LoopControl::Continue
    );
    assert!(state.color_pass().camera_resources().camera_controller.is_left_pressed);
    assert_eq!(state.window_event(&InputEvent::CloseRequested), LoopControl::Exit);
    assert_eq!(
        state.window_event(&InputEvent::Keyboard { key: Key::Escape, pressed: true }),
        LoopControl::Exit
    );
    assert_eq!(
        state.window_event(&InputEvent::Keyboard { key: Key::Escape, pressed: false }),
        LoopControl::Continue
    );
}

#[test]
fn the_clear_colour_can_be_set() {
    let mut state = fresh();
    state.set_clear_color((1, 2, 3));
    assert_eq!(*state.color_pass().clear_color(), (1, 2, 3));
    assert_eq!(state.frames(), 0);
    assert_eq!(state.depth_texture(), DepthTexture { width: 800, height: 600 });
}

#[test]
fn a_size_that_arrives_during_a_frame_waits_for_the_next_one() {
    let mut state = fresh();
    assert_eq!(state.render(FrameEvent::FrameRequested), Directive::Acquire);
    assert!(state.resize(PhysicalSize { width: 400, height: 300 }));
    match state.render(FrameEvent::Acquired) {
        Directive::Draw(encoder) => {
            assert_eq!(encoder.commands, frame_of_one_cube(DepthTexture { width: 400, height: 300 }));
        }
        other => panic!("expected a frame, not {:?}", other),
    }
    assert_eq!(state.render(FrameEvent::Presented), Directive::Wait);
    assert!(state.resized());
    assert_eq!(
        state.render(FrameEvent::FrameRequested),
        Directive::Reconfigure {
            config: config(400, 300),
            depth_texture: Some(DepthTexture { width: 400, height: 300 }),
        }
    );
}

#[test]
fn a_retry_that_times_out_gives_the_frame_up_with_the_surface_configured() {
    let mut state = fresh();
    state.render(FrameEvent::FrameRequested);
    state.render(FrameEvent::AcquireFailed(SurfaceFault::Lost));
    state.render(FrameEvent::Reconfigured);
    assert_eq!(state.render(FrameEvent::AcquireFailed(SurfaceFault::Timeout)), Directive::Skip);
    assert_eq!(state.context().state, SurfaceState::Configured { width: 800, height: 600 });
    assert_eq!(state.phase(), FramePhase::Idle);
    assert_eq!(state.render(FrameEvent::FrameRequested), Directive::Acquire);
}

#[test]
fn a_retry_that_runs_out_of_memory_is_fatal() {
    let mut state = fresh();
    state.render(FrameEvent::FrameRequested);
    state.render(FrameEvent::AcquireFailed(SurfaceFault::Lost));
    state.render(FrameEvent::Reconfigured);
    assert_eq!(state.render(FrameEvent::AcquireFailed(SurfaceFault::OutOfMemory)), Directive::Fatal);
    assert_eq!(state.render(FrameEvent::FrameRequested), Directive::Fatal);
}

#[test]
fn several_resizes_before_a_frame_reach_the_platform_as_one() {
    let mut state = fresh();
    assert!(state.resize(PhysicalSize { width: 10, height: 20 }));
    assert!(state.resize(PhysicalSize { width: 30, height: 40 }));
    assert!(!state.resize(PhysicalSize { width: 0, height: 40 }));
    assert_eq!(
        state.render(FrameEvent::FrameRequested),
        Directive::Reconfigure {
            config: config(30, 40),
            depth_texture: Some(DepthTexture { width: 30, height: 40 }),
        }
    );
    assert_eq!(state.render(FrameEvent::Reconfigured), Directive::Acquire);
    assert!(matches!(state.render(FrameEvent::Acquired), Directive::Draw(_)));
    assert_eq!(state.render(FrameEvent::Presented), Directive::Wait);
    assert_eq!(state.render(FrameEvent::FrameRequested), Directive::Acquire);
}
