use renderer::camera::{CameraController, Extent};
use renderer::input::{DeviceEvent, KeyCode, MouseButton, WindowEvent};
use renderer::state::{
    DrawCall, FramePlan, KeyAction, PipelineType, ResizePlan, State, SurfaceError, SurfaceState,
    SurfaceStep, PIPELINE_COUNT,
};

fn state() -> State<f32> {
    let controller = CameraController::new(4.0, 1.0, 0.0);
    State::new(800, 600, 45.0f32.to_radians(), 0.1, 100.0, controller, 100)
}

fn ready() -> State<f32> {
    let mut s = state();
    s.resize(800, 600);
    s
}

#[test]
fn new_state_is_unconfigured_with_default_pipeline() {
    let v = state().snapshot();
    assert_eq!(v.surface, SurfaceState::Unconfigured);
    assert_eq!(v.current_pipeline, PipelineType::Default);
    assert!(!v.pipeline_key_held);
    assert!(!v.mouse_pressed);
    assert_eq!(v.instances, 100);
    assert_eq!(v.projection.aspect, Extent { width: 800, height: 600 });
    assert_eq!(v.camera_controller.speed, 4.0);
}

#[test]
fn pipeline_toggles_between_two_variants() {
    assert_eq!(PipelineType::Default.toggled(), PipelineType::Experimental);
    assert_eq!(PipelineType::Experimental.toggled(), PipelineType::Default);
    assert_eq!(PipelineType::Default.toggled().toggled(), PipelineType::Default);
    assert_eq!(PipelineType::Default.index(), 0);
    assert_eq!(PipelineType::Experimental.index(), 1);
    assert_eq!(PIPELINE_COUNT, 2);
}

#[test]
fn only_outdated_and_lost_are_recoverable() {
    assert!(SurfaceError::Outdated.is_recoverable());
    assert!(SurfaceError::Lost.is_recoverable());
    assert!(!SurfaceError::Timeout.is_recoverable());
    assert!(!SurfaceError::OutOfMemory.is_recoverable());
    assert!(!SurfaceError::Other.is_recoverable());
}

#[test]
fn resize_to_positive_size_configures_and_readies() {
    let mut s = state();
    let plan = s.resize(1280, 720);
    let size = Extent { width: 1280, height: 720 };
    assert_eq!(plan, ResizePlan { surface: Some(size), depth: size });
    let v = s.snapshot();
    assert_eq!(v.surface, SurfaceState::Ready);
    assert_eq!(v.projection.aspect, size);
}

#[test]
fn resize_with_zero_width_keeps_aspect() {
    let mut s = ready();
    let before = s.snapshot().projection;
    let plan = s.resize(0, 600);
    assert_eq!(plan.surface, None);
    assert_eq!(plan.depth, Extent { width: 800, height: 600 });
    let v = s.snapshot();
    assert_eq!(v.projection, before);
    assert_eq!(v.surface, SurfaceState::Unconfigured);
}

#[test]
fn resize_with_zero_height_keeps_aspect() {
    let mut s = ready();
    let before = s.snapshot().projection;
    let plan = s.resize(800, 0);
    assert_eq!(plan.surface, None);
    assert_eq!(s.snapshot().projection, before);
    assert_eq!(s.snapshot().surface, SurfaceState::Unconfigured);
}

#[test]
fn window_restored_after_minimize_draws_again() {
    let mut s = ready();
    s.resize(0, 0);
    assert_eq!(s.render().surface, SurfaceStep::Skip);
    s.resize(640, 480);
    assert_eq!(s.render().surface, SurfaceStep::Acquire);
    assert_eq!(
        s.frame_acquired(Ok(())),
        Ok(Some(DrawCall { pipeline: PipelineType::Default, instances: 100 }))
    );
}

#[test]
fn unconfigured_surface_skips_the_frame_but_schedules_the_next() {
    let mut s = state();
    let before = s.snapshot();
    assert_eq!(s.render(), FramePlan { redraw: true, surface: SurfaceStep::Skip });
    assert_eq!(s.frame_acquired(Ok(())), Ok(None));
    assert_eq!(s.frame_acquired(Err(SurfaceError::OutOfMemory)), Ok(None));
    assert_eq!(s.snapshot(), before);
}

#[test]
fn ready_surface_draws_with_the_selected_pipeline() {
    let mut s = ready();
    assert_eq!(s.render(), FramePlan { redraw: true, surface: SurfaceStep::Acquire });
    assert_eq!(
        s.frame_acquired(Ok(())),
        Ok(Some(DrawCall { pipeline: PipelineType::Default, instances: 100 }))
    );
    s.handle_key(KeyCode::Tab, true);
    s.render();
    assert_eq!(
        s.frame_acquired(Ok(())),
        Ok(Some(DrawCall { pipeline: PipelineType::Experimental, instances: 100 }))
    );
}

#[test]
fn lost_surface_skips_and_reconfigures_on_the_next_frame() {
    let mut s = ready();
    s.render();
    assert_eq!(s.frame_acquired(Err(SurfaceError::Lost)), Ok(None));
    assert_eq!(s.snapshot().surface, SurfaceState::Reconfiguring);
    let plan = s.render();
    assert!(plan.redraw);
    assert_eq!(plan.surface, SurfaceStep::Reconfigure(Extent { width: 800, height: 600 }));
    assert_eq!(s.snapshot().surface, SurfaceState::Ready);
    assert!(s.frame_acquired(Ok(())).unwrap().is_some());
    assert_eq!(s.render().surface, SurfaceStep::Acquire);
}

#[test]
fn outdated_surface_is_cured_by_a_resize() {
    let mut s = ready();
    s.render();
    assert_eq!(s.frame_acquired(Err(SurfaceError::Outdated)), Ok(None));
    let plan = s.resize(1024, 768);
    assert_eq!(plan.surface, Some(Extent { width: 1024, height: 768 }));
    assert_eq!(s.render().surface, SurfaceStep::Acquire);
}

#[test]
fn repeated_loss_keeps_marking_for_reconfiguration() {
    let mut s = ready();
    for _ in 0..3 {
        s.render();
        assert_eq!(s.frame_acquired(Err(SurfaceError::Lost)), Ok(None));
        assert_eq!(s.snapshot().surface, SurfaceState::Reconfiguring);
    }
}

#[test]
fn fatal_failures_are_handed_up_unchanged() {
    for error in [SurfaceError::OutOfMemory, SurfaceError::Other, SurfaceError::Timeout] {
        let mut s = ready();
        s.render();
        let before = s.snapshot();
        assert_eq!(s.frame_acquired(Err(error)), Err(error));
        assert_eq!(s.snapshot(), before);
    }
}

#[test]
fn escape_asks_to_exit_on_press_only() {
    let mut s = state();
    let before = s.snapshot();
    assert_eq!(s.handle_key(KeyCode::Escape, true), KeyAction::Exit);
    assert_eq!(s.handle_key(KeyCode::Escape, false), KeyAction::Ignored);
    assert_eq!(s.snapshot(), before);
}

#[test]
fn other_keys_do_nothing_to_the_pipeline() {
    let mut s = state();
    let before = s.snapshot();
    assert_eq!(s.handle_key(KeyCode::KeyW, true), KeyAction::Ignored);
    assert_eq!(s.handle_key(KeyCode::Other, true), KeyAction::Ignored);
    assert_eq!(s.handle_key(KeyCode::Space, false), KeyAction::Ignored);
    assert_eq!(s.snapshot(), before);
}

#[test]
fn held_pipeline_key_switches_exactly_once() {
    let mut s = ready();
    assert_eq!(s.handle_key(KeyCode::Tab, true), KeyAction::PipelineSwitched);
    for _ in 0..3 {
        assert_eq!(s.handle_key(KeyCode::Tab, true), KeyAction::Ignored);
        s.update();
        s.render();
        s.frame_acquired(Ok(())).unwrap();
        assert_eq!(s.snapshot().current_pipeline, PipelineType::Experimental);
    }
    assert_eq!(s.handle_key(KeyCode::Tab, false), KeyAction::Ignored);
    assert_eq!(s.snapshot().current_pipeline, PipelineType::Experimental);
    assert_eq!(s.handle_key(KeyCode::Tab, true), KeyAction::PipelineSwitched);
    assert_eq!(s.snapshot().current_pipeline, PipelineType::Default);
}

#[test]
fn input_routes_keys_wheel_and_left_button() {
    let mut s = state();
    assert!(s.input(&WindowEvent::KeyboardInput { code: KeyCode::KeyA, pressed: true }));
    assert!(!s.input(&WindowEvent::KeyboardInput { code: KeyCode::Tab, pressed: true }));
    assert!(s.input(&WindowEvent::MouseWheel { scroll: -100.0 }));
    assert!(s.input(&WindowEvent::MouseInput { button: MouseButton::Left, pressed: true }));
    assert!(!s.input(&WindowEvent::MouseInput { button: MouseButton::Right, pressed: true }));
    assert!(!s.input(&WindowEvent::Other));
    let v = s.snapshot();
    assert!(v.camera_controller.held.left);
    assert_eq!(v.camera_controller.pending.scroll, -100.0);
    assert!(v.mouse_pressed);
    assert_eq!(v.current_pipeline, PipelineType::Default);
}

#[test]
fn mouse_motion_counts_only_while_the_left_button_is_down() {
    let mut s = state();
    assert!(!s.device_input(&DeviceEvent::MouseMotion { dx: 5.0, dy: 6.0 }));
    assert_eq!(s.snapshot().camera_controller.pending.rotate_horizontal, 0.0);
    s.input(&WindowEvent::MouseInput { button: MouseButton::Left, pressed: true });
    assert!(s.device_input(&DeviceEvent::MouseMotion { dx: 5.0, dy: 6.0 }));
    assert!(!s.device_input(&DeviceEvent::Other));
    let m = s.update();
    assert_eq!((m.rotate_horizontal, m.rotate_vertical), (5.0, 6.0));
    s.input(&WindowEvent::MouseInput { button: MouseButton::Left, pressed: false });
    assert!(!s.device_input(&DeviceEvent::MouseMotion { dx: 1.0, dy: 1.0 }));
    let m = s.update();
    assert_eq!((m.rotate_horizontal, m.rotate_vertical), (0.0, 0.0));
}

#[test]
fn update_consumes_impulses_and_leaves_the_rest() {
    let mut s = ready();
    s.input(&WindowEvent::KeyboardInput { code: KeyCode::KeyW, pressed: true });
    s.input(&WindowEvent::MouseWheel { scroll: -(1.0 * 100.0) });
    s.input(&WindowEvent::MouseWheel { scroll: -50.0 });
    let before = s.snapshot();
    let m = s.update();
    assert_eq!(m.forward, 1);
    assert_eq!(m.scroll, -50.0);
    let after = s.snapshot();
    assert_eq!(after.camera_controller.pending.scroll, 0.0);
    assert_eq!(after.camera_controller.held, before.camera_controller.held);
    assert_eq!(after.surface, before.surface);
    assert_eq!(after.projection, before.projection);
    assert_eq!(after.current_pipeline, before.current_pipeline);
}

#[test]
fn a_surface_in_use_always_has_a_viewport_with_area() {
    let mut s = state();
    let sizes = [(0, 0), (640, 480), (0, 600), (1, 1), (800, 0), (1920, 1080)];
    let outcomes = [
        Ok(()),
        Err(SurfaceError::Lost),
        Err(SurfaceError::Timeout),
        Err(SurfaceError::Outdated),
        Ok(()),
        Err(SurfaceError::OutOfMemory),
    ];
    for (i, (width, height)) in sizes.into_iter().enumerate() {
        let plan = s.resize(width, height);
        if let Some(extent) = plan.surface {
            assert!(extent.is_positive());
            assert_eq!(plan.depth, extent);
        }
        for outcome in outcomes.into_iter().cycle().skip(i).take(4) {
            if let SurfaceStep::Reconfigure(extent) = s.render().surface {
                assert!(extent.is_positive());
            }
            let drawn = s.frame_acquired(outcome);
            let v = s.snapshot();
            if v.surface != SurfaceState::Unconfigured {
                assert!(v.projection.aspect.is_positive());
            }
            if let Ok(Some(_)) = drawn {
                assert!(v.projection.aspect.is_positive());
                assert_eq!(v.surface, SurfaceState::Ready);
            }
        }
    }
}

#[test]
fn nothing_but_the_pipeline_key_switches_the_pipeline() {
    let mut s = ready();
    s.resize(1024, 768);
    s.input(&WindowEvent::KeyboardInput { code: KeyCode::Tab, pressed: true });
    s.input(&WindowEvent::MouseWheel { scroll: 1.0 });
    s.device_input(&DeviceEvent::MouseMotion { dx: 1.0, dy: 1.0 });
    s.update();
    s.render();
    s.frame_acquired(Err(SurfaceError::Lost)).unwrap();
    s.handle_key(KeyCode::Escape, true);
    s.handle_key(KeyCode::KeyW, true);
    let v = s.snapshot();
    assert_eq!(v.current_pipeline, PipelineType::Default);
    assert!(!v.pipeline_key_held);
}
