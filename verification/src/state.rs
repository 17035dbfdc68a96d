//! The frame orchestrator: the renderer's plain state and its transitions.
//!
//! [`State`] sequences a frame without touching a device. Each operation takes
//! what happened (a resize, a key, the outcome of acquiring a frame), moves
//! the state, and returns what the caller has to do next. [`StateView`] is
//! the mathematical state; its `on_*` functions are the transition system
//! that the operations of [`State`] implement.

use vstd::prelude::*;
use crate::camera::{
    CameraController, CameraMotion, ControllerState, Extent, Projection, ProjectionState,
};
use crate::input::{DeviceEvent, KeyCode, MouseButton, WindowEvent};

verus! {

/// Which of the two precompiled pipelines draws the frame.
#[derive(Clone, Copy, Debug, PartialEq, Eq, Hash, Structural)]
pub enum PipelineType {
    Default,
    Experimental,
}

/// The number of pipeline variants, and so the length of a table indexed by
/// [`PipelineType::index`].
pub const PIPELINE_COUNT: usize = 2;

/// Where the presentation surface stands.
#[derive(Clone, Copy, Debug, PartialEq, Eq, Structural)]
pub enum SurfaceState {
    /// Not sized yet, or sized to nothing: frames are skipped.
    Unconfigured,
    /// Configured to the current viewport.
    Ready,
    /// Found outdated or lost: to be configured again before the next frame.
    Reconfiguring,
}

/// Why the surface gave no frame.
#[derive(Clone, Copy, Debug, PartialEq, Eq, Structural)]
pub enum SurfaceError {
    Timeout,
    Outdated,
    Lost,
    OutOfMemory,
    Other,
}

/// What a key transition asks of the application.
#[derive(Clone, Copy, Debug, PartialEq, Eq, Structural)]
pub enum KeyAction {
    /// Leave the event loop.
    Exit,
    /// The other pipeline draws from now on.
    PipelineSwitched,
    /// Nothing to do.
    Ignored,
}

/// What a resize asks of the device.
#[derive(Clone, Copy, Debug, PartialEq, Eq, Structural)]
pub struct ResizePlan {
    /// The size to configure the surface to, if it is to be configured.
    pub surface: Option<Extent>,
    /// The size to recreate the depth buffer at.
    pub depth: Extent,
}

/// What to do with the surface at the start of a frame.
#[derive(Clone, Copy, Debug, PartialEq, Eq, Structural)]
pub enum SurfaceStep {
    /// Draw nothing this tick.
    Skip,
    /// Acquire the next frame.
    Acquire,
    /// Configure the surface to this size, then acquire the next frame.
    Reconfigure(Extent),
}

/// How a frame starts.
#[derive(Clone, Copy, Debug, PartialEq, Eq, Structural)]
pub struct FramePlan {
    /// Whether to schedule the next frame.
    pub redraw: bool,
    pub surface: SurfaceStep,
}

/// The one render pass of a frame: clear colour and depth, bind `pipeline`
/// and the per-frame resources, draw the model `instances` times.
#[derive(Clone, Copy, Debug, PartialEq, Eq, Structural)]
pub struct DrawCall {
    pub pipeline: PipelineType,
    pub instances: u32,
}

/// The mathematical state of the orchestrator.
#[derive(Debug, PartialEq)]
pub struct StateView<S> {
    pub surface: SurfaceState,
    pub current_pipeline: PipelineType,
    /// Whether the pipeline key is down, as far as events have told.
    pub pipeline_key_held: bool,
    /// Whether the left button is down: pointer motion turns the camera
    /// only while it is.
    pub mouse_pressed: bool,
    /// How many copies of the model one draw call covers.
    pub instances: u32,
    pub projection: ProjectionState<S>,
    pub camera_controller: ControllerState<S>,
}

/// The renderer's state, as far as it is plain data.
pub struct State<S> {
    surface: SurfaceState,
    current_pipeline: PipelineType,
    pipeline_key_held: bool,
    projection: Projection<S>,
    camera_controller: CameraController<S>,
    mouse_pressed: bool,
    instances: u32,
}

impl PipelineType {
    /// The other variant.
    pub open spec fn spec_toggled(self) -> PipelineType {
        match self {
            PipelineType::Default => PipelineType::Experimental,
            PipelineType::Experimental => PipelineType::Default,
        }
    }

    /// The other variant.
    #[verifier::when_used_as_spec(spec_toggled)]
    pub fn toggled(self) -> (other: PipelineType)
        ensures
            other == self.spec_toggled(),
    {
        match self {
            PipelineType::Default => PipelineType::Experimental,
            PipelineType::Experimental => PipelineType::Default,
        }
    }

    /// The variant's place in a table of all pipelines.
    pub open spec fn spec_index(self) -> usize {
        match self {
            PipelineType::Default => 0,
            PipelineType::Experimental => 1,
        }
    }

    /// The variant's place in a table of all pipelines.
    #[verifier::when_used_as_spec(spec_index)]
    pub fn index(self) -> (i: usize)
        ensures
            i == self.spec_index(),
            i < PIPELINE_COUNT,
    {
        match self {
            PipelineType::Default => 0,
            PipelineType::Experimental => 1,
        }
    }

    /// Switching twice comes back to the same pipeline, and switching once
    /// never does.
    pub proof fn toggle_is_an_involution(self)
        ensures
            self.spec_toggled() != self,
            self.spec_toggled().spec_toggled() == self,
            self.spec_toggled().spec_index() != self.spec_index(),
    {
    }
}

impl SurfaceError {
    /// Whether configuring the surface again cures the failure: true of an
    /// outdated and of a lost surface, false of every other failure.
    pub open spec fn spec_is_recoverable(self) -> bool {
        self == SurfaceError::Outdated || self == SurfaceError::Lost
    }

    /// Whether configuring the surface again cures the failure.
    #[verifier::when_used_as_spec(spec_is_recoverable)]
    pub fn is_recoverable(self) -> (recoverable: bool)
        ensures
            recoverable == self.spec_is_recoverable(),
    {
        match self {
            SurfaceError::Outdated | SurfaceError::Lost => true,
            _ => false,
        }
    }
}

impl<S> StateView<S> {
    /// The size the surface is, or was last, configured to. The projection
    /// keeps it: its aspect ratio is this size's.
    pub open spec fn config(self) -> Extent {
        self.projection.aspect
    }

    /// What holds of every state: a surface in use has a viewport of
    /// positive area, so neither the surface, nor the depth buffer, nor the
    /// aspect ratio of a frame that is drawn comes from a degenerate size.
    pub open spec fn inv(self) -> bool {
        self.surface != SurfaceState::Unconfigured ==> self.config().spec_is_positive()
    }

    /// The state after the window took a new size. A size of positive area
    /// becomes the configuration and readies the surface; a degenerate one
    /// keeps the last configuration and puts the surface out of use.
    pub open spec fn on_resize(self, width: u32, height: u32) -> StateView<S> {
        StateView {
            surface: if width > 0 && height > 0 {
                SurfaceState::Ready
            } else {
                SurfaceState::Unconfigured
            },
            projection: self.projection.resized(width, height),
            ..self
        }
    }

    /// What the device does on a resize: the surface is configured only to a
    /// size of positive area, the depth buffer is recreated in any case, at
    /// the configuration in force after the resize.
    pub open spec fn resize_plan(self, width: u32, height: u32) -> ResizePlan {
        ResizePlan {
            surface: if width > 0 && height > 0 {
                Some(Extent { width, height })
            } else {
                None
            },
            depth: self.on_resize(width, height).config(),
        }
    }

    /// The state after a key transition. Only the pipeline key matters: it
    /// switches the pipeline when it goes down from up, and at no other time.
    pub open spec fn on_key(self, code: KeyCode, pressed: bool) -> StateView<S> {
        if code == KeyCode::Tab {
            StateView {
                pipeline_key_held: pressed,
                current_pipeline: if pressed && !self.pipeline_key_held {
                    self.current_pipeline.spec_toggled()
                } else {
                    self.current_pipeline
                },
                ..self
            }
        } else {
            self
        }
    }

    /// What a key transition asks of the application.
    pub open spec fn key_action(self, code: KeyCode, pressed: bool) -> KeyAction {
        if code == KeyCode::Escape && pressed {
            KeyAction::Exit
        } else if code == KeyCode::Tab && pressed && !self.pipeline_key_held {
            KeyAction::PipelineSwitched
        } else {
            KeyAction::Ignored
        }
    }

    /// The state after `presses` press events of one key in a row, with no
    /// release between them: what a key reports while it is held down.
    pub open spec fn on_key_held(self, code: KeyCode, presses: nat) -> StateView<S>
        decreases presses,
    {
        if presses == 0 {
            self
        } else {
            self.on_key(code, true).on_key_held(code, (presses - 1) as nat)
        }
    }

    /// How a frame starts: the next frame is always scheduled; an unused
    /// surface is skipped, a surface marked for it is configured again.
    pub open spec fn frame_plan(self) -> FramePlan {
        FramePlan {
            redraw: true,
            surface: match self.surface {
                SurfaceState::Unconfigured => SurfaceStep::Skip,
                SurfaceState::Ready => SurfaceStep::Acquire,
                SurfaceState::Reconfiguring => SurfaceStep::Reconfigure(self.config()),
            },
        }
    }

    /// The state after a frame started: a surface marked for it has been
    /// configured again.
    pub open spec fn on_render(self) -> StateView<S> {
        StateView {
            surface: if self.surface == SurfaceState::Reconfiguring {
                SurfaceState::Ready
            } else {
                self.surface
            },
            ..self
        }
    }

    /// The draw call of a frame in this state.
    pub open spec fn draw_call(self) -> DrawCall {
        DrawCall { pipeline: self.current_pipeline, instances: self.instances }
    }

    /// The state after the surface gave a frame or failed to: a frame shows
    /// the surface ready, a curable failure marks it for reconfiguration,
    /// and any other failure, like any outcome on an unused surface, changes
    /// nothing.
    pub open spec fn on_frame(self, acquired: Result<(), SurfaceError>) -> StateView<S> {
        if self.surface == SurfaceState::Unconfigured {
            self
        } else {
            match acquired {
                Ok(_) => StateView { surface: SurfaceState::Ready, ..self },
                Err(error) => if error.spec_is_recoverable() {
                    StateView { surface: SurfaceState::Reconfiguring, ..self }
                } else {
                    self
                },
            }
        }
    }

    /// What the frame comes to: a draw call when a frame was acquired on a
    /// surface in use, nothing when the surface is unused or the failure
    /// curable, and the failure itself when it is not.
    pub open spec fn frame_result(self, acquired: Result<(), SurfaceError>) -> Result<
        Option<DrawCall>,
        SurfaceError,
    > {
        if self.surface == SurfaceState::Unconfigured {
            Ok(None)
        } else {
            match acquired {
                Ok(_) => Ok(Some(self.draw_call())),
                Err(error) => if error.spec_is_recoverable() {
                    Ok(None)
                } else {
                    Err(error)
                },
            }
        }
    }

    /// The state after a tick: the controller's impulses are spent.
    pub open spec fn on_update(self) -> StateView<S> {
        StateView { camera_controller: self.camera_controller.consumed(), ..self }
    }

    /// The state after a window event: keys go to the camera controller, the
    /// wheel sets the pending scroll, the left button opens and closes the
    /// look gate.
    pub open spec fn on_input(self, event: WindowEvent<S>) -> StateView<S> {
        match event {
            WindowEvent::KeyboardInput { code, pressed } => StateView {
                camera_controller: self.camera_controller.key(code, pressed),
                ..self
            },
            WindowEvent::MouseWheel { scroll } => StateView {
                camera_controller: self.camera_controller.wheel(scroll),
                ..self
            },
            WindowEvent::MouseInput { button, pressed } => if button == MouseButton::Left {
                StateView { mouse_pressed: pressed, ..self }
            } else {
                self
            },
            WindowEvent::Other => self,
        }
    }

    /// Whether a window event is taken: a key with a direction, the wheel,
    /// the left button.
    pub open spec fn handles(event: WindowEvent<S>) -> bool {
        match event {
            WindowEvent::KeyboardInput { code, .. } => code.spec_direction() is Some,
            WindowEvent::MouseWheel { .. } => true,
            WindowEvent::MouseInput { button, .. } => button == MouseButton::Left,
            WindowEvent::Other => false,
        }
    }

    /// Whether a device event is taken: pointer motion, while the look gate
    /// is open.
    pub open spec fn handles_device(self, event: DeviceEvent<S>) -> bool {
        event is MouseMotion && self.mouse_pressed
    }

    /// The state after a device event: pointer motion that is taken becomes
    /// the pending rotation.
    pub open spec fn on_device_input(self, event: DeviceEvent<S>) -> StateView<S> {
        match event {
            DeviceEvent::MouseMotion { dx, dy } => if self.mouse_pressed {
                StateView { camera_controller: self.camera_controller.pointer(dx, dy), ..self }
            } else {
                self
            },
            DeviceEvent::Other => self,
        }
    }

    /// A key that is held down switches the pipeline once, however many
    /// press events it reports before it is released.
    pub proof fn held_key_switches_once(self, presses: nat)
        requires
            presses >= 1,
            !self.pipeline_key_held,
        ensures
            self.on_key_held(KeyCode::Tab, presses) == (StateView {
                current_pipeline: self.current_pipeline.spec_toggled(),
                pipeline_key_held: true,
                ..self
            }),
    {
        let first = self.on_key(KeyCode::Tab, true);
        if presses == 1 {
            assert(first.on_key_held(KeyCode::Tab, 0) == first);
        } else {
            first.key_stays_held((presses - 1) as nat);
        }
    }

    /// Press events of a key that is already down change nothing.
    pub proof fn key_stays_held(self, presses: nat)
        requires
            self.pipeline_key_held,
        ensures
            self.on_key_held(KeyCode::Tab, presses) == self,
        decreases presses,
    {
        if presses > 0 {
            assert(self.on_key(KeyCode::Tab, true) == self);
            self.key_stays_held((presses - 1) as nat);
        }
    }

    /// Every transition keeps the invariant.
    pub proof fn transitions_keep_the_invariant(
        self,
        size: (u32, u32),
        key: (KeyCode, bool),
        acquired: Result<(), SurfaceError>,
        event: WindowEvent<S>,
        device: DeviceEvent<S>,
    )
        requires
            self.inv(),
        ensures
            self.on_resize(size.0, size.1).inv(),
            self.on_key(key.0, key.1).inv(),
            self.on_render().inv(),
            self.on_frame(acquired).inv(),
            self.on_update().inv(),
            self.on_input(event).inv(),
            self.on_device_input(device).inv(),
    {
    }

    /// Neither the surface nor the depth buffer is ever asked to take a size
    /// without area by a frame, and a resize asks it of the surface never.
    pub proof fn device_sizes_have_area(self, width: u32, height: u32)
        requires
            self.inv(),
        ensures
            self.frame_plan().surface matches SurfaceStep::Reconfigure(extent)
                ==> extent.spec_is_positive(),
            self.resize_plan(width, height).surface matches Some(extent)
                ==> extent.spec_is_positive() && self.resize_plan(width, height).depth == extent,
            self.resize_plan(width, height).surface is None ==> self.resize_plan(
                width,
                height,
            ).depth == self.config(),
    {
    }

    /// A frame is drawn exactly when the surface is in use and gave a
    /// frame; what is drawn is the selected pipeline over all instances, on
    /// a viewport with area. The next frame is scheduled in any case.
    pub proof fn frames_are_drawn_on_a_sized_surface(self, acquired: Result<(), SurfaceError>)
        requires
            self.inv(),
        ensures
            self.frame_plan().redraw,
            (self.frame_result(acquired) matches Ok(Some(_))) <==> (self.surface
                != SurfaceState::Unconfigured && acquired is Ok),
            self.frame_result(acquired) matches Ok(Some(call)) ==> call == self.draw_call()
                && self.config().spec_is_positive(),
            (self.frame_result(acquired) is Err) <==> (self.surface != SurfaceState::Unconfigured
                && acquired is Err && !acquired->Err_0.spec_is_recoverable()),
            self.frame_result(acquired) matches Err(error) ==> acquired == Err::<
                (),
                SurfaceError,
            >(error),
    {
    }

    /// An outdated or lost surface costs one frame: that frame is skipped,
    /// the next one starts by configuring the surface to the size in force,
    /// and the one after starts as on a ready surface.
    pub proof fn lost_surface_is_reconfigured_on_the_next_frame(self, error: SurfaceError)
        requires
            self.inv(),
            self.surface != SurfaceState::Unconfigured,
            error.spec_is_recoverable(),
        ensures
            self.frame_result(Err(error)) == Ok::<Option<DrawCall>, SurfaceError>(None),
            self.on_frame(Err(error)).frame_plan().surface == SurfaceStep::Reconfigure(
                self.config(),
            ),
            self.on_frame(Err(error)).on_render().surface == SurfaceState::Ready,
            self.on_frame(Err(error)).on_render().frame_plan().surface == SurfaceStep::Acquire,
            self.on_frame(Err(error)).on_render() == (StateView {
                surface: SurfaceState::Ready,
                ..self
            }),
    {
    }

    /// Only a key transition touches the pipeline selection: resizes,
    /// frames, ticks and the other events leave it and the key's state alone.
    pub proof fn only_keys_touch_the_pipeline(
        self,
        size: (u32, u32),
        acquired: Result<(), SurfaceError>,
        event: WindowEvent<S>,
        device: DeviceEvent<S>,
    )
        ensures
            self.on_resize(size.0, size.1).current_pipeline == self.current_pipeline,
            self.on_render().current_pipeline == self.current_pipeline,
            self.on_frame(acquired).current_pipeline == self.current_pipeline,
            self.on_update().current_pipeline == self.current_pipeline,
            self.on_input(event).current_pipeline == self.current_pipeline,
            self.on_device_input(device).current_pipeline == self.current_pipeline,
            self.on_resize(size.0, size.1).pipeline_key_held == self.pipeline_key_held,
            self.on_render().pipeline_key_held == self.pipeline_key_held,
            self.on_frame(acquired).pipeline_key_held == self.pipeline_key_held,
            self.on_update().pipeline_key_held == self.pipeline_key_held,
            self.on_input(event).pipeline_key_held == self.pipeline_key_held,
            self.on_device_input(device).pipeline_key_held == self.pipeline_key_held,
    {
    }

    /// A resize with a zero dimension changes nothing but the surface's
    /// state: the projection keeps its aspect ratio and its lens.
    pub proof fn degenerate_resize_keeps_the_projection(self, width: u32, height: u32)
        requires
            width == 0 || height == 0,
        ensures
            self.on_resize(width, height) == (StateView {
                surface: SurfaceState::Unconfigured,
                ..self
            }),
            self.on_resize(width, height).projection == self.projection,
            self.resize_plan(width, height).surface is None,
    {
    }
}

impl<S> View for State<S> {
    type V = StateView<S>;

    closed spec fn view(&self) -> StateView<S> {
        StateView {
            surface: self.surface,
            current_pipeline: self.current_pipeline,
            pipeline_key_held: self.pipeline_key_held,
            mouse_pressed: self.mouse_pressed,
            instances: self.instances,
            projection: self.projection@,
            camera_controller: self.camera_controller@,
        }
    }
}

impl<S> State<S> {
    #[verifier::type_invariant]
    spec fn well_formed(self) -> bool {
        self@.inv()
    }
}

impl<S: Copy> State<S> {
    /// The state at startup: the surface not yet in use, the default
    /// pipeline selected, the look gate closed, the viewport at the window's
    /// first size.
    pub fn new(
        width: u32,
        height: u32,
        fovy: S,
        znear: S,
        zfar: S,
        camera_controller: CameraController<S>,
        instances: u32,
    ) -> (state: Self)
        ensures
            state@ == (StateView {
                surface: SurfaceState::Unconfigured,
                current_pipeline: PipelineType::Default,
                pipeline_key_held: false,
                mouse_pressed: false,
                instances,
                projection: ProjectionState { aspect: Extent { width, height }, fovy, znear, zfar },
                camera_controller: camera_controller@,
            }),
            state@.inv(),
    {
        State {
            surface: SurfaceState::Unconfigured,
            current_pipeline: PipelineType::Default,
            pipeline_key_held: false,
            projection: Projection::new(width, height, fovy, znear, zfar),
            camera_controller,
            mouse_pressed: false,
            instances,
        }
    }

    /// The current state, as plain data.
    pub fn snapshot(&self) -> (view: StateView<S>)
        ensures
            view == self@,
            view.inv(),
    {
        proof {
            use_type_invariant(self);
        }
        StateView {
            surface: self.surface,
            current_pipeline: self.current_pipeline,
            pipeline_key_held: self.pipeline_key_held,
            mouse_pressed: self.mouse_pressed,
            instances: self.instances,
            projection: self.projection.state(),
            camera_controller: self.camera_controller.state(),
        }
    }

    /// Follows the window to a new size and says what the device has to do.
    pub fn resize(&mut self, width: u32, height: u32) -> (plan: ResizePlan)
        ensures
            final(self)@ == old(self)@.on_resize(width, height),
            plan == old(self)@.resize_plan(width, height),
            final(self)@.inv(),
    {
        proof {
            use_type_invariant(&*self);
        }
        let configured = (Extent { width, height }).is_positive();
        self.projection.resize(width, height);
        if configured {
            self.surface = SurfaceState::Ready;
        } else {
            self.surface = SurfaceState::Unconfigured;
        }
        ResizePlan {
            surface: if configured {
                Some(Extent { width, height })
            } else {
                None
            },
            depth: self.projection.state().aspect,
        }
    }

    /// Takes a key transition: the escape key going down asks to exit, the
    /// tab key going down switches the pipeline.
    pub fn handle_key(&mut self, code: KeyCode, is_pressed: bool) -> (action: KeyAction)
        ensures
            final(self)@ == old(self)@.on_key(code, is_pressed),
            action == old(self)@.key_action(code, is_pressed),
            final(self)@.inv(),
    {
        proof {
            use_type_invariant(&*self);
        }
        match code {
            KeyCode::Escape => if is_pressed {
                KeyAction::Exit
            } else {
                KeyAction::Ignored
            },
            KeyCode::Tab => {
                let switch = is_pressed && !self.pipeline_key_held;
                self.pipeline_key_held = is_pressed;
                if switch {
                    self.current_pipeline = self.current_pipeline.toggled();
                    KeyAction::PipelineSwitched
                } else {
                    KeyAction::Ignored
                }
            },
            _ => KeyAction::Ignored,
        }
    }

    /// Starts a frame and says what to do with the surface before drawing.
    pub fn render(&mut self) -> (plan: FramePlan)
        ensures
            final(self)@ == old(self)@.on_render(),
            plan == old(self)@.frame_plan(),
            final(self)@.inv(),
    {
        proof {
            use_type_invariant(&*self);
        }
        let step = match self.surface {
            SurfaceState::Unconfigured => SurfaceStep::Skip,
            SurfaceState::Ready => SurfaceStep::Acquire,
            SurfaceState::Reconfiguring => {
                self.surface = SurfaceState::Ready;
                SurfaceStep::Reconfigure(self.projection.state().aspect)
            },
        };
        FramePlan { redraw: true, surface: step }
    }

    /// Takes the outcome of acquiring a frame and says what the frame comes
    /// to: `Ok` with the draw call to issue, `Ok` with nothing when this
    /// tick draws nothing, `Err` with a failure that the caller cannot cure.
    pub fn frame_acquired(&mut self, acquired: Result<(), SurfaceError>) -> (result: Result<
        Option<DrawCall>,
        SurfaceError,
    >)
        ensures
            final(self)@ == old(self)@.on_frame(acquired),
            result == old(self)@.frame_result(acquired),
            final(self)@.inv(),
    {
        proof {
            use_type_invariant(&*self);
        }
        match self.surface {
            SurfaceState::Unconfigured => Ok(None),
            _ => match acquired {
                Ok(_) => {
                    self.surface = SurfaceState::Ready;
                    Ok(Some(DrawCall { pipeline: self.current_pipeline, instances: self.instances }))
                },
                Err(error) => if error.is_recoverable() {
                    self.surface = SurfaceState::Reconfiguring;
                    Ok(None)
                } else {
                    Err(error)
                },
            },
        }
    }

    /// Runs one tick of the camera controller and hands out the motion for
    /// the caller to apply to the camera before it uploads the uniform.
    pub fn update(&mut self) -> (motion: CameraMotion<S>)
        ensures
            final(self)@ == old(self)@.on_update(),
            motion == old(self)@.camera_controller.motion(),
            final(self)@.inv(),
    {
        proof {
            use_type_invariant(&*self);
        }
        self.camera_controller.update_camera()
    }

    /// Takes a window event. Returns whether it was taken.
    pub fn input(&mut self, event: &WindowEvent<S>) -> (handled: bool)
        ensures
            final(self)@ == old(self)@.on_input(*event),
            handled == StateView::handles(*event),
            final(self)@.inv(),
    {
        proof {
            use_type_invariant(&*self);
        }
        match event {
            WindowEvent::KeyboardInput { .. } => self.camera_controller.process_events(event),
            WindowEvent::MouseWheel { scroll } => {
                self.camera_controller.handle_mouse_scroll(*scroll);
                true
            },
            WindowEvent::MouseInput { button: MouseButton::Left, pressed } => {
                self.mouse_pressed = *pressed;
                true
            },
            _ => false,
        }
    }

    /// Takes a device event. Returns whether it was taken.
    pub fn device_input(&mut self, event: &DeviceEvent<S>) -> (handled: bool)
        ensures
            final(self)@ == old(self)@.on_device_input(*event),
            handled == old(self)@.handles_device(*event),
            final(self)@.inv(),
    {
        proof {
            use_type_invariant(&*self);
        }
        match event {
            DeviceEvent::MouseMotion { dx, dy } => {
                if self.mouse_pressed {
                    self.camera_controller.handle_mouse(*dx, *dy);
                    true
                } else {
                    false
                }
            },
            _ => false,
        }
    }
}

impl<S: Copy> Clone for StateView<S> {
    fn clone(&self) -> (copy: Self)
        ensures
            copy == *self,
    {
        *self
    }
}

impl<S: Copy> Copy for StateView<S> {}

} // verus!
