//! The camera controller and the projection's viewport.
//!
//! Both are generic over the scalar type `S` of the continuous quantities
//! (speeds, angles, wheel travel). Values of `S` are stored, handed on and
//! reset, never computed with: the arithmetic on them belongs to the caller,
//! which gets from [`CameraController::update_camera`] everything one tick of
//! motion is made of.

use vstd::prelude::*;
use crate::input::{Direction, KeyCode, WindowEvent};

verus! {

/// Which of the six directional keys are held.
#[derive(Clone, Copy, Debug, PartialEq, Eq, Structural)]
pub struct Directions {
    pub forward: bool,
    pub backward: bool,
    pub left: bool,
    pub right: bool,
    pub up: bool,
    pub down: bool,
}

/// The one-shot inputs gathered since the last tick.
#[derive(Debug, PartialEq)]
pub struct Impulse<S> {
    pub rotate_horizontal: S,
    pub rotate_vertical: S,
    pub scroll: S,
}

/// What one tick asks of the camera.
///
/// `forward`, `right` and `up` are signed unit steps along the camera's
/// planar forward and right vectors and the world's vertical; the other
/// fields are the consumed impulses and the controller's two gains.
#[derive(Debug, PartialEq)]
pub struct CameraMotion<S> {
    pub forward: i8,
    pub right: i8,
    pub up: i8,
    pub scroll: S,
    pub rotate_horizontal: S,
    pub rotate_vertical: S,
    pub speed: S,
    pub sensitivity: S,
}

/// Everything a [`CameraController`] holds.
#[derive(Debug, PartialEq)]
pub struct ControllerState<S> {
    pub speed: S,
    pub sensitivity: S,
    /// The value an impulse has when nothing arrived.
    pub zero: S,
    pub held: Directions,
    pub pending: Impulse<S>,
}

/// Turns key, pointer and wheel events into per-tick camera motion.
pub struct CameraController<S> {
    state: ControllerState<S>,
}

/// A size in pixels.
#[derive(Clone, Copy, Debug, PartialEq, Eq, Structural)]
pub struct Extent {
    pub width: u32,
    pub height: u32,
}

/// Everything a [`Projection`] holds.
///
/// The aspect ratio is kept exactly, as the pair of pixel dimensions whose
/// quotient it is.
#[derive(Debug, PartialEq)]
pub struct ProjectionState<S> {
    pub aspect: Extent,
    pub fovy: S,
    pub znear: S,
    pub zfar: S,
}

/// The perspective lens: field of view, clip distances and aspect ratio.
pub struct Projection<S> {
    state: ProjectionState<S>,
}

impl Directions {
    /// No key held.
    pub open spec fn spec_released() -> Directions {
        Directions {
            forward: false,
            backward: false,
            left: false,
            right: false,
            up: false,
            down: false,
        }
    }

    /// No key held.
    #[verifier::when_used_as_spec(spec_released)]
    pub fn released() -> (d: Directions)
        ensures
            d == Directions::spec_released(),
    {
        Directions {
            forward: false,
            backward: false,
            left: false,
            right: false,
            up: false,
            down: false,
        }
    }

    /// `self` with the flag of `direction` replaced by `held`.
    pub open spec fn with(self, direction: Direction, held: bool) -> Directions {
        match direction {
            Direction::Forward => Directions { forward: held, ..self },
            Direction::Backward => Directions { backward: held, ..self },
            Direction::Left => Directions { left: held, ..self },
            Direction::Right => Directions { right: held, ..self },
            Direction::Up => Directions { up: held, ..self },
            Direction::Down => Directions { down: held, ..self },
        }
    }

    /// Records that the key of `direction` is now `held`.
    pub fn set(&mut self, direction: Direction, held: bool)
        ensures
            *final(self) == old(self).with(direction, held),
        no_unwind
    {
        match direction {
            Direction::Forward => self.forward = held,
            Direction::Backward => self.backward = held,
            Direction::Left => self.left = held,
            Direction::Right => self.right = held,
            Direction::Up => self.up = held,
            Direction::Down => self.down = held,
        }
    }

    /// The signed step of a pair of opposing keys: the flag `toward` counts
    /// one, the flag `away` minus one.
    pub open spec fn spec_axis(toward: bool, away: bool) -> int {
        (if toward { 1int } else { 0int }) - (if away { 1int } else { 0int })
    }

    /// The signed step of a pair of opposing keys, as a number to move by.
    pub fn axis(toward: bool, away: bool) -> (step: i8)
        ensures
            step == Directions::spec_axis(toward, away),
        no_unwind
    {
        let plus: i8 = if toward { 1 } else { 0 };
        let minus: i8 = if away { 1 } else { 0 };
        plus - minus
    }
}

impl<S> Impulse<S> {
    /// The impulse when nothing arrived: all three at `zero`.
    pub open spec fn at_rest(zero: S) -> Impulse<S> {
        Impulse { rotate_horizontal: zero, rotate_vertical: zero, scroll: zero }
    }
}

impl<S> ControllerState<S> {
    /// The state after a key went down or up: a key with a direction sets
    /// that direction's flag, any other key changes nothing.
    pub open spec fn key(self, code: KeyCode, pressed: bool) -> ControllerState<S> {
        match code.spec_direction() {
            Some(direction) => ControllerState { held: self.held.with(direction, pressed), ..self },
            None => self,
        }
    }

    /// The state after a window event: only keyboard input is of concern.
    pub open spec fn event(self, event: WindowEvent<S>) -> ControllerState<S> {
        match event {
            WindowEvent::KeyboardInput { code, pressed } => self.key(code, pressed),
            _ => self,
        }
    }

    /// Whether the controller takes a window event for its own.
    pub open spec fn claims(event: WindowEvent<S>) -> bool {
        event matches WindowEvent::KeyboardInput { code, .. } && code.spec_direction() is Some
    }

    /// The motion that the next tick hands out.
    pub open spec fn motion(self) -> CameraMotion<S> {
        CameraMotion {
            forward: Directions::spec_axis(self.held.forward, self.held.backward) as i8,
            right: Directions::spec_axis(self.held.right, self.held.left) as i8,
            up: Directions::spec_axis(self.held.up, self.held.down) as i8,
            scroll: self.pending.scroll,
            rotate_horizontal: self.pending.rotate_horizontal,
            rotate_vertical: self.pending.rotate_vertical,
            speed: self.speed,
            sensitivity: self.sensitivity,
        }
    }

    /// The state after a pointer motion: it becomes the pending rotation,
    /// whatever rotation was pending before.
    pub open spec fn pointer(self, dx: S, dy: S) -> ControllerState<S> {
        ControllerState {
            pending: Impulse { rotate_horizontal: dx, rotate_vertical: dy, ..self.pending },
            ..self
        }
    }

    /// The state after a wheel travel: it becomes the pending scroll,
    /// whatever scroll was pending before.
    pub open spec fn wheel(self, scroll: S) -> ControllerState<S> {
        ControllerState { pending: Impulse { scroll, ..self.pending }, ..self }
    }

    /// The state after a tick: the impulses are spent, the held keys stay.
    pub open spec fn consumed(self) -> ControllerState<S> {
        ControllerState { pending: Impulse::at_rest(self.zero), ..self }
    }

    /// A tick leaves every impulse at zero and every flag as it was; a
    /// second tick with nothing in between hands out no impulse.
    pub proof fn tick_spends_impulses_and_keeps_flags(self)
        ensures
            self.consumed().pending.rotate_horizontal == self.zero,
            self.consumed().pending.rotate_vertical == self.zero,
            self.consumed().pending.scroll == self.zero,
            self.consumed().held == self.held,
            self.consumed().motion().rotate_horizontal == self.zero,
            self.consumed().motion().rotate_vertical == self.zero,
            self.consumed().motion().scroll == self.zero,
            self.consumed().consumed() == self.consumed(),
    {
    }

    /// Nothing but a key with a direction moves a flag, and such a key
    /// moves no other flag than its own.
    pub proof fn only_directional_keys_move_flags(
        self,
        code: KeyCode,
        pressed: bool,
        dx: S,
        dy: S,
        scroll: S,
    )
        ensures
            self.pointer(dx, dy).held == self.held,
            self.wheel(scroll).held == self.held,
            code.spec_direction() is None ==> self.key(code, pressed) == self,
            code.spec_direction() matches Some(direction) ==> self.key(code, pressed).held
                == self.held.with(direction, pressed),
            self.key(code, pressed).pending == self.pending,
    {
    }

    /// Of several pointer motions, or wheel travels, before a tick, only
    /// the last counts.
    pub proof fn last_impulse_wins(self, first: (S, S, S), last: (S, S, S))
        ensures
            self.pointer(first.0, first.1).pointer(last.0, last.1) == self.pointer(last.0, last.1),
            self.wheel(first.2).wheel(last.2) == self.wheel(last.2),
            self.wheel(first.2).wheel(last.2).motion().scroll == last.2,
            self.pointer(first.0, first.1).pointer(last.0, last.1).motion().rotate_horizontal
                == last.0,
            self.pointer(first.0, first.1).pointer(last.0, last.1).motion().rotate_vertical
                == last.1,
    {
    }
}

impl<S> View for CameraController<S> {
    type V = ControllerState<S>;

    closed spec fn view(&self) -> ControllerState<S> {
        self.state
    }
}

impl<S: Copy> CameraController<S> {
    /// A controller with no key held and no impulse pending. `zero` is the
    /// scalar that stands for "no input"; the impulses start there and
    /// return there after each tick.
    pub fn new(speed: S, sensitivity: S, zero: S) -> (controller: Self)
        ensures
            controller@ == (ControllerState {
                speed,
                sensitivity,
                zero,
                held: Directions::spec_released(),
                pending: Impulse::at_rest(zero),
            }),
    {
        CameraController {
            state: ControllerState {
                speed,
                sensitivity,
                zero,
                held: Directions::released(),
                pending: Impulse { rotate_horizontal: zero, rotate_vertical: zero, scroll: zero },
            },
        }
    }

    /// The controller's current contents.
    pub fn state(&self) -> (state: ControllerState<S>)
        ensures
            state == self@,
    {
        self.state
    }

    /// Takes a key transition. Returns whether the key has a direction; one
    /// that has none leaves the controller as it was.
    pub fn process_key(&mut self, code: KeyCode, pressed: bool) -> (recognized: bool)
        ensures
            recognized == (code.spec_direction() is Some),
            final(self)@ == old(self)@.key(code, pressed),
        no_unwind
    {
        match code.direction() {
            Some(direction) => {
                self.state.held.set(direction, pressed);
                true
            },
            None => false,
        }
    }

    /// Takes a window event. Returns whether it was a key with a direction;
    /// every other event leaves the controller as it was.
    pub fn process_events(&mut self, event: &WindowEvent<S>) -> (handled: bool)
        ensures
            handled == ControllerState::claims(*event),
            final(self)@ == old(self)@.event(*event),
        no_unwind
    {
        match event {
            WindowEvent::KeyboardInput { code, pressed } => self.process_key(*code, *pressed),
            _ => false,
        }
    }

    /// Takes a pointer motion. The latest motion replaces whatever rotation
    /// was pending: motions within one tick are not summed.
    pub fn handle_mouse(&mut self, mouse_dx: S, mouse_dy: S)
        ensures
            final(self)@ == old(self)@.pointer(mouse_dx, mouse_dy),
        no_unwind
    {
        self.state.pending.rotate_horizontal = mouse_dx;
        self.state.pending.rotate_vertical = mouse_dy;
    }

    /// Takes a wheel travel, already in pixel-equivalents with its sign
    /// inverted. The latest travel replaces whatever was pending.
    pub fn handle_mouse_scroll(&mut self, scroll: S)
        ensures
            final(self)@ == old(self)@.wheel(scroll),
        no_unwind
    {
        self.state.pending.scroll = scroll;
    }

    /// Runs one tick: hands out the motion made of the held keys and the
    /// pending impulses, and resets the impulses to `zero`. The held keys
    /// persist until their release arrives.
    pub fn update_camera(&mut self) -> (motion: CameraMotion<S>)
        ensures
            motion == old(self)@.motion(),
            final(self)@ == old(self)@.consumed(),
            final(self)@.pending == Impulse::at_rest(old(self)@.zero),
            final(self)@.held == old(self)@.held,
        no_unwind
    {
        let held = self.state.held;
        let pending = self.state.pending;
        let zero = self.state.zero;
        self.state.pending = Impulse { rotate_horizontal: zero, rotate_vertical: zero, scroll: zero };
        CameraMotion {
            forward: Directions::axis(held.forward, held.backward),
            right: Directions::axis(held.right, held.left),
            up: Directions::axis(held.up, held.down),
            scroll: pending.scroll,
            rotate_horizontal: pending.rotate_horizontal,
            rotate_vertical: pending.rotate_vertical,
            speed: self.state.speed,
            sensitivity: self.state.sensitivity,
        }
    }
}

impl Extent {
    /// Whether both dimensions are at least one pixel.
    pub open spec fn spec_is_positive(self) -> bool {
        self.width > 0 && self.height > 0
    }

    /// Whether both dimensions are at least one pixel.
    #[verifier::when_used_as_spec(spec_is_positive)]
    pub fn is_positive(self) -> (positive: bool)
        ensures
            positive == self.spec_is_positive(),
    {
        self.width > 0 && self.height > 0
    }
}

impl<S> ProjectionState<S> {
    /// The state after the viewport changed: a size of positive area becomes
    /// the new aspect ratio, a degenerate one changes nothing.
    pub open spec fn resized(self, width: u32, height: u32) -> ProjectionState<S> {
        if width > 0 && height > 0 {
            ProjectionState { aspect: Extent { width, height }, ..self }
        } else {
            self
        }
    }
}

impl<S> View for Projection<S> {
    type V = ProjectionState<S>;

    closed spec fn view(&self) -> ProjectionState<S> {
        self.state
    }
}

impl<S: Copy> Projection<S> {
    /// A lens over a viewport of `width` by `height` pixels.
    pub fn new(width: u32, height: u32, fovy: S, znear: S, zfar: S) -> (projection: Self)
        ensures
            projection@ == (ProjectionState { aspect: Extent { width, height }, fovy, znear, zfar }),
    {
        Projection { state: ProjectionState { aspect: Extent { width, height }, fovy, znear, zfar } }
    }

    /// The lens's current contents.
    pub fn state(&self) -> (state: ProjectionState<S>)
        ensures
            state == self@,
    {
        self.state
    }

    /// Follows a viewport change. A size with a zero dimension is ignored,
    /// so the aspect ratio is never taken from a viewport without area; the
    /// field of view and the clip distances never change.
    pub fn resize(&mut self, width: u32, height: u32)
        ensures
            final(self)@ == old(self)@.resized(width, height),
        no_unwind
    {
        if width > 0 && height > 0 {
            self.state.aspect = Extent { width, height };
        }
    }
}

impl<S: Copy> Clone for Impulse<S> {
    fn clone(&self) -> (copy: Self)
        ensures
            copy == *self,
    {
        *self
    }
}

impl<S: Copy> Copy for Impulse<S> {}

impl<S: Copy> Clone for CameraMotion<S> {
    fn clone(&self) -> (copy: Self)
        ensures
            copy == *self,
    {
        *self
    }
}

impl<S: Copy> Copy for CameraMotion<S> {}

impl<S: Copy> Clone for ControllerState<S> {
    fn clone(&self) -> (copy: Self)
        ensures
            copy == *self,
    {
        *self
    }
}

impl<S: Copy> Copy for ControllerState<S> {}

impl<S: Copy> Clone for ProjectionState<S> {
    fn clone(&self) -> (copy: Self)
        ensures
            copy == *self,
    {
        *self
    }
}

impl<S: Copy> Copy for ProjectionState<S> {}

} // verus!
