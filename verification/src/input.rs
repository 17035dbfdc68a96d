//! Input events as the renderer reads them.
//!
//! The windowing layer turns its own events into these values: a key is one
//! of the keys the renderer knows or `Other`, a press is a `bool`, and the
//! continuous quantities (wheel travel, pointer motion) are carried as the
//! caller's scalar type `S` without being inspected.

use vstd::prelude::*;

verus! {

/// Physical keys the renderer reacts to. Every key without a role is `Other`.
#[derive(Clone, Copy, Debug, PartialEq, Eq, Hash, Structural)]
pub enum KeyCode {
    KeyW,
    KeyA,
    KeyS,
    KeyD,
    ArrowUp,
    ArrowLeft,
    ArrowDown,
    ArrowRight,
    Space,
    ShiftLeft,
    Escape,
    Tab,
    Other,
}

/// One of the six directions of travel a key can stand for.
#[derive(Clone, Copy, Debug, PartialEq, Eq, Hash, Structural)]
pub enum Direction {
    Forward,
    Backward,
    Left,
    Right,
    Up,
    Down,
}

/// Pointer buttons. Only the left one has a role: it gates mouse look.
#[derive(Clone, Copy, Debug, PartialEq, Eq, Hash, Structural)]
pub enum MouseButton {
    Left,
    Right,
    Middle,
    Other,
}

/// An event addressed to the window.
#[derive(Debug)]
pub enum WindowEvent<S> {
    /// A key with a physical code went down (`pressed`) or up.
    KeyboardInput { code: KeyCode, pressed: bool },
    /// The wheel moved. `scroll` is the travel along the view axis in
    /// pixel-equivalents, sign already inverted.
    MouseWheel { scroll: S },
    /// A pointer button went down (`pressed`) or up.
    MouseInput { button: MouseButton, pressed: bool },
    /// Anything else.
    Other,
}

/// An event from an input device, independent of any window.
#[derive(Debug)]
pub enum DeviceEvent<S> {
    /// Raw pointer motion in device units.
    MouseMotion { dx: S, dy: S },
    /// Anything else.
    Other,
}

impl KeyCode {
    /// The direction of travel bound to a key, if it has one.
    ///
    /// W and the up arrow go forward, S and the down arrow backward, A and
    /// the left arrow left, D and the right arrow right, the space bar up and
    /// the left shift key down.
    pub open spec fn spec_direction(self) -> Option<Direction> {
        match self {
            KeyCode::KeyW | KeyCode::ArrowUp => Some(Direction::Forward),
            KeyCode::KeyA | KeyCode::ArrowLeft => Some(Direction::Left),
            KeyCode::KeyS | KeyCode::ArrowDown => Some(Direction::Backward),
            KeyCode::KeyD | KeyCode::ArrowRight => Some(Direction::Right),
            KeyCode::Space => Some(Direction::Up),
            KeyCode::ShiftLeft => Some(Direction::Down),
            _ => None,
        }
    }

    /// The direction of travel bound to a key, if it has one.
    #[verifier::when_used_as_spec(spec_direction)]
    pub fn direction(self) -> (d: Option<Direction>)
        ensures
            d == self.spec_direction(),
        no_unwind
    {
        match self {
            KeyCode::KeyW | KeyCode::ArrowUp => Some(Direction::Forward),
            KeyCode::KeyA | KeyCode::ArrowLeft => Some(Direction::Left),
            KeyCode::KeyS | KeyCode::ArrowDown => Some(Direction::Backward),
            KeyCode::KeyD | KeyCode::ArrowRight => Some(Direction::Right),
            KeyCode::Space => Some(Direction::Up),
            KeyCode::ShiftLeft => Some(Direction::Down),
            _ => None,
        }
    }
}

impl<S: Copy> Clone for WindowEvent<S> {
    fn clone(&self) -> (copy: Self)
        ensures
            copy == *self,
    {
        *self
    }
}

impl<S: Copy> Copy for WindowEvent<S> {}

impl<S: Copy> Clone for DeviceEvent<S> {
    fn clone(&self) -> (copy: Self)
        ensures
            copy == *self,
    {
        *self
    }
}

impl<S: Copy> Copy for DeviceEvent<S> {}

} // verus!
