//! The decision-making core of a real-time 3D scene renderer: how input
//! events become camera motion, how the viewport follows the window, which
//! pipeline draws, and what each frame does with the presentation surface.
//!
//! The crate touches no device. Every operation is a transition of plain
//! state that returns what the caller has to carry out: a motion to apply
//! to the camera, a surface to configure, a draw call to issue.

pub mod camera;
pub mod input;
pub mod state;
