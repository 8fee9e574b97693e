//! Verified core of an animated ground-plane screensaver.
//!
//! The crate holds the decisions of the program as plain values: how the
//! window is chosen, which native events count, how the output surface
//! follows resizes, what one frame draws and how the frame counter advances.
//! Talking to the window system and to the GPU is left to the caller.

pub mod bytes;
pub mod ground;
pub mod primitives;
pub mod state;
pub mod xscreensaver;
