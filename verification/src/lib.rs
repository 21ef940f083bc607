//! Core engine of a Wayland wallpaper tool: a slide-show timeline over
//! wall-clock time, per-output scaling of decoded images into tightly
//! packed RGB buffers, a bounded resource cache, and the worker state
//! machine that reacts to output hotplug, animation ticks, suspend
//! detection and IPC reconfiguration.

use vstd::prelude::*;

pub mod config;
pub mod image;
pub mod messages;
pub mod metadata;
pub mod opengl;
pub mod outputs;
pub mod schema;
pub mod util;
pub mod watchdog;
pub mod worker;

verus! {

/// Pixel dimensions of an output's backing buffer after applying the
/// display server's integer scale factor.
#[derive(Debug, Clone, Copy, PartialEq, Eq, Structural, Hash)]
pub struct ScaledMode {
    pub width: i32,
    pub height: i32,
}

} // verus!
