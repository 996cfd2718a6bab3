//! Settings of a recording.

use vstd::prelude::*;

verus! {

/// Frames a second, where nothing else is configured.
pub const DEFAULT_GIF_FPS: u32 = 15;

/// Length of a recording in milliseconds, where nothing else is configured.
pub const DEFAULT_GIF_DURATION_MS: u32 = 30_000;

/// How a recording is sampled.
#[derive(Debug, Clone, Copy, PartialEq, Eq, Structural)]
pub struct CaptureConfig {
    /// Frames sampled a second; usable values lie in `(0, 60]`.
    pub gif_capture_fps: u32,
    /// Total length of a recording, in milliseconds.
    pub gif_capture_duration_ms: u32,
}

impl CaptureConfig {
    /// The default settings: 15 frames a second for 30 seconds.
    pub fn new() -> (c: CaptureConfig)
        ensures
            c.gif_capture_fps == DEFAULT_GIF_FPS,
            c.gif_capture_duration_ms == DEFAULT_GIF_DURATION_MS,
    {
        CaptureConfig {
            gif_capture_fps: DEFAULT_GIF_FPS,
            gif_capture_duration_ms: DEFAULT_GIF_DURATION_MS,
        }
    }
}

impl Default for CaptureConfig {
    /// The same settings as [`CaptureConfig::new`].
    fn default() -> (c: CaptureConfig)
        ensures
            c.gif_capture_fps == DEFAULT_GIF_FPS,
            c.gif_capture_duration_ms == DEFAULT_GIF_DURATION_MS,
    {
        CaptureConfig::new()
    }
}

} // verus!
