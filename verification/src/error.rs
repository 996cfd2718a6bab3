//! What can go wrong with a capture.

use vstd::prelude::*;

verus! {

/// Why a capture operation did not produce its artifact. Each is local to
/// the operation that reports it.
#[derive(Debug, Copy, Clone, PartialEq, Eq, Structural)]
pub enum CaptureError {
    /// The frame rate is zero or above [`crate::producer::MAX_FPS`].
    InvalidFps,
    /// The screen could not be read, or what was read has the wrong size.
    CaptureFailure,
    /// The artifact could not be written.
    PersistenceFailure,
    /// A recording was asked for while another one is still running.
    DoubleSessionStart,
    /// The encoder refused the frames: one is too large for the format.
    EncodeFailure,
    /// The machine had no memory left to encode with.
    OutOfMemory,
}

} // verus!
