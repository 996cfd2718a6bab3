//! Who can send and receive messages.

use vstd::prelude::*;

verus! {

/// The logical identity of a surface.
#[derive(Debug, Clone, Copy, Hash, PartialEq, Eq, Structural)]
pub enum AppWindow {
    /// Every registered surface at once.
    AllWindow,
    /// The overlay on which a still image is selected.
    RegionSelectorCanvasWindow,
    /// The overlay on which a recording is selected.
    GifSelectorCanvasWindow,
    /// The settings surface.
    ConfigWindow,
}

/// One end of a message.
#[derive(Debug, Clone, Copy, PartialEq, Eq, Structural)]
pub enum Target {
    /// The application itself.
    Application,
    /// The action subsystem.
    Action,
    /// A surface, or all of them.
    Window(AppWindow),
}

} // verus!
