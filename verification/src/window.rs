//! Which parts of a window's state the desktop shell saves and restores.

use vstd::prelude::*;

verus! {

/// A selection of the parts of a window's state that are saved and restored.
#[derive(Clone, Copy, Debug, PartialEq, Eq, Structural)]
pub struct WindowStateFlags {
    pub size: bool,
    pub position: bool,
    pub maximized: bool,
    pub visible: bool,
    pub decorations: bool,
    pub fullscreen: bool,
}

/// The parts of the window state that are kept: all of them but the
/// decorations and the visibility.
pub fn window_state_flags() -> (f: WindowStateFlags)
    ensures
        f.size,
        f.position,
        f.maximized,
        !f.visible,
        !f.decorations,
        f.fullscreen,
{
    WindowStateFlags {
        size: true,
        position: true,
        maximized: true,
        visible: false,
        decorations: false,
        fullscreen: true,
    }
}

} // verus!
