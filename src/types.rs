//! Small value types shared by the window, the overlay and the media controls.
use vstd::prelude::*;

verus! {

/// The overlay's initial viewport, in logical pixels.
#[derive(Debug)]
pub struct Viewport {
    pub width: i32,
    pub height: i32,
    pub scale_factor: i32,
}

impl Default for Viewport {
    fn default() -> (r: Viewport)
        ensures
            r.width == 1700,
            r.height == 1004,
            r.scale_factor == 1,
    {
        Viewport { width: 1700, height: 1004, scale_factor: 1 }
    }
}

#[derive(Debug, Clone, Copy, PartialEq, Eq, Structural)]
pub enum Cursor {
    Default,
    Pointer,
    Text,
    Move,
    ZoomIn,
    ZoomOut,
    Wait,
    Hidden,
}

#[derive(Debug, Default, Clone, Copy, PartialEq, Eq, Structural)]
pub struct MousePosition(pub i32, pub i32);

#[derive(Debug, Clone, Copy, PartialEq, Eq, Structural)]
pub struct WindowSize(pub i32, pub i32);

/// Which part of the media-control state changed.
#[derive(Clone, Copy, Debug, PartialEq, Eq, Structural)]
pub enum MprisStateUpdate {
    PlaybackStatus,
    Metadata,
}

/// The argument of the overlay's window-visibility request.
#[derive(Debug, Clone, Copy, PartialEq, Eq, Structural)]
pub struct IpcMessageRequestWinSetVisilibty {
    pub fullscreen: bool,
}

} // verus!
