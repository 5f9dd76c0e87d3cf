//! Plain values shared with the platform backends.
use vstd::prelude::*;

verus! {

/// The windowing system a backend talks to.
#[derive(Clone, Copy, Debug, PartialEq, Eq, Structural)]
pub enum DisplayBackend {
    Wayland,
    X11,
    Windows,
    MacOS,
}

/// Who draws the window's title bar.
#[derive(Clone, Copy, Debug, PartialEq, Eq, Structural)]
pub enum WindowDecorations {
    Csd,
    Server,
    ServerThemed,
}

/// How strongly the session is kept from going idle.
#[derive(Clone, Copy, Debug, PartialEq, Eq, Structural)]
pub enum IdleInhibitLevel {
    Off,
    System,
    Display,
}

/// Opaque name of a platform surface; zero names none.
#[derive(Clone, Copy, Debug, PartialEq, Eq, Structural)]
pub struct SurfaceHandle(pub usize);

/// A size in device pixels.
#[derive(Clone, Copy, Debug, PartialEq, Eq, Structural)]
pub struct PhysicalSize {
    pub w: i32,
    pub h: i32,
}

/// A rectangle in device pixels.
#[derive(Clone, Copy, Debug, PartialEq, Eq, Structural)]
pub struct JfnRect {
    pub x: i32,
    pub y: i32,
    pub w: i32,
    pub h: i32,
}

} // verus!
