//! Which display backend is installed.
use crate::platform_abi::DisplayBackend;
use crate::wayland::lifecycle::WlPaintOverride;
use vstd::prelude::*;

verus! {

/// A backend asked for on the command line.
#[derive(Clone, Copy, Debug, PartialEq, Eq, Structural)]
pub enum PlatformArg {
    Wayland,
    X11,
}

/// A way of painting asked for on the command line.
#[derive(Clone, Copy, Debug, PartialEq, Eq, Structural)]
pub enum Paint {
    Dmabuf,
    Gpu,
    Shm,
}

/// A way of painting under X11.
#[derive(Clone, Copy, Debug, PartialEq, Eq, Structural)]
pub enum X11PaintOverride {
    Dmabuf,
    Gpu,
    Shm,
}

/// The operating systems with a backend.
#[derive(Clone, Copy, Debug, PartialEq, Eq, Structural)]
pub enum TargetOs {
    Linux,
    Windows,
    MacOS,
}

/// The backend that is known before the command line is read, on systems
/// that have only one.
pub fn install_early(os: TargetOs) -> (r: Option<DisplayBackend>)
    ensures
        r == match os {
            TargetOs::Linux => None,
            TargetOs::Windows => Some(DisplayBackend::Windows),
            TargetOs::MacOS => Some(DisplayBackend::MacOS),
        },
{
    match os {
        TargetOs::Linux => None,
        TargetOs::Windows => Some(DisplayBackend::Windows),
        TargetOs::MacOS => Some(DisplayBackend::MacOS),
    }
}

/// The backend on Linux: the one asked for, else the session's, Wayland
/// where both or neither is there.
pub open spec fn linux_backend(
    asked: Option<PlatformArg>,
    has_wayland: bool,
    has_display: bool,
) -> DisplayBackend {
    match asked {
        Some(PlatformArg::Wayland) => DisplayBackend::Wayland,
        Some(PlatformArg::X11) => DisplayBackend::X11,
        None => if has_wayland || !has_display {
            DisplayBackend::Wayland
        } else {
            DisplayBackend::X11
        },
    }
}

/// The way of painting that a backend is told.
#[derive(Clone, Copy, Debug, PartialEq, Eq, Structural)]
pub enum PaintOverride {
    Nothing,
    Wayland(WlPaintOverride),
    X11(X11PaintOverride),
}

/// The way of painting that a backend is told.
pub open spec fn override_for(backend: DisplayBackend, paint: Option<Paint>) -> PaintOverride {
    match (backend, paint) {
        (DisplayBackend::Wayland, Some(Paint::Dmabuf)) => PaintOverride::Wayland(
            WlPaintOverride::Dmabuf,
        ),
        (DisplayBackend::Wayland, Some(Paint::Gpu)) => PaintOverride::Wayland(
            WlPaintOverride::Gpu,
        ),
        (DisplayBackend::Wayland, Some(Paint::Shm)) => PaintOverride::Wayland(
            WlPaintOverride::Shm,
        ),
        (DisplayBackend::X11, Some(Paint::Dmabuf)) => PaintOverride::X11(X11PaintOverride::Dmabuf),
        (DisplayBackend::X11, Some(Paint::Gpu)) => PaintOverride::X11(X11PaintOverride::Gpu),
        (DisplayBackend::X11, Some(Paint::Shm)) => PaintOverride::X11(X11PaintOverride::Shm),
        _ => PaintOverride::Nothing,
    }
}

/// The backend on Linux and the way of painting it is told, from the command
/// line and the session's environment.
pub fn install_from_cli(
    asked: Option<PlatformArg>,
    paint: Option<Paint>,
    has_wayland: bool,
    has_display: bool,
) -> (r: (DisplayBackend, PaintOverride))
    ensures
        r.0 == linux_backend(asked, has_wayland, has_display),
        r.1 == override_for(r.0, paint),
{
    let backend = match asked {
        Some(PlatformArg::Wayland) => DisplayBackend::Wayland,
        Some(PlatformArg::X11) => DisplayBackend::X11,
        None => if has_wayland || !has_display {
            DisplayBackend::Wayland
        } else {
            DisplayBackend::X11
        },
    };
    let told = match paint {
        None => PaintOverride::Nothing,
        Some(p) => match backend {
            DisplayBackend::Wayland => PaintOverride::Wayland(
                match p {
                    Paint::Dmabuf => WlPaintOverride::Dmabuf,
                    Paint::Gpu => WlPaintOverride::Gpu,
                    Paint::Shm => WlPaintOverride::Shm,
                },
            ),
            DisplayBackend::X11 => PaintOverride::X11(
                match p {
                    Paint::Dmabuf => X11PaintOverride::Dmabuf,
                    Paint::Gpu => X11PaintOverride::Gpu,
                    Paint::Shm => X11PaintOverride::Shm,
                },
            ),
            _ => PaintOverride::Nothing,
        },
    };
    (backend, told)
}

/// Only Wayland and X11 are ever chosen on Linux.
pub proof fn law_linux_has_two_backends(
    asked: Option<PlatformArg>,
    has_wayland: bool,
    has_display: bool,
)
    ensures
        linux_backend(asked, has_wayland, has_display) == DisplayBackend::Wayland || linux_backend(
            asked,
            has_wayland,
            has_display,
        ) == DisplayBackend::X11,
{
}

/// The name of a backend in the log.
pub fn backend_name(backend: DisplayBackend) -> (r: &'static str)
    ensures
        r@ == if backend == DisplayBackend::Wayland {
            "wayland"@
        } else {
            "x11"@
        },
{
    if backend == DisplayBackend::Wayland {
        "wayland"
    } else {
        "x11"
    }
}

} // verus!
