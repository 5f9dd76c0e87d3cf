//! Where the player gets its window: the proxy that it is pointed at, and the
//! root window behind it.
use crate::bits;
use crate::platform_abi::WindowDecorations;
use crate::wayland::mpv_proxy::Proxy;
use crate::wayland::window_state::{jfn_wl_scale_known, jfn_wl_window_maximized, WlWindowState};
use vstd::prelude::*;

verus! {

/// The host that runs the proxy of this application.
#[derive(Clone, Copy, Debug, PartialEq, Eq, Structural)]
pub struct WaylandMpvHost;

/// The host that runs an outside proxy.
#[derive(Clone, Copy, Debug, PartialEq, Eq, Structural)]
pub struct WlproxyMpvHost;

/// The code that the root window is told for decorations.
pub open spec fn decoration_code(decorations: WindowDecorations) -> u32 {
    match decorations {
        WindowDecorations::Csd => 1,
        WindowDecorations::Server => 2,
        WindowDecorations::ServerThemed => 3,
    }
}

/// What is done with a proxy that was started.
#[derive(Debug)]
pub enum HostStart {
    /// It did not start: go on without.
    NoProxy,
    /// It has no display name: stop it and go on without.
    Abort,
    /// Tell the root window the code of the decorations, point the player at
    /// the display of this name, and keep the proxy.
    Ready { deco_mode: u32, display: String },
}

fn host_start(started: bool, name: Option<&str>, decorations: WindowDecorations) -> (r: HostStart)
    ensures
        match r {
            HostStart::NoProxy => !started,
            HostStart::Abort => started && (name matches Some(n) ==> n@.len() == 0),
            HostStart::Ready { deco_mode, display } => started && deco_mode == decoration_code(
                decorations,
            ) && (name matches Some(n) && n@.len() > 0 && display@ == n@),
        },
{
    if !started {
        return HostStart::NoProxy;
    }
    let n = match name {
        Some(n) => n,
        None => return HostStart::Abort,
    };
    if n.is_empty() {
        return HostStart::Abort;
    }
    let deco_mode: u32 = match decorations {
        WindowDecorations::Csd => 1,
        WindowDecorations::Server => 2,
        WindowDecorations::ServerThemed => 3,
    };
    HostStart::Ready { deco_mode, display: n.to_owned() }
}

impl WaylandMpvHost {
    /// What is done with the proxy, from whether it started and the name of
    /// its display.
    pub fn prepare(&self, proxy: Option<&Proxy>, decorations: WindowDecorations) -> (r: HostStart)
        ensures
            match r {
                HostStart::NoProxy => proxy is None,
                HostStart::Abort => proxy matches Some(p) && p.display_name@.len() == 0,
                HostStart::Ready { deco_mode, display } => proxy matches Some(p)
                    && p.display_name@.len() > 0 && display@ == p.display_name@ && deco_mode
                    == decoration_code(decorations),
            },
    {
        match proxy {
            Some(p) => host_start(true, Some(p.display_name.as_str()), decorations),
            None => host_start(false, None, decorations),
        }
    }

    /// Whether the window is far enough for the player: its scale is known.
    pub fn host_ready(&self, st: &WlWindowState) -> (r: bool)
        ensures
            r == bits::is_positive_f32(st.scale_bits),
    {
        jfn_wl_scale_known(st)
    }

    /// Whether the window is maximized.
    pub fn window_maximized(&self, st: &WlWindowState) -> (r: Option<bool>)
        ensures
            r == Some(st.maximized),
    {
        Some(jfn_wl_window_maximized(st))
    }
}

impl WlproxyMpvHost {
    /// What is done with the proxy, from whether it started and the name of
    /// its display, where it has one.
    pub fn prepare(&self, started: bool, name: Option<&str>, decorations: WindowDecorations) -> (r:
        HostStart)
        ensures
            match r {
                HostStart::NoProxy => !started,
                HostStart::Abort => started && (name matches Some(n) ==> n@.len() == 0),
                HostStart::Ready { deco_mode, display } => started && deco_mode == decoration_code(
                    decorations,
                ) && (name matches Some(n) && n@.len() > 0 && display@ == n@),
            },
    {
        host_start(started, name, decorations)
    }

    /// Whether the window is far enough for the player: its scale is known.
    pub fn host_ready(&self, st: &WlWindowState) -> (r: bool)
        ensures
            r == bits::is_positive_f32(st.scale_bits),
    {
        jfn_wl_scale_known(st)
    }

    /// Whether the window is maximized.
    pub fn window_maximized(&self, st: &WlWindowState) -> (r: Option<bool>)
        ensures
            r == Some(st.maximized),
    {
        Some(jfn_wl_window_maximized(st))
    }
}

/// The display of the application's own connection: made once from the
/// descriptor that the proxy published. Zero stands for none.
#[derive(Clone, Copy, Debug, PartialEq, Eq, Structural)]
pub enum AppDisplay {
    /// No connection was tried yet.
    Unknown,
    /// What came of the one that was tried.
    Known(usize),
}

/// What asking for the application's display leads to.
#[derive(Clone, Copy, Debug, PartialEq, Eq, Structural)]
pub enum DisplayStep {
    /// Use this display, none where it is zero.
    Use(usize),
    /// Connect on this descriptor and hand the result to
    /// [`AppDisplay::connected`].
    Connect(i32),
}

/// What asking for the application's display leads to. Nothing is settled
/// before there is a descriptor to connect on and a means to do it.
pub open spec fn display_step(d: AppDisplay, fd: i32, connectable: bool) -> DisplayStep {
    match d {
        AppDisplay::Known(display) => DisplayStep::Use(display),
        AppDisplay::Unknown => if fd < 0 || !connectable {
            DisplayStep::Use(0)
        } else {
            DisplayStep::Connect(fd)
        },
    }
}

/// The application's display once a connection was tried.
pub open spec fn after_connect(d: AppDisplay, display: usize) -> AppDisplay {
    match d {
        AppDisplay::Unknown => AppDisplay::Known(display),
        known => known,
    }
}

impl AppDisplay {
    /// Asks for the application's display. `fd` is the descriptor that the
    /// proxy published, negative where there is none, and `connectable` says
    /// that the means to connect on it are there. While either is missing
    /// there is no display yet, and asking again later may find one. An answer
    /// stands once a connection was tried.
    pub fn app_display(&self, fd: i32, connectable: bool) -> (r: DisplayStep)
        ensures
            r == display_step(*self, fd, connectable),
    {
        match *self {
            AppDisplay::Known(d) => DisplayStep::Use(d),
            AppDisplay::Unknown => {
                if fd < 0 || !connectable {
                    DisplayStep::Use(0)
                } else {
                    DisplayStep::Connect(fd)
                }
            },
        }
    }

    /// Takes in the display that came of a connection, zero where it failed.
    /// A failure stands too: the attempt has used the descriptor up, and there
    /// is no other to try.
    pub fn connected(&mut self, display: usize)
        ensures
            *final(self) == after_connect(*old(self), display),
    {
        if let AppDisplay::Unknown = *self {
            *self = AppDisplay::Known(display);
        }
    }
}

/// Asking before the descriptor is there costs nothing: the first time that it
/// is there it is connected on, and from then on what came of that is the
/// answer, whatever is published later.
pub proof fn law_display_is_polled_for(fd: i32, display: usize, later_fd: i32, later: bool)
    requires
        fd >= 0,
    ensures
        forall|early: i32, means: bool|
            (early < 0 || !means) ==> #[trigger] display_step(AppDisplay::Unknown, early, means)
                == DisplayStep::Use(0),
        display_step(AppDisplay::Unknown, fd, true) == DisplayStep::Connect(fd),
        display_step(after_connect(AppDisplay::Unknown, display), later_fd, later)
            == DisplayStep::Use(display),
{
}

} // verus!
