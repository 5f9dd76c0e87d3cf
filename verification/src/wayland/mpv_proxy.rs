//! Proxy between the player and the compositor.
//!
//! The player connects here instead of to the compositor. Messages go through
//! in both directions, but for the player's shell: its window is never made.
//! Its surface becomes a subsurface at the bottom of the application's root,
//! and the sizes that it is told are the application's.
use vstd::prelude::*;

verus! {

/// What the threads of the proxy share.
#[derive(Clone, Copy, Debug, PartialEq, Eq, Structural)]
pub struct ProxyShared {
    pub cur_w: i32,
    pub cur_h: i32,
    /// Counts the sizes that were set.
    pub size_generation: u32,
    /// Wire id of the player's video surface, zero while unknown.
    pub video_surface_id: u32,
    /// Descriptor of the application's connection, minus one while unknown.
    pub app_client_fd: i32,
    pub initial_w: i32,
    pub initial_h: i32,
}

/// Nothing was told the proxy yet.
pub open spec fn fresh_shared() -> ProxyShared {
    ProxyShared {
        cur_w: 0,
        cur_h: 0,
        size_generation: 0,
        video_surface_id: 0,
        app_client_fd: (-1) as i32,
        initial_w: 1280,
        initial_h: 720,
    }
}

impl Default for ProxyShared {
    fn default() -> (r: Self)
        ensures
            r == fresh_shared(),
    {
        ProxyShared {
            cur_w: 0,
            cur_h: 0,
            size_generation: 0,
            video_surface_id: 0,
            app_client_fd: -1,
            initial_w: 1280,
            initial_h: 720,
        }
    }
}

/// The descriptor of the application's connection, minus one while unknown.
pub fn app_client_fd(sh: &ProxyShared) -> (r: i32)
    ensures
        r == sh.app_client_fd,
{
    sh.app_client_fd
}

/// Sets the size that the player is told first, where both extents are
/// positive.
pub fn set_initial_size(sh: &mut ProxyShared, w: i32, h: i32)
    ensures
        *final(sh) == if w > 0 && h > 0 {
            ProxyShared { initial_w: w, initial_h: h, ..*old(sh) }
        } else {
            *old(sh)
        },
{
    if w > 0 && h > 0 {
        sh.initial_w = w;
        sh.initial_h = h;
    }
}

/// The count after one.
pub open spec fn counted(n: u32) -> u32 {
    if n == u32::MAX {
        0
    } else {
        (n + 1) as u32
    }
}

fn count(n: u32) -> (r: u32)
    ensures
        r == counted(n),
{
    if n == u32::MAX {
        0
    } else {
        n + 1
    }
}

/// What is shared once a size was set.
pub open spec fn resized(sh: ProxyShared, w: i32, h: i32) -> ProxyShared {
    if w > 0 && h > 0 {
        ProxyShared { cur_w: w, cur_h: h, size_generation: counted(sh.size_generation), ..sh }
    } else {
        sh
    }
}

/// Sets the size that the player is to have, where both extents are positive.
pub fn set_window_size(sh: &mut ProxyShared, w: i32, h: i32)
    ensures
        *final(sh) == resized(*old(sh), w, h),
{
    if w > 0 && h > 0 {
        sh.cur_w = w;
        sh.cur_h = h;
        sh.size_generation = count(sh.size_generation);
    }
}

/// What one thread of the proxy knows of the objects that pass through it.
#[derive(Clone, Copy, Debug, PartialEq, Eq, Structural)]
pub struct Shell {
    pub has_display: bool,
    pub has_compositor: bool,
    pub has_subcompositor: bool,
    pub has_wm_base: bool,
    pub globals_ready: bool,
    pub roundtrip_started: bool,
    /// The application's root surface.
    pub has_host_root: bool,
    pub spliced: bool,
    pub has_mpv_client: bool,
    pub has_mpv_xdg_surface: bool,
    pub has_mpv_toplevel: bool,
    pub cur_w: i32,
    pub cur_h: i32,
    pub serial: u32,
}

/// Nothing passed through yet.
pub open spec fn fresh_shell() -> Shell {
    Shell {
        has_display: false,
        has_compositor: false,
        has_subcompositor: false,
        has_wm_base: false,
        globals_ready: false,
        roundtrip_started: false,
        has_host_root: false,
        spliced: false,
        has_mpv_client: false,
        has_mpv_xdg_surface: false,
        has_mpv_toplevel: false,
        cur_w: 0,
        cur_h: 0,
        serial: 0,
    }
}

/// A configure made up for the player: the size for its toplevel, where it
/// has one, then the serial for its surface, where it has one.
#[derive(Clone, Copy, Debug, PartialEq, Eq, Structural)]
pub struct SynthConfigure {
    pub toplevel: bool,
    pub w: i32,
    pub h: i32,
    pub xdg_surface: bool,
    pub serial: u32,
}

/// The configure that is made up for a size.
pub open spec fn configure_for(sh: Shell, w: i32, h: i32) -> SynthConfigure {
    SynthConfigure {
        toplevel: sh.has_mpv_toplevel,
        w,
        h,
        xdg_surface: sh.has_mpv_xdg_surface,
        serial: counted(sh.serial),
    }
}

/// The configure that tells the player a size that was set since `seen`.
pub open spec fn told(sh: Shell, shared: ProxyShared, seen: u32) -> Option<SynthConfigure> {
    if shared.size_generation == seen || !sh.has_mpv_toplevel {
        None
    } else {
        Some(configure_for(sh, at_least_one(shared.cur_w), at_least_one(shared.cur_h)))
    }
}

/// An extent, at least one.
pub open spec fn at_least_one(n: i32) -> i32 {
    if n < 1 {
        1
    } else {
        n
    }
}

impl Shell {
    /// Nothing passed through yet.
    pub fn new() -> (r: Self)
        ensures
            r == fresh_shell(),
    {
        Shell {
            has_display: false,
            has_compositor: false,
            has_subcompositor: false,
            has_wm_base: false,
            globals_ready: false,
            roundtrip_started: false,
            has_host_root: false,
            spliced: false,
            has_mpv_client: false,
            has_mpv_xdg_surface: false,
            has_mpv_toplevel: false,
            cur_w: 0,
            cur_h: 0,
            serial: 0,
        }
    }

    /// The next serial; they wrap around.
    pub fn next_serial(&mut self) -> (r: u32)
        ensures
            r == counted(old(self).serial),
            *final(self) == (Shell { serial: r, ..*old(self) }),
    {
        self.serial = count(self.serial);
        self.serial
    }

    /// Makes up a configure for the player.
    pub fn synth_mpv_configure(&mut self, w: i32, h: i32) -> (r: SynthConfigure)
        ensures
            r == configure_for(*old(self), w, h),
            *final(self) == (Shell { serial: r.serial, ..*old(self) }),
    {
        let serial = self.next_serial();
        SynthConfigure {
            toplevel: self.has_mpv_toplevel,
            w,
            h,
            xdg_surface: self.has_mpv_xdg_surface,
            serial,
        }
    }

    /// Notes the display that a registry was first asked of.
    pub fn see_display(&mut self)
        ensures
            *final(self) == (Shell { has_display: true, ..*old(self) }),
    {
        self.has_display = true;
    }

    /// Notes the application's root surface.
    pub fn see_host_root(&mut self)
        ensures
            *final(self) == (Shell { has_host_root: true, ..*old(self) }),
    {
        self.has_host_root = true;
    }

    /// The player asked for a shell surface: it is kept from the compositor.
    /// `server_id` is the wire id of its surface there, if it has one, by
    /// which the other side of the proxy finds it.
    pub fn mpv_xdg_surface(&mut self, shared: &mut ProxyShared, server_id: Option<u32>)
        ensures
            *final(self) == (Shell { has_mpv_xdg_surface: true, ..*old(self) }),
            *final(shared) == match server_id {
                Some(id) => ProxyShared { video_surface_id: id, ..*old(shared) },
                None => *old(shared),
            },
    {
        if let Some(id) = server_id {
            shared.video_surface_id = id;
        }
        self.has_mpv_xdg_surface = true;
    }

    /// The player asked for a toplevel: it is kept from the compositor, and
    /// told a size at once, so that it has one before it sizes its viewports.
    pub fn mpv_toplevel(&mut self, shared: &ProxyShared) -> (r: SynthConfigure)
        ensures
            ({
                let known = old(self).cur_w != 0 && old(self).cur_h != 0;
                let w = if known {
                    old(self).cur_w
                } else {
                    shared.initial_w
                };
                let h = if known {
                    old(self).cur_h
                } else {
                    shared.initial_h
                };
                let with = Shell { has_mpv_toplevel: true, cur_w: w, cur_h: h, ..*old(self) };
                &&& r == configure_for(with, w, h)
                &&& *final(self) == (Shell { serial: r.serial, ..with })
            }),
    {
        self.has_mpv_toplevel = true;
        if self.cur_w == 0 || self.cur_h == 0 {
            self.cur_w = shared.initial_w;
            self.cur_h = shared.initial_h;
        }
        let (w, h) = (self.cur_w, self.cur_h);
        self.synth_mpv_configure(w, h)
    }

    /// Tells the player a size that was set since `seen`, once it has a
    /// toplevel.
    pub fn apply_window_size_mpv(&mut self, shared: &ProxyShared, seen: &mut u32) -> (r: Option<
        SynthConfigure,
    >)
        ensures
            r == told(*old(self), *shared, *old(seen)),
            match r {
                None => *final(self) == *old(self) && *final(seen) == *old(seen),
                Some(c) => *final(seen) == shared.size_generation && *final(self) == (Shell {
                    cur_w: c.w,
                    cur_h: c.h,
                    serial: c.serial,
                    ..*old(self)
                }),
            },
    {
        if shared.size_generation == *seen {
            return None;
        }
        if !self.has_mpv_toplevel {
            return None;
        }
        *seen = shared.size_generation;
        let w = if shared.cur_w < 1 {
            1
        } else {
            shared.cur_w
        };
        let h = if shared.cur_h < 1 {
            1
        } else {
            shared.cur_h
        };
        self.cur_w = w;
        self.cur_h = h;
        Some(self.synth_mpv_configure(w, h))
    }

    /// Whether to ask for the globals now: once, as soon as there is a
    /// display.
    pub fn ensure_root(&mut self) -> (r: bool)
        ensures
            r == (!old(self).roundtrip_started && old(self).has_display),
            *final(self) == (Shell {
                roundtrip_started: old(self).roundtrip_started || old(self).has_display,
                ..*old(self)
            }),
    {
        if self.roundtrip_started || !self.has_display {
            return false;
        }
        self.roundtrip_started = true;
        true
    }

    /// All globals were announced. False where one is missing that the splice
    /// needs.
    pub fn roundtrip_done(&mut self) -> (r: bool)
        ensures
            *final(self) == (Shell { globals_ready: true, ..*old(self) }),
            r == (old(self).has_compositor && old(self).has_subcompositor
                && old(self).has_wm_base),
    {
        self.globals_ready = true;
        self.has_compositor && self.has_subcompositor && self.has_wm_base
    }

    /// Whether to look for the player's surface and splice it in.
    pub fn maybe_build_root(&self) -> (r: bool)
        ensures
            r == (self.globals_ready && !self.spliced && self.has_host_root),
    {
        self.globals_ready && !self.spliced && self.has_host_root
    }

    /// Whether the player's surface can be spliced in: all that it takes is
    /// there, and it was not done yet.
    pub fn can_splice(&self) -> (r: bool)
        ensures
            r == is_spliceable(*self),
    {
        !self.spliced && self.has_compositor && self.has_subcompositor && self.has_host_root
    }

    /// Splices the player's surface in. `role_given` says that it took on
    /// the subsurface role; without that nothing is done, and it is tried
    /// again.
    pub fn splice_mpv_under_host_root(&mut self, role_given: bool) -> (r: Vec<SpliceRequest>)
        ensures
            if is_spliceable(*old(self)) && role_given {
                r@ == splice_requests() && *final(self) == (Shell { spliced: true, ..*old(self) })
            } else {
                r@.len() == 0 && *final(self) == *old(self)
            },
    {
        let mut out: Vec<SpliceRequest> = Vec::new();
        if !self.can_splice() || !role_given {
            return out;
        }
        out.push(SpliceRequest::SetDesync);
        out.push(SpliceRequest::SetPosition);
        out.push(SpliceRequest::PlaceAboveRoot);
        out.push(SpliceRequest::CreateRegion);
        out.push(SpliceRequest::SetInputRegion);
        out.push(SpliceRequest::DestroyRegion);
        out.push(SpliceRequest::CommitRoot);
        self.spliced = true;
        assert(out@ =~= splice_requests());
        out
    }
}

/// Whether the player's surface can be spliced in.
pub open spec fn is_spliceable(sh: Shell) -> bool {
    !sh.spliced && sh.has_compositor && sh.has_subcompositor && sh.has_host_root
}

/// What puts the player's surface at the bottom of the root, in order.
#[derive(Clone, Copy, Debug, PartialEq, Eq, Structural)]
pub enum SpliceRequest {
    SetDesync,
    /// At the upper left corner.
    SetPosition,
    /// Directly above the root, below all other subsurfaces.
    PlaceAboveRoot,
    CreateRegion,
    /// Give the player's surface the empty region, so that it gets no input.
    SetInputRegion,
    DestroyRegion,
    /// The splice takes effect with this commit.
    CommitRoot,
}

/// What puts the player's surface at the bottom of the root.
pub open spec fn splice_requests() -> Seq<SpliceRequest> {
    seq![
        SpliceRequest::SetDesync,
        SpliceRequest::SetPosition,
        SpliceRequest::PlaceAboveRoot,
        SpliceRequest::CreateRegion,
        SpliceRequest::SetInputRegion,
        SpliceRequest::DestroyRegion,
        SpliceRequest::CommitRoot,
    ]
}

/// The first index at which an optional number is `id`.
pub open spec fn index_of_id(ids: Seq<Option<u32>>, id: u32, i: int) -> Option<int>
    decreases ids.len() - i,
{
    if i < 0 || i >= ids.len() {
        None
    } else if ids[i] == Some(id) {
        Some(i)
    } else {
        index_of_id(ids, id, i + 1)
    }
}

/// Finds the player's video surface among the surfaces of its client, which
/// are given by their wire ids there. Same wire object, same id on both
/// sides.
pub fn find_mpv_surface(shared: &ProxyShared, has_mpv_client: bool, ids: &[Option<u32>]) -> (r:
    Option<usize>)
    ensures
        match r {
            Some(i) => shared.video_surface_id != 0 && has_mpv_client && index_of_id(
                ids@,
                shared.video_surface_id,
                0,
            ) == Some(i as int),
            None => shared.video_surface_id == 0 || !has_mpv_client || index_of_id(
                ids@,
                shared.video_surface_id,
                0,
            ) is None,
        },
{
    let vid = shared.video_surface_id;
    if vid == 0 || !has_mpv_client {
        return None;
    }
    for i in 0..ids.len()
        invariant
            vid == shared.video_surface_id,
            vid != 0,
            has_mpv_client,
            index_of_id(ids@, vid, 0) == index_of_id(ids@, vid, i as int),
    {
        if let Some(id) = ids[i] {
            if id == vid {
                return Some(i);
            }
        }
    }
    None
}

/// Whether a viewport's destination is passed on. One without area would be
/// a protocol error that ends the shared connection; only the form that
/// unsets the destination may be negative.
pub fn forwards_destination(width: i32, height: i32) -> (r: bool)
    ensures
        r == ((width == -1 && height == -1) || (width > 0 && height > 0)),
{
    let unset = width == -1 && height == -1;
    unset || !(width <= 0 || height <= 0)
}

/// The interfaces that the proxy looks at.
#[derive(Clone, Copy, Debug, PartialEq, Eq, Structural)]
pub enum Interface {
    Compositor,
    Subcompositor,
    XdgWmBase,
    FractionalScaleManager,
    Seat,
    Viewporter,
    Other,
}

/// What watches over a bound object.
#[derive(Clone, Copy, Debug, PartialEq, Eq, Structural)]
pub enum Watch {
    /// Nothing.
    Pass,
    /// Captures the application's root.
    AppShell,
    /// Keeps the player's shell from the compositor.
    PlayerShell,
    FractionalScale,
    /// Passes the input devices on.
    ForwardSeat,
    /// Keeps the input devices from the player.
    BlockSeat,
    /// Drops destinations without area.
    Viewports,
}

/// What watches over an object that the application or the player binds.
pub open spec fn watch_for(interface: Interface, player: bool) -> Watch {
    match interface {
        Interface::XdgWmBase => if player {
            Watch::PlayerShell
        } else {
            Watch::AppShell
        },
        Interface::FractionalScaleManager => Watch::FractionalScale,
        Interface::Seat => if player {
            Watch::BlockSeat
        } else {
            Watch::ForwardSeat
        },
        Interface::Viewporter => Watch::Viewports,
        _ => Watch::Pass,
    }
}

/// What watches over an object that is bound.
pub fn handle_bind(interface: Interface, player: bool) -> (r: Watch)
    ensures
        r == watch_for(interface, player),
{
    match interface {
        Interface::XdgWmBase => if player {
            Watch::PlayerShell
        } else {
            Watch::AppShell
        },
        Interface::FractionalScaleManager => Watch::FractionalScale,
        Interface::Seat => if player {
            Watch::BlockSeat
        } else {
            Watch::ForwardSeat
        },
        Interface::Viewporter => Watch::Viewports,
        _ => Watch::Pass,
    }
}

/// The newest version of a global that the proxy itself binds, none where it
/// binds none.
pub open spec fn bound_version(interface: Interface) -> Option<u32> {
    match interface {
        Interface::Compositor => Some(6),
        Interface::Subcompositor => Some(1),
        Interface::XdgWmBase => Some(6),
        _ => None,
    }
}

impl Shell {
    /// A global was announced: the version to bind it in, where the proxy
    /// itself needs it.
    pub fn handle_global(&mut self, interface: Interface, version: u32) -> (r: Option<u32>)
        ensures
            r == match bound_version(interface) {
                Some(newest) => Some(
                    if version < newest {
                        version
                    } else {
                        newest
                    },
                ),
                None => None,
            },
            *final(self) == (Shell {
                has_compositor: old(self).has_compositor || interface == Interface::Compositor,
                has_subcompositor: old(self).has_subcompositor || interface
                    == Interface::Subcompositor,
                has_wm_base: old(self).has_wm_base || interface == Interface::XdgWmBase,
                ..*old(self)
            }),
    {
        let newest: u32 = match interface {
            Interface::Compositor => {
                self.has_compositor = true;
                6
            },
            Interface::Subcompositor => {
                self.has_subcompositor = true;
                1
            },
            Interface::XdgWmBase => {
                self.has_wm_base = true;
                6
            },
            _ => return None,
        };
        Some(
            if version < newest {
                version
            } else {
                newest
            },
        )
    }
}

/// How far the start of the proxy has come.
#[derive(Clone, Copy, Debug, PartialEq, Eq, Structural)]
pub enum StartStage {
    /// The pair of sockets is being made.
    Sockets,
    /// The application's thread is being started.
    AppThread,
    /// The application's thread is to send the descriptor of its connection.
    AppDescriptor,
    /// The player's thread is being started.
    MpvThread,
    /// The player's thread is to send the name of its display.
    DisplayName,
    /// The proxy runs.
    Running,
    /// The proxy could not be started.
    Failed,
}

/// What came of a step of the start.
#[derive(Clone, Copy, Debug, PartialEq, Eq, Structural)]
pub enum StartEvent {
    /// It was done.
    Done,
    /// It was done, and a descriptor came of it.
    Descriptor(i32),
    /// It failed, or the thread ended before it told.
    Failed,
}

/// The stage after a step.
pub open spec fn start_after(stage: StartStage, ev: StartEvent) -> StartStage {
    match (stage, ev) {
        (StartStage::Sockets, StartEvent::Done) => StartStage::AppThread,
        (StartStage::AppThread, StartEvent::Done) => StartStage::AppDescriptor,
        (StartStage::AppDescriptor, StartEvent::Descriptor(_)) => StartStage::MpvThread,
        (StartStage::MpvThread, StartEvent::Done) => StartStage::DisplayName,
        (StartStage::DisplayName, StartEvent::Done) => StartStage::Running,
        (StartStage::Running, _) => StartStage::Running,
        _ => StartStage::Failed,
    }
}

/// One step of the start of the proxy. The descriptor of the application's
/// connection is published as soon as it is known.
pub fn start(shared: &mut ProxyShared, stage: StartStage, ev: StartEvent) -> (r: StartStage)
    ensures
        r == start_after(stage, ev),
        *final(shared) == match (stage, ev) {
            (StartStage::AppDescriptor, StartEvent::Descriptor(fd)) => ProxyShared {
                app_client_fd: fd,
                ..*old(shared)
            },
            _ => *old(shared),
        },
{
    match (stage, ev) {
        (StartStage::Sockets, StartEvent::Done) => StartStage::AppThread,
        (StartStage::AppThread, StartEvent::Done) => StartStage::AppDescriptor,
        (StartStage::AppDescriptor, StartEvent::Descriptor(fd)) => {
            shared.app_client_fd = fd;
            StartStage::MpvThread
        },
        (StartStage::MpvThread, StartEvent::Done) => StartStage::DisplayName,
        (StartStage::DisplayName, StartEvent::Done) => StartStage::Running,
        (StartStage::Running, _) => StartStage::Running,
        _ => StartStage::Failed,
    }
}

/// How far a thread of the proxy has come.
#[derive(Clone, Copy, Debug, PartialEq, Eq, Structural)]
pub enum ThreadStage {
    /// The state of its connection is being built.
    Build,
    /// Its endpoint is being made: the application's client, or the socket
    /// that the player connects to.
    Endpoint,
    /// What came of the endpoint is being sent to the starting thread.
    Publish,
    /// The other side's connection is being added.
    Bridge,
    /// Messages are dispatched.
    Loop,
    /// The thread ends; where `report` is set the starting thread is told
    /// why.
    End { report: bool },
}

/// The stage of a proxy thread after a step that went well or not. Only the
/// application's thread adds a bridge to the player.
pub open spec fn thread_after(stage: ThreadStage, ok: bool, player: bool) -> ThreadStage {
    match stage {
        ThreadStage::Build => if ok {
            ThreadStage::Endpoint
        } else {
            ThreadStage::End { report: true }
        },
        ThreadStage::Endpoint => if ok {
            ThreadStage::Publish
        } else {
            ThreadStage::End { report: true }
        },
        ThreadStage::Publish => if !ok {
            ThreadStage::End { report: false }
        } else if player {
            ThreadStage::Loop
        } else {
            ThreadStage::Bridge
        },
        ThreadStage::Bridge => if ok {
            ThreadStage::Loop
        } else {
            ThreadStage::End { report: false }
        },
        ThreadStage::Loop => if ok {
            ThreadStage::Loop
        } else {
            ThreadStage::End { report: false }
        },
        ThreadStage::End { report } => ThreadStage::End { report },
    }
}

/// One step of a thread of the proxy.
pub fn run_state(stage: ThreadStage, ok: bool, player: bool) -> (r: ThreadStage)
    ensures
        r == thread_after(stage, ok, player),
{
    match stage {
        ThreadStage::Build => if ok {
            ThreadStage::Endpoint
        } else {
            ThreadStage::End { report: true }
        },
        ThreadStage::Endpoint => if ok {
            ThreadStage::Publish
        } else {
            ThreadStage::End { report: true }
        },
        ThreadStage::Publish => if !ok {
            ThreadStage::End { report: false }
        } else if player {
            ThreadStage::Loop
        } else {
            ThreadStage::Bridge
        },
        ThreadStage::Bridge => if ok {
            ThreadStage::Loop
        } else {
            ThreadStage::End { report: false }
        },
        ThreadStage::Loop => if ok {
            ThreadStage::Loop
        } else {
            ThreadStage::End { report: false }
        },
        ThreadStage::End { report } => ThreadStage::End { report },
    }
}

/// A proxy that runs: the name of the display that the player connects to.
#[derive(Debug)]
pub struct Proxy {
    pub display_name: String,
}

/// The name of the display that the player connects to; none without a
/// proxy.
pub fn display_name(p: Option<&Proxy>) -> (r: Option<&str>)
    ensures
        match r {
            Some(n) => p matches Some(q) && n@ == q.display_name@,
            None => p is None,
        },
{
    match p {
        Some(q) => Some(q.display_name.as_str()),
        None => None,
    }
}

/// Drops the proxy, if there is one. Its threads end with the process.
pub fn stop(p: &mut Option<Proxy>)
    ensures
        *final(p) is None,
{
    *p = None;
}

/// The player's surface is spliced in once at most.
pub proof fn law_splice_happens_once(sh: Shell)
    ensures
        !is_spliceable(Shell { spliced: true, ..sh }),
{
}

/// The player gets no input devices: its seat is blocked whatever it binds
/// besides, and its shell never reaches the compositor.
pub proof fn law_player_is_kept_apart(interface: Interface)
    ensures
        watch_for(interface, true) != Watch::ForwardSeat,
        watch_for(interface, true) != Watch::AppShell,
        interface == Interface::Seat ==> watch_for(interface, true) == Watch::BlockSeat,
        interface == Interface::XdgWmBase ==> watch_for(interface, true) == Watch::PlayerShell,
{
}

/// A size that is set is told the player, exactly, as soon as it has a
/// toplevel, and only once.
pub proof fn law_new_size_is_told(sh: Shell, shared: ProxyShared, w: i32, h: i32)
    requires
        w > 0,
        h > 0,
    ensures
        ({
            let now = resized(shared, w, h);
            &&& sh.has_mpv_toplevel ==> told(sh, now, shared.size_generation) == Some(
                configure_for(sh, w, h),
            )
            &&& told(sh, now, now.size_generation) is None
        }),
{
}

} // verus!
