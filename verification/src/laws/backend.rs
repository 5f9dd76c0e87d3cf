//! The display backend: which one, how it starts and ends, and what it does for
//! the title bar, the player and drop-down lists.
use crate::dropdown;
use crate::dropdown::DropdownStyle;
use crate::platform_abi::{DisplayBackend, WindowDecorations};
use crate::platform_install;
use crate::platform_install::{Paint, PaintOverride, PlatformArg, TargetOs, X11PaintOverride};
use crate::text;
use crate::wayland::kde_palette;
use crate::wayland::kde_palette::PaletteState;
use crate::wayland::lifecycle;
use crate::wayland::lifecycle::{Action, CleanupAction, Event, Stage, WlPaintOverride};
use crate::wayland::mpv_host::{AppDisplay, DisplayStep, HostStart, WaylandMpvHost, WlproxyMpvHost};
use crate::wayland::mpv_proxy::Proxy;
use crate::wayland::window_state;
use crate::wayland::window_state::WlWindowState;
use vstd::prelude::*;
use vstd::string::*;

verus! {

/// Who draws drop-down lists: the backend under Wayland and on the Mac, the
/// page under X11, the browser on Windows.
pub proof fn law_lists_are_drawn_by(b: DisplayBackend, r: DropdownStyle)
    requires
        call_ensures(dropdown::dropdown_style, (b,), r),
    ensures
        r == DropdownStyle::PlatformMenu <==> b == DisplayBackend::Wayland || b
            == DisplayBackend::MacOS,
        r == DropdownStyle::JsMenu <==> b == DisplayBackend::X11,
        r == DropdownStyle::Composited <==> b == DisplayBackend::Windows,
{
}

/// Systems with one backend have it at once; on Linux the command line is read
/// first.
pub proof fn law_only_linux_has_a_choice(os: TargetOs, r: Option<DisplayBackend>)
    requires
        call_ensures(platform_install::install_early, (os,), r),
    ensures
        r is None <==> os == TargetOs::Linux,
        os == TargetOs::Windows ==> r == Some(DisplayBackend::Windows),
        os == TargetOs::MacOS ==> r == Some(DisplayBackend::MacOS),
{
}

/// On Linux a backend that is asked for is installed whatever the session has;
/// else X11 only where the session has that alone.
pub proof fn law_asked_backend_is_installed(
    asked: Option<PlatformArg>,
    paint: Option<Paint>,
    has_wayland: bool,
    has_display: bool,
    r: (DisplayBackend, PaintOverride),
    name: &'static str,
)
    requires
        call_ensures(
            platform_install::install_from_cli,
            (asked, paint, has_wayland, has_display),
            r,
        ),
        call_ensures(platform_install::backend_name, (r.0,), name),
    ensures
        r.0 == DisplayBackend::Wayland || r.0 == DisplayBackend::X11,
        asked == Some(PlatformArg::Wayland) ==> r.0 == DisplayBackend::Wayland,
        asked == Some(PlatformArg::X11) ==> r.0 == DisplayBackend::X11,
        asked is None ==> (r.0 == DisplayBackend::X11 <==> has_display && !has_wayland),
        r.0 == DisplayBackend::Wayland ==> name@ == "wayland"@,
        r.0 == DisplayBackend::X11 ==> name@ == "x11"@,
{
}

/// The way of painting that is asked for is told the backend that is installed,
/// and nothing is told where none is asked for.
pub proof fn law_asked_paint_is_told(
    asked: Option<PlatformArg>,
    paint: Option<Paint>,
    has_wayland: bool,
    has_display: bool,
    r: (DisplayBackend, PaintOverride),
)
    requires
        call_ensures(
            platform_install::install_from_cli,
            (asked, paint, has_wayland, has_display),
            r,
        ),
    ensures
        paint is None <==> r.1 == PaintOverride::Nothing,
        r.1 is Wayland ==> r.0 == DisplayBackend::Wayland,
        r.1 is X11 ==> r.0 == DisplayBackend::X11,
        r.1 matches PaintOverride::Wayland(p) ==> {
            &&& paint == Some(Paint::Dmabuf) <==> p == WlPaintOverride::Dmabuf
            &&& paint == Some(Paint::Gpu) <==> p == WlPaintOverride::Gpu
            &&& paint == Some(Paint::Shm) <==> p == WlPaintOverride::Shm
        },
        r.1 matches PaintOverride::X11(p) ==> {
            &&& paint == Some(Paint::Dmabuf) <==> p == X11PaintOverride::Dmabuf
            &&& paint == Some(Paint::Gpu) <==> p == X11PaintOverride::Gpu
            &&& paint == Some(Paint::Shm) <==> p == X11PaintOverride::Shm
        },
{
}

/// The ways of painting have names of their own.
pub proof fn law_ways_of_painting_are_named(mode: WlPaintOverride, r: &'static str)
    requires
        call_ensures(lifecycle::paint_name, (mode,), r),
    ensures
        mode == WlPaintOverride::Dmabuf ==> r@ == "dmabuf"@,
        mode == WlPaintOverride::Gpu ==> r@ == "gpu"@,
        mode == WlPaintOverride::Shm ==> r@ == "shm"@,
{
}

/// The backend starts only with a display and a core state. The input layer is
/// prepared before the core state is made, and the fullscreen state noted as
/// soon as that is there.
pub proof fn law_backend_needs_a_display(
    requested: Option<WlPaintOverride>,
    no_display: (Stage, Vec<Action>),
    display: (Stage, Vec<Action>),
    no_core: (Stage, Vec<Action>),
    core: (Stage, Vec<Action>),
)
    requires
        call_ensures(
            lifecycle::jfn_wl_lifecycle_init,
            (Stage::Begin, Event::Display(false), requested),
            no_display,
        ),
        call_ensures(
            lifecycle::jfn_wl_lifecycle_init,
            (Stage::Begin, Event::Display(true), requested),
            display,
        ),
        call_ensures(
            lifecycle::jfn_wl_lifecycle_init,
            (display.0, Event::Core(false), requested),
            no_core,
        ),
        call_ensures(
            lifecycle::jfn_wl_lifecycle_init,
            (display.0, Event::Core(true), requested),
            core,
        ),
    ensures
        no_display.0 == Stage::Failed && no_display.1@.len() == 0,
        display.0 == Stage::Core && display.1@.len() == 2 && display.1@[0] == Action::InputInit
            && display.1@[1] == Action::CoreInit,
        no_core.0 == Stage::Failed && no_core.1@.len() == 0,
        core.0 != Stage::Failed && core.1@[0] == Action::SeedFullscreen,
{
}

/// The way of painting that comes of what was asked for, of the probe and of
/// the GPU: shared memory where it was asked for; shared textures where they
/// were asked for, or nothing was, and the probe finds them; else the GPU where
/// it can be set up; else shared memory.
pub open spec fn comes_to(
    requested: Option<WlPaintOverride>,
    probe: bool,
    gpu: bool,
) -> WlPaintOverride {
    if requested == Some(WlPaintOverride::Shm) {
        WlPaintOverride::Shm
    } else if requested != Some(WlPaintOverride::Gpu) && probe {
        WlPaintOverride::Dmabuf
    } else if gpu {
        WlPaintOverride::Gpu
    } else {
        WlPaintOverride::Shm
    }
}

/// The actions of three steps, one after the other.
pub open spec fn all_of(a: Vec<Action>, b: Vec<Action>, c: Vec<Action>) -> Seq<Action> {
    a@ + b@ + c@
}

/// Whatever the probe and the GPU come to, the start gets to the clipboard,
/// painting in the way that they allow: the GPU is installed, shared textures
/// are given up and a warning is given exactly where that way asks for it.
pub proof fn law_painting_always_works(
    requested: Option<WlPaintOverride>,
    probe: bool,
    gpu: bool,
    a: (Stage, Vec<Action>),
    b: (Stage, Vec<Action>),
    c: (Stage, Vec<Action>),
)
    requires
        call_ensures(
            lifecycle::jfn_wl_lifecycle_init,
            (Stage::Core, Event::Core(true), requested),
            a,
        ),
        call_ensures(
            lifecycle::jfn_wl_lifecycle_init,
            (a.0, Event::Probe(probe), requested),
            b,
        ),
        call_ensures(lifecycle::jfn_wl_lifecycle_init, (b.0, Event::Gpu(gpu), requested), c),
    ensures
        c.0 == Stage::Clipboard,
        ({
            let all = all_of(a.1, b.1, c.1);
            let way = comes_to(requested, probe, gpu);
            &&& all.contains(Action::InstallGpuPaint) == (way == WlPaintOverride::Gpu)
            &&& all.contains(Action::SharedTextureUnsupported) == (way != WlPaintOverride::Dmabuf)
            &&& requested matches Some(req) ==> all.contains(
                Action::Warn { requested: req, resolved: way },
            ) == (req != way)
        }),
{
    lifecycle::law_paint_falls_back(requested, probe, gpu);
    assert(lifecycle::next_stage(Stage::Begin, Event::Display(true), requested) == Stage::Core);
    assert(lifecycle::resolved_paint(requested, probe, gpu) == comes_to(requested, probe, gpu));
    assert(a.1@ + b.1@ + c.1@ == lifecycle::actions(Stage::Core, Event::Core(true), requested)
        + lifecycle::actions(a.0, Event::Probe(probe), requested) + lifecycle::actions(
        b.0,
        Event::Gpu(gpu),
        requested,
    ));
}

/// What is asked for is tried: shared textures are probed for unless another
/// way was asked for, and the GPU is tried where it was asked for or the probe
/// finds nothing.
pub proof fn law_asked_way_is_tried(
    requested: Option<WlPaintOverride>,
    a: (Stage, Vec<Action>),
    p: (Stage, Vec<Action>),
)
    requires
        call_ensures(
            lifecycle::jfn_wl_lifecycle_init,
            (Stage::Core, Event::Core(true), requested),
            a,
        ),
        call_ensures(
            lifecycle::jfn_wl_lifecycle_init,
            (Stage::Probe, Event::Probe(false), requested),
            p,
        ),
    ensures
        a.1@.last() == Action::ProbeDmabuf <==> requested is None || requested == Some(
            WlPaintOverride::Dmabuf,
        ),
        a.1@.last() == Action::TryGpu <==> requested == Some(WlPaintOverride::Gpu),
        a.1@.last() == Action::ClipboardInit <==> requested == Some(WlPaintOverride::Shm),
        p.0 == Stage::Gpu && p.1@.last() == Action::TryGpu,
        a.0 == Stage::Probe <==> a.1@.last() == Action::ProbeDmabuf,
        a.0 == Stage::Gpu <==> a.1@.last() == Action::TryGpu,
{
}

/// Once the way of painting is settled the title bar's colours, the input and
/// the clipboard follow, in this order.
pub proof fn law_input_starts_once_painting_is_settled(
    requested: Option<WlPaintOverride>,
    gpu: bool,
    a: (Stage, Vec<Action>),
    b: (Stage, Vec<Action>),
)
    requires
        call_ensures(
            lifecycle::jfn_wl_lifecycle_init,
            (Stage::Probe, Event::Probe(true), requested),
            a,
        ),
        call_ensures(
            lifecycle::jfn_wl_lifecycle_init,
            (Stage::Gpu, Event::Gpu(gpu), requested),
            b,
        ),
    ensures
        a.0 == Stage::Clipboard && b.0 == Stage::Clipboard,
        ({
            let n = a.1@.len();
            &&& n >= 3 && a.1@[n - 3] == Action::PaletteInit && a.1@[n - 2] == Action::InputStart
            &&& a.1@[n - 1] == Action::ClipboardInit
        }),
        ({
            let n = b.1@.len();
            &&& n >= 3 && b.1@[n - 3] == Action::PaletteInit && b.1@[n - 2] == Action::InputStart
            &&& b.1@[n - 1] == Action::ClipboardInit
        }),
{
    let n = a.1@.len();
    assert(a.1@[n - 3] == Action::PaletteInit);
    let k = b.1@.len();
    assert(b.1@[k - 3] == Action::PaletteInit);
}

/// The backend runs with a clipboard or without one; what does not belong to a
/// stage does nothing.
pub proof fn law_clipboard_is_optional(
    requested: Option<WlPaintOverride>,
    ok: bool,
    r: (Stage, Vec<Action>),
    ev: Event,
    still: (Stage, Vec<Action>),
    failed: (Stage, Vec<Action>),
)
    requires
        call_ensures(
            lifecycle::jfn_wl_lifecycle_init,
            (Stage::Clipboard, Event::Clipboard(ok), requested),
            r,
        ),
        call_ensures(lifecycle::jfn_wl_lifecycle_init, (Stage::Running, ev, requested), still),
        call_ensures(lifecycle::jfn_wl_lifecycle_init, (Stage::Failed, ev, requested), failed),
    ensures
        r.0 == Stage::Running,
        ok ==> r.1@.len() == 0,
        !ok ==> r.1@.len() == 1 && r.1@[0] == Action::ClearClipboardHandler,
        still.0 == Stage::Running && still.1@.len() == 0,
        failed.0 == Stage::Failed && failed.1@.len() == 0,
{
}

/// The backend ends with its input layer last, after the root window, and lets
/// go of the session and the clipboard before.
pub proof fn law_backend_ends_in_order(r: Vec<CleanupAction>)
    requires
        call_ensures(lifecycle::jfn_wl_lifecycle_cleanup, (), r),
    ensures
        r@.len() == 4,
        r@[3] == CleanupAction::Input && r@[2] == CleanupAction::RootWindow,
        r@.contains(CleanupAction::IdleInhibit) && r@.contains(CleanupAction::Clipboard),
        r@[0] == CleanupAction::IdleInhibit,
{
    assert(r@[0] == CleanupAction::IdleInhibit);
    assert(r@[1] == CleanupAction::Clipboard);
}

/// The scheme file of a colour is the template with the colour, in decimal, as
/// both backgrounds, and with foregrounds that are light on a dark colour and
/// dark on a light one.
pub proof fn law_scheme_is_the_filled_template(
    template: &str,
    r: u8,
    g: u8,
    b: u8,
    dark: bool,
    scheme: String,
    red: String,
    green: String,
    blue: String,
    color: &str,
    active: &str,
    inactive: &str,
    t1: String,
    s1: &str,
    t2: String,
    s2: &str,
    t3: String,
    s3: &str,
    t4: String,
)
    requires
        call_ensures(kde_palette::color_scheme, (template, r, g, b, dark), scheme),
        call_ensures(text::decimal_text, (r as u32,), red),
        call_ensures(text::decimal_text, (g as u32,), green),
        call_ensures(text::decimal_text, (b as u32,), blue),
        color@ == red@ + seq![','] + green@ + seq![','] + blue@,
        active@ == if dark {
            "252,252,252"@
        } else {
            "35,38,41"@
        },
        inactive@ == if dark {
            "126,126,126"@
        } else {
            "35,38,41"@
        },
        call_ensures(text::replace_all, (template, "%HEADER_BG%", color), t1),
        s1@ == t1@,
        call_ensures(text::replace_all, (s1, "%INACTIVE_BG%", color), t2),
        s2@ == t2@,
        call_ensures(text::replace_all, (s2, "%ACTIVE_FG%", active), t3),
        s3@ == t3@,
        call_ensures(text::replace_all, (s3, "%INACTIVE_FG%", inactive), t4),
    ensures
        scheme@ == t4@,
{
    assert(color@ =~= kde_palette::triple(r, g, b));
}

/// The directory of the scheme files is the application's below the session's,
/// with one separator between; there is none without a session's directory.
pub proof fn law_schemes_are_below_the_session(
    runtime: &[u8],
    r: Option<Vec<u8>>,
    none: Option<Vec<u8>>,
    k: int,
)
    requires
        call_ensures(kde_palette::make_colors_dir, (Some(runtime),), r),
        call_ensures(kde_palette::make_colors_dir, (None,), none),
    ensures
        none is None,
        r is Some == (runtime@.len() > 0),
        r matches Some(d) ==> {
            let n = runtime@.len();
            &&& 0 <= k < n ==> d@[k] == runtime@[k]
            &&& runtime@.last() == 0x2F ==> d@.skip(n as int) == "jellyfin-desktop".spec_bytes()
            &&& runtime@.last() != 0x2F ==> d@[n as int] == 0x2F && d@.skip(n + 1int)
                == "jellyfin-desktop".spec_bytes()
        },
{
    if let Some(d) = r {
        let n = runtime@.len() as int;
        if runtime@.last() == 0x2F {
            assert(d@.skip(n) =~= "jellyfin-desktop".spec_bytes());
        } else {
            assert(d@.skip(n + 1) =~= "jellyfin-desktop".spec_bytes());
        }
    }
}

/// Support for title bar colours is started once, where there is a directory;
/// no file is in force at first.
pub proof fn law_palette_is_started_once(
    state: &mut Option<PaletteState>,
    dir: Option<Vec<u8>>,
    r: bool,
)
    requires
        call_ensures(kde_palette::jfn_wl_kde_palette_init, (state, dir), r),
    ensures
        r == (*old(state) is Some || dir is Some),
        *final(state) is Some == r,
        *old(state) is Some ==> *final(state) == *old(state),
        *old(state) is None ==> (dir matches Some(d) ==> (*final(state))->0.colors_dir == d
            && (*final(state))->0.current_path is None),
{
}

/// A colour is written to a file of its own in the directory, named after it,
/// unless that file is in force; what is no colour writes nothing.
pub proof fn law_color_has_its_own_file(
    s: PaletteState,
    hex: &str,
    r: Option<Vec<u8>>,
    nowhere: Option<Vec<u8>>,
    nothing: Option<Vec<u8>>,
)
    requires
        call_ensures(kde_palette::jfn_wl_kde_palette_set_color, (&Some(s), Some(hex)), r),
        call_ensures(kde_palette::jfn_wl_kde_palette_set_color, (&None, Some(hex)), nowhere),
        call_ensures(kde_palette::jfn_wl_kde_palette_set_color, (&Some(s), None), nothing),
        s.colors_dir@.len() > 0 && s.colors_dir@.last() != 0x2F,
    ensures
        nowhere is None && nothing is None,
        r matches Some(p) ==> {
            &&& hex.spec_bytes().len() == 7 && hex@[0] == '#'
            &&& p@ == s.colors_dir@ + seq![0x2Fu8] + "JellyfinDesktop-".spec_bytes()
                + hex.spec_bytes().skip(1) + ".colors".spec_bytes()
            &&& s.current_path matches Some(c) ==> c@ != p@
        },
        hex.spec_bytes().len() == 7 && hex@.len() > 0 && hex@[0] == '#' && s.current_path is None
            && !(s.colors_dir@ + seq![0x2Fu8] + "JellyfinDesktop-".spec_bytes()
            + hex.spec_bytes().skip(1) + ".colors".spec_bytes()).contains(0) ==> r is Some,
        hex.spec_bytes().len() != 7 || hex@.len() == 0 || hex@[0] != '#' ==> r is None,
{
    let path = s.colors_dir@ + seq![0x2Fu8] + "JellyfinDesktop-".spec_bytes()
        + hex.spec_bytes().skip(1) + ".colors".spec_bytes();
    assert(kde_palette::joined(s.colors_dir@, kde_palette::scheme_name(hex)) =~= path);
    if kde_palette::has_zero(path) {
        let k = choose|k: int| 0 <= k < path.len() && path[k] == 0;
        assert(path.contains(path[k]));
    }
}

/// A file that was written is in force until the next one is, which hands it
/// back for removal; the same colour again writes nothing; the last file is
/// handed back once the window is gone.
pub proof fn law_files_are_handed_back(
    a: &mut Option<PaletteState>,
    hex: &str,
    path: Vec<u8>,
    before: Option<Vec<u8>>,
    again: Option<Vec<u8>>,
    b: &mut Option<PaletteState>,
    next: Vec<u8>,
    replaced: Option<Vec<u8>>,
    c: &mut Option<PaletteState>,
    last: Option<Vec<u8>>,
    d: &mut Option<PaletteState>,
    nothing: Option<Vec<u8>>,
)
    requires
        *old(a) is Some,
        call_ensures(
            kde_palette::jfn_wl_kde_palette_set_color,
            (&*old(a), Some(hex)),
            Some(path),
        ),
        call_ensures(kde_palette::palette_written, (a, path), before),
        call_ensures(kde_palette::jfn_wl_kde_palette_set_color, (&*final(a), Some(hex)), again),
        *b == *final(a),
        call_ensures(kde_palette::palette_written, (b, next), replaced),
        *c == *final(b),
        call_ensures(kde_palette::jfn_wl_kde_palette_post_window_cleanup, (c,), last),
        *d == *final(c),
        call_ensures(kde_palette::jfn_wl_kde_palette_post_window_cleanup, (d,), nothing),
    ensures
        before == (*old(a))->0.current_path,
        again is None,
        replaced == Some(path),
        last == Some(next),
        nothing is None,
        *final(d) is Some && (*final(d))->0.colors_dir == (*old(a))->0.colors_dir,
{
}

/// The player is pointed at the proxy's display where it has a name, and the
/// root window is told the decorations; without a proxy, or without a name, all
/// goes on without.
pub proof fn law_player_is_pointed_at_the_proxy(
    host: WaylandMpvHost,
    p: Proxy,
    decorations: WindowDecorations,
    r: HostStart,
    none: HostStart,
    other: WlproxyMpvHost,
    started: bool,
    name: &str,
    o: HostStart,
    nameless: HostStart,
)
    requires
        call_ensures(WaylandMpvHost::prepare, (&host, Some(&p), decorations), r),
        call_ensures(WaylandMpvHost::prepare, (&host, None, decorations), none),
        call_ensures(WlproxyMpvHost::prepare, (&other, started, Some(name), decorations), o),
        call_ensures(WlproxyMpvHost::prepare, (&other, started, None, decorations), nameless),
    ensures
        none is NoProxy,
        p.display_name@.len() == 0 ==> r is Abort,
        p.display_name@.len() > 0 ==> r is Ready && r->display@ == p.display_name@,
        r is Ready ==> {
            &&& decorations == WindowDecorations::Csd <==> r->deco_mode == 1
            &&& decorations == WindowDecorations::Server <==> r->deco_mode == 2
            &&& decorations == WindowDecorations::ServerThemed <==> r->deco_mode == 3
        },
        !started ==> o is NoProxy && nameless is NoProxy,
        started ==> nameless is Abort,
        started && name@.len() == 0 ==> o is Abort,
        started && name@.len() > 0 ==> o is Ready && o->display@ == name@,
        o is Ready && r is Ready ==> o->deco_mode == r->deco_mode,
{
}

/// The window is far enough for the player once its scale is known, under
/// either host; it is maximized where the window is.
pub proof fn law_host_waits_for_the_scale(
    host: WaylandMpvHost,
    other: WlproxyMpvHost,
    st: WlWindowState,
    ready: bool,
    other_ready: bool,
    known: bool,
    maximized: Option<bool>,
    other_maximized: Option<bool>,
)
    requires
        call_ensures(WaylandMpvHost::host_ready, (&host, &st), ready),
        call_ensures(WlproxyMpvHost::host_ready, (&other, &st), other_ready),
        call_ensures(window_state::jfn_wl_scale_known, (&st,), known),
        call_ensures(WaylandMpvHost::window_maximized, (&host, &st), maximized),
        call_ensures(WlproxyMpvHost::window_maximized, (&other, &st), other_maximized),
    ensures
        ready == known && other_ready == known,
        known == (0 < st.scale_bits <= 0x7F80_0000),
        maximized == Some(st.maximized) && other_maximized == Some(st.maximized),
{
}

/// The application's display is connected to once, on the first descriptor that
/// is there with the means to use it; what came of that is the answer from then
/// on, and until then there is none.
pub proof fn law_display_is_connected_to_once(
    fd: i32,
    connectable: bool,
    early: DisplayStep,
    a: &mut AppDisplay,
    display: usize,
    later_fd: i32,
    means: bool,
    r: DisplayStep,
    b: &mut AppDisplay,
    other: usize,
    still: DisplayStep,
)
    requires
        *old(a) == AppDisplay::Unknown,
        call_ensures(AppDisplay::app_display, (&*old(a), fd, connectable), early),
        call_ensures(AppDisplay::connected, (a, display), ()),
        call_ensures(AppDisplay::app_display, (&*final(a), later_fd, means), r),
        *b == *final(a),
        call_ensures(AppDisplay::connected, (b, other), ()),
        call_ensures(AppDisplay::app_display, (&*final(b), later_fd, means), still),
    ensures
        fd >= 0 && connectable ==> early == DisplayStep::Connect(fd),
        fd < 0 || !connectable ==> early == DisplayStep::Use(0),
        r == DisplayStep::Use(display),
        still == DisplayStep::Use(display),
{
}

/// A path that holds a zero byte cannot be passed on: nothing is written.
pub proof fn law_path_with_a_zero_is_not_written(
    s: PaletteState,
    hex: &str,
    r: Option<Vec<u8>>,
    k: int,
)
    requires
        call_ensures(kde_palette::jfn_wl_kde_palette_set_color, (&Some(s), Some(hex)), r),
        0 <= k < s.colors_dir@.len(),
        s.colors_dir@[k] == 0,
    ensures
        r is None,
{
    let path = kde_palette::joined(s.colors_dir@, kde_palette::scheme_name(hex));
    assert(path[k] == 0);
}

} // verus!
