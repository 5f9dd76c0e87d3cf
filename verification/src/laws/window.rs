//! The application's own window: what it tells the compositor and the rest of
//! the program.
use crate::wayland::root_window;
use crate::wayland::root_window::{
    BootConfig, PopupRequest, Rgb, RootGlobals, RootRequest, RootStart, RootState, StartError, StartRequest,
    ToplevelRequest, ToplevelStates,
};
use crate::wayland::root_window::{AfterPoll, AfterRead, PollOutcome, ThreadStart};
use vstd::prelude::*;

verus! {

/// Whether `n` is the device extent nearest to a logical one at a scale.
pub open spec fn is_nearest(n: int, extent: int, scale_120: int) -> bool {
    extent * scale_120 - 60 <= 120 * n <= extent * scale_120 + 60
}

/// Whether a logical extent at a scale is representable in device pixels.
pub open spec fn is_scalable(extent: int, scale_120: int) -> bool {
    0 <= extent * scale_120 < 120 * 0x7fff_ffff
}

/// Whether every report of the window in a list has this size and these
/// states.
pub open spec fn reports_only(
    r: Seq<RootRequest>,
    w: i32,
    h: i32,
    fullscreen: bool,
    maximized: bool,
) -> bool {
    forall|i: int|
        0 <= i < r.len() && (#[trigger] r[i]) is FeedWindow ==> {
            &&& r[i]->FeedWindow_w == w && r[i]->FeedWindow_h == h
            &&& r[i]->FeedWindow_fullscreen == fullscreen
            &&& r[i]->FeedWindow_maximized == maximized
        }
}

/// Whether the window is reported in a list.
pub open spec fn reports(r: Seq<RootRequest>) -> bool {
    exists|i: int| 0 <= i < r.len() && (#[trigger] r[i]) is FeedWindow
}

/// Whether every report of the window in a list has the device extents
/// nearest to its logical ones.
pub open spec fn reports_nearest(r: Seq<RootRequest>, scale_120: u32) -> bool {
    forall|i: int|
        0 <= i < r.len() && (#[trigger] r[i]) is FeedWindow ==> {
            &&& is_scalable(r[i]->FeedWindow_w as int, scale_120 as int) ==> is_nearest(
                r[i]->FeedWindow_pw as int,
                r[i]->FeedWindow_w as int,
                scale_120 as int,
            )
            &&& is_scalable(r[i]->FeedWindow_h as int, scale_120 as int) ==> is_nearest(
                r[i]->FeedWindow_ph as int,
                r[i]->FeedWindow_h as int,
                scale_120 as int,
            )
        }
}

/// A size in device pixels is the one nearest to the logical size.
pub proof fn law_device_size_is_nearest(st: RootState, lw: i32, lh: i32, r: (i32, i32))
    requires
        call_ensures(RootState::physical, (&st, lw, lh), r),
    ensures
        is_scalable(lw as int, st.scale_120 as int) ==> is_nearest(
            r.0 as int,
            lw as int,
            st.scale_120 as int,
        ),
        is_scalable(lh as int, st.scale_120 as int) ==> is_nearest(
            r.1 as int,
            lh as int,
            st.scale_120 as int,
        ),
{
}

/// A configure of the surface is acknowledged, and reports a fullscreen window
/// as fullscreen and a maximized one as maximized: exactly the states that the
/// last configure of the toplevel carried. The size is that of the toplevel's
/// configure wherever it has one.
pub proof fn law_configure_reports_the_toplevel(
    a: &mut RootState,
    width: i32,
    height: i32,
    states: ToplevelStates,
    visible: Option<bool>,
    b: &mut RootState,
    serial: u32,
    made: bool,
    r: Vec<RootRequest>,
)
    requires
        call_ensures(RootState::toplevel_configure, (a, width, height, states), visible),
        *b == *final(a),
        call_ensures(RootState::configure, (b, serial, made), r),
    ensures
        reports(r@),
        reports_only(
            r@,
            final(b).cur_w,
            final(b).cur_h,
            states.fullscreen,
            states.maximized,
        ),
        reports_nearest(r@, old(a).scale_120),
        width > 0 ==> final(b).cur_w == width,
        height > 0 ==> final(b).cur_h == height,
        width <= 0 && old(a).cur_w > 0 ==> final(b).cur_w == old(a).cur_w,
        height <= 0 && old(a).cur_h > 0 ==> final(b).cur_h == old(a).cur_h,
        width <= 0 && old(a).cur_w <= 0 && old(a).boot_w > 0 ==> final(b).cur_w == old(a).boot_w,
        height <= 0 && old(a).cur_h <= 0 && old(a).boot_h > 0 ==> final(b).cur_h == old(a).boot_h,
        r@[0] == RootRequest::AckConfigure(serial),
{
    assert(r@[r@.len() - 3] is FeedWindow);
}

/// A configure tells one size alone: the geometry, the background, the proxy
/// and the program all get the one that the window then has. The background is
/// shown where there is one, stretched where there is a viewport.
pub proof fn law_configure_tells_one_size(
    st: &mut RootState,
    serial: u32,
    made: bool,
    r: Vec<RootRequest>,
)
    requires
        call_ensures(RootState::configure, (st, serial, made), r),
    ensures
        ({
            let (w, h) = (final(st).cur_w, final(st).cur_h);
            &&& w >= 1 && h >= 1
            &&& r@.contains(RootRequest::SetWindowGeometry { w, h })
            &&& r@.contains(RootRequest::ProxySize { w, h })
            &&& reports(r@)
            &&& reports_only(r@, w, h, old(st).fullscreen, old(st).maximized)
            &&& forall|i: int|
                0 <= i < r@.len() ==> {
                    &&& (#[trigger] r@[i]) is SetWindowGeometry ==> r@[i]->SetWindowGeometry_w == w
                        && r@[i]->SetWindowGeometry_h == h
                    &&& r@[i] is ProxySize ==> r@[i]->ProxySize_w == w && r@[i]->ProxySize_h == h
                    &&& r@[i] is SetDestination ==> r@[i]->SetDestination_w == w
                        && r@[i]->SetDestination_h == h && old(st).has_viewport
                    &&& r@[i] is AttachBackground ==> old(st).has_bg_buffer || made
                    &&& r@[i] is AckConfigure ==> r@[i] == RootRequest::AckConfigure(serial)
                }
            &&& old(st).has_viewport ==> r@.contains(RootRequest::SetDestination { w, h })
            &&& old(st).has_bg_buffer || made ==> r@.contains(RootRequest::AttachBackground)
                && r@.contains(RootRequest::DamageAll)
            &&& r@.contains(RootRequest::Commit)
            &&& r@.last() == RootRequest::Flush
        }),
        final(st).mapped,
        final(st).has_bg_buffer == (old(st).has_bg_buffer || made),
        final(st).fullscreen == old(st).fullscreen,
        final(st).maximized == old(st).maximized,
        final(st).suspended == old(st).suspended,
        final(st).scale_120 == old(st).scale_120,
        final(st).bg == old(st).bg,
        final(st).has_viewport == old(st).has_viewport,
        final(st).pending_w == old(st).pending_w,
        final(st).pending_h == old(st).pending_h,
        final(st).boot_w == old(st).boot_w,
        final(st).boot_h == old(st).boot_h,
{
    let n = r@.len() as int;
    assert(r@[1] is SetWindowGeometry);
    assert(r@[n - 4] is ProxySize);
    assert(r@[n - 3] is FeedWindow);
    assert(r@[n - 2] == RootRequest::Commit);
    if old(st).has_viewport {
        assert(r@[2] is SetDestination);
    }
    if old(st).has_bg_buffer || made {
        assert(r@[n - 6] is AttachBackground);
        assert(r@[n - 5] is DamageAll);
    }
}

/// A change of scale reports the window again, as large as it was and in the
/// states that the last configure of the toplevel carried, in the device
/// pixels of the new scale; and the scale itself is told.
pub proof fn law_scale_change_reports_the_toplevel(
    a: &mut RootState,
    width: i32,
    height: i32,
    states: ToplevelStates,
    visible: Option<bool>,
    b: &mut RootState,
    scale: u32,
    r: Vec<RootRequest>,
)
    requires
        call_ensures(RootState::toplevel_configure, (a, width, height, states), visible),
        *b == *final(a),
        call_ensures(RootState::preferred_scale, (b, scale), r),
    ensures
        r@[0] == RootRequest::FeedScale(scale as i32),
        reports(r@) == (old(a).cur_w > 0 && old(a).cur_h > 0),
        reports_only(
            r@,
            old(a).cur_w,
            old(a).cur_h,
            states.fullscreen,
            states.maximized,
        ),
        reports_nearest(r@, scale),
        final(b).scale_120 == scale,
        final(b).cur_w == old(a).cur_w,
        final(b).cur_h == old(a).cur_h,
        r@.contains(RootRequest::Commit) == (old(a).cur_w > 0 && old(a).cur_h > 0
            && old(a).mapped),
{
    if old(a).cur_w > 0 && old(a).cur_h > 0 {
        assert(r@[1] is FeedWindow);
        if old(a).mapped {
            assert(r@[2] == RootRequest::Commit);
        }
    }
}

/// A scale that comes after a configure leaves the window as large as that
/// configure made it, and what is reported differs in the device pixels alone.
pub proof fn law_scale_keeps_the_configured_size(
    a: &mut RootState,
    serial: u32,
    made: bool,
    first: Vec<RootRequest>,
    b: &mut RootState,
    scale: u32,
    then: Vec<RootRequest>,
)
    requires
        call_ensures(RootState::configure, (a, serial, made), first),
        *b == *final(a),
        call_ensures(RootState::preferred_scale, (b, scale), then),
    ensures
        reports(then@),
        forall|i: int, j: int|
            0 <= i < first@.len() && 0 <= j < then@.len() && (#[trigger] first@[i]) is FeedWindow
                && (#[trigger] then@[j]) is FeedWindow ==> {
                &&& first@[i]->FeedWindow_w == then@[j]->FeedWindow_w
                &&& first@[i]->FeedWindow_h == then@[j]->FeedWindow_h
                &&& first@[i]->FeedWindow_fullscreen == then@[j]->FeedWindow_fullscreen
                &&& first@[i]->FeedWindow_maximized == then@[j]->FeedWindow_maximized
            },
        then@.contains(RootRequest::Commit),
        final(b).cur_w == final(a).cur_w,
        final(b).cur_h == final(a).cur_h,
        final(b).has_bg_buffer == final(a).has_bg_buffer,
        final(b).bg == final(a).bg,
        final(b).mapped,
{
    assert(then@[1] is FeedWindow);
    assert(then@[2] == RootRequest::Commit);
}

/// A toplevel is told visible exactly when it stops being suspended, told
/// hidden exactly when it starts, and told nothing where that did not change;
/// its size waits for the configure of the surface.
pub proof fn law_suspension_is_told_once(
    st: &mut RootState,
    width: i32,
    height: i32,
    states: ToplevelStates,
    r: Option<bool>,
)
    requires
        call_ensures(RootState::toplevel_configure, (st, width, height, states), r),
    ensures
        r == Some(true) <==> old(st).suspended && !states.suspended,
        r == Some(false) <==> !old(st).suspended && states.suspended,
        final(st).suspended == states.suspended,
        final(st).fullscreen == states.fullscreen,
        final(st).maximized == states.maximized,
        final(st).pending_w == width,
        final(st).pending_h == height,
        final(st).cur_w == old(st).cur_w,
        final(st).cur_h == old(st).cur_h,
        final(st).scale_120 == old(st).scale_120,
        final(st).mapped == old(st).mapped,
        final(st).bg == old(st).bg,
        final(st).has_bg_buffer == old(st).has_bg_buffer,
        final(st).has_viewport == old(st).has_viewport,
        final(st).boot_w == old(st).boot_w,
        final(st).boot_h == old(st).boot_h,
{
}

/// The states of a toplevel are read from its codes: two for fullscreen, one
/// for maximized, nine for suspended, each wherever it stands.
pub proof fn law_states_are_read_by_code(states: &[u8], r: ToplevelStates, i: int)
    requires
        call_ensures(root_window::toplevel_states, (states, true), r),
        0 <= i,
        4 * i + 3 < states@.len(),
        states@[4 * i + 1] == 0 && states@[4 * i + 2] == 0 && states@[4 * i + 3] == 0,
    ensures
        states@[4 * i] == 2 ==> r.fullscreen,
        states@[4 * i] == 1 ==> r.maximized,
        states@[4 * i] == 9 ==> r.suspended,
{
    let c = root_window::code_at(states@, true, i);
    assert(c == states@[4 * i]);
}

/// Where no group of bytes is the code of a state, that state is not in force.
pub proof fn law_states_without_a_code(states: &[u8], little_endian: bool, r: ToplevelStates)
    requires
        call_ensures(root_window::toplevel_states, (states, little_endian), r),
    ensures
        (forall|i: int|
            0 <= i && 4 * i + 3 < states@.len() ==> #[trigger] root_window::code_at(
                states@,
                little_endian,
                i,
            ) != 2) ==> !r.fullscreen,
        (forall|i: int|
            0 <= i && 4 * i + 3 < states@.len() ==> #[trigger] root_window::code_at(
                states@,
                little_endian,
                i,
            ) != 1) ==> !r.maximized,
        (forall|i: int|
            0 <= i && 4 * i + 3 < states@.len() ==> #[trigger] root_window::code_at(
                states@,
                little_endian,
                i,
            ) != 9) ==> !r.suspended,
{
}

/// The bytes of a code are read in either order: reversed they give the same
/// number in the other one.
pub proof fn law_codes_are_read_in_either_order(a: u8, b: u8, c: u8, d: u8)
    ensures
        root_window::code_of(a, b, c, d, true) == root_window::code_of(d, c, b, a, false),
        root_window::code_of(a, 0, 0, 0, true) == a,
        b > 0 || c > 0 || d > 0 ==> root_window::code_of(a, b, c, d, true) > 255,
{
}

/// A background colour that was set reaches the window unchanged. It is painted
/// anew only where it differs and the window has a size, and setting it again
/// does nothing.
pub proof fn law_set_color_is_painted(
    red: u8,
    green: u8,
    blue: u8,
    packed: u32,
    a: &mut RootState,
    first: bool,
    b: &mut RootState,
    again: bool,
)
    requires
        call_ensures(root_window::set_background_color, (red, green, blue), packed),
        call_ensures(RootState::take_color, (a, packed), first),
        *b == *final(a),
        call_ensures(RootState::take_color, (b, packed), again),
    ensures
        final(a).bg == (Rgb { r: red, g: green, b: blue }),
        first == (old(a).bg != (Rgb { r: red, g: green, b: blue }) && old(a).cur_w > 0
            && old(a).cur_h > 0),
        old(a).bg != final(a).bg ==> !final(a).has_bg_buffer,
        old(a).bg == final(a).bg ==> final(a).has_bg_buffer == old(a).has_bg_buffer,
        final(a).cur_w == old(a).cur_w && final(a).cur_h == old(a).cur_h,
        final(a).fullscreen == old(a).fullscreen && final(a).maximized == old(a).maximized,
        final(a).scale_120 == old(a).scale_120 && final(a).mapped == old(a).mapped,
        !again,
        *final(b) == *final(a),
{
    root_window::law_unpack_inverts_pack(Rgb { r: red, g: green, b: blue });
}

/// A colour that was never set changes nothing.
pub proof fn law_unset_color_is_ignored(st: &mut RootState, r: bool)
    requires
        call_ensures(RootState::take_color, (st, 0u32), r),
    ensures
        !r,
        *final(st) == *old(st),
{
    root_window::law_unpack_inverts_pack(Rgb { r: 0, g: 0, b: 0 });
}

/// A wake-up shows what it was woken for: the new background over the whole
/// window, and a commit where anything is to be shown on a mapped window.
pub proof fn law_wake_shows_what_is_pending(
    st: &mut RootState,
    repaint: bool,
    made: bool,
    present: bool,
    r: Vec<RootRequest>,
)
    requires
        call_ensures(RootState::after_wake, (st, repaint, made, present), r),
    ensures
        r@.contains(RootRequest::Commit) == (old(st).mapped && (repaint || present)),
        r@.contains(RootRequest::AttachBackground) == (repaint && (old(st).has_bg_buffer || made)),
        r@.contains(RootRequest::DamageAll) == (repaint && (old(st).has_bg_buffer || made)),
        r@.contains(
            RootRequest::SetDestination { w: old(st).cur_w, h: old(st).cur_h },
        ) == (repaint && old(st).has_viewport),
        !reports(r@),
        final(st).has_bg_buffer == (old(st).has_bg_buffer || (repaint && made)),
        final(st).bg == old(st).bg,
        final(st).cur_w == old(st).cur_w && final(st).cur_h == old(st).cur_h,
        final(st).mapped == old(st).mapped,
        forall|i: int, j: int|
            0 <= i < r@.len() && 0 <= j < r@.len() && (#[trigger] r@[i])
                == RootRequest::AttachBackground && (#[trigger] r@[j]) == RootRequest::Commit ==> i
                < j,
{
    let d: int = if repaint && old(st).has_viewport {
        1
    } else {
        0
    };
    let e: int = if repaint && (old(st).has_bg_buffer || made) {
        2
    } else {
        0
    };
    if d == 1 {
        assert(r@[0] is SetDestination);
    }
    if e == 2 {
        assert(r@[d] == RootRequest::AttachBackground);
        assert(r@[d + 1] == RootRequest::DamageAll);
    }
    if old(st).mapped && (repaint || present) {
        assert(r@[d + e] == RootRequest::Commit);
    }
}

/// The window starts as it was set up: as large, maximized where that was
/// wanted, in the colour that was set, and its first configure without a size
/// gives it the size of the start.
pub proof fn law_window_starts_as_set_up(
    g: RootGlobals,
    boot: BootConfig,
    packed: u32,
    s: RootStart,
    st: &mut RootState,
    serial: u32,
    made: bool,
    r: Vec<RootRequest>,
)
    requires
        call_ensures(
            root_window::start_root,
            (g, &boot, packed),
            Ok::<RootStart, StartError>(s),
        ),
        *st == s.state,
        call_ensures(RootState::configure, (st, serial, made), r),
        boot.w > 0,
        boot.h > 0,
    ensures
        reports_only(r@, boot.w, boot.h, false, boot.maximized),
        reports(r@),
        final(st).cur_w == boot.w,
        final(st).cur_h == boot.h,
        forall|i: int|
            0 <= i < r@.len() && (#[trigger] r@[i]) is FeedWindow ==> r@[i]->FeedWindow_pw == boot.w
                && r@[i]->FeedWindow_ph == boot.h,
        !s.state.mapped && !s.state.suspended && !s.state.has_bg_buffer,
        s.state.has_viewport == g.viewporter,
        s.requests@.contains(StartRequest::SetMaximized) == boot.maximized,
        packed == 0 ==> s.state.bg == (Rgb { r: 0x10, g: 0x10, b: 0x10 }),
{
    root_window::law_scale_one_keeps_size(boot.w);
    root_window::law_scale_one_keeps_size(boot.h);
    root_window::law_unpack_inverts_pack(Rgb { r: 0, g: 0, b: 0 });
    assert(r@[r@.len() - 3] is FeedWindow);
    if boot.maximized {
        assert(s.requests@[6] == StartRequest::SetMaximized);
    }
}

/// A window starts wherever the compositor has what it cannot do without, and
/// the error names the first thing that is missing.
pub proof fn law_start_needs_its_globals(
    g: RootGlobals,
    boot: BootConfig,
    packed: u32,
    r: Result<RootStart, StartError>,
)
    requires
        call_ensures(root_window::start_root, (g, &boot, packed), r),
    ensures
        r is Ok <==> g.registry && g.compositor && g.shm && g.wm_base,
        r == Err::<RootStart, StartError>(StartError::Registry) <==> !g.registry,
        r == Err::<RootStart, StartError>(StartError::Compositor) <==> g.registry && !g.compositor,
        r == Err::<RootStart, StartError>(StartError::Shm) <==> g.registry && g.compositor && !g.shm,
{
}

/// What the start asks for is what there is: decorations of the wanted kind
/// where they can be asked for, and a scale of one only where none will ever
/// arrive.
pub proof fn law_start_asks_for_nothing_else(
    g: RootGlobals,
    boot: BootConfig,
    packed: u32,
    s: RootStart,
    i: int,
)
    requires
        call_ensures(
            root_window::start_root,
            (g, &boot, packed),
            Ok::<RootStart, StartError>(s),
        ),
        0 <= i < s.requests@.len(),
    ensures
        s.requests@[i] == StartRequest::SetMaximized ==> boot.maximized,
        s.requests@[i] == StartRequest::GetViewport ==> g.viewporter,
        s.requests@[i] == StartRequest::GetFractionalScale ==> g.fractional_scale,
        s.requests@[i] is FeedScale ==> !g.fractional_scale && s.requests@[i]
            == StartRequest::FeedScale(120),
        s.requests@[i] is SetDecorationMode ==> g.decoration && s.requests@[i]->client_side == (
        boot.deco_mode == 1),
        s.requests@[i] == StartRequest::CreatePalette ==> g.palette,
        s.requests@[i] == StartRequest::Commit ==> i == s.requests@.len() - 2,
{
    let r = s.requests@;
    let a: int = if boot.maximized {
        1
    } else {
        0
    };
    let b: int = if g.viewporter {
        1
    } else {
        0
    };
    let c: int = if g.decoration {
        1
    } else {
        0
    };
    let d: int = if g.palette {
        1
    } else {
        0
    };
    let n = r.len() as int;
    assert(n == 11 + a + b + c + d);
    assert(r[0] == StartRequest::CreateSurface && r[1] == StartRequest::PublishSurface);
    assert(r[2] == StartRequest::GetXdgSurface && r[3] == StartRequest::GetToplevel);
    assert(r[4] == StartRequest::SetTitle && r[5] == StartRequest::SetAppId);
    assert(a == 1 ==> r[6] == StartRequest::SetMaximized);
    assert(b == 1 ==> r[6 + a] == StartRequest::GetViewport);
    assert(r[6 + a + b] == if g.fractional_scale {
        StartRequest::GetFractionalScale
    } else {
        StartRequest::FeedScale(120)
    });
    assert(c == 1 ==> r[7 + a + b] == StartRequest::SetDecorationMode {
        client_side: boot.deco_mode == 1,
    });
    assert(d == 1 ==> r[7 + a + b + c] == StartRequest::CreatePalette);
    assert(r[n - 4] == StartRequest::PublishPopupShell);
    assert(r[n - 3] == StartRequest::PublishControls);
    assert(r[n - 2] == StartRequest::Commit && r[n - 1] == StartRequest::Flush);
    assert(i == 0 || i == 1 || i == 2 || i == 3 || i == 4 || i == 5 || (a == 1 && i == 6) || (b == 1
        && i == 6 + a) || i == 6 + a + b || (c == 1 && i == 7 + a + b) || (d == 1 && i == 7 + a + b
        + c) || i == n - 4 || i == n - 3 || i == n - 2 || i == n - 1);
}

/// All that there is is asked for at the start, and the commit comes at the
/// end, after all that is published.
pub proof fn law_start_asks_for_all_there_is(
    g: RootGlobals,
    boot: BootConfig,
    packed: u32,
    s: RootStart,
)
    requires
        call_ensures(
            root_window::start_root,
            (g, &boot, packed),
            Ok::<RootStart, StartError>(s),
        ),
    ensures
        g.viewporter ==> s.requests@.contains(StartRequest::GetViewport),
        g.fractional_scale ==> s.requests@.contains(StartRequest::GetFractionalScale),
        !g.fractional_scale ==> s.requests@.contains(StartRequest::FeedScale(120)),
        g.decoration ==> s.requests@.contains(
            StartRequest::SetDecorationMode { client_side: boot.deco_mode == 1 },
        ),
        g.palette ==> s.requests@.contains(StartRequest::CreatePalette),
        s.requests@[0] == StartRequest::CreateSurface,
        s.requests@[1] == StartRequest::PublishSurface,
        s.requests@[2] == StartRequest::GetXdgSurface,
        s.requests@[3] == StartRequest::GetToplevel,
        s.requests@[4] == StartRequest::SetTitle,
        s.requests@[5] == StartRequest::SetAppId,
        s.requests@[s.requests@.len() - 4] == StartRequest::PublishPopupShell,
        s.requests@[s.requests@.len() - 3] == StartRequest::PublishControls,
        s.requests@[s.requests@.len() - 2] == StartRequest::Commit,
        s.requests@[s.requests@.len() - 1] == StartRequest::Flush,
{
    let a: int = if boot.maximized {
        1
    } else {
        0
    };
    let b: int = if g.viewporter {
        1
    } else {
        0
    };
    let c: int = if g.decoration {
        1
    } else {
        0
    };
    let r = s.requests@;
    if g.viewporter {
        assert(r[6 + a] == StartRequest::GetViewport);
    }
    assert(r[6 + a + b] == if g.fractional_scale {
        StartRequest::GetFractionalScale
    } else {
        StartRequest::FeedScale(120)
    });
    if g.decoration {
        assert(r[7 + a + b] is SetDecorationMode);
    }
    if g.palette {
        assert(r[7 + a + b + c] == StartRequest::CreatePalette);
    }
}

/// The size of the start is the last usable one that was set; whether it is
/// maximized and how it is decorated are what was set last.
pub proof fn law_boot_keeps_the_last_usable_size(
    boot: &mut BootConfig,
    w: i32,
    h: i32,
    maximized: bool,
)
    requires
        call_ensures(root_window::set_boot_geometry, (boot, w, h, maximized), ()),
    ensures
        w > 0 && h > 0 ==> final(boot).w == w && final(boot).h == h,
        w <= 0 || h <= 0 ==> final(boot).w == old(boot).w && final(boot).h == old(boot).h,
        final(boot).maximized == maximized,
        final(boot).deco_mode == old(boot).deco_mode,
{
}

/// Setting the decorations sets them, and nothing else.
pub proof fn law_boot_keeps_the_decorations(boot: &mut BootConfig, mode: u32)
    requires
        call_ensures(root_window::set_decorations, (boot, mode), ()),
    ensures
        final(boot).deco_mode == mode,
        final(boot).w == old(boot).w,
        final(boot).h == old(boot).h,
        final(boot).maximized == old(boot).maximized,
{
}

/// Fullscreen and maximizing are asked for and taken back by requests of their
/// own kind, and without a toplevel nothing is asked for.
pub proof fn law_window_commands(
    controls: bool,
    on: bool,
    f: Option<ToplevelRequest>,
    m: Option<ToplevelRequest>,
    n: Option<ToplevelRequest>,
)
    requires
        call_ensures(root_window::set_fullscreen, (controls, on), f),
        call_ensures(root_window::set_maximized, (controls, on), m),
        call_ensures(root_window::set_minimized, (controls,), n),
    ensures
        f is Some == controls,
        m is Some == controls,
        n is Some == controls,
        controls && on ==> f == Some(ToplevelRequest::SetFullscreen) && m == Some(
            ToplevelRequest::SetMaximized,
        ),
        controls && !on ==> f == Some(ToplevelRequest::UnsetFullscreen) && m == Some(
            ToplevelRequest::UnsetMaximized,
        ),
        controls ==> n == Some(ToplevelRequest::SetMinimized),
{
}

/// A move or a resize cites the serial of the press that it answers, and a
/// resize the edge that was taken hold of.
pub proof fn law_pointer_commands_cite_the_press(
    controls: bool,
    serial: u32,
    edge: u32,
    a: Option<ToplevelRequest>,
    b: Option<ToplevelRequest>,
    c: Option<ToplevelRequest>,
    d: Option<ToplevelRequest>,
)
    requires
        call_ensures(root_window::start_move, (controls, Some(serial)), a),
        call_ensures(root_window::start_resize, (controls, Some(serial), edge), b),
        call_ensures(root_window::start_move, (controls, None), c),
        call_ensures(root_window::start_resize, (controls, None, edge), d),
    ensures
        controls ==> a == Some(ToplevelRequest::Move { serial }),
        !controls ==> a is None && b is None,
        b is Some ==> b == Some(ToplevelRequest::Resize { serial, edge }),
        controls && (edge == 1 || edge == 2 || edge == 4 || edge == 8) ==> b is Some,
        controls && (edge == 5 || edge == 6 || edge == 9 || edge == 10) ==> b is Some,
        edge == 3 || edge == 7 || edge > 10 ==> b is None,
        c is None && d is None,
{
}

/// A new popup takes the place of the one before, stands where it was asked for
/// with an extent of at least one, belongs to its generation, and grabs the
/// seat only by the press that it answers.
pub proof fn law_popup_stands_where_asked(
    has_role: &mut bool,
    generation: u32,
    x: i32,
    y: i32,
    w: i32,
    h: i32,
    grab: Option<u32>,
    r: Vec<PopupRequest>,
)
    requires
        call_ensures(
            root_window::popup_create,
            (has_role, true, generation, x, y, w, h, grab),
            r,
        ),
    ensures
        *final(has_role),
        r@.contains(PopupRequest::GetPopup { generation }),
        forall|i: int|
            0 <= i < r@.len() ==> {
                &&& (#[trigger] r@[i]) is Positioner ==> {
                    &&& r@[i]->x == x && r@[i]->y == y
                    &&& r@[i]->w >= 1 && r@[i]->h >= 1
                    &&& w >= 1 ==> r@[i]->w == w
                    &&& h >= 1 ==> r@[i]->h == h
                }
                &&& r@[i] is GetPopup ==> r@[i] == PopupRequest::GetPopup { generation }
                &&& r@[i] is Grab ==> grab == Some(r@[i]->serial)
            },
        grab matches Some(serial) ==> r@.contains(PopupRequest::Grab { serial }),
        r@.contains(PopupRequest::DestroyPopup) == *old(has_role),
        exists|i: int| 0 <= i < r@.len() && (#[trigger] r@[i]) is Positioner,
        r@[r@.len() - 2] == PopupRequest::CommitSurface,
        forall|i: int, j: int|
            0 <= i < r@.len() && 0 <= j < r@.len() && (#[trigger] r@[i]) is Positioner && (
            #[trigger] r@[j]) is GetPopup ==> i < j,
        forall|i: int, j: int|
            0 <= i < r@.len() && 0 <= j < r@.len() && (#[trigger] r@[i]) is GetPopup && (
            #[trigger] r@[j]) is Grab ==> i < j,
{
    let d: int = if *old(has_role) {
        2
    } else {
        0
    };
    if *old(has_role) {
        assert(r@[0] == PopupRequest::DestroyPopup);
    }
    assert(r@[d + 1] is Positioner);
    assert(r@[d + 2] == PopupRequest::GetPopup { generation });
    if let Some(serial) = grab {
        assert(r@[d + 4] == PopupRequest::Grab { serial });
    }
}

/// A mapped popup moves to where it was asked for with an extent of at least
/// one; without a popup nothing is asked for.
pub proof fn law_popup_moves_where_asked(
    has_role: bool,
    shell: bool,
    x: i32,
    y: i32,
    w: i32,
    h: i32,
    r: Vec<PopupRequest>,
)
    requires
        call_ensures(root_window::popup_reposition, (has_role, shell, x, y, w, h), r),
    ensures
        r@.contains(PopupRequest::Reposition) == (has_role && shell),
        !(has_role && shell) ==> r@.len() == 0,
        forall|i: int|
            0 <= i < r@.len() && (#[trigger] r@[i]) is Positioner ==> {
                &&& r@[i]->x == x && r@[i]->y == y
                &&& r@[i]->w >= 1 && r@[i]->h >= 1
                &&& w >= 1 ==> r@[i]->w == w
                &&& h >= 1 ==> r@[i]->h == h
            },
        has_role && shell ==> r@[0] is Positioner && r@.last() == PopupRequest::Flush,
{
    if has_role && shell {
        assert(r@[1] == PopupRequest::Reposition);
    }
}

/// A popup is destroyed where there is one, and then there is none.
pub proof fn law_popup_is_destroyed_once(
    a: &mut bool,
    shell: bool,
    first: Vec<PopupRequest>,
    b: &mut bool,
    again: Vec<PopupRequest>,
)
    requires
        call_ensures(root_window::popup_destroy, (a, shell), first),
        *b == *final(a),
        call_ensures(root_window::popup_destroy, (b, shell), again),
    ensures
        first@.contains(PopupRequest::DestroyPopup) == *old(a),
        first@.contains(PopupRequest::DestroyXdgSurface) == *old(a),
        !*final(a),
        !again@.contains(PopupRequest::DestroyPopup),
        !again@.contains(PopupRequest::DestroyXdgSurface),
        shell ==> first@.last() == PopupRequest::Flush,
{
    if *old(a) {
        assert(first@[0] == PopupRequest::DestroyPopup);
        assert(first@[1] == PopupRequest::DestroyXdgSurface);
    }
}

/// The loop reads what there is to read, starts over after a signal, ends with
/// any other failure or a broken display, and serves a wake-up.
pub proof fn law_loop_goes_on(o: PollOutcome, p: AfterPoll, q: AfterRead)
    requires
        call_ensures(root_window::after_poll, (o,), p),
        call_ensures(root_window::after_read, (o,), q),
    ensures
        o.failed && o.interrupted ==> p == AfterPoll::Retry,
        p == AfterPoll::End <==> o.failed && !o.interrupted,
        p == AfterPoll::Read <==> !o.failed && o.readable,
        p == AfterPoll::Skip <==> !o.failed && !o.readable,
        q == AfterRead::End <==> o.broken,
        q == AfterRead::Drain <==> !o.broken && o.woken,
{
}

/// The thread runs where it was started with a descriptor to wake it by; a
/// descriptor without a thread is closed.
pub proof fn law_thread_needs_its_descriptor(wake_fd: i32, spawned: bool, r: ThreadStart)
    requires
        call_ensures(root_window::thread_started, (wake_fd, spawned), r),
    ensures
        r == ThreadStart::Running <==> wake_fd >= 0 && spawned,
        r == ThreadStart::CloseDescriptor <==> wake_fd >= 0 && !spawned,
        r == ThreadStart::NoDescriptor <==> wake_fd < 0,
{
}

/// The window is started once: with the first display there is.
pub proof fn law_started_once(
    a: &mut bool,
    early: bool,
    first: bool,
    b: &mut bool,
    later: bool,
    again: bool,
)
    requires
        call_ensures(root_window::ensure_started, (a, early), first),
        *b == *final(a),
        call_ensures(root_window::ensure_started, (b, later), again),
    ensures
        first == (early && !*old(a)),
        again == (later && !early && !*old(a)),
        *final(b) == (*old(a) || early || later),
{
}

/// The number that a group of four bytes holds, lowest byte first or last.
pub open spec fn weighed(states: Seq<u8>, little_endian: bool, i: int) -> int {
    if little_endian {
        states[4 * i] + 256 * states[4 * i + 1] + 65536 * states[4 * i + 2] + 16777216 * states[4
            * i + 3]
    } else {
        states[4 * i + 3] + 256 * states[4 * i + 2] + 65536 * states[4 * i + 1] + 16777216
            * states[4 * i]
    }
}

/// A state is in force exactly where a group of four bytes holds its number, in
/// the byte order of the machine.
pub proof fn law_state_is_in_force_by_its_number(
    states: &[u8],
    little_endian: bool,
    r: ToplevelStates,
    i: int,
)
    requires
        call_ensures(root_window::toplevel_states, (states, little_endian), r),
        0 <= i && 4 * i + 3 < states@.len(),
    ensures
        weighed(states@, little_endian, i) == 1 ==> r.maximized,
        weighed(states@, little_endian, i) == 2 ==> r.fullscreen,
        weighed(states@, little_endian, i) == 9 ==> r.suspended,
        (forall|k: int|
            0 <= k && 4 * k + 3 < states@.len() ==> #[trigger] weighed(states@, little_endian, k)
                != 1) ==> !r.maximized,
        (forall|k: int|
            0 <= k && 4 * k + 3 < states@.len() ==> #[trigger] weighed(states@, little_endian, k)
                != 2) ==> !r.fullscreen,
        (forall|k: int|
            0 <= k && 4 * k + 3 < states@.len() ==> #[trigger] weighed(states@, little_endian, k)
                != 9) ==> !r.suspended,
{
    assert forall|k: int| #[trigger] root_window::code_at(states@, little_endian, k) == weighed(
        states@,
        little_endian,
        k,
    ) by {}
    assert(root_window::code_at(states@, little_endian, i) == weighed(states@, little_endian, i));
    if r.maximized {
        let k = choose|k: int|
            0 <= k && 4 * k + 3 < states@.len() && #[trigger] root_window::code_at(
                states@,
                little_endian,
                k,
            ) == 1;
        assert(weighed(states@, little_endian, k) == 1);
    }
    if r.fullscreen {
        let k = choose|k: int|
            0 <= k && 4 * k + 3 < states@.len() && #[trigger] root_window::code_at(
                states@,
                little_endian,
                k,
            ) == 2;
        assert(weighed(states@, little_endian, k) == 2);
    }
    if r.suspended {
        let k = choose|k: int|
            0 <= k && 4 * k + 3 < states@.len() && #[trigger] root_window::code_at(
                states@,
                little_endian,
                k,
            ) == 9;
        assert(weighed(states@, little_endian, k) == 9);
    }
}

/// The background is made once: it is needed while there is none.
pub proof fn law_background_is_needed_once(st: RootState, r: bool)
    requires
        call_ensures(RootState::needs_background, (&st,), r),
    ensures
        r != st.has_bg_buffer,
{
}

/// A word that is zero holds no colour.
pub proof fn law_empty_word_holds_no_color(r: Option<Rgb>)
    requires
        call_ensures(root_window::pending_bg, (0,), r),
    ensures
        r is None,
{
    assert(0u32 & root_window::BG_SET == 0) by (bit_vector);
}

/// An extent below zero is scaled like any other and rounded towards zero, half
/// a pixel being added before.
pub proof fn law_negative_extent_is_rounded_towards_zero(
    st: RootState,
    lw: i32,
    lh: i32,
    r: (i32, i32),
)
    requires
        call_ensures(RootState::physical, (&st, lw, lh), r),
        -0x1000_0000 * 120 <= lw * st.scale_120 + 60 < 0,
    ensures
        0 <= r.0 * 120 - (lw * st.scale_120 + 60) < 120,
        r.0 <= 0,
        lh == lw ==> r.1 == r.0,
{
}

} // verus!
