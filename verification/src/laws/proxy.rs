//! The proxy between the player and the compositor.
use crate::wayland::mpv_proxy;
use crate::wayland::mpv_proxy::{
    Interface, Proxy, ProxyShared, Shell, SpliceRequest, StartEvent, StartStage, SynthConfigure, ThreadStage, Watch,
};
use vstd::prelude::*;

verus! {

/// A size without area is never taken in. The first size that the player is
/// told is the one that was set for it, as long as no other was told.
pub proof fn law_first_size_is_told(
    sh: &mut ProxyShared,
    w: i32,
    h: i32,
    shell: Shell,
    with: &mut Shell,
    r: SynthConfigure,
)
    requires
        call_ensures(mpv_proxy::set_initial_size, (sh, w, h), ()),
        call_ensures(Shell::new, (), shell),
        *with == shell,
        call_ensures(Shell::mpv_toplevel, (with, &*final(sh)), r),
    ensures
        w > 0 && h > 0 ==> r.w == w && r.h == h,
        w <= 0 || h <= 0 ==> *final(sh) == *old(sh) && r.w == old(sh).initial_w && r.h
            == old(sh).initial_h,
        r.toplevel,
        final(with).has_mpv_toplevel && final(with).cur_w == r.w && final(with).cur_h == r.h,
        final(sh).size_generation == old(sh).size_generation && final(sh).cur_w == old(sh).cur_w,
        final(sh).video_surface_id == old(sh).video_surface_id && final(sh).app_client_fd
            == old(sh).app_client_fd,
{
}

/// A toplevel that is asked for anew is told the size that the player has.
pub proof fn law_known_size_is_told_again(shell: &mut Shell, shared: ProxyShared, r: SynthConfigure)
    requires
        old(shell).cur_w != 0 && old(shell).cur_h != 0,
        call_ensures(Shell::mpv_toplevel, (shell, &shared), r),
    ensures
        r.w == old(shell).cur_w && r.h == old(shell).cur_h,
        r.xdg_surface == old(shell).has_mpv_xdg_surface && r.toplevel,
{
}

/// A size that is set is told the player, exactly, and once.
pub proof fn law_new_size_is_told_once(
    sh: &mut ProxyShared,
    w: i32,
    h: i32,
    a: &mut Shell,
    seen: &mut u32,
    first: Option<SynthConfigure>,
    b: &mut Shell,
    seen_again: &mut u32,
    second: Option<SynthConfigure>,
)
    requires
        w > 0 && h > 0,
        call_ensures(mpv_proxy::set_window_size, (sh, w, h), ()),
        *seen == old(sh).size_generation,
        call_ensures(Shell::apply_window_size_mpv, (a, &*final(sh), seen), first),
        *b == *final(a),
        *seen_again == *final(seen),
        call_ensures(Shell::apply_window_size_mpv, (b, &*final(sh), seen_again), second),
    ensures
        first is Some == old(a).has_mpv_toplevel,
        first matches Some(c) ==> {
            &&& c.w == w && c.h == h && c.toplevel
            &&& c.xdg_surface == old(a).has_mpv_xdg_surface
            &&& final(a).cur_w == w && final(a).cur_h == h
            &&& second is None && *final(b) == *final(a)
        },
        first is None ==> *final(a) == *old(a) && *final(seen) == *old(seen),
        final(sh).initial_w == old(sh).initial_w && final(sh).initial_h == old(sh).initial_h,
{
}

/// A size without area leaves all as it is.
pub proof fn law_size_without_area_is_not_set(sh: &mut ProxyShared, w: i32, h: i32)
    requires
        w <= 0 || h <= 0,
        call_ensures(mpv_proxy::set_window_size, (sh, w, h), ()),
    ensures
        *final(sh) == *old(sh),
{
}

/// Configures that follow each other have different serials, and change nothing
/// else.
pub proof fn law_serials_differ(
    a: &mut Shell,
    w: i32,
    h: i32,
    first: SynthConfigure,
    b: &mut Shell,
    second: SynthConfigure,
    c: &mut Shell,
    third: u32,
)
    requires
        call_ensures(Shell::synth_mpv_configure, (a, w, h), first),
        *b == *final(a),
        call_ensures(Shell::synth_mpv_configure, (b, w, h), second),
        *c == *final(b),
        call_ensures(Shell::next_serial, (c,), third),
    ensures
        first.serial != second.serial && second.serial != third,
        first.serial != old(a).serial,
        first.serial == (old(a).serial + 1) % 0x1_0000_0000,
        third == (old(c).serial + 1) % 0x1_0000_0000,
        first.w == w && first.h == h,
        first.toplevel == old(a).has_mpv_toplevel,
        first.xdg_surface == old(a).has_mpv_xdg_surface,
        final(a).spliced == old(a).spliced && final(a).cur_w == old(a).cur_w && final(a).cur_h
            == old(a).cur_h,
        final(c).serial == third,
{
}

/// What is seen is noted, and nothing else: the display, the application's
/// root, and the player's shell surface with the name of its video surface.
pub proof fn law_what_is_seen_is_noted(
    a: &mut Shell,
    b: &mut Shell,
    c: &mut Shell,
    shared: &mut ProxyShared,
    id: Option<u32>,
)
    requires
        call_ensures(Shell::see_display, (a,), ()),
        call_ensures(Shell::see_host_root, (b,), ()),
        call_ensures(Shell::mpv_xdg_surface, (c, shared, id), ()),
    ensures
        final(a).has_display && final(a).has_host_root == old(a).has_host_root,
        final(b).has_host_root && final(b).has_display == old(b).has_display,
        final(c).has_mpv_xdg_surface && final(c).has_mpv_toplevel == old(c).has_mpv_toplevel,
        id matches Some(i) ==> final(shared).video_surface_id == i,
        id is None ==> final(shared).video_surface_id == old(shared).video_surface_id,
        final(shared).cur_w == old(shared).cur_w && final(shared).size_generation
            == old(shared).size_generation,
        final(a).spliced == old(a).spliced && final(b).spliced == old(b).spliced,
{
}

/// The globals are asked for once, as soon as there is a display.
pub proof fn law_globals_are_asked_for_once(
    a: &mut Shell,
    first: bool,
    b: &mut Shell,
    second: bool,
)
    requires
        call_ensures(Shell::ensure_root, (a,), first),
        *b == *final(a),
        call_ensures(Shell::ensure_root, (b,), second),
    ensures
        first == (old(a).has_display && !old(a).roundtrip_started),
        !second,
        final(a).roundtrip_started == (old(a).roundtrip_started || first),
{
}

/// The globals are there once all were announced, and enough where none is
/// missing that the splice needs.
pub proof fn law_announced_globals_are_enough(a: &mut Shell, r: bool, builds: bool)
    requires
        call_ensures(Shell::roundtrip_done, (a,), r),
        call_ensures(Shell::maybe_build_root, (&*final(a),), builds),
    ensures
        r == (old(a).has_compositor && old(a).has_subcompositor && old(a).has_wm_base),
        builds == (old(a).has_host_root && !old(a).spliced),
        final(a).globals_ready,
{
}

/// The player's surface is looked for only once the globals were announced.
pub proof fn law_splice_waits_for_the_globals(a: Shell, builds: bool)
    requires
        call_ensures(Shell::maybe_build_root, (&a,), builds),
        !a.globals_ready || a.spliced || !a.has_host_root,
    ensures
        !builds,
{
}

/// The player's surface is spliced in once: below all else, without input, in
/// effect with the commit of the root at the end. Without the role nothing is
/// done.
pub proof fn law_surface_is_spliced_in_once(
    a: &mut Shell,
    can: bool,
    given: bool,
    r: Vec<SpliceRequest>,
    b: &mut Shell,
    again: Vec<SpliceRequest>,
)
    requires
        call_ensures(Shell::can_splice, (&*old(a),), can),
        call_ensures(Shell::splice_mpv_under_host_root, (a, given), r),
        *b == *final(a),
        call_ensures(Shell::splice_mpv_under_host_root, (b, true), again),
    ensures
        can == (!old(a).spliced && old(a).has_compositor && old(a).has_subcompositor
            && old(a).has_host_root),
        can && given ==> {
            &&& final(a).spliced && again@.len() == 0
            &&& r@.last() == SpliceRequest::CommitRoot
            &&& r@.contains(SpliceRequest::SetDesync)
            &&& r@.contains(SpliceRequest::SetPosition)
            &&& r@.contains(SpliceRequest::PlaceAboveRoot)
            &&& exists|i: int, j: int, k: int|
                0 <= i < j < k < r@.len() && #[trigger] r@[i] == SpliceRequest::CreateRegion
                    && #[trigger] r@[j] == SpliceRequest::SetInputRegion && #[trigger] r@[k]
                    == SpliceRequest::DestroyRegion
        },
        !can || !given ==> r@.len() == 0 && *final(a) == *old(a),
{
    if can && given {
        assert(r@[0] == SpliceRequest::SetDesync);
        assert(r@[1] == SpliceRequest::SetPosition);
        assert(r@[2] == SpliceRequest::PlaceAboveRoot);
        assert(r@[3] == SpliceRequest::CreateRegion);
        assert(r@[4] == SpliceRequest::SetInputRegion);
        assert(r@[5] == SpliceRequest::DestroyRegion);
    }
}

proof fn lemma_id(ids: Seq<Option<u32>>, id: u32, i: int)
    requires
        0 <= i,
    ensures
        match mpv_proxy::index_of_id(ids, id, i) {
            Some(k) => i <= k < ids.len() && ids[k] == Some(id) && forall|j: int|
                i <= j < k ==> #[trigger] ids[j] != Some(id),
            None => forall|j: int| i <= j < ids.len() ==> #[trigger] ids[j] != Some(id),
        },
    decreases ids.len() - i,
{
    if i < ids.len() && ids[i] != Some(id) {
        lemma_id(ids, id, i + 1);
    }
}

/// The player's surface is found by its name, the first of that name; not while
/// the name is unknown or the player is not connected.
pub proof fn law_players_surface_is_found(
    shared: ProxyShared,
    connected: bool,
    ids: &[Option<u32>],
    r: Option<usize>,
    j: int,
)
    requires
        call_ensures(mpv_proxy::find_mpv_surface, (&shared, connected, ids), r),
        0 <= j < ids@.len(),
    ensures
        r matches Some(i) ==> {
            &&& connected && shared.video_surface_id != 0
            &&& i < ids@.len() && ids@[i as int] == Some(shared.video_surface_id)
            &&& j < i ==> ids@[j] != Some(shared.video_surface_id)
        },
        connected && shared.video_surface_id != 0 && ids@[j] == Some(shared.video_surface_id)
            ==> r is Some && r->0 <= j,
        !connected || shared.video_surface_id == 0 ==> r is None,
{
    lemma_id(ids@, shared.video_surface_id, 0);
}

/// A destination with area is passed on, and so is the one that unsets it;
/// nothing else is.
pub proof fn law_destination_needs_area(w: i32, h: i32, r: bool)
    requires
        call_ensures(mpv_proxy::forwards_destination, (w, h), r),
    ensures
        w > 0 && h > 0 ==> r,
        w == -1 && h == -1 ==> r,
        (w <= 0 || h <= 0) && !(w == -1 && h == -1) ==> !r,
{
}

/// The application has its input devices and its shell, the player has neither;
/// viewports and scales are watched for both alike, and all else passes.
pub proof fn law_player_has_no_input(interface: Interface, app: Watch, player: Watch)
    requires
        call_ensures(mpv_proxy::handle_bind, (interface, false), app),
        call_ensures(mpv_proxy::handle_bind, (interface, true), player),
    ensures
        interface == Interface::Seat ==> app == Watch::ForwardSeat && player == Watch::BlockSeat,
        interface == Interface::XdgWmBase ==> app == Watch::AppShell && player
            == Watch::PlayerShell,
        interface == Interface::Viewporter ==> app == Watch::Viewports,
        interface == Interface::FractionalScaleManager ==> app == Watch::FractionalScale,
        interface != Interface::Seat && interface != Interface::XdgWmBase ==> app == player,
        interface == Interface::Compositor || interface == Interface::Subcompositor || interface
            == Interface::Other ==> app == Watch::Pass,
{
}

/// A global is noted under its own name. It is bound where the splice needs it,
/// in no newer version than is offered.
pub proof fn law_globals_are_noted_by_name(
    a: &mut Shell,
    interface: Interface,
    version: u32,
    r: Option<u32>,
)
    requires
        call_ensures(Shell::handle_global, (a, interface, version), r),
    ensures
        r is Some == (interface == Interface::Compositor || interface == Interface::Subcompositor
            || interface == Interface::XdgWmBase),
        r matches Some(v) ==> v <= version && v <= 6 && (interface == Interface::Subcompositor ==> v
            <= 1) && (version <= 1 ==> v == version),
        (interface == Interface::Compositor || interface == Interface::XdgWmBase) && version <= 6
            ==> r == Some(version),
        (interface == Interface::Compositor || interface == Interface::XdgWmBase) && version > 6
            ==> r == Some(6u32),
        interface == Interface::Subcompositor && version >= 1 ==> r == Some(1u32),
        final(a).has_compositor == (old(a).has_compositor || interface == Interface::Compositor),
        final(a).has_subcompositor == (old(a).has_subcompositor || interface
            == Interface::Subcompositor),
        final(a).has_wm_base == (old(a).has_wm_base || interface == Interface::XdgWmBase),
        final(a).globals_ready == old(a).globals_ready && final(a).spliced == old(a).spliced,
{
}

/// The proxy runs once every step was done, in order: the sockets, the
/// application's thread and its descriptor, the player's thread and the name of
/// its display. The descriptor is published.
pub proof fn law_proxy_starts_step_by_step(
    a: &mut ProxyShared,
    s1: StartStage,
    b: &mut ProxyShared,
    s2: StartStage,
    c: &mut ProxyShared,
    fd: i32,
    s3: StartStage,
    d: &mut ProxyShared,
    s4: StartStage,
    e: &mut ProxyShared,
    s5: StartStage,
    published: i32,
)
    requires
        call_ensures(mpv_proxy::start, (a, StartStage::Sockets, StartEvent::Done), s1),
        *b == *final(a),
        call_ensures(mpv_proxy::start, (b, s1, StartEvent::Done), s2),
        *c == *final(b),
        call_ensures(mpv_proxy::start, (c, s2, StartEvent::Descriptor(fd)), s3),
        *d == *final(c),
        call_ensures(mpv_proxy::start, (d, s3, StartEvent::Done), s4),
        *e == *final(d),
        call_ensures(mpv_proxy::start, (e, s4, StartEvent::Done), s5),
        call_ensures(mpv_proxy::app_client_fd, (&*final(e),), published),
    ensures
        s1 == StartStage::AppThread && s2 == StartStage::AppDescriptor,
        s3 == StartStage::MpvThread && s4 == StartStage::DisplayName,
        s5 == StartStage::Running,
        published == fd,
        final(e).cur_w == old(a).cur_w && final(e).video_surface_id == old(a).video_surface_id,
{
}

/// A step that fails ends the start, unless the proxy runs; what failed stays
/// failed. Only the descriptor's step publishes one.
pub proof fn law_failed_step_ends_the_start(
    a: &mut ProxyShared,
    stage: StartStage,
    failed: StartStage,
    b: &mut ProxyShared,
    ev: StartEvent,
    stuck: StartStage,
    c: &mut ProxyShared,
    next: StartStage,
    r: &mut ProxyShared,
    still: StartStage,
)
    requires
        call_ensures(mpv_proxy::start, (a, stage, StartEvent::Failed), failed),
        call_ensures(mpv_proxy::start, (b, StartStage::Failed, ev), stuck),
        call_ensures(mpv_proxy::start, (c, stage, ev), next),
        call_ensures(mpv_proxy::start, (r, StartStage::Running, ev), still),
    ensures
        stage != StartStage::Running ==> failed == StartStage::Failed,
        *final(a) == *old(a),
        stuck == StartStage::Failed,
        still == StartStage::Running,
        stage != StartStage::AppDescriptor || ev !is Descriptor ==> *final(c) == *old(c),
        stage == StartStage::AppDescriptor && ev == StartEvent::Done ==> next
            == StartStage::Failed,
        stage != StartStage::AppDescriptor && stage != StartStage::Running && ev is Descriptor
            ==> next == StartStage::Failed,
{
}

/// A thread of the proxy builds its state, makes its endpoint, publishes it
/// and dispatches messages; the application's adds a bridge to the player
/// first.
pub proof fn law_threads_come_to_their_loop(
    player: bool,
    s1: ThreadStage,
    s2: ThreadStage,
    s3: ThreadStage,
    s4: ThreadStage,
    s5: ThreadStage,
)
    requires
        call_ensures(mpv_proxy::run_state, (ThreadStage::Build, true, player), s1),
        call_ensures(mpv_proxy::run_state, (s1, true, player), s2),
        call_ensures(mpv_proxy::run_state, (s2, true, player), s3),
        call_ensures(mpv_proxy::run_state, (s3, true, player), s4),
        call_ensures(mpv_proxy::run_state, (s4, true, player), s5),
    ensures
        s1 == ThreadStage::Endpoint && s2 == ThreadStage::Publish,
        s3 == if player {
            ThreadStage::Loop
        } else {
            ThreadStage::Bridge
        },
        s4 == ThreadStage::Loop && s5 == ThreadStage::Loop,
{
}

/// A thread ends at the first step that fails and does not go on. The starting
/// thread is told of it as long as it waits: until something was published.
pub proof fn law_failed_thread_ends(stage: ThreadStage, player: bool, r: ThreadStage, ok: bool, later: ThreadStage)
    requires
        call_ensures(mpv_proxy::run_state, (stage, false, player), r),
        call_ensures(mpv_proxy::run_state, (r, ok, player), later),
    ensures
        r is End,
        later == r,
        stage !is End ==> r->report == (stage is Build || stage is Endpoint),
        stage is End ==> r == stage,
{
}

/// The player's display has a name while the proxy is there.
pub proof fn law_display_has_a_name(
    p: Proxy,
    some: Option<&str>,
    none: Option<&str>,
    held: &mut Option<Proxy>,
)
    requires
        call_ensures(mpv_proxy::display_name, (Some(&p),), some),
        call_ensures(mpv_proxy::display_name, (None,), none),
        call_ensures(mpv_proxy::stop, (held,), ()),
    ensures
        some matches Some(n) && n@ == p.display_name@,
        none is None,
        *final(held) is None,
{
}

/// Nothing has passed through a new shell, and a new proxy knows no size, no
/// surface and no descriptor; the first size is twelve hundred and eighty by
/// seven hundred and twenty.
pub proof fn law_proxy_knows_nothing_at_first(s: Shell, p: ProxyShared)
    requires
        call_ensures(Shell::new, (), s),
        call_ensures(ProxyShared::default, (), p),
    ensures
        !s.has_display && !s.has_compositor && !s.has_subcompositor && !s.has_wm_base,
        !s.globals_ready && !s.roundtrip_started && !s.has_host_root && !s.spliced,
        !s.has_mpv_client && !s.has_mpv_xdg_surface && !s.has_mpv_toplevel,
        s.cur_w == 0 && s.cur_h == 0 && s.serial == 0,
        p.cur_w == 0 && p.cur_h == 0 && p.size_generation == 0 && p.video_surface_id == 0,
        p.app_client_fd == -1 && p.initial_w == 1280 && p.initial_h == 720,
{
}

/// A toplevel without a whole size is told the first one.
pub proof fn law_size_without_an_extent_is_unknown(
    shell: &mut Shell,
    shared: ProxyShared,
    r: SynthConfigure,
)
    requires
        old(shell).cur_w == 0 || old(shell).cur_h == 0,
        call_ensures(Shell::mpv_toplevel, (shell, &shared), r),
    ensures
        r.w == shared.initial_w && r.h == shared.initial_h,
        final(shell).cur_w == shared.initial_w && final(shell).cur_h == shared.initial_h,
        final(shell).spliced == old(shell).spliced,
        final(shell).has_mpv_xdg_surface == old(shell).has_mpv_xdg_surface,
{
}

/// Each size that is set counts one up, around the end of the count; one
/// without an extent changes nothing.
pub proof fn law_sizes_are_counted(sh: &mut ProxyShared, w: i32, h: i32)
    requires
        call_ensures(mpv_proxy::set_window_size, (sh, w, h), ()),
    ensures
        w > 0 && h > 0 ==> final(sh).size_generation == (old(sh).size_generation + 1)
            % 0x1_0000_0000 && final(sh).cur_w == w && final(sh).cur_h == h,
        w <= 0 || h <= 0 ==> *final(sh) == *old(sh),
        final(sh).initial_w == old(sh).initial_w && final(sh).initial_h == old(sh).initial_h,
        final(sh).video_surface_id == old(sh).video_surface_id,
        final(sh).app_client_fd == old(sh).app_client_fd,
{
}

} // verus!
