//! What the compositor reports of the window, and the entry points by handle.
use crate::bits;
use crate::wayland::buffers::BufferId;
use crate::wayland::dmabuf_pool::DmabufLease;
use crate::wayland::root_window::ToplevelRequest;
use crate::wayland::window_state;
use crate::wayland::window_state::{Configured, WaylandWindowSource, WindowSize, WlWindowState};
use crate::wayland::wl_ffi;
use crate::wayland::wl_ffi::MaximizeCommand;
use crate::wayland::wl_ops;
use crate::wayland::wl_ops::{JfnDmabufFrame, SoftwareStep, VisibleStep};
use crate::wayland::wl_state;
use crate::wayland::wl_state::{Globals, InitError, StateRequest, WlState};
use crate::platform_abi::PhysicalSize;
use vstd::prelude::*;

verus! {

/// What is packed is unpacked, each extent in its place.
pub proof fn law_packed_extents_are_unpacked(w: i32, h: i32, packed: u64, r: (i32, i32))
    requires
        call_ensures(window_state::pack_size, (w, h), packed),
        call_ensures(window_state::unpack_size, (packed,), r),
    ensures
        r.0 == w && r.1 == h,
        packed == 0 <==> w == 0 && h == 0,
{
    window_state::law_unpack_inverts_pack(w, h);
}

/// A size has two positive extents.
pub proof fn law_size_is_positive(w: i32, h: i32, r: Option<WindowSize>)
    requires
        call_ensures(WindowSize::new, (w, h), r),
    ensures
        r is Some == (w > 0 && h > 0),
        r matches Some(s) ==> s.w == w && s.h == h,
{
}

/// After a configure with a usable size every reader sees what it said, each
/// value under its own name; the scale stays.
pub proof fn law_configure_is_read_back(
    st: &mut WlWindowState,
    lw: i32,
    lh: i32,
    pw: i32,
    ph: i32,
    fullscreen: bool,
    maximized: bool,
    ready: bool,
    r: Option<Configured>,
    logical: Option<WindowSize>,
    physical: (i32, i32),
    known: bool,
    is_fullscreen: bool,
    is_maximized: bool,
)
    requires
        call_ensures(
            window_state::on_configure,
            (st, lw, lh, pw, ph, fullscreen, maximized, ready),
            r,
        ),
        lw > 0 && lh > 0 && pw > 0 && ph > 0,
        call_ensures(window_state::window_logical_size, (&*final(st),), logical),
        call_ensures(window_state::jfn_wl_window_size, (&*final(st),), physical),
        call_ensures(window_state::jfn_wl_window_size_known, (&*final(st),), known),
        call_ensures(window_state::jfn_wl_window_fullscreen, (&*final(st),), is_fullscreen),
        call_ensures(window_state::jfn_wl_window_maximized, (&*final(st),), is_maximized),
    ensures
        logical == Some(WindowSize { w: lw, h: lh }),
        physical == (pw, ph),
        known,
        is_fullscreen == fullscreen,
        is_maximized == maximized,
        final(st).scale_bits == old(st).scale_bits,
{
    window_state::law_unpack_inverts_pack(lw, lh);
    window_state::law_unpack_inverts_pack(pw, ph);
}

/// What follows a configure is told what the configure said: the states, and
/// the size in device pixels with the scale that is known, or one before there
/// are surfaces.
pub proof fn law_configure_is_passed_on(
    st: &mut WlWindowState,
    lw: i32,
    lh: i32,
    pw: i32,
    ph: i32,
    fullscreen: bool,
    maximized: bool,
    ready: bool,
    r: Option<Configured>,
    scale: u32,
)
    requires
        call_ensures(
            window_state::on_configure,
            (st, lw, lh, pw, ph, fullscreen, maximized, ready),
            r,
        ),
        call_ensures(window_state::jfn_wl_get_cached_scale, (&*old(st),), scale),
    ensures
        r is Some == (lw > 0 && lh > 0 && pw > 0 && ph > 0),
        r is None ==> *final(st) == *old(st),
        r matches Some(c) ==> {
            &&& c.maximized == maximized && c.fullscreen == fullscreen
            &&& c.configure_surfaces == ready
            &&& c.osd_w == pw && c.osd_h == ph
            &&& c.osd_scale_bits == if ready {
                scale
            } else {
                0x3F80_0000
            }
        },
{
}

/// A positive scale is read back, and only the first one is the first; any other
/// changes nothing. Sizes and states stay.
pub proof fn law_scale_is_read_back(
    st: &mut WlWindowState,
    scale_120: i32,
    scale_bits: u32,
    r: Option<bool>,
    known_before: bool,
    known: bool,
    scale: u32,
)
    requires
        0 < scale_bits <= 0x7F80_0000,
        call_ensures(window_state::jfn_wl_scale_known, (&*old(st),), known_before),
        call_ensures(window_state::feed_scale, (st, scale_120, scale_bits), r),
        call_ensures(window_state::jfn_wl_scale_known, (&*final(st),), known),
        call_ensures(window_state::jfn_wl_get_cached_scale, (&*final(st),), scale),
    ensures
        scale_120 > 0 ==> known && scale == scale_bits && r == Some(!known_before),
        scale_120 <= 0 ==> r is None && *final(st) == *old(st),
        final(st).size == old(st).size && final(st).logical == old(st).logical,
        final(st).maximized == old(st).maximized && final(st).fullscreen == old(st).fullscreen,
{
}

/// A scale is known where it is above zero; until then it is one.
pub proof fn law_unknown_scale_is_one(st: WlWindowState, known: bool, scale: u32)
    requires
        call_ensures(window_state::jfn_wl_scale_known, (&st,), known),
        call_ensures(window_state::jfn_wl_get_cached_scale, (&st,), scale),
    ensures
        known == (0 < st.scale_bits <= 0x7F80_0000),
        known ==> scale == st.scale_bits,
        !known ==> scale == 0x3F80_0000,
{
}

/// A window is visible while it is not suspended.
pub proof fn law_suspended_window_is_not_visible(suspended: bool, visible: bool)
    requires
        call_ensures(window_state::feed_suspended, (suspended,), visible),
    ensures
        visible != suspended,
{
}

/// The rest of the application reads the same window as the layers do.
pub proof fn law_window_source_reads_the_window(
    source: WaylandWindowSource,
    st: WlWindowState,
    size: Option<PhysicalSize>,
    maximized: bool,
    fullscreen: bool,
    scale: u32,
    position: Option<(i32, i32)>,
    physical: (i32, i32),
    known: bool,
    cached: u32,
)
    requires
        call_ensures(WaylandWindowSource::size, (&source, &st), size),
        call_ensures(WaylandWindowSource::maximized, (&source, &st), maximized),
        call_ensures(WaylandWindowSource::fullscreen, (&source, &st), fullscreen),
        call_ensures(WaylandWindowSource::scale, (&source, &st), scale),
        call_ensures(WaylandWindowSource::position, (&source,), position),
        call_ensures(window_state::jfn_wl_window_size, (&st,), physical),
        call_ensures(window_state::jfn_wl_window_size_known, (&st,), known),
        call_ensures(window_state::jfn_wl_get_cached_scale, (&st,), cached),
    ensures
        size is Some == known,
        size matches Some(s) ==> s.w == physical.0 && s.h == physical.1,
        maximized == st.maximized && fullscreen == st.fullscreen,
        scale == cached,
        position is None,
{
}

/// The state is set up by the entry point exactly where it can be, in the same
/// way.
pub proof fn law_entry_sets_up(
    already: bool,
    has_display: bool,
    g: Globals,
    root_known: bool,
    r: Option<WlState>,
    direct: Result<WlState, InitError>,
)
    requires
        call_ensures(wl_ffi::jfn_wl_core_init, (already, has_display, g, root_known), r),
        call_ensures(wl_state::init, (already, has_display, g, root_known), direct),
    ensures
        r is Some == direct is Ok,
        r matches Some(st) ==> {
            &&& st.has_root == root_known && st.has_dmabuf == g.dmabuf && st.has_viewporter
                == g.viewporter
            &&& st.surfaces@.len() == 0 && st.stack@.len() == 0
            &&& !st.use_gpu_paint && !st.was_fullscreen
        },
{
}

/// Whether two states have the same layers, stack, order and buffers.
pub open spec fn same_layers(a: WlState, b: WlState) -> bool {
    a.surfaces@ == b.surfaces@ && a.stack@ == b.stack@ && a.scene.order() == b.scene.order()
        && a.buffers@ == b.buffers@
}

/// Freeing, stacking, showing and hiding by handle are those of the layers.
pub proof fn law_entries_act_on_layers(
    handle: usize,
    visible: bool,
    handles: &[usize],
    a: &mut WlState,
    a_out: &mut Vec<StateRequest>,
    a2: &mut WlState,
    a2_out: &mut Vec<StateRequest>,
    b: &mut WlState,
    b_out: &mut Vec<StateRequest>,
    b2: &mut WlState,
    b2_out: &mut Vec<StateRequest>,
    c: &mut WlState,
    c_out: &mut Vec<StateRequest>,
    c2: &mut WlState,
    c2_out: &mut Vec<StateRequest>,
    step: VisibleStep,
    step2: VisibleStep,
)
    requires
        old(a).wf() && old(b).wf() && old(c).wf(),
        *a == *a2 && *b == *b2 && *c == *c2,
        *a_out == *a2_out && *b_out == *b2_out && *c_out == *c2_out,
        call_ensures(wl_ffi::jfn_wl_free_surface, (a, handle, a_out), ()),
        call_ensures(wl_ops::free_surface, (a2, handle, a2_out), ()),
        call_ensures(wl_ffi::jfn_wl_restack, (b, handles, b_out), ()),
        call_ensures(wl_ops::restack, (b2, handles, b2_out), ()),
        call_ensures(wl_ffi::jfn_wl_surface_set_visible, (c, handle, visible, c_out), step),
        call_ensures(wl_ops::surface_set_visible, (c2, handle, visible, c2_out), step2),
    ensures
        same_layers(*final(a), *final(a2)) && final(a_out)@ == final(a2_out)@,
        same_layers(*final(b), *final(b2)) && final(b_out)@ == final(b2_out)@,
        same_layers(*final(c), *final(c2)) && final(c_out)@ == final(c2_out)@ && step == step2,
{
}

/// A frame by handle is that of the layer; without a frame, or with one whose
/// bytes cannot be counted, nothing is shown.
pub proof fn law_entries_show_frames(
    handle: usize,
    win: WlWindowState,
    frame: JfnDmabufFrame,
    fresh: BufferId,
    a: &mut WlState,
    a_out: &mut Vec<StateRequest>,
    a2: &mut WlState,
    a2_out: &mut Vec<StateRequest>,
    lease: Option<DmabufLease>,
    lease2: Option<DmabufLease>,
    n: &mut WlState,
    n_out: &mut Vec<StateRequest>,
    none: Option<DmabufLease>,
    w: i32,
    h: i32,
    b: &mut WlState,
    b_out: &mut Vec<StateRequest>,
    b2: &mut WlState,
    b2_out: &mut Vec<StateRequest>,
    r: (SoftwareStep, usize),
    step: SoftwareStep,
)
    requires
        old(a).wf() && old(b).wf() && old(n).wf(),
        *a == *a2 && *b == *b2,
        *a_out == *a2_out && *b_out == *b2_out,
        call_ensures(
            wl_ffi::jfn_wl_surface_present,
            (a, handle, &win, Some(&frame), fresh, a_out),
            lease,
        ),
        call_ensures(wl_ops::surface_present, (a2, handle, &win, &frame, fresh, a2_out), lease2),
        call_ensures(
            wl_ffi::jfn_wl_surface_present,
            (n, handle, &win, None, fresh, n_out),
            none,
        ),
        call_ensures(
            wl_ffi::jfn_wl_surface_present_software,
            (b, handle, &win, w, h, b_out),
            r,
        ),
        call_ensures(wl_ops::surface_present_software, (b2, handle, &win, w, h, b2_out), step),
    ensures
        lease == lease2 && final(a_out)@ == final(a2_out)@ && final(a).buffers@
            == final(a2).buffers@,
        none is None && *final(n) == *old(n) && final(n_out)@ == old(n_out)@,
        w > 0 && h > 0 && w * h * 4 <= usize::MAX ==> r.0 == step && r.1 == w * h * 4 && final(b_out)@ == final(b2_out)@ && same_layers(*final(b), *final(b2)),
        w <= 0 || h <= 0 || w * h * 4 > usize::MAX ==> r.0 is Refused && r.1 == 0 && *final(b)
            == *old(b) && final(b_out)@ == old(b_out)@,
{
    wl_state::lemma_index(old(b).surfaces@, handle, 0);
}

/// A new layer by handle is that of the layers.
pub proof fn law_entry_makes_a_layer(
    a: &mut WlState,
    a_out: &mut Vec<StateRequest>,
    handle: usize,
    b: &mut WlState,
    b_out: &mut Vec<StateRequest>,
    handle2: usize,
)
    requires
        old(a).wf(),
        old(a).next_handle < usize::MAX,
        *a == *b && *a_out == *b_out,
        call_ensures(wl_ffi::jfn_wl_alloc_surface, (a, a_out), handle),
        call_ensures(wl_ops::alloc_surface, (b, b_out), handle2),
    ensures
        handle == handle2,
        final(a).next_handle == final(b).next_handle,
        final(a).surfaces@.len() == final(b).surfaces@.len(),
        final(a).surfaces@.last().handle == handle,
        final(a).scene.order() == final(b).scene.order(),
{
}

/// The fullscreen state that is noted is read back, and decides what a toggle
/// asks for: the opposite.
pub proof fn law_toggle_asks_for_the_opposite(
    st: &mut Option<WlState>,
    fs: bool,
    controls: bool,
    was: bool,
    toggled: Option<ToplevelRequest>,
    set: Option<ToplevelRequest>,
    n: &mut Option<WlState>,
)
    requires
        *old(st) is Some,
        call_ensures(wl_ffi::jfn_wl_core_set_was_fullscreen, (st, fs), ()),
        *final(st) is Some ==> call_ensures(
            wl_ffi::jfn_wl_was_fullscreen,
            (&((*final(st))->0),),
            was,
        ) && call_ensures(
            wl_ffi::jfn_wl_toggle_fullscreen,
            (controls, &((*final(st))->0)),
            toggled,
        ),
        call_ensures(wl_ffi::jfn_wl_set_fullscreen, (controls, !fs), set),
        *old(n) is None,
        call_ensures(wl_ffi::jfn_wl_core_set_was_fullscreen, (n, fs), ()),
    ensures
        *final(st) is Some,
        was == fs,
        toggled == set,
        (*final(st))->0.surfaces == (*old(st))->0.surfaces,
        (*final(st))->0.stack == (*old(st))->0.stack,
        *final(n) is None,
{
}

/// Window commands by entry point ask the compositor for what they say, and
/// only where the window is under control.
pub proof fn law_window_entries_ask(
    controls: bool,
    on: Option<ToplevelRequest>,
    off: Option<ToplevelRequest>,
    minimize: Option<ToplevelRequest>,
    serial: u32,
    moved: Option<ToplevelRequest>,
    unseated: Option<ToplevelRequest>,
)
    requires
        call_ensures(wl_ffi::jfn_wl_set_fullscreen, (controls, true), on),
        call_ensures(wl_ffi::jfn_wl_set_fullscreen, (controls, false), off),
        call_ensures(wl_ffi::jfn_wl_window_minimize, (controls,), minimize),
        call_ensures(wl_ffi::jfn_wl_window_start_move, (controls, Some(serial)), moved),
        call_ensures(wl_ffi::jfn_wl_window_start_move, (controls, None), unseated),
    ensures
        !controls ==> on is None && off is None && minimize is None && moved is None,
        controls ==> {
            &&& on == Some(ToplevelRequest::SetFullscreen)
            &&& off == Some(ToplevelRequest::UnsetFullscreen)
            &&& minimize == Some(ToplevelRequest::SetMinimized)
            &&& moved == Some(ToplevelRequest::Move { serial })
        },
        unseated is None,
{
}

/// A resize is started at the edge asked for, where that is an edge or a corner
/// of the window.
pub proof fn law_resize_starts_at_the_edge(
    controls: bool,
    seat: Option<u32>,
    edge: i32,
    r: Option<ToplevelRequest>,
)
    requires
        call_ensures(wl_ffi::jfn_wl_window_start_resize, (controls, seat, edge), r),
        0 <= edge,
    ensures
        r is Some ==> controls && seat is Some && r == Some(
            ToplevelRequest::Resize { serial: seat->0, edge: edge as u32 },
        ),
        controls && seat is Some ==> (r is Some == (edge == 0 || edge == 1 || edge == 2 || edge == 4
            || edge == 5 || edge == 6 || edge == 8 || edge == 9 || edge == 10)),
{
}

/// The maximize button changes between the two states with every press, from
/// the state that it was last told.
pub proof fn law_maximize_button_alternates(
    controls: bool,
    told: bool,
    a: &mut MaximizeCommand,
    b: &mut MaximizeCommand,
    first: Option<ToplevelRequest>,
    c: &mut MaximizeCommand,
    second: Option<ToplevelRequest>,
)
    requires
        call_ensures(wl_ffi::sync_maximized_command_state, (a, told), ()),
        *b == *final(a),
        call_ensures(wl_ffi::jfn_wl_window_toggle_maximize, (controls, b), first),
        *c == *final(b),
        call_ensures(wl_ffi::jfn_wl_window_toggle_maximize, (controls, c), second),
    ensures
        !controls ==> first is None && second is None,
        controls && told ==> first == Some(ToplevelRequest::UnsetMaximized) && second == Some(
            ToplevelRequest::SetMaximized,
        ),
        controls && !told ==> first == Some(ToplevelRequest::SetMaximized) && second == Some(
            ToplevelRequest::UnsetMaximized,
        ),
        final(c).maximized == told,
{
}

/// A packed size holds the width in its high word and the height in its low
/// one.
pub proof fn law_width_is_the_high_word(w: i32, h: i32, packed: u64)
    requires
        0 <= w && 0 <= h,
        call_ensures(window_state::pack_size, (w, h), packed),
    ensures
        packed / 0x1_0000_0000 == w,
        packed % 0x1_0000_0000 == h,
{
    assert(packed / 0x1_0000_0000 == w as u64 && packed % 0x1_0000_0000 == h as u64) by (bit_vector)
        requires
            0 <= w,
            0 <= h,
            packed == ((w as u32 as u64) << 32) | (h as u32 as u64),
    ;
}

/// Nothing is known of a window at first.
pub proof fn law_window_is_unknown_at_first(
    st: WlWindowState,
    logical: Option<WindowSize>,
    known: bool,
    scaled: bool,
)
    requires
        call_ensures(WlWindowState::default, (), st),
        call_ensures(window_state::window_logical_size, (&st,), logical),
        call_ensures(window_state::jfn_wl_window_size_known, (&st,), known),
        call_ensures(window_state::jfn_wl_scale_known, (&st,), scaled),
    ensures
        logical is None && !known && !scaled,
        !st.maximized && !st.fullscreen,
{
    window_state::law_nothing_is_known_at_first();
}

/// A number is above zero by its sign, its exponent and its fraction: the sign is
/// clear, it is not zero, and it is not undefined, that is, it has no fraction
/// beside the highest exponent. A scale that is not above zero counts as one,
/// the number with the exponent in the middle.
pub proof fn law_sign_of_a_number(narrow: u32, r: bool, scale: u32, wide: u64, rw: bool)
    requires
        call_ensures(bits::positive_f32, (narrow,), r),
        call_ensures(bits::positive_scale, (narrow,), scale),
        call_ensures(bits::positive_f64, (wide,), rw),
    ensures
        r == (narrow / 0x8000_0000 == 0 && narrow != 0 && !(narrow / 0x80_0000 % 256 == 255 && narrow
            % 0x80_0000 != 0)),
        r ==> scale == narrow,
        !r ==> scale / 0x80_0000 == 127 && scale % 0x80_0000 == 0,
        rw == (wide / 0x8000_0000_0000_0000 == 0 && wide != 0 && !(wide / 0x10_0000_0000_0000
            % 2048 == 2047 && wide % 0x10_0000_0000_0000 != 0)),
{
}

} // verus!
