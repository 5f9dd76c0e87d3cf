//! Entry points of the Wayland backend by handle.
use crate::wayland::buffers::BufferId;
use crate::wayland::dmabuf_pool;
use crate::wayland::dmabuf_pool::DmabufLease;
use crate::wayland::root_window;
use crate::wayland::root_window::ToplevelRequest;
use crate::wayland::scene;
use crate::wayland::scene::{LayerId, SceneEvent};
use crate::wayland::window_state::WlWindowState;
use crate::wayland::wl_ops;
use crate::wayland::wl_ops::{JfnDmabufFrame, SoftwareStep, VisibleStep};
use crate::wayland::wl_state;
use crate::wayland::wl_state::{Globals, StateRequest, WlState};
use vstd::prelude::*;

verus! {

/// Sets the state of the layers up; none where that is not possible.
pub fn jfn_wl_core_init(already: bool, has_display: bool, g: Globals, root_known: bool) -> (r:
    Option<WlState>)
    ensures
        r is Some == (wl_state::init_error(already, has_display, g) is None),
        r matches Some(st) ==> wl_state::is_initial(st, g, root_known),
{
    match wl_state::init(already, has_display, g, root_known) {
        Ok(st) => Some(st),
        Err(_) => None,
    }
}

/// The state, where there is one, with the fullscreen state noted.
pub open spec fn seeded(st: Option<WlState>, fs: bool) -> Option<WlState> {
    match st {
        Some(s) => Some(WlState { was_fullscreen: fs, ..s }),
        None => None,
    }
}

/// Notes whether the window is fullscreen, where there is a state to note it
/// in.
pub fn jfn_wl_core_set_was_fullscreen(st: &mut Option<WlState>, fs: bool)
    ensures
        *final(st) == seeded(*old(st), fs),
{
    if let Some(mut s) = st.take() {
        s.was_fullscreen = fs;
        *st = Some(s);
    }
}

/// Once the state is set up and the player's fullscreen state noted in it, the
/// window was fullscreen exactly where the player is, and nothing else has
/// changed.
pub proof fn law_seed_is_kept(st: WlState, g: Globals, root_known: bool, fs: bool)
    requires
        wl_state::is_initial(st, g, root_known),
    ensures
        seeded(Some(st), fs) matches Some(now) && now.was_fullscreen == fs && now.wf()
            && wl_state::is_initial(WlState { was_fullscreen: false, ..now }, g, root_known),
{
}

/// Makes a new layer and gives its handle.
pub fn jfn_wl_alloc_surface(st: &mut WlState, out: &mut Vec<StateRequest>) -> (handle: usize)
    requires
        old(st).wf(),
        old(st).next_handle < usize::MAX,
    ensures
        final(st).wf(),
        handle == old(st).next_handle,
        final(st).surfaces@.len() == old(st).surfaces@.len() + 1,
        final(st).surfaces@.drop_last() == old(st).surfaces@,
        *final(st) == (WlState {
            surfaces: final(st).surfaces,
            scene: final(st).scene,
            next_handle: (handle + 1) as usize,
            ..*old(st)
        }),
        wl_ops::is_new_layer(
            final(st).surfaces@.last(),
            handle,
            old(st).has_viewporter,
            old(st).has_root,
        ),
        final(st).scene.order() == scene::next_order(
            old(st).scene.order(),
            SceneEvent::LayerAdded(LayerId(handle)),
        ),
        final(out)@ == old(out)@ + wl_ops::new_layer_requests(
            handle,
            old(st).has_viewporter,
            old(st).has_root,
        ) + wl_state::dispatch_requests(
            final(st).surfaces@,
            old(st).scene.order(),
            final(st).scene.order(),
        ) + seq![StateRequest::RequestPresent],
{
    wl_ops::alloc_surface(st, out)
}

/// Frees a layer.
pub fn jfn_wl_free_surface(st: &mut WlState, handle: usize, out: &mut Vec<StateRequest>)
    requires
        old(st).wf(),
    ensures
        final(st).wf(),
        match wl_state::index_of(old(st).surfaces@, handle) {
            None => *final(st) == *old(st) && final(out)@ == old(out)@,
            Some(i) => {
                let s = old(st).surfaces@[i];
                &&& final(st).surfaces@ == old(st).surfaces@.remove(i)
                &&& final(st).stack@ == wl_ops::stack_without(old(st).stack@, handle)
                &&& final(st).buffers@ == wl_ops::freed_buffers(s, old(st).buffers@)
                &&& final(st).scene.order() == scene::next_order(
                    old(st).scene.order(),
                    SceneEvent::LayerRemoved(LayerId(handle)),
                )
                &&& *final(st) == (WlState {
                    surfaces: final(st).surfaces,
                    stack: final(st).stack,
                    scene: final(st).scene,
                    buffers: final(st).buffers,
                    ..*old(st)
                })
                &&& final(out)@ == old(out)@ + wl_ops::shutdown_requests(s)
                    + wl_state::dispatch_requests(
                    old(st).surfaces@,
                    old(st).scene.order(),
                    final(st).scene.order(),
                ) + wl_ops::drop_layer_requests(s, old(st).buffers@)
            },
        },
{
    wl_ops::free_surface(st, handle, out);
}

/// Stacks the layers in this order, bottom first.
pub fn jfn_wl_restack(st: &mut WlState, handles: &[usize], out: &mut Vec<StateRequest>)
    requires
        old(st).wf(),
    ensures
        final(st).wf(),
        final(st).stack@ == handles@,
        *final(st) == (WlState { stack: final(st).stack, scene: final(st).scene, ..*old(st) }),
        final(st).scene.order() == scene::known_of(
            wl_ops::layers_of(handles@),
            old(st).scene.order(),
        ),
        final(out)@ == old(out)@ + wl_state::dispatch_requests(
            old(st).surfaces@,
            old(st).scene.order(),
            final(st).scene.order(),
        ),
{
    wl_ops::restack(st, handles, out);
}

/// Shows or hides a layer.
pub fn jfn_wl_surface_set_visible(
    st: &mut WlState,
    handle: usize,
    visible: bool,
    out: &mut Vec<StateRequest>,
) -> (r: VisibleStep)
    requires
        old(st).wf(),
    ensures
        final(st).wf(),
        match wl_state::index_of(old(st).surfaces@, handle) {
            None => *final(st) == *old(st) && final(out)@ == old(out)@ && r == VisibleStep::Done,
            Some(i) => {
                let s = old(st).surfaces@[i];
                let gpu = old(st).use_gpu_paint;
                &&& r == wl_ops::visible_step(s, gpu, visible)
                &&& final(st).surfaces@ == old(st).surfaces@.update(
                    i,
                    wl_ops::made_visible(s, gpu, visible),
                )
                &&& final(st).buffers@ == if wl_ops::hides(s, gpu, visible) {
                    dmabuf_pool::given_up(old(st).buffers@, s.buffer)
                } else {
                    old(st).buffers@
                }
                &&& *final(st) == (WlState {
                    surfaces: final(st).surfaces,
                    buffers: final(st).buffers,
                    ..*old(st)
                })
                &&& final(out)@ == old(out)@ + wl_ops::visible_requests(
                    s,
                    gpu,
                    visible,
                    old(st).buffers@,
                )
            },
        },
{
    wl_ops::surface_set_visible(st, handle, visible, out)
}

/// Shows a GPU frame in a layer. Without a frame nothing happens.
pub fn jfn_wl_surface_present(
    st: &mut WlState,
    handle: usize,
    win: &WlWindowState,
    frame: Option<&JfnDmabufFrame>,
    fresh: BufferId,
    out: &mut Vec<StateRequest>,
) -> (r: Option<DmabufLease>)
    requires
        old(st).wf(),
    ensures
        final(st).wf(),
        match (wl_state::index_of(old(st).surfaces@, handle), frame) {
            (Some(i), Some(f)) if wl_ops::takes_frame(
                old(st).surfaces@[i],
                old(st).has_dmabuf,
                *win,
                *f,
            ) => {
                let s = old(st).surfaces@[i];
                &&& r == Some(
                    dmabuf_pool::lease_of(
                        s.dmabuf_pool@,
                        old(st).buffers@,
                        f.id,
                        wl_ops::shape_of(*f),
                        fresh,
                    ),
                )
                &&& wl_ops::with_frame(s, final(st).surfaces@[i], *f, r->0)
                &&& final(st).surfaces@ == old(st).surfaces@.update(i, final(st).surfaces@[i])
                &&& final(st).surfaces@[i].dmabuf_pool@ == dmabuf_pool::leased_pool(
                    s.dmabuf_pool@,
                    old(st).buffers@,
                    f.id,
                    wl_ops::shape_of(*f),
                    fresh,
                )
                &&& final(st).buffers@ == wl_ops::frame_buffers(s, old(st).buffers@, *f, fresh)
                &&& *final(st) == (WlState {
                    surfaces: final(st).surfaces,
                    buffers: final(st).buffers,
                    ..*old(st)
                })
                &&& final(out)@ == old(out)@ + wl_ops::frame_requests(
                    s,
                    *win,
                    old(st).buffers@,
                    *f,
                    fresh,
                )
            },
            _ => r is None && *final(st) == *old(st) && final(out)@ == old(out)@,
        },
{
    match frame {
        Some(f) => wl_ops::surface_present(st, handle, win, f, fresh, out),
        None => None,
    }
}

/// The number of bytes of a software frame; none where its size is not
/// positive or does not fit.
pub open spec fn software_len(w: i32, h: i32) -> Option<int> {
    if w <= 0 || h <= 0 || w * h * 4 > usize::MAX {
        None
    } else {
        Some(w * h * 4)
    }
}

fn byte_len(w: i32, h: i32) -> (r: Option<usize>)
    ensures
        match r {
            Some(n) => software_len(w, h) == Some(n as int),
            None => software_len(w, h) is None,
        },
{
    if w <= 0 || h <= 0 {
        return None;
    }
    assert(0 < w * h) by (nonlinear_arith)
        requires
            w > 0,
            h > 0,
    ;
    match (w as usize).checked_mul(h as usize) {
        Some(n) => n.checked_mul(4),
        None => None,
    }
}

/// Takes a software frame for a layer. What comes back beside the step is the
/// number of bytes that a frame of this size has, zero where it has none.
pub fn jfn_wl_surface_present_software(
    st: &mut WlState,
    handle: usize,
    win: &WlWindowState,
    w: i32,
    h: i32,
    out: &mut Vec<StateRequest>,
) -> (r: (SoftwareStep, usize))
    requires
        old(st).wf(),
    ensures
        final(st).wf(),
        r.1 == match software_len(w, h) {
            Some(n) => n,
            None => 0,
        },
        match (wl_state::index_of(old(st).surfaces@, handle), software_len(w, h)) {
            (Some(i), Some(_)) => {
                let s = old(st).surfaces@[i];
                &&& r.0 == wl_ops::software_step(
                    s,
                    old(st).use_gpu_paint,
                    old(st).has_gpu_ctx,
                    *win,
                    w,
                    h,
                )
                &&& final(st).surfaces@ == old(st).surfaces@.update(
                    i,
                    wl_ops::with_software(s, r.0, w, h),
                )
                &&& *final(st) == (WlState { surfaces: final(st).surfaces, ..*old(st) })
                &&& final(out)@ == old(out)@ + wl_ops::software_requests(s, r.0, *win, w, h)
            },
            _ => r.0 == SoftwareStep::Refused && *final(st) == *old(st) && final(out)@
                == old(out)@,
        },
{
    match byte_len(w, h) {
        Some(len) => {
            let step = wl_ops::surface_present_software(st, handle, win, w, h, out);
            (step, len)
        },
        None => (SoftwareStep::Refused, 0),
    }
}

/// Whether the window was fullscreen at the last configure.
pub fn jfn_wl_was_fullscreen(st: &WlState) -> (r: bool)
    ensures
        r == st.was_fullscreen,
{
    wl_ops::was_fullscreen(st)
}

/// Enters or leaves fullscreen.
pub fn jfn_wl_set_fullscreen(controls: bool, fullscreen: bool) -> (r: Option<ToplevelRequest>)
    ensures
        r == if !controls {
            None
        } else if fullscreen {
            Some(ToplevelRequest::SetFullscreen)
        } else {
            Some(ToplevelRequest::UnsetFullscreen)
        },
{
    root_window::set_fullscreen(controls, fullscreen)
}

/// Changes between fullscreen and not.
pub fn jfn_wl_toggle_fullscreen(controls: bool, st: &WlState) -> (r: Option<ToplevelRequest>)
    ensures
        r == if !controls {
            None
        } else if st.was_fullscreen {
            Some(ToplevelRequest::UnsetFullscreen)
        } else {
            Some(ToplevelRequest::SetFullscreen)
        },
{
    root_window::set_fullscreen(controls, !wl_ops::was_fullscreen(st))
}

/// What the maximize button last asked for, or was told.
#[derive(Clone, Copy, Debug, PartialEq, Eq, Structural)]
pub struct MaximizeCommand {
    pub maximized: bool,
}

/// Minimizes the window.
pub fn jfn_wl_window_minimize(controls: bool) -> (r: Option<ToplevelRequest>)
    ensures
        r == if controls {
            Some(ToplevelRequest::SetMinimized)
        } else {
            None
        },
{
    root_window::set_minimized(controls)
}

/// Changes between maximized and not.
pub fn jfn_wl_window_toggle_maximize(controls: bool, command: &mut MaximizeCommand) -> (r: Option<
    ToplevelRequest,
>)
    ensures
        final(command).maximized == !old(command).maximized,
        r == if !controls {
            None
        } else if old(command).maximized {
            Some(ToplevelRequest::UnsetMaximized)
        } else {
            Some(ToplevelRequest::SetMaximized)
        },
{
    let next = !command.maximized;
    command.maximized = next;
    root_window::set_maximized(controls, next)
}

/// Tells the maximize button the compositor's state, so that it follows a
/// change that it did not ask for.
pub fn sync_maximized_command_state(command: &mut MaximizeCommand, maximized: bool)
    ensures
        final(command).maximized == maximized,
{
    command.maximized = maximized;
}

/// Starts a move by the pointer.
pub fn jfn_wl_window_start_move(controls: bool, seat: Option<u32>) -> (r: Option<ToplevelRequest>)
    ensures
        r == match seat {
            Some(serial) if controls => Some(ToplevelRequest::Move { serial }),
            _ => None,
        },
{
    root_window::start_move(controls, seat)
}

/// Starts a resize by the pointer at an edge. A negative edge is none that
/// the protocol knows.
pub fn jfn_wl_window_start_resize(controls: bool, seat: Option<u32>, edge: i32) -> (r: Option<
    ToplevelRequest,
>)
    ensures
        r == match seat {
            Some(serial) if controls && root_window::is_resize_edge(edge as u32) => Some(
                ToplevelRequest::Resize { serial, edge: edge as u32 },
            ),
            _ => None,
        },
{
    root_window::start_resize(controls, seat, edge as u32)
}

} // verus!
