//! What the layers and their popups show.
use crate::laws::layers;
use crate::wayland::buffers;
use crate::wayland::buffers::{BufferId, ManagedBuffer, ManagedBuffers};
use crate::wayland::dmabuf_pool;
use crate::wayland::dmabuf_pool::{DmabufBuf, DmabufLease, FrameShape, TextureId};
use crate::wayland::requests::Request;
use crate::wayland::shm_paint_worker::ViewportState;
use crate::wayland::window_state;
use crate::wayland::window_state::{WindowSize, WlWindowState};
use crate::wayland::wl_ops;
use crate::wayland::wl_ops::{JfnDmabufFrame, SoftwareStep, VisibleStep};
use crate::wayland::wl_state;
use crate::wayland::wl_state::{PlatformSurface, StateRequest, WlState};
use vstd::prelude::*;

verus! {

/// Whether a state has the same layers as another, apart from one.
pub open spec fn only_changes(before: WlState, after: WlState, i: int) -> bool {
    &&& after.surfaces@.len() == before.surfaces@.len()
    &&& forall|j: int|
        0 <= j < before.surfaces@.len() && j != i ==> #[trigger] after.surfaces@[j]
            == before.surfaces@[j]
    &&& after.surfaces@[i].handle == before.surfaces@[i].handle
    &&& after.stack == before.stack && after.scene == before.scene
    &&& after.has_root == before.has_root && after.next_handle == before.next_handle
    &&& after.use_gpu_paint == before.use_gpu_paint && after.has_gpu_ctx == before.has_gpu_ctx
    &&& after.was_fullscreen == before.was_fullscreen
}

/// Whether nothing was done.
pub open spec fn nothing_done(
    before: WlState,
    after: WlState,
    sent: Seq<StateRequest>,
    now: Seq<StateRequest>,
) -> bool {
    before.surfaces@ == after.surfaces@ && before.buffers@ == after.buffers@ && before.stack
        == after.stack && before.scene == after.scene && sent == now
}

/// A layer that is told its own visibility again does nothing.
pub proof fn law_same_visibility_does_nothing(
    st: &mut WlState,
    handle: usize,
    visible: bool,
    out: &mut Vec<StateRequest>,
    r: VisibleStep,
    i: int,
)
    requires
        old(st).wf(),
        call_ensures(wl_ops::surface_set_visible, (st, handle, visible, out), r),
        0 <= i < old(st).surfaces@.len(),
        old(st).surfaces@[i].handle == handle,
        old(st).surfaces@[i].visible == visible,
    ensures
        r == VisibleStep::Done,
        nothing_done(*old(st), *final(st), old(out)@, final(out)@),
{
    layers::lemma_at(*old(st), i);
    assert(final(st).surfaces@ =~= old(st).surfaces@);
    assert(final(out)@ =~= old(out)@);
}

/// A change of visibility is noted in the layer, and in no other.
pub proof fn law_visibility_is_noted(
    st: &mut WlState,
    handle: usize,
    visible: bool,
    out: &mut Vec<StateRequest>,
    r: VisibleStep,
    i: int,
)
    requires
        old(st).wf(),
        call_ensures(wl_ops::surface_set_visible, (st, handle, visible, out), r),
        0 <= i < old(st).surfaces@.len(),
        old(st).surfaces@[i].handle == handle,
    ensures
        final(st).surfaces@[i].visible == visible,
        only_changes(*old(st), *final(st), i),
        ({
            let s = old(st).surfaces@[i];
            let t = final(st).surfaces@[i];
            &&& visible ==> t.buffer == s.buffer && t.null_attached == s.null_attached
                && t.placeholder == s.placeholder
            &&& t.has_gpu_worker == s.has_gpu_worker && t.has_shm_worker == s.has_shm_worker
            &&& t.popup_buffer == s.popup_buffer && t.has_popup == s.has_popup
            &&& t.dmabuf_pool == s.dmabuf_pool
        }),
        layers::keeps(old(out)@, final(out)@),
{
    layers::lemma_at(*old(st), i);
    layers::lemma_since(
        old(out)@,
        final(out)@,
        wl_ops::visible_requests(
            old(st).surfaces@[i],
            old(st).use_gpu_paint,
            visible,
            old(st).buffers@,
        ),
    );
}

/// Under GPU paint a change of visibility is told to the layer's GPU worker,
/// where it has one, and nothing else happens.
pub proof fn law_gpu_worker_is_told_visibility(
    st: &mut WlState,
    handle: usize,
    visible: bool,
    out: &mut Vec<StateRequest>,
    r: VisibleStep,
    i: int,
)
    requires
        old(st).wf(),
        call_ensures(wl_ops::surface_set_visible, (st, handle, visible, out), r),
        0 <= i < old(st).surfaces@.len(),
        old(st).surfaces@[i].handle == handle,
        old(st).surfaces@[i].visible != visible,
        old(st).surfaces@[i].has_surface,
        old(st).use_gpu_paint,
    ensures
        r == VisibleStep::Done,
        old(st).surfaces@[i].has_gpu_worker ==> layers::since(old(out)@, final(out)@) == seq![
            StateRequest::ShowGpuWorker(handle, visible),
        ],
        !old(st).surfaces@[i].has_gpu_worker ==> final(out)@ == old(out)@,
        final(st).buffers@ == old(st).buffers@,
        final(st).surfaces@[i].buffer == old(st).surfaces@[i].buffer,
        final(st).surfaces@[i].null_attached == old(st).surfaces@[i].null_attached,
{
    layers::lemma_at(*old(st), i);
    layers::lemma_since(
        old(out)@,
        final(out)@,
        wl_ops::visible_requests(
            old(st).surfaces@[i],
            true,
            visible,
            old(st).buffers@,
        ),
    );
    assert(!old(st).surfaces@[i].has_gpu_worker ==> final(out)@ =~= old(out)@);
}

/// Without GPU paint a change of visibility is told to the layer's
/// shared-memory worker; on hiding the surface shows nothing from then on.
pub proof fn law_shm_worker_is_told_visibility(
    st: &mut WlState,
    handle: usize,
    visible: bool,
    out: &mut Vec<StateRequest>,
    r: VisibleStep,
    i: int,
)
    requires
        old(st).wf(),
        call_ensures(wl_ops::surface_set_visible, (st, handle, visible, out), r),
        0 <= i < old(st).surfaces@.len(),
        old(st).surfaces@[i].handle == handle,
        old(st).surfaces@[i].visible != visible,
        old(st).surfaces@[i].has_surface,
        !old(st).use_gpu_paint,
        old(st).surfaces@[i].has_shm_worker,
    ensures
        r == VisibleStep::Done,
        ({
            let d = layers::since(old(out)@, final(out)@);
            &&& d[0] == StateRequest::ShowShmWorker(handle, visible)
            &&& visible ==> d.len() == 1
            &&& !visible ==> layers::precedes(
                d,
                StateRequest::Layer(handle, Request::Detach),
                StateRequest::Layer(handle, Request::Commit),
            )
            &&& !visible ==> d.last() == StateRequest::Flush && d.len() == 4
        }),
        !visible ==> final(st).surfaces@[i].null_attached,
        final(st).buffers@ == old(st).buffers@,
{
    layers::lemma_at(*old(st), i);
    let d = wl_ops::visible_requests(old(st).surfaces@[i], false, visible, old(st).buffers@);
    layers::lemma_since(old(out)@, final(out)@, d);
    if !visible {
        assert(d[1] == StateRequest::Layer(handle, Request::Detach));
        assert(d[2] == StateRequest::Layer(handle, Request::Commit));
    }
}

/// A layer that shows its own buffers asks for a placeholder on showing, and
/// for nothing else. On hiding it is detached, committed, and gives its buffer
/// up: at once where the compositor does not read it.
pub proof fn law_own_buffers_follow_visibility(
    st: &mut WlState,
    handle: usize,
    visible: bool,
    out: &mut Vec<StateRequest>,
    r: VisibleStep,
    i: int,
    b: BufferId,
    idle: bool,
)
    requires
        old(st).wf(),
        call_ensures(wl_ops::surface_set_visible, (st, handle, visible, out), r),
        0 <= i < old(st).surfaces@.len(),
        old(st).surfaces@[i].handle == handle,
        old(st).surfaces@[i].visible != visible,
        old(st).surfaces@[i].has_surface,
        !old(st).use_gpu_paint,
        !old(st).surfaces@[i].has_shm_worker,
        call_ensures(ManagedBuffers::buffer_is_idle, (&old(st).buffers, b), idle),
    ensures
        visible ==> r == VisibleStep::NeedPlaceholder && final(out)@ == old(out)@
            && final(st).buffers@ == old(st).buffers@,
        !visible ==> {
            let d = layers::since(old(out)@, final(out)@);
            let t = final(st).surfaces@[i];
            &&& r == VisibleStep::Done
            &&& t.buffer is None && !t.placeholder && t.null_attached
            &&& layers::precedes(
                d,
                StateRequest::Layer(handle, Request::Detach),
                StateRequest::Layer(handle, Request::Commit),
            )
            &&& d.last() == StateRequest::RequestPresent
            &&& old(st).surfaces@[i].buffer == Some(b) ==> d.contains(
                StateRequest::Layer(handle, Request::DestroyBuffer(b)),
            ) == idle
        },
{
    layers::lemma_at(*old(st), i);
    let s = old(st).surfaces@[i];
    let d = wl_ops::visible_requests(s, false, visible, old(st).buffers@);
    layers::lemma_since(old(out)@, final(out)@, d);
    if !visible {
        assert(d[0] == StateRequest::Layer(handle, Request::Detach));
        assert(d[1] == StateRequest::Layer(handle, Request::Commit));
        assert(d.last() == StateRequest::RequestPresent);
        layers::lemma_cats();
    } else {
        assert(final(out)@ =~= old(out)@);
    }
}

/// Whether a handle names no layer.
pub open spec fn names_none(st: WlState, handle: usize) -> bool {
    forall|a: int| 0 <= a < st.surfaces@.len() ==> (#[trigger] st.surfaces@[a]).handle != handle
}

/// A handle that names no layer shows and hides nothing.
pub proof fn law_visibility_needs_a_layer(
    st: &mut WlState,
    handle: usize,
    visible: bool,
    out: &mut Vec<StateRequest>,
    r: VisibleStep,
)
    requires
        old(st).wf(),
        call_ensures(wl_ops::surface_set_visible, (st, handle, visible, out), r),
        names_none(*old(st), handle),
    ensures
        r == VisibleStep::Done,
        nothing_done(*old(st), *final(st), old(out)@, final(out)@),
{
    layers::lemma_none(*old(st), handle);
}

proof fn lemma_first_same(m: Seq<ManagedBuffer>, n: Seq<ManagedBuffer>, buf: BufferId, i: int)
    requires
        0 <= i,
        m.len() == n.len(),
        forall|j: int| 0 <= j < m.len() ==> (#[trigger] m[j]).buf == n[j].buf,
    ensures
        buffers::first_from(m, buf, i) == buffers::first_from(n, buf, i),
    decreases m.len() - i,
{
    if i < m.len() {
        assert(m[i].buf == n[i].buf);
        lemma_first_same(m, n, buf, i + 1);
    }
}

proof fn lemma_first_is(m: Seq<ManagedBuffer>, buf: BufferId, i: int)
    requires
        0 <= i,
    ensures
        buffers::first_from(m, buf, i) matches Some(k) ==> i <= k < m.len() && m[k].buf == buf,
    decreases m.len() - i,
{
    if i < m.len() && m[i].buf != buf {
        lemma_first_is(m, buf, i + 1);
    }
}

/// A buffer that was attached is read by the compositor.
pub proof fn lemma_attached_is_read(m: Seq<ManagedBuffer>, buf: BufferId)
    ensures
        !buffers::is_idle(buffers::attached(m, buf), buf),
{
    lemma_first_is(m, buf, 0);
    lemma_first_same(m, buffers::attached(m, buf), buf, 0);
}

/// A placeholder that could be made is shown in its layer: attached as one
/// pixel, stretched over the window, and committed. The compositor reads it
/// from then on.
pub proof fn law_placeholder_is_shown(
    st: &mut WlState,
    handle: usize,
    win: WlWindowState,
    b: BufferId,
    out: &mut Vec<StateRequest>,
    logical: Option<WindowSize>,
    idle: bool,
    i: int,
)
    requires
        old(st).wf(),
        call_ensures(wl_ops::placeholder_ready, (st, handle, &win, Some(b), out), ()),
        call_ensures(window_state::window_logical_size, (&win,), logical),
        call_ensures(ManagedBuffers::buffer_is_idle, (&final(st).buffers, b), idle),
        0 <= i < old(st).surfaces@.len(),
        old(st).surfaces@[i].handle == handle,
    ensures
        ({
            let s = old(st).surfaces@[i];
            let t = final(st).surfaces@[i];
            let d = layers::since(old(out)@, final(out)@);
            let n = d.len();
            &&& t.buffer == Some(b) && t.placeholder && !t.null_attached
            &&& t.visible == s.visible
            &&& n >= 5
            &&& d[n - 5] == StateRequest::Layer(handle, Request::Attach(b))
            &&& d[n - 4] == StateRequest::Layer(handle, Request::Damage { w: 1, h: 1 })
            &&& d[n - 3] == StateRequest::Layer(handle, Request::Commit)
            &&& d[n - 1] == StateRequest::RequestPresent
            &&& s.has_viewport ==> d.contains(
                StateRequest::Layer(handle, Request::SetSource { x: 0, y: 0, w: 1, h: 1 }),
            )
            &&& s.has_viewport && logical is Some ==> d.contains(
                StateRequest::Layer(
                    handle,
                    Request::SetDestination { w: (logical->0).w, h: (logical->0).h },
                ),
            )
        }),
        !idle,
        only_changes(*old(st), *final(st), i),
        layers::keeps(old(out)@, final(out)@),
{
    layers::lemma_at(*old(st), i);
    let s = old(st).surfaces@[i];
    let m = buffers::with_new(old(st).buffers@, b);
    let p = wl_ops::placeholder_requests(s, win, m, b);
    let q = seq![StateRequest::RequestPresent];
    let d = p + q;
    assert(old(out)@ + p + q =~= old(out)@ + d);
    layers::lemma_since(old(out)@, final(out)@, d);
    lemma_attached_is_read(dmabuf_pool::given_up(m, s.buffer), b);
    let n = d.len();
    assert(d[n - 5] == StateRequest::Layer(handle, Request::Attach(b)));
    layers::lemma_cats();
}

/// Without a buffer, or without a layer, no placeholder is shown; the commit of
/// the root is asked for all the same.
pub proof fn law_missing_placeholder_is_done_without(
    st: &mut WlState,
    handle: usize,
    win: WlWindowState,
    b: Option<BufferId>,
    out: &mut Vec<StateRequest>,
)
    requires
        old(st).wf(),
        call_ensures(wl_ops::placeholder_ready, (st, handle, &win, b, out), ()),
        b is None || names_none(*old(st), handle),
    ensures
        *final(st) == *old(st),
        layers::since(old(out)@, final(out)@) == seq![StateRequest::RequestPresent],
{
    if b is Some {
        layers::lemma_none(*old(st), handle);
    }
    let q = seq![StateRequest::RequestPresent];
    assert(final(out)@ =~= old(out)@ + q);
    layers::lemma_since(old(out)@, final(out)@, q);
}

/// The popup of a layer is shown at the place asked for, in the logical size
/// asked for where it has a viewport. Its surface is made where the layer has
/// none yet, and only then.
pub proof fn law_popup_is_shown_in_place(
    st: &mut WlState,
    handle: usize,
    x: i32,
    y: i32,
    lw: i32,
    lh: i32,
    out: &mut Vec<StateRequest>,
    i: int,
)
    requires
        old(st).wf(),
        call_ensures(wl_ops::popup_show, (st, handle, x, y, lw, lh, out), ()),
        0 <= i < old(st).surfaces@.len(),
        old(st).surfaces@[i].handle == handle,
    ensures
        ({
            let s = old(st).surfaces@[i];
            let t = final(st).surfaces@[i];
            let d = layers::since(old(out)@, final(out)@);
            let made = s.has_surface && !s.has_popup;
            &&& t.popup_visible
            &&& t.has_popup == (s.has_popup || s.has_surface)
            &&& made ==> t.has_popup_viewport == old(st).has_viewporter
            &&& !made ==> t.has_popup_viewport == s.has_popup_viewport
            &&& t.popup_buffer == s.popup_buffer && t.buffer == s.buffer && t.visible == s.visible
            &&& d.contains(StateRequest::Popup(handle, Request::CreateSurface)) == made
            &&& d.contains(StateRequest::Popup(handle, Request::CreateSubsurface)) == made
            &&& d.contains(StateRequest::Popup(handle, Request::EmptyInputRegion)) == made
            &&& d.contains(StateRequest::Popup(handle, Request::CreateViewport)) == (made && old(st).has_viewporter)
            &&& t.has_popup ==> d.contains(
                StateRequest::Popup(handle, Request::SetPosition { x, y }),
            ) && d.last() == StateRequest::Flush
            &&& d.contains(StateRequest::Popup(handle, Request::SetDestination { w: lw, h: lh }))
                == (t.has_popup && t.has_popup_viewport && lw > 0 && lh > 0)
            &&& !t.has_popup ==> d.len() == 0
        }),
        only_changes(*old(st), *final(st), i),
        layers::keeps(old(out)@, final(out)@),
{
    layers::lemma_at(*old(st), i);
    let d = wl_ops::popup_show_requests(
        old(st).surfaces@[i],
        old(st).has_viewporter,
        x,
        y,
        lw,
        lh,
    );
    layers::lemma_since(old(out)@, final(out)@, d);
    layers::lemma_cats();
    if final(st).surfaces@[i].has_popup {
        assert(d.last() == StateRequest::Flush);
    }
}

/// A popup that is hidden takes no frame any more, and its buffer is no longer
/// its own.
pub proof fn law_hidden_popup_takes_no_frame(
    st: &mut WlState,
    handle: usize,
    out: &mut Vec<StateRequest>,
    i: int,
    lw: i32,
    lh: i32,
    ready: bool,
)
    requires
        old(st).wf(),
        call_ensures(wl_ops::popup_hide, (st, handle, out), ()),
        call_ensures(wl_ops::popup_ready, (&*final(st), handle, lw, lh), ready),
        0 <= i < old(st).surfaces@.len(),
        old(st).surfaces@[i].handle == handle,
    ensures
        ({
            let s = old(st).surfaces@[i];
            let t = final(st).surfaces@[i];
            &&& !t.has_popup && !t.popup_visible && !t.has_popup_viewport
            &&& t.popup_buffer is None
            &&& t.buffer == s.buffer && t.visible == s.visible
        }),
        !ready,
        only_changes(*old(st), *final(st), i),
{
    layers::lemma_at(*old(st), i);
    layers::lemma_at(*final(st), i);
}

/// A popup that is hidden is taken down: exactly what it has is destroyed, and
/// its buffer is given up, at once where the compositor does not read it.
pub proof fn law_hidden_popup_is_taken_down(
    st: &mut WlState,
    handle: usize,
    out: &mut Vec<StateRequest>,
    i: int,
    b: BufferId,
    idle: bool,
)
    requires
        old(st).wf(),
        call_ensures(wl_ops::popup_hide, (st, handle, out), ()),
        call_ensures(ManagedBuffers::buffer_is_idle, (&old(st).buffers, b), idle),
        0 <= i < old(st).surfaces@.len(),
        old(st).surfaces@[i].handle == handle,
    ensures
        ({
            let s = old(st).surfaces@[i];
            let d = layers::since(old(out)@, final(out)@);
            &&& d.contains(StateRequest::Popup(handle, Request::DestroySurface)) == s.has_popup
            &&& d.contains(StateRequest::Popup(handle, Request::DestroySubsurface)) == s.has_popup
            &&& d.contains(StateRequest::Popup(handle, Request::DestroyViewport))
                == s.has_popup_viewport
            &&& s.popup_buffer == Some(b) ==> d.contains(
                StateRequest::Layer(handle, Request::DestroyBuffer(b)),
            ) == idle
            &&& d.last() == StateRequest::Flush
        }),
        layers::keeps(old(out)@, final(out)@),
{
    layers::lemma_at(*old(st), i);
    let s = old(st).surfaces@[i];
    let m = old(st).buffers@;
    let p = wl_ops::drop_popup_requests(s, m);
    let q = seq![StateRequest::Flush];
    layers::lemma_two(old(out)@, p, q);
    layers::lemma_since(old(out)@, final(out)@, p + q);
    lemma_hidden(s, m, StateRequest::Popup(handle, Request::DestroySurface));
    lemma_hidden(s, m, StateRequest::Popup(handle, Request::DestroySubsurface));
    lemma_hidden(s, m, StateRequest::Popup(handle, Request::DestroyViewport));
    lemma_hidden(s, m, StateRequest::Layer(handle, Request::DestroyBuffer(b)));
}

proof fn lemma_hidden(s: PlatformSurface, m: Seq<ManagedBuffer>, x: StateRequest)
    ensures
        (wl_ops::drop_popup_requests(s, m) + seq![StateRequest::Flush]).contains(x) == {
            ||| s.has_popup_viewport && x == StateRequest::Popup(
                s.handle,
                Request::DestroyViewport,
            )
            ||| s.popup_buffer is Some && x == StateRequest::Layer(
                s.handle,
                Request::DestroyBuffer(s.popup_buffer->0),
            ) && buffers::is_idle(m, s.popup_buffer->0)
            ||| s.has_popup && x == StateRequest::Popup(s.handle, Request::DestroySubsurface)
            ||| s.has_popup && x == StateRequest::Popup(s.handle, Request::DestroySurface)
            ||| x is Flush
        },
{
    layers::lemma_drop_popup(s, m, x);
    layers::lemma_cats();
}

/// A handle that names no layer shows and hides no popup.
pub proof fn law_popup_needs_a_layer(
    a: &mut WlState,
    handle: usize,
    x: i32,
    y: i32,
    lw: i32,
    lh: i32,
    a_out: &mut Vec<StateRequest>,
    b: &mut WlState,
    b_out: &mut Vec<StateRequest>,
    ready: bool,
)
    requires
        old(a).wf() && old(b).wf(),
        call_ensures(wl_ops::popup_show, (a, handle, x, y, lw, lh, a_out), ()),
        call_ensures(wl_ops::popup_hide, (b, handle, b_out), ()),
        call_ensures(wl_ops::popup_ready, (&*old(a), handle, lw, lh), ready),
        names_none(*old(a), handle) && names_none(*old(b), handle),
    ensures
        nothing_done(*old(a), *final(a), old(a_out)@, final(a_out)@),
        nothing_done(*old(b), *final(b), old(b_out)@, final(b_out)@),
        !ready,
{
    layers::lemma_none(*old(a), handle);
    layers::lemma_none(*old(b), handle);
}

/// A popup takes frames of a positive size while it is shown.
pub proof fn law_shown_popup_takes_frames(
    st: WlState,
    handle: usize,
    lw: i32,
    lh: i32,
    r: bool,
    i: int,
)
    requires
        st.wf(),
        call_ensures(wl_ops::popup_ready, (&st, handle, lw, lh), r),
        0 <= i < st.surfaces@.len(),
        st.surfaces@[i].handle == handle,
    ensures
        r == (lw > 0 && lh > 0 && st.surfaces@[i].has_popup && st.surfaces@[i].popup_visible),
{
    layers::lemma_at(st, i);
}

/// The name of the buffer that a frame is shown in.
pub open spec fn shown_in(lease: DmabufLease) -> BufferId {
    match lease {
        DmabufLease::Reused(b) => b,
        DmabufLease::Pooled(b) => b,
        DmabufLease::OneShot(b) => b,
    }
}

/// A GPU frame is taken where its layer is there and visible, GPU buffers can
/// be made, and the frame is drawn for the window or nothing is shown at all.
pub proof fn law_frame_is_taken_when_it_fits(
    st: &mut WlState,
    handle: usize,
    win: WlWindowState,
    frame: JfnDmabufFrame,
    fresh: BufferId,
    out: &mut Vec<StateRequest>,
    r: Option<DmabufLease>,
    fits: bool,
    i: int,
)
    requires
        old(st).wf(),
        call_ensures(wl_ops::surface_present, (st, handle, &win, &frame, fresh, out), r),
        call_ensures(
            wl_state::size_in_tolerance,
            (&win, frame.visible_w, frame.visible_h),
            fits,
        ),
        0 <= i < old(st).surfaces@.len(),
        old(st).surfaces@[i].handle == handle,
    ensures
        r is Some == (old(st).surfaces@[i].has_surface && old(st).surfaces@[i].visible && old(st).has_dmabuf && (fits || old(st).surfaces@[i].null_attached)),
        r is None ==> nothing_done(*old(st), *final(st), old(out)@, final(out)@),
        r is Some ==> only_changes(*old(st), *final(st), i),
{
    layers::lemma_at(*old(st), i);
}

/// A GPU frame that is taken is shown: its buffer is attached, damaged in full
/// and committed, its visible part is stretched over the window, and the
/// compositor reads the buffer from then on.
pub proof fn law_frame_is_shown(
    st: &mut WlState,
    handle: usize,
    win: WlWindowState,
    frame: JfnDmabufFrame,
    fresh: BufferId,
    out: &mut Vec<StateRequest>,
    lease: DmabufLease,
    logical: Option<WindowSize>,
    idle: bool,
    i: int,
)
    requires
        old(st).wf(),
        call_ensures(wl_ops::surface_present, (st, handle, &win, &frame, fresh, out), Some(lease)),
        call_ensures(window_state::window_logical_size, (&win,), logical),
        call_ensures(
            ManagedBuffers::buffer_is_idle,
            (&final(st).buffers, shown_in(lease)),
            idle,
        ),
        0 <= i < old(st).surfaces@.len(),
        old(st).surfaces@[i].handle == handle,
    ensures
        ({
            let s = old(st).surfaces@[i];
            let t = final(st).surfaces@[i];
            let d = layers::since(old(out)@, final(out)@);
            let n = d.len();
            let source = StateRequest::Layer(
                handle,
                Request::SetSource { x: 0, y: 0, w: frame.visible_w, h: frame.visible_h },
            );
            &&& n >= 5
            &&& d[n - 5] == StateRequest::Layer(handle, Request::Attach(shown_in(lease)))
            &&& d[n - 4] == StateRequest::Layer(
                handle,
                Request::Damage { w: frame.coded_w, h: frame.coded_h },
            )
            &&& d[n - 3] == StateRequest::Layer(handle, Request::Commit)
            &&& d[n - 2] == StateRequest::Flush
            &&& d[n - 1] == StateRequest::RequestPresent
            &&& s.has_viewport && frame.visible_w > 0 && frame.visible_h > 0 ==> d.contains(source)
            &&& s.has_viewport && logical is Some ==> d.contains(
                StateRequest::Layer(
                    handle,
                    Request::SetDestination { w: (logical->0).w, h: (logical->0).h },
                ),
            )
            &&& t.buffer_w == frame.coded_w && t.buffer_h == frame.coded_h
            &&& !t.placeholder && !t.null_attached && t.visible
            &&& t.buffer == if lease is OneShot {
                Some(fresh)
            } else {
                None
            }
            &&& t.popup_buffer == s.popup_buffer
        }),
        !idle,
        layers::keeps(old(out)@, final(out)@),
{
    layers::lemma_at(*old(st), i);
    let s = old(st).surfaces@[i];
    let m = old(st).buffers@;
    let pool = s.dmabuf_pool@;
    let shape = wl_ops::shape_of(frame);
    let leased = dmabuf_pool::leased_buffers(pool, m, frame.id, shape, fresh);
    let p1 = wl_ops::on_layer(
        handle,
        dmabuf_pool::lease_requests(pool, m, frame.id, shape, fresh),
    );
    let p2 = wl_ops::retire_layer_requests(handle, leased, s.buffer);
    let p3 = wl_ops::viewport_requests(s, win, frame.visible_w, frame.visible_h);
    let p4 = wl_ops::commit_requests(handle, shown_in(lease), frame.coded_w, frame.coded_h);
    let d = p1 + p2 + p3 + p4;
    assert(d == wl_ops::frame_requests(s, win, m, frame, fresh));
    layers::lemma_since(old(out)@, final(out)@, d);
    lemma_attached_is_read(dmabuf_pool::given_up(leased, s.buffer), shown_in(lease));
    let n = d.len();
    assert(d[n - 5] == p4[0]);
    assert(d[n - 4] == p4[1]);
    assert(d[n - 3] == p4[2]);
    assert(d[n - 2] == p4[3]);
    assert(d[n - 1] == p4[4]);
    assert forall|x: StateRequest| p3.contains(x) implies #[trigger] d.contains(x) by {
        layers::lemma_part(p1 + p2, p3, p4, x);
    }
    layers::lemma_cats();
    if s.has_viewport && frame.visible_w > 0 && frame.visible_h > 0 {
        let source = StateRequest::Layer(
            handle,
            Request::SetSource { x: 0, y: 0, w: frame.visible_w, h: frame.visible_h },
        );
        assert(p3.contains(source));
    }
    if s.has_viewport && logical is Some {
        let dest = StateRequest::Layer(
            handle,
            Request::SetDestination { w: (logical->0).w, h: (logical->0).h },
        );
        assert(p3.contains(dest));
    }
}

/// Whether a kept buffer was made for a texture and a frame of this layout.
pub open spec fn made_for(e: DmabufBuf, id: TextureId, frame: JfnDmabufFrame) -> bool {
    e.id == id && e.shape.w == frame.coded_w && e.shape.h == frame.coded_h && e.shape.stride
        == frame.stride && e.shape.modifier == frame.modifier
}

proof fn lemma_entry_at(pool: Seq<DmabufBuf>, id: TextureId, k: int, from: int)
    requires
        0 <= from <= k < pool.len(),
        pool[k].id == id,
        forall|a: int, b: int| 0 <= a < b < pool.len() ==> pool[a].id != pool[b].id,
    ensures
        dmabuf_pool::entry_from(pool, id, from) == Some(pool[k]),
    decreases k - from,
{
    if from < k {
        assert(pool[from].id != pool[k].id);
        lemma_entry_at(pool, id, k, from + 1);
    }
}

proof fn lemma_entry_in(pool: Seq<DmabufBuf>, id: TextureId, from: int) -> (k: int)
    requires
        0 <= from,
        dmabuf_pool::entry_from(pool, id, from) is Some,
    ensures
        from <= k < pool.len(),
        pool[k].id == id,
        dmabuf_pool::entry_from(pool, id, from) == Some(pool[k]),
    decreases pool.len() - from,
{
    if pool[from].id == id {
        from
    } else {
        lemma_entry_in(pool, id, from + 1)
    }
}

/// A frame of a texture is shown in the buffer that is kept for it where that
/// one has its layout and is not read by the compositor; else in a new one,
/// which is kept. A frame without a texture has a new buffer of its own.
pub proof fn law_kept_buffer_is_used_again(
    st: &mut WlState,
    handle: usize,
    win: WlWindowState,
    frame: JfnDmabufFrame,
    fresh: BufferId,
    out: &mut Vec<StateRequest>,
    lease: DmabufLease,
    i: int,
    k: int,
    idle: bool,
)
    requires
        old(st).wf(),
        call_ensures(wl_ops::surface_present, (st, handle, &win, &frame, fresh, out), Some(lease)),
        0 <= i < old(st).surfaces@.len(),
        old(st).surfaces@[i].handle == handle,
        0 <= k < old(st).surfaces@[i].dmabuf_pool@.len(),
        call_ensures(
            ManagedBuffers::buffer_is_idle,
            (&old(st).buffers, old(st).surfaces@[i].dmabuf_pool@[k].buf),
            idle,
        ),
    ensures
        ({
            let pool = old(st).surfaces@[i].dmabuf_pool@;
            let kept = final(st).surfaces@[i].dmabuf_pool@;
            &&& frame.id is None == (lease is OneShot)
            &&& lease !is Reused ==> shown_in(lease) == fresh
            &&& frame.id matches Some(id) ==> {
                &&& made_for(pool[k], id, frame) && idle ==> lease == DmabufLease::Reused(
                    pool[k].buf,
                )
                &&& pool[k].id == id && !(made_for(pool[k], id, frame) && idle) ==> lease
                    == DmabufLease::Pooled(fresh)
                &&& kept[0].id == id && kept[0].buf == shown_in(lease)
                &&& made_for(kept[0], id, frame)
                &&& kept.len() <= 16
            }
            &&& frame.id is None ==> kept == pool
        }),
{
    layers::lemma_at(*old(st), i);
    let pool = old(st).surfaces@[i].dmabuf_pool@;
    assert(old(st).surfaces@[i].wf());
    if let Some(id) = frame.id {
        if pool[k].id == id {
            lemma_entry_at(pool, id, k, 0);
        }
        if dmabuf_pool::entry_of(pool, id) is Some {
            let j = lemma_entry_in(pool, id, 0);
        }
        assert(final(st).surfaces@[i].wf());
    }
}

/// A texture that no buffer is kept for is shown in a new buffer.
pub proof fn law_new_texture_has_a_new_buffer(
    st: &mut WlState,
    handle: usize,
    win: WlWindowState,
    frame: JfnDmabufFrame,
    fresh: BufferId,
    out: &mut Vec<StateRequest>,
    lease: DmabufLease,
    i: int,
)
    requires
        old(st).wf(),
        call_ensures(wl_ops::surface_present, (st, handle, &win, &frame, fresh, out), Some(lease)),
        0 <= i < old(st).surfaces@.len(),
        old(st).surfaces@[i].handle == handle,
        frame.id is Some,
        forall|k: int|
            0 <= k < old(st).surfaces@[i].dmabuf_pool@.len() ==> (
            #[trigger] old(st).surfaces@[i].dmabuf_pool@[k]).id != frame.id->0,
    ensures
        lease == DmabufLease::Pooled(fresh),
{
    layers::lemma_at(*old(st), i);
    let pool = old(st).surfaces@[i].dmabuf_pool@;
    if dmabuf_pool::entry_of(pool, frame.id->0) is Some {
        let j = lemma_entry_in(pool, frame.id->0, 0);
        assert(pool[j].id != frame.id->0);
    }
}

/// A software frame is refused where it has no size, its layer shows nothing,
/// or the way that it would take is not there; and then nothing happens. Else
/// it goes to the worker of the way in use, which is started exactly where the
/// layer has none yet.
pub proof fn law_software_frame_goes_to_its_worker(
    st: &mut WlState,
    handle: usize,
    win: WlWindowState,
    w: i32,
    h: i32,
    out: &mut Vec<StateRequest>,
    step: SoftwareStep,
    logical: Option<WindowSize>,
    i: int,
)
    requires
        old(st).wf(),
        call_ensures(wl_ops::surface_present_software, (st, handle, &win, w, h, out), step),
        call_ensures(window_state::window_logical_size, (&win,), logical),
        0 <= i < old(st).surfaces@.len(),
        old(st).surfaces@[i].handle == handle,
    ensures
        ({
            let s = old(st).surfaces@[i];
            let t = final(st).surfaces@[i];
            let shown = w > 0 && h > 0 && s.has_surface && s.visible;
            &&& step is Gpu == (shown && old(st).use_gpu_paint && old(st).has_gpu_ctx)
            &&& step is Shm == (shown && !old(st).use_gpu_paint && logical is Some)
            &&& step is Refused ==> nothing_done(*old(st), *final(st), old(out)@, final(out)@)
            &&& step is Gpu ==> step->Gpu_start == !s.has_gpu_worker && t.has_gpu_worker
                && t.has_shm_worker == s.has_shm_worker
            &&& step is Shm ==> step->Shm_start == !s.has_shm_worker && t.has_shm_worker
                && t.has_gpu_worker == s.has_gpu_worker && !t.placeholder && !t.null_attached
                && final(out)@ == old(out)@
            &&& step !is Refused ==> t.buffer_w == w && t.buffer_h == h
            &&& t.buffer == s.buffer && t.visible == s.visible && t.popup_buffer == s.popup_buffer
        }),
        final(st).buffers == old(st).buffers,
        only_changes(*old(st), *final(st), i),
{
    layers::lemma_at(*old(st), i);
    if step is Refused {
        assert(final(st).surfaces@ =~= old(st).surfaces@);
    }
    assert(step !is Gpu ==> final(out)@ =~= old(out)@);
}

/// A software frame on its way through the GPU is stretched over the window,
/// and its worker is told the window's size in device pixels, or the frame's
/// while that is unknown.
pub proof fn law_gpu_frame_is_fitted(
    st: &mut WlState,
    handle: usize,
    win: WlWindowState,
    w: i32,
    h: i32,
    out: &mut Vec<StateRequest>,
    step: SoftwareStep,
    logical: Option<WindowSize>,
    physical: (i32, i32),
    i: int,
)
    requires
        old(st).wf(),
        call_ensures(wl_ops::surface_present_software, (st, handle, &win, w, h, out), step),
        call_ensures(window_state::window_logical_size, (&win,), logical),
        call_ensures(window_state::jfn_wl_window_size, (&win,), physical),
        0 <= i < old(st).surfaces@.len(),
        old(st).surfaces@[i].handle == handle,
        step is Gpu,
    ensures
        ({
            let s = old(st).surfaces@[i];
            let d = layers::since(old(out)@, final(out)@);
            &&& physical.0 > 0 && physical.1 > 0 ==> step->Gpu_w == physical.0 && step->Gpu_h
                == physical.1
            &&& physical.0 <= 0 || physical.1 <= 0 ==> step->Gpu_w == w && step->Gpu_h == h
            &&& s.has_viewport ==> d.contains(
                StateRequest::Layer(handle, Request::SetSource { x: 0, y: 0, w, h }),
            )
            &&& s.has_viewport && logical is Some ==> d.contains(
                StateRequest::Layer(
                    handle,
                    Request::SetDestination { w: (logical->0).w, h: (logical->0).h },
                ),
            )
            &&& !s.has_viewport ==> d.len() == 0
        }),
        layers::keeps(old(out)@, final(out)@),
{
    layers::lemma_at(*old(st), i);
    let d = wl_ops::software_requests(old(st).surfaces@[i], step, win, w, h);
    layers::lemma_since(old(out)@, final(out)@, d);
    layers::lemma_cats();
}

/// A handle that names no layer takes no frame.
pub proof fn law_frames_need_a_layer(
    a: &mut WlState,
    handle: usize,
    win: WlWindowState,
    frame: JfnDmabufFrame,
    fresh: BufferId,
    a_out: &mut Vec<StateRequest>,
    lease: Option<DmabufLease>,
    b: &mut WlState,
    w: i32,
    h: i32,
    b_out: &mut Vec<StateRequest>,
    step: SoftwareStep,
)
    requires
        old(a).wf() && old(b).wf(),
        call_ensures(wl_ops::surface_present, (a, handle, &win, &frame, fresh, a_out), lease),
        call_ensures(wl_ops::surface_present_software, (b, handle, &win, w, h, b_out), step),
        names_none(*old(a), handle) && names_none(*old(b), handle),
    ensures
        lease is None && nothing_done(*old(a), *final(a), old(a_out)@, final(a_out)@),
        step is Refused && nothing_done(*old(b), *final(b), old(b_out)@, final(b_out)@),
{
    layers::lemma_none(*old(a), handle);
    layers::lemma_none(*old(b), handle);
}

/// Whether the requests show a buffer in the popup of a layer, in this visible
/// size and stretched over this logical one.
pub open spec fn shows_in_popup(
    d: Seq<StateRequest>,
    s: PlatformSurface,
    buf: BufferId,
    vw: int,
    vh: int,
    lw: i32,
    lh: i32,
) -> bool {
    let h = s.handle;
    let attach = StateRequest::Popup(h, Request::Attach(buf));
    let commit = StateRequest::Popup(h, Request::Commit);
    &&& layers::precedes(d, attach, commit)
    &&& d.contains(StateRequest::Popup(h, Request::Damage { w: vw as i32, h: vh as i32 }))
    &&& s.has_surface ==> layers::precedes(
        d,
        StateRequest::Popup(h, Request::CommitOwner),
        commit,
    )
    &&& s.has_popup_viewport ==> layers::precedes(
        d,
        StateRequest::Popup(
            h,
            Request::SetSource { x: 0, y: 0, w: vw as i32, h: vh as i32 },
        ),
        commit,
    )
    &&& s.has_popup_viewport ==> layers::precedes(
        d,
        StateRequest::Popup(h, Request::SetDestination { w: lw, h: lh }),
        commit,
    )
    &&& d.last() == StateRequest::RequestPresent
}

proof fn lemma_shows(
    s: PlatformSurface,
    m: Seq<ManagedBuffer>,
    buf: BufferId,
    vw: i32,
    vh: i32,
    lw: i32,
    lh: i32,
)
    ensures
        shows_in_popup(
            wl_ops::popup_frame_requests(s, m, buf, vw, vh, lw, lh),
            s,
            buf,
            vw as int,
            vh as int,
            lw,
            lh,
        ),
{
    let d = wl_ops::popup_frame_requests(s, m, buf, vw, vh, lw, lh);
    let a = wl_ops::retire_layer_requests(s.handle, m, s.popup_buffer);
    let b = wl_ops::popup_fit_requests(s, vw, vh, lw, lh);
    let c = wl_ops::popup_attach_requests(s, buf, vw, vh);
    assert(d == a + b + c);
    let n = d.len();
    let k = c.len();
    assert(d[n - k] == c[0]);
    assert(d[n - k + 1] == c[1]);
    assert(d[n - 3] == c[k - 3]);
    assert(d[n - 1] == c[k - 1]);
    assert(c[0] == StateRequest::Popup(s.handle, Request::Attach(buf)));
    assert(c[1] == StateRequest::Popup(s.handle, Request::Damage { w: vw, h: vh }));
    assert(c[k - 3] == StateRequest::Popup(s.handle, Request::Commit));
    assert(c[k - 1] == StateRequest::RequestPresent);
    if s.has_surface {
        assert(c[2] == StateRequest::Popup(s.handle, Request::CommitOwner));
        assert(d[n - k + 2] == c[2]);
    }
    if s.has_popup_viewport {
        assert(b[0] == StateRequest::Popup(
            s.handle,
            Request::SetSource { x: 0, y: 0, w: vw, h: vh },
        ));
        assert(b[1] == StateRequest::Popup(s.handle, Request::SetDestination { w: lw, h: lh }));
        assert(d[a.len() as int] == b[0]);
        assert(d[a.len() + 1int] == b[1]);
    }
}

/// A GPU frame is shown in a popup that takes frames, where GPU buffers can be
/// made: in a new buffer, its visible part stretched over the size asked for.
pub proof fn law_gpu_frame_is_shown_in_popup(
    st: &mut WlState,
    handle: usize,
    frame: JfnDmabufFrame,
    lw: i32,
    lh: i32,
    fresh: BufferId,
    out: &mut Vec<StateRequest>,
    r: bool,
    ready: bool,
    idle: bool,
    i: int,
)
    requires
        old(st).wf(),
        call_ensures(wl_ops::popup_ready, (&*old(st), handle, lw, lh), ready),
        call_ensures(wl_ops::popup_present, (st, handle, &frame, lw, lh, fresh, out), r),
        call_ensures(ManagedBuffers::buffer_is_idle, (&final(st).buffers, fresh), idle),
        0 <= i < old(st).surfaces@.len(),
        old(st).surfaces@[i].handle == handle,
    ensures
        r == (ready && old(st).has_dmabuf),
        !r ==> nothing_done(*old(st), *final(st), old(out)@, final(out)@),
        r ==> {
            &&& final(st).surfaces@[i].popup_buffer == Some(fresh)
            &&& final(st).surfaces@[i].buffer == old(st).surfaces@[i].buffer
            &&& !idle
            &&& only_changes(*old(st), *final(st), i)
            &&& shows_in_popup(
                layers::since(old(out)@, final(out)@),
                old(st).surfaces@[i],
                fresh,
                if frame.visible_w > 0 {
                    frame.visible_w as int
                } else {
                    frame.coded_w as int
                },
                if frame.visible_h > 0 {
                    frame.visible_h as int
                } else {
                    frame.coded_h as int
                },
                lw,
                lh,
            )
        },
{
    layers::lemma_at(*old(st), i);
    let s = old(st).surfaces@[i];
    let m = buffers::with_new(old(st).buffers@, fresh);
    let vw = wl_ops::visible_or(frame.visible_w, frame.coded_w);
    let vh = wl_ops::visible_or(frame.visible_h, frame.coded_h);
    lemma_shows(s, m, fresh, vw, vh, lw, lh);
    lemma_attached_is_read(dmabuf_pool::given_up(m, s.popup_buffer), fresh);
    if r {
        layers::lemma_since(
            old(out)@,
            final(out)@,
            wl_ops::popup_frame_requests(s, m, fresh, vw, vh, lw, lh),
        );
    }
}

/// A software frame is shown in a popup that takes frames, in the buffer that
/// was made for it, stretched over the size asked for. Without a buffer nothing
/// is shown.
pub proof fn law_software_frame_is_shown_in_popup(
    st: &mut WlState,
    handle: usize,
    buf: Option<BufferId>,
    pw: i32,
    ph: i32,
    lw: i32,
    lh: i32,
    out: &mut Vec<StateRequest>,
    ready: bool,
    i: int,
)
    requires
        old(st).wf(),
        call_ensures(wl_ops::popup_ready, (&*old(st), handle, lw, lh), ready),
        call_ensures(wl_ops::popup_present_software, (st, handle, buf, pw, ph, lw, lh, out), ()),
        0 <= i < old(st).surfaces@.len(),
        old(st).surfaces@[i].handle == handle,
    ensures
        !ready || buf is None ==> nothing_done(*old(st), *final(st), old(out)@, final(out)@),
        ready ==> (buf matches Some(b) ==> {
            &&& final(st).surfaces@[i].popup_buffer == Some(b)
            &&& final(st).surfaces@[i].buffer == old(st).surfaces@[i].buffer
            &&& only_changes(*old(st), *final(st), i)
            &&& shows_in_popup(
                layers::since(old(out)@, final(out)@),
                old(st).surfaces@[i],
                b,
                pw as int,
                ph as int,
                lw,
                lh,
            )
        }),
{
    layers::lemma_at(*old(st), i);
    if let Some(b) = buf {
        let s = old(st).surfaces@[i];
        let m = buffers::with_new(old(st).buffers@, b);
        lemma_shows(s, m, b, pw, ph, lw, lh);
        if ready {
            layers::lemma_since(
                old(out)@,
                final(out)@,
                wl_ops::popup_frame_requests(s, m, b, pw, ph, lw, lh),
            );
        }
    }
}

/// What was noted of the window at a configure is read back.
pub proof fn law_fullscreen_of_the_last_configure(
    st: &mut WlState,
    win: WlWindowState,
    fullscreen: bool,
    root_known: bool,
    out: &mut Vec<StateRequest>,
    before: bool,
    after: bool,
    physical: (i32, i32),
    logical: Option<WindowSize>,
)
    requires
        old(st).wf(),
        call_ensures(wl_ops::was_fullscreen, (&*old(st),), before),
        call_ensures(wl_ops::on_configure, (st, &win, fullscreen, root_known, out), ()),
        call_ensures(wl_ops::was_fullscreen, (&*final(st),), after),
        call_ensures(window_state::jfn_wl_window_size, (&win,), physical),
        call_ensures(window_state::window_logical_size, (&win,), logical),
    ensures
        after == if physical.0 > 0 && physical.1 > 0 && logical is Some {
            fullscreen
        } else {
            before
        },
{
}

} // verus!
