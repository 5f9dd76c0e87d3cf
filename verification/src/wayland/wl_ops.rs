//! Lifetime and painting of the layers.
use crate::wayland::buffers;
use crate::wayland::buffers::{BufferId, ManagedBuffer, ManagedBuffers, Retired};
use crate::wayland::dmabuf_pool;
use crate::wayland::dmabuf_pool::{DmabufLease, FrameShape, TextureId};
use crate::wayland::requests::Request;
use crate::wayland::scene;
use crate::wayland::scene::{LayerId, SceneEvent};
use crate::wayland::shm_paint_worker::ViewportState;
use crate::wayland::window_state;
use crate::wayland::window_state::{jfn_wl_window_size, window_logical_size, WindowSize, WlWindowState};
use crate::wayland::wl_state;
use crate::wayland::wl_state::{size_in_tolerance, PlatformSurface, StateRequest, WlState};
use vstd::prelude::*;

verus! {

/// A request where a condition holds, and none otherwise.
pub open spec fn when(condition: bool, request: StateRequest) -> Seq<StateRequest> {
    if condition {
        seq![request]
    } else {
        Seq::empty()
    }
}

fn push_when(out: &mut Vec<StateRequest>, condition: bool, request: StateRequest)
    ensures
        final(out)@ == old(out)@ + when(condition, request),
{
    if condition {
        out.push(request);
    }
    assert(out@ =~= old(out)@ + when(condition, request));
}

/// A frame of GPU memory, and the part of it that is visible.
#[derive(Clone, Copy, Debug, PartialEq, Eq)]
pub struct JfnDmabufFrame {
    pub id: Option<TextureId>,
    pub stride: u32,
    pub modifier: u64,
    pub coded_w: i32,
    pub coded_h: i32,
    pub visible_w: i32,
    pub visible_h: i32,
}

/// What makes a frame share a buffer.
pub open spec fn shape_of(frame: JfnDmabufFrame) -> FrameShape {
    FrameShape {
        w: frame.coded_w,
        h: frame.coded_h,
        stride: frame.stride,
        modifier: frame.modifier,
    }
}

/// The request of giving up a layer's buffer, where there is one.
pub open spec fn retire_layer_requests(
    handle: usize,
    m: Seq<ManagedBuffer>,
    buf: Option<BufferId>,
) -> Seq<StateRequest> {
    match buf {
        Some(b) => when(
            buffers::retirement(m, b) == Retired::Destroy,
            StateRequest::Layer(handle, Request::DestroyBuffer(b)),
        ),
        None => Seq::empty(),
    }
}

fn retire_layer(
    managed: &mut ManagedBuffers,
    handle: usize,
    buf: Option<BufferId>,
    out: &mut Vec<StateRequest>,
)
    ensures
        final(managed)@ == dmabuf_pool::given_up(old(managed)@, buf),
        final(out)@ == old(out)@ + retire_layer_requests(handle, old(managed)@, buf),
{
    match buf {
        Some(b) => {
            let destroy = managed.retire_buffer(b) == Retired::Destroy;
            push_when(out, destroy, StateRequest::Layer(handle, Request::DestroyBuffer(b)));
        },
        None => {
            assert(out@ =~= old(out)@ + Seq::<StateRequest>::empty());
        },
    }
}

/// The buffers after several were given up, one after the other.
pub open spec fn all_given_up(m: Seq<ManagedBuffer>, bufs: Seq<BufferId>) -> Seq<ManagedBuffer>
    decreases bufs.len(),
{
    if bufs.len() == 0 {
        m
    } else {
        buffers::retired(all_given_up(m, bufs.drop_last()), bufs.last())
    }
}

/// The requests of giving up several buffers of a layer.
pub open spec fn retire_all_requests(
    handle: usize,
    m: Seq<ManagedBuffer>,
    bufs: Seq<BufferId>,
) -> Seq<StateRequest>
    decreases bufs.len(),
{
    if bufs.len() == 0 {
        Seq::empty()
    } else {
        retire_all_requests(handle, m, bufs.drop_last()) + retire_layer_requests(
            handle,
            all_given_up(m, bufs.drop_last()),
            Some(bufs.last()),
        )
    }
}

fn retire_all(
    managed: &mut ManagedBuffers,
    handle: usize,
    bufs: &Vec<BufferId>,
    out: &mut Vec<StateRequest>,
)
    ensures
        final(managed)@ == all_given_up(old(managed)@, bufs@),
        final(out)@ == old(out)@ + retire_all_requests(handle, old(managed)@, bufs@),
{
    assert(bufs@.take(0) =~= Seq::empty());
    assert(out@ =~= old(out)@ + Seq::<StateRequest>::empty());
    for i in 0..bufs.len()
        invariant
            managed@ == all_given_up(old(managed)@, bufs@.take(i as int)),
            out@ == old(out)@ + retire_all_requests(
                handle,
                old(managed)@,
                bufs@.take(i as int),
            ),
    {
        assert(bufs@.take(i + 1).drop_last() =~= bufs@.take(i as int));
        retire_layer(managed, handle, Some(bufs[i]), out);
        assert(out@ =~= old(out)@ + retire_all_requests(handle, old(managed)@, bufs@.take(i + 1)));
    }
    assert(bufs@.take(bufs@.len() as int) =~= bufs@);
}

/// A new layer: it has a surface, a viewport where there are any, and a place
/// under the root once that is known.
pub open spec fn is_new_layer(s: PlatformSurface, handle: usize, viewporter: bool, root: bool) -> bool {
    &&& s.handle == handle
    &&& s.has_surface && s.has_viewport == viewporter && s.has_subsurface == root
    &&& s.buffer is None && s.dmabuf_pool@.len() == 0
    &&& s.buffer_w == 0 && s.buffer_h == 0
    &&& s.visible && !s.placeholder && !s.null_attached
    &&& !s.has_popup && !s.has_popup_viewport && s.popup_buffer is None
    &&& !s.popup_visible && !s.has_gpu_worker && !s.has_shm_worker
}

/// The requests that make a layer's surface.
pub open spec fn new_layer_requests(handle: usize, viewporter: bool, root: bool) -> Seq<
    StateRequest,
> {
    seq![
        StateRequest::Layer(handle, Request::CreateSurface),
        StateRequest::Layer(handle, Request::EmptyInputRegion),
    ] + when(viewporter, StateRequest::Layer(handle, Request::CreateViewport)) + seq![
        StateRequest::Layer(handle, Request::Commit),
        StateRequest::Flush,
    ] + (if root {
        seq![
            StateRequest::Layer(handle, Request::CreateSubsurface),
            StateRequest::Layer(handle, Request::SetPosition { x: 0, y: 0 }),
        ]
    } else {
        Seq::empty()
    })
}

/// Makes a new layer on top of the others and gives its handle.
pub fn alloc_surface(st: &mut WlState, out: &mut Vec<StateRequest>) -> (handle: usize)
    requires
        old(st).wf(),
        old(st).next_handle < usize::MAX,
    ensures
        final(st).wf(),
        handle == old(st).next_handle,
        final(st).next_handle == handle + 1,
        final(st).surfaces@.len() == old(st).surfaces@.len() + 1,
        final(st).surfaces@.drop_last() == old(st).surfaces@,
        is_new_layer(
            final(st).surfaces@.last(),
            handle,
            old(st).has_viewporter,
            old(st).has_root,
        ),
        final(st).scene.order() == scene::next_order(
            old(st).scene.order(),
            SceneEvent::LayerAdded(LayerId(handle)),
        ),
        *final(st) == (WlState {
            surfaces: final(st).surfaces,
            scene: final(st).scene,
            next_handle: final(st).next_handle,
            ..*old(st)
        }),
        final(out)@ == old(out)@ + new_layer_requests(
            handle,
            old(st).has_viewporter,
            old(st).has_root,
        ) + wl_state::dispatch_requests(
            final(st).surfaces@,
            old(st).scene.order(),
            final(st).scene.order(),
        ) + seq![StateRequest::RequestPresent],
{
    let handle = st.next_handle;
    let mut s = PlatformSurface::new(handle);
    s.has_surface = true;
    s.has_viewport = st.has_viewporter;
    s.has_subsurface = st.has_root;
    out.push(StateRequest::Layer(handle, Request::CreateSurface));
    out.push(StateRequest::Layer(handle, Request::EmptyInputRegion));
    push_when(
        out,
        st.has_viewporter,
        StateRequest::Layer(handle, Request::CreateViewport),
    );
    out.push(StateRequest::Layer(handle, Request::Commit));
    out.push(StateRequest::Flush);
    if st.has_root {
        out.push(StateRequest::Layer(handle, Request::CreateSubsurface));
        out.push(StateRequest::Layer(handle, Request::SetPosition { x: 0, y: 0 }));
    }
    assert(out@ =~= old(out)@ + new_layer_requests(handle, st.has_viewporter, st.has_root));
    st.next_handle = handle + 1;
    st.surfaces.push(s);
    assert(st.surfaces@.drop_last() =~= old(st).surfaces@);
    st.dispatch(SceneEvent::LayerAdded(LayerId(handle)), out);
    out.push(StateRequest::RequestPresent);
    assert(out@ =~= old(out)@ + new_layer_requests(
        handle,
        old(st).has_viewporter,
        old(st).has_root,
    ) + wl_state::dispatch_requests(
        st.surfaces@,
        old(st).scene.order(),
        st.scene.order(),
    ) + seq![StateRequest::RequestPresent]);
    handle
}

/// The popup child of a layer is gone.
pub open spec fn without_popup(s: PlatformSurface) -> PlatformSurface {
    PlatformSurface { has_popup: false, has_popup_viewport: false, popup_buffer: None, ..s }
}

/// The requests that take down the popup child of a layer.
pub open spec fn drop_popup_requests(s: PlatformSurface, m: Seq<ManagedBuffer>) -> Seq<
    StateRequest,
> {
    when(s.has_popup_viewport, StateRequest::Popup(s.handle, Request::DestroyViewport))
        + retire_layer_requests(s.handle, m, s.popup_buffer) + (if s.has_popup {
        seq![
            StateRequest::Popup(s.handle, Request::DestroySubsurface),
            StateRequest::Popup(s.handle, Request::DestroySurface),
        ]
    } else {
        Seq::empty()
    })
}

fn popup_destroy(
    s: &mut PlatformSurface,
    managed: &mut ManagedBuffers,
    out: &mut Vec<StateRequest>,
)
    ensures
        *final(s) == without_popup(*old(s)),
        final(managed)@ == dmabuf_pool::given_up(old(managed)@, old(s).popup_buffer),
        final(out)@ == old(out)@ + drop_popup_requests(*old(s), old(managed)@),
{
    let handle = s.handle;
    push_when(
        out,
        s.has_popup_viewport,
        StateRequest::Popup(handle, Request::DestroyViewport),
    );
    s.has_popup_viewport = false;
    let buf = s.popup_buffer;
    s.popup_buffer = None;
    retire_layer(managed, handle, buf, out);
    if s.has_popup {
        out.push(StateRequest::Popup(handle, Request::DestroySubsurface));
        out.push(StateRequest::Popup(handle, Request::DestroySurface));
        s.has_popup = false;
    }
    assert(out@ =~= old(out)@ + drop_popup_requests(*old(s), old(managed)@));
}

/// The buffers after a layer was freed.
pub open spec fn freed_buffers(s: PlatformSurface, m: Seq<ManagedBuffer>) -> Seq<ManagedBuffer> {
    all_given_up(
        dmabuf_pool::given_up(dmabuf_pool::given_up(m, s.popup_buffer), s.buffer),
        pool_buffers(s),
    )
}

/// The buffers in a layer's pool.
pub open spec fn pool_buffers(s: PlatformSurface) -> Seq<BufferId> {
    s.dmabuf_pool@.map_values(|e: dmabuf_pool::DmabufBuf| e.buf)
}

/// The requests that take down a layer's objects.
pub open spec fn drop_layer_requests(s: PlatformSurface, m: Seq<ManagedBuffer>) -> Seq<
    StateRequest,
> {
    let m1 = dmabuf_pool::given_up(m, s.popup_buffer);
    let m2 = dmabuf_pool::given_up(m1, s.buffer);
    drop_popup_requests(s, m) + when(
        s.has_viewport,
        StateRequest::Layer(s.handle, Request::DestroyViewport),
    ) + retire_layer_requests(s.handle, m1, s.buffer) + retire_all_requests(
        s.handle,
        m2,
        pool_buffers(s),
    ) + when(s.has_subsurface, StateRequest::Layer(s.handle, Request::DestroySubsurface)) + when(
        s.has_surface,
        StateRequest::Layer(s.handle, Request::DestroySurface),
    ) + seq![StateRequest::Flush]
}

fn drop_layer(s: PlatformSurface, managed: &mut ManagedBuffers, out: &mut Vec<StateRequest>)
    ensures
        final(managed)@ == freed_buffers(s, old(managed)@),
        final(out)@ == old(out)@ + drop_layer_requests(s, old(managed)@),
{
    let ghost start = out@;
    let ghost m = managed@;
    let mut t = s;
    let handle = t.handle;
    popup_destroy(&mut t, managed, out);
    let ghost p1 = drop_popup_requests(s, m);
    let ghost m1 = managed@;
    push_when(out, t.has_viewport, StateRequest::Layer(handle, Request::DestroyViewport));
    let ghost p2 = when(s.has_viewport, StateRequest::Layer(handle, Request::DestroyViewport));
    retire_layer(managed, handle, t.buffer, out);
    let ghost p3 = retire_layer_requests(handle, m1, s.buffer);
    let ghost m2 = managed@;
    let bufs = t.dmabuf_pool.drain();
    retire_all(managed, handle, &bufs, out);
    let ghost p4 = retire_all_requests(handle, m2, pool_buffers(s));
    push_when(out, t.has_subsurface, StateRequest::Layer(handle, Request::DestroySubsurface));
    let ghost p5 = when(s.has_subsurface, StateRequest::Layer(handle, Request::DestroySubsurface));
    push_when(out, t.has_surface, StateRequest::Layer(handle, Request::DestroySurface));
    let ghost p6 = when(s.has_surface, StateRequest::Layer(handle, Request::DestroySurface));
    assert(out@ == start + p1 + p2 + p3 + p4 + p5 + p6);
    out.push(StateRequest::Flush);
    proof {
        lemma_append(start, p1, p2);
        lemma_append(start, p1 + p2, p3);
        lemma_append(start, p1 + p2 + p3, p4);
        lemma_append(start, p1 + p2 + p3 + p4, p5);
        lemma_append(start, p1 + p2 + p3 + p4 + p5, p6);
        lemma_append(start, p1 + p2 + p3 + p4 + p5 + p6, seq![StateRequest::Flush]);
        lemma_pushed(start + (p1 + p2 + p3 + p4 + p5 + p6), StateRequest::Flush);
    }
}

/// Appending piece by piece is appending all pieces at once.
proof fn lemma_append(
    start: Seq<StateRequest>,
    so_far: Seq<StateRequest>,
    next: Seq<StateRequest>,
)
    ensures
        start + so_far + next == start + (so_far + next),
{
    assert(start + so_far + next =~= start + (so_far + next));
}

/// Pushing one request is appending it.
proof fn lemma_pushed(so_far: Seq<StateRequest>, next: StateRequest)
    ensures
        so_far.push(next) == so_far + seq![next],
{
    assert(so_far.push(next) =~= so_far + seq![next]);
}

/// The requests that end a layer's workers.
pub open spec fn shutdown_requests(s: PlatformSurface) -> Seq<StateRequest> {
    when(s.has_gpu_worker, StateRequest::ShutdownGpuWorker(s.handle)) + when(
        s.has_shm_worker,
        StateRequest::ShutdownShmWorker(s.handle),
    )
}

/// A stack without a layer.
pub open spec fn stack_without(stack: Seq<usize>, handle: usize) -> Seq<usize> {
    stack.filter(|h: usize| h != handle)
}

fn unstacked(stack: &Vec<usize>, handle: usize) -> (r: Vec<usize>)
    ensures
        r@ == stack_without(stack@, handle),
{
    let mut out: Vec<usize> = Vec::new();
    for i in 0..stack.len()
        invariant
            out@ == stack_without(stack@.take(i as int), handle),
    {
        proof {
            reveal(Seq::filter);
            assert(stack@.take(i + 1).drop_last() =~= stack@.take(i as int));
        }
        if stack[i] != handle {
            out.push(stack[i]);
        }
    }
    assert(stack@.take(stack@.len() as int) =~= stack@);
    out
}

/// Frees a layer. Its workers end first, the stacking is told before the
/// objects go. A handle that names none frees nothing.
pub fn free_surface(st: &mut WlState, handle: usize, out: &mut Vec<StateRequest>)
    requires
        old(st).wf(),
    ensures
        final(st).wf(),
        match wl_state::index_of(old(st).surfaces@, handle) {
            None => *final(st) == *old(st) && final(out)@ == old(out)@,
            Some(i) => {
                let s = old(st).surfaces@[i];
                let order = scene::next_order(
                    old(st).scene.order(),
                    SceneEvent::LayerRemoved(LayerId(handle)),
                );
                &&& final(st).surfaces@ == old(st).surfaces@.remove(i)
                &&& final(st).stack@ == stack_without(old(st).stack@, handle)
                &&& final(st).scene.order() == order
                &&& final(st).buffers@ == freed_buffers(s, old(st).buffers@)
                &&& *final(st) == (WlState {
                    surfaces: final(st).surfaces,
                    stack: final(st).stack,
                    scene: final(st).scene,
                    buffers: final(st).buffers,
                    ..*old(st)
                })
                &&& final(out)@ == old(out)@ + shutdown_requests(s) + wl_state::dispatch_requests(
                    old(st).surfaces@,
                    old(st).scene.order(),
                    order,
                ) + drop_layer_requests(s, old(st).buffers@)
            },
        },
{
    let i = match st.find(handle) {
        Some(i) => i,
        None => return,
    };
    let ghost s = st.surfaces@[i as int];
    push_when(out, st.surfaces[i].has_gpu_worker, StateRequest::ShutdownGpuWorker(handle));
    push_when(out, st.surfaces[i].has_shm_worker, StateRequest::ShutdownShmWorker(handle));
    assert(out@ =~= old(out)@ + shutdown_requests(s));
    st.stack = unstacked(&st.stack, handle);
    st.dispatch(SceneEvent::LayerRemoved(LayerId(handle)), out);
    let gone = st.surfaces.remove(i);
    proof {
        let before = old(st).surfaces@;
        assert(st.surfaces@ == before.remove(i as int));
        assert forall|k: int| 0 <= k < st.surfaces@.len() implies 0 < (
        #[trigger] st.surfaces@[k]).handle < st.next_handle && st.surfaces@[k].wf() by {
            assert(st.surfaces@[k] == before[if k < i {
                k
            } else {
                k + 1
            }]);
        }
    }
    drop_layer(gone, &mut st.buffers, out);
}

/// The layers of a list of handles, without those that name none.
pub open spec fn layers_of(handles: Seq<usize>) -> Seq<LayerId> {
    handles.filter_map(
        |h: usize|
            if h != 0 {
                Some(LayerId(h))
            } else {
                None
            },
    )
}

/// Stacks the layers in this order, bottom first.
pub fn restack(st: &mut WlState, ordered: &[usize], out: &mut Vec<StateRequest>)
    requires
        old(st).wf(),
    ensures
        final(st).wf(),
        final(st).stack@ == ordered@,
        final(st).scene.order() == scene::known_of(
            layers_of(ordered@),
            old(st).scene.order(),
        ),
        *final(st) == (WlState { stack: final(st).stack, scene: final(st).scene, ..*old(st) }),
        final(out)@ == old(out)@ + wl_state::dispatch_requests(
            old(st).surfaces@,
            old(st).scene.order(),
            final(st).scene.order(),
        ),
{
    let mut stack: Vec<usize> = Vec::new();
    let mut order: Vec<LayerId> = Vec::new();
    for i in 0..ordered.len()
        invariant
            stack@ == ordered@.take(i as int),
            order@ == layers_of(ordered@.take(i as int)),
    {
        assert(ordered@.take(i + 1).drop_last() =~= ordered@.take(i as int));
        assert(ordered@.take(i + 1).last() == ordered@[i as int]);
        stack.push(ordered[i]);
        if ordered[i] != 0 {
            order.push(LayerId(ordered[i]));
        }
        assert(stack@ =~= ordered@.take(i + 1));
        assert(order@ =~= layers_of(ordered@.take(i + 1)));
    }
    assert(ordered@.take(ordered@.len() as int) =~= ordered@);
    st.stack = stack;
    st.dispatch(SceneEvent::Restack(order), out);
}

/// The request that stretches a layer over the window, once its size is known
/// and the layer has a viewport.
pub open spec fn dest_requests(s: PlatformSurface, win: WlWindowState) -> Seq<StateRequest> {
    match window_state::logical_size(win) {
        Some(size) => when(
            s.has_viewport,
            StateRequest::Layer(s.handle, Request::SetDestination { w: size.w, h: size.h }),
        ),
        None => Seq::empty(),
    }
}

fn set_viewport_dest(s: &PlatformSurface, win: &WlWindowState, out: &mut Vec<StateRequest>)
    ensures
        final(out)@ == old(out)@ + dest_requests(*s, *win),
{
    match window_logical_size(win) {
        Some(size) => push_when(
            out,
            s.has_viewport,
            StateRequest::Layer(s.handle, Request::SetDestination { w: size.w, h: size.h }),
        ),
        None => {
            assert(out@ =~= old(out)@ + Seq::<StateRequest>::empty());
        },
    }
}

/// The requests that show the visible part of a buffer over the window.
pub open spec fn viewport_requests(
    s: PlatformSurface,
    win: WlWindowState,
    vis_w: i32,
    vis_h: i32,
) -> Seq<StateRequest> {
    when(
        s.has_viewport && vis_w > 0 && vis_h > 0,
        StateRequest::Layer(s.handle, Request::SetSource { x: 0, y: 0, w: vis_w, h: vis_h }),
    ) + dest_requests(s, win)
}

fn set_viewport_for_buffer(
    s: &PlatformSurface,
    win: &WlWindowState,
    vis_w: i32,
    vis_h: i32,
    out: &mut Vec<StateRequest>,
)
    ensures
        final(out)@ == old(out)@ + viewport_requests(*s, *win, vis_w, vis_h),
{
    push_when(
        out,
        s.has_viewport && vis_w > 0 && vis_h > 0,
        StateRequest::Layer(s.handle, Request::SetSource { x: 0, y: 0, w: vis_w, h: vis_h }),
    );
    set_viewport_dest(s, win, out);
    assert(out@ =~= old(out)@ + viewport_requests(*s, *win, vis_w, vis_h));
}

/// How a change of visibility goes on.
#[derive(Clone, Copy, Debug, PartialEq, Eq, Structural)]
pub enum VisibleStep {
    /// It is done.
    Done,
    /// Make a buffer of one pixel in the background's colour and hand it to
    /// [`placeholder_ready`].
    NeedPlaceholder,
}

/// How a change of a layer's visibility goes on.
pub open spec fn visible_step(s: PlatformSurface, use_gpu_paint: bool, visible: bool) -> VisibleStep {
    if s.visible != visible && s.has_surface && !use_gpu_paint && !s.has_shm_worker && visible {
        VisibleStep::NeedPlaceholder
    } else {
        VisibleStep::Done
    }
}

/// A layer after its visibility was changed.
pub open spec fn made_visible(s: PlatformSurface, use_gpu_paint: bool, visible: bool) -> PlatformSurface {
    if s.visible == visible {
        s
    } else if !s.has_surface || use_gpu_paint || visible {
        PlatformSurface { visible, ..s }
    } else if s.has_shm_worker {
        PlatformSurface { visible, null_attached: true, ..s }
    } else {
        PlatformSurface { visible, buffer: None, placeholder: false, null_attached: true, ..s }
    }
}

/// The requests that detach a layer from its buffer.
pub open spec fn detach_requests(handle: usize) -> Seq<StateRequest> {
    seq![
        StateRequest::Layer(handle, Request::Detach),
        StateRequest::Layer(handle, Request::Commit),
        StateRequest::Flush,
    ]
}

/// Whether a change of visibility hides a layer that shows its own buffers.
pub open spec fn hides(s: PlatformSurface, use_gpu_paint: bool, visible: bool) -> bool {
    s.visible && !visible && s.has_surface && !use_gpu_paint && !s.has_shm_worker
}

/// The requests of a change of visibility.
pub open spec fn visible_requests(
    s: PlatformSurface,
    use_gpu_paint: bool,
    visible: bool,
    m: Seq<ManagedBuffer>,
) -> Seq<StateRequest> {
    if s.visible == visible || !s.has_surface {
        Seq::empty()
    } else if use_gpu_paint {
        when(s.has_gpu_worker, StateRequest::ShowGpuWorker(s.handle, visible))
    } else if s.has_shm_worker {
        seq![StateRequest::ShowShmWorker(s.handle, visible)] + if visible {
            Seq::empty()
        } else {
            detach_requests(s.handle)
        }
    } else if visible {
        Seq::empty()
    } else {
        detach_requests(s.handle) + retire_layer_requests(s.handle, m, s.buffer) + seq![
            StateRequest::RequestPresent,
        ]
    }
}

fn detach(handle: usize, out: &mut Vec<StateRequest>)
    ensures
        final(out)@ == old(out)@ + detach_requests(handle),
{
    out.push(StateRequest::Layer(handle, Request::Detach));
    out.push(StateRequest::Layer(handle, Request::Commit));
    out.push(StateRequest::Flush);
    assert(out@ =~= old(out)@ + detach_requests(handle));
}

fn change_visible(
    s: &mut PlatformSurface,
    managed: &mut ManagedBuffers,
    use_gpu_paint: bool,
    visible: bool,
    out: &mut Vec<StateRequest>,
) -> (r: VisibleStep)
    ensures
        r == visible_step(*old(s), use_gpu_paint, visible),
        *final(s) == made_visible(*old(s), use_gpu_paint, visible),
        final(managed)@ == if hides(*old(s), use_gpu_paint, visible) {
            dmabuf_pool::given_up(old(managed)@, old(s).buffer)
        } else {
            old(managed)@
        },
        final(out)@ == old(out)@ + visible_requests(
            *old(s),
            use_gpu_paint,
            visible,
            old(managed)@,
        ),
{
    let handle = s.handle;
    assert(out@ =~= old(out)@ + Seq::<StateRequest>::empty());
    if s.visible == visible {
        return VisibleStep::Done;
    }
    s.visible = visible;
    if !s.has_surface {
        return VisibleStep::Done;
    }
    if use_gpu_paint {
        push_when(out, s.has_gpu_worker, StateRequest::ShowGpuWorker(handle, visible));
        return VisibleStep::Done;
    }
    if s.has_shm_worker {
        out.push(StateRequest::ShowShmWorker(handle, visible));
        if !visible {
            detach(handle, out);
            s.null_attached = true;
        }
        assert(out@ =~= old(out)@ + visible_requests(
            *old(s),
            use_gpu_paint,
            visible,
            old(managed)@,
        ));
        return VisibleStep::Done;
    }
    if visible {
        return VisibleStep::NeedPlaceholder;
    }
    detach(handle, out);
    let buf = s.buffer;
    s.buffer = None;
    retire_layer(managed, handle, buf, out);
    s.placeholder = false;
    s.null_attached = true;
    out.push(StateRequest::RequestPresent);
    assert(out@ =~= old(out)@ + visible_requests(*old(s), use_gpu_paint, visible, old(managed)@));
    VisibleStep::Done
}

/// Shows or hides a layer.
///
/// With GPU paint the worker is told, and nothing else. A shared-memory
/// worker is told, and its surface detached on hiding. A layer that shows its
/// own buffers is given a plain placeholder on showing, until its first
/// frame, and is detached on hiding.
pub fn surface_set_visible(
    st: &mut WlState,
    handle: usize,
    visible: bool,
    out: &mut Vec<StateRequest>,
) -> (r: VisibleStep)
    requires
        old(st).wf(),
    ensures
        final(st).wf(),
        match wl_state::index_of(old(st).surfaces@, handle) {
            None => *final(st) == *old(st) && final(out)@ == old(out)@ && r == VisibleStep::Done,
            Some(i) => {
                let s = old(st).surfaces@[i];
                let gpu = old(st).use_gpu_paint;
                &&& r == visible_step(s, gpu, visible)
                &&& final(st).surfaces@ == old(st).surfaces@.update(
                    i,
                    made_visible(s, gpu, visible),
                )
                &&& final(st).buffers@ == if hides(s, gpu, visible) {
                    dmabuf_pool::given_up(old(st).buffers@, s.buffer)
                } else {
                    old(st).buffers@
                }
                &&& *final(st) == (WlState {
                    surfaces: final(st).surfaces,
                    buffers: final(st).buffers,
                    ..*old(st)
                })
                &&& final(out)@ == old(out)@ + visible_requests(
                    s,
                    gpu,
                    visible,
                    old(st).buffers@,
                )
            },
        },
{
    let i = match st.find(handle) {
        Some(i) => i,
        None => return VisibleStep::Done,
    };
    let gpu = st.use_gpu_paint;
    let r = change_visible(&mut st.surfaces[i], &mut st.buffers, gpu, visible, out);
    assert(st.surfaces@ =~= old(st).surfaces@.update(
        i as int,
        made_visible(old(st).surfaces@[i as int], gpu, visible),
    ));
    r
}

/// A layer that shows its placeholder.
pub open spec fn with_placeholder(s: PlatformSurface, buf: BufferId) -> PlatformSurface {
    PlatformSurface { placeholder: true, buffer: Some(buf), null_attached: false, ..s }
}

/// The requests that show a layer's placeholder.
pub open spec fn placeholder_requests(
    s: PlatformSurface,
    win: WlWindowState,
    m: Seq<ManagedBuffer>,
    buf: BufferId,
) -> Seq<StateRequest> {
    retire_layer_requests(s.handle, m, s.buffer) + when(
        s.has_viewport,
        StateRequest::Layer(s.handle, Request::SetSource { x: 0, y: 0, w: 1, h: 1 }),
    ) + dest_requests(s, win) + seq![
        StateRequest::Layer(s.handle, Request::Attach(buf)),
        StateRequest::Layer(s.handle, Request::Damage { w: 1, h: 1 }),
        StateRequest::Layer(s.handle, Request::Commit),
        StateRequest::Flush,
    ]
}

fn show_placeholder(
    s: &mut PlatformSurface,
    managed: &mut ManagedBuffers,
    win: &WlWindowState,
    buf: BufferId,
    out: &mut Vec<StateRequest>,
)
    ensures
        *final(s) == with_placeholder(*old(s), buf),
        final(managed)@ == buffers::attached(
            dmabuf_pool::given_up(old(managed)@, old(s).buffer),
            buf,
        ),
        final(out)@ == old(out)@ + placeholder_requests(*old(s), *win, old(managed)@, buf),
{
    let handle = s.handle;
    retire_layer(managed, handle, s.buffer, out);
    push_when(
        out,
        s.has_viewport,
        StateRequest::Layer(handle, Request::SetSource { x: 0, y: 0, w: 1, h: 1 }),
    );
    set_viewport_dest(s, win, out);
    managed.mark_attached(buf);
    out.push(StateRequest::Layer(handle, Request::Attach(buf)));
    out.push(StateRequest::Layer(handle, Request::Damage { w: 1, h: 1 }));
    out.push(StateRequest::Layer(handle, Request::Commit));
    out.push(StateRequest::Flush);
    s.placeholder = true;
    s.buffer = Some(buf);
    s.null_attached = false;
    assert(out@ =~= old(out)@ + placeholder_requests(*old(s), *win, old(managed)@, buf));
}

/// Shows the placeholder of a layer that became visible, in the new buffer
/// `buf`, which is tracked from here on. A buffer that could not be made is
/// done without; the commit of the root is asked for either way.
pub fn placeholder_ready(
    st: &mut WlState,
    handle: usize,
    win: &WlWindowState,
    buf: Option<BufferId>,
    out: &mut Vec<StateRequest>,
)
    requires
        old(st).wf(),
    ensures
        final(st).wf(),
        match (wl_state::index_of(old(st).surfaces@, handle), buf) {
            (Some(i), Some(b)) => {
                let s = old(st).surfaces@[i];
                let m = buffers::with_new(old(st).buffers@, b);
                &&& final(st).surfaces@ == old(st).surfaces@.update(i, with_placeholder(s, b))
                &&& final(st).buffers@ == buffers::attached(
                    dmabuf_pool::given_up(m, s.buffer),
                    b,
                )
                &&& *final(st) == (WlState {
                    surfaces: final(st).surfaces,
                    buffers: final(st).buffers,
                    ..*old(st)
                })
                &&& final(out)@ == old(out)@ + placeholder_requests(s, *win, m, b)
                    + seq![StateRequest::RequestPresent]
            },
            _ => *final(st) == *old(st) && final(out)@ == old(out)@.push(
                StateRequest::RequestPresent,
            ),
        },
{
    let found = st.find(handle);
    if let Some(i) = found {
        if let Some(b) = buf {
            st.buffers.track_buffer(b);
            show_placeholder(&mut st.surfaces[i], &mut st.buffers, win, b, out);
            assert(st.surfaces@ =~= old(st).surfaces@.update(
                i as int,
                with_placeholder(old(st).surfaces@[i as int], b),
            ));
            proof {
                lemma_pushed(out@, StateRequest::RequestPresent);
            }
        }
    }
    out.push(StateRequest::RequestPresent);
}

/// A layer with its popup child, where it has a surface to be one of.
pub open spec fn with_popup(s: PlatformSurface, viewporter: bool) -> PlatformSurface {
    if s.has_surface && !s.has_popup {
        PlatformSurface { has_popup: true, has_popup_viewport: viewporter, popup_visible: true, ..s }
    } else {
        PlatformSurface { popup_visible: true, ..s }
    }
}

/// The requests that show the popup child of a layer.
pub open spec fn popup_show_requests(
    s: PlatformSurface,
    viewporter: bool,
    x: i32,
    y: i32,
    lw: i32,
    lh: i32,
) -> Seq<StateRequest> {
    let t = with_popup(s, viewporter);
    (if s.has_surface && !s.has_popup {
        seq![
            StateRequest::Popup(s.handle, Request::CreateSurface),
            StateRequest::Popup(s.handle, Request::CreateSubsurface),
            StateRequest::Popup(s.handle, Request::EmptyInputRegion),
        ] + when(viewporter, StateRequest::Popup(s.handle, Request::CreateViewport))
    } else {
        Seq::empty()
    }) + (if t.has_popup {
        seq![StateRequest::Popup(s.handle, Request::SetPosition { x, y })] + when(
            t.has_popup_viewport && lw > 0 && lh > 0,
            StateRequest::Popup(s.handle, Request::SetDestination { w: lw, h: lh }),
        ) + seq![StateRequest::Flush]
    } else {
        Seq::empty()
    })
}

fn open_popup(
    s: &mut PlatformSurface,
    viewporter: bool,
    x: i32,
    y: i32,
    lw: i32,
    lh: i32,
    out: &mut Vec<StateRequest>,
)
    ensures
        *final(s) == with_popup(*old(s), viewporter),
        final(out)@ == old(out)@ + popup_show_requests(*old(s), viewporter, x, y, lw, lh),
{
    let handle = s.handle;
    if s.has_surface && !s.has_popup {
        out.push(StateRequest::Popup(handle, Request::CreateSurface));
        out.push(StateRequest::Popup(handle, Request::CreateSubsurface));
        out.push(StateRequest::Popup(handle, Request::EmptyInputRegion));
        push_when(out, viewporter, StateRequest::Popup(handle, Request::CreateViewport));
        s.has_popup = true;
        s.has_popup_viewport = viewporter;
    }
    s.popup_visible = true;
    if s.has_popup {
        out.push(StateRequest::Popup(handle, Request::SetPosition { x, y }));
        push_when(
            out,
            s.has_popup_viewport && lw > 0 && lh > 0,
            StateRequest::Popup(handle, Request::SetDestination { w: lw, h: lh }),
        );
        out.push(StateRequest::Flush);
    }
    assert(out@ =~= old(out)@ + popup_show_requests(*old(s), viewporter, x, y, lw, lh));
}

/// Shows the popup child of a layer at a place, in logical pixels.
pub fn popup_show(
    st: &mut WlState,
    handle: usize,
    x: i32,
    y: i32,
    lw: i32,
    lh: i32,
    out: &mut Vec<StateRequest>,
)
    requires
        old(st).wf(),
    ensures
        final(st).wf(),
        match wl_state::index_of(old(st).surfaces@, handle) {
            None => *final(st) == *old(st) && final(out)@ == old(out)@,
            Some(i) => {
                let s = old(st).surfaces@[i];
                &&& final(st).surfaces@ == old(st).surfaces@.update(
                    i,
                    with_popup(s, old(st).has_viewporter),
                )
                &&& *final(st) == (WlState { surfaces: final(st).surfaces, ..*old(st) })
                &&& final(out)@ == old(out)@ + popup_show_requests(
                    s,
                    old(st).has_viewporter,
                    x,
                    y,
                    lw,
                    lh,
                )
            },
        },
{
    let i = match st.find(handle) {
        Some(i) => i,
        None => return,
    };
    let viewporter = st.has_viewporter;
    open_popup(&mut st.surfaces[i], viewporter, x, y, lw, lh, out);
    assert(st.surfaces@ =~= old(st).surfaces@.update(
        i as int,
        with_popup(old(st).surfaces@[i as int], viewporter),
    ));
}

/// Hides the popup child of a layer and takes it down.
pub fn popup_hide(st: &mut WlState, handle: usize, out: &mut Vec<StateRequest>)
    requires
        old(st).wf(),
    ensures
        final(st).wf(),
        match wl_state::index_of(old(st).surfaces@, handle) {
            None => *final(st) == *old(st) && final(out)@ == old(out)@,
            Some(i) => {
                let s = old(st).surfaces@[i];
                &&& final(st).surfaces@ == old(st).surfaces@.update(
                    i,
                    PlatformSurface { popup_visible: false, ..without_popup(s) },
                )
                &&& final(st).buffers@ == dmabuf_pool::given_up(
                    old(st).buffers@,
                    s.popup_buffer,
                )
                &&& *final(st) == (WlState {
                    surfaces: final(st).surfaces,
                    buffers: final(st).buffers,
                    ..*old(st)
                })
                &&& final(out)@ == old(out)@ + drop_popup_requests(s, old(st).buffers@) + seq![
                    StateRequest::Flush,
                ]
            },
        },
{
    let i = match st.find(handle) {
        Some(i) => i,
        None => return,
    };
    popup_destroy(&mut st.surfaces[i], &mut st.buffers, out);
    st.surfaces[i].popup_visible = false;
    out.push(StateRequest::Flush);
    assert(st.surfaces@ =~= old(st).surfaces@.update(
        i as int,
        PlatformSurface {
            popup_visible: false,
            ..without_popup(old(st).surfaces@[i as int])
        },
    ));
    assert(out@ =~= old(out)@ + drop_popup_requests(
        old(st).surfaces@[i as int],
        old(st).buffers@,
    ) + seq![StateRequest::Flush]);
}

/// Whether a GPU frame is taken: the layer is there and visible, GPU buffers
/// can be made, and the frame is drawn for the window's size, unless nothing
/// is shown at all.
pub open spec fn takes_frame(
    s: PlatformSurface,
    has_dmabuf: bool,
    win: WlWindowState,
    frame: JfnDmabufFrame,
) -> bool {
    s.has_surface && s.visible && has_dmabuf && (wl_state::in_tolerance(
        win,
        frame.visible_w,
        frame.visible_h,
    ) || s.null_attached)
}

/// The name of a leased buffer.
pub open spec fn leased_id(lease: DmabufLease) -> BufferId {
    match lease {
        DmabufLease::Reused(b) => b,
        DmabufLease::Pooled(b) => b,
        DmabufLease::OneShot(b) => b,
    }
}

/// Whether `t` is the layer `s` after a frame was attached, apart from its
/// pool of buffers.
pub open spec fn with_frame(
    s: PlatformSurface,
    t: PlatformSurface,
    frame: JfnDmabufFrame,
    lease: DmabufLease,
) -> bool {
    t == PlatformSurface {
        dmabuf_pool: t.dmabuf_pool,
        buffer: match lease {
            DmabufLease::OneShot(b) => Some(b),
            _ => None,
        },
        buffer_w: frame.coded_w,
        buffer_h: frame.coded_h,
        placeholder: false,
        null_attached: false,
        ..s
    }
}

/// Requests on a layer's surface.
pub open spec fn on_layer(handle: usize, requests: Seq<Request>) -> Seq<StateRequest> {
    requests.map_values(|r: Request| StateRequest::Layer(handle, r))
}

/// The requests that show a GPU frame in a layer.
pub open spec fn frame_requests(
    s: PlatformSurface,
    win: WlWindowState,
    m: Seq<ManagedBuffer>,
    frame: JfnDmabufFrame,
    fresh: BufferId,
) -> Seq<StateRequest> {
    let pool = s.dmabuf_pool@;
    let shape = shape_of(frame);
    let leased = dmabuf_pool::leased_buffers(pool, m, frame.id, shape, fresh);
    let buf = leased_id(dmabuf_pool::lease_of(pool, m, frame.id, shape, fresh));
    on_layer(s.handle, dmabuf_pool::lease_requests(pool, m, frame.id, shape, fresh))
        + retire_layer_requests(s.handle, leased, s.buffer) + viewport_requests(
        s,
        win,
        frame.visible_w,
        frame.visible_h,
    ) + commit_requests(s.handle, buf, frame.coded_w, frame.coded_h)
}

/// The requests that attach a buffer of this size and commit it.
pub open spec fn commit_requests(handle: usize, buf: BufferId, w: i32, h: i32) -> Seq<
    StateRequest,
> {
    seq![
        StateRequest::Layer(handle, Request::Attach(buf)),
        StateRequest::Layer(handle, Request::Damage { w, h }),
        StateRequest::Layer(handle, Request::Commit),
        StateRequest::Flush,
        StateRequest::RequestPresent,
    ]
}

fn commit_frame(handle: usize, buf: BufferId, w: i32, h: i32, out: &mut Vec<StateRequest>)
    ensures
        final(out)@ == old(out)@ + commit_requests(handle, buf, w, h),
{
    out.push(StateRequest::Layer(handle, Request::Attach(buf)));
    out.push(StateRequest::Layer(handle, Request::Damage { w, h }));
    out.push(StateRequest::Layer(handle, Request::Commit));
    out.push(StateRequest::Flush);
    out.push(StateRequest::RequestPresent);
    assert(out@ =~= old(out)@ + commit_requests(handle, buf, w, h));
}

/// The buffers after a GPU frame was shown in a layer.
pub open spec fn frame_buffers(
    s: PlatformSurface,
    m: Seq<ManagedBuffer>,
    frame: JfnDmabufFrame,
    fresh: BufferId,
) -> Seq<ManagedBuffer> {
    let pool = s.dmabuf_pool@;
    let shape = shape_of(frame);
    buffers::attached(
        dmabuf_pool::given_up(
            dmabuf_pool::leased_buffers(pool, m, frame.id, shape, fresh),
            s.buffer,
        ),
        leased_id(dmabuf_pool::lease_of(pool, m, frame.id, shape, fresh)),
    )
}

fn push_layer_requests(handle: usize, requests: &Vec<Request>, out: &mut Vec<StateRequest>)
    ensures
        final(out)@ == old(out)@ + on_layer(handle, requests@),
{
    for i in 0..requests.len()
        invariant
            out@ == old(out)@ + on_layer(handle, requests@.take(i as int)),
    {
        out.push(StateRequest::Layer(handle, requests[i]));
        assert(out@ =~= old(out)@ + on_layer(handle, requests@.take(i + 1)));
    }
    assert(requests@.take(requests@.len() as int) =~= requests@);
}

fn lease_buffer(
    s: &mut PlatformSurface,
    managed: &mut ManagedBuffers,
    frame: &JfnDmabufFrame,
    fresh: BufferId,
    out: &mut Vec<StateRequest>,
) -> (r: DmabufLease)
    requires
        old(s).wf(),
    ensures
        final(s).wf(),
        *final(s) == (PlatformSurface { dmabuf_pool: final(s).dmabuf_pool, ..*old(s) }),
        r == dmabuf_pool::lease_of(
            old(s).dmabuf_pool@,
            old(managed)@,
            frame.id,
            shape_of(*frame),
            fresh,
        ),
        final(s).dmabuf_pool@ == dmabuf_pool::leased_pool(
            old(s).dmabuf_pool@,
            old(managed)@,
            frame.id,
            shape_of(*frame),
            fresh,
        ),
        final(managed)@ == dmabuf_pool::leased_buffers(
            old(s).dmabuf_pool@,
            old(managed)@,
            frame.id,
            shape_of(*frame),
            fresh,
        ),
        final(out)@ == old(out)@ + on_layer(
            old(s).handle,
            dmabuf_pool::lease_requests(
                old(s).dmabuf_pool@,
                old(managed)@,
                frame.id,
                shape_of(*frame),
                fresh,
            ),
        ),
{
    let shape = FrameShape {
        w: frame.coded_w,
        h: frame.coded_h,
        stride: frame.stride,
        modifier: frame.modifier,
    };
    let mut leasing: Vec<Request> = Vec::new();
    let lease = s.dmabuf_pool.get_or_create_dmabuf(managed, frame.id, shape, fresh, &mut leasing);
    let ghost wanted = dmabuf_pool::lease_requests(
        old(s).dmabuf_pool@,
        old(managed)@,
        frame.id,
        shape,
        fresh,
    );
    assert(leasing@ =~= wanted);
    push_layer_requests(s.handle, &leasing, out);
    lease
}

fn show_frame(
    s: &mut PlatformSurface,
    managed: &mut ManagedBuffers,
    win: &WlWindowState,
    frame: &JfnDmabufFrame,
    fresh: BufferId,
    out: &mut Vec<StateRequest>,
) -> (r: DmabufLease)
    requires
        old(s).wf(),
    ensures
        final(s).wf(),
        r == dmabuf_pool::lease_of(
            old(s).dmabuf_pool@,
            old(managed)@,
            frame.id,
            shape_of(*frame),
            fresh,
        ),
        with_frame(*old(s), *final(s), *frame, r),
        final(s).dmabuf_pool@ == dmabuf_pool::leased_pool(
            old(s).dmabuf_pool@,
            old(managed)@,
            frame.id,
            shape_of(*frame),
            fresh,
        ),
        final(managed)@ == frame_buffers(*old(s), old(managed)@, *frame, fresh),
        final(out)@ == old(out)@ + frame_requests(*old(s), *win, old(managed)@, *frame, fresh),
{
    let ghost start = out@;
    let ghost s0 = *s;
    let ghost m = managed@;
    let handle = s.handle;
    let lease = lease_buffer(s, managed, frame, fresh, out);
    let ghost leased = managed@;
    let ghost p1 = on_layer(
        handle,
        dmabuf_pool::lease_requests(s0.dmabuf_pool@, m, frame.id, shape_of(*frame), fresh),
    );
    let before = s.buffer;
    retire_layer(managed, handle, before, out);
    let ghost p2 = retire_layer_requests(handle, leased, s0.buffer);
    let (buf, kept) = match lease {
        DmabufLease::Reused(b) => (b, None),
        DmabufLease::Pooled(b) => (b, None),
        DmabufLease::OneShot(b) => (b, Some(b)),
    };
    s.buffer = kept;
    s.buffer_w = frame.coded_w;
    s.buffer_h = frame.coded_h;
    s.placeholder = false;
    s.null_attached = false;
    set_viewport_for_buffer(s, win, frame.visible_w, frame.visible_h, out);
    let ghost p3 = viewport_requests(s0, *win, frame.visible_w, frame.visible_h);
    managed.mark_attached(buf);
    commit_frame(handle, buf, frame.coded_w, frame.coded_h, out);
    proof {
        let p4 = commit_requests(handle, buf, frame.coded_w, frame.coded_h);
        lemma_append(start, p1, p2);
        lemma_append(start, p1 + p2, p3);
        lemma_append(start, p1 + p2 + p3, p4);
    }
    lease
}

/// Shows a GPU frame in a layer; `fresh` is the name that a new buffer would
/// have. None where the frame is not taken, else the buffer it is shown in.
pub fn surface_present(
    st: &mut WlState,
    handle: usize,
    win: &WlWindowState,
    frame: &JfnDmabufFrame,
    fresh: BufferId,
    out: &mut Vec<StateRequest>,
) -> (r: Option<DmabufLease>)
    requires
        old(st).wf(),
    ensures
        final(st).wf(),
        match wl_state::index_of(old(st).surfaces@, handle) {
            Some(i) if takes_frame(old(st).surfaces@[i], old(st).has_dmabuf, *win, *frame) => {
                let s = old(st).surfaces@[i];
                let t = final(st).surfaces@[i];
                let m = old(st).buffers@;
                &&& r == Some(
                    dmabuf_pool::lease_of(s.dmabuf_pool@, m, frame.id, shape_of(*frame), fresh),
                )
                &&& with_frame(s, t, *frame, r->0)
                &&& t.dmabuf_pool@ == dmabuf_pool::leased_pool(
                    s.dmabuf_pool@,
                    m,
                    frame.id,
                    shape_of(*frame),
                    fresh,
                )
                &&& final(st).surfaces@ == old(st).surfaces@.update(i, t)
                &&& final(st).buffers@ == frame_buffers(s, m, *frame, fresh)
                &&& *final(st) == (WlState {
                    surfaces: final(st).surfaces,
                    buffers: final(st).buffers,
                    ..*old(st)
                })
                &&& final(out)@ == old(out)@ + frame_requests(s, *win, m, *frame, fresh)
            },
            _ => r is None && *final(st) == *old(st) && final(out)@ == old(out)@,
        },
{
    let i = match st.find(handle) {
        Some(i) => i,
        None => return None,
    };
    let s = &st.surfaces[i];
    if !s.has_surface || !s.visible || !st.has_dmabuf {
        return None;
    }
    if !size_in_tolerance(win, frame.visible_w, frame.visible_h) && !s.null_attached {
        return None;
    }
    let lease = show_frame(&mut st.surfaces[i], &mut st.buffers, win, frame, fresh, out);
    assert(st.surfaces@ =~= old(st).surfaces@.update(i as int, st.surfaces@[i as int]));
    Some(lease)
}

/// How a software frame goes on.
#[derive(Clone, Copy, Debug, PartialEq, Eq, Structural)]
pub enum SoftwareStep {
    /// The frame is not taken.
    Refused,
    /// Hand the frame to the layer's shared-memory worker, started first
    /// where `start` is set, after it was told that it is visible and the
    /// window's size.
    Shm { start: bool, viewport: ViewportState },
    /// Hand the frame to the layer's GPU worker, started first where `start`
    /// is set, after it was told that it is visible and its target size; then
    /// flush.
    Gpu { start: bool, w: u32, h: u32 },
}

/// How a software frame goes on.
pub open spec fn software_step(
    s: PlatformSurface,
    use_gpu_paint: bool,
    has_gpu_ctx: bool,
    win: WlWindowState,
    w: i32,
    h: i32,
) -> SoftwareStep {
    let (pw, ph) = window_state::unpacked_size(win.size);
    if w <= 0 || h <= 0 || !s.has_surface || !s.visible {
        SoftwareStep::Refused
    } else if !use_gpu_paint {
        match window_state::logical_size(win) {
            Some(size) => SoftwareStep::Shm {
                start: !s.has_shm_worker,
                viewport: ViewportState { lw: size.w, lh: size.h, pw, ph },
            },
            None => SoftwareStep::Refused,
        }
    } else if !has_gpu_ctx {
        SoftwareStep::Refused
    } else if pw > 0 && ph > 0 {
        SoftwareStep::Gpu { start: !s.has_gpu_worker, w: pw as u32, h: ph as u32 }
    } else {
        SoftwareStep::Gpu { start: !s.has_gpu_worker, w: w as u32, h: h as u32 }
    }
}

/// A layer after a software frame was taken.
pub open spec fn with_software(s: PlatformSurface, step: SoftwareStep, w: i32, h: i32) -> PlatformSurface {
    match step {
        SoftwareStep::Refused => s,
        SoftwareStep::Shm { .. } => PlatformSurface {
            buffer_w: w,
            buffer_h: h,
            placeholder: false,
            null_attached: false,
            has_shm_worker: true,
            ..s
        },
        SoftwareStep::Gpu { .. } => PlatformSurface {
            buffer_w: w,
            buffer_h: h,
            has_gpu_worker: true,
            ..s
        },
    }
}

/// The requests of taking a software frame.
pub open spec fn software_requests(
    s: PlatformSurface,
    step: SoftwareStep,
    win: WlWindowState,
    w: i32,
    h: i32,
) -> Seq<StateRequest> {
    match step {
        SoftwareStep::Gpu { .. } => viewport_requests(s, win, w, h),
        _ => Seq::empty(),
    }
}

fn take_software(
    s: &mut PlatformSurface,
    use_gpu_paint: bool,
    has_gpu_ctx: bool,
    win: &WlWindowState,
    w: i32,
    h: i32,
    out: &mut Vec<StateRequest>,
) -> (r: SoftwareStep)
    ensures
        r == software_step(*old(s), use_gpu_paint, has_gpu_ctx, *win, w, h),
        *final(s) == with_software(*old(s), r, w, h),
        final(out)@ == old(out)@ + software_requests(*old(s), r, *win, w, h),
{
    assert(out@ =~= old(out)@ + Seq::<StateRequest>::empty());
    if w <= 0 || h <= 0 || !s.has_surface || !s.visible {
        return SoftwareStep::Refused;
    }
    let (pw, ph) = jfn_wl_window_size(win);
    if !use_gpu_paint {
        let size = match window_logical_size(win) {
            Some(size) => size,
            None => return SoftwareStep::Refused,
        };
        let start = !s.has_shm_worker;
        s.buffer_w = w;
        s.buffer_h = h;
        s.placeholder = false;
        s.null_attached = false;
        s.has_shm_worker = true;
        return SoftwareStep::Shm {
            start,
            viewport: ViewportState { lw: size.w, lh: size.h, pw, ph },
        };
    }
    if !has_gpu_ctx {
        return SoftwareStep::Refused;
    }
    let start = !s.has_gpu_worker;
    s.buffer_w = w;
    s.buffer_h = h;
    set_viewport_for_buffer(s, win, w, h, out);
    s.has_gpu_worker = true;
    if pw > 0 && ph > 0 {
        SoftwareStep::Gpu { start, w: pw as u32, h: ph as u32 }
    } else {
        SoftwareStep::Gpu { start, w: w as u32, h: h as u32 }
    }
}

/// Takes a software frame of a size for a layer.
pub fn surface_present_software(
    st: &mut WlState,
    handle: usize,
    win: &WlWindowState,
    w: i32,
    h: i32,
    out: &mut Vec<StateRequest>,
) -> (r: SoftwareStep)
    requires
        old(st).wf(),
    ensures
        final(st).wf(),
        match wl_state::index_of(old(st).surfaces@, handle) {
            None => r == SoftwareStep::Refused && *final(st) == *old(st) && final(out)@
                == old(out)@,
            Some(i) => {
                let s = old(st).surfaces@[i];
                &&& r == software_step(
                    s,
                    old(st).use_gpu_paint,
                    old(st).has_gpu_ctx,
                    *win,
                    w,
                    h,
                )
                &&& final(st).surfaces@ == old(st).surfaces@.update(i, with_software(s, r, w, h))
                &&& *final(st) == (WlState { surfaces: final(st).surfaces, ..*old(st) })
                &&& final(out)@ == old(out)@ + software_requests(s, r, *win, w, h)
            },
        },
{
    let i = match st.find(handle) {
        Some(i) => i,
        None => return SoftwareStep::Refused,
    };
    let (gpu, ctx) = (st.use_gpu_paint, st.has_gpu_ctx);
    let r = take_software(&mut st.surfaces[i], gpu, ctx, win, w, h, out);
    assert(st.surfaces@ =~= old(st).surfaces@.update(
        i as int,
        with_software(old(st).surfaces@[i as int], r, w, h),
    ));
    r
}

/// Whether the popup child of a layer takes a frame.
pub open spec fn popup_takes(s: PlatformSurface, lw: i32, lh: i32) -> bool {
    lw > 0 && lh > 0 && s.has_popup && s.popup_visible
}

/// Whether the popup child of a layer takes a frame.
pub fn popup_ready(st: &WlState, handle: usize, lw: i32, lh: i32) -> (r: bool)
    ensures
        r == (wl_state::index_of(st.surfaces@, handle) matches Some(i) && popup_takes(
            st.surfaces@[i],
            lw,
            lh,
        )),
{
    match st.find(handle) {
        Some(i) => lw > 0 && lh > 0 && st.surfaces[i].has_popup && st.surfaces[i].popup_visible,
        None => false,
    }
}

/// The requests that fit the viewport of a layer's popup child to a frame,
/// where it has one.
pub open spec fn popup_fit_requests(
    s: PlatformSurface,
    vw: i32,
    vh: i32,
    lw: i32,
    lh: i32,
) -> Seq<StateRequest> {
    when(
        s.has_popup_viewport,
        StateRequest::Popup(s.handle, Request::SetSource { x: 0, y: 0, w: vw, h: vh }),
    ) + when(
        s.has_popup_viewport,
        StateRequest::Popup(s.handle, Request::SetDestination { w: lw, h: lh }),
    )
}

/// The requests that attach a buffer to the popup child of a layer and commit
/// it. The layer is committed first, so that both land in one frame.
pub open spec fn popup_attach_requests(
    s: PlatformSurface,
    buf: BufferId,
    vw: i32,
    vh: i32,
) -> Seq<StateRequest> {
    seq![
        StateRequest::Popup(s.handle, Request::Attach(buf)),
        StateRequest::Popup(s.handle, Request::Damage { w: vw, h: vh }),
    ] + when(s.has_surface, StateRequest::Popup(s.handle, Request::CommitOwner)) + seq![
        StateRequest::Popup(s.handle, Request::Commit),
        StateRequest::Flush,
        StateRequest::RequestPresent,
    ]
}

/// The requests that show a buffer in the popup child of a layer.
pub open spec fn popup_frame_requests(
    s: PlatformSurface,
    m: Seq<ManagedBuffer>,
    buf: BufferId,
    vw: i32,
    vh: i32,
    lw: i32,
    lh: i32,
) -> Seq<StateRequest> {
    retire_layer_requests(s.handle, m, s.popup_buffer) + popup_fit_requests(s, vw, vh, lw, lh)
        + popup_attach_requests(s, buf, vw, vh)
}

fn push_popup_fit(
    s: &PlatformSurface,
    vw: i32,
    vh: i32,
    lw: i32,
    lh: i32,
    out: &mut Vec<StateRequest>,
)
    ensures
        final(out)@ == old(out)@ + popup_fit_requests(*s, vw, vh, lw, lh),
{
    push_when(
        out,
        s.has_popup_viewport,
        StateRequest::Popup(s.handle, Request::SetSource { x: 0, y: 0, w: vw, h: vh }),
    );
    push_when(
        out,
        s.has_popup_viewport,
        StateRequest::Popup(s.handle, Request::SetDestination { w: lw, h: lh }),
    );
    assert(out@ =~= old(out)@ + popup_fit_requests(*s, vw, vh, lw, lh));
}

fn push_popup_attach(
    s: &PlatformSurface,
    buf: BufferId,
    vw: i32,
    vh: i32,
    out: &mut Vec<StateRequest>,
)
    ensures
        final(out)@ == old(out)@ + popup_attach_requests(*s, buf, vw, vh),
{
    out.push(StateRequest::Popup(s.handle, Request::Attach(buf)));
    out.push(StateRequest::Popup(s.handle, Request::Damage { w: vw, h: vh }));
    push_when(out, s.has_surface, StateRequest::Popup(s.handle, Request::CommitOwner));
    out.push(StateRequest::Popup(s.handle, Request::Commit));
    out.push(StateRequest::Flush);
    out.push(StateRequest::RequestPresent);
    assert(out@ =~= old(out)@ + popup_attach_requests(*s, buf, vw, vh));
}

/// The three parts of a popup frame, appended one by one, are the whole.
proof fn lemma_popup_frame(
    start: Seq<StateRequest>,
    s: PlatformSurface,
    m: Seq<ManagedBuffer>,
    buf: BufferId,
    vw: i32,
    vh: i32,
    lw: i32,
    lh: i32,
)
    ensures
        start + retire_layer_requests(s.handle, m, s.popup_buffer) + popup_fit_requests(
            s,
            vw,
            vh,
            lw,
            lh,
        ) + popup_attach_requests(s, buf, vw, vh) == start + popup_frame_requests(
            s,
            m,
            buf,
            vw,
            vh,
            lw,
            lh,
        ),
{
    let retired = retire_layer_requests(s.handle, m, s.popup_buffer);
    let fitted = popup_fit_requests(s, vw, vh, lw, lh);
    lemma_append(start, retired, fitted);
    lemma_append(start, retired + fitted, popup_attach_requests(s, buf, vw, vh));
}

fn show_popup_frame(
    s: &mut PlatformSurface,
    managed: &mut ManagedBuffers,
    buf: BufferId,
    vw: i32,
    vh: i32,
    lw: i32,
    lh: i32,
    out: &mut Vec<StateRequest>,
)
    ensures
        *final(s) == (PlatformSurface { popup_buffer: Some(buf), ..*old(s) }),
        final(managed)@ == buffers::attached(
            dmabuf_pool::given_up(old(managed)@, old(s).popup_buffer),
            buf,
        ),
        final(out)@ == old(out)@ + popup_frame_requests(
            *old(s),
            old(managed)@,
            buf,
            vw,
            vh,
            lw,
            lh,
        ),
{
    retire_layer(managed, s.handle, s.popup_buffer, out);
    push_popup_fit(s, vw, vh, lw, lh, out);
    managed.mark_attached(buf);
    push_popup_attach(s, buf, vw, vh, out);
    s.popup_buffer = Some(buf);
    proof {
        lemma_popup_frame(old(out)@, *old(s), old(managed)@, buf, vw, vh, lw, lh);
    }
}

/// The state after the layer at `i` was shown the new buffer `buf` in its popup
/// child.
pub open spec fn with_popup_frame(
    before: WlState,
    after: WlState,
    i: int,
    buf: BufferId,
) -> bool {
    let s = before.surfaces@[i];
    let m = buffers::with_new(before.buffers@, buf);
    &&& after.surfaces@ == before.surfaces@.update(
        i,
        PlatformSurface { popup_buffer: Some(buf), ..s },
    )
    &&& after.buffers@ == buffers::attached(dmabuf_pool::given_up(m, s.popup_buffer), buf)
    &&& after == (WlState { surfaces: after.surfaces, buffers: after.buffers, ..before })
}

/// Starts to manage a new buffer and shows it in the popup child of the layer
/// at `i`.
#[verifier::spinoff_prover]
fn show_new_in_popup(
    st: &mut WlState,
    i: usize,
    buf: BufferId,
    vw: i32,
    vh: i32,
    lw: i32,
    lh: i32,
    out: &mut Vec<StateRequest>,
)
    requires
        old(st).wf(),
        i < old(st).surfaces@.len(),
    ensures
        final(st).wf(),
        with_popup_frame(*old(st), *final(st), i as int, buf),
        final(out)@ == old(out)@ + popup_frame_requests(
            old(st).surfaces@[i as int],
            buffers::with_new(old(st).buffers@, buf),
            buf,
            vw,
            vh,
            lw,
            lh,
        ),
{
    st.buffers.track_buffer(buf);
    show_popup_frame(&mut st.surfaces[i], &mut st.buffers, buf, vw, vh, lw, lh, out);
    assert(st.surfaces@ =~= old(st).surfaces@.update(
        i as int,
        PlatformSurface { popup_buffer: Some(buf), ..old(st).surfaces@[i as int] },
    ));
}

/// The visible extent of a frame, the whole one where none is given.
pub open spec fn visible_or(visible: i32, coded: i32) -> i32 {
    if visible > 0 {
        visible
    } else {
        coded
    }
}

/// Shows a GPU frame in the popup child of a layer, in the new buffer
/// `fresh`: make it where true comes back.
pub fn popup_present(
    st: &mut WlState,
    handle: usize,
    frame: &JfnDmabufFrame,
    lw: i32,
    lh: i32,
    fresh: BufferId,
    out: &mut Vec<StateRequest>,
) -> (r: bool)
    requires
        old(st).wf(),
    ensures
        final(st).wf(),
        match wl_state::index_of(old(st).surfaces@, handle) {
            Some(i) if popup_takes(old(st).surfaces@[i], lw, lh) && old(st).has_dmabuf => {
                &&& r
                &&& with_popup_frame(*old(st), *final(st), i, fresh)
                &&& final(out)@ == old(out)@ + popup_frame_requests(
                    old(st).surfaces@[i],
                    buffers::with_new(old(st).buffers@, fresh),
                    fresh,
                    visible_or(frame.visible_w, frame.coded_w),
                    visible_or(frame.visible_h, frame.coded_h),
                    lw,
                    lh,
                )
            },
            _ => !r && *final(st) == *old(st) && final(out)@ == old(out)@,
        },
{
    if !popup_ready(st, handle, lw, lh) || !st.has_dmabuf {
        return false;
    }
    let i = match st.find(handle) {
        Some(i) => i,
        None => return false,
    };
    let vw = if frame.visible_w > 0 {
        frame.visible_w
    } else {
        frame.coded_w
    };
    let vh = if frame.visible_h > 0 {
        frame.visible_h
    } else {
        frame.coded_h
    };
    show_new_in_popup(st, i, fresh, vw, vh, lw, lh, out);
    true
}

/// Shows a software frame in the popup child of a layer, in the new buffer
/// `buf`, which is tracked from here on. A buffer that could not be made is
/// done without.
#[verifier::spinoff_prover]
pub fn popup_present_software(
    st: &mut WlState,
    handle: usize,
    buf: Option<BufferId>,
    pw: i32,
    ph: i32,
    lw: i32,
    lh: i32,
    out: &mut Vec<StateRequest>,
)
    requires
        old(st).wf(),
    ensures
        final(st).wf(),
        match (wl_state::index_of(old(st).surfaces@, handle), buf) {
            (Some(i), Some(b)) if popup_takes(old(st).surfaces@[i], lw, lh) => {
                &&& with_popup_frame(*old(st), *final(st), i, b)
                &&& final(out)@ == old(out)@ + popup_frame_requests(
                    old(st).surfaces@[i],
                    buffers::with_new(old(st).buffers@, b),
                    b,
                    pw,
                    ph,
                    lw,
                    lh,
                )
            },
            _ => *final(st) == *old(st) && final(out)@ == old(out)@,
        },
{
    if !popup_ready(st, handle, lw, lh) {
        return;
    }
    let i = match st.find(handle) {
        Some(i) => i,
        None => return,
    };
    if let Some(b) = buf {
        show_new_in_popup(st, i, b, pw, ph, lw, lh, out);
    }
}

/// Whether the window was fullscreen at the last configure.
pub fn was_fullscreen(st: &WlState) -> (r: bool)
    ensures
        r == st.was_fullscreen,
{
    st.was_fullscreen
}

/// The requests that fit a layer to the window.
pub open spec fn fit_requests(
    s: PlatformSurface,
    use_gpu_paint: bool,
    win: WlWindowState,
    size: WindowSize,
) -> Seq<StateRequest> {
    let (pw, ph) = window_state::unpacked_size(win.size);
    (if use_gpu_paint {
        when(
            s.has_gpu_worker,
            StateRequest::ResizeGpuWorker { layer: s.handle, w: pw as u32, h: ph as u32 },
        )
    } else {
        when(
            s.has_shm_worker,
            StateRequest::ResizeShmWorker(
                s.handle,
                ViewportState { lw: size.w, lh: size.h, pw, ph },
            ),
        )
    }) + dest_requests(s, win) + when(
        s.has_surface,
        StateRequest::Layer(s.handle, Request::Commit),
    )
}

/// The requests that fit the stacked layers to the window.
pub open spec fn fit_all_requests(
    surfaces: Seq<PlatformSurface>,
    stack: Seq<usize>,
    use_gpu_paint: bool,
    win: WlWindowState,
    size: WindowSize,
) -> Seq<StateRequest>
    decreases stack.len(),
{
    if stack.len() == 0 {
        Seq::empty()
    } else {
        fit_all_requests(surfaces, stack.drop_last(), use_gpu_paint, win, size) + match wl_state::index_of(
            surfaces,
            stack.last(),
        ) {
            Some(i) => fit_requests(surfaces[i], use_gpu_paint, win, size),
            None => Seq::empty(),
        }
    }
}

fn fit_layer(
    s: &PlatformSurface,
    use_gpu_paint: bool,
    win: &WlWindowState,
    size: WindowSize,
    out: &mut Vec<StateRequest>,
)
    requires
        window_state::unpacked_size(win.size).0 > 0,
        window_state::unpacked_size(win.size).1 > 0,
    ensures
        final(out)@ == old(out)@ + fit_requests(*s, use_gpu_paint, *win, size),
{
    let (pw, ph) = jfn_wl_window_size(win);
    if use_gpu_paint {
        push_when(
            out,
            s.has_gpu_worker,
            StateRequest::ResizeGpuWorker { layer: s.handle, w: pw as u32, h: ph as u32 },
        );
    } else {
        push_when(
            out,
            s.has_shm_worker,
            StateRequest::ResizeShmWorker(
                s.handle,
                ViewportState { lw: size.w, lh: size.h, pw, ph },
            ),
        );
    }
    set_viewport_dest(s, win, out);
    push_when(out, s.has_surface, StateRequest::Layer(s.handle, Request::Commit));
    assert(out@ =~= old(out)@ + fit_requests(*s, use_gpu_paint, *win, size));
}

/// Whether the window's logical size and its size in device pixels are known.
pub open spec fn sizes_known(win: WlWindowState) -> bool {
    let (pw, ph) = window_state::unpacked_size(win.size);
    window_state::logical_size(win) is Some && pw > 0 && ph > 0
}

/// Takes in a configure of the window: the root is looked for, and all
/// stacked layers are fitted to the window. While the window's sizes are
/// unknown nothing happens.
pub fn on_configure(
    st: &mut WlState,
    win: &WlWindowState,
    fullscreen: bool,
    root_known: bool,
    out: &mut Vec<StateRequest>,
)
    requires
        old(st).wf(),
    ensures
        final(st).wf(),
        !sizes_known(*win) ==> *final(st) == *old(st) && final(out)@ == old(out)@,
        sizes_known(*win) ==> {
            let rooted = !old(st).has_root && root_known;
            &&& *final(st) == (WlState {
                was_fullscreen: fullscreen,
                has_root: old(st).has_root || root_known,
                surfaces: final(st).surfaces,
                ..*old(st)
            })
            &&& final(st).surfaces@ == if rooted {
                wl_state::all_parented(old(st).surfaces@, old(st).stack@)
            } else {
                old(st).surfaces@
            }
            &&& final(out)@ == old(out)@ + (if rooted {
                wl_state::all_parent_requests(old(st).surfaces@, old(st).stack@)
            } else {
                Seq::empty()
            }) + fit_all_requests(
                final(st).surfaces@,
                old(st).stack@,
                old(st).use_gpu_paint,
                *win,
                window_state::logical_size(*win)->0,
            ) + seq![StateRequest::Flush]
        },
{
    let size = match window_logical_size(win) {
        Some(size) => size,
        None => return,
    };
    let (pw, ph) = jfn_wl_window_size(win);
    if pw <= 0 || ph <= 0 {
        return;
    }
    st.was_fullscreen = fullscreen;
    st.ensure_root(root_known, out);
    let gpu = st.use_gpu_paint;
    let ghost start = out@;
    let ghost stack = st.stack@;
    let ghost surfaces = st.surfaces@;
    assert(stack.take(0) =~= Seq::empty());
    assert(start + fit_all_requests(surfaces, stack.take(0), gpu, *win, size) =~= start);
    for i in 0..st.stack.len()
        invariant
            st.stack@ == stack,
            st.surfaces@ == surfaces,
            window_state::unpacked_size(win.size).0 > 0,
            window_state::unpacked_size(win.size).1 > 0,
            out@ == start + fit_all_requests(surfaces, stack.take(i as int), gpu, *win, size),
    {
        let ghost so_far = fit_all_requests(surfaces, stack.take(i as int), gpu, *win, size);
        assert(stack.take(i + 1).drop_last() =~= stack.take(i as int));
        assert(stack.take(i + 1).last() == stack[i as int]);
        match st.find(st.stack[i]) {
            Some(k) => {
                fit_layer(&st.surfaces[k], gpu, win, size, out);
                proof {
                    lemma_append(
                        start,
                        so_far,
                        fit_requests(surfaces[k as int], gpu, *win, size),
                    );
                }
            },
            None => {
                assert(so_far + Seq::<StateRequest>::empty() =~= so_far);
            },
        }
    }
    assert(stack.take(stack.len() as int) =~= stack);
    proof {
        lemma_pushed(out@, StateRequest::Flush);
    }
    out.push(StateRequest::Flush);
}

/// After a layer was freed, its handle names none.
pub proof fn law_freed_handle_names_none(st: WlState, handle: usize)
    requires
        st.wf(),
    ensures
        wl_state::index_of(st.surfaces@, handle) matches Some(i) ==> wl_state::index_of(
            st.surfaces@.remove(i),
            handle,
        ) is None,
{
    wl_state::lemma_index(st.surfaces@, handle, 0);
    if let Some(i) = wl_state::index_of(st.surfaces@, handle) {
        let after = st.surfaces@.remove(i);
        wl_state::lemma_index(after, handle, 0);
        if let Some(k) = wl_state::index_of(after, handle) {
            let k0 = if k < i {
                k
            } else {
                k + 1
            };
            assert(after[k] == st.surfaces@[k0]);
            assert(st.surfaces@[i].handle == st.surfaces@[k0].handle);
        }
    }
}

} // verus!
