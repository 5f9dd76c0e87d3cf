//! The layers of the window: how they come, go, are stacked and follow the
//! window's size.
use crate::wayland::buffers::{BufferId, ManagedBuffer, ManagedBuffers};
use crate::wayland::dmabuf_pool;
use crate::wayland::requests::Request;
use crate::wayland::scene;
use crate::wayland::scene::sink;
use crate::wayland::scene::sink::{LayerObjects, SinkRequest};
use crate::wayland::scene::{Above, Effect, LayerId, SceneEvent};
use crate::wayland::shm_paint_worker::ViewportState;
use crate::wayland::window_state;
use crate::wayland::window_state::{WindowSize, WlWindowState};
use crate::wayland::wl_ops;
use crate::wayland::wl_ops::SoftwareStep;
use crate::wayland::wl_state;
use crate::wayland::wl_state::{Globals, InitError, PlatformSurface, StateRequest, WlState};
use vstd::prelude::*;

verus! {

/// What a call added to the requests.
pub open spec fn since(before: Seq<StateRequest>, after: Seq<StateRequest>) -> Seq<StateRequest> {
    after.skip(before.len() as int)
}

/// Whether a call kept the requests that were there.
pub open spec fn keeps(before: Seq<StateRequest>, after: Seq<StateRequest>) -> bool {
    before.len() <= after.len() && after.take(before.len() as int) == before
}

pub proof fn lemma_since(before: Seq<StateRequest>, after: Seq<StateRequest>, more: Seq<StateRequest>)
    requires
        after == before + more,
    ensures
        since(before, after) == more,
        keeps(before, after),
{
    assert(since(before, after) =~= more);
    assert(after.take(before.len() as int) =~= before);
}

/// Whether one request is sent before another.
pub open spec fn precedes(s: Seq<StateRequest>, a: StateRequest, b: StateRequest) -> bool {
    exists|i: int, j: int| 0 <= i < j < s.len() && #[trigger] s[i] == a && #[trigger] s[j] == b
}

/// The layer at an index is the one that its handle names.
pub proof fn lemma_at(st: WlState, i: int)
    requires
        st.wf(),
        0 <= i < st.surfaces@.len(),
    ensures
        wl_state::index_of(st.surfaces@, st.surfaces@[i].handle) == Some(i),
{
    lemma_index_is(st.surfaces@, i, 0);
}

proof fn lemma_index_is(surfaces: Seq<PlatformSurface>, i: int, from: int)
    requires
        0 <= from <= i < surfaces.len(),
        surfaces[i].handle != 0,
        forall|a: int, b: int|
            0 <= a < b < surfaces.len() ==> surfaces[a].handle != surfaces[b].handle,
    ensures
        wl_state::index_from(surfaces, surfaces[i].handle, from) == Some(i),
    decreases i - from,
{
    if from < i {
        assert(surfaces[from].handle != surfaces[i].handle);
        lemma_index_is(surfaces, i, from + 1);
    }
}

proof fn lemma_no_index(surfaces: Seq<PlatformSurface>, handle: usize, from: int)
    requires
        0 <= from,
        handle == 0 || forall|a: int| 0 <= a < surfaces.len() ==> (#[trigger] surfaces[a]).handle != handle,
    ensures
        wl_state::index_from(surfaces, handle, from) is None,
    decreases surfaces.len() - from,
{
    if handle != 0 && from < surfaces.len() {
        assert(surfaces[from].handle != handle);
        lemma_no_index(surfaces, handle, from + 1);
    }
}

/// A handle that no layer has names none.
pub proof fn lemma_none(st: WlState, handle: usize)
    requires
        handle == 0 || forall|a: int|
            0 <= a < st.surfaces@.len() ==> (#[trigger] st.surfaces@[a]).handle != handle,
    ensures
        wl_state::index_of(st.surfaces@, handle) is None,
{
    lemma_no_index(st.surfaces@, handle, 0);
}

/// A layer as it is once it is under the root.
pub open spec fn rooted(s: PlatformSurface) -> PlatformSurface {
    PlatformSurface { has_subsurface: s.has_subsurface || s.has_surface, ..s }
}

proof fn lemma_parented(surfaces: Seq<PlatformSurface>, handles: Seq<usize>)
    ensures
        ({
            let after = wl_state::all_parented(surfaces, handles);
            &&& after.len() == surfaces.len()
            &&& forall|i: int|
                0 <= i < surfaces.len() ==> (#[trigger] after[i] == surfaces[i] || after[i]
                    == rooted(surfaces[i]))
            &&& forall|i: int|
                0 <= i < surfaces.len() && !handles.contains(surfaces[i].handle)
                    ==> #[trigger] after[i] == surfaces[i]
            &&& forall|h: usize|
                #![trigger wl_state::index_of(after, h)]
                wl_state::index_of(after, h) == wl_state::index_of(surfaces, h)
        }),
    decreases handles.len(),
{
    let after = wl_state::all_parented(surfaces, handles);
    if handles.len() > 0 {
        let before = wl_state::all_parented(surfaces, handles.drop_last());
        lemma_parented(surfaces, handles.drop_last());
        let last = handles.last();
        assert(handles[handles.len() - 1] == last);
        wl_state::lemma_index(before, last, 0);
        assert(after == wl_state::parented(before, last));
        match wl_state::index_of(before, last) {
            Some(i) => {
                if wl_state::is_orphan(before[i]) {
                    let now = PlatformSurface { has_subsurface: true, ..before[i] };
                    assert(after == before.update(i, now));
                    assert forall|h: usize| #![trigger wl_state::index_of(after, h)]
                        wl_state::index_of(after, h) == wl_state::index_of(surfaces, h) by {
                        wl_state::lemma_index_update(before, h, 0, i, now);
                        assert(wl_state::index_of(before, h) == wl_state::index_of(surfaces, h));
                    }
                } else {
                    assert(after == before);
                    assert forall|h: usize| #![trigger wl_state::index_of(after, h)]
                        wl_state::index_of(after, h) == wl_state::index_of(surfaces, h) by {
                        assert(wl_state::index_of(before, h) == wl_state::index_of(surfaces, h));
                    }
                }
            },
            None => {
                assert(after == before);
                assert forall|h: usize| #![trigger wl_state::index_of(after, h)]
                    wl_state::index_of(after, h) == wl_state::index_of(surfaces, h) by {
                    assert(wl_state::index_of(before, h) == wl_state::index_of(surfaces, h));
                }
            },
        }
        assert forall|i: int|
            0 <= i < surfaces.len() && !handles.contains(surfaces[i].handle) implies #[trigger] after[i]
            == surfaces[i] by {
            assert(!handles.drop_last().contains(surfaces[i].handle)) by {
                if handles.drop_last().contains(surfaces[i].handle) {
                    let j = choose|j: int|
                        0 <= j < handles.drop_last().len() && handles.drop_last()[j]
                            == surfaces[i].handle;
                    assert(handles[j] == surfaces[i].handle);
                }
            }
            assert(before[i] == surfaces[i]);
            assert(surfaces[i].handle != last);
        }
        assert forall|i: int| 0 <= i < surfaces.len() implies (#[trigger] after[i] == surfaces[i]
            || after[i] == rooted(surfaces[i])) by {
            assert(before[i] == surfaces[i] || before[i] == rooted(surfaces[i]));
        }
    } else {
        assert(after == surfaces);
    }
}

proof fn lemma_parent_requests(surfaces: Seq<PlatformSurface>, handles: Seq<usize>, i: int)
    requires
        0 <= i < surfaces.len(),
        wl_state::index_of(surfaces, surfaces[i].handle) == Some(i),
        handles.contains(surfaces[i].handle),
    ensures
        wl_state::all_parented(surfaces, handles)[i] == rooted(surfaces[i]),
        wl_state::is_orphan(surfaces[i]) ==> wl_state::all_parent_requests(surfaces, handles).contains(
            StateRequest::Layer(surfaces[i].handle, Request::CreateSubsurface),
        ) && wl_state::all_parent_requests(surfaces, handles).contains(
            StateRequest::Layer(surfaces[i].handle, Request::SetPosition { x: 0, y: 0 }),
        ),
    decreases handles.len(),
{
    let rest = handles.drop_last();
    let last = handles.last();
    let h = surfaces[i].handle;
    let before = wl_state::all_parented(surfaces, rest);
    let sent = wl_state::all_parent_requests(surfaces, rest);
    let more = wl_state::parent_requests(before, last);
    let all = wl_state::all_parent_requests(surfaces, handles);
    assert(all == sent + more);
    lemma_parented(surfaces, rest);
    assert(wl_state::index_of(before, h) == Some(i));
    wl_state::lemma_index(before, last, 0);
    if rest.contains(h) {
        lemma_parent_requests(surfaces, rest, i);
        assert forall|x: StateRequest| sent.contains(x) implies all.contains(x) by {
            let k = choose|k: int| 0 <= k < sent.len() && sent[k] == x;
            assert(all[k] == x);
        }
    } else {
        let k = choose|k: int| 0 <= k < handles.len() && handles[k] == h;
        if k < rest.len() {
            assert(rest[k] == h);
        }
        assert(last == h);
        assert(before[i] == surfaces[i]);
        if wl_state::is_orphan(surfaces[i]) {
            assert(more.len() == 2);
            assert(all[sent.len() as int] == more[0]);
            assert(all[sent.len() + 1int] == more[1]);
        }
    }
}

proof fn lemma_only_parent_requests(surfaces: Seq<PlatformSurface>, handles: Seq<usize>, k: int)
    requires
        0 <= k < wl_state::all_parent_requests(surfaces, handles).len(),
    ensures
        ({
            let r = wl_state::all_parent_requests(surfaces, handles)[k];
            &&& r is Layer
            &&& handles.contains(r->Layer_0)
            &&& r->Layer_1 == Request::CreateSubsurface || r->Layer_1 == (Request::SetPosition {
                x: 0,
                y: 0,
            })
        }),
    decreases handles.len(),
{
    let rest = handles.drop_last();
    let sent = wl_state::all_parent_requests(surfaces, rest);
    let more = wl_state::parent_requests(wl_state::all_parented(surfaces, rest), handles.last());
    let all = wl_state::all_parent_requests(surfaces, handles);
    assert(all == sent + more);
    if k < sent.len() {
        lemma_only_parent_requests(surfaces, rest, k);
        let h = sent[k]->Layer_0;
        let j = choose|j: int| 0 <= j < rest.len() && rest[j] == h;
        assert(handles[j] == h);
    } else {
        assert(all[k] == more[k - sent.len()]);
        assert(handles[handles.len() - 1] == handles.last());
    }
}

proof fn lemma_fits(
    surfaces: Seq<PlatformSurface>,
    stack: Seq<usize>,
    gpu: bool,
    win: WlWindowState,
    size: WindowSize,
    i: int,
    x: StateRequest,
)
    requires
        0 <= i < surfaces.len(),
        wl_state::index_of(surfaces, surfaces[i].handle) == Some(i),
        stack.contains(surfaces[i].handle),
        wl_ops::fit_requests(surfaces[i], gpu, win, size).contains(x),
    ensures
        wl_ops::fit_all_requests(surfaces, stack, gpu, win, size).contains(x),
    decreases stack.len(),
{
    let rest = stack.drop_last();
    let h = surfaces[i].handle;
    let sent = wl_ops::fit_all_requests(surfaces, rest, gpu, win, size);
    let all = wl_ops::fit_all_requests(surfaces, stack, gpu, win, size);
    if rest.contains(h) {
        lemma_fits(surfaces, rest, gpu, win, size, i, x);
        let k = choose|k: int| 0 <= k < sent.len() && sent[k] == x;
        assert(all[k] == x);
    } else {
        let k = choose|k: int| 0 <= k < stack.len() && stack[k] == h;
        if k < rest.len() {
            assert(rest[k] == h);
        }
        assert(stack.last() == h);
        let more = wl_ops::fit_requests(surfaces[i], gpu, win, size);
        let j = choose|j: int| 0 <= j < more.len() && more[j] == x;
        assert(all[sent.len() + j] == x);
    }
}

proof fn lemma_only_fits(
    surfaces: Seq<PlatformSurface>,
    stack: Seq<usize>,
    gpu: bool,
    win: WlWindowState,
    size: WindowSize,
    k: int,
) -> (i: int)
    requires
        0 <= k < wl_ops::fit_all_requests(surfaces, stack, gpu, win, size).len(),
    ensures
        0 <= i < surfaces.len(),
        stack.contains(surfaces[i].handle),
        wl_ops::fit_requests(surfaces[i], gpu, win, size).contains(
            wl_ops::fit_all_requests(surfaces, stack, gpu, win, size)[k],
        ),
    decreases stack.len(),
{
    let rest = stack.drop_last();
    let sent = wl_ops::fit_all_requests(surfaces, rest, gpu, win, size);
    let all = wl_ops::fit_all_requests(surfaces, stack, gpu, win, size);
    if k < sent.len() {
        let i = lemma_only_fits(surfaces, rest, gpu, win, size, k);
        let j = choose|j: int| 0 <= j < rest.len() && rest[j] == surfaces[i].handle;
        assert(stack[j] == surfaces[i].handle);
        i
    } else {
        wl_state::lemma_index(surfaces, stack.last(), 0);
        let i = wl_state::index_of(surfaces, stack.last())->0;
        let more = wl_ops::fit_requests(surfaces[i], gpu, win, size);
        assert(more[k - sent.len()] == all[k]);
        assert(stack[stack.len() - 1] == surfaces[i].handle);
        i
    }
}

/// Parts that are appended one by one are the whole.
pub proof fn lemma_joined(
    start: Seq<StateRequest>,
    a: Seq<StateRequest>,
    b: Seq<StateRequest>,
    c: Seq<StateRequest>,
)
    ensures
        start + a + b + c == start + (a + b + c),
{
    assert(start + a + b + c =~= start + (a + b + c));
}

/// Two parts that are appended one by one are the whole, which ends as the
/// second does.
pub proof fn lemma_two(start: Seq<StateRequest>, a: Seq<StateRequest>, b: Seq<StateRequest>)
    ensures
        start + a + b == start + (a + b),
        b.len() > 0 ==> (a + b).last() == b.last(),
{
    assert(start + a + b =~= start + (a + b));
}

/// What is in a part is in the whole.
pub proof fn lemma_part(
    a: Seq<StateRequest>,
    b: Seq<StateRequest>,
    c: Seq<StateRequest>,
    x: StateRequest,
)
    requires
        a.contains(x) || b.contains(x) || c.contains(x),
    ensures
        (a + b + c).contains(x),
{
    let all = a + b + c;
    if a.contains(x) {
        let k = choose|k: int| 0 <= k < a.len() && a[k] == x;
        assert(all[k] == x);
    } else if b.contains(x) {
        let k = choose|k: int| 0 <= k < b.len() && b[k] == x;
        assert(all[a.len() + k] == x);
    } else {
        let k = choose|k: int| 0 <= k < c.len() && c[k] == x;
        assert(all[a.len() + b.len() + k] == x);
    }
}

/// What is in the whole is in one of its parts.
pub proof fn lemma_parts(
    a: Seq<StateRequest>,
    b: Seq<StateRequest>,
    c: Seq<StateRequest>,
    x: StateRequest,
)
    requires
        (a + b + c).contains(x),
    ensures
        a.contains(x) || b.contains(x) || c.contains(x),
{
    let all = a + b + c;
    let k = choose|k: int| 0 <= k < all.len() && all[k] == x;
    if k < a.len() {
        assert(a[k] == x);
    } else if k < a.len() + b.len() {
        assert(b[k - a.len()] == x);
    } else {
        assert(c[k - a.len() - b.len()] == x);
    }
}

/// A conditional request is there where its condition holds.
pub proof fn lemma_when(condition: bool, request: StateRequest, x: StateRequest)
    ensures
        wl_ops::when(condition, request).contains(x) == (condition && x == request),
{
    if condition {
        assert(wl_ops::when(condition, request)[0] == request);
    }
}

/// What fits one layer to the window.
proof fn lemma_fit(
    t: PlatformSurface,
    gpu: bool,
    win: WlWindowState,
    size: WindowSize,
    physical: (i32, i32),
    x: StateRequest,
)
    requires
        physical == window_state::unpacked_size(win.size),
        window_state::logical_size(win) == Some(size),
    ensures
        wl_ops::fit_requests(t, gpu, win, size).contains(x) == {
            ||| gpu && t.has_gpu_worker && x == (StateRequest::ResizeGpuWorker {
                layer: t.handle,
                w: physical.0 as u32,
                h: physical.1 as u32,
            })
            ||| !gpu && t.has_shm_worker && x == StateRequest::ResizeShmWorker(
                t.handle,
                ViewportState { lw: size.w, lh: size.h, pw: physical.0, ph: physical.1 },
            )
            ||| t.has_viewport && x == StateRequest::Layer(
                t.handle,
                Request::SetDestination { w: size.w, h: size.h },
            )
            ||| t.has_surface && x == StateRequest::Layer(t.handle, Request::Commit)
        },
{
    let gpu_resize = StateRequest::ResizeGpuWorker {
        layer: t.handle,
        w: physical.0 as u32,
        h: physical.1 as u32,
    };
    let shm_resize = StateRequest::ResizeShmWorker(
        t.handle,
        ViewportState { lw: size.w, lh: size.h, pw: physical.0, ph: physical.1 },
    );
    let dest = StateRequest::Layer(t.handle, Request::SetDestination { w: size.w, h: size.h });
    let commit = StateRequest::Layer(t.handle, Request::Commit);
    let a = if gpu {
        wl_ops::when(t.has_gpu_worker, gpu_resize)
    } else {
        wl_ops::when(t.has_shm_worker, shm_resize)
    };
    let b = wl_ops::when(t.has_viewport, dest);
    let c = wl_ops::when(t.has_surface, commit);
    assert(wl_ops::fit_requests(t, gpu, win, size) == a + b + c);
    lemma_when(t.has_gpu_worker, gpu_resize, x);
    lemma_when(t.has_shm_worker, shm_resize, x);
    lemma_when(t.has_viewport, dest, x);
    lemma_when(t.has_surface, commit, x);
    if a.contains(x) || b.contains(x) || c.contains(x) {
        lemma_part(a, b, c, x);
    }
    if (a + b + c).contains(x) {
        lemma_parts(a, b, c, x);
    }
}

/// After a configure every stacked layer fits the window. Its GPU worker, under
/// GPU paint, is told the window's size in device pixels; its shared-memory
/// worker, otherwise, is told both sizes. A layer with a viewport is stretched
/// over the logical size, and one with a surface is committed.
pub proof fn law_configure_fits_every_layer(
    st: &mut WlState,
    win: WlWindowState,
    fullscreen: bool,
    root_known: bool,
    out: &mut Vec<StateRequest>,
    physical: (i32, i32),
    logical: WindowSize,
    i: int,
)
    requires
        old(st).wf(),
        call_ensures(wl_ops::on_configure, (st, &win, fullscreen, root_known, out), ()),
        call_ensures(window_state::jfn_wl_window_size, (&win,), physical),
        call_ensures(window_state::window_logical_size, (&win,), Some(logical)),
        physical.0 > 0 && physical.1 > 0,
        0 <= i < old(st).surfaces@.len(),
        old(st).stack@.contains(old(st).surfaces@[i].handle),
    ensures
        ({
            let s = old(st).surfaces@[i];
            let d = since(old(out)@, final(out)@);
            &&& old(st).use_gpu_paint && s.has_gpu_worker ==> d.contains(
                StateRequest::ResizeGpuWorker {
                    layer: s.handle,
                    w: physical.0 as u32,
                    h: physical.1 as u32,
                },
            )
            &&& !old(st).use_gpu_paint && s.has_shm_worker ==> d.contains(
                StateRequest::ResizeShmWorker(
                    s.handle,
                    ViewportState {
                        lw: logical.w,
                        lh: logical.h,
                        pw: physical.0,
                        ph: physical.1,
                    },
                ),
            )
            &&& s.has_viewport ==> d.contains(
                StateRequest::Layer(
                    s.handle,
                    Request::SetDestination { w: logical.w, h: logical.h },
                ),
            )
            &&& s.has_surface ==> d.contains(StateRequest::Layer(s.handle, Request::Commit))
            &&& !old(st).has_root && root_known && s.has_surface && !s.has_subsurface ==> d.contains(
                StateRequest::Layer(s.handle, Request::CreateSubsurface),
            ) && final(st).surfaces@[i].has_subsurface
            &&& d.last() == StateRequest::Flush
            &&& keeps(old(out)@, final(out)@)
        }),
        final(st).was_fullscreen == fullscreen,
        final(st).has_root == (old(st).has_root || root_known),
{
    let before = old(st).surfaces@;
    let after = final(st).surfaces@;
    let stack = old(st).stack@;
    let gpu = old(st).use_gpu_paint;
    let is_rooted = !old(st).has_root && root_known;
    let s = before[i];
    lemma_at(*old(st), i);
    assert(wl_ops::sizes_known(win));
    let parents = if is_rooted {
        wl_state::all_parent_requests(before, stack)
    } else {
        Seq::empty()
    };
    let fits = wl_ops::fit_all_requests(after, stack, gpu, win, logical);
    let flush = seq![StateRequest::Flush];
    let more = parents + fits + flush;
    lemma_joined(old(out)@, parents, fits, flush);
    lemma_since(old(out)@, final(out)@, more);
    if is_rooted {
        lemma_parented(before, stack);
        lemma_parent_requests(before, stack, i);
        if wl_state::is_orphan(s) {
            lemma_part(
                parents,
                fits,
                flush,
                StateRequest::Layer(s.handle, Request::CreateSubsurface),
            );
        }
    }
    let t = after[i];
    assert(t == s || t == rooted(s));
    assert(wl_state::index_of(after, t.handle) == Some(i));
    assert forall|x: StateRequest|
        wl_ops::fit_requests(t, gpu, win, logical).contains(x) implies #[trigger] more.contains(
        x,
    ) by {
        lemma_fits(after, stack, gpu, win, logical, i, x);
        lemma_part(parents, fits, flush, x);
    }
    lemma_fit(
        t,
        gpu,
        win,
        logical,
        physical,
        StateRequest::ResizeGpuWorker {
            layer: s.handle,
            w: physical.0 as u32,
            h: physical.1 as u32,
        },
    );
    lemma_fit(
        t,
        gpu,
        win,
        logical,
        physical,
        StateRequest::ResizeShmWorker(
            s.handle,
            ViewportState { lw: logical.w, lh: logical.h, pw: physical.0, ph: physical.1 },
        ),
    );
    lemma_fit(
        t,
        gpu,
        win,
        logical,
        physical,
        StateRequest::Layer(s.handle, Request::SetDestination { w: logical.w, h: logical.h }),
    );
    lemma_fit(
        t,
        gpu,
        win,
        logical,
        physical,
        StateRequest::Layer(s.handle, Request::Commit),
    );
    assert(more.last() == StateRequest::Flush);
}

/// A configure tells no worker another size than the window's, stretches no
/// layer over another, and asks for nothing but what fits and roots the stacked
/// layers.
pub proof fn law_configure_tells_only_the_windows_size(
    st: &mut WlState,
    win: WlWindowState,
    fullscreen: bool,
    root_known: bool,
    out: &mut Vec<StateRequest>,
    physical: (i32, i32),
    logical: WindowSize,
    k: int,
)
    requires
        old(st).wf(),
        call_ensures(wl_ops::on_configure, (st, &win, fullscreen, root_known, out), ()),
        call_ensures(window_state::jfn_wl_window_size, (&win,), physical),
        call_ensures(window_state::window_logical_size, (&win,), Some(logical)),
        physical.0 > 0 && physical.1 > 0,
        0 <= k < since(old(out)@, final(out)@).len(),
    ensures
        match since(old(out)@, final(out)@)[k] {
            StateRequest::ResizeGpuWorker { layer, w, h } => {
                &&& old(st).use_gpu_paint
                &&& w == physical.0 && h == physical.1
                &&& old(st).stack@.contains(layer)
            },
            StateRequest::ResizeShmWorker(layer, v) => {
                &&& !old(st).use_gpu_paint
                &&& v.lw == logical.w && v.lh == logical.h
                &&& v.pw == physical.0 && v.ph == physical.1
                &&& old(st).stack@.contains(layer)
            },
            StateRequest::Layer(layer, r) => {
                &&& old(st).stack@.contains(layer)
                &&& r is SetDestination || r is Commit || r is CreateSubsurface || r is SetPosition
                &&& r is SetDestination ==> r == (Request::SetDestination {
                    w: logical.w,
                    h: logical.h,
                })
                &&& r is SetPosition ==> r == (Request::SetPosition { x: 0, y: 0 })
                &&& r is CreateSubsurface ==> root_known && !old(st).has_root
            },
            StateRequest::Flush => true,
            _ => false,
        },
{
    let before = old(st).surfaces@;
    let after = final(st).surfaces@;
    let stack = old(st).stack@;
    let gpu = old(st).use_gpu_paint;
    let is_rooted = !old(st).has_root && root_known;
    assert(wl_ops::sizes_known(win));
    let parents = if is_rooted {
        wl_state::all_parent_requests(before, stack)
    } else {
        Seq::empty()
    };
    let fits = wl_ops::fit_all_requests(after, stack, gpu, win, logical);
    let flush = seq![StateRequest::Flush];
    let more = parents + fits + flush;
    lemma_joined(old(out)@, parents, fits, flush);
    lemma_since(old(out)@, final(out)@, more);
    let x = more[k];
    if k < parents.len() {
        lemma_only_parent_requests(before, stack, k);
        assert(x == parents[k]);
    } else if k < parents.len() + fits.len() {
        let j = k - parents.len();
        assert(x == fits[j]);
        let i = lemma_only_fits(after, stack, gpu, win, logical, j);
        lemma_fit(after[i], gpu, win, logical, physical, x);
    } else {
        assert(x == flush[0]);
    }
}

/// A GPU worker is told one size by a configure and by a software frame that is
/// taken for the same window.
pub proof fn law_worker_is_told_one_size(
    st: &mut WlState,
    win: WlWindowState,
    fullscreen: bool,
    root_known: bool,
    out: &mut Vec<StateRequest>,
    physical: (i32, i32),
    logical: WindowSize,
    other: &mut WlState,
    handle: usize,
    fw: i32,
    fh: i32,
    other_out: &mut Vec<StateRequest>,
    step: SoftwareStep,
    k: int,
)
    requires
        old(st).wf() && old(other).wf(),
        call_ensures(wl_ops::on_configure, (st, &win, fullscreen, root_known, out), ()),
        call_ensures(window_state::jfn_wl_window_size, (&win,), physical),
        call_ensures(window_state::window_logical_size, (&win,), Some(logical)),
        physical.0 > 0 && physical.1 > 0,
        call_ensures(
            wl_ops::surface_present_software,
            (other, handle, &win, fw, fh, other_out),
            step,
        ),
        0 <= k < since(old(out)@, final(out)@).len(),
    ensures
        step matches SoftwareStep::Gpu { start, w, h } ==> {
            &&& w == physical.0 && h == physical.1
            &&& since(old(out)@, final(out)@)[k] matches StateRequest::ResizeGpuWorker {
                layer,
                w: cw,
                h: ch,
            } ==> cw == w && ch == h
        },
        step matches SoftwareStep::Shm { start, viewport } ==> {
            &&& viewport == (ViewportState {
                lw: logical.w,
                lh: logical.h,
                pw: physical.0,
                ph: physical.1,
            })
            &&& since(old(out)@, final(out)@)[k] matches StateRequest::ResizeShmWorker(layer, v)
                ==> v == viewport
        },
{
    law_configure_tells_only_the_windows_size(
        st,
        win,
        fullscreen,
        root_known,
        out,
        physical,
        logical,
        k,
    );
    wl_state::lemma_index(old(other).surfaces@, handle, 0);
}

/// While one of the window's sizes is unknown a configure does nothing.
pub proof fn law_unknown_size_configures_nothing(
    st: &mut WlState,
    win: WlWindowState,
    fullscreen: bool,
    root_known: bool,
    out: &mut Vec<StateRequest>,
    physical: (i32, i32),
    logical: Option<WindowSize>,
)
    requires
        old(st).wf(),
        call_ensures(wl_ops::on_configure, (st, &win, fullscreen, root_known, out), ()),
        call_ensures(window_state::jfn_wl_window_size, (&win,), physical),
        call_ensures(window_state::window_logical_size, (&win,), logical),
        physical.0 <= 0 || physical.1 <= 0 || logical is None,
    ensures
        *final(st) == *old(st),
        final(out)@ == old(out)@,
{
}

/// What is in the parts is in the whole, and nothing else.
pub proof fn lemma_cats()
    ensures
        forall|a: Seq<StateRequest>, b: Seq<StateRequest>, x: StateRequest| #[trigger]
            (a + b).contains(x) == (a.contains(x) || b.contains(x)),
        forall|a: Seq<StateRequest>, y: StateRequest, x: StateRequest| #[trigger]
            a.push(y).contains(x) == (a.contains(x) || x == y),
        forall|x: StateRequest| !(#[trigger] Seq::<StateRequest>::empty().contains(x)),
        forall|c: bool, y: StateRequest, x: StateRequest| #[trigger]
            wl_ops::when(c, y).contains(x) == (c && x == y),
{
    assert forall|a: Seq<StateRequest>, b: Seq<StateRequest>, x: StateRequest| #[trigger]
        (a + b).contains(x) == (a.contains(x) || b.contains(x)) by {
        let e = Seq::<StateRequest>::empty();
        assert(a + b + e =~= a + b);
        if a.contains(x) || b.contains(x) {
            lemma_part(a, b, e, x);
        }
        if (a + b).contains(x) {
            lemma_parts(a, b, e, x);
        }
    }
    assert forall|a: Seq<StateRequest>, y: StateRequest, x: StateRequest| #[trigger]
        a.push(y).contains(x) == (a.contains(x) || x == y) by {
        if a.contains(x) {
            let k = choose|k: int| 0 <= k < a.len() && a[k] == x;
            assert(a.push(y)[k] == x);
        }
        assert(a.push(y)[a.len() as int] == y);
        if a.push(y).contains(x) && x != y {
            let k = choose|k: int| 0 <= k < a.push(y).len() && a.push(y)[k] == x;
            assert(a[k] == x);
        }
    }
    assert forall|c: bool, y: StateRequest, x: StateRequest| #[trigger]
        wl_ops::when(c, y).contains(x) == (c && x == y) by {
        lemma_when(c, y, x);
    }
}

proof fn lemma_objects(surfaces: Seq<PlatformSurface>, i: int)
    requires
        0 <= i < surfaces.len(),
        surfaces[i].handle != 0,
        forall|a: int, b: int|
            0 <= a < b < surfaces.len() ==> surfaces[a].handle != surfaces[b].handle,
    ensures
        sink::objects_of(wl_state::layer_objects(surfaces), LayerId(surfaces[i].handle)) == Some(
            LayerObjects {
                id: LayerId(surfaces[i].handle),
                has_surface: surfaces[i].has_surface,
                has_subsurface: surfaces[i].has_subsurface,
            },
        ),
    decreases surfaces.len(),
{
    let layers = wl_state::layer_objects(surfaces);
    if i > 0 {
        assert(surfaces[0].handle != surfaces[i].handle);
        let rest = surfaces.drop_first();
        assert(layers.drop_first() =~= wl_state::layer_objects(rest));
        assert(rest[i - 1] == surfaces[i]);
        lemma_objects(rest, i - 1);
    }
}

proof fn lemma_objects_from(surfaces: Seq<PlatformSurface>, id: LayerId) -> (i: int)
    requires
        sink::objects_of(wl_state::layer_objects(surfaces), id) is Some,
    ensures
        0 <= i < surfaces.len(),
        surfaces[i].handle == id.0,
        sink::objects_of(wl_state::layer_objects(surfaces), id) == Some(
            LayerObjects {
                id,
                has_surface: surfaces[i].has_surface,
                has_subsurface: surfaces[i].has_subsurface,
            },
        ),
    decreases surfaces.len(),
{
    let layers = wl_state::layer_objects(surfaces);
    if layers[0].id == id {
        0
    } else {
        let rest = surfaces.drop_first();
        assert(layers.drop_first() =~= wl_state::layer_objects(rest));
        lemma_objects_from(rest, id) + 1
    }
}

proof fn lemma_stacks(layers: Seq<LayerObjects>, effects: Seq<Effect>, e: Effect)
    requires
        effects.contains(e),
        sink::request_for(layers, e) is Some,
    ensures
        wl_state::stacking_requests(layers, effects).contains(
            StateRequest::Stacking(sink::request_for(layers, e)->0),
        ),
    decreases effects.len(),
{
    let rest = effects.drop_last();
    let sent = wl_state::stacking_requests(layers, rest);
    let all = wl_state::stacking_requests(layers, effects);
    let x = StateRequest::Stacking(sink::request_for(layers, e)->0);
    reveal(Seq::filter_map);
    if rest.contains(e) {
        lemma_stacks(layers, rest, e);
        let k = choose|k: int| 0 <= k < sent.len() && sent[k] == x;
        assert(all[k] == x);
    } else {
        let k = choose|k: int| 0 <= k < effects.len() && effects[k] == e;
        if k < rest.len() {
            assert(rest[k] == e);
        }
        assert(effects.last() == e);
        assert(all[sent.len() as int] == x);
    }
}

proof fn lemma_only_stacks(layers: Seq<LayerObjects>, effects: Seq<Effect>, x: StateRequest) -> (e:
    Effect)
    requires
        wl_state::stacking_requests(layers, effects).contains(x),
    ensures
        effects.contains(e),
        sink::request_for(layers, e) is Some,
        x == StateRequest::Stacking(sink::request_for(layers, e)->0),
    decreases effects.len(),
{
    let rest = effects.drop_last();
    let sent = wl_state::stacking_requests(layers, rest);
    let all = wl_state::stacking_requests(layers, effects);
    reveal(Seq::filter_map);
    let k = choose|k: int| 0 <= k < all.len() && all[k] == x;
    if k < sent.len() {
        assert(sent[k] == x);
        let e = lemma_only_stacks(layers, rest, x);
        let j = choose|j: int| 0 <= j < rest.len() && rest[j] == e;
        assert(effects[j] == e);
        e
    } else {
        assert(effects[effects.len() - 1] == effects.last());
        effects.last()
    }
}

/// Whether a layer with a place stands in an order right above one with a
/// surface.
pub open spec fn stands_above(
    surfaces: Seq<PlatformSurface>,
    order: Seq<LayerId>,
    layer: LayerId,
    sibling: LayerId,
) -> bool {
    &&& exists|k: int|
        0 < k < order.len() && #[trigger] order[k] == layer && order[k - 1] == sibling
    &&& exists|i: int|
        0 <= i < surfaces.len() && (#[trigger] surfaces[i]).handle == layer.0
            && surfaces[i].has_subsurface
    &&& exists|i: int|
        0 <= i < surfaces.len() && (#[trigger] surfaces[i]).handle == sibling.0
            && surfaces[i].has_surface
}

proof fn lemma_dispatched(
    surfaces: Seq<PlatformSurface>,
    from: Seq<LayerId>,
    to: Seq<LayerId>,
    x: StateRequest,
)
    requires
        forall|a: int| 0 <= a < surfaces.len() ==> (#[trigger] surfaces[a]).handle != 0,
        forall|a: int, b: int|
            0 <= a < b < surfaces.len() ==> surfaces[a].handle != surfaces[b].handle,
    ensures
        wl_state::dispatch_requests(surfaces, from, to).last() == StateRequest::Flush,
        wl_state::dispatch_requests(surfaces, from, to).contains(x) == {
            ||| x is Flush
            ||| from != to && x == StateRequest::Stacking(SinkRequest::RequestPresent)
            ||| from != to && (x matches StateRequest::Stacking(
                SinkRequest::PlaceAbove { layer, sibling },
            ) && stands_above(surfaces, to, layer, sibling))
        },
{
    let layers = wl_state::layer_objects(surfaces);
    let effects = scene::restacked(from, to);
    let stacking = wl_state::stacking_requests(layers, effects);
    let all = wl_state::dispatch_requests(surfaces, from, to);
    lemma_cats();
    if stacking.contains(x) {
        let e = lemma_only_stacks(layers, effects, x);
        let k = choose|k: int| 0 <= k < effects.len() && effects[k] == e;
        if from == to {
            assert(effects.len() == 0);
        }
        if let Effect::PlaceAbove { layer, above } = e {
            assert(k < to.len());
            if let Above::Layer(sibling) = above {
                assert(to[k] == layer && to[k - 1] == sibling);
                let i = lemma_objects_from(surfaces, layer);
                let j = lemma_objects_from(surfaces, sibling);
                assert(surfaces[i].has_subsurface);
                assert(surfaces[j].has_surface);
            }
        }
    }
    if from != to {
        assert(effects[to.len() as int] == Effect::CommitParent);
        lemma_stacks(layers, effects, Effect::CommitParent);
        if let StateRequest::Stacking(SinkRequest::PlaceAbove { layer, sibling }) = x {
            if stands_above(surfaces, to, layer, sibling) {
                let k = choose|k: int|
                    0 < k < to.len() && #[trigger] to[k] == layer && to[k - 1] == sibling;
                let i = choose|i: int|
                    0 <= i < surfaces.len() && (#[trigger] surfaces[i]).handle == layer.0
                        && surfaces[i].has_subsurface;
                let j = choose|j: int|
                    0 <= j < surfaces.len() && (#[trigger] surfaces[j]).handle == sibling.0
                        && surfaces[j].has_surface;
                lemma_objects(surfaces, i);
                lemma_objects(surfaces, j);
                let e = Effect::PlaceAbove { layer, above: Above::Layer(sibling) };
                assert(effects[k] == e);
                lemma_stacks(layers, effects, e);
            }
        }
    }
}

/// A change of the layers is told to the compositor in full: where the order
/// has changed, each layer is placed right above the one before it, and a
/// commit is asked for; where it has not, nothing is placed. A flush ends it.
pub proof fn law_new_order_is_told(
    st: &mut WlState,
    ev: SceneEvent,
    out: &mut Vec<StateRequest>,
    x: StateRequest,
)
    requires
        old(st).wf(),
        call_ensures(WlState::dispatch, (st, ev, out), ()),
    ensures
        ({
            let d = since(old(out)@, final(out)@);
            let from = old(st).scene.order();
            let to = final(st).scene.order();
            &&& d.last() == StateRequest::Flush
            &&& x == StateRequest::Stacking(SinkRequest::RequestPresent) ==> (d.contains(x)
                == (from != to))
            &&& x matches StateRequest::Stacking(SinkRequest::PlaceAbove { layer, sibling }) ==> (
            d.contains(x) == (from != to && stands_above(
                old(st).surfaces@,
                to,
                layer,
                sibling,
            )))
            &&& d.contains(x) ==> x is Stacking || x is Flush
        }),
        keeps(old(out)@, final(out)@),
        final(st).surfaces == old(st).surfaces,
        final(st).stack == old(st).stack,
{
    let to = final(st).scene.order();
    let more = wl_state::dispatch_requests(old(st).surfaces@, old(st).scene.order(), to);
    lemma_since(old(out)@, final(out)@, more);
    lemma_dispatched(old(st).surfaces@, old(st).scene.order(), to, x);
}

/// A new layer has a handle that no layer had, is the last of the layers, and
/// leaves the others as they are. It comes on top of the order.
pub proof fn law_new_layer_is_on_top(
    st: &mut WlState,
    out: &mut Vec<StateRequest>,
    handle: usize,
    i: int,
)
    requires
        old(st).wf(),
        old(st).next_handle < usize::MAX,
        call_ensures(wl_ops::alloc_surface, (st, out), handle),
        0 <= i < old(st).surfaces@.len(),
    ensures
        handle != 0,
        old(st).surfaces@[i].handle != handle,
        final(st).surfaces@[i] == old(st).surfaces@[i],
        final(st).surfaces@.len() == old(st).surfaces@.len() + 1,
        final(st).surfaces@.last().handle == handle,
        final(st).scene.order().contains(LayerId(handle)),
        !old(st).scene.order().contains(LayerId(handle)) ==> final(st).scene.order().last()
            == LayerId(handle) && final(st).scene.order().drop_last() == old(st).scene.order(),
        final(st).stack == old(st).stack,
        final(st).buffers == old(st).buffers,
{
    let before = old(st).scene.order();
    assert(final(st).surfaces@.drop_last()[i] == final(st).surfaces@[i]);
    if !before.contains(LayerId(handle)) {
        assert(final(st).scene.order() == before.push(LayerId(handle)));
        assert(final(st).scene.order()[before.len() as int] == LayerId(handle));
        assert(final(st).scene.order().drop_last() =~= before);
    }
}

/// A new layer is visible and empty: it has a surface, and a viewport and a
/// place under the root exactly where there are any; it shows no buffer, no
/// popup and has no worker.
pub proof fn law_new_layer_is_empty(st: &mut WlState, out: &mut Vec<StateRequest>, handle: usize)
    requires
        old(st).wf(),
        old(st).next_handle < usize::MAX,
        call_ensures(wl_ops::alloc_surface, (st, out), handle),
    ensures
        ({
            let s = final(st).surfaces@.last();
            &&& s.visible && s.has_surface
            &&& s.has_viewport == old(st).has_viewporter
            &&& s.has_subsurface == old(st).has_root
            &&& s.buffer is None && s.popup_buffer is None && s.dmabuf_pool@.len() == 0
            &&& !s.has_popup && !s.popup_visible && !s.has_popup_viewport
            &&& !s.has_gpu_worker && !s.has_shm_worker
            &&& !s.placeholder && !s.null_attached
            &&& s.buffer_w == 0 && s.buffer_h == 0
        }),
{
}

/// A new layer is asked for as a surface without input, with a viewport and a
/// place at the root's corner exactly where there are any, and is committed.
/// Nothing is asked for of any other layer.
pub proof fn law_new_layer_is_asked_for(
    st: &mut WlState,
    out: &mut Vec<StateRequest>,
    handle: usize,
    x: StateRequest,
)
    requires
        old(st).wf(),
        old(st).next_handle < usize::MAX,
        call_ensures(wl_ops::alloc_surface, (st, out), handle),
    ensures
        ({
            let d = since(old(out)@, final(out)@);
            &&& d[0] == StateRequest::Layer(handle, Request::CreateSurface)
            &&& d.last() == StateRequest::RequestPresent
            &&& d.contains(StateRequest::Layer(handle, Request::EmptyInputRegion))
            &&& d.contains(StateRequest::Layer(handle, Request::Commit))
            &&& x matches StateRequest::Layer(h, r) ==> {
                &&& d.contains(x) ==> h == handle
                &&& h == handle && r is CreateViewport ==> d.contains(x) == old(st).has_viewporter
                &&& h == handle && r is CreateSubsurface ==> d.contains(x) == old(st).has_root
                &&& h == handle && r == (Request::SetPosition { x: 0, y: 0 }) ==> d.contains(x)
                    == old(st).has_root
                &&& d.contains(x) ==> r is CreateSurface || r is EmptyInputRegion || r is Commit
                    || r is CreateViewport || r is CreateSubsurface || r == (
                Request::SetPosition { x: 0, y: 0 })
            }
            &&& d.contains(x) ==> x is Layer || x is Stacking || x is Flush || x is RequestPresent
        }),
        keeps(old(out)@, final(out)@),
{
    let a = wl_ops::new_layer_requests(handle, old(st).has_viewporter, old(st).has_root);
    let b = wl_state::dispatch_requests(
        final(st).surfaces@,
        old(st).scene.order(),
        final(st).scene.order(),
    );
    let c = seq![StateRequest::RequestPresent];
    lemma_joined(old(out)@, a, b, c);
    lemma_since(old(out)@, final(out)@, a + b + c);
    lemma_cats();
    lemma_dispatched(
        final(st).surfaces@,
        old(st).scene.order(),
        final(st).scene.order(),
        x,
    );
    assert((a + b + c)[0] == a[0]);
    assert((a + b + c).last() == c[0]);
    assert(a[1] == StateRequest::Layer(handle, Request::EmptyInputRegion));
    let e = StateRequest::Layer(handle, Request::EmptyInputRegion);
    assert(a.contains(e));
    let commit = StateRequest::Layer(handle, Request::Commit);
    assert(seq![commit, StateRequest::Flush][0] == commit);
    assert(a.contains(commit));
}

/// Two new layers have different handles.
pub proof fn law_handles_are_not_given_twice(
    a: &mut WlState,
    a_out: &mut Vec<StateRequest>,
    first: usize,
    b: &mut WlState,
    b_out: &mut Vec<StateRequest>,
    second: usize,
)
    requires
        old(a).wf(),
        old(a).next_handle < usize::MAX,
        call_ensures(wl_ops::alloc_surface, (a, a_out), first),
        *b == *final(a),
        old(b).next_handle < usize::MAX,
        call_ensures(wl_ops::alloc_surface, (b, b_out), second),
    ensures
        first != second,
        final(b).surfaces@.len() == old(a).surfaces@.len() + 2,
{
}

proof fn lemma_stack_without(stack: Seq<usize>, handle: usize, other: usize)
    ensures
        wl_ops::stack_without(stack, handle).contains(other) == (other != handle && stack.contains(
            other,
        )),
    decreases stack.len(),
{
    reveal(Seq::filter);
    let after = wl_ops::stack_without(stack, handle);
    if stack.len() > 0 {
        let rest = stack.drop_last();
        let before = wl_ops::stack_without(rest, handle);
        lemma_stack_without(rest, handle, other);
        assert(after == if stack.last() != handle {
            before.push(stack.last())
        } else {
            before
        });
        if before.contains(other) {
            let k = choose|k: int| 0 <= k < before.len() && before[k] == other;
            assert(after[k] == other);
        }
        if rest.contains(other) {
            let k = choose|k: int| 0 <= k < rest.len() && rest[k] == other;
            assert(stack[k] == other);
        }
        assert(stack[stack.len() - 1] == stack.last());
        if stack.contains(other) && stack.last() != other {
            let k = choose|k: int| 0 <= k < stack.len() && stack[k] == other;
            assert(rest[k] == other);
        }
        if stack.last() == other && other != handle {
            assert(after[before.len() as int] == other);
        }
        if after.contains(other) && !before.contains(other) {
            let k = choose|k: int| 0 <= k < after.len() && after[k] == other;
            if k < before.len() {
                assert(before[k] == other);
            }
        }
    }
}

/// A freed layer is gone from the layers, the stack and the order; all others
/// stay as they are, in their places.
pub proof fn law_freed_layer_is_gone(
    st: &mut WlState,
    handle: usize,
    out: &mut Vec<StateRequest>,
    i: int,
    j: int,
    h: usize,
)
    requires
        old(st).wf(),
        call_ensures(wl_ops::free_surface, (st, handle, out), ()),
        0 <= i < old(st).surfaces@.len(),
        old(st).surfaces@[i].handle == handle,
        0 <= j < old(st).surfaces@.len(),
    ensures
        final(st).surfaces@.len() == old(st).surfaces@.len() - 1,
        j < i ==> final(st).surfaces@[j] == old(st).surfaces@[j],
        j > i ==> final(st).surfaces@[j - 1] == old(st).surfaces@[j],
        final(st).stack@.contains(h) == (h != handle && old(st).stack@.contains(h)),
        final(st).scene.order().contains(LayerId(h)) == (h != handle
            && old(st).scene.order().contains(LayerId(h))),
        final(st).next_handle == old(st).next_handle,
{
    lemma_at(*old(st), i);
    lemma_stack_without(old(st).stack@, handle, h);
    scene::law_removal_is_exact(old(st).scene.order(), LayerId(handle), LayerId(h));
}

/// A handle that names no layer frees nothing.
pub proof fn law_freeing_needs_a_layer(st: &mut WlState, handle: usize, out: &mut Vec<StateRequest>)
    requires
        old(st).wf(),
        call_ensures(wl_ops::free_surface, (st, handle, out), ()),
        forall|a: int|
            0 <= a < old(st).surfaces@.len() ==> (#[trigger] old(st).surfaces@[a]).handle != handle,
    ensures
        *final(st) == *old(st),
        final(out)@ == old(out)@,
{
    lemma_none(*old(st), handle);
}

proof fn lemma_dropped(s: PlatformSurface, m: Seq<ManagedBuffer>, bufs: Seq<BufferId>, x: StateRequest)
    requires
        wl_ops::retire_all_requests(s.handle, m, bufs).contains(x),
    ensures
        x matches StateRequest::Layer(h, Request::DestroyBuffer(b)) && h == s.handle
            && bufs.contains(b),
    decreases bufs.len(),
{
    lemma_cats();
    let rest = bufs.drop_last();
    assert(bufs[bufs.len() - 1] == bufs.last());
    if wl_ops::retire_all_requests(s.handle, m, rest).contains(x) {
        lemma_dropped(s, m, rest, x);
        let b = x->Layer_1->DestroyBuffer_0;
        let k = choose|k: int| 0 <= k < rest.len() && rest[k] == b;
        assert(bufs[k] == b);
    }
}

pub proof fn lemma_drop_popup(s: PlatformSurface, m: Seq<ManagedBuffer>, x: StateRequest)
    ensures
        wl_ops::drop_popup_requests(s, m).contains(x) == {
            ||| s.has_popup_viewport && x == StateRequest::Popup(
                s.handle,
                Request::DestroyViewport,
            )
            ||| wl_ops::retire_layer_requests(s.handle, m, s.popup_buffer).contains(x)
            ||| s.has_popup && x == StateRequest::Popup(s.handle, Request::DestroySubsurface)
            ||| s.has_popup && x == StateRequest::Popup(s.handle, Request::DestroySurface)
        },
{
    lemma_cats();
}

pub proof fn lemma_retired(
    handle: usize,
    m: Seq<ManagedBuffer>,
    buf: Option<BufferId>,
    x: StateRequest,
)
    requires
        wl_ops::retire_layer_requests(handle, m, buf).contains(x),
    ensures
        buf is Some && x == StateRequest::Layer(handle, Request::DestroyBuffer(buf->0)),
{
    lemma_cats();
}

proof fn lemma_drop_layer(s: PlatformSurface, m: Seq<ManagedBuffer>, x: StateRequest)
    ensures
        wl_ops::drop_layer_requests(s, m).last() == StateRequest::Flush,
        ({
            let m1 = dmabuf_pool::given_up(m, s.popup_buffer);
            let m2 = dmabuf_pool::given_up(m1, s.buffer);
            wl_ops::drop_layer_requests(s, m).contains(x) == {
                ||| wl_ops::drop_popup_requests(s, m).contains(x)
                ||| s.has_viewport && x == StateRequest::Layer(s.handle, Request::DestroyViewport)
                ||| wl_ops::retire_layer_requests(s.handle, m1, s.buffer).contains(x)
                ||| wl_ops::retire_all_requests(s.handle, m2, wl_ops::pool_buffers(s)).contains(x)
                ||| s.has_subsurface && x == StateRequest::Layer(
                    s.handle,
                    Request::DestroySubsurface,
                )
                ||| s.has_surface && x == StateRequest::Layer(s.handle, Request::DestroySurface)
                ||| x is Flush
            }
        }),
{
    lemma_cats();
}

/// Freeing a layer ends its workers and takes down exactly the objects that it
/// has, and nothing of any other layer.
pub proof fn law_freed_layer_is_taken_down(
    st: &mut WlState,
    handle: usize,
    out: &mut Vec<StateRequest>,
    i: int,
    x: StateRequest,
)
    requires
        old(st).wf(),
        call_ensures(wl_ops::free_surface, (st, handle, out), ()),
        0 <= i < old(st).surfaces@.len(),
        old(st).surfaces@[i].handle == handle,
    ensures
        ({
            let s = old(st).surfaces@[i];
            let d = since(old(out)@, final(out)@);
            &&& x == StateRequest::ShutdownGpuWorker(handle) ==> d.contains(x) == s.has_gpu_worker
            &&& x == StateRequest::ShutdownShmWorker(handle) ==> d.contains(x) == s.has_shm_worker
            &&& x == StateRequest::Layer(handle, Request::DestroySurface) ==> d.contains(x)
                == s.has_surface
            &&& x == StateRequest::Layer(handle, Request::DestroySubsurface) ==> d.contains(x)
                == s.has_subsurface
            &&& x == StateRequest::Layer(handle, Request::DestroyViewport) ==> d.contains(x)
                == s.has_viewport
            &&& x == StateRequest::Popup(handle, Request::DestroySurface) ==> d.contains(x)
                == s.has_popup
            &&& x == StateRequest::Popup(handle, Request::DestroySubsurface) ==> d.contains(x)
                == s.has_popup
            &&& x == StateRequest::Popup(handle, Request::DestroyViewport) ==> d.contains(x)
                == s.has_popup_viewport
            &&& d.contains(x) ==> match x {
                StateRequest::Layer(h, r) => h == handle && (r is DestroySurface
                    || r is DestroySubsurface || r is DestroyViewport || (r matches
                    Request::DestroyBuffer(b) && (s.buffer == Some(b) || s.popup_buffer == Some(b)
                    || exists|k: int|
                    0 <= k < s.dmabuf_pool@.len() && (#[trigger] s.dmabuf_pool@[k]).buf == b))),
                StateRequest::Popup(h, r) => h == handle && (r is DestroySurface
                    || r is DestroySubsurface || r is DestroyViewport),
                StateRequest::Stacking(_) => true,
                StateRequest::ShutdownGpuWorker(h) => h == handle,
                StateRequest::ShutdownShmWorker(h) => h == handle,
                StateRequest::Flush => true,
                _ => false,
            }
            &&& d.last() == StateRequest::Flush
            &&& s.has_gpu_worker ==> d[0] == StateRequest::ShutdownGpuWorker(handle)
            &&& s.has_shm_worker && !s.has_gpu_worker ==> d[0]
                == StateRequest::ShutdownShmWorker(handle)
        }),
        keeps(old(out)@, final(out)@),
{
    let s = old(st).surfaces@[i];
    let m = old(st).buffers@;
    lemma_at(*old(st), i);
    let a = wl_ops::shutdown_requests(s);
    let b = wl_state::dispatch_requests(
        old(st).surfaces@,
        old(st).scene.order(),
        final(st).scene.order(),
    );
    let c = wl_ops::drop_layer_requests(s, m);
    lemma_joined(old(out)@, a, b, c);
    lemma_since(old(out)@, final(out)@, a + b + c);
    lemma_dispatched(old(st).surfaces@, old(st).scene.order(), final(st).scene.order(), x);
    lemma_freed(s, m, x);
    if a.contains(x) || b.contains(x) || c.contains(x) {
        lemma_part(a, b, c, x);
    }
    if (a + b + c).contains(x) {
        lemma_parts(a, b, c, x);
    }
    lemma_drop_layer(s, m, x);
    assert((a + b + c).last() == c.last());
    if a.len() > 0 {
        assert((a + b + c)[0] == a[0]);
    }
}

proof fn lemma_freed(s: PlatformSurface, m: Seq<ManagedBuffer>, x: StateRequest)
    ensures
        wl_ops::shutdown_requests(s).contains(x) == {
            ||| s.has_gpu_worker && x == StateRequest::ShutdownGpuWorker(s.handle)
            ||| s.has_shm_worker && x == StateRequest::ShutdownShmWorker(s.handle)
        },
        ({
            let c = wl_ops::drop_layer_requests(s, m);
            &&& x == StateRequest::Layer(s.handle, Request::DestroySurface) ==> c.contains(x)
                == s.has_surface
            &&& x == StateRequest::Layer(s.handle, Request::DestroySubsurface) ==> c.contains(x)
                == s.has_subsurface
            &&& x == StateRequest::Layer(s.handle, Request::DestroyViewport) ==> c.contains(x)
                == s.has_viewport
            &&& x == StateRequest::Popup(s.handle, Request::DestroySurface) ==> c.contains(x)
                == s.has_popup
            &&& x == StateRequest::Popup(s.handle, Request::DestroySubsurface) ==> c.contains(x)
                == s.has_popup
            &&& x == StateRequest::Popup(s.handle, Request::DestroyViewport) ==> c.contains(x)
                == s.has_popup_viewport
            &&& c.contains(x) ==> match x {
                StateRequest::Layer(h, r) => h == s.handle && (r is DestroySurface
                    || r is DestroySubsurface || r is DestroyViewport || (r matches
                    Request::DestroyBuffer(b) && (s.buffer == Some(b) || s.popup_buffer == Some(b)
                    || exists|k: int|
                    0 <= k < s.dmabuf_pool@.len() && (#[trigger] s.dmabuf_pool@[k]).buf == b))),
                StateRequest::Popup(h, r) => h == s.handle && (r is DestroySurface
                    || r is DestroySubsurface || r is DestroyViewport),
                StateRequest::Flush => true,
                _ => false,
            }
        }),
{
    let m1 = dmabuf_pool::given_up(m, s.popup_buffer);
    let m2 = dmabuf_pool::given_up(m1, s.buffer);
    let pool = wl_ops::pool_buffers(s);
    lemma_drop_popup(s, m, x);
    lemma_drop_layer(s, m, x);
    if wl_ops::retire_layer_requests(s.handle, m, s.popup_buffer).contains(x) {
        lemma_retired(s.handle, m, s.popup_buffer, x);
    }
    if wl_ops::retire_layer_requests(s.handle, m1, s.buffer).contains(x) {
        lemma_retired(s.handle, m1, s.buffer, x);
    }
    if wl_ops::retire_all_requests(s.handle, m2, pool).contains(x) {
        lemma_dropped(s, m2, pool, x);
        let buf = x->Layer_1->DestroyBuffer_0;
        let k = choose|k: int| 0 <= k < pool.len() && pool[k] == buf;
        assert(s.dmabuf_pool@[k].buf == buf);
    }
    assert(wl_ops::shutdown_requests(s).contains(x) == {
        ||| s.has_gpu_worker && x == StateRequest::ShutdownGpuWorker(s.handle)
        ||| s.has_shm_worker && x == StateRequest::ShutdownShmWorker(s.handle)
    }) by {
        lemma_cats();
    }
}

/// A freed layer that shows a buffer of its own gives it up: at once where the
/// compositor does not read it.
pub proof fn law_freed_layer_gives_its_buffer_up(
    st: &mut WlState,
    handle: usize,
    out: &mut Vec<StateRequest>,
    i: int,
    b: BufferId,
    idle: bool,
)
    requires
        old(st).wf(),
        call_ensures(wl_ops::free_surface, (st, handle, out), ()),
        0 <= i < old(st).surfaces@.len(),
        old(st).surfaces@[i].handle == handle,
        old(st).surfaces@[i].buffer == Some(b),
        old(st).surfaces@[i].popup_buffer is None,
        call_ensures(ManagedBuffers::buffer_is_idle, (&old(st).buffers, b), idle),
    ensures
        idle ==> since(old(out)@, final(out)@).contains(
            StateRequest::Layer(handle, Request::DestroyBuffer(b)),
        ),
{
    let s = old(st).surfaces@[i];
    let m = old(st).buffers@;
    lemma_at(*old(st), i);
    let x = wl_ops::shutdown_requests(s);
    let y = wl_state::dispatch_requests(
        old(st).surfaces@,
        old(st).scene.order(),
        final(st).scene.order(),
    );
    let z = wl_ops::drop_layer_requests(s, m);
    lemma_joined(old(out)@, x, y, z);
    lemma_since(old(out)@, final(out)@, x + y + z);
    lemma_cats();
    let r = StateRequest::Layer(handle, Request::DestroyBuffer(b));
    if idle {
        assert(wl_ops::retire_layer_requests(handle, m, s.buffer).contains(r));
        assert(z.contains(r));
    }
}

proof fn lemma_layers_of(handles: Seq<usize>)
    requires
        !handles.contains(0),
    ensures
        wl_ops::layers_of(handles).len() == handles.len(),
        forall|k: int| 0 <= k < handles.len() ==> #[trigger] wl_ops::layers_of(handles)[k] == LayerId(handles[k]),
    decreases handles.len(),
{
    reveal(Seq::filter_map);
    if handles.len() > 0 {
        let rest = handles.drop_last();
        assert(!rest.contains(0)) by {
            if rest.contains(0) {
                let k = choose|k: int| 0 <= k < rest.len() && rest[k] == 0;
                assert(handles[k] == 0);
            }
        }
        lemma_layers_of(rest);
        assert(handles[handles.len() - 1] != 0);
        assert(wl_ops::layers_of(handles) =~= wl_ops::layers_of(rest).push(LayerId(handles.last())));
    }
}

proof fn lemma_known_all(list: Seq<LayerId>, known: Seq<LayerId>)
    requires
        forall|k: int| 0 <= k < list.len() ==> known.contains(#[trigger] list[k]),
    ensures
        scene::known_of(list, known) == list,
    decreases list.len(),
{
    reveal(Seq::filter);
    if list.len() > 0 {
        let rest = list.drop_last();
        assert forall|k: int| 0 <= k < rest.len() implies known.contains(#[trigger] rest[k]) by {
            assert(rest[k] == list[k]);
        }
        lemma_known_all(rest, known);
        assert(known.contains(list[list.len() - 1]));
        assert(scene::known_of(list, known) =~= rest.push(list.last()));
    }
}

/// A restack of layers that are all known puts them in exactly this order.
pub proof fn law_restack_sets_the_order(
    st: &mut WlState,
    ordered: &[usize],
    out: &mut Vec<StateRequest>,
    k: int,
)
    requires
        old(st).wf(),
        call_ensures(wl_ops::restack, (st, ordered, out), ()),
        forall|j: int|
            0 <= j < ordered@.len() ==> #[trigger] ordered@[j] != 0
                && old(st).scene.order().contains(LayerId(ordered@[j])),
        0 <= k < ordered@.len(),
    ensures
        final(st).scene.order().len() == ordered@.len(),
        final(st).scene.order()[k] == LayerId(ordered@[k]),
{
    assert(!ordered@.contains(0)) by {
        if ordered@.contains(0) {
            let j = choose|j: int| 0 <= j < ordered@.len() && ordered@[j] == 0;
            assert(ordered@[j] != 0);
        }
    }
    let list = wl_ops::layers_of(ordered@);
    lemma_layers_of(ordered@);
    assert forall|j: int| 0 <= j < list.len() implies old(st).scene.order().contains(
        #[trigger] list[j],
    ) by {
        assert(ordered@[j] != 0);
    }
    lemma_known_all(list, old(st).scene.order());
}

/// A restack is remembered as it was asked for, tells the compositor the new
/// order, and leaves the layers themselves.
pub proof fn law_restack_is_told(
    st: &mut WlState,
    ordered: &[usize],
    out: &mut Vec<StateRequest>,
    x: StateRequest,
)
    requires
        old(st).wf(),
        call_ensures(wl_ops::restack, (st, ordered, out), ()),
    ensures
        final(st).stack@ == ordered@,
        final(st).surfaces == old(st).surfaces,
        final(st).buffers == old(st).buffers,
        ({
            let d = since(old(out)@, final(out)@);
            let from = old(st).scene.order();
            let to = final(st).scene.order();
            &&& x == StateRequest::Stacking(SinkRequest::RequestPresent) ==> (d.contains(x)
                == (from != to))
            &&& x matches StateRequest::Stacking(SinkRequest::PlaceAbove { layer, sibling }) ==> (
            d.contains(x) == (from != to && stands_above(
                old(st).surfaces@,
                to,
                layer,
                sibling,
            )))
            &&& d.contains(x) ==> x is Stacking || x is Flush
        }),
        keeps(old(out)@, final(out)@),
{
    let to = final(st).scene.order();
    let more = wl_state::dispatch_requests(old(st).surfaces@, old(st).scene.order(), to);
    lemma_since(old(out)@, final(out)@, more);
    lemma_dispatched(old(st).surfaces@, old(st).scene.order(), to, x);
}

/// A layer is found where it stands, and a handle that no layer has, or zero,
/// is found nowhere.
pub proof fn law_layer_is_found(st: WlState, handle: usize, r: Option<usize>, i: int)
    requires
        st.wf(),
        call_ensures(WlState::find, (&st, handle), r),
        0 <= i < st.surfaces@.len(),
    ensures
        st.surfaces@[i].handle == handle ==> r == Some(i as usize),
        r matches Some(k) ==> k < st.surfaces@.len() && st.surfaces@[k as int].handle == handle,
        handle == 0 ==> r is None,
{
    lemma_at(st, i);
}

/// A layer is put under the root at its corner, once: where both are there and
/// it is not under it yet.
pub proof fn law_layer_is_put_under_the_root(
    st: &mut WlState,
    handle: usize,
    out: &mut Vec<StateRequest>,
    i: int,
    j: int,
)
    requires
        old(st).wf(),
        call_ensures(WlState::parent_layer, (st, handle, out), ()),
        0 <= i < old(st).surfaces@.len(),
        old(st).surfaces@[i].handle == handle,
        0 <= j < old(st).surfaces@.len(),
        j != i,
    ensures
        ({
            let s = old(st).surfaces@[i];
            let d = since(old(out)@, final(out)@);
            let put = old(st).has_root && s.has_surface && !s.has_subsurface;
            &&& final(st).surfaces@[i].has_subsurface == (s.has_subsurface || put)
            &&& final(st).surfaces@[j] == old(st).surfaces@[j]
            &&& !put ==> d.len() == 0
            &&& put ==> d.len() == 2 && d[0] == StateRequest::Layer(
                handle,
                Request::CreateSubsurface,
            ) && d[1] == StateRequest::Layer(handle, Request::SetPosition { x: 0, y: 0 })
        }),
        keeps(old(out)@, final(out)@),
{
    lemma_at(*old(st), i);
    let more = if old(st).has_root {
        wl_state::parent_requests(old(st).surfaces@, handle)
    } else {
        Seq::empty()
    };
    lemma_since(old(out)@, final(out)@, more);
}

/// The root is taken in once it is known, and then every stacked layer with a
/// surface is under it. It is not forgotten, and not taken in twice.
pub proof fn law_root_is_taken_in(
    st: &mut WlState,
    root_known: bool,
    out: &mut Vec<StateRequest>,
    i: int,
)
    requires
        old(st).wf(),
        call_ensures(WlState::ensure_root, (st, root_known, out), ()),
        0 <= i < old(st).surfaces@.len(),
        old(st).stack@.contains(old(st).surfaces@[i].handle),
    ensures
        final(st).has_root == (old(st).has_root || root_known),
        old(st).has_root || !root_known ==> final(out)@ == old(out)@ && final(st).surfaces@ == old(st).surfaces@,
        ({
            let s = old(st).surfaces@[i];
            let t = final(st).surfaces@[i];
            let d = since(old(out)@, final(out)@);
            &&& !old(st).has_root && root_known && s.has_surface ==> t.has_subsurface
            &&& !old(st).has_root && root_known && s.has_surface && !s.has_subsurface
                ==> d.contains(StateRequest::Layer(s.handle, Request::CreateSubsurface))
                && d.contains(
                StateRequest::Layer(s.handle, Request::SetPosition { x: 0, y: 0 }),
            )
            &&& t.handle == s.handle && t.buffer == s.buffer && t.visible == s.visible
        }),
{
    lemma_at(*old(st), i);
    if !old(st).has_root && root_known {
        lemma_parented(old(st).surfaces@, old(st).stack@);
        lemma_parent_requests(old(st).surfaces@, old(st).stack@, i);
        lemma_since(
            old(out)@,
            final(out)@,
            wl_state::all_parent_requests(old(st).surfaces@, old(st).stack@),
        );
    } else {
        assert(final(out)@ =~= old(out)@);
    }
}

/// With GPU paint installed software frames go through the GPU; nothing else
/// changes.
pub proof fn law_gpu_paint_is_installed(st: &mut WlState)
    requires
        call_ensures(WlState::install_gpu_paint, (st,), ()),
    ensures
        final(st).use_gpu_paint && final(st).has_gpu_ctx,
        final(st).surfaces == old(st).surfaces && final(st).stack == old(st).stack,
        final(st).has_root == old(st).has_root && final(st).has_dmabuf == old(st).has_dmabuf,
        final(st).has_viewporter == old(st).has_viewporter,
        final(st).was_fullscreen == old(st).was_fullscreen,
        final(st).next_handle == old(st).next_handle,
{
}

/// The layers are set up once, on a display with all that cannot be done
/// without; the rest is used where it is there. A refusal names what is
/// missing. There is no layer at first, and no GPU paint.
pub proof fn law_layers_are_set_up(
    already: bool,
    has_display: bool,
    g: Globals,
    root_known: bool,
    r: Result<WlState, InitError>,
)
    requires
        call_ensures(wl_state::init, (already, has_display, g, root_known), r),
    ensures
        r is Ok == (!already && has_display && g.registry && g.compositor && g.subcompositor
            && g.shm),
        r matches Ok(st) ==> {
            &&& st.wf()
            &&& st.surfaces@.len() == 0 && st.stack@.len() == 0 && st.scene.order().len() == 0
            &&& st.buffers@.len() == 0
            &&& st.has_dmabuf == g.dmabuf && st.has_viewporter == g.viewporter
            &&& st.has_root == root_known
            &&& !st.use_gpu_paint && !st.has_gpu_ctx && !st.was_fullscreen
        },
        r matches Err(e) ==> match e {
            InitError::AlreadyInitialised => already,
            InitError::NullDisplay => !has_display && !already,
            InitError::Registry => !g.registry && has_display && !already,
            InitError::Compositor => !g.compositor && g.registry && has_display && !already,
            InitError::Subcompositor => !g.subcompositor && g.compositor && g.registry,
            InitError::Shm => !g.shm && g.subcompositor && g.compositor && g.registry,
        },
{
}

/// A frame counts as drawn for the window where both of its extents are within
/// thirty-two device pixels of the window's, or while the window's width is
/// unknown.
pub proof fn law_tolerance_is_narrow(
    win: WlWindowState,
    physical: (i32, i32),
    w: i32,
    h: i32,
    r: bool,
)
    requires
        call_ensures(window_state::jfn_wl_window_size, (&win,), physical),
        call_ensures(wl_state::size_in_tolerance, (&win, w, h), r),
    ensures
        physical.0 <= 0 ==> r,
        physical.0 > 0 ==> r == (-32 <= w - physical.0 <= 32 && -32 <= h - physical.1 <= 32),
{
}

/// A layer that was not given anything yet has no object, shows nothing and is
/// visible.
pub proof fn law_bare_layer_has_nothing(handle: usize, s: PlatformSurface)
    requires
        call_ensures(PlatformSurface::new, (handle,), s),
    ensures
        s.handle == handle && s.visible,
        !s.has_surface && !s.has_subsurface && !s.has_viewport,
        s.buffer is None && s.popup_buffer is None && s.dmabuf_pool@.len() == 0,
        !s.has_popup && !s.has_popup_viewport && !s.popup_visible,
        !s.has_gpu_worker && !s.has_shm_worker && !s.placeholder && !s.null_attached,
        s.buffer_w == 0 && s.buffer_h == 0,
{
}

} // verus!
