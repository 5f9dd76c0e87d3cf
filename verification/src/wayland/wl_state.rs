//! The layers of the window: their Wayland objects, their stacking, and what
//! is shared between them.
//!
//! Layers are named by handles; zero names none. The protocol objects are the
//! caller's: the functions here decide what is to be requested and in what
//! order.
use crate::wayland::buffers::{BufferId, ManagedBuffer, ManagedBuffers};
use crate::wayland::dmabuf_pool;
use crate::wayland::dmabuf_pool::DmabufPool;
use crate::wayland::requests::Request;
use crate::wayland::scene;
use crate::wayland::scene::sink;
use crate::wayland::scene::sink::{LayerObjects, SceneSink, SinkRequest, WlSink};
use crate::wayland::scene::{reduce, Effect, LayerId, Scene, SceneEvent};
use crate::wayland::shm_paint_worker::ViewportState;
use crate::wayland::window_state;
use crate::wayland::window_state::{jfn_wl_window_size, WlWindowState};
use vstd::prelude::*;

verus! {

/// How far a frame may be off the window's size, in device pixels, and still
/// count as drawn for it.
pub const TRANSITION_TOLERANCE_TEXELS: i32 = 32;

/// A layer and its popup child.
#[derive(Debug)]
pub struct PlatformSurface {
    pub handle: usize,
    pub has_surface: bool,
    pub has_subsurface: bool,
    pub has_viewport: bool,
    pub buffer: Option<BufferId>,
    pub dmabuf_pool: DmabufPool,
    pub buffer_w: i32,
    pub buffer_h: i32,
    pub visible: bool,
    /// Whether a plain colour stands in for the first frame.
    pub placeholder: bool,
    /// Whether the surface was detached from its buffer.
    pub null_attached: bool,
    /// Surface and subsurface of the popup child.
    pub has_popup: bool,
    pub has_popup_viewport: bool,
    pub popup_buffer: Option<BufferId>,
    pub popup_visible: bool,
    pub has_gpu_worker: bool,
    pub has_shm_worker: bool,
}

impl PlatformSurface {
    /// A layer without any object yet.
    pub fn new(handle: usize) -> (r: Self)
        ensures
            r.handle == handle,
            r.is_bare(),
            r.wf(),
    {
        PlatformSurface {
            handle,
            has_surface: false,
            has_subsurface: false,
            has_viewport: false,
            buffer: None,
            dmabuf_pool: DmabufPool::default(),
            buffer_w: 0,
            buffer_h: 0,
            visible: true,
            placeholder: false,
            null_attached: false,
            has_popup: false,
            has_popup_viewport: false,
            popup_buffer: None,
            popup_visible: false,
            has_gpu_worker: false,
            has_shm_worker: false,
        }
    }

    /// Whether the layer is as [`PlatformSurface::new`] makes it.
    pub open spec fn is_bare(&self) -> bool {
        &&& !self.has_surface && !self.has_subsurface && !self.has_viewport
        &&& self.buffer is None && self.dmabuf_pool@.len() == 0
        &&& self.buffer_w == 0 && self.buffer_h == 0
        &&& self.visible && !self.placeholder && !self.null_attached
        &&& !self.has_popup && !self.has_popup_viewport && self.popup_buffer is None
        &&& !self.popup_visible && !self.has_gpu_worker && !self.has_shm_worker
    }

    /// Whether the layer's pool of buffers is one.
    pub open spec fn wf(&self) -> bool {
        dmabuf_pool::is_pool(self.dmabuf_pool@)
    }
}

/// The state shared by all layers.
#[derive(Debug)]
pub struct WlState {
    pub has_dmabuf: bool,
    pub has_viewporter: bool,
    /// Whether the window's root surface is known.
    pub has_root: bool,
    /// Handles from bottom to top, as last restacked.
    pub stack: Vec<usize>,
    pub surfaces: Vec<PlatformSurface>,
    pub was_fullscreen: bool,
    pub has_gpu_ctx: bool,
    /// Whether software frames go through the GPU.
    pub use_gpu_paint: bool,
    pub scene: Scene,
    pub buffers: ManagedBuffers,
    pub next_handle: usize,
}

/// A request, and what it is for.
#[derive(Clone, Copy, Debug, PartialEq, Eq, Structural)]
pub enum StateRequest {
    /// On the surface of a layer.
    Layer(usize, Request),
    /// On the popup child of a layer.
    Popup(usize, Request),
    /// On the stacking of the layers.
    Stacking(SinkRequest),
    /// End the GPU worker of a layer.
    ShutdownGpuWorker(usize),
    /// End the shared-memory worker of a layer.
    ShutdownShmWorker(usize),
    /// Tell the GPU worker of a layer its target size.
    ResizeGpuWorker { layer: usize, w: u32, h: u32 },
    /// Tell the shared-memory worker of a layer the window's size.
    ResizeShmWorker(usize, ViewportState),
    /// Tell the GPU worker of a layer whether it is visible.
    ShowGpuWorker(usize, bool),
    /// Tell the shared-memory worker of a layer whether it is visible.
    ShowShmWorker(usize, bool),
    Flush,
    /// Ask the owner of the root surface for a commit.
    RequestPresent,
}

/// The globals that a compositor offers.
#[derive(Clone, Copy, Debug, PartialEq, Eq, Structural)]
pub struct Globals {
    pub registry: bool,
    pub compositor: bool,
    pub subcompositor: bool,
    pub shm: bool,
    pub dmabuf: bool,
    pub viewporter: bool,
}

/// Why the state could not be set up.
#[derive(Clone, Copy, Debug, PartialEq, Eq, Structural)]
pub enum InitError {
    AlreadyInitialised,
    NullDisplay,
    Registry,
    Compositor,
    Subcompositor,
    Shm,
}

/// What stands in the way of setting the state up, the first reason first.
pub open spec fn init_error(already: bool, has_display: bool, g: Globals) -> Option<InitError> {
    if already {
        Some(InitError::AlreadyInitialised)
    } else if !has_display {
        Some(InitError::NullDisplay)
    } else if !g.registry {
        Some(InitError::Registry)
    } else if !g.compositor {
        Some(InitError::Compositor)
    } else if !g.subcompositor {
        Some(InitError::Subcompositor)
    } else if !g.shm {
        Some(InitError::Shm)
    } else {
        None
    }
}

/// The state as it is set up, without any layer.
pub open spec fn is_initial(st: WlState, g: Globals, root_known: bool) -> bool {
    &&& st.wf()
    &&& st.has_dmabuf == g.dmabuf && st.has_viewporter == g.viewporter
    &&& st.has_root == root_known
    &&& st.stack@.len() == 0 && st.surfaces@.len() == 0
    &&& !st.was_fullscreen && !st.has_gpu_ctx && !st.use_gpu_paint
    &&& st.scene.order().len() == 0
    &&& st.buffers@ == Seq::<ManagedBuffer>::empty()
    &&& st.next_handle == 1
}

/// Sets the state up. The dmabuf and viewporter globals may be missing, all
/// others may not. `root_known` says whether the window's root surface is
/// known already.
pub fn init(already: bool, has_display: bool, g: Globals, root_known: bool) -> (r: Result<
    WlState,
    InitError,
>)
    ensures
        match init_error(already, has_display, g) {
            Some(e) => r == Err::<WlState, InitError>(e),
            None => r matches Ok(st) && is_initial(st, g, root_known),
        },
{
    if already {
        return Err(InitError::AlreadyInitialised);
    }
    if !has_display {
        return Err(InitError::NullDisplay);
    }
    if !g.registry {
        return Err(InitError::Registry);
    }
    if !g.compositor {
        return Err(InitError::Compositor);
    }
    if !g.subcompositor {
        return Err(InitError::Subcompositor);
    }
    if !g.shm {
        return Err(InitError::Shm);
    }
    Ok(
        WlState {
            has_dmabuf: g.dmabuf,
            has_viewporter: g.viewporter,
            has_root: root_known,
            stack: Vec::new(),
            surfaces: Vec::new(),
            was_fullscreen: false,
            has_gpu_ctx: false,
            use_gpu_paint: false,
            scene: Scene::default(),
            buffers: ManagedBuffers::default(),
            next_handle: 1,
        },
    )
}

/// Where a layer stands among the surfaces, from an index on.
pub open spec fn index_from(surfaces: Seq<PlatformSurface>, handle: usize, i: int) -> Option<int>
    decreases surfaces.len() - i,
{
    if handle == 0 || i < 0 || i >= surfaces.len() {
        None
    } else if surfaces[i].handle == handle {
        Some(i)
    } else {
        index_from(surfaces, handle, i + 1)
    }
}

/// Where a layer stands among the surfaces. Handle zero names none.
pub open spec fn index_of(surfaces: Seq<PlatformSurface>, handle: usize) -> Option<int> {
    index_from(surfaces, handle, 0)
}

pub proof fn lemma_index(surfaces: Seq<PlatformSurface>, handle: usize, i: int)
    requires
        0 <= i,
    ensures
        index_from(surfaces, handle, i) matches Some(k) ==> i <= k < surfaces.len()
            && surfaces[k].handle == handle && handle != 0,
    decreases surfaces.len() - i,
{
    if handle != 0 && i < surfaces.len() && surfaces[i].handle != handle {
        lemma_index(surfaces, handle, i + 1);
    }
}

/// What is known of the layers' objects for stacking.
pub open spec fn layer_objects(surfaces: Seq<PlatformSurface>) -> Seq<LayerObjects> {
    surfaces.map_values(
        |s: PlatformSurface|
            LayerObjects {
                id: LayerId(s.handle),
                has_surface: s.has_surface,
                has_subsurface: s.has_subsurface,
            },
    )
}

/// The stacking requests of some effects.
pub open spec fn stacking_requests(layers: Seq<LayerObjects>, effects: Seq<Effect>) -> Seq<
    StateRequest,
> {
    effects.filter_map(
        |e: Effect|
            match sink::request_for(layers, e) {
                Some(r) => Some(StateRequest::Stacking(r)),
                None => None,
            },
    )
}

/// The requests that a change of the layers leads to.
pub open spec fn dispatch_requests(
    surfaces: Seq<PlatformSurface>,
    applied: Seq<LayerId>,
    order: Seq<LayerId>,
) -> Seq<StateRequest> {
    stacking_requests(layer_objects(surfaces), scene::restacked(applied, order)).push(
        StateRequest::Flush,
    )
}

impl WlState {
    /// No two layers share a handle, handles given out are below the next
    /// one, every pool of buffers is one, and the scene was sent.
    pub open spec fn wf(&self) -> bool {
        &&& self.next_handle >= 1
        &&& self.scene.settled()
        &&& forall|i: int|
            0 <= i < self.surfaces@.len() ==> 0 < (#[trigger] self.surfaces@[i]).handle
                < self.next_handle && self.surfaces@[i].wf()
        &&& forall|i: int, j: int|
            0 <= i < j < self.surfaces@.len() ==> self.surfaces@[i].handle
                != self.surfaces@[j].handle
    }

    /// Where a layer stands among the surfaces.
    pub fn find(&self, handle: usize) -> (r: Option<usize>)
        ensures
            match r {
                Some(i) => index_of(self.surfaces@, handle) == Some(i as int) && i
                    < self.surfaces@.len() && self.surfaces@[i as int].handle == handle && handle
                    != 0,
                None => index_of(self.surfaces@, handle) is None,
            },
    {
        if handle == 0 {
            return None;
        }
        for i in 0..self.surfaces.len()
            invariant
                handle != 0,
                index_of(self.surfaces@, handle) == index_from(self.surfaces@, handle, i as int),
        {
            if self.surfaces[i].handle == handle {
                return Some(i);
            }
        }
        None
    }

    fn objects(&self) -> (r: Vec<LayerObjects>)
        ensures
            r@ == layer_objects(self.surfaces@),
    {
        let mut out: Vec<LayerObjects> = Vec::new();
        for i in 0..self.surfaces.len()
            invariant
                out@ == layer_objects(self.surfaces@.take(i as int)),
        {
            let s = &self.surfaces[i];
            out.push(
                LayerObjects {
                    id: LayerId(s.handle),
                    has_surface: s.has_surface,
                    has_subsurface: s.has_subsurface,
                },
            );
            assert(out@ =~= layer_objects(self.surfaces@.take(i + 1)));
        }
        assert(self.surfaces@.take(self.surfaces@.len() as int) =~= self.surfaces@);
        out
    }

    /// Takes in a change of the layers and adds the requests it leads to.
    pub fn dispatch(&mut self, ev: SceneEvent, out: &mut Vec<StateRequest>)
        requires
            old(self).scene.settled(),
        ensures
            final(self).scene.settled(),
            final(self).scene.order() == scene::next_order(old(self).scene.order(), ev),
            final(out)@ == old(out)@ + dispatch_requests(
                old(self).surfaces@,
                old(self).scene.order(),
                scene::next_order(old(self).scene.order(), ev),
            ),
            *final(self) == (WlState { scene: final(self).scene, ..*old(self) }),
    {
        let effects = reduce(&mut self.scene, ev);
        let mut sink = WlSink::new();
        sink.layers = self.objects();
        let ghost layers = sink.layers@;
        let ghost start = out@;
        for i in 0..effects.len()
            invariant
                sink.layers@ == layers,
                out@ == start + stacking_requests(layers, effects@.take(i as int)),
        {
            assert(effects@.take(i + 1).drop_last() =~= effects@.take(i as int));
            assert(effects@.take(i + 1).last() == effects@[i as int]);
            sink.requests = Vec::new();
            sink.apply(&effects[i]);
            if sink.requests.len() > 0 {
                out.push(StateRequest::Stacking(sink.requests[0]));
            }
            assert(out@ =~= start + stacking_requests(layers, effects@.take(i + 1)));
        }
        assert(effects@.take(effects@.len() as int) =~= effects@);
        out.push(StateRequest::Flush);
        assert(out@ =~= start + stacking_requests(layers, effects@).push(StateRequest::Flush));
    }
}

/// Whether a layer is still to be made a subsurface of the root.
pub open spec fn is_orphan(s: PlatformSurface) -> bool {
    s.has_surface && !s.has_subsurface
}

/// The surfaces after one layer was put under the root.
pub open spec fn parented(surfaces: Seq<PlatformSurface>, handle: usize) -> Seq<PlatformSurface> {
    match index_of(surfaces, handle) {
        Some(i) => if is_orphan(surfaces[i]) {
            surfaces.update(i, PlatformSurface { has_subsurface: true, ..surfaces[i] })
        } else {
            surfaces
        },
        None => surfaces,
    }
}

/// The requests that put one layer under the root.
pub open spec fn parent_requests(surfaces: Seq<PlatformSurface>, handle: usize) -> Seq<
    StateRequest,
> {
    match index_of(surfaces, handle) {
        Some(i) => if is_orphan(surfaces[i]) {
            seq![
                StateRequest::Layer(handle, Request::CreateSubsurface),
                StateRequest::Layer(handle, Request::SetPosition { x: 0, y: 0 }),
            ]
        } else {
            Seq::empty()
        },
        None => Seq::empty(),
    }
}

/// The surfaces after several layers were put under the root, one after the
/// other.
pub open spec fn all_parented(surfaces: Seq<PlatformSurface>, handles: Seq<usize>) -> Seq<
    PlatformSurface,
>
    decreases handles.len(),
{
    if handles.len() == 0 {
        surfaces
    } else {
        parented(all_parented(surfaces, handles.drop_last()), handles.last())
    }
}

/// The requests that put several layers under the root.
pub open spec fn all_parent_requests(surfaces: Seq<PlatformSurface>, handles: Seq<usize>) -> Seq<
    StateRequest,
>
    decreases handles.len(),
{
    if handles.len() == 0 {
        Seq::empty()
    } else {
        all_parent_requests(surfaces, handles.drop_last()) + parent_requests(
            all_parented(surfaces, handles.drop_last()),
            handles.last(),
        )
    }
}

impl WlState {
    /// Puts a layer under the root, once both are there.
    pub fn parent_layer(&mut self, handle: usize, out: &mut Vec<StateRequest>)
        requires
            old(self).wf(),
        ensures
            final(self).wf(),
            final(self).surfaces@ == if old(self).has_root {
                parented(old(self).surfaces@, handle)
            } else {
                old(self).surfaces@
            },
            *final(self) == (WlState { surfaces: final(self).surfaces, ..*old(self) }),
            final(out)@ == old(out)@ + if old(self).has_root {
                parent_requests(old(self).surfaces@, handle)
            } else {
                Seq::empty()
            },
    {
        if self.has_root {
            if let Some(i) = self.find(handle) {
                if self.surfaces[i].has_surface && !self.surfaces[i].has_subsurface {
                    self.surfaces[i].has_subsurface = true;
                    assert(self.surfaces@ =~= parented(old(self).surfaces@, handle));
                    out.push(StateRequest::Layer(handle, Request::CreateSubsurface));
                    out.push(StateRequest::Layer(handle, Request::SetPosition { x: 0, y: 0 }));
                }
            }
        }
        assert(out@ =~= old(out)@ + if old(self).has_root {
            parent_requests(old(self).surfaces@, handle)
        } else {
            Seq::empty()
        });
    }

    /// Takes in the root surface, once it is known, and puts the stacked
    /// layers under it.
    pub fn ensure_root(&mut self, root_known: bool, out: &mut Vec<StateRequest>)
        requires
            old(self).wf(),
        ensures
            final(self).wf(),
            *final(self) == (WlState {
                has_root: old(self).has_root || root_known,
                surfaces: final(self).surfaces,
                ..*old(self)
            }),
            final(self).surfaces@ == if !old(self).has_root && root_known {
                all_parented(old(self).surfaces@, old(self).stack@)
            } else {
                old(self).surfaces@
            },
            final(out)@ == old(out)@ + if !old(self).has_root && root_known {
                all_parent_requests(old(self).surfaces@, old(self).stack@)
            } else {
                Seq::empty()
            },
    {
        if self.has_root || !root_known {
            assert(out@ =~= old(out)@ + Seq::<StateRequest>::empty());
            return;
        }
        self.has_root = true;
        let ghost first = self.surfaces@;
        let ghost stack = self.stack@;
        let n: usize = self.stack.len();
        assert(stack.take(0) =~= Seq::empty());
        assert(out@ =~= old(out)@ + all_parent_requests(first, stack.take(0)));
        for i in 0..n
            invariant
                self.wf(),
                self.has_root,
                self.stack@ == stack,
                n == stack.len(),
                *self == (WlState { has_root: true, surfaces: self.surfaces, ..*old(self) }),
                self.surfaces@ == all_parented(first, stack.take(i as int)),
                out@ == old(out)@ + all_parent_requests(first, stack.take(i as int)),
        {
            let handle = self.stack[i];
            self.parent_layer(handle, out);
            assert(stack.take(i + 1).drop_last() =~= stack.take(i as int));
            assert(stack.take(i + 1).last() == handle);
            assert(out@ =~= old(out)@ + all_parent_requests(first, stack.take(i + 1)));
        }
        assert(stack.take(stack.len() as int) =~= stack);
    }

    /// Sends software frames through the GPU from now on.
    pub fn install_gpu_paint(&mut self)
        ensures
            *final(self) == (WlState { has_gpu_ctx: true, use_gpu_paint: true, ..*old(self) }),
    {
        self.has_gpu_ctx = true;
        self.use_gpu_paint = true;
    }
}

/// The distance of two numbers.
pub open spec fn distance(a: int, b: int) -> int {
    if a < b {
        b - a
    } else {
        a - b
    }
}

/// Whether a frame of this visible size counts as drawn for the window. While
/// the window's size is unknown every frame does.
pub open spec fn in_tolerance(win: WlWindowState, vw: i32, vh: i32) -> bool {
    let (pw, ph) = window_state::unpacked_size(win.size);
    pw <= 0 || (distance(vw as int, pw as int) <= TRANSITION_TOLERANCE_TEXELS && distance(
        vh as int,
        ph as int,
    ) <= TRANSITION_TOLERANCE_TEXELS)
}

/// Whether a frame of this visible size counts as drawn for the window.
pub fn size_in_tolerance(win: &WlWindowState, vw: i32, vh: i32) -> (r: bool)
    ensures
        r == in_tolerance(*win, vw, vh),
{
    let (pw, ph) = jfn_wl_window_size(win);
    if pw <= 0 {
        return true;
    }
    let slack: i64 = TRANSITION_TOLERANCE_TEXELS as i64;
    let dw: i64 = vw as i64 - pw as i64;
    let dh: i64 = vh as i64 - ph as i64;
    -slack <= dw && dw <= slack && -slack <= dh && dh <= slack
}

/// Putting a layer under the root twice is putting it there once.
pub proof fn law_parenting_is_idempotent(surfaces: Seq<PlatformSurface>, handle: usize)
    ensures
        parented(parented(surfaces, handle), handle) == parented(surfaces, handle),
        parent_requests(parented(surfaces, handle), handle) == Seq::<StateRequest>::empty(),
{
    lemma_index(surfaces, handle, 0);
    if let Some(i) = index_of(surfaces, handle) {
        if is_orphan(surfaces[i]) {
            lemma_index_update(
                surfaces,
                handle,
                0,
                i,
                PlatformSurface { has_subsurface: true, ..surfaces[i] },
            );
        }
    }
}

/// Changing a layer but not its handle leaves all layers where they stand.
pub proof fn lemma_index_update(
    surfaces: Seq<PlatformSurface>,
    handle: usize,
    from: int,
    i: int,
    s: PlatformSurface,
)
    requires
        0 <= from,
        0 <= i < surfaces.len(),
        s.handle == surfaces[i].handle,
    ensures
        index_from(surfaces.update(i, s), handle, from) == index_from(surfaces, handle, from),
    decreases surfaces.len() - from,
{
    if from < surfaces.len() {
        lemma_index_update(surfaces, handle, from + 1, i, s);
    }
}

} // verus!
