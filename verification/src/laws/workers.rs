//! The workers that show software frames.
use crate::platform_abi::JfnRect;
use crate::wayland::buffers::BufferId;
use crate::wayland::gpu_paint_worker;
use crate::wayland::requests::Request;
use crate::wayland::shm_paint_worker;
use crate::wayland::shm_paint_worker::{PendingFrame, PendingRect, Presenter, Shadow, ViewportPlan, ViewportState};
use vstd::prelude::*;

verus! {

/// A frame that is handed to a visible GPU worker is painted as it is, at the
/// size that the worker was last told, and once.
pub proof fn law_gpu_frame_is_painted(
    a: &mut gpu_paint_worker::WorkerState,
    size: (u32, u32),
    b: &mut gpu_paint_worker::WorkerState,
    pixels: &[u8],
    width: u32,
    height: u32,
    dirty: Vec<JfnRect>,
    c: &mut gpu_paint_worker::WorkerState,
    has_painter: bool,
    turn: gpu_paint_worker::WorkerTurn,
    d: &mut gpu_paint_worker::WorkerState,
    next: gpu_paint_worker::WorkerTurn,
)
    requires
        old(a).visible && !old(a).shutdown,
        size.0 > 0 && size.1 > 0,
        width * 4 <= u32::MAX,
        height * (width * 4) <= pixels@.len(),
        call_ensures(gpu_paint_worker::WorkerState::resize, (a, size), ()),
        *b == *final(a),
        call_ensures(
            gpu_paint_worker::WorkerState::submit_frame,
            (b, pixels, width, height, dirty),
            (),
        ),
        *c == *final(b),
        call_ensures(gpu_paint_worker::run_worker, (c, has_painter), turn),
        *d == *final(c),
        call_ensures(gpu_paint_worker::run_worker, (d, true), next),
    ensures
        turn is Paint,
        turn->target == size,
        turn->create == !has_painter,
        turn->frame.width == width && turn->frame.height == height && turn->frame.stride == width
            * 4,
        turn->frame.dirty == dirty,
        turn->frame.pixels@ == pixels@.take(height * (width * 4)),
        next is Wait,
{
}

/// A frame that its pixels do not fill is not taken, and what waits goes on
/// waiting.
pub proof fn law_unfilled_gpu_frame_is_not_taken(
    a: &mut gpu_paint_worker::WorkerState,
    pixels: &[u8],
    width: u32,
    height: u32,
    dirty: Vec<JfnRect>,
)
    requires
        width * 4 <= u32::MAX,
        height * (width * 4) > pixels@.len(),
        call_ensures(
            gpu_paint_worker::WorkerState::submit_frame,
            (a, pixels, width, height, dirty),
            (),
        ),
    ensures
        final(a).pending == old(a).pending,
        final(a).visible == old(a).visible && final(a).target_size == old(a).target_size,
        final(a).shutdown == old(a).shutdown,
{
}

/// Of two frames that wait only the later one is painted.
pub proof fn law_later_gpu_frame_is_painted(
    a: &mut gpu_paint_worker::WorkerState,
    first: &[u8],
    first_w: u32,
    first_h: u32,
    first_dirty: Vec<JfnRect>,
    b: &mut gpu_paint_worker::WorkerState,
    pixels: &[u8],
    width: u32,
    height: u32,
    dirty: Vec<JfnRect>,
    c: &mut gpu_paint_worker::WorkerState,
    has_painter: bool,
    turn: gpu_paint_worker::WorkerTurn,
)
    requires
        old(a).visible && !old(a).shutdown,
        width * 4 <= u32::MAX,
        height * (width * 4) <= pixels@.len(),
        call_ensures(
            gpu_paint_worker::WorkerState::submit_frame,
            (a, first, first_w, first_h, first_dirty),
            (),
        ),
        *b == *final(a),
        call_ensures(
            gpu_paint_worker::WorkerState::submit_frame,
            (b, pixels, width, height, dirty),
            (),
        ),
        *c == *final(b),
        call_ensures(gpu_paint_worker::run_worker, (c, has_painter), turn),
    ensures
        turn is Paint,
        turn->frame.pixels@ == pixels@.take(height * (width * 4)),
        turn->frame.width == width && turn->frame.height == height,
        turn->frame.dirty == dirty,
{
}

/// A GPU worker starts without a frame, keeps its size where it is told one
/// without area, drops frames while it is hidden, and ends when it is told to.
pub proof fn law_gpu_worker_obeys(
    size: (u32, u32),
    visible: bool,
    start: gpu_paint_worker::WorkerState,
    a: &mut gpu_paint_worker::WorkerState,
    told: (u32, u32),
    b: &mut gpu_paint_worker::WorkerState,
    shown: bool,
    c: &mut gpu_paint_worker::WorkerState,
    d: &mut gpu_paint_worker::WorkerState,
    has_painter: bool,
    end: gpu_paint_worker::WorkerTurn,
    e: &mut gpu_paint_worker::WorkerState,
    turn: gpu_paint_worker::WorkerTurn,
)
    requires
        call_ensures(gpu_paint_worker::WorkerState::new, (size, visible), start),
        call_ensures(gpu_paint_worker::WorkerState::resize, (a, told), ()),
        call_ensures(gpu_paint_worker::WorkerState::set_visible, (b, shown), ()),
        call_ensures(gpu_paint_worker::WorkerState::shutdown, (c,), ()),
        *d == *final(c),
        call_ensures(gpu_paint_worker::run_worker, (d, has_painter), end),
        call_ensures(gpu_paint_worker::run_worker, (e, has_painter), turn),
        !old(e).shutdown,
    ensures
        start.pending is None && start.target_size == size && start.visible == visible
            && !start.shutdown,
        final(a).target_size == if told.0 > 0 && told.1 > 0 {
            told
        } else {
            old(a).target_size
        },
        final(a).pending == old(a).pending && final(a).visible == old(a).visible,
        final(b).visible == shown && final(b).pending == old(b).pending && final(b).target_size
            == old(b).target_size,
        end is Exit && final(c).pending is None,
        old(e).pending is None ==> turn is Wait,
        old(e).pending is Some && !old(e).visible ==> turn is Skip,
        final(e).pending is None,
{
}

/// A frame of another size than the one before is shown whole: what the worker
/// shows afterwards is exactly its pixels, whatever it showed.
pub proof fn law_new_size_is_shown_whole(
    a: &mut shm_paint_worker::WorkerState,
    pixels: &[u8],
    width: i32,
    height: i32,
    dirty: &[JfnRect],
    taken: bool,
    b: &mut shm_paint_worker::WorkerState,
    turn: shm_paint_worker::WorkerTurn,
    shadow: &mut Shadow,
)
    requires
        old(a).wf() && old(a).visible && !old(a).shutdown,
        forall|i: int|
            0 <= i < dirty@.len() ==> shm_paint_worker::has_edges(#[trigger] dirty@[i]),
        width > 0 && height > 0,
        pixels@.len() == width * 4 * height,
        old(a).frame_size != (width, height),
        call_ensures(
            shm_paint_worker::WorkerState::submit_frame,
            (a, pixels, width, height, dirty),
            taken,
        ),
        *b == *final(a),
        call_ensures(shm_paint_worker::run_worker, (b,), turn),
        turn is Show,
        old(shadow).wf(),
        call_ensures(Shadow::take_in, (shadow, turn->Show_0), ()),
    ensures
        taken,
        final(shadow).pixels@ == pixels@,
        final(shadow).size == (width, height),
        turn->Show_1 == old(a).viewport,
{
    let n = shm_paint_worker::frame_len(width as int, height as int);
    assert(pixels@.take(n) =~= pixels@);
    shm_paint_worker::law_whole_frame_is_shown(
        old(shadow).pixels@,
        old(shadow).size,
        pixels@,
        width,
        height,
        dirty@,
    );
}

/// Whether a pixel lies in one of some rectangles.
pub open spec fn in_some(dirty: Seq<JfnRect>, row: int, x: int) -> bool {
    exists|i: int|
        0 <= i < dirty.len() && (#[trigger] dirty[i]).y <= row < dirty[i].y + dirty[i].h
            && dirty[i].x <= x < dirty[i].x + dirty[i].w
}

/// A frame of the same size is shown by its dirty parts alone, and nothing is
/// lost: where it differs from what is shown in dirty pixels only, what is
/// shown afterwards is exactly the frame.
pub proof fn law_dirty_parts_show_the_frame(
    a: &mut shm_paint_worker::WorkerState,
    pixels: &[u8],
    width: i32,
    height: i32,
    dirty: &[JfnRect],
    taken: bool,
    b: &mut shm_paint_worker::WorkerState,
    turn: shm_paint_worker::WorkerTurn,
    shadow: &mut Shadow,
)
    requires
        old(a).wf() && old(a).visible && !old(a).shutdown,
        old(a).pending is None,
        forall|i: int|
            0 <= i < dirty@.len() ==> shm_paint_worker::has_edges(#[trigger] dirty@[i]),
        width > 0 && height > 0,
        pixels@.len() == width * 4 * height,
        old(a).frame_size == (width, height),
        call_ensures(
            shm_paint_worker::WorkerState::submit_frame,
            (a, pixels, width, height, dirty),
            taken,
        ),
        *b == *final(a),
        call_ensures(shm_paint_worker::run_worker, (b,), turn),
        old(shadow).wf(),
        old(shadow).size == (width, height),
        turn is Show ==> call_ensures(Shadow::take_in, (shadow, turn->Show_0), ()),
        turn !is Show ==> *final(shadow) == *old(shadow),
        forall|k: int|
            0 <= k < pixels@.len() && !in_some(
                dirty@,
                k / (width * 4),
                k % (width * 4) / 4,
            ) ==> #[trigger] old(shadow).pixels@[k] == pixels@[k],
    ensures
        taken,
        final(shadow).pixels@ == pixels@,
        turn is Show ==> turn->Show_0.full_pixels is None,
{
    let (w, h) = (width as int, height as int);
    let before = old(shadow).pixels@;
    assert forall|k: int|
        0 <= k < before.len() && !shm_paint_worker::is_dirty(
            w,
            h,
            dirty@,
            k / (w * 4),
            k % (w * 4),
        ) implies #[trigger] before[k] == pixels@[k] by {
        if in_some(dirty@, k / (w * 4), k % (w * 4) / 4) {
            let i = choose|i: int|
                0 <= i < dirty@.len() && (#[trigger] dirty@[i]).y <= k / (w * 4) < dirty@[i].y
                    + dirty@[i].h && dirty@[i].x <= k % (w * 4) / 4 < dirty@[i].x + dirty@[i].w;
            lemma_row(k, w, h);
            assert(shm_paint_worker::in_rect(
                shm_paint_worker::clipped(dirty@[i], w, h),
                k / (w * 4),
                k % (w * 4),
            ));
        }
    }
    shm_paint_worker::law_dirty_parts_restore_frame(before, pixels@, w, h, dirty@);
    let parts = shm_paint_worker::patches_of(pixels@, w, h, dirty@);
    if turn !is Show {
        assert(parts.len() == 0);
        assert(shm_paint_worker::painted_all(before, w, parts) == before);
    }
}

proof fn lemma_row(k: int, w: int, h: int)
    requires
        w > 0,
        h > 0,
        0 <= k < w * 4 * h,
    ensures
        0 <= k / (w * 4) < h,
        0 <= k % (w * 4) < w * 4,
{
    assert(0 <= k / (w * 4) < h && 0 <= k % (w * 4) < w * 4) by (nonlinear_arith)
        requires
            w > 0,
            h > 0,
            0 <= k < w * 4 * h,
    ;
}

/// A frame is refused where it has no size or its pixels do not fill it, and
/// then nothing changes; the window's size and visibility stay in any case.
pub proof fn law_unfilled_frame_is_refused(
    a: &mut shm_paint_worker::WorkerState,
    pixels: &[u8],
    width: i32,
    height: i32,
    dirty: &[JfnRect],
    taken: bool,
)
    requires
        old(a).wf(),
        forall|i: int|
            0 <= i < dirty@.len() ==> shm_paint_worker::has_edges(#[trigger] dirty@[i]),
        call_ensures(
            shm_paint_worker::WorkerState::submit_frame,
            (a, pixels, width, height, dirty),
            taken,
        ),
    ensures
        taken == (width > 0 && height > 0 && width * 4 * height <= pixels@.len()),
        !taken ==> final(a).pending == old(a).pending && final(a).frame_size == old(a).frame_size,
        final(a).viewport == old(a).viewport && final(a).visible == old(a).visible,
        final(a).shutdown == old(a).shutdown,
{
}

/// A worker of shared memory shows what waits while it is visible, with the
/// window's size that it was last told; hiding drops it, and a shutdown ends
/// the worker.
pub proof fn law_shm_worker_obeys(
    viewport: ViewportState,
    visible: bool,
    start: shm_paint_worker::WorkerState,
    a: &mut shm_paint_worker::WorkerState,
    lw: i32,
    lh: i32,
    pw: i32,
    ph: i32,
    b: &mut shm_paint_worker::WorkerState,
    turn: shm_paint_worker::WorkerTurn,
    c: &mut shm_paint_worker::WorkerState,
    shown: bool,
    d: &mut shm_paint_worker::WorkerState,
    e: &mut shm_paint_worker::WorkerState,
    end: shm_paint_worker::WorkerTurn,
)
    requires
        old(a).wf() && old(d).wf(),
        call_ensures(shm_paint_worker::WorkerState::new, (viewport, visible), start),
        call_ensures(shm_paint_worker::WorkerState::resize, (a, lw, lh, pw, ph), ()),
        *b == *final(a),
        call_ensures(shm_paint_worker::run_worker, (b,), turn),
        call_ensures(shm_paint_worker::WorkerState::set_visible, (c, shown), ()),
        call_ensures(shm_paint_worker::WorkerState::shutdown, (d,), ()),
        *e == *final(d),
        call_ensures(shm_paint_worker::run_worker, (e,), end),
    ensures
        start.pending is None && start.viewport == viewport && start.visible == visible
            && !start.shutdown,
        !old(a).shutdown && old(a).visible && old(a).pending is Some ==> turn is Show
            && turn->Show_0 == old(a).pending->0 && turn->Show_1 == (ViewportState {
            lw,
            lh,
            pw,
            ph,
        }),
        !old(a).shutdown && !old(a).visible && old(a).pending is Some ==> turn is Skip,
        !old(a).shutdown && old(a).pending is None ==> turn is Wait,
        old(a).shutdown ==> turn is Exit,
        final(b).pending is None,
        final(c).visible == shown && final(c).viewport == old(c).viewport,
        shown ==> final(c).pending == old(c).pending,
        !shown ==> final(c).pending is None,
        end is Exit && final(d).pending is None,
{
}

proof fn lemma_place(row: int, stride: int, col: int)
    requires
        0 <= col < stride,
        0 <= row,
    ensures
        (row * stride + col) / stride == row,
        (row * stride + col) % stride == col,
        0 <= row * stride + col,
{
    vstd::arithmetic::div_mod::lemma_fundamental_div_mod_converse(
        row * stride + col,
        stride,
        row,
        col,
    );
    assert(0 <= row * stride) by (nonlinear_arith)
        requires
            0 <= row,
            0 <= stride,
    ;
}

/// A dirty rectangle is copied as far as it lies in the frame: its edges are
/// cut to the frame's, and every byte of it is the frame's at the same place.
/// Where no pixel lies in the frame nothing is copied.
pub proof fn law_dirty_part_is_copied(
    src: &[u8],
    width: i32,
    height: i32,
    rect: JfnRect,
    r: Option<PendingRect>,
    row: int,
    col: int,
)
    requires
        width > 0 && height > 0,
        src@.len() >= width * 4 * height,
        shm_paint_worker::has_edges(rect),
        call_ensures(shm_paint_worker::copy_dirty_rect, (src, width, height, &rect), r),
    ensures
        r matches Some(p) ==> {
            &&& 0 <= p.x && 0 <= p.y && p.w > 0 && p.h > 0
            &&& rect.x <= p.x && (p.x == 0 || p.x == rect.x)
            &&& rect.y <= p.y && (p.y == 0 || p.y == rect.y)
            &&& p.x + p.w <= width && p.x + p.w <= rect.x + rect.w
            &&& p.x + p.w == width || p.x + p.w == rect.x + rect.w
            &&& p.y + p.h <= height && p.y + p.h <= rect.y + rect.h
            &&& p.y + p.h == height || p.y + p.h == rect.y + rect.h
            &&& p.pixels@.len() == p.w * 4 * p.h
            &&& 0 <= row < p.h && 0 <= col < p.w * 4 ==> p.pixels@[row * (p.w * 4) + col]
                == src@[(p.y + row) * (width * 4) + (p.x * 4 + col)]
        },
        0 <= row < height && 0 <= col < width && rect.x <= col < rect.x + rect.w && rect.y <= row
            < rect.y + rect.h ==> r is Some,
        r is Some ==> rect.x < width && rect.y < height && rect.x + rect.w > 0 && rect.y + rect.h
            > 0,
{
    if let Some(p) = r {
        if 0 <= row < p.h && 0 <= col < p.w * 4 {
            lemma_place(row, p.w * 4, col);
            let k = row * (p.w * 4) + col;
            assert(k < p.w * 4 * p.h) by (nonlinear_arith)
                requires
                    0 <= row < p.h,
                    0 <= col < p.w * 4,
                    k == row * (p.w * 4) + col,
                    p.w > 0,
            ;
            assert(r->0@ == shm_paint_worker::patch_of(src@, width as int, height as int, rect)->0);
            assert(p@.pixels[k] == p.pixels@[k]);
        }
    }
}

/// The part of a buffer that lies in the window is shown, scaled as the window
/// is: by its logical size over its size in device pixels, rounded down.
pub proof fn law_buffer_is_scaled_as_the_window(
    v: ViewportState,
    w: i32,
    h: i32,
    r: Option<ViewportPlan>,
)
    requires
        v.lw > 0 && v.lh > 0 && v.pw > 0 && v.ph > 0 && w > 0 && h > 0,
        shm_paint_worker::least(w as int, v.pw as int) * v.lw <= i32::MAX,
        shm_paint_worker::least(h as int, v.ph as int) * v.lh <= i32::MAX,
        call_ensures(shm_paint_worker::set_viewport_for_buffer, (v, w, h), r),
    ensures
        r matches Some(p) && p.source matches Some(s) && {
            &&& s.0 <= w && s.0 <= v.pw && (s.0 == w || s.0 == v.pw)
            &&& s.1 <= h && s.1 <= v.ph && (s.1 == h || s.1 == v.ph)
            &&& p.destination.0 * v.pw <= s.0 * v.lw < (p.destination.0 + 1) * v.pw
            &&& p.destination.1 * v.ph <= s.1 * v.lh < (p.destination.1 + 1) * v.ph
            &&& w >= v.pw ==> p.destination.0 == v.lw
            &&& h >= v.ph ==> p.destination.1 == v.lh
        },
{
    let s = r->0.source->0;
    lemma_floor(s.0 * v.lw, v.pw as int);
    lemma_floor(s.1 * v.lh, v.ph as int);
    if w >= v.pw {
        shm_paint_worker::law_full_buffer_fills_window(w as int, v.lw as int, v.pw as int);
    }
    if h >= v.ph {
        shm_paint_worker::law_full_buffer_fills_window(h as int, v.lh as int, v.ph as int);
    }
}

proof fn lemma_floor(a: int, d: int)
    requires
        d > 0,
    ensures
        (a / d) * d <= a < (a / d + 1) * d,
{
    assert((a / d) * d <= a < (a / d + 1) * d) by (nonlinear_arith)
        requires
            d > 0,
    ;
}

/// While the window's size is unknown no viewport is set; a buffer without area
/// is stretched over the window.
pub proof fn law_viewport_needs_the_window(
    v: ViewportState,
    w: i32,
    h: i32,
    r: Option<ViewportPlan>,
)
    requires
        v.lw <= 0 || v.lh <= 0 || v.pw <= 0 || v.ph <= 0 || w <= 0 || h <= 0,
        call_ensures(shm_paint_worker::set_viewport_for_buffer, (v, w, h), r),
    ensures
        r is None == (v.lw <= 0 || v.lh <= 0 || v.pw <= 0 || v.ph <= 0),
        r matches Some(p) ==> p.source is None && p.destination.0 == v.lw && p.destination.1
            == v.lh,
{
}

/// A buffer is shown by attaching it, damaging it in full and committing it,
/// with the viewport set before; the buffer before it is given up, and no
/// other. The last one is destroyed at the end.
pub proof fn law_shown_buffer_replaces_the_one_before(
    a: &mut Presenter,
    buf: BufferId,
    plan: Option<ViewportPlan>,
    w: i32,
    h: i32,
    r: Vec<Request>,
    b: &mut Presenter,
    end: Vec<Request>,
    n: &mut Presenter,
    none: Vec<Request>,
    x: BufferId,
)
    requires
        call_ensures(Presenter::show, (a, Some(buf), plan, w, h), r),
        *b == *final(a),
        call_ensures(Presenter::exit, (b,), end),
        call_ensures(Presenter::show, (n, None, plan, w, h), none),
    ensures
        final(a).current == Some(buf),
        ({
            let k = r@.len();
            &&& k >= 5
            &&& r@[k - 5] == Request::Attach(buf)
            &&& r@[k - 4] == (Request::Damage { w, h })
            &&& r@[k - 3] == Request::Commit
            &&& r@[k - 2] == Request::Flush
            &&& r@[k - 1] == Request::RequestPresent
        }),
        r@.contains(Request::RetireBuffer(x)) == (old(a).current == Some(x)),
        plan matches Some(p) ==> {
            &&& r@.contains(
                Request::SetDestination { w: p.destination.0, h: p.destination.1 },
            )
            &&& p.source matches Some(s) ==> r@.contains(
                Request::SetSource { x: 0, y: 0, w: s.0, h: s.1 },
            )
        },
        end@.len() == 2 && end@[0] == Request::DestroyBuffer(buf) && end@[1] == Request::Flush,
        final(b).current is None,
        none@.len() == 0 && *final(n) == *old(n),
{
    let k = r@.len();
    assert(r@[k - 5] == Request::Attach(buf));
    if let Some(s) = old(a).current {
        assert(r@[0] == Request::RetireBuffer(s));
    }
    if let Some(p) = plan {
        assert(r@[k - 6] == (Request::SetDestination { w: p.destination.0, h: p.destination.1 }));
        if let Some(s) = p.source {
            assert(r@[k - 7] == (Request::SetSource { x: 0, y: 0, w: s.0, h: s.1 }));
        }
    }
    assert(k <= 8);
}

/// Whether a byte of a picture lies in a part of it.
pub open spec fn lies_in(p: PendingRect, row: int, col: int) -> bool {
    p.y <= row < p.y + p.h && p.x * 4 <= col < (p.x + p.w) * 4
}

proof fn lemma_untouched(shadow: Seq<u8>, width: int, ps: Seq<shm_paint_worker::Patch>, k: int)
    requires
        0 <= k < shadow.len(),
        forall|i: int|
            0 <= i < ps.len() ==> !shm_paint_worker::covers(
                #[trigger] ps[i],
                k / (width * 4),
                k % (width * 4),
            ),
    ensures
        shm_paint_worker::painted_all(shadow, width, ps).len() == shadow.len(),
        shm_paint_worker::painted_all(shadow, width, ps)[k] == shadow[k],
    decreases ps.len(),
{
    if ps.len() > 0 {
        let rest = ps.drop_last();
        assert forall|i: int| 0 <= i < rest.len() implies !shm_paint_worker::covers(
            #[trigger] rest[i],
            k / (width * 4),
            k % (width * 4),
        ) by {
            assert(rest[i] == ps[i]);
        }
        lemma_untouched(shadow, width, rest, k);
        assert(ps[ps.len() - 1] == ps.last());
    }
}

proof fn lemma_all_len(shadow: Seq<u8>, width: int, ps: Seq<shm_paint_worker::Patch>)
    ensures
        shm_paint_worker::painted_all(shadow, width, ps).len() == shadow.len(),
    decreases ps.len(),
{
    if ps.len() > 0 {
        lemma_all_len(shadow, width, ps.drop_last());
    }
}

/// The parts of a frame are painted over the picture: a byte outside all of them
/// stays, and one inside the last is that part's own, at the same place.
pub proof fn law_parts_are_painted_in_place(
    shadow: &mut Vec<u8>,
    frame: PendingFrame,
    row: int,
    col: int,
)
    requires
        frame.wf(),
        old(shadow)@.len() == frame.width * 4 * frame.height,
        call_ensures(shm_paint_worker::apply_dirty_to_shadow, (shadow, &frame), ()),
        0 <= row < frame.height,
        0 <= col < frame.width * 4,
    ensures
        final(shadow)@.len() == old(shadow)@.len(),
        ({
            let k = row * (frame.width * 4) + col;
            let n = frame.rects@.len();
            &&& (forall|i: int| 0 <= i < n ==> !lies_in(#[trigger] frame.rects@[i], row, col))
                ==> final(shadow)@[k] == old(shadow)@[k]
            &&& n > 0 && lies_in(frame.rects@[n - 1], row, col) ==> {
                let p = frame.rects@[n - 1];
                final(shadow)@[k] == p.pixels@[(row - p.y) * (p.w * 4) + (col - p.x * 4)]
            }
        }),
{
    let w = frame.width as int;
    let k = row * (w * 4) + col;
    let n = frame.rects@.len();
    let ps = shm_paint_worker::patches(frame.rects@);
    lemma_place(row, w * 4, col);
    assert(k < frame.width * 4 * frame.height) by (nonlinear_arith)
        requires
            0 <= row < frame.height,
            0 <= col < frame.width * 4,
            k == row * (frame.width * 4) + col,
    ;
    if forall|i: int| 0 <= i < n ==> !lies_in(#[trigger] frame.rects@[i], row, col) {
        assert forall|i: int| 0 <= i < ps.len() implies !shm_paint_worker::covers(
            #[trigger] ps[i],
            k / (w * 4),
            k % (w * 4),
        ) by {
            assert(!lies_in(frame.rects@[i], row, col));
        }
        lemma_untouched(old(shadow)@, w, ps, k);
    }
    if n > 0 && lies_in(frame.rects@[n - 1], row, col) {
        lemma_all_len(old(shadow)@, w, ps.drop_last());
        assert(ps.last() == frame.rects@[n - 1]@);
    }
}

} // verus!
