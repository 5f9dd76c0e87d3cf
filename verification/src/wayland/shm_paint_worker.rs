//! Presenter for software frames: paint callbacks hand over the dirty pixels
//! only, a worker keeps the full frame and shows it.
//!
//! A frame is 32 bits a pixel, rows from top to bottom without gaps.
use crate::platform_abi::JfnRect;
use crate::wayland::buffers::BufferId;
use crate::wayland::requests::Request;
use vstd::prelude::*;
use vstd::slice::{slice_subrange, slice_to_vec};

verus! {

/// A rectangle of a frame with its pixels.
#[derive(Debug)]
pub struct PendingRect {
    pub x: i32,
    pub y: i32,
    pub w: i32,
    pub h: i32,
    pub pixels: Vec<u8>,
}

/// A rectangle with its pixels, as a value.
#[verifier::ext_equal]
pub struct Patch {
    pub x: int,
    pub y: int,
    pub w: int,
    pub h: int,
    pub pixels: Seq<u8>,
}

impl View for PendingRect {
    type V = Patch;

    open spec fn view(&self) -> Patch {
        Patch {
            x: self.x as int,
            y: self.y as int,
            w: self.w as int,
            h: self.h as int,
            pixels: self.pixels@,
        }
    }
}

/// The patches of a list of rectangles.
pub open spec fn patches(rects: Seq<PendingRect>) -> Seq<Patch> {
    rects.map_values(|r: PendingRect| r@)
}

/// A frame that waits for the worker.
#[derive(Debug)]
pub struct PendingFrame {
    pub rects: Vec<PendingRect>,
    /// The whole frame, where the worker cannot build on the one it has.
    pub full_pixels: Option<Vec<u8>>,
    pub width: i32,
    pub height: i32,
}

/// The window's logical size and its size in device pixels.
#[derive(Clone, Copy, Debug, PartialEq, Eq, Structural)]
pub struct ViewportState {
    pub lw: i32,
    pub lh: i32,
    pub pw: i32,
    pub ph: i32,
}

/// What the callbacks and the worker share.
#[derive(Debug)]
pub struct WorkerState {
    pub pending: Option<PendingFrame>,
    /// Size of the last frame handed over.
    pub frame_size: (i32, i32),
    pub viewport: ViewportState,
    pub visible: bool,
    pub shutdown: bool,
}

/// Number of bytes of a frame.
pub open spec fn frame_len(width: int, height: int) -> int {
    width * 4 * height
}

/// Where the byte at `col` of `row` stands in rows of `stride` bytes.
pub open spec fn offset(row: int, stride: int, col: int) -> int {
    row * stride + col
}

/// A rectangle clipped to a frame, as left, top, right and bottom edge.
pub open spec fn clipped(rect: JfnRect, width: int, height: int) -> (int, int, int, int) {
    (
        if rect.x < 0 {
            0
        } else {
            rect.x as int
        },
        if rect.y < 0 {
            0
        } else {
            rect.y as int
        },
        if rect.x + rect.w > width {
            width
        } else {
            rect.x + rect.w
        },
        if rect.y + rect.h > height {
            height
        } else {
            rect.y + rect.h
        },
    )
}

/// Whether the far edges of a rectangle are representable.
pub open spec fn has_edges(rect: JfnRect) -> bool {
    i32::MIN <= rect.x + rect.w <= i32::MAX && i32::MIN <= rect.y + rect.h <= i32::MAX
}

/// The part of a dirty rectangle that lies in the frame, with its pixels;
/// none where no part does.
pub open spec fn patch_of(src: Seq<u8>, width: int, height: int, rect: JfnRect) -> Option<Patch> {
    let (x0, y0, x1, y1) = clipped(rect, width, height);
    if x1 <= x0 || y1 <= y0 {
        None
    } else {
        let row_bytes = (x1 - x0) * 4;
        Some(
            Patch {
                x: x0,
                y: y0,
                w: x1 - x0,
                h: y1 - y0,
                pixels: Seq::new(
                    frame_len(x1 - x0, y1 - y0) as nat,
                    |k: int|
                        src[offset(y0 + k / row_bytes, width * 4, x0 * 4 + k % row_bytes)],
                ),
            },
        )
    }
}

/// The patches of all dirty rectangles that touch the frame.
pub open spec fn patches_of(src: Seq<u8>, width: int, height: int, dirty: Seq<JfnRect>) -> Seq<
    Patch,
> {
    dirty.filter_map(|r: JfnRect| patch_of(src, width, height, r))
}

/// A rectangle that was copied, as a value.
pub open spec fn opt_patch(r: Option<PendingRect>) -> Option<Patch> {
    match r {
        Some(p) => Some(p@),
        None => None,
    }
}

/// Whether a patch lies within a frame and has its pixels.
pub open spec fn is_patch(p: Patch, width: int, height: int) -> bool {
    &&& 0 <= p.x && 0 <= p.y && 0 < p.w && 0 < p.h
    &&& p.x + p.w <= width && p.y + p.h <= height
    &&& p.pixels.len() == frame_len(p.w, p.h)
}

/// Offsets stay inside the rows they belong to.
proof fn lemma_offset(row: int, rows: int, stride: int, col: int)
    by (nonlinear_arith)
    requires
        0 <= row < rows,
        0 <= col < stride,
    ensures
        0 <= offset(row, stride, col) < rows * stride,
        offset(row, stride, 0) + stride <= rows * stride,
{
}

/// Different places have different offsets.
proof fn lemma_offset_unique(row1: int, col1: int, row2: int, col2: int, stride: int)
    by (nonlinear_arith)
    requires
        0 <= col1 < stride,
        0 <= col2 < stride,
        offset(row1, stride, col1) == offset(row2, stride, col2),
    ensures
        row1 == row2,
        col1 == col2,
{
}

/// Every index is some place.
proof fn lemma_place(k: int, rows: int, stride: int)
    by (nonlinear_arith)
    requires
        0 <= k < rows * stride,
        stride > 0,
    ensures
        0 <= k / stride < rows,
        0 <= k % stride < stride,
        offset(k / stride, stride, k % stride) == k,
{
}

proof fn lemma_frame_len(width: int, height: int)
    by (nonlinear_arith)
    requires
        0 <= width,
        0 <= height,
    ensures
        frame_len(width, height) == height * (width * 4),
        0 <= frame_len(width, height),
{
}

/// Copies the part of a dirty rectangle that lies in the frame; none where
/// no part does.
pub fn copy_dirty_rect(src: &[u8], width: i32, height: i32, rect: &JfnRect) -> (r: Option<
    PendingRect,
>)
    requires
        width > 0,
        height > 0,
        src@.len() >= frame_len(width as int, height as int),
        has_edges(*rect),
    ensures
        opt_patch(r) == patch_of(src@, width as int, height as int, *rect),
        r matches Some(p) ==> is_patch(p@, width as int, height as int),
{
    let mut rx = rect.x;
    let mut ry = rect.y;
    let mut rw = rect.w;
    let mut rh = rect.h;
    if rx < 0 {
        rw = rw + rx;
        rx = 0;
    }
    if ry < 0 {
        rh = rh + ry;
        ry = 0;
    }
    if rx + rw > width {
        rw = width - rx;
    }
    if ry + rh > height {
        rh = height - ry;
    }
    if rw <= 0 || rh <= 0 {
        return None;
    }
    let available: usize = src.len();
    proof {
        lemma_frame_len(width as int, height as int);
        lemma_frame_len(rw as int, rh as int);
        lemma_offset(height - 1, height as int, width * 4, 0);
        assert(width * 4 <= height * (width * 4)) by (nonlinear_arith)
            requires
                width > 0,
                height > 0,
        ;
    }
    let src_stride: usize = (width as usize) * 4;
    let row_bytes: usize = (rw as usize) * 4;
    let mut pixels: Vec<u8> = Vec::new();
    let mut row: i32 = 0;
    while row < rh
        invariant
            0 <= row <= rh,
            0 < rw,
            0 <= rx,
            0 <= ry,
            rx + rw <= width,
            ry + rh <= height,
            src_stride == width * 4,
            row_bytes == rw * 4,
            frame_len(width as int, height as int) == height * (width * 4),
            available == src@.len(),
            available >= frame_len(width as int, height as int),
            pixels@.len() == row * row_bytes,
            forall|r0: int, col: int|
                #![trigger offset(r0, rw * 4, col)]
                0 <= r0 < row && 0 <= col < rw * 4 ==> pixels@[offset(r0, rw * 4, col)]
                    == src@[offset(ry + r0, width * 4, rx * 4 + col)],
        decreases rh - row,
    {
        proof {
            lemma_offset(ry + row, height as int, width * 4, rx * 4 + row_bytes - 1);
            assert(((ry + row) as usize) * src_stride == (ry + row) * (width * 4));
        }
        let off: usize = ((ry + row) as usize) * src_stride + (rx as usize) * 4;
        let ghost before = pixels@;
        let line = slice_subrange(src, off, off + row_bytes);
        let mut line_vec = slice_to_vec(line);
        pixels.append(&mut line_vec);
        proof {
            assert forall|r0: int, col: int|
                #![trigger offset(r0, rw * 4, col)]
                0 <= r0 < row + 1 && 0 <= col < rw * 4 implies pixels@[offset(r0, rw * 4, col)]
                == src@[offset(ry + r0, width * 4, rx * 4 + col)] by {
                if r0 < row {
                    lemma_offset(r0, row as int, rw * 4, col);
                    assert(before[offset(r0, rw * 4, col)] == src@[offset(
                        ry + r0,
                        width * 4,
                        rx * 4 + col,
                    )]);
                } else {
                    assert(offset(r0, rw * 4, col) == before.len() + col);
                    assert(offset(ry + r0, width * 4, rx * 4 + col) == off + col);
                }
            }
            assert((row + 1) * row_bytes == row * row_bytes + row_bytes) by (nonlinear_arith);
        }
        row = row + 1;
    }
    let out = PendingRect { x: rx, y: ry, w: rw, h: rh, pixels };
    proof {
        let want = patch_of(src@, width as int, height as int, *rect)->0;
        assert(rh * row_bytes == frame_len(rw as int, rh as int)) by (nonlinear_arith)
            requires
                row_bytes == rw * 4,
                frame_len(rw as int, rh as int) == rh * (rw * 4),
        ;
        assert forall|k: int| 0 <= k < want.pixels.len() implies out.pixels@[k] == want.pixels[k] by {
            lemma_place(k, rh as int, rw * 4);
            assert(out.pixels@[offset(k / (rw * 4), rw * 4, k % (rw * 4))] == src@[offset(
                ry + k / (rw * 4),
                width * 4,
                rx * 4 + k % (rw * 4),
            )]);
        }
        assert(out@ =~= want);
    }
    Some(out)
}

impl PendingFrame {
    /// Whether all parts of the frame fit its size.
    pub open spec fn wf(&self) -> bool {
        &&& self.width > 0 && self.height > 0
        &&& frame_len(self.width as int, self.height as int) <= usize::MAX
        &&& self.full_pixels matches Some(full) ==> full@.len() == frame_len(
            self.width as int,
            self.height as int,
        )
        &&& forall|i: int|
            0 <= i < self.rects@.len() ==> is_patch(
                #[trigger] self.rects@[i]@,
                self.width as int,
                self.height as int,
            )
    }
}

/// Whether a waiting frame replaces the whole picture.
pub open spec fn waits_whole(pending: Option<PendingFrame>) -> bool {
    pending matches Some(f) && f.full_pixels is Some
}

/// The whole pixels of a frame that waits, as a value.
pub open spec fn whole_pixels(f: PendingFrame) -> Option<Seq<u8>> {
    match f.full_pixels {
        Some(p) => Some(p@),
        None => None,
    }
}

impl WorkerState {
    /// A worker that was given no frame.
    pub fn new(viewport: ViewportState, visible: bool) -> (r: Self)
        ensures
            r.pending is None,
            r.frame_size == (0i32, 0i32),
            r.viewport == viewport,
            r.visible == visible,
            !r.shutdown,
            r.wf(),
    {
        WorkerState { pending: None, frame_size: (0, 0), viewport, visible, shutdown: false }
    }

    /// Whether the waiting frame, if any, is well-formed.
    pub open spec fn wf(&self) -> bool {
        self.pending matches Some(f) ==> f.wf()
    }

    /// Takes in a new window size.
    pub fn resize(&mut self, lw: i32, lh: i32, pw: i32, ph: i32)
        ensures
            final(self).viewport == (ViewportState { lw, lh, pw, ph }),
            final(self).pending == old(self).pending,
            final(self).frame_size == old(self).frame_size,
            final(self).visible == old(self).visible,
            final(self).shutdown == old(self).shutdown,
    {
        self.viewport = ViewportState { lw, lh, pw, ph };
    }

    /// Shows or hides the surface. Hiding drops the waiting frame.
    pub fn set_visible(&mut self, visible: bool)
        ensures
            final(self).visible == visible,
            final(self).pending == if visible {
                old(self).pending
            } else {
                None
            },
            final(self).frame_size == old(self).frame_size,
            final(self).viewport == old(self).viewport,
            final(self).shutdown == old(self).shutdown,
    {
        self.visible = visible;
        if !visible {
            self.pending = None;
        }
    }

    /// Ends the worker and drops the waiting frame.
    pub fn shutdown(&mut self)
        ensures
            final(self).shutdown,
            final(self).pending is None,
            final(self).frame_size == old(self).frame_size,
            final(self).viewport == old(self).viewport,
            final(self).visible == old(self).visible,
    {
        self.shutdown = true;
        self.pending = None;
    }

    /// Hands over a frame. False where its size is not positive or `pixels`
    /// does not fill it; then, and where nothing of it is dirty, nothing
    /// waits that did not before.
    ///
    /// The whole frame goes along where the size differs from that of the
    /// frame before or a whole frame still waits; else only the dirty parts.
    pub fn submit_frame(&mut self, pixels: &[u8], width: i32, height: i32, dirty: &[JfnRect]) -> (r:
        bool)
        requires
            old(self).wf(),
            forall|i: int| 0 <= i < dirty@.len() ==> has_edges(#[trigger] dirty@[i]),
        ensures
            final(self).wf(),
            final(self).viewport == old(self).viewport,
            final(self).visible == old(self).visible,
            final(self).shutdown == old(self).shutdown,
            r == is_frame(pixels@, width, height),
            ({
                let whole = old(self).frame_size != (width, height) || waits_whole(
                    old(self).pending,
                );
                let parts = patches_of(pixels@, width as int, height as int, dirty@);
                if !is_frame(pixels@, width, height) || (!whole && parts.len() == 0) {
                    &&& final(self).pending == old(self).pending
                    &&& final(self).frame_size == old(self).frame_size
                } else {
                    &&& final(self).frame_size == (width, height)
                    &&& final(self).pending matches Some(f) && f.width == width && f.height
                        == height && patches(f.rects@) == parts && whole_pixels(f) == if whole {
                        Some(pixels@.take(frame_len(width as int, height as int)))
                    } else {
                        None
                    }
                }
            }),
    {
        let len: usize = match frame_bytes(pixels, width, height) {
            Some(n) => n,
            None => return false,
        };
        let waiting_whole = match &self.pending {
            Some(f) => f.full_pixels.is_some(),
            None => false,
        };
        let whole = self.frame_size.0 != width || self.frame_size.1 != height || waiting_whole;
        let full_pixels = if whole {
            Some(slice_to_vec(slice_subrange(pixels, 0, len)))
        } else {
            None
        };
        assert(pixels@.subrange(0, len as int) =~= pixels@.take(len as int));
        let rects = copy_dirty_rects(pixels, width, height, dirty);
        assert(patches(rects@).len() == rects@.len());
        if rects.len() == 0 && !whole {
            return true;
        }
        self.frame_size = (width, height);
        let frame = PendingFrame { rects, full_pixels, width, height };
        self.pending = Some(frame);
        true
    }
}

/// Whether a frame has a positive size and all its bytes.
pub open spec fn is_frame(pixels: Seq<u8>, width: i32, height: i32) -> bool {
    width > 0 && height > 0 && frame_len(width as int, height as int) <= pixels.len()
}

/// The number of bytes of a frame, where it has all of them.
fn frame_bytes(pixels: &[u8], width: i32, height: i32) -> (r: Option<usize>)
    ensures
        match r {
            Some(n) => is_frame(pixels@, width, height) && n == frame_len(
                width as int,
                height as int,
            ),
            None => !is_frame(pixels@, width, height),
        },
{
    if width <= 0 || height <= 0 {
        return None;
    }
    let available: usize = pixels.len();
    proof {
        lemma_frame_len(width as int, height as int);
        assert(width * 4 <= height * (width * 4)) by (nonlinear_arith)
            requires
                width > 0,
                height > 0,
        ;
    }
    let stride: usize = match (width as usize).checked_mul(4) {
        Some(s) => s,
        None => return None,
    };
    let len: usize = match (height as usize).checked_mul(stride) {
        Some(n) => n,
        None => return None,
    };
    if available < len {
        None
    } else {
        Some(len)
    }
}

/// Copies the parts of all dirty rectangles that lie in the frame.
fn copy_dirty_rects(pixels: &[u8], width: i32, height: i32, dirty: &[JfnRect]) -> (r: Vec<
    PendingRect,
>)
    requires
        is_frame(pixels@, width, height),
        forall|i: int| 0 <= i < dirty@.len() ==> has_edges(#[trigger] dirty@[i]),
    ensures
        patches(r@) == patches_of(pixels@, width as int, height as int, dirty@),
        forall|i: int|
            0 <= i < r@.len() ==> is_patch(#[trigger] r@[i]@, width as int, height as int),
{
    let mut rects: Vec<PendingRect> = Vec::new();
    for i in 0..dirty.len()
        invariant
            is_frame(pixels@, width, height),
            forall|i: int| 0 <= i < dirty@.len() ==> has_edges(#[trigger] dirty@[i]),
            patches(rects@) == patches_of(
                pixels@,
                width as int,
                height as int,
                dirty@.take(i as int),
            ),
            forall|i: int|
                0 <= i < rects@.len() ==> is_patch(
                    #[trigger] rects@[i]@,
                    width as int,
                    height as int,
                ),
    {
        let ghost before = rects@;
        assert(dirty@.take(i + 1).drop_last() =~= dirty@.take(i as int));
        assert(dirty@.take(i + 1).last() == dirty@[i as int]);
        match copy_dirty_rect(pixels, width, height, &dirty[i]) {
            Some(rect) => {
                rects.push(rect);
                assert(patches(rects@) =~= patches(before) + seq![rect@]);
            },
            None => {},
        }
    }
    assert(dirty@.take(dirty@.len() as int) =~= dirty@);
    rects
}

/// Whether the byte at `col` of `row` of a frame lies in a patch.
pub open spec fn covers(p: Patch, row: int, col: int) -> bool {
    p.y <= row < p.y + p.h && p.x * 4 <= col < (p.x + p.w) * 4
}

/// A picture after the first `rows` rows of a patch were painted over it.
pub open spec fn painted_rows(shadow: Seq<u8>, width: int, p: Patch, rows: int) -> Seq<u8> {
    let stride = width * 4;
    Seq::new(
        shadow.len(),
        |k: int|
            if covers(p, k / stride, k % stride) && k / stride < p.y + rows {
                p.pixels[offset(k / stride - p.y, p.w * 4, k % stride - p.x * 4)]
            } else {
                shadow[k]
            },
    )
}

/// A picture after a patch was painted over it.
pub open spec fn painted(shadow: Seq<u8>, width: int, p: Patch) -> Seq<u8> {
    painted_rows(shadow, width, p, p.h)
}

/// A picture after patches were painted over it, one after the other.
pub open spec fn painted_all(shadow: Seq<u8>, width: int, ps: Seq<Patch>) -> Seq<u8>
    decreases ps.len(),
{
    if ps.len() == 0 {
        shadow
    } else {
        painted(painted_all(shadow, width, ps.drop_last()), width, ps.last())
    }
}

proof fn lemma_painted_len(shadow: Seq<u8>, width: int, ps: Seq<Patch>)
    ensures
        painted_all(shadow, width, ps).len() == shadow.len(),
    decreases ps.len(),
{
    if ps.len() > 0 {
        lemma_painted_len(shadow, width, ps.drop_last());
    }
}

/// Overwrites `n` bytes from `dst_off` on.
fn write_row(shadow: &mut Vec<u8>, dst_off: usize, src: &Vec<u8>, src_off: usize, n: usize)
    requires
        dst_off + n <= old(shadow)@.len(),
        src_off + n <= src@.len(),
    ensures
        final(shadow)@ == Seq::new(
            old(shadow)@.len(),
            |k: int|
                if dst_off <= k < dst_off + n {
                    src@[src_off + k - dst_off]
                } else {
                    old(shadow)@[k]
                },
        ),
{
    let room: usize = shadow.len();
    let held: usize = src.len();
    let mut i: usize = 0;
    while i < n
        invariant
            i <= n,
            room == shadow@.len(),
            held == src@.len(),
            dst_off + n <= room,
            src_off + n <= held,
            shadow@.len() == old(shadow)@.len(),
            forall|k: int|
                0 <= k < shadow@.len() ==> shadow@[k] == if dst_off <= k < dst_off + i {
                    src@[src_off + k - dst_off]
                } else {
                    old(shadow)@[k]
                },
        decreases n - i,
    {
        shadow.set(dst_off + i, src[src_off + i]);
        i = i + 1;
    }
    assert(shadow@ =~= Seq::new(
        old(shadow)@.len(),
        |k: int|
            if dst_off <= k < dst_off + n {
                src@[src_off + k - dst_off]
            } else {
                old(shadow)@[k]
            },
    ));
}

/// Paints one patch over the picture.
fn paint_rect(shadow: &mut Vec<u8>, width: i32, height: i32, rect: &PendingRect)
    requires
        width > 0,
        height > 0,
        old(shadow)@.len() == frame_len(width as int, height as int),
        is_patch(rect@, width as int, height as int),
    ensures
        final(shadow)@ == painted(old(shadow)@, width as int, rect@),
{
    let available: usize = shadow.len();
    let held: usize = rect.pixels.len();
    let ghost p = rect@;
    let ghost stride = width * 4;
    proof {
        lemma_frame_len(width as int, height as int);
        lemma_frame_len(p.w, p.h);
        lemma_offset(height - 1, height as int, stride, 0);
        lemma_offset(p.h - 1, p.h, p.w * 4, 0);
        assert(painted_rows(shadow@, width as int, p, 0) =~= shadow@);
        assert(stride <= height * stride) by (nonlinear_arith)
            requires
                height > 0,
                stride > 0,
        ;
        assert(p.w * 4 <= p.h * (p.w * 4)) by (nonlinear_arith)
            requires
                p.h > 0,
                p.w > 0,
        ;
    }
    let dst_stride: usize = (width as usize) * 4;
    let row_bytes: usize = (rect.w as usize) * 4;
    let mut row: i32 = 0;
    while row < rect.h
        invariant
            0 <= row <= rect.h,
            width > 0,
            p == rect@,
            stride == width * 4,
            dst_stride == stride,
            row_bytes == p.w * 4,
            available == frame_len(width as int, height as int),
            frame_len(width as int, height as int) == height * stride,
            frame_len(p.w, p.h) == p.h * (p.w * 4),
            held == rect.pixels@.len(),
            is_patch(p, width as int, height as int),
            old(shadow)@.len() == available,
            shadow@ == painted_rows(old(shadow)@, width as int, p, row as int),
        decreases rect.h - row,
    {
        proof {
            lemma_offset(row as int, p.h, p.w * 4, 0);
            lemma_offset(p.y + row, height as int, stride, p.x * 4 + p.w * 4 - 1);
            assert((row as usize) * row_bytes == row * (p.w * 4));
            assert(((p.y + row) as usize) * dst_stride == (p.y + row) * stride);
        }
        let src_off: usize = (row as usize) * row_bytes;
        let dst_off: usize = ((rect.y + row) as usize) * dst_stride + (rect.x as usize) * 4;
        let ghost before = shadow@;
        write_row(shadow, dst_off, &rect.pixels, src_off, row_bytes);
        proof {
            let want = painted_rows(old(shadow)@, width as int, p, row + 1);
            assert forall|k: int| 0 <= k < available implies shadow@[k] == want[k] by {
                lemma_place(k, height as int, stride);
                let r0 = k / stride;
                let c0 = k % stride;
                if r0 == p.y + row {
                    assert(k == (p.y + row) * stride + c0);
                    if covers(p, r0, c0) {
                        assert(dst_off <= k < dst_off + row_bytes);
                        assert(src_off + k - dst_off == offset(
                            r0 - p.y,
                            p.w * 4,
                            c0 - p.x * 4,
                        ));
                    }
                } else if dst_off <= k < dst_off + row_bytes {
                    lemma_offset_unique(
                        r0,
                        c0,
                        p.y + row,
                        k - (p.y + row) * stride,
                        stride,
                    );
                }
            }
            assert(shadow@ =~= want);
        }
        row = row + 1;
    }
}

/// Paints all patches of a frame over the picture.
pub fn apply_dirty_to_shadow(shadow: &mut Vec<u8>, frame: &PendingFrame)
    requires
        frame.wf(),
        old(shadow)@.len() == frame_len(frame.width as int, frame.height as int),
    ensures
        final(shadow)@ == painted_all(old(shadow)@, frame.width as int, patches(frame.rects@)),
        final(shadow)@.len() == old(shadow)@.len(),
{
    let ghost ps = patches(frame.rects@);
    for i in 0..frame.rects.len()
        invariant
            frame.wf(),
            ps == patches(frame.rects@),
            old(shadow)@.len() == frame_len(frame.width as int, frame.height as int),
            shadow@ == painted_all(old(shadow)@, frame.width as int, ps.take(i as int)),
            shadow@.len() == old(shadow)@.len(),
    {
        paint_rect(shadow, frame.width, frame.height, &frame.rects[i]);
        assert(ps.take(i + 1).drop_last() =~= ps.take(i as int));
        assert(ps.take(i + 1).last() == frame.rects@[i as int]@);
    }
    assert(ps.take(ps.len() as int) =~= ps);
}

/// The picture that the worker shows, and its size.
#[derive(Debug)]
pub struct Shadow {
    pub pixels: Vec<u8>,
    pub size: (i32, i32),
}

impl Default for Shadow {
    fn default() -> (r: Self)
        ensures
            r.pixels@ == Seq::<u8>::empty(),
            r.size == (0i32, 0i32),
            r.wf(),
    {
        Shadow { pixels: Vec::new(), size: (0, 0) }
    }
}

/// The picture that a frame is painted on: the one at hand where it has the
/// frame's size, else a black one.
pub open spec fn ground(pixels: Seq<u8>, size: (i32, i32), width: i32, height: i32) -> Seq<u8> {
    if size == (width, height) {
        pixels
    } else {
        Seq::new(frame_len(width as int, height as int) as nat, |k: int| 0u8)
    }
}

/// The picture after a frame was taken in.
pub open spec fn shown(
    pixels: Seq<u8>,
    size: (i32, i32),
    width: i32,
    height: i32,
    whole: Option<Seq<u8>>,
    parts: Seq<Patch>,
) -> Seq<u8> {
    painted_all(
        match whole {
            Some(w) => w,
            None => ground(pixels, size, width, height),
        },
        width as int,
        parts,
    )
}

impl Shadow {
    /// Whether the picture has the bytes that its size asks for.
    pub open spec fn wf(&self) -> bool {
        self.size.0 >= 0 && self.size.1 >= 0 && self.pixels@.len() == frame_len(
            self.size.0 as int,
            self.size.1 as int,
        )
    }

    /// Takes a frame into the picture.
    pub fn take_in(&mut self, frame: PendingFrame)
        requires
            old(self).wf(),
            frame.wf(),
        ensures
            final(self).wf(),
            final(self).size == (frame.width, frame.height),
            final(self).pixels@ == shown(
                old(self).pixels@,
                old(self).size,
                frame.width,
                frame.height,
                whole_pixels(frame),
                patches(frame.rects@),
            ),
    {
        let mut frame = frame;
        if self.size.0 != frame.width || self.size.1 != frame.height {
            proof {
                lemma_frame_len(frame.width as int, frame.height as int);
                assert(frame.width * 4 <= frame.height * (frame.width * 4)) by (nonlinear_arith)
                    requires
                        frame.width > 0,
                        frame.height > 0,
                ;
            }
            let stride: usize = (frame.width as usize) * 4;
            let size: usize = (frame.height as usize) * stride;
            let mut pixels: Vec<u8> = Vec::new();
            pixels.resize(size, 0);
            assert(pixels@ =~= Seq::new(size as nat, |k: int| 0u8));
            self.pixels = pixels;
            self.size = (frame.width, frame.height);
        }
        assert(self.pixels@ =~= ground(
            old(self).pixels@,
            old(self).size,
            frame.width,
            frame.height,
        ));
        if let Some(full) = frame.full_pixels.take() {
            self.pixels = full;
        }
        apply_dirty_to_shadow(&mut self.pixels, &frame);
    }
}

/// What the worker does next.
#[derive(Debug)]
pub enum WorkerTurn {
    /// Sleep until woken.
    Wait,
    /// End, destroying the buffer that is shown.
    Exit,
    /// The waiting frame came while the surface was hidden: drop it.
    Skip,
    /// Show this frame with this window size.
    Show(PendingFrame, ViewportState),
}

/// One turn of the worker: takes the waiting frame, if any.
pub fn run_worker(state: &mut WorkerState) -> (r: WorkerTurn)
    requires
        old(state).wf(),
    ensures
        final(state).wf(),
        final(state).pending is None,
        final(state).frame_size == old(state).frame_size,
        final(state).viewport == old(state).viewport,
        final(state).visible == old(state).visible,
        final(state).shutdown == old(state).shutdown,
        r == if old(state).shutdown {
            WorkerTurn::Exit
        } else {
            match old(state).pending {
                None => WorkerTurn::Wait,
                Some(f) => if old(state).visible {
                    WorkerTurn::Show(f, old(state).viewport)
                } else {
                    WorkerTurn::Skip
                },
            }
        },
{
    let frame = state.pending.take();
    if state.shutdown {
        return WorkerTurn::Exit;
    }
    match frame {
        None => WorkerTurn::Wait,
        Some(f) => if state.visible {
            WorkerTurn::Show(f, state.viewport)
        } else {
            WorkerTurn::Skip
        },
    }
}

/// What the viewport is set to: the source extent, where one is set, and the
/// destination.
#[derive(Clone, Copy, Debug, PartialEq, Eq)]
pub struct ViewportPlan {
    pub source: Option<(i32, i32)>,
    pub destination: (i32, i32),
}

/// The smaller of two numbers.
pub open spec fn least(a: int, b: int) -> int {
    if a < b {
        a
    } else {
        b
    }
}

/// Shows the part of a buffer that lies in the window, scaled to logical
/// pixels; none while the window's size is unknown.
pub fn set_viewport_for_buffer(state: ViewportState, w: i32, h: i32) -> (r: Option<ViewportPlan>)
    requires
        state.lw > 0 && state.lh > 0 && state.pw > 0 && state.ph > 0 && w > 0 && h > 0 ==> least(
            w as int,
            state.pw as int,
        ) * state.lw <= i32::MAX && least(h as int, state.ph as int) * state.lh <= i32::MAX,
    ensures
        match r {
            None => state.pw <= 0 || state.ph <= 0 || state.lw <= 0 || state.lh <= 0,
            Some(p) => {
                &&& state.pw > 0 && state.ph > 0 && state.lw > 0 && state.lh > 0
                &&& if w > 0 && h > 0 {
                    let src_w = least(w as int, state.pw as int);
                    let src_h = least(h as int, state.ph as int);
                    &&& p.source matches Some(s) && s.0 == src_w && s.1 == src_h
                    &&& p.destination.0 == src_w * state.lw / state.pw as int
                    &&& p.destination.1 == src_h * state.lh / state.ph as int
                } else {
                    p.source is None && p.destination == (state.lw, state.lh)
                }
            },
        },
{
    if state.pw <= 0 || state.ph <= 0 || state.lw <= 0 || state.lh <= 0 {
        return None;
    }
    if w > 0 && h > 0 {
        let src_w = if w < state.pw {
            w
        } else {
            state.pw
        };
        let src_h = if h < state.ph {
            h
        } else {
            state.ph
        };
        proof {
            assert(0 <= src_w * state.lw) by (nonlinear_arith)
                requires
                    src_w > 0,
                    state.lw > 0,
            ;
            assert(0 <= src_h * state.lh) by (nonlinear_arith)
                requires
                    src_h > 0,
                    state.lh > 0,
            ;
        }
        let dst_w: i32 = src_w * state.lw / state.pw;
        let dst_h: i32 = src_h * state.lh / state.ph;
        Some(ViewportPlan { source: Some((src_w, src_h)), destination: (dst_w, dst_h) })
    } else {
        Some(ViewportPlan { source: None, destination: (state.lw, state.lh) })
    }
}

/// The buffer that the worker shows.
#[derive(Clone, Copy, Debug, PartialEq, Eq)]
pub struct Presenter {
    pub current: Option<BufferId>,
}

/// What shows a new buffer: the one before is given up, the viewport set, the
/// buffer attached, damaged and committed, and the root's owner asked for its
/// commit.
pub open spec fn show_requests(
    before: Option<BufferId>,
    buf: BufferId,
    plan: Option<ViewportPlan>,
    w: i32,
    h: i32,
) -> Seq<Request> {
    (match before {
        Some(b) => seq![Request::RetireBuffer(b)],
        None => Seq::empty(),
    }) + (match plan {
        Some(p) => (match p.source {
            Some(s) => seq![Request::SetSource { x: 0, y: 0, w: s.0, h: s.1 }],
            None => Seq::empty(),
        }).push(Request::SetDestination { w: p.destination.0, h: p.destination.1 }),
        None => Seq::empty(),
    }) + seq![
        Request::Attach(buf),
        Request::Damage { w, h },
        Request::Commit,
        Request::Flush,
        Request::RequestPresent,
    ]
}

impl Presenter {
    /// Shows the picture in a new buffer. `plan` is what the viewport is set
    /// to, where there is one. A buffer that could not be made leaves all as
    /// it is.
    pub fn show(&mut self, buf: Option<BufferId>, plan: Option<ViewportPlan>, w: i32, h: i32) -> (r:
        Vec<Request>)
        ensures
            match buf {
                None => r@ == Seq::<Request>::empty() && *final(self) == *old(self),
                Some(b) => r@ == show_requests(old(self).current, b, plan, w, h)
                    && final(self).current == Some(b),
            },
    {
        let mut out: Vec<Request> = Vec::new();
        let b = match buf {
            Some(b) => b,
            None => return out,
        };
        if let Some(shown) = self.current {
            out.push(Request::RetireBuffer(shown));
        }
        if let Some(p) = plan {
            if let Some(s) = p.source {
                out.push(Request::SetSource { x: 0, y: 0, w: s.0, h: s.1 });
            }
            out.push(Request::SetDestination { w: p.destination.0, h: p.destination.1 });
        }
        out.push(Request::Attach(b));
        out.push(Request::Damage { w, h });
        out.push(Request::Commit);
        out.push(Request::Flush);
        out.push(Request::RequestPresent);
        assert(out@ =~= show_requests(self.current, b, plan, w, h));
        self.current = Some(b);
        out
    }

    /// Ends the worker: the buffer that is shown is destroyed.
    pub fn exit(&mut self) -> (r: Vec<Request>)
        ensures
            final(self).current is None,
            r@ == (match old(self).current {
                Some(b) => seq![Request::DestroyBuffer(b)],
                None => Seq::empty(),
            }).push(Request::Flush),
    {
        let mut out: Vec<Request> = Vec::new();
        if let Some(b) = self.current.take() {
            out.push(Request::DestroyBuffer(b));
        }
        out.push(Request::Flush);
        assert(out@ =~= (match old(self).current {
            Some(b) => seq![Request::DestroyBuffer(b)],
            None => Seq::empty(),
        }).push(Request::Flush));
        out
    }
}

/// A buffer that covers the window is scaled to exactly the logical size.
pub proof fn law_full_buffer_fills_window(extent: int, logical: int, physical: int)
    requires
        physical > 0,
        logical > 0,
        extent >= physical,
    ensures
        least(extent, physical) * logical / physical == logical,
{
    assert(physical * logical / physical == logical) by (nonlinear_arith)
        requires
            physical > 0,
    ;
}

/// Whether some rectangle of the list covers the byte at `col` of `row`.
pub open spec fn is_dirty(
    width: int,
    height: int,
    dirty: Seq<JfnRect>,
    row: int,
    col: int,
) -> bool {
    exists|i: int|
        0 <= i < dirty.len() && in_rect(clipped(#[trigger] dirty[i], width, height), row, col)
}

/// Whether the byte at `col` of `row` lies between the edges of a rectangle.
pub open spec fn in_rect(edges: (int, int, int, int), row: int, col: int) -> bool {
    edges.1 <= row < edges.3 && edges.0 * 4 <= col < edges.2 * 4
}

proof fn lemma_painted_from(
    shadow: Seq<u8>,
    src: Seq<u8>,
    width: int,
    height: int,
    dirty: Seq<JfnRect>,
    k: int,
)
    requires
        width > 0,
        height > 0,
        shadow.len() == frame_len(width, height),
        0 <= k < shadow.len(),
    ensures
        ({
            let out = painted_all(shadow, width, patches_of(src, width, height, dirty));
            &&& out.len() == shadow.len()
            &&& out[k] == if is_dirty(width, height, dirty, k / (width * 4), k % (width * 4)) {
                src[k]
            } else {
                shadow[k]
            }
        }),
    decreases dirty.len(),
{
    let stride = width * 4;
    let row = k / stride;
    let col = k % stride;
    lemma_frame_len(width, height);
    lemma_place(k, height, stride);
    let ps = patches_of(src, width, height, dirty);
    lemma_painted_len(shadow, width, ps);
    if dirty.len() > 0 {
        let rest = dirty.drop_last();
        let last = dirty.last();
        lemma_painted_from(shadow, src, width, height, rest, k);
        let before = patches_of(src, width, height, rest);
        assert forall|i: int| 0 <= i < rest.len() implies rest[i] == dirty[i] by {}
        if is_dirty(width, height, rest, row, col) {
            let i = choose|i: int|
                0 <= i < rest.len() && in_rect(clipped(#[trigger] rest[i], width, height), row, col);
            assert(in_rect(clipped(dirty[i], width, height), row, col));
        }
        if is_dirty(width, height, dirty, row, col) {
            let i = choose|i: int|
                0 <= i < dirty.len() && in_rect(
                    clipped(#[trigger] dirty[i], width, height),
                    row,
                    col,
                );
            if i < rest.len() {
                assert(in_rect(clipped(rest[i], width, height), row, col));
            } else {
                assert(dirty[i] == last);
            }
        }
        match patch_of(src, width, height, last) {
            Some(p) => {
                assert(ps == before + seq![p]);
                assert(ps.drop_last() =~= before);
                assert(ps.last() == p);
                lemma_frame_len(p.w, p.h);
                if covers(p, row, col) {
                    let r = row - p.y;
                    let c = col - p.x * 4;
                    lemma_offset(r, p.h, p.w * 4, c);
                    let q = offset(r, p.w * 4, c);
                    lemma_place(q, p.h, p.w * 4);
                    lemma_offset_unique(q / (p.w * 4), q % (p.w * 4), r, c, p.w * 4);
                    assert(p.pixels[q] == src[offset(p.y + r, stride, p.x * 4 + c)]);
                    assert(in_rect(clipped(last, width, height), row, col));
                    assert(last == dirty[dirty.len() - 1]);
                }
            },
            None => {
                assert(ps == before);
            },
        }
    } else {
        assert(ps =~= Seq::empty());
    }
}

/// Handing over only the dirty parts loses nothing: where the picture at hand
/// differs from a frame in dirty places alone, it equals the frame once the
/// parts are painted over it.
pub proof fn law_dirty_parts_restore_frame(
    shadow: Seq<u8>,
    src: Seq<u8>,
    width: int,
    height: int,
    dirty: Seq<JfnRect>,
)
    requires
        width > 0,
        height > 0,
        shadow.len() == frame_len(width, height),
        src.len() == frame_len(width, height),
        forall|k: int|
            0 <= k < shadow.len() && !is_dirty(
                width,
                height,
                dirty,
                k / (width * 4),
                k % (width * 4),
            ) ==> #[trigger] shadow[k] == src[k],
    ensures
        painted_all(shadow, width, patches_of(src, width, height, dirty)) == src,
{
    let out = painted_all(shadow, width, patches_of(src, width, height, dirty));
    lemma_painted_len(shadow, width, patches_of(src, width, height, dirty));
    assert forall|k: int| 0 <= k < out.len() implies out[k] == src[k] by {
        lemma_painted_from(shadow, src, width, height, dirty, k);
        assert(shadow[k] == shadow[k]);
    }
    assert(out =~= src);
}

/// A whole frame is shown as it is: its own dirty parts change nothing in it.
pub proof fn law_whole_frame_is_shown(
    pixels: Seq<u8>,
    size: (i32, i32),
    src: Seq<u8>,
    width: i32,
    height: i32,
    dirty: Seq<JfnRect>,
)
    requires
        width > 0,
        height > 0,
        src.len() == frame_len(width as int, height as int),
    ensures
        shown(
            pixels,
            size,
            width,
            height,
            Some(src),
            patches_of(src, width as int, height as int, dirty),
        ) == src,
{
    law_dirty_parts_restore_frame(src, src, width as int, height as int, dirty);
}

} // verus!
