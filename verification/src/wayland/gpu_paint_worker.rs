//! Presenter for software frames through the GPU: the paint callback leaves
//! the newest frame, a worker uploads it.
use crate::platform_abi::JfnRect;
use vstd::prelude::*;
use vstd::slice::{slice_subrange, slice_to_vec};

verus! {

/// A frame that waits for the worker.
#[derive(Debug)]
pub struct PendingFrame {
    pub pixels: Vec<u8>,
    pub dirty: Vec<JfnRect>,
    pub width: u32,
    pub height: u32,
    pub stride: u32,
}

/// What the callbacks and the worker share.
#[derive(Debug)]
pub struct WorkerState {
    pub pending: Option<PendingFrame>,
    pub target_size: (u32, u32),
    pub visible: bool,
    pub shutdown: bool,
}

/// Bytes of one row; the largest number there is where it does not fit.
pub open spec fn row_stride(width: u32) -> u32 {
    if width * 4 > u32::MAX {
        u32::MAX
    } else {
        (width * 4) as u32
    }
}

/// Whether `pixels` fills a frame.
pub open spec fn fills(pixels: Seq<u8>, width: u32, height: u32) -> bool {
    height * row_stride(width) <= pixels.len()
}

/// Whether `after` is `before` once a frame was handed over: the frame waits
/// in place of the one before it, or is ignored where `pixels` does not fill
/// it.
pub open spec fn handed_over(
    before: WorkerState,
    after: WorkerState,
    pixels: Seq<u8>,
    width: u32,
    height: u32,
    dirty: Vec<JfnRect>,
) -> bool {
    &&& after.target_size == before.target_size
    &&& after.visible == before.visible
    &&& after.shutdown == before.shutdown
    &&& if fills(pixels, width, height) {
        after.pending matches Some(f) && f.pixels@ == pixels.take(height * row_stride(width))
            && f.dirty == dirty && f.width == width && f.height == height && f.stride == row_stride(
            width,
        )
    } else {
        after.pending == before.pending
    }
}

impl WorkerState {
    /// A worker that was given no frame.
    pub fn new(size: (u32, u32), visible: bool) -> (r: Self)
        ensures
            r.pending is None,
            r.target_size == size,
            r.visible == visible,
            !r.shutdown,
    {
        WorkerState { pending: None, target_size: size, visible, shutdown: false }
    }

    /// Takes in a new target size. One without area is ignored.
    pub fn resize(&mut self, size: (u32, u32))
        ensures
            *final(self) == (WorkerState {
                target_size: if size.0 == 0 || size.1 == 0 {
                    old(self).target_size
                } else {
                    size
                },
                ..*old(self)
            }),
    {
        if size.0 == 0 || size.1 == 0 {
            return;
        }
        self.target_size = size;
    }

    /// Shows or hides the surface.
    pub fn set_visible(&mut self, visible: bool)
        ensures
            *final(self) == (WorkerState { visible, ..*old(self) }),
    {
        self.visible = visible;
    }

    /// Hands over a frame, in place of one that still waits. A frame that
    /// `pixels` does not fill is ignored.
    pub fn submit_frame(&mut self, pixels: &[u8], width: u32, height: u32, dirty: Vec<JfnRect>)
        ensures
            handed_over(*old(self), *final(self), pixels@, width, height, dirty),
    {
        let available: usize = pixels.len();
        let stride: u32 = match width.checked_mul(4) {
            Some(s) => s,
            None => u32::MAX,
        };
        assert(0 <= height * stride) by (nonlinear_arith)
            requires
                height >= 0,
                stride >= 0,
        ;
        let len: usize = match (height as usize).checked_mul(stride as usize) {
            Some(n) => n,
            None => return,
        };
        if available < len {
            return;
        }
        let held = slice_to_vec(slice_subrange(pixels, 0, len));
        assert(held@ =~= pixels@.take(len as int));
        self.pending = Some(PendingFrame { pixels: held, dirty, width, height, stride });
    }

    /// Ends the worker and drops the waiting frame.
    pub fn shutdown(&mut self)
        ensures
            *final(self) == (WorkerState { pending: None, shutdown: true, ..*old(self) }),
    {
        self.shutdown = true;
        self.pending = None;
    }
}

/// Only the latest frame counts: a frame that still waits leaves no trace once
/// another is handed over.
pub proof fn law_latest_frame_wins(
    before: WorkerState,
    between: WorkerState,
    after: WorkerState,
    first: Seq<u8>,
    first_size: (u32, u32),
    first_dirty: Vec<JfnRect>,
    last: Seq<u8>,
    last_size: (u32, u32),
    last_dirty: Vec<JfnRect>,
)
    requires
        handed_over(before, between, first, first_size.0, first_size.1, first_dirty),
        handed_over(between, after, last, last_size.0, last_size.1, last_dirty),
        fills(last, last_size.0, last_size.1),
    ensures
        handed_over(before, after, last, last_size.0, last_size.1, last_dirty),
{
}

/// What the worker does next.
#[derive(Debug)]
pub enum WorkerTurn {
    /// Sleep until woken.
    Wait,
    /// End, shutting the painter down if there is one.
    Exit,
    /// The waiting frame came while the surface was hidden: drop it.
    Skip,
    /// Make a painter of the frame's size first where `create` is set and
    /// drop the frame where that fails; then paint it at the target size.
    Paint { frame: PendingFrame, target: (u32, u32), create: bool },
}

/// One turn of the worker: takes the waiting frame, if any.
pub fn run_worker(state: &mut WorkerState, has_painter: bool) -> (r: WorkerTurn)
    ensures
        *final(state) == (WorkerState { pending: None, ..*old(state) }),
        r == if old(state).shutdown {
            WorkerTurn::Exit
        } else {
            match old(state).pending {
                None => WorkerTurn::Wait,
                Some(frame) => if old(state).visible {
                    WorkerTurn::Paint {
                        frame,
                        target: old(state).target_size,
                        create: !has_painter,
                    }
                } else {
                    WorkerTurn::Skip
                },
            }
        },
{
    let frame = state.pending.take();
    if state.shutdown {
        return WorkerTurn::Exit;
    }
    match frame {
        None => WorkerTurn::Wait,
        Some(frame) => if state.visible {
            WorkerTurn::Paint { frame, target: state.target_size, create: !has_painter }
        } else {
            WorkerTurn::Skip
        },
    }
}

} // verus!
