//! Buffers shared with the compositor: when one may be destroyed, and the
//! layout of the shared-memory ones.
//!
//! The compositor goes on reading a buffer for a frame after it was replaced.
//! Destroying or reusing one before its release shows a blank frame.
use crate::wayland::requests;
use crate::wayland::requests::{push_when, Request};
use vstd::prelude::*;

verus! {

/// Name of a buffer object.
pub type BufferId = u64;

/// A buffer and where it stands.
#[derive(Clone, Copy, Debug, PartialEq, Eq, Structural)]
pub struct ManagedBuffer {
    pub buf: BufferId,
    /// The compositor does not read it.
    pub released: bool,
    /// To be destroyed on release.
    pub doomed: bool,
}

/// The buffers whose release is waited for or was seen, in no order that
/// matters as long as none is tracked twice. Of several entries of one buffer
/// the first counts.
#[derive(Debug)]
pub struct ManagedBuffers {
    entries: Vec<ManagedBuffer>,
}

/// What became of a retired buffer.
#[derive(Clone, Copy, Debug, PartialEq, Eq, Structural)]
pub enum Retired {
    /// Destroy it now.
    Destroy,
    /// It is destroyed on release.
    Deferred,
    /// It was never tracked: a release may have been missed. It is kept and
    /// destroyed on the next one.
    Untracked,
}

impl View for ManagedBuffers {
    type V = Seq<ManagedBuffer>;

    closed spec fn view(&self) -> Seq<ManagedBuffer> {
        self.entries@
    }
}

impl Default for ManagedBuffers {
    fn default() -> (r: Self)
        ensures
            r@ == Seq::<ManagedBuffer>::empty(),
    {
        ManagedBuffers { entries: Vec::new() }
    }
}

/// The first entry of a buffer, from an index on.
pub open spec fn first_from(m: Seq<ManagedBuffer>, buf: BufferId, i: int) -> Option<int>
    decreases m.len() - i,
{
    if i < 0 || i >= m.len() {
        None
    } else if m[i].buf == buf {
        Some(i)
    } else {
        first_from(m, buf, i + 1)
    }
}

/// The first entry of a buffer.
pub open spec fn first_of(m: Seq<ManagedBuffer>, buf: BufferId) -> Option<int> {
    first_from(m, buf, 0)
}

/// The entries without one of them: the last takes its place.
pub open spec fn without(m: Seq<ManagedBuffer>, i: int) -> Seq<ManagedBuffer> {
    m.update(i, m.last()).drop_last()
}

/// The buffers with a new one, which the compositor does not read yet.
pub open spec fn with_new(m: Seq<ManagedBuffer>, buf: BufferId) -> Seq<ManagedBuffer> {
    m.push(ManagedBuffer { buf, released: true, doomed: false })
}

/// The buffers after one was attached.
pub open spec fn attached(m: Seq<ManagedBuffer>, buf: BufferId) -> Seq<ManagedBuffer> {
    match first_of(m, buf) {
        Some(i) => m.update(i, ManagedBuffer { released: false, ..m[i] }),
        None => m,
    }
}

/// Whether a buffer is managed and not read by the compositor.
pub open spec fn is_idle(m: Seq<ManagedBuffer>, buf: BufferId) -> bool {
    first_of(m, buf) matches Some(i) && m[i].released
}

/// What becomes of a buffer that is given up.
pub open spec fn retirement(m: Seq<ManagedBuffer>, buf: BufferId) -> Retired {
    match first_of(m, buf) {
        None => Retired::Untracked,
        Some(i) => if m[i].released {
            Retired::Destroy
        } else {
            Retired::Deferred
        },
    }
}

/// The buffers after one was given up.
pub open spec fn retired(m: Seq<ManagedBuffer>, buf: BufferId) -> Seq<ManagedBuffer> {
    match first_of(m, buf) {
        None => m.push(ManagedBuffer { buf, released: false, doomed: true }),
        Some(i) => if m[i].released {
            without(m, i)
        } else {
            m.update(i, ManagedBuffer { doomed: true, ..m[i] })
        },
    }
}

/// Whether a buffer is to be destroyed on its release.
pub open spec fn is_doomed(m: Seq<ManagedBuffer>, buf: BufferId) -> bool {
    first_of(m, buf) matches Some(i) && m[i].doomed
}

/// The buffers after the compositor released one.
pub open spec fn released(m: Seq<ManagedBuffer>, buf: BufferId) -> Seq<ManagedBuffer> {
    match first_of(m, buf) {
        None => m,
        Some(i) => if m[i].doomed {
            without(m, i)
        } else {
            m.update(i, ManagedBuffer { released: true, ..m[i] })
        },
    }
}

impl ManagedBuffers {
    fn position(&self, buf: BufferId) -> (r: Option<usize>)
        ensures
            match r {
                Some(i) => first_of(self@, buf) == Some(i as int) && i < self.entries@.len()
                    && self.entries@[i as int].buf == buf,
                None => first_of(self@, buf) is None,
            },
    {
        for i in 0..self.entries.len()
            invariant
                first_of(self@, buf) == first_from(self@, buf, i as int),
        {
            if self.entries[i].buf == buf {
                return Some(i);
            }
        }
        None
    }

    /// Starts to manage a new buffer, which the compositor does not read yet.
    /// Of a buffer that is managed already the entry at hand goes on counting.
    pub fn track_buffer(&mut self, buf: BufferId)
        ensures
            final(self)@ == with_new(old(self)@, buf),
    {
        self.entries.push(ManagedBuffer { buf, released: true, doomed: false });
    }

    /// Notes that a buffer was attached: the compositor reads it until its
    /// release.
    pub fn mark_attached(&mut self, buf: BufferId)
        ensures
            final(self)@ == attached(old(self)@, buf),
    {
        if let Some(i) = self.position(buf) {
            let doomed = self.entries[i].doomed;
            self.entries.set(i, ManagedBuffer { buf, released: false, doomed });
        }
    }

    /// Whether a buffer is managed and the compositor does not read it.
    pub fn buffer_is_idle(&self, buf: BufferId) -> (r: bool)
        ensures
            r == is_idle(self@, buf),
    {
        match self.position(buf) {
            Some(i) => self.entries[i].released,
            None => false,
        }
    }

    /// Gives up a buffer: destroyed at once where the compositor does not
    /// read it, else on its release.
    pub fn retire_buffer(&mut self, buf: BufferId) -> (r: Retired)
        ensures
            r == retirement(old(self)@, buf),
            final(self)@ == retired(old(self)@, buf),
    {
        match self.position(buf) {
            Some(i) => {
                if self.entries[i].released {
                    self.entries.swap_remove(i);
                    Retired::Destroy
                } else {
                    self.entries.set(i, ManagedBuffer { buf, released: false, doomed: true });
                    Retired::Deferred
                }
            },
            None => {
                self.entries.push(ManagedBuffer { buf, released: false, doomed: true });
                Retired::Untracked
            },
        }
    }

    /// Takes in a release by the compositor. True where the buffer is to be
    /// destroyed now.
    pub fn note_buffer_release(&mut self, buf: BufferId) -> (r: bool)
        ensures
            r == is_doomed(old(self)@, buf),
            final(self)@ == released(old(self)@, buf),
    {
        match self.position(buf) {
            Some(i) => {
                if self.entries[i].doomed {
                    self.entries.swap_remove(i);
                    true
                } else {
                    self.entries.set(i, ManagedBuffer { buf, released: true, doomed: false });
                    false
                }
            },
            None => false,
        }
    }
}

/// The request that giving up a buffer leads to at once.
pub open spec fn retire_requests(m: Seq<ManagedBuffer>, buf: BufferId) -> Seq<Request> {
    requests::when(retirement(m, buf) == Retired::Destroy, Request::DestroyBuffer(buf))
}

/// Gives up a buffer, if there is one, and adds the request that this leads
/// to.
pub fn retire_into(buffers: &mut ManagedBuffers, buf: Option<BufferId>, out: &mut Vec<Request>)
    ensures
        match buf {
            None => final(buffers)@ == old(buffers)@ && final(out)@ == old(out)@,
            Some(b) => final(buffers)@ == retired(old(buffers)@, b) && final(out)@ == old(out)@
                + retire_requests(old(buffers)@, b),
        },
{
    if let Some(b) = buf {
        let destroy = buffers.retire_buffer(b) == Retired::Destroy;
        push_when(out, destroy, Request::DestroyBuffer(b));
    }
}

/// Whether a buffer has at most one entry.
pub open spec fn is_single(m: Seq<ManagedBuffer>, buf: BufferId) -> bool {
    forall|i: int, j: int|
        0 <= i < j < m.len() && m[i].buf == buf ==> (#[trigger] m[i]).buf != (#[trigger] m[j]).buf
}

/// Whether no buffer is managed twice.
pub open spec fn all_single(m: Seq<ManagedBuffer>) -> bool {
    forall|i: int, j: int| 0 <= i < j < m.len() ==> (#[trigger] m[i]).buf != (#[trigger] m[j]).buf
}

/// Where a buffer stands: whether it is released and whether doomed; none
/// where it is not managed.
pub open spec fn standing(m: Seq<ManagedBuffer>, buf: BufferId) -> Option<(bool, bool)> {
    match first_of(m, buf) {
        Some(i) => Some((m[i].released, m[i].doomed)),
        None => None,
    }
}

proof fn lemma_first(m: Seq<ManagedBuffer>, buf: BufferId, i: int)
    requires
        0 <= i,
    ensures
        match first_from(m, buf, i) {
            Some(k) => i <= k < m.len() && m[k].buf == buf && forall|j: int|
                i <= j < k ==> (#[trigger] m[j]).buf != buf,
            None => forall|j: int| i <= j < m.len() ==> (#[trigger] m[j]).buf != buf,
        },
    decreases m.len() - i,
{
    if i < m.len() && m[i].buf != buf {
        lemma_first(m, buf, i + 1);
    }
}

/// The only entry of a buffer is the first.
proof fn lemma_only_entry(m: Seq<ManagedBuffer>, buf: BufferId, k: int)
    requires
        is_single(m, buf),
        0 <= k < m.len(),
        m[k].buf == buf,
    ensures
        first_of(m, buf) == Some(k),
{
    lemma_first(m, buf, 0);
    let first = first_of(m, buf)->0;
    assert(first_of(m, buf) is Some);
    assert(m[first].buf == m[k].buf);
}

/// Taking out the entry of one buffer leaves another where it stands.
proof fn lemma_without(m: Seq<ManagedBuffer>, i: int, other: BufferId)
    requires
        0 <= i < m.len(),
        m[i].buf != other,
        is_single(m, other),
    ensures
        standing(without(m, i), other) == standing(m, other),
        is_single(without(m, i), other),
{
    let rest = without(m, i);
    let end = m.len() - 1;
    assert forall|a: int, b: int|
        0 <= a < b < rest.len() && rest[a].buf == other implies (#[trigger] rest[a]).buf != (
    #[trigger] rest[b]).buf by {
        let from_a = if a == i {
            end
        } else {
            a
        };
        let from_b = if b == i {
            end
        } else {
            b
        };
        assert(rest[a] == m[from_a] && rest[b] == m[from_b]);
        if from_a < from_b {
            assert(m[from_a].buf != m[from_b].buf);
        } else {
            assert(m[from_b].buf == other ==> m[from_b].buf != m[from_a].buf);
        }
    }
    lemma_first(m, other, 0);
    lemma_first(rest, other, 0);
    match first_of(m, other) {
        Some(k) => {
            let to = if k == end {
                i
            } else {
                k
            };
            assert(rest[to] == m[k]);
            lemma_only_entry(rest, other, to);
        },
        None => {
            if first_of(rest, other) is Some {
                let k = first_of(rest, other)->0;
                let from = if k == i {
                    end
                } else {
                    k
                };
                assert(rest[k] == m[from]);
            }
        },
    }
}

/// Changing the entry of one buffer leaves another where it stands.
proof fn lemma_updated(m: Seq<ManagedBuffer>, i: int, entry: ManagedBuffer, other: BufferId)
    requires
        0 <= i < m.len(),
        entry.buf == m[i].buf,
        m[i].buf != other,
    ensures
        standing(m.update(i, entry), other) == standing(m, other),
{
    lemma_same_names(m, m.update(i, entry), other, 0);
    lemma_first(m, other, 0);
}

proof fn lemma_same_names(
    m: Seq<ManagedBuffer>,
    n: Seq<ManagedBuffer>,
    buf: BufferId,
    i: int,
)
    requires
        0 <= i,
        m.len() == n.len(),
        forall|j: int| 0 <= j < m.len() ==> (#[trigger] m[j]).buf == (#[trigger] n[j]).buf,
    ensures
        first_from(m, buf, i) == first_from(n, buf, i),
    decreases m.len() - i,
{
    if i < m.len() {
        assert(m[i].buf == n[i].buf);
        lemma_same_names(m, n, buf, i + 1);
    }
}

proof fn lemma_pushed(m: Seq<ManagedBuffer>, entry: ManagedBuffer, buf: BufferId, i: int)
    requires
        0 <= i <= m.len(),
    ensures
        first_from(m.push(entry), buf, i) == match first_from(m, buf, i) {
            Some(k) => Some(k),
            None => if entry.buf == buf {
                Some(m.len() as int)
            } else {
                None
            },
        },
    decreases m.len() - i,
{
    let more = m.push(entry);
    if i < m.len() {
        assert(more[i] == m[i]);
        lemma_pushed(m, entry, buf, i + 1);
    } else {
        assert(more[i] == entry);
        assert(first_from(more, buf, i + 1) is None);
    }
}

/// A buffer that is tracked for the first time is idle. Tracking it again
/// leaves it where it stands.
pub proof fn law_first_entry_counts(m: Seq<ManagedBuffer>, buf: BufferId)
    ensures
        standing(with_new(m, buf), buf) == match standing(m, buf) {
            Some(at) => Some(at),
            None => Some((true, false)),
        },
{
    lemma_pushed(m, ManagedBuffer { buf, released: true, doomed: false }, buf, 0);
    lemma_first(m, buf, 0);
}

/// A buffer that the compositor reads is not destroyed when it is given up,
/// but on its release, and then it is gone, unless it was tracked twice.
pub proof fn law_read_buffer_outlives_retirement(m: Seq<ManagedBuffer>, buf: BufferId)
    requires
        first_of(m, buf) is Some,
    ensures
        retirement(attached(m, buf), buf) == Retired::Deferred,
        ({
            let waiting = retired(attached(m, buf), buf);
            &&& is_doomed(waiting, buf)
            &&& is_single(m, buf) ==> standing(released(waiting, buf), buf) is None
        }),
{
    let reading = attached(m, buf);
    let waiting = retired(reading, buf);
    lemma_first(m, buf, 0);
    lemma_same_names(m, reading, buf, 0);
    lemma_same_names(reading, waiting, buf, 0);
    if is_single(m, buf) {
        lemma_gone(m, waiting, buf);
    }
}

/// With its only entry a buffer goes.
proof fn lemma_gone(m: Seq<ManagedBuffer>, n: Seq<ManagedBuffer>, buf: BufferId)
    requires
        is_single(m, buf),
        m.len() == n.len(),
        forall|j: int| 0 <= j < m.len() ==> (#[trigger] m[j]).buf == (#[trigger] n[j]).buf,
        first_of(n, buf) is Some,
    ensures
        first_of(without(n, first_of(n, buf)->0), buf) is None,
{
    lemma_first(n, buf, 0);
    let k = first_of(n, buf)->0;
    let rest = without(n, k);
    lemma_first(rest, buf, 0);
    if first_of(rest, buf) is Some {
        let a = first_of(rest, buf)->0;
        let from = if a == k {
            n.len() - 1
        } else {
            a
        };
        assert(rest[a] == n[from]);
        assert(m[from].buf == buf && m[k].buf == buf);
        assert(from != k);
    }
}

/// A buffer that was released after its last use is destroyed at once when it
/// is given up, and then it is gone, unless it was tracked twice.
pub proof fn law_idle_buffer_goes_at_once(m: Seq<ManagedBuffer>, buf: BufferId)
    requires
        first_of(m, buf) is Some,
        !is_doomed(m, buf),
    ensures
        ({
            let idle = released(attached(m, buf), buf);
            &&& is_idle(idle, buf)
            &&& retirement(idle, buf) == Retired::Destroy
            &&& is_single(m, buf) ==> standing(retired(idle, buf), buf) is None
        }),
{
    let reading = attached(m, buf);
    let idle = released(reading, buf);
    lemma_first(m, buf, 0);
    lemma_same_names(m, reading, buf, 0);
    lemma_same_names(reading, idle, buf, 0);
    if is_single(m, buf) {
        lemma_gone(m, idle, buf);
    }
}

/// No operation on one buffer moves another, as long as that one was not
/// tracked twice.
pub proof fn law_buffers_are_independent(
    m: Seq<ManagedBuffer>,
    buf: BufferId,
    other: BufferId,
)
    requires
        buf != other,
        is_single(m, other),
    ensures
        standing(with_new(m, buf), other) == standing(m, other),
        standing(attached(m, buf), other) == standing(m, other),
        standing(retired(m, buf), other) == standing(m, other),
        standing(released(m, buf), other) == standing(m, other),
{
    lemma_first(m, buf, 0);
    lemma_first(m, other, 0);
    lemma_pushed(m, ManagedBuffer { buf, released: true, doomed: false }, other, 0);
    lemma_pushed(m, ManagedBuffer { buf, released: false, doomed: true }, other, 0);
    if let Some(i) = first_of(m, buf) {
        lemma_without(m, i, other);
        lemma_updated(m, i, ManagedBuffer { released: false, ..m[i] }, other);
        lemma_updated(m, i, ManagedBuffer { released: true, ..m[i] }, other);
        lemma_updated(m, i, ManagedBuffer { doomed: true, ..m[i] }, other);
    }
}

/// As long as only new buffers are tracked, none is managed twice.
pub proof fn law_no_buffer_is_managed_twice(m: Seq<ManagedBuffer>, buf: BufferId)
    requires
        all_single(m),
    ensures
        first_of(m, buf) is None ==> all_single(with_new(m, buf)),
        all_single(attached(m, buf)),
        all_single(retired(m, buf)),
        all_single(released(m, buf)),
{
    lemma_first(m, buf, 0);
    if let Some(i) = first_of(m, buf) {
        let rest = without(m, i);
        let end = m.len() - 1;
        assert forall|a: int, b: int| 0 <= a < b < rest.len() implies (#[trigger] rest[a]).buf != (
        #[trigger] rest[b]).buf by {
            let from_a = if a == i {
                end
            } else {
                a
            };
            let from_b = if b == i {
                end
            } else {
                b
            };
            assert(rest[a] == m[from_a] && rest[b] == m[from_b]);
            if from_a < from_b {
                assert(m[from_a].buf != m[from_b].buf);
            } else {
                assert(m[from_b].buf != m[from_a].buf);
            }
        }
    }
}

/// The format code made of four characters, first character lowest.
pub open spec fn fourcc_code(a: u8, b: u8, c: u8, d: u8) -> u32 {
    (a + b * 0x100 + c * 0x1_0000 + d * 0x100_0000) as u32
}

/// The DRM code of 32-bit ARGB: `AR24`.
pub const DRM_FORMAT_ARGB8888: u32 = 0x3432_5241;

/// The format code made of four characters.
pub fn fourcc(a: u8, b: u8, c: u8, d: u8) -> (r: u32)
    ensures
        r == fourcc_code(a, b, c, d),
{
    let r: u32 = (a as u32) | ((b as u32) << 8) | ((c as u32) << 16) | ((d as u32) << 24);
    assert(r == a as u32 + (b as u32) * 0x100 + (c as u32) * 0x1_0000 + (d as u32) * 0x100_0000)
        by (bit_vector)
        requires
            r == (a as u32) | ((b as u32) << 8) | ((c as u32) << 16) | ((d as u32) << 24),
    ;
    r
}

/// The two halves of a dmabuf modifier, high half first.
pub fn modifier_halves(modifier: u64) -> (r: (u32, u32))
    ensures
        r.0 * 0x1_0000_0000 + r.1 == modifier,
{
    let hi = (modifier >> 32) as u32;
    let lo = (modifier & 0xffff_ffff) as u32;
    assert(((modifier >> 32) as u32) * 0x1_0000_0000 + ((modifier & 0xffff_ffff) as u32)
        == modifier) by (bit_vector);
    (hi, lo)
}

/// Layout of a 32-bit shared-memory buffer, in bytes.
#[derive(Clone, Copy, Debug, PartialEq, Eq, Structural)]
pub struct ShmLayout {
    pub stride: i32,
    pub size: i32,
}

/// Whether a picture of `w` by `h` has a layout that `available` bytes fill.
pub open spec fn shm_fits(w: i32, h: i32, available: nat) -> bool {
    &&& i32::MIN <= w * 4 <= i32::MAX
    &&& 0 < w * 4 * h <= i32::MAX
    &&& w * 4 * h <= available
}

/// The layout of a 32-bit picture; none where a number of it does not fit,
/// the picture is empty or `available` bytes do not fill it.
pub fn shm_layout(w: i32, h: i32, available: usize) -> (r: Option<ShmLayout>)
    ensures
        r is Some == shm_fits(w, h, available as nat),
        r matches Some(l) ==> l.stride == w * 4 && l.size == w * 4 * h,
{
    let stride = match w.checked_mul(4) {
        Some(s) => s,
        None => return None,
    };
    let size = match stride.checked_mul(h) {
        Some(s) => s,
        None => return None,
    };
    if size <= 0 || available < size as usize {
        return None;
    }
    Some(ShmLayout { stride, size })
}

/// The bytes of one opaque pixel, in the order in which memory holds them.
pub fn solid_pixel(r: u8, g: u8, b: u8) -> (p: [u8; 4])
    ensures
        p@ == seq![b, g, r, 0xFFu8],
{
    let p = [b, g, r, 0xFF];
    assert(p@ =~= seq![b, g, r, 0xFFu8]);
    p
}

} // verus!
