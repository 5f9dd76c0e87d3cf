//! Reuse of the buffers made for GPU frames.
//!
//! A producer cycles through a few textures, each with an identity of its
//! own; the buffer made for one is kept and used again while the compositor
//! does not read it.
use crate::wayland::buffers;
use crate::wayland::buffers::{BufferId, ManagedBuffer, ManagedBuffers};
use crate::wayland::requests::Request;
use vstd::prelude::*;

verus! {

/// How many buffers are kept.
pub const DMABUF_POOL_CAP: usize = 16;

/// Identity of a texture.
#[derive(Clone, Copy, Debug, PartialEq, Eq, Structural)]
pub struct TextureId(pub u64, pub u64);

/// What makes two frames share a buffer.
#[derive(Clone, Copy, Debug, PartialEq, Eq, Structural)]
pub struct FrameShape {
    pub w: i32,
    pub h: i32,
    pub stride: u32,
    pub modifier: u64,
}

/// A kept buffer.
#[derive(Clone, Copy, Debug, PartialEq, Eq, Structural)]
pub struct DmabufBuf {
    pub id: TextureId,
    pub shape: FrameShape,
    pub buf: BufferId,
}

/// The kept buffers, last used first.
#[derive(Debug)]
pub struct DmabufPool {
    entries: Vec<DmabufBuf>,
}

/// The buffer for a frame.
#[derive(Clone, Copy, Debug, PartialEq, Eq, Structural)]
pub enum DmabufLease {
    /// A kept buffer, used again.
    Reused(BufferId),
    /// A new buffer, kept from now on: make it.
    Pooled(BufferId),
    /// A new buffer for this frame alone: make it.
    OneShot(BufferId),
}

impl View for DmabufPool {
    type V = Seq<DmabufBuf>;

    closed spec fn view(&self) -> Seq<DmabufBuf> {
        self.entries@
    }
}

/// No texture has two kept buffers, and no more are kept than fit.
pub open spec fn is_pool(pool: Seq<DmabufBuf>) -> bool {
    &&& pool.len() <= DMABUF_POOL_CAP
    &&& forall|i: int, j: int| 0 <= i < j < pool.len() ==> pool[i].id != pool[j].id
}

/// The first kept buffer of a texture, from an index on.
pub open spec fn entry_from(pool: Seq<DmabufBuf>, id: TextureId, i: int) -> Option<DmabufBuf>
    decreases pool.len() - i,
{
    if i < 0 || i >= pool.len() {
        None
    } else if pool[i].id == id {
        Some(pool[i])
    } else {
        entry_from(pool, id, i + 1)
    }
}

/// The kept buffer of a texture.
pub open spec fn entry_of(pool: Seq<DmabufBuf>, id: TextureId) -> Option<DmabufBuf> {
    entry_from(pool, id, 0)
}

/// The kept buffers of all other textures.
pub open spec fn others(pool: Seq<DmabufBuf>, id: TextureId) -> Seq<DmabufBuf> {
    pool.filter(|e: DmabufBuf| e.id != id)
}

/// Whether the kept buffer of a texture can be used again for a frame.
pub open spec fn reusable(
    pool: Seq<DmabufBuf>,
    m: Seq<ManagedBuffer>,
    id: TextureId,
    shape: FrameShape,
) -> bool {
    entry_of(pool, id) matches Some(e) && e.shape == shape && buffers::is_idle(m, e.buf)
}

/// The pool with a buffer put first, before any limit.
pub open spec fn led_by(pool: Seq<DmabufBuf>, entry: DmabufBuf) -> Seq<DmabufBuf> {
    seq![entry] + others(pool, entry.id)
}

/// The pool cut to what is kept.
pub open spec fn capped(pool: Seq<DmabufBuf>) -> Seq<DmabufBuf> {
    if pool.len() > DMABUF_POOL_CAP {
        pool.take(DMABUF_POOL_CAP as int)
    } else {
        pool
    }
}

/// The pool after a frame was given a buffer; `fresh` is the name that a new
/// one would have.
pub open spec fn leased_pool(
    pool: Seq<DmabufBuf>,
    m: Seq<ManagedBuffer>,
    id: Option<TextureId>,
    shape: FrameShape,
    fresh: BufferId,
) -> Seq<DmabufBuf> {
    match id {
        None => pool,
        Some(id) => if reusable(pool, m, id, shape) {
            led_by(pool, entry_of(pool, id)->0)
        } else {
            capped(led_by(pool, DmabufBuf { id, shape, buf: fresh }))
        },
    }
}

/// The buffer that a frame is given.
pub open spec fn lease_of(
    pool: Seq<DmabufBuf>,
    m: Seq<ManagedBuffer>,
    id: Option<TextureId>,
    shape: FrameShape,
    fresh: BufferId,
) -> DmabufLease {
    match id {
        None => DmabufLease::OneShot(fresh),
        Some(id) => if reusable(pool, m, id, shape) {
            DmabufLease::Reused((entry_of(pool, id)->0).buf)
        } else {
            DmabufLease::Pooled(fresh)
        },
    }
}

/// The buffer that is given up because it is out of use for its texture.
pub open spec fn replaced(
    pool: Seq<DmabufBuf>,
    m: Seq<ManagedBuffer>,
    id: Option<TextureId>,
    shape: FrameShape,
) -> Option<BufferId> {
    match id {
        None => None,
        Some(id) => if reusable(pool, m, id, shape) {
            None
        } else {
            match entry_of(pool, id) {
                Some(e) => Some(e.buf),
                None => None,
            }
        },
    }
}

/// The buffer that is given up because the pool is full.
pub open spec fn evicted(
    pool: Seq<DmabufBuf>,
    m: Seq<ManagedBuffer>,
    id: Option<TextureId>,
    shape: FrameShape,
) -> Option<BufferId> {
    match id {
        None => None,
        Some(id) => if !reusable(pool, m, id, shape) && others(pool, id).len()
            >= DMABUF_POOL_CAP {
            Some(others(pool, id).last().buf)
        } else {
            None
        },
    }
}

/// The buffers after one was given up, where there is one.
pub open spec fn given_up(m: Seq<ManagedBuffer>, buf: Option<BufferId>) -> Seq<ManagedBuffer> {
    match buf {
        Some(b) => buffers::retired(m, b),
        None => m,
    }
}

/// The requests of giving up a buffer, where there is one.
pub open spec fn give_up_requests(
    m: Seq<ManagedBuffer>,
    buf: Option<BufferId>,
) -> Seq<Request> {
    match buf {
        Some(b) => buffers::retire_requests(m, b),
        None => Seq::empty(),
    }
}

/// The buffers after a frame was given one: the old buffer of its texture is
/// given up, the new one tracked, and one that no longer fits given up.
pub open spec fn leased_buffers(
    pool: Seq<DmabufBuf>,
    m: Seq<ManagedBuffer>,
    id: Option<TextureId>,
    shape: FrameShape,
    fresh: BufferId,
) -> Seq<ManagedBuffer> {
    if id matches Some(id) && reusable(pool, m, id, shape) {
        m
    } else {
        given_up(
            buffers::with_new(given_up(m, replaced(pool, m, id, shape)), fresh),
            evicted(pool, m, id, shape),
        )
    }
}

/// The requests of giving a frame a buffer.
pub open spec fn lease_requests(
    pool: Seq<DmabufBuf>,
    m: Seq<ManagedBuffer>,
    id: Option<TextureId>,
    shape: FrameShape,
    fresh: BufferId,
) -> Seq<Request> {
    if id matches Some(id) && reusable(pool, m, id, shape) {
        Seq::empty()
    } else {
        give_up_requests(m, replaced(pool, m, id, shape)) + give_up_requests(
            buffers::with_new(given_up(m, replaced(pool, m, id, shape)), fresh),
            evicted(pool, m, id, shape),
        )
    }
}

proof fn lemma_others(pool: Seq<DmabufBuf>, id: TextureId)
    requires
        is_pool(pool),
    ensures
        others(pool, id).len() <= pool.len(),
        forall|i: int| 0 <= i < others(pool, id).len() ==> (#[trigger] others(pool, id)[i]).id != id,
        forall|i: int, j: int|
            0 <= i < j < others(pool, id).len() ==> others(pool, id)[i].id != others(
                pool,
                id,
            )[j].id,
        forall|i: int|
            0 <= i < others(pool, id).len() ==> pool.contains(#[trigger] others(pool, id)[i]),
        entry_of(pool, id) is Some ==> others(pool, id).len() < pool.len(),
    decreases pool.len(),
{
    reveal(Seq::filter);
    let keep = |e: DmabufBuf| e.id != id;
    if pool.len() > 0 {
        let rest = pool.drop_last();
        assert(is_pool(rest));
        lemma_others(rest, id);
        let kept = others(rest, id);
        assert(others(pool, id) == if keep(pool.last()) {
            kept.push(pool.last())
        } else {
            kept
        });
        assert forall|i: int| 0 <= i < others(pool, id).len() implies pool.contains(
            #[trigger] others(pool, id)[i],
        ) by {
            if i < kept.len() {
                assert(rest.contains(kept[i]));
                let k = choose|k: int| 0 <= k < rest.len() && rest[k] == kept[i];
                assert(pool[k] == kept[i]);
            } else {
                assert(pool[pool.len() - 1] == pool.last());
            }
        }
        assert forall|i: int, j: int| 0 <= i < j < others(pool, id).len() implies others(
            pool,
            id,
        )[i].id != others(pool, id)[j].id by {
            if j == kept.len() {
                assert(rest.contains(kept[i]));
                let k = choose|k: int| 0 <= k < rest.len() && rest[k] == kept[i];
                assert(pool[k].id != pool[pool.len() - 1].id);
            }
        }
        if entry_of(pool, id) is Some && pool.last().id != id {
            lemma_entry_prefix(pool, id, 0);
        }
    }
}

proof fn lemma_entry_prefix(pool: Seq<DmabufBuf>, id: TextureId, i: int)
    requires
        pool.len() > 0,
        pool.last().id != id,
        0 <= i <= pool.len() - 1,
        entry_from(pool, id, i) is Some,
    ensures
        entry_from(pool.drop_last(), id, i) is Some,
    decreases pool.len() - i,
{
    if i < pool.len() - 1 && pool[i].id != id {
        lemma_entry_prefix(pool, id, i + 1);
    } else if i == pool.len() - 1 {
        assert(pool[i] == pool.last());
        assert(entry_from(pool, id, i + 1) is None);
    }
}

impl Default for DmabufPool {
    fn default() -> (r: Self)
        ensures
            r@ == Seq::<DmabufBuf>::empty(),
            is_pool(r@),
    {
        DmabufPool { entries: Vec::new() }
    }
}

impl DmabufPool {
    fn find(&self, id: TextureId) -> (r: Option<DmabufBuf>)
        ensures
            r == entry_of(self@, id),
    {
        for i in 0..self.entries.len()
            invariant
                entry_of(self@, id) == entry_from(self@, id, i as int),
        {
            if self.entries[i].id == id {
                return Some(self.entries[i]);
            }
        }
        None
    }

    /// The pool with `first` in front of all other textures' buffers.
    fn lead_by(&self, first: DmabufBuf) -> (r: Vec<DmabufBuf>)
        ensures
            r@ == led_by(self@, first),
    {
        let mut out: Vec<DmabufBuf> = Vec::new();
        out.push(first);
        assert(out@ =~= seq![first] + others(self.entries@.take(0), first.id)) by {
            assert(others(self.entries@.take(0), first.id) =~= Seq::empty()) by {
                reveal(Seq::filter);
            }
        }
        for i in 0..self.entries.len()
            invariant
                out@ == seq![first] + others(self.entries@.take(i as int), first.id),
        {
            proof {
                reveal(Seq::filter);
                assert(self.entries@.take(i + 1).drop_last() =~= self.entries@.take(i as int));
            }
            if self.entries[i].id != first.id {
                out.push(self.entries[i]);
            }
            assert(out@ =~= seq![first] + others(self.entries@.take(i + 1), first.id));
        }
        assert(self.entries@.take(self.entries@.len() as int) =~= self.entries@);
        out
    }

    /// The buffers in the pool.
    pub fn drain(&mut self) -> (r: Vec<BufferId>)
        ensures
            final(self)@ == Seq::<DmabufBuf>::empty(),
            r@ == old(self)@.map_values(|e: DmabufBuf| e.buf),
    {
        let mut out: Vec<BufferId> = Vec::new();
        for i in 0..self.entries.len()
            invariant
                out@ == self.entries@.take(i as int).map_values(|e: DmabufBuf| e.buf),
                self.entries@ == old(self)@,
        {
            out.push(self.entries[i].buf);
            assert(out@ =~= self.entries@.take(i + 1).map_values(|e: DmabufBuf| e.buf));
        }
        assert(self.entries@.take(self.entries@.len() as int) =~= self.entries@);
        self.entries = Vec::new();
        out
    }

    /// Gives a frame a buffer; `fresh` is the name that a new one would have.
    /// Requests that follow are added to `out`.
    pub fn get_or_create_dmabuf(
        &mut self,
        managed: &mut ManagedBuffers,
        id: Option<TextureId>,
        shape: FrameShape,
        fresh: BufferId,
        out: &mut Vec<Request>,
    ) -> (r: DmabufLease)
        requires
            is_pool(old(self)@),
        ensures
            is_pool(final(self)@),
            r == lease_of(old(self)@, old(managed)@, id, shape, fresh),
            final(self)@ == leased_pool(old(self)@, old(managed)@, id, shape, fresh),
            final(managed)@ == leased_buffers(old(self)@, old(managed)@, id, shape, fresh),
            final(out)@ == old(out)@ + lease_requests(
                old(self)@,
                old(managed)@,
                id,
                shape,
                fresh,
            ),
    {
        let id = match id {
            None => {
                managed.track_buffer(fresh);
                assert(out@ =~= old(out)@ + lease_requests(
                    old(self)@,
                    old(managed)@,
                    id,
                    shape,
                    fresh,
                ));
                return DmabufLease::OneShot(fresh);
            },
            Some(id) => id,
        };
        proof {
            lemma_others(self@, id);
        }
        let kept = self.find(id);
        if let Some(e) = kept {
            if e.shape == shape && managed.buffer_is_idle(e.buf) {
                proof {
                    lemma_entry_is(self@, id, 0);
                }
                self.entries = self.lead_by(e);
                assert(out@ =~= old(out)@ + lease_requests(
                    old(self)@,
                    old(managed)@,
                    Some(id),
                    shape,
                    fresh,
                ));
                return DmabufLease::Reused(e.buf);
            }
        }
        let stale = match kept {
            Some(e) => Some(e.buf),
            None => None,
        };
        buffers::retire_into(managed, stale, out);
        managed.track_buffer(fresh);
        self.entries = self.lead_by(DmabufBuf { id, shape, buf: fresh });
        let ghost led = self.entries@;
        if self.entries.len() > DMABUF_POOL_CAP {
            let last = self.entries.pop();
            assert(self.entries@ =~= led.take(DMABUF_POOL_CAP as int));
            if let Some(e) = last {
                assert(e == others(old(self)@, id).last());
                buffers::retire_into(managed, Some(e.buf), out);
            }
        }
        assert(out@ =~= old(out)@ + lease_requests(
            old(self)@,
            old(managed)@,
            Some(id),
            shape,
            fresh,
        ));
        DmabufLease::Pooled(fresh)
    }
}

proof fn lemma_entry_is(pool: Seq<DmabufBuf>, id: TextureId, i: int)
    requires
        0 <= i,
    ensures
        entry_from(pool, id, i) matches Some(e) ==> e.id == id && pool.contains(e),
    decreases pool.len() - i,
{
    if i < pool.len() {
        if pool[i].id == id {
            assert(pool.contains(pool[i]));
        } else {
            lemma_entry_is(pool, id, i + 1);
        }
    }
}

/// A buffer that is used again is one that the compositor does not read.
pub proof fn law_reused_buffer_is_idle(
    pool: Seq<DmabufBuf>,
    m: Seq<ManagedBuffer>,
    id: Option<TextureId>,
    shape: FrameShape,
    fresh: BufferId,
)
    ensures
        lease_of(pool, m, id, shape, fresh) matches DmabufLease::Reused(b) ==> buffers::is_idle(
            m,
            b,
        ),
{
}

/// A kept buffer is the first of the pool after its use, so the one that is
/// given up for want of room is the one used longest ago.
pub proof fn law_last_used_comes_first(
    pool: Seq<DmabufBuf>,
    m: Seq<ManagedBuffer>,
    id: TextureId,
    shape: FrameShape,
    fresh: BufferId,
)
    ensures
        ({
            let after = leased_pool(pool, m, Some(id), shape, fresh);
            &&& after.len() > 0
            &&& after[0].buf == match lease_of(pool, m, Some(id), shape, fresh) {
                DmabufLease::Reused(b) => b,
                DmabufLease::Pooled(b) => b,
                DmabufLease::OneShot(b) => b,
            }
        }),
{
}

/// The same frame again finds its buffer, once the compositor has released
/// it.
pub proof fn law_same_frame_finds_its_buffer(
    pool: Seq<DmabufBuf>,
    m: Seq<ManagedBuffer>,
    later: Seq<ManagedBuffer>,
    id: TextureId,
    shape: FrameShape,
    fresh: BufferId,
    next: BufferId,
)
    requires
        !reusable(pool, m, id, shape),
        buffers::is_idle(later, fresh),
    ensures
        lease_of(leased_pool(pool, m, Some(id), shape, fresh), later, Some(id), shape, next)
            == DmabufLease::Reused(fresh),
{
    let after = leased_pool(pool, m, Some(id), shape, fresh);
    assert(after[0] == DmabufBuf { id, shape, buf: fresh });
    assert(entry_from(after, id, 0) == Some(after[0]));
}

} // verus!
