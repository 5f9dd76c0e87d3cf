//! Buffers that are used again, and the order of the layers.
use crate::wayland::buffers;
use crate::wayland::buffers::{BufferId, ManagedBuffer, ManagedBuffers, Retired, ShmLayout};
use crate::wayland::dmabuf_pool;
use crate::wayland::dmabuf_pool::{DmabufBuf, DmabufLease, DmabufPool, FrameShape, TextureId};
use crate::wayland::requests::Request;
use crate::wayland::scene;
use crate::wayland::scene::sink::{LayerObjects, SceneSink, SinkRequest, WlSink};
use crate::wayland::scene::{Above, Effect, LayerId, Scene, SceneEvent};
use vstd::prelude::*;

verus! {

/// Whether a buffer is managed.
pub open spec fn is_managed(m: ManagedBuffers, buf: BufferId) -> bool {
    exists|k: int| 0 <= k < m@.len() && (#[trigger] m@[k]).buf == buf
}

/// Whether a buffer is managed no more than once.
pub open spec fn is_managed_once(m: ManagedBuffers, buf: BufferId) -> bool {
    forall|j: int, k: int|
        0 <= j < k < m@.len() && m@[j].buf == buf ==> (#[trigger] m@[j]).buf != (
        #[trigger] m@[k]).buf
}

proof fn lemma_first(m: Seq<ManagedBuffer>, buf: BufferId, i: int)
    requires
        0 <= i,
    ensures
        match buffers::first_from(m, buf, i) {
            Some(k) => i <= k < m.len() && m[k].buf == buf,
            None => forall|j: int| i <= j < m.len() ==> (#[trigger] m[j]).buf != buf,
        },
    decreases m.len() - i,
{
    if i < m.len() && m[i].buf != buf {
        lemma_first(m, buf, i + 1);
    }
}

proof fn lemma_pushed(m: Seq<ManagedBuffer>, e: ManagedBuffer, buf: BufferId, i: int)
    requires
        0 <= i <= m.len(),
    ensures
        buffers::first_from(m.push(e), buf, i) == match buffers::first_from(m, buf, i) {
            Some(k) => Some(k),
            None => if e.buf == buf {
                Some(m.len() as int)
            } else {
                None
            },
        },
    decreases m.len() - i,
{
    let more = m.push(e);
    if i < m.len() {
        assert(more[i] == m[i]);
        lemma_pushed(m, e, buf, i + 1);
    } else {
        assert(more[i] == e);
        assert(buffers::first_from(more, buf, i + 1) is None);
    }
}

proof fn lemma_same(m: Seq<ManagedBuffer>, n: Seq<ManagedBuffer>, buf: BufferId, i: int)
    requires
        0 <= i,
        m.len() == n.len(),
        forall|j: int| 0 <= j < m.len() ==> (#[trigger] m[j]).buf == n[j].buf,
    ensures
        buffers::first_from(m, buf, i) == buffers::first_from(n, buf, i),
    decreases m.len() - i,
{
    if i < m.len() {
        assert(m[i].buf == n[i].buf);
        lemma_same(m, n, buf, i + 1);
    }
}

/// No buffer is idle at first, and none that is not managed ever is.
pub proof fn law_unmanaged_buffer_is_not_idle(m: ManagedBuffers, buf: BufferId, idle: bool)
    requires
        call_ensures(ManagedBuffers::buffer_is_idle, (&m, buf), idle),
        !is_managed(m, buf),
    ensures
        !idle,
{
    lemma_first(m@, buf, 0);
}

/// A buffer that is new is idle; once it is attached it is not. Given up while
/// it is attached it is not destroyed, but its release is waited for, and that
/// destroys it.
pub proof fn law_attached_buffer_waits_for_its_release(
    a: &mut ManagedBuffers,
    buf: BufferId,
    at_first: bool,
    b: &mut ManagedBuffers,
    attached: bool,
    c: &mut ManagedBuffers,
    fate: Retired,
    d: &mut ManagedBuffers,
    destroyed: bool,
)
    requires
        !is_managed(*old(a), buf),
        call_ensures(ManagedBuffers::track_buffer, (a, buf), ()),
        call_ensures(ManagedBuffers::buffer_is_idle, (&*final(a), buf), at_first),
        *b == *final(a),
        call_ensures(ManagedBuffers::mark_attached, (b, buf), ()),
        call_ensures(ManagedBuffers::buffer_is_idle, (&*final(b), buf), attached),
        *c == *final(b),
        call_ensures(ManagedBuffers::retire_buffer, (c, buf), fate),
        *d == *final(c),
        call_ensures(ManagedBuffers::note_buffer_release, (d, buf), destroyed),
    ensures
        at_first && !attached,
        fate == Retired::Deferred,
        destroyed,
        final(d)@.len() == old(a)@.len(),
{
    let m = old(a)@;
    lemma_first(m, buf, 0);
    if buffers::first_of(m, buf) is Some {
        let k = buffers::first_of(m, buf)->0;
        assert(m[k].buf == buf);
    }
    lemma_pushed(m, ManagedBuffer { buf, released: true, doomed: false }, buf, 0);
    lemma_same(final(a)@, final(b)@, buf, 0);
    lemma_same(final(b)@, final(c)@, buf, 0);
}

/// A buffer that was released is idle again, is not destroyed by its release,
/// and is destroyed at once when it is given up.
pub proof fn law_released_buffer_is_idle_again(
    a: &mut ManagedBuffers,
    buf: BufferId,
    b: &mut ManagedBuffers,
    c: &mut ManagedBuffers,
    destroyed: bool,
    idle: bool,
    d: &mut ManagedBuffers,
    fate: Retired,
)
    requires
        !is_managed(*old(a), buf),
        call_ensures(ManagedBuffers::track_buffer, (a, buf), ()),
        *b == *final(a),
        call_ensures(ManagedBuffers::mark_attached, (b, buf), ()),
        *c == *final(b),
        call_ensures(ManagedBuffers::note_buffer_release, (c, buf), destroyed),
        call_ensures(ManagedBuffers::buffer_is_idle, (&*final(c), buf), idle),
        *d == *final(c),
        call_ensures(ManagedBuffers::retire_buffer, (d, buf), fate),
    ensures
        !destroyed,
        idle,
        fate == Retired::Destroy,
        final(d)@.len() == old(a)@.len(),
{
    let m = old(a)@;
    lemma_first(m, buf, 0);
    if buffers::first_of(m, buf) is Some {
        let k = buffers::first_of(m, buf)->0;
        assert(m[k].buf == buf);
    }
    lemma_pushed(m, ManagedBuffer { buf, released: true, doomed: false }, buf, 0);
    lemma_same(final(a)@, final(b)@, buf, 0);
    lemma_same(final(b)@, final(c)@, buf, 0);
}

/// A buffer that was never managed is not destroyed when it is given up, but on
/// its next release.
pub proof fn law_unmanaged_buffer_goes_on_release(
    a: &mut ManagedBuffers,
    buf: BufferId,
    fate: Retired,
    b: &mut ManagedBuffers,
    destroyed: bool,
    n: &mut ManagedBuffers,
    unknown: bool,
)
    requires
        !is_managed(*old(a), buf),
        call_ensures(ManagedBuffers::retire_buffer, (a, buf), fate),
        *b == *final(a),
        call_ensures(ManagedBuffers::note_buffer_release, (b, buf), destroyed),
        *n == *old(a),
        call_ensures(ManagedBuffers::note_buffer_release, (n, buf), unknown),
    ensures
        fate == Retired::Untracked,
        destroyed,
        !unknown && final(n)@ == old(n)@,
{
    let m = old(a)@;
    lemma_first(m, buf, 0);
    if buffers::first_of(m, buf) is Some {
        let k = buffers::first_of(m, buf)->0;
        assert(m[k].buf == buf);
    }
    lemma_pushed(m, ManagedBuffer { buf, released: false, doomed: true }, buf, 0);
}

/// What is done to one buffer does not change whether another is idle.
pub proof fn law_other_buffers_stay_as_they_are(
    a: &mut ManagedBuffers,
    b: &mut ManagedBuffers,
    c: &mut ManagedBuffers,
    d: &mut ManagedBuffers,
    buf: BufferId,
    other: BufferId,
    fate: Retired,
    destroyed: bool,
    idle: bool,
    tracked_idle: bool,
    attached_idle: bool,
    retired_idle: bool,
    released_idle: bool,
)
    requires
        buf != other,
        is_managed_once(*old(a), other),
        *b == *old(a) && *c == *old(a) && *d == *old(a),
        call_ensures(ManagedBuffers::buffer_is_idle, (&*old(a), other), idle),
        call_ensures(ManagedBuffers::track_buffer, (a, buf), ()),
        call_ensures(ManagedBuffers::buffer_is_idle, (&*final(a), other), tracked_idle),
        call_ensures(ManagedBuffers::mark_attached, (b, buf), ()),
        call_ensures(ManagedBuffers::buffer_is_idle, (&*final(b), other), attached_idle),
        call_ensures(ManagedBuffers::retire_buffer, (c, buf), fate),
        call_ensures(ManagedBuffers::buffer_is_idle, (&*final(c), other), retired_idle),
        call_ensures(ManagedBuffers::note_buffer_release, (d, buf), destroyed),
        call_ensures(ManagedBuffers::buffer_is_idle, (&*final(d), other), released_idle),
    ensures
        tracked_idle == idle,
        attached_idle == idle,
        retired_idle == idle,
        released_idle == idle,
{
    assert(buffers::is_single(old(a)@, other));
    buffers::law_buffers_are_independent(old(a)@, buf, other);
}

/// Giving a buffer up asks for its destruction exactly where the compositor
/// does not read it; without a buffer nothing is done.
pub proof fn law_giving_up_destroys_idle_buffers(
    a: &mut ManagedBuffers,
    buf: BufferId,
    out: &mut Vec<Request>,
    idle: bool,
    n: &mut ManagedBuffers,
    n_out: &mut Vec<Request>,
)
    requires
        call_ensures(ManagedBuffers::buffer_is_idle, (&*old(a), buf), idle),
        call_ensures(buffers::retire_into, (a, Some(buf), out), ()),
        call_ensures(buffers::retire_into, (n, None, n_out), ()),
    ensures
        final(out)@ == if idle {
            old(out)@.push(Request::DestroyBuffer(buf))
        } else {
            old(out)@
        },
        final(n)@ == old(n)@ && final(n_out)@ == old(n_out)@,
{
    assert(final(out)@ =~= if idle {
        old(out)@.push(Request::DestroyBuffer(buf))
    } else {
        old(out)@
    });
}

/// A format code holds its four characters, the first one lowest.
pub proof fn law_format_code_holds_its_characters(a: u8, b: u8, c: u8, d: u8, r: u32)
    requires
        call_ensures(buffers::fourcc, (a, b, c, d), r),
    ensures
        r % 0x100 == a,
        r / 0x100 % 0x100 == b,
        r / 0x1_0000 % 0x100 == c,
        r / 0x100_0000 == d,
        a == 'A' as u8 && b == 'R' as u8 && c == '2' as u8 && d == '4' as u8 ==> r
            == buffers::DRM_FORMAT_ARGB8888,
{
    assert(r == a + b * 0x100 + c * 0x1_0000 + d * 0x100_0000);
}

/// The halves of a modifier are its high and its low word.
pub proof fn law_modifier_is_halved(modifier: u64, r: (u32, u32))
    requires
        call_ensures(buffers::modifier_halves, (modifier,), r),
    ensures
        r.0 == modifier / 0x1_0000_0000,
        r.1 == modifier % 0x1_0000_0000,
{
}

/// A picture has a layout exactly where it has a size, its bytes can be
/// counted, and there are enough of them; a row is four bytes a pixel.
pub proof fn law_picture_has_four_bytes_a_pixel(
    w: i32,
    h: i32,
    available: usize,
    r: Option<ShmLayout>,
)
    requires
        call_ensures(buffers::shm_layout, (w, h, available), r),
        0 < w && 0 < h,
    ensures
        w * 4 * h <= 0x7fff_ffff && w * 4 * h <= available ==> r is Some,
        w * 4 * h > available || w * 4 * h > 0x7fff_ffff ==> r is None,
        r matches Some(l) ==> l.stride == w * 4 && l.size == l.stride * h && l.size <= available,
{
    assert(0 < w * 4 * h) by (nonlinear_arith)
        requires
            0 < w,
            0 < h,
    ;
    assert(w * 4 <= w * 4 * h) by (nonlinear_arith)
        requires
            0 < w,
            0 < h,
    ;
}

/// A pixel is held blue first and is opaque.
pub proof fn law_pixel_is_held_blue_first(r: u8, g: u8, b: u8, p: [u8; 4])
    requires
        call_ensures(buffers::solid_pixel, (r, g, b), p),
    ensures
        p@[0] == b && p@[1] == g && p@[2] == r && p@[3] == 255,
{
}

/// All buffers of a pool are handed out when it is emptied, in its order.
pub proof fn law_emptied_pool_hands_its_buffers_out(pool: &mut DmabufPool, r: Vec<BufferId>, k: int)
    requires
        call_ensures(DmabufPool::drain, (pool,), r),
        0 <= k < old(pool)@.len(),
    ensures
        final(pool)@.len() == 0,
        r@.len() == old(pool)@.len(),
        r@[k] == old(pool)@[k].buf,
{
}

proof fn lemma_entry_at(pool: Seq<DmabufBuf>, id: TextureId, k: int, from: int)
    requires
        0 <= from <= k < pool.len(),
        pool[k].id == id,
        forall|a: int, b: int| 0 <= a < b < pool.len() ==> pool[a].id != pool[b].id,
    ensures
        dmabuf_pool::entry_from(pool, id, from) == Some(pool[k]),
    decreases k - from,
{
    if from < k {
        assert(pool[from].id != pool[k].id);
        lemma_entry_at(pool, id, k, from + 1);
    }
}

proof fn lemma_entry_in(pool: Seq<DmabufBuf>, id: TextureId, from: int) -> (k: int)
    requires
        0 <= from,
        dmabuf_pool::entry_from(pool, id, from) is Some,
    ensures
        from <= k < pool.len(),
        pool[k].id == id,
        dmabuf_pool::entry_from(pool, id, from) == Some(pool[k]),
    decreases pool.len() - from,
{
    if pool[from].id == id {
        from
    } else {
        lemma_entry_in(pool, id, from + 1)
    }
}

proof fn lemma_others(pool: Seq<DmabufBuf>, id: TextureId)
    requires
        forall|k: int| 0 <= k < pool.len() ==> (#[trigger] pool[k]).id != id,
    ensures
        dmabuf_pool::others(pool, id) == pool,
    decreases pool.len(),
{
    reveal(Seq::filter);
    if pool.len() > 0 {
        let rest = pool.drop_last();
        assert forall|k: int| 0 <= k < rest.len() implies (#[trigger] rest[k]).id != id by {
            assert(rest[k] == pool[k]);
        }
        lemma_others(rest, id);
        assert(pool[pool.len() - 1].id != id);
        assert(dmabuf_pool::others(pool, id) =~= rest.push(pool.last()));
    }
}

/// A frame of a texture is given the buffer that is kept for it, where that one
/// has its shape and is idle; else it is given the new one. The buffer that it
/// is given is in front of the pool.
pub proof fn law_frame_is_given_its_buffer(
    pool: &mut DmabufPool,
    m: &mut ManagedBuffers,
    id: TextureId,
    shape: FrameShape,
    fresh: BufferId,
    out: &mut Vec<Request>,
    r: DmabufLease,
    k: int,
    idle: bool,
)
    requires
        dmabuf_pool::is_pool(old(pool)@),
        0 <= k < old(pool)@.len(),
        old(pool)@[k].id == id,
        call_ensures(ManagedBuffers::buffer_is_idle, (&*old(m), old(pool)@[k].buf), idle),
        call_ensures(
            DmabufPool::get_or_create_dmabuf,
            (pool, m, Some(id), shape, fresh, out),
            r,
        ),
    ensures
        old(pool)@[k].shape == shape && idle ==> {
            &&& r == DmabufLease::Reused(old(pool)@[k].buf)
            &&& final(pool)@[0] == old(pool)@[k]
            &&& final(m)@ == old(m)@
            &&& final(out)@ == old(out)@
        },
        old(pool)@[k].shape != shape || !idle ==> {
            &&& r == DmabufLease::Pooled(fresh)
            &&& final(pool)@[0] == (DmabufBuf { id, shape, buf: fresh })
            &&& idle ==> final(out)@[old(out)@.len() as int] == Request::DestroyBuffer(
                old(pool)@[k].buf,
            )
        },
{
    lemma_entry_at(old(pool)@, id, k, 0);
    if old(pool)@[k].shape == shape && idle {
        assert(final(out)@ =~= old(out)@);
    }
}

/// A texture that is new to the pool is given a new buffer in front of it. In a
/// full pool the one at the end gives way and is given up; all others stay, in
/// their order.
pub proof fn law_full_pool_gives_up_its_last(
    pool: &mut DmabufPool,
    m: &mut ManagedBuffers,
    id: TextureId,
    shape: FrameShape,
    fresh: BufferId,
    out: &mut Vec<Request>,
    r: DmabufLease,
    j: int,
)
    requires
        dmabuf_pool::is_pool(old(pool)@),
        forall|k: int| 0 <= k < old(pool)@.len() ==> (#[trigger] old(pool)@[k]).id != id,
        call_ensures(
            DmabufPool::get_or_create_dmabuf,
            (pool, m, Some(id), shape, fresh, out),
            r,
        ),
    ensures
        r == DmabufLease::Pooled(fresh),
        final(pool)@[0] == (DmabufBuf { id, shape, buf: fresh }),
        final(pool)@.len() == if old(pool)@.len() < 16 {
            old(pool)@.len() + 1
        } else {
            16
        },
        0 < j < final(pool)@.len() ==> final(pool)@[j] == old(pool)@[j - 1],
        old(pool)@.len() < 16 ==> final(out)@ == old(out)@,
{
    let before = old(pool)@;
    lemma_others(before, id);
    if dmabuf_pool::entry_of(before, id) is Some {
        let k = lemma_entry_in(before, id, 0);
        assert(before[k].id != id);
    }
    if before.len() < 16 {
        assert(final(out)@ =~= old(out)@);
    }
}

/// A frame without a texture is given a new buffer that is not kept.
pub proof fn law_nameless_frame_is_not_kept(
    pool: &mut DmabufPool,
    m: &mut ManagedBuffers,
    shape: FrameShape,
    fresh: BufferId,
    out: &mut Vec<Request>,
    r: DmabufLease,
)
    requires
        dmabuf_pool::is_pool(old(pool)@),
        call_ensures(DmabufPool::get_or_create_dmabuf, (pool, m, None, shape, fresh, out), r),
    ensures
        r == DmabufLease::OneShot(fresh),
        final(pool)@ == old(pool)@,
        final(out)@ == old(out)@,
        is_managed(*final(m), fresh),
{
    assert(final(out)@ =~= old(out)@);
    let n = old(m)@.len() as int;
    assert(final(m)@[n].buf == fresh);
}

/// A layer that is added is in the order, on top where it was not there; a
/// layer that is removed is not, and the others are.
pub proof fn law_layers_come_and_go(
    a: &mut Scene,
    id: LayerId,
    added: Vec<Effect>,
    b: &mut Scene,
    removed: Vec<Effect>,
    other: LayerId,
)
    requires
        call_ensures(scene::reduce, (a, SceneEvent::LayerAdded(id)), added),
        call_ensures(scene::reduce, (b, SceneEvent::LayerRemoved(id)), removed),
    ensures
        final(a).order().contains(id),
        old(a).order().contains(id) ==> final(a).order() == old(a).order(),
        !old(a).order().contains(id) ==> final(a).order().last() == id
            && final(a).order().drop_last() == old(a).order(),
        final(b).order().contains(other) == (other != id && old(b).order().contains(other)),
{
    let before = old(a).order();
    if !before.contains(id) {
        assert(final(a).order()[before.len() as int] == id);
        assert(final(a).order().drop_last() =~= before);
    } else {
        assert(final(a).order() == before);
    }
    scene::law_removal_is_exact(old(b).order(), id, other);
}

/// A restack keeps exactly the layers that are both known and listed.
pub proof fn law_restack_keeps_known_layers(
    a: &mut Scene,
    list: Vec<LayerId>,
    r: Vec<Effect>,
    id: LayerId,
)
    requires
        call_ensures(scene::reduce, (a, SceneEvent::Restack(list)), r),
    ensures
        final(a).order().contains(id) == (old(a).order().contains(id) && list@.contains(id)),
{
    let known = old(a).order();
    lemma_known(list@, known, id);
}

proof fn lemma_known(list: Seq<LayerId>, known: Seq<LayerId>, id: LayerId)
    ensures
        scene::known_of(list, known).contains(id) == (known.contains(id) && list.contains(id)),
    decreases list.len(),
{
    reveal(Seq::filter);
    let after = scene::known_of(list, known);
    if list.len() > 0 {
        let rest = list.drop_last();
        let before = scene::known_of(rest, known);
        lemma_known(rest, known, id);
        assert(after == if known.contains(list.last()) {
            before.push(list.last())
        } else {
            before
        });
        assert(list[list.len() - 1] == list.last());
        if before.contains(id) {
            let k = choose|k: int| 0 <= k < before.len() && before[k] == id;
            assert(after[k] == id);
        }
        if rest.contains(id) {
            let k = choose|k: int| 0 <= k < rest.len() && rest[k] == id;
            assert(list[k] == id);
        }
        if list.contains(id) && list.last() != id {
            let k = choose|k: int| 0 <= k < list.len() && list[k] == id;
            assert(rest[k] == id);
        }
        if list.last() == id && known.contains(id) {
            assert(after[before.len() as int] == id);
        }
        if after.contains(id) && !before.contains(id) {
            let k = choose|k: int| 0 <= k < after.len() && after[k] == id;
            if k < before.len() {
                assert(before[k] == id);
            }
        }
    }
}

/// What is told of a change is the whole new order: every layer right above the
/// one before it, the first above the parent, and one commit at the end; and
/// nothing where the order was told already.
pub proof fn law_whole_order_is_told(scene: &mut Scene, ev: SceneEvent, r: Vec<Effect>, k: int)
    requires
        call_ensures(scene::reduce, (scene, ev), r),
        0 <= k < final(scene).order().len(),
    ensures
        final(scene).settled(),
        old(scene).applied() == final(scene).order() ==> r@.len() == 0,
        old(scene).applied() != final(scene).order() ==> {
            &&& r@.len() == final(scene).order().len() + 1
            &&& r@.last() == Effect::CommitParent
            &&& r@[k] is PlaceAbove && r@[k]->layer == final(scene).order()[k]
            &&& r@[k]->above == if k == 0 {
                Above::Parent
            } else {
                Above::Layer(final(scene).order()[k - 1])
            }
        },
{
}

/// There are no buffers, no kept buffers and no layers at first.
pub proof fn law_all_is_empty_at_first(m: ManagedBuffers, pool: DmabufPool, scene: Scene)
    requires
        call_ensures(ManagedBuffers::default, (), m),
        call_ensures(DmabufPool::default, (), pool),
        call_ensures(Scene::default, (), scene),
    ensures
        m@.len() == 0 && pool@.len() == 0,
        scene.order().len() == 0 && scene.settled(),
{
}

/// A commit of the parent asks for one; a layer is placed above another where
/// it has a place and the other a surface, and above the parent never. Requests
/// are added at the end.
pub proof fn law_effects_become_requests(
    a: &mut WlSink,
    b: &mut WlSink,
    layer: LayerId,
    c: &mut WlSink,
    sibling: LayerId,
    i: int,
    j: int,
)
    requires
        call_ensures(<WlSink as SceneSink>::apply, (a, &Effect::CommitParent), ()),
        call_ensures(
            <WlSink as SceneSink>::apply,
            (b, &Effect::PlaceAbove { layer, above: Above::Parent }),
            (),
        ),
        call_ensures(
            <WlSink as SceneSink>::apply,
            (c, &Effect::PlaceAbove { layer, above: Above::Layer(sibling) }),
            (),
        ),
        layer.0 != 0 && sibling.0 != 0,
        0 <= i < old(c).layers@.len() && old(c).layers@[i].id == layer,
        forall|k: int| 0 <= k < i ==> (#[trigger] old(c).layers@[k]).id != layer,
        0 <= j < old(c).layers@.len() && old(c).layers@[j].id == sibling,
        forall|k: int| 0 <= k < j ==> (#[trigger] old(c).layers@[k]).id != sibling,
    ensures
        final(a).requests@ == old(a).requests@.push(SinkRequest::RequestPresent),
        final(b).requests@ == old(b).requests@,
        final(c).requests@ == if old(c).layers@[i].has_subsurface
            && old(c).layers@[j].has_surface {
            old(c).requests@.push(SinkRequest::PlaceAbove { layer, sibling })
        } else {
            old(c).requests@
        },
        final(c).layers == old(c).layers,
{
    lemma_objects(old(c).layers@, i);
    lemma_objects(old(c).layers@, j);
}

proof fn lemma_objects(layers: Seq<LayerObjects>, i: int)
    requires
        0 <= i < layers.len(),
        layers[i].id.0 != 0,
        forall|k: int| 0 <= k < i ==> (#[trigger] layers[k]).id != layers[i].id,
    ensures
        scene::sink::objects_of(layers, layers[i].id) == Some(layers[i]),
    decreases layers.len(),
{
    if i > 0 {
        assert(layers[0].id != layers[i].id);
        let rest = layers.drop_first();
        assert forall|k: int| 0 <= k < i - 1 implies (#[trigger] rest[k]).id != layers[i].id by {
            assert(rest[k] == layers[k + 1]);
        }
        assert(rest[i - 1] == layers[i]);
        lemma_objects(rest, i - 1);
    }
}

} // verus!
