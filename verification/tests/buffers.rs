use jellyfin_desktop::wayland::buffers::{
    fourcc, modifier_halves, retire_into, shm_layout, solid_pixel, ManagedBuffers, Retired,
    DRM_FORMAT_ARGB8888,
};
use jellyfin_desktop::wayland::dmabuf_pool::{
    DmabufLease, DmabufPool, FrameShape, TextureId, DMABUF_POOL_CAP,
};
use jellyfin_desktop::wayland::requests::Request;

#[test]
fn a_read_buffer_outlives_its_retirement() {
    let mut m = ManagedBuffers::default();
    m.track_buffer(1);
    m.mark_attached(1);
    assert!(!m.buffer_is_idle(1));
    assert_eq!(m.retire_buffer(1), Retired::Deferred);
    assert!(m.note_buffer_release(1));
    assert!(!m.note_buffer_release(1));
}

#[test]
fn an_idle_buffer_goes_at_once() {
    let mut m = ManagedBuffers::default();
    m.track_buffer(1);
    m.mark_attached(1);
    assert!(!m.note_buffer_release(1));
    assert!(m.buffer_is_idle(1));
    assert_eq!(m.retire_buffer(1), Retired::Destroy);
    assert!(!m.buffer_is_idle(1));
}

#[test]
fn an_untracked_buffer_is_kept_until_a_release() {
    let mut m = ManagedBuffers::default();
    m.mark_attached(5);
    assert!(!m.buffer_is_idle(5));
    assert_eq!(m.retire_buffer(5), Retired::Untracked);
    assert!(m.note_buffer_release(5));
}

#[test]
fn a_buffer_tracked_twice_keeps_its_first_entry() {
    let mut m = ManagedBuffers::default();
    m.track_buffer(1);
    m.mark_attached(1);
    m.track_buffer(1);
    assert!(!m.buffer_is_idle(1));
    assert_eq!(m.retire_buffer(1), Retired::Deferred);
    assert!(m.note_buffer_release(1));
    assert!(m.buffer_is_idle(1));
    assert_eq!(m.retire_buffer(1), Retired::Destroy);
    assert!(!m.buffer_is_idle(1));
}

#[test]
fn the_last_entry_takes_the_place_of_one_that_goes() {
    let mut m = ManagedBuffers::default();
    m.track_buffer(9);
    m.track_buffer(1);
    m.mark_attached(1);
    m.track_buffer(1);
    assert!(!m.buffer_is_idle(1));
    assert_eq!(m.retire_buffer(9), Retired::Destroy);
    assert!(m.buffer_is_idle(1));
}

#[test]
fn buffers_are_independent() {
    let mut m = ManagedBuffers::default();
    m.track_buffer(1);
    m.track_buffer(2);
    m.mark_attached(1);
    assert!(m.buffer_is_idle(2));
    m.retire_buffer(1);
    assert!(m.buffer_is_idle(2));
}

#[test]
fn retiring_adds_the_request_it_leads_to() {
    let mut m = ManagedBuffers::default();
    let mut out = Vec::new();
    retire_into(&mut m, None, &mut out);
    m.track_buffer(1);
    retire_into(&mut m, Some(1), &mut out);
    m.track_buffer(2);
    m.mark_attached(2);
    retire_into(&mut m, Some(2), &mut out);
    assert_eq!(out, vec![Request::DestroyBuffer(1)]);
}

#[test]
fn format_codes_and_modifiers() {
    assert_eq!(fourcc(b'A', b'R', b'2', b'4'), DRM_FORMAT_ARGB8888);
    assert_eq!(fourcc(1, 2, 3, 4), 0x0403_0201);
    assert_eq!(modifier_halves(0x0102_0304_0506_0708), (0x0102_0304, 0x0506_0708));
}

#[test]
fn layouts_of_shared_memory() {
    let l = shm_layout(3, 2, 24).unwrap();
    assert_eq!((l.stride, l.size), (12, 24));
    assert_eq!(shm_layout(3, 2, 23), None);
    assert_eq!(shm_layout(0, 2, 100), None);
    assert_eq!(shm_layout(3, -2, 100), None);
    assert_eq!(shm_layout(i32::MAX, 1, usize::MAX), None);
    assert_eq!(shm_layout(30000, 30000, usize::MAX), None);
    assert_eq!(shm_layout(-1, -1, 100).map(|l| l.size), Some(4));
    assert_eq!(solid_pixel(1, 2, 3), [3, 2, 1, 255]);
}

const SHAPE: FrameShape = FrameShape {
    w: 64,
    h: 32,
    stride: 256,
    modifier: 0,
};

#[test]
fn a_frame_finds_its_buffer_again() {
    let mut pool = DmabufPool::default();
    let mut m = ManagedBuffers::default();
    let mut out = Vec::new();
    let id = Some(TextureId(1, 1));
    let first = pool.get_or_create_dmabuf(&mut m, id, SHAPE, 10, &mut out);
    assert_eq!(first, DmabufLease::Pooled(10));
    let again = pool.get_or_create_dmabuf(&mut m, id, SHAPE, 11, &mut out);
    assert_eq!(again, DmabufLease::Reused(10));
    assert_eq!(out, vec![]);
}

#[test]
fn a_buffer_that_is_read_is_not_used_again() {
    let mut pool = DmabufPool::default();
    let mut m = ManagedBuffers::default();
    let mut out = Vec::new();
    let id = Some(TextureId(1, 1));
    pool.get_or_create_dmabuf(&mut m, id, SHAPE, 10, &mut out);
    m.mark_attached(10);
    let next = pool.get_or_create_dmabuf(&mut m, id, SHAPE, 11, &mut out);
    assert_eq!(next, DmabufLease::Pooled(11));
    assert_eq!(out, vec![]);
    assert!(m.note_buffer_release(10));
    assert_eq!(pool.drain(), vec![11]);
}

#[test]
fn another_shape_replaces_the_buffer() {
    let mut pool = DmabufPool::default();
    let mut m = ManagedBuffers::default();
    let mut out = Vec::new();
    let id = Some(TextureId(1, 1));
    pool.get_or_create_dmabuf(&mut m, id, SHAPE, 10, &mut out);
    let wide = FrameShape { w: 65, ..SHAPE };
    assert_eq!(
        pool.get_or_create_dmabuf(&mut m, id, wide, 11, &mut out),
        DmabufLease::Pooled(11)
    );
    assert_eq!(out, vec![Request::DestroyBuffer(10)]);
}

#[test]
fn frames_without_a_texture_are_not_kept() {
    let mut pool = DmabufPool::default();
    let mut m = ManagedBuffers::default();
    let mut out = Vec::new();
    assert_eq!(
        pool.get_or_create_dmabuf(&mut m, None, SHAPE, 10, &mut out),
        DmabufLease::OneShot(10)
    );
    assert!(m.buffer_is_idle(10));
    assert_eq!(pool.drain(), Vec::<u64>::new());
}

#[test]
fn a_full_pool_gives_up_what_was_used_longest_ago() {
    let mut pool = DmabufPool::default();
    let mut m = ManagedBuffers::default();
    let mut out = Vec::new();
    for i in 0..DMABUF_POOL_CAP as u64 {
        pool.get_or_create_dmabuf(&mut m, Some(TextureId(0, i)), SHAPE, 100 + i, &mut out);
    }
    pool.get_or_create_dmabuf(&mut m, Some(TextureId(0, 0)), SHAPE, 200, &mut out);
    assert_eq!(out, vec![]);
    pool.get_or_create_dmabuf(&mut m, Some(TextureId(0, 99)), SHAPE, 201, &mut out);
    assert_eq!(out, vec![Request::DestroyBuffer(101)]);
    let kept = pool.drain();
    assert_eq!(kept.len(), DMABUF_POOL_CAP);
    assert_eq!(&kept[..2], &[201, 100]);
}
