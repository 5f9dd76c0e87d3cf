use jellyfin_desktop::platform_abi::JfnRect;
use jellyfin_desktop::wayland::gpu_paint_worker as gpu;
use jellyfin_desktop::wayland::requests::Request;
use jellyfin_desktop::wayland::shm_paint_worker as shm;
use jellyfin_desktop::wayland::shm_paint_worker::{
    Presenter, Shadow, ViewportPlan, ViewportState, WorkerTurn,
};

fn rect(x: i32, y: i32, w: i32, h: i32) -> JfnRect {
    JfnRect { x, y, w, h }
}

fn picture(w: u8, h: u8) -> Vec<u8> {
    (0..w * h * 4).collect()
}

const WINDOW: ViewportState = ViewportState {
    lw: 640,
    lh: 360,
    pw: 1280,
    ph: 720,
};

#[test]
fn a_dirty_rectangle_is_cut_to_the_frame() {
    let src = picture(3, 2);
    let p = shm::copy_dirty_rect(&src, 3, 2, &rect(-1, 1, 3, 5)).unwrap();
    assert_eq!((p.x, p.y, p.w, p.h), (0, 1, 2, 1));
    assert_eq!(p.pixels, src[12..20].to_vec());
    let p = shm::copy_dirty_rect(&src, 3, 2, &rect(2, 0, 9, 2)).unwrap();
    assert_eq!((p.x, p.y, p.w, p.h), (2, 0, 1, 2));
    assert_eq!(p.pixels, [&src[8..12], &src[20..24]].concat());
    assert!(shm::copy_dirty_rect(&src, 3, 2, &rect(3, 0, 1, 1)).is_none());
    assert!(shm::copy_dirty_rect(&src, 3, 2, &rect(0, 0, 0, 1)).is_none());
    assert!(shm::copy_dirty_rect(&src, 3, 2, &rect(-5, 0, 5, 1)).is_none());
}

#[test]
fn unusable_frames_are_refused() {
    let mut w = shm::WorkerState::new(WINDOW, true);
    assert!(!w.submit_frame(&picture(2, 2), 0, 2, &[]));
    assert!(!w.submit_frame(&picture(2, 2), 2, -2, &[]));
    assert!(!w.submit_frame(&picture(2, 2), 3, 2, &[]));
    assert!(w.pending.is_none());
}

fn shown(worker: &mut shm::WorkerState, shadow: &mut Shadow) -> Vec<u8> {
    match shm::run_worker(worker) {
        WorkerTurn::Show(frame, viewport) => {
            assert_eq!(viewport, worker.viewport);
            shadow.take_in(frame);
            shadow.pixels.clone()
        }
        other => panic!("{other:?}"),
    }
}

#[test]
fn dirty_parts_restore_the_frame() {
    let mut w = shm::WorkerState::new(WINDOW, true);
    let mut shadow = Shadow::default();
    let mut frame = picture(3, 3);
    assert!(w.submit_frame(&frame, 3, 3, &[rect(0, 0, 1, 1)]));
    assert!(w.pending.as_ref().unwrap().full_pixels.is_some());
    assert_eq!(shown(&mut w, &mut shadow), frame);
    frame[16] = 200;
    frame[17] = 201;
    assert!(w.submit_frame(&frame, 3, 3, &[rect(1, 1, 1, 1)]));
    let pending = w.pending.as_ref().unwrap();
    assert!(pending.full_pixels.is_none());
    assert_eq!(pending.rects.len(), 1);
    assert_eq!(shown(&mut w, &mut shadow), frame);
    assert_eq!(shadow.size, (3, 3));
}

#[test]
fn a_waiting_whole_frame_is_followed_by_a_whole_one() {
    let mut w = shm::WorkerState::new(WINDOW, true);
    let mut shadow = Shadow::default();
    w.submit_frame(&picture(2, 2), 2, 2, &[]);
    let second = vec![9; 16];
    w.submit_frame(&second, 2, 2, &[rect(0, 0, 1, 1)]);
    assert_eq!(shown(&mut w, &mut shadow), second);
}

#[test]
fn a_frame_without_dirty_parts_is_taken_and_not_shown() {
    let mut w = shm::WorkerState::new(WINDOW, true);
    let mut shadow = Shadow::default();
    w.submit_frame(&picture(2, 2), 2, 2, &[]);
    shown(&mut w, &mut shadow);
    assert!(w.submit_frame(&picture(2, 2), 2, 2, &[]));
    assert!(w.submit_frame(&picture(2, 2), 2, 2, &[rect(5, 5, 1, 1)]));
    assert!(matches!(shm::run_worker(&mut w), WorkerTurn::Wait));
}

#[test]
fn a_new_size_starts_from_the_whole_frame() {
    let mut w = shm::WorkerState::new(WINDOW, true);
    let mut shadow = Shadow::default();
    w.submit_frame(&picture(2, 2), 2, 2, &[]);
    shown(&mut w, &mut shadow);
    w.submit_frame(&picture(3, 1), 3, 1, &[]);
    assert_eq!(shown(&mut w, &mut shadow), picture(3, 1));
    assert_eq!(shadow.size, (3, 1));
}

#[test]
fn hiding_drops_the_waiting_frame() {
    let mut w = shm::WorkerState::new(WINDOW, true);
    w.submit_frame(&picture(2, 2), 2, 2, &[]);
    w.set_visible(false);
    assert!(matches!(shm::run_worker(&mut w), WorkerTurn::Wait));
    w.submit_frame(&picture(3, 2), 3, 2, &[]);
    assert!(matches!(shm::run_worker(&mut w), WorkerTurn::Skip));
    w.set_visible(true);
    w.resize(1, 2, 3, 4);
    assert_eq!((w.viewport.lw, w.viewport.ph), (1, 4));
    w.submit_frame(&picture(2, 2), 2, 2, &[]);
    w.shutdown();
    assert!(w.pending.is_none());
    assert!(matches!(shm::run_worker(&mut w), WorkerTurn::Exit));
}

#[test]
fn a_buffer_is_scaled_into_the_window() {
    assert_eq!(
        shm::set_viewport_for_buffer(WINDOW, 1280, 720),
        Some(ViewportPlan {
            source: Some((1280, 720)),
            destination: (640, 360)
        })
    );
    assert_eq!(
        shm::set_viewport_for_buffer(WINDOW, 2000, 101),
        Some(ViewportPlan {
            source: Some((1280, 101)),
            destination: (640, 50)
        })
    );
    assert_eq!(
        shm::set_viewport_for_buffer(WINDOW, 0, 720),
        Some(ViewportPlan {
            source: None,
            destination: (640, 360)
        })
    );
    let unknown = ViewportState { pw: 0, ..WINDOW };
    assert_eq!(shm::set_viewport_for_buffer(unknown, 1280, 720), None);
}

#[test]
fn a_new_buffer_retires_the_one_before() {
    let mut p = Presenter { current: None };
    assert_eq!(p.show(None, None, 4, 5), vec![]);
    let plan = shm::set_viewport_for_buffer(WINDOW, 4, 5);
    p.show(Some(1), plan, 4, 5);
    assert_eq!(
        p.show(Some(2), plan, 4, 5),
        vec![
            Request::RetireBuffer(1),
            Request::SetSource {
                x: 0,
                y: 0,
                w: 4,
                h: 5
            },
            Request::SetDestination { w: 2, h: 2 },
            Request::Attach(2),
            Request::Damage { w: 4, h: 5 },
            Request::Commit,
            Request::Flush,
            Request::RequestPresent,
        ]
    );
    assert_eq!(p.exit(), vec![Request::DestroyBuffer(2), Request::Flush]);
    assert_eq!(p.exit(), vec![Request::Flush]);
}

#[test]
fn the_gpu_worker_paints_the_newest_frame() {
    let mut w = gpu::WorkerState::new((10, 20), true);
    assert!(matches!(gpu::run_worker(&mut w, false), gpu::WorkerTurn::Wait));
    w.submit_frame(&picture(2, 2), 2, 2, vec![rect(0, 0, 1, 1)]);
    w.submit_frame(&[7; 20], 2, 2, vec![]);
    w.submit_frame(&[7; 3], 2, 2, vec![]);
    w.resize((0, 5));
    w.resize((30, 40));
    match gpu::run_worker(&mut w, false) {
        gpu::WorkerTurn::Paint {
            frame,
            target,
            create,
        } => {
            assert_eq!(frame.pixels, vec![7; 16]);
            assert_eq!((frame.width, frame.height, frame.stride), (2, 2, 8));
            assert_eq!(target, (30, 40));
            assert!(create);
        }
        other => panic!("{other:?}"),
    }
    w.submit_frame(&picture(2, 2), 2, 2, vec![]);
    assert!(matches!(
        gpu::run_worker(&mut w, true),
        gpu::WorkerTurn::Paint { create: false, .. }
    ));
    w.set_visible(false);
    w.submit_frame(&picture(2, 2), 2, 2, vec![]);
    assert!(matches!(gpu::run_worker(&mut w, true), gpu::WorkerTurn::Skip));
    w.shutdown();
    assert!(matches!(gpu::run_worker(&mut w, true), gpu::WorkerTurn::Exit));
}
