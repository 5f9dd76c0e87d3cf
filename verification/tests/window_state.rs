use jellyfin_desktop::bits::{positive_f32, positive_f64, positive_scale};
use jellyfin_desktop::platform_abi::PhysicalSize;
use jellyfin_desktop::wayland::window_state as ws;
use jellyfin_desktop::wayland::window_state::{WaylandWindowSource, WindowSize, WlWindowState};

#[test]
fn patterns_tell_positive_numbers() {
    assert!(positive_f32(1.0f32.to_bits()));
    assert!(positive_f32(f32::MIN_POSITIVE.to_bits()));
    assert!(positive_f32(f32::INFINITY.to_bits()));
    assert!(!positive_f32(0.0f32.to_bits()));
    assert!(!positive_f32((-0.0f32).to_bits()));
    assert!(!positive_f32((-1.0f32).to_bits()));
    assert!(!positive_f32(f32::NAN.to_bits()));
    assert!(positive_f64(60.0f64.to_bits()));
    assert!(!positive_f64((-60.0f64).to_bits()));
    assert!(!positive_f64(f64::NAN.to_bits()));
    assert!(!positive_f64(0));
    assert_eq!(positive_scale(0), 1.0f32.to_bits());
    assert_eq!(positive_scale(1.5f32.to_bits()), 1.5f32.to_bits());
}

#[test]
fn unpacking_inverts_packing() {
    for (w, h) in [(1920, 1080), (0, 0), (-1, 7), (i32::MIN, i32::MAX)] {
        assert_eq!(ws::unpack_size(ws::pack_size(w, h)), (w, h));
    }
    assert_eq!(ws::pack_size(1, 2), 0x1_0000_0002);
}

#[test]
fn sizes_are_positive() {
    assert_eq!(WindowSize::new(2, 3), Some(WindowSize { w: 2, h: 3 }));
    assert_eq!(WindowSize::new(0, 3), None);
    assert_eq!(WindowSize::new(2, -3), None);
}

#[test]
fn nothing_is_known_before_the_first_configure() {
    let st = WlWindowState::default();
    assert_eq!(ws::window_logical_size(&st), None);
    assert!(!ws::jfn_wl_scale_known(&st));
    assert_eq!(ws::jfn_wl_get_cached_scale(&st), 1.0f32.to_bits());
    assert!(!ws::jfn_wl_window_size_known(&st));
    assert_eq!(ws::jfn_wl_window_size(&st), (0, 0));
    assert_eq!(WaylandWindowSource.size(&st), None);
    assert_eq!(WaylandWindowSource.position(), None);
}

#[test]
fn a_configure_is_seen_by_every_reader() {
    let mut st = WlWindowState::default();
    assert_eq!(ws::feed_scale(&mut st, 180, 1.5f32.to_bits()), Some(true));
    let c = ws::on_configure(&mut st, 1280, 720, 1920, 1080, true, false, true).unwrap();
    assert_eq!((c.osd_w, c.osd_h), (1920, 1080));
    assert_eq!(c.osd_scale_bits, 1.5f32.to_bits());
    assert!(c.configure_surfaces && c.fullscreen && !c.maximized);
    assert_eq!(ws::window_logical_size(&st), WindowSize::new(1280, 720));
    assert_eq!(ws::jfn_wl_window_size(&st), (1920, 1080));
    assert!(ws::jfn_wl_window_fullscreen(&st));
    assert!(!ws::jfn_wl_window_maximized(&st));
    let source = WaylandWindowSource;
    assert_eq!(source.size(&st), Some(PhysicalSize { w: 1920, h: 1080 }));
    assert!(source.fullscreen(&st) && !source.maximized(&st));
    assert_eq!(source.scale(&st), 1.5f32.to_bits());
}

#[test]
fn a_configure_before_any_surface_posts_a_scale_of_one() {
    let mut st = WlWindowState::default();
    ws::feed_scale(&mut st, 240, 2.0f32.to_bits());
    let c = ws::on_configure(&mut st, 640, 360, 1280, 720, false, true, false).unwrap();
    assert!(!c.configure_surfaces && c.maximized);
    assert_eq!(c.osd_scale_bits, 1.0f32.to_bits());
}

#[test]
fn a_configure_without_a_size_changes_nothing() {
    let mut st = WlWindowState::default();
    let before = st;
    assert_eq!(ws::on_configure(&mut st, 0, 720, 1920, 1080, true, true, true), None);
    assert_eq!(ws::on_configure(&mut st, 1280, 720, 1920, -1, true, true, true), None);
    assert_eq!(st, before);
}

#[test]
fn a_scale_that_is_not_positive_is_dropped() {
    let mut st = WlWindowState::default();
    assert_eq!(ws::feed_scale(&mut st, 0, 0), None);
    assert_eq!(ws::feed_scale(&mut st, 120, 1.0f32.to_bits()), Some(true));
    assert_eq!(ws::feed_scale(&mut st, 240, 2.0f32.to_bits()), Some(false));
    assert_eq!(st.scale_bits, 2.0f32.to_bits());
    assert!(ws::feed_suspended(false));
    assert!(!ws::feed_suspended(true));
}

#[test]
fn a_known_scale_stays_known() {
    let mut st = WlWindowState::default();
    assert!(!ws::jfn_wl_scale_known(&st));
    assert_eq!(ws::jfn_wl_get_cached_scale(&st), 1.0f32.to_bits());
    ws::feed_scale(&mut st, -120, (-1.0f32).to_bits());
    assert!(!ws::jfn_wl_scale_known(&st));
    ws::feed_scale(&mut st, 150, 1.25f32.to_bits());
    ws::feed_scale(&mut st, 180, 1.5f32.to_bits());
    for n in [0, -1, i32::MIN] {
        ws::feed_scale(&mut st, n, 0);
        assert!(ws::jfn_wl_scale_known(&st));
        assert_eq!(ws::jfn_wl_get_cached_scale(&st), 1.5f32.to_bits());
    }
}
