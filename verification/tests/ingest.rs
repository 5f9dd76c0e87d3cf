use jellyfin_desktop::playback::ingest_driver as ingest;
use jellyfin_desktop::playback::ingest_driver::{
    DispatchEffect, EventThread, Handlers, IngestOut, IngestState, LoopEvent, LoopStep, Observed,
    PropertyFormat,
};

fn state() -> IngestState {
    IngestState {
        window_pw: 1,
        window_ph: 2,
        osd_pw: 3,
        osd_ph: 4,
        fullscreen: true,
        window_maximized: false,
        display_scale: 1.5f64.to_bits(),
        display_hz: 60.0f64.to_bits(),
    }
}

#[test]
fn the_cached_state_is_read_back() {
    let mut st = state();
    ingest::jfn_playback_set_window_pixels(&mut st, 10, 20);
    assert_eq!(ingest::jfn_playback_window_pw(&st), 10);
    assert_eq!(ingest::jfn_playback_window_ph(&st), 20);
    assert_eq!(ingest::jfn_playback_osd_pw(&st), 3);
    assert_eq!(ingest::jfn_playback_osd_ph(&st), 4);
    assert!(ingest::jfn_playback_fullscreen(&st));
    assert!(!ingest::jfn_playback_window_maximized(&st));
    assert_eq!(ingest::jfn_playback_display_scale(&st), 1.5f64.to_bits());
    ingest::jfn_playback_set_display_hz(&mut st, 75.0f64.to_bits());
    assert_eq!(ingest::jfn_playback_display_hz(&st), 75.0f64.to_bits());
}

#[test]
fn a_read_rate_must_be_positive() {
    let mut st = state();
    let hz = 144.0f64.to_bits();
    ingest::jfn_playback_seed_display_hz_sync(&mut st, None);
    ingest::jfn_playback_seed_display_hz_sync(&mut st, Some((-1, hz)));
    ingest::jfn_playback_seed_display_hz_sync(&mut st, Some((0, 0)));
    ingest::jfn_playback_seed_display_hz_sync(&mut st, Some((0, f64::NAN.to_bits())));
    assert_eq!(st, state());
    ingest::jfn_playback_seed_display_hz_sync(&mut st, Some((0, hz)));
    assert_eq!(st.display_hz, hz);
}

fn handlers() -> Handlers<u8, u8, u8, u8, u8> {
    Handlers {
        display_scale: None,
        scale: None,
        macos_logical: None,
        fullscreen: None,
        shutdown: None,
    }
}

#[test]
fn outcomes_are_dispatched_in_order() {
    let outs = vec![
        IngestOut::Input('a'),
        IngestOut::DisplayScaleChanged(9),
        IngestOut::Shutdown,
        IngestOut::Input('b'),
    ];
    let mut h = handlers();
    let mut shutdown = false;
    let r = ingest::jfn_playback_ingest_mpv_event_owned(&outs, &h, &mut shutdown);
    assert_eq!(
        r,
        (vec![DispatchEffect::Post('a'), DispatchEffect::Post('b')], 1)
    );
    assert!(shutdown && ingest::ends_loop(r.1));
    ingest::jfn_playback_set_display_scale_handler(&mut h, 1);
    let mut shutdown = false;
    let r = ingest::jfn_playback_ingest_mpv_event_owned(&outs[..2].to_vec(), &h, &mut shutdown);
    assert_eq!(
        r,
        (vec![DispatchEffect::Post('a'), DispatchEffect::CallScale(9)], 0)
    );
    assert!(!shutdown && !ingest::ends_loop(r.1));
    let none: Vec<IngestOut<char>> = vec![];
    assert_eq!(ingest::dispatch(&none, true, &mut shutdown), (vec![], 0));
}

#[test]
fn handlers_replace_one_another() {
    let mut h = handlers();
    ingest::jfn_playback_set_display_scale_handler(&mut h, 1);
    ingest::jfn_playback_set_display_scale_handler(&mut h, 2);
    ingest::jfn_playback_set_scale_provider(&mut h, 3);
    ingest::jfn_playback_set_macos_logical_provider(&mut h, 4);
    ingest::jfn_playback_set_fullscreen_handler(&mut h, 5);
    ingest::jfn_playback_set_shutdown_handler(&mut h, 6);
    assert_eq!(
        [h.display_scale, h.scale, h.macos_logical, h.fullscreen, h.shutdown],
        [Some(2), Some(3), Some(4), Some(5), Some(6)]
    );
}

#[test]
fn a_missing_scale_is_one() {
    assert_eq!(ingest::snapshot_scale(None), 1.0f32.to_bits());
    assert_eq!(ingest::snapshot_scale(Some(0)), 1.0f32.to_bits());
    assert_eq!(ingest::snapshot_scale(Some((-2.0f32).to_bits())), 1.0f32.to_bits());
    assert_eq!(ingest::snapshot_scale(Some(1.25f32.to_bits())), 1.25f32.to_bits());
    let post = ingest::jfn_playback_post_osd_pixels(5, 6, 7, true, 8, 9);
    assert_eq!((post.w, post.h, post.scale_bits), (5, 6, 7));
    assert_eq!(post.macos_logical, Some((8, 9)));
    let post = ingest::jfn_playback_post_osd_pixels(-5, 6, 7, false, 8, 9);
    assert_eq!((post.w, post.macos_logical), (-5, None));
}

#[test]
fn the_picture_size_is_not_observed_under_wayland() {
    assert_eq!(ingest::jfn_playback_observe_mpv_properties(false, 1), None);
    let wayland = ingest::jfn_playback_observe_mpv_properties(true, 0).unwrap();
    assert_eq!(wayland.len(), 13);
    assert!(!wayland.contains(&Observed::OsdDims));
    let x11 = ingest::jfn_playback_observe_mpv_properties(true, 1).unwrap();
    assert_eq!(
        x11,
        vec![
            Observed::DisplayScale,
            Observed::OsdDims,
            Observed::Fullscreen,
            Observed::Pause,
            Observed::TimePos,
            Observed::Duration,
            Observed::Speed,
            Observed::Seeking,
            Observed::DisplayFps,
            Observed::CacheState,
            Observed::WindowMax,
            Observed::PausedForCache,
            Observed::CoreIdle,
            Observed::VideoFrameInfo,
        ]
    );
    assert_eq!(ingest::property_name(Observed::CacheState), "demuxer-cache-state");
    assert_eq!(ingest::property_name(Observed::DisplayScale), "display-hidpi-scale");
    assert_eq!(ingest::property_format(Observed::OsdDims), PropertyFormat::Node);
    assert_eq!(ingest::property_format(Observed::Speed), PropertyFormat::Double);
    assert_eq!(ingest::property_format(Observed::Pause), PropertyFormat::Flag);
}

#[test]
fn the_event_thread_starts_once() {
    let mut t = EventThread { running: false };
    assert!(!ingest::jfn_playback_start_mpv_event_thread(&mut t, false, true));
    assert!(!ingest::jfn_playback_start_mpv_event_thread(&mut t, true, false));
    assert!(ingest::can_start_event_thread(&t, true));
    assert!(ingest::jfn_playback_start_mpv_event_thread(&mut t, true, true));
    assert!(!ingest::jfn_playback_start_mpv_event_thread(&mut t, true, true));
    assert!(ingest::jfn_playback_stop_mpv_event_thread(&mut t));
    assert!(!ingest::jfn_playback_stop_mpv_event_thread(&mut t));
}

#[test]
fn the_loop_looks_at_each_event() {
    assert_eq!(ingest::event_loop(LoopEvent::Nothing), LoopStep::Skip);
    assert_eq!(ingest::event_loop(LoopEvent::LogMessage), LoopStep::ForwardLog);
    assert_eq!(
        ingest::event_loop(LoopEvent::Other),
        LoopStep::Ingest { fullscreen: None }
    );
    let fs = LoopEvent::Property {
        fullscreen: true,
        flag: Some(true),
    };
    assert_eq!(
        ingest::event_loop(fs),
        LoopStep::Ingest {
            fullscreen: Some(true)
        }
    );
    let other = LoopEvent::Property {
        fullscreen: false,
        flag: Some(true),
    };
    assert_eq!(ingest::event_loop(other), LoopStep::Ingest { fullscreen: None });
}
