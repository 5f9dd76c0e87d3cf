use jellyfin_desktop::config::settings::{JfnWindowGeometry, SettingsData};
use jellyfin_desktop::config::store;
use jellyfin_desktop::config::store::{AsyncSave, Pending, State, WorkerStep};
use jellyfin_desktop::platform_abi::WindowDecorations;

fn loaded(text: &str) -> State {
    let mut st = State::default();
    assert!(store::settings_load(&mut st, Some(text)).is_some());
    st
}

#[test]
fn a_fresh_store_holds_the_defaults() {
    let st = State::default();
    assert_eq!(store::server_url(&st), "");
    assert_eq!(store::hwdec(&st), "");
    assert_eq!(store::device_name(&st), "");
    assert!(store::transparent_titlebar(&st));
    assert!(store::hide_scrollbar(&st));
    assert!(!store::audio_exclusive(&st));
    assert!(!store::force_transcoding(&st));
    assert!(!store::disable_gpu_compositing(&st));
    let g = store::window_geometry(&st);
    assert_eq!((g.x, g.y, g.width, g.height), (-1, -1, 0, 0));
    assert_eq!((g.logical_width, g.logical_height, g.scale_bits), (0, 0, 0));
    assert!(!g.maximized);
    assert!(st.path.is_empty());
}

#[test]
fn only_the_first_path_sticks() {
    let mut st = State::default();
    store::settings_init(&mut st, b"/a/settings.json");
    store::settings_init(&mut st, b"/b/settings.json");
    assert_eq!(st.path, b"/a/settings.json".to_vec());
}

#[test]
fn an_unreadable_file_changes_nothing() {
    let mut st = State::default();
    store::set_server_url(&mut st, "http://old");
    assert!(store::settings_load(&mut st, None).is_none());
    assert!(store::settings_load(&mut st, Some("not json")).is_none());
    assert!(store::settings_load(&mut st, Some("[1, 2]")).is_none());
    assert_eq!(store::server_url(&st), "http://old");
}

#[test]
fn a_file_is_laid_over_the_settings() {
    let mut st = State::default();
    store::set_log_level(&mut st, "debug");
    let text = "{\"serverUrl\": \"http://host\", \"hwdec\": \"vaapi\", \"windowX\": 10, \
                \"windowWidth\": 1280, \"windowMaximized\": true, \"hideScrollbar\": false, \
                \"audioChannels\": 7, \"windowScale\": 1.5, \"windowDecorations\": \"csd\"}";
    let rest = store::settings_load(&mut st, Some(text)).unwrap();
    assert_eq!(store::server_url(&st), "http://host");
    assert_eq!(store::hwdec(&st), "vaapi");
    assert_eq!(store::log_level(&st), "debug");
    assert_eq!(store::audio_channels(&st), "");
    assert!(!store::hide_scrollbar(&st));
    let g = store::window_geometry(&st);
    assert_eq!((g.x, g.y, g.width, g.height), (10, -1, 1280, 0));
    assert!(g.maximized);
    assert_eq!(g.scale_bits, 0);
    assert_eq!(rest.window_scale, Some(1.5f64.to_bits()));
    assert_eq!(rest.window_decorations, Some("csd".to_string()));
}

#[test]
fn a_whole_number_is_a_scale_too() {
    let mut st = State::default();
    let rest = store::settings_load(&mut st, Some("{\"windowScale\": 2}")).unwrap();
    assert_eq!(rest.window_scale, Some(2.0f64.to_bits()));
    assert_eq!(rest.window_decorations, None);
}

#[test]
fn numbers_of_a_file_keep_their_low_bits() {
    let st = loaded("{\"windowWidth\": 4294967297, \"windowHeight\": 1.5}");
    let g = store::window_geometry(&st);
    assert_eq!((g.width, g.height), (1, 0));
}

#[test]
fn a_long_device_name_of_a_file_is_cut() {
    let st = loaded(&format!("{{\"deviceName\": \"{}\"}}", "\u{e9}".repeat(70)));
    assert_eq!(store::device_name(&st), "\u{e9}".repeat(64));
}

#[test]
fn a_load_is_completed_by_what_is_given() {
    let mut st = State::default();
    store::settings_resolve(&mut st, Some(1.5f32.to_bits()), Some(WindowDecorations::Server));
    store::settings_resolve(&mut st, None, None);
    assert_eq!(store::window_geometry(&st).scale_bits, 1.5f32.to_bits());
    assert_eq!(st.data.window_decorations, Some(WindowDecorations::Server));
    store::set_window_decorations(&mut st, None);
    assert_eq!(st.data.window_decorations, Some(WindowDecorations::Server));
    store::set_window_decorations(&mut st, Some(WindowDecorations::Csd));
    assert_eq!(st.data.window_decorations, Some(WindowDecorations::Csd));
}

#[test]
fn defaults_are_left_out_of_the_file() {
    let text = store::save_data(&SettingsData::default(), "", "");
    assert_eq!(text, "{}\n");
    assert!(SettingsData::default().to_json("", "").is_empty());
}

fn full() -> SettingsData {
    SettingsData {
        server_url: "http://host".to_string(),
        hwdec: "vaapi".to_string(),
        audio_passthrough: "ac3".to_string(),
        audio_channels: "5.1".to_string(),
        log_level: "debug".to_string(),
        device_name: "tv".to_string(),
        window: JfnWindowGeometry {
            x: 3,
            y: 4,
            width: 1280,
            height: 720,
            logical_width: 640,
            logical_height: 360,
            scale_bits: 1.25f32.to_bits(),
            maximized: true,
        },
        audio_exclusive: true,
        disable_gpu_compositing: true,
        transparent_titlebar: false,
        force_transcoding: true,
        window_decorations: Some(WindowDecorations::ServerThemed),
        hide_scrollbar: false,
    }
}

#[test]
fn every_setting_is_written() {
    let o = full().to_json("1.25", "serverThemed");
    assert_eq!(o.len(), 20);
    assert_eq!(o.get("serverUrl").unwrap(), "http://host");
    assert_eq!(o.get("windowWidth").unwrap(), 1280);
    assert_eq!(o.get("windowHeight").unwrap(), 720);
    assert_eq!(o.get("windowLogicalWidth").unwrap(), 640);
    assert_eq!(o.get("windowLogicalHeight").unwrap(), 360);
    assert_eq!(o.get("windowX").unwrap(), 3);
    assert_eq!(o.get("windowY").unwrap(), 4);
    assert_eq!(o.get("windowMaximized").unwrap(), true);
    assert_eq!(o.get("windowScale").unwrap(), 1.25);
    assert_eq!(o.get("hwdec").unwrap(), "vaapi");
    assert_eq!(o.get("audioPassthrough").unwrap(), "ac3");
    assert_eq!(o.get("audioExclusive").unwrap(), true);
    assert_eq!(o.get("audioChannels").unwrap(), "5.1");
    assert_eq!(o.get("disableGpuCompositing").unwrap(), true);
    assert_eq!(o.get("transparentTitlebar").unwrap(), false);
    assert_eq!(o.get("logLevel").unwrap(), "debug");
    assert_eq!(o.get("forceTranscoding").unwrap(), true);
    assert_eq!(o.get("windowDecorations").unwrap(), "serverThemed");
    assert_eq!(o.get("hideScrollbar").unwrap(), false);
    assert_eq!(o.get("deviceName").unwrap(), "tv");
}

#[test]
fn incomplete_placements_are_left_out() {
    let mut data = SettingsData::default();
    data.hwdec = "no".to_string();
    data.window.width = 1280;
    data.window.logical_height = 360;
    data.window.x = 5;
    data.window.scale_bits = (-1.0f32).to_bits();
    assert!(data.to_json("-1", "").is_empty());
    data.server_url = "u".to_string();
    data.window.maximized = true;
    let o = data.to_json("-1", "");
    let keys: Vec<&String> = o.keys().collect();
    assert_eq!(keys, vec!["serverUrl", "windowMaximized"]);
}

#[test]
fn a_scale_that_is_no_finite_number_is_written_as_null() {
    let mut data = SettingsData::default();
    data.window.scale_bits = f32::INFINITY.to_bits();
    assert!(data.to_json("inf", "").get("windowScale").unwrap().is_null());
}

#[test]
fn a_saved_file_loads_again() {
    let text = store::save_data(&full(), "1.25", "serverThemed");
    let mut st = State::default();
    let rest = store::settings_load(&mut st, Some(&text)).unwrap();
    assert_eq!(rest.window_scale, Some(1.25f64.to_bits()));
    assert_eq!(rest.window_decorations, Some("serverThemed".to_string()));
    store::settings_resolve(
        &mut st,
        Some(1.25f32.to_bits()),
        Some(WindowDecorations::ServerThemed),
    );
    assert_eq!(store::server_url(&st), "http://host");
    assert_eq!(store::audio_passthrough(&st), "ac3");
    assert_eq!(store::device_name(&st), "tv");
    assert!(store::force_transcoding(&st));
    assert!(!store::transparent_titlebar(&st));
    let g = store::window_geometry(&st);
    assert_eq!((g.x, g.y, g.width, g.height), (3, 4, 1280, 720));
    let again = store::settings_save(&st, "1.25", "serverThemed");
    assert_eq!(again.1, text);
    assert_eq!(again.0, Vec::<u8>::new());
}

#[test]
fn an_object_gives_every_setting_back() {
    let o = full().to_json("1.25", "serverThemed");
    let mut st = State::default();
    let rest = st.data.overlay_json(&o);
    let scale = rest.window_scale.map(|b| (f64::from_bits(b) as f32).to_bits());
    assert_eq!(scale, Some(1.25f32.to_bits()));
    assert_eq!(rest.window_decorations, Some("serverThemed".to_string()));
    store::settings_resolve(&mut st, scale, Some(WindowDecorations::ServerThemed));
    assert_eq!(format!("{:?}", st.data), format!("{:?}", full()));
}

#[test]
fn settings_that_are_not_written_load_as_unset() {
    let mut st = State::default();
    st.data.window.scale_bits = (-2.0f32).to_bits();
    st.data.window.width = 640;
    let text = store::settings_save(&st, "-2", "").1;
    assert_eq!(text, "{}\n");
    let mut again = State::default();
    let rest = store::settings_load(&mut again, Some(&text)).unwrap();
    assert_eq!(rest.window_scale, None);
    assert_eq!(rest.window_decorations, None);
    assert_eq!(store::settings_save(&again, "0", "").1, text);
}

#[test]
fn the_default_decoding_mode_loads_as_unset() {
    let mut st = State::default();
    store::set_hwdec(&mut st, "no");
    let text = store::settings_save(&st, "", "").1;
    assert_eq!(store::hwdec(&loaded(&text)), "");
}

#[test]
fn missing_keys_keep_their_settings() {
    let mut st = State {
        data: full(),
        path: Vec::new(),
    };
    store::settings_load(&mut st, Some("{}"));
    assert_eq!(store::server_url(&st), "http://host");
    assert_eq!(store::window_geometry(&st).logical_width, 640);
    assert_eq!(st.data.window_decorations, Some(WindowDecorations::ServerThemed));
}

#[test]
fn the_web_client_gets_its_settings_on_one_line() {
    let mut st = State::default();
    assert_eq!(
        store::cli_json(&st, &["no", "auto"], "host"),
        "{\"deviceNameDefault\":\"host\",\"forceTranscoding\":false,\"hideScrollbar\":true,\
         \"hwdecOptions\":[\"no\",\"auto\"]}"
    );
    store::set_hwdec(&mut st, "no");
    store::set_device_name(&mut st, " living  room ", "host");
    store::set_audio_exclusive(&mut st, true);
    assert_eq!(
        store::cli_json(&st, &[], "ho\"st"),
        "{\"audioExclusive\":true,\"deviceName\":\"living room\",\"deviceNameDefault\":\"ho\\\"st\",\
         \"forceTranscoding\":false,\"hideScrollbar\":true,\"hwdec\":\"no\",\"hwdecOptions\":[]}"
    );
}

#[test]
fn setters_change_one_setting_each() {
    let mut st = State::default();
    store::set_audio_passthrough(&mut st, "dts");
    store::set_audio_channels(&mut st, "7.1");
    store::set_disable_gpu_compositing(&mut st, true);
    store::set_transparent_titlebar(&mut st, false);
    store::set_force_transcoding(&mut st, true);
    store::set_hide_scrollbar(&mut st, false);
    store::set_device_name(&mut st, "host", "host");
    assert_eq!(store::audio_passthrough(&st), "dts");
    assert_eq!(store::audio_channels(&st), "7.1");
    assert!(store::disable_gpu_compositing(&st));
    assert!(!store::transparent_titlebar(&st));
    assert!(store::force_transcoding(&st));
    assert!(!store::hide_scrollbar(&st));
    assert_eq!(store::device_name(&st), "");
    let mut g = store::window_geometry(&st);
    g.width = 800;
    store::set_window_geometry(&mut st, g);
    assert_eq!(store::window_geometry(&st).width, 800);
}

#[test]
fn decorations_are_resolved_by_the_platform() {
    let mut st = State::default();
    let resolve = |c: Option<WindowDecorations>| c.unwrap_or(WindowDecorations::Server);
    assert_eq!(store::window_decorations_mode(&st, resolve), WindowDecorations::Server);
    store::set_window_decorations(&mut st, Some(WindowDecorations::Csd));
    assert_eq!(
        store::window_decorations(&st, resolve, |m| format!("{m:?}")),
        "Csd"
    );
    assert!(store::client_side_decorations(WindowDecorations::Csd));
    assert!(!store::client_side_decorations(WindowDecorations::Server));
    assert!(store::titlebar_theme_color(WindowDecorations::ServerThemed));
    assert!(!store::titlebar_theme_color(WindowDecorations::Csd));
    store::set_window_decorations(&mut st, None);
    assert_eq!(store::window_decorations_mode(&st, resolve), WindowDecorations::Csd);
    assert_eq!(
        store::window_decorations(&st, resolve, |m| format!("{m:?}")),
        "Csd"
    );
}

#[test]
fn snapshots_coalesce() {
    let mut st = State::default();
    store::settings_init(&mut st, b"/s");
    let mut p = Pending::default();
    store::set_server_url(&mut st, "one");
    assert_eq!(store::settings_save_async(&st, &mut p), AsyncSave::Spawn);
    store::set_server_url(&mut st, "two");
    assert_eq!(store::settings_save_async(&st, &mut p), AsyncSave::Wake);
    match store::save_worker_loop(&mut p) {
        WorkerStep::Write(data, path) => {
            assert_eq!(data.server_url, "two");
            assert_eq!(path, b"/s".to_vec());
        }
        other => panic!("{other:?}"),
    }
    assert!(matches!(store::save_worker_loop(&mut p), WorkerStep::Wait));
}

#[test]
fn shutdown_drains_the_queue() {
    let st = State::default();
    let mut p = Pending::default();
    store::settings_save_async(&st, &mut p);
    assert!(store::settings_shutdown_save_worker(&mut p));
    assert_eq!(store::settings_save_async(&st, &mut p), AsyncSave::Ignored);
    assert!(matches!(store::save_worker_loop(&mut p), WorkerStep::Write(_, _)));
    assert!(matches!(store::save_worker_loop(&mut p), WorkerStep::Exit));
    assert!(!store::settings_shutdown_save_worker(&mut p));
}

#[test]
fn an_unstarted_worker_is_not_waited_for() {
    let st = State::default();
    let mut p = Pending::default();
    assert!(!store::settings_shutdown_save_worker(&mut p));
    assert_eq!(store::settings_save_async(&st, &mut p), AsyncSave::Ignored);
}
