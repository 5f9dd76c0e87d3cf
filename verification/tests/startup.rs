use jellyfin_desktop::app;
use jellyfin_desktop::app::{
    BootAction, BootConfig, BootEvent, BootStage, BrowserStep, Cli, CoordinationStep, EnabledLevels,
    MetricsInput, MpvInitOptions, PumpPhase, PumpStep, VoWait, WaitEvent, WindowSeen,
};
use jellyfin_desktop::config::store;
use jellyfin_desktop::config::store::State;
use jellyfin_desktop::platform_abi::IdleInhibitLevel;
use jellyfin_desktop::text;

#[test]
fn plain_dts_gives_way_to_its_hd_variant() {
    assert_eq!(app::normalize_passthrough("ac3,dts,dts-hd"), "ac3,dts-hd");
    assert_eq!(app::normalize_passthrough("dts,ac3"), "dts,ac3");
    assert_eq!(app::normalize_passthrough("dts,dts-hd,dts"), "dts-hd");
    assert_eq!(app::normalize_passthrough("xdts-hdx,dts"), "xdts-hdx");
    assert_eq!(app::normalize_passthrough(",dts-hd,, dts"), ",dts-hd,, dts");
    assert_eq!(app::normalize_passthrough(""), "");
    let once = app::normalize_passthrough("dts,eac3,dts-hd");
    assert_eq!(app::normalize_passthrough(&once), once);
}

#[test]
fn texts_are_split_and_joined() {
    let parts = text::split_text("a,,b", ',');
    assert_eq!(parts, vec!["a", "", "b"]);
    assert_eq!(text::join_text(&parts, ','), "a,,b");
    assert_eq!(text::split_text("", ','), vec![""]);
    assert_eq!(text::join_text(&vec![], ','), "");
    let ab = vec!["a".to_string(), "b".to_string()];
    assert_eq!(text::split_text(&text::join_text(&ab, ';'), ';'), ab);
}

#[test]
fn numbers_are_written_out() {
    assert_eq!(text::decimal_text(0), "0");
    assert_eq!(text::decimal_text(4294967295), "4294967295");
    assert_eq!(text::signed_decimal_text(-2147483648), "-2147483648");
    assert_eq!(text::hex_text(0xab, 4), "00ab");
    assert_eq!(app::geometry_text(1280, -7), "1280x-7");
    assert_eq!(app::color_text(0x00ab_cdef), "#abcdef");
    assert_eq!(app::color_text(0x10), "#000010");
    assert_eq!(app::color_text(0x1234_5678), "#12345678");
    assert_eq!(app::color_text(0x0123_4567), "#1234567");
    assert_eq!(
        app::version_text("1.2", "130"),
        "jellyfin-desktop 1.2\n\nCEF 130\n\n"
    );
}

#[test]
fn texts_are_searched_and_replaced() {
    assert!(text::contains_text("xaab", "aab"));
    assert!(!text::contains_text("xab", "aab"));
    assert!(text::contains_text("x", ""));
    assert_eq!(text::replace_all("aaa", "aa", "b"), "ba");
    assert_eq!(text::clip_text("k\u{fc}che", 2), "k\u{fc}");
    assert!(text::same_text("a", "a") && !text::same_text("a", "b"));
}

fn cli() -> Cli {
    Cli {
        version: false,
        generate_settings_schema: false,
        log_file: None,
        log_level: None,
        hwdec: None,
        audio_passthrough: None,
        audio_channels: None,
        audio_exclusive: false,
        disable_gpu_compositing: false,
        remote_debug_port: None,
    }
}

fn known(mode: &str) -> bool {
    mode == "no" || mode == "vaapi" || mode == "auto"
}

#[test]
fn settings_give_the_options() {
    let mut st = State::default();
    let o = app::resolve_startup_options(&cli(), &st, "auto", known);
    assert_eq!((o.hwdec.as_str(), o.remote_debugging_port), ("auto", 0));
    assert!(!o.audio_exclusive && !o.disable_gpu_compositing);
    store::set_hwdec(&mut st, "vaapi");
    store::set_audio_passthrough(&mut st, "dts,dts-hd");
    store::set_audio_channels(&mut st, "5.1");
    store::set_log_level(&mut st, "warn");
    store::set_audio_exclusive(&mut st, true);
    store::set_disable_gpu_compositing(&mut st, true);
    let o = app::resolve_startup_options(&cli(), &st, "auto", known);
    assert_eq!(o.hwdec, "vaapi");
    assert_eq!(o.audio_passthrough, "dts-hd");
    assert_eq!(o.audio_channels, "5.1");
    assert_eq!(o.log_level, "warn");
    assert!(o.audio_exclusive);
    assert!(!o.disable_gpu_compositing);
}

#[test]
fn the_command_line_goes_before_the_settings() {
    let mut st = State::default();
    store::set_hwdec(&mut st, "vaapi");
    store::set_audio_channels(&mut st, "5.1");
    let mut c = cli();
    c.hwdec = Some("bogus".to_string());
    c.audio_passthrough = Some("dts,dts-hd".to_string());
    c.audio_channels = Some("".to_string());
    c.log_level = Some("debug".to_string());
    c.log_file = Some("/tmp/log".to_string());
    c.audio_exclusive = true;
    c.disable_gpu_compositing = true;
    c.remote_debug_port = Some(9222);
    let o = app::resolve_startup_options(&c, &st, "auto", known);
    assert_eq!(o.hwdec, "auto");
    assert_eq!(o.audio_passthrough, "dts-hd");
    assert_eq!(o.audio_channels, "");
    assert_eq!(o.log_level, "debug");
    assert_eq!(o.log_file, Some("/tmp/log".to_string()));
    assert!(o.audio_exclusive && o.disable_gpu_compositing);
    assert_eq!(o.remote_debugging_port, 9222);
    c.hwdec = Some("no".to_string());
    assert_eq!(app::requested_hwdec(&c, &st, "auto"), "no");
}

#[test]
fn logging_has_defaults() {
    assert_eq!(app::log_filter(""), "info");
    assert_eq!(app::log_filter("trace"), "trace");
    assert_eq!(app::log_path(None, None), "");
    assert_eq!(app::log_path(None, Some("/d".to_string())), "/d");
    assert_eq!(app::log_path(Some("/l".to_string()), Some("/d".to_string())), "/l");
}

#[test]
fn the_player_takes_texts_without_zeros() {
    assert_eq!(app::cs("quit"), "quit");
    assert_eq!(app::cs("qu\0it"), "");
    let opts = MpvInitOptions {
        backend_byte: 1,
        boot_geometry: "1x2".to_string(),
        boot_force_position: true,
        boot_window_max: false,
        hwdec: "no".to_string(),
        audio_passthrough: String::new(),
        audio_exclusive: true,
        audio_channels: "a\0b".to_string(),
        mpv_log_level: "v".to_string(),
        client_side_decorations: true,
    };
    let b = app::init_mpv_handle(&opts, "1.0");
    assert_eq!(b.user_agent, "JellyfinDesktop/1.0");
    assert_eq!(b.audio_passthrough, None);
    assert_eq!(b.audio_channels, Some(String::new()));
    assert_eq!((b.display_backend, b.geometry.as_str(), b.hwdec.as_str()), (1, "1x2", "no"));
    assert!(b.force_window_position && !b.window_maximized_at_boot);
    assert!(b.audio_exclusive && b.client_side_decorations);
    assert_eq!(b.mpv_log_level, "v");
}

const QUIET: EnabledLevels = EnabledLevels {
    trace: false,
    debug: false,
    info: false,
    warn: false,
    error: false,
};

#[test]
fn log_levels_are_mapped() {
    let level = app::mpv_log_level_from_filter;
    assert_eq!(level(EnabledLevels { trace: true, ..QUIET }), "debug");
    assert_eq!(level(EnabledLevels { debug: true, ..QUIET }), "v");
    assert_eq!(level(EnabledLevels { info: true, ..QUIET }), "info");
    assert_eq!(level(EnabledLevels { warn: true, ..QUIET }), "warn");
    assert_eq!(level(EnabledLevels { error: true, ..QUIET }), "error");
    assert_eq!(level(QUIET), "no");
    let severity = app::cef_severity_for_cef_filter;
    assert_eq!(severity(EnabledLevels { debug: true, ..QUIET }), -1);
    assert_eq!(severity(EnabledLevels { info: true, ..QUIET }), 0);
    assert_eq!(severity(EnabledLevels { warn: true, ..QUIET }), 1);
    assert_eq!(severity(QUIET), 2);
    let settings = app::initialize_cef(EnabledLevels { trace: true, ..QUIET }, 9222, false);
    assert_eq!((settings.log_severity, settings.remote_debugging_port), (-1, 9222));
    assert!(settings.disable_gpu_compositing);
    assert!(app::use_shared_textures(true, false));
    assert!(!app::use_shared_textures(true, true));
    assert!(!app::use_shared_textures(false, false));
    assert_eq!(app::h_idle_inhibit(1), IdleInhibitLevel::System);
    assert_eq!(app::h_idle_inhibit(2), IdleInhibitLevel::Display);
    assert_eq!(app::h_idle_inhibit(0), IdleInhibitLevel::Off);
    assert_eq!(app::h_idle_inhibit(3), IdleInhibitLevel::Off);
}

fn seen(size: Option<(i32, i32)>, host_ready: bool) -> WindowSeen {
    WindowSeen { size, host_ready }
}

#[test]
fn the_wait_ends_with_a_window() {
    let mut w = VoWait::new(true);
    let drain = PumpPhase::Draining;
    let nothing = seen(None, true);
    assert_eq!(w.pump(drain, WaitEvent::LogMessage, nothing, true), PumpStep::Drain);
    assert_eq!(w.pump(drain, WaitEvent::Nothing, nothing, true), PumpStep::Park);
    assert_eq!(w.pump(drain, WaitEvent::Nothing, nothing, false), PumpStep::Again);
    let sized = seen(Some((800, 600)), true);
    assert_eq!(w.pump(PumpPhase::Parked, WaitEvent::Other, sized, true), PumpStep::Again);
    assert_eq!((w.mw, w.mh), (800, 600));
    assert_eq!(w.pump(drain, WaitEvent::Nothing, sized, true), PumpStep::Park);
    let other = WaitEvent::Property {
        id: 3,
        maximized: true,
    };
    assert_eq!(w.pump(drain, other, sized, true), PumpStep::Drain);
    assert!(w.need_max);
    let max = WaitEvent::Property {
        id: app::JFN_OBSERVE_WINDOW_MAX,
        maximized: true,
    };
    assert_eq!(w.pump(drain, max, sized, true), PumpStep::Drain);
    let late = seen(Some((1920, 1080)), false);
    assert_eq!(w.pump(drain, WaitEvent::Nothing, late, true), PumpStep::Park);
    assert_eq!(w.pump(drain, WaitEvent::Nothing, nothing, true), PumpStep::Done);
    assert_eq!(w.wait_for_vo_window(), Some((1920, 1080)));
}

#[test]
fn a_shutdown_ends_the_wait_without_a_window() {
    for phase in [PumpPhase::Draining, PumpPhase::Parked] {
        let mut w = VoWait::new(false);
        let now = seen(Some((1, 1)), true);
        assert_eq!(w.pump(phase, WaitEvent::Fatal, now, true), PumpStep::Done);
        assert_eq!(w.wait_for_vo_window(), None);
    }
}

#[test]
fn only_the_first_window_size_is_kept() {
    let mut kept = None;
    app::store_vo_size(&mut kept, 1, 2);
    app::store_vo_size(&mut kept, 3, 4);
    assert_eq!(kept, Some((1, 2)));
}

#[test]
fn a_new_scale_keeps_the_logical_size() {
    let m = MetricsInput {
        fullscreen_flag: 0,
        maximized: false,
        display_scale: 2.0f64.to_bits(),
        saved_scale: 1.0f32.to_bits(),
        differs: true,
    };
    assert_eq!(
        app::sync_cef_window_metrics(&m, 10, 20, (30, 40)),
        (30, 40, Some("30x40".to_string()))
    );
    for m in [
        MetricsInput { fullscreen_flag: 1, ..m },
        MetricsInput { maximized: true, ..m },
        MetricsInput { display_scale: 0, ..m },
        MetricsInput { saved_scale: 0, ..m },
        MetricsInput { differs: false, ..m },
    ] {
        assert!(!app::needs_rescale(&m));
        assert_eq!(
            app::sync_cef_window_metrics(&m, 10, 20, (30, 40)),
            (10, 20, None)
        );
    }
}

const CFG: BootConfig = BootConfig {
    titlebar_theme_color: true,
    platform_pumps_browser: false,
};

#[test]
fn the_process_runs_to_its_end() {
    let mut stage = BootStage::BrowserStart;
    let mut all = Vec::new();
    for ev in [
        BootEvent::BrowserStart(-1),
        BootEvent::Options {
            version: false,
            schema: false,
        },
        BootEvent::SingleInstance(true),
        BootEvent::Player(true),
        BootEvent::Properties(true),
        BootEvent::Window(true),
        BootEvent::Platform(true),
        BootEvent::Browser(true),
        BootEvent::Coordination(true),
        BootEvent::MainLoopEnded,
    ] {
        let (next, actions) = app::jfn_app_main(stage, ev, CFG);
        stage = next;
        all.extend(actions);
    }
    assert_eq!(stage, BootStage::Exit(0));
    assert_eq!(
        all,
        vec![
            BootAction::ApplyPaths,
            BootAction::LoadSettings,
            BootAction::ResolveOptions,
            BootAction::InitLogging,
            BootAction::InstallPlatform,
            BootAction::InitGeometry,
            BootAction::InstallShutdownHandler,
            BootAction::SignalInstance,
            BootAction::StartListener,
            BootAction::SetupPlayerEnvironment,
            BootAction::ApplyBootGeometry,
            BootAction::CreatePlayer,
            BootAction::ObserveProperties,
            BootAction::CaptureBackground,
            BootAction::SetStartupBackground,
            BootAction::LogPlayerVersions,
            BootAction::BindClose,
            BootAction::WaitForWindow,
            BootAction::StoreWindowSize,
            BootAction::InitPlatform,
            BootAction::ApplyThemeColor,
            BootAction::PublishDeviceProfile,
            BootAction::InitBrowser,
            BootAction::SyncMetrics,
            BootAction::InitMainBrowser,
            BootAction::StartCoordination,
            BootAction::WaitForLoad,
            BootAction::RunMainLoop,
            BootAction::PersistGeometry,
            BootAction::SaveSettings,
            BootAction::JoinManager,
            BootAction::DetachHost,
            BootAction::StopTheme,
            BootAction::StopMediaSession,
            BootAction::StopEventThread,
            BootAction::StopSaveWorker,
            BootAction::StopBrowsers,
            BootAction::StopBrowser,
            BootAction::ClearIdleInhibit,
            BootAction::CleanupPlatform,
            BootAction::StopCoordination,
            BootAction::TerminatePlayer,
            BootAction::CleanupWindow,
        ]
    );
    assert_eq!(app::shutdown_runtime()[..], all[28..41]);
    assert_eq!(
        app::jfn_app_main(stage, BootEvent::MainLoopEnded, CFG),
        (BootStage::Exit(0), vec![])
    );
}

#[test]
fn every_failure_has_its_exit_code() {
    let step = |stage, ev| app::jfn_app_main(stage, ev, CFG);
    let quiet = |stage, ev, code| {
        assert_eq!(step(stage, ev), (BootStage::Exit(code), vec![]));
    };
    quiet(BootStage::BrowserStart, BootEvent::BrowserStart(7), 7);
    quiet(BootStage::BrowserStart, BootEvent::BrowserStart(0), 0);
    quiet(BootStage::SingleInstance, BootEvent::SingleInstance(false), 0);
    quiet(BootStage::Player, BootEvent::Player(false), 1);
    quiet(BootStage::Properties, BootEvent::Properties(false), 1);
    quiet(BootStage::Window, BootEvent::Window(false), 0);
    quiet(BootStage::Platform, BootEvent::Platform(false), 1);
    quiet(BootStage::Browser, BootEvent::Browser(false), 1);
    quiet(BootStage::Coordination, BootEvent::Coordination(false), 1);
    let version = BootEvent::Options {
        version: true,
        schema: true,
    };
    assert_eq!(
        step(BootStage::Options, version),
        (BootStage::Exit(0), vec![BootAction::PrintVersion])
    );
    let schema = BootEvent::Options {
        version: false,
        schema: true,
    };
    assert_eq!(
        step(BootStage::Options, schema),
        (BootStage::Exit(0), vec![BootAction::PrintSchema])
    );
    assert_eq!(
        step(BootStage::Options, BootEvent::Player(true)),
        (BootStage::Options, vec![])
    );
}

#[test]
fn a_platform_that_pumps_is_not_blocked() {
    let cfg = BootConfig {
        titlebar_theme_color: false,
        platform_pumps_browser: true,
    };
    let (_, actions) = app::jfn_app_main(BootStage::Coordination, BootEvent::Coordination(true), cfg);
    assert_eq!(actions, vec![BootAction::RunMainLoop]);
    let (_, actions) = app::jfn_app_main(BootStage::Platform, BootEvent::Platform(true), cfg);
    assert_eq!(
        actions,
        vec![BootAction::PublishDeviceProfile, BootAction::InitBrowser]
    );
}

#[test]
fn handlers_are_set_first() {
    let browser = app::init_main_browser(true, 0x101010);
    assert_eq!(browser[0], BrowserStep::InitTheme { titlebar: true });
    assert_eq!(browser[1], BrowserStep::SetVideoBackground { rgb: 0x101010 });
    assert_eq!(browser[7], BrowserStep::CreateBrowser);
    assert_eq!(browser.len(), 9);
    let coordination = app::start_playback_coordination();
    assert_eq!(coordination[0], CoordinationStep::InitPlayback);
    assert_eq!(coordination.last(), Some(&CoordinationStep::StartEventThread));
    assert_eq!(coordination.len(), 12);
}
