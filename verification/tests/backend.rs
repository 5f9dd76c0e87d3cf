use jellyfin_desktop::dropdown::{
    dropdown_style, DropdownBackend, DropdownScript, DropdownStyle, JfnPopupRequest, JsMenuDropdown,
};
use jellyfin_desktop::platform_abi::{DisplayBackend, SurfaceHandle, WindowDecorations};
use jellyfin_desktop::platform_install as install;
use jellyfin_desktop::platform_install::{
    Paint, PaintOverride, PlatformArg, TargetOs, X11PaintOverride,
};
use jellyfin_desktop::wayland::kde_palette as palette;
use jellyfin_desktop::wayland::lifecycle as life;
use jellyfin_desktop::wayland::lifecycle::{Action, CleanupAction, Event, Stage, WlPaintOverride};
use jellyfin_desktop::wayland::mpv_host::{
    AppDisplay, DisplayStep, HostStart, WaylandMpvHost, WlproxyMpvHost,
};
use jellyfin_desktop::wayland::mpv_proxy as proxy;
use jellyfin_desktop::wayland::mpv_proxy::{
    Interface, Proxy, ProxyShared, Shell, SpliceRequest, StartEvent, StartStage, ThreadStage, Watch,
};
use jellyfin_desktop::wayland::window_state::{feed_scale, WlWindowState};

fn run(requested: Option<WlPaintOverride>, probe: bool, gpu: bool) -> (Stage, Vec<Action>) {
    let mut all = Vec::new();
    let mut stage = Stage::Begin;
    for ev in [
        Event::Display(true),
        Event::Core(true),
        Event::Probe(probe),
        Event::Gpu(gpu),
        Event::Clipboard(true),
    ] {
        let (next, actions) = life::jfn_wl_lifecycle_init(stage, ev, requested);
        stage = next;
        all.extend(actions);
    }
    (stage, all)
}

#[test]
fn the_backend_starts_with_shared_textures() {
    let (stage, actions) = run(None, true, false);
    assert_eq!(stage, Stage::Running);
    assert_eq!(
        actions,
        vec![
            Action::InputInit,
            Action::CoreInit,
            Action::SeedFullscreen,
            Action::ProbeDmabuf,
            Action::PaletteInit,
            Action::InputStart,
            Action::ClipboardInit,
        ]
    );
}

#[test]
fn fullscreen_is_seeded_once_there_is_a_core() {
    for requested in [
        None,
        Some(WlPaintOverride::Shm),
        Some(WlPaintOverride::Gpu),
        Some(WlPaintOverride::Dmabuf),
    ] {
        let (_, actions) = life::jfn_wl_lifecycle_init(Stage::Begin, Event::Display(true), requested);
        assert_eq!(actions, vec![Action::InputInit, Action::CoreInit]);
        let (_, actions) = life::jfn_wl_lifecycle_init(Stage::Core, Event::Core(true), requested);
        assert_eq!(actions[0], Action::SeedFullscreen);
        let (stage, actions) = life::jfn_wl_lifecycle_init(Stage::Core, Event::Core(false), requested);
        assert_eq!((stage, actions), (Stage::Failed, vec![]));
    }
}

#[test]
fn painting_falls_back() {
    let (_, actions) = run(Some(WlPaintOverride::Dmabuf), false, true);
    assert!(actions.contains(&Action::InstallGpuPaint));
    assert!(actions.contains(&Action::Warn {
        requested: WlPaintOverride::Dmabuf,
        resolved: WlPaintOverride::Gpu
    }));
    let (stage, actions) = run(Some(WlPaintOverride::Gpu), true, false);
    assert_eq!(stage, Stage::Running);
    assert!(!actions.contains(&Action::ProbeDmabuf));
    assert!(actions.contains(&Action::Warn {
        requested: WlPaintOverride::Gpu,
        resolved: WlPaintOverride::Shm
    }));
    let (_, actions) = run(Some(WlPaintOverride::Shm), true, true);
    assert!(!actions.contains(&Action::TryGpu));
    assert!(actions.contains(&Action::SharedTextureUnsupported));
}

#[test]
fn a_failed_start_stays_failed() {
    let (stage, actions) = life::jfn_wl_lifecycle_init(Stage::Begin, Event::Display(false), None);
    assert_eq!((stage, actions), (Stage::Failed, vec![]));
    let (stage, _) = life::jfn_wl_lifecycle_init(Stage::Core, Event::Core(false), None);
    assert_eq!(stage, Stage::Failed);
    let (stage, actions) = life::jfn_wl_lifecycle_init(Stage::Failed, Event::Core(true), None);
    assert_eq!((stage, actions), (Stage::Failed, vec![]));
    let (_, actions) = life::jfn_wl_lifecycle_init(Stage::Clipboard, Event::Clipboard(false), None);
    assert_eq!(actions, vec![Action::ClearClipboardHandler]);
}

#[test]
fn the_backend_ends_in_order() {
    assert_eq!(
        life::jfn_wl_lifecycle_cleanup(),
        vec![
            CleanupAction::IdleInhibit,
            CleanupAction::Clipboard,
            CleanupAction::RootWindow,
            CleanupAction::Input,
        ]
    );
    assert_eq!(life::paint_name(WlPaintOverride::Dmabuf), "dmabuf");
    assert_eq!(life::paint_name(WlPaintOverride::Gpu), "gpu");
    assert_eq!(life::paint_name(WlPaintOverride::Shm), "shm");
}

#[test]
fn scheme_files_are_filled_in() {
    let template = "bg=%HEADER_BG%;%INACTIVE_BG% fg=%ACTIVE_FG%;%INACTIVE_FG% %HEADER%";
    assert_eq!(
        palette::color_scheme(template, 0, 16, 255, true),
        "bg=0,16,255;0,16,255 fg=252,252,252;126,126,126 %HEADER%"
    );
    assert_eq!(
        palette::color_scheme("%ACTIVE_FG%%ACTIVE_FG%", 1, 2, 3, false),
        "35,38,4135,38,41"
    );
}

#[test]
fn scheme_files_follow_the_colour() {
    let mut state = None;
    assert_eq!(palette::jfn_wl_kde_palette_set_color(&state, Some("#102030")), None);
    assert_eq!(palette::make_colors_dir(None), None);
    assert_eq!(palette::make_colors_dir(Some(b"")), None);
    assert_eq!(
        palette::make_colors_dir(Some(b"/run/")),
        Some(b"/run/jellyfin-desktop".to_vec())
    );
    let dir = palette::make_colors_dir(Some(b"/run"));
    assert!(!palette::jfn_wl_kde_palette_init(&mut state, None));
    assert!(palette::jfn_wl_kde_palette_init(&mut state, dir));
    assert!(palette::jfn_wl_kde_palette_init(&mut state, None));
    for bad in [None, Some("102030"), Some("#1020"), Some("x102030")] {
        assert_eq!(palette::jfn_wl_kde_palette_set_color(&state, bad), None);
    }
    let first = palette::jfn_wl_kde_palette_set_color(&state, Some("#102030")).unwrap();
    assert_eq!(
        first,
        b"/run/jellyfin-desktop/JellyfinDesktop-102030.colors".to_vec()
    );
    assert_eq!(palette::palette_written(&mut state, first.clone()), None);
    assert_eq!(palette::jfn_wl_kde_palette_set_color(&state, Some("#102030")), None);
    let second = palette::jfn_wl_kde_palette_set_color(&state, Some("#ffffff")).unwrap();
    assert_eq!(palette::palette_written(&mut state, second.clone()), Some(first));
    assert_eq!(
        palette::jfn_wl_kde_palette_post_window_cleanup(&mut state),
        Some(second)
    );
    assert_eq!(palette::jfn_wl_kde_palette_post_window_cleanup(&mut state), None);
}

#[test]
fn the_player_is_told_the_window_size() {
    let mut shared = ProxyShared::default();
    let mut shell = Shell::new();
    let mut seen = 0;
    proxy::set_window_size(&mut shared, 0, 5);
    assert_eq!(shared.size_generation, 0);
    proxy::set_window_size(&mut shared, 900, 500);
    assert_eq!(shell.apply_window_size_mpv(&shared, &mut seen), None);
    proxy::set_initial_size(&mut shared, 800, 600);
    proxy::set_initial_size(&mut shared, -1, 600);
    shell.mpv_xdg_surface(&mut shared, Some(31));
    assert_eq!(shared.video_surface_id, 31);
    let first = shell.mpv_toplevel(&shared);
    assert_eq!((first.w, first.h, first.serial), (800, 600, 1));
    assert!(first.toplevel && first.xdg_surface);
    let next = shell.apply_window_size_mpv(&shared, &mut seen).unwrap();
    assert_eq!((next.w, next.h, next.serial), (900, 500, 2));
    assert_eq!(shell.apply_window_size_mpv(&shared, &mut seen), None);
    proxy::set_window_size(&mut shared, 901, 501);
    assert!(shell.apply_window_size_mpv(&shared, &mut seen).is_some());
    assert_eq!((shell.cur_w, shell.cur_h), (901, 501));
    shell.serial = u32::MAX;
    assert_eq!(shell.next_serial(), 0);
}

#[test]
fn the_player_is_spliced_in_once() {
    let mut shell = Shell::new();
    assert!(!shell.ensure_root());
    shell.see_display();
    assert!(shell.ensure_root());
    assert!(!shell.ensure_root());
    assert_eq!(shell.handle_global(Interface::Compositor, 4), Some(4));
    assert!(!shell.roundtrip_done());
    assert_eq!(shell.handle_global(Interface::Subcompositor, 3), Some(1));
    assert_eq!(shell.handle_global(Interface::XdgWmBase, 9), Some(6));
    assert_eq!(shell.handle_global(Interface::Seat, 9), None);
    assert!(shell.roundtrip_done());
    assert!(!shell.maybe_build_root());
    shell.see_host_root();
    assert!(shell.maybe_build_root() && shell.can_splice());
    assert_eq!(shell.splice_mpv_under_host_root(false), vec![]);
    assert_eq!(
        shell.splice_mpv_under_host_root(true),
        vec![
            SpliceRequest::SetDesync,
            SpliceRequest::SetPosition,
            SpliceRequest::PlaceAboveRoot,
            SpliceRequest::CreateRegion,
            SpliceRequest::SetInputRegion,
            SpliceRequest::DestroyRegion,
            SpliceRequest::CommitRoot,
        ]
    );
    assert_eq!(shell.splice_mpv_under_host_root(true), vec![]);
    assert!(!shell.maybe_build_root());
}

#[test]
fn the_player_is_kept_apart() {
    assert_eq!(proxy::handle_bind(Interface::Seat, true), Watch::BlockSeat);
    assert_eq!(proxy::handle_bind(Interface::Seat, false), Watch::ForwardSeat);
    assert_eq!(proxy::handle_bind(Interface::XdgWmBase, true), Watch::PlayerShell);
    assert_eq!(proxy::handle_bind(Interface::XdgWmBase, false), Watch::AppShell);
    assert_eq!(proxy::handle_bind(Interface::Viewporter, true), Watch::Viewports);
    assert_eq!(
        proxy::handle_bind(Interface::FractionalScaleManager, false),
        Watch::FractionalScale
    );
    assert_eq!(proxy::handle_bind(Interface::Other, true), Watch::Pass);
    assert!(proxy::forwards_destination(-1, -1));
    assert!(proxy::forwards_destination(1, 2));
    assert!(!proxy::forwards_destination(0, 2));
    assert!(!proxy::forwards_destination(-1, 2));
}

#[test]
fn the_player_surface_is_found_by_its_id() {
    let mut shared = ProxyShared::default();
    let ids = [None, Some(5), Some(7), Some(7)];
    assert_eq!(proxy::find_mpv_surface(&shared, true, &ids), None);
    shared.video_surface_id = 7;
    assert_eq!(proxy::find_mpv_surface(&shared, true, &ids), Some(2));
    assert_eq!(proxy::find_mpv_surface(&shared, false, &ids), None);
    shared.video_surface_id = 8;
    assert_eq!(proxy::find_mpv_surface(&shared, true, &ids), None);
}

#[test]
fn the_proxy_starts_step_by_step() {
    let mut shared = ProxyShared::default();
    assert_eq!(proxy::app_client_fd(&shared), -1);
    let mut stage = StartStage::Sockets;
    for ev in [
        StartEvent::Done,
        StartEvent::Done,
        StartEvent::Descriptor(12),
        StartEvent::Done,
        StartEvent::Done,
    ] {
        stage = proxy::start(&mut shared, stage, ev);
    }
    assert_eq!(stage, StartStage::Running);
    assert_eq!(proxy::app_client_fd(&shared), 12);
    for stage in [
        StartStage::Sockets,
        StartStage::AppThread,
        StartStage::AppDescriptor,
        StartStage::MpvThread,
        StartStage::DisplayName,
    ] {
        assert_eq!(
            proxy::start(&mut shared, stage, StartEvent::Failed),
            StartStage::Failed
        );
    }
}

#[test]
fn proxy_threads_report_early_failures_only() {
    assert_eq!(
        proxy::run_state(ThreadStage::Build, false, true),
        ThreadStage::End { report: true }
    );
    assert_eq!(
        proxy::run_state(ThreadStage::Endpoint, false, false),
        ThreadStage::End { report: true }
    );
    assert_eq!(
        proxy::run_state(ThreadStage::Publish, true, true),
        ThreadStage::Loop
    );
    assert_eq!(
        proxy::run_state(ThreadStage::Publish, true, false),
        ThreadStage::Bridge
    );
    assert_eq!(
        proxy::run_state(ThreadStage::Bridge, false, false),
        ThreadStage::End { report: false }
    );
    assert_eq!(
        proxy::run_state(ThreadStage::Loop, false, true),
        ThreadStage::End { report: false }
    );
    assert_eq!(proxy::run_state(ThreadStage::Loop, true, true), ThreadStage::Loop);
    let end = ThreadStage::End { report: true };
    assert_eq!(proxy::run_state(end, true, true), end);
}

#[test]
fn a_host_needs_a_display_name() {
    let host = WaylandMpvHost;
    assert!(matches!(
        host.prepare(None, WindowDecorations::Csd),
        HostStart::NoProxy
    ));
    let mut p = Some(Proxy {
        display_name: String::new(),
    });
    assert!(matches!(
        host.prepare(p.as_ref(), WindowDecorations::Csd),
        HostStart::Abort
    ));
    p = Some(Proxy {
        display_name: "wayland-9".to_string(),
    });
    assert_eq!(proxy::display_name(p.as_ref()), Some("wayland-9"));
    match host.prepare(p.as_ref(), WindowDecorations::ServerThemed) {
        HostStart::Ready { deco_mode, display } => {
            assert_eq!((deco_mode, display.as_str()), (3, "wayland-9"));
        }
        other => panic!("{other:?}"),
    }
    proxy::stop(&mut p);
    assert_eq!(proxy::display_name(p.as_ref()), None);
    let outside = WlproxyMpvHost;
    assert!(matches!(
        outside.prepare(false, Some("x"), WindowDecorations::Server),
        HostStart::NoProxy
    ));
    assert!(matches!(
        outside.prepare(true, None, WindowDecorations::Server),
        HostStart::Abort
    ));
    assert!(matches!(
        outside.prepare(true, Some("x"), WindowDecorations::Server),
        HostStart::Ready { deco_mode: 2, .. }
    ));
    let mut win = WlWindowState::default();
    assert!(!host.host_ready(&win) && !outside.host_ready(&win));
    feed_scale(&mut win, 120, 1.0f32.to_bits());
    assert!(host.host_ready(&win) && outside.host_ready(&win));
    assert_eq!(host.window_maximized(&win), Some(false));
    assert_eq!(outside.window_maximized(&win), Some(false));
}

#[test]
fn the_application_connects_once() {
    let mut d = AppDisplay::Unknown;
    assert_eq!(d.app_display(4, true), DisplayStep::Connect(4));
    d.connected(77);
    d.connected(88);
    assert_eq!(d.app_display(5, true), DisplayStep::Use(77));
}

#[test]
fn the_display_is_polled_until_there_is_a_descriptor() {
    let mut d = AppDisplay::Unknown;
    assert_eq!(d.app_display(-1, true), DisplayStep::Use(0));
    assert_eq!(d.app_display(4, false), DisplayStep::Use(0));
    assert_eq!(d.app_display(-1, true), DisplayStep::Use(0));
    assert_eq!(d.app_display(4, true), DisplayStep::Connect(4));
    d.connected(77);
    assert_eq!(d.app_display(-1, false), DisplayStep::Use(77));
}

#[test]
fn a_failed_connection_is_not_tried_again() {
    let mut d = AppDisplay::Unknown;
    assert_eq!(d.app_display(4, true), DisplayStep::Connect(4));
    d.connected(0);
    assert_eq!(d.app_display(4, true), DisplayStep::Use(0));
}

#[test]
fn the_session_picks_the_backend() {
    let pick = |asked, wayland, display| install::install_from_cli(asked, None, wayland, display).0;
    assert_eq!(pick(None, true, true), DisplayBackend::Wayland);
    assert_eq!(pick(None, false, true), DisplayBackend::X11);
    assert_eq!(pick(None, false, false), DisplayBackend::Wayland);
    assert_eq!(pick(Some(PlatformArg::X11), true, false), DisplayBackend::X11);
    assert_eq!(
        pick(Some(PlatformArg::Wayland), false, true),
        DisplayBackend::Wayland
    );
    assert_eq!(
        install::install_from_cli(None, Some(Paint::Gpu), true, true).1,
        PaintOverride::Wayland(WlPaintOverride::Gpu)
    );
    assert_eq!(
        install::install_from_cli(Some(PlatformArg::X11), Some(Paint::Shm), true, true).1,
        PaintOverride::X11(X11PaintOverride::Shm)
    );
    assert_eq!(
        install::install_from_cli(None, None, true, true).1,
        PaintOverride::Nothing
    );
    assert_eq!(install::backend_name(DisplayBackend::Wayland), "wayland");
    assert_eq!(install::backend_name(DisplayBackend::X11), "x11");
    assert_eq!(install::install_early(TargetOs::Linux), None);
    assert_eq!(
        install::install_early(TargetOs::Windows),
        Some(DisplayBackend::Windows)
    );
    assert_eq!(
        install::install_early(TargetOs::MacOS),
        Some(DisplayBackend::MacOS)
    );
}

struct Silent;

impl DropdownBackend for Silent {}

#[test]
fn drop_downs_have_a_style_per_backend() {
    assert_eq!(dropdown_style(DisplayBackend::Wayland), DropdownStyle::PlatformMenu);
    assert_eq!(dropdown_style(DisplayBackend::MacOS), DropdownStyle::PlatformMenu);
    assert_eq!(dropdown_style(DisplayBackend::X11), DropdownStyle::JsMenu);
    assert_eq!(dropdown_style(DisplayBackend::Windows), DropdownStyle::Composited);
    assert_eq!(JsMenuDropdown.scripts(), vec![DropdownScript::SelectMenu]);
    assert_eq!(Silent.scripts(), vec![]);
    let request = JfnPopupRequest {
        x: 1,
        y: 2,
        lw: 3,
        lh: 4,
        options: vec!["a".to_string()],
        initial_highlight: -1,
        on_selected: Some(5u8),
    };
    let back = JsMenuDropdown.show(SurfaceHandle(1), request).unwrap();
    assert_eq!(back.on_selected, Some(5));
    assert!(!JsMenuDropdown.hide_list(SurfaceHandle(1)));
    assert!(!JsMenuDropdown.present(SurfaceHandle(1), 3, 4));
    assert!(!JsMenuDropdown.present_software(SurfaceHandle(1), &[0; 4], 1, 1, 3, 4));
}
