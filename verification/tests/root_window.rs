use jellyfin_desktop::wayland::root_window as root;
use jellyfin_desktop::wayland::root_window::{
    AfterPoll, AfterRead, BootConfig, PollOutcome, PopupRequest, Rgb, RootGlobals, RootRequest,
    RootState, StartError, StartRequest, ThreadStart, ToplevelRequest, ToplevelStates,
};

fn window() -> RootState {
    RootState::new(&BootConfig::default(), true, None)
}

const PLAIN: ToplevelStates = ToplevelStates {
    fullscreen: false,
    maximized: false,
    suspended: false,
};

#[test]
fn boot_geometry_needs_both_extents() {
    let mut boot = BootConfig::default();
    assert_eq!((boot.w, boot.h, boot.maximized), (1280, 720, false));
    root::set_boot_geometry(&mut boot, 0, 500, true);
    assert_eq!((boot.w, boot.h, boot.maximized), (1280, 720, true));
    root::set_boot_geometry(&mut boot, 800, 600, false);
    assert_eq!((boot.w, boot.h, boot.maximized), (800, 600, false));
    root::set_decorations(&mut boot, 3);
    assert_eq!(boot.deco_mode, 3);
}

#[test]
fn the_first_configure_falls_back_to_the_boot_size() {
    let mut st = window();
    assert!(st.needs_background());
    let requests = st.configure(7, true);
    assert_eq!(
        requests,
        vec![
            RootRequest::AckConfigure(7),
            RootRequest::SetWindowGeometry { w: 1280, h: 720 },
            RootRequest::SetDestination { w: 1280, h: 720 },
            RootRequest::AttachBackground,
            RootRequest::DamageAll,
            RootRequest::ProxySize { w: 1280, h: 720 },
            RootRequest::FeedWindow {
                w: 1280,
                h: 720,
                pw: 1280,
                ph: 720,
                fullscreen: false,
                maximized: false
            },
            RootRequest::Commit,
            RootRequest::Flush,
        ]
    );
    assert!(st.mapped && !st.needs_background());
}

#[test]
fn a_configure_without_a_size_keeps_the_window() {
    let mut st = window();
    st.toplevel_configure(900, 500, PLAIN);
    st.configure(1, false);
    st.toplevel_configure(0, 0, PLAIN);
    let requests = st.configure(2, false);
    assert_eq!((st.cur_w, st.cur_h), (900, 500));
    assert_eq!(requests.iter().filter(|r| **r == RootRequest::Commit).count(), 1);
    assert!(!requests.contains(&RootRequest::AttachBackground));
}

#[test]
fn no_window_is_smaller_than_a_pixel() {
    let mut boot = BootConfig::default();
    boot.w = -5;
    boot.h = 0;
    let mut st = RootState::new(&boot, false, None);
    st.configure(1, false);
    assert_eq!((st.cur_w, st.cur_h), (1, 1));
}

#[test]
fn sizes_are_scaled_to_the_nearest_pixel() {
    let mut st = window();
    assert_eq!(st.physical(1281, 721), (1281, 721));
    assert_eq!(st.preferred_scale(180), vec![RootRequest::FeedScale(180)]);
    assert_eq!(st.physical(3, 1), (5, 2));
    assert_eq!(st.physical(0, 1280), (0, 1920));
    assert_eq!(st.physical(-3, -1), (-4, -1));
    st.configure(1, false);
    assert_eq!(
        st.preferred_scale(240),
        vec![
            RootRequest::FeedScale(240),
            RootRequest::FeedWindow {
                w: 1280,
                h: 720,
                pw: 2560,
                ph: 1440,
                fullscreen: false,
                maximized: false
            },
            RootRequest::Commit,
            RootRequest::Flush,
        ]
    );
}

#[test]
fn visibility_is_told_when_it_changes() {
    let mut st = window();
    let suspended = ToplevelStates {
        suspended: true,
        ..PLAIN
    };
    assert_eq!(st.toplevel_configure(1, 2, PLAIN), None);
    assert_eq!(st.toplevel_configure(1, 2, suspended), Some(false));
    assert_eq!(st.toplevel_configure(1, 2, suspended), None);
    assert_eq!(st.toplevel_configure(3, 4, PLAIN), Some(true));
    assert_eq!((st.pending_w, st.pending_h), (3, 4));
}

#[test]
fn states_are_read_in_groups_of_four_bytes() {
    let states = [2, 0, 0, 0, 9, 0, 0, 0, 1, 0, 0];
    assert_eq!(
        root::toplevel_states(&states, true),
        ToplevelStates {
            fullscreen: true,
            maximized: false,
            suspended: true
        }
    );
    assert_eq!(
        root::toplevel_states(&[0, 0, 0, 1], false),
        ToplevelStates {
            maximized: true,
            ..PLAIN
        }
    );
    assert_eq!(root::toplevel_states(&[0, 0, 0, 1], true), PLAIN);
    assert_eq!(root::toplevel_states(&[], true), PLAIN);
}

#[test]
fn colours_survive_packing() {
    let packed = root::set_background_color(1, 2, 3);
    assert_eq!(packed, 0x0101_0203);
    assert_eq!(root::pending_bg(packed), Some(Rgb { r: 1, g: 2, b: 3 }));
    assert_eq!(root::pending_bg(0), None);
    assert_eq!(window().bg, Rgb { r: 16, g: 16, b: 16 });
}

#[test]
fn a_wake_commits_once() {
    let mut st = window();
    let packed = root::set_background_color(9, 8, 7);
    assert!(!st.take_color(packed));
    assert_eq!(st.after_wake(false, false, true), vec![]);
    st.configure(1, true);
    assert!(!st.take_color(packed));
    let other = root::set_background_color(1, 2, 3);
    assert!(st.take_color(other));
    assert!(st.needs_background());
    assert_eq!(
        st.after_wake(true, true, true),
        vec![
            RootRequest::SetDestination { w: 1280, h: 720 },
            RootRequest::AttachBackground,
            RootRequest::DamageAll,
            RootRequest::Commit,
            RootRequest::Flush,
        ]
    );
    assert_eq!(
        st.after_wake(false, false, true),
        vec![RootRequest::Commit, RootRequest::Flush]
    );
    assert_eq!(st.after_wake(false, false, false), vec![]);
}

#[test]
fn the_loop_follows_the_poll() {
    let quiet = PollOutcome {
        failed: false,
        interrupted: false,
        readable: false,
        broken: false,
        woken: false,
    };
    let failed = PollOutcome {
        failed: true,
        ..quiet
    };
    let interrupted = PollOutcome {
        interrupted: true,
        ..failed
    };
    let readable = PollOutcome {
        readable: true,
        ..quiet
    };
    assert_eq!(root::after_poll(quiet), AfterPoll::Skip);
    assert_eq!(root::after_poll(failed), AfterPoll::End);
    assert_eq!(root::after_poll(interrupted), AfterPoll::Retry);
    assert_eq!(root::after_poll(readable), AfterPoll::Read);
    assert_eq!(root::after_read(quiet), AfterRead::Retry);
    let woken = PollOutcome {
        woken: true,
        ..quiet
    };
    assert_eq!(root::after_read(woken), AfterRead::Drain);
    let broken = PollOutcome {
        broken: true,
        ..woken
    };
    assert_eq!(root::after_read(broken), AfterRead::End);
}

#[test]
fn a_popup_replaces_the_one_before() {
    let mut has_role = false;
    assert_eq!(root::popup_create(&mut has_role, false, 1, 2, 3, 4, 5, None), vec![]);
    assert!(!has_role);
    assert_eq!(
        root::popup_create(&mut has_role, true, 1, 2, 3, 0, -5, Some(77)),
        vec![
            PopupRequest::Flush,
            PopupRequest::Positioner {
                x: 2,
                y: 3,
                w: 1,
                h: 1
            },
            PopupRequest::GetPopup { generation: 1 },
            PopupRequest::DestroyPositioner,
            PopupRequest::Grab { serial: 77 },
            PopupRequest::CommitSurface,
            PopupRequest::Flush,
        ]
    );
    let again = root::popup_create(&mut has_role, true, 2, 2, 3, 4, 5, None);
    assert_eq!(
        &again[..3],
        &[
            PopupRequest::DestroyPopup,
            PopupRequest::DestroyXdgSurface,
            PopupRequest::Flush
        ]
    );
    assert_eq!(
        root::popup_reposition(true, true, 1, 2, 0, 4),
        vec![
            PopupRequest::Positioner {
                x: 1,
                y: 2,
                w: 1,
                h: 4
            },
            PopupRequest::Reposition,
            PopupRequest::DestroyPositioner,
            PopupRequest::Flush,
        ]
    );
    assert_eq!(root::popup_reposition(false, true, 1, 2, 3, 4), vec![]);
    assert_eq!(
        root::popup_destroy(&mut has_role, false),
        vec![PopupRequest::DestroyPopup, PopupRequest::DestroyXdgSurface]
    );
    assert_eq!(root::popup_destroy(&mut has_role, false), vec![]);
}

#[test]
fn only_edges_of_the_protocol_are_resized_at() {
    let known: Vec<u32> = (0..20)
        .filter(|edge| root::start_resize(true, Some(1), *edge).is_some())
        .collect();
    assert_eq!(known, vec![0, 1, 2, 4, 5, 6, 8, 9, 10]);
    assert_eq!(
        root::start_resize(true, Some(6), 5),
        Some(ToplevelRequest::Resize { serial: 6, edge: 5 })
    );
    assert_eq!(root::start_resize(true, None, 5), None);
    assert_eq!(root::start_resize(false, Some(6), 5), None);
    assert_eq!(root::start_resize(true, Some(6), u32::MAX), None);
    assert_eq!(root::start_move(false, Some(6)), None);
    assert_eq!(root::set_maximized(true, true), Some(ToplevelRequest::SetMaximized));
    assert_eq!(root::set_minimized(false), None);
}

const ALL: RootGlobals = RootGlobals {
    registry: true,
    compositor: true,
    shm: true,
    viewporter: true,
    wm_base: true,
    fractional_scale: true,
    decoration: true,
    palette: true,
};

#[test]
fn every_missing_global_of_the_root_has_its_error() {
    let boot = BootConfig::default();
    let start = |g| root::start_root(g, &boot, 0).err();
    assert_eq!(start(RootGlobals { registry: false, ..ALL }), Some(StartError::Registry));
    assert_eq!(
        start(RootGlobals { compositor: false, ..ALL }),
        Some(StartError::Compositor)
    );
    assert_eq!(start(RootGlobals { shm: false, ..ALL }), Some(StartError::Shm));
    assert_eq!(start(RootGlobals { wm_base: false, ..ALL }), Some(StartError::WmBase));
    assert_eq!(start(ALL), None);
}

#[test]
fn the_setup_ends_in_a_commit() {
    let mut boot = BootConfig::default();
    boot.maximized = true;
    boot.deco_mode = 1;
    let packed = root::set_background_color(1, 2, 3);
    let s = root::start_root(ALL, &boot, packed).unwrap();
    assert_eq!(
        s.requests,
        vec![
            StartRequest::CreateSurface,
            StartRequest::PublishSurface,
            StartRequest::GetXdgSurface,
            StartRequest::GetToplevel,
            StartRequest::SetTitle,
            StartRequest::SetAppId,
            StartRequest::SetMaximized,
            StartRequest::GetViewport,
            StartRequest::GetFractionalScale,
            StartRequest::SetDecorationMode { client_side: true },
            StartRequest::CreatePalette,
            StartRequest::PublishPopupShell,
            StartRequest::PublishControls,
            StartRequest::Commit,
            StartRequest::Flush,
        ]
    );
    assert_eq!(s.state.bg, Rgb { r: 1, g: 2, b: 3 });
    assert!(s.state.maximized && s.state.has_viewport);
    let few = RootGlobals {
        viewporter: false,
        fractional_scale: false,
        decoration: false,
        palette: false,
        ..ALL
    };
    let s = root::start_root(few, &BootConfig::default(), 0).unwrap();
    assert_eq!(s.requests[6], StartRequest::FeedScale(120));
    assert_eq!(s.requests.len(), 11);
}

#[test]
fn the_root_is_started_once() {
    let mut started = false;
    assert!(!root::ensure_started(&mut started, false));
    assert!(root::ensure_started(&mut started, true));
    assert!(!root::ensure_started(&mut started, true));
    assert_eq!(root::thread_started(-1, true), ThreadStart::NoDescriptor);
    assert_eq!(root::thread_started(3, false), ThreadStart::CloseDescriptor);
    assert_eq!(root::thread_started(3, true), ThreadStart::Running);
}
