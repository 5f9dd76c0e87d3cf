use jellyfin_desktop::wayland::dmabuf_pool::{DmabufLease, TextureId};
use jellyfin_desktop::wayland::requests::Request;
use jellyfin_desktop::wayland::root_window::ToplevelRequest;
use jellyfin_desktop::wayland::scene::sink::SinkRequest;
use jellyfin_desktop::wayland::scene::LayerId;
use jellyfin_desktop::wayland::shm_paint_worker::ViewportState;
use jellyfin_desktop::wayland::window_state::{on_configure as configure_window, WlWindowState};
use jellyfin_desktop::wayland::wl_ffi as ffi;
use jellyfin_desktop::wayland::wl_ffi::MaximizeCommand;
use jellyfin_desktop::wayland::wl_ops as ops;
use jellyfin_desktop::wayland::wl_ops::{JfnDmabufFrame, SoftwareStep, VisibleStep};
use jellyfin_desktop::wayland::wl_state::{
    init, size_in_tolerance, Globals, InitError, StateRequest, WlState,
};

const ALL: Globals = Globals {
    registry: true,
    compositor: true,
    subcompositor: true,
    shm: true,
    dmabuf: true,
    viewporter: true,
};

fn state(root: bool) -> WlState {
    init(false, true, ALL, root).unwrap()
}

fn window() -> WlWindowState {
    let mut win = WlWindowState::default();
    configure_window(&mut win, 640, 360, 1280, 720, false, false, true);
    win
}

fn layer(h: usize, r: Request) -> StateRequest {
    StateRequest::Layer(h, r)
}

fn popup(h: usize, r: Request) -> StateRequest {
    StateRequest::Popup(h, r)
}

fn new_layer(st: &mut WlState) -> usize {
    ops::alloc_surface(st, &mut Vec::new())
}

#[test]
fn every_missing_global_has_its_error() {
    assert_eq!(init(true, true, ALL, false).err(), Some(InitError::AlreadyInitialised));
    assert_eq!(init(false, false, ALL, false).err(), Some(InitError::NullDisplay));
    let g = Globals { registry: false, ..ALL };
    assert_eq!(init(false, true, g, false).err(), Some(InitError::Registry));
    let g = Globals { compositor: false, ..ALL };
    assert_eq!(init(false, true, g, false).err(), Some(InitError::Compositor));
    let g = Globals { subcompositor: false, ..ALL };
    assert_eq!(init(false, true, g, false).err(), Some(InitError::Subcompositor));
    let g = Globals { shm: false, ..ALL };
    assert_eq!(init(false, true, g, false).err(), Some(InitError::Shm));
    assert!(ffi::jfn_wl_core_init(false, true, g, false).is_none());
    let g = Globals {
        dmabuf: false,
        viewporter: false,
        ..ALL
    };
    let st = ffi::jfn_wl_core_init(false, true, g, true).unwrap();
    assert!(!st.has_dmabuf && !st.has_viewporter && st.has_root);
}

#[test]
fn a_new_layer_is_stacked_and_presented() {
    let mut st = state(true);
    let mut out = Vec::new();
    assert_eq!(ffi::jfn_wl_alloc_surface(&mut st, &mut out), 1);
    assert_eq!(
        out,
        vec![
            layer(1, Request::CreateSurface),
            layer(1, Request::EmptyInputRegion),
            layer(1, Request::CreateViewport),
            layer(1, Request::Commit),
            StateRequest::Flush,
            layer(1, Request::CreateSubsurface),
            layer(1, Request::SetPosition { x: 0, y: 0 }),
            StateRequest::Stacking(SinkRequest::RequestPresent),
            StateRequest::Flush,
            StateRequest::RequestPresent,
        ]
    );
    let mut out = Vec::new();
    assert_eq!(ops::alloc_surface(&mut st, &mut out), 2);
    assert!(out.contains(&StateRequest::Stacking(SinkRequest::PlaceAbove {
        layer: LayerId(2),
        sibling: LayerId(1)
    })));
}

#[test]
fn layers_without_a_root_are_parented_later() {
    let mut st = state(false);
    let a = new_layer(&mut st);
    let b = new_layer(&mut st);
    assert!(!st.surfaces[0].has_subsurface);
    ops::restack(&mut st, &[a, b], &mut Vec::new());
    let mut out = Vec::new();
    st.ensure_root(false, &mut out);
    assert_eq!(out, vec![]);
    st.ensure_root(true, &mut out);
    assert_eq!(
        out,
        vec![
            layer(a, Request::CreateSubsurface),
            layer(a, Request::SetPosition { x: 0, y: 0 }),
            layer(b, Request::CreateSubsurface),
            layer(b, Request::SetPosition { x: 0, y: 0 }),
        ]
    );
    let mut out = Vec::new();
    st.parent_layer(a, &mut out);
    assert_eq!(out, vec![]);
}

#[test]
fn restacking_places_layers_above_one_another() {
    let mut st = state(true);
    let a = new_layer(&mut st);
    let b = new_layer(&mut st);
    let mut out = Vec::new();
    ffi::jfn_wl_restack(&mut st, &[b, 0, a], &mut out);
    assert_eq!(st.stack, vec![b, 0, a]);
    assert_eq!(
        out,
        vec![
            StateRequest::Stacking(SinkRequest::PlaceAbove {
                layer: LayerId(a),
                sibling: LayerId(b)
            }),
            StateRequest::Stacking(SinkRequest::RequestPresent),
            StateRequest::Flush,
        ]
    );
    let mut out = Vec::new();
    ops::restack(&mut st, &[b, a], &mut out);
    assert_eq!(out, vec![StateRequest::Flush]);
}

#[test]
fn a_freed_layer_is_gone_with_its_objects() {
    let mut st = state(true);
    let a = new_layer(&mut st);
    ops::restack(&mut st, &[a], &mut Vec::new());
    ops::popup_show(&mut st, a, 1, 2, 3, 4, &mut Vec::new());
    ops::surface_present_software(&mut st, a, &window(), 4, 4, &mut Vec::new());
    let mut out = Vec::new();
    ffi::jfn_wl_free_surface(&mut st, a, &mut out);
    assert_eq!(
        out,
        vec![
            StateRequest::ShutdownShmWorker(a),
            StateRequest::Stacking(SinkRequest::RequestPresent),
            StateRequest::Flush,
            popup(a, Request::DestroyViewport),
            popup(a, Request::DestroySubsurface),
            popup(a, Request::DestroySurface),
            layer(a, Request::DestroyViewport),
            layer(a, Request::DestroySubsurface),
            layer(a, Request::DestroySurface),
            StateRequest::Flush,
        ]
    );
    assert!(st.find(a).is_none());
    assert!(st.stack.is_empty());
    let mut out = Vec::new();
    ops::free_surface(&mut st, a, &mut out);
    ops::free_surface(&mut st, 0, &mut out);
    assert_eq!(out, vec![]);
    assert_eq!(new_layer(&mut st), 2);
}

#[test]
fn a_hidden_layer_is_detached_and_shown_with_a_placeholder() {
    let mut st = state(true);
    let a = new_layer(&mut st);
    let mut out = Vec::new();
    assert_eq!(
        ffi::jfn_wl_surface_set_visible(&mut st, a, true, &mut out),
        VisibleStep::Done
    );
    assert_eq!(out, vec![]);
    assert_eq!(ops::surface_set_visible(&mut st, a, false, &mut out), VisibleStep::Done);
    assert_eq!(
        out,
        vec![
            layer(a, Request::Detach),
            layer(a, Request::Commit),
            StateRequest::Flush,
            StateRequest::RequestPresent,
        ]
    );
    assert!(st.surfaces[0].null_attached);
    let mut out = Vec::new();
    assert_eq!(
        ops::surface_set_visible(&mut st, a, true, &mut out),
        VisibleStep::NeedPlaceholder
    );
    assert_eq!(out, vec![]);
    ops::placeholder_ready(&mut st, a, &window(), Some(5), &mut out);
    assert_eq!(
        out,
        vec![
            layer(a, Request::SetSource { x: 0, y: 0, w: 1, h: 1 }),
            layer(a, Request::SetDestination { w: 640, h: 360 }),
            layer(a, Request::Attach(5)),
            layer(a, Request::Damage { w: 1, h: 1 }),
            layer(a, Request::Commit),
            StateRequest::Flush,
            StateRequest::RequestPresent,
        ]
    );
    assert!(st.surfaces[0].placeholder && !st.surfaces[0].null_attached);
    assert!(!st.buffers.buffer_is_idle(5));
    let mut out = Vec::new();
    ops::placeholder_ready(&mut st, a, &window(), None, &mut out);
    assert_eq!(out, vec![StateRequest::RequestPresent]);
    assert!(!st.buffers.note_buffer_release(5));
    let mut out = Vec::new();
    ops::placeholder_ready(&mut st, a, &window(), Some(6), &mut out);
    assert_eq!(out[0], layer(a, Request::DestroyBuffer(5)));
}

#[test]
fn workers_are_told_about_visibility() {
    let mut st = state(true);
    let a = new_layer(&mut st);
    ops::surface_present_software(&mut st, a, &window(), 4, 4, &mut Vec::new());
    let mut out = Vec::new();
    ops::surface_set_visible(&mut st, a, false, &mut out);
    assert_eq!(
        out,
        vec![
            StateRequest::ShowShmWorker(a, false),
            layer(a, Request::Detach),
            layer(a, Request::Commit),
            StateRequest::Flush,
        ]
    );
    let mut out = Vec::new();
    assert_eq!(ops::surface_set_visible(&mut st, a, true, &mut out), VisibleStep::Done);
    assert_eq!(out, vec![StateRequest::ShowShmWorker(a, true)]);
    let mut st = state(true);
    st.install_gpu_paint();
    let a = new_layer(&mut st);
    ops::surface_present_software(&mut st, a, &window(), 4, 4, &mut Vec::new());
    let mut out = Vec::new();
    ops::surface_set_visible(&mut st, a, false, &mut out);
    assert_eq!(out, vec![StateRequest::ShowGpuWorker(a, false)]);
}

fn frame(w: i32, h: i32) -> JfnDmabufFrame {
    JfnDmabufFrame {
        id: Some(TextureId(1, 2)),
        stride: 8,
        modifier: 0,
        coded_w: w + 8,
        coded_h: h + 8,
        visible_w: w,
        visible_h: h,
    }
}

#[test]
fn a_frame_for_the_window_is_shown() {
    let mut st = state(true);
    let a = new_layer(&mut st);
    let mut out = Vec::new();
    let lease = ops::surface_present(&mut st, a, &window(), &frame(1280, 720), 9, &mut out);
    assert_eq!(lease, Some(DmabufLease::Pooled(9)));
    assert_eq!(
        out,
        vec![
            layer(a, Request::SetSource { x: 0, y: 0, w: 1280, h: 720 }),
            layer(a, Request::SetDestination { w: 640, h: 360 }),
            layer(a, Request::Attach(9)),
            layer(a, Request::Damage { w: 1288, h: 728 }),
            layer(a, Request::Commit),
            StateRequest::Flush,
            StateRequest::RequestPresent,
        ]
    );
    assert_eq!((st.surfaces[0].buffer_w, st.surfaces[0].buffer_h), (1288, 728));
    assert!(!st.buffers.buffer_is_idle(9));
    st.buffers.note_buffer_release(9);
    let f = frame(1280, 720);
    let lease = ffi::jfn_wl_surface_present(&mut st, a, &window(), Some(&f), 10, &mut out);
    assert_eq!(lease, Some(DmabufLease::Reused(9)));
}

#[test]
fn frames_of_another_size_wait_for_the_window() {
    let mut st = state(true);
    let a = new_layer(&mut st);
    let mut out = Vec::new();
    let stale = frame(1000, 720);
    assert_eq!(ops::surface_present(&mut st, a, &window(), &stale, 9, &mut out), None);
    assert_eq!(
        ffi::jfn_wl_surface_present(&mut st, a, &window(), None, 9, &mut out),
        None
    );
    assert_eq!(out, vec![]);
    ops::surface_set_visible(&mut st, a, false, &mut Vec::new());
    assert_eq!(ops::surface_present(&mut st, a, &window(), &stale, 9, &mut out), None);
    ops::surface_set_visible(&mut st, a, true, &mut Vec::new());
    assert_eq!(
        ops::surface_present(&mut st, a, &window(), &stale, 9, &mut out),
        Some(DmabufLease::Pooled(9))
    );
    assert!(size_in_tolerance(&window(), 1280 + 32, 720 - 32));
    assert!(!size_in_tolerance(&window(), 1280 + 33, 720));
    assert!(size_in_tolerance(&WlWindowState::default(), 1, 1));
}

#[test]
fn software_frames_go_to_a_worker() {
    let mut st = state(true);
    let a = new_layer(&mut st);
    let mut out = Vec::new();
    let viewport = ViewportState {
        lw: 640,
        lh: 360,
        pw: 1280,
        ph: 720,
    };
    assert_eq!(
        ffi::jfn_wl_surface_present_software(&mut st, a, &window(), 4, 5, &mut out),
        (SoftwareStep::Shm { start: true, viewport }, 80)
    );
    assert_eq!(
        ops::surface_present_software(&mut st, a, &window(), 4, 5, &mut out),
        SoftwareStep::Shm {
            start: false,
            viewport
        }
    );
    let unknown = WlWindowState::default();
    assert_eq!(
        ops::surface_present_software(&mut st, a, &unknown, 4, 5, &mut out),
        SoftwareStep::Refused
    );
    assert_eq!(
        ffi::jfn_wl_surface_present_software(&mut st, a, &window(), 0, 5, &mut out),
        (SoftwareStep::Refused, 0)
    );
    assert_eq!(
        ffi::jfn_wl_surface_present_software(&mut st, 99, &window(), 4, 5, &mut out),
        (SoftwareStep::Refused, 80)
    );
    assert_eq!(out, vec![]);
    let mut st = state(true);
    st.install_gpu_paint();
    let a = new_layer(&mut st);
    assert_eq!(
        ops::surface_present_software(&mut st, a, &window(), 4, 5, &mut out),
        SoftwareStep::Gpu {
            start: true,
            w: 1280,
            h: 720
        }
    );
    assert_eq!(
        out,
        vec![
            layer(a, Request::SetSource { x: 0, y: 0, w: 4, h: 5 }),
            layer(a, Request::SetDestination { w: 640, h: 360 }),
        ]
    );
    assert_eq!(
        ops::surface_present_software(&mut st, a, &unknown, 4, 5, &mut out),
        SoftwareStep::Gpu {
            start: false,
            w: 4,
            h: 5
        }
    );
}

#[test]
fn a_popup_child_shows_its_frames() {
    let mut st = state(true);
    let a = new_layer(&mut st);
    let mut out = Vec::new();
    assert!(!ops::popup_present(&mut st, a, &frame(9, 9), 5, 6, 7, &mut out));
    assert_eq!(out, vec![]);
    ops::popup_show(&mut st, a, 1, 2, 5, 6, &mut out);
    assert_eq!(
        out,
        vec![
            popup(a, Request::CreateSurface),
            popup(a, Request::CreateSubsurface),
            popup(a, Request::EmptyInputRegion),
            popup(a, Request::CreateViewport),
            popup(a, Request::SetPosition { x: 1, y: 2 }),
            popup(a, Request::SetDestination { w: 5, h: 6 }),
            StateRequest::Flush,
        ]
    );
    assert!(ops::popup_ready(&st, a, 5, 6));
    assert!(!ops::popup_ready(&st, a, 0, 6));
    let mut out = Vec::new();
    let mut f = frame(9, 9);
    f.visible_w = 0;
    assert!(ops::popup_present(&mut st, a, &f, 5, 6, 7, &mut out));
    assert_eq!(
        out,
        vec![
            popup(a, Request::SetSource { x: 0, y: 0, w: 17, h: 9 }),
            popup(a, Request::SetDestination { w: 5, h: 6 }),
            popup(a, Request::Attach(7)),
            popup(a, Request::Damage { w: 17, h: 9 }),
            popup(a, Request::CommitOwner),
            popup(a, Request::Commit),
            StateRequest::Flush,
            StateRequest::RequestPresent,
        ]
    );
    st.buffers.note_buffer_release(7);
    let mut out = Vec::new();
    ops::popup_present_software(&mut st, a, None, 3, 4, 5, 6, &mut out);
    assert_eq!(out, vec![]);
    ops::popup_present_software(&mut st, a, Some(8), 3, 4, 5, 6, &mut out);
    assert_eq!(out[0], layer(a, Request::DestroyBuffer(7)));
    assert_eq!(st.surfaces[0].popup_buffer, Some(8));
    let mut out = Vec::new();
    ops::popup_hide(&mut st, a, &mut out);
    assert_eq!(
        out,
        vec![
            popup(a, Request::DestroyViewport),
            popup(a, Request::DestroySubsurface),
            popup(a, Request::DestroySurface),
            StateRequest::Flush,
        ]
    );
    assert!(!ops::popup_ready(&st, a, 5, 6));
    assert!(st.buffers.note_buffer_release(8));
}

#[test]
fn a_configure_fits_every_stacked_layer() {
    let mut st = state(false);
    let a = new_layer(&mut st);
    let b = new_layer(&mut st);
    ops::surface_present_software(&mut st, b, &window(), 4, 4, &mut Vec::new());
    ops::restack(&mut st, &[b], &mut Vec::new());
    let mut out = Vec::new();
    ops::on_configure(&mut st, &WlWindowState::default(), true, true, &mut out);
    assert_eq!(out, vec![]);
    assert!(!ffi::jfn_wl_was_fullscreen(&st));
    ops::on_configure(&mut st, &window(), true, true, &mut out);
    let viewport = ViewportState {
        lw: 640,
        lh: 360,
        pw: 1280,
        ph: 720,
    };
    assert_eq!(
        out,
        vec![
            layer(b, Request::CreateSubsurface),
            layer(b, Request::SetPosition { x: 0, y: 0 }),
            StateRequest::ResizeShmWorker(b, viewport),
            layer(b, Request::SetDestination { w: 640, h: 360 }),
            layer(b, Request::Commit),
            StateRequest::Flush,
        ]
    );
    assert!(ops::was_fullscreen(&st));
    assert_eq!(st.find(a), Some(0));
    let mut held = Some(st);
    ffi::jfn_wl_core_set_was_fullscreen(&mut held, false);
    assert_eq!(held.as_ref().unwrap().find(a), Some(0));
    assert!(!ops::was_fullscreen(held.as_ref().unwrap()));
    let mut none = None;
    ffi::jfn_wl_core_set_was_fullscreen(&mut none, true);
    assert!(none.is_none());
}

#[test]
fn the_seeded_fullscreen_state_is_kept_until_a_configure() {
    let mut held = Some(state(true));
    assert!(!ffi::jfn_wl_was_fullscreen(held.as_ref().unwrap()));
    ffi::jfn_wl_core_set_was_fullscreen(&mut held, true);
    let mut st = held.unwrap();
    assert!(ffi::jfn_wl_was_fullscreen(&st));
    st.install_gpu_paint();
    assert!(ffi::jfn_wl_was_fullscreen(&st));
    ops::on_configure(&mut st, &window(), false, true, &mut Vec::new());
    assert!(!ffi::jfn_wl_was_fullscreen(&st));
}

#[test]
fn window_commands_need_controls() {
    let st = state(true);
    assert_eq!(
        ffi::jfn_wl_toggle_fullscreen(true, &st),
        Some(ToplevelRequest::SetFullscreen)
    );
    assert_eq!(ffi::jfn_wl_toggle_fullscreen(false, &st), None);
    assert_eq!(
        ffi::jfn_wl_set_fullscreen(true, false),
        Some(ToplevelRequest::UnsetFullscreen)
    );
    assert_eq!(ffi::jfn_wl_window_minimize(true), Some(ToplevelRequest::SetMinimized));
    let mut command = MaximizeCommand { maximized: false };
    assert_eq!(
        ffi::jfn_wl_window_toggle_maximize(true, &mut command),
        Some(ToplevelRequest::SetMaximized)
    );
    assert_eq!(
        ffi::jfn_wl_window_toggle_maximize(true, &mut command),
        Some(ToplevelRequest::UnsetMaximized)
    );
    ffi::sync_maximized_command_state(&mut command, true);
    assert_eq!(
        ffi::jfn_wl_window_toggle_maximize(true, &mut command),
        Some(ToplevelRequest::UnsetMaximized)
    );
    assert_eq!(
        ffi::jfn_wl_window_start_move(true, Some(4)),
        Some(ToplevelRequest::Move { serial: 4 })
    );
    assert_eq!(ffi::jfn_wl_window_start_move(true, None), None);
    assert_eq!(
        ffi::jfn_wl_window_start_resize(true, Some(4), 10),
        Some(ToplevelRequest::Resize { serial: 4, edge: 10 })
    );
    assert_eq!(ffi::jfn_wl_window_start_resize(true, Some(4), 3), None);
    assert_eq!(ffi::jfn_wl_window_start_resize(true, Some(4), -1), None);
}
