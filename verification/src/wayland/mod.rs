//! Wayland backend: surface stacking, presentation, the application's own
//! toplevel and the proxy that mpv is connected through.
pub mod buffers;
pub mod dmabuf_pool;
pub mod gpu_paint_worker;
pub mod kde_palette;
pub mod lifecycle;
pub mod mpv_host;
pub mod mpv_proxy;
pub mod popup;
pub mod requests;
pub mod root_window;
pub mod scene;
pub mod shm_paint_worker;
pub mod window_state;
pub mod wl_ffi;
pub mod wl_ops;
pub mod wl_state;
