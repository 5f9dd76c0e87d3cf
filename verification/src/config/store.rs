//! The settings store: the settings in memory, where they are kept on disk,
//! and the queue of the background save worker.
//!
//! Reading and writing the file, the lock around the store and the worker
//! thread are the caller's.
use crate::config::device_name;
use crate::config::device_name::normalize_device_name;
use crate::config::settings;
use crate::config::settings::{JfnWindowGeometry, Settings, SettingsData, Unresolved};
use crate::json;
use crate::json::{object_pretty, parse_object, Member};
use crate::platform_abi::WindowDecorations;
use crate::text::string_push;
use vstd::prelude::*;
use vstd::slice::slice_to_vec;

verus! {

/// The settings and the bytes of the path they are kept at. An empty path
/// means that none was given yet.
#[derive(Debug)]
pub struct State {
    pub data: SettingsData,
    pub path: Vec<u8>,
}

impl Default for State {
    fn default() -> (r: Self)
        ensures
            r.data@ == settings::default_settings(),
            r.path@ == Seq::<u8>::empty(),
    {
        State { data: SettingsData::default(), path: Vec::new() }
    }
}

/// The path after another was given.
pub open spec fn kept_path(before: Seq<u8>, path: Seq<u8>) -> Seq<u8> {
    if before.len() == 0 {
        path
    } else {
        before
    }
}

/// Gives the store its path. Only the first path sticks.
pub fn settings_init(st: &mut State, path: &[u8])
    ensures
        final(st).data == old(st).data,
        final(st).path@ == kept_path(old(st).path@, path@),
{
    if st.path.len() == 0 {
        st.path = slice_to_vec(path);
    }
}

/// Lays the contents of the settings file over the settings.
///
/// `contents` is absent where the file could not be read. None comes back,
/// with the settings untouched, where it is absent or is not a JSON object;
/// else what is still to be resolved with [`settings_resolve`].
pub fn settings_load(st: &mut State, contents: Option<&str>) -> (r: Option<Unresolved>)
    ensures
        final(st).path == old(st).path,
        match contents {
            None => r is None && final(st).data == old(st).data,
            Some(t) => match json::json_object(t@) {
                None => r is None && final(st).data == old(st).data,
                Some(d) => {
                    &&& final(st).data@ == settings::overlaid(old(st).data@, d.0)
                    &&& r matches Some(u) && u.window_scale == json::real_at(d.1, "windowScale"@)
                        && u.window_scale is Some == json::number_at(d.0, "windowScale"@)
                        && settings::opt_text(u.window_decorations) == json::text_at(
                        d.0,
                        "windowDecorations"@,
                    )
                },
            },
        },
{
    match contents {
        None => None,
        Some(t) => match parse_object(t) {
            None => None,
            Some(o) => Some(st.data.overlay_json(&o)),
        },
    }
}

/// The settings with a scale and decorations set where they are given.
pub open spec fn resolved(
    s: Settings,
    scale_bits: Option<u32>,
    decorations: Option<WindowDecorations>,
) -> Settings {
    Settings {
        window: JfnWindowGeometry {
            scale_bits: match scale_bits {
                Some(b) => b,
                None => s.window.scale_bits,
            },
            ..s.window
        },
        window_decorations: if decorations is Some {
            decorations
        } else {
            s.window_decorations
        },
        ..s
    }
}

/// Completes a load: the scale of the file narrowed to single precision, and
/// the decorations its name stands for. What is absent stays as it is.
pub fn settings_resolve(
    st: &mut State,
    scale_bits: Option<u32>,
    decorations: Option<WindowDecorations>,
)
    ensures
        final(st).path == old(st).path,
        final(st).data@ == resolved(old(st).data@, scale_bits, decorations),
{
    if let Some(b) = scale_bits {
        st.data.window.scale_bits = b;
    }
    if decorations.is_some() {
        st.data.window_decorations = decorations;
    }
}

/// The settings once a file is read whole: its members laid over `base`, then
/// the number under the scale's key narrowed by `narrow` and the name under
/// the decorations' key looked up by `named`.
pub open spec fn loaded(
    base: Settings,
    file: Map<Seq<char>, Member>,
    scale: Option<u64>,
    narrow: spec_fn(u64) -> u32,
    named: spec_fn(Seq<char>) -> Option<WindowDecorations>,
) -> Settings {
    resolved(
        settings::overlaid(base, file),
        match scale {
            Some(b) => Some(narrow(b)),
            None => None,
        },
        match json::text_at(file, "windowDecorations"@) {
            Some(n) => named(n),
            None => None,
        },
    )
}

/// The text of the settings file.
pub open spec fn file_text(s: Settings, scale_text: Seq<char>, decorations: Seq<char>) -> Seq<
    char,
> {
    json::json_pretty(
        settings::saved_members(s, settings::scale_member(scale_text), decorations),
        settings::saved_fractions(s, scale_text),
    ).push('\n')
}

/// The text of the settings file: the settings as JSON and a final newline.
///
/// `scale_text` is the window scale as a decimal, `decorations_name` the name
/// of the configured decorations. Reading the text back gives the members
/// that were written, as long as the scale is below half the range of a
/// double.
pub fn save_data(data: &SettingsData, scale_text: &str, decorations_name: &str) -> (r: String)
    ensures
        r@ == file_text(data@, scale_text@, decorations_name@),
        json::in_range(settings::saved_fractions(data@, scale_text@)) ==> json::reads_back(
            json::json_object(r@),
            settings::saved_members(
                data@,
                settings::scale_member(scale_text@),
                decorations_name@,
            ),
        ),
{
    let o = data.to_json(scale_text, decorations_name);
    let mut text = object_pretty(&o);
    string_push(&mut text, '\n');
    text
}

/// What to write at once, and where.
pub fn settings_save(st: &State, scale_text: &str, decorations_name: &str) -> (r: (Vec<u8>, String))
    ensures
        r.0@ == st.path@,
        r.1@ == file_text(st.data@, scale_text@, decorations_name@),
        json::in_range(settings::saved_fractions(st.data@, scale_text@)) ==> json::reads_back(
            json::json_object(r.1@),
            settings::saved_members(
                st.data@,
                settings::scale_member(scale_text@),
                decorations_name@,
            ),
        ),
{
    (slice_to_vec(st.path.as_slice()), save_data(&st.data, scale_text, decorations_name))
}

/// The queue of the save worker: at most one snapshot, the newest.
#[derive(Debug)]
pub struct Pending {
    pub data: Option<SettingsData>,
    pub path: Vec<u8>,
    pub stop: bool,
    pub started: bool,
}

/// The queue as a value.
#[verifier::ext_equal]
pub struct Queue {
    pub data: Option<Settings>,
    pub path: Seq<u8>,
    pub stop: bool,
    pub started: bool,
}

impl View for Pending {
    type V = Queue;

    open spec fn view(&self) -> Queue {
        Queue {
            data: match self.data {
                Some(d) => Some(d@),
                None => None,
            },
            path: self.path@,
            stop: self.stop,
            started: self.started,
        }
    }
}

/// A queue that was never used.
pub open spec fn unused_queue() -> Queue {
    Queue { data: None, path: Seq::empty(), stop: false, started: false }
}

impl Default for Pending {
    fn default() -> (r: Self)
        ensures
            r@ == unused_queue(),
    {
        Pending { data: None, path: Vec::new(), stop: false, started: false }
    }
}

/// The queue after a snapshot was handed to it. A stopped queue takes none.
pub open spec fn queued(q: Queue, data: Settings, path: Seq<u8>) -> Queue {
    if q.stop {
        q
    } else {
        Queue { data: Some(data), path, stop: false, started: true }
    }
}

/// What is to be done after a snapshot was handed over.
#[derive(Clone, Copy, Debug, PartialEq, Eq, Structural)]
pub enum AsyncSave {
    /// The worker was shut down: nothing.
    Ignored,
    /// Start the worker, then wake it.
    Spawn,
    /// Wake the worker.
    Wake,
}

/// Hands a snapshot of the settings to the save worker. A snapshot that is
/// still waiting is replaced. The worker is started by the first call; after
/// [`settings_shutdown_save_worker`] nothing happens.
pub fn settings_save_async(st: &State, p: &mut Pending) -> (r: AsyncSave)
    ensures
        final(p)@ == queued(old(p)@, st.data@, st.path@),
        r == if old(p).stop {
            AsyncSave::Ignored
        } else if old(p).started {
            AsyncSave::Wake
        } else {
            AsyncSave::Spawn
        },
{
    if p.stop {
        return AsyncSave::Ignored;
    }
    p.data = Some(st.data.snapshot());
    p.path = slice_to_vec(st.path.as_slice());
    if p.started {
        AsyncSave::Wake
    } else {
        p.started = true;
        AsyncSave::Spawn
    }
}

/// What the save worker does next.
#[derive(Debug)]
pub enum WorkerStep {
    /// Sleep until woken.
    Wait,
    /// Write this snapshot to this path, then ask again.
    Write(SettingsData, Vec<u8>),
    /// End: stopped, and nothing is waiting.
    Exit,
}

/// What the save worker does next, as a value.
pub enum Step {
    Wait,
    Write(Settings, Seq<u8>),
    Exit,
}

impl View for WorkerStep {
    type V = Step;

    open spec fn view(&self) -> Step {
        match *self {
            WorkerStep::Wait => Step::Wait,
            WorkerStep::Write(d, p) => Step::Write(d@, p@),
            WorkerStep::Exit => Step::Exit,
        }
    }
}

/// What the worker does on a queue.
pub open spec fn next_step(q: Queue) -> Step {
    match q.data {
        Some(d) => Step::Write(d, q.path),
        None => if q.stop {
            Step::Exit
        } else {
            Step::Wait
        },
    }
}

/// The queue once the worker has taken what was waiting.
pub open spec fn taken(q: Queue) -> Queue {
    Queue { data: None, ..q }
}

/// One turn of the save worker: takes the waiting snapshot, if any.
pub fn save_worker_loop(p: &mut Pending) -> (r: WorkerStep)
    ensures
        r@ == next_step(old(p)@),
        final(p)@ == taken(old(p)@),
{
    match p.data.take() {
        Some(d) => WorkerStep::Write(d, slice_to_vec(p.path.as_slice())),
        None => if p.stop {
            WorkerStep::Exit
        } else {
            WorkerStep::Wait
        },
    }
}

/// The queue after shutdown.
pub open spec fn stopped(q: Queue) -> Queue {
    Queue { stop: true, ..q }
}

/// Stops the save worker. Where true comes back, wake it and wait for it to
/// end: it writes what is still waiting first. A second call, or a call
/// before the worker was ever started, asks for nothing.
pub fn settings_shutdown_save_worker(p: &mut Pending) -> (r: bool)
    ensures
        final(p)@ == stopped(old(p)@),
        r == (old(p).started && !old(p).stop),
{
    let join = p.started && !p.stop;
    p.stop = true;
    join
}

/// The first path that is given sticks, whatever is given later.
pub proof fn law_first_path_sticks(path: Seq<u8>, later: Seq<u8>)
    requires
        path.len() > 0,
    ensures
        kept_path(Seq::empty(), path) == path,
        kept_path(path, later) == path,
{
}

/// Snapshots coalesce: of several handed over before the worker's turn, only
/// the newest is written.
pub proof fn law_snapshots_coalesce(
    q: Queue,
    first: Settings,
    first_path: Seq<u8>,
    second: Settings,
    second_path: Seq<u8>,
)
    ensures
        queued(queued(q, first, first_path), second, second_path) == queued(
            q,
            second,
            second_path,
        ),
        !q.stop ==> next_step(queued(queued(q, first, first_path), second, second_path))
            == Step::Write(second, second_path),
{
}

/// Shutdown loses nothing: what waits is written, and only then the worker
/// ends.
pub proof fn law_shutdown_drains(q: Queue)
    ensures
        q.data matches Some(d) ==> next_step(stopped(q)) == Step::Write(d, q.path),
        next_step(taken(stopped(q))) == Step::Exit,
{
}

/// After shutdown a save is a no-op, and so is a second shutdown.
pub proof fn law_stopped_stays(q: Queue, data: Settings, path: Seq<u8>)
    ensures
        queued(stopped(q), data, path) == stopped(q),
        stopped(stopped(q)) == stopped(q),
{
}

/// The server's address.
pub fn server_url(st: &State) -> (r: String)
    ensures
        r@ == st.data@.server_url,
{
    st.data.server_url.clone()
}

/// Sets the server's address.
pub fn set_server_url(st: &mut State, v: &str)
    ensures
        final(st).path == old(st).path,
        final(st).data@ == (Settings { server_url: v@, ..old(st).data@ }),
{
    st.data.server_url = v.to_owned();
}

/// The decoding mode.
pub fn hwdec(st: &State) -> (r: String)
    ensures
        r@ == st.data@.hwdec,
{
    st.data.hwdec.clone()
}

/// Sets the decoding mode.
pub fn set_hwdec(st: &mut State, v: &str)
    ensures
        final(st).path == old(st).path,
        final(st).data@ == (Settings { hwdec: v@, ..old(st).data@ }),
{
    st.data.hwdec = v.to_owned();
}

/// The codecs passed through to the audio device.
pub fn audio_passthrough(st: &State) -> (r: String)
    ensures
        r@ == st.data@.audio_passthrough,
{
    st.data.audio_passthrough.clone()
}

/// Sets the codecs passed through to the audio device.
pub fn set_audio_passthrough(st: &mut State, v: &str)
    ensures
        final(st).path == old(st).path,
        final(st).data@ == (Settings { audio_passthrough: v@, ..old(st).data@ }),
{
    st.data.audio_passthrough = v.to_owned();
}

/// The channel layout.
pub fn audio_channels(st: &State) -> (r: String)
    ensures
        r@ == st.data@.audio_channels,
{
    st.data.audio_channels.clone()
}

/// Sets the channel layout.
pub fn set_audio_channels(st: &mut State, v: &str)
    ensures
        final(st).path == old(st).path,
        final(st).data@ == (Settings { audio_channels: v@, ..old(st).data@ }),
{
    st.data.audio_channels = v.to_owned();
}

/// The log level.
pub fn log_level(st: &State) -> (r: String)
    ensures
        r@ == st.data@.log_level,
{
    st.data.log_level.clone()
}

/// Sets the log level.
pub fn set_log_level(st: &mut State, v: &str)
    ensures
        final(st).path == old(st).path,
        final(st).data@ == (Settings { log_level: v@, ..old(st).data@ }),
{
    st.data.log_level = v.to_owned();
}

/// The device name set by the user; empty where the host's own is used.
pub fn device_name(st: &State) -> (r: String)
    ensures
        r@ == st.data@.device_name,
{
    st.data.device_name.clone()
}

/// Sets the device name, cleaned by [`normalize_device_name`].
pub fn set_device_name(st: &mut State, raw: &str, platform_default: &str)
    ensures
        final(st).path == old(st).path,
        final(st).data@ == (Settings {
            device_name: device_name::normalized(raw@, platform_default@),
            ..old(st).data@
        }),
{
    st.data.device_name = normalize_device_name(raw, platform_default);
}

/// Whether audio output is exclusive.
pub fn audio_exclusive(st: &State) -> (r: bool)
    ensures
        r == st.data@.audio_exclusive,
{
    st.data.audio_exclusive
}

/// Sets whether audio output is exclusive.
pub fn set_audio_exclusive(st: &mut State, v: bool)
    ensures
        final(st).path == old(st).path,
        final(st).data@ == (Settings { audio_exclusive: v, ..old(st).data@ }),
{
    st.data.audio_exclusive = v;
}

/// Whether the browser composites without the GPU.
pub fn disable_gpu_compositing(st: &State) -> (r: bool)
    ensures
        r == st.data@.disable_gpu_compositing,
{
    st.data.disable_gpu_compositing
}

/// Sets whether the browser composites without the GPU.
pub fn set_disable_gpu_compositing(st: &mut State, v: bool)
    ensures
        final(st).path == old(st).path,
        final(st).data@ == (Settings { disable_gpu_compositing: v, ..old(st).data@ }),
{
    st.data.disable_gpu_compositing = v;
}

/// Whether the title bar is transparent.
pub fn transparent_titlebar(st: &State) -> (r: bool)
    ensures
        r == st.data@.transparent_titlebar,
{
    st.data.transparent_titlebar
}

/// Sets whether the title bar is transparent.
pub fn set_transparent_titlebar(st: &mut State, v: bool)
    ensures
        final(st).path == old(st).path,
        final(st).data@ == (Settings { transparent_titlebar: v, ..old(st).data@ }),
{
    st.data.transparent_titlebar = v;
}

/// Whether the server always transcodes.
pub fn force_transcoding(st: &State) -> (r: bool)
    ensures
        r == st.data@.force_transcoding,
{
    st.data.force_transcoding
}

/// Sets whether the server always transcodes.
pub fn set_force_transcoding(st: &mut State, v: bool)
    ensures
        final(st).path == old(st).path,
        final(st).data@ == (Settings { force_transcoding: v, ..old(st).data@ }),
{
    st.data.force_transcoding = v;
}

/// Whether the scrollbar is hidden.
pub fn hide_scrollbar(st: &State) -> (r: bool)
    ensures
        r == st.data@.hide_scrollbar,
{
    st.data.hide_scrollbar
}

/// Sets whether the scrollbar is hidden.
pub fn set_hide_scrollbar(st: &mut State, v: bool)
    ensures
        final(st).path == old(st).path,
        final(st).data@ == (Settings { hide_scrollbar: v, ..old(st).data@ }),
{
    st.data.hide_scrollbar = v;
}

/// The decorations in force: what `resolve`, the platform, makes of the
/// configured ones.
pub fn window_decorations_mode<F: Fn(Option<WindowDecorations>) -> WindowDecorations>(
    st: &State,
    resolve: F,
) -> (r: WindowDecorations)
    requires
        call_requires(resolve, (st.data@.window_decorations,)),
    ensures
        call_ensures(resolve, (st.data@.window_decorations,), r),
{
    resolve(st.data.window_decorations)
}

/// Whether `r` names the decorations in force: a mode that the platform makes
/// of the configured ones, by the platform's `name`.
pub open spec fn shows<
    F: Fn(Option<WindowDecorations>) -> WindowDecorations,
    N: Fn(WindowDecorations) -> String,
>(s: Settings, resolve: F, name: N, r: String) -> bool {
    exists|m: WindowDecorations| #[trigger]
        call_ensures(resolve, (s.window_decorations,), m) && call_ensures(name, (m,), r)
}

/// The name of the decorations in force, by the platform's `name`.
pub fn window_decorations<
    F: Fn(Option<WindowDecorations>) -> WindowDecorations,
    N: Fn(WindowDecorations) -> String,
>(st: &State, resolve: F, name: N) -> (r: String)
    requires
        call_requires(resolve, (st.data@.window_decorations,)),
        forall|m: WindowDecorations| call_requires(name, (m,)),
    ensures
        shows(st.data@, resolve, name, r),
{
    let mode = window_decorations_mode(st, resolve);
    name(mode)
}

/// Sets the decorations to what a name stands for; a name that stands for
/// none changes nothing.
pub fn set_window_decorations(st: &mut State, parsed: Option<WindowDecorations>)
    ensures
        final(st).path == old(st).path,
        final(st).data@ == resolved(old(st).data@, None, parsed),
        parsed is None ==> final(st).data@ == old(st).data@,
{
    settings_resolve(st, None, parsed);
    assert(parsed is None ==> st.data@ =~= old(st).data@);
}

/// A name that stands for no decorations leaves the settings as they were,
/// and so the mode in force and the name that is shown; one that stands for
/// some changes nothing but the decorations.
pub proof fn law_unknown_name_changes_nothing<
    F: Fn(Option<WindowDecorations>) -> WindowDecorations,
    N: Fn(WindowDecorations) -> String,
>(s: Settings, resolve: F, name: N, mode: WindowDecorations, r: String, known: WindowDecorations)
    ensures
        resolved(s, None, None) == s,
        call_ensures(resolve, (resolved(s, None, None).window_decorations,), mode)
            == call_ensures(resolve, (s.window_decorations,), mode),
        shows(resolved(s, None, None), resolve, name, r) == shows(s, resolve, name, r),
        resolved(s, None, Some(known)) == (Settings { window_decorations: Some(known), ..s }),
{
    assert(resolved(s, None, None) =~= s);
}

/// Where the platform answers alike whenever it is asked of the same
/// decorations, a name that stands for none leaves what is shown as it was, and
/// what is shown is the name of the mode in force.
pub proof fn law_same_name_is_shown_again<
    F: Fn(Option<WindowDecorations>) -> WindowDecorations,
    N: Fn(WindowDecorations) -> String,
>(
    s: Settings,
    resolve: F,
    name: N,
    mode: WindowDecorations,
    first: String,
    again: String,
)
    requires
        forall|a: WindowDecorations, b: WindowDecorations| #[trigger]
            call_ensures(resolve, (s.window_decorations,), a) && #[trigger] call_ensures(
                resolve,
                (s.window_decorations,),
                b,
            ) ==> a == b,
        forall|m: WindowDecorations, a: String, b: String| #[trigger]
            call_ensures(name, (m,), a) && #[trigger] call_ensures(name, (m,), b) ==> a == b,
        call_ensures(resolve, (s.window_decorations,), mode),
        shows(s, resolve, name, first),
        shows(resolved(s, None, None), resolve, name, again),
    ensures
        again == first,
        call_ensures(name, (mode,), first),
{
    assert(resolved(s, None, None) =~= s);
    let a = choose|m: WindowDecorations| #[trigger]
        call_ensures(resolve, (s.window_decorations,), m) && call_ensures(name, (m,), first);
    let b = choose|m: WindowDecorations| #[trigger]
        call_ensures(resolve, (s.window_decorations,), m) && call_ensures(name, (m,), again);
    assert(a == mode && b == mode);
}

/// Whether the application draws its own title bar in this mode.
pub open spec fn is_client_side(mode: WindowDecorations) -> bool {
    mode == WindowDecorations::Csd
}

/// Whether the server's title bar takes the theme's colour in this mode.
pub open spec fn is_theme_colored(mode: WindowDecorations) -> bool {
    mode == WindowDecorations::ServerThemed
}

/// A title bar that the application draws itself is never also one of the
/// server's in the theme's colour.
pub proof fn law_decorations_exclude_each_other(mode: WindowDecorations)
    ensures
        !(is_client_side(mode) && is_theme_colored(mode)),
{
}

/// Whether the application draws its own title bar, `mode` being the
/// decorations in force.
pub fn client_side_decorations(mode: WindowDecorations) -> (r: bool)
    ensures
        r == is_client_side(mode),
{
    mode == WindowDecorations::Csd
}

/// Whether the server's title bar takes the theme's colour, `mode` being the
/// decorations in force.
pub fn titlebar_theme_color(mode: WindowDecorations) -> (r: bool)
    ensures
        r == is_theme_colored(mode),
{
    mode == WindowDecorations::ServerThemed
}

/// The saved window placement.
pub fn window_geometry(st: &State) -> (r: JfnWindowGeometry)
    ensures
        r == st.data@.window,
{
    st.data.window
}

/// Sets the window placement to be saved.
pub fn set_window_geometry(st: &mut State, g: JfnWindowGeometry)
    ensures
        final(st).path == old(st).path,
        final(st).data@ == (Settings { window: g, ..old(st).data@ }),
{
    st.data.window = g;
}

/// The settings as the web client gets them.
pub fn cli_json(st: &State, hwdec_opts: &[&str], default_name: &str) -> (r: String)
    ensures
        r@ == json::json_compact(
            settings::cli_members(
                st.data@,
                settings::borrowed_texts(hwdec_opts@),
                default_name@,
            ),
            json::no_reals(),
        ),
        json::reads_back(
            json::json_object(r@),
            settings::cli_members(
                st.data@,
                settings::borrowed_texts(hwdec_opts@),
                default_name@,
            ),
        ),
{
    st.data.cli_json(hwdec_opts, default_name)
}

} // verus!
