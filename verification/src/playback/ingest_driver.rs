//! Driver of the player's event stream: the cached state that the rest of the
//! application reads, the callbacks beside the main queue, and the event
//! thread.
//!
//! Scales and rates are held as bit patterns.
use crate::bits;
use crate::bits::{positive_f64, positive_scale, ONE_F32};
use vstd::prelude::*;

verus! {

/// Flag of a dispatch: the player is shutting down, end the loop.
pub const INGEST_FLAG_SHUTDOWN: u8 = 1;

/// Code of the Wayland backend.
pub const BACKEND_WAYLAND: u8 = 0;

/// The state that the player last reported.
#[derive(Clone, Copy, Debug, PartialEq, Eq, Structural)]
pub struct IngestState {
    pub window_pw: i32,
    pub window_ph: i32,
    pub osd_pw: i32,
    pub osd_ph: i32,
    pub fullscreen: bool,
    pub window_maximized: bool,
    /// Bit pattern of the double-precision scale.
    pub display_scale: u64,
    /// Bit pattern of the double-precision refresh rate.
    pub display_hz: u64,
}

/// Notes a window size in device pixels, to be saved with the geometry.
pub fn jfn_playback_set_window_pixels(st: &mut IngestState, pw: i32, ph: i32)
    ensures
        *final(st) == (IngestState { window_pw: pw, window_ph: ph, ..*old(st) }),
{
    st.window_pw = pw;
    st.window_ph = ph;
}

/// The window's width in device pixels.
pub fn jfn_playback_window_pw(st: &IngestState) -> (r: i32)
    ensures
        r == st.window_pw,
{
    st.window_pw
}

/// The window's height in device pixels.
pub fn jfn_playback_window_ph(st: &IngestState) -> (r: i32)
    ensures
        r == st.window_ph,
{
    st.window_ph
}

/// Whether the player is fullscreen.
pub fn jfn_playback_fullscreen(st: &IngestState) -> (r: bool)
    ensures
        r == st.fullscreen,
{
    st.fullscreen
}

/// Whether the player's window is maximized.
pub fn jfn_playback_window_maximized(st: &IngestState) -> (r: bool)
    ensures
        r == st.window_maximized,
{
    st.window_maximized
}

/// The width of the player's picture.
pub fn jfn_playback_osd_pw(st: &IngestState) -> (r: i32)
    ensures
        r == st.osd_pw,
{
    st.osd_pw
}

/// The height of the player's picture.
pub fn jfn_playback_osd_ph(st: &IngestState) -> (r: i32)
    ensures
        r == st.osd_ph,
{
    st.osd_ph
}

/// The bit pattern of the display's scale.
pub fn jfn_playback_display_scale(st: &IngestState) -> (r: u64)
    ensures
        r == st.display_scale,
{
    st.display_scale
}

/// The bit pattern of the display's refresh rate.
pub fn jfn_playback_display_hz(st: &IngestState) -> (r: u64)
    ensures
        r == st.display_hz,
{
    st.display_hz
}

/// Notes the display's refresh rate.
pub fn jfn_playback_set_display_hz(st: &mut IngestState, hz: u64)
    ensures
        *final(st) == (IngestState { display_hz: hz, ..*old(st) }),
{
    st.display_hz = hz;
}

/// Takes in a refresh rate that was read at once: `read` holds what the call
/// returned and the pattern it left, none without a player. A call that
/// failed, or a rate that is not above zero, changes nothing.
pub fn jfn_playback_seed_display_hz_sync(st: &mut IngestState, read: Option<(i32, u64)>)
    ensures
        *final(st) == match read {
            Some(p) if p.0 >= 0 && bits::is_positive_f64(p.1) => IngestState {
                display_hz: p.1,
                ..*old(st)
            },
            _ => *old(st),
        },
{
    if let Some(p) = read {
        if p.0 >= 0 && positive_f64(p.1) {
            jfn_playback_set_display_hz(st, p.1);
        }
    }
}

/// What taking in an event comes to; `I` is an input of the coordinator.
#[derive(Clone, Copy, Debug, PartialEq, Eq, Structural)]
pub enum IngestOut<I> {
    Input(I),
    /// The display's scale changed to this bit pattern.
    DisplayScaleChanged(u64),
    Shutdown,
}

/// What is done for it.
#[derive(Clone, Copy, Debug, PartialEq, Eq, Structural)]
pub enum DispatchEffect<I> {
    /// Post an input to the coordinator.
    Post(I),
    /// Call the scale handler.
    CallScale(u64),
}

/// What is done for one outcome: a scale without a handler is dropped.
pub open spec fn effect_of<I>(o: IngestOut<I>, has_scale_handler: bool) -> Option<
    DispatchEffect<I>,
> {
    match o {
        IngestOut::Input(i) => Some(DispatchEffect::Post(i)),
        IngestOut::DisplayScaleChanged(d) => if has_scale_handler {
            Some(DispatchEffect::CallScale(d))
        } else {
            None
        },
        IngestOut::Shutdown => None,
    }
}

/// What is done for all outcomes, in order.
pub open spec fn effects_of<I>(outs: Seq<IngestOut<I>>, has_scale_handler: bool) -> Seq<
    DispatchEffect<I>,
> {
    outs.filter_map(|o: IngestOut<I>| effect_of(o, has_scale_handler))
}

/// Whether a shutdown is among the outcomes.
pub open spec fn has_shutdown<I>(outs: Seq<IngestOut<I>>) -> bool {
    exists|i: int| 0 <= i < outs.len() && #[trigger] outs[i] == IngestOut::<I>::Shutdown
}

/// What is done for the outcomes of an event, and the flags that tell the
/// loop about it. `shutdown` is set where the player shuts down.
pub fn dispatch<I: Copy>(
    outs: &Vec<IngestOut<I>>,
    has_scale_handler: bool,
    shutdown: &mut bool,
) -> (r: (Vec<DispatchEffect<I>>, u8))
    ensures
        r.0@ == effects_of(outs@, has_scale_handler),
        r.1 == if has_shutdown(outs@) {
            INGEST_FLAG_SHUTDOWN
        } else {
            0
        },
        *final(shutdown) == (*old(shutdown) || has_shutdown(outs@)),
{
    let mut effects: Vec<DispatchEffect<I>> = Vec::new();
    let mut flags: u8 = 0;
    for k in 0..outs.len()
        invariant
            effects@ == effects_of(outs@.take(k as int), has_scale_handler),
            flags == if has_shutdown(outs@.take(k as int)) {
                INGEST_FLAG_SHUTDOWN
            } else {
                0
            },
            *shutdown == (*old(shutdown) || has_shutdown(outs@.take(k as int))),
    {
        let ghost before = outs@.take(k as int);
        let ghost after = outs@.take(k + 1);
        proof {
            assert(after.drop_last() =~= before);
            assert(after.last() == outs@[k as int]);
            assert forall|i: int| 0 <= i < before.len() implies before[i] == after[i] by {}
            if has_shutdown(before) {
                let i = choose|i: int|
                    0 <= i < before.len() && #[trigger] before[i] == IngestOut::<I>::Shutdown;
                assert(after[i] == IngestOut::<I>::Shutdown);
            }
            if has_shutdown(after) {
                let i = choose|i: int|
                    0 <= i < after.len() && #[trigger] after[i] == IngestOut::<I>::Shutdown;
                if i < before.len() {
                    assert(before[i] == IngestOut::<I>::Shutdown);
                }
            }
            assert(after[k as int] == outs@[k as int]);
        }
        match outs[k] {
            IngestOut::Input(i) => effects.push(DispatchEffect::Post(i)),
            IngestOut::DisplayScaleChanged(d) => {
                if has_scale_handler {
                    effects.push(DispatchEffect::CallScale(d));
                }
            },
            IngestOut::Shutdown => {
                *shutdown = true;
                flags = INGEST_FLAG_SHUTDOWN;
            },
        }
        assert(effects@ =~= effects_of(after, has_scale_handler));
    }
    assert(outs@.take(outs@.len() as int) =~= outs@);
    (effects, flags)
}

/// Dispatches what taking an event of the player in came to. What comes back
/// are the effects, in order, and the flags: see [`INGEST_FLAG_SHUTDOWN`].
pub fn jfn_playback_ingest_mpv_event_owned<I: Copy, D, P, M, F, S>(
    outs: &Vec<IngestOut<I>>,
    handlers: &Handlers<D, P, M, F, S>,
    shutdown: &mut bool,
) -> (r: (Vec<DispatchEffect<I>>, u8))
    ensures
        r.0@ == effects_of(outs@, handlers.display_scale is Some),
        r.1 == if has_shutdown(outs@) {
            INGEST_FLAG_SHUTDOWN
        } else {
            0
        },
        *final(shutdown) == (*old(shutdown) || has_shutdown(outs@)),
{
    dispatch(outs, handlers.display_scale.is_some(), shutdown)
}

/// The callbacks beside the coordinator's queue: of the scale, of the scale
/// and logical size in force, of fullscreen changes, and of the shutdown.
#[derive(Debug)]
pub struct Handlers<D, P, M, F, S> {
    pub display_scale: Option<D>,
    pub scale: Option<P>,
    pub macos_logical: Option<M>,
    pub fullscreen: Option<F>,
    pub shutdown: Option<S>,
}

/// Installs what is called when the display's scale changes, in place of what
/// was.
pub fn jfn_playback_set_display_scale_handler<D, P, M, F, S>(
    h: &mut Handlers<D, P, M, F, S>,
    cb: D,
)
    ensures
        *final(h) == (Handlers { display_scale: Some(cb), ..*old(h) }),
{
    h.display_scale = Some(cb);
}

/// Installs what gives the scale for an event, in place of what was.
pub fn jfn_playback_set_scale_provider<D, P, M, F, S>(h: &mut Handlers<D, P, M, F, S>, cb: P)
    ensures
        *final(h) == (Handlers { scale: Some(cb), ..*old(h) }),
{
    h.scale = Some(cb);
}

/// Installs what gives the logical content size on macOS, in place of what
/// was.
pub fn jfn_playback_set_macos_logical_provider<D, P, M, F, S>(
    h: &mut Handlers<D, P, M, F, S>,
    cb: M,
)
    ensures
        *final(h) == (Handlers { macos_logical: Some(cb), ..*old(h) }),
{
    h.macos_logical = Some(cb);
}

/// Installs what is called when fullscreen changes, in place of what was.
pub fn jfn_playback_set_fullscreen_handler<D, P, M, F, S>(h: &mut Handlers<D, P, M, F, S>, cb: F)
    ensures
        *final(h) == (Handlers { fullscreen: Some(cb), ..*old(h) }),
{
    h.fullscreen = Some(cb);
}

/// Installs what is called when the player shuts down, in place of what was.
pub fn jfn_playback_set_shutdown_handler<D, P, M, F, S>(h: &mut Handlers<D, P, M, F, S>, cb: S)
    ensures
        *final(h) == (Handlers { shutdown: Some(cb), ..*old(h) }),
{
    h.shutdown = Some(cb);
}

/// The scale for an event, from what the provider gave, if there is one: one
/// where it is not above zero.
pub fn snapshot_scale(provided: Option<u32>) -> (r: u32)
    ensures
        r == match provided {
            Some(s) => bits::scale_or_one(s),
            None => ONE_F32,
        },
        bits::is_positive_f32(r),
{
    match provided {
        Some(s) => positive_scale(s),
        None => ONE_F32,
    }
}

/// A picture size that did not come from the player, to be taken in as if it
/// had.
#[derive(Clone, Copy, Debug, PartialEq, Eq)]
pub struct OsdPost {
    pub w: i64,
    pub h: i64,
    pub scale_bits: u32,
    pub macos_logical: Option<(i32, i32)>,
}

/// Makes up a picture size from the window's.
pub fn jfn_playback_post_osd_pixels(
    pw: i32,
    ph: i32,
    scale_bits: u32,
    has_macos_logical: bool,
    mac_lw: i32,
    mac_lh: i32,
) -> (r: OsdPost)
    ensures
        r.w == pw,
        r.h == ph,
        r.scale_bits == scale_bits,
        r.macos_logical == if has_macos_logical {
            Some((mac_lw, mac_lh))
        } else {
            None
        },
{
    OsdPost {
        w: pw as i64,
        h: ph as i64,
        scale_bits,
        macos_logical: if has_macos_logical {
            Some((mac_lw, mac_lh))
        } else {
            None
        },
    }
}

/// A property of the player that is observed.
#[derive(Clone, Copy, Debug, PartialEq, Eq, Structural)]
pub enum Observed {
    DisplayScale,
    OsdDims,
    Fullscreen,
    Pause,
    TimePos,
    Duration,
    Speed,
    Seeking,
    DisplayFps,
    CacheState,
    WindowMax,
    PausedForCache,
    CoreIdle,
    VideoFrameInfo,
}

/// The form in which a property is delivered.
#[derive(Clone, Copy, Debug, PartialEq, Eq, Structural)]
pub enum PropertyFormat {
    Double,
    Flag,
    Node,
}

/// The player's name of a property.
pub fn property_name(p: Observed) -> (r: &'static str)
    ensures
        r@ == match p {
            Observed::DisplayScale => "display-hidpi-scale"@,
            Observed::OsdDims => "osd-dimensions"@,
            Observed::Fullscreen => "fullscreen"@,
            Observed::Pause => "pause"@,
            Observed::TimePos => "time-pos"@,
            Observed::Duration => "duration"@,
            Observed::Speed => "speed"@,
            Observed::Seeking => "seeking"@,
            Observed::DisplayFps => "display-fps"@,
            Observed::CacheState => "demuxer-cache-state"@,
            Observed::WindowMax => "window-maximized"@,
            Observed::PausedForCache => "paused-for-cache"@,
            Observed::CoreIdle => "core-idle"@,
            Observed::VideoFrameInfo => "video-frame-info"@,
        },
{
    match p {
        Observed::DisplayScale => "display-hidpi-scale",
        Observed::OsdDims => "osd-dimensions",
        Observed::Fullscreen => "fullscreen",
        Observed::Pause => "pause",
        Observed::TimePos => "time-pos",
        Observed::Duration => "duration",
        Observed::Speed => "speed",
        Observed::Seeking => "seeking",
        Observed::DisplayFps => "display-fps",
        Observed::CacheState => "demuxer-cache-state",
        Observed::WindowMax => "window-maximized",
        Observed::PausedForCache => "paused-for-cache",
        Observed::CoreIdle => "core-idle",
        Observed::VideoFrameInfo => "video-frame-info",
    }
}

/// The form in which a property is delivered.
pub open spec fn format_of(p: Observed) -> PropertyFormat {
    match p {
        Observed::DisplayScale | Observed::TimePos | Observed::Duration | Observed::Speed
        | Observed::DisplayFps => PropertyFormat::Double,
        Observed::OsdDims | Observed::CacheState | Observed::VideoFrameInfo => PropertyFormat::Node,
        _ => PropertyFormat::Flag,
    }
}

/// The form in which a property is delivered.
pub fn property_format(p: Observed) -> (r: PropertyFormat)
    ensures
        r == format_of(p),
{
    match p {
        Observed::DisplayScale | Observed::TimePos | Observed::Duration | Observed::Speed
        | Observed::DisplayFps => PropertyFormat::Double,
        Observed::OsdDims | Observed::CacheState | Observed::VideoFrameInfo => PropertyFormat::Node,
        _ => PropertyFormat::Flag,
    }
}

/// All observed properties, in the order in which they are registered. The
/// player delivers first values in this order, so the scale is known before
/// the picture size that needs it.
pub open spec fn all_observed() -> Seq<Observed> {
    seq![
        Observed::DisplayScale,
        Observed::OsdDims,
        Observed::Fullscreen,
        Observed::Pause,
        Observed::TimePos,
        Observed::Duration,
        Observed::Speed,
        Observed::Seeking,
        Observed::DisplayFps,
        Observed::CacheState,
        Observed::WindowMax,
        Observed::PausedForCache,
        Observed::CoreIdle,
        Observed::VideoFrameInfo,
    ]
}

/// The properties observed under a backend. Under Wayland the picture size
/// comes from the window's configure instead, and observing it would post it
/// twice.
pub open spec fn observed_under(backend: u8) -> Seq<Observed> {
    if backend == BACKEND_WAYLAND {
        all_observed().remove(1)
    } else {
        all_observed()
    }
}

/// The properties to observe, in order; none without a player.
pub fn jfn_playback_observe_mpv_properties(has_player: bool, backend: u8) -> (r: Option<
    Vec<Observed>,
>)
    ensures
        match r {
            Some(l) => has_player && l@ == observed_under(backend),
            None => !has_player,
        },
{
    if !has_player {
        return None;
    }
    let mut out: Vec<Observed> = Vec::new();
    out.push(Observed::DisplayScale);
    if backend != BACKEND_WAYLAND {
        out.push(Observed::OsdDims);
    }
    out.push(Observed::Fullscreen);
    out.push(Observed::Pause);
    out.push(Observed::TimePos);
    out.push(Observed::Duration);
    out.push(Observed::Speed);
    out.push(Observed::Seeking);
    out.push(Observed::DisplayFps);
    out.push(Observed::CacheState);
    out.push(Observed::WindowMax);
    out.push(Observed::PausedForCache);
    out.push(Observed::CoreIdle);
    out.push(Observed::VideoFrameInfo);
    assert(out@ =~= observed_under(backend));
    Some(out)
}

/// Under Wayland the picture size is not observed; under any other backend it
/// is, after the scale.
pub proof fn law_picture_size_source(backend: u8)
    ensures
        backend == BACKEND_WAYLAND ==> !observed_under(backend).contains(Observed::OsdDims),
        backend != BACKEND_WAYLAND ==> observed_under(backend)[1] == Observed::OsdDims,
        observed_under(backend)[0] == Observed::DisplayScale,
        forall|p: Observed| p != Observed::OsdDims ==> #[trigger] observed_under(backend).contains(p),
{
    let l = observed_under(backend);
    assert forall|p: Observed| p != Observed::OsdDims implies #[trigger] l.contains(p) by {
        let d: int = if backend == BACKEND_WAYLAND {
            1
        } else {
            0
        };
        assert(l[0] == Observed::DisplayScale);
        assert(l[2 - d] == Observed::Fullscreen);
        assert(l[3 - d] == Observed::Pause);
        assert(l[4 - d] == Observed::TimePos);
        assert(l[5 - d] == Observed::Duration);
        assert(l[6 - d] == Observed::Speed);
        assert(l[7 - d] == Observed::Seeking);
        assert(l[8 - d] == Observed::DisplayFps);
        assert(l[9 - d] == Observed::CacheState);
        assert(l[10 - d] == Observed::WindowMax);
        assert(l[11 - d] == Observed::PausedForCache);
        assert(l[12 - d] == Observed::CoreIdle);
        assert(l[13 - d] == Observed::VideoFrameInfo);
    }
}

/// Whether the event thread runs.
#[derive(Clone, Copy, Debug, PartialEq, Eq, Structural)]
pub struct EventThread {
    pub running: bool,
}

/// Whether the event thread can be started now: it does not run, and there is
/// a player.
pub fn can_start_event_thread(t: &EventThread, has_player: bool) -> (r: bool)
    ensures
        r == (!t.running && has_player),
{
    !t.running && has_player
}

/// Whether a start succeeds.
pub open spec fn starts(t: EventThread, has_player: bool, spawned: bool) -> bool {
    !t.running && has_player && spawned
}

/// The thread after a start was tried.
pub open spec fn tried(t: EventThread, has_player: bool, spawned: bool) -> EventThread {
    EventThread { running: t.running || starts(t, has_player, spawned) }
}

/// The thread after a stop.
pub open spec fn halted(t: EventThread) -> EventThread {
    EventThread { running: false }
}

/// Starts the event thread. `spawned` says whether the thread came up, where
/// it was to be started. True where it runs because of this call.
pub fn jfn_playback_start_mpv_event_thread(
    t: &mut EventThread,
    has_player: bool,
    spawned: bool,
) -> (r: bool)
    ensures
        r == starts(*old(t), has_player, spawned),
        *final(t) == tried(*old(t), has_player, spawned),
{
    if !can_start_event_thread(t, has_player) || !spawned {
        return false;
    }
    t.running = true;
    true
}

/// Stops the event thread. True where it runs: tell it to stop, wake the
/// player and wait for the thread.
pub fn jfn_playback_stop_mpv_event_thread(t: &mut EventThread) -> (r: bool)
    ensures
        r == old(t).running,
        *final(t) == halted(*old(t)),
{
    let r = t.running;
    t.running = false;
    r
}

/// The event thread is not started a second time while it runs, stopping it
/// twice is stopping it once, and it can be started again after that.
pub proof fn law_one_event_thread(t: EventThread)
    ensures
        starts(t, true, true) ==> !starts(tried(t, true, true), true, true),
        halted(halted(t)) == halted(t),
        !halted(t).running,
        starts(halted(t), true, true),
{
}

/// An event of the player, as far as the loop looks at it.
#[derive(Clone, Copy, Debug, PartialEq, Eq, Structural)]
pub enum LoopEvent {
    Nothing,
    LogMessage,
    /// A property changed: whether it is the fullscreen one, and its value
    /// where that is a flag.
    Property { fullscreen: bool, flag: Option<bool> },
    Other,
}

/// What the loop does with an event.
#[derive(Clone, Copy, Debug, PartialEq, Eq, Structural)]
pub enum LoopStep {
    /// Wait for the next one.
    Skip,
    /// Pass the message to the log and wait for the next one.
    ForwardLog,
    /// Call the fullscreen handler where there is a value for it, then take
    /// the event in and dispatch what comes of it.
    Ingest { fullscreen: Option<bool> },
}

/// What the loop does with an event.
pub open spec fn step_for(ev: LoopEvent) -> LoopStep {
    match ev {
        LoopEvent::Nothing => LoopStep::Skip,
        LoopEvent::LogMessage => LoopStep::ForwardLog,
        LoopEvent::Property { fullscreen, flag } => LoopStep::Ingest {
            fullscreen: if fullscreen {
                flag
            } else {
                None
            },
        },
        LoopEvent::Other => LoopStep::Ingest { fullscreen: None },
    }
}

/// What the event loop does with an event.
pub fn event_loop(ev: LoopEvent) -> (r: LoopStep)
    ensures
        r == step_for(ev),
{
    match ev {
        LoopEvent::Nothing => LoopStep::Skip,
        LoopEvent::LogMessage => LoopStep::ForwardLog,
        LoopEvent::Property { fullscreen, flag } => LoopStep::Ingest {
            fullscreen: if fullscreen {
                flag
            } else {
                None
            },
        },
        LoopEvent::Other => LoopStep::Ingest { fullscreen: None },
    }
}

/// Whether the event loop ends after a dispatch, the shutdown handler being
/// called first.
pub fn ends_loop(flags: u8) -> (r: bool)
    ensures
        r == (flags & INGEST_FLAG_SHUTDOWN != 0),
        flags == INGEST_FLAG_SHUTDOWN ==> r,
        flags == 0 ==> !r,
{
    assert(1u8 & 1u8 != 0) by (bit_vector);
    assert(0u8 & 1u8 == 0) by (bit_vector);
    flags & INGEST_FLAG_SHUTDOWN != 0
}

} // verus!
