//! The player's event stream: what is observed, what an event leads to, and
//! what is remembered.
use crate::playback::ingest_driver;
use crate::playback::ingest_driver::{
    DispatchEffect, EventThread, Handlers, IngestOut, IngestState, LoopEvent, LoopStep, Observed, OsdPost,
    PropertyFormat,
};
use vstd::prelude::*;

verus! {

/// A change of the fullscreen property leads to a call of the fullscreen
/// handler with its value, whichever it is; a change of any other property, or
/// any other event, leads to none. Changes are always taken in.
pub proof fn law_fullscreen_handler_is_told(
    value: Option<bool>,
    own: LoopStep,
    other: LoopStep,
    rest: LoopStep,
)
    requires
        call_ensures(
            ingest_driver::event_loop,
            (LoopEvent::Property { fullscreen: true, flag: value },),
            own,
        ),
        call_ensures(
            ingest_driver::event_loop,
            (LoopEvent::Property { fullscreen: false, flag: value },),
            other,
        ),
        call_ensures(ingest_driver::event_loop, (LoopEvent::Other,), rest),
    ensures
        own is Ingest && own->fullscreen == value,
        other is Ingest && other->fullscreen is None,
        rest is Ingest && rest->fullscreen is None,
{
}

/// Only a message goes to the log, and only an event without content is passed
/// over.
pub proof fn law_every_event_is_handled(ev: LoopEvent, r: LoopStep)
    requires
        call_ensures(ingest_driver::event_loop, (ev,), r),
    ensures
        r is ForwardLog == (ev is LogMessage),
        r is Skip == (ev is Nothing),
{
}

proof fn lemma_effects<I>(outs: Seq<IngestOut<I>>, has_scale_handler: bool)
    ensures
        ({
            let e = ingest_driver::effects_of(outs, has_scale_handler);
            &&& forall|k: int|
                0 <= k < outs.len() && (#[trigger] outs[k]) is Input ==> e.contains(
                    DispatchEffect::Post(outs[k]->Input_0),
                )
            &&& has_scale_handler ==> forall|k: int|
                0 <= k < outs.len() && (#[trigger] outs[k]) is DisplayScaleChanged ==> e.contains(
                    DispatchEffect::CallScale(outs[k]->DisplayScaleChanged_0),
                )
            &&& !has_scale_handler ==> forall|k: int|
                0 <= k < e.len() ==> (#[trigger] e[k]) is Post
            &&& forall|k: int|
                0 <= k < e.len() && (#[trigger] e[k]) is Post ==> outs.contains(
                    IngestOut::Input(e[k]->Post_0),
                )
            &&& forall|k: int|
                0 <= k < e.len() && (#[trigger] e[k]) is CallScale ==> outs.contains(
                    IngestOut::DisplayScaleChanged(e[k]->CallScale_0),
                )
            &&& e.len() <= outs.len()
            &&& (forall|k: int| 0 <= k < outs.len() ==> (#[trigger] outs[k]) is Input) ==> e.len()
                == outs.len() && forall|k: int|
                0 <= k < outs.len() ==> #[trigger] e[k] == DispatchEffect::Post(outs[k]->Input_0)
        }),
    decreases outs.len(),
{
    let e = ingest_driver::effects_of(outs, has_scale_handler);
    if outs.len() > 0 {
        let rest = outs.drop_last();
        let last = outs.last();
        lemma_effects(rest, has_scale_handler);
        let f = ingest_driver::effects_of(rest, has_scale_handler);
        assert forall|k: int| 0 <= k < rest.len() implies rest[k] == outs[k] by {}
        assert(last == outs[outs.len() - 1]);
        match ingest_driver::effect_of(last, has_scale_handler) {
            Some(x) => {
                assert(e == f + seq![x]);
                assert(e[f.len() as int] == x);
                assert forall|y: DispatchEffect<I>| f.contains(y) implies #[trigger] e.contains(
                    y,
                ) by {
                    let k = choose|k: int| 0 <= k < f.len() && f[k] == y;
                    assert(e[k] == y);
                }
                assert forall|k: int| 0 <= k < e.len() implies (#[trigger] e[k]) == if k < f.len() {
                    f[k]
                } else {
                    x
                } by {}
            },
            None => {
                assert(e == f);
            },
        }
        assert forall|y: IngestOut<I>| rest.contains(y) implies #[trigger] outs.contains(y) by {
            let k = choose|k: int| 0 <= k < rest.len() && rest[k] == y;
            assert(outs[k] == y);
        }
        assert forall|k: int| 0 <= k < outs.len() && (#[trigger] outs[k]) is Input implies e.contains(
            DispatchEffect::Post(outs[k]->Input_0),
        ) by {
            if k < rest.len() {
                assert(rest[k] is Input);
                assert(f.contains(DispatchEffect::Post(rest[k]->Input_0)));
            }
        }
        if has_scale_handler {
            assert forall|k: int|
                0 <= k < outs.len() && (#[trigger] outs[k]) is DisplayScaleChanged implies e.contains(
                DispatchEffect::CallScale(outs[k]->DisplayScaleChanged_0),
            ) by {
                if k < rest.len() {
                    assert(rest[k] is DisplayScaleChanged);
                    assert(f.contains(DispatchEffect::CallScale(rest[k]->DisplayScaleChanged_0)));
                }
            }
        }
        assert forall|k: int| 0 <= k < e.len() && (#[trigger] e[k]) is Post implies outs.contains(
            IngestOut::Input(e[k]->Post_0),
        ) by {
            if k < f.len() {
                assert(f[k] is Post);
                assert(rest.contains(IngestOut::Input(f[k]->Post_0)));
            }
        }
        assert forall|k: int|
            0 <= k < e.len() && (#[trigger] e[k]) is CallScale implies outs.contains(
            IngestOut::DisplayScaleChanged(e[k]->CallScale_0),
        ) by {
            if k < f.len() {
                assert(f[k] is CallScale);
                assert(rest.contains(IngestOut::DisplayScaleChanged(f[k]->CallScale_0)));
            }
        }
        if forall|k: int| 0 <= k < outs.len() ==> (#[trigger] outs[k]) is Input {
            assert forall|k: int| 0 <= k < rest.len() implies (#[trigger] rest[k]) is Input by {
                assert(outs[k] is Input);
            }
            assert(last is Input);
        }
    } else {
        assert(e =~= Seq::empty());
    }
}

/// Every input of an event is posted, and nothing is posted that is none. A
/// scale goes to its handler where there is one and nowhere otherwise. The loop
/// is told to end, and the shutdown is noted, exactly where the player shuts
/// down.
pub proof fn law_dispatch_posts_every_input<I: Copy>(
    outs: Vec<IngestOut<I>>,
    has_scale_handler: bool,
    shutdown: &mut bool,
    r: (Vec<DispatchEffect<I>>, u8),
    ends: bool,
)
    requires
        call_ensures(ingest_driver::dispatch::<I>, (&outs, has_scale_handler, shutdown), r),
        call_ensures(ingest_driver::ends_loop, (r.1,), ends),
    ensures
        forall|k: int|
            0 <= k < outs@.len() && (#[trigger] outs@[k]) is Input ==> r.0@.contains(
                DispatchEffect::Post(outs@[k]->Input_0),
            ),
        forall|k: int|
            0 <= k < r.0@.len() && (#[trigger] r.0@[k]) is Post ==> outs@.contains(
                IngestOut::Input(r.0@[k]->Post_0),
            ),
        has_scale_handler ==> forall|k: int|
            0 <= k < outs@.len() && (#[trigger] outs@[k]) is DisplayScaleChanged ==> r.0@.contains(
                DispatchEffect::CallScale(outs@[k]->DisplayScaleChanged_0),
            ),
        !has_scale_handler ==> forall|k: int| 0 <= k < r.0@.len() ==> (#[trigger] r.0@[k]) is Post,
        forall|k: int|
            0 <= k < r.0@.len() && (#[trigger] r.0@[k]) is CallScale ==> outs@.contains(
                IngestOut::DisplayScaleChanged(r.0@[k]->CallScale_0),
            ),
        ends == outs@.contains(IngestOut::<I>::Shutdown),
        *final(shutdown) == (*old(shutdown) || outs@.contains(IngestOut::<I>::Shutdown)),
{
    lemma_effects(outs@, has_scale_handler);
    if outs@.contains(IngestOut::<I>::Shutdown) {
        let k = choose|k: int| 0 <= k < outs@.len() && outs@[k] == IngestOut::<I>::Shutdown;
        assert(outs@[k] == IngestOut::<I>::Shutdown);
        assert(ingest_driver::has_shutdown(outs@));
    }
    assert(1u8 & 1u8 != 0) by (bit_vector);
    assert(0u8 & 1u8 == 0) by (bit_vector);
}

/// Inputs are posted in the order in which they come.
pub proof fn law_inputs_keep_their_order<I: Copy>(
    outs: Vec<IngestOut<I>>,
    has_scale_handler: bool,
    shutdown: &mut bool,
    r: (Vec<DispatchEffect<I>>, u8),
)
    requires
        call_ensures(ingest_driver::dispatch::<I>, (&outs, has_scale_handler, shutdown), r),
        forall|k: int| 0 <= k < outs@.len() ==> (#[trigger] outs@[k]) is Input,
    ensures
        r.0@.len() == outs@.len(),
        forall|k: int|
            0 <= k < outs@.len() ==> #[trigger] r.0@[k] == DispatchEffect::Post(outs@[k]->Input_0),
{
    lemma_effects(outs@, has_scale_handler);
}

/// An event of the player is dispatched with the handlers that are installed:
/// as it would be with or without one for the scale.
pub proof fn law_events_use_the_installed_handlers<I: Copy, D, P, M, F, S>(
    outs: Vec<IngestOut<I>>,
    handlers: Handlers<D, P, M, F, S>,
    a: &mut bool,
    r: (Vec<DispatchEffect<I>>, u8),
    b: &mut bool,
    direct: (Vec<DispatchEffect<I>>, u8),
)
    requires
        call_ensures(
            ingest_driver::jfn_playback_ingest_mpv_event_owned::<I, D, P, M, F, S>,
            (&outs, &handlers, a),
            r,
        ),
        call_ensures(
            ingest_driver::dispatch::<I>,
            (&outs, handlers.display_scale is Some, b),
            direct,
        ),
        *a == *b,
    ensures
        r.0@ == direct.0@,
        r.1 == direct.1,
        *final(a) == *final(b),
{
}

/// A handler that is installed takes the place of the one before, and leaves
/// the others.
pub proof fn law_handlers_are_installed<D, P, M, F, S>(
    a: &mut Handlers<D, P, M, F, S>,
    d: D,
    b: &mut Handlers<D, P, M, F, S>,
    p: P,
    c: &mut Handlers<D, P, M, F, S>,
    m: M,
    e: &mut Handlers<D, P, M, F, S>,
    f: F,
    g: &mut Handlers<D, P, M, F, S>,
    s: S,
)
    requires
        call_ensures(
            ingest_driver::jfn_playback_set_display_scale_handler::<D, P, M, F, S>,
            (a, d),
            (),
        ),
        *b == *final(a),
        call_ensures(
            ingest_driver::jfn_playback_set_scale_provider::<D, P, M, F, S>,
            (b, p),
            (),
        ),
        *c == *final(b),
        call_ensures(
            ingest_driver::jfn_playback_set_macos_logical_provider::<D, P, M, F, S>,
            (c, m),
            (),
        ),
        *e == *final(c),
        call_ensures(
            ingest_driver::jfn_playback_set_fullscreen_handler::<D, P, M, F, S>,
            (e, f),
            (),
        ),
        *g == *final(e),
        call_ensures(
            ingest_driver::jfn_playback_set_shutdown_handler::<D, P, M, F, S>,
            (g, s),
            (),
        ),
    ensures
        final(g).display_scale == Some(d),
        final(g).scale == Some(p),
        final(g).macos_logical == Some(m),
        final(g).fullscreen == Some(f),
        final(g).shutdown == Some(s),
        final(a).scale == old(a).scale && final(a).fullscreen == old(a).fullscreen,
        final(a).macos_logical == old(a).macos_logical && final(a).shutdown == old(a).shutdown,
{
}

/// What is read of the player's state is what it holds, each value under its
/// own name.
pub proof fn law_state_is_read_by_name(
    st: IngestState,
    pw: i32,
    ph: i32,
    fullscreen: bool,
    maximized: bool,
    osd_w: i32,
    osd_h: i32,
    scale: u64,
    hz: u64,
)
    requires
        call_ensures(ingest_driver::jfn_playback_window_pw, (&st,), pw),
        call_ensures(ingest_driver::jfn_playback_window_ph, (&st,), ph),
        call_ensures(ingest_driver::jfn_playback_fullscreen, (&st,), fullscreen),
        call_ensures(ingest_driver::jfn_playback_window_maximized, (&st,), maximized),
        call_ensures(ingest_driver::jfn_playback_osd_pw, (&st,), osd_w),
        call_ensures(ingest_driver::jfn_playback_osd_ph, (&st,), osd_h),
        call_ensures(ingest_driver::jfn_playback_display_scale, (&st,), scale),
        call_ensures(ingest_driver::jfn_playback_display_hz, (&st,), hz),
    ensures
        st == (IngestState {
            window_pw: pw,
            window_ph: ph,
            osd_pw: osd_w,
            osd_ph: osd_h,
            fullscreen,
            window_maximized: maximized,
            display_scale: scale,
            display_hz: hz,
        }),
{
}

/// A window size that was noted is read back, and nothing else has changed.
pub proof fn law_noted_size_is_read_back(
    st: &mut IngestState,
    pw: i32,
    ph: i32,
    rw: i32,
    rh: i32,
)
    requires
        call_ensures(ingest_driver::jfn_playback_set_window_pixels, (st, pw, ph), ()),
        call_ensures(ingest_driver::jfn_playback_window_pw, (&*final(st),), rw),
        call_ensures(ingest_driver::jfn_playback_window_ph, (&*final(st),), rh),
    ensures
        rw == pw && rh == ph,
        final(st).osd_pw == old(st).osd_pw && final(st).osd_ph == old(st).osd_ph,
        final(st).fullscreen == old(st).fullscreen,
        final(st).window_maximized == old(st).window_maximized,
        final(st).display_scale == old(st).display_scale,
        final(st).display_hz == old(st).display_hz,
{
}

/// A refresh rate that was read well and is above zero is read back; any other
/// leaves the one before.
pub proof fn law_good_rate_is_read_back(
    st: &mut IngestState,
    rc: i32,
    rate: u64,
    before: u64,
    after: u64,
    none: &mut IngestState,
)
    requires
        call_ensures(
            ingest_driver::jfn_playback_seed_display_hz_sync,
            (st, Some((rc, rate))),
            (),
        ),
        call_ensures(ingest_driver::jfn_playback_display_hz, (&*old(st),), before),
        call_ensures(ingest_driver::jfn_playback_display_hz, (&*final(st),), after),
        call_ensures(ingest_driver::jfn_playback_seed_display_hz_sync, (none, None), ()),
    ensures
        rc >= 0 && 0 < rate <= 0x7FF0_0000_0000_0000 ==> after == rate,
        rc < 0 || rate == 0 || rate > 0x7FF0_0000_0000_0000 ==> after == before,
        final(st).window_pw == old(st).window_pw && final(st).fullscreen == old(st).fullscreen,
        final(st).display_scale == old(st).display_scale,
        *final(none) == *old(none),
{
}

/// A refresh rate that is noted is read back.
pub proof fn law_noted_rate_is_read_back(st: &mut IngestState, hz: u64, r: u64)
    requires
        call_ensures(ingest_driver::jfn_playback_set_display_hz, (st, hz), ()),
        call_ensures(ingest_driver::jfn_playback_display_hz, (&*final(st),), r),
    ensures
        r == hz,
        final(st).display_scale == old(st).display_scale,
        final(st).window_pw == old(st).window_pw && final(st).window_ph == old(st).window_ph,
        final(st).fullscreen == old(st).fullscreen,
{
}

/// A scale that is above zero is used as it is; any other, or none, is one.
pub proof fn law_scale_is_used_where_positive(s: u32, given: u32, none: u32)
    requires
        call_ensures(ingest_driver::snapshot_scale, (Some(s),), given),
        call_ensures(ingest_driver::snapshot_scale, (None,), none),
    ensures
        0 < s <= 0x7F80_0000 ==> given == s,
        s == 0 || s > 0x7F80_0000 ==> given == 0x3F80_0000,
        none == 0x3F80_0000,
{
}

/// A picture size that is made up is the window's, with its scale, and with the
/// logical size only where there is one.
pub proof fn law_made_up_picture_is_the_windows(
    pw: i32,
    ph: i32,
    scale_bits: u32,
    has_macos: bool,
    lw: i32,
    lh: i32,
    r: OsdPost,
)
    requires
        call_ensures(
            ingest_driver::jfn_playback_post_osd_pixels,
            (pw, ph, scale_bits, has_macos, lw, lh),
            r,
        ),
    ensures
        r.w == pw && r.h == ph && r.scale_bits == scale_bits,
        r.macos_logical is Some == has_macos,
        has_macos ==> r.macos_logical == Some((lw, lh)),
{
}

/// Every property but the picture size is observed under every backend, each
/// once; the picture size under every backend but Wayland. The scale comes
/// first, and nothing is observed without a player.
pub proof fn law_properties_are_observed(
    backend: u8,
    with: Option<Vec<Observed>>,
    without: Option<Vec<Observed>>,
)
    requires
        call_ensures(ingest_driver::jfn_playback_observe_mpv_properties, (true, backend), with),
        call_ensures(
            ingest_driver::jfn_playback_observe_mpv_properties,
            (false, backend),
            without,
        ),
    ensures
        without is None,
        with is Some,
        ({
            let l = (with->0)@;
            &&& l[0] == Observed::DisplayScale
            &&& forall|p: Observed| p != Observed::OsdDims ==> #[trigger] l.contains(p)
            &&& l.contains(Observed::OsdDims) == (backend != 0)
            &&& forall|i: int, j: int| 0 <= i < j < l.len() ==> #[trigger] l[i] != #[trigger] l[j]
            &&& l.len() == if backend == 0 {
                13int
            } else {
                14int
            }
        }),
{
    let l = (with->0)@;
    let n: int = if backend == 0 {
        0
    } else {
        1
    };
    assert(l[0] == Observed::DisplayScale);
    if backend != 0 {
        assert(l[1] == Observed::OsdDims);
    }
    assert(l[n + 1] == Observed::Fullscreen);
    assert(l[n + 2] == Observed::Pause);
    assert(l[n + 3] == Observed::TimePos);
    assert(l[n + 4] == Observed::Duration);
    assert(l[n + 5] == Observed::Speed);
    assert(l[n + 6] == Observed::Seeking);
    assert(l[n + 7] == Observed::DisplayFps);
    assert(l[n + 8] == Observed::CacheState);
    assert(l[n + 9] == Observed::WindowMax);
    assert(l[n + 10] == Observed::PausedForCache);
    assert(l[n + 11] == Observed::CoreIdle);
    assert(l[n + 12] == Observed::VideoFrameInfo);
}

/// The player knows each property by its own name, and delivers it in the form
/// that it has there: a switch as a flag, a number as a double, and a record as
/// a node.
pub proof fn law_properties_have_the_players_names(
    p: Observed,
    name: &'static str,
    format: PropertyFormat,
)
    requires
        call_ensures(ingest_driver::property_name, (p,), name),
        call_ensures(ingest_driver::property_format, (p,), format),
    ensures
        p == Observed::Fullscreen ==> name@ == "fullscreen"@ && format == PropertyFormat::Flag,
        p == Observed::Pause ==> name@ == "pause"@ && format == PropertyFormat::Flag,
        p == Observed::Seeking ==> name@ == "seeking"@ && format == PropertyFormat::Flag,
        p == Observed::WindowMax ==> name@ == "window-maximized"@ && format
            == PropertyFormat::Flag,
        p == Observed::PausedForCache ==> name@ == "paused-for-cache"@ && format
            == PropertyFormat::Flag,
        p == Observed::CoreIdle ==> name@ == "core-idle"@ && format == PropertyFormat::Flag,
        p == Observed::DisplayScale ==> name@ == "display-hidpi-scale"@ && format
            == PropertyFormat::Double,
        p == Observed::TimePos ==> name@ == "time-pos"@ && format == PropertyFormat::Double,
        p == Observed::Duration ==> name@ == "duration"@ && format == PropertyFormat::Double,
        p == Observed::Speed ==> name@ == "speed"@ && format == PropertyFormat::Double,
        p == Observed::DisplayFps ==> name@ == "display-fps"@ && format == PropertyFormat::Double,
        p == Observed::OsdDims ==> name@ == "osd-dimensions"@ && format == PropertyFormat::Node,
        p == Observed::CacheState ==> name@ == "demuxer-cache-state"@ && format
            == PropertyFormat::Node,
        p == Observed::VideoFrameInfo ==> name@ == "video-frame-info"@ && format
            == PropertyFormat::Node,
{
}

/// The event thread is started only where it does not run and there is a
/// player, is not started twice, and runs until it is stopped, once.
pub proof fn law_thread_runs_until_stopped(
    a: &mut EventThread,
    has_player: bool,
    spawned: bool,
    can: bool,
    first: bool,
    b: &mut EventThread,
    again: bool,
    c: &mut EventThread,
    stopped: bool,
    d: &mut EventThread,
    twice: bool,
)
    requires
        call_ensures(ingest_driver::can_start_event_thread, (&*old(a), has_player), can),
        call_ensures(
            ingest_driver::jfn_playback_start_mpv_event_thread,
            (a, has_player, spawned),
            first,
        ),
        *b == *final(a),
        call_ensures(ingest_driver::jfn_playback_start_mpv_event_thread, (b, true, true), again),
        *c == *final(b),
        call_ensures(ingest_driver::jfn_playback_stop_mpv_event_thread, (c,), stopped),
        *d == *final(c),
        call_ensures(ingest_driver::jfn_playback_stop_mpv_event_thread, (d,), twice),
    ensures
        can == (has_player && !old(a).running),
        first == (can && spawned),
        final(a).running == (old(a).running || first),
        again == !final(a).running,
        final(b).running,
        stopped && !final(c).running,
        !twice && !final(d).running,
{
}

} // verus!
