//! The options in force, and what is made of them.
use crate::app;
use crate::app::{
    BrowserSettings, Cli, EnabledLevels, MetricsInput, MpvBoot, MpvInitOptions, PumpPhase, PumpStep, StartupOptions,
    VoWait, WaitEvent, WindowSeen,
};
use crate::config::store::State;
use crate::platform_abi::IdleInhibitLevel;
use crate::text;
use vstd::prelude::*;

verus! {

/// Whenever the command line gives the codecs to pass through, the option in
/// force does not depend on the saved setting: it is the command line's list,
/// cleaned. Where it gives none, it is the saved list, cleaned.
pub proof fn law_passthrough_of_the_command_line_wins(
    cli: Cli,
    st: State,
    default_hwdec: &str,
    known: bool,
    o: StartupOptions,
    asked: &str,
    cleaned: String,
    saved: &str,
    saved_cleaned: String,
)
    requires
        call_ensures(app::startup_options, (&cli, &st, default_hwdec, known), o),
        call_ensures(app::normalize_passthrough, (asked,), cleaned),
        call_ensures(app::normalize_passthrough, (saved,), saved_cleaned),
        saved@ == st.data@.audio_passthrough,
    ensures
        cli.audio_passthrough matches Some(p) && p@ == asked@ ==> o.audio_passthrough@ == cleaned@,
        cli.audio_passthrough is None ==> o.audio_passthrough@ == saved_cleaned@,
{
}

/// The command line goes before the settings, option by option: what it gives
/// is in force whatever is saved, and what it does not give is as saved. Flags
/// add up.
pub proof fn law_command_line_goes_before_the_settings(
    cli: Cli,
    st: State,
    default_hwdec: &str,
    known: bool,
    o: StartupOptions,
)
    requires
        call_ensures(app::startup_options, (&cli, &st, default_hwdec, known), o),
    ensures
        cli.audio_channels matches Some(c) ==> o.audio_channels@ == c@,
        cli.audio_channels is None ==> o.audio_channels@ == st.data@.audio_channels,
        cli.log_level matches Some(l) ==> o.log_level@ == l@,
        cli.log_level is None ==> o.log_level@ == st.data@.log_level,
        o.log_file == cli.log_file,
        cli.audio_exclusive || st.data@.audio_exclusive <==> o.audio_exclusive,
        o.disable_gpu_compositing == cli.disable_gpu_compositing,
        cli.remote_debug_port matches Some(p) ==> o.remote_debugging_port == p,
        cli.remote_debug_port is None ==> o.remote_debugging_port == 0,
        !known ==> o.hwdec@ == default_hwdec@,
        known ==> {
            &&& cli.hwdec matches Some(h) ==> o.hwdec@ == h@
            &&& cli.hwdec is None && st.data@.hwdec.len() > 0 ==> o.hwdec@ == st.data@.hwdec
            &&& cli.hwdec is None && st.data@.hwdec.len() == 0 ==> o.hwdec@ == default_hwdec@
        },
{
}

/// Two sets of settings lead to the same option wherever the command line gives
/// it.
pub proof fn law_settings_do_not_matter_where_given(
    cli: Cli,
    a: State,
    b: State,
    default_hwdec: &str,
    known: bool,
    x: StartupOptions,
    y: StartupOptions,
)
    requires
        call_ensures(app::startup_options, (&cli, &a, default_hwdec, known), x),
        call_ensures(app::startup_options, (&cli, &b, default_hwdec, known), y),
    ensures
        cli.audio_passthrough is Some ==> x.audio_passthrough@ == y.audio_passthrough@,
        cli.audio_channels is Some ==> x.audio_channels@ == y.audio_channels@,
        cli.log_level is Some ==> x.log_level@ == y.log_level@,
        cli.hwdec is Some ==> x.hwdec@ == y.hwdec@,
        cli.audio_exclusive ==> x.audio_exclusive && y.audio_exclusive,
        x.log_file == y.log_file,
        x.remote_debugging_port == y.remote_debugging_port,
        x.disable_gpu_compositing == y.disable_gpu_compositing,
{
}

/// The decoding mode asked for is the command line's, else the saved one, else
/// the default.
pub proof fn law_decoding_mode_asked_for(cli: Cli, st: State, default: &str, r: String)
    requires
        call_ensures(app::requested_hwdec, (&cli, &st, default), r),
    ensures
        cli.hwdec matches Some(h) ==> r@ == h@,
        cli.hwdec is None && st.data@.hwdec.len() > 0 ==> r@ == st.data@.hwdec,
        cli.hwdec is None && st.data@.hwdec.len() == 0 ==> r@ == default@,
{
}

/// The options are resolved by what the player knows: a decoding mode that it
/// knows is in force, one that it does not know gives way to the default. All
/// else is as without the player.
pub proof fn law_unknown_decoding_mode_gives_way<V: Fn(&str) -> bool>(
    cli: Cli,
    st: State,
    default_hwdec: &str,
    known: V,
    o: StartupOptions,
    verdict: bool,
    direct: StartupOptions,
    wanted: String,
)
    requires
        forall|s: &str| call_requires(known, (s,)),
        call_ensures(app::requested_hwdec, (&cli, &st, default_hwdec), wanted),
        forall|s: &str, v: bool| #[trigger]
            call_ensures(known, (s,), v) && s@ == wanted@ ==> v == verdict,
        call_ensures(
            app::resolve_startup_options::<V>,
            (&cli, &st, default_hwdec, known),
            o,
        ),
        call_ensures(app::startup_options, (&cli, &st, default_hwdec, verdict), direct),
    ensures
        verdict ==> o.hwdec@ == wanted@,
        !verdict ==> o.hwdec@ == default_hwdec@,
        o.hwdec@ == direct.hwdec@,
        o.audio_passthrough@ == direct.audio_passthrough@,
        o.audio_channels@ == direct.audio_channels@,
        o.log_level@ == direct.log_level@,
        o.log_file == direct.log_file,
        o.audio_exclusive == direct.audio_exclusive,
        o.disable_gpu_compositing == direct.disable_gpu_compositing,
        o.remote_debugging_port == direct.remote_debugging_port,
        cli.audio_passthrough matches Some(p) ==> (!text::holds(p@, "dts-hd"@)
            ==> o.audio_passthrough@ == p@),
        cli.audio_channels matches Some(c) ==> o.audio_channels@ == c@,
        cli.log_level matches Some(l) ==> o.log_level@ == l@,
{
}

proof fn lemma_kept(parts: Seq<Seq<char>>)
    ensures
        ({
            let kept = parts.filter(|c: Seq<char>| c != "dts"@);
            &&& forall|c: Seq<char>|
                parts.contains(c) && c != "dts"@ ==> #[trigger] kept.contains(c)
            &&& forall|c: Seq<char>| #[trigger]
                kept.contains(c) ==> parts.contains(c) && c != "dts"@
        }),
    decreases parts.len(),
{
    reveal(Seq::filter);
    let f = |c: Seq<char>| c != "dts"@;
    let kept = parts.filter(f);
    if parts.len() > 0 {
        let rest = parts.drop_last();
        lemma_kept(rest);
        let before = rest.filter(f);
        assert(kept == if f(parts.last()) {
            before.push(parts.last())
        } else {
            before
        });
        assert forall|c: Seq<char>| rest.contains(c) implies #[trigger] parts.contains(c) by {
            let k = choose|k: int| 0 <= k < rest.len() && rest[k] == c;
            assert(parts[k] == c);
        }
        assert(parts[parts.len() - 1] == parts.last());
        assert forall|c: Seq<char>| parts.contains(c) && c != "dts"@ implies #[trigger] kept.contains(
            c,
        ) by {
            let k = choose|k: int| 0 <= k < parts.len() && parts[k] == c;
            if k < rest.len() {
                assert(rest[k] == c);
                assert(rest.contains(c));
                assert(before.contains(c));
                let j = choose|j: int| 0 <= j < before.len() && before[j] == c;
                assert(kept[j] == c);
            } else {
                assert(kept[before.len() as int] == c);
            }
        }
        assert forall|c: Seq<char>| #[trigger] kept.contains(c) implies parts.contains(c) && c
            != "dts"@ by {
            let j = choose|j: int| 0 <= j < kept.len() && kept[j] == c;
            if j < before.len() {
                assert(before[j] == c);
                assert(before.contains(c));
            }
        }
    } else {
        assert(kept =~= Seq::empty());
    }
}

/// Cleaning a list of codecs takes out the plain variant where the better one
/// is in the list, and no other codec; a list without the better one stays as
/// it is.
pub proof fn law_cleaning_takes_only_the_plain_codec(s: &str, r: String, codec: Seq<char>)
    requires
        call_ensures(app::normalize_passthrough, (s,), r),
    ensures
        !text::holds(s@, "dts-hd"@) ==> r@ == s@,
        codec != "dts"@ && text::split(s@, ',').contains(codec) ==> text::split(r@, ',').contains(
            codec,
        ),
        codec.len() > 0 && text::split(r@, ',').contains(codec) ==> text::split(s@, ',').contains(
            codec,
        ),
        text::holds(s@, "dts-hd"@) ==> !text::split(r@, ',').contains("dts"@),
{
    app::law_passthrough_is_clean(s@);
    if text::holds(s@, "dts-hd"@) {
        let parts = text::split(s@, ',');
        let kept = parts.filter(|c: Seq<char>| c != "dts"@);
        lemma_kept(parts);
        text::lemma_split(s@, ',');
        if kept.len() > 0 {
            assert forall|i: int, k: int|
                0 <= i < kept.len() && 0 <= k < kept[i].len() implies kept[i][k] != ',' by {
                assert(kept.contains(kept[i]));
                let j = choose|j: int| 0 <= j < parts.len() && parts[j] == kept[i];
                assert(parts[j][k] != ',');
            }
            text::law_split_inverts_join(kept, ',');
        } else {
            if parts.contains(codec) && codec != "dts"@ {
                assert(kept.contains(codec));
            }
            assert(r@ =~= Seq::<char>::empty());
            assert(text::split(r@, ',') =~= seq![Seq::<char>::empty()]);
        }
    }
}

/// A level that is set is the log's filter; where none is set it is `info`. The
/// log goes to the file asked for, else to the default one, else to none.
pub proof fn law_log_goes_where_asked(
    level: &str,
    filter: String,
    file: Option<String>,
    default: Option<String>,
    path: String,
)
    requires
        call_ensures(app::log_filter, (level,), filter),
        call_ensures(app::log_path, (file, default), path),
    ensures
        level@.len() > 0 ==> filter@ == level@,
        level@.len() == 0 ==> filter@ == "info"@,
        file matches Some(f) ==> path@ == f@,
        file is None ==> (default matches Some(d) ==> path@ == d@),
        file is None && default is None ==> path@.len() == 0,
{
}

/// A text without a zero character is handed to the player as it is; one with
/// a zero is handed over as an empty one.
pub proof fn law_texts_reach_the_player(s: &str, r: String, i: int)
    requires
        call_ensures(app::cs, (s,), r),
    ensures
        (forall|k: int| 0 <= k < s@.len() ==> #[trigger] s@[k] != '\0') ==> r@ == s@,
        0 <= i < s@.len() && s@[i] == '\0' ==> r@.len() == 0,
{
}

/// The player is created with the options that are in force, each under its own
/// name; texts without a zero character are handed over as they are, and an
/// empty list of codecs or channels is left out.
pub proof fn law_player_gets_its_options(opts: MpvInitOptions, version: &str, r: MpvBoot)
    requires
        call_ensures(app::init_mpv_handle, (&opts, version), r),
    ensures
        r.display_backend == opts.backend_byte,
        r.audio_exclusive == opts.audio_exclusive,
        r.force_window_position == opts.boot_force_position,
        r.window_maximized_at_boot == opts.boot_window_max,
        r.client_side_decorations == opts.client_side_decorations,
        !app::holds_zero(opts.hwdec@) ==> r.hwdec@ == opts.hwdec@,
        !app::holds_zero(opts.boot_geometry@) ==> r.geometry@ == opts.boot_geometry@,
        !app::holds_zero(opts.mpv_log_level@) ==> r.mpv_log_level@ == opts.mpv_log_level@,
        !app::holds_zero("JellyfinDesktop/"@ + version@) ==> r.user_agent@ == "JellyfinDesktop/"@
            + version@,
        opts.audio_passthrough@.len() == 0 ==> r.audio_passthrough is None,
        opts.audio_passthrough@.len() > 0 && !app::holds_zero(opts.audio_passthrough@) ==> (
        r.audio_passthrough matches Some(t) && t@ == opts.audio_passthrough@),
        opts.audio_channels@.len() == 0 ==> r.audio_channels is None,
        opts.audio_channels@.len() > 0 && !app::holds_zero(opts.audio_channels@) ==> (
        r.audio_channels matches Some(t) && t@ == opts.audio_channels@),
{
}

/// The log levels of the player and of the browser follow the most verbose
/// level that is enabled.
pub proof fn law_log_levels_follow_the_filter(e: EnabledLevels, mpv: &'static str, cef: i32)
    requires
        call_ensures(app::mpv_log_level_from_filter, (e,), mpv),
        call_ensures(app::cef_severity_for_cef_filter, (e,), cef),
    ensures
        e.trace ==> mpv@ == "debug"@ && cef == -1,
        !e.trace && e.debug ==> mpv@ == "v"@ && cef == -1,
        !e.trace && !e.debug && e.info ==> mpv@ == "info"@ && cef == 0,
        !e.trace && !e.debug && !e.info && e.warn ==> mpv@ == "warn"@ && cef == 1,
        !e.trace && !e.debug && !e.info && !e.warn ==> cef == 2,
        !e.trace && !e.debug && !e.info && !e.warn && e.error ==> mpv@ == "error"@,
        !e.trace && !e.debug && !e.info && !e.warn && !e.error ==> mpv@ == "no"@,
{
}

/// The browser is set up with the port and the severity that are in force, and
/// composes with the GPU exactly where it shares textures: where the platform
/// can and it was not switched off.
pub proof fn law_browser_is_set_up(
    levels: EnabledLevels,
    severity: i32,
    port: i32,
    supported: bool,
    disabled: bool,
    shared: bool,
    r: BrowserSettings,
)
    requires
        call_ensures(app::cef_severity_for_cef_filter, (levels,), severity),
        call_ensures(app::use_shared_textures, (supported, disabled), shared),
        call_ensures(app::initialize_cef, (levels, port, shared), r),
    ensures
        r.log_severity == severity,
        r.remote_debugging_port == port,
        shared == (supported && !disabled),
        r.disable_gpu_compositing == (disabled || !supported),
{
}

/// The session is kept from going idle as strongly as the code says.
pub proof fn law_idle_inhibition_by_code(level: u32, r: IdleInhibitLevel)
    requires
        call_ensures(app::h_idle_inhibit, (level,), r),
    ensures
        r == IdleInhibitLevel::System <==> level == 1,
        r == IdleInhibitLevel::Display <==> level == 2,
{
}

/// The value of a hexadecimal digit.
pub open spec fn nibble(c: char) -> int {
    if '0' <= c <= '9' {
        c as int - '0' as int
    } else {
        c as int - 'a' as int + 10
    }
}

/// The version is printed after the name, and the browser's on a line of its
/// own.
pub proof fn law_both_versions_are_printed(version: &str, browser: &str, r: String)
    requires
        call_ensures(app::version_text, (version, browser), r),
    ensures
        ({
            let a = "jellyfin-desktop "@.len() as int;
            let b = a + version@.len() + "\n\nCEF "@.len();
            &&& r@.take(a) == "jellyfin-desktop "@
            &&& r@.subrange(a, a + version@.len()) == version@
            &&& r@.subrange(b, b + browser@.len()) == browser@
            &&& r@.len() == b + browser@.len() + 2
        }),
{
    reveal_strlit("\n\n");
    let a = "jellyfin-desktop "@.len() as int;
    let b = a + version@.len() + "\n\nCEF "@.len();
    assert(r@.take(a) =~= "jellyfin-desktop "@);
    assert(r@.subrange(a, a + version@.len()) =~= version@);
    assert(r@.subrange(b, b + browser@.len()) =~= browser@);
}

/// The value of decimal digits.
pub open spec fn value(s: Seq<char>) -> int
    decreases s.len(),
{
    if s.len() == 0 {
        0
    } else {
        value(s.drop_last()) * 10 + (s.last() as int - '0' as int)
    }
}

proof fn lemma_decimal(n: int)
    requires
        0 <= n,
    ensures
        value(text::decimal(n)) == n,
        text::decimal(n).len() > 0,
        n > 0 ==> text::decimal(n)[0] != '0',
        forall|k: int| 0 <= k < text::decimal(n).len() ==> '0' <= #[trigger] text::decimal(n)[k] <= '9',
    decreases n,
{
    reveal_with_fuel(value, 3);
    if n < 10 {
        assert(text::decimal(n).drop_last() =~= Seq::empty());
        assert(text::decimal(n)[0] == text::digit(n));
    } else {
        lemma_decimal(n / 10);
        let rest = text::decimal(n / 10);
        let all = text::decimal(n);
        assert(all.drop_last() =~= rest);
        assert(all.last() == text::digit(n % 10));
        assert(all[0] == rest[0]);
        assert forall|k: int| 0 <= k < all.len() implies '0' <= #[trigger] all[k] <= '9' by {
            if k < rest.len() {
                assert(all[k] == rest[k]);
            }
        }
    }
}

/// A number is written in decimal digits whose value it is, with a sign where
/// it is negative, and a window size as its width, an `x` and its height.
pub proof fn law_numbers_are_written_in_decimal(n: i32, r: String, u: u32, t: String)
    requires
        call_ensures(text::signed_decimal_text, (n,), r),
        call_ensures(text::decimal_text, (u,), t),
    ensures
        n >= 0 ==> value(r@) == n,
        n < 0 ==> r@[0] == '-' && value(r@.skip(1)) == -n,
        value(t@) == u,
        u > 0 ==> t@[0] != '0',
{
    lemma_decimal(u as int);
    if n >= 0 {
        lemma_decimal(n as int);
    } else {
        lemma_decimal(-n);
        assert(r@.skip(1) =~= text::decimal(-n));
    }
}

/// A window size is written as its width, an `x` and its height.
pub proof fn law_geometry_is_width_by_height(w: i32, h: i32, a: String, b: String, r: String)
    requires
        call_ensures(text::signed_decimal_text, (w,), a),
        call_ensures(text::signed_decimal_text, (h,), b),
        call_ensures(app::geometry_text, (w, h), r),
    ensures
        r@.take(a@.len() as int) == a@,
        r@[a@.len() as int] == 'x',
        r@.skip(a@.len() + 1int) == b@,
{
    assert(r@.take(a@.len() as int) =~= a@);
    assert(r@.skip(a@.len() + 1int) =~= b@);
}

/// The window is resized only where that keeps its logical size: it is neither
/// fullscreen nor maximized, and the scale is another than the one saved. Then
/// the player is told the size that the browser gets; else all stays.
pub proof fn law_rescale_keeps_the_logical_size(
    m: MetricsInput,
    mw: i32,
    mh: i32,
    clamped: (i32, i32),
    needed: bool,
    told: String,
    r: (i32, i32, Option<String>),
)
    requires
        call_ensures(app::needs_rescale, (&m,), needed),
        call_ensures(app::geometry_text, (clamped.0, clamped.1), told),
        call_ensures(app::sync_cef_window_metrics, (&m, mw, mh, clamped), r),
    ensures
        needed ==> r.0 == clamped.0 && r.1 == clamped.1 && (r.2 matches Some(g) && g@ == told@),
        !needed ==> r.0 == mw && r.1 == mh && r.2 is None,
        m.fullscreen_flag != 0 || m.maximized || !m.differs ==> !needed,
        m.display_scale == 0 || m.saved_scale == 0 ==> !needed,
        m.fullscreen_flag == 0 && !m.maximized && m.differs && 0 < m.display_scale
            <= 0x7FF0_0000_0000_0000 && 0 < m.saved_scale <= 0x7F80_0000 ==> needed,
{
}

/// The first size that is kept stays.
pub proof fn law_first_window_size_is_kept(
    a: &mut Option<(i32, i32)>,
    w: i32,
    h: i32,
    b: &mut Option<(i32, i32)>,
    w2: i32,
    h2: i32,
)
    requires
        call_ensures(app::store_vo_size, (a, w, h), ()),
        *b == *final(a),
        call_ensures(app::store_vo_size, (b, w2, h2), ()),
    ensures
        *old(a) is None ==> *final(a) == Some((w, h)),
        *old(a) is Some ==> *final(a) == *old(a),
        *final(b) == *final(a),
{
}

/// The wait begins without a size, with the window still to be maximized where
/// that is wanted.
pub proof fn law_wait_begins(want_max: bool, w: VoWait)
    requires
        call_ensures(VoWait::new, (want_max,), w),
    ensures
        w.need_max == want_max && !w.fatal && w.mw == 0 && w.mh == 0,
{
}

/// Only a shutdown ends the wait at an event. A size that is known is noted,
/// and only the player's word that its window is maximized ends the wait for
/// that.
pub proof fn law_wait_takes_events_in(
    w: &mut VoWait,
    ev: WaitEvent,
    size: Option<(i32, i32)>,
    goes_on: bool,
)
    requires
        call_ensures(VoWait::consume_vo_event, (w, ev, size), goes_on),
    ensures
        goes_on == (ev !is Fatal),
        final(w).fatal == (old(w).fatal || ev is Fatal),
        final(w).need_max == (old(w).need_max && ev != (WaitEvent::Property {
            id: 11,
            maximized: true,
        })),
        ev is Property || ev is Other ==> (size matches Some(s) ==> final(w).mw == s.0 && final(w).mh == s.1),
        size is None || ev is Nothing || ev is LogMessage || ev is Fatal ==> final(w).mw == old(w).mw && final(w).mh == old(w).mh,
{
}

/// The window is ready once it has a width, is maximized where that was wanted,
/// and its host is ready.
pub proof fn law_window_is_ready(
    w: &mut VoWait,
    size: Option<(i32, i32)>,
    host_ready: bool,
    r: bool,
)
    requires
        call_ensures(VoWait::vo_ready, (w, size, host_ready), r),
    ensures
        size matches Some(s) ==> final(w).mw == s.0 && final(w).mh == s.1,
        size is None ==> final(w).mw == old(w).mw && final(w).mh == old(w).mh,
        final(w).need_max == old(w).need_max && final(w).fatal == old(w).fatal,
        r == (final(w).mw > 0 && !old(w).need_max && host_ready),
{
}

/// The pump drains what is queued before it looks at the window, ends with a
/// ready window or a shutdown, and blocks only where it may.
pub proof fn law_pump_drains_before_it_looks(
    w: &mut VoWait,
    phase: PumpPhase,
    ev: WaitEvent,
    seen: WindowSeen,
    may_block: bool,
    r: PumpStep,
)
    requires
        call_ensures(VoWait::pump, (w, phase, ev, seen, may_block), r),
    ensures
        ev is Fatal ==> r == PumpStep::Done && final(w).fatal,
        ev !is Fatal && phase == PumpPhase::Parked ==> r == PumpStep::Again,
        ev !is Fatal && ev !is Nothing && phase == PumpPhase::Draining ==> r == PumpStep::Drain,
        ev is Nothing && phase == PumpPhase::Draining ==> {
            let ready = final(w).mw > 0 && !old(w).need_max && seen.host_ready;
            &&& seen.size matches Some(s) ==> final(w).mw == s.0 && final(w).mh == s.1
            &&& seen.size is None ==> final(w).mw == old(w).mw && final(w).mh == old(w).mh
            &&& r == PumpStep::Done <==> ready
            &&& r == PumpStep::Park <==> !ready && may_block
            &&& r == PumpStep::Again <==> !ready && !may_block
        },
        ev is Property || ev is Other ==> (seen.size matches Some(s) ==> final(w).mw == s.0
            && final(w).mh == s.1),
        ev == (WaitEvent::Property { id: 11, maximized: true }) ==> !final(w).need_max,
        ev != (WaitEvent::Property { id: 11, maximized: true }) ==> final(w).need_max == old(w).need_max,
        ev !is Fatal ==> final(w).fatal == old(w).fatal,
{
}

/// The wait comes to the size that was noted last, and to none after a
/// shutdown.
pub proof fn law_wait_comes_to_a_size(w: VoWait, r: Option<(i32, i32)>)
    requires
        call_ensures(VoWait::wait_for_vo_window, (&w,), r),
    ensures
        r is None == w.fatal,
        !w.fatal ==> r == Some((w.mw, w.mh)),
{
}

/// The value of hexadecimal digits.
pub open spec fn hex_value(s: Seq<char>) -> int
    decreases s.len(),
{
    if s.len() == 0 {
        0
    } else {
        hex_value(s.drop_last()) * 16 + nibble(s.last())
    }
}

proof fn lemma_hex(n: int, width: nat)
    requires
        0 <= n,
    ensures
        text::hex_digits(n, width).len() == width,
        width > 0 ==> hex_value(text::hex_digits(n, width)) == hex_value(
            text::hex_digits(n / 16, (width - 1) as nat),
        ) * 16 + n % 16,
        width == 0 ==> hex_value(text::hex_digits(n, width)) == 0,
        forall|k: int|
            0 <= k < width ==> ('0' <= #[trigger] text::hex_digits(n, width)[k] <= '9' || 'a'
                <= text::hex_digits(n, width)[k] <= 'f'),
    decreases width,
{
    if width > 0 {
        lemma_hex(n / 16, (width - 1) as nat);
        let d = text::hex_digits(n, width);
        let rest = text::hex_digits(n / 16, (width - 1) as nat);
        assert(d.drop_last() =~= rest);
        assert(d.last() == text::hex_digit(n % 16));
        assert(nibble(d.last()) == n % 16);
        assert forall|k: int| 0 <= k < width implies ('0' <= #[trigger] d[k] <= '9' || 'a' <= d[k]
            <= 'f') by {
            if k < width - 1 {
                assert(d[k] == rest[k]);
            }
        }
    }
}

proof fn lemma_hex_all(n: int, width: nat)
    requires
        0 <= n < 0x1_0000_0000,
        width == 6 && n < 0x100_0000 || width == 7 && n < 0x1000_0000 || width == 8,
    ensures
        hex_value(text::hex_digits(n, width)) == n,
{
    lemma_hex(n, width);
    lemma_hex(n / 16, (width - 1) as nat);
    lemma_hex(n / 16 / 16, (width - 2) as nat);
    lemma_hex(n / 16 / 16 / 16, (width - 3) as nat);
    lemma_hex(n / 16 / 16 / 16 / 16, (width - 4) as nat);
    lemma_hex(n / 16 / 16 / 16 / 16 / 16, (width - 5) as nat);
    if width == 6 {
        lemma_hex(n / 16 / 16 / 16 / 16 / 16 / 16, 0);
    } else {
        lemma_hex(n / 16 / 16 / 16 / 16 / 16 / 16, (width - 6) as nat);
        if width == 7 {
            lemma_hex(n / 16 / 16 / 16 / 16 / 16 / 16 / 16, 0);
        } else {
            lemma_hex(n / 16 / 16 / 16 / 16 / 16 / 16 / 16, 1);
            lemma_hex(n / 16 / 16 / 16 / 16 / 16 / 16 / 16 / 16, 0);
        }
    }
}

/// Whatever the number, the digits behind the hash have it as their value. There
/// are at least six, and none in front that could be left out beyond those.
pub proof fn law_any_color_is_written_whole(rgb: u32, r: String)
    requires
        call_ensures(app::color_text, (rgb,), r),
    ensures
        r@.len() >= 7,
        r@[0] == '#',
        hex_value(r@.skip(1)) == rgb,
        r@.len() > 7 ==> rgb >= 0x100_0000,
        r@.len() > 8 ==> rgb >= 0x1000_0000,
        forall|k: int|
            1 <= k < r@.len() ==> ('0' <= #[trigger] r@[k] <= '9' || 'a' <= r@[k] <= 'f'),
{
    let width = app::color_width(rgb as int);
    let d = text::hex_digits(rgb as int, width);
    lemma_hex(rgb as int, width);
    lemma_hex_all(rgb as int, width);
    assert(r@.skip(1) =~= d);
    assert forall|k: int| 1 <= k < r@.len() implies r@[k] == d[k - 1] by {}
}

/// As many digits are written as were asked for; one more digit multiplies the
/// value of those before it by sixteen.
pub proof fn law_digits_weigh_sixteen_fold(n: u32, width: u32, a: String, b: String)
    requires
        width > 0,
        call_ensures(text::hex_text, (n, width), a),
        call_ensures(text::hex_text, ((n / 16) as u32, (width - 1) as u32), b),
    ensures
        a@.len() == width,
        hex_value(a@) == hex_value(b@) * 16 + n % 16,
        a@.drop_last() == b@,
{
    lemma_hex(n as int, width as nat);
    assert(a@.drop_last() =~= b@);
}

} // verus!
