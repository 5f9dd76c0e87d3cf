//! The process from its entry to its exit code: which options hold, what is
//! started in what order, and what a failure on the way means.
use crate::bits;
use crate::config::store;
use crate::config::store::State;
use crate::platform_abi::IdleInhibitLevel;
use crate::text;
use crate::text::{contains_text, hex_text, join_text, same_text, signed_decimal_text, split_text, string_push};
use vstd::prelude::*;
use vstd::string::*;

verus! {

/// The log filter where none is set.
pub const DEFAULT_LOG_FILTER: &'static str = "info";

/// The player's id of the property that tells whether its window is
/// maximized.
pub const JFN_OBSERVE_WINDOW_MAX: u64 = 11;

/// A list of codecs without the plain variant that the HD one includes.
pub open spec fn without_plain_dts(s: Seq<char>) -> Seq<char> {
    if text::holds(s, "dts-hd"@) {
        text::join(text::split(s, ',').filter(|c: Seq<char>| c != "dts"@), ',')
    } else {
        s
    }
}

/// Drops `dts` from a list of codecs that holds `dts-hd`.
pub fn normalize_passthrough(s: &str) -> (r: String)
    ensures
        r@ == without_plain_dts(s@),
{
    if !contains_text(s, "dts-hd") {
        return s.to_owned();
    }
    let parts = split_text(s, ',');
    let mut kept: Vec<String> = Vec::new();
    for i in 0..parts.len()
        invariant
            text::texts(kept@) == text::texts(parts@).take(i as int).filter(
                |c: Seq<char>| c != "dts"@,
            ),
    {
        proof {
            reveal(Seq::filter);
            assert(text::texts(parts@).take(i + 1).drop_last() =~= text::texts(parts@).take(
                i as int,
            ));
            assert(text::texts(parts@).take(i + 1).last() == parts@[i as int]@);
        }
        let ghost before = kept@;
        if !same_text(parts[i].as_str(), "dts") {
            kept.push(parts[i].clone());
            assert(text::texts(kept@) =~= text::texts(before).push(parts@[i as int]@));
        }
    }
    assert(text::texts(parts@).take(parts@.len() as int) =~= text::texts(parts@));
    join_text(&kept, ',')
}

/// The command line, as far as it is looked at here.
#[derive(Debug)]
pub struct Cli {
    pub version: bool,
    pub generate_settings_schema: bool,
    pub log_file: Option<String>,
    pub log_level: Option<String>,
    pub hwdec: Option<String>,
    pub audio_passthrough: Option<String>,
    pub audio_channels: Option<String>,
    pub audio_exclusive: bool,
    pub disable_gpu_compositing: bool,
    pub remote_debug_port: Option<i32>,
}

/// The options in force.
#[derive(Debug)]
pub struct StartupOptions {
    pub hwdec: String,
    pub audio_passthrough: String,
    pub audio_exclusive: bool,
    pub audio_channels: String,
    pub log_level: String,
    pub log_file: Option<String>,
    pub disable_gpu_compositing: bool,
    pub remote_debugging_port: i32,
}

/// The text of an option, or `otherwise`.
pub open spec fn given_or(option: Option<String>, otherwise: Seq<char>) -> Seq<char> {
    match option {
        Some(s) => s@,
        None => otherwise,
    }
}

fn option_or(option: &Option<String>, otherwise: &String) -> (r: String)
    ensures
        r@ == given_or(*option, otherwise@),
{
    match option {
        Some(s) => s.clone(),
        None => otherwise.clone(),
    }
}

/// The decoding mode asked for: on the command line, else in the settings,
/// else the default.
pub open spec fn wanted_hwdec(cli: Cli, saved: Seq<char>, default: Seq<char>) -> Seq<char> {
    given_or(
        cli.hwdec,
        if saved.len() == 0 {
            default
        } else {
            saved
        },
    )
}

/// The decoding mode asked for.
pub fn requested_hwdec(cli: &Cli, st: &State, default: &str) -> (r: String)
    ensures
        r@ == wanted_hwdec(*cli, st.data@.hwdec, default@),
{
    let saved = store::hwdec(st);
    let base = if saved.as_str().is_empty() {
        default.to_owned()
    } else {
        saved
    };
    option_or(&cli.hwdec, &base)
}

/// Whether options are those that a command line and settings lead to, where
/// the decoding mode asked for is a known one or not.
pub open spec fn are_options(
    o: StartupOptions,
    cli: Cli,
    st: State,
    default: Seq<char>,
    hwdec_known: bool,
) -> bool {
    let passthrough = given_or(cli.audio_passthrough, st.data@.audio_passthrough);
    &&& o.hwdec@ == if hwdec_known {
        wanted_hwdec(cli, st.data@.hwdec, default)
    } else {
        default
    }
    &&& o.audio_passthrough@ == without_plain_dts(passthrough)
    &&& o.audio_exclusive == (st.data@.audio_exclusive || cli.audio_exclusive)
    &&& o.audio_channels@ == given_or(cli.audio_channels, st.data@.audio_channels)
    &&& o.log_level@ == given_or(cli.log_level, st.data@.log_level)
    &&& o.log_file == cli.log_file
    &&& o.disable_gpu_compositing == cli.disable_gpu_compositing
    &&& o.remote_debugging_port == match cli.remote_debug_port {
        Some(p) => p,
        None => 0,
    }
}

/// The options that a command line and settings lead to. The command line
/// goes before the settings; flags add up.
pub fn startup_options(cli: &Cli, st: &State, default_hwdec: &str, hwdec_known: bool) -> (r:
    StartupOptions)
    ensures
        are_options(r, *cli, *st, default_hwdec@, hwdec_known),
{
    let hwdec = if hwdec_known {
        requested_hwdec(cli, st, default_hwdec)
    } else {
        default_hwdec.to_owned()
    };
    let passthrough = option_or(&cli.audio_passthrough, &st.data.audio_passthrough);
    let audio_passthrough = normalize_passthrough(passthrough.as_str());
    StartupOptions {
        hwdec,
        audio_passthrough,
        audio_exclusive: st.data.audio_exclusive || cli.audio_exclusive,
        audio_channels: option_or(&cli.audio_channels, &st.data.audio_channels),
        log_level: option_or(&cli.log_level, &st.data.log_level),
        log_file: match &cli.log_file {
            Some(f) => Some(f.clone()),
            None => None,
        },
        disable_gpu_compositing: cli.disable_gpu_compositing,
        remote_debugging_port: match cli.remote_debug_port {
            Some(p) => p,
            None => 0,
        },
    }
}

/// Resolves the options in force. `known` says whether the player knows a
/// decoding mode; one that it does not know gives way to the default.
pub fn resolve_startup_options<V: Fn(&str) -> bool>(
    cli: &Cli,
    st: &State,
    default_hwdec: &str,
    known: V,
) -> (r: StartupOptions)
    requires
        forall|s: &str| call_requires(known, (s,)),
    ensures
        exists|s: &str, v: bool| #[trigger]
            call_ensures(known, (s,), v) && s@ == wanted_hwdec(
                *cli,
                st.data@.hwdec,
                default_hwdec@,
            ) && are_options(r, *cli, *st, default_hwdec@, v),
{
    let wanted = requested_hwdec(cli, st, default_hwdec);
    let asked = wanted.as_str();
    let v = known(asked);
    let r = startup_options(cli, st, default_hwdec, v);
    assert(call_ensures(known, (asked,), v));
    r
}

/// The log filter: the level, or the default where none is set.
pub fn log_filter(level: &str) -> (r: String)
    ensures
        r@ == if level@.len() == 0 {
            DEFAULT_LOG_FILTER@
        } else {
            level@
        },
{
    if level.is_empty() {
        DEFAULT_LOG_FILTER.to_owned()
    } else {
        level.to_owned()
    }
}

/// The log file: the one asked for, else the default one, else none, which is
/// an empty path.
pub fn log_path(log_file: Option<String>, default: Option<String>) -> (r: String)
    ensures
        r@ == given_or(log_file, given_or(default, Seq::empty())),
{
    match log_file {
        Some(f) => f,
        None => match default {
            Some(d) => d,
            None => String::new(),
        },
    }
}

/// Whether a text holds a zero character.
pub open spec fn holds_zero(s: Seq<char>) -> bool {
    exists|i: int| 0 <= i < s.len() && s[i] == '\0'
}

/// A text as it is handed to the player: one that holds a zero character is
/// handed over as an empty one.
pub open spec fn c_text(s: Seq<char>) -> Seq<char> {
    if holds_zero(s) {
        Seq::empty()
    } else {
        s
    }
}

/// A text as it is handed to the player.
pub fn cs(s: &str) -> (r: String)
    ensures
        r@ == c_text(s@),
{
    for c in it: s.chars()
        invariant
            it.seq() == s@,
            forall|j: int| 0 <= j < it.index() ==> s@[j] != '\0',
    {
        if c == '\0' {
            assert(s@[it.index() as int] == '\0');
            return String::new();
        }
    }
    s.to_owned()
}

/// What the player is created with, beside the version of the application.
#[derive(Debug)]
pub struct MpvInitOptions {
    pub backend_byte: u8,
    pub boot_geometry: String,
    pub boot_force_position: bool,
    pub boot_window_max: bool,
    pub hwdec: String,
    pub audio_passthrough: String,
    pub audio_exclusive: bool,
    pub audio_channels: String,
    pub mpv_log_level: String,
    pub client_side_decorations: bool,
}

/// What the player is created with, as it takes it: a text that is absent
/// leaves the player's own setting.
#[derive(Debug)]
pub struct MpvBoot {
    pub display_backend: u8,
    pub hwdec: String,
    pub user_agent: String,
    pub audio_passthrough: Option<String>,
    pub audio_exclusive: bool,
    pub audio_channels: Option<String>,
    pub geometry: String,
    pub force_window_position: bool,
    pub window_maximized_at_boot: bool,
    pub mpv_log_level: String,
    pub client_side_decorations: bool,
}

/// A text that is left out where it is empty.
pub open spec fn present_text(s: Seq<char>) -> Option<Seq<char>> {
    if s.len() == 0 {
        None
    } else {
        Some(c_text(s))
    }
}

/// An optional string as a value.
pub open spec fn opt_view(s: Option<String>) -> Option<Seq<char>> {
    match s {
        Some(t) => Some(t@),
        None => None,
    }
}

fn cs_unless_empty(s: &String) -> (r: Option<String>)
    ensures
        opt_view(r) == present_text(s@),
{
    if s.as_str().is_empty() {
        None
    } else {
        Some(cs(s.as_str()))
    }
}

/// What the player is created with.
pub fn init_mpv_handle(opts: &MpvInitOptions, version: &str) -> (r: MpvBoot)
    ensures
        r.display_backend == opts.backend_byte,
        r.hwdec@ == c_text(opts.hwdec@),
        r.user_agent@ == c_text("JellyfinDesktop/"@ + version@),
        opt_view(r.audio_passthrough) == present_text(opts.audio_passthrough@),
        r.audio_exclusive == opts.audio_exclusive,
        opt_view(r.audio_channels) == present_text(opts.audio_channels@),
        r.geometry@ == c_text(opts.boot_geometry@),
        r.force_window_position == opts.boot_force_position,
        r.window_maximized_at_boot == opts.boot_window_max,
        r.mpv_log_level@ == c_text(opts.mpv_log_level@),
        r.client_side_decorations == opts.client_side_decorations,
{
    let mut agent = "JellyfinDesktop/".to_owned();
    agent.append(version);
    MpvBoot {
        display_backend: opts.backend_byte,
        hwdec: cs(opts.hwdec.as_str()),
        user_agent: cs(agent.as_str()),
        audio_passthrough: cs_unless_empty(&opts.audio_passthrough),
        audio_exclusive: opts.audio_exclusive,
        audio_channels: cs_unless_empty(&opts.audio_channels),
        geometry: cs(opts.boot_geometry.as_str()),
        force_window_position: opts.boot_force_position,
        window_maximized_at_boot: opts.boot_window_max,
        mpv_log_level: cs(opts.mpv_log_level.as_str()),
        client_side_decorations: opts.client_side_decorations,
    }
}

/// Which log levels are enabled for a source.
#[derive(Clone, Copy, Debug, PartialEq, Eq, Structural)]
pub struct EnabledLevels {
    pub trace: bool,
    pub debug: bool,
    pub info: bool,
    pub warn: bool,
    pub error: bool,
}

/// The player's log level for the most verbose level that is enabled.
pub fn mpv_log_level_from_filter(e: EnabledLevels) -> (r: &'static str)
    ensures
        r@ == if e.trace {
            "debug"@
        } else if e.debug {
            "v"@
        } else if e.info {
            "info"@
        } else if e.warn {
            "warn"@
        } else if e.error {
            "error"@
        } else {
            "no"@
        },
{
    if e.trace {
        "debug"
    } else if e.debug {
        "v"
    } else if e.info {
        "info"
    } else if e.warn {
        "warn"
    } else if e.error {
        "error"
    } else {
        "no"
    }
}

/// The browser's log severity for the most verbose level that is enabled:
/// minus one for verbose, then 0 for info, 1 for warnings, 2 for errors.
pub fn cef_severity_for_cef_filter(e: EnabledLevels) -> (r: i32)
    ensures
        r == severity(e),
{
    if e.trace || e.debug {
        -1
    } else if e.info {
        0
    } else if e.warn {
        1
    } else {
        2
    }
}

/// The idle inhibition for a code.
pub fn h_idle_inhibit(level: u32) -> (r: IdleInhibitLevel)
    ensures
        r == if level == 1 {
            IdleInhibitLevel::System
        } else if level == 2 {
            IdleInhibitLevel::Display
        } else {
            IdleInhibitLevel::Off
        },
{
    if level == 1 {
        IdleInhibitLevel::System
    } else if level == 2 {
        IdleInhibitLevel::Display
    } else {
        IdleInhibitLevel::Off
    }
}

/// How many hexadecimal digits a colour is written with: six, or as many as
/// it has.
pub open spec fn color_width(rgb: int) -> nat {
    if rgb < 0x100_0000 {
        6
    } else if rgb < 0x1000_0000 {
        7
    } else {
        8
    }
}

/// A colour in hexadecimal digits after a hash.
pub fn color_text(rgb: u32) -> (r: String)
    ensures
        r@ == seq!['#'] + text::hex_digits(rgb as int, color_width(rgb as int)),
{
    let mut out = String::new();
    string_push(&mut out, '#');
    let width: u32 = if rgb < 0x100_0000 {
        6
    } else if rgb < 0x1000_0000 {
        7
    } else {
        8
    };
    out.append(hex_text(rgb, width).as_str());
    assert(out@ =~= seq!['#'] + text::hex_digits(rgb as int, width as nat));
    out
}

/// What is printed when the version is asked for.
pub fn version_text(version: &str, browser_version: &str) -> (r: String)
    ensures
        r@ == "jellyfin-desktop "@ + version@ + "\n\nCEF "@ + browser_version@ + "\n\n"@,
{
    let mut out = "jellyfin-desktop ".to_owned();
    out.append(version);
    out.append("\n\nCEF ");
    out.append(browser_version);
    out.append("\n\n");
    out
}

/// A window size as the player takes it.
pub open spec fn geometry_of(w: int, h: int) -> Seq<char> {
    text::signed_decimal(w).push('x') + text::signed_decimal(h)
}

/// A window size as the player takes it.
pub fn geometry_text(w: i32, h: i32) -> (r: String)
    ensures
        r@ == geometry_of(w as int, h as int),
{
    let mut out = signed_decimal_text(w);
    string_push(&mut out, 'x');
    out.append(signed_decimal_text(h).as_str());
    assert(out@ =~= geometry_of(w as int, h as int));
    out
}

/// The wait for the player's window.
#[derive(Clone, Copy, Debug, PartialEq, Eq, Structural)]
pub struct VoWait {
    pub mw: i32,
    pub mh: i32,
    /// The window is still to be maximized.
    pub need_max: bool,
    pub fatal: bool,
}

/// An event of the player during the wait.
#[derive(Clone, Copy, Debug, PartialEq, Eq, Structural)]
pub enum WaitEvent {
    Nothing,
    LogMessage,
    /// The player shuts down or ends its file.
    Fatal,
    /// A property changed; `maximized` is the player's state after it was
    /// taken in.
    Property { id: u64, maximized: bool },
    Other,
}

/// The wait with a window size noted, where it is known.
pub open spec fn sized(w: VoWait, size: Option<(i32, i32)>) -> VoWait {
    match size {
        Some(s) => VoWait { mw: s.0, mh: s.1, ..w },
        None => w,
    }
}

/// The wait after an event; `size` is the window's size after it was taken
/// in, where it is known.
pub open spec fn waited(w: VoWait, ev: WaitEvent, size: Option<(i32, i32)>) -> VoWait {
    match ev {
        WaitEvent::Nothing | WaitEvent::LogMessage => w,
        WaitEvent::Fatal => VoWait { fatal: true, ..w },
        WaitEvent::Property { id, maximized } => sized(
            VoWait {
                need_max: w.need_max && !(id == JFN_OBSERVE_WINDOW_MAX && maximized),
                ..w
            },
            size,
        ),
        WaitEvent::Other => sized(w, size),
    }
}

impl VoWait {
    /// The wait begins; `want_max` says that the window is to be maximized.
    pub fn new(want_max: bool) -> (r: Self)
        ensures
            r == (VoWait { mw: 0, mh: 0, need_max: want_max, fatal: false }),
    {
        VoWait { mw: 0, mh: 0, need_max: want_max, fatal: false }
    }

    /// Takes in an event. False where the wait ends with it.
    pub fn consume_vo_event(&mut self, ev: WaitEvent, size: Option<(i32, i32)>) -> (r: bool)
        ensures
            *final(self) == waited(*old(self), ev, size),
            r == (ev != WaitEvent::Fatal),
    {
        match ev {
            WaitEvent::Nothing => {},
            WaitEvent::LogMessage => {},
            WaitEvent::Fatal => {
                self.fatal = true;
                return false;
            },
            WaitEvent::Property { id, maximized } => {
                if id == JFN_OBSERVE_WINDOW_MAX && maximized {
                    self.need_max = false;
                }
                self.note_size(size);
            },
            WaitEvent::Other => self.note_size(size),
        }
        true
    }

    fn note_size(&mut self, size: Option<(i32, i32)>)
        ensures
            *final(self) == sized(*old(self), size),
    {
        if let Some(s) = size {
            self.mw = s.0;
            self.mh = s.1;
        }
    }

    /// Whether the window is ready: it has a size, is maximized where that
    /// was wanted, and the host is ready for it.
    pub fn vo_ready(&mut self, size: Option<(i32, i32)>, host_ready: bool) -> (r: bool)
        ensures
            *final(self) == sized(*old(self), size),
            r == is_ready(*final(self), host_ready),
    {
        self.note_size(size);
        self.mw > 0 && !self.need_max && host_ready
    }

    /// What the wait comes to: the window's size, none where it ended with a
    /// shutdown.
    pub fn wait_for_vo_window(&self) -> (r: Option<(i32, i32)>)
        ensures
            r == if self.fatal {
                None
            } else {
                Some((self.mw, self.mh))
            },
    {
        if self.fatal {
            None
        } else {
            Some((self.mw, self.mh))
        }
    }
}

/// What an event of the player is read for: everything queued is drained
/// first, then the wait may park until the next one.
#[derive(Clone, Copy, Debug, PartialEq, Eq, Structural)]
pub enum PumpPhase {
    Draining,
    Parked,
}

/// What the pump does next.
#[derive(Clone, Copy, Debug, PartialEq, Eq, Structural)]
pub enum PumpStep {
    /// Reads the next queued event.
    Drain,
    /// Waits for an event.
    Park,
    /// Gives the platform a turn and drains again.
    Again,
    /// The wait is over.
    Done,
}

/// What is known of the window when the pump looks: its size, where it is
/// known, and whether the host is ready for it.
#[derive(Clone, Copy, Debug, PartialEq, Eq)]
pub struct WindowSeen {
    pub size: Option<(i32, i32)>,
    pub host_ready: bool,
}

/// Whether the window is ready.
pub open spec fn is_ready(w: VoWait, host_ready: bool) -> bool {
    w.mw > 0 && !w.need_max && host_ready
}

/// The wait and the next step after an event was read in a phase.
pub open spec fn pumped(
    w: VoWait,
    phase: PumpPhase,
    ev: WaitEvent,
    seen: WindowSeen,
    may_block: bool,
) -> (VoWait, PumpStep) {
    match (phase, ev) {
        (_, WaitEvent::Fatal) => (waited(w, ev, seen.size), PumpStep::Done),
        (PumpPhase::Parked, _) => (waited(w, ev, seen.size), PumpStep::Again),
        (PumpPhase::Draining, WaitEvent::Nothing) => {
            let next = sized(w, seen.size);
            (
                next,
                if is_ready(next, seen.host_ready) {
                    PumpStep::Done
                } else if may_block {
                    PumpStep::Park
                } else {
                    PumpStep::Again
                },
            )
        },
        (PumpPhase::Draining, _) => (waited(w, ev, seen.size), PumpStep::Drain),
    }
}

impl VoWait {
    /// Takes in an event that was read in a phase, and says what is next.
    /// Only a queue that has run empty leads to a look at the window.
    pub fn pump(&mut self, phase: PumpPhase, ev: WaitEvent, seen: WindowSeen, may_block: bool) -> (r:
        PumpStep)
        ensures
            (*final(self), r) == pumped(*old(self), phase, ev, seen, may_block),
    {
        if !self.consume_vo_event(ev, seen.size) {
            return PumpStep::Done;
        }
        match (phase, ev) {
            (PumpPhase::Parked, _) => PumpStep::Again,
            (PumpPhase::Draining, WaitEvent::Nothing) => {
                if self.vo_ready(seen.size, seen.host_ready) {
                    PumpStep::Done
                } else if may_block {
                    PumpStep::Park
                } else {
                    PumpStep::Again
                }
            },
            (PumpPhase::Draining, _) => PumpStep::Drain,
        }
    }
}

/// The wait ends only with a shutdown of the player, or with a window that
/// has a size and is maximized where that was wanted.
pub proof fn law_wait_ends_with_a_window(
    w: VoWait,
    phase: PumpPhase,
    ev: WaitEvent,
    seen: WindowSeen,
    may_block: bool,
)
    requires
        pumped(w, phase, ev, seen, may_block).1 == PumpStep::Done,
    ensures
        ({
            let next = pumped(w, phase, ev, seen, may_block).0;
            next.fatal || (is_ready(next, seen.host_ready) && ev == WaitEvent::Nothing)
        }),
{
}

/// Keeps the window's first size. Later ones do not count.
pub fn store_vo_size(kept: &mut Option<(i32, i32)>, w: i32, h: i32)
    ensures
        *final(kept) == if *old(kept) is Some {
            *old(kept)
        } else {
            Some((w, h))
        },
{
    if kept.is_none() {
        *kept = Some((w, h));
    }
}

/// What the browser's size depends on beside the window's.
#[derive(Clone, Copy, Debug, PartialEq, Eq)]
pub struct MetricsInput {
    pub fullscreen_flag: i32,
    pub maximized: bool,
    /// Bit pattern of the double-precision scale of the display.
    pub display_scale: u64,
    /// Bit pattern of the single-precision scale that was saved.
    pub saved_scale: u32,
    /// Whether the two differ by a hundredth or more.
    pub differs: bool,
}

/// Whether the window is resized to keep its logical size: it is free to
/// change, both scales are known, and they differ.
pub open spec fn rescales(m: MetricsInput) -> bool {
    m.fullscreen_flag == 0 && !m.maximized && bits::is_positive_f64(m.display_scale)
        && bits::is_positive_f32(m.saved_scale) && m.differs
}

/// Whether the window is resized to keep its logical size.
pub fn needs_rescale(m: &MetricsInput) -> (r: bool)
    ensures
        r == rescales(*m),
{
    let locked = m.fullscreen_flag != 0 || m.maximized;
    !locked && bits::positive_f64(m.display_scale) && bits::positive_f32(m.saved_scale)
        && m.differs
}

/// The size in device pixels that the browser starts with, and the size that
/// the player is told, where it is. `clamped` is the size at the new scale,
/// clamped to the screen.
pub fn sync_cef_window_metrics(m: &MetricsInput, mw: i32, mh: i32, clamped: (i32, i32)) -> (r: (
    i32,
    i32,
    Option<String>,
))
    ensures
        rescales(*m) ==> r.0 == clamped.0 && r.1 == clamped.1 && opt_view(r.2) == Some(
            geometry_of(clamped.0 as int, clamped.1 as int),
        ),
        !rescales(*m) ==> r.0 == mw && r.1 == mh && r.2 is None,
{
    if needs_rescale(m) {
        (clamped.0, clamped.1, Some(geometry_text(clamped.0, clamped.1)))
    } else {
        (mw, mh, None)
    }
}

/// Whether the browser shares textures: the platform can, and it was not
/// switched off.
pub fn use_shared_textures(supported: bool, disable_gpu_compositing: bool) -> (r: bool)
    ensures
        r == (supported && !disable_gpu_compositing),
{
    supported && !disable_gpu_compositing
}

/// What the browser is set up with.
#[derive(Clone, Copy, Debug, PartialEq, Eq, Structural)]
pub struct BrowserSettings {
    pub log_severity: i32,
    pub remote_debugging_port: i32,
    pub disable_gpu_compositing: bool,
}

/// The browser's log severity for the most verbose level that is enabled.
pub open spec fn severity(e: EnabledLevels) -> int {
    if e.trace || e.debug {
        -1
    } else if e.info {
        0
    } else if e.warn {
        1
    } else {
        2
    }
}

/// What the browser is set up with: without shared textures it composes
/// without the GPU.
pub fn initialize_cef(
    levels: EnabledLevels,
    remote_debugging_port: i32,
    use_shared_textures: bool,
) -> (r: BrowserSettings)
    ensures
        r.log_severity == severity(levels),
        r.remote_debugging_port == remote_debugging_port,
        r.disable_gpu_compositing == !use_shared_textures,
{
    BrowserSettings {
        log_severity: cef_severity_for_cef_filter(levels),
        remote_debugging_port,
        disable_gpu_compositing: !use_shared_textures,
    }
}

/// A step of setting up the main browser.
#[derive(Clone, Copy, Debug, PartialEq, Eq, Structural)]
pub enum BrowserStep {
    /// The theme's colours; `titlebar` says whether the title bar follows.
    InitTheme { titlebar: bool },
    SetVideoBackground { rgb: u32 },
    InitBrowsers,
    StartManager,
    SetShutdownHandler,
    CreateLayer,
    InitWeb,
    /// The browser itself; its page reports a theme colour at once.
    CreateBrowser,
    InitOverlay,
}

/// How the main browser is set up.
pub open spec fn main_browser_steps(titlebar: bool, video_bg: u32) -> Seq<BrowserStep> {
    seq![
        BrowserStep::InitTheme { titlebar },
        BrowserStep::SetVideoBackground { rgb: video_bg },
        BrowserStep::InitBrowsers,
        BrowserStep::StartManager,
        BrowserStep::SetShutdownHandler,
        BrowserStep::CreateLayer,
        BrowserStep::InitWeb,
        BrowserStep::CreateBrowser,
        BrowserStep::InitOverlay,
    ]
}

/// How the main browser is set up, in order.
pub fn init_main_browser(titlebar: bool, video_bg: u32) -> (r: Vec<BrowserStep>)
    ensures
        r@ == main_browser_steps(titlebar, video_bg),
{
    let mut out: Vec<BrowserStep> = Vec::new();
    out.push(BrowserStep::InitTheme { titlebar });
    out.push(BrowserStep::SetVideoBackground { rgb: video_bg });
    out.push(BrowserStep::InitBrowsers);
    out.push(BrowserStep::StartManager);
    out.push(BrowserStep::SetShutdownHandler);
    out.push(BrowserStep::CreateLayer);
    out.push(BrowserStep::InitWeb);
    out.push(BrowserStep::CreateBrowser);
    out.push(BrowserStep::InitOverlay);
    assert(out@ =~= main_browser_steps(titlebar, video_bg));
    out
}

/// A step of starting the coordination with the player.
#[derive(Clone, Copy, Debug, PartialEq, Eq, Structural)]
pub enum CoordinationStep {
    InitPlayback,
    SetIdleInhibitHandler,
    SetThemeVideoModeHandler,
    SetWebScriptHandler,
    SetBrowserSizeHandler,
    SetBrowserRefreshRateHandler,
    StartMediaSession,
    SetDisplayScaleHandler,
    SetScaleProvider,
    SetFullscreenHandler,
    SetShutdownHandler,
    /// Its outcome is that of the whole.
    StartEventThread,
}

/// How the coordination with the player is started.
pub open spec fn coordination_steps() -> Seq<CoordinationStep> {
    seq![
        CoordinationStep::InitPlayback,
        CoordinationStep::SetIdleInhibitHandler,
        CoordinationStep::SetThemeVideoModeHandler,
        CoordinationStep::SetWebScriptHandler,
        CoordinationStep::SetBrowserSizeHandler,
        CoordinationStep::SetBrowserRefreshRateHandler,
        CoordinationStep::StartMediaSession,
        CoordinationStep::SetDisplayScaleHandler,
        CoordinationStep::SetScaleProvider,
        CoordinationStep::SetFullscreenHandler,
        CoordinationStep::SetShutdownHandler,
        CoordinationStep::StartEventThread,
    ]
}

/// How the coordination with the player is started, in order.
pub fn start_playback_coordination() -> (r: Vec<CoordinationStep>)
    ensures
        r@ == coordination_steps(),
{
    let mut out: Vec<CoordinationStep> = Vec::new();
    out.push(CoordinationStep::InitPlayback);
    out.push(CoordinationStep::SetIdleInhibitHandler);
    out.push(CoordinationStep::SetThemeVideoModeHandler);
    out.push(CoordinationStep::SetWebScriptHandler);
    out.push(CoordinationStep::SetBrowserSizeHandler);
    out.push(CoordinationStep::SetBrowserRefreshRateHandler);
    out.push(CoordinationStep::StartMediaSession);
    out.push(CoordinationStep::SetDisplayScaleHandler);
    out.push(CoordinationStep::SetScaleProvider);
    out.push(CoordinationStep::SetFullscreenHandler);
    out.push(CoordinationStep::SetShutdownHandler);
    out.push(CoordinationStep::StartEventThread);
    assert(out@ =~= coordination_steps());
    out
}

/// The theme is set up before the browser whose page reports its colour, and
/// no event of the player is read before every handler is set.
pub proof fn law_handlers_come_first(titlebar: bool, video_bg: u32)
    ensures
        ({
            let b = main_browser_steps(titlebar, video_bg);
            forall|i: int|
                0 <= i < b.len() && b[i] == BrowserStep::CreateBrowser ==> b.take(i).contains(
                    BrowserStep::InitTheme { titlebar },
                )
        }),
        forall|i: int|
            0 <= i < coordination_steps().len() && #[trigger] coordination_steps()[i]
                == CoordinationStep::StartEventThread ==> i == coordination_steps().len() - 1,
{
    let b = main_browser_steps(titlebar, video_bg);
    assert forall|i: int| 0 <= i < b.len() && b[i] == BrowserStep::CreateBrowser implies b.take(
        i,
    ).contains(BrowserStep::InitTheme { titlebar }) by {
        assert(b[0] == BrowserStep::InitTheme { titlebar });
        assert(b.take(i)[0] == b[0]);
    }
}

/// How far the process has come.
#[derive(Clone, Copy, Debug, PartialEq, Eq, Structural)]
pub enum BootStage {
    /// The browser's start tells whether this is one of its processes.
    BrowserStart,
    /// The command line is being read.
    Options,
    /// Another instance is being looked for.
    SingleInstance,
    /// The player is being created.
    Player,
    /// The player's properties are being observed.
    Properties,
    /// The player's window is being waited for.
    Window,
    /// The platform is being set up.
    Platform,
    /// The browser is being set up.
    Browser,
    /// The coordination with the player is being started.
    Coordination,
    /// The main loop runs.
    Running,
    /// The process ends with this code.
    Exit(i32),
}

/// What came of the work that was asked for.
#[derive(Clone, Copy, Debug, PartialEq, Eq, Structural)]
pub enum BootEvent {
    /// What the browser's start returned; not negative in a process of the
    /// browser's own.
    BrowserStart(i32),
    Options { version: bool, schema: bool },
    /// Whether this is the only instance.
    SingleInstance(bool),
    /// Whether there is a player.
    Player(bool),
    /// Whether its properties are observed.
    Properties(bool),
    /// Whether its window came up.
    Window(bool),
    /// Whether the platform was set up.
    Platform(bool),
    /// Whether the browser was set up.
    Browser(bool),
    /// Whether the coordination was started.
    Coordination(bool),
    /// The main loop has ended.
    MainLoopEnded,
}

/// Work that is asked for, in order.
#[derive(Clone, Copy, Debug, PartialEq, Eq, Structural)]
pub enum BootAction {
    PrintVersion,
    PrintSchema,
    /// Directories from the command line, before anything is read from them.
    ApplyPaths,
    LoadSettings,
    ResolveOptions,
    InitLogging,
    InstallPlatform,
    InitGeometry,
    InstallShutdownHandler,
    SignalInstance,
    StartListener,
    SetupPlayerEnvironment,
    ApplyBootGeometry,
    CreatePlayer,
    ObserveProperties,
    CaptureBackground,
    SetStartupBackground,
    LogPlayerVersions,
    BindClose,
    WaitForWindow,
    StoreWindowSize,
    InitPlatform,
    ApplyThemeColor,
    PublishDeviceProfile,
    InitBrowser,
    SyncMetrics,
    InitMainBrowser,
    StartCoordination,
    WaitForLoad,
    RunMainLoop,
    PersistGeometry,
    SaveSettings,
    JoinManager,
    DetachHost,
    StopTheme,
    StopMediaSession,
    StopEventThread,
    StopSaveWorker,
    StopBrowsers,
    StopBrowser,
    ClearIdleInhibit,
    CleanupPlatform,
    StopCoordination,
    TerminatePlayer,
    CleanupWindow,
}

/// What the start depends on beside events.
#[derive(Clone, Copy, Debug, PartialEq, Eq, Structural)]
pub struct BootConfig {
    /// The title bar takes the theme's colour.
    pub titlebar_theme_color: bool,
    /// The platform pumps the browser on the main thread itself.
    pub platform_pumps_browser: bool,
}

/// The teardown after the main loop, in order. What is to be kept is saved
/// before anything is waited for.
pub open spec fn teardown() -> Seq<BootAction> {
    seq![
        BootAction::PersistGeometry,
        BootAction::SaveSettings,
        BootAction::JoinManager,
        BootAction::DetachHost,
        BootAction::StopTheme,
        BootAction::StopMediaSession,
        BootAction::StopEventThread,
        BootAction::StopSaveWorker,
        BootAction::StopBrowsers,
        BootAction::StopBrowser,
        BootAction::ClearIdleInhibit,
        BootAction::CleanupPlatform,
        BootAction::StopCoordination,
    ]
}

/// The stage after an event. An event that the stage does not wait for
/// changes nothing.
pub open spec fn next_stage(stage: BootStage, ev: BootEvent) -> BootStage {
    match (stage, ev) {
        (BootStage::BrowserStart, BootEvent::BrowserStart(rc)) => if rc >= 0 {
            BootStage::Exit(rc)
        } else {
            BootStage::Options
        },
        (BootStage::Options, BootEvent::Options { version, schema }) => if version || schema {
            BootStage::Exit(0)
        } else {
            BootStage::SingleInstance
        },
        (BootStage::SingleInstance, BootEvent::SingleInstance(ok)) => if ok {
            BootStage::Player
        } else {
            BootStage::Exit(0)
        },
        (BootStage::Player, BootEvent::Player(ok)) => if ok {
            BootStage::Properties
        } else {
            BootStage::Exit(1)
        },
        (BootStage::Properties, BootEvent::Properties(ok)) => if ok {
            BootStage::Window
        } else {
            BootStage::Exit(1)
        },
        (BootStage::Window, BootEvent::Window(ok)) => if ok {
            BootStage::Platform
        } else {
            BootStage::Exit(0)
        },
        (BootStage::Platform, BootEvent::Platform(ok)) => if ok {
            BootStage::Browser
        } else {
            BootStage::Exit(1)
        },
        (BootStage::Browser, BootEvent::Browser(ok)) => if ok {
            BootStage::Coordination
        } else {
            BootStage::Exit(1)
        },
        (BootStage::Coordination, BootEvent::Coordination(ok)) => if ok {
            BootStage::Running
        } else {
            BootStage::Exit(1)
        },
        (BootStage::Running, BootEvent::MainLoopEnded) => BootStage::Exit(0),
        _ => stage,
    }
}

/// An action where a condition holds, and none otherwise.
pub open spec fn when(condition: bool, action: BootAction) -> Seq<BootAction> {
    if condition {
        seq![action]
    } else {
        Seq::empty()
    }
}

/// The work that an event leads to.
pub open spec fn actions(stage: BootStage, ev: BootEvent, cfg: BootConfig) -> Seq<BootAction> {
    match (stage, ev) {
        (BootStage::Options, BootEvent::Options { version, schema }) => if version {
            seq![BootAction::PrintVersion]
        } else if schema {
            seq![BootAction::PrintSchema]
        } else {
            seq![
                BootAction::ApplyPaths,
                BootAction::LoadSettings,
                BootAction::ResolveOptions,
                BootAction::InitLogging,
                BootAction::InstallPlatform,
                BootAction::InitGeometry,
                BootAction::InstallShutdownHandler,
                BootAction::SignalInstance,
            ]
        },
        (BootStage::SingleInstance, BootEvent::SingleInstance(true)) => seq![
            BootAction::StartListener,
            BootAction::SetupPlayerEnvironment,
            BootAction::ApplyBootGeometry,
            BootAction::CreatePlayer,
        ],
        (BootStage::Player, BootEvent::Player(true)) => seq![BootAction::ObserveProperties],
        (BootStage::Properties, BootEvent::Properties(true)) => seq![
            BootAction::CaptureBackground,
            BootAction::SetStartupBackground,
            BootAction::LogPlayerVersions,
            BootAction::BindClose,
            BootAction::WaitForWindow,
        ],
        (BootStage::Window, BootEvent::Window(true)) => seq![
            BootAction::StoreWindowSize,
            BootAction::InitPlatform,
        ],
        (BootStage::Platform, BootEvent::Platform(true)) => when(
            cfg.titlebar_theme_color,
            BootAction::ApplyThemeColor,
        ) + seq![BootAction::PublishDeviceProfile, BootAction::InitBrowser],
        (BootStage::Browser, BootEvent::Browser(true)) => seq![
            BootAction::SyncMetrics,
            BootAction::InitMainBrowser,
            BootAction::StartCoordination,
        ],
        (BootStage::Coordination, BootEvent::Coordination(true)) => when(
            !cfg.platform_pumps_browser,
            BootAction::WaitForLoad,
        ) + seq![BootAction::RunMainLoop],
        (BootStage::Running, BootEvent::MainLoopEnded) => teardown() + seq![
            BootAction::TerminatePlayer,
            BootAction::CleanupWindow,
        ],
        _ => Seq::empty(),
    }
}

/// The teardown after the main loop, in order.
pub fn shutdown_runtime() -> (r: Vec<BootAction>)
    ensures
        r@ == teardown(),
{
    let mut out: Vec<BootAction> = Vec::new();
    out.push(BootAction::PersistGeometry);
    out.push(BootAction::SaveSettings);
    out.push(BootAction::JoinManager);
    out.push(BootAction::DetachHost);
    out.push(BootAction::StopTheme);
    out.push(BootAction::StopMediaSession);
    out.push(BootAction::StopEventThread);
    out.push(BootAction::StopSaveWorker);
    out.push(BootAction::StopBrowsers);
    out.push(BootAction::StopBrowser);
    out.push(BootAction::ClearIdleInhibit);
    out.push(BootAction::CleanupPlatform);
    out.push(BootAction::StopCoordination);
    assert(out@ =~= teardown());
    out
}

/// The work that an event leads to.
fn boot_actions(stage: BootStage, ev: BootEvent, cfg: BootConfig) -> (r: Vec<BootAction>)
    ensures
        r@ == actions(stage, ev, cfg),
{
    let mut out: Vec<BootAction> = Vec::new();
    match (stage, ev) {
        (BootStage::Options, BootEvent::Options { version, schema }) => {
            if version {
                out.push(BootAction::PrintVersion);
            } else if schema {
                out.push(BootAction::PrintSchema);
            } else {
                out.push(BootAction::ApplyPaths);
                out.push(BootAction::LoadSettings);
                out.push(BootAction::ResolveOptions);
                out.push(BootAction::InitLogging);
                out.push(BootAction::InstallPlatform);
                out.push(BootAction::InitGeometry);
                out.push(BootAction::InstallShutdownHandler);
                out.push(BootAction::SignalInstance);
            }
        },
        (BootStage::SingleInstance, BootEvent::SingleInstance(true)) => {
            out.push(BootAction::StartListener);
            out.push(BootAction::SetupPlayerEnvironment);
            out.push(BootAction::ApplyBootGeometry);
            out.push(BootAction::CreatePlayer);
        },
        (BootStage::Player, BootEvent::Player(true)) => {
            out.push(BootAction::ObserveProperties);
        },
        (BootStage::Properties, BootEvent::Properties(true)) => {
            out.push(BootAction::CaptureBackground);
            out.push(BootAction::SetStartupBackground);
            out.push(BootAction::LogPlayerVersions);
            out.push(BootAction::BindClose);
            out.push(BootAction::WaitForWindow);
        },
        (BootStage::Window, BootEvent::Window(true)) => {
            out.push(BootAction::StoreWindowSize);
            out.push(BootAction::InitPlatform);
        },
        (BootStage::Platform, BootEvent::Platform(true)) => {
            if cfg.titlebar_theme_color {
                out.push(BootAction::ApplyThemeColor);
            }
            out.push(BootAction::PublishDeviceProfile);
            out.push(BootAction::InitBrowser);
        },
        (BootStage::Browser, BootEvent::Browser(true)) => {
            out.push(BootAction::SyncMetrics);
            out.push(BootAction::InitMainBrowser);
            out.push(BootAction::StartCoordination);
        },
        (BootStage::Coordination, BootEvent::Coordination(true)) => {
            if !cfg.platform_pumps_browser {
                out.push(BootAction::WaitForLoad);
            }
            out.push(BootAction::RunMainLoop);
        },
        (BootStage::Running, BootEvent::MainLoopEnded) => {
            out = shutdown_runtime();
            out.push(BootAction::TerminatePlayer);
            out.push(BootAction::CleanupWindow);
        },
        _ => {},
    }
    assert(out@ =~= actions(stage, ev, cfg));
    out
}

/// One step of the process. Begin at [`BootStage::BrowserStart`] with what
/// the browser's start returned; at [`BootStage::Exit`] the process ends with
/// its code, once the actions are done.
pub fn jfn_app_main(stage: BootStage, ev: BootEvent, cfg: BootConfig) -> (r: (
    BootStage,
    Vec<BootAction>,
))
    ensures
        r.0 == next_stage(stage, ev),
        r.1@ == actions(stage, ev, cfg),
{
    let out = boot_actions(stage, ev, cfg);
    let next = match (stage, ev) {
        (BootStage::BrowserStart, BootEvent::BrowserStart(rc)) => if rc >= 0 {
            BootStage::Exit(rc)
        } else {
            BootStage::Options
        },
        (BootStage::Options, BootEvent::Options { version, schema }) => if version || schema {
            BootStage::Exit(0)
        } else {
            BootStage::SingleInstance
        },
        (BootStage::SingleInstance, BootEvent::SingleInstance(ok)) => if ok {
            BootStage::Player
        } else {
            BootStage::Exit(0)
        },
        (BootStage::Player, BootEvent::Player(ok)) => if ok {
            BootStage::Properties
        } else {
            BootStage::Exit(1)
        },
        (BootStage::Properties, BootEvent::Properties(ok)) => if ok {
            BootStage::Window
        } else {
            BootStage::Exit(1)
        },
        (BootStage::Window, BootEvent::Window(ok)) => if ok {
            BootStage::Platform
        } else {
            BootStage::Exit(0)
        },
        (BootStage::Platform, BootEvent::Platform(ok)) => if ok {
            BootStage::Browser
        } else {
            BootStage::Exit(1)
        },
        (BootStage::Browser, BootEvent::Browser(ok)) => if ok {
            BootStage::Coordination
        } else {
            BootStage::Exit(1)
        },
        (BootStage::Coordination, BootEvent::Coordination(ok)) => if ok {
            BootStage::Running
        } else {
            BootStage::Exit(1)
        },
        (BootStage::Running, BootEvent::MainLoopEnded) => BootStage::Exit(0),
        _ => stage,
    };
    (next, out)
}

/// A process that has got to its end stays there.
pub proof fn law_exit_is_final(code: i32, ev: BootEvent, cfg: BootConfig)
    ensures
        next_stage(BootStage::Exit(code), ev) == BootStage::Exit(code),
        actions(BootStage::Exit(code), ev, cfg) == Seq::<BootAction>::empty(),
{
}

/// Once the main loop runs, the process ends with code zero, and its window
/// geometry and settings are saved before anything is waited for.
pub proof fn law_teardown_saves_first(cfg: BootConfig)
    ensures
        next_stage(BootStage::Running, BootEvent::MainLoopEnded) == BootStage::Exit(0),
        ({
            let a = actions(BootStage::Running, BootEvent::MainLoopEnded, cfg);
            &&& a[0] == BootAction::PersistGeometry
            &&& a[1] == BootAction::SaveSettings
            &&& a.last() == BootAction::CleanupWindow
        }),
{
}

/// Whether both of two actions are asked for, the first one before the second.
pub open spec fn comes_before(s: Seq<BootAction>, first: BootAction, second: BootAction) -> bool {
    &&& s.contains(first)
    &&& s.contains(second)
    &&& forall|i: int, j: int|
        0 <= i < s.len() && 0 <= j < s.len() && s[i] == first && s[j] == second ==> i < j
}

/// At the start, directories are set before anything is read from them, the
/// log is there before the backend is chosen, and the title bar has its colour
/// before the browser is set up.
pub proof fn law_start_order(cfg: BootConfig)
    ensures
        ({
            let a = actions(
                BootStage::Options,
                BootEvent::Options { version: false, schema: false },
                cfg,
            );
            &&& comes_before(a, BootAction::ApplyPaths, BootAction::LoadSettings)
            &&& comes_before(a, BootAction::LoadSettings, BootAction::ResolveOptions)
            &&& comes_before(a, BootAction::InitLogging, BootAction::InstallPlatform)
        }),
        cfg.titlebar_theme_color ==> comes_before(
            actions(BootStage::Platform, BootEvent::Platform(true), cfg),
            BootAction::ApplyThemeColor,
            BootAction::InitBrowser,
        ),
{
    let a = actions(BootStage::Options, BootEvent::Options { version: false, schema: false }, cfg);
    assert(a[0] == BootAction::ApplyPaths);
    assert(a[1] == BootAction::LoadSettings);
    assert(a[2] == BootAction::ResolveOptions);
    assert(a[3] == BootAction::InitLogging);
    assert(a[4] == BootAction::InstallPlatform);
    let b = actions(BootStage::Platform, BootEvent::Platform(true), cfg);
    if cfg.titlebar_theme_color {
        assert(b[0] == BootAction::ApplyThemeColor);
        assert(b[2] == BootAction::InitBrowser);
    }
}

/// At the end, the manager has ended before anything is taken down that its
/// tasks use, the host is detached before the browsers' threads end, and the
/// backend lets go of the display before the player takes its window down.
pub proof fn law_teardown_order(cfg: BootConfig)
    ensures
        ({
            let a = actions(BootStage::Running, BootEvent::MainLoopEnded, cfg);
            &&& comes_before(a, BootAction::SaveSettings, BootAction::JoinManager)
            &&& comes_before(a, BootAction::JoinManager, BootAction::StopBrowsers)
            &&& comes_before(a, BootAction::DetachHost, BootAction::StopBrowsers)
            &&& comes_before(a, BootAction::CleanupPlatform, BootAction::TerminatePlayer)
            &&& comes_before(a, BootAction::TerminatePlayer, BootAction::CleanupWindow)
        }),
{
    let a = actions(BootStage::Running, BootEvent::MainLoopEnded, cfg);
    assert(a[1] == BootAction::SaveSettings);
    assert(a[2] == BootAction::JoinManager);
    assert(a[3] == BootAction::DetachHost);
    assert(a[8] == BootAction::StopBrowsers);
    assert(a[11] == BootAction::CleanupPlatform);
    assert(a[13] == BootAction::TerminatePlayer);
    assert(a[14] == BootAction::CleanupWindow);
}

proof fn lemma_filtered_parts(parts: Seq<Seq<char>>, sep: char)
    requires
        forall|i: int, k: int| 0 <= i < parts.len() && 0 <= k < parts[i].len() ==> parts[i][k] != sep,
    ensures
        ({
            let kept = parts.filter(|c: Seq<char>| c != "dts"@);
            &&& forall|i: int, k: int|
                0 <= i < kept.len() && 0 <= k < kept[i].len() ==> kept[i][k] != sep
            &&& forall|i: int| 0 <= i < kept.len() ==> #[trigger] kept[i] != "dts"@
            &&& kept.filter(|c: Seq<char>| c != "dts"@) == kept
        }),
    decreases parts.len(),
{
    reveal(Seq::filter);
    let f = |c: Seq<char>| c != "dts"@;
    if parts.len() > 0 {
        let rest = parts.drop_last();
        assert forall|i: int, k: int| 0 <= i < rest.len() && 0 <= k < rest[i].len() implies rest[i][k]
            != sep by {
            assert(rest[i] == parts[i]);
        }
        lemma_filtered_parts(rest, sep);
        let kept = rest.filter(f);
        if f(parts.last()) {
            let all = kept.push(parts.last());
            assert(parts.filter(f) == all);
            assert(all.drop_last() =~= kept);
            assert(parts.last() == parts[parts.len() - 1]);
        }
    } else {
        assert(parts.filter(f) =~= Seq::empty());
    }
}

/// A list of codecs that was cleaned holds no plain `dts` beside `dts-hd`,
/// and cleaning it again changes nothing.
pub proof fn law_passthrough_is_clean(s: Seq<char>)
    ensures
        text::holds(s, "dts-hd"@) ==> !text::split(without_plain_dts(s), ',').contains("dts"@),
        without_plain_dts(without_plain_dts(s)) == without_plain_dts(s),
{
    reveal_strlit("dts");
    let f = |c: Seq<char>| c != "dts"@;
    if text::holds(s, "dts-hd"@) {
        let parts = text::split(s, ',');
        text::lemma_split(s, ',');
        lemma_filtered_parts(parts, ',');
        let kept = parts.filter(f);
        let out = text::join(kept, ',');
        if kept.len() > 0 {
            text::law_split_inverts_join(kept, ',');
            assert(text::split(out, ',') == kept);
            assert(!kept.contains("dts"@));
        } else {
            assert(out =~= Seq::<char>::empty());
            assert(text::split(out, ',') =~= seq![Seq::<char>::empty()]);
            assert(!text::split(out, ',').contains("dts"@)) by {
                assert("dts"@.len() == 3);
            }
        }
        if text::holds(out, "dts-hd"@) {
            if kept.len() == 0 {
                reveal_strlit("dts-hd");
                let i = choose|i: int| #[trigger] text::holds_at(out, "dts-hd"@, i);
                assert(false);
            }
        }
    }
}

} // verus!
