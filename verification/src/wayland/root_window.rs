//! The application's own toplevel window.
//!
//! One thread owns the root surface. All geometry, overlay and video land in
//! the commits that it issues; every other producer asks it for one.
use crate::wayland::mpv_host;
use crate::wayland::mpv_host::{AppDisplay, DisplayStep};
use crate::wayland::window_state::feed_suspended;
use vstd::prelude::*;

verus! {

/// Width before any other is known.
pub const DEFAULT_W: i32 = 1280;

/// Height before any other is known.
pub const DEFAULT_H: i32 = 720;

/// Code of the maximized state in a configure.
pub const STATE_MAXIMIZED: u32 = 1;

/// Code of the fullscreen state in a configure.
pub const STATE_FULLSCREEN: u32 = 2;

/// Code of the suspended state in a configure.
pub const STATE_SUSPENDED: u32 = 9;

/// Code of client-side decorations; any other code, zero for unset among
/// them, means server-side ones.
pub const DECO_CSD: u32 = 1;

/// The scale of one, in parts of 120.
pub const SCALE_ONE: i32 = 120;

/// What the window starts out with.
#[derive(Clone, Copy, Debug, PartialEq, Eq, Structural)]
pub struct BootConfig {
    pub deco_mode: u32,
    pub w: i32,
    pub h: i32,
    pub maximized: bool,
}

impl Default for BootConfig {
    fn default() -> (r: Self)
        ensures
            r == (BootConfig { deco_mode: 0, w: DEFAULT_W, h: DEFAULT_H, maximized: false }),
    {
        BootConfig { deco_mode: 0, w: DEFAULT_W, h: DEFAULT_H, maximized: false }
    }
}

/// Sets the code of the decorations.
pub fn set_decorations(boot: &mut BootConfig, mode: u32)
    ensures
        *final(boot) == (BootConfig { deco_mode: mode, ..*old(boot) }),
{
    boot.deco_mode = mode;
}

/// Sets the size, where both extents are positive, and whether the window
/// starts maximized.
pub fn set_boot_geometry(boot: &mut BootConfig, w: i32, h: i32, maximized: bool)
    ensures
        *final(boot) == (BootConfig {
            w: if w > 0 && h > 0 {
                w
            } else {
                old(boot).w
            },
            h: if w > 0 && h > 0 {
                h
            } else {
                old(boot).h
            },
            maximized,
            ..*old(boot)
        }),
{
    if w > 0 && h > 0 {
        boot.w = w;
        boot.h = h;
    }
    boot.maximized = maximized;
}

/// A colour.
#[derive(Clone, Copy, Debug, PartialEq, Eq, Structural)]
pub struct Rgb {
    pub r: u8,
    pub g: u8,
    pub b: u8,
}

/// The colour behind the video.
pub open spec fn default_background() -> Rgb {
    Rgb { r: 0x10, g: 0x10, b: 0x10 }
}

/// The root window.
#[derive(Clone, Copy, Debug, PartialEq, Eq, Structural)]
pub struct RootState {
    pub has_viewport: bool,
    pub has_bg_buffer: bool,
    pub bg: Rgb,
    pub cur_w: i32,
    pub cur_h: i32,
    /// Size from the last configure; zero where the compositor leaves it to
    /// the window.
    pub pending_w: i32,
    pub pending_h: i32,
    /// Scale in parts of 120.
    pub scale_120: u32,
    pub fullscreen: bool,
    pub maximized: bool,
    pub suspended: bool,
    pub boot_w: i32,
    pub boot_h: i32,
    pub mapped: bool,
}

/// What the owner of the root surface does, in order.
#[derive(Clone, Copy, Debug, PartialEq, Eq, Structural)]
pub enum RootRequest {
    /// `xdg_surface.ack_configure`.
    AckConfigure(u32),
    /// `xdg_surface.set_window_geometry`, from the upper left corner.
    SetWindowGeometry { w: i32, h: i32 },
    /// `wp_viewport.set_destination`.
    SetDestination { w: i32, h: i32 },
    /// Attach the background buffer.
    AttachBackground,
    /// Damage all of the surface.
    DamageAll,
    Commit,
    Flush,
    /// Tell the proxy the logical size.
    ProxySize { w: i32, h: i32 },
    /// Feed the window state.
    FeedWindow { w: i32, h: i32, pw: i32, ph: i32, fullscreen: bool, maximized: bool },
    /// Feed the scale, in parts of 120.
    FeedScale(i32),
}

/// The first positive of three numbers, at least one.
pub open spec fn first_positive(a: i32, b: i32, c: i32) -> i32 {
    if a > 0 {
        a
    } else if b > 0 {
        b
    } else if c > 1 {
        c
    } else {
        1
    }
}

fn pick_positive(a: i32, b: i32, c: i32) -> (r: i32)
    ensures
        r == first_positive(a, b, c),
        r >= 1,
{
    if a > 0 {
        a
    } else if b > 0 {
        b
    } else if c > 1 {
        c
    } else {
        1
    }
}

/// A quotient by 120, rounded towards zero.
pub open spec fn over_120(n: int) -> int {
    if n >= 0 {
        n / 120
    } else {
        -((-n) / 120)
    }
}

/// A logical extent in device pixels, a positive one rounded to the nearest;
/// of a number that does not fit, its low 32 bits.
pub open spec fn scaled(extent: i32, scale_120: u32) -> i32 {
    over_120(extent * scale_120 + 60) as i32
}

/// The requests that put the background behind the window.
pub open spec fn background_requests(st: RootState, made: bool, w: i32, h: i32) -> Seq<
    RootRequest,
> {
    (if st.has_viewport {
        seq![RootRequest::SetDestination { w, h }]
    } else {
        Seq::empty()
    }) + (if st.has_bg_buffer || made {
        seq![RootRequest::AttachBackground, RootRequest::DamageAll]
    } else {
        Seq::empty()
    })
}

/// The requests that present what is pending: none before the first
/// configure.
pub open spec fn present_requests(st: RootState) -> Seq<RootRequest> {
    if st.mapped {
        seq![RootRequest::Commit, RootRequest::Flush]
    } else {
        Seq::empty()
    }
}

/// The size that a configure leads to.
pub open spec fn configured_size(st: RootState) -> (i32, i32) {
    (
        first_positive(st.pending_w, st.cur_w, st.boot_w),
        first_positive(st.pending_h, st.cur_h, st.boot_h),
    )
}

/// The window after a configure.
pub open spec fn configured(st: RootState, made: bool) -> RootState {
    let (w, h) = configured_size(st);
    RootState {
        cur_w: w,
        cur_h: h,
        mapped: true,
        has_bg_buffer: st.has_bg_buffer || made,
        ..st
    }
}

/// The window state that is fed for a size.
pub open spec fn feed_of(st: RootState, w: i32, h: i32) -> RootRequest {
    RootRequest::FeedWindow {
        w,
        h,
        pw: scaled(w, st.scale_120),
        ph: scaled(h, st.scale_120),
        fullscreen: st.fullscreen,
        maximized: st.maximized,
    }
}

/// The requests of a configure.
pub open spec fn configure_requests(st: RootState, serial: u32, made: bool) -> Seq<RootRequest> {
    let (w, h) = configured_size(st);
    seq![RootRequest::AckConfigure(serial), RootRequest::SetWindowGeometry { w, h }]
        + background_requests(st, made, w, h) + seq![
        RootRequest::ProxySize { w, h },
        feed_of(st, w, h),
        RootRequest::Commit,
        RootRequest::Flush,
    ]
}

impl RootState {
    /// A window that was not configured yet.
    pub fn new(boot: &BootConfig, has_viewport: bool, bg: Option<Rgb>) -> (r: Self)
        ensures
            r == first_state(*boot, has_viewport, bg),
    {
        RootState {
            has_viewport,
            has_bg_buffer: false,
            bg: match bg {
                Some(c) => c,
                None => Rgb { r: 0x10, g: 0x10, b: 0x10 },
            },
            cur_w: 0,
            cur_h: 0,
            pending_w: 0,
            pending_h: 0,
            scale_120: 120,
            fullscreen: false,
            maximized: boot.maximized,
            suspended: false,
            boot_w: boot.w,
            boot_h: boot.h,
            mapped: false,
        }
    }

    /// Whether the background is still to be made.
    pub fn needs_background(&self) -> (r: bool)
        ensures
            r == !self.has_bg_buffer,
    {
        !self.has_bg_buffer
    }

    /// A logical size in device pixels.
    pub fn physical(&self, lw: i32, lh: i32) -> (r: (i32, i32))
        ensures
            r == (scaled(lw, self.scale_120), scaled(lh, self.scale_120)),
    {
        (physical_extent(lw, self.scale_120), physical_extent(lh, self.scale_120))
    }

    fn fill_background(&mut self, w: i32, h: i32, made: bool, out: &mut Vec<RootRequest>)
        ensures
            *final(self) == (RootState {
                has_bg_buffer: old(self).has_bg_buffer || made,
                ..*old(self)
            }),
            final(out)@ == old(out)@ + background_requests(*old(self), made, w, h),
    {
        if self.has_viewport {
            out.push(RootRequest::SetDestination { w, h });
        }
        if made {
            self.has_bg_buffer = true;
        }
        if self.has_bg_buffer {
            out.push(RootRequest::AttachBackground);
            out.push(RootRequest::DamageAll);
        }
        assert(out@ =~= old(out)@ + background_requests(*old(self), made, w, h));
    }

    fn present_transaction(&self, out: &mut Vec<RootRequest>)
        ensures
            final(out)@ == old(out)@ + present_requests(*self),
    {
        if self.mapped {
            out.push(RootRequest::Commit);
            out.push(RootRequest::Flush);
        }
        assert(out@ =~= old(out)@ + present_requests(*self));
    }

    /// Takes in a configure of the surface. `made` says that the background,
    /// which was missing, was made. The size is the compositor's, else the
    /// current one, else that of the start.
    pub fn configure(&mut self, serial: u32, made: bool) -> (r: Vec<RootRequest>)
        ensures
            *final(self) == configured(*old(self), made),
            r@ == configure_requests(*old(self), serial, made),
            final(self).cur_w >= 1,
            final(self).cur_h >= 1,
    {
        let w = pick_positive(self.pending_w, self.cur_w, self.boot_w);
        let h = pick_positive(self.pending_h, self.cur_h, self.boot_h);
        let mut out: Vec<RootRequest> = Vec::new();
        out.push(RootRequest::AckConfigure(serial));
        out.push(RootRequest::SetWindowGeometry { w, h });
        self.fill_background(w, h, made, &mut out);
        self.cur_w = w;
        self.cur_h = h;
        self.mapped = true;
        out.push(RootRequest::ProxySize { w, h });
        let (pw, ph) = self.physical(w, h);
        out.push(
            RootRequest::FeedWindow {
                w,
                h,
                pw,
                ph,
                fullscreen: self.fullscreen,
                maximized: self.maximized,
            },
        );
        self.present_transaction(&mut out);
        assert(out@ =~= configure_requests(*old(self), serial, made));
        out
    }

    /// Takes in a configure of the toplevel: a size and the states in force.
    /// The size counts with the configure of the surface that follows. What
    /// comes back is whether the window is visible, where that changed.
    pub fn toplevel_configure(&mut self, width: i32, height: i32, states: ToplevelStates) -> (r:
        Option<bool>)
        ensures
            *final(self) == (RootState {
                pending_w: width,
                pending_h: height,
                fullscreen: states.fullscreen,
                maximized: states.maximized,
                suspended: states.suspended,
                ..*old(self)
            }),
            r == if states.suspended != old(self).suspended {
                Some(!states.suspended)
            } else {
                None
            },
    {
        self.pending_w = width;
        self.pending_h = height;
        self.fullscreen = states.fullscreen;
        self.maximized = states.maximized;
        if states.suspended != self.suspended {
            self.suspended = states.suspended;
            Some(feed_suspended(states.suspended))
        } else {
            None
        }
    }

    /// Takes in a preferred scale, in parts of 120. It can change without a
    /// resize, so a known size is fed again.
    pub fn preferred_scale(&mut self, scale: u32) -> (r: Vec<RootRequest>)
        ensures
            *final(self) == (RootState { scale_120: scale, ..*old(self) }),
            r@ == seq![RootRequest::FeedScale(scale as i32)] + if old(self).cur_w > 0
                && old(self).cur_h > 0 {
                seq![feed_of(*final(self), old(self).cur_w, old(self).cur_h)] + present_requests(
                    *old(self),
                )
            } else {
                Seq::empty()
            },
    {
        self.scale_120 = scale;
        let mut out: Vec<RootRequest> = Vec::new();
        out.push(RootRequest::FeedScale(scale as i32));
        if self.cur_w > 0 && self.cur_h > 0 {
            let (pw, ph) = self.physical(self.cur_w, self.cur_h);
            out.push(
                RootRequest::FeedWindow {
                    w: self.cur_w,
                    h: self.cur_h,
                    pw,
                    ph,
                    fullscreen: self.fullscreen,
                    maximized: self.maximized,
                },
            );
            self.present_transaction(&mut out);
        }
        assert(out@ =~= seq![RootRequest::FeedScale(scale as i32)] + if old(self).cur_w > 0
            && old(self).cur_h > 0 {
            seq![feed_of(*self, old(self).cur_w, old(self).cur_h)] + present_requests(*old(self))
        } else {
            Seq::empty()
        });
        out
    }
}

/// A window that was not configured yet.
pub open spec fn first_state(boot: BootConfig, has_viewport: bool, bg: Option<Rgb>) -> RootState {
    RootState {
        has_viewport,
        has_bg_buffer: false,
        bg: match bg {
            Some(c) => c,
            None => default_background(),
        },
        cur_w: 0,
        cur_h: 0,
        pending_w: 0,
        pending_h: 0,
        scale_120: 120,
        fullscreen: false,
        maximized: boot.maximized,
        suspended: false,
        boot_w: boot.w,
        boot_h: boot.h,
        mapped: false,
    }
}

fn physical_extent(extent: i32, scale_120: u32) -> (r: i32)
    ensures
        r == scaled(extent, scale_120),
{
    assert(-0x8000_0000 * 0xffff_ffff <= extent * scale_120 <= 0x7fff_ffff * 0xffff_ffff)
        by (nonlinear_arith)
        requires
            -0x8000_0000 <= extent <= 0x7fff_ffff,
            0 <= scale_120 <= 0xffff_ffff,
    ;
    let n: i64 = (extent as i64) * (scale_120 as i64) + 60;
    let q: i64 = if n >= 0 {
        n / 120
    } else {
        -((-n) / 120)
    };
    q as i32
}

/// At a scale of one a logical size is its size in device pixels.
pub proof fn law_scale_one_keeps_size(extent: i32)
    requires
        extent >= 0,
    ensures
        scaled(extent, 120) == extent,
{
    assert((extent * 120 + 60) / 120 == extent) by (nonlinear_arith)
        requires
            extent >= 0,
    ;
}

/// A configure without a size keeps the window as large as it is.
pub proof fn law_sizeless_configure_keeps_size(st: RootState, made: bool)
    requires
        st.cur_w > 0,
        st.cur_h > 0,
        st.pending_w <= 0,
        st.pending_h <= 0,
    ensures
        configured(st, made).cur_w == st.cur_w,
        configured(st, made).cur_h == st.cur_h,
{
}

/// A configure ends in exactly one commit of the root, after all that it is
/// to apply.
pub proof fn law_configure_commits_once(st: RootState, serial: u32, made: bool)
    ensures
        ({
            let r = configure_requests(st, serial, made);
            &&& r.len() >= 2
            &&& r[r.len() - 2] == RootRequest::Commit
            &&& r[r.len() - 1] == RootRequest::Flush
            &&& forall|i: int| 0 <= i < r.len() - 2 ==> #[trigger] r[i] != RootRequest::Commit
        }),
{
}

/// The states of a toplevel that matter here.
#[derive(Clone, Copy, Debug, PartialEq, Eq, Structural)]
pub struct ToplevelStates {
    pub fullscreen: bool,
    pub maximized: bool,
    pub suspended: bool,
}

/// The number that four bytes hold, lowest byte first or last.
pub open spec fn code_of(a: u8, b: u8, c: u8, d: u8, little_endian: bool) -> int {
    if little_endian {
        a + b * 0x100 + c * 0x1_0000 + d * 0x100_0000
    } else {
        d + c * 0x100 + b * 0x1_0000 + a * 0x100_0000
    }
}

/// Whether a code is among the whole groups of four bytes.
pub open spec fn has_code(states: Seq<u8>, little_endian: bool, code: int) -> bool {
    exists|i: int|
        0 <= i && 4 * i + 3 < states.len() && #[trigger] code_at(states, little_endian, i) == code
}

/// The code of a group of four bytes.
pub open spec fn code_at(states: Seq<u8>, little_endian: bool, i: int) -> int {
    code_of(states[4 * i], states[4 * i + 1], states[4 * i + 2], states[4 * i + 3], little_endian)
}

/// The states that a configure carries as numbers of four bytes each, in the
/// byte order of the machine.
pub fn toplevel_states(states: &[u8], little_endian: bool) -> (r: ToplevelStates)
    ensures
        r.fullscreen == has_code(states@, little_endian, STATE_FULLSCREEN as int),
        r.maximized == has_code(states@, little_endian, STATE_MAXIMIZED as int),
        r.suspended == has_code(states@, little_endian, STATE_SUSPENDED as int),
{
    let mut out = ToplevelStates { fullscreen: false, maximized: false, suspended: false };
    let n: usize = states.len() / 4;
    for i in 0..n
        invariant
            n == states@.len() / 4,
            states@.len() <= usize::MAX,
            out.fullscreen == has_code(
                states@.take(4 * i),
                little_endian,
                STATE_FULLSCREEN as int,
            ),
            out.maximized == has_code(states@.take(4 * i), little_endian, STATE_MAXIMIZED as int),
            out.suspended == has_code(states@.take(4 * i), little_endian, STATE_SUSPENDED as int),
    {
        let (a, b, c, d) = (
            states[4 * i] as u32,
            states[4 * i + 1] as u32,
            states[4 * i + 2] as u32,
            states[4 * i + 3] as u32,
        );
        let code: u32 = if little_endian {
            a + b * 0x100 + c * 0x1_0000 + d * 0x100_0000
        } else {
            d + c * 0x100 + b * 0x1_0000 + a * 0x100_0000
        };
        proof {
            lemma_code_step(states@, little_endian, i as int, STATE_FULLSCREEN as int);
            lemma_code_step(states@, little_endian, i as int, STATE_MAXIMIZED as int);
            lemma_code_step(states@, little_endian, i as int, STATE_SUSPENDED as int);
            assert(code == code_at(states@, little_endian, i as int));
        }
        if code == STATE_FULLSCREEN {
            out.fullscreen = true;
        } else if code == STATE_MAXIMIZED {
            out.maximized = true;
        } else if code == STATE_SUSPENDED {
            out.suspended = true;
        }
    }
    proof {
        lemma_code_whole(states@, little_endian, STATE_FULLSCREEN as int);
        lemma_code_whole(states@, little_endian, STATE_MAXIMIZED as int);
        lemma_code_whole(states@, little_endian, STATE_SUSPENDED as int);
    }
    out
}

proof fn lemma_code_step(states: Seq<u8>, little_endian: bool, i: int, code: int)
    requires
        0 <= i,
        4 * i + 3 < states.len(),
    ensures
        has_code(states.take(4 * i + 4), little_endian, code) == (has_code(
            states.take(4 * i),
            little_endian,
            code,
        ) || code_at(states, little_endian, i) == code),
{
    let before = states.take(4 * i);
    let after = states.take(4 * i + 4);
    assert forall|k: int| 0 <= k < i implies code_at(before, little_endian, k) == code_at(
        after,
        little_endian,
        k,
    ) by {}
    assert(code_at(after, little_endian, i) == code_at(states, little_endian, i));
    if has_code(before, little_endian, code) {
        let k = choose|k: int|
            0 <= k && 4 * k + 3 < before.len() && #[trigger] code_at(before, little_endian, k)
                == code;
        assert(code_at(after, little_endian, k) == code);
    }
    if has_code(after, little_endian, code) {
        let k = choose|k: int|
            0 <= k && 4 * k + 3 < after.len() && #[trigger] code_at(after, little_endian, k)
                == code;
        if k < i {
            assert(code_at(before, little_endian, k) == code);
        }
    }
}

proof fn lemma_code_whole(states: Seq<u8>, little_endian: bool, code: int)
    ensures
        has_code(states.take(4 * (states.len() / 4) as int), little_endian, code) == has_code(
            states,
            little_endian,
            code,
        ),
{
    let n = (states.len() / 4) as int;
    let whole = states.take(4 * n);
    assert forall|k: int| 0 <= k < n implies code_at(whole, little_endian, k) == code_at(
        states,
        little_endian,
        k,
    ) by {}
    if has_code(states, little_endian, code) {
        let k = choose|k: int|
            0 <= k && 4 * k + 3 < states.len() && #[trigger] code_at(states, little_endian, k)
                == code;
        assert(code_at(whole, little_endian, k) == code);
    }
    if has_code(whole, little_endian, code) {
        let k = choose|k: int|
            0 <= k && 4 * k + 3 < whole.len() && #[trigger] code_at(whole, little_endian, k)
                == code;
        assert(code_at(states, little_endian, k) == code);
    }
}

/// The bit that marks a packed colour as set.
pub const BG_SET: u32 = 0x100_0000;

/// A colour in one word: the mark above 24 bits of red, green and blue.
pub open spec fn packed_color(c: Rgb) -> u32 {
    (BG_SET + c.r * 0x1_0000 + c.g * 0x100 + c.b) as u32
}

/// Packs a colour into one word, marked as set.
pub fn set_background_color(r: u8, g: u8, b: u8) -> (packed: u32)
    ensures
        packed == packed_color(Rgb { r, g, b }),
{
    let rgb: u32 = ((r as u32) << 16) | ((g as u32) << 8) | (b as u32);
    let packed: u32 = BG_SET | rgb;
    assert(packed == 0x100_0000u32 + (r as u32) * 0x1_0000 + (g as u32) * 0x100 + (b as u32))
        by (bit_vector)
        requires
            packed == 0x100_0000u32 | (((r as u32) << 16) | ((g as u32) << 8) | (b as u32)),
    ;
    packed
}

/// The colour in a word, where it is marked as set.
pub open spec fn unpacked_color(v: u32) -> Option<Rgb> {
    if v & BG_SET != 0 {
        Some(Rgb { r: (v >> 16) as u8, g: (v >> 8) as u8, b: v as u8 })
    } else {
        None
    }
}

/// Takes the colour out of a word, where it is marked as set.
pub fn pending_bg(v: u32) -> (r: Option<Rgb>)
    ensures
        r == unpacked_color(v),
{
    if v & BG_SET != 0 {
        Some(Rgb { r: (v >> 16) as u8, g: (v >> 8) as u8, b: v as u8 })
    } else {
        None
    }
}

/// Unpacking gives back the colour that was packed; zero stands for none.
pub proof fn law_unpack_inverts_pack(c: Rgb)
    ensures
        unpacked_color(packed_color(c)) == Some(c),
        unpacked_color(0) is None,
{
    let (r, g, b) = (c.r, c.g, c.b);
    let v = packed_color(c);
    assert(v & 0x100_0000 != 0 && (v >> 16) as u8 == r && (v >> 8) as u8 == g && v as u8 == b)
        by (bit_vector)
        requires
            v == 0x100_0000u32 + (r as u32) * 0x1_0000 + (g as u32) * 0x100 + (b as u32),
    ;
    assert(0u32 & 0x100_0000 == 0) by (bit_vector);
}

/// What a poll of the display and of the wake-up descriptor found.
#[derive(Clone, Copy, Debug, PartialEq, Eq, Structural)]
pub struct PollOutcome {
    /// The call failed.
    pub failed: bool,
    /// It failed because a signal came in.
    pub interrupted: bool,
    /// The display has something to read.
    pub readable: bool,
    /// The display is broken.
    pub broken: bool,
    /// The wake-up descriptor was written.
    pub woken: bool,
}

/// How the loop goes on after a poll.
#[derive(Clone, Copy, Debug, PartialEq, Eq, Structural)]
pub enum AfterPoll {
    /// Give up the read and start over.
    Retry,
    /// Give up the read and end.
    End,
    /// Read the display; end where that fails, else pump the other queue on
    /// it and go on with [`after_read`].
    Read,
    /// Give up the read and go on with [`after_read`].
    Skip,
}

/// How the loop goes on after a poll.
pub fn after_poll(o: PollOutcome) -> (r: AfterPoll)
    ensures
        r == if o.failed {
            if o.interrupted {
                AfterPoll::Retry
            } else {
                AfterPoll::End
            }
        } else if o.readable {
            AfterPoll::Read
        } else {
            AfterPoll::Skip
        },
{
    if o.failed {
        return if o.interrupted {
            AfterPoll::Retry
        } else {
            AfterPoll::End
        };
    }
    if o.readable {
        AfterPoll::Read
    } else {
        AfterPoll::Skip
    }
}

/// How the loop goes on once the display was read or skipped.
#[derive(Clone, Copy, Debug, PartialEq, Eq, Structural)]
pub enum AfterRead {
    End,
    /// Drain the wake-up descriptor and go on with
    /// [`RootState::after_wake`].
    Drain,
    /// Start over.
    Retry,
}

/// How the loop goes on once the display was read or skipped.
pub fn after_read(o: PollOutcome) -> (r: AfterRead)
    ensures
        r == if o.broken {
            AfterRead::End
        } else if o.woken {
            AfterRead::Drain
        } else {
            AfterRead::Retry
        },
{
    if o.broken {
        AfterRead::End
    } else if o.woken {
        AfterRead::Drain
    } else {
        AfterRead::Retry
    }
}

/// The colour that is new, where one is set.
pub open spec fn new_color(st: RootState, packed: u32) -> Option<Rgb> {
    match unpacked_color(packed) {
        Some(c) => if c != st.bg {
            Some(c)
        } else {
            None
        },
        None => None,
    }
}

/// The window once a new colour was taken in.
pub open spec fn recolored(st: RootState, packed: u32) -> RootState {
    match new_color(st, packed) {
        Some(c) => RootState { bg: c, has_bg_buffer: false, ..st },
        None => st,
    }
}

/// Whether a wake-up paints the background anew.
pub open spec fn repaints(st: RootState, packed: u32) -> bool {
    new_color(st, packed) is Some && st.cur_w > 0 && st.cur_h > 0
}

impl RootState {
    /// Takes in a wake-up: a new background colour. What comes back is
    /// whether the background is to be made and then handed to
    /// [`RootState::after_wake`].
    pub fn take_color(&mut self, packed: u32) -> (r: bool)
        ensures
            *final(self) == recolored(*old(self), packed),
            r == repaints(*old(self), packed),
    {
        match pending_bg(packed) {
            Some(c) => {
                if c != self.bg {
                    self.bg = c;
                    self.has_bg_buffer = false;
                    self.cur_w > 0 && self.cur_h > 0
                } else {
                    false
                }
            },
            None => false,
        }
    }

    /// Finishes a wake-up: the background is painted anew where `repaint`,
    /// and what is pending is presented where that was asked for or the
    /// background changed. It all lands in one commit.
    pub fn after_wake(&mut self, repaint: bool, made: bool, present: bool) -> (r: Vec<RootRequest>)
        ensures
            *final(self) == if repaint {
                RootState { has_bg_buffer: old(self).has_bg_buffer || made, ..*old(self) }
            } else {
                *old(self)
            },
            r@ == (if repaint {
                background_requests(*old(self), made, old(self).cur_w, old(self).cur_h)
            } else {
                Seq::empty()
            }) + (if repaint || present {
                present_requests(*old(self))
            } else {
                Seq::empty()
            }),
    {
        let mut out: Vec<RootRequest> = Vec::new();
        if repaint {
            let (w, h) = (self.cur_w, self.cur_h);
            self.fill_background(w, h, made, &mut out);
        }
        if repaint || present {
            self.present_transaction(&mut out);
        }
        assert(out@ =~= (if repaint {
            background_requests(*old(self), made, old(self).cur_w, old(self).cur_h)
        } else {
            Seq::empty()
        }) + (if repaint || present {
            present_requests(*old(self))
        } else {
            Seq::empty()
        }));
        out
    }
}

/// A wake-up leads to at most one commit, and to one where anything is to be
/// shown.
pub proof fn law_wake_commits_once(st: RootState, packed: u32, made: bool, present: bool)
    requires
        st.mapped,
    ensures
        ({
            let now = recolored(st, packed);
            let r = (if repaints(st, packed) {
                background_requests(now, made, now.cur_w, now.cur_h)
            } else {
                Seq::empty()
            }) + (if repaints(st, packed) || present {
                present_requests(now)
            } else {
                Seq::empty()
            });
            &&& (repaints(st, packed) || present) ==> r.len() >= 2 && r[r.len() - 2]
                == RootRequest::Commit
            &&& forall|i: int| 0 <= i < r.len() - 2 ==> #[trigger] r[i] != RootRequest::Commit
        }),
{
}

/// Requests on the popup role of the menu's surface.
#[derive(Clone, Copy, Debug, PartialEq, Eq, Structural)]
pub enum PopupRequest {
    DestroyPopup,
    DestroyXdgSurface,
    /// A positioner of this size, one pixel of anchor at a place; it opens to
    /// the lower right and flips or slides to stay visible.
    Positioner { x: i32, y: i32, w: i32, h: i32 },
    /// Give the surface the popup role, for a generation.
    GetPopup { generation: u32 },
    DestroyPositioner,
    /// Grab the seat, citing the last button serial.
    Grab { serial: u32 },
    Reposition,
    CommitSurface,
    Flush,
}

/// An extent, at least one.
pub open spec fn at_least_one(n: i32) -> i32 {
    if n < 1 {
        1
    } else {
        n
    }
}

fn floor_one(n: i32) -> (r: i32)
    ensures
        r == at_least_one(n),
{
    if n < 1 {
        1
    } else {
        n
    }
}

/// The requests that take the popup role away.
pub open spec fn role_drop_requests(has_role: bool, shell: bool) -> Seq<PopupRequest> {
    (if has_role {
        seq![PopupRequest::DestroyPopup, PopupRequest::DestroyXdgSurface]
    } else {
        Seq::empty()
    }) + (if shell {
        seq![PopupRequest::Flush]
    } else {
        Seq::empty()
    })
}

/// Takes the popup role away, if there is one. The surface stays.
pub fn popup_destroy(has_role: &mut bool, shell: bool) -> (r: Vec<PopupRequest>)
    ensures
        !*final(has_role),
        r@ == role_drop_requests(*old(has_role), shell),
{
    let mut out: Vec<PopupRequest> = Vec::new();
    if *has_role {
        out.push(PopupRequest::DestroyPopup);
        out.push(PopupRequest::DestroyXdgSurface);
    }
    *has_role = false;
    if shell {
        out.push(PopupRequest::Flush);
    }
    assert(out@ =~= role_drop_requests(*old(has_role), shell));
    out
}

/// The requests that make a popup in place of the one there is.
pub open spec fn role_requests(
    has_role: bool,
    generation: u32,
    x: i32,
    y: i32,
    w: i32,
    h: i32,
    grab: Option<u32>,
) -> Seq<PopupRequest> {
    role_drop_requests(has_role, true) + seq![
        PopupRequest::Positioner { x, y, w: at_least_one(w), h: at_least_one(h) },
        PopupRequest::GetPopup { generation },
        PopupRequest::DestroyPositioner,
    ] + (match grab {
        Some(serial) => seq![PopupRequest::Grab { serial }],
        None => Seq::empty(),
    }) + seq![PopupRequest::CommitSurface, PopupRequest::Flush]
}

/// Makes the popup of a generation, with a grab where there is a seat: `grab`
/// is the last button serial then. Without a shell nothing is made.
pub fn popup_create(
    has_role: &mut bool,
    shell: bool,
    generation: u32,
    x: i32,
    y: i32,
    w: i32,
    h: i32,
    grab: Option<u32>,
) -> (r: Vec<PopupRequest>)
    ensures
        !shell ==> *final(has_role) == *old(has_role) && r@.len() == 0,
        shell ==> *final(has_role) && r@ == role_requests(
            *old(has_role),
            generation,
            x,
            y,
            w,
            h,
            grab,
        ),
{
    if !shell {
        return Vec::new();
    }
    let mut out = popup_destroy(has_role, true);
    out.push(PopupRequest::Positioner { x, y, w: floor_one(w), h: floor_one(h) });
    out.push(PopupRequest::GetPopup { generation });
    out.push(PopupRequest::DestroyPositioner);
    if let Some(serial) = grab {
        out.push(PopupRequest::Grab { serial });
    }
    out.push(PopupRequest::CommitSurface);
    out.push(PopupRequest::Flush);
    *has_role = true;
    assert(out@ =~= role_requests(*old(has_role), generation, x, y, w, h, grab));
    out
}

/// Moves and resizes a mapped popup. Without a popup nothing happens.
pub fn popup_reposition(has_role: bool, shell: bool, x: i32, y: i32, w: i32, h: i32) -> (r: Vec<
    PopupRequest,
>)
    ensures
        r@ == if has_role && shell {
            seq![
                PopupRequest::Positioner { x, y, w: at_least_one(w), h: at_least_one(h) },
                PopupRequest::Reposition,
                PopupRequest::DestroyPositioner,
                PopupRequest::Flush,
            ]
        } else {
            Seq::empty()
        },
{
    let mut out: Vec<PopupRequest> = Vec::new();
    if has_role && shell {
        out.push(PopupRequest::Positioner { x, y, w: floor_one(w), h: floor_one(h) });
        out.push(PopupRequest::Reposition);
        out.push(PopupRequest::DestroyPositioner);
        out.push(PopupRequest::Flush);
    }
    assert(out@ =~= if has_role && shell {
        seq![
            PopupRequest::Positioner { x, y, w: at_least_one(w), h: at_least_one(h) },
            PopupRequest::Reposition,
            PopupRequest::DestroyPositioner,
            PopupRequest::Flush,
        ]
    } else {
        Seq::empty()
    });
    out
}

/// A request on the toplevel; a flush follows.
#[derive(Clone, Copy, Debug, PartialEq, Eq, Structural)]
pub enum ToplevelRequest {
    Move { serial: u32 },
    Resize { serial: u32, edge: u32 },
    SetFullscreen,
    UnsetFullscreen,
    SetMaximized,
    UnsetMaximized,
    SetMinimized,
}

/// The codes of the edges that a window can be resized at, zero for none.
pub open spec fn is_resize_edge(edge: u32) -> bool {
    edge == 0 || edge == 1 || edge == 2 || edge == 4 || edge == 5 || edge == 6 || edge == 8
        || edge == 9 || edge == 10
}

/// `xdg_toplevel::ResizeEdge::try_from` of the wayland-protocols crate: the
/// codes that the protocol gives an edge convert, all others do not.
#[verifier::external_body]
fn known_edge(edge: u32) -> (r: bool)
    ensures
        r == is_resize_edge(edge),
{
    wayland_protocols::xdg::shell::client::xdg_toplevel::ResizeEdge::try_from(edge).is_ok()
}

/// Starts a move by the pointer; `controls` says that there is a toplevel,
/// `seat` is the last button serial where there is a seat.
pub fn start_move(controls: bool, seat: Option<u32>) -> (r: Option<ToplevelRequest>)
    ensures
        r == match seat {
            Some(serial) if controls => Some(ToplevelRequest::Move { serial }),
            _ => None,
        },
{
    match seat {
        Some(serial) => if controls {
            Some(ToplevelRequest::Move { serial })
        } else {
            None
        },
        None => None,
    }
}

/// Starts a resize by the pointer at an edge that the protocol knows.
pub fn start_resize(controls: bool, seat: Option<u32>, edge: u32) -> (r: Option<ToplevelRequest>)
    ensures
        r == match seat {
            Some(serial) if controls && is_resize_edge(edge) => Some(
                ToplevelRequest::Resize { serial, edge },
            ),
            _ => None,
        },
{
    match seat {
        Some(serial) => if controls && known_edge(edge) {
            Some(ToplevelRequest::Resize { serial, edge })
        } else {
            None
        },
        None => None,
    }
}

/// Enters or leaves fullscreen.
pub fn set_fullscreen(controls: bool, on: bool) -> (r: Option<ToplevelRequest>)
    ensures
        r == if !controls {
            None
        } else if on {
            Some(ToplevelRequest::SetFullscreen)
        } else {
            Some(ToplevelRequest::UnsetFullscreen)
        },
{
    if !controls {
        None
    } else if on {
        Some(ToplevelRequest::SetFullscreen)
    } else {
        Some(ToplevelRequest::UnsetFullscreen)
    }
}

/// Maximizes the window or restores it.
pub fn set_maximized(controls: bool, on: bool) -> (r: Option<ToplevelRequest>)
    ensures
        r == if !controls {
            None
        } else if on {
            Some(ToplevelRequest::SetMaximized)
        } else {
            Some(ToplevelRequest::UnsetMaximized)
        },
{
    if !controls {
        None
    } else if on {
        Some(ToplevelRequest::SetMaximized)
    } else {
        Some(ToplevelRequest::UnsetMaximized)
    }
}

/// Minimizes the window.
pub fn set_minimized(controls: bool) -> (r: Option<ToplevelRequest>)
    ensures
        r == if controls {
            Some(ToplevelRequest::SetMinimized)
        } else {
            None
        },
{
    if controls {
        Some(ToplevelRequest::SetMinimized)
    } else {
        None
    }
}

/// The globals that a compositor offers for the root window.
#[derive(Clone, Copy, Debug, PartialEq, Eq, Structural)]
pub struct RootGlobals {
    pub registry: bool,
    pub compositor: bool,
    pub shm: bool,
    pub viewporter: bool,
    pub wm_base: bool,
    pub fractional_scale: bool,
    pub decoration: bool,
    pub palette: bool,
}

/// Why the root window could not be started.
#[derive(Clone, Copy, Debug, PartialEq, Eq, Structural)]
pub enum StartError {
    Registry,
    Compositor,
    Shm,
    WmBase,
}

/// What sets the root window up, in order.
#[derive(Clone, Copy, Debug, PartialEq, Eq, Structural)]
pub enum StartRequest {
    CreateSurface,
    /// Publish the surface for the overlay's layers.
    PublishSurface,
    GetXdgSurface,
    GetToplevel,
    SetTitle,
    SetAppId,
    SetMaximized,
    GetViewport,
    GetFractionalScale,
    /// Feed a scale, in parts of 120.
    FeedScale(i32),
    /// Ask for decorations: the client's where true, else the server's.
    SetDecorationMode { client_side: bool },
    CreatePalette,
    /// Publish what popups are made with.
    PublishPopupShell,
    /// Publish the window controls.
    PublishControls,
    Commit,
    Flush,
}

/// What stands in the way of starting the root window, the first reason
/// first.
pub open spec fn start_error(g: RootGlobals) -> Option<StartError> {
    if !g.registry {
        Some(StartError::Registry)
    } else if !g.compositor {
        Some(StartError::Compositor)
    } else if !g.shm {
        Some(StartError::Shm)
    } else if !g.wm_base {
        Some(StartError::WmBase)
    } else {
        None
    }
}

/// A request where a condition holds, and none otherwise.
pub open spec fn start_when(condition: bool, request: StartRequest) -> Seq<StartRequest> {
    if condition {
        seq![request]
    } else {
        Seq::empty()
    }
}

fn push_when(out: &mut Vec<StartRequest>, condition: bool, request: StartRequest)
    ensures
        final(out)@ == old(out)@ + start_when(condition, request),
{
    if condition {
        out.push(request);
    }
    assert(out@ =~= old(out)@ + start_when(condition, request));
}

/// What sets the root window up. Without fractional scaling no scale will
/// ever arrive, so one is fed at once. The last commit elicits the first
/// configure.
pub open spec fn start_requests(g: RootGlobals, boot: BootConfig) -> Seq<StartRequest> {
    seq![
        StartRequest::CreateSurface,
        StartRequest::PublishSurface,
        StartRequest::GetXdgSurface,
        StartRequest::GetToplevel,
        StartRequest::SetTitle,
        StartRequest::SetAppId,
    ] + start_when(boot.maximized, StartRequest::SetMaximized) + start_when(
        g.viewporter,
        StartRequest::GetViewport,
    ) + seq![
        if g.fractional_scale {
            StartRequest::GetFractionalScale
        } else {
            StartRequest::FeedScale(SCALE_ONE)
        },
    ] + start_when(
        g.decoration,
        StartRequest::SetDecorationMode { client_side: boot.deco_mode == DECO_CSD },
    ) + start_when(g.palette, StartRequest::CreatePalette) + seq![
        StartRequest::PublishPopupShell,
        StartRequest::PublishControls,
        StartRequest::Commit,
        StartRequest::Flush,
    ]
}

/// What starting the root window comes down to.
#[derive(Debug)]
pub struct RootStart {
    pub requests: Vec<StartRequest>,
    pub state: RootState,
}

/// Whether the root window is to be started now.
pub open spec fn starts_now(started: bool, has_display: bool) -> bool {
    !started && has_display
}

/// Whether it was started, after that was asked.
pub open spec fn started_after(started: bool, has_display: bool) -> bool {
    started || has_display
}

/// Whether the root window is to be started now: once only, and not before
/// there is a display.
pub fn ensure_started(started: &mut bool, has_display: bool) -> (r: bool)
    ensures
        r == starts_now(*old(started), has_display),
        *final(started) == started_after(*old(started), has_display),
{
    if *started {
        return false;
    }
    if !has_display {
        return false;
    }
    *started = true;
    true
}

/// The root window is started with the first display there is, and never
/// again.
pub proof fn law_root_starts_once(started: bool, has_display: bool)
    ensures
        starts_now(false, true),
        !starts_now(false, false) && !started_after(false, false),
        !starts_now(started_after(started, true), has_display),
{
}

/// A display that comes late still starts the root window: asked for before the
/// descriptor is there, it starts nothing and settles nothing; asked for again
/// once a connection on the descriptor works, the window starts.
pub proof fn law_late_display_starts_root(early_fd: i32, fd: i32, display: usize)
    requires
        early_fd < 0,
        fd >= 0,
        display != 0,
    ensures
        mpv_host::display_step(AppDisplay::Unknown, early_fd, true) == DisplayStep::Use(0),
        !starts_now(false, false),
        mpv_host::display_step(AppDisplay::Unknown, fd, true) == DisplayStep::Connect(fd),
        mpv_host::display_step(
            mpv_host::after_connect(AppDisplay::Unknown, display),
            fd,
            true,
        ) == DisplayStep::Use(display),
        starts_now(started_after(false, false), true),
{
}

/// Sets the root window up on a compositor with these globals. `packed` is
/// the background colour that was set, if any.
pub fn start_root(g: RootGlobals, boot: &BootConfig, packed: u32) -> (r: Result<
    RootStart,
    StartError,
>)
    ensures
        match start_error(g) {
            Some(e) => r == Err::<RootStart, StartError>(e),
            None => r matches Ok(s) && s.requests@ == start_requests(g, *boot) && s.state
                == first_state(*boot, g.viewporter, unpacked_color(packed)),
        },
{
    if !g.registry {
        return Err(StartError::Registry);
    }
    if !g.compositor {
        return Err(StartError::Compositor);
    }
    if !g.shm {
        return Err(StartError::Shm);
    }
    if !g.wm_base {
        return Err(StartError::WmBase);
    }
    let mut out: Vec<StartRequest> = Vec::new();
    out.push(StartRequest::CreateSurface);
    out.push(StartRequest::PublishSurface);
    out.push(StartRequest::GetXdgSurface);
    out.push(StartRequest::GetToplevel);
    out.push(StartRequest::SetTitle);
    out.push(StartRequest::SetAppId);
    assert(out@ =~= seq![
        StartRequest::CreateSurface,
        StartRequest::PublishSurface,
        StartRequest::GetXdgSurface,
        StartRequest::GetToplevel,
        StartRequest::SetTitle,
        StartRequest::SetAppId,
    ]);
    push_when(&mut out, boot.maximized, StartRequest::SetMaximized);
    push_when(&mut out, g.viewporter, StartRequest::GetViewport);
    let scale = if g.fractional_scale {
        StartRequest::GetFractionalScale
    } else {
        StartRequest::FeedScale(SCALE_ONE)
    };
    push_when(&mut out, true, scale);
    let client_side = boot.deco_mode == DECO_CSD;
    push_when(&mut out, g.decoration, StartRequest::SetDecorationMode { client_side });
    push_when(&mut out, g.palette, StartRequest::CreatePalette);
    let ghost so_far = out@;
    out.push(StartRequest::PublishPopupShell);
    out.push(StartRequest::PublishControls);
    out.push(StartRequest::Commit);
    out.push(StartRequest::Flush);
    assert(out@ =~= so_far + seq![
        StartRequest::PublishPopupShell,
        StartRequest::PublishControls,
        StartRequest::Commit,
        StartRequest::Flush,
    ]);
    assert(out@ == start_requests(g, *boot));
    let state = RootState::new(boot, g.viewporter, pending_bg(packed));
    Ok(RootStart { requests: out, state })
}

/// What becomes of the wake-up descriptor and the thread that owns the root.
#[derive(Clone, Copy, Debug, PartialEq, Eq, Structural)]
pub enum ThreadStart {
    /// There is no descriptor: give up.
    NoDescriptor,
    /// The thread did not start: close the descriptor.
    CloseDescriptor,
    /// The thread runs: keep its handle.
    Running,
}

/// What becomes of the thread that owns the root.
pub fn thread_started(wake_fd: i32, spawned: bool) -> (r: ThreadStart)
    ensures
        r == if wake_fd < 0 {
            ThreadStart::NoDescriptor
        } else if spawned {
            ThreadStart::Running
        } else {
            ThreadStart::CloseDescriptor
        },
{
    if wake_fd < 0 {
        ThreadStart::NoDescriptor
    } else if spawned {
        ThreadStart::Running
    } else {
        ThreadStart::CloseDescriptor
    }
}

/// The setup ends in the commit that elicits the first configure.
pub proof fn law_start_ends_in_commit(g: RootGlobals, boot: BootConfig)
    ensures
        start_error(g) is None ==> start_requests(g, boot).last() == StartRequest::Flush
            && start_requests(g, boot)[start_requests(g, boot).len() - 2] == StartRequest::Commit,
{
}

} // verus!
