//! The window as the compositor reports it: size, scale, maximized and
//! fullscreen state.
use crate::bits;
use crate::bits::{positive_f32, positive_scale, ONE_F32};
use crate::platform_abi::PhysicalSize;
use vstd::prelude::*;

verus! {

/// A logical window size. Both extents are positive.
#[derive(Clone, Copy, Debug, PartialEq, Eq, Structural)]
pub struct WindowSize {
    pub w: i32,
    pub h: i32,
}

impl WindowSize {
    /// The size, where both extents are positive.
    pub fn new(w: i32, h: i32) -> (r: Option<Self>)
        ensures
            r == size_if_positive(w, h),
    {
        if w > 0 && h > 0 {
            Some(WindowSize { w, h })
        } else {
            None
        }
    }
}

/// The size, where both extents are positive.
pub open spec fn size_if_positive(w: i32, h: i32) -> Option<WindowSize> {
    if w > 0 && h > 0 {
        Some(WindowSize { w, h })
    } else {
        None
    }
}

/// Two extents in one word, so that both are read at once.
pub open spec fn packed_size(w: i32, h: i32) -> u64 {
    ((w as u32 as u64) << 32) | (h as u32 as u64)
}

/// Packs two extents into one word.
pub fn pack_size(w: i32, h: i32) -> (r: u64)
    ensures
        r == packed_size(w, h),
{
    ((w as u32 as u64) << 32) | (h as u32 as u64)
}

/// The two extents in a word.
pub open spec fn unpacked_size(packed: u64) -> (i32, i32) {
    (((packed >> 32) as u32) as i32, (packed as u32) as i32)
}

/// Takes the two extents out of a word.
pub fn unpack_size(packed: u64) -> (r: (i32, i32))
    ensures
        r == unpacked_size(packed),
{
    (((packed >> 32) as u32) as i32, (packed as u32) as i32)
}

/// Unpacking gives back what was packed, and only two zero extents pack to
/// zero, the word that stands for an unknown size.
pub proof fn law_unpack_inverts_pack(w: i32, h: i32)
    ensures
        unpacked_size(packed_size(w, h)) == (w, h),
        packed_size(w, h) == 0 <==> w == 0 && h == 0,
{
    let p = packed_size(w, h);
    assert(((p >> 32) as u32) as i32 == w && (p as u32) as i32 == h && (p == 0 <==> w == 0 && h
        == 0)) by (bit_vector)
        requires
            p == ((w as u32 as u64) << 32) | (h as u32 as u64),
    ;
}

/// The window state. A zero word or scale stands for an unknown one.
#[derive(Clone, Copy, Debug, PartialEq, Eq, Structural)]
pub struct WlWindowState {
    /// Bit pattern of the single-precision scale.
    pub scale_bits: u32,
    /// Size in device pixels.
    pub size: u64,
    /// Logical size, which every surface mirrors.
    pub logical: u64,
    pub maximized: bool,
    pub fullscreen: bool,
}

/// Nothing is known of the window yet.
pub open spec fn unknown_window() -> WlWindowState {
    WlWindowState { scale_bits: 0, size: 0, logical: 0, maximized: false, fullscreen: false }
}

impl Default for WlWindowState {
    fn default() -> (r: Self)
        ensures
            r == unknown_window(),
    {
        WlWindowState { scale_bits: 0, size: 0, logical: 0, maximized: false, fullscreen: false }
    }
}

/// The logical size, once it is known.
pub open spec fn logical_size(st: WlWindowState) -> Option<WindowSize> {
    size_if_positive(unpacked_size(st.logical).0, unpacked_size(st.logical).1)
}

/// The logical size that every surface mirrors; none before the first
/// configure.
pub fn window_logical_size(st: &WlWindowState) -> (r: Option<WindowSize>)
    ensures
        r == logical_size(*st),
{
    let (w, h) = unpack_size(st.logical);
    WindowSize::new(w, h)
}

/// Whether the scale is known.
pub fn jfn_wl_scale_known(st: &WlWindowState) -> (r: bool)
    ensures
        r == bits::is_positive_f32(st.scale_bits),
{
    positive_f32(st.scale_bits)
}

/// The bit pattern of the scale, one where it is unknown.
pub fn jfn_wl_get_cached_scale(st: &WlWindowState) -> (r: u32)
    ensures
        r == bits::scale_or_one(st.scale_bits),
{
    positive_scale(st.scale_bits)
}

/// Whether the size in device pixels is known.
pub fn jfn_wl_window_size_known(st: &WlWindowState) -> (r: bool)
    ensures
        r == (st.size != 0),
{
    st.size != 0
}

/// The size in device pixels, zeros where it is unknown.
pub fn jfn_wl_window_size(st: &WlWindowState) -> (r: (i32, i32))
    ensures
        r == unpacked_size(st.size),
{
    unpack_size(st.size)
}

/// Whether the window is maximized.
pub fn jfn_wl_window_maximized(st: &WlWindowState) -> (r: bool)
    ensures
        r == st.maximized,
{
    st.maximized
}

/// Whether the window is fullscreen.
pub fn jfn_wl_window_fullscreen(st: &WlWindowState) -> (r: bool)
    ensures
        r == st.fullscreen,
{
    st.fullscreen
}

/// What follows a configure that was taken in, in this order: the maximize
/// button is told the state, the surfaces are configured where there are any,
/// the player is posted the size with this scale, and it is woken.
#[derive(Clone, Copy, Debug, PartialEq, Eq, Structural)]
pub struct Configured {
    pub maximized: bool,
    pub configure_surfaces: bool,
    pub fullscreen: bool,
    pub osd_w: i32,
    pub osd_h: i32,
    /// Bit pattern of the single-precision scale.
    pub osd_scale_bits: u32,
}

/// Whether a configure carries a usable size.
pub open spec fn is_configure(lw: i32, lh: i32, pw: i32, ph: i32) -> bool {
    lw > 0 && lh > 0 && pw > 0 && ph > 0
}

/// The window state after a configure.
pub open spec fn configured(
    st: WlWindowState,
    lw: i32,
    lh: i32,
    pw: i32,
    ph: i32,
    fullscreen: bool,
    maximized: bool,
) -> WlWindowState {
    WlWindowState {
        scale_bits: st.scale_bits,
        size: packed_size(pw, ph),
        logical: packed_size(lw, lh),
        maximized,
        fullscreen,
    }
}

/// Takes in a configure of the toplevel. One without a usable size changes
/// nothing. `surfaces_ready` says whether there are surfaces to configure;
/// before that the player is told a scale of one.
pub fn on_configure(
    st: &mut WlWindowState,
    logical_w: i32,
    logical_h: i32,
    physical_w: i32,
    physical_h: i32,
    fullscreen: bool,
    maximized: bool,
    surfaces_ready: bool,
) -> (r: Option<Configured>)
    ensures
        !is_configure(logical_w, logical_h, physical_w, physical_h) ==> r is None && *final(st)
            == *old(st),
        is_configure(logical_w, logical_h, physical_w, physical_h) ==> {
            &&& *final(st) == configured(
                *old(st),
                logical_w,
                logical_h,
                physical_w,
                physical_h,
                fullscreen,
                maximized,
            )
            &&& r == Some(
                (Configured {
                    maximized,
                    configure_surfaces: surfaces_ready,
                    fullscreen,
                    osd_w: physical_w,
                    osd_h: physical_h,
                    osd_scale_bits: if surfaces_ready {
                        bits::scale_or_one(old(st).scale_bits)
                    } else {
                        ONE_F32
                    },
                }),
            )
        },
{
    if logical_w <= 0 || logical_h <= 0 || physical_w <= 0 || physical_h <= 0 {
        return None;
    }
    st.logical = pack_size(logical_w, logical_h);
    st.size = pack_size(physical_w, physical_h);
    st.maximized = maximized;
    st.fullscreen = fullscreen;
    let osd_scale_bits = if surfaces_ready {
        positive_scale(st.scale_bits)
    } else {
        ONE_F32
    };
    Some(
        Configured {
            maximized,
            configure_surfaces: surfaces_ready,
            fullscreen,
            osd_w: physical_w,
            osd_h: physical_h,
            osd_scale_bits,
        },
    )
}

/// Before the first configure no size is known, and no scale.
pub proof fn law_nothing_is_known_at_first()
    ensures
        logical_size(unknown_window()) is None,
        unknown_window().size == 0,
        !bits::is_positive_f32(unknown_window().scale_bits),
{
    law_unpack_inverts_pack(0, 0);
}

/// After a configure was taken in, every reader sees exactly its sizes.
pub proof fn law_configure_is_seen(
    st: WlWindowState,
    lw: i32,
    lh: i32,
    pw: i32,
    ph: i32,
    fullscreen: bool,
    maximized: bool,
)
    requires
        is_configure(lw, lh, pw, ph),
    ensures
        ({
            let now = configured(st, lw, lh, pw, ph, fullscreen, maximized);
            &&& logical_size(now) == Some(WindowSize { w: lw, h: lh })
            &&& unpacked_size(now.size) == (pw, ph)
            &&& now.size != 0
        }),
{
    law_unpack_inverts_pack(lw, lh);
    law_unpack_inverts_pack(pw, ph);
}

/// The window after a preferred scale was reported.
pub open spec fn fed(st: WlWindowState, scale_120: i32, scale_bits: u32) -> WlWindowState {
    if scale_120 > 0 {
        WlWindowState { scale_bits, ..st }
    } else {
        st
    }
}

/// Takes in a preferred scale, in parts of 120. `scale_bits` is the pattern
/// of that fraction in single precision. A scale that is not positive is
/// dropped; else the player is to be woken, and the result says whether this
/// is the first scale known.
pub fn feed_scale(st: &mut WlWindowState, scale_120: i32, scale_bits: u32) -> (r: Option<bool>)
    ensures
        *final(st) == fed(*old(st), scale_120, scale_bits),
        r == if scale_120 > 0 {
            Some(!bits::is_positive_f32(old(st).scale_bits))
        } else {
            None
        },
{
    if scale_120 > 0 {
        let first = !positive_f32(st.scale_bits);
        st.scale_bits = scale_bits;
        Some(first)
    } else {
        None
    }
}

/// Whether these are reports of scales: each in parts of 120, with the pattern
/// of that fraction, which is positive where the scale is.
pub open spec fn are_reports(reports: Seq<(i32, u32)>) -> bool {
    forall|i: int|
        #![trigger reports[i]]
        0 <= i < reports.len() && reports[i].0 > 0 ==> bits::is_positive_f32(reports[i].1)
}

/// The window after a run of reports, the first of them first.
pub open spec fn fed_all(st: WlWindowState, reports: Seq<(i32, u32)>) -> WlWindowState
    decreases reports.len(),
{
    if reports.len() == 0 {
        st
    } else {
        let last = reports.last();
        fed(fed_all(st, reports.drop_last()), last.0, last.1)
    }
}

/// The last positive scale among some reports.
pub open spec fn last_scale(reports: Seq<(i32, u32)>) -> Option<u32>
    decreases reports.len(),
{
    if reports.len() == 0 {
        None
    } else if reports.last().0 > 0 {
        Some(reports.last().1)
    } else {
        last_scale(reports.drop_last())
    }
}

/// Whether some report is of a positive scale.
pub open spec fn reports_scale(reports: Seq<(i32, u32)>) -> bool {
    exists|i: int| 0 <= i < reports.len() && (#[trigger] reports[i]).0 > 0
}

/// After any run of reports the scale is known exactly where one of them was
/// positive. What is read as the scale is the last positive one, one where
/// there was none, and so always positive. Nothing else of the window moves.
pub proof fn law_last_scale_is_read(reports: Seq<(i32, u32)>)
    requires
        are_reports(reports),
    ensures
        ({
            let now = fed_all(unknown_window(), reports);
            &&& bits::is_positive_f32(now.scale_bits) == reports_scale(reports)
            &&& last_scale(reports) is Some == reports_scale(reports)
            &&& bits::scale_or_one(now.scale_bits) == match last_scale(reports) {
                Some(b) => b,
                None => ONE_F32,
            }
            &&& bits::is_positive_f32(bits::scale_or_one(now.scale_bits))
            &&& now == (WlWindowState { scale_bits: now.scale_bits, ..unknown_window() })
        }),
    decreases reports.len(),
{
    if reports.len() > 0 {
        let before = reports.drop_last();
        let last = reports[reports.len() - 1];
        assert forall|i: int|
            #![trigger before[i]]
            0 <= i < before.len() && before[i].0 > 0 implies bits::is_positive_f32(
            before[i].1,
        ) by {
            assert(before[i] == reports[i]);
        }
        law_last_scale_is_read(before);
        if last.0 > 0 {
            assert(reports_scale(reports));
        } else {
            if reports_scale(before) {
                let i = choose|i: int| 0 <= i < before.len() && (#[trigger] before[i]).0 > 0;
                assert(reports[i].0 > 0);
            }
            if reports_scale(reports) {
                let i = choose|i: int| 0 <= i < reports.len() && (#[trigger] reports[i]).0 > 0;
                assert(before[i].0 > 0);
            }
        }
    }
}

/// Once the scale is known it stays known, whatever is reported, and a report
/// that is not positive changes nothing that is read.
pub proof fn law_known_scale_stays(st: WlWindowState, scale_120: i32, scale_bits: u32)
    requires
        scale_120 > 0 ==> bits::is_positive_f32(scale_bits),
    ensures
        bits::is_positive_f32(st.scale_bits) ==> bits::is_positive_f32(
            fed(st, scale_120, scale_bits).scale_bits,
        ),
        scale_120 > 0 ==> bits::is_positive_f32(fed(st, scale_120, scale_bits).scale_bits)
            && bits::scale_or_one(fed(st, scale_120, scale_bits).scale_bits) == scale_bits,
        scale_120 <= 0 ==> fed(st, scale_120, scale_bits) == st,
{
}

/// The window's visibility, from whether it is suspended.
pub fn feed_suspended(suspended: bool) -> (visible: bool)
    ensures
        visible == !suspended,
{
    !suspended
}

/// The window's geometry as the rest of the application reads it, taken from
/// the compositor's reports.
#[derive(Clone, Copy, Debug, PartialEq, Eq, Structural)]
pub struct WaylandWindowSource;

impl WaylandWindowSource {
    /// The size in device pixels, once it is known.
    pub fn size(&self, st: &WlWindowState) -> (r: Option<PhysicalSize>)
        ensures
            r == if st.size == 0 {
                None
            } else {
                Some(
                    PhysicalSize { w: unpacked_size(st.size).0, h: unpacked_size(st.size).1 },
                )
            },
    {
        if jfn_wl_window_size_known(st) {
            let (w, h) = jfn_wl_window_size(st);
            Some(PhysicalSize { w, h })
        } else {
            None
        }
    }

    /// Whether the window is maximized.
    pub fn maximized(&self, st: &WlWindowState) -> (r: bool)
        ensures
            r == st.maximized,
    {
        jfn_wl_window_maximized(st)
    }

    /// Whether the window is fullscreen.
    pub fn fullscreen(&self, st: &WlWindowState) -> (r: bool)
        ensures
            r == st.fullscreen,
    {
        jfn_wl_window_fullscreen(st)
    }

    /// The window's position, which Wayland does not tell.
    pub fn position(&self) -> (r: Option<(i32, i32)>)
        ensures
            r is None,
    {
        None
    }

    /// The bit pattern of the scale, one where it is unknown.
    pub fn scale(&self, st: &WlWindowState) -> (r: u32)
        ensures
            r == bits::scale_or_one(st.scale_bits),
    {
        jfn_wl_get_cached_scale(st)
    }
}

} // verus!
