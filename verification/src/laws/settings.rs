//! The settings: each one under its own name, kept and found again.
use crate::config::device_name::normalize_device_name;
use crate::config::keys;
use crate::config::round_trip;
use crate::config::settings;
use crate::config::settings::{JfnWindowGeometry, Settings, SettingsData, Unresolved};
use crate::config::store;
use crate::config::store::{AsyncSave, Pending, State, WorkerStep};
use crate::json;
use crate::json::{JsonObject, Member};
use crate::platform_abi::WindowDecorations;
use vstd::prelude::*;

verus! {

/// What is set as the server's address is read back, and nothing else changes.
pub proof fn law_server_url_is_read_back(st: &mut State, v: &str, r: String)
    requires
        call_ensures(store::set_server_url, (st, v), ()),
        call_ensures(store::server_url, (&*final(st),), r),
    ensures
        r@ == v@,
        final(st).path == old(st).path,
        final(st).data@.hwdec == old(st).data@.hwdec,
        final(st).data@.audio_passthrough == old(st).data@.audio_passthrough,
        final(st).data@.audio_channels == old(st).data@.audio_channels,
        final(st).data@.log_level == old(st).data@.log_level,
        final(st).data@.device_name == old(st).data@.device_name,
        final(st).data@.window == old(st).data@.window,
        final(st).data@.audio_exclusive == old(st).data@.audio_exclusive,
        final(st).data@.disable_gpu_compositing == old(st).data@.disable_gpu_compositing,
        final(st).data@.transparent_titlebar == old(st).data@.transparent_titlebar,
        final(st).data@.force_transcoding == old(st).data@.force_transcoding,
        final(st).data@.window_decorations == old(st).data@.window_decorations,
        final(st).data@.hide_scrollbar == old(st).data@.hide_scrollbar,
{
}

/// What is set as the decoding mode is read back, and nothing else changes.
pub proof fn law_hwdec_is_read_back(st: &mut State, v: &str, r: String)
    requires
        call_ensures(store::set_hwdec, (st, v), ()),
        call_ensures(store::hwdec, (&*final(st),), r),
    ensures
        r@ == v@,
        final(st).path == old(st).path,
        final(st).data@.server_url == old(st).data@.server_url,
        final(st).data@.audio_passthrough == old(st).data@.audio_passthrough,
        final(st).data@.audio_channels == old(st).data@.audio_channels,
        final(st).data@.log_level == old(st).data@.log_level,
        final(st).data@.device_name == old(st).data@.device_name,
        final(st).data@.window == old(st).data@.window,
        final(st).data@.audio_exclusive == old(st).data@.audio_exclusive,
        final(st).data@.disable_gpu_compositing == old(st).data@.disable_gpu_compositing,
        final(st).data@.transparent_titlebar == old(st).data@.transparent_titlebar,
        final(st).data@.force_transcoding == old(st).data@.force_transcoding,
        final(st).data@.window_decorations == old(st).data@.window_decorations,
        final(st).data@.hide_scrollbar == old(st).data@.hide_scrollbar,
{
}

/// What is set as the codecs to pass through is read back, and nothing else changes.
pub proof fn law_audio_passthrough_is_read_back(st: &mut State, v: &str, r: String)
    requires
        call_ensures(store::set_audio_passthrough, (st, v), ()),
        call_ensures(store::audio_passthrough, (&*final(st),), r),
    ensures
        r@ == v@,
        final(st).path == old(st).path,
        final(st).data@.server_url == old(st).data@.server_url,
        final(st).data@.hwdec == old(st).data@.hwdec,
        final(st).data@.audio_channels == old(st).data@.audio_channels,
        final(st).data@.log_level == old(st).data@.log_level,
        final(st).data@.device_name == old(st).data@.device_name,
        final(st).data@.window == old(st).data@.window,
        final(st).data@.audio_exclusive == old(st).data@.audio_exclusive,
        final(st).data@.disable_gpu_compositing == old(st).data@.disable_gpu_compositing,
        final(st).data@.transparent_titlebar == old(st).data@.transparent_titlebar,
        final(st).data@.force_transcoding == old(st).data@.force_transcoding,
        final(st).data@.window_decorations == old(st).data@.window_decorations,
        final(st).data@.hide_scrollbar == old(st).data@.hide_scrollbar,
{
}

/// What is set as the channel layout is read back, and nothing else changes.
pub proof fn law_audio_channels_is_read_back(st: &mut State, v: &str, r: String)
    requires
        call_ensures(store::set_audio_channels, (st, v), ()),
        call_ensures(store::audio_channels, (&*final(st),), r),
    ensures
        r@ == v@,
        final(st).path == old(st).path,
        final(st).data@.server_url == old(st).data@.server_url,
        final(st).data@.hwdec == old(st).data@.hwdec,
        final(st).data@.audio_passthrough == old(st).data@.audio_passthrough,
        final(st).data@.log_level == old(st).data@.log_level,
        final(st).data@.device_name == old(st).data@.device_name,
        final(st).data@.window == old(st).data@.window,
        final(st).data@.audio_exclusive == old(st).data@.audio_exclusive,
        final(st).data@.disable_gpu_compositing == old(st).data@.disable_gpu_compositing,
        final(st).data@.transparent_titlebar == old(st).data@.transparent_titlebar,
        final(st).data@.force_transcoding == old(st).data@.force_transcoding,
        final(st).data@.window_decorations == old(st).data@.window_decorations,
        final(st).data@.hide_scrollbar == old(st).data@.hide_scrollbar,
{
}

/// What is set as the log level is read back, and nothing else changes.
pub proof fn law_log_level_is_read_back(st: &mut State, v: &str, r: String)
    requires
        call_ensures(store::set_log_level, (st, v), ()),
        call_ensures(store::log_level, (&*final(st),), r),
    ensures
        r@ == v@,
        final(st).path == old(st).path,
        final(st).data@.server_url == old(st).data@.server_url,
        final(st).data@.hwdec == old(st).data@.hwdec,
        final(st).data@.audio_passthrough == old(st).data@.audio_passthrough,
        final(st).data@.audio_channels == old(st).data@.audio_channels,
        final(st).data@.device_name == old(st).data@.device_name,
        final(st).data@.window == old(st).data@.window,
        final(st).data@.audio_exclusive == old(st).data@.audio_exclusive,
        final(st).data@.disable_gpu_compositing == old(st).data@.disable_gpu_compositing,
        final(st).data@.transparent_titlebar == old(st).data@.transparent_titlebar,
        final(st).data@.force_transcoding == old(st).data@.force_transcoding,
        final(st).data@.window_decorations == old(st).data@.window_decorations,
        final(st).data@.hide_scrollbar == old(st).data@.hide_scrollbar,
{
}

/// What is set for whether audio output is exclusive is read back, and nothing else changes.
pub proof fn law_audio_exclusive_is_read_back(st: &mut State, v: bool, r: bool)
    requires
        call_ensures(store::set_audio_exclusive, (st, v), ()),
        call_ensures(store::audio_exclusive, (&*final(st),), r),
    ensures
        r == v,
        final(st).path == old(st).path,
        final(st).data@.server_url == old(st).data@.server_url,
        final(st).data@.hwdec == old(st).data@.hwdec,
        final(st).data@.audio_passthrough == old(st).data@.audio_passthrough,
        final(st).data@.audio_channels == old(st).data@.audio_channels,
        final(st).data@.log_level == old(st).data@.log_level,
        final(st).data@.device_name == old(st).data@.device_name,
        final(st).data@.window == old(st).data@.window,
        final(st).data@.disable_gpu_compositing == old(st).data@.disable_gpu_compositing,
        final(st).data@.transparent_titlebar == old(st).data@.transparent_titlebar,
        final(st).data@.force_transcoding == old(st).data@.force_transcoding,
        final(st).data@.window_decorations == old(st).data@.window_decorations,
        final(st).data@.hide_scrollbar == old(st).data@.hide_scrollbar,
{
}

/// What is set for whether the browser composites without the GPU is read back, and nothing else changes.
pub proof fn law_disable_gpu_compositing_is_read_back(st: &mut State, v: bool, r: bool)
    requires
        call_ensures(store::set_disable_gpu_compositing, (st, v), ()),
        call_ensures(store::disable_gpu_compositing, (&*final(st),), r),
    ensures
        r == v,
        final(st).path == old(st).path,
        final(st).data@.server_url == old(st).data@.server_url,
        final(st).data@.hwdec == old(st).data@.hwdec,
        final(st).data@.audio_passthrough == old(st).data@.audio_passthrough,
        final(st).data@.audio_channels == old(st).data@.audio_channels,
        final(st).data@.log_level == old(st).data@.log_level,
        final(st).data@.device_name == old(st).data@.device_name,
        final(st).data@.window == old(st).data@.window,
        final(st).data@.audio_exclusive == old(st).data@.audio_exclusive,
        final(st).data@.transparent_titlebar == old(st).data@.transparent_titlebar,
        final(st).data@.force_transcoding == old(st).data@.force_transcoding,
        final(st).data@.window_decorations == old(st).data@.window_decorations,
        final(st).data@.hide_scrollbar == old(st).data@.hide_scrollbar,
{
}

/// What is set for whether the title bar is transparent is read back, and nothing else changes.
pub proof fn law_transparent_titlebar_is_read_back(st: &mut State, v: bool, r: bool)
    requires
        call_ensures(store::set_transparent_titlebar, (st, v), ()),
        call_ensures(store::transparent_titlebar, (&*final(st),), r),
    ensures
        r == v,
        final(st).path == old(st).path,
        final(st).data@.server_url == old(st).data@.server_url,
        final(st).data@.hwdec == old(st).data@.hwdec,
        final(st).data@.audio_passthrough == old(st).data@.audio_passthrough,
        final(st).data@.audio_channels == old(st).data@.audio_channels,
        final(st).data@.log_level == old(st).data@.log_level,
        final(st).data@.device_name == old(st).data@.device_name,
        final(st).data@.window == old(st).data@.window,
        final(st).data@.audio_exclusive == old(st).data@.audio_exclusive,
        final(st).data@.disable_gpu_compositing == old(st).data@.disable_gpu_compositing,
        final(st).data@.force_transcoding == old(st).data@.force_transcoding,
        final(st).data@.window_decorations == old(st).data@.window_decorations,
        final(st).data@.hide_scrollbar == old(st).data@.hide_scrollbar,
{
}

/// What is set for whether the server always transcodes is read back, and nothing else changes.
pub proof fn law_force_transcoding_is_read_back(st: &mut State, v: bool, r: bool)
    requires
        call_ensures(store::set_force_transcoding, (st, v), ()),
        call_ensures(store::force_transcoding, (&*final(st),), r),
    ensures
        r == v,
        final(st).path == old(st).path,
        final(st).data@.server_url == old(st).data@.server_url,
        final(st).data@.hwdec == old(st).data@.hwdec,
        final(st).data@.audio_passthrough == old(st).data@.audio_passthrough,
        final(st).data@.audio_channels == old(st).data@.audio_channels,
        final(st).data@.log_level == old(st).data@.log_level,
        final(st).data@.device_name == old(st).data@.device_name,
        final(st).data@.window == old(st).data@.window,
        final(st).data@.audio_exclusive == old(st).data@.audio_exclusive,
        final(st).data@.disable_gpu_compositing == old(st).data@.disable_gpu_compositing,
        final(st).data@.transparent_titlebar == old(st).data@.transparent_titlebar,
        final(st).data@.window_decorations == old(st).data@.window_decorations,
        final(st).data@.hide_scrollbar == old(st).data@.hide_scrollbar,
{
}

/// What is set for whether the scrollbar is hidden is read back, and nothing else changes.
pub proof fn law_hide_scrollbar_is_read_back(st: &mut State, v: bool, r: bool)
    requires
        call_ensures(store::set_hide_scrollbar, (st, v), ()),
        call_ensures(store::hide_scrollbar, (&*final(st),), r),
    ensures
        r == v,
        final(st).path == old(st).path,
        final(st).data@.server_url == old(st).data@.server_url,
        final(st).data@.hwdec == old(st).data@.hwdec,
        final(st).data@.audio_passthrough == old(st).data@.audio_passthrough,
        final(st).data@.audio_channels == old(st).data@.audio_channels,
        final(st).data@.log_level == old(st).data@.log_level,
        final(st).data@.device_name == old(st).data@.device_name,
        final(st).data@.window == old(st).data@.window,
        final(st).data@.audio_exclusive == old(st).data@.audio_exclusive,
        final(st).data@.disable_gpu_compositing == old(st).data@.disable_gpu_compositing,
        final(st).data@.transparent_titlebar == old(st).data@.transparent_titlebar,
        final(st).data@.force_transcoding == old(st).data@.force_transcoding,
        final(st).data@.window_decorations == old(st).data@.window_decorations,
{
}

/// The device name is kept as it is cleaned, and nothing else changes.
pub proof fn law_device_name_is_cleaned(
    st: &mut State,
    raw: &str,
    platform_default: &str,
    cleaned: String,
    r: String,
)
    requires
        call_ensures(store::set_device_name, (st, raw, platform_default), ()),
        call_ensures(normalize_device_name, (raw, platform_default), cleaned),
        call_ensures(store::device_name, (&*final(st),), r),
    ensures
        r@ == cleaned@,
        final(st).path == old(st).path,
        final(st).data@.server_url == old(st).data@.server_url,
        final(st).data@.hwdec == old(st).data@.hwdec,
        final(st).data@.audio_passthrough == old(st).data@.audio_passthrough,
        final(st).data@.audio_channels == old(st).data@.audio_channels,
        final(st).data@.log_level == old(st).data@.log_level,
        final(st).data@.window == old(st).data@.window,
        final(st).data@.audio_exclusive == old(st).data@.audio_exclusive,
        final(st).data@.disable_gpu_compositing == old(st).data@.disable_gpu_compositing,
        final(st).data@.transparent_titlebar == old(st).data@.transparent_titlebar,
        final(st).data@.force_transcoding == old(st).data@.force_transcoding,
        final(st).data@.window_decorations == old(st).data@.window_decorations,
        final(st).data@.hide_scrollbar == old(st).data@.hide_scrollbar,
{
}

/// The window placement that is set is read back, and nothing else changes.
pub proof fn law_window_placement_is_read_back(
    st: &mut State,
    g: JfnWindowGeometry,
    r: JfnWindowGeometry,
)
    requires
        call_ensures(store::set_window_geometry, (st, g), ()),
        call_ensures(store::window_geometry, (&*final(st),), r),
    ensures
        r == g,
        final(st).path == old(st).path,
        final(st).data@.server_url == old(st).data@.server_url,
        final(st).data@.hwdec == old(st).data@.hwdec,
        final(st).data@.audio_passthrough == old(st).data@.audio_passthrough,
        final(st).data@.audio_channels == old(st).data@.audio_channels,
        final(st).data@.log_level == old(st).data@.log_level,
        final(st).data@.device_name == old(st).data@.device_name,
        final(st).data@.audio_exclusive == old(st).data@.audio_exclusive,
        final(st).data@.disable_gpu_compositing == old(st).data@.disable_gpu_compositing,
        final(st).data@.transparent_titlebar == old(st).data@.transparent_titlebar,
        final(st).data@.force_transcoding == old(st).data@.force_transcoding,
        final(st).data@.window_decorations == old(st).data@.window_decorations,
        final(st).data@.hide_scrollbar == old(st).data@.hide_scrollbar,
{
}

/// The decorations that a name stands for are set, and what is in force is what
/// the platform makes of them. A name that stands for none changes nothing.
pub proof fn law_decorations_are_set<F: Fn(Option<WindowDecorations>) -> WindowDecorations>(
    st: &mut State,
    parsed: Option<WindowDecorations>,
    resolve: F,
    mode: WindowDecorations,
)
    requires
        forall|d: Option<WindowDecorations>| call_requires(resolve, (d,)),
        call_ensures(store::set_window_decorations, (st, parsed), ()),
        call_ensures(store::window_decorations_mode::<F>, (&*final(st), resolve), mode),
    ensures
        parsed is Some ==> final(st).data@.window_decorations == parsed && call_ensures(
            resolve,
            (parsed,),
            mode,
        ),
        parsed is None ==> final(st).data@ == old(st).data@ && call_ensures(
            resolve,
            (old(st).data@.window_decorations,),
            mode,
        ),
        final(st).path == old(st).path,
        final(st).data@.server_url == old(st).data@.server_url,
        final(st).data@.hwdec == old(st).data@.hwdec,
        final(st).data@.audio_passthrough == old(st).data@.audio_passthrough,
        final(st).data@.audio_channels == old(st).data@.audio_channels,
        final(st).data@.log_level == old(st).data@.log_level,
        final(st).data@.device_name == old(st).data@.device_name,
        final(st).data@.window == old(st).data@.window,
        final(st).data@.audio_exclusive == old(st).data@.audio_exclusive,
        final(st).data@.disable_gpu_compositing == old(st).data@.disable_gpu_compositing,
        final(st).data@.transparent_titlebar == old(st).data@.transparent_titlebar,
        final(st).data@.force_transcoding == old(st).data@.force_transcoding,
        final(st).data@.hide_scrollbar == old(st).data@.hide_scrollbar,
{
}

/// The member under a key, where there is one.
#[verifier::opaque]
pub open spec fn found(m: Map<Seq<char>, Member>, key: Seq<char>) -> Option<Member> {
    if m.contains_key(key) {
        Some(m[key])
    } else {
        None
    }
}

/// Every member of an object sets the setting of its key, in full; a key that
/// is missing leaves its setting as it is.
pub proof fn law_members_set_their_settings(d: &mut SettingsData, o: JsonObject, r: Unresolved)
    requires
        call_ensures(SettingsData::overlay_json, (d, &o), r),
    ensures
        found(json::json_members(o), "serverUrl"@) matches Some(Member::Text(s)) ==> final(d)@.server_url == s,
        found(json::json_members(o), "serverUrl"@) is None ==> final(d)@.server_url == old(d)@.server_url,
        found(json::json_members(o), "hwdec"@) matches Some(Member::Text(s)) ==> final(d)@.hwdec == s,
        found(json::json_members(o), "hwdec"@) is None ==> final(d)@.hwdec == old(d)@.hwdec,
        found(json::json_members(o), "audioPassthrough"@) matches Some(Member::Text(s)) ==> final(d)@.audio_passthrough == s,
        found(json::json_members(o), "audioPassthrough"@) is None ==> final(d)@.audio_passthrough == old(d)@.audio_passthrough,
        found(json::json_members(o), "audioChannels"@) matches Some(Member::Text(s)) ==> final(d)@.audio_channels == s,
        found(json::json_members(o), "audioChannels"@) is None ==> final(d)@.audio_channels == old(d)@.audio_channels,
        found(json::json_members(o), "logLevel"@) matches Some(Member::Text(s)) ==> final(d)@.log_level == s,
        found(json::json_members(o), "logLevel"@) is None ==> final(d)@.log_level == old(d)@.log_level,
        found(json::json_members(o), "audioExclusive"@) matches Some(Member::Flag(b)) ==> final(d)@.audio_exclusive == b,
        found(json::json_members(o), "audioExclusive"@) is None ==> final(d)@.audio_exclusive == old(d)@.audio_exclusive,
        found(json::json_members(o), "disableGpuCompositing"@) matches Some(Member::Flag(b)) ==> final(d)@.disable_gpu_compositing == b,
        found(json::json_members(o), "disableGpuCompositing"@) is None ==> final(d)@.disable_gpu_compositing == old(d)@.disable_gpu_compositing,
        found(json::json_members(o), "transparentTitlebar"@) matches Some(Member::Flag(b)) ==> final(d)@.transparent_titlebar == b,
        found(json::json_members(o), "transparentTitlebar"@) is None ==> final(d)@.transparent_titlebar == old(d)@.transparent_titlebar,
        found(json::json_members(o), "forceTranscoding"@) matches Some(Member::Flag(b)) ==> final(d)@.force_transcoding == b,
        found(json::json_members(o), "forceTranscoding"@) is None ==> final(d)@.force_transcoding == old(d)@.force_transcoding,
        found(json::json_members(o), "hideScrollbar"@) matches Some(Member::Flag(b)) ==> final(d)@.hide_scrollbar == b,
        found(json::json_members(o), "hideScrollbar"@) is None ==> final(d)@.hide_scrollbar == old(d)@.hide_scrollbar,
        found(json::json_members(o), "windowMaximized"@) matches Some(Member::Flag(b)) ==> final(d)@.window.maximized == b,
        found(json::json_members(o), "windowMaximized"@) is None ==> final(d)@.window.maximized == old(d)@.window.maximized,
        found(json::json_members(o), "windowX"@) matches Some(Member::Int(n)) ==> (i32::MIN <= n
            <= i32::MAX ==> final(d)@.window.x == n),
        found(json::json_members(o), "windowX"@) is None ==> final(d)@.window.x == old(d)@.window.x,
        found(json::json_members(o), "windowY"@) matches Some(Member::Int(n)) ==> (i32::MIN <= n
            <= i32::MAX ==> final(d)@.window.y == n),
        found(json::json_members(o), "windowY"@) is None ==> final(d)@.window.y == old(d)@.window.y,
        found(json::json_members(o), "windowWidth"@) matches Some(Member::Int(n)) ==> (i32::MIN <= n
            <= i32::MAX ==> final(d)@.window.width == n),
        found(json::json_members(o), "windowWidth"@) is None ==> final(d)@.window.width == old(d)@.window.width,
        found(json::json_members(o), "windowHeight"@) matches Some(Member::Int(n)) ==> (i32::MIN <= n
            <= i32::MAX ==> final(d)@.window.height == n),
        found(json::json_members(o), "windowHeight"@) is None ==> final(d)@.window.height == old(d)@.window.height,
        found(json::json_members(o), "windowLogicalWidth"@) matches Some(Member::Int(n)) ==> (i32::MIN <= n
            <= i32::MAX ==> final(d)@.window.logical_width == n),
        found(json::json_members(o), "windowLogicalWidth"@) is None ==> final(d)@.window.logical_width == old(d)@.window.logical_width,
        found(json::json_members(o), "windowLogicalHeight"@) matches Some(Member::Int(n)) ==> (i32::MIN <= n
            <= i32::MAX ==> final(d)@.window.logical_height == n),
        found(json::json_members(o), "windowLogicalHeight"@) is None ==> final(d)@.window.logical_height == old(d)@.window.logical_height,
        found(json::json_members(o), "deviceName"@) matches Some(Member::Text(s)) ==> {
            &&& s.len() <= 64 ==> final(d)@.device_name == s
            &&& s.len() > 64 ==> final(d)@.device_name == s.take(64)
        },
        found(json::json_members(o), "deviceName"@) is None ==> final(d)@.device_name
            == old(d)@.device_name,
        final(d)@.window_decorations == old(d)@.window_decorations,
        final(d)@.window.scale_bits == old(d)@.window.scale_bits,
        found(json::json_members(o), "windowDecorations"@) matches Some(Member::Text(s)) ==> (
        r.window_decorations matches Some(t) && t@ == s),
        found(json::json_members(o), "windowDecorations"@) is None ==> r.window_decorations is None,
        r.window_scale == json::real_at(json::json_reals(o), "windowScale"@),
{
    reveal(found);
}

proof fn lemma_found()
    ensures
        forall|key: Seq<char>| #[trigger] found(json::no_members(), key) is None,
        forall|m: Map<Seq<char>, Member>, present: bool, k: Seq<char>, value: Member, key: Seq<char>|
            #[trigger]
            found(settings::with_member(m, present, k, value), key) == if k == key && present {
                Some(value)
            } else {
                found(m, key)
            },
{
    reveal(found);
    reveal(settings::with_member);
}

/// A member where a condition holds.
pub open spec fn written(present: bool, value: Member) -> Option<Member> {
    if present {
        Some(value)
    } else {
        None
    }
}

/// Texts and flags are written under their keys exactly where they are not at
/// their default; the decoding mode also not where it is the one that counts as
/// unset.
pub proof fn law_settings_are_written_under_their_keys(
    d: SettingsData,
    scale_text: &str,
    decorations: &str,
    o: JsonObject,
)
    requires
        call_ensures(SettingsData::to_json, (&d, scale_text, decorations), o),
    ensures
        ({
            let m = json::json_members(o);
            let s = d@;
            &&& found(m, "serverUrl"@) == written(s.server_url.len() > 0, Member::Text(s.server_url))
            &&& found(m, "hwdec"@) == written(
                s.hwdec.len() > 0 && s.hwdec != "no"@,
                Member::Text(s.hwdec),
            )
            &&& found(m, "audioPassthrough"@) == written(
                s.audio_passthrough.len() > 0,
                Member::Text(s.audio_passthrough),
            )
            &&& found(m, "audioChannels"@) == written(
                s.audio_channels.len() > 0,
                Member::Text(s.audio_channels),
            )
            &&& found(m, "logLevel"@) == written(s.log_level.len() > 0, Member::Text(s.log_level))
            &&& found(m, "deviceName"@) == written(
                s.device_name.len() > 0,
                Member::Text(s.device_name),
            )
            &&& found(m, "audioExclusive"@) == written(s.audio_exclusive, Member::Flag(true))
            &&& found(m, "disableGpuCompositing"@) == written(
                s.disable_gpu_compositing,
                Member::Flag(true),
            )
            &&& found(m, "transparentTitlebar"@) == written(
                !s.transparent_titlebar,
                Member::Flag(false),
            )
            &&& found(m, "forceTranscoding"@) == written(s.force_transcoding, Member::Flag(true))
            &&& found(m, "hideScrollbar"@) == written(!s.hide_scrollbar, Member::Flag(false))
            &&& found(m, "windowDecorations"@) == written(
                s.window_decorations is Some,
                Member::Text(decorations@),
            )
        }),
{
    lemma_found();
    keys::lemma_key_codes();
}

/// The window's placement is written under its keys: each pair of extents and
/// the position where they are whole, the scale where it is positive.
pub proof fn law_placement_is_written_under_its_keys(
    d: SettingsData,
    scale_text: &str,
    decorations: &str,
    o: JsonObject,
)
    requires
        call_ensures(SettingsData::to_json, (&d, scale_text, decorations), o),
    ensures
        ({
            let m = json::json_members(o);
            let w = d@.window;
            let sized = w.width > 0 && w.height > 0;
            let sized_logically = w.logical_width > 0 && w.logical_height > 0;
            let placed = w.x >= 0 && w.y >= 0;
            &&& found(m, "windowWidth"@) == written(sized, Member::Int(w.width as i64))
            &&& found(m, "windowHeight"@) == written(sized, Member::Int(w.height as i64))
            &&& found(m, "windowLogicalWidth"@) == written(
                sized_logically,
                Member::Int(w.logical_width as i64),
            )
            &&& found(m, "windowLogicalHeight"@) == written(
                sized_logically,
                Member::Int(w.logical_height as i64),
            )
            &&& found(m, "windowX"@) == written(placed, Member::Int(w.x as i64))
            &&& found(m, "windowY"@) == written(placed, Member::Int(w.y as i64))
            &&& found(m, "windowMaximized"@) == written(w.maximized, Member::Flag(true))
            &&& found(m, "windowScale"@) is Some == (0 < w.scale_bits <= 0x7F80_0000)
            &&& found(m, "windowScale"@) is Some && json::parsed_real(scale_text@) is Some
                ==> found(m, "windowScale"@) == Some(Member::Real)
        }),
{
    lemma_found();
    keys::lemma_key_codes();
}

/// The settings of a fresh installation: all texts empty, no placement, the
/// title bar transparent and the scrollbar hidden, all else off.
pub open spec fn is_fresh(s: Settings) -> bool {
    &&& s.server_url.len() == 0 && s.hwdec.len() == 0 && s.audio_passthrough.len() == 0
    &&& s.audio_channels.len() == 0 && s.log_level.len() == 0 && s.device_name.len() == 0
    &&& s.window.x == -1 && s.window.y == -1 && s.window.width == 0 && s.window.height == 0
    &&& s.window.logical_width == 0 && s.window.logical_height == 0 && s.window.scale_bits == 0
    &&& !s.window.maximized && !s.audio_exclusive && !s.disable_gpu_compositing
    &&& s.transparent_titlebar && !s.force_transcoding && s.window_decorations is None
    &&& s.hide_scrollbar
}

/// A fresh installation starts with these settings and no path.
pub proof fn law_installation_starts_fresh(st: State, d: SettingsData)
    requires
        call_ensures(State::default, (), st),
        call_ensures(SettingsData::default, (), d),
    ensures
        is_fresh(st.data@) && st.path@.len() == 0,
        is_fresh(d@),
{
}

/// What is written of the settings is found again over those of a fresh
/// installation: every text, flag and whole extent.
pub proof fn law_written_settings_are_found_again(
    d: SettingsData,
    scale_text: &str,
    decorations: &str,
    o: JsonObject,
    fresh: &mut SettingsData,
    r: Unresolved,
)
    requires
        call_ensures(SettingsData::to_json, (&d, scale_text, decorations), o),
        is_fresh(old(fresh)@),
        call_ensures(SettingsData::overlay_json, (fresh, &o), r),
    ensures
        ({
            let s = d@;
            let t = final(fresh)@;
            &&& t.server_url == s.server_url && t.audio_passthrough == s.audio_passthrough
            &&& t.audio_channels == s.audio_channels && t.log_level == s.log_level
            &&& s.hwdec != "no"@ ==> t.hwdec == s.hwdec
            &&& s.hwdec == "no"@ ==> t.hwdec.len() == 0
            &&& s.device_name.len() <= 64 ==> t.device_name == s.device_name
            &&& t.audio_exclusive == s.audio_exclusive
            &&& t.disable_gpu_compositing == s.disable_gpu_compositing
            &&& t.transparent_titlebar == s.transparent_titlebar
            &&& t.force_transcoding == s.force_transcoding
            &&& t.hide_scrollbar == s.hide_scrollbar
            &&& t.window.maximized == s.window.maximized
            &&& s.window.width > 0 && s.window.height > 0 ==> t.window.width == s.window.width
                && t.window.height == s.window.height
            &&& s.window.logical_width > 0 && s.window.logical_height > 0
                ==> t.window.logical_width == s.window.logical_width && t.window.logical_height
                == s.window.logical_height
            &&& s.window.x >= 0 && s.window.y >= 0 ==> t.window.x == s.window.x && t.window.y
                == s.window.y
            &&& s.window_decorations is Some ==> (r.window_decorations matches Some(n) && n@
                == decorations@)
            &&& s.window_decorations is None ==> r.window_decorations is None
        }),
{
    let s = d@;
    law_settings_are_written_under_their_keys(d, scale_text, decorations, o);
    let b = old(fresh)@;
    assert(b =~= settings::default_settings());
    round_trip::law_load_restores_saved(s, settings::scale_member(scale_text@), decorations@);
    reveal(found);
}

/// A file that cannot be read, or holds no object, leaves the settings as they
/// are; one that does is laid over them.
pub proof fn law_unreadable_file_changes_nothing(
    a: &mut State,
    none: Option<Unresolved>,
    b: &mut State,
    text: &str,
    r: Option<Unresolved>,
)
    requires
        call_ensures(store::settings_load, (a, None), none),
        call_ensures(store::settings_load, (b, Some(text)), r),
    ensures
        none is None && final(a).data == old(a).data && final(a).path == old(a).path,
        r is Some == json::json_object(text@) is Some,
        r is None ==> final(b).data == old(b).data,
        final(b).path == old(b).path,
{
}

/// The members of a file that holds an object set their settings, as those of
/// the object do.
pub proof fn law_file_sets_its_settings(
    st: &mut State,
    text: &str,
    r: Option<Unresolved>,
    o: JsonObject,
    d: &mut SettingsData,
    direct: Unresolved,
)
    requires
        json::json_object(text@) == Some((json::json_members(o), json::json_reals(o))),
        *d == old(st).data,
        call_ensures(store::settings_load, (st, Some(text)), r),
        call_ensures(SettingsData::overlay_json, (d, &o), direct),
    ensures
        final(st).data@ == final(d)@,
        r matches Some(u) && u.window_scale == direct.window_scale && settings::opt_text(
            u.window_decorations,
        ) == settings::opt_text(direct.window_decorations),
{
}

/// A load is completed by the scale and the decorations where they are given;
/// what is absent stays, and all else too.
pub proof fn law_load_is_completed(
    st: &mut State,
    scale_bits: Option<u32>,
    decorations: Option<WindowDecorations>,
)
    requires
        call_ensures(store::settings_resolve, (st, scale_bits, decorations), ()),
    ensures
        scale_bits matches Some(b) ==> final(st).data@.window.scale_bits == b,
        scale_bits is None ==> final(st).data@.window.scale_bits == old(st).data@.window.scale_bits,
        decorations is Some ==> final(st).data@.window_decorations == decorations,
        decorations is None ==> final(st).data@.window_decorations
            == old(st).data@.window_decorations,
        final(st).data@.window.x == old(st).data@.window.x,
        final(st).data@.window.width == old(st).data@.window.width,
        final(st).data@.window.logical_height == old(st).data@.window.logical_height,
        final(st).data@.window.maximized == old(st).data@.window.maximized,
        final(st).data@.server_url == old(st).data@.server_url,
        final(st).data@.hwdec == old(st).data@.hwdec,
        final(st).data@.hide_scrollbar == old(st).data@.hide_scrollbar,
        final(st).path == old(st).path,
{
}

/// The text of the settings file ends a line and reads back as the object that
/// the settings are written as. It is written at the path that was given.
pub proof fn law_file_holds_the_object(
    st: State,
    scale_text: &str,
    decorations: &str,
    text: String,
    saved: (Vec<u8>, String),
    o: JsonObject,
)
    requires
        call_ensures(store::save_data, (&st.data, scale_text, decorations), text),
        call_ensures(store::settings_save, (&st, scale_text, decorations), saved),
        call_ensures(SettingsData::to_json, (&st.data, scale_text, decorations), o),
        json::in_range(json::fractions(json::json_members(o), json::json_reals(o))),
    ensures
        text@.last() == '\n',
        json::json_object(text@) matches Some(d) && d.0 == json::json_members(o),
        saved.0@ == st.path@,
        saved.1@ == text@,
{
}

/// The first path that is given sticks.
pub proof fn law_first_path_is_kept(a: &mut State, path: &[u8], b: &mut State, later: &[u8])
    requires
        old(a).path@.len() == 0,
        path@.len() > 0,
        call_ensures(store::settings_init, (a, path), ()),
        *b == *final(a),
        call_ensures(store::settings_init, (b, later), ()),
    ensures
        final(a).path@ == path@,
        final(b).path@ == path@,
        final(b).data == old(a).data,
{
}

/// The save worker is started by the first snapshot and woken by later ones; it
/// writes the newest one, once, to the path of that time.
pub proof fn law_newest_snapshot_is_written(
    p: &mut Pending,
    first: State,
    started: AsyncSave,
    q: &mut Pending,
    second: State,
    woken: AsyncSave,
    w: &mut Pending,
    step: WorkerStep,
    v: &mut Pending,
    next: WorkerStep,
)
    requires
        !old(p).stop && !old(p).started,
        call_ensures(store::settings_save_async, (&first, p), started),
        *q == *final(p),
        call_ensures(store::settings_save_async, (&second, q), woken),
        *w == *final(q),
        call_ensures(store::save_worker_loop, (w,), step),
        *v == *final(w),
        call_ensures(store::save_worker_loop, (v,), next),
    ensures
        started == AsyncSave::Spawn,
        woken == AsyncSave::Wake,
        step matches WorkerStep::Write(d, path) && d@ == second.data@ && path@ == second.path@,
        next is Wait,
{
    assert(final(p)@.stop == final(p).stop && final(p)@.started == final(p).started);
    assert(final(q)@.stop == final(q).stop);
    assert(step@ == store::next_step(final(q)@));
    assert(next@ == store::next_step(final(w)@));
    assert(final(w)@.stop == final(w).stop);
}

/// A shutdown loses nothing: what waits is written, then the worker ends. It is
/// waited for once, where it was started; after that no snapshot is taken.
pub proof fn law_shutdown_writes_what_waits(
    p: &mut Pending,
    waited: bool,
    q: &mut Pending,
    again: bool,
    n: &mut Pending,
    st: State,
    ignored: AsyncSave,
    w: &mut Pending,
    step: WorkerStep,
    v: &mut Pending,
    end: WorkerStep,
)
    requires
        call_ensures(store::settings_shutdown_save_worker, (p,), waited),
        *q == *final(p),
        call_ensures(store::settings_shutdown_save_worker, (q,), again),
        *n == *final(p),
        call_ensures(store::settings_save_async, (&st, n), ignored),
        *w == *final(p),
        call_ensures(store::save_worker_loop, (w,), step),
        *v == *final(w),
        call_ensures(store::save_worker_loop, (v,), end),
    ensures
        waited == (old(p).started && !old(p).stop),
        !again,
        ignored == AsyncSave::Ignored,
        old(p).data matches Some(d) ==> (step matches WorkerStep::Write(x, path) && x@ == d@ && path@
            == old(p).path@),
        old(p).data is None ==> step is Exit,
        end is Exit,
{
    assert(final(p)@.stop == final(p).stop && final(p)@.started == final(p).started);
    assert(step@ == store::next_step(final(p)@));
    assert(end@ == store::next_step(final(w)@));
    assert(final(w)@.stop == final(w).stop);
}

/// A snapshot is the settings as they are.
pub proof fn law_snapshot_is_a_copy(d: SettingsData, r: SettingsData)
    requires
        call_ensures(SettingsData::snapshot, (&d,), r),
    ensures
        r.server_url@ == d.server_url@ && r.hwdec@ == d.hwdec@,
        r.audio_passthrough@ == d.audio_passthrough@ && r.audio_channels@ == d.audio_channels@,
        r.log_level@ == d.log_level@ && r.device_name@ == d.device_name@,
        r.window == d.window && r.window_decorations == d.window_decorations,
        r.audio_exclusive == d.audio_exclusive && r.disable_gpu_compositing
            == d.disable_gpu_compositing,
        r.transparent_titlebar == d.transparent_titlebar && r.force_transcoding
            == d.force_transcoding && r.hide_scrollbar == d.hide_scrollbar,
{
    assert(r@ == d@);
    assert(r@.server_url == r.server_url@);
}

/// The application draws the title bar in one mode, and its theme colours the
/// server's in another.
pub proof fn law_title_bar_by_mode(mode: WindowDecorations, own: bool, colored: bool)
    requires
        call_ensures(store::client_side_decorations, (mode,), own),
        call_ensures(store::titlebar_theme_color, (mode,), colored),
    ensures
        own == (mode == WindowDecorations::Csd),
        colored == (mode == WindowDecorations::ServerThemed),
{
}

/// The name that is shown is that of the mode in force.
pub proof fn law_mode_in_force_is_named<
    F: Fn(Option<WindowDecorations>) -> WindowDecorations,
    N: Fn(WindowDecorations) -> String,
>(st: State, resolve: F, name: N, mode: WindowDecorations, r: String, wanted: String)
    requires
        forall|d: Option<WindowDecorations>| call_requires(resolve, (d,)),
        forall|m: WindowDecorations| call_requires(name, (m,)),
        forall|m: WindowDecorations| #[trigger]
            call_ensures(resolve, (st.data@.window_decorations,), m) ==> m == mode,
        forall|n: String| #[trigger] call_ensures(name, (mode,), n) ==> n@ == wanted@,
        call_ensures(store::window_decorations::<F, N>, (&st, resolve, name), r),
    ensures
        r@ == wanted@,
{
}

/// The web client is given each setting under its key, the host's own name and
/// the decoding modes on offer; texts that are empty and flags at their default
/// are left out, but for the two that are always there.
pub proof fn law_web_client_is_given_the_settings(
    st: State,
    modes: &[&str],
    default_name: &str,
    r: String,
)
    requires
        call_ensures(store::cli_json, (&st, modes, default_name), r),
    ensures
        json::json_object(r@) matches Some(d) && {
            let m = d.0;
            let s = st.data@;
            &&& found(m, "hwdec"@) == written(s.hwdec.len() > 0, Member::Text(s.hwdec))
            &&& found(m, "audioPassthrough"@) == written(
                s.audio_passthrough.len() > 0,
                Member::Text(s.audio_passthrough),
            )
            &&& found(m, "audioChannels"@) == written(
                s.audio_channels.len() > 0,
                Member::Text(s.audio_channels),
            )
            &&& found(m, "logLevel"@) == written(s.log_level.len() > 0, Member::Text(s.log_level))
            &&& found(m, "audioExclusive"@) == written(s.audio_exclusive, Member::Flag(true))
            &&& found(m, "disableGpuCompositing"@) == written(
                s.disable_gpu_compositing,
                Member::Flag(true),
            )
            &&& found(m, "transparentTitlebar"@) == written(
                !s.transparent_titlebar,
                Member::Flag(false),
            )
            &&& found(m, "forceTranscoding"@) == Some(Member::Flag(s.force_transcoding))
            &&& found(m, "hideScrollbar"@) == Some(Member::Flag(s.hide_scrollbar))
            &&& found(m, "deviceName"@) == written(
                s.device_name.len() > 0,
                Member::Text(s.device_name),
            )
            &&& found(m, "deviceNameDefault"@) == Some(Member::Text(default_name@))
            &&& found(m, "serverUrl"@) is None && found(m, "windowDecorations"@) is None
            &&& found(m, "windowWidth"@) is None && found(m, "windowX"@) is None
            &&& found(m, "hwdecOptions"@) matches Some(Member::List(l)) && l.len() == modes@.len()
                && forall|k: int| 0 <= k < l.len() ==> #[trigger] l[k] == modes@[k]@
        },
{
    lemma_found();
    keys::lemma_key_codes();
}

/// A queue that is new holds nothing, was not stopped and has started no
/// worker.
pub proof fn law_queue_is_empty_at_first(p: Pending)
    requires
        call_ensures(Pending::default, (), p),
    ensures
        p.data is None && p.path@.len() == 0 && !p.stop && !p.started,
{
    let q = p@;
    assert(q.stop == p.stop && q.started == p.started && q.path == p.path@);
    assert(q.data is None);
}

} // verus!
