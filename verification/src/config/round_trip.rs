//! What survives a save followed by a load.
use crate::bits;
use crate::config::device_name::DEVICE_NAME_MAX;
use crate::config::keys;
use crate::config::settings;
use crate::config::settings::{JfnWindowGeometry, Settings, HWDEC_DEFAULT};
use crate::config::store;
use crate::json;
use crate::json::Member;
use crate::platform_abi::WindowDecorations;
use crate::text;
use vstd::prelude::*;

verus! {

/// The settings as a load finds them after they were saved: what was left out
/// of the file is at its default, and the scale and the decorations are not
/// resolved yet.
pub open spec fn persisted(s: Settings) -> Settings {
    let w = s.window;
    let sized = w.width > 0 && w.height > 0;
    let sized_logically = w.logical_width > 0 && w.logical_height > 0;
    let placed = w.x >= 0 && w.y >= 0;
    let unset = settings::unset_geometry();
    Settings {
        hwdec: if s.hwdec == HWDEC_DEFAULT@ {
            Seq::empty()
        } else {
            s.hwdec
        },
        device_name: text::clip(s.device_name, DEVICE_NAME_MAX as nat),
        window: JfnWindowGeometry {
            x: if placed {
                w.x
            } else {
                unset.x
            },
            y: if placed {
                w.y
            } else {
                unset.y
            },
            width: if sized {
                w.width
            } else {
                unset.width
            },
            height: if sized {
                w.height
            } else {
                unset.height
            },
            logical_width: if sized_logically {
                w.logical_width
            } else {
                unset.logical_width
            },
            logical_height: if sized_logically {
                w.logical_height
            } else {
                unset.logical_height
            },
            scale_bits: unset.scale_bits,
            maximized: w.maximized,
        },
        window_decorations: None,
        ..s
    }
}

/// The member under a key, where there is one.
#[verifier::opaque]
spec fn at(m: Map<Seq<char>, Member>, key: Seq<char>) -> Option<Member> {
    if m.contains_key(key) {
        Some(m[key])
    } else {
        None
    }
}

/// A member present or not.
spec fn given(present: bool, value: Member) -> Option<Member> {
    if present {
        Some(value)
    } else {
        None
    }
}

proof fn lemma_at()
    ensures
        forall|key: Seq<char>| #[trigger] at(json::no_members(), key) is None,
        forall|m: Map<Seq<char>, Member>, present: bool, k: Seq<char>, value: Member, key: Seq<char>|
            #[trigger]
            at(settings::with_member(m, present, k, value), key) == if k == key && present {
                Some(value)
            } else {
                at(m, key)
            },
{
    reveal(at);
    reveal(settings::with_member);
}

proof fn lemma_typed_at(m: Map<Seq<char>, Member>, key: Seq<char>)
    ensures
        json::text_at(m, key) == match at(m, key) {
            Some(Member::Text(s)) => Some(s),
            _ => None,
        },
        json::flag_at(m, key) == match at(m, key) {
            Some(Member::Flag(b)) => Some(b),
            _ => None,
        },
        json::int_at(m, key) == match at(m, key) {
            Some(Member::Int(n)) => Some(n),
            _ => None,
        },
{
    reveal(at);
}

proof fn lemma_number_at(m: Map<Seq<char>, Member>, key: Seq<char>)
    ensures
        at(m, key) is None ==> !json::number_at(m, key),
{
    reveal(at);
}

proof fn lemma_saved_placement(s: Settings, scale: Member, decorations: Seq<char>)
    ensures
        ({
            let m = settings::saved_members(s, scale, decorations);
            let w = s.window;
            let sized = w.width > 0 && w.height > 0;
            let sized_logically = w.logical_width > 0 && w.logical_height > 0;
            let placed = w.x >= 0 && w.y >= 0;
            &&& at(m, "serverUrl"@) == given(s.server_url.len() > 0, Member::Text(s.server_url))
            &&& at(m, "windowWidth"@) == given(sized, Member::Int(w.width as i64))
            &&& at(m, "windowHeight"@) == given(sized, Member::Int(w.height as i64))
            &&& at(m, "windowLogicalWidth"@) == given(
                sized_logically,
                Member::Int(w.logical_width as i64),
            )
            &&& at(m, "windowLogicalHeight"@) == given(
                sized_logically,
                Member::Int(w.logical_height as i64),
            )
            &&& at(m, "windowX"@) == given(placed, Member::Int(w.x as i64))
            &&& at(m, "windowY"@) == given(placed, Member::Int(w.y as i64))
            &&& at(m, "windowMaximized"@) == given(w.maximized, Member::Flag(true))
        }),
{
    lemma_at();
    keys::lemma_key_codes();
}

proof fn lemma_saved_playback(s: Settings, scale: Member, decorations: Seq<char>)
    ensures
        ({
            let m = settings::saved_members(s, scale, decorations);
            &&& at(m, "hwdec"@) == given(
                s.hwdec.len() > 0 && s.hwdec != HWDEC_DEFAULT@,
                Member::Text(s.hwdec),
            )
            &&& at(m, "audioPassthrough"@) == given(
                s.audio_passthrough.len() > 0,
                Member::Text(s.audio_passthrough),
            )
            &&& at(m, "audioExclusive"@) == given(s.audio_exclusive, Member::Flag(true))
            &&& at(m, "audioChannels"@) == given(
                s.audio_channels.len() > 0,
                Member::Text(s.audio_channels),
            )
            &&& at(m, "disableGpuCompositing"@) == given(
                s.disable_gpu_compositing,
                Member::Flag(true),
            )
            &&& at(m, "transparentTitlebar"@) == given(!s.transparent_titlebar, Member::Flag(false))
            &&& at(m, "logLevel"@) == given(s.log_level.len() > 0, Member::Text(s.log_level))
        }),
{
    lemma_at();
    keys::lemma_key_codes();
}

proof fn lemma_saved_rest(s: Settings, scale: Member, decorations: Seq<char>)
    ensures
        ({
            let m = settings::saved_members(s, scale, decorations);
            &&& at(m, "forceTranscoding"@) == given(s.force_transcoding, Member::Flag(true))
            &&& at(m, "windowDecorations"@) == given(
                s.window_decorations is Some,
                Member::Text(decorations),
            )
            &&& at(m, "hideScrollbar"@) == given(!s.hide_scrollbar, Member::Flag(false))
            &&& at(m, "deviceName"@) == given(s.device_name.len() > 0, Member::Text(s.device_name))
            &&& at(m, "windowScale"@) == given(bits::is_positive_f32(s.window.scale_bits), scale)
        }),
{
    lemma_at();
    keys::lemma_key_codes();
}

/// A load after a save finds the settings again: over the defaults of a fresh
/// installation, the saved members give [`persisted`].
pub proof fn law_load_restores_saved(s: Settings, scale: Member, decorations: Seq<char>)
    ensures
        settings::overlaid(
            settings::default_settings(),
            settings::saved_members(s, scale, decorations),
        ) == persisted(s),
{
    let m = settings::saved_members(s, scale, decorations);
    lemma_saved_placement(s, scale, decorations);
    lemma_saved_playback(s, scale, decorations);
    lemma_saved_rest(s, scale, decorations);
    lemma_typed_at(m, "serverUrl"@);
    lemma_typed_at(m, "hwdec"@);
    lemma_typed_at(m, "audioPassthrough"@);
    lemma_typed_at(m, "audioChannels"@);
    lemma_typed_at(m, "logLevel"@);
    lemma_typed_at(m, "deviceName"@);
    lemma_typed_at(m, "windowWidth"@);
    lemma_typed_at(m, "windowHeight"@);
    lemma_typed_at(m, "windowLogicalWidth"@);
    lemma_typed_at(m, "windowLogicalHeight"@);
    lemma_typed_at(m, "windowX"@);
    lemma_typed_at(m, "windowY"@);
    lemma_typed_at(m, "windowMaximized"@);
    lemma_typed_at(m, "audioExclusive"@);
    lemma_typed_at(m, "disableGpuCompositing"@);
    lemma_typed_at(m, "transparentTitlebar"@);
    lemma_typed_at(m, "forceTranscoding"@);
    lemma_typed_at(m, "hideScrollbar"@);
    let back = settings::overlaid(settings::default_settings(), m);
    assert(back.server_url =~= s.server_url);
    assert(back.hwdec =~= persisted(s).hwdec);
    assert(back.audio_passthrough =~= s.audio_passthrough);
    assert(back.audio_channels =~= s.audio_channels);
    assert(back.log_level =~= s.log_level);
    assert(back.device_name =~= persisted(s).device_name);
    assert(back.window == persisted(s).window);
    assert(back =~= persisted(s));
}

/// Whether the scale and the decorations that were saved are found again:
/// `scale` is the number under the scale's key, there exactly where the file
/// has one. A scale that is written comes back as a number that narrows to it,
/// and the name that is written for the decorations stands for them.
pub open spec fn found_again(
    s: Settings,
    file: Map<Seq<char>, Member>,
    decorations: Seq<char>,
    scale: Option<u64>,
    narrow: spec_fn(u64) -> u32,
    named: spec_fn(Seq<char>) -> Option<WindowDecorations>,
) -> bool {
    &&& scale is Some == json::number_at(file, "windowScale"@)
    &&& bits::is_positive_f32(s.window.scale_bits) ==> (scale matches Some(b) && narrow(b)
        == s.window.scale_bits)
    &&& s.window_decorations is Some ==> named(decorations) == s.window_decorations
}

/// The settings as they are after a save and a whole load: [`persisted`], with
/// the scale, where it is positive, and the decorations.
pub open spec fn restored(s: Settings) -> Settings {
    let p = persisted(s);
    Settings {
        window: JfnWindowGeometry {
            scale_bits: if bits::is_positive_f32(s.window.scale_bits) {
                s.window.scale_bits
            } else {
                p.window.scale_bits
            },
            ..p.window
        },
        window_decorations: s.window_decorations,
        ..p
    }
}

/// Whether a file can hold these settings in full: no decoding mode that
/// counts as unset, a device name that is not too long, and each size and the
/// position either whole or unset.
pub open spec fn is_storable(s: Settings) -> bool {
    let w = s.window;
    let unset = settings::unset_geometry();
    &&& s.hwdec != HWDEC_DEFAULT@
    &&& s.device_name.len() <= DEVICE_NAME_MAX
    &&& (w.width > 0 && w.height > 0) || (w.width == unset.width && w.height == unset.height)
    &&& (w.logical_width > 0 && w.logical_height > 0) || (w.logical_width == unset.logical_width
        && w.logical_height == unset.logical_height)
    &&& (w.x >= 0 && w.y >= 0) || (w.x == unset.x && w.y == unset.y)
    &&& bits::is_positive_f32(w.scale_bits) || w.scale_bits == unset.scale_bits
}

/// A whole load after a save gives back every setting: over the defaults of a
/// fresh installation it gives [`restored`], and that is what was saved where
/// a file can hold it in full.
pub proof fn law_load_restores_every_setting(
    s: Settings,
    scale_member: Member,
    decorations: Seq<char>,
    scale: Option<u64>,
    narrow: spec_fn(u64) -> u32,
    named: spec_fn(Seq<char>) -> Option<WindowDecorations>,
)
    requires
        found_again(
            s,
            settings::saved_members(s, scale_member, decorations),
            decorations,
            scale,
            narrow,
            named,
        ),
    ensures
        store::loaded(
            settings::default_settings(),
            settings::saved_members(s, scale_member, decorations),
            scale,
            narrow,
            named,
        ) == restored(s),
        is_storable(s) ==> restored(s) == s,
{
    let m = settings::saved_members(s, scale_member, decorations);
    law_load_restores_saved(s, scale_member, decorations);
    lemma_saved_rest(s, scale_member, decorations);
    lemma_typed_at(m, "windowDecorations"@);
    lemma_number_at(m, "windowScale"@);
    assert(store::loaded(settings::default_settings(), m, scale, narrow, named) =~= restored(s));
    if is_storable(s) {
        assert(restored(s).device_name =~= s.device_name);
        assert(restored(s).window == s.window);
        assert(restored(s) =~= s);
    }
}

/// The object that settings are written as gives them back in full when it is
/// laid over the defaults, as long as the decimal text of a scale denotes a
/// finite number that narrows to it and the name of the decorations stands for
/// them.
pub proof fn law_object_restores_every_setting(
    s: Settings,
    scale_text: Seq<char>,
    decorations: Seq<char>,
    reals: Map<Seq<char>, u64>,
    scale: Option<u64>,
    narrow: spec_fn(u64) -> u32,
    named: spec_fn(Seq<char>) -> Option<WindowDecorations>,
)
    requires
        is_storable(s),
        bits::is_positive_f32(s.window.scale_bits) ==> (json::parsed_real(scale_text) matches Some(
            b,
        ) && narrow(b) == s.window.scale_bits),
        s.window_decorations is Some ==> named(decorations) == s.window_decorations,
        ({
            let file = settings::saved_members(
                s,
                settings::scale_member(scale_text),
                decorations,
            );
            &&& json::fractions(file, reals) == settings::saved_fractions(s, scale_text)
            &&& scale == json::real_at(reals, "windowScale"@)
            &&& scale is Some == json::number_at(file, "windowScale"@)
        }),
    ensures
        store::loaded(
            settings::default_settings(),
            settings::saved_members(s, settings::scale_member(scale_text), decorations),
            scale,
            narrow,
            named,
        ) == s,
{
    let member = settings::scale_member(scale_text);
    let file = settings::saved_members(s, member, decorations);
    if bits::is_positive_f32(s.window.scale_bits) {
        reveal(json::fractions);
        let f = json::fractions(file, reals);
        assert(f.contains_key("windowScale"@));
        assert(f["windowScale"@] == reals["windowScale"@]);
    }
    law_load_restores_every_setting(s, member, decorations, scale, narrow, named);
}

/// A file that was saved is written again as it was: loading it and saving
/// what was loaded gives the same members, the same numbers and the same text,
/// whatever the settings were, so long as the device name is not too long.
pub proof fn law_saved_file_is_stable(
    s: Settings,
    scale_text: Seq<char>,
    decorations: Seq<char>,
    scale: Option<u64>,
    narrow: spec_fn(u64) -> u32,
    named: spec_fn(Seq<char>) -> Option<WindowDecorations>,
)
    requires
        s.device_name.len() <= DEVICE_NAME_MAX,
        found_again(
            s,
            settings::saved_members(s, settings::scale_member(scale_text), decorations),
            decorations,
            scale,
            narrow,
            named,
        ),
    ensures
        ({
            let member = settings::scale_member(scale_text);
            let file = settings::saved_members(s, member, decorations);
            let again = store::loaded(
                settings::default_settings(),
                file,
                scale,
                narrow,
                named,
            );
            &&& settings::saved_members(again, member, decorations) == file
            &&& settings::saved_fractions(again, scale_text) == settings::saved_fractions(
                s,
                scale_text,
            )
            &&& store::file_text(again, scale_text, decorations) == store::file_text(
                s,
                scale_text,
                decorations,
            )
        }),
{
    let member = settings::scale_member(scale_text);
    law_load_restores_every_setting(s, member, decorations, scale, narrow, named);
    reveal(settings::with_member);
    let again = restored(s);
    assert(settings::placement_members(again) == settings::placement_members(s));
    assert(settings::saved_members(again, member, decorations) == settings::saved_members(
        s,
        member,
        decorations,
    ));
}

/// Loading the text of a saved file over the defaults finds the settings
/// again.
pub proof fn law_saved_text_loads(s: Settings, scale: Member, decorations: Seq<char>, text: Seq<char>)
    requires
        json::reads_back(
            json::json_object(text),
            settings::saved_members(s, scale, decorations),
        ),
    ensures
        json::json_object(text) matches Some(d) && settings::overlaid(
            settings::default_settings(),
            d.0,
        ) == persisted(s),
{
    law_load_restores_saved(s, scale, decorations);
}

/// A key that is missing keeps its setting.
pub proof fn law_missing_keys_keep(s: Settings, m: Map<Seq<char>, Member>)
    ensures
        ({
            let t = settings::overlaid(s, m);
            &&& !m.contains_key("serverUrl"@) ==> t.server_url == s.server_url
            &&& !m.contains_key("hwdec"@) ==> t.hwdec == s.hwdec
            &&& !m.contains_key("audioPassthrough"@) ==> t.audio_passthrough == s.audio_passthrough
            &&& !m.contains_key("audioChannels"@) ==> t.audio_channels == s.audio_channels
            &&& !m.contains_key("logLevel"@) ==> t.log_level == s.log_level
            &&& !m.contains_key("deviceName"@) ==> t.device_name == s.device_name
            &&& !m.contains_key("windowX"@) ==> t.window.x == s.window.x
            &&& !m.contains_key("windowY"@) ==> t.window.y == s.window.y
            &&& !m.contains_key("windowWidth"@) ==> t.window.width == s.window.width
            &&& !m.contains_key("windowHeight"@) ==> t.window.height == s.window.height
            &&& !m.contains_key("windowLogicalWidth"@) ==> t.window.logical_width
                == s.window.logical_width
            &&& !m.contains_key("windowLogicalHeight"@) ==> t.window.logical_height
                == s.window.logical_height
            &&& !m.contains_key("windowMaximized"@) ==> t.window.maximized == s.window.maximized
            &&& !m.contains_key("audioExclusive"@) ==> t.audio_exclusive == s.audio_exclusive
            &&& !m.contains_key("disableGpuCompositing"@) ==> t.disable_gpu_compositing
                == s.disable_gpu_compositing
            &&& !m.contains_key("transparentTitlebar"@) ==> t.transparent_titlebar
                == s.transparent_titlebar
            &&& !m.contains_key("forceTranscoding"@) ==> t.force_transcoding == s.force_transcoding
            &&& !m.contains_key("hideScrollbar"@) ==> t.hide_scrollbar == s.hide_scrollbar
            &&& t.window.scale_bits == s.window.scale_bits
            &&& t.window_decorations == s.window_decorations
        }),
{
}

} // verus!
