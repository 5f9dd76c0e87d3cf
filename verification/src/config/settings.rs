//! The settings themselves and their JSON form.
//!
//! On disk the settings are one JSON object. A key that is missing keeps the
//! value at hand when the object is laid over it; fields at their default are
//! left out when the object is written.
use crate::text;
use crate::bits;
use crate::json;
use crate::bits::positive_f32;
use crate::config::device_name::DEVICE_NAME_MAX;
use crate::json::{flag_member, int_member, object_compact, object_new, object_put, real_member, text_member, JsonObject, JsonScalar, Member};
use crate::platform_abi::WindowDecorations;
use crate::text::{clip_text, same_text};
use vstd::prelude::*;

verus! {

/// The decoding mode that counts as unset.
pub const HWDEC_DEFAULT: &'static str = "no";

/// Window placement as saved at exit.
#[derive(Clone, Copy, Debug)]
pub struct JfnWindowGeometry {
    pub x: i32,
    pub y: i32,
    pub width: i32,
    pub height: i32,
    pub logical_width: i32,
    pub logical_height: i32,
    /// Bit pattern of the single-precision scale.
    pub scale_bits: u32,
    pub maximized: bool,
}

/// No placement saved: position unknown, every size zero.
pub open spec fn unset_geometry() -> JfnWindowGeometry {
    JfnWindowGeometry {
        x: (-1) as i32,
        y: (-1) as i32,
        width: 0,
        height: 0,
        logical_width: 0,
        logical_height: 0,
        scale_bits: 0,
        maximized: false,
    }
}

impl Default for JfnWindowGeometry {
    fn default() -> (r: Self)
        ensures
            r == unset_geometry(),
    {
        JfnWindowGeometry {
            x: -1,
            y: -1,
            width: 0,
            height: 0,
            logical_width: 0,
            logical_height: 0,
            scale_bits: 0,
            maximized: false,
        }
    }
}

/// All settings.
#[derive(Debug)]
pub struct SettingsData {
    pub server_url: String,
    pub hwdec: String,
    pub audio_passthrough: String,
    pub audio_channels: String,
    pub log_level: String,
    pub device_name: String,
    pub window: JfnWindowGeometry,
    pub audio_exclusive: bool,
    pub disable_gpu_compositing: bool,
    pub transparent_titlebar: bool,
    pub force_transcoding: bool,
    pub window_decorations: Option<WindowDecorations>,
    pub hide_scrollbar: bool,
}

/// All settings, as values.
#[verifier::ext_equal]
pub struct Settings {
    pub server_url: Seq<char>,
    pub hwdec: Seq<char>,
    pub audio_passthrough: Seq<char>,
    pub audio_channels: Seq<char>,
    pub log_level: Seq<char>,
    pub device_name: Seq<char>,
    pub window: JfnWindowGeometry,
    pub audio_exclusive: bool,
    pub disable_gpu_compositing: bool,
    pub transparent_titlebar: bool,
    pub force_transcoding: bool,
    pub window_decorations: Option<WindowDecorations>,
    pub hide_scrollbar: bool,
}

impl View for SettingsData {
    type V = Settings;

    open spec fn view(&self) -> Settings {
        Settings {
            server_url: self.server_url@,
            hwdec: self.hwdec@,
            audio_passthrough: self.audio_passthrough@,
            audio_channels: self.audio_channels@,
            log_level: self.log_level@,
            device_name: self.device_name@,
            window: self.window,
            audio_exclusive: self.audio_exclusive,
            disable_gpu_compositing: self.disable_gpu_compositing,
            transparent_titlebar: self.transparent_titlebar,
            force_transcoding: self.force_transcoding,
            window_decorations: self.window_decorations,
            hide_scrollbar: self.hide_scrollbar,
        }
    }
}

/// The settings of a fresh installation.
pub open spec fn default_settings() -> Settings {
    Settings {
        server_url: Seq::empty(),
        hwdec: Seq::empty(),
        audio_passthrough: Seq::empty(),
        audio_channels: Seq::empty(),
        log_level: Seq::empty(),
        device_name: Seq::empty(),
        window: unset_geometry(),
        audio_exclusive: false,
        disable_gpu_compositing: false,
        transparent_titlebar: true,
        force_transcoding: false,
        window_decorations: None,
        hide_scrollbar: true,
    }
}

impl Default for SettingsData {
    fn default() -> (r: Self)
        ensures
            r@ == default_settings(),
    {
        SettingsData {
            server_url: String::new(),
            hwdec: String::new(),
            audio_passthrough: String::new(),
            audio_channels: String::new(),
            log_level: String::new(),
            device_name: String::new(),
            window: JfnWindowGeometry::default(),
            audio_exclusive: false,
            disable_gpu_compositing: false,
            transparent_titlebar: true,
            force_transcoding: false,
            window_decorations: None,
            hide_scrollbar: true,
        }
    }
}

/// The text under `key`, or `otherwise`.
pub open spec fn text_or(m: Map<Seq<char>, Member>, key: Seq<char>, otherwise: Seq<char>) -> Seq<
    char,
> {
    match json::text_at(m, key) {
        Some(s) => s,
        None => otherwise,
    }
}

/// The flag under `key`, or `otherwise`.
pub open spec fn flag_or(m: Map<Seq<char>, Member>, key: Seq<char>, otherwise: bool) -> bool {
    match json::flag_at(m, key) {
        Some(b) => b,
        None => otherwise,
    }
}

/// The low 32 bits of the integer under `key`, or `otherwise`.
pub open spec fn int_or(m: Map<Seq<char>, Member>, key: Seq<char>, otherwise: i32) -> i32 {
    match json::int_at(m, key) {
        Some(n) => n as i32,
        None => otherwise,
    }
}

/// The settings `s` with a JSON object laid over them. The window scale and
/// the decorations stay as they are: see [`Unresolved`].
pub open spec fn overlaid(s: Settings, m: Map<Seq<char>, Member>) -> Settings {
    Settings {
        server_url: text_or(m, "serverUrl"@, s.server_url),
        hwdec: text_or(m, "hwdec"@, s.hwdec),
        audio_passthrough: text_or(m, "audioPassthrough"@, s.audio_passthrough),
        audio_channels: text_or(m, "audioChannels"@, s.audio_channels),
        log_level: text_or(m, "logLevel"@, s.log_level),
        device_name: match json::text_at(m, "deviceName"@) {
            Some(n) => text::clip(n, DEVICE_NAME_MAX as nat),
            None => s.device_name,
        },
        window: JfnWindowGeometry {
            x: int_or(m, "windowX"@, s.window.x),
            y: int_or(m, "windowY"@, s.window.y),
            width: int_or(m, "windowWidth"@, s.window.width),
            height: int_or(m, "windowHeight"@, s.window.height),
            logical_width: int_or(m, "windowLogicalWidth"@, s.window.logical_width),
            logical_height: int_or(m, "windowLogicalHeight"@, s.window.logical_height),
            scale_bits: s.window.scale_bits,
            maximized: flag_or(m, "windowMaximized"@, s.window.maximized),
        },
        audio_exclusive: flag_or(m, "audioExclusive"@, s.audio_exclusive),
        disable_gpu_compositing: flag_or(
            m,
            "disableGpuCompositing"@,
            s.disable_gpu_compositing,
        ),
        transparent_titlebar: flag_or(m, "transparentTitlebar"@, s.transparent_titlebar),
        force_transcoding: flag_or(m, "forceTranscoding"@, s.force_transcoding),
        window_decorations: s.window_decorations,
        hide_scrollbar: flag_or(m, "hideScrollbar"@, s.hide_scrollbar),
    }
}

/// What an object says of the two settings whose values are not made here:
/// the scale, a double to be narrowed, and the decorations, a name to be
/// looked up.
#[derive(Debug)]
pub struct Unresolved {
    pub window_scale: Option<u64>,
    pub window_decorations: Option<String>,
}

/// The optional text as a value.
pub open spec fn opt_text(s: Option<String>) -> Option<Seq<char>> {
    match s {
        Some(t) => Some(t@),
        None => None,
    }
}

/// `m` with `value` under `key` where `present`, and as it is otherwise.
#[verifier::opaque]
pub open spec fn with_member(
    m: Map<Seq<char>, Member>,
    present: bool,
    key: Seq<char>,
    value: Member,
) -> Map<Seq<char>, Member> {
    if present {
        m.insert(key, value)
    } else {
        m
    }
}

/// The server and the window's placement as they are written.
pub open spec fn placement_members(s: Settings) -> Map<Seq<char>, Member> {
    let sized = s.window.width > 0 && s.window.height > 0;
    let sized_logically = s.window.logical_width > 0 && s.window.logical_height > 0;
    let placed = s.window.x >= 0 && s.window.y >= 0;
    let m = with_member(
        json::no_members(),
        s.server_url.len() > 0,
        "serverUrl"@,
        Member::Text(s.server_url),
    );
    let m = with_member(m, sized, "windowWidth"@, Member::Int(s.window.width as i64));
    let m = with_member(m, sized, "windowHeight"@, Member::Int(s.window.height as i64));
    let m = with_member(
        m,
        sized_logically,
        "windowLogicalWidth"@,
        Member::Int(s.window.logical_width as i64),
    );
    let m = with_member(
        m,
        sized_logically,
        "windowLogicalHeight"@,
        Member::Int(s.window.logical_height as i64),
    );
    let m = with_member(m, placed, "windowX"@, Member::Int(s.window.x as i64));
    let m = with_member(m, placed, "windowY"@, Member::Int(s.window.y as i64));
    with_member(m, s.window.maximized, "windowMaximized"@, Member::Flag(true))
}

/// `m` with the playback settings that are not at their default; `decoded`
/// says whether the decoding mode is among them.
pub open spec fn with_playback(m: Map<Seq<char>, Member>, s: Settings, decoded: bool) -> Map<
    Seq<char>,
    Member,
> {
    let m = with_member(m, decoded, "hwdec"@, Member::Text(s.hwdec));
    let m = with_member(
        m,
        s.audio_passthrough.len() > 0,
        "audioPassthrough"@,
        Member::Text(s.audio_passthrough),
    );
    let m = with_member(m, s.audio_exclusive, "audioExclusive"@, Member::Flag(true));
    let m = with_member(
        m,
        s.audio_channels.len() > 0,
        "audioChannels"@,
        Member::Text(s.audio_channels),
    );
    let m = with_member(m, s.disable_gpu_compositing, "disableGpuCompositing"@, Member::Flag(true));
    let m = with_member(m, !s.transparent_titlebar, "transparentTitlebar"@, Member::Flag(false));
    with_member(m, s.log_level.len() > 0, "logLevel"@, Member::Text(s.log_level))
}

/// The members that settings are written as: `scale` is the member of the
/// window scale, `decorations` the name of the decorations.
pub open spec fn saved_members(s: Settings, scale: Member, decorations: Seq<char>) -> Map<
    Seq<char>,
    Member,
> {
    let m = with_playback(
        placement_members(s),
        s,
        s.hwdec.len() > 0 && s.hwdec != HWDEC_DEFAULT@,
    );
    let m = with_member(m, s.force_transcoding, "forceTranscoding"@, Member::Flag(true));
    let m = with_member(
        m,
        s.window_decorations is Some,
        "windowDecorations"@,
        Member::Text(decorations),
    );
    let m = with_member(m, !s.hide_scrollbar, "hideScrollbar"@, Member::Flag(false));
    let m = with_member(
        m,
        s.device_name.len() > 0,
        "deviceName"@,
        Member::Text(s.device_name),
    );
    with_member(m, bits::is_positive_f32(s.window.scale_bits), "windowScale"@, scale)
}

/// The fractions among the members that settings are written as: the scale
/// alone, where it is written.
pub open spec fn saved_fractions(s: Settings, scale_text: Seq<char>) -> Map<Seq<char>, u64> {
    json::only_fraction(
        "windowScale"@,
        if bits::is_positive_f32(s.window.scale_bits) {
            json::parsed_real(scale_text)
        } else {
            None
        },
    )
}

/// The members that the web client is given: `default_name` is the host's
/// own name, `hwdec_opts` the decoding modes on offer.
pub open spec fn cli_members(
    s: Settings,
    hwdec_opts: Seq<Seq<char>>,
    default_name: Seq<char>,
) -> Map<Seq<char>, Member> {
    let m = with_playback(json::no_members(), s, s.hwdec.len() > 0);
    let m = with_member(m, true, "forceTranscoding"@, Member::Flag(s.force_transcoding));
    let m = with_member(m, true, "hideScrollbar"@, Member::Flag(s.hide_scrollbar));
    let m = with_member(
        m,
        s.device_name.len() > 0,
        "deviceName"@,
        Member::Text(s.device_name),
    );
    let m = with_member(m, true, "deviceNameDefault"@, Member::Text(default_name));
    with_member(m, true, "hwdecOptions"@, Member::List(hwdec_opts))
}

/// The text under `key`, or `otherwise`.
fn text_member_or(o: &JsonObject, key: &str, otherwise: &String) -> (r: String)
    ensures
        r@ == text_or(json::json_members(*o), key@, otherwise@),
{
    match text_member(o, key) {
        Some(s) => s,
        None => otherwise.clone(),
    }
}

/// The flag under `key`, or `otherwise`.
fn flag_member_or(o: &JsonObject, key: &str, otherwise: bool) -> (r: bool)
    ensures
        r == flag_or(json::json_members(*o), key@, otherwise),
{
    match flag_member(o, key) {
        Some(b) => b,
        None => otherwise,
    }
}

/// The low 32 bits of the integer under `key`, or `otherwise`.
fn int_member_or(o: &JsonObject, key: &str, otherwise: i32) -> (r: i32)
    ensures
        r == int_or(json::json_members(*o), key@, otherwise),
{
    match int_member(o, key) {
        Some(n) => n as i32,
        None => otherwise,
    }
}

/// The fractions of an object.
spec fn fractions_in(o: JsonObject) -> Map<Seq<char>, u64> {
    json::fractions(json::json_members(o), json::json_reals(o))
}

/// Puts `value` under `key` where `present`, into an object without
/// fractions.
fn put_if(o: &mut JsonObject, present: bool, key: &str, value: JsonScalar)
    requires
        json::is_flat(json::json_members(*old(o))),
        fractions_in(*old(o)) == json::no_reals(),
    ensures
        json::json_members(*final(o)) == with_member(
            json::json_members(*old(o)),
            present,
            key@,
            json::stored(value, json::parsed_real(json::decimal_text(value))),
        ),
        json::is_flat(json::json_members(*final(o))),
        fractions_in(*final(o)) == json::only_fraction(
            key@,
            if present && value is Real {
                json::parsed_real(json::decimal_text(value))
            } else {
                None
            },
        ),
{
    reveal(with_member);
    reveal(json::is_flat);
    reveal(json::fractions);
    if present {
        object_put(o, key, value);
        proof {
            let f = fractions_in(*old(o));
            assert forall|k: Seq<char>| k != key@ implies !(#[trigger] fractions_in(*o).contains_key(
                k,
            )) by {
                assert(!f.contains_key(k));
                let before = json::json_reals(*old(o));
                let after = json::json_reals(*o);
                assert(after.remove(key@).contains_key(k) == before.remove(key@).contains_key(k));
            }
            assert(fractions_in(*o) =~= json::only_fraction(
                key@,
                if value is Real {
                    json::parsed_real(json::decimal_text(value))
                } else {
                    None
                },
            ));
        }
    }
}

/// An object without members.
fn empty_object() -> (o: JsonObject)
    ensures
        json::json_members(o) == json::no_members(),
        json::is_flat(json::json_members(o)),
        fractions_in(o) == json::no_reals(),
{
    reveal(json::is_flat);
    reveal(json::fractions);
    let o = object_new();
    assert(fractions_in(o) =~= json::no_reals());
    o
}

impl SettingsData {
    /// A copy of the settings.
    pub fn snapshot(&self) -> (r: Self)
        ensures
            r@ == self@,
    {
        SettingsData {
            server_url: self.server_url.clone(),
            hwdec: self.hwdec.clone(),
            audio_passthrough: self.audio_passthrough.clone(),
            audio_channels: self.audio_channels.clone(),
            log_level: self.log_level.clone(),
            device_name: self.device_name.clone(),
            window: self.window,
            audio_exclusive: self.audio_exclusive,
            disable_gpu_compositing: self.disable_gpu_compositing,
            transparent_titlebar: self.transparent_titlebar,
            force_transcoding: self.force_transcoding,
            window_decorations: self.window_decorations,
            hide_scrollbar: self.hide_scrollbar,
        }
    }

    /// Lays a JSON object over the settings and hands back what it says of
    /// the scale and the decorations.
    pub fn overlay_json(&mut self, o: &JsonObject) -> (r: Unresolved)
        ensures
            final(self)@ == overlaid(old(self)@, json::json_members(*o)),
            r.window_scale == json::real_at(json::json_reals(*o), "windowScale"@),
            r.window_scale is Some == json::number_at(json::json_members(*o), "windowScale"@),
            opt_text(r.window_decorations) == json::text_at(json::json_members(*o), "windowDecorations"@),
    {
        let device_name = match text_member(o, "deviceName") {
            Some(n) => clip_text(n.as_str(), DEVICE_NAME_MAX),
            None => self.device_name.clone(),
        };
        let next = SettingsData {
            server_url: text_member_or(o, "serverUrl", &self.server_url),
            hwdec: text_member_or(o, "hwdec", &self.hwdec),
            audio_passthrough: text_member_or(o, "audioPassthrough", &self.audio_passthrough),
            audio_channels: text_member_or(o, "audioChannels", &self.audio_channels),
            log_level: text_member_or(o, "logLevel", &self.log_level),
            device_name,
            window: JfnWindowGeometry {
                x: int_member_or(o, "windowX", self.window.x),
                y: int_member_or(o, "windowY", self.window.y),
                width: int_member_or(o, "windowWidth", self.window.width),
                height: int_member_or(o, "windowHeight", self.window.height),
                logical_width: int_member_or(o, "windowLogicalWidth", self.window.logical_width),
                logical_height: int_member_or(
                    o,
                    "windowLogicalHeight",
                    self.window.logical_height,
                ),
                scale_bits: self.window.scale_bits,
                maximized: flag_member_or(o, "windowMaximized", self.window.maximized),
            },
            audio_exclusive: flag_member_or(o, "audioExclusive", self.audio_exclusive),
            disable_gpu_compositing: flag_member_or(
                o,
                "disableGpuCompositing",
                self.disable_gpu_compositing,
            ),
            transparent_titlebar: flag_member_or(
                o,
                "transparentTitlebar",
                self.transparent_titlebar,
            ),
            force_transcoding: flag_member_or(o, "forceTranscoding", self.force_transcoding),
            window_decorations: self.window_decorations,
            hide_scrollbar: flag_member_or(o, "hideScrollbar", self.hide_scrollbar),
        };
        *self = next;
        Unresolved {
            window_scale: real_member(o, "windowScale"),
            window_decorations: text_member(o, "windowDecorations"),
        }
    }

    /// Puts the server and the window's placement into an empty object.
    fn put_placement(&self, o: &mut JsonObject)
        requires
            json::json_members(*old(o)) == json::no_members(),
            json::is_flat(json::json_members(*old(o))),
            fractions_in(*old(o)) == json::no_reals(),
        ensures
            json::json_members(*final(o)) == placement_members(self@),
            json::is_flat(json::json_members(*final(o))),
            fractions_in(*final(o)) == json::no_reals(),
    {
        let w = self.window;
        let sized = w.width > 0 && w.height > 0;
        let sized_logically = w.logical_width > 0 && w.logical_height > 0;
        let placed = w.x >= 0 && w.y >= 0;
        put_if(
            o,
            !self.server_url.as_str().is_empty(),
            "serverUrl",
            JsonScalar::Text(self.server_url.clone()),
        );
        put_if(o, sized, "windowWidth", JsonScalar::Int(w.width));
        put_if(o, sized, "windowHeight", JsonScalar::Int(w.height));
        put_if(o, sized_logically, "windowLogicalWidth", JsonScalar::Int(w.logical_width));
        put_if(o, sized_logically, "windowLogicalHeight", JsonScalar::Int(w.logical_height));
        put_if(o, placed, "windowX", JsonScalar::Int(w.x));
        put_if(o, placed, "windowY", JsonScalar::Int(w.y));
        put_if(o, w.maximized, "windowMaximized", JsonScalar::Flag(true));
    }

    /// Puts the playback settings that are not at their default.
    fn put_playback(&self, o: &mut JsonObject, decoded: bool)
        requires
            json::is_flat(json::json_members(*old(o))),
            fractions_in(*old(o)) == json::no_reals(),
        ensures
            json::json_members(*final(o)) == with_playback(
                json::json_members(*old(o)),
                self@,
                decoded,
            ),
            json::is_flat(json::json_members(*final(o))),
            fractions_in(*final(o)) == json::no_reals(),
    {
        put_if(o, decoded, "hwdec", JsonScalar::Text(self.hwdec.clone()));
        put_if(
            o,
            !self.audio_passthrough.as_str().is_empty(),
            "audioPassthrough",
            JsonScalar::Text(self.audio_passthrough.clone()),
        );
        put_if(o, self.audio_exclusive, "audioExclusive", JsonScalar::Flag(true));
        put_if(
            o,
            !self.audio_channels.as_str().is_empty(),
            "audioChannels",
            JsonScalar::Text(self.audio_channels.clone()),
        );
        put_if(
            o,
            self.disable_gpu_compositing,
            "disableGpuCompositing",
            JsonScalar::Flag(true),
        );
        put_if(o, !self.transparent_titlebar, "transparentTitlebar", JsonScalar::Flag(false));
        put_if(
            o,
            !self.log_level.as_str().is_empty(),
            "logLevel",
            JsonScalar::Text(self.log_level.clone()),
        );
    }

    /// The settings as a JSON object. `scale_text` is the window scale as a
    /// decimal and `decorations_name` the name of the configured decorations;
    /// each is used only where that setting is written at all.
    pub fn to_json(&self, scale_text: &str, decorations_name: &str) -> (o: JsonObject)
        ensures
            json::json_members(o) == saved_members(
                self@,
                scale_member(scale_text@),
                decorations_name@,
            ),
            json::is_flat(json::json_members(o)),
            json::fractions(json::json_members(o), json::json_reals(o)) == saved_fractions(
                self@,
                scale_text@,
            ),
    {
        let mut o = empty_object();
        self.put_placement(&mut o);
        let decoded = !self.hwdec.as_str().is_empty() && !same_text(
            self.hwdec.as_str(),
            HWDEC_DEFAULT,
        );
        self.put_playback(&mut o, decoded);
        put_if(&mut o, self.force_transcoding, "forceTranscoding", JsonScalar::Flag(true));
        put_if(
            &mut o,
            self.window_decorations.is_some(),
            "windowDecorations",
            JsonScalar::Text(decorations_name.to_owned()),
        );
        put_if(&mut o, !self.hide_scrollbar, "hideScrollbar", JsonScalar::Flag(false));
        put_if(
            &mut o,
            !self.device_name.as_str().is_empty(),
            "deviceName",
            JsonScalar::Text(self.device_name.clone()),
        );
        let scaled = positive_f32(self.window.scale_bits);
        put_if(&mut o, scaled, "windowScale", JsonScalar::Real(scale_text.to_owned()));
        o
    }

    /// The settings as the web client gets them, on one line. The decorations
    /// are left out: their effective value needs the platform's default.
    pub fn cli_json(&self, hwdec_opts: &[&str], default_name: &str) -> (r: String)
        ensures
            r@ == json::json_compact(
                cli_members(self@, borrowed_texts(hwdec_opts@), default_name@),
                json::no_reals(),
            ),
            json::reads_back(
                json::json_object(r@),
                cli_members(self@, borrowed_texts(hwdec_opts@), default_name@),
            ),
    {
        let mut o = empty_object();
        self.put_playback(&mut o, !self.hwdec.as_str().is_empty());
        put_if(&mut o, true, "forceTranscoding", JsonScalar::Flag(self.force_transcoding));
        put_if(&mut o, true, "hideScrollbar", JsonScalar::Flag(self.hide_scrollbar));
        put_if(
            &mut o,
            !self.device_name.as_str().is_empty(),
            "deviceName",
            JsonScalar::Text(self.device_name.clone()),
        );
        put_if(
            &mut o,
            true,
            "deviceNameDefault",
            JsonScalar::Text(default_name.to_owned()),
        );
        let opts = owned_texts(hwdec_opts);
        put_if(&mut o, true, "hwdecOptions", JsonScalar::List(opts));
        object_compact(&o)
    }
}

/// The texts of a list of borrowed strings.
pub open spec fn borrowed_texts(list: Seq<&str>) -> Seq<Seq<char>> {
    list.map_values(|s: &str| s@)
}

fn owned_texts(list: &[&str]) -> (r: Vec<String>)
    ensures
        text::texts(r@) == borrowed_texts(list@),
{
    let mut out: Vec<String> = Vec::new();
    for i in 0..list.len()
        invariant
            text::texts(out@) == borrowed_texts(list@.take(i as int)),
    {
        let ghost before = out@;
        out.push(list[i].to_owned());
        assert(text::texts(out@) =~= text::texts(before).push(list@[i as int]@));
        assert(borrowed_texts(list@.take(i + 1)) =~= borrowed_texts(list@.take(i as int)).push(
            list@[i as int]@,
        ));
    }
    assert(list@.take(list@.len() as int) =~= list@);
    out
}

/// The member of a window scale given as a decimal text.
pub open spec fn scale_member(scale_text: Seq<char>) -> Member {
    if json::parsed_real(scale_text) is Some {
        Member::Real
    } else {
        Member::Null
    }
}

} // verus!
