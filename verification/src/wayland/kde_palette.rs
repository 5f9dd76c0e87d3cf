//! Colour of the title bar under KWin: a colour scheme file per colour, of
//! which the window names the current one.
use crate::text;
use crate::text::{decimal_text, replace_all};
use vstd::prelude::*;
use vstd::slice::slice_to_vec;
use vstd::string::*;

verus! {

/// Where the scheme files go, and the one in force.
#[derive(Debug)]
pub struct PaletteState {
    pub colors_dir: Vec<u8>,
    pub current_path: Option<Vec<u8>>,
}

/// A colour as the scheme file holds it.
pub open spec fn triple(r: u8, g: u8, b: u8) -> Seq<char> {
    text::decimal(r as int).push(',') + text::decimal(g as int).push(',') + text::decimal(b as int)
}

fn triple_text(r: u8, g: u8, b: u8) -> (t: String)
    ensures
        t@ == triple(r, g, b),
{
    let mut out = decimal_text(r as u32);
    crate::text::string_push(&mut out, ',');
    out.append(decimal_text(g as u32).as_str());
    crate::text::string_push(&mut out, ',');
    out.append(decimal_text(b as u32).as_str());
    assert(out@ =~= triple(r, g, b));
    out
}

/// A template with its four fields filled in: the background twice, and a
/// foreground that is readable on it.
pub open spec fn filled(template: Seq<char>, r: u8, g: u8, b: u8, dark: bool) -> Seq<char> {
    let bg = triple(r, g, b);
    let active = if dark {
        "252,252,252"@
    } else {
        "35,38,41"@
    };
    let inactive = if dark {
        "126,126,126"@
    } else {
        "35,38,41"@
    };
    let t = text::replaced(template, "%HEADER_BG%"@, bg);
    let t = text::replaced(t, "%INACTIVE_BG%"@, bg);
    let t = text::replaced(t, "%ACTIVE_FG%"@, active);
    text::replaced(t, "%INACTIVE_FG%"@, inactive)
}

/// The scheme file for a colour. `dark` says that its luminance is below one
/// half.
pub fn color_scheme(template: &str, r: u8, g: u8, b: u8, dark: bool) -> (t: String)
    ensures
        t@ == filled(template@, r, g, b, dark),
{
    proof {
        reveal_strlit("%HEADER_BG%");
        reveal_strlit("%INACTIVE_BG%");
        reveal_strlit("%ACTIVE_FG%");
        reveal_strlit("%INACTIVE_FG%");
    }
    let bg = triple_text(r, g, b);
    let active = if dark {
        "252,252,252"
    } else {
        "35,38,41"
    };
    let inactive = if dark {
        "126,126,126"
    } else {
        "35,38,41"
    };
    let t = replace_all(template, "%HEADER_BG%", bg.as_str());
    let t = replace_all(t.as_str(), "%INACTIVE_BG%", bg.as_str());
    let t = replace_all(t.as_str(), "%ACTIVE_FG%", active);
    replace_all(t.as_str(), "%INACTIVE_FG%", inactive)
}

/// A file in a directory. A separator is added where the directory's path
/// does not end in one.
pub open spec fn joined(dir: Seq<u8>, name: Seq<u8>) -> Seq<u8> {
    if dir.len() == 0 || dir.last() == 0x2F {
        dir + name
    } else {
        dir.push(0x2F) + name
    }
}

fn join(dir: &[u8], name: &[u8]) -> (r: Vec<u8>)
    ensures
        r@ == joined(dir@, name@),
{
    let mut out = slice_to_vec(dir);
    let n: usize = out.len();
    if n > 0 && out[n - 1] != 0x2F {
        out.push(0x2F);
    }
    let mut rest = slice_to_vec(name);
    out.append(&mut rest);
    assert(out@ =~= joined(dir@, name@));
    out
}

/// The directory of the scheme files, below the session's runtime directory;
/// none where that is not set or empty.
pub fn make_colors_dir(runtime: Option<&[u8]>) -> (r: Option<Vec<u8>>)
    ensures
        match r {
            Some(d) => runtime matches Some(p) && p@.len() > 0 && d@ == joined(
                p@,
                "jellyfin-desktop".spec_bytes(),
            ),
            None => runtime is None || (runtime->0)@.len() == 0,
        },
{
    match runtime {
        Some(p) => if p.len() == 0 {
            None
        } else {
            Some(join(p, "jellyfin-desktop".as_bytes()))
        },
        None => None,
    }
}

/// Starts the support for title bar colours. `dir` is the directory that was
/// made, where it could be. True where there is support from now on.
pub fn jfn_wl_kde_palette_init(state: &mut Option<PaletteState>, dir: Option<Vec<u8>>) -> (r: bool)
    ensures
        r == (*old(state) is Some || dir is Some),
        *final(state) == if *old(state) is Some {
            *old(state)
        } else {
            match dir {
                Some(d) => Some(PaletteState { colors_dir: d, current_path: None }),
                None => None,
            }
        },
{
    if state.is_some() {
        return true;
    }
    match dir {
        Some(d) => {
            *state = Some(PaletteState { colors_dir: d, current_path: None });
            true
        },
        None => false,
    }
}

/// Whether a text is a colour of seven bytes that starts with a hash.
pub open spec fn is_hex_color(hex: &str) -> bool {
    hex.spec_bytes().len() == 7 && hex@.len() > 0 && hex@[0] == '#'
}

/// The name of the scheme file of a colour.
pub open spec fn scheme_name(hex: &str) -> Seq<u8> {
    "JellyfinDesktop-".spec_bytes() + hex.spec_bytes().skip(1) + ".colors".spec_bytes()
}

/// Whether some bytes hold a zero.
pub open spec fn has_zero(bytes: Seq<u8>) -> bool {
    exists|i: int| 0 <= i < bytes.len() && bytes[i] == 0
}

fn holds_zero(bytes: &Vec<u8>) -> (r: bool)
    ensures
        r == has_zero(bytes@),
{
    for i in 0..bytes.len()
        invariant
            forall|j: int| 0 <= j < i ==> bytes@[j] != 0,
    {
        if bytes[i] == 0 {
            return true;
        }
    }
    false
}

fn same_bytes(a: &Vec<u8>, b: &Vec<u8>) -> (r: bool)
    ensures
        r == (a@ == b@),
{
    if a.len() != b.len() {
        return false;
    }
    for i in 0..a.len()
        invariant
            a@.len() == b@.len(),
            forall|j: int| 0 <= j < i ==> a@[j] == b@[j],
    {
        if a[i] != b[i] {
            return false;
        }
    }
    assert(a@ =~= b@);
    true
}

/// The file that a change of colour writes: none where the colour is not one,
/// support was not started, the path cannot be passed on, or the file is the
/// one in force.
pub open spec fn scheme_to_write(state: Option<PaletteState>, hex: Option<&str>) -> Option<Seq<u8>> {
    match (state, hex) {
        (Some(s), Some(h)) => {
            let path = joined(s.colors_dir@, scheme_name(h));
            if !is_hex_color(h) || has_zero(path) || (s.current_path matches Some(c) && c@
                == path) {
                None
            } else {
                Some(path)
            }
        },
        _ => None,
    }
}

/// Begins a change of the title bar's colour: gives the file to write, if
/// any. Hand it to [`palette_written`] once it is written. `hex` is absent
/// where it is not text.
pub fn jfn_wl_kde_palette_set_color(state: &Option<PaletteState>, hex: Option<&str>) -> (r: Option<
    Vec<u8>,
>)
    ensures
        match r {
            Some(p) => scheme_to_write(*state, hex) == Some(p@),
            None => scheme_to_write(*state, hex) is None,
        },
{
    let h = match hex {
        Some(h) => h,
        None => return None,
    };
    let s = match state {
        Some(s) => s,
        None => return None,
    };
    if h.as_bytes().len() != 7 || h.is_empty() || h.get_char(0) != '#' {
        return None;
    }
    let path = join(s.colors_dir.as_slice(), file_name(h).as_slice());
    if holds_zero(&path) {
        return None;
    }
    match &s.current_path {
        Some(c) => if same_bytes(c, &path) {
            None
        } else {
            Some(path)
        },
        None => Some(path),
    }
}

fn file_name(hex: &str) -> (r: Vec<u8>)
    requires
        is_hex_color(hex),
    ensures
        r@ == scheme_name(hex),
{
    let mut out = slice_to_vec("JellyfinDesktop-".as_bytes());
    let bytes = hex.as_bytes();
    for i in 1..bytes.len()
        invariant
            bytes@ == hex.spec_bytes(),
            bytes@.len() == 7,
            out@ == "JellyfinDesktop-".spec_bytes() + bytes@.subrange(1, i as int),
    {
        out.push(bytes[i]);
        assert(out@ =~= "JellyfinDesktop-".spec_bytes() + bytes@.subrange(1, i + 1));
    }
    let mut tail = slice_to_vec(".colors".as_bytes());
    out.append(&mut tail);
    assert(out@ =~= scheme_name(hex));
    out
}

/// The file in force.
pub open spec fn file_in_force(state: Option<PaletteState>) -> Option<Vec<u8>> {
    match state {
        Some(s) => s.current_path,
        None => None,
    }
}

/// The state once a file, or none, is in force.
pub open spec fn with_file(state: Option<PaletteState>, path: Option<Vec<u8>>) -> Option<
    PaletteState,
> {
    match state {
        Some(s) => Some(PaletteState { current_path: path, ..s }),
        None => None,
    }
}

/// Ends a change of the title bar's colour: the file that was written is in
/// force, and what comes back is the file before it, to be removed. The
/// window is then told the new file.
pub fn palette_written(state: &mut Option<PaletteState>, path: Vec<u8>) -> (r: Option<Vec<u8>>)
    ensures
        *final(state) == with_file(*old(state), Some(path)),
        r == file_in_force(*old(state)),
{
    match state.take() {
        Some(mut s) => {
            let before = s.current_path.take();
            s.current_path = Some(path);
            *state = Some(s);
            before
        },
        None => None,
    }
}

/// Forgets the file in force once the window is gone, and gives it to be
/// removed.
pub fn jfn_wl_kde_palette_post_window_cleanup(state: &mut Option<PaletteState>) -> (r: Option<
    Vec<u8>,
>)
    ensures
        *final(state) == with_file(*old(state), None),
        r == file_in_force(*old(state)),
{
    match state.take() {
        Some(mut s) => {
            let before = s.current_path.take();
            *state = Some(s);
            before
        },
        None => None,
    }
}

/// A file that was written is in force until it is handed back for removal, by
/// the next one or at the end; nothing is left then.
pub proof fn law_written_file_is_removed(s: PaletteState, path: Vec<u8>)
    ensures
        file_in_force(with_file(Some(s), Some(path))) == Some(path),
        file_in_force(with_file(Some(s), None)) is None,
{
}

/// Setting the colour in force again writes nothing.
pub proof fn law_same_color_is_silent(s: PaletteState, hex: &str, path: Vec<u8>)
    requires
        path@ == joined(s.colors_dir@, scheme_name(hex)),
    ensures
        scheme_to_write(Some(PaletteState { current_path: Some(path), ..s }), Some(hex)) is None,
{
}

} // verus!
