//! How drop-down lists are shown by each display backend.
use crate::platform_abi::{DisplayBackend, SurfaceHandle};
use vstd::prelude::*;

verus! {

/// A drop-down list to be shown. `C` is what is called with the index of the
/// picked option, minus one for a cancel; dropping it uncalled cancels too.
#[derive(Debug)]
pub struct JfnPopupRequest<C> {
    pub x: i32,
    pub y: i32,
    pub lw: i32,
    pub lh: i32,
    pub options: Vec<String>,
    pub initial_highlight: i32,
    pub on_selected: Option<C>,
}

/// Who draws a drop-down list.
#[derive(Clone, Copy, Debug, PartialEq, Eq, Structural)]
pub enum DropdownStyle {
    /// The backend draws a menu of its own; the pick is replayed into the
    /// browser's invisible one.
    PlatformMenu,
    /// The browser's own list is composited.
    Composited,
    /// A script in the page draws it.
    JsMenu,
}

/// Who draws drop-down lists under a backend.
pub open spec fn style_of(b: DisplayBackend) -> DropdownStyle {
    match b {
        DisplayBackend::Wayland => DropdownStyle::PlatformMenu,
        DisplayBackend::X11 => DropdownStyle::JsMenu,
        DisplayBackend::Windows => DropdownStyle::Composited,
        DisplayBackend::MacOS => DropdownStyle::PlatformMenu,
    }
}

/// Who draws drop-down lists under a backend.
pub fn dropdown_style(b: DisplayBackend) -> (r: DropdownStyle)
    ensures
        r == style_of(b),
{
    match b {
        DisplayBackend::Wayland => DropdownStyle::PlatformMenu,
        DisplayBackend::X11 => DropdownStyle::JsMenu,
        DisplayBackend::Windows => DropdownStyle::Composited,
        DisplayBackend::MacOS => DropdownStyle::PlatformMenu,
    }
}

/// A script that a way of showing drop-down lists needs in the page.
#[derive(Clone, Copy, Debug, PartialEq, Eq, Structural)]
pub enum DropdownScript {
    SelectMenu,
}

/// A way of showing drop-down lists. What a backend does not do itself does
/// nothing, and a request that is dropped is cancelled.
pub trait DropdownBackend {
    /// The scripts that the page needs.
    fn scripts(&self) -> (r: Vec<DropdownScript>)
        default_ensures
            r@ == Seq::<DropdownScript>::empty(),
    {
        Vec::new()
    }

    /// Shows a list on a surface. What comes back is the request where it is
    /// not taken: drop it.
    fn show<C>(&self, _s: SurfaceHandle, req: JfnPopupRequest<C>) -> (r: Option<
        JfnPopupRequest<C>,
    >)
        default_ensures
            r == Some(req),
    {
        Some(req)
    }

    /// Takes the list of a surface away. True where there was one.
    fn hide_list(&self, _s: SurfaceHandle) -> (r: bool)
        default_ensures
            !r,
    {
        false
    }

    /// Takes a painted frame of the list. True where it was shown.
    fn present(&self, _s: SurfaceHandle, _lw: i32, _lh: i32) -> (r: bool)
        default_ensures
            !r,
    {
        false
    }

    /// Takes a painted frame of the list in memory. True where it was shown.
    fn present_software(
        &self,
        _s: SurfaceHandle,
        _buffer: &[u8],
        _pw: i32,
        _ph: i32,
        _lw: i32,
        _lh: i32,
    ) -> (r: bool)
        default_ensures
            !r,
    {
        false
    }
}

/// The list is drawn by a script in the page; a request is dropped, which
/// cancels the browser's own list.
#[derive(Clone, Copy, Debug, PartialEq, Eq, Structural)]
pub struct JsMenuDropdown;

impl DropdownBackend for JsMenuDropdown {
    fn scripts(&self) -> (r: Vec<DropdownScript>)
        ensures
            r@ == seq![DropdownScript::SelectMenu],
    {
        let mut out: Vec<DropdownScript> = Vec::new();
        out.push(DropdownScript::SelectMenu);
        assert(out@ =~= seq![DropdownScript::SelectMenu]);
        out
    }
}

} // verus!
