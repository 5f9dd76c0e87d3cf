//! Context menus and drop-down lists as a real popup of the window.
//!
//! The menu's surface is persistent and takes on a new popup role for each
//! menu. A popup may grab the input only in response to the press that
//! triggers it, but the menu's contents arrive later. So [`arm`] creates and
//! grabs the popup at the press and leaves it unmapped; [`show_highlighted`]
//! maps a placeholder of one pixel, which then grows to the menu.
//!
//! Events of a popup carry the generation it was created with, so that a late
//! event of one that was torn down is told apart and ignored.
use crate::wayland::buffers;
use crate::wayland::buffers::{BufferId, ManagedBuffer, ManagedBuffers};
use crate::wayland::requests::Request;
use vstd::prelude::*;

verus! {

/// How far the popup has come.
#[derive(Clone, Copy, Debug, PartialEq, Eq, Structural)]
pub enum Phase {
    /// There is no popup.
    Idle,
    /// Created at the press, not configured yet.
    AwaitPlaceholder,
    /// Configured, without contents to show.
    Placeholder,
    /// On its way to the menu's size.
    AwaitMenu,
    /// The menu is on the screen.
    Shown,
}

/// One row of a menu, in device pixels from the top of its contents.
#[derive(Clone, Copy, Debug, PartialEq, Eq, Structural)]
pub struct MenuRow {
    pub item: usize,
    pub y: i32,
    pub h: i32,
    pub separator: bool,
}

/// Rows and size of a menu's contents, in device pixels.
#[derive(Debug)]
pub struct MenuLayout {
    pub width: i32,
    pub height: i32,
    pub rows: Vec<MenuRow>,
}

/// A menu: its items, where they stand and what is visible of them. `I` is an
/// item, `C` what is called with the picked one.
#[derive(Debug)]
pub struct Menu<I, C> {
    pub items: Vec<I>,
    pub layout: MenuLayout,
    /// Index of the highlighted item, negative where none is.
    pub active: i32,
    pub pw: i32,
    /// Height of the contents.
    pub ph: i32,
    /// Height of the visible part.
    pub view_ph: i32,
    /// First visible pixel row of the contents.
    pub scroll: i32,
    /// Bit pattern of the single-precision scale.
    pub scale_bits: u32,
    /// Taken when it is called.
    pub cb: Option<C>,
    pub mapped: bool,
    pub anchor: (i32, i32),
}

/// The menu and its popup.
#[derive(Debug)]
pub struct MenuIo<I, C> {
    pub has_surface: bool,
    /// Protocol id of the surface, zero until it is named.
    pub surface_id: u32,
    pub has_viewport: bool,
    pub buffer: Option<BufferId>,
    pub menu: Option<Menu<I, C>>,
    pub phase: Phase,
    /// Generation of the popup, zero where there is none.
    pub generation: u32,
    /// Whether a menu takes the input.
    pub active: bool,
    /// Whether the popup's grab has the keyboard, or is about to. Until then
    /// a keyboard-leave of the window is a loss of focus; from then on it is
    /// not.
    pub engaged: bool,
    /// The generation that the next popup gets.
    pub next_generation: u32,
}

/// What is to be done, in order.
#[derive(Debug)]
pub enum PopupAction {
    /// A request on the menu's surface.
    Surface(Request),
    /// Create the popup with its grab, sizes in logical pixels.
    Create { generation: u32, x: i32, y: i32, w: i32, h: i32 },
    /// Create the popup with its grab, sizes in device pixels at a scale.
    CreateScaled { generation: u32, x: i32, y: i32, w: i32, h: i32, scale_bits: u32 },
    /// Move and resize the popup, sizes in device pixels at a scale.
    Reposition { x: i32, y: i32, w: i32, h: i32, scale_bits: u32 },
    /// Destroy the popup, not the surface.
    Destroy,
    /// Make a transparent buffer of one pixel and hand it to
    /// [`placeholder_painted`].
    PaintPlaceholder,
    /// Paint the menu and hand the buffer to [`menu_painted`].
    PaintMenu,
}

/// No popup was ever made.
pub open spec fn no_popup<I, C>() -> MenuIo<I, C> {
    MenuIo {
        has_surface: false,
        surface_id: 0,
        has_viewport: false,
        buffer: None,
        menu: None,
        phase: Phase::Idle,
        generation: 0,
        active: false,
        engaged: false,
        next_generation: 1,
    }
}

impl MenuLayout {
    /// Whether the lower edge of every row is representable.
    pub open spec fn wf(&self) -> bool {
        forall|i: int|
            0 <= i < self.rows@.len() ==> i32::MIN <= (#[trigger] self.rows@[i]).y
                + self.rows@[i].h <= i32::MAX
    }
}

/// The larger of two numbers.
pub open spec fn most(a: int, b: int) -> int {
    if a < b {
        b
    } else {
        a
    }
}

/// The smaller of two numbers.
pub open spec fn least(a: int, b: int) -> int {
    if a < b {
        a
    } else {
        b
    }
}

/// A number brought between two bounds.
pub open spec fn between(n: int, lo: int, hi: int) -> int {
    if n < lo {
        lo
    } else if n > hi {
        hi
    } else {
        n
    }
}

/// The height of the first row that is no separator, at least one; one where
/// there is no such row.
pub open spec fn row_height_of(rows: Seq<MenuRow>) -> int
    decreases rows.len(),
{
    if rows.len() == 0 {
        1
    } else if !rows[0].separator {
        most(rows[0].h as int, 1)
    } else {
        row_height_of(rows.drop_first())
    }
}

/// The first row of an item.
pub open spec fn row_of(rows: Seq<MenuRow>, active: i32) -> Option<MenuRow>
    decreases rows.len(),
{
    if rows.len() == 0 {
        None
    } else if rows[0].item as i32 == active {
        Some(rows[0])
    } else {
        row_of(rows.drop_first(), active)
    }
}

/// How far contents of `ph` can be scrolled in a view of `view_ph`.
pub open spec fn max_scroll_of(ph: int, view_ph: int) -> int {
    most(ph - view_ph, 0)
}

/// The least change of `scroll` that brings the highlighted row into view.
pub open spec fn scrolled_to_active(
    rows: Seq<MenuRow>,
    active: i32,
    scroll: int,
    ph: int,
    view_ph: int,
) -> int {
    if view_ph >= ph {
        scroll
    } else {
        match row_of(rows, active) {
            None => scroll,
            Some(r) => between(
                if r.y < scroll {
                    r.y as int
                } else if r.y + r.h > scroll + view_ph {
                    r.y + r.h - view_ph
                } else {
                    scroll
                },
                0,
                max_scroll_of(ph, view_ph),
            ),
        }
    }
}

impl<I, C> Menu<I, C> {
    /// The view is no taller than the contents and lies within them.
    pub open spec fn wf(&self) -> bool {
        &&& self.layout.wf()
        &&& self.view_ph <= self.ph
        &&& self.view_ph < self.ph ==> self.view_ph >= 1
        &&& 0 <= self.scroll <= max_scroll_of(self.ph as int, self.view_ph as int)
    }

    /// The height of an ordinary row.
    pub fn row_height(&self) -> (r: i32)
        ensures
            r == row_height_of(self.layout.rows@),
            r >= 1,
    {
        assert(self.layout.rows@.skip(0) =~= self.layout.rows@);
        for i in 0..self.layout.rows.len()
            invariant
                row_height_of(self.layout.rows@) == row_height_of(
                    self.layout.rows@.skip(i as int),
                ),
        {
            let row = self.layout.rows[i];
            assert(self.layout.rows@.skip(i as int)[0] == row);
            assert(self.layout.rows@.skip(i as int).drop_first() =~= self.layout.rows@.skip(i + 1));
            if !row.separator {
                return if row.h < 1 {
                    1
                } else {
                    row.h
                };
            }
        }
        1
    }

    /// How far the menu can be scrolled.
    pub fn max_scroll(&self) -> (r: i32)
        requires
            self.wf(),
        ensures
            r == max_scroll_of(self.ph as int, self.view_ph as int),
    {
        if self.view_ph < self.ph {
            self.ph - self.view_ph
        } else {
            0
        }
    }

    fn active_row(&self) -> (r: Option<MenuRow>)
        requires
            self.layout.wf(),
        ensures
            r == row_of(self.layout.rows@, self.active),
            r matches Some(row) ==> i32::MIN <= row.y + row.h <= i32::MAX,
    {
        assert(self.layout.rows@.skip(0) =~= self.layout.rows@);
        for i in 0..self.layout.rows.len()
            invariant
                self.layout.wf(),
                row_of(self.layout.rows@, self.active) == row_of(
                    self.layout.rows@.skip(i as int),
                    self.active,
                ),
        {
            let row = self.layout.rows[i];
            assert(self.layout.rows@.skip(i as int)[0] == row);
            assert(self.layout.rows@.skip(i as int).drop_first() =~= self.layout.rows@.skip(i + 1));
            if row.item as i32 == self.active {
                assert(self.layout.rows@[i as int] == row);
                return Some(row);
            }
        }
        None
    }

    /// Scrolls as little as needed for the highlighted row to be in view.
    pub fn scroll_active_into_view(&mut self)
        requires
            old(self).wf(),
        ensures
            final(self).wf(),
            final(self).scroll == scrolled_to_active(
                old(self).layout.rows@,
                old(self).active,
                old(self).scroll as int,
                old(self).ph as int,
                old(self).view_ph as int,
            ),
            *final(self) == (Menu { scroll: final(self).scroll, ..*old(self) }),
    {
        if self.view_ph >= self.ph {
            return;
        }
        let r = match self.active_row() {
            Some(r) => r,
            None => return,
        };
        let limit = self.max_scroll();
        let mut scroll = self.scroll;
        if r.y < scroll {
            scroll = r.y;
        } else if r.y + r.h > scroll + self.view_ph {
            scroll = r.y + r.h - self.view_ph;
        }
        if scroll < 0 {
            scroll = 0;
        } else if scroll > limit {
            scroll = limit;
        }
        self.scroll = scroll;
    }
}

/// Bytes in the order blue, green, red, alpha from bytes in the order red,
/// green, blue, alpha. Bytes behind the last whole pixel become zero.
pub open spec fn swapped(rgba: Seq<u8>) -> Seq<u8> {
    Seq::new(
        rgba.len(),
        |k: int|
            if k - k % 4 + 3 < rgba.len() {
                if k % 4 == 0 {
                    rgba[k + 2]
                } else if k % 4 == 2 {
                    rgba[k - 2]
                } else {
                    rgba[k]
                }
            } else {
                0
            },
    )
}

/// Swaps red and blue of every pixel.
pub fn to_bgra(rgba: &[u8]) -> (r: Vec<u8>)
    ensures
        r@ == swapped(rgba@),
{
    let n: usize = rgba.len();
    let mut out: Vec<u8> = Vec::new();
    let mut i: usize = 0;
    while n - i > 3
        invariant
            i <= n,
            n == rgba@.len(),
            i % 4 == 0,
            out@ == swapped(rgba@).take(i as int),
        decreases n - i,
    {
        out.push(rgba[i + 2]);
        out.push(rgba[i + 1]);
        out.push(rgba[i]);
        out.push(rgba[i + 3]);
        assert(out@ =~= swapped(rgba@).take(i + 4));
        i = i + 4;
    }
    while i < n
        invariant
            i <= n,
            n == rgba@.len(),
            n - (i - i % 4) <= 3,
            out@ == swapped(rgba@).take(i as int),
        decreases n - i,
    {
        out.push(0);
        assert(out@ =~= swapped(rgba@).take(i + 1));
        i = i + 1;
    }
    assert(out@ =~= swapped(rgba@));
    out
}

/// Swapping twice gives back whole pixels.
pub proof fn law_swap_is_its_own_inverse(rgba: Seq<u8>)
    requires
        rgba.len() % 4 == 0,
    ensures
        swapped(swapped(rgba)) == rgba,
{
    assert(swapped(swapped(rgba)) =~= rgba);
}

/// The popup is gone and so is the menu, whose callback was not called.
pub open spec fn cleared<I, C>(io: MenuIo<I, C>) -> MenuIo<I, C> {
    MenuIo {
        menu: None,
        phase: Phase::Idle,
        generation: 0,
        active: false,
        engaged: false,
        ..io
    }
}

/// The generation after one.
pub open spec fn generation_after(g: u32) -> u32 {
    if g == u32::MAX {
        1
    } else {
        (g + 1) as u32
    }
}

impl<I, C> MenuIo<I, C> {
    /// No popup was ever made.
    pub fn new() -> (r: Self)
        ensures
            r == no_popup::<I, C>(),
            r.wf(),
    {
        MenuIo {
            has_surface: false,
            surface_id: 0,
            has_viewport: false,
            buffer: None,
            menu: None,
            phase: Phase::Idle,
            generation: 0,
            active: false,
            engaged: false,
            next_generation: 1,
        }
    }

    /// A menu that is on the screen is mapped, a menu's view lies within it,
    /// and a generation in use is not zero.
    pub open spec fn wf(&self) -> bool {
        &&& self.next_generation >= 1
        &&& self.phase == Phase::Idle <==> self.generation == 0
        &&& self.menu matches Some(m) ==> m.wf()
        &&& self.phase == Phase::Idle || self.phase == Phase::Placeholder ==> self.menu is None
        &&& self.phase == Phase::AwaitMenu || self.phase == Phase::Shown ==> self.menu is Some
        &&& self.menu matches Some(m) ==> (m.mapped <==> self.phase == Phase::Shown)
        &&& self.active || self.phase == Phase::AwaitMenu || self.phase == Phase::Shown
            ==> self.engaged
        &&& self.engaged ==> self.phase == Phase::AwaitMenu || self.phase == Phase::Shown
    }

    fn clear_menu(&mut self)
        ensures
            *final(self) == cleared(*old(self)),
    {
        self.active = false;
        self.engaged = false;
        self.menu = None;
        self.phase = Phase::Idle;
        self.generation = 0;
    }

    fn take_generation(&mut self) -> (r: u32)
        ensures
            r == old(self).next_generation,
            *final(self) == (MenuIo {
                next_generation: generation_after(old(self).next_generation),
                ..*old(self)
            }),
    {
        let g = self.next_generation;
        self.next_generation = if g == u32::MAX {
            1
        } else {
            g + 1
        };
        g
    }

    /// Notes the protocol id of the menu's surface, and whether it has a
    /// viewport.
    pub fn name_surface(&mut self, id: u32, has_viewport: bool)
        ensures
            *final(self) == (MenuIo { surface_id: id, has_viewport, ..*old(self) }),
    {
        self.surface_id = id;
        self.has_viewport = has_viewport;
    }
}

/// The requests that make the surface free of a role and a buffer: none
/// without a `shell` to make popups with.
pub open spec fn bare_surface_requests(
    has_surface: bool,
    buffer: Option<BufferId>,
    shell: bool,
) -> Seq<PopupAction> {
    if !shell {
        Seq::empty()
    } else {
        (if has_surface {
            Seq::empty()
        } else {
            seq![
                PopupAction::Surface(Request::CreateSurface),
                PopupAction::Surface(Request::CreateViewport),
            ]
        }) + (match buffer {
            Some(b) => seq![PopupAction::Surface(Request::RetireBuffer(b))],
            None => Seq::empty(),
        }) + seq![
            PopupAction::Surface(Request::Detach),
            PopupAction::Surface(Request::Commit),
            PopupAction::Surface(Request::Flush),
        ]
    }
}

/// The popup with its surface made ready.
pub open spec fn surfaced<I, C>(io: MenuIo<I, C>, shell: bool) -> MenuIo<I, C> {
    if shell {
        MenuIo { has_surface: true, buffer: None, ..io }
    } else {
        io
    }
}

impl<I, C> MenuIo<I, C> {
    fn ensure_surface(&mut self, shell: bool) -> (r: Vec<PopupAction>)
        ensures
            *final(self) == surfaced(*old(self), shell),
            r@ == bare_surface_requests(old(self).has_surface, old(self).buffer, shell),
    {
        let mut out: Vec<PopupAction> = Vec::new();
        if !shell {
            return out;
        }
        if !self.has_surface {
            out.push(PopupAction::Surface(Request::CreateSurface));
            out.push(PopupAction::Surface(Request::CreateViewport));
            self.has_surface = true;
        }
        if let Some(b) = self.buffer.take() {
            out.push(PopupAction::Surface(Request::RetireBuffer(b)));
        }
        out.push(PopupAction::Surface(Request::Detach));
        out.push(PopupAction::Surface(Request::Commit));
        out.push(PopupAction::Surface(Request::Flush));
        assert(out@ =~= bare_surface_requests(old(self).has_surface, old(self).buffer, shell));
        out
    }
}

/// The popup after [`arm`].
pub open spec fn armed<I, C>(io: MenuIo<I, C>, shell: bool) -> MenuIo<I, C> {
    MenuIo {
        generation: io.next_generation,
        next_generation: generation_after(io.next_generation),
        phase: Phase::AwaitPlaceholder,
        ..surfaced(cleared(io), shell)
    }
}

/// Creates and grabs a popup at a press, before it is known whether a menu
/// opens. What was there before is torn down, its callback not called.
/// `shell` says whether popups can be made.
pub fn arm<I, C>(io: &mut MenuIo<I, C>, x: i32, y: i32, shell: bool) -> (r: Vec<PopupAction>)
    requires
        old(io).wf(),
    ensures
        final(io).wf(),
        *final(io) == armed(*old(io), shell),
        r@ == bare_surface_requests(old(io).has_surface, old(io).buffer, shell) + if shell
            || old(io).has_surface {
            seq![
                PopupAction::Create { generation: old(io).next_generation, x, y, w: 1, h: 1 },
            ]
        } else {
            Seq::empty()
        },
{
    let generation = io.take_generation();
    io.clear_menu();
    io.generation = generation;
    let mut out = io.ensure_surface(shell);
    io.phase = Phase::AwaitPlaceholder;
    if io.has_surface {
        out.push(PopupAction::Create { generation, x, y, w: 1, h: 1 });
    }
    assert(out@ =~= bare_surface_requests(old(io).has_surface, old(io).buffer, shell) + if shell
        || old(io).has_surface {
        seq![PopupAction::Create { generation, x, y, w: 1, h: 1 }]
    } else {
        Seq::empty()
    });
    out
}

/// What a menu is made of: where it opens and how it is laid out.
#[derive(Debug)]
pub struct MenuRequest<I, C> {
    pub items: Vec<I>,
    pub layout: MenuLayout,
    pub x: i32,
    pub y: i32,
    /// Wanted width in logical pixels; not positive for a width after the
    /// contents.
    pub width: i32,
    /// The wanted width in device pixels.
    pub scaled_width: i32,
    /// `y` in device pixels.
    pub anchor_ph_y: i32,
    /// Index of the item highlighted first, negative for none.
    pub initial: i32,
    /// Bit pattern of the single-precision scale.
    pub scale_bits: u32,
    pub cb: C,
}

impl<I, C> MenuRequest<I, C> {
    /// Whether all edges are representable.
    pub open spec fn wf(&self, win_ph: i32) -> bool {
        &&& self.layout.wf()
        &&& self.width > 0 && win_ph > 0 ==> i32::MIN <= win_ph - self.anchor_ph_y <= i32::MAX
    }
}

/// The visible height of a menu. Only a drop-down, which has a wanted width,
/// is cut at the window's lower edge, and then at least a row is left.
pub open spec fn visible_height<I, C>(q: MenuRequest<I, C>, win_ph: int) -> int {
    if q.width > 0 && win_ph > 0 {
        least(
            q.layout.height as int,
            most(win_ph - q.anchor_ph_y, row_height_of(q.layout.rows@)),
        )
    } else {
        q.layout.height as int
    }
}

/// The width of a menu.
pub open spec fn menu_width<I, C>(q: MenuRequest<I, C>) -> int {
    if q.width > 0 {
        most(q.scaled_width as int, 1)
    } else {
        q.layout.width as int
    }
}

/// Whether a menu is the one asked for, apart from whether it is mapped.
pub open spec fn is_menu_for<I, C>(m: Menu<I, C>, q: MenuRequest<I, C>, win_ph: int) -> bool {
    &&& m.items == q.items
    &&& m.layout.rows == q.layout.rows
    &&& m.layout.width == menu_width(q)
    &&& m.layout.height == q.layout.height
    &&& m.active == q.initial
    &&& m.pw == menu_width(q)
    &&& m.ph == q.layout.height
    &&& m.view_ph == visible_height(q, win_ph)
    &&& m.scroll == scrolled_to_active(
        q.layout.rows@,
        q.initial,
        0,
        q.layout.height as int,
        visible_height(q, win_ph),
    )
    &&& m.scale_bits == q.scale_bits
    &&& m.cb == Some(q.cb)
    &&& m.anchor == (q.x, q.y)
}

fn build_menu<I, C>(q: MenuRequest<I, C>, win_ph: i32) -> (m: Menu<I, C>)
    requires
        q.wf(win_ph),
    ensures
        m.wf(),
        !m.mapped,
        is_menu_for(m, q, win_ph as int),
{
    let dropdown = q.width > 0 && win_ph > 0;
    let pw = if q.width > 0 {
        if q.scaled_width < 1 {
            1
        } else {
            q.scaled_width
        }
    } else {
        q.layout.width
    };
    let ph = q.layout.height;
    let mut menu = Menu {
        items: q.items,
        layout: MenuLayout { width: pw, height: ph, rows: q.layout.rows },
        active: q.initial,
        pw,
        ph,
        view_ph: ph,
        scroll: 0,
        scale_bits: q.scale_bits,
        cb: Some(q.cb),
        mapped: false,
        anchor: (q.x, q.y),
    };
    if dropdown {
        let avail = win_ph - q.anchor_ph_y;
        let row = menu.row_height();
        let room = if avail < row {
            row
        } else {
            avail
        };
        menu.view_ph = if room < ph {
            room
        } else {
            ph
        };
    }
    menu.scroll_active_into_view();
    menu
}

/// The reposition that takes a popup to its menu's size.
pub open spec fn reposition_for<I, C>(m: Menu<I, C>) -> PopupAction {
    PopupAction::Reposition {
        x: m.anchor.0,
        y: m.anchor.1,
        w: m.pw,
        h: m.view_ph,
        scale_bits: m.scale_bits,
    }
}

/// The popup once the placeholder is being mapped for its menu.
pub open spec fn begun<I, C>(io: MenuIo<I, C>) -> MenuIo<I, C> {
    MenuIo { active: true, engaged: true, phase: Phase::AwaitMenu, ..io }
}

impl<I, C> MenuIo<I, C> {
    /// Maps the placeholder, from which the popup grows to its menu. From
    /// here on the grab takes the keyboard, so the popup counts as engaged
    /// before the placeholder is painted.
    fn begin_menu(&mut self) -> (r: Vec<PopupAction>)
        requires
            old(self).menu is Some,
        ensures
            *final(self) == begun(*old(self)),
            r@ == seq![PopupAction::PaintPlaceholder, reposition_for(old(self).menu->0)],
    {
        self.active = true;
        self.engaged = true;
        let mut out: Vec<PopupAction> = Vec::new();
        out.push(PopupAction::PaintPlaceholder);
        if let Some(m) = &self.menu {
            out.push(
                PopupAction::Reposition {
                    x: m.anchor.0,
                    y: m.anchor.1,
                    w: m.pw,
                    h: m.view_ph,
                    scale_bits: m.scale_bits,
                },
            );
        }
        self.phase = Phase::AwaitMenu;
        assert(out@ =~= seq![PopupAction::PaintPlaceholder, reposition_for(old(self).menu->0)]);
        out
    }
}

/// The popup once a menu was opened on it.
pub open spec fn opened<I, C>(io: MenuIo<I, C>, m: Menu<I, C>, shell: bool) -> MenuIo<I, C> {
    let with_menu = MenuIo { menu: Some(m), ..io };
    match io.phase {
        Phase::Placeholder => begun(with_menu),
        Phase::AwaitPlaceholder | Phase::AwaitMenu | Phase::Shown => with_menu,
        Phase::Idle => MenuIo {
            engaged: true,
            generation: io.next_generation,
            next_generation: generation_after(io.next_generation),
            phase: Phase::AwaitMenu,
            ..surfaced(with_menu, shell)
        },
    }
}

/// What opening a menu leads to.
pub open spec fn open_actions<I, C>(io: MenuIo<I, C>, m: Menu<I, C>, shell: bool) -> Seq<
    PopupAction,
> {
    match io.phase {
        Phase::Placeholder => seq![PopupAction::PaintPlaceholder, reposition_for(m)],
        Phase::AwaitPlaceholder | Phase::AwaitMenu => Seq::empty(),
        Phase::Shown => seq![PopupAction::PaintMenu, reposition_for(m)],
        Phase::Idle => bare_surface_requests(io.has_surface, io.buffer, shell) + if shell
            || io.has_surface {
            seq![
                PopupAction::CreateScaled {
                    generation: io.next_generation,
                    x: m.anchor.0,
                    y: m.anchor.1,
                    w: m.pw,
                    h: m.view_ph,
                    scale_bits: m.scale_bits,
                },
            ]
        } else {
            Seq::empty()
        },
    }
}

/// Opens a menu, in place of one that is open.
///
/// On a popup that waits for its contents the placeholder is mapped; one that
/// is not configured yet is left for [`on_ready`]. Without a popup one is made
/// at the menu's size. A menu on the screen is replaced at once: no configure
/// will follow.
pub fn show_highlighted<I, C>(
    io: &mut MenuIo<I, C>,
    q: MenuRequest<I, C>,
    win_ph: i32,
    shell: bool,
) -> (r: Vec<PopupAction>)
    requires
        old(io).wf(),
        q.wf(win_ph),
    ensures
        final(io).wf(),
        final(io).menu is Some,
        is_menu_for(final(io).menu->0, q, win_ph as int),
        *final(io) == opened(*old(io), final(io).menu->0, shell),
        r@ == open_actions(*old(io), final(io).menu->0, shell),
{
    let (x, y, scale_bits) = (q.x, q.y, q.scale_bits);
    let mut menu = build_menu(q, win_ph);
    let (pw, view_ph) = (menu.pw, menu.view_ph);
    match io.phase {
        Phase::Placeholder => {
            io.menu = Some(menu);
            io.begin_menu()
        },
        Phase::AwaitPlaceholder => {
            io.menu = Some(menu);
            Vec::new()
        },
        Phase::AwaitMenu => {
            io.menu = Some(menu);
            Vec::new()
        },
        Phase::Idle => {
            io.menu = Some(menu);
            let generation = io.take_generation();
            io.engaged = true;
            io.generation = generation;
            let mut out = io.ensure_surface(shell);
            io.phase = Phase::AwaitMenu;
            if io.has_surface {
                out.push(
                    PopupAction::CreateScaled { generation, x, y, w: pw, h: view_ph, scale_bits },
                );
            }
            assert(out@ =~= bare_surface_requests(old(io).has_surface, old(io).buffer, shell)
                + if shell || old(io).has_surface {
                seq![
                    PopupAction::CreateScaled { generation, x, y, w: pw, h: view_ph, scale_bits },
                ]
            } else {
                Seq::empty()
            });
            out
        },
        Phase::Shown => {
            menu.mapped = true;
            let mut out: Vec<PopupAction> = Vec::new();
            out.push(PopupAction::PaintMenu);
            out.push(PopupAction::Reposition { x, y, w: pw, h: view_ph, scale_bits });
            io.menu = Some(menu);
            assert(out@ =~= seq![PopupAction::PaintMenu, reposition_for(io.menu->0)]);
            out
        },
    }
}

/// Opens a context menu: as wide as its contents, nothing highlighted.
pub fn show<I, C>(
    io: &mut MenuIo<I, C>,
    items: Vec<I>,
    layout: MenuLayout,
    x: i32,
    y: i32,
    scale_bits: u32,
    cb: C,
    shell: bool,
) -> (r: Vec<PopupAction>)
    requires
        old(io).wf(),
        layout.wf(),
    ensures
        final(io).wf(),
        final(io).menu matches Some(m) && m.items == items && m.layout == layout && m.active == -1
            && m.pw == layout.width && m.ph == layout.height && m.view_ph == layout.height
            && m.scroll == 0 && m.scale_bits == scale_bits && m.cb == Some(cb) && m.anchor == (
            x,
            y,
        ),
        *final(io) == opened(*old(io), final(io).menu->0, shell),
        r@ == open_actions(*old(io), final(io).menu->0, shell),
{
    let q = MenuRequest {
        items,
        layout,
        x,
        y,
        width: 0,
        scaled_width: 0,
        anchor_ph_y: 0,
        initial: -1,
        scale_bits,
        cb,
    };
    show_highlighted(io, q, 0, shell)
}

/// The popup once it was configured.
pub open spec fn readied<I, C>(io: MenuIo<I, C>, generation: u32) -> MenuIo<I, C> {
    if io.generation != generation {
        io
    } else {
        match io.phase {
            Phase::AwaitPlaceholder => if io.menu is Some {
                begun(io)
            } else {
                MenuIo { phase: Phase::Placeholder, ..io }
            },
            Phase::AwaitMenu => MenuIo {
                phase: Phase::Shown,
                menu: match io.menu {
                    Some(m) => Some(Menu { mapped: true, ..m }),
                    None => None,
                },
                ..io
            },
            _ => io,
        }
    }
}

/// What is done once the popup was configured.
pub open spec fn ready_actions<I, C>(io: MenuIo<I, C>, generation: u32) -> Seq<PopupAction> {
    if io.generation != generation {
        Seq::empty()
    } else {
        match io.phase {
            Phase::AwaitPlaceholder => match io.menu {
                Some(m) => seq![PopupAction::PaintPlaceholder, reposition_for(m)],
                None => Seq::empty(),
            },
            Phase::AwaitMenu => seq![PopupAction::PaintMenu],
            _ => Seq::empty(),
        }
    }
}

/// Takes in that the popup of a generation was configured. Without contents
/// it stays unmapped, since its grab is inert until then.
pub fn on_ready<I, C>(io: &mut MenuIo<I, C>, generation: u32) -> (r: Vec<PopupAction>)
    requires
        old(io).wf(),
    ensures
        final(io).wf(),
        *final(io) == readied(*old(io), generation),
        r@ == ready_actions(*old(io), generation),
{
    if io.generation != generation {
        return Vec::new();
    }
    match io.phase {
        Phase::AwaitPlaceholder => {
            if io.menu.is_some() {
                io.begin_menu()
            } else {
                io.phase = Phase::Placeholder;
                Vec::new()
            }
        },
        Phase::AwaitMenu => {
            if let Some(mut m) = io.menu.take() {
                m.mapped = true;
                io.menu = Some(m);
            }
            io.phase = Phase::Shown;
            let mut out: Vec<PopupAction> = Vec::new();
            out.push(PopupAction::PaintMenu);
            out
        },
        _ => Vec::new(),
    }
}

/// The callback of a menu, where it was not called yet.
pub open spec fn callback<I, C>(io: MenuIo<I, C>) -> Option<C> {
    match io.menu {
        Some(m) => m.cb,
        None => None,
    }
}

/// Takes in that the compositor dismissed the popup of a generation: the menu
/// is torn down. What comes back is to be called with the cancel index, minus
/// one.
pub fn on_done<I, C>(io: &mut MenuIo<I, C>, generation: u32) -> (r: Option<C>)
    requires
        old(io).wf(),
    ensures
        final(io).wf(),
        old(io).generation != generation ==> *final(io) == *old(io) && r is None,
        old(io).generation == generation ==> *final(io) == cleared(*old(io)) && r == callback(
            *old(io),
        ),
{
    if io.generation != generation {
        return None;
    }
    let cb = io.take_callback();
    io.clear_menu();
    cb
}

impl<I, C> MenuIo<I, C> {
    fn take_callback(&mut self) -> (r: Option<C>)
        ensures
            r == callback(*old(self)),
            cleared(*final(self)) == cleared(*old(self)),
    {
        match self.menu.take() {
            Some(mut m) => {
                let cb = m.cb.take();
                self.menu = Some(m);
                cb
            },
            None => None,
        }
    }
}

/// The popup after a click has ended: torn down where no menu claimed it.
pub open spec fn dismissed<I, C>(io: MenuIo<I, C>) -> MenuIo<I, C> {
    if io.menu is None && io.phase != Phase::Idle {
        cleared(io)
    } else {
        io
    }
}

/// The popup after its menu was taken down: one without a menu stays.
pub open spec fn taken_down<I, C>(io: MenuIo<I, C>) -> MenuIo<I, C> {
    if io.menu is Some {
        cleared(io)
    } else {
        io
    }
}

/// Tears down the popup that [`arm`] made where the click opened no menu.
/// True where there was one: destroy it.
pub fn dismiss_if_speculative<I, C>(io: &mut MenuIo<I, C>) -> (r: bool)
    requires
        old(io).wf(),
    ensures
        final(io).wf(),
        r == (old(io).menu is None && old(io).phase != Phase::Idle),
        *final(io) == dismissed(*old(io)),
{
    if io.menu.is_some() || io.phase == Phase::Idle {
        return false;
    }
    io.clear_menu();
    true
}

/// Tears down the menu without calling its callback. True where there was
/// one: destroy the popup. A popup that waits for its contents stays.
pub fn hide_menu<I, C>(io: &mut MenuIo<I, C>) -> (r: bool)
    requires
        old(io).wf(),
    ensures
        final(io).wf(),
        r == (old(io).menu is Some),
        *final(io) == taken_down(*old(io)),
{
    if io.menu.is_none() {
        return false;
    }
    io.clear_menu();
    true
}

/// Whether a menu takes the input.
pub fn active<I, C>(io: &MenuIo<I, C>) -> (r: bool)
    ensures
        r == io.active,
{
    io.active
}

/// Whether the popup's grab has the keyboard, or is about to.
pub fn is_engaged<I, C>(io: &MenuIo<I, C>) -> (r: bool)
    ensures
        r == io.engaged,
{
    io.engaged
}

/// Whether a surface is that of a menu that is open.
pub fn surface_matches<I, C>(io: &MenuIo<I, C>, surface_id: u32) -> (r: bool)
    ensures
        r == (io.menu is Some && io.has_surface && io.surface_id == surface_id),
{
    io.menu.is_some() && is_menu_surface(io, surface_id)
}

/// Whether a surface is the menu's, also while no menu is open.
pub fn is_menu_surface<I, C>(io: &MenuIo<I, C>, surface_id: u32) -> (r: bool)
    ensures
        r == (io.has_surface && io.surface_id == surface_id),
{
    io.has_surface && io.surface_id == surface_id
}

/// What happens to a menu.
#[derive(Clone, Copy, Debug, PartialEq, Eq, Structural)]
pub enum MenuEvent {
    /// The pointer is at this place of the contents, in device pixels.
    Motion { x: i32, y: i32 },
    /// A button was pressed at this place of the contents.
    Press { x: i32, y: i32 },
    /// The menu is to be dismissed.
    Dismiss,
    /// A key was pressed.
    Key(u32),
}

/// The scroll offset of the menu that takes input, if there is one.
pub open spec fn scroll_of<I, C>(io: MenuIo<I, C>) -> Option<i32> {
    match io.menu {
        Some(m) => if m.mapped {
            Some(m.scroll)
        } else {
            None
        },
        None => None,
    }
}

/// The scroll offset of the menu that takes input, if there is one.
pub fn mapped_scroll<I, C>(io: &MenuIo<I, C>) -> (r: Option<i32>)
    ensures
        r == scroll_of(*io),
{
    match &io.menu {
        Some(m) => if m.mapped {
            Some(m.scroll)
        } else {
            None
        },
        None => None,
    }
}

/// The event of the pointer at a place of the menu's surface, in device
/// pixels; none without a menu that takes input.
pub fn handle_motion<I, C>(io: &MenuIo<I, C>, px: i32, py: i32) -> (r: Option<MenuEvent>)
    requires
        io.wf(),
        scroll_of(*io) matches Some(s) ==> py + s <= i32::MAX,
    ensures
        match scroll_of(*io) {
            Some(s) => r == Some(MenuEvent::Motion { x: px, y: (py + s) as i32 }),
            None => r is None,
        },
{
    match mapped_scroll(io) {
        Some(s) => Some(MenuEvent::Motion { x: px, y: py + s }),
        None => None,
    }
}

/// The event of a button at a place of the menu's surface, in device pixels.
/// A release is none.
pub fn handle_button<I, C>(io: &MenuIo<I, C>, px: i32, py: i32, pressed: bool) -> (r: Option<
    MenuEvent,
>)
    requires
        io.wf(),
        scroll_of(*io) matches Some(s) ==> py + s <= i32::MAX,
    ensures
        !pressed ==> r is None,
        pressed ==> match scroll_of(*io) {
            Some(s) => r == Some(MenuEvent::Press { x: px, y: (py + s) as i32 }),
            None => r is None,
        },
{
    if !pressed {
        return None;
    }
    match mapped_scroll(io) {
        Some(s) => Some(MenuEvent::Press { x: px, y: py + s }),
        None => None,
    }
}

/// The event of a press outside the menu.
pub fn handle_outside_press<I, C>(io: &MenuIo<I, C>) -> (r: Option<MenuEvent>)
    ensures
        r == if scroll_of(*io) is Some {
            Some(MenuEvent::Dismiss)
        } else {
            None
        },
{
    if mapped_scroll(io).is_some() {
        Some(MenuEvent::Dismiss)
    } else {
        None
    }
}

/// The event of a key. A release is none.
pub fn handle_key<I, C>(io: &MenuIo<I, C>, keysym: u32, pressed: bool) -> (r: Option<MenuEvent>)
    ensures
        r == if pressed && scroll_of(*io) is Some {
            Some(MenuEvent::Key(keysym))
        } else {
            None
        },
{
    if pressed && mapped_scroll(io).is_some() {
        Some(MenuEvent::Key(keysym))
    } else {
        None
    }
}

/// The menu scrolled up by `step` pixels, as far as that goes.
pub open spec fn scrolled_by<I, C>(m: Menu<I, C>, step: int) -> int {
    if m.view_ph >= m.ph {
        m.scroll as int
    } else {
        between(m.scroll - step, 0, max_scroll_of(m.ph as int, m.view_ph as int))
    }
}

/// Scrolls the menu that takes input up by `step` device pixels. True where
/// it moved: paint it.
pub fn handle_scroll<I, C>(io: &mut MenuIo<I, C>, step: i32) -> (r: bool)
    requires
        old(io).wf(),
        scroll_of(*old(io)) matches Some(s) ==> i32::MIN <= s - step <= i32::MAX,
    ensures
        final(io).wf(),
        scroll_of(*old(io)) is None ==> !r && *final(io) == *old(io),
        scroll_of(*old(io)) is Some ==> {
            let m = old(io).menu->0;
            &&& r == (scrolled_by(m, step as int) != m.scroll)
            &&& *final(io) == (MenuIo {
                menu: Some(Menu { scroll: scrolled_by(m, step as int) as i32, ..m }),
                ..*old(io)
            })
        },
{
    if mapped_scroll(io).is_none() {
        return false;
    }
    match io.menu.take() {
        Some(mut m) => {
            let mut moved = false;
            if m.view_ph < m.ph {
                let limit = m.max_scroll();
                let mut next = m.scroll - step;
                if next < 0 {
                    next = 0;
                } else if next > limit {
                    next = limit;
                }
                moved = next != m.scroll;
                m.scroll = next;
            }
            io.menu = Some(m);
            moved
        },
        None => false,
    }
}

/// The menu after an event, which highlighted the item `active`: after a key
/// it is scrolled into view.
pub open spec fn stepped<I, C>(m: Menu<I, C>, is_key: bool, active: i32) -> Menu<I, C> {
    Menu {
        active,
        scroll: if is_key {
            scrolled_to_active(
                m.layout.rows@,
                active,
                m.scroll as int,
                m.ph as int,
                m.view_ph as int,
            ) as i32
        } else {
            m.scroll
        },
        ..m
    }
}

/// Takes in which item an event highlighted.
pub fn step<I, C>(io: &mut MenuIo<I, C>, ev: MenuEvent, active: i32)
    requires
        old(io).wf(),
    ensures
        final(io).wf(),
        *final(io) == (MenuIo {
            menu: match old(io).menu {
                Some(m) => Some(stepped(m, ev is Key, active)),
                None => None,
            },
            ..*old(io)
        }),
{
    if let Some(mut m) = io.menu.take() {
        m.active = active;
        if let MenuEvent::Key(_) = ev {
            m.scroll_active_into_view();
        }
        io.menu = Some(m);
    }
}

/// What an event leads to.
#[derive(Clone, Copy, Debug, PartialEq, Eq, Structural)]
pub enum MenuEffect {
    Redraw,
    /// The menu closes with the pick of an item, negative for none.
    Close(i32),
}

/// What is to be done for an effect.
#[derive(Debug)]
pub enum EffectOutcome<C> {
    Nothing,
    /// Paint the menu.
    Paint,
    /// Call the callback, if it was not called yet, with the pick; then
    /// destroy the popup. No further effect counts.
    Closed(Option<C>, i32),
}

/// Takes in an effect.
pub fn apply_effect<I, C>(io: &mut MenuIo<I, C>, effect: MenuEffect) -> (r: EffectOutcome<C>)
    requires
        old(io).wf(),
    ensures
        final(io).wf(),
        match effect {
            MenuEffect::Redraw => *final(io) == *old(io) && r == if scroll_of(*old(io)) is Some {
                EffectOutcome::Paint
            } else {
                EffectOutcome::<C>::Nothing
            },
            MenuEffect::Close(id) => *final(io) == cleared(*old(io)) && r == EffectOutcome::Closed(
                callback(*old(io)),
                id,
            ),
        },
{
    match effect {
        MenuEffect::Redraw => if mapped_scroll(io).is_some() {
            EffectOutcome::Paint
        } else {
            EffectOutcome::Nothing
        },
        MenuEffect::Close(id) => {
            let cb = io.take_callback();
            io.clear_menu();
            EffectOutcome::Closed(cb, id)
        },
    }
}

/// What shows a buffer on the menu's surface.
pub open spec fn attach_requests(
    has_viewport: bool,
    source: (i32, i32, i32),
    destination: (i32, i32),
    buf: BufferId,
    damage: (i32, i32),
) -> Seq<Request> {
    (if has_viewport {
        seq![
            Request::SetSource { x: 0, y: source.0, w: source.1, h: source.2 },
            Request::SetDestination { w: destination.0, h: destination.1 },
        ]
    } else {
        Seq::empty()
    }) + seq![
        Request::Attach(buf),
        Request::Damage { w: damage.0, h: damage.1 },
        Request::Commit,
    ]
}

/// The buffers after `buf` was attached in place of `before`.
pub open spec fn swapped_in(
    m: Seq<ManagedBuffer>,
    before: Option<BufferId>,
    buf: BufferId,
) -> Seq<ManagedBuffer> {
    match before {
        Some(b) => buffers::retired(buffers::attached(m, buf), b),
        None => buffers::attached(m, buf),
    }
}

/// The request that giving up `before` leads to, once `buf` is attached.
pub open spec fn swap_requests(
    m: Seq<ManagedBuffer>,
    before: Option<BufferId>,
    buf: BufferId,
) -> Seq<Request> {
    match before {
        Some(b) => buffers::retire_requests(buffers::attached(m, buf), b),
        None => Seq::empty(),
    }
}

impl<I, C> MenuIo<I, C> {
    fn attach(
        &mut self,
        managed: &mut ManagedBuffers,
        source: (i32, i32, i32),
        destination: (i32, i32),
        buf: BufferId,
        damage: (i32, i32),
    ) -> (r: Vec<Request>)
        ensures
            final(managed)@ == swapped_in(old(managed)@, old(self).buffer, buf),
            *final(self) == (MenuIo { buffer: Some(buf), ..*old(self) }),
            r@ == attach_requests(old(self).has_viewport, source, destination, buf, damage)
                + swap_requests(old(managed)@, old(self).buffer, buf) + seq![Request::Flush],
    {
        let mut out: Vec<Request> = Vec::new();
        if self.has_viewport {
            out.push(Request::SetSource { x: 0, y: source.0, w: source.1, h: source.2 });
            out.push(Request::SetDestination { w: destination.0, h: destination.1 });
        }
        managed.mark_attached(buf);
        out.push(Request::Attach(buf));
        out.push(Request::Damage { w: damage.0, h: damage.1 });
        out.push(Request::Commit);
        assert(out@ =~= attach_requests(self.has_viewport, source, destination, buf, damage));
        buffers::retire_into(managed, self.buffer, &mut out);
        self.buffer = Some(buf);
        out.push(Request::Flush);
        assert(out@ =~= attach_requests(old(self).has_viewport, source, destination, buf, damage)
            + swap_requests(old(managed)@, old(self).buffer, buf) + seq![Request::Flush]);
        out
    }
}

/// Shows the placeholder in a buffer of one pixel. A buffer that could not be
/// made, or a missing surface, leaves all as it is.
pub fn placeholder_painted<I, C>(
    io: &mut MenuIo<I, C>,
    managed: &mut ManagedBuffers,
    buf: Option<BufferId>,
) -> (r: Vec<Request>)
    requires
        old(io).wf(),
    ensures
        final(io).wf(),
        match buf {
            Some(b) if old(io).has_surface => {
                &&& *final(io) == (MenuIo { buffer: Some(b), ..*old(io) })
                &&& final(managed)@ == swapped_in(old(managed)@, old(io).buffer, b)
                &&& r@ == attach_requests(
                    old(io).has_viewport,
                    (0i32, 1i32, 1i32),
                    (1i32, 1i32),
                    b,
                    (1i32, 1i32),
                ) + swap_requests(old(managed)@, old(io).buffer, b) + seq![Request::Flush]
            },
            _ => *final(io) == *old(io) && final(managed)@ == old(managed)@ && r@.len() == 0,
        },
{
    match buf {
        Some(b) => if io.has_surface {
            io.attach(managed, (0, 1, 1), (1, 1), b, (1, 1))
        } else {
            Vec::new()
        },
        None => Vec::new(),
    }
}

/// Shows the visible part of the painted menu. `lw` and `lh` are its width
/// and visible height in logical pixels. Without a menu or a surface, or
/// where the buffer could not be made, all stays as it is.
pub fn menu_painted<I, C>(
    io: &mut MenuIo<I, C>,
    managed: &mut ManagedBuffers,
    buf: Option<BufferId>,
    lw: i32,
    lh: i32,
) -> (r: Vec<Request>)
    requires
        old(io).wf(),
    ensures
        final(io).wf(),
        match (buf, old(io).menu) {
            (Some(b), Some(m)) if old(io).has_surface => {
                &&& *final(io) == (MenuIo { buffer: Some(b), ..*old(io) })
                &&& final(managed)@ == swapped_in(old(managed)@, old(io).buffer, b)
                &&& r@ == attach_requests(
                    old(io).has_viewport,
                    (m.scroll, m.pw, m.view_ph),
                    (lw, lh),
                    b,
                    (m.pw, m.ph),
                ) + swap_requests(old(managed)@, old(io).buffer, b) + seq![Request::Flush]
            },
            _ => *final(io) == *old(io) && final(managed)@ == old(managed)@ && r@.len() == 0,
        },
{
    let (pw, ph, view_ph, scroll) = match &io.menu {
        Some(m) => (m.pw, m.ph, m.view_ph, m.scroll),
        None => return Vec::new(),
    };
    match buf {
        Some(b) => if io.has_surface {
            io.attach(managed, (scroll, pw, view_ph), (lw, lh), b, (pw, ph))
        } else {
            Vec::new()
        },
        None => Vec::new(),
    }
}

/// A late event of a popup that was torn down changes nothing: generations in
/// use are never zero, and a popup that is gone has generation zero.
pub proof fn law_late_events_are_ignored<I, C>(io: MenuIo<I, C>, generation: u32)
    requires
        generation != 0,
    ensures
        readied(cleared(io), generation) == cleared(io),
        ready_actions(cleared(io), generation) == Seq::<PopupAction>::empty(),
{
}

/// An event of the popup before the last press is ignored too.
pub proof fn law_events_of_the_popup_before_are_ignored<I, C>(
    io: MenuIo<I, C>,
    shell: bool,
    generation: u32,
)
    requires
        generation != io.next_generation,
    ensures
        readied(armed(io, shell), generation) == armed(io, shell),
        ready_actions(armed(io, shell), generation) == Seq::<PopupAction>::empty(),
{
}

/// A callback is called at most once: once a menu is torn down there is none
/// left.
pub proof fn law_callback_is_called_once<I, C>(io: MenuIo<I, C>)
    ensures
        callback(cleared(io)) is None,
{
}

/// The end of a click tears an armed popup down that opened nothing, and
/// leaves a menu alone; a menu that is taken down leaves a popup alone that was
/// armed since.
pub proof fn law_grab_goes_to_the_menu<I, C>(io: MenuIo<I, C>, shell: bool)
    ensures
        dismissed(armed(io, shell)) == cleared(armed(io, shell)),
        io.menu is Some ==> dismissed(io) == io,
        taken_down(armed(io, shell)) == armed(io, shell),
        io.menu is Some ==> taken_down(io) == cleared(io),
{
}

/// The grab has the keyboard from the moment a menu is to be mapped until it
/// is torn down.
pub proof fn law_engaged_while_mapped<I, C>(io: MenuIo<I, C>)
    requires
        io.wf(),
    ensures
        io.engaged <==> io.phase == Phase::AwaitMenu || io.phase == Phase::Shown,
        !cleared(io).engaged,
{
}

/// The surface is free of a buffer whenever it is given a role again: the last
/// requests before detach what it showed and commit that.
pub proof fn law_new_role_starts_bare<I, C>(io: MenuIo<I, C>)
    ensures
        armed(io, true).buffer is None,
        ({
            let r = bare_surface_requests(io.has_surface, io.buffer, true);
            &&& r.len() >= 3
            &&& r[r.len() - 3] == PopupAction::Surface(Request::Detach)
            &&& r[r.len() - 2] == PopupAction::Surface(Request::Commit)
            &&& r[r.len() - 1] == PopupAction::Surface(Request::Flush)
        }),
{
}

/// A menu that was asked for on an armed popup comes onto the screen with the
/// two configures that follow.
pub proof fn law_armed_menu_is_shown<I, C>(io: MenuIo<I, C>, m: Menu<I, C>, shell: bool)
    requires
        io.wf(),
        m.wf(),
        !m.mapped,
    ensures
        ({
            let g = io.next_generation;
            let waiting = MenuIo { menu: Some(m), ..armed(io, shell) };
            let shown = readied(readied(waiting, g), g);
            &&& ready_actions(waiting, g) == seq![PopupAction::PaintPlaceholder, reposition_for(m)]
            &&& ready_actions(readied(waiting, g), g) == seq![PopupAction::PaintMenu]
            &&& shown.phase == Phase::Shown
            &&& shown.menu == Some(Menu { mapped: true, ..m })
            &&& shown.active && shown.engaged
        }),
{
}

/// Bringing the highlighted row into view twice is bringing it there once.
pub proof fn law_scroll_into_view_settles(
    rows: Seq<MenuRow>,
    active: i32,
    scroll: int,
    ph: int,
    view_ph: int,
)
    requires
        0 <= scroll <= max_scroll_of(ph, view_ph),
        row_of(rows, active) matches Some(r) ==> 0 <= r.y && 0 <= r.h <= view_ph && r.y + r.h
            <= ph,
    ensures
        ({
            let once = scrolled_to_active(rows, active, scroll, ph, view_ph);
            &&& scrolled_to_active(rows, active, once, ph, view_ph) == once
            &&& 0 <= once <= max_scroll_of(ph, view_ph)
            &&& view_ph < ph ==> (row_of(rows, active) matches Some(r) ==> once <= r.y && r.y + r.h
                <= once + view_ph)
        }),
{
}

} // verus!
