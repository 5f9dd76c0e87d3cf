//! Menus: how large they are, what they show and what input does to them.
use crate::wayland::buffers;
use crate::wayland::buffers::{BufferId, ManagedBuffers};
use crate::wayland::popup;
use crate::wayland::popup::{
    EffectOutcome, Menu, MenuEffect, MenuEvent, MenuIo, MenuLayout, MenuRequest, MenuRow, Phase, PopupAction,
};
use crate::wayland::requests::Request;
use vstd::prelude::*;

verus! {

/// Whether every popup that is made or moved for a menu has this place, size
/// and scale.
pub open spec fn sizes_only(
    r: Seq<PopupAction>,
    x: i32,
    y: i32,
    w: i32,
    h: i32,
    scale_bits: u32,
) -> bool {
    forall|i: int|
        0 <= i < r.len() ==> {
            &&& (#[trigger] r[i]) matches PopupAction::CreateScaled {
                generation,
                x: ax,
                y: ay,
                w: aw,
                h: ah,
                scale_bits: s,
            } ==> ax == x && ay == y && aw == w && ah == h && s == scale_bits
            &&& r[i] matches PopupAction::Reposition { x: ax, y: ay, w: aw, h: ah, scale_bits: s }
                ==> ax == x && ay == y && aw == w && ah == h && s == scale_bits
            &&& r[i] !is Create
        }
}

/// Whether a popup is made or moved in a list.
pub open spec fn sizes(r: Seq<PopupAction>) -> bool {
    exists|i: int|
        0 <= i < r.len() && ((#[trigger] r[i]) is CreateScaled || r[i] is Reposition)
}

/// A drop-down with a wanted width is exactly that wide in device pixels: the
/// menu, and the popup that is made or moved for it. A context menu is as wide
/// as its contents. The popup stands where it was asked for, as tall as the
/// visible part of the menu.
pub proof fn law_dropdown_is_as_wide_as_wanted<I, C>(
    io: &mut MenuIo<I, C>,
    q: MenuRequest<I, C>,
    win_ph: i32,
    shell: bool,
    r: Vec<PopupAction>,
)
    requires
        old(io).wf(),
        q.wf(win_ph),
        call_ensures(popup::show_highlighted::<I, C>, (io, q, win_ph, shell), r),
    ensures
        final(io).menu is Some,
        ({
            let m = final(io).menu->0;
            &&& q.width > 0 && q.scaled_width > 0 ==> m.pw == q.scaled_width
            &&& q.width > 0 && q.scaled_width <= 0 ==> m.pw == 1
            &&& q.width <= 0 ==> m.pw == q.layout.width
            &&& m.layout.width == m.pw
            &&& m.ph == q.layout.height && m.layout.height == q.layout.height
            &&& sizes_only(r@, q.x, q.y, m.pw, m.view_ph, q.scale_bits)
            &&& old(io).phase == Phase::Placeholder || old(io).phase == Phase::Shown ==> sizes(r@)
            &&& old(io).phase == Phase::Idle && (shell || old(io).has_surface) ==> sizes(r@)
            &&& old(io).phase == Phase::AwaitPlaceholder || old(io).phase == Phase::AwaitMenu
                ==> r@.len() == 0
            &&& m.anchor == (q.x, q.y)
            &&& m.scale_bits == q.scale_bits
        }),
{
    let m = final(io).menu->0;
    if old(io).phase == Phase::Placeholder || old(io).phase == Phase::Shown {
        assert(r@[1] is Reposition);
    }
    if old(io).phase == Phase::Idle && (shell || old(io).has_surface) {
        assert(r@[r@.len() - 1] is CreateScaled);
    }
}

/// A menu is as tall as its contents, but a drop-down ends at the window's
/// lower edge wherever that leaves at least one row.
pub proof fn law_dropdown_ends_at_the_window<I, C>(
    io: &mut MenuIo<I, C>,
    q: MenuRequest<I, C>,
    win_ph: i32,
    shell: bool,
    r: Vec<PopupAction>,
    row: i32,
)
    requires
        old(io).wf(),
        q.wf(win_ph),
        call_ensures(popup::show_highlighted::<I, C>, (io, q, win_ph, shell), r),
        call_ensures(Menu::<I, C>::row_height, (&(final(io).menu->0),), row),
    ensures
        ({
            let m = final(io).menu->0;
            let room = win_ph - q.anchor_ph_y;
            &&& m.view_ph <= m.ph
            &&& q.width <= 0 || win_ph <= 0 ==> m.view_ph == m.ph
            &&& q.layout.height <= room ==> m.view_ph == q.layout.height
            &&& q.width > 0 && win_ph > 0 && row <= room < q.layout.height ==> m.view_ph == room
            &&& q.width > 0 && win_ph > 0 && room < row <= q.layout.height ==> m.view_ph == row
        }),
{
}

/// The first row of an item is found.
proof fn lemma_row_of(rows: Seq<MenuRow>, active: i32, k: int)
    requires
        0 <= k < rows.len(),
        rows[k].item as i32 == active,
        forall|j: int| 0 <= j < k ==> (#[trigger] rows[j]).item as i32 != active,
    ensures
        popup::row_of(rows, active) == Some(rows[k]),
    decreases rows.len(),
{
    if k > 0 {
        assert(rows[0].item as i32 != active);
        let rest = rows.drop_first();
        assert forall|j: int| 0 <= j < k - 1 implies (#[trigger] rest[j]).item as i32 != active by {
            assert(rest[j] == rows[j + 1]);
        }
        assert(rest[k - 1] == rows[k]);
        lemma_row_of(rest, active, k - 1);
    }
}

/// No row of an item is found where there is none.
proof fn lemma_no_row_of(rows: Seq<MenuRow>, active: i32)
    requires
        forall|j: int| 0 <= j < rows.len() ==> (#[trigger] rows[j]).item as i32 != active,
    ensures
        popup::row_of(rows, active) is None,
    decreases rows.len(),
{
    if rows.len() > 0 {
        assert(rows[0].item as i32 != active);
        let rest = rows.drop_first();
        assert forall|j: int| 0 <= j < rest.len() implies (#[trigger] rest[j]).item as i32
            != active by {
            assert(rest[j] == rows[j + 1]);
        }
        lemma_no_row_of(rest, active);
    }
}

/// A menu opens on what was asked for: its items and rows, the item
/// highlighted first, which is in view, and the callback of the request.
pub proof fn law_menu_opens_on_the_request<I, C>(
    io: &mut MenuIo<I, C>,
    q: MenuRequest<I, C>,
    win_ph: i32,
    shell: bool,
    r: Vec<PopupAction>,
    k: int,
)
    requires
        old(io).wf(),
        q.wf(win_ph),
        call_ensures(popup::show_highlighted::<I, C>, (io, q, win_ph, shell), r),
        0 <= k < q.layout.rows@.len(),
        q.layout.rows@[k].item as i32 == q.initial,
        forall|j: int| 0 <= j < k ==> (#[trigger] q.layout.rows@[j]).item as i32 != q.initial,
    ensures
        ({
            let m = final(io).menu->0;
            let row = q.layout.rows@[k];
            &&& m.items == q.items && m.layout.rows == q.layout.rows
            &&& m.active == q.initial && m.cb == Some(q.cb)
            &&& m.view_ph == m.ph ==> m.scroll == 0
            &&& 0 <= row.y && 0 <= row.h <= m.view_ph && row.y + row.h <= m.ph && m.view_ph < m.ph
                ==> m.scroll <= row.y && row.y + row.h <= m.scroll + m.view_ph
            &&& 0 <= row.y && row.y + row.h <= m.view_ph ==> m.scroll == 0
        }),
{
    lemma_row_of(q.layout.rows@, q.initial, k);
}

/// Where no item is highlighted a menu opens at its top.
pub proof fn law_menu_without_highlight_opens_at_its_top<I, C>(
    io: &mut MenuIo<I, C>,
    q: MenuRequest<I, C>,
    win_ph: i32,
    shell: bool,
    r: Vec<PopupAction>,
)
    requires
        old(io).wf(),
        q.wf(win_ph),
        call_ensures(popup::show_highlighted::<I, C>, (io, q, win_ph, shell), r),
        forall|j: int|
            0 <= j < q.layout.rows@.len() ==> (#[trigger] q.layout.rows@[j]).item as i32
                != q.initial,
    ensures
        (final(io).menu->0).scroll == 0,
        (final(io).menu->0).items == q.items,
        (final(io).menu->0).layout.rows == q.layout.rows,
        (final(io).menu->0).active == q.initial,
        (final(io).menu->0).cb == Some(q.cb),
{
    lemma_no_row_of(q.layout.rows@, q.initial);
}

/// The height of a row is that of the first row that is no separator.
pub proof fn law_row_height_is_a_rows<I, C>(m: Menu<I, C>, r: i32, k: int)
    requires
        call_ensures(Menu::<I, C>::row_height, (&m,), r),
        0 <= k < m.layout.rows@.len(),
        !m.layout.rows@[k].separator,
        forall|j: int| 0 <= j < k ==> (#[trigger] m.layout.rows@[j]).separator,
    ensures
        r >= 1,
        m.layout.rows@[k].h >= 1 ==> r == m.layout.rows@[k].h,
        m.layout.rows@[k].h < 1 ==> r == 1,
{
    lemma_row_height(m.layout.rows@, k);
}

proof fn lemma_row_height(rows: Seq<MenuRow>, k: int)
    requires
        0 <= k < rows.len(),
        !rows[k].separator,
        forall|j: int| 0 <= j < k ==> (#[trigger] rows[j]).separator,
    ensures
        popup::row_height_of(rows) == if rows[k].h < 1 {
            1
        } else {
            rows[k].h as int
        },
    decreases rows.len(),
{
    if k > 0 {
        assert(rows[0].separator);
        let rest = rows.drop_first();
        assert forall|j: int| 0 <= j < k - 1 implies (#[trigger] rest[j]).separator by {
            assert(rest[j] == rows[j + 1]);
        }
        assert(rest[k - 1] == rows[k]);
        lemma_row_height(rest, k - 1);
    }
}

/// A context menu is as large as its contents, stands where it was asked for,
/// and highlights nothing.
pub proof fn law_context_menu_is_as_large_as_its_contents<I, C>(
    io: &mut MenuIo<I, C>,
    items: Vec<I>,
    layout: MenuLayout,
    x: i32,
    y: i32,
    scale_bits: u32,
    cb: C,
    shell: bool,
    r: Vec<PopupAction>,
)
    requires
        old(io).wf(),
        layout.wf(),
        call_ensures(popup::show::<I, C>, (io, items, layout, x, y, scale_bits, cb, shell), r),
    ensures
        final(io).menu is Some,
        ({
            let m = final(io).menu->0;
            &&& m.pw == layout.width && m.ph == layout.height && m.view_ph == layout.height
            &&& m.scroll == 0 && m.active == -1 && m.items == items && m.layout == layout
            &&& m.cb == Some(cb) && m.anchor == (x, y) && m.scale_bits == scale_bits
            &&& sizes_only(r@, x, y, layout.width, layout.height, scale_bits)
            &&& old(io).phase == Phase::Shown ==> r@[0] == PopupAction::PaintMenu && sizes(r@)
            &&& old(io).phase == Phase::Placeholder ==> r@[0] == PopupAction::PaintPlaceholder
                && sizes(r@)
            &&& old(io).phase == Phase::Idle && (shell || old(io).has_surface) ==> sizes(r@)
        }),
{
    if old(io).phase == Phase::Placeholder || old(io).phase == Phase::Shown {
        assert(r@[1] is Reposition);
    }
    if old(io).phase == Phase::Idle && (shell || old(io).has_surface) {
        assert(r@[r@.len() - 1] is CreateScaled);
    }
}

/// A press creates a popup of one pixel at its place, for a generation that no
/// earlier popup had, with nothing in it; a menu that was open is gone.
pub proof fn law_press_arms_a_popup<I, C>(
    io: &mut MenuIo<I, C>,
    x: i32,
    y: i32,
    shell: bool,
    r: Vec<PopupAction>,
)
    requires
        old(io).wf(),
        call_ensures(popup::arm::<I, C>, (io, x, y, shell), r),
    ensures
        final(io).menu is None && !final(io).active && !final(io).engaged,
        final(io).phase == Phase::AwaitPlaceholder,
        final(io).generation != 0,
        final(io).generation == old(io).next_generation,
        final(io).next_generation != 0,
        final(io).next_generation != final(io).generation,
        shell ==> final(io).has_surface && final(io).buffer is None,
        final(io).surface_id == old(io).surface_id,
        final(io).has_viewport == old(io).has_viewport,
        shell || old(io).has_surface ==> r@.len() > 0 && r@.last() == (PopupAction::Create {
            generation: final(io).generation,
            x,
            y,
            w: 1,
            h: 1,
        }),
        !shell && !old(io).has_surface ==> r@.len() == 0,
        shell && !old(io).has_surface ==> r@[0] == PopupAction::Surface(Request::CreateSurface),
        shell && old(io).has_surface && old(io).buffer is Some ==> r@[0] == PopupAction::Surface(
            Request::RetireBuffer(old(io).buffer->0),
        ),
{
}

/// A menu that is asked for after the press comes onto the screen in two steps:
/// the popup's first configure makes it a placeholder, the menu grows it, and
/// the configure that follows shows the menu. Until then it takes no input.
pub proof fn law_menu_comes_up_after_the_press<I, C>(
    a: &mut MenuIo<I, C>,
    x: i32,
    y: i32,
    shell: bool,
    r1: Vec<PopupAction>,
    b: &mut MenuIo<I, C>,
    r2: Vec<PopupAction>,
    c: &mut MenuIo<I, C>,
    q: MenuRequest<I, C>,
    win_ph: i32,
    r3: Vec<PopupAction>,
    d: &mut MenuIo<I, C>,
    r4: Vec<PopupAction>,
)
    requires
        old(a).wf(),
        q.wf(win_ph),
        call_ensures(popup::arm::<I, C>, (a, x, y, shell), r1),
        *b == *final(a),
        call_ensures(popup::on_ready::<I, C>, (b, final(a).generation), r2),
        *c == *final(b),
        call_ensures(popup::show_highlighted::<I, C>, (c, q, win_ph, shell), r3),
        *d == *final(c),
        call_ensures(popup::on_ready::<I, C>, (d, final(a).generation), r4),
    ensures
        r2@.len() == 0,
        final(b).menu is None && !final(b).engaged,
        r3@.len() == 2 && r3@[0] == PopupAction::PaintPlaceholder && r3@[1] is Reposition,
        !(final(c).menu->0).mapped && final(c).engaged && final(c).active,
        r4@ == seq![PopupAction::PaintMenu],
        final(d).menu is Some && (final(d).menu->0).mapped,
        (final(d).menu->0).items == q.items,
        (final(d).menu->0).cb == Some(q.cb),
        final(d).active && final(d).engaged && final(d).phase == Phase::Shown,
        final(d).generation == final(a).generation,
{
}

/// A configure of any other popup than the one at hand does nothing.
pub proof fn law_configure_of_another_popup_is_ignored<I, C>(
    io: &mut MenuIo<I, C>,
    generation: u32,
    r: Vec<PopupAction>,
)
    requires
        old(io).wf(),
        call_ensures(popup::on_ready::<I, C>, (io, generation), r),
        generation != old(io).generation,
    ensures
        *final(io) == *old(io),
        r@.len() == 0,
{
}

/// A menu that waits for its popup is brought up by the configure: the
/// placeholder first, at the menu's place and size, then the menu.
pub proof fn law_waiting_menu_is_brought_up<I, C>(
    a: &mut MenuIo<I, C>,
    r1: Vec<PopupAction>,
    b: &mut MenuIo<I, C>,
    r2: Vec<PopupAction>,
)
    requires
        old(a).wf(),
        old(a).phase == Phase::AwaitPlaceholder,
        old(a).menu is Some,
        call_ensures(popup::on_ready::<I, C>, (a, old(a).generation), r1),
        *b == *final(a),
        call_ensures(popup::on_ready::<I, C>, (b, old(a).generation), r2),
    ensures
        ({
            let m = old(a).menu->0;
            &&& r1@.len() == 2 && r1@[0] == PopupAction::PaintPlaceholder
            &&& sizes_only(r1@, m.anchor.0, m.anchor.1, m.pw, m.view_ph, m.scale_bits)
            &&& sizes(r1@)
            &&& final(a).engaged && final(a).active
            &&& r2@ == seq![PopupAction::PaintMenu]
            &&& (final(b).menu->0).mapped
            &&& (final(b).menu->0).cb == m.cb
            &&& (final(b).menu->0).active == m.active
            &&& (final(b).menu->0).scroll == m.scroll
        }),
{
    assert(r1@[1] is Reposition);
}

/// A dismissal of the popup at hand hands back the callback of its menu, once,
/// and takes everything down; one of another popup does nothing.
pub proof fn law_dismissal_calls_back_once<I, C>(
    a: &mut MenuIo<I, C>,
    q: MenuRequest<I, C>,
    win_ph: i32,
    shell: bool,
    r: Vec<PopupAction>,
    b: &mut MenuIo<I, C>,
    first: Option<C>,
    c: &mut MenuIo<I, C>,
    again: Option<C>,
)
    requires
        old(a).wf(),
        q.wf(win_ph),
        call_ensures(popup::show_highlighted::<I, C>, (a, q, win_ph, shell), r),
        *b == *final(a),
        call_ensures(popup::on_done::<I, C>, (b, final(a).generation), first),
        *c == *final(b),
        call_ensures(popup::on_done::<I, C>, (c, final(a).generation), again),
    ensures
        first == Some(q.cb),
        again is None,
        final(b).menu is None && !final(b).active && !final(b).engaged,
        final(b).phase == Phase::Idle,
        final(b).generation == 0,
        final(b).has_surface == final(a).has_surface,
        final(b).buffer == final(a).buffer,
        final(b).next_generation == final(a).next_generation,
        *final(c) == *final(b),
{
}

/// A dismissal of another popup than the one at hand does nothing.
pub proof fn law_dismissal_of_another_popup_is_ignored<I, C>(
    io: &mut MenuIo<I, C>,
    generation: u32,
    r: Option<C>,
)
    requires
        old(io).wf(),
        call_ensures(popup::on_done::<I, C>, (io, generation), r),
        generation != old(io).generation,
    ensures
        *final(io) == *old(io),
        r is None,
{
}

/// The end of a click takes down a popup that no menu claimed, and only such a
/// one; taking a menu down takes down a popup only where it has a menu.
pub proof fn law_unclaimed_popup_goes<I, C>(
    a: &mut MenuIo<I, C>,
    dismissed: bool,
    b: &mut MenuIo<I, C>,
    hidden: bool,
)
    requires
        old(a).wf(),
        old(b).wf(),
        call_ensures(popup::dismiss_if_speculative::<I, C>, (a,), dismissed),
        call_ensures(popup::hide_menu::<I, C>, (b,), hidden),
    ensures
        dismissed == (old(a).generation != 0 && old(a).menu is None),
        dismissed ==> final(a).phase == Phase::Idle && final(a).generation == 0,
        !dismissed ==> *final(a) == *old(a),
        hidden == (old(b).menu is Some),
        hidden ==> final(b).menu is None && final(b).phase == Phase::Idle && final(b).generation
            == 0 && !final(b).engaged && !final(b).active,
        !hidden ==> *final(b) == *old(b),
{
}

/// The pointer and its button are seen by the menu at the place of its contents
/// that is under them: as far down as it is scrolled. A release is not seen,
/// and a menu that is not on the screen sees nothing.
pub proof fn law_pointer_is_seen_at_the_contents<I, C>(
    io: MenuIo<I, C>,
    px: i32,
    py: i32,
    moved: Option<MenuEvent>,
    pressed: Option<MenuEvent>,
    released: Option<MenuEvent>,
    outside: Option<MenuEvent>,
)
    requires
        io.wf(),
        io.menu matches Some(m) ==> py + m.scroll <= i32::MAX,
        call_ensures(popup::handle_motion::<I, C>, (&io, px, py), moved),
        call_ensures(popup::handle_button::<I, C>, (&io, px, py, true), pressed),
        call_ensures(popup::handle_button::<I, C>, (&io, px, py, false), released),
        call_ensures(popup::handle_outside_press::<I, C>, (&io,), outside),
    ensures
        released is None,
        io.phase == Phase::Shown ==> {
            let s = (io.menu->0).scroll;
            &&& moved matches Some(MenuEvent::Motion { x, y }) && x == px && y - py == s
            &&& pressed matches Some(MenuEvent::Press { x, y }) && x == px && y - py == s
            &&& outside == Some(MenuEvent::Dismiss)
        },
        io.phase != Phase::Shown ==> moved is None && pressed is None && outside is None,
{
}

/// A key that is pressed is seen by a menu on the screen, and by no other.
pub proof fn law_keys_are_seen_on_the_screen<I, C>(
    io: MenuIo<I, C>,
    keysym: u32,
    pressed: Option<MenuEvent>,
    released: Option<MenuEvent>,
)
    requires
        io.wf(),
        call_ensures(popup::handle_key::<I, C>, (&io, keysym, true), pressed),
        call_ensures(popup::handle_key::<I, C>, (&io, keysym, false), released),
    ensures
        pressed == if io.phase == Phase::Shown {
            Some(MenuEvent::Key(keysym))
        } else {
            None
        },
        released is None,
{
}

/// Scrolling moves a menu on the screen by the step, up for a positive one, as
/// far as its contents reach, and says whether it moved.
pub proof fn law_scroll_moves_by_the_step<I, C>(io: &mut MenuIo<I, C>, step: i32, r: bool)
    requires
        old(io).wf(),
        old(io).menu matches Some(m) ==> i32::MIN <= m.scroll - step <= i32::MAX,
        call_ensures(popup::handle_scroll::<I, C>, (io, step), r),
    ensures
        old(io).phase != Phase::Shown ==> !r && *final(io) == *old(io),
        old(io).phase == Phase::Shown ==> {
            let m = old(io).menu->0;
            let n = final(io).menu->0;
            let limit = m.ph - m.view_ph;
            &&& final(io).menu is Some
            &&& r == (n.scroll != m.scroll)
            &&& 0 <= m.scroll - step <= limit ==> n.scroll == m.scroll - step
            &&& m.scroll - step < 0 ==> n.scroll == 0
            &&& m.scroll - step > limit ==> n.scroll == limit
            &&& n.items == m.items && n.active == m.active && n.cb == m.cb && n.mapped
            &&& n.ph == m.ph && n.view_ph == m.view_ph && n.pw == m.pw && n.layout == m.layout
        },
        final(io).phase == old(io).phase,
        final(io).generation == old(io).generation,
        final(io).engaged == old(io).engaged,
{
}

/// Scrolling one way and back again leaves a menu where it was, as long as it
/// met no end.
pub proof fn law_scroll_back_undoes_scroll<I, C>(
    a: &mut MenuIo<I, C>,
    step: i32,
    r1: bool,
    b: &mut MenuIo<I, C>,
    back: i32,
    r2: bool,
)
    requires
        old(a).wf(),
        old(a).phase == Phase::Shown,
        back == -step,
        0 <= (old(a).menu->0).scroll - step <= (old(a).menu->0).ph - (old(a).menu->0).view_ph,
        call_ensures(popup::handle_scroll::<I, C>, (a, step), r1),
        *b == *final(a),
        call_ensures(popup::handle_scroll::<I, C>, (b, back), r2),
    ensures
        (final(b).menu->0).scroll == (old(a).menu->0).scroll,
        r1 == r2,
        r1 == (step != 0),
{
}

/// The item that an event highlighted is highlighted, and after a key it is in
/// view; the pointer scrolls nothing.
pub proof fn law_highlight_follows<I, C>(
    io: &mut MenuIo<I, C>,
    ev: MenuEvent,
    active: i32,
    k: int,
)
    requires
        old(io).wf(),
        old(io).menu is Some,
        call_ensures(popup::step::<I, C>, (io, ev, active), ()),
        0 <= k < (old(io).menu->0).layout.rows@.len(),
        (old(io).menu->0).layout.rows@[k].item as i32 == active,
        forall|j: int|
            0 <= j < k ==> (#[trigger] (old(io).menu->0).layout.rows@[j]).item as i32 != active,
    ensures
        final(io).menu is Some,
        ({
            let m = old(io).menu->0;
            let n = final(io).menu->0;
            let row = m.layout.rows@[k];
            &&& n.active == active
            &&& ev !is Key ==> n.scroll == m.scroll
            &&& ev is Key && 0 <= row.y && 0 <= row.h <= m.view_ph && row.y + row.h <= m.ph
                && m.view_ph < m.ph ==> n.scroll <= row.y && row.y + row.h <= n.scroll + n.view_ph
            &&& ev is Key && m.scroll <= row.y && row.y + row.h <= m.scroll + m.view_ph ==> n.scroll
                == m.scroll
            &&& n.items == m.items && n.cb == m.cb && n.mapped == m.mapped && n.layout == m.layout
            &&& n.ph == m.ph && n.view_ph == m.view_ph && n.pw == m.pw && n.anchor == m.anchor
        }),
        final(io).phase == old(io).phase && final(io).generation == old(io).generation,
        final(io).engaged == old(io).engaged && final(io).active == old(io).active,
{
    lemma_row_of((old(io).menu->0).layout.rows@, active, k);
}

/// Closing hands back the callback with the pick and takes everything down;
/// redrawing paints a menu on the screen and changes nothing.
pub proof fn law_close_hands_back_the_pick<I, C>(
    a: &mut MenuIo<I, C>,
    id: i32,
    closed: EffectOutcome<C>,
    b: &mut MenuIo<I, C>,
    drawn: EffectOutcome<C>,
)
    requires
        old(a).wf(),
        old(b).wf(),
        call_ensures(popup::apply_effect::<I, C>, (a, MenuEffect::Close(id)), closed),
        call_ensures(popup::apply_effect::<I, C>, (b, MenuEffect::Redraw), drawn),
    ensures
        closed is Closed,
        closed->1 == id,
        old(a).menu is Some ==> closed->0 == (old(a).menu->0).cb,
        old(a).menu is None ==> closed->0 is None,
        final(a).menu is None && final(a).phase == Phase::Idle && final(a).generation == 0,
        !final(a).active && !final(a).engaged,
        final(a).has_surface == old(a).has_surface && final(a).buffer == old(a).buffer,
        *final(b) == *old(b),
        drawn is Paint == (old(b).phase == Phase::Shown),
        drawn is Nothing == (old(b).phase != Phase::Shown),
{
}

/// What shows a buffer, stated of its parts: the buffer is attached, then
/// damaged, then committed, the viewport set first where there is one.
pub open spec fn shows_buffer(
    r: Seq<Request>,
    b: BufferId,
    has_viewport: bool,
    source: Request,
    destination: Request,
    damage: Request,
) -> bool {
    let d: int = if has_viewport {
        2
    } else {
        0
    };
    &&& r.len() >= d + 4
    &&& has_viewport ==> r[0] == source && r[1] == destination
    &&& r[d] == Request::Attach(b)
    &&& r[d + 1] == damage
    &&& r[d + 2] == Request::Commit
    &&& r.last() == Request::Flush
}

/// A painted menu shows the part of it that is scrolled to, at its logical
/// size, and gives up the buffer before.
pub proof fn law_painted_menu_shows_what_is_in_view<I, C>(
    io: &mut MenuIo<I, C>,
    managed: &mut ManagedBuffers,
    b: BufferId,
    lw: i32,
    lh: i32,
    r: Vec<Request>,
)
    requires
        old(io).wf(),
        old(io).menu is Some,
        call_ensures(popup::menu_painted::<I, C>, (io, managed, Some(b), lw, lh), r),
    ensures
        !old(io).has_surface ==> r@.len() == 0 && *final(io) == *old(io) && final(managed)@
            == old(managed)@,
        old(io).has_surface ==> {
            let m = old(io).menu->0;
            &&& shows_buffer(
                r@,
                b,
                old(io).has_viewport,
                Request::SetSource { x: 0, y: m.scroll, w: m.pw, h: m.view_ph },
                Request::SetDestination { w: lw, h: lh },
                Request::Damage { w: m.pw, h: m.ph },
            )
            &&& final(io).buffer == Some(b)
            &&& final(io).menu == old(io).menu && final(io).phase == old(io).phase
            &&& old(io).buffer is None ==> final(managed)@ == buffers::attached(old(managed)@, b)
            &&& old(io).buffer matches Some(before) ==> final(managed)@ == buffers::retired(
                buffers::attached(old(managed)@, b),
                before,
            )
        },
{
}

/// A placeholder is one pixel, and gives up the buffer before.
pub proof fn law_placeholder_is_one_pixel<I, C>(
    io: &mut MenuIo<I, C>,
    managed: &mut ManagedBuffers,
    b: BufferId,
    r: Vec<Request>,
)
    requires
        old(io).wf(),
        call_ensures(popup::placeholder_painted::<I, C>, (io, managed, Some(b)), r),
    ensures
        !old(io).has_surface ==> r@.len() == 0 && *final(io) == *old(io) && final(managed)@
            == old(managed)@,
        old(io).has_surface ==> {
            &&& shows_buffer(
                r@,
                b,
                old(io).has_viewport,
                Request::SetSource { x: 0, y: 0, w: 1, h: 1 },
                Request::SetDestination { w: 1, h: 1 },
                Request::Damage { w: 1, h: 1 },
            )
            &&& final(io).buffer == Some(b)
            &&& final(io).menu == old(io).menu && final(io).phase == old(io).phase
            &&& old(io).buffer matches Some(before) ==> final(managed)@ == buffers::retired(
                buffers::attached(old(managed)@, b),
                before,
            )
        },
{
}

/// Painting turns red into blue and blue into red, and leaves green and alpha,
/// of every whole pixel.
pub proof fn law_pixels_change_order(rgba: &[u8], r: Vec<u8>, i: int)
    requires
        call_ensures(popup::to_bgra, (rgba,), r),
        0 <= i,
        4 * i + 3 < rgba@.len(),
    ensures
        r@.len() == rgba@.len(),
        r@[4 * i] == rgba@[4 * i + 2],
        r@[4 * i + 1] == rgba@[4 * i + 1],
        r@[4 * i + 2] == rgba@[4 * i],
        r@[4 * i + 3] == rgba@[4 * i + 3],
{
}

/// A surface is the menu's by the name that it was given, and takes the menu's
/// input only while one is open.
pub proof fn law_surface_is_known_by_name<I, C>(
    io: &mut MenuIo<I, C>,
    id: u32,
    has_viewport: bool,
    other: u32,
    is_menus: bool,
    takes: bool,
)
    requires
        call_ensures(MenuIo::<I, C>::name_surface, (io, id, has_viewport), ()),
        call_ensures(popup::is_menu_surface::<I, C>, (&*final(io), other), is_menus),
        call_ensures(popup::surface_matches::<I, C>, (&*final(io), other), takes),
    ensures
        is_menus == (old(io).has_surface && other == id),
        takes == (is_menus && old(io).menu is Some),
        final(io).has_viewport == has_viewport,
        final(io).menu == old(io).menu && final(io).phase == old(io).phase,
{
}

/// The menu takes the keyboard exactly while it is being brought up or on the
/// screen.
pub proof fn law_engaged_with_a_menu<I, C>(io: MenuIo<I, C>, engaged: bool, active: bool)
    requires
        io.wf(),
        call_ensures(popup::is_engaged::<I, C>, (&io,), engaged),
        call_ensures(popup::active::<I, C>, (&io,), active),
    ensures
        engaged == (io.phase == Phase::AwaitMenu || io.phase == Phase::Shown),
        active ==> engaged,
        active == io.active,
{
}

/// At first there is no popup, no menu and no surface.
pub proof fn law_no_popup_at_first<I, C>(io: MenuIo<I, C>)
    requires
        call_ensures(MenuIo::<I, C>::new, (), io),
    ensures
        io.wf() && io.menu is None && io.generation == 0 && !io.has_surface && io.buffer is None,
        io.phase == Phase::Idle && !io.engaged && !io.active && io.next_generation == 1,
        io.surface_id == 0 && !io.has_viewport,
{
}

/// Bytes behind the last whole pixel become zero.
pub proof fn law_torn_pixel_is_cleared(rgba: &[u8], r: Vec<u8>, k: int)
    requires
        call_ensures(popup::to_bgra, (rgba,), r),
        rgba@.len() - rgba@.len() % 4 <= k < rgba@.len(),
    ensures
        r@[k] == 0,
{
}

/// A popup is made of a surface that is free: one that is new is made with its
/// viewport, and either is detached from its buffer and committed before the
/// popup is created on it.
pub proof fn law_popup_is_made_of_a_free_surface<I, C>(
    a: &mut MenuIo<I, C>,
    x: i32,
    y: i32,
    r: Vec<PopupAction>,
    b: &mut MenuIo<I, C>,
    q: MenuRequest<I, C>,
    win_ph: i32,
    s: Vec<PopupAction>,
)
    requires
        old(a).wf() && old(b).wf(),
        q.wf(win_ph),
        call_ensures(popup::arm::<I, C>, (a, x, y, true), r),
        old(b).phase == Phase::Idle,
        call_ensures(popup::show_highlighted::<I, C>, (b, q, win_ph, true), s),
    ensures
        r@.len() >= 4 && s@.len() >= 4,
        ({
            let n = r@.len();
            &&& r@[n - 4] == PopupAction::Surface(Request::Detach)
            &&& r@[n - 3] == PopupAction::Surface(Request::Commit)
            &&& r@[n - 2] == PopupAction::Surface(Request::Flush)
            &&& r@[n - 1] is Create
        }),
        ({
            let n = s@.len();
            &&& s@[n - 4] == PopupAction::Surface(Request::Detach)
            &&& s@[n - 3] == PopupAction::Surface(Request::Commit)
            &&& s@[n - 2] == PopupAction::Surface(Request::Flush)
            &&& s@[n - 1] is CreateScaled
        }),
        !old(a).has_surface ==> r@[0] == PopupAction::Surface(Request::CreateSurface) && r@[1]
            == PopupAction::Surface(Request::CreateViewport),
        !old(b).has_surface ==> s@[0] == PopupAction::Surface(Request::CreateSurface) && s@[1]
            == PopupAction::Surface(Request::CreateViewport),
        old(a).has_surface ==> r@.len() == if old(a).buffer is Some {
            5int
        } else {
            4int
        },
        final(a).has_surface && final(a).buffer is None,
        final(b).has_surface && final(b).buffer is None,
{
    let n = r@.len();
    assert(r@[n - 4] == PopupAction::Surface(Request::Detach));
    let k = s@.len();
    assert(s@[k - 4] == PopupAction::Surface(Request::Detach));
}

/// A menu can be scrolled as far as its contents are taller than its view.
pub proof fn law_scroll_has_an_end<I, C>(m: Menu<I, C>, r: i32)
    requires
        m.wf(),
        call_ensures(Menu::<I, C>::max_scroll, (&m,), r),
    ensures
        m.ph > m.view_ph ==> r == m.ph - m.view_ph,
        m.ph <= m.view_ph ==> r == 0,
{
}

/// Scrolling to the highlighted row brings it into view where it fits, moves
/// nothing where it is in view already, and changes nothing else.
pub proof fn law_highlighted_row_is_scrolled_to<I, C>(m: &mut Menu<I, C>, k: int)
    requires
        old(m).wf(),
        call_ensures(Menu::<I, C>::scroll_active_into_view, (m,), ()),
        0 <= k < old(m).layout.rows@.len(),
        old(m).layout.rows@[k].item as i32 == old(m).active,
        forall|j: int|
            0 <= j < k ==> (#[trigger] old(m).layout.rows@[j]).item as i32 != old(m).active,
        old(m).view_ph < old(m).ph,
        0 <= old(m).scroll <= old(m).ph - old(m).view_ph,
    ensures
        ({
            let row = old(m).layout.rows@[k];
            let s = final(m).scroll;
            let view = old(m).view_ph;
            &&& 0 <= row.y && 0 <= row.h <= view && row.y + row.h <= old(m).ph ==> s <= row.y
                && row.y + row.h <= s + view
            &&& old(m).scroll <= row.y && row.y + row.h <= old(m).scroll + view ==> s
                == old(m).scroll
            &&& 0 <= row.y < old(m).scroll ==> s == row.y
            &&& old(m).scroll <= row.y && old(m).scroll + view < row.y + row.h <= old(m).ph ==> s
                + view == row.y + row.h
        }),
        final(m).active == old(m).active && final(m).items == old(m).items,
        final(m).layout == old(m).layout && final(m).cb == old(m).cb,
{
    lemma_row_of(old(m).layout.rows@, old(m).active, k);
}

/// A menu that takes input is scrolled as it is; any other has no scroll.
pub proof fn law_scroll_is_that_of_the_menu<I, C>(io: MenuIo<I, C>, r: Option<i32>)
    requires
        call_ensures(popup::mapped_scroll::<I, C>, (&io,), r),
    ensures
        r is Some == (io.menu is Some && (io.menu->0).mapped),
        r matches Some(s) ==> s == (io.menu->0).scroll,
{
}

} // verus!
