use jellyfin_desktop::wayland::buffers::ManagedBuffers;
use jellyfin_desktop::wayland::popup as menu;
use jellyfin_desktop::wayland::popup::{
    EffectOutcome, Menu, MenuEffect, MenuEvent, MenuIo, MenuLayout, MenuRequest, MenuRow, Phase,
    PopupAction,
};
use jellyfin_desktop::wayland::requests::Request;

type Io = MenuIo<&'static str, u8>;

const ONE: u32 = 0x3F80_0000;

fn rows(n: usize, h: i32) -> MenuLayout {
    let mut rows = Vec::new();
    for i in 0..n {
        rows.push(MenuRow {
            item: i,
            y: i as i32 * h,
            h,
            separator: false,
        });
    }
    MenuLayout {
        width: 90,
        height: n as i32 * h,
        rows,
    }
}

fn dropdown(n: usize, initial: i32, anchor_ph_y: i32) -> MenuRequest<&'static str, u8> {
    MenuRequest {
        items: vec!["item"; n],
        layout: rows(n, 10),
        x: 3,
        y: anchor_ph_y,
        width: 120,
        scaled_width: 120,
        anchor_ph_y,
        initial,
        scale_bits: ONE,
        cb: 7,
    }
}

fn context_menu(io: &mut Io) -> Vec<PopupAction> {
    menu::show(io, vec!["a", "b"], rows(2, 10), 5, 6, ONE, 9, true)
}

fn shown_dropdown(n: usize, anchor_ph_y: i32, win_ph: i32) -> Io {
    let mut io: Io = MenuIo::new();
    menu::arm(&mut io, 1, 2, true);
    menu::show_highlighted(&mut io, dropdown(n, -1, anchor_ph_y), win_ph, true);
    menu::on_ready(&mut io, 1);
    menu::on_ready(&mut io, 1);
    assert_eq!(io.phase, Phase::Shown);
    io
}

fn scroll(io: &Io) -> i32 {
    menu::mapped_scroll(io).unwrap()
}

#[test]
fn a_press_creates_and_grabs_an_unmapped_popup() {
    let mut io: Io = MenuIo::new();
    let actions = menu::arm(&mut io, 11, 12, true);
    assert!(matches!(
        actions[..],
        [
            PopupAction::Surface(Request::CreateSurface),
            PopupAction::Surface(Request::CreateViewport),
            PopupAction::Surface(Request::Detach),
            PopupAction::Surface(Request::Commit),
            PopupAction::Surface(Request::Flush),
            PopupAction::Create {
                generation: 1,
                x: 11,
                y: 12,
                w: 1,
                h: 1
            },
        ]
    ));
    assert_eq!(io.phase, Phase::AwaitPlaceholder);
    assert!(!menu::active(&io) && !menu::is_engaged(&io));
}

#[test]
fn without_a_shell_no_popup_is_created() {
    let mut io: Io = MenuIo::new();
    assert!(menu::arm(&mut io, 1, 2, false).is_empty());
    assert_eq!(io.phase, Phase::AwaitPlaceholder);
    assert_eq!(io.generation, 1);
}

#[test]
fn an_armed_menu_comes_onto_the_screen() {
    let mut io: Io = MenuIo::new();
    menu::arm(&mut io, 1, 2, true);
    assert!(menu::on_ready(&mut io, 1).is_empty());
    assert_eq!(io.phase, Phase::Placeholder);
    let actions = context_menu(&mut io);
    assert!(matches!(
        actions[..],
        [
            PopupAction::PaintPlaceholder,
            PopupAction::Reposition {
                x: 5,
                y: 6,
                w: 90,
                h: 20,
                scale_bits: ONE
            }
        ]
    ));
    assert!(menu::active(&io) && menu::is_engaged(&io));
    assert!(matches!(menu::on_ready(&mut io, 1)[..], [PopupAction::PaintMenu]));
    assert_eq!(io.phase, Phase::Shown);
    assert!(menu::on_ready(&mut io, 1).is_empty());
}

#[test]
fn a_menu_before_the_first_configure_waits_for_it() {
    let mut io: Io = MenuIo::new();
    menu::arm(&mut io, 1, 2, true);
    assert!(context_menu(&mut io).is_empty());
    assert!(!menu::active(&io));
    assert_eq!(menu::on_ready(&mut io, 1).len(), 2);
    assert_eq!(io.phase, Phase::AwaitMenu);
    assert!(context_menu(&mut io).is_empty());
}

#[test]
fn an_unarmed_menu_gets_a_popup_of_its_size() {
    let mut io: Io = MenuIo::new();
    let actions = context_menu(&mut io);
    assert_eq!(actions.len(), 6);
    assert!(matches!(
        actions[5],
        PopupAction::CreateScaled {
            generation: 1,
            x: 5,
            y: 6,
            w: 90,
            h: 20,
            scale_bits: ONE
        }
    ));
    assert!(menu::is_engaged(&io) && !menu::active(&io));
    assert_eq!(io.phase, Phase::AwaitMenu);
}

#[test]
fn a_menu_on_the_screen_is_replaced_at_once() {
    let mut io = shown_dropdown(3, 0, 500);
    let actions = context_menu(&mut io);
    assert!(matches!(
        actions[..],
        [PopupAction::PaintMenu, PopupAction::Reposition { x: 5, y: 6, .. }]
    ));
    assert_eq!(io.phase, Phase::Shown);
    assert_eq!(menu::mapped_scroll(&io), Some(0));
}

#[test]
fn late_events_are_ignored() {
    let mut io: Io = MenuIo::new();
    menu::arm(&mut io, 1, 2, true);
    context_menu(&mut io);
    menu::arm(&mut io, 1, 2, true);
    assert_eq!(io.generation, 2);
    assert!(menu::on_ready(&mut io, 1).is_empty());
    assert_eq!(menu::on_done(&mut io, 1), None);
    assert_eq!(io.phase, Phase::AwaitPlaceholder);
}

#[test]
fn generations_wrap_around_zero() {
    let mut io: Io = MenuIo::new();
    io.next_generation = u32::MAX;
    menu::arm(&mut io, 1, 2, true);
    assert_eq!(io.generation, u32::MAX);
    menu::arm(&mut io, 1, 2, true);
    assert_eq!(io.generation, 1);
}

#[test]
fn a_dismissed_menu_hands_its_callback_back_once() {
    let mut io = shown_dropdown(3, 0, 500);
    assert_eq!(menu::on_done(&mut io, 1), Some(7));
    assert_eq!(menu::on_done(&mut io, 1), None);
    assert_eq!(io.phase, Phase::Idle);
    assert!(!menu::active(&io) && !menu::is_engaged(&io));
}

#[test]
fn only_a_popup_without_a_menu_is_speculative() {
    let mut io: Io = MenuIo::new();
    assert!(!menu::dismiss_if_speculative(&mut io));
    menu::arm(&mut io, 1, 2, true);
    assert!(!menu::hide_menu(&mut io));
    assert!(menu::dismiss_if_speculative(&mut io));
    let mut io = shown_dropdown(3, 0, 500);
    assert!(!menu::dismiss_if_speculative(&mut io));
    assert!(menu::hide_menu(&mut io));
    assert_eq!(io.phase, Phase::Idle);
}

#[test]
fn the_menu_surface_is_known_while_no_menu_is_open() {
    let mut io: Io = MenuIo::new();
    menu::arm(&mut io, 1, 2, true);
    io.name_surface(44, true);
    assert!(menu::is_menu_surface(&io, 44));
    assert!(!menu::surface_matches(&io, 44));
    context_menu(&mut io);
    assert!(menu::surface_matches(&io, 44));
    assert!(!menu::surface_matches(&io, 45));
    assert!(!menu::is_menu_surface(&io, 45));
}

#[test]
fn a_dropdown_is_cut_at_the_lower_edge() {
    let io = shown_dropdown(10, 60, 100);
    let m = io.menu.as_ref().unwrap();
    assert_eq!((m.pw, m.ph, m.view_ph), (120, 100, 40));
    assert_eq!(m.max_scroll(), 60);
    let io = shown_dropdown(10, 200, 100);
    assert_eq!(io.menu.as_ref().unwrap().view_ph, 10);
}

#[test]
fn the_first_highlight_is_in_view() {
    let mut io: Io = MenuIo::new();
    menu::show_highlighted(&mut io, dropdown(10, 9, 60), 100, true);
    assert_eq!(io.menu.as_ref().unwrap().scroll, 60);
}

#[test]
fn row_heights_skip_separators() {
    let mut io: Io = MenuIo::new();
    let mut layout = rows(3, 0);
    layout.rows[0].separator = true;
    layout.rows[0].h = 3;
    layout.rows[1].h = 12;
    menu::show(&mut io, vec!["a"; 3], layout, 0, 0, ONE, 1, true);
    let m: &Menu<&str, u8> = io.menu.as_ref().unwrap();
    assert_eq!(m.row_height(), 12);
}

#[test]
fn input_reaches_a_mapped_menu_only() {
    let mut io: Io = MenuIo::new();
    assert_eq!(menu::handle_motion(&io, 1, 2), None);
    assert_eq!(menu::handle_outside_press(&io), None);
    assert_eq!(menu::handle_key(&io, 65, true), None);
    assert!(!menu::handle_scroll(&mut io, -10));
    let mut io = shown_dropdown(10, 60, 100);
    assert!(menu::handle_scroll(&mut io, -15));
    assert_eq!(
        menu::handle_motion(&io, 1, 2),
        Some(MenuEvent::Motion { x: 1, y: 17 })
    );
    assert_eq!(
        menu::handle_button(&io, 1, 2, true),
        Some(MenuEvent::Press { x: 1, y: 17 })
    );
    assert_eq!(menu::handle_button(&io, 1, 2, false), None);
    assert_eq!(menu::handle_outside_press(&io), Some(MenuEvent::Dismiss));
    assert_eq!(menu::handle_key(&io, 65, true), Some(MenuEvent::Key(65)));
    assert_eq!(menu::handle_key(&io, 65, false), None);
}

#[test]
fn scrolling_stays_within_the_menu() {
    let mut io = shown_dropdown(10, 60, 100);
    assert!(!menu::handle_scroll(&mut io, 10));
    assert!(menu::handle_scroll(&mut io, -1000));
    assert_eq!(scroll(&io), 60);
    assert!(!menu::handle_scroll(&mut io, -10));
    assert!(menu::handle_scroll(&mut io, 25));
    assert_eq!(scroll(&io), 35);
    let mut short = shown_dropdown(3, 0, 500);
    assert!(!menu::handle_scroll(&mut short, -10));
}

#[test]
fn keys_bring_the_highlight_into_view() {
    let mut io = shown_dropdown(10, 60, 100);
    menu::step(&mut io, MenuEvent::Motion { x: 0, y: 0 }, 8);
    assert_eq!(scroll(&io), 0);
    menu::step(&mut io, MenuEvent::Key(1), 8);
    assert_eq!(scroll(&io), 50);
    menu::step(&mut io, MenuEvent::Key(1), 8);
    assert_eq!(scroll(&io), 50);
    menu::step(&mut io, MenuEvent::Key(1), 2);
    assert_eq!(scroll(&io), 20);
    menu::step(&mut io, MenuEvent::Key(1), -1);
    assert_eq!(scroll(&io), 20);
}

#[test]
fn a_close_ends_the_menu_with_its_pick() {
    let mut io = shown_dropdown(3, 0, 500);
    assert!(matches!(
        menu::apply_effect(&mut io, MenuEffect::Redraw),
        EffectOutcome::Paint
    ));
    assert!(matches!(
        menu::apply_effect(&mut io, MenuEffect::Close(2)),
        EffectOutcome::Closed(Some(7), 2)
    ));
    assert!(matches!(
        menu::apply_effect(&mut io, MenuEffect::Redraw),
        EffectOutcome::Nothing
    ));
    assert!(matches!(
        menu::apply_effect(&mut io, MenuEffect::Close(2)),
        EffectOutcome::Closed(None, 2)
    ));
}

#[test]
fn painted_buffers_replace_one_another() {
    let mut io: Io = MenuIo::new();
    let mut buffers = ManagedBuffers::default();
    assert!(menu::placeholder_painted(&mut io, &mut buffers, Some(1)).is_empty());
    menu::arm(&mut io, 1, 2, true);
    io.name_surface(4, true);
    menu::show_highlighted(&mut io, dropdown(10, 9, 60), 100, true);
    menu::on_ready(&mut io, 1);
    assert!(menu::placeholder_painted(&mut io, &mut buffers, None).is_empty());
    buffers.track_buffer(1);
    assert_eq!(
        menu::placeholder_painted(&mut io, &mut buffers, Some(1)),
        vec![
            Request::SetSource {
                x: 0,
                y: 0,
                w: 1,
                h: 1
            },
            Request::SetDestination { w: 1, h: 1 },
            Request::Attach(1),
            Request::Damage { w: 1, h: 1 },
            Request::Commit,
            Request::Flush,
        ]
    );
    assert!(!buffers.buffer_is_idle(1));
    assert!(!buffers.note_buffer_release(1));
    buffers.track_buffer(2);
    assert_eq!(
        menu::menu_painted(&mut io, &mut buffers, Some(2), 120, 40),
        vec![
            Request::SetSource {
                x: 0,
                y: 60,
                w: 120,
                h: 40
            },
            Request::SetDestination { w: 120, h: 40 },
            Request::Attach(2),
            Request::Damage { w: 120, h: 100 },
            Request::Commit,
            Request::DestroyBuffer(1),
            Request::Flush,
        ]
    );
    assert_eq!(io.buffer, Some(2));
    assert!(menu::menu_painted(&mut io, &mut buffers, None, 1, 1).is_empty());
    let actions = menu::arm(&mut io, 1, 2, true);
    assert!(matches!(
        actions[0],
        PopupAction::Surface(Request::RetireBuffer(2))
    ));
    assert!(menu::menu_painted(&mut io, &mut buffers, Some(3), 1, 1).is_empty());
}

#[test]
fn swapping_colours_twice_gives_them_back() {
    let rgba = [1, 2, 3, 4, 5, 6, 7, 8];
    let bgra = menu::to_bgra(&rgba);
    assert_eq!(bgra, vec![3, 2, 1, 4, 7, 6, 5, 8]);
    assert_eq!(menu::to_bgra(&bgra), rgba.to_vec());
    assert_eq!(menu::to_bgra(&[1, 2, 3, 4, 5]), vec![3, 2, 1, 4, 0]);
    assert_eq!(menu::to_bgra(&[1, 2, 3]), vec![0, 0, 0]);
}

#[test]
fn the_grab_lasts_from_the_map_to_the_teardown() {
    let mut io = shown_dropdown(3, 0, 500);
    assert!(menu::is_engaged(&io) && menu::active(&io));
    let mut managed = ManagedBuffers::default();
    menu::menu_painted(&mut io, &mut managed, Some(5), 30, 10);
    let actions = menu::arm(&mut io, 1, 2, true);
    assert!(!menu::is_engaged(&io) && !menu::active(&io));
    assert_eq!(io.buffer, None);
    assert!(matches!(
        actions[..],
        [
            PopupAction::Surface(Request::RetireBuffer(5)),
            PopupAction::Surface(Request::Detach),
            PopupAction::Surface(Request::Commit),
            PopupAction::Surface(Request::Flush),
            PopupAction::Create { generation: 2, .. },
        ]
    ));
}
