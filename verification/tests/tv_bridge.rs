use fpas_tui::store::{TurboVisionMenu, TurboVisionMenuItem};
use fpas_tui::tv_bridge::{
    bounds_contain, build_menu_bar, build_upstream_menu, layout_menu_bar_for_terminal,
    layout_status_line_for_terminal, left_press_inside, menu_bar_layout_target,
    status_line_layout_target, try_select_radio_button_on_mouse_down,
    try_toggle_check_box_on_mouse_down, upstream_menu_entries, MenuEntry, TvBounds, TvEvent,
    TvEventKind,
};
use turbo_vision::prelude::{Point, Rect, CM_QUIT};
use turbo_vision::views::checkbox::CheckBox;
use turbo_vision::views::menu_bar::{MenuBar, SubMenu};
use turbo_vision::views::radiobutton::RadioButton;
use turbo_vision::views::status_line::{StatusItem, StatusLine};
use turbo_vision::views::View;

fn press(kind: TvEventKind, pos: Point, buttons: u8) -> TvEvent {
    TvEvent { kind, buttons, x: pos.x, y: pos.y }
}

#[test]
fn mouse_down_inside_bounds_toggles_check_box() {
    let bounds = Rect::new(2, 3, 12, 3);
    let mut check_box = CheckBox::new(bounds, "opt");
    assert!(!check_box.is_checked());

    let mut event = press(TvEventKind::MouseDown, bounds.a, turbo_vision::core::event::MB_LEFT_BUTTON);
    assert!(try_toggle_check_box_on_mouse_down(&mut check_box, &mut event));
    assert!(check_box.is_checked());
    assert_eq!(event.kind, TvEventKind::Nothing);
}

#[test]
fn check_box_mouse_mouse_down_outside_bounds_is_ignored() {
    let bounds = Rect::new(2, 3, 12, 3);
    let mut check_box = CheckBox::new(bounds, "opt");

    let mut event = press(
        TvEventKind::MouseDown,
        Point::new(bounds.b.x, bounds.a.y),
        turbo_vision::core::event::MB_LEFT_BUTTON,
    );
    assert!(!try_toggle_check_box_on_mouse_down(&mut check_box, &mut event));
    assert!(!check_box.is_checked());
    assert_eq!(event.kind, TvEventKind::MouseDown);
}

#[test]
fn mouse_down_inside_bounds_selects_radio_button() {
    let bounds = Rect::new(2, 3, 12, 3);
    let mut radio_button = RadioButton::new(bounds, "opt", 1);
    assert!(!radio_button.is_selected());

    let mut event = press(TvEventKind::MouseDown, bounds.a, turbo_vision::core::event::MB_LEFT_BUTTON);
    assert!(try_select_radio_button_on_mouse_down(&mut radio_button, &mut event));
    assert!(radio_button.is_selected());
    assert_eq!(event.kind, TvEventKind::Nothing);
}

#[test]
fn radio_button_mouse_mouse_down_outside_bounds_is_ignored() {
    let bounds = Rect::new(2, 3, 12, 3);
    let mut radio_button = RadioButton::new(bounds, "opt", 1);

    let mut event = press(
        TvEventKind::MouseDown,
        Point::new(bounds.b.x, bounds.a.y),
        turbo_vision::core::event::MB_LEFT_BUTTON,
    );
    assert!(!try_select_radio_button_on_mouse_down(&mut radio_button, &mut event));
    assert!(!radio_button.is_selected());
    assert_eq!(event.kind, TvEventKind::MouseDown);
}

#[test]
fn layout_menu_bar_stretches_to_terminal_width() {
    let mut menu_bar = MenuBar::new(Rect::new(0, 0, 80, 1));
    menu_bar.add_submenu(SubMenu::new("File", turbo_vision::core::menu_data::Menu::new()));
    layout_menu_bar_for_terminal(&mut menu_bar, 120);
    assert_eq!(menu_bar.bounds(), Rect::new(0, 0, 120, 1));
}

#[test]
fn layout_status_line_pins_to_bottom_and_stretches_width() {
    let status_line = StatusLine::new(
        Rect::new(0, 24, 80, 25),
        vec![StatusItem::new("Quit", 0, CM_QUIT)],
    );
    let mut status_line = status_line;
    layout_status_line_for_terminal(&mut status_line, 120, 30);
    assert_eq!(status_line.bounds(), Rect::new(0, 29, 120, 30));
}

#[test]
fn turbo_vision_menu_builder_maps_separator_and_commands() {
    let menu = build_upstream_menu(&TurboVisionMenu {
        title: "~F~ile".into(),
        items: vec![
            TurboVisionMenuItem { text: "~O~pen".into(), command_id: 100 },
            TurboVisionMenuItem { text: "-".into(), command_id: 0 },
            TurboVisionMenuItem { text: "E~x~it".into(), command_id: 4 },
        ],
    });

    assert_eq!(menu.len(), 3);
    assert!(matches!(menu.items[0], turbo_vision::core::menu_data::MenuItem::Regular { .. }));
    assert!(matches!(menu.items[1], turbo_vision::core::menu_data::MenuItem::Separator));
    assert_eq!(menu.items[2].command(), Some(4));
}

fn bounds(ax: i16, ay: i16, bx: i16, by: i16) -> TvBounds {
    TvBounds { ax, ay, bx, by }
}

#[test]
fn contains_uses_half_open_bounds() {
    let b = bounds(2, 3, 12, 5);
    assert!(bounds_contain(b, 2, 3));
    assert!(bounds_contain(b, 11, 4));
    assert!(!bounds_contain(b, 12, 4));
    assert!(!bounds_contain(b, 5, 5));
    assert!(!bounds_contain(b, 1, 3));
}

#[test]
fn contains_on_a_flat_rectangle_takes_its_row() {
    let b = bounds(2, 3, 12, 3);
    assert!(bounds_contain(b, 5, 3));
    assert!(!bounds_contain(b, 5, 4));
    let column = bounds(7, 1, 7, 9);
    assert!(bounds_contain(column, 7, 4));
    assert!(!bounds_contain(column, 8, 4));
}

#[test]
fn only_left_presses_hit() {
    let b = bounds(0, 0, 10, 10);
    assert!(left_press_inside(TvEventKind::MouseDown, 1, 3, 3, b));
    assert!(left_press_inside(TvEventKind::MouseDown, 3, 3, 3, b));
    assert!(!left_press_inside(TvEventKind::MouseDown, 2, 3, 3, b));
    assert!(!left_press_inside(TvEventKind::MouseUp, 1, 3, 3, b));
    assert!(!left_press_inside(TvEventKind::MouseDown, 1, 30, 3, b));
}

#[test]
fn right_button_does_not_toggle_check_box() {
    let rect = Rect::new(0, 0, 10, 1);
    let mut check_box = CheckBox::new(rect, "x");
    let mut event = press(TvEventKind::MouseDown, rect.a, 0x02);
    assert!(!try_toggle_check_box_on_mouse_down(&mut check_box, &mut event));
    assert!(!check_box.is_checked());
    assert_eq!(event.kind, TvEventKind::MouseDown);
}

#[test]
fn menu_bar_layout_is_idempotent() {
    let target = menu_bar_layout_target(bounds(3, 2, 40, 3), 80);
    assert_eq!(target, Some(bounds(0, 0, 80, 1)));
    assert_eq!(menu_bar_layout_target(bounds(0, 0, 80, 1), 80), None);
}

#[test]
fn status_line_layout_is_stable() {
    let target = status_line_layout_target(bounds(0, 24, 80, 25), 120, 30);
    assert_eq!(target, Some(bounds(0, 29, 120, 30)));
    assert_eq!(status_line_layout_target(bounds(0, 29, 120, 30), 120, 30), None);
}

#[test]
fn menu_entries_mark_separators() {
    let menu = TurboVisionMenu {
        title: "Edit".into(),
        items: vec![
            TurboVisionMenuItem { text: "Cut".into(), command_id: 20 },
            TurboVisionMenuItem { text: "".into(), command_id: 0 },
        ],
    };
    let entries = upstream_menu_entries(&menu);
    assert_eq!(entries.len(), 2);
    assert!(matches!(&entries[0], MenuEntry::Item { text, command: 20 } if text == "Cut"));
    assert!(matches!(entries[1], MenuEntry::Separator));
}

#[test]
fn menu_bar_keeps_bounds() {
    let menus = vec![TurboVisionMenu { title: "File".into(), items: vec![] }];
    let menu_bar = build_menu_bar(bounds(0, 0, 50, 1), &menus);
    assert_eq!(menu_bar.bounds(), Rect::new(0, 0, 50, 1));
}
