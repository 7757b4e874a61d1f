//! The places where the bridge works on Turbo Vision views directly: mouse
//! toggling of check boxes and radio buttons, laying out the application
//! chrome for the terminal, and building upstream menus.
//!
//! The decisions are verified functions on plain values; the views are
//! read and changed through the small trusted wrappers below.
use vstd::prelude::*;
use turbo_vision::prelude::Rect;
use turbo_vision::views::checkbox::CheckBox;
use turbo_vision::views::menu_bar::{MenuBar, SubMenu};
use turbo_vision::views::radiobutton::RadioButton;
use turbo_vision::views::status_line::StatusLine;
use crate::store::TurboVisionMenu;

verus! {

#[verifier::external_type_specification]
#[verifier::external_body]
pub struct ExCheckBox(CheckBox);

#[verifier::external_type_specification]
#[verifier::external_body]
pub struct ExRadioButton(RadioButton);

#[verifier::external_type_specification]
#[verifier::external_body]
pub struct ExMenuBar(MenuBar);

#[verifier::external_type_specification]
#[verifier::external_body]
pub struct ExStatusLine(StatusLine);

#[verifier::external_type_specification]
#[verifier::external_body]
pub struct ExMenu(turbo_vision::core::menu_data::Menu);


/// The corners of a Turbo Vision rectangle: `(ax, ay)` inclusive,
/// `(bx, by)` exclusive.
#[derive(Debug, Clone, Copy, PartialEq, Eq, Structural)]
pub struct TvBounds {
    pub ax: i16,
    pub ay: i16,
    pub bx: i16,
    pub by: i16,
}

/// The kind of a Turbo Vision event.
#[derive(Debug, Clone, Copy, PartialEq, Eq, Structural)]
pub enum TvEventKind {
    Nothing,
    Keyboard,
    MouseDown,
    MouseUp,
    MouseMove,
    MouseAuto,
    MouseWheelUp,
    MouseWheelDown,
    Command,
    Broadcast,
}

/// A Turbo Vision event as the bridge reads it: its kind and the mouse
/// button bits and position it carries.
#[derive(Debug, Clone, Copy, PartialEq, Eq, Structural)]
pub struct TvEvent {
    pub kind: TvEventKind,
    pub buttons: u8,
    pub x: i16,
    pub y: i16,
}

/// `event` marked handled, as `Event::clear` leaves it: its kind becomes
/// `Nothing`, the rest is kept.
pub open spec fn spec_cleared(event: TvEvent) -> TvEvent {
    TvEvent { kind: TvEventKind::Nothing, ..event }
}

/// Mark `event` handled (`Event::clear`).
pub fn clear_event(event: &mut TvEvent)
    ensures
        *final(event) == spec_cleared(*old(event)),
{
    event.kind = TvEventKind::Nothing;
}

/// Menu entries in upstream terms.
#[derive(Debug)]
pub enum MenuEntry {
    Separator,
    Item { text: String, command: u16 },
}

// ---------------------------------------------------------------- trusted wrappers

/// `MB_LEFT_BUTTON`, the left-button bit of `MouseEvent::buttons`: `0x01`
/// in the crate's source.
#[verifier::external_body]
fn left_button_mask() -> (mask: u8)
    ensures
        mask == 1,
{
    turbo_vision::core::event::MB_LEFT_BUTTON
}

/// The bounds a Turbo Vision `CheckBox` holds, as `(ax, ay, bx, by)`.
pub uninterp spec fn spec_check_box_bounds(check_box: CheckBox) -> (i16, i16, i16, i16);

/// Whether a Turbo Vision `CheckBox` is checked (`is_checked`).
pub uninterp spec fn spec_check_box_checked(check_box: CheckBox) -> bool;

/// The bounds a Turbo Vision `RadioButton` holds, as `(ax, ay, bx, by)`.
pub uninterp spec fn spec_radio_button_bounds(radio_button: RadioButton) -> (i16, i16, i16, i16);

/// Whether a Turbo Vision `RadioButton` is selected (`is_selected`).
pub uninterp spec fn spec_radio_button_selected(radio_button: RadioButton) -> bool;

/// `View::bounds` of a check box: the bounds it holds.
#[verifier::external_body]
fn check_box_bounds(check_box: &CheckBox) -> (b: TvBounds)
    ensures
        spec_corners(b) == spec_check_box_bounds(*check_box),
{
    let r = turbo_vision::views::view::View::bounds(check_box);
    TvBounds { ax: r.a.x, ay: r.a.y, bx: r.b.x, by: r.b.y }
}

/// `CheckBox::toggle`: the checked state flips; the bounds are kept.
#[verifier::external_body]
fn check_box_toggle(check_box: &mut CheckBox)
    ensures
        spec_check_box_checked(*final(check_box)) == !spec_check_box_checked(*old(check_box)),
        spec_check_box_bounds(*final(check_box)) == spec_check_box_bounds(*old(check_box)),
{
    check_box.toggle()
}

/// `View::bounds` of a radio button: the bounds it holds.
#[verifier::external_body]
fn radio_button_bounds(radio_button: &RadioButton) -> (b: TvBounds)
    ensures
        spec_corners(b) == spec_radio_button_bounds(*radio_button),
{
    let r = turbo_vision::views::view::View::bounds(radio_button);
    TvBounds { ax: r.a.x, ay: r.a.y, bx: r.b.x, by: r.b.y }
}

/// `RadioButton::select`: the button is selected afterwards; the bounds are
/// kept.
#[verifier::external_body]
fn radio_button_select(radio_button: &mut RadioButton)
    ensures
        spec_radio_button_selected(*final(radio_button)),
        spec_radio_button_bounds(*final(radio_button)) == spec_radio_button_bounds(*old(radio_button)),
{
    radio_button.select()
}

/// The items of a Turbo Vision `Menu`, each as plain values
/// `(is_command_item, text, command)`: a regular item is
/// `(true, text, command)`, a separator `(false, "", 0)`, a submenu item
/// `(false, text, 0)`.
pub uninterp spec fn spec_menu_entries(menu: turbo_vision::core::menu_data::Menu) -> Seq<(bool, Seq<char>, u16)>;

/// The submenus of a Turbo Vision `MenuBar`, in order, each as its title
/// and the entries of its menu.
pub uninterp spec fn spec_menu_bar_menus(bar: MenuBar) -> Seq<(Seq<char>, Seq<(bool, Seq<char>, u16)>)>;

/// The bounds a Turbo Vision `MenuBar` holds, as `(ax, ay, bx, by)`.
pub uninterp spec fn spec_menu_bar_bounds(bar: MenuBar) -> (i16, i16, i16, i16);

/// The items of a Turbo Vision `StatusLine`, each as
/// `(text, key_code, command)`.
pub uninterp spec fn spec_status_line_items(line: StatusLine) -> Seq<(Seq<char>, u16, u16)>;

/// The bounds a Turbo Vision `StatusLine` holds, as `(ax, ay, bx, by)`.
pub uninterp spec fn spec_status_line_bounds(line: StatusLine) -> (i16, i16, i16, i16);

/// The bounds with corners `c`.
pub open spec fn spec_bounds_of(c: (i16, i16, i16, i16)) -> TvBounds {
    TvBounds { ax: c.0, ay: c.1, bx: c.2, by: c.3 }
}

/// The corners of `b` as a tuple.
pub open spec fn spec_corners(b: TvBounds) -> (i16, i16, i16, i16) {
    (b.ax, b.ay, b.bx, b.by)
}

/// How a menu entry shows up among a `Menu`'s items.
pub open spec fn spec_entry_view(entry: MenuEntry) -> (bool, Seq<char>, u16) {
    match entry {
        MenuEntry::Separator => (false, Seq::empty(), 0u16),
        MenuEntry::Item { text, command } => (true, text@, command),
    }
}

/// `View::bounds` of a menu bar: the bounds it holds.
#[verifier::external_body]
fn menu_bar_bounds(menu_bar: &MenuBar) -> (b: TvBounds)
    ensures
        spec_corners(b) == spec_menu_bar_bounds(*menu_bar),
{
    let r = turbo_vision::views::view::View::bounds(menu_bar);
    TvBounds { ax: r.a.x, ay: r.a.y, bx: r.b.x, by: r.b.y }
}

/// `View::set_bounds` of a menu bar: replaces the bounds it holds and
/// keeps its menus.
#[verifier::external_body]
fn menu_bar_set_bounds(menu_bar: &mut MenuBar, b: TvBounds)
    ensures
        spec_menu_bar_bounds(*final(menu_bar)) == spec_corners(b),
        spec_menu_bar_menus(*final(menu_bar)) == spec_menu_bar_menus(*old(menu_bar)),
{
    turbo_vision::views::view::View::set_bounds(menu_bar, Rect::new(b.ax, b.ay, b.bx, b.by))
}

/// `View::bounds` of a status line: the bounds it holds.
#[verifier::external_body]
fn status_line_bounds(status_line: &StatusLine) -> (b: TvBounds)
    ensures
        spec_corners(b) == spec_status_line_bounds(*status_line),
{
    let r = turbo_vision::views::view::View::bounds(status_line);
    TvBounds { ax: r.a.x, ay: r.a.y, bx: r.b.x, by: r.b.y }
}

/// `View::set_bounds` of a status line: replaces the bounds it holds and
/// keeps its items.
#[verifier::external_body]
fn status_line_set_bounds(status_line: &mut StatusLine, b: TvBounds)
    ensures
        spec_status_line_bounds(*final(status_line)) == spec_corners(b),
        spec_status_line_items(*final(status_line)) == spec_status_line_items(*old(status_line)),
{
    turbo_vision::views::view::View::set_bounds(status_line, Rect::new(b.ax, b.ay, b.bx, b.by))
}

/// `Menu::new`: a menu with no items.
#[verifier::external_body]
fn menu_new() -> (menu: turbo_vision::core::menu_data::Menu)
    ensures
        spec_menu_entries(menu) == Seq::<(bool, Seq<char>, u16)>::empty(),
{
    turbo_vision::core::menu_data::Menu::new()
}

/// `Menu::add` of the item `entry` stands for (`MenuItem::separator()`, or
/// `MenuItem::new(text, command, 0, 0)`: no key, no help context): the
/// item goes at the end of the menu.
#[verifier::external_body]
fn menu_add_entry(menu: &mut turbo_vision::core::menu_data::Menu, entry: &MenuEntry)
    ensures
        spec_menu_entries(*final(menu)) == spec_menu_entries(*old(menu)).push(spec_entry_view(*entry)),
{
    menu.add(match entry {
        MenuEntry::Separator => turbo_vision::core::menu_data::MenuItem::separator(),
        MenuEntry::Item { text, command } => turbo_vision::core::menu_data::MenuItem::new(text.as_str(), *command, 0, 0),
    })
}

/// `MenuBar::new`: a menu bar with the given bounds and no menus.
#[verifier::external_body]
fn menu_bar_new(b: TvBounds) -> (bar: MenuBar)
    ensures
        spec_menu_bar_bounds(bar) == spec_corners(b),
        spec_menu_bar_menus(bar) == Seq::<(Seq<char>, Seq<(bool, Seq<char>, u16)>)>::empty(),
{
    MenuBar::new(Rect::new(b.ax, b.ay, b.bx, b.by))
}

/// `MenuBar::add_submenu` of `SubMenu::new(title, menu)`: the submenu goes
/// after the others; the bounds are kept.
#[verifier::external_body]
fn menu_bar_add_submenu(menu_bar: &mut MenuBar, title: &str, menu: turbo_vision::core::menu_data::Menu)
    ensures
        spec_menu_bar_menus(*final(menu_bar)) == spec_menu_bar_menus(*old(menu_bar)).push((title@, spec_menu_entries(menu))),
        spec_menu_bar_bounds(*final(menu_bar)) == spec_menu_bar_bounds(*old(menu_bar)),
{
    menu_bar.add_submenu(SubMenu::new(title, menu))
}

// ---------------------------------------------------------------- mouse toggling

/// Whether `(x, y)` lies in `b`; a rectangle without width (height) holds
/// only the points of its left column (top row).
pub open spec fn spec_bounds_contain(b: TvBounds, x: i16, y: i16) -> bool {
    let in_x = if b.bx > b.ax { b.ax <= x && x < b.bx } else { x == b.ax };
    let in_y = if b.by > b.ay { b.ay <= y && y < b.by } else { y == b.ay };
    in_x && in_y
}

/// Whether `(x, y)` lies in `b`, as `Rect::contains` decides it.
pub fn bounds_contain(b: TvBounds, x: i16, y: i16) -> (inside: bool)
    ensures
        inside == spec_bounds_contain(b, x, y),
{
    let in_x = if b.bx > b.ax { b.ax <= x && x < b.bx } else { x == b.ax };
    let in_y = if b.by > b.ay { b.ay <= y && y < b.by } else { y == b.ay };
    in_x && in_y
}

/// A left-button press inside `b`.
pub open spec fn spec_left_press_inside(kind: TvEventKind, buttons: u8, x: i16, y: i16, b: TvBounds) -> bool {
    kind == TvEventKind::MouseDown && buttons & 1u8 != 0 && spec_bounds_contain(b, x, y)
}

/// Whether an event is a left-button press inside `b`: only such a press
/// toggles a check box or selects a radio button.
pub fn left_press_inside(kind: TvEventKind, buttons: u8, x: i16, y: i16, b: TvBounds) -> (hit: bool)
    ensures
        hit == spec_left_press_inside(kind, buttons, x, y, b),
{
    if kind != TvEventKind::MouseDown {
        return false;
    }
    let mask = left_button_mask();
    if buttons & mask == 0 {
        return false;
    }
    bounds_contain(b, x, y)
}

/// Toggle `check_box` when `event` is a left-button press inside its
/// bounds, and mark the event handled; says whether it was consumed. Any
/// other event is left as it is and not consumed.
pub fn try_toggle_check_box_on_mouse_down(check_box: &mut CheckBox, event: &mut TvEvent) -> (consumed: bool)
    ensures
        consumed == spec_left_press_inside(
            old(event).kind,
            old(event).buttons,
            old(event).x,
            old(event).y,
            spec_bounds_of(spec_check_box_bounds(*old(check_box))),
        ),
        consumed ==> *final(event) == spec_cleared(*old(event))
            && spec_check_box_checked(*final(check_box)) == !spec_check_box_checked(*old(check_box))
            && spec_check_box_bounds(*final(check_box)) == spec_check_box_bounds(*old(check_box)),
        !consumed ==> *final(event) == *old(event) && *final(check_box) == *old(check_box),
{
    let bounds = check_box_bounds(check_box);
    if !left_press_inside(event.kind, event.buttons, event.x, event.y, bounds) {
        return false;
    }
    check_box_toggle(check_box);
    clear_event(event);
    true
}

/// Select `radio_button` when `event` is a left-button press inside its
/// bounds, and mark the event handled; says whether it was consumed. Any
/// other event is left as it is and not consumed.
pub fn try_select_radio_button_on_mouse_down(radio_button: &mut RadioButton, event: &mut TvEvent) -> (consumed: bool)
    ensures
        consumed == spec_left_press_inside(
            old(event).kind,
            old(event).buttons,
            old(event).x,
            old(event).y,
            spec_bounds_of(spec_radio_button_bounds(*old(radio_button))),
        ),
        consumed ==> *final(event) == spec_cleared(*old(event)) && spec_radio_button_selected(*final(radio_button))
            && spec_radio_button_bounds(*final(radio_button)) == spec_radio_button_bounds(*old(radio_button)),
        !consumed ==> *final(event) == *old(event) && *final(radio_button) == *old(radio_button),
{
    let bounds = radio_button_bounds(radio_button);
    if !left_press_inside(event.kind, event.buttons, event.x, event.y, bounds) {
        return false;
    }
    radio_button_select(radio_button);
    clear_event(event);
    true
}

// ---------------------------------------------------------------- chrome layout

/// Where the menu bar goes on a terminal `width` columns wide: the top
/// row(s), full width, keeping its height.
pub open spec fn spec_menu_bar_layout(current: TvBounds, width: i16) -> TvBounds {
    TvBounds { ax: 0, ay: 0, bx: width, by: current.by.wrapping_sub(current.ay) }
}

/// The new menu bar bounds, or `None` when it already sits there.
pub fn menu_bar_layout_target(current: TvBounds, width: i16) -> (target: Option<TvBounds>)
    ensures
        target == if spec_menu_bar_layout(current, width) == current {
            None
        } else {
            Some(spec_menu_bar_layout(current, width))
        },
{
    let height = current.by.wrapping_sub(current.ay);
    let target = TvBounds { ax: 0, ay: 0, bx: width, by: height };
    if target == current {
        None
    } else {
        Some(target)
    }
}

/// Stretch the menu bar over the full terminal width on the top row; its
/// menus stay as they are.
pub fn layout_menu_bar_for_terminal(menu_bar: &mut MenuBar, terminal_width: i16)
    ensures
        spec_menu_bar_bounds(*final(menu_bar)) == spec_corners(spec_menu_bar_layout(
            spec_bounds_of(spec_menu_bar_bounds(*old(menu_bar))),
            terminal_width,
        )),
        spec_menu_bar_menus(*final(menu_bar)) == spec_menu_bar_menus(*old(menu_bar)),
{
    let current = menu_bar_bounds(menu_bar);
    if let Some(target) = menu_bar_layout_target(current, terminal_width) {
        menu_bar_set_bounds(menu_bar, target);
    }
}

/// Where the status line goes on a terminal of `width` x `height`: the
/// bottom row(s), full width, keeping its height.
pub open spec fn spec_status_line_layout(current: TvBounds, width: i16, height: i16) -> TvBounds {
    TvBounds { ax: 0, ay: spec_status_line_top(current, height), bx: width, by: height }
}

/// The top row of a status line of `current`'s height pinned to the bottom
/// of a terminal `height` rows high.
pub open spec fn spec_status_line_top(current: TvBounds, height: i16) -> i16 {
    height.wrapping_sub(current.by.wrapping_sub(current.ay))
}

/// The new status line bounds, or `None` when it already starts in the
/// left column of its bottom row and spans the full width.
pub fn status_line_layout_target(current: TvBounds, width: i16, height: i16) -> (target: Option<TvBounds>)
    ensures
        target == if current.ax == 0 && current.ay == spec_status_line_top(current, height) && current.bx.wrapping_sub(
            current.ax,
        ) == width {
            None
        } else {
            Some(TvBounds { ax: 0, ay: spec_status_line_top(current, height), bx: width, by: height })
        },
{
    let top = height.wrapping_sub(current.by.wrapping_sub(current.ay));
    if current.ax == 0 && current.ay == top && current.bx.wrapping_sub(current.ax) == width {
        return None;
    }
    Some(TvBounds { ax: 0, ay: top, bx: width, by: height })
}

/// Pin the status line to the bottom row and stretch it over the full
/// terminal width.
pub fn layout_status_line_for_terminal(status_line: &mut StatusLine, terminal_width: i16, terminal_height: i16)
    ensures
        spec_status_line_bounds(*final(status_line)) == spec_corners(spec_status_line_layout(
            spec_bounds_of(spec_status_line_bounds(*old(status_line))),
            terminal_width,
            terminal_height,
        )),
        spec_status_line_items(*final(status_line)) == spec_status_line_items(*old(status_line)),
{
    let current = status_line_bounds(status_line);
    if let Some(target) = status_line_layout_target(current, terminal_width, terminal_height) {
        status_line_set_bounds(status_line, target);
    }
}

// ---------------------------------------------------------------- menus

/// The upstream entry of one FPAS menu item: command `0` is a separator.
pub open spec fn spec_menu_entry_ok(item: crate::store::TurboVisionMenuItem, entry: MenuEntry) -> bool {
    if item.command_id == 0 {
        entry is Separator
    } else {
        entry matches MenuEntry::Item { text, command } && text@ == item.text@ && command == item.command_id
    }
}

/// The upstream entries of `menu`, item for item.
pub fn upstream_menu_entries(menu: &TurboVisionMenu) -> (entries: Vec<MenuEntry>)
    ensures
        entries@.len() == menu.items@.len(),
        forall|i: int| 0 <= i < entries@.len() ==> spec_menu_entry_ok(#[trigger] menu.items@[i], entries@[i]),
{
    let mut entries: Vec<MenuEntry> = Vec::new();
    let mut i: usize = 0;
    while i < menu.items.len()
        invariant
            0 <= i <= menu.items@.len(),
            entries@.len() == i,
            forall|j: int| 0 <= j < i ==> spec_menu_entry_ok(#[trigger] menu.items@[j], entries@[j]),
        decreases menu.items.len() - i,
    {
        let item = &menu.items[i];
        if item.command_id == 0 {
            entries.push(MenuEntry::Separator);
        } else {
            entries.push(MenuEntry::Item { text: item.text.clone(), command: item.command_id });
        }
        i = i + 1;
    }
    entries
}

/// How an FPAS menu item shows up among the upstream menu's items: command
/// `0` is a separator, any other a regular item with its text and command.
pub open spec fn spec_upstream_entry(item: crate::store::TurboVisionMenuItem) -> (bool, Seq<char>, u16) {
    if item.command_id == 0 {
        (false, Seq::empty(), 0u16)
    } else {
        (true, item.text@, item.command_id)
    }
}

/// The upstream menu items of FPAS menu items, item for item.
pub open spec fn spec_upstream_entries(items: Seq<crate::store::TurboVisionMenuItem>) -> Seq<(bool, Seq<char>, u16)> {
    items.map_values(|i: crate::store::TurboVisionMenuItem| spec_upstream_entry(i))
}

/// The upstream submenus of FPAS menus: each menu's title and items.
pub open spec fn spec_upstream_menus(menus: Seq<TurboVisionMenu>) -> Seq<(Seq<char>, Seq<(bool, Seq<char>, u16)>)> {
    menus.map_values(|m: TurboVisionMenu| (m.title@, spec_upstream_entries(m.items@)))
}

/// Build the upstream menu of `menu`: a separator for each item of command
/// `0`, a regular item (no key) for each other one.
pub fn build_upstream_menu(menu: &TurboVisionMenu) -> (upstream: turbo_vision::core::menu_data::Menu)
    ensures
        spec_menu_entries(upstream) == spec_upstream_entries(menu.items@),
{
    let entries = upstream_menu_entries(menu);
    let mut upstream = menu_new();
    let mut i: usize = 0;
    while i < entries.len()
        invariant
            0 <= i <= entries@.len(),
            entries@.len() == menu.items@.len(),
            forall|j: int| 0 <= j < entries@.len() ==> spec_menu_entry_ok(#[trigger] menu.items@[j], entries@[j]),
            spec_menu_entries(upstream) == spec_upstream_entries(menu.items@.subrange(0, i as int)),
        decreases entries.len() - i,
    {
        let ghost before = spec_menu_entries(upstream);
        menu_add_entry(&mut upstream, &entries[i]);
        proof {
            assert(spec_menu_entry_ok(menu.items@[i as int], entries@[i as int]));
            assert(spec_entry_view(entries@[i as int]) == spec_upstream_entry(menu.items@[i as int]));
            assert(spec_upstream_entries(menu.items@.subrange(0, i + 1)) =~= spec_upstream_entries(
                menu.items@.subrange(0, i as int),
            ).push(spec_upstream_entry(menu.items@[i as int])));
        }
        i = i + 1;
    }
    assert(menu.items@.subrange(0, i as int) =~= menu.items@);
    upstream
}

/// Build the upstream menu bar of `menus` within `bounds`, one submenu per
/// menu, in order.
pub fn build_menu_bar(bounds: TvBounds, menus: &Vec<TurboVisionMenu>) -> (menu_bar: MenuBar)
    ensures
        spec_menu_bar_bounds(menu_bar) == spec_corners(bounds),
        spec_menu_bar_menus(menu_bar) == spec_upstream_menus(menus@),
{
    let mut menu_bar = menu_bar_new(bounds);
    let mut i: usize = 0;
    while i < menus.len()
        invariant
            0 <= i <= menus@.len(),
            spec_menu_bar_bounds(menu_bar) == spec_corners(bounds),
            spec_menu_bar_menus(menu_bar) == spec_upstream_menus(menus@.subrange(0, i as int)),
        decreases menus.len() - i,
    {
        let menu = build_upstream_menu(&menus[i]);
        menu_bar_add_submenu(&mut menu_bar, menus[i].title.as_str(), menu);
        assert(spec_upstream_menus(menus@.subrange(0, i + 1)) =~= spec_upstream_menus(menus@.subrange(0, i as int)).push(
            (menus@[i as int].title@, spec_upstream_entries(menus@[i as int].items@)),
        ));
        i = i + 1;
    }
    assert(menus@.subrange(0, i as int) =~= menus@);
    menu_bar
}

} // verus!
