//! Properties that tie the bridge's operations together.
use vstd::prelude::*;
use crate::commands::{spec_chrome_marked, spec_set_chrome};
use crate::controls::{
    spec_add_child, spec_add_child_effect, spec_agree_except, spec_group, spec_set_checked, spec_set_checked_effect,
    spec_set_text, spec_text_replaced,
};
use crate::decode::{CheckedControlHandle, TurboVisionChildHandle, TurboVisionParentHandle, spec_decode_handle};
use crate::session::{LiveViewLocation, spec_locate_live_view};
use crate::store::{TurboVisionObject, TurboVisionState};
use crate::tv_bridge::{TvBounds, spec_menu_bar_layout, spec_status_line_top};
use crate::value::{Value, spec_find_field};
use crate::host_args::{spec_is_record, spec_view_id_from_value};
use crate::host_records::TUI_VIEW_ID_TYPE;
use crate::error::TuiError;
use crate::worker::{spec_allocated, spec_pushed_handle};
use crate::control_keys::{
    ConsoleKey, ControlKeyRoute, ControlKind, ControlOutcome, spec_control_key_action,
    spec_finish_control_action, spec_route_control_key,
};
use crate::control_mouse::{
    ControlMouseRoute, MemoPointer, MouseFlags, ScrollPointer, UiMouse, spec_control_mouse_action, spec_mouse_flags,
    spec_route_control_mouse,
};
use crate::control_keys::{InputLineEdit, KeyKind, ListBoxKeyOp, MemoEdit, RadioKeyOp, ScrollStep};
use crate::decode::{
    spec_decode_checked_control_handle, spec_decode_child_handle, spec_decode_handle_fields,
    spec_decode_parent_handle, spec_is_record_of, spec_record_fields,
};
use crate::paint::{spec_child_paint_ops, spec_sat_add};
use crate::store::{TurboVisionCheckBox, TurboVisionRadioButton};
use crate::test_events::{MouseAction, MouseButton};
use crate::live_patch::{LiveDataMutation, PatchActionView, spec_live_patch_plan, spec_locate};
use crate::readback::spec_group_members;
use crate::store::lemma_lookup_at;
use crate::worker::TuiState;

verus! {

/// The handle record a `Create*` intrinsic pushes decodes, as a handle of
/// the same type, to the handle of the object it created.
pub proof fn law_created_handle_decodes(before: Seq<Value>, after: Seq<Value>, ty: Seq<char>, h: u32)
    requires
        spec_pushed_handle(before, after, ty, h),
        h >= 1,
    ensures
        spec_decode_handle(after.last(), ty) == Ok::<u32, TuiError>(h),
{
}

/// A control attached once cannot be attached again, to any parent: the
/// second `AddChild` fails with `AlreadyAttached`.
pub proof fn law_attach_once(
    m: Map<u32, TurboVisionObject>,
    m2: Map<u32, TurboVisionObject>,
    parent: TurboVisionParentHandle,
    child: TurboVisionChildHandle,
    other_parent: TurboVisionParentHandle,
)
    requires
        spec_add_child(m, parent, child) is Ok,
        spec_add_child_effect(m, m2, parent, child),
    ensures
        spec_add_child(m2, other_parent, child) == Err::<(), TuiError>(
            TuiError::AlreadyAttached { handle: child.spec_handle() },
        ),
{
    let ch = child.spec_handle();
    assert(m2.contains_key(ch));
}

/// Selecting a radio button leaves it the only selected button of its
/// group.
pub proof fn law_radio_selection_exclusive(m: Map<u32, TurboVisionObject>, m2: Map<u32, TurboVisionObject>, h: u32)
    requires
        spec_set_checked(m, CheckedControlHandle::RadioButton(h)) is Ok,
        spec_set_checked_effect(m, m2, CheckedControlHandle::RadioButton(h), true),
    ensures
        m2.contains_key(h),
        m2[h] is RadioButton,
        m2[h]->RadioButton_0.selected,
        forall|k: u32|
            m2.contains_key(k) && k != h && #[trigger] spec_group(m2[k]) == spec_group(m2[h]) ==> !m2[k]->RadioButton_0.selected,
{
    let g = m[h]->RadioButton_0.group_id;
    assert forall|k: u32|
        m2.contains_key(k) && k != h && #[trigger] spec_group(m2[k]) == spec_group(m2[h]) implies !m2[k]->RadioButton_0.selected by {
        assert(m.contains_key(k));
        if spec_group(m[k]) != Some(g) {
            assert(m2[k] == m[k]);
        }
    }
}

/// The text set on an input line is the text read back from it.
pub proof fn law_input_line_text_round_trip(
    m: Map<u32, TurboVisionObject>,
    m2: Map<u32, TurboVisionObject>,
    h: u32,
    text: Seq<char>,
)
    requires
        m.contains_key(h),
        m[h] is InputLine,
        spec_set_text(m, h, text) is Ok,
        spec_agree_except(m, m2, h, h),
        spec_text_replaced(m[h], m2[h], text),
    ensures
        m2.contains_key(h),
        m2[h] is InputLine,
        m2[h]->InputLine_0.text@ == text,
{
}

/// The state set on a check box is the state read back from it.
pub proof fn law_check_box_state_round_trip(
    m: Map<u32, TurboVisionObject>,
    m2: Map<u32, TurboVisionObject>,
    h: u32,
    checked: bool,
)
    requires
        spec_set_checked(m, CheckedControlHandle::CheckBox(h)) is Ok,
        spec_set_checked_effect(m, m2, CheckedControlHandle::CheckBox(h), checked),
    ensures
        m2.contains_key(h),
        m2[h] is CheckBox,
        m2[h]->CheckBox_0.checked == checked,
{
}

/// Chrome is installed once per session: after a menu bar (status line) is
/// installed, installing any menu bar (status line) fails.
pub proof fn law_chrome_installed_once(
    m: Map<u32, TurboVisionObject>,
    m2: Map<u32, TurboVisionObject>,
    current: Option<u32>,
    h: u32,
    h2: u32,
    menu_bar: bool,
)
    requires
        spec_set_chrome(m, current, h, menu_bar) is Ok,
        spec_agree_except(m, m2, h, h),
        m2[h] == spec_chrome_marked(m[h]),
    ensures
        spec_set_chrome(m2, Some(h), h2, menu_bar) is Err,
{
}

/// A new object gets a handle no other object holds, as long as the
/// handle counter has not reached its ceiling.
pub proof fn law_allocated_handle_is_fresh(old_state: TurboVisionState, new_state: TurboVisionState, h: u32)
    requires
        old_state.wf(),
        old_state.next_handle < u32::MAX,
        spec_allocated(old_state, new_state, h),
    ensures
        !old_state.spec_objects().contains_key(h),
        new_state.spec_objects().contains_key(h),
        h >= 1,
{
    if old_state.spec_objects().contains_key(h) {
        let objects = old_state.objects@;
        let i = choose|i: int| 0 <= i < objects.len() && objects[i].0 == h;
        assert(objects[i].0 < old_state.next_handle);
    }
}

/// A view registered as a desktop root is located there; one registered as
/// a child is located inside the root registered with it.
pub proof fn law_located_where_registered(
    view_ids: Map<u32, u16>,
    child_root_view_ids: Map<u32, u16>,
    handle: u32,
    root_view_id: u16,
    view_id: u16,
)
    ensures
        !child_root_view_ids.contains_key(handle) ==> spec_locate_live_view(
            view_ids.insert(handle, view_id),
            child_root_view_ids,
            handle,
        ) == Some(LiveViewLocation::DesktopRoot { view_id }),
        spec_locate_live_view(
            view_ids.insert(handle, view_id),
            child_root_view_ids.insert(handle, root_view_id),
            handle,
        ) == Some(LiveViewLocation::DesktopChild { root_view_id, view_id }),
{
}

/// Laying out the menu bar twice is laying it out once.
pub proof fn law_menu_bar_layout_idempotent(current: TvBounds, width: i16)
    ensures
        spec_menu_bar_layout(spec_menu_bar_layout(current, width), width) == spec_menu_bar_layout(current, width),
{
    let h = current.by.wrapping_sub(current.ay);
    assert(h.wrapping_sub(0i16) == h) by (bit_vector);
}

/// A status line pinned to the bottom row stays there: laying it out again
/// leaves it where it is.
pub proof fn law_status_line_layout_stable(current: TvBounds, width: i16, height: i16)
    ensures
        ({
            let placed = TvBounds { ax: 0, ay: spec_status_line_top(current, height), bx: width, by: height };
            &&& spec_status_line_top(placed, height) == placed.ay
            &&& placed.bx.wrapping_sub(placed.ax) == width
        }),
{
    let top = height.wrapping_sub(current.by.wrapping_sub(current.ay));
    assert(height.wrapping_sub(height.wrapping_sub(top)) == top) by (bit_vector);
    assert(width.wrapping_sub(0i16) == width) by (bit_vector);
}

/// A `ViewId` record built for a view id reads back as that view id.
pub proof fn law_view_id_round_trip(v: Value, view_id: u32)
    requires
        spec_is_record(v, TUI_VIEW_ID_TYPE@, seq!["__id"@], seq![Value::Integer(view_id as i64)]),
    ensures
        spec_view_id_from_value(v) == Ok::<u32, TuiError>(view_id),
{
    let fields = v->fields@;
    assert(fields[0].0@ == "__id"@);
    assert(spec_find_field(fields, "__id"@) == Some(Value::Integer(view_id as i64)));
    assert((view_id as i64) as u32 == view_id);
}


/// A disabled control takes no key, except that a check box is still asked
/// to toggle (and refuses by itself).
pub proof fn law_disabled_control_takes_no_key(kind: ControlKind, key: ConsoleKey)
    ensures
        spec_route_control_key(kind, false, key) == ControlKeyRoute::Unhandled
            || (kind == ControlKind::CheckBox && spec_route_control_key(kind, false, key) == ControlKeyRoute::Toggle),
{
}

/// With Ctrl, Alt or Meta held, a key never edits the text of an input
/// line or memo.
pub proof fn law_command_modifier_never_edits_text(kind: ControlKind, enabled: bool, key: ConsoleKey)
    requires
        key.ctrl || key.alt || key.meta,
    ensures
        !(spec_route_control_key(kind, enabled, key) is EditInputLine),
        !(spec_route_control_key(kind, enabled, key) is EditMemo),
{
}

/// A key on the focused control dispatches a command only when the control
/// fired that command and the command is enabled; an unhandled key reports
/// nothing at all.
pub proof fn law_key_dispatches_only_enabled_commands(
    route: ControlKeyRoute,
    changed: bool,
    command: Option<u16>,
    command_enabled: bool,
)
    ensures
        spec_finish_control_action(spec_control_key_action(route, changed, command), command_enabled)
            matches Some(ControlOutcome::DispatchCommand(c)) ==> command_enabled && command == Some(c),
        route == ControlKeyRoute::Unhandled ==> spec_finish_control_action(
            spec_control_key_action(route, changed, command),
            command_enabled,
        ) is None,
{
}


/// A disabled control takes no pointer event, except that a check box is
/// still asked to toggle; and a control that does not take the event
/// reports no action.
pub proof fn law_disabled_control_ignores_pointer(
    kind: ControlKind,
    f: MouseFlags,
    m: UiMouse,
    origin_x: i64,
    origin_y: i64,
    accepted: bool,
    command: Option<u16>,
)
    ensures
        spec_route_control_mouse(kind, false, f, m, origin_x, origin_y) == ControlMouseRoute::Unhandled
            || (kind == ControlKind::CheckBox
            && spec_route_control_mouse(kind, false, f, m, origin_x, origin_y) == ControlMouseRoute::Toggle),
        spec_control_mouse_action(ControlMouseRoute::Unhandled, accepted, command) is None,
{
}


/// The arrow keys move in their own direction, one step: in a memo Up and
/// Down change the cursor row by -1 and +1 and Left and Right the column by
/// -1 and +1 (Shift extends the selection); in a scroll bar or scroll view
/// Up and Down scroll by -1 and +1 lines.
pub proof fn law_arrow_keys_step_in_their_direction(key: ConsoleKey, kind: ControlKind)
    requires
        !(key.ctrl || key.alt || key.meta),
    ensures
        key.kind == KeyKind::Up ==> spec_route_control_key(ControlKind::Memo, true, key) == ControlKeyRoute::EditMemo(
            MemoEdit::MoveCursor { rows: -1i8, columns: 0i8, extend: key.shift },
        ),
        key.kind == KeyKind::Down ==> spec_route_control_key(ControlKind::Memo, true, key) == ControlKeyRoute::EditMemo(
            MemoEdit::MoveCursor { rows: 1i8, columns: 0i8, extend: key.shift },
        ),
        key.kind == KeyKind::Left ==> spec_route_control_key(ControlKind::Memo, true, key) == ControlKeyRoute::EditMemo(
            MemoEdit::MoveCursor { rows: 0i8, columns: -1i8, extend: key.shift },
        ),
        key.kind == KeyKind::Right ==> spec_route_control_key(ControlKind::Memo, true, key) == ControlKeyRoute::EditMemo(
            MemoEdit::MoveCursor { rows: 0i8, columns: 1i8, extend: key.shift },
        ),
        (kind == ControlKind::ScrollBar || kind == ControlKind::ScrollView) && key.kind == KeyKind::Up
            ==> spec_route_control_key(kind, true, key) == ControlKeyRoute::Scroll(ScrollStep::By(-1i64)),
        (kind == ControlKind::ScrollBar || kind == ControlKind::ScrollView) && key.kind == KeyKind::Down
            ==> spec_route_control_key(kind, true, key) == ControlKeyRoute::Scroll(ScrollStep::By(1i64)),
{
}

/// The wheel scrolls an enabled list box, scroll bar, scroll view or memo in
/// its own direction, one line: ScrollDown by +1, ScrollUp by -1.
pub proof fn law_wheel_scrolls_in_its_direction(m: UiMouse, origin_x: i64, origin_y: i64)
    ensures
        m.action == MouseAction::ScrollDown ==> {
            let f = spec_mouse_flags(m);
            &&& spec_route_control_mouse(ControlKind::ListBox, true, f, m, origin_x, origin_y) == ControlMouseRoute::ListScroll(1i64)
            &&& spec_route_control_mouse(ControlKind::ScrollBar, true, f, m, origin_x, origin_y) == ControlMouseRoute::ScrollBar(
                ScrollPointer::ScrollBy(1i64),
            )
            &&& spec_route_control_mouse(ControlKind::ScrollView, true, f, m, origin_x, origin_y) == ControlMouseRoute::ScrollView(
                ScrollPointer::ScrollBy(1i64),
            )
            &&& spec_route_control_mouse(ControlKind::Memo, true, f, m, origin_x, origin_y) == ControlMouseRoute::Memo(
                MemoPointer::ScrollBy(1i64),
            )
        },
        m.action == MouseAction::ScrollUp ==> {
            let f = spec_mouse_flags(m);
            &&& spec_route_control_mouse(ControlKind::ListBox, true, f, m, origin_x, origin_y) == ControlMouseRoute::ListScroll(-1i64)
            &&& spec_route_control_mouse(ControlKind::ScrollBar, true, f, m, origin_x, origin_y) == ControlMouseRoute::ScrollBar(
                ScrollPointer::ScrollBy(-1i64),
            )
            &&& spec_route_control_mouse(ControlKind::ScrollView, true, f, m, origin_x, origin_y) == ControlMouseRoute::ScrollView(
                ScrollPointer::ScrollBy(-1i64),
            )
            &&& spec_route_control_mouse(ControlKind::Memo, true, f, m, origin_x, origin_y) == ControlMouseRoute::Memo(
                MemoPointer::ScrollBy(-1i64),
            )
        },
{
}

/// A check box is painted as its text behind a two-character marker whose
/// first character is `X` exactly when the box is checked; a radio button
/// likewise with `*` exactly when it is selected. The text goes at the
/// control's place inside its container.
pub proof fn law_painted_marker_shows_the_state(
    px: i16,
    py: i16,
    c: TurboVisionCheckBox,
    r: TurboVisionRadioButton,
)
    ensures
        spec_child_paint_ops(px, py, TurboVisionObject::CheckBox(c)).len() == 1,
        ({
            let op = spec_child_paint_ops(px, py, TurboVisionObject::CheckBox(c))[0];
            &&& op.x == spec_sat_add(px, c.bounds.x as int) && op.y == spec_sat_add(py, c.bounds.y as int)
            &&& op.text.len() == c.text@.len() + 2
            &&& (op.text[0] == 'X') == c.checked
            &&& (!c.checked ==> op.text[0] == ' ')
            &&& op.text[1] == ' '
            &&& op.text.subrange(2, op.text.len() as int) == c.text@
        }),
        spec_child_paint_ops(px, py, TurboVisionObject::RadioButton(r)).len() == 1,
        ({
            let op = spec_child_paint_ops(px, py, TurboVisionObject::RadioButton(r))[0];
            &&& op.x == spec_sat_add(px, r.bounds.x as int) && op.y == spec_sat_add(py, r.bounds.y as int)
            &&& op.text.len() == r.text@.len() + 2
            &&& (op.text[0] == '*') == r.selected
            &&& (!r.selected ==> op.text[0] == ' ')
            &&& op.text[1] == ' '
            &&& op.text.subrange(2, op.text.len() as int) == r.text@
        }),
{
    reveal_strlit("X ");
    reveal_strlit("* ");
    reveal_strlit("  ");
    let ct = (if c.checked { "X "@ } else { "  "@ }) + c.text@;
    assert(ct.subrange(2, ct.len() as int) =~= c.text@);
    let rt = (if r.selected { "* "@ } else { "  "@ }) + r.text@;
    assert(rt.subrange(2, rt.len() as int) =~= r.text@);
}

/// A child handle record decodes to the control kind its record type
/// names, `Std.Tui.` followed by the kind's label, carrying the record's
/// `__id`.
pub proof fn law_child_handle_matches_record_type(v: Value)
    ensures
        spec_decode_child_handle(v) matches Ok(c) ==> {
            &&& v matches Value::Record { record_type, .. } && record_type@ == "Std.Tui."@ + c.spec_label()
            &&& spec_decode_handle_fields(spec_record_fields(v)) == Ok::<u32, TuiError>(c.spec_handle())
        },
{
    reveal_strlit("Std.Tui.");
    reveal_strlit("Button");
    reveal_strlit("StaticText");
    reveal_strlit("Memo");
    reveal_strlit("TextViewer");
    reveal_strlit("InputLine");
    reveal_strlit("ListBox");
    reveal_strlit("Outline");
    reveal_strlit("CheckBox");
    reveal_strlit("RadioButton");
    reveal_strlit("Std.Tui.Button");
    reveal_strlit("Std.Tui.StaticText");
    reveal_strlit("Std.Tui.Memo");
    reveal_strlit("Std.Tui.TextViewer");
    reveal_strlit("Std.Tui.InputLine");
    reveal_strlit("Std.Tui.ListBox");
    reveal_strlit("Std.Tui.Outline");
    reveal_strlit("Std.Tui.CheckBox");
    reveal_strlit("Std.Tui.RadioButton");
    if let Ok(c) = spec_decode_child_handle(v) {
        let l = c.spec_label();
        assert("Std.Tui."@ + l =~= match c {
            TurboVisionChildHandle::Button(_) => "Std.Tui.Button"@,
            TurboVisionChildHandle::StaticText(_) => "Std.Tui.StaticText"@,
            TurboVisionChildHandle::Memo(_) => "Std.Tui.Memo"@,
            TurboVisionChildHandle::TextViewer(_) => "Std.Tui.TextViewer"@,
            TurboVisionChildHandle::InputLine(_) => "Std.Tui.InputLine"@,
            TurboVisionChildHandle::ListBox(_) => "Std.Tui.ListBox"@,
            TurboVisionChildHandle::Outline(_) => "Std.Tui.Outline"@,
            TurboVisionChildHandle::CheckBox(_) => "Std.Tui.CheckBox"@,
            TurboVisionChildHandle::RadioButton(_) => "Std.Tui.RadioButton"@,
        });
    }
}


/// Mirroring a radio button's new state patches its whole group: when the
/// plan for `SetChecked` of a radio button of group `g` exists (every view
/// is shown), it holds, for each radio button of `g` in the store, a patch
/// at that button's view setting the selected state the store holds for it.
pub proof fn law_radio_patch_covers_the_group(tui: TuiState, handle: u32, j: int)
    requires
        tui.turbo_vision.wf(),
        tui.turbo_vision.spec_objects().contains_key(handle),
        tui.turbo_vision.spec_objects()[handle] is RadioButton,
        0 <= j < tui.turbo_vision.objects@.len(),
        tui.turbo_vision.objects@[j].1 is RadioButton,
        tui.turbo_vision.objects@[j].1->RadioButton_0.group_id
            == tui.turbo_vision.spec_objects()[handle]->RadioButton_0.group_id,
        spec_live_patch_plan(tui, LiveDataMutation::SetChecked { handle }) is Some,
    ensures
        exists|i: int|
            0 <= i < (spec_live_patch_plan(tui, LiveDataMutation::SetChecked { handle })->0).len()
                && #[trigger] (spec_live_patch_plan(tui, LiveDataMutation::SetChecked { handle })->0)[i] == (
                spec_locate(tui, tui.turbo_vision.objects@[j].0)->0,
                PatchActionView::SetChecked(tui.turbo_vision.objects@[j].1->RadioButton_0.selected),
            ),
{
    let objects = tui.turbo_vision.objects@;
    let g = tui.turbo_vision.spec_objects()[handle]->RadioButton_0.group_id;
    let pred = |e: (u32, TurboVisionObject)| e.1 matches TurboVisionObject::RadioButton(r) && r.group_id == g;
    assert(pred(objects[j]));
    objects.lemma_filter_contains(pred, j);
    let filtered = objects.filter(pred);
    let k = choose|k: int| 0 <= k < filtered.len() && filtered[k] == objects[j];
    let members = spec_group_members(objects, g);
    assert(members == filtered.map_values(|e: (u32, TurboVisionObject)| e.0));
    assert(members[k] == objects[j].0);
    assert(members.len() > 0);
    lemma_lookup_at(objects, j);
    let plan = spec_live_patch_plan(tui, LiveDataMutation::SetChecked { handle })->0;
    assert(plan[k] == (
        spec_locate(tui, objects[j].0)->0,
        PatchActionView::SetChecked(objects[j].1->RadioButton_0.selected),
    ));
}

/// Keys that point in opposite directions move a control in opposite
/// directions: in a list box Up and Down step the selection back and
/// forward and Home and End select the first and the last item; in a radio
/// group Up and Left focus the previous button, Down and Right the next;
/// in a scroll bar or scroll view Page Up and Page Down page back and
/// forward and Home and End go to the start and the end. Without Ctrl,
/// Alt or Meta, an input line moves its cursor left, right, to the start
/// and to the end on Left, Right, Home and End and types a character key's
/// character; a memo moves to the start and end of the line on Home and
/// End (Shift extending the selection), pages back and forward on Page Up
/// and Page Down, types a character key's character and breaks the line on
/// Enter. Enter and Space press an enabled button, toggle a check box,
/// select the focused radio button and activate a list box.
pub proof fn law_opposite_keys_move_opposite_ways(key: ConsoleKey)
    ensures
        key.kind == KeyKind::Up ==> spec_route_control_key(ControlKind::ListBox, true, key)
            == ControlKeyRoute::ListBox(ListBoxKeyOp::MoveSelection { forward: false }),
        key.kind == KeyKind::Down ==> spec_route_control_key(ControlKind::ListBox, true, key)
            == ControlKeyRoute::ListBox(ListBoxKeyOp::MoveSelection { forward: true }),
        key.kind == KeyKind::Home ==> spec_route_control_key(ControlKind::ListBox, true, key)
            == ControlKeyRoute::ListBox(ListBoxKeyOp::SelectEdge { end: false }),
        key.kind == KeyKind::End ==> spec_route_control_key(ControlKind::ListBox, true, key)
            == ControlKeyRoute::ListBox(ListBoxKeyOp::SelectEdge { end: true }),
        (key.kind == KeyKind::Up || key.kind == KeyKind::Left) ==> spec_route_control_key(
            ControlKind::RadioGroup,
            true,
            key,
        ) == ControlKeyRoute::Radio(RadioKeyOp::FocusPrevious),
        (key.kind == KeyKind::Down || key.kind == KeyKind::Right) ==> spec_route_control_key(
            ControlKind::RadioGroup,
            true,
            key,
        ) == ControlKeyRoute::Radio(RadioKeyOp::FocusNext),
        forall|kind: ControlKind|
            (kind == ControlKind::ScrollBar || kind == ControlKind::ScrollView) ==> {
                &&& key.kind == KeyKind::PageUp ==> #[trigger] spec_route_control_key(kind, true, key)
                    == ControlKeyRoute::Scroll(ScrollStep::Page { forward: false })
                &&& key.kind == KeyKind::PageDown ==> spec_route_control_key(kind, true, key)
                    == ControlKeyRoute::Scroll(ScrollStep::Page { forward: true })
                &&& key.kind == KeyKind::Home ==> spec_route_control_key(kind, true, key)
                    == ControlKeyRoute::Scroll(ScrollStep::ToStart)
                &&& key.kind == KeyKind::End ==> spec_route_control_key(kind, true, key)
                    == ControlKeyRoute::Scroll(ScrollStep::ToEnd)
            },
        !(key.ctrl || key.alt || key.meta) ==> {
            &&& key.kind == KeyKind::Left ==> spec_route_control_key(ControlKind::InputLine, true, key)
                == ControlKeyRoute::EditInputLine(InputLineEdit::CursorLeft)
            &&& key.kind == KeyKind::Right ==> spec_route_control_key(ControlKind::InputLine, true, key)
                == ControlKeyRoute::EditInputLine(InputLineEdit::CursorRight)
            &&& key.kind == KeyKind::Home ==> spec_route_control_key(ControlKind::InputLine, true, key)
                == ControlKeyRoute::EditInputLine(InputLineEdit::CursorToStart)
            &&& key.kind == KeyKind::End ==> spec_route_control_key(ControlKind::InputLine, true, key)
                == ControlKeyRoute::EditInputLine(InputLineEdit::CursorToEnd)
            &&& key.kind == KeyKind::Character ==> spec_route_control_key(ControlKind::InputLine, true, key)
                == ControlKeyRoute::EditInputLine(InputLineEdit::InsertChar(key.ch))
            &&& key.kind == KeyKind::Home ==> spec_route_control_key(ControlKind::Memo, true, key)
                == ControlKeyRoute::EditMemo(MemoEdit::LineEdge { end: false, extend: key.shift })
            &&& key.kind == KeyKind::End ==> spec_route_control_key(ControlKind::Memo, true, key)
                == ControlKeyRoute::EditMemo(MemoEdit::LineEdge { end: true, extend: key.shift })
            &&& key.kind == KeyKind::PageUp ==> spec_route_control_key(ControlKind::Memo, true, key)
                == ControlKeyRoute::EditMemo(MemoEdit::ScrollPage { forward: false })
            &&& key.kind == KeyKind::PageDown ==> spec_route_control_key(ControlKind::Memo, true, key)
                == ControlKeyRoute::EditMemo(MemoEdit::ScrollPage { forward: true })
            &&& key.kind == KeyKind::Character ==> spec_route_control_key(ControlKind::Memo, true, key)
                == ControlKeyRoute::EditMemo(MemoEdit::InsertChar(key.ch))
            &&& key.kind == KeyKind::Enter ==> spec_route_control_key(ControlKind::Memo, true, key)
                == ControlKeyRoute::EditMemo(MemoEdit::InsertChar('\n'))
        },
        (key.kind == KeyKind::Enter || key.kind == KeyKind::Space) ==> {
            &&& spec_route_control_key(ControlKind::Button, true, key) == ControlKeyRoute::Press
            &&& spec_route_control_key(ControlKind::CheckBox, true, key) == ControlKeyRoute::Toggle
            &&& spec_route_control_key(ControlKind::RadioGroup, true, key) == ControlKeyRoute::Radio(
                RadioKeyOp::SelectFocused,
            )
            &&& spec_route_control_key(ControlKind::ListBox, true, key) == ControlKeyRoute::ListBox(
                ListBoxKeyOp::Activate,
            )
        },
{
}

/// A left press lands where the pointer is: on an enabled radio group or
/// list box it picks the row `y - 1 - origin_y` below the view's top, and
/// no row for a press at or above the top; on an enabled input line it puts
/// the cursor at column `x - 1 - origin_x`, or at the start for a press
/// left of the text; a memo gets the press with the click at column
/// `x - 1` and row `y - 1`; a scroll bar or scroll view gets the press at
/// `(x, y)`; an enabled button is captured. (Coordinates and origins are
/// taken below 2^29 in size, so that no subtraction saturates and every
/// row fits a `usize` of any width.)
pub proof fn law_press_lands_under_the_pointer(m: UiMouse, origin_x: i64, origin_y: i64)
    requires
        m.action == MouseAction::Down,
        m.button == MouseButton::Left,
        -0x2000_0000 < m.x < 0x2000_0000,
        -0x2000_0000 < m.y < 0x2000_0000,
        -0x2000_0000 < origin_x < 0x2000_0000,
        -0x2000_0000 < origin_y < 0x2000_0000,
    ensures
        ({
            let f = spec_mouse_flags(m);
            let row: Option<usize> = if m.y - 1 - origin_y >= 0 {
                Some((m.y - 1 - origin_y) as usize)
            } else {
                None
            };
            &&& spec_route_control_mouse(ControlKind::RadioGroup, true, f, m, origin_x, origin_y)
                == ControlMouseRoute::SelectRadioRow { row }
            &&& spec_route_control_mouse(ControlKind::ListBox, true, f, m, origin_x, origin_y)
                == ControlMouseRoute::SelectListRow { row }
            &&& spec_route_control_mouse(ControlKind::InputLine, true, f, m, origin_x, origin_y)
                == ControlMouseRoute::SetInputCursor {
                column: if m.x - 1 - origin_x >= 0 { (m.x - 1 - origin_x) as usize } else { 0usize },
            }
            &&& spec_route_control_mouse(ControlKind::Memo, true, f, m, origin_x, origin_y) == ControlMouseRoute::Memo(
                MemoPointer::Press { x: m.x, y: m.y, column: (m.x - 1) as i64, row: (m.y - 1) as i64 },
            )
            &&& spec_route_control_mouse(ControlKind::ScrollBar, true, f, m, origin_x, origin_y)
                == ControlMouseRoute::ScrollBar(ScrollPointer::Press { x: m.x, y: m.y })
            &&& spec_route_control_mouse(ControlKind::ScrollView, true, f, m, origin_x, origin_y)
                == ControlMouseRoute::ScrollView(ScrollPointer::Press { x: m.x, y: m.y })
            &&& spec_route_control_mouse(ControlKind::Button, true, f, m, origin_x, origin_y)
                == ControlMouseRoute::CapturePress
        }),
{
}

/// A handle record whose type names a control kind and whose `__id` is a
/// valid handle decodes to that kind with that handle: `Std.Tui.` followed
/// by a child kind's label gives the child handle, `Std.Tui.Dialog` and
/// `Std.Tui.Window` the dialog and window handles, `Std.Tui.CheckBox` and
/// `Std.Tui.RadioButton` the check box and radio button handles. A parent
/// or checked-control handle decoded from a record came from a record of
/// exactly its kind's type.
pub proof fn law_record_type_picks_the_handle_kind(v: Value, c: TurboVisionChildHandle)
    ensures
        spec_is_record_of(v, "Std.Tui."@ + c.spec_label())
            && spec_decode_handle_fields(spec_record_fields(v)) == Ok::<u32, TuiError>(c.spec_handle())
            ==> spec_decode_child_handle(v) == Ok::<TurboVisionChildHandle, TuiError>(c),
        spec_decode_handle_fields(spec_record_fields(v)) matches Ok(h) ==> {
            &&& spec_is_record_of(v, "Std.Tui.Dialog"@) ==> spec_decode_parent_handle(v)
                == Ok::<TurboVisionParentHandle, TuiError>(TurboVisionParentHandle::Dialog(h))
            &&& spec_is_record_of(v, "Std.Tui.Window"@) ==> spec_decode_parent_handle(v)
                == Ok::<TurboVisionParentHandle, TuiError>(TurboVisionParentHandle::Window(h))
            &&& spec_is_record_of(v, "Std.Tui.CheckBox"@) ==> spec_decode_checked_control_handle(v)
                == Ok::<CheckedControlHandle, TuiError>(CheckedControlHandle::CheckBox(h))
            &&& spec_is_record_of(v, "Std.Tui.RadioButton"@) ==> spec_decode_checked_control_handle(v)
                == Ok::<CheckedControlHandle, TuiError>(CheckedControlHandle::RadioButton(h))
        },
        spec_decode_parent_handle(v) matches Ok(p) ==> match p {
            TurboVisionParentHandle::Dialog(h) => spec_is_record_of(v, "Std.Tui.Dialog"@)
                && spec_decode_handle_fields(spec_record_fields(v)) == Ok::<u32, TuiError>(h),
            TurboVisionParentHandle::Window(h) => spec_is_record_of(v, "Std.Tui.Window"@)
                && spec_decode_handle_fields(spec_record_fields(v)) == Ok::<u32, TuiError>(h),
        },
        spec_decode_checked_control_handle(v) matches Ok(k) ==> match k {
            CheckedControlHandle::CheckBox(h) => spec_is_record_of(v, "Std.Tui.CheckBox"@)
                && spec_decode_handle_fields(spec_record_fields(v)) == Ok::<u32, TuiError>(h),
            CheckedControlHandle::RadioButton(h) => spec_is_record_of(v, "Std.Tui.RadioButton"@)
                && spec_decode_handle_fields(spec_record_fields(v)) == Ok::<u32, TuiError>(h),
        },
{
    reveal_strlit("Std.Tui.");
    reveal_strlit("Button");
    reveal_strlit("StaticText");
    reveal_strlit("Memo");
    reveal_strlit("TextViewer");
    reveal_strlit("InputLine");
    reveal_strlit("ListBox");
    reveal_strlit("Outline");
    reveal_strlit("CheckBox");
    reveal_strlit("RadioButton");
    reveal_strlit("Std.Tui.Button");
    reveal_strlit("Std.Tui.StaticText");
    reveal_strlit("Std.Tui.Memo");
    reveal_strlit("Std.Tui.TextViewer");
    reveal_strlit("Std.Tui.InputLine");
    reveal_strlit("Std.Tui.ListBox");
    reveal_strlit("Std.Tui.Outline");
    reveal_strlit("Std.Tui.CheckBox");
    reveal_strlit("Std.Tui.RadioButton");
    reveal_strlit("Std.Tui.Dialog");
    reveal_strlit("Std.Tui.Window");
    // The type names differ in the character after `Std.Tui.`.
    assert("Std.Tui.Button"@[8] == 'B' && "Std.Tui.StaticText"@[8] == 'S' && "Std.Tui.Memo"@[8] == 'M');
    assert("Std.Tui.TextViewer"@[8] == 'T' && "Std.Tui.InputLine"@[8] == 'I' && "Std.Tui.ListBox"@[8] == 'L');
    assert("Std.Tui.Outline"@[8] == 'O' && "Std.Tui.CheckBox"@[8] == 'C' && "Std.Tui.RadioButton"@[8] == 'R');
    assert("Std.Tui.Dialog"@[8] == 'D' && "Std.Tui.Window"@[8] == 'W');
    assert("Std.Tui."@ + c.spec_label() =~= match c {
        TurboVisionChildHandle::Button(_) => "Std.Tui.Button"@,
        TurboVisionChildHandle::StaticText(_) => "Std.Tui.StaticText"@,
        TurboVisionChildHandle::Memo(_) => "Std.Tui.Memo"@,
        TurboVisionChildHandle::TextViewer(_) => "Std.Tui.TextViewer"@,
        TurboVisionChildHandle::InputLine(_) => "Std.Tui.InputLine"@,
        TurboVisionChildHandle::ListBox(_) => "Std.Tui.ListBox"@,
        TurboVisionChildHandle::Outline(_) => "Std.Tui.Outline"@,
        TurboVisionChildHandle::CheckBox(_) => "Std.Tui.CheckBox"@,
        TurboVisionChildHandle::RadioButton(_) => "Std.Tui.RadioButton"@,
    });
}

/// The `SetChecked` plan for a radio button patches exactly its group: one
/// patch per radio button of the same group, in the store's handle order,
/// each at that button's view and setting the selected state the store
/// holds for it.
pub proof fn law_radio_patch_is_the_group(tui: TuiState, handle: u32)
    requires
        tui.turbo_vision.wf(),
        tui.turbo_vision.spec_objects().contains_key(handle),
        tui.turbo_vision.spec_objects()[handle] is RadioButton,
        spec_live_patch_plan(tui, LiveDataMutation::SetChecked { handle }) is Some,
    ensures
        ({
            let g = tui.turbo_vision.spec_objects()[handle]->RadioButton_0.group_id;
            let group = tui.turbo_vision.objects@.filter(
                |e: (u32, TurboVisionObject)| e.1 matches TurboVisionObject::RadioButton(r) && r.group_id == g,
            );
            spec_live_patch_plan(tui, LiveDataMutation::SetChecked { handle })->0 == group.map_values(
                |e: (u32, TurboVisionObject)|
                    (spec_locate(tui, e.0)->0, PatchActionView::SetChecked(e.1->RadioButton_0.selected)),
            )
        }),
{
    let objects = tui.turbo_vision.objects@;
    let g = tui.turbo_vision.spec_objects()[handle]->RadioButton_0.group_id;
    let pred = |e: (u32, TurboVisionObject)| e.1 matches TurboVisionObject::RadioButton(r) && r.group_id == g;
    let group = objects.filter(pred);
    let j = choose|j: int| 0 <= j < objects.len() && objects[j].0 == handle;
    lemma_lookup_at(objects, j);
    assert(pred(objects[j]));
    objects.lemma_filter_contains(pred, j);
    let members = spec_group_members(objects, g);
    assert(members == group.map_values(|e: (u32, TurboVisionObject)| e.0));
    assert(group.len() > 0);
    let plan = spec_live_patch_plan(tui, LiveDataMutation::SetChecked { handle })->0;
    let want = group.map_values(
        |e: (u32, TurboVisionObject)|
            (spec_locate(tui, e.0)->0, PatchActionView::SetChecked(e.1->RadioButton_0.selected)),
    );
    assert forall|i: int| 0 <= i < group.len() implies plan[i] == want[i] by {
        objects.lemma_filter_pred(pred, i);
        assert(group.contains(group[i]));
        objects.lemma_filter_contains_rev(pred, group[i]);
        let k = choose|k: int| 0 <= k < objects.len() && objects[k] == group[i];
        lemma_lookup_at(objects, k);
    }
    assert(plan =~= want);
}

} // verus!
