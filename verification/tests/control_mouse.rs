use fpas_tui::control_keys::{ControlAction, ControlKind};
use fpas_tui::control_mouse::{
    captures_thumb, control_mouse_action, hit_tests, memo_pointer, mouse_flags, offers_thumb_drag,
    offset_in_view, release_action, route_control_mouse, row_index, saturating_sub_i64,
    thumb_drag_step, ControlMouseRoute, MemoPointer, ScrollPointer, ThumbDragStep, UiMouse,
};
use fpas_tui::test_events::{MouseAction, MouseButton};

fn mouse(action: MouseAction, button: MouseButton, x: i64, y: i64) -> UiMouse {
    UiMouse { action, button, x, y }
}

#[test]
fn flags_follow_action_and_left_button() {
    let f = mouse_flags(&mouse(MouseAction::Down, MouseButton::Left, 1, 1));
    assert!(f.down && !f.up && !f.moved);
    assert!(hit_tests(&f));
    assert!(!offers_thumb_drag(&f));
    let right = mouse_flags(&mouse(MouseAction::Down, MouseButton::Right, 1, 1));
    assert!(!right.down);
    assert!(!hit_tests(&right));
    let up = mouse_flags(&mouse(MouseAction::Up, MouseButton::Left, 1, 1));
    assert!(up.up && offers_thumb_drag(&up) && !hit_tests(&up));
    let wheel = mouse_flags(&mouse(MouseAction::ScrollDown, MouseButton::NoButton, 1, 1));
    assert!(wheel.scroll_down && hit_tests(&wheel));
}

#[test]
fn thumb_drag_steps() {
    let moved = mouse_flags(&mouse(MouseAction::Move, MouseButton::NoButton, 3, 3));
    let up = mouse_flags(&mouse(MouseAction::Up, MouseButton::Left, 3, 3));
    assert_eq!(thumb_drag_step(false, &moved), ThumbDragStep::NotActive);
    assert_eq!(thumb_drag_step(true, &moved), ThumbDragStep::Drag);
    assert_eq!(thumb_drag_step(true, &up), ThumbDragStep::End);
    let right_up = mouse_flags(&mouse(MouseAction::Up, MouseButton::Right, 3, 3));
    assert_eq!(thumb_drag_step(true, &right_up), ThumbDragStep::Hold);
}

#[test]
fn release_fires_only_inside_enabled_button() {
    assert_eq!(release_action(true, true, Some(4)), ControlAction::Command(4));
    assert_eq!(release_action(true, true, None), ControlAction::Consumed);
    assert_eq!(release_action(true, false, Some(4)), ControlAction::Consumed);
    assert_eq!(release_action(false, true, Some(4)), ControlAction::Consumed);
}

#[test]
fn offsets_saturate() {
    assert_eq!(saturating_sub_i64(5, 7), -2);
    assert_eq!(saturating_sub_i64(i64::MIN, 1), i64::MIN);
    assert_eq!(saturating_sub_i64(i64::MAX, -1), i64::MAX);
    assert_eq!(offset_in_view(12, 4), 7);
    assert_eq!(offset_in_view(i64::MIN, 4), i64::MIN);
    assert_eq!(row_index(3), Some(3));
    assert_eq!(row_index(-1), None);
}

#[test]
fn routes_by_control_kind() {
    let press = mouse(MouseAction::Down, MouseButton::Left, 12, 7);
    let f = mouse_flags(&press);
    assert_eq!(route_control_mouse(ControlKind::Button, true, &f, &press, 4, 5), ControlMouseRoute::CapturePress);
    assert_eq!(route_control_mouse(ControlKind::Button, false, &f, &press, 4, 5), ControlMouseRoute::Unhandled);
    assert_eq!(
        route_control_mouse(ControlKind::InputLine, true, &f, &press, 4, 5),
        ControlMouseRoute::SetInputCursor { column: 7 }
    );
    assert_eq!(
        route_control_mouse(ControlKind::InputLine, true, &f, &press, 20, 5),
        ControlMouseRoute::SetInputCursor { column: 0 }
    );
    assert_eq!(route_control_mouse(ControlKind::CheckBox, false, &f, &press, 4, 5), ControlMouseRoute::Toggle);
    assert_eq!(
        route_control_mouse(ControlKind::RadioGroup, true, &f, &press, 4, 5),
        ControlMouseRoute::SelectRadioRow { row: Some(1) }
    );
    assert_eq!(
        route_control_mouse(ControlKind::ListBox, true, &f, &press, 4, 9),
        ControlMouseRoute::SelectListRow { row: None }
    );
    let wheel = mouse(MouseAction::ScrollUp, MouseButton::NoButton, 12, 7);
    let wf = mouse_flags(&wheel);
    assert_eq!(route_control_mouse(ControlKind::ListBox, true, &wf, &wheel, 4, 5), ControlMouseRoute::ListScroll(-1));
    assert_eq!(
        route_control_mouse(ControlKind::ScrollBar, true, &wf, &wheel, 4, 5),
        ControlMouseRoute::ScrollBar(ScrollPointer::ScrollBy(-1))
    );
    assert_eq!(
        route_control_mouse(ControlKind::ScrollView, true, &f, &press, 4, 5),
        ControlMouseRoute::ScrollView(ScrollPointer::Press { x: 12, y: 7 })
    );
    assert_eq!(
        memo_pointer(&f, &press),
        MemoPointer::Press { x: 12, y: 7, column: 11, row: 6 }
    );
    assert_eq!(route_control_mouse(ControlKind::Memo, false, &f, &press, 4, 5), ControlMouseRoute::Unhandled);
}

#[test]
fn actions_after_pointer_answer() {
    assert_eq!(control_mouse_action(ControlMouseRoute::CapturePress, false, None), Some(ControlAction::CapturePress));
    assert_eq!(control_mouse_action(ControlMouseRoute::Toggle, false, Some(2)), None);
    assert_eq!(control_mouse_action(ControlMouseRoute::Toggle, true, Some(2)), Some(ControlAction::Command(2)));
    assert_eq!(
        control_mouse_action(ControlMouseRoute::SelectRadioRow { row: Some(0) }, true, Some(8)),
        Some(ControlAction::Command(8))
    );
    assert_eq!(
        control_mouse_action(ControlMouseRoute::SelectRadioRow { row: None }, true, Some(8)),
        Some(ControlAction::Consumed)
    );
    assert_eq!(
        control_mouse_action(ControlMouseRoute::ScrollBar(ScrollPointer::Press { x: 1, y: 1 }), true, None),
        Some(ControlAction::CaptureThumb)
    );
    assert_eq!(
        control_mouse_action(ControlMouseRoute::Memo(MemoPointer::Ignore), true, None),
        None
    );
    assert!(captures_thumb(Some(ControlAction::CaptureThumb), true));
    assert!(!captures_thumb(Some(ControlAction::CaptureThumb), false));
    assert!(!captures_thumb(Some(ControlAction::Consumed), true));
}
