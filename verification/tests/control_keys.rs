use fpas_tui::control_keys::{
    command_action, control_key_action, finish_control_action, input_key, list_box_key, memo_key,
    radio_key, route_control_key, scroll_control_key, ConsoleKey, ControlAction, ControlKeyRoute,
    ControlKind, ControlOutcome, InputLineEdit, KeyKind, ListBoxKeyOp, MemoEdit, RadioKeyOp,
    ScrollStep,
};

fn key(kind: KeyKind) -> ConsoleKey {
    ConsoleKey { kind, ch: '\0', shift: false, ctrl: false, alt: false, meta: false }
}

fn typed(ch: char) -> ConsoleKey {
    ConsoleKey { kind: KeyKind::Character, ch, shift: false, ctrl: false, alt: false, meta: false }
}

#[test]
fn input_line_keys_map_to_edits() {
    assert_eq!(input_key(&typed('x')), Some(InputLineEdit::InsertChar('x')));
    assert_eq!(input_key(&key(KeyKind::Backspace)), Some(InputLineEdit::Backspace));
    assert_eq!(input_key(&key(KeyKind::Delete)), Some(InputLineEdit::Delete));
    assert_eq!(input_key(&key(KeyKind::Left)), Some(InputLineEdit::CursorLeft));
    assert_eq!(input_key(&key(KeyKind::Right)), Some(InputLineEdit::CursorRight));
    assert_eq!(input_key(&key(KeyKind::Home)), Some(InputLineEdit::CursorToStart));
    assert_eq!(input_key(&key(KeyKind::End)), Some(InputLineEdit::CursorToEnd));
    assert_eq!(input_key(&key(KeyKind::Enter)), None);
    assert_eq!(input_key(&key(KeyKind::Up)), None);
}

#[test]
fn command_modifiers_block_text_edits() {
    for (ctrl, alt, meta) in [(true, false, false), (false, true, false), (false, false, true)] {
        let k = ConsoleKey { kind: KeyKind::Character, ch: 'c', shift: false, ctrl, alt, meta };
        assert_eq!(input_key(&k), None);
        assert_eq!(memo_key(&k), None);
    }
    let shifted = ConsoleKey { kind: KeyKind::Character, ch: 'C', shift: true, ctrl: false, alt: false, meta: false };
    assert_eq!(input_key(&shifted), Some(InputLineEdit::InsertChar('C')));
}

#[test]
fn memo_keys_move_and_extend() {
    assert_eq!(memo_key(&key(KeyKind::Enter)), Some(MemoEdit::InsertChar('\n')));
    assert_eq!(
        memo_key(&key(KeyKind::Up)),
        Some(MemoEdit::MoveCursor { rows: -1, columns: 0, extend: false })
    );
    let shift_left = ConsoleKey { kind: KeyKind::Left, ch: '\0', shift: true, ctrl: false, alt: false, meta: false };
    assert_eq!(
        memo_key(&shift_left),
        Some(MemoEdit::MoveCursor { rows: 0, columns: -1, extend: true })
    );
    let shift_end = ConsoleKey { kind: KeyKind::End, ch: '\0', shift: true, ctrl: false, alt: false, meta: false };
    assert_eq!(memo_key(&shift_end), Some(MemoEdit::LineEdge { end: true, extend: true }));
    assert_eq!(memo_key(&key(KeyKind::PageDown)), Some(MemoEdit::ScrollPage { forward: true }));
    assert_eq!(memo_key(&key(KeyKind::Space)), None);
}

#[test]
fn radio_list_and_scroll_keys() {
    assert_eq!(radio_key(&key(KeyKind::Left)), Some(RadioKeyOp::FocusPrevious));
    assert_eq!(radio_key(&key(KeyKind::Down)), Some(RadioKeyOp::FocusNext));
    assert_eq!(radio_key(&key(KeyKind::Space)), Some(RadioKeyOp::SelectFocused));
    assert_eq!(radio_key(&key(KeyKind::Home)), None);
    assert_eq!(list_box_key(&key(KeyKind::Down)), Some(ListBoxKeyOp::MoveSelection { forward: true }));
    assert_eq!(list_box_key(&key(KeyKind::Home)), Some(ListBoxKeyOp::SelectEdge { end: false }));
    assert_eq!(list_box_key(&key(KeyKind::Enter)), Some(ListBoxKeyOp::Activate));
    assert_eq!(list_box_key(&key(KeyKind::Left)), None);
    assert_eq!(scroll_control_key(&key(KeyKind::Up)), Some(ScrollStep::By(-1)));
    assert_eq!(scroll_control_key(&key(KeyKind::PageUp)), Some(ScrollStep::Page { forward: false }));
    assert_eq!(scroll_control_key(&key(KeyKind::End)), Some(ScrollStep::ToEnd));
    assert_eq!(scroll_control_key(&key(KeyKind::Enter)), None);
}

#[test]
fn routing_depends_on_kind_and_enabled() {
    let enter = key(KeyKind::Enter);
    assert_eq!(route_control_key(ControlKind::Button, true, &enter), ControlKeyRoute::Press);
    assert_eq!(route_control_key(ControlKind::Button, false, &enter), ControlKeyRoute::Unhandled);
    assert_eq!(route_control_key(ControlKind::CheckBox, false, &enter), ControlKeyRoute::Toggle);
    assert_eq!(route_control_key(ControlKind::CheckBox, true, &typed('a')), ControlKeyRoute::Unhandled);
    assert_eq!(
        route_control_key(ControlKind::InputLine, true, &typed('a')),
        ControlKeyRoute::EditInputLine(InputLineEdit::InsertChar('a'))
    );
    assert_eq!(route_control_key(ControlKind::InputLine, false, &typed('a')), ControlKeyRoute::Unhandled);
    assert_eq!(
        route_control_key(ControlKind::ScrollView, true, &key(KeyKind::Home)),
        ControlKeyRoute::Scroll(ScrollStep::ToStart)
    );
    assert_eq!(route_control_key(ControlKind::Other, true, &enter), ControlKeyRoute::Unhandled);
}

#[test]
fn actions_after_the_control_answered() {
    assert_eq!(command_action(Some(7)), ControlAction::Command(7));
    assert_eq!(command_action(None), ControlAction::Consumed);
    assert_eq!(control_key_action(ControlKeyRoute::Press, false, Some(3)), Some(ControlAction::Command(3)));
    assert_eq!(control_key_action(ControlKeyRoute::Toggle, false, Some(3)), None);
    assert_eq!(control_key_action(ControlKeyRoute::Toggle, true, None), Some(ControlAction::Consumed));
    assert_eq!(
        control_key_action(ControlKeyRoute::EditMemo(MemoEdit::ScrollPage { forward: true }), false, None),
        None
    );
    assert_eq!(
        control_key_action(ControlKeyRoute::EditMemo(MemoEdit::Backspace), false, None),
        Some(ControlAction::Consumed)
    );
    assert_eq!(
        control_key_action(ControlKeyRoute::ListBox(ListBoxKeyOp::MoveSelection { forward: true }), false, Some(9)),
        None
    );
    assert_eq!(
        control_key_action(ControlKeyRoute::ListBox(ListBoxKeyOp::Activate), false, Some(9)),
        Some(ControlAction::Command(9))
    );
    assert_eq!(
        control_key_action(ControlKeyRoute::Radio(RadioKeyOp::FocusNext), false, Some(9)),
        Some(ControlAction::Consumed)
    );
    assert_eq!(control_key_action(ControlKeyRoute::Unhandled, true, Some(1)), None);
}

#[test]
fn only_enabled_commands_are_dispatched() {
    assert_eq!(finish_control_action(None, true), None);
    assert_eq!(
        finish_control_action(Some(ControlAction::Command(5)), true),
        Some(ControlOutcome::DispatchCommand(5))
    );
    assert_eq!(
        finish_control_action(Some(ControlAction::Command(5)), false),
        Some(ControlOutcome::WidgetConsumed)
    );
    assert_eq!(
        finish_control_action(Some(ControlAction::CapturePress), false),
        Some(ControlOutcome::WidgetConsumed)
    );
}
