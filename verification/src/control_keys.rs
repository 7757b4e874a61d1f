//! Keyboard routing for the focused retained control: which edit, move or
//! command a key stands for, and what the host does with the control's
//! answer. The control widgets themselves carry out the edits.
use vstd::prelude::*;

verus! {

/// The kind of a console key event.
#[derive(Debug, Clone, Copy, PartialEq, Eq, Structural)]
pub enum KeyKind {
    Character,
    Backspace,
    Delete,
    Enter,
    Space,
    Left,
    Right,
    Up,
    Down,
    Home,
    End,
    PageUp,
    PageDown,
    /// Any other key (function keys, Tab, Escape, ...).
    Other,
}

/// A console key event: its kind, the character it types, and the
/// modifier keys held.
#[derive(Debug, Clone, Copy, PartialEq, Eq, Structural)]
pub struct ConsoleKey {
    pub kind: KeyKind,
    pub ch: char,
    pub shift: bool,
    pub ctrl: bool,
    pub alt: bool,
    pub meta: bool,
}

/// An edit of an input line.
#[derive(Debug, Clone, Copy, PartialEq, Eq, Structural)]
pub enum InputLineEdit {
    InsertChar(char),
    Backspace,
    Delete,
    CursorLeft,
    CursorRight,
    /// Cursor to the first character.
    CursorToStart,
    /// Cursor past the last character.
    CursorToEnd,
}

/// An edit or move inside a memo.
#[derive(Debug, Clone, Copy, PartialEq, Eq, Structural)]
pub enum MemoEdit {
    InsertChar(char),
    Backspace,
    Delete,
    /// Move the cursor by whole rows and columns, extending the selection
    /// when `extend`.
    MoveCursor { rows: i8, columns: i8, extend: bool },
    /// Cursor to the start (or, with `end`, the end) of its line.
    LineEdge { end: bool, extend: bool },
    /// Scroll one page back or forward.
    ScrollPage { forward: bool },
}

/// What a key asks of a radio group.
#[derive(Debug, Clone, Copy, PartialEq, Eq, Structural)]
pub enum RadioKeyOp {
    FocusPrevious,
    FocusNext,
    SelectFocused,
}

/// What a key asks of a list box.
#[derive(Debug, Clone, Copy, PartialEq, Eq, Structural)]
pub enum ListBoxKeyOp {
    MoveSelection { forward: bool },
    SelectEdge { end: bool },
    Activate,
}

/// A scroll step of a scroll bar or scroll view.
#[derive(Debug, Clone, Copy, PartialEq, Eq, Structural)]
pub enum ScrollStep {
    By(i64),
    Page { forward: bool },
    ToStart,
    ToEnd,
}

/// The kind of a retained control, and whether it accepts input.
#[derive(Debug, Clone, Copy, PartialEq, Eq, Structural)]
pub enum ControlKind {
    Button,
    CheckBox,
    InputLine,
    Memo,
    RadioGroup,
    ListBox,
    ScrollBar,
    ScrollView,
    /// A control that takes no keys (static text, frames, ...).
    Other,
}

/// Where a key goes on the focused control.
#[derive(Debug, Clone, Copy, PartialEq, Eq, Structural)]
pub enum ControlKeyRoute {
    /// Press the button: its command, or just consumed.
    Press,
    /// Toggle the check box.
    Toggle,
    EditInputLine(InputLineEdit),
    EditMemo(MemoEdit),
    Radio(RadioKeyOp),
    ListBox(ListBoxKeyOp),
    Scroll(ScrollStep),
    /// The control does not take this key.
    Unhandled,
}

/// What a control did with an input event.
#[derive(Debug, Clone, Copy, PartialEq, Eq, Structural)]
pub enum ControlAction {
    Consumed,
    /// A scroll thumb drag started; the pointer is captured.
    CaptureThumb,
    /// A button was pressed; the release decides.
    CapturePress,
    /// The control fired this command.
    Command(u16),
}

/// What the host reports once a control has acted.
#[derive(Debug, Clone, Copy, PartialEq, Eq, Structural)]
pub enum ControlOutcome {
    /// The control used the event; nothing else happens.
    WidgetConsumed,
    /// Dispatch this enabled command, with the control as its source.
    DispatchCommand(u16),
}

/// A modifier other than Shift is held.
pub open spec fn spec_has_command_modifier(key: ConsoleKey) -> bool {
    key.ctrl || key.alt || key.meta
}

/// The input-line edit a key stands for: plain typing and cursor keys, with
/// no Ctrl, Alt or Meta held.
pub open spec fn spec_input_key(key: ConsoleKey) -> Option<InputLineEdit> {
    if spec_has_command_modifier(key) {
        None
    } else {
        match key.kind {
            KeyKind::Character => Some(InputLineEdit::InsertChar(key.ch)),
            KeyKind::Backspace => Some(InputLineEdit::Backspace),
            KeyKind::Delete => Some(InputLineEdit::Delete),
            KeyKind::Left => Some(InputLineEdit::CursorLeft),
            KeyKind::Right => Some(InputLineEdit::CursorRight),
            KeyKind::Home => Some(InputLineEdit::CursorToStart),
            KeyKind::End => Some(InputLineEdit::CursorToEnd),
            _ => None,
        }
    }
}

/// The memo edit a key stands for; Shift extends the selection of cursor
/// moves, and Enter types a line break.
pub open spec fn spec_memo_key(key: ConsoleKey) -> Option<MemoEdit> {
    if spec_has_command_modifier(key) {
        None
    } else {
        let extend = key.shift;
        match key.kind {
            KeyKind::Character => Some(MemoEdit::InsertChar(key.ch)),
            KeyKind::Backspace => Some(MemoEdit::Backspace),
            KeyKind::Delete => Some(MemoEdit::Delete),
            KeyKind::Enter => Some(MemoEdit::InsertChar('\n')),
            KeyKind::Left => Some(MemoEdit::MoveCursor { rows: 0i8, columns: -1i8, extend }),
            KeyKind::Right => Some(MemoEdit::MoveCursor { rows: 0i8, columns: 1i8, extend }),
            KeyKind::Up => Some(MemoEdit::MoveCursor { rows: -1i8, columns: 0i8, extend }),
            KeyKind::Down => Some(MemoEdit::MoveCursor { rows: 1i8, columns: 0i8, extend }),
            KeyKind::Home => Some(MemoEdit::LineEdge { end: false, extend }),
            KeyKind::End => Some(MemoEdit::LineEdge { end: true, extend }),
            KeyKind::PageUp => Some(MemoEdit::ScrollPage { forward: false }),
            KeyKind::PageDown => Some(MemoEdit::ScrollPage { forward: true }),
            _ => None,
        }
    }
}

/// The radio-group move a key stands for.
pub open spec fn spec_radio_key(key: ConsoleKey) -> Option<RadioKeyOp> {
    match key.kind {
        KeyKind::Up | KeyKind::Left => Some(RadioKeyOp::FocusPrevious),
        KeyKind::Down | KeyKind::Right => Some(RadioKeyOp::FocusNext),
        KeyKind::Enter | KeyKind::Space => Some(RadioKeyOp::SelectFocused),
        _ => None,
    }
}

/// The list-box move a key stands for.
pub open spec fn spec_list_box_key(key: ConsoleKey) -> Option<ListBoxKeyOp> {
    match key.kind {
        KeyKind::Up => Some(ListBoxKeyOp::MoveSelection { forward: false }),
        KeyKind::Down => Some(ListBoxKeyOp::MoveSelection { forward: true }),
        KeyKind::Home => Some(ListBoxKeyOp::SelectEdge { end: false }),
        KeyKind::End => Some(ListBoxKeyOp::SelectEdge { end: true }),
        KeyKind::Enter | KeyKind::Space => Some(ListBoxKeyOp::Activate),
        _ => None,
    }
}

/// The scroll step a key stands for.
pub open spec fn spec_scroll_key(key: ConsoleKey) -> Option<ScrollStep> {
    match key.kind {
        KeyKind::Up => Some(ScrollStep::By(-1i64)),
        KeyKind::Down => Some(ScrollStep::By(1i64)),
        KeyKind::PageUp => Some(ScrollStep::Page { forward: false }),
        KeyKind::PageDown => Some(ScrollStep::Page { forward: true }),
        KeyKind::Home => Some(ScrollStep::ToStart),
        KeyKind::End => Some(ScrollStep::ToEnd),
        _ => None,
    }
}

/// Where a key goes on a focused control of `kind`. Buttons take Enter and
/// Space when enabled; check boxes take them even when disabled (the box
/// itself refuses the toggle); the other controls take keys only when
/// enabled.
pub open spec fn spec_route_control_key(kind: ControlKind, enabled: bool, key: ConsoleKey) -> ControlKeyRoute {
    let activate = key.kind == KeyKind::Enter || key.kind == KeyKind::Space;
    match kind {
        ControlKind::Button => if enabled && activate {
            ControlKeyRoute::Press
        } else {
            ControlKeyRoute::Unhandled
        },
        ControlKind::CheckBox => if activate {
            ControlKeyRoute::Toggle
        } else {
            ControlKeyRoute::Unhandled
        },
        ControlKind::InputLine => match spec_input_key(key) {
            Some(e) if enabled => ControlKeyRoute::EditInputLine(e),
            _ => ControlKeyRoute::Unhandled,
        },
        ControlKind::Memo => match spec_memo_key(key) {
            Some(e) if enabled => ControlKeyRoute::EditMemo(e),
            _ => ControlKeyRoute::Unhandled,
        },
        ControlKind::RadioGroup => match spec_radio_key(key) {
            Some(op) if enabled => ControlKeyRoute::Radio(op),
            _ => ControlKeyRoute::Unhandled,
        },
        ControlKind::ListBox => match spec_list_box_key(key) {
            Some(op) if enabled => ControlKeyRoute::ListBox(op),
            _ => ControlKeyRoute::Unhandled,
        },
        ControlKind::ScrollBar | ControlKind::ScrollView => match spec_scroll_key(key) {
            Some(step) if enabled => ControlKeyRoute::Scroll(step),
            _ => ControlKeyRoute::Unhandled,
        },
        ControlKind::Other => ControlKeyRoute::Unhandled,
    }
}

/// A control's command, or just consumed when it has none.
pub open spec fn spec_command_action(command: Option<u16>) -> ControlAction {
    match command {
        Some(c) => ControlAction::Command(c),
        None => ControlAction::Consumed,
    }
}

/// The input-line edit a key stands for.
pub fn input_key(key: &ConsoleKey) -> (edit: Option<InputLineEdit>)
    ensures
        edit == spec_input_key(*key),
{
    if key.ctrl || key.alt || key.meta {
        return None;
    }
    match key.kind {
        KeyKind::Character => Some(InputLineEdit::InsertChar(key.ch)),
        KeyKind::Backspace => Some(InputLineEdit::Backspace),
        KeyKind::Delete => Some(InputLineEdit::Delete),
        KeyKind::Left => Some(InputLineEdit::CursorLeft),
        KeyKind::Right => Some(InputLineEdit::CursorRight),
        KeyKind::Home => Some(InputLineEdit::CursorToStart),
        KeyKind::End => Some(InputLineEdit::CursorToEnd),
        _ => None,
    }
}

/// The memo edit a key stands for.
pub fn memo_key(key: &ConsoleKey) -> (edit: Option<MemoEdit>)
    ensures
        edit == spec_memo_key(*key),
{
    if key.ctrl || key.alt || key.meta {
        return None;
    }
    let extend = key.shift;
    match key.kind {
        KeyKind::Character => Some(MemoEdit::InsertChar(key.ch)),
        KeyKind::Backspace => Some(MemoEdit::Backspace),
        KeyKind::Delete => Some(MemoEdit::Delete),
        KeyKind::Enter => Some(MemoEdit::InsertChar('\n')),
        KeyKind::Left => Some(MemoEdit::MoveCursor { rows: 0i8, columns: -1i8, extend }),
        KeyKind::Right => Some(MemoEdit::MoveCursor { rows: 0i8, columns: 1i8, extend }),
        KeyKind::Up => Some(MemoEdit::MoveCursor { rows: -1i8, columns: 0i8, extend }),
        KeyKind::Down => Some(MemoEdit::MoveCursor { rows: 1i8, columns: 0i8, extend }),
        KeyKind::Home => Some(MemoEdit::LineEdge { end: false, extend }),
        KeyKind::End => Some(MemoEdit::LineEdge { end: true, extend }),
        KeyKind::PageUp => Some(MemoEdit::ScrollPage { forward: false }),
        KeyKind::PageDown => Some(MemoEdit::ScrollPage { forward: true }),
        _ => None,
    }
}

/// The radio-group move a key stands for.
pub fn radio_key(key: &ConsoleKey) -> (op: Option<RadioKeyOp>)
    ensures
        op == spec_radio_key(*key),
{
    match key.kind {
        KeyKind::Up | KeyKind::Left => Some(RadioKeyOp::FocusPrevious),
        KeyKind::Down | KeyKind::Right => Some(RadioKeyOp::FocusNext),
        KeyKind::Enter | KeyKind::Space => Some(RadioKeyOp::SelectFocused),
        _ => None,
    }
}

/// The list-box move a key stands for.
pub fn list_box_key(key: &ConsoleKey) -> (op: Option<ListBoxKeyOp>)
    ensures
        op == spec_list_box_key(*key),
{
    match key.kind {
        KeyKind::Up => Some(ListBoxKeyOp::MoveSelection { forward: false }),
        KeyKind::Down => Some(ListBoxKeyOp::MoveSelection { forward: true }),
        KeyKind::Home => Some(ListBoxKeyOp::SelectEdge { end: false }),
        KeyKind::End => Some(ListBoxKeyOp::SelectEdge { end: true }),
        KeyKind::Enter | KeyKind::Space => Some(ListBoxKeyOp::Activate),
        _ => None,
    }
}

/// The scroll step a key stands for.
pub fn scroll_control_key(key: &ConsoleKey) -> (step: Option<ScrollStep>)
    ensures
        step == spec_scroll_key(*key),
{
    match key.kind {
        KeyKind::Up => Some(ScrollStep::By(-1i64)),
        KeyKind::Down => Some(ScrollStep::By(1i64)),
        KeyKind::PageUp => Some(ScrollStep::Page { forward: false }),
        KeyKind::PageDown => Some(ScrollStep::Page { forward: true }),
        KeyKind::Home => Some(ScrollStep::ToStart),
        KeyKind::End => Some(ScrollStep::ToEnd),
        _ => None,
    }
}

/// Where a key goes on the focused control.
pub fn route_control_key(kind: ControlKind, enabled: bool, key: &ConsoleKey) -> (route: ControlKeyRoute)
    ensures
        route == spec_route_control_key(kind, enabled, *key),
{
    let activate = key.kind == KeyKind::Enter || key.kind == KeyKind::Space;
    match kind {
        ControlKind::Button => if enabled && activate {
            ControlKeyRoute::Press
        } else {
            ControlKeyRoute::Unhandled
        },
        ControlKind::CheckBox => if activate {
            ControlKeyRoute::Toggle
        } else {
            ControlKeyRoute::Unhandled
        },
        ControlKind::InputLine => match input_key(key) {
            Some(e) if enabled => ControlKeyRoute::EditInputLine(e),
            _ => ControlKeyRoute::Unhandled,
        },
        ControlKind::Memo => match memo_key(key) {
            Some(e) if enabled => ControlKeyRoute::EditMemo(e),
            _ => ControlKeyRoute::Unhandled,
        },
        ControlKind::RadioGroup => match radio_key(key) {
            Some(op) if enabled => ControlKeyRoute::Radio(op),
            _ => ControlKeyRoute::Unhandled,
        },
        ControlKind::ListBox => match list_box_key(key) {
            Some(op) if enabled => ControlKeyRoute::ListBox(op),
            _ => ControlKeyRoute::Unhandled,
        },
        ControlKind::ScrollBar | ControlKind::ScrollView => match scroll_control_key(key) {
            Some(step) if enabled => ControlKeyRoute::Scroll(step),
            _ => ControlKeyRoute::Unhandled,
        },
        ControlKind::Other => ControlKeyRoute::Unhandled,
    }
}

/// A control's command, or just consumed when it has none.
pub fn command_action(command: Option<u16>) -> (action: ControlAction)
    ensures
        action == spec_command_action(command),
{
    match command {
        Some(c) => ControlAction::Command(c),
        None => ControlAction::Consumed,
    }
}

/// The action once the control has carried out `route`: `changed` is what
/// the control answered to a toggle, a memo page scroll, a list move or a
/// scroll step; `command` is the command it carries after the step (the
/// button's, the check box's, or the one of the item now selected).
pub open spec fn spec_control_key_action(route: ControlKeyRoute, changed: bool, command: Option<u16>) -> Option<ControlAction> {
    match route {
        ControlKeyRoute::Press => Some(spec_command_action(command)),
        ControlKeyRoute::Toggle => if changed {
            Some(spec_command_action(command))
        } else {
            None
        },
        ControlKeyRoute::EditInputLine(_) => Some(ControlAction::Consumed),
        ControlKeyRoute::EditMemo(MemoEdit::ScrollPage { .. }) => if changed {
            Some(ControlAction::Consumed)
        } else {
            None
        },
        ControlKeyRoute::EditMemo(_) => Some(ControlAction::Consumed),
        ControlKeyRoute::Radio(RadioKeyOp::SelectFocused) => Some(spec_command_action(command)),
        ControlKeyRoute::Radio(_) => Some(ControlAction::Consumed),
        ControlKeyRoute::ListBox(ListBoxKeyOp::Activate) => Some(spec_command_action(command)),
        ControlKeyRoute::ListBox(_) => if changed {
            Some(ControlAction::Consumed)
        } else {
            None
        },
        ControlKeyRoute::Scroll(_) => if changed {
            Some(ControlAction::Consumed)
        } else {
            None
        },
        ControlKeyRoute::Unhandled => None,
    }
}

/// The action once the control has carried out `route` (see
/// [`spec_control_key_action`]).
pub fn control_key_action(route: ControlKeyRoute, changed: bool, command: Option<u16>) -> (action: Option<ControlAction>)
    ensures
        action == spec_control_key_action(route, changed, command),
{
    match route {
        ControlKeyRoute::Press => Some(command_action(command)),
        ControlKeyRoute::Toggle => if changed {
            Some(command_action(command))
        } else {
            None
        },
        ControlKeyRoute::EditInputLine(_) => Some(ControlAction::Consumed),
        ControlKeyRoute::EditMemo(MemoEdit::ScrollPage { .. }) => if changed {
            Some(ControlAction::Consumed)
        } else {
            None
        },
        ControlKeyRoute::EditMemo(_) => Some(ControlAction::Consumed),
        ControlKeyRoute::Radio(RadioKeyOp::SelectFocused) => Some(command_action(command)),
        ControlKeyRoute::Radio(_) => Some(ControlAction::Consumed),
        ControlKeyRoute::ListBox(ListBoxKeyOp::Activate) => Some(command_action(command)),
        ControlKeyRoute::ListBox(_) => if changed {
            Some(ControlAction::Consumed)
        } else {
            None
        },
        ControlKeyRoute::Scroll(_) => if changed {
            Some(ControlAction::Consumed)
        } else {
            None
        },
        ControlKeyRoute::Unhandled => None,
    }
}

/// What the host reports for a control's action: nothing when the control
/// did not act, a command only when it is enabled, and otherwise that the
/// widget consumed the event.
pub open spec fn spec_finish_control_action(action: Option<ControlAction>, command_enabled: bool) -> Option<ControlOutcome> {
    match action {
        None => None,
        Some(ControlAction::Command(c)) => if command_enabled {
            Some(ControlOutcome::DispatchCommand(c))
        } else {
            Some(ControlOutcome::WidgetConsumed)
        },
        Some(_) => Some(ControlOutcome::WidgetConsumed),
    }
}

/// What the host reports for a control's action; `command_enabled` tells
/// whether the command of a `Command` action is enabled.
pub fn finish_control_action(action: Option<ControlAction>, command_enabled: bool) -> (outcome: Option<ControlOutcome>)
    ensures
        outcome == spec_finish_control_action(action, command_enabled),
{
    match action {
        None => None,
        Some(ControlAction::Command(c)) => if command_enabled {
            Some(ControlOutcome::DispatchCommand(c))
        } else {
            Some(ControlOutcome::WidgetConsumed)
        },
        Some(_) => Some(ControlOutcome::WidgetConsumed),
    }
}

} // verus!
