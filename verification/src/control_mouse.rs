//! Pointer routing for retained controls: which stage a mouse event goes
//! through (thumb drag, button release, hit test), what it asks of the
//! control under it, and what the control's answer amounts to. The
//! control widgets themselves carry out the request.
use vstd::prelude::*;
use crate::control_keys::{ControlAction, ControlKind, command_action, spec_command_action};
use crate::test_events::{MouseAction, MouseButton};

verus! {

/// A console mouse event at one-based console coordinates.
#[derive(Debug, Clone, Copy, PartialEq, Eq, Structural)]
pub struct UiMouse {
    pub action: MouseAction,
    pub button: MouseButton,
    pub x: i64,
    pub y: i64,
}

/// What a mouse event is, as far as controls care.
#[derive(Debug, Clone, Copy, PartialEq, Eq, Structural)]
pub struct MouseFlags {
    /// Left button pressed.
    pub down: bool,
    /// Left button released.
    pub up: bool,
    /// Pointer moved.
    pub moved: bool,
    pub scroll_up: bool,
    pub scroll_down: bool,
}

/// The flags of a mouse event.
pub open spec fn spec_mouse_flags(m: UiMouse) -> MouseFlags {
    MouseFlags {
        down: m.action == MouseAction::Down && m.button == MouseButton::Left,
        up: m.action == MouseAction::Up && m.button == MouseButton::Left,
        moved: m.action == MouseAction::Move,
        scroll_up: m.action == MouseAction::ScrollUp,
        scroll_down: m.action == MouseAction::ScrollDown,
    }
}

/// The flags of a mouse event.
pub fn mouse_flags(m: &UiMouse) -> (f: MouseFlags)
    ensures
        f == spec_mouse_flags(*m),
{
    MouseFlags {
        down: m.action == MouseAction::Down && m.button == MouseButton::Left,
        up: m.action == MouseAction::Up && m.button == MouseButton::Left,
        moved: m.action == MouseAction::Move,
        scroll_up: m.action == MouseAction::ScrollUp,
        scroll_down: m.action == MouseAction::ScrollDown,
    }
}

/// A release or a move first goes to a running scroll-thumb drag.
pub open spec fn spec_offers_thumb_drag(f: MouseFlags) -> bool {
    f.up || f.moved
}

/// A release then goes to the pressed button, if any.
pub open spec fn spec_offers_button_release(f: MouseFlags) -> bool {
    f.up
}

/// Only presses and wheel turns are hit-tested against the controls.
pub open spec fn spec_hit_tests(f: MouseFlags) -> bool {
    f.down || f.scroll_up || f.scroll_down
}

/// A release or a move first goes to a running scroll-thumb drag.
pub fn offers_thumb_drag(f: &MouseFlags) -> (b: bool)
    ensures
        b == spec_offers_thumb_drag(*f),
{
    f.up || f.moved
}

/// Only presses and wheel turns are hit-tested against the controls.
pub fn hit_tests(f: &MouseFlags) -> (b: bool)
    ensures
        b == spec_hit_tests(*f),
{
    f.down || f.scroll_up || f.scroll_down
}

/// What a running scroll-thumb drag does with an event.
#[derive(Debug, Clone, Copy, PartialEq, Eq, Structural)]
pub enum ThumbDragStep {
    /// No drag runs on the control: the event goes on.
    NotActive,
    /// Move the thumb to the pointer.
    Drag,
    /// End the drag and release the pointer (always redrawn).
    End,
    /// The drag keeps running; the event is used up.
    Hold,
}

/// What a scroll-thumb drag does with an event.
pub open spec fn spec_thumb_drag_step(active: bool, f: MouseFlags) -> ThumbDragStep {
    if !active {
        ThumbDragStep::NotActive
    } else if f.moved {
        ThumbDragStep::Drag
    } else if f.up {
        ThumbDragStep::End
    } else {
        ThumbDragStep::Hold
    }
}

/// What a scroll-thumb drag does with an event.
pub fn thumb_drag_step(active: bool, f: &MouseFlags) -> (step: ThumbDragStep)
    ensures
        step == spec_thumb_drag_step(active, *f),
{
    if !active {
        ThumbDragStep::NotActive
    } else if f.moved {
        ThumbDragStep::Drag
    } else if f.up {
        ThumbDragStep::End
    } else {
        ThumbDragStep::Hold
    }
}

/// The action of releasing the pointer over a pressed control: an enabled
/// button under the pointer fires its command; any other release is just
/// consumed.
pub open spec fn spec_release_action(enabled_button: bool, inside: bool, command: Option<u16>) -> ControlAction {
    if enabled_button && inside {
        spec_command_action(command)
    } else {
        ControlAction::Consumed
    }
}

/// The action of releasing the pointer over a pressed control.
pub fn release_action(enabled_button: bool, inside: bool, command: Option<u16>) -> (action: ControlAction)
    ensures
        action == spec_release_action(enabled_button, inside, command),
{
    if enabled_button && inside {
        command_action(command)
    } else {
        ControlAction::Consumed
    }
}

/// What a pointer event asks of a scroll bar or scroll view.
#[derive(Debug, Clone, Copy, PartialEq, Eq, Structural)]
pub enum ScrollPointer {
    /// Scroll by this many lines (the wheel).
    ScrollBy(i64),
    /// A press at these console coordinates: start a thumb drag if it hits
    /// the thumb, else apply the part of the bar it hits.
    Press { x: i64, y: i64 },
    /// Nothing to do; the event is used up.
    Ignore,
}

/// What a pointer event asks of a memo.
#[derive(Debug, Clone, Copy, PartialEq, Eq, Structural)]
pub enum MemoPointer {
    ScrollBy(i64),
    /// A press at `(x, y)`: start a thumb drag or apply a scroll-bar hit;
    /// else put the cursor at the one-based click `(column, row)` inside
    /// the text.
    Press { x: i64, y: i64, column: i64, row: i64 },
    /// Not a memo event.
    Ignore,
}

/// What a pointer event asks of the control under it.
#[derive(Debug, Clone, Copy, PartialEq, Eq, Structural)]
pub enum ControlMouseRoute {
    /// Press the button; the release decides.
    CapturePress,
    /// Put the input line's cursor at this column of its visible text (the
    /// line adds its scroll offset).
    SetInputCursor { column: usize },
    Toggle,
    /// Select this row of the radio group; `None` for a click above it.
    SelectRadioRow { row: Option<usize> },
    /// Scroll the list box by this many lines.
    ListScroll(i64),
    /// Select this visible row of the list box; `None` for a click above it.
    SelectListRow { row: Option<usize> },
    ScrollBar(ScrollPointer),
    ScrollView(ScrollPointer),
    Memo(MemoPointer),
    Unhandled,
}

/// `a - b`, saturating at the `i64` range.
pub open spec fn spec_saturating_sub(a: i64, b: i64) -> i64 {
    if a - b < i64::MIN {
        i64::MIN
    } else if a - b > i64::MAX {
        i64::MAX
    } else {
        (a - b) as i64
    }
}

/// The row offset `n` as an index, when it is not negative.
pub open spec fn spec_row_index(n: i64) -> Option<usize> {
    if 0 <= n && n <= usize::MAX {
        Some(n as usize)
    } else {
        None
    }
}

/// The zero-based offset of a one-based console coordinate from a view's
/// origin `origin`, saturating.
pub open spec fn spec_offset_in_view(coordinate: i64, origin: i64) -> i64 {
    spec_saturating_sub(spec_saturating_sub(coordinate, 1), origin)
}

/// What a scroll bar or scroll view does with a pointer event.
pub open spec fn spec_scroll_pointer(f: MouseFlags, m: UiMouse) -> ScrollPointer {
    if f.scroll_up {
        ScrollPointer::ScrollBy(-1i64)
    } else if f.scroll_down {
        ScrollPointer::ScrollBy(1i64)
    } else if f.down {
        ScrollPointer::Press { x: m.x, y: m.y }
    } else {
        ScrollPointer::Ignore
    }
}

/// What a memo does with a pointer event.
pub open spec fn spec_memo_pointer(f: MouseFlags, m: UiMouse) -> MemoPointer {
    if f.scroll_up {
        MemoPointer::ScrollBy(-1i64)
    } else if f.scroll_down {
        MemoPointer::ScrollBy(1i64)
    } else if f.down {
        MemoPointer::Press { x: m.x, y: m.y, column: spec_saturating_sub(m.x, 1), row: spec_saturating_sub(m.y, 1) }
    } else {
        MemoPointer::Ignore
    }
}

/// What a pointer event asks of the hit control of `kind`, whose view
/// starts at `(origin_x, origin_y)`. Disabled controls take nothing, except
/// that a check box is still asked to toggle.
pub open spec fn spec_route_control_mouse(
    kind: ControlKind,
    enabled: bool,
    f: MouseFlags,
    m: UiMouse,
    origin_x: i64,
    origin_y: i64,
) -> ControlMouseRoute {
    match kind {
        ControlKind::Button => if enabled && f.down {
            ControlMouseRoute::CapturePress
        } else {
            ControlMouseRoute::Unhandled
        },
        ControlKind::InputLine => if enabled {
            let offset = spec_offset_in_view(m.x, origin_x);
            ControlMouseRoute::SetInputCursor { column: if offset < 0 { 0usize } else { offset as usize } }
        } else {
            ControlMouseRoute::Unhandled
        },
        ControlKind::CheckBox => ControlMouseRoute::Toggle,
        ControlKind::RadioGroup => if enabled {
            ControlMouseRoute::SelectRadioRow { row: spec_row_index(spec_offset_in_view(m.y, origin_y)) }
        } else {
            ControlMouseRoute::Unhandled
        },
        ControlKind::ListBox => if !enabled {
            ControlMouseRoute::Unhandled
        } else if f.scroll_up {
            ControlMouseRoute::ListScroll(-1i64)
        } else if f.scroll_down {
            ControlMouseRoute::ListScroll(1i64)
        } else {
            ControlMouseRoute::SelectListRow { row: spec_row_index(spec_offset_in_view(m.y, origin_y)) }
        },
        ControlKind::ScrollBar => if enabled {
            ControlMouseRoute::ScrollBar(spec_scroll_pointer(f, m))
        } else {
            ControlMouseRoute::Unhandled
        },
        ControlKind::ScrollView => if enabled {
            ControlMouseRoute::ScrollView(spec_scroll_pointer(f, m))
        } else {
            ControlMouseRoute::Unhandled
        },
        ControlKind::Memo => if enabled {
            ControlMouseRoute::Memo(spec_memo_pointer(f, m))
        } else {
            ControlMouseRoute::Unhandled
        },
        ControlKind::Other => ControlMouseRoute::Unhandled,
    }
}

/// `a - b`, saturating at the `i64` range.
pub fn saturating_sub_i64(a: i64, b: i64) -> (d: i64)
    ensures
        d == spec_saturating_sub(a, b),
{
    match a.checked_sub(b) {
        Some(d) => d,
        None => if b > 0 {
            i64::MIN
        } else {
            i64::MAX
        },
    }
}

/// The zero-based offset of a one-based console coordinate from a view's
/// origin, saturating.
pub fn offset_in_view(coordinate: i64, origin: i64) -> (offset: i64)
    ensures
        offset == spec_offset_in_view(coordinate, origin),
{
    saturating_sub_i64(saturating_sub_i64(coordinate, 1), origin)
}

/// The row offset `n` as an index, when it is not negative.
pub fn row_index(n: i64) -> (row: Option<usize>)
    ensures
        row == spec_row_index(n),
{
    if n < 0 {
        None
    } else if n as u64 > usize::MAX as u64 {
        None
    } else {
        Some(n as usize)
    }
}

/// What a scroll bar or scroll view does with a pointer event.
pub fn scroll_pointer(f: &MouseFlags, m: &UiMouse) -> (p: ScrollPointer)
    ensures
        p == spec_scroll_pointer(*f, *m),
{
    if f.scroll_up {
        ScrollPointer::ScrollBy(-1i64)
    } else if f.scroll_down {
        ScrollPointer::ScrollBy(1i64)
    } else if f.down {
        ScrollPointer::Press { x: m.x, y: m.y }
    } else {
        ScrollPointer::Ignore
    }
}

/// What a memo does with a pointer event.
pub fn memo_pointer(f: &MouseFlags, m: &UiMouse) -> (p: MemoPointer)
    ensures
        p == spec_memo_pointer(*f, *m),
{
    if f.scroll_up {
        MemoPointer::ScrollBy(-1i64)
    } else if f.scroll_down {
        MemoPointer::ScrollBy(1i64)
    } else if f.down {
        MemoPointer::Press { x: m.x, y: m.y, column: saturating_sub_i64(m.x, 1), row: saturating_sub_i64(m.y, 1) }
    } else {
        MemoPointer::Ignore
    }
}

/// What a pointer event asks of the hit control.
pub fn route_control_mouse(
    kind: ControlKind,
    enabled: bool,
    f: &MouseFlags,
    m: &UiMouse,
    origin_x: i64,
    origin_y: i64,
) -> (route: ControlMouseRoute)
    ensures
        route == spec_route_control_mouse(kind, enabled, *f, *m, origin_x, origin_y),
{
    match kind {
        ControlKind::Button => if enabled && f.down {
            ControlMouseRoute::CapturePress
        } else {
            ControlMouseRoute::Unhandled
        },
        ControlKind::InputLine => if enabled {
            let offset = offset_in_view(m.x, origin_x);
            let column: usize = if offset < 0 { 0 } else { offset as usize };
            ControlMouseRoute::SetInputCursor { column }
        } else {
            ControlMouseRoute::Unhandled
        },
        ControlKind::CheckBox => ControlMouseRoute::Toggle,
        ControlKind::RadioGroup => if enabled {
            ControlMouseRoute::SelectRadioRow { row: row_index(offset_in_view(m.y, origin_y)) }
        } else {
            ControlMouseRoute::Unhandled
        },
        ControlKind::ListBox => if !enabled {
            ControlMouseRoute::Unhandled
        } else if f.scroll_up {
            ControlMouseRoute::ListScroll(-1i64)
        } else if f.scroll_down {
            ControlMouseRoute::ListScroll(1i64)
        } else {
            ControlMouseRoute::SelectListRow { row: row_index(offset_in_view(m.y, origin_y)) }
        },
        ControlKind::ScrollBar => if enabled {
            ControlMouseRoute::ScrollBar(scroll_pointer(f, m))
        } else {
            ControlMouseRoute::Unhandled
        },
        ControlKind::ScrollView => if enabled {
            ControlMouseRoute::ScrollView(scroll_pointer(f, m))
        } else {
            ControlMouseRoute::Unhandled
        },
        ControlKind::Memo => if enabled {
            ControlMouseRoute::Memo(memo_pointer(f, m))
        } else {
            ControlMouseRoute::Unhandled
        },
        ControlKind::Other => ControlMouseRoute::Unhandled,
    }
}

/// The action once the control has carried out `route`: `accepted` is the
/// control's answer (the toggle happened, the row was selected, the press
/// started a thumb drag); `command` is the command it carries afterwards.
pub open spec fn spec_control_mouse_action(route: ControlMouseRoute, accepted: bool, command: Option<u16>) -> Option<ControlAction> {
    match route {
        ControlMouseRoute::CapturePress => Some(ControlAction::CapturePress),
        ControlMouseRoute::SetInputCursor { .. } => Some(ControlAction::Consumed),
        ControlMouseRoute::Toggle => if accepted {
            Some(spec_command_action(command))
        } else {
            None
        },
        ControlMouseRoute::SelectRadioRow { row } | ControlMouseRoute::SelectListRow { row } => if row is Some
            && accepted {
            Some(spec_command_action(command))
        } else {
            Some(ControlAction::Consumed)
        },
        ControlMouseRoute::ListScroll(_) => Some(ControlAction::Consumed),
        ControlMouseRoute::ScrollBar(p) | ControlMouseRoute::ScrollView(p) => match p {
            ScrollPointer::Press { .. } => if accepted {
                Some(ControlAction::CaptureThumb)
            } else {
                Some(ControlAction::Consumed)
            },
            _ => Some(ControlAction::Consumed),
        },
        ControlMouseRoute::Memo(p) => match p {
            MemoPointer::ScrollBy(_) => Some(ControlAction::Consumed),
            MemoPointer::Press { .. } => if accepted {
                Some(ControlAction::CaptureThumb)
            } else {
                Some(ControlAction::Consumed)
            },
            MemoPointer::Ignore => None,
        },
        ControlMouseRoute::Unhandled => None,
    }
}

/// The action once the control has carried out `route`.
pub fn control_mouse_action(route: ControlMouseRoute, accepted: bool, command: Option<u16>) -> (action: Option<ControlAction>)
    ensures
        action == spec_control_mouse_action(route, accepted, command),
{
    match route {
        ControlMouseRoute::CapturePress => Some(ControlAction::CapturePress),
        ControlMouseRoute::SetInputCursor { .. } => Some(ControlAction::Consumed),
        ControlMouseRoute::Toggle => if accepted {
            Some(command_action(command))
        } else {
            None
        },
        ControlMouseRoute::SelectRadioRow { row } | ControlMouseRoute::SelectListRow { row } => if row.is_some()
            && accepted {
            Some(command_action(command))
        } else {
            Some(ControlAction::Consumed)
        },
        ControlMouseRoute::ListScroll(_) => Some(ControlAction::Consumed),
        ControlMouseRoute::ScrollBar(p) | ControlMouseRoute::ScrollView(p) => match p {
            ScrollPointer::Press { .. } => if accepted {
                Some(ControlAction::CaptureThumb)
            } else {
                Some(ControlAction::Consumed)
            },
            _ => Some(ControlAction::Consumed),
        },
        ControlMouseRoute::Memo(p) => match p {
            MemoPointer::ScrollBy(_) => Some(ControlAction::Consumed),
            MemoPointer::Press { .. } => if accepted {
                Some(ControlAction::CaptureThumb)
            } else {
                Some(ControlAction::Consumed)
            },
            MemoPointer::Ignore => None,
        },
        ControlMouseRoute::Unhandled => None,
    }
}

/// The pointer stays captured after a press that started a thumb drag the
/// control reports as running.
pub open spec fn spec_captures_thumb(action: Option<ControlAction>, thumb_active: bool) -> bool {
    action == Some(ControlAction::CaptureThumb) && thumb_active
}

/// The pointer stays captured after a press that started a thumb drag.
pub fn captures_thumb(action: Option<ControlAction>, thumb_active: bool) -> (b: bool)
    ensures
        b == spec_captures_thumb(action, thumb_active),
{
    match action {
        Some(ControlAction::CaptureThumb) => thumb_active,
        _ => false,
    }
}

} // verus!
