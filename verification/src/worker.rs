//! The VM worker's `Std.Tui` side: its value stack and session state, and
//! the Turbo Vision intrinsics that pop their arguments from that stack.
use vstd::prelude::*;
use crate::controls::{spec_add_child, spec_add_child_effect};
use crate::decode::{
    TUI_APPLICATION_TYPE, TUI_BUTTON_TYPE, TUI_STATIC_TEXT_TYPE, TUI_MEMO_TYPE, TUI_TEXT_VIEWER_TYPE,
    TUI_INPUT_LINE_TYPE, TUI_LIST_BOX_TYPE, TUI_CHECK_BOX_TYPE, TUI_RADIO_BUTTON_TYPE, TUI_DIALOG_TYPE, TvRect,
    decode_turbo_vision_rect, decode_turbo_vision_string, decode_turbo_vision_string_array, spec_decode_rect,
    spec_decode_string, spec_decode_string_array, turbo_vision_handle_record, TurboVisionChildHandle, TurboVisionParentHandle, decode_turbo_vision_child_handle,
    decode_turbo_vision_parent_handle, is_record_of, spec_decode_child_handle, spec_decode_parent_handle,
    CheckedControlHandle, decode_turbo_vision_checked_control_handle, spec_decode_checked_control_handle,
    spec_is_record_of,
};
use crate::error::TuiError;
use crate::store::{
    TurboVisionState, TurboVisionObject, TurboVisionButton, TurboVisionStaticText, TurboVisionMemo,
    TurboVisionTextViewer, TurboVisionInputLine, TurboVisionListBox, TurboVisionCheckBox, TurboVisionRadioButton,
    TurboVisionDialog,
};
use crate::controls::{initial_list_selection, spec_initial_list_selection, spec_utf8_len};
use crate::value::Value;
use crate::test_events::TestConsoleEvent;
use std::collections::HashMap;

verus! {

/// Session-wide `Std.Tui` state of one worker.
#[derive(Debug)]
pub struct TuiState {
    /// The session runs without a terminal (`Application.OpenForTest`).
    pub headless: bool,
    /// `Application.Quit` or a host quit request is pending.
    pub quit_requested: bool,
    /// `Application.Run` is executing its hosted loop.
    pub run_active: bool,
    /// `Application.Close` asked the active hosted run to stop.
    pub host_stop_requested: bool,
    /// The registered `OnCommand` handler.
    pub on_command: Option<Value>,
    /// The registered Turbo Vision `OnKey` handler.
    pub turbo_vision_on_key: Option<Value>,
    /// The registered Turbo Vision `OnMouse` handler.
    pub turbo_vision_on_mouse: Option<Value>,
    /// The handlers of the hosted event loop.
    pub host: HostHandlers,
    /// The retained Turbo Vision objects.
    pub turbo_vision: TurboVisionState,
    /// A headless repaint was requested after an in-place view patch.
    pub headless_repaint_requested: bool,
    /// Live view id of each handle shown on the desktop.
    pub live_view_ids: HashMap<u32, u16>,
    /// For a handle shown inside a desktop window or dialog, the view id of
    /// that root.
    pub live_child_root_view_ids: HashMap<u32, u16>,
}

/// The handlers a program registers for the hosted event loop
/// (`TuiHostRegisterOn*`); `OnCommand` is shared with the Turbo Vision
/// path and kept in [`TuiState::on_command`].
#[derive(Debug)]
pub struct HostHandlers {
    pub on_key_pressed: Option<Value>,
    pub on_resize: Option<Value>,
    pub on_paint: Option<Value>,
    pub on_exit: Option<Value>,
    pub on_mouse: Option<Value>,
    pub on_paste: Option<Value>,
    pub on_focus_gained: Option<Value>,
    pub on_focus_lost: Option<Value>,
    pub on_activate: Option<Value>,
    pub on_deactivate: Option<Value>,
    pub on_idle: Option<Value>,
    /// How often `OnIdle` runs, in milliseconds (never negative).
    pub idle_interval_ms: i64,
}

/// No host handler registered, and no idle interval.
pub open spec fn spec_no_host_handlers(h: HostHandlers) -> bool {
    &&& h.on_key_pressed is None
    &&& h.on_resize is None
    &&& h.on_paint is None
    &&& h.on_exit is None
    &&& h.on_mouse is None
    &&& h.on_paste is None
    &&& h.on_focus_gained is None
    &&& h.on_focus_lost is None
    &&& h.on_activate is None
    &&& h.on_deactivate is None
    &&& h.on_idle is None
    &&& h.idle_interval_ms == 0
}

impl HostHandlers {
    /// No handler registered.
    pub fn new() -> (h: HostHandlers)
        ensures
            spec_no_host_handlers(h),
    {
        HostHandlers {
            on_key_pressed: None,
            on_resize: None,
            on_paint: None,
            on_exit: None,
            on_mouse: None,
            on_paste: None,
            on_focus_gained: None,
            on_focus_lost: None,
            on_activate: None,
            on_deactivate: None,
            on_idle: None,
            idle_interval_ms: 0,
        }
    }
}

/// What the bridge reads of a live Turbo Vision application.
#[derive(Debug, Clone, Copy, PartialEq, Eq, Structural)]
pub struct LiveApp {
    /// The application's event loop is running.
    pub running: bool,
}

/// What the bridge reads of the headless Turbo Vision session: the size of
/// its in-memory terminal.
#[derive(Debug, Clone, Copy, PartialEq, Eq, Structural)]
pub struct HeadlessTvApp {
    pub width: u16,
    pub height: u16,
}

/// The parts of a VM worker that `Std.Tui` intrinsics use.
#[derive(Debug)]
pub struct Worker {
    /// The VM value stack; the top is the last element.
    pub stack: Vec<Value>,
    /// `Std.Tui` session state.
    pub tui: TuiState,
    /// The live Turbo Vision application, while one is open.
    pub live_turbo_vision_app: Option<LiveApp>,
    /// The headless Turbo Vision session, while one exists.
    pub headless_tv_app: Option<HeadlessTvApp>,
    /// Text mirrored into each live `InputLine` view, by handle.
    pub input_line_view_bindings: HashMap<u32, String>,
    /// Declared functions and their arities, for handler validation.
    pub functions: Vec<(String, u8)>,
    /// The task this worker runs (`0` is the main task).
    pub current_task_id: u64,
    /// Console events queued by the headless test intrinsics, oldest first.
    pub test_console_events: Vec<TestConsoleEvent>,
}

/// The value `k` places below the top of `stack`.
pub open spec fn spec_arg(stack: Seq<Value>, k: int) -> Value {
    stack[stack.len() - 1 - k]
}

/// `stack` with its top `k` values popped.
pub open spec fn spec_popped(stack: Seq<Value>, k: int) -> Seq<Value> {
    stack.subrange(0, stack.len() - k)
}

/// Popping `a` values and then `b` more is popping `a + b`; the values
/// below the first `a` keep their depth, shifted by `a`.
pub proof fn lemma_popped_compose(s: Seq<Value>, a: int)
    requires
        0 <= a <= s.len(),
    ensures
        spec_popped(s, 0) == s,
        forall|b: int| 0 <= b <= s.len() - a ==> #[trigger] spec_popped(spec_popped(s, a), b) == spec_popped(s, a + b),
        forall|j: int| 0 <= j < s.len() - a ==> #[trigger] spec_arg(spec_popped(s, a), j) == spec_arg(s, j + a),
{
    assert(spec_popped(s, 0) =~= s);
    assert forall|b: int| 0 <= b <= s.len() - a implies #[trigger] spec_popped(spec_popped(s, a), b) == spec_popped(s, a + b) by {
        assert(spec_popped(spec_popped(s, a), b) =~= spec_popped(s, a + b));
    }
}

/// `a` and `b` differ at most in their stacks.
pub open spec fn spec_same_but_stack(a: Worker, b: Worker) -> bool {
    &&& a.tui == b.tui
    &&& a.live_turbo_vision_app == b.live_turbo_vision_app
    &&& a.headless_tv_app == b.headless_tv_app
    &&& a.input_line_view_bindings == b.input_line_view_bindings
    &&& a.functions == b.functions
    &&& a.current_task_id == b.current_task_id
    &&& a.test_console_events == b.test_console_events
}

/// `b` agrees with `a` in everything but the stack, the Turbo Vision
/// objects and the `InputLine` bindings.
pub open spec fn spec_same_session(a: Worker, b: Worker) -> bool {
    &&& a.live_turbo_vision_app == b.live_turbo_vision_app
    &&& a.headless_tv_app == b.headless_tv_app
    &&& a.functions == b.functions
    &&& a.current_task_id == b.current_task_id
    &&& a.test_console_events == b.test_console_events
    &&& a.tui.headless == b.tui.headless
    &&& a.tui.quit_requested == b.tui.quit_requested
    &&& a.tui.run_active == b.tui.run_active
    &&& a.tui.host_stop_requested == b.tui.host_stop_requested
    &&& a.tui.on_command == b.tui.on_command
    &&& a.tui.turbo_vision_on_key == b.tui.turbo_vision_on_key
    &&& a.tui.turbo_vision_on_mouse == b.tui.turbo_vision_on_mouse
    &&& a.tui.host == b.tui.host
    &&& a.tui.headless_repaint_requested == b.tui.headless_repaint_requested
    &&& a.tui.live_view_ids == b.tui.live_view_ids
    &&& a.tui.live_child_root_view_ids == b.tui.live_child_root_view_ids
}

/// A `Std.Tui.Application` value.
pub open spec fn spec_is_application(v: Value) -> bool {
    spec_is_record_of(v, TUI_APPLICATION_TYPE@)
}

impl Worker {
    /// The worker's Turbo Vision state is well formed.
    pub open spec fn wf(&self) -> bool {
        self.tui.turbo_vision.wf()
    }

    /// Pop the top of the stack.
    pub fn pop(&mut self) -> (r: Result<Value, TuiError>)
        ensures
            spec_same_but_stack(*final(self), *old(self)),
            old(self).stack@.len() == 0 ==> r == Err::<Value, TuiError>(TuiError::StackUnderflow)
                && final(self).stack@ == old(self).stack@,
            old(self).stack@.len() > 0 ==> r == Ok::<Value, TuiError>(spec_arg(old(self).stack@, 0))
                && final(self).stack@ == spec_popped(old(self).stack@, 1),
    {
        match self.stack.pop() {
            Some(v) => Ok(v),
            None => Err(TuiError::StackUnderflow),
        }
    }

    /// Push a value onto the stack.
    pub fn push(&mut self, v: Value)
        ensures
            spec_same_but_stack(*final(self), *old(self)),
            final(self).stack@ == old(self).stack@.push(v),
    {
        self.stack.push(v);
    }

    /// Pop a `Std.Tui.Application` record.
    pub fn pop_tui_application(&mut self) -> (r: Result<(), TuiError>)
        ensures
            spec_same_but_stack(*final(self), *old(self)),
            old(self).stack@.len() == 0 ==> r == Err::<(), TuiError>(TuiError::StackUnderflow)
                && final(self).stack@ == old(self).stack@,
            old(self).stack@.len() > 0 ==> final(self).stack@ == spec_popped(old(self).stack@, 1)
                && r == if spec_is_application(spec_arg(old(self).stack@, 0)) {
                Ok::<(), TuiError>(())
            } else {
                Err(TuiError::WrongRecordType)
            },
    {
        let v = self.pop()?;
        if is_record_of(&v, TUI_APPLICATION_TYPE) {
            Ok(())
        } else {
            Err(TuiError::WrongRecordType)
        }
    }
}

/// Arguments of `AddChild(App, Parent, Child)` and how many values are
/// popped deciding them (the child is on top).
pub open spec fn spec_add_child_args(s: Seq<Value>) -> (Result<(TurboVisionParentHandle, TurboVisionChildHandle), TuiError>, int) {
    if s.len() < 1 {
        (Err(TuiError::StackUnderflow), 0)
    } else {
        match spec_decode_child_handle(spec_arg(s, 0)) {
            Err(e) => (Err(e), 1),
            Ok(c) => if s.len() < 2 {
                (Err(TuiError::StackUnderflow), 1)
            } else {
                match spec_decode_parent_handle(spec_arg(s, 1)) {
                    Err(e) => (Err(e), 2),
                    Ok(p) => if s.len() < 3 {
                        (Err(TuiError::StackUnderflow), 2)
                    } else if !spec_is_application(spec_arg(s, 2)) {
                        (Err(TuiError::WrongRecordType), 3)
                    } else {
                        (Ok((p, c)), 3)
                    },
                }
            },
        }
    }
}

impl Worker {
    /// `Application.AddChild(App, Parent, Child)`.
    pub fn turbo_vision_add_child(&mut self) -> (r: Result<(), TuiError>)
        requires
            old(self).wf(),
        ensures
            final(self).wf(),
            spec_same_session(*final(self), *old(self)),
            final(self).input_line_view_bindings == old(self).input_line_view_bindings,
            final(self).stack@ == spec_popped(old(self).stack@, spec_add_child_args(old(self).stack@).1),
            final(self).tui.turbo_vision.next_handle == old(self).tui.turbo_vision.next_handle,
            final(self).tui.turbo_vision.pending_commands@ == old(self).tui.turbo_vision.pending_commands@,
            match spec_add_child_args(old(self).stack@).0 {
                Err(e) => r == Err::<(), TuiError>(e) && final(self).tui.turbo_vision.spec_objects()
                    == old(self).tui.turbo_vision.spec_objects()
                    && final(self).tui.turbo_vision.pending_reconcile == old(self).tui.turbo_vision.pending_reconcile,
                Ok((p, c)) => r == spec_add_child(old(self).tui.turbo_vision.spec_objects(), p, c)
                    && (r is Ok ==> spec_add_child_effect(
                    old(self).tui.turbo_vision.spec_objects(),
                    final(self).tui.turbo_vision.spec_objects(),
                    p,
                    c,
                ) && final(self).tui.turbo_vision.pending_reconcile)
                    && (r is Err ==> final(self).tui.turbo_vision.spec_objects()
                    == old(self).tui.turbo_vision.spec_objects()
                    && final(self).tui.turbo_vision.pending_reconcile == old(self).tui.turbo_vision.pending_reconcile),
            },
    {
        let child = self.pop_turbo_vision_child_handle()?;
        let parent = self.pop_turbo_vision_parent_handle()?;
        self.pop_tui_application()?;
        self.tui.turbo_vision.add_child(parent, child)
    }
}


// ---------------------------------------------------------------- argument popping

/// An integer argument.
pub open spec fn spec_int(v: Value) -> Result<i64, TuiError> {
    match v {
        Value::Integer(n) => Ok(n),
        _ => Err(TuiError::WrongValueKind),
    }
}

/// A boolean argument.
pub open spec fn spec_bool(v: Value) -> Result<bool, TuiError> {
    match v {
        Value::Boolean(b) => Ok(b),
        _ => Err(TuiError::WrongValueKind),
    }
}

/// An integer argument that must fit `u16` (command, group or key ids).
pub open spec fn spec_u16_arg(v: Value) -> Result<u16, TuiError> {
    match spec_int(v) {
        Ok(n) => if 0 <= n && n <= u16::MAX {
            Ok(n as u16)
        } else {
            Err(TuiError::IdOutOfRange)
        },
        Err(e) => Err(e),
    }
}

/// `Rect` then `Application`, popped from `s` (rect on top), and how many
/// values were popped.
pub open spec fn spec_rect_app_args(s: Seq<Value>) -> (Result<TvRect, TuiError>, int) {
    if s.len() < 1 {
        (Err(TuiError::StackUnderflow), 0)
    } else {
        match spec_decode_rect(spec_arg(s, 0)) {
            Err(e) => (Err(e), 1),
            Ok(r) => if s.len() < 2 {
                (Err(TuiError::StackUnderflow), 1)
            } else if !spec_is_application(spec_arg(s, 1)) {
                (Err(TuiError::WrongRecordType), 2)
            } else {
                (Ok(r), 2)
            },
        }
    }
}

/// A string, then `Rect` and `Application`, popped from `s`.
pub open spec fn spec_text_rect_app_args(s: Seq<Value>) -> (Result<(Seq<char>, TvRect), TuiError>, int) {
    if s.len() < 1 {
        (Err(TuiError::StackUnderflow), 0)
    } else {
        match spec_decode_string(spec_arg(s, 0)) {
            Err(e) => (Err(e), 1),
            Ok(t) => {
                let (r, n) = spec_rect_app_args(spec_popped(s, 1));
                match r {
                    Err(e) => (Err(e), n + 1),
                    Ok(rect) => (Ok((t, rect)), n + 1),
                }
            },
        }
    }
}

/// `new` is `old` plus one freshly allocated object under `old.next_handle`.
pub open spec fn spec_allocated(old: TurboVisionState, new: TurboVisionState, h: u32) -> bool {
    &&& h == old.next_handle
    &&& new.next_handle == if old.next_handle == u32::MAX { u32::MAX } else { (old.next_handle + 1) as u32 }
    &&& new.spec_objects().dom() == old.spec_objects().dom().insert(h)
    &&& forall|k: u32| old.spec_objects().contains_key(k) && k != h ==> #[trigger] new.spec_objects()[k]
        == old.spec_objects()[k]
    &&& new.menu_bar == old.menu_bar
    &&& new.status_line == old.status_line
    &&& new.pending_commands@ == old.pending_commands@
    &&& new.quit_requested == old.quit_requested
    &&& new.test_dialog_result == old.test_dialog_result
}

/// The stack after a creation intrinsic: its arguments popped and, on
/// success, the handle record of type `ty` pushed.
pub open spec fn spec_pushed_handle(before: Seq<Value>, after: Seq<Value>, ty: Seq<char>, h: u32) -> bool {
    &&& after.len() == before.len() + 1
    &&& after.subrange(0, before.len() as int) == before
    &&& spec_is_record_of(after.last(), ty)
    &&& crate::decode::spec_record_fields(after.last()).len() == 1
    &&& crate::decode::spec_record_fields(after.last())[0].0@ == crate::decode::HANDLE_FIELD@
    &&& crate::decode::spec_record_fields(after.last())[0].1 == Value::Integer(h as i64)
}

impl Worker {
    /// Pop an integer argument.
    pub fn pop_int(&mut self) -> (r: Result<i64, TuiError>)
        ensures
            spec_same_but_stack(*final(self), *old(self)),
            old(self).stack@.len() == 0 ==> r == Err::<i64, TuiError>(TuiError::StackUnderflow)
                && final(self).stack@ == old(self).stack@,
            old(self).stack@.len() > 0 ==> final(self).stack@ == spec_popped(old(self).stack@, 1)
                && r == spec_int(spec_arg(old(self).stack@, 0)),
    {
        match self.pop()? {
            Value::Integer(n) => Ok(n),
            _ => Err(TuiError::WrongValueKind),
        }
    }

    /// Pop a boolean argument.
    pub fn pop_bool(&mut self) -> (r: Result<bool, TuiError>)
        ensures
            spec_same_but_stack(*final(self), *old(self)),
            old(self).stack@.len() == 0 ==> r == Err::<bool, TuiError>(TuiError::StackUnderflow)
                && final(self).stack@ == old(self).stack@,
            old(self).stack@.len() > 0 ==> final(self).stack@ == spec_popped(old(self).stack@, 1)
                && r == spec_bool(spec_arg(old(self).stack@, 0)),
    {
        match self.pop()? {
            Value::Boolean(b) => Ok(b),
            _ => Err(TuiError::WrongValueKind),
        }
    }

    /// Pop an id argument that must fit `u16`.
    pub fn pop_u16_id(&mut self) -> (r: Result<u16, TuiError>)
        ensures
            spec_same_but_stack(*final(self), *old(self)),
            old(self).stack@.len() == 0 ==> r == Err::<u16, TuiError>(TuiError::StackUnderflow)
                && final(self).stack@ == old(self).stack@,
            old(self).stack@.len() > 0 ==> final(self).stack@ == spec_popped(old(self).stack@, 1)
                && r == spec_u16_arg(spec_arg(old(self).stack@, 0)),
    {
        let n = self.pop_int()?;
        if 0 <= n && n <= 65535 {
            Ok(n as u16)
        } else {
            Err(TuiError::IdOutOfRange)
        }
    }

    /// Pop a string argument.
    pub fn pop_turbo_vision_string(&mut self) -> (r: Result<String, TuiError>)
        ensures
            spec_same_but_stack(*final(self), *old(self)),
            old(self).stack@.len() == 0 ==> r == Err::<String, TuiError>(TuiError::StackUnderflow)
                && final(self).stack@ == old(self).stack@,
            old(self).stack@.len() > 0 ==> final(self).stack@ == spec_popped(old(self).stack@, 1)
                && match r {
                Ok(t) => spec_decode_string(spec_arg(old(self).stack@, 0)) == Ok::<Seq<char>, TuiError>(t@),
                Err(e) => spec_decode_string(spec_arg(old(self).stack@, 0)) == Err::<Seq<char>, TuiError>(e),
            },
    {
        let v = self.pop()?;
        decode_turbo_vision_string(v)
    }

    /// Pop an array-of-strings argument.
    pub fn pop_turbo_vision_string_array(&mut self) -> (r: Result<Vec<String>, TuiError>)
        ensures
            spec_same_but_stack(*final(self), *old(self)),
            old(self).stack@.len() == 0 ==> r == Err::<Vec<String>, TuiError>(TuiError::StackUnderflow)
                && final(self).stack@ == old(self).stack@,
            old(self).stack@.len() > 0 ==> final(self).stack@ == spec_popped(old(self).stack@, 1)
                && match r {
                Ok(items) => spec_decode_string_array(spec_arg(old(self).stack@, 0))
                    == Ok::<Seq<Seq<char>>, TuiError>(items@.map_values(|s: String| s@)),
                Err(e) => spec_decode_string_array(spec_arg(old(self).stack@, 0)) == Err::<Seq<Seq<char>>, TuiError>(e),
            },
    {
        let v = self.pop()?;
        decode_turbo_vision_string_array(&v)
    }

    /// Pop a `Rect` argument.
    pub fn pop_turbo_vision_rect(&mut self) -> (r: Result<TvRect, TuiError>)
        ensures
            spec_same_but_stack(*final(self), *old(self)),
            old(self).stack@.len() == 0 ==> r == Err::<TvRect, TuiError>(TuiError::StackUnderflow)
                && final(self).stack@ == old(self).stack@,
            old(self).stack@.len() > 0 ==> final(self).stack@ == spec_popped(old(self).stack@, 1)
                && r == spec_decode_rect(spec_arg(old(self).stack@, 0)),
    {
        let v = self.pop()?;
        decode_turbo_vision_rect(&v)
    }

    /// Pop the handle of a control that can sit in a dialog or window.
    pub fn pop_turbo_vision_child_handle(&mut self) -> (r: Result<TurboVisionChildHandle, TuiError>)
        ensures
            spec_same_but_stack(*final(self), *old(self)),
            old(self).stack@.len() == 0 ==> r == Err::<TurboVisionChildHandle, TuiError>(TuiError::StackUnderflow)
                && final(self).stack@ == old(self).stack@,
            old(self).stack@.len() > 0 ==> final(self).stack@ == spec_popped(old(self).stack@, 1)
                && r == spec_decode_child_handle(spec_arg(old(self).stack@, 0)),
    {
        let v = self.pop()?;
        decode_turbo_vision_child_handle(&v)
    }

    /// Pop the handle of a dialog or window.
    pub fn pop_turbo_vision_parent_handle(&mut self) -> (r: Result<TurboVisionParentHandle, TuiError>)
        ensures
            spec_same_but_stack(*final(self), *old(self)),
            old(self).stack@.len() == 0 ==> r == Err::<TurboVisionParentHandle, TuiError>(TuiError::StackUnderflow)
                && final(self).stack@ == old(self).stack@,
            old(self).stack@.len() > 0 ==> final(self).stack@ == spec_popped(old(self).stack@, 1)
                && r == spec_decode_parent_handle(spec_arg(old(self).stack@, 0)),
    {
        let v = self.pop()?;
        decode_turbo_vision_parent_handle(&v)
    }

    /// Pop the handle of a check box or radio button.
    pub fn pop_turbo_vision_checked_control_handle(&mut self) -> (r: Result<CheckedControlHandle, TuiError>)
        ensures
            spec_same_but_stack(*final(self), *old(self)),
            old(self).stack@.len() == 0 ==> r == Err::<CheckedControlHandle, TuiError>(TuiError::StackUnderflow)
                && final(self).stack@ == old(self).stack@,
            old(self).stack@.len() > 0 ==> final(self).stack@ == spec_popped(old(self).stack@, 1)
                && r == spec_decode_checked_control_handle(spec_arg(old(self).stack@, 0)),
    {
        let v = self.pop()?;
        decode_turbo_vision_checked_control_handle(&v)
    }

    /// Pop a `Rect` and then the `Application` below it.
    pub fn pop_rect_app(&mut self) -> (r: Result<TvRect, TuiError>)
        ensures
            spec_same_but_stack(*final(self), *old(self)),
            r == spec_rect_app_args(old(self).stack@).0,
            final(self).stack@ == spec_popped(old(self).stack@, spec_rect_app_args(old(self).stack@).1),
    {
        let rect = self.pop_turbo_vision_rect()?;
        self.pop_tui_application()?;
        Ok(rect)
    }

    /// Pop a string, then a `Rect` and the `Application`.
    pub fn pop_text_rect_app(&mut self) -> (r: Result<(String, TvRect), TuiError>)
        ensures
            spec_same_but_stack(*final(self), *old(self)),
            final(self).stack@ == spec_popped(old(self).stack@, spec_text_rect_app_args(old(self).stack@).1),
            match r {
                Ok((t, rect)) => spec_text_rect_app_args(old(self).stack@).0 == Ok::<(Seq<char>, TvRect), TuiError>((t@, rect)),
                Err(e) => spec_text_rect_app_args(old(self).stack@).0 == Err::<(Seq<char>, TvRect), TuiError>(e),
            },
    {
        let text = self.pop_turbo_vision_string()?;
        let rect = self.pop_rect_app()?;
        Ok((text, rect))
    }

    /// Store `object`, mark the tree dirty when `dirty`, and push the
    /// handle record of type `ty`.
    pub(crate) fn finish_create(&mut self, object: TurboVisionObject, ty: &str, dirty: bool) -> (h: u32)
        requires
            old(self).wf(),
        ensures
            final(self).wf(),
            spec_same_session(*final(self), *old(self)),
            final(self).input_line_view_bindings == old(self).input_line_view_bindings,
            spec_allocated(old(self).tui.turbo_vision, final(self).tui.turbo_vision, h),
            final(self).tui.turbo_vision.spec_objects()[h] == object,
            final(self).tui.turbo_vision.pending_reconcile == (dirty || old(self).tui.turbo_vision.pending_reconcile),
            spec_pushed_handle(old(self).stack@, final(self).stack@, ty@, h),
    {
        let ghost before = self.tui.turbo_vision.spec_objects();
        let h = self.tui.turbo_vision.allocate_turbo_vision_object(object);
        assert(self.tui.turbo_vision.spec_objects().dom() =~= before.dom().insert(h));
        if dirty {
            self.tui.turbo_vision.pending_reconcile = true;
        }
        let ghost s0 = self.stack@;
        self.push(turbo_vision_handle_record(ty, h));
        assert(self.stack@.subrange(0, s0.len() as int) =~= s0);
        h
    }
}


// ---------------------------------------------------------------- control creation

/// The kind of plain-text object a creation intrinsic stores.
#[derive(Debug, Clone, Copy, PartialEq, Eq, Structural)]
pub enum TextObjectKind {
    StaticText,
    Memo,
    TextViewer,
    Dialog,
}

/// `o` is the freshly created object of `kind` with `text` (the title, for
/// a dialog) and `bounds`.
pub open spec fn spec_new_text_object(o: TurboVisionObject, kind: TextObjectKind, text: Seq<char>, bounds: TvRect) -> bool {
    match (kind, o) {
        (TextObjectKind::StaticText, TurboVisionObject::StaticText(t)) => t.text@ == text && t.bounds == bounds && !t.attached,
        (TextObjectKind::Memo, TurboVisionObject::Memo(t)) => t.text@ == text && t.bounds == bounds && !t.attached,
        (TextObjectKind::TextViewer, TurboVisionObject::TextViewer(t)) => t.text@ == text && t.bounds == bounds && !t.attached,
        (TextObjectKind::Dialog, TurboVisionObject::Dialog(d)) => d.title@ == text && d.bounds == bounds && d.children@.len() == 0,
        _ => false,
    }
}

/// The handle record type of each plain-text object kind.
pub open spec fn spec_text_kind_type(kind: TextObjectKind) -> Seq<char> {
    match kind {
        TextObjectKind::StaticText => TUI_STATIC_TEXT_TYPE@,
        TextObjectKind::Memo => TUI_MEMO_TYPE@,
        TextObjectKind::TextViewer => TUI_TEXT_VIEWER_TYPE@,
        TextObjectKind::Dialog => TUI_DIALOG_TYPE@,
    }
}

/// Arguments of `CreateButton(App, Bounds, Text, CommandId)`.
pub open spec fn spec_create_button_args(s: Seq<Value>) -> (Result<(u16, Seq<char>, TvRect), TuiError>, int) {
    if s.len() < 1 {
        (Err(TuiError::StackUnderflow), 0)
    } else {
        match spec_u16_arg(spec_arg(s, 0)) {
            Err(e) => (Err(e), 1),
            Ok(c) => {
                let (r, n) = spec_text_rect_app_args(spec_popped(s, 1));
                match r {
                    Err(e) => (Err(e), n + 1),
                    Ok((t, rect)) => (Ok((c, t, rect)), n + 1),
                }
            },
        }
    }
}

/// Arguments of `CreateInputLine(App, Bounds, Text, MaxLength)`; the text
/// length is checked before the bounds are popped.
pub open spec fn spec_create_input_line_args(s: Seq<Value>) -> (Result<(usize, Seq<char>, TvRect), TuiError>, int) {
    if s.len() < 1 {
        (Err(TuiError::StackUnderflow), 0)
    } else {
        match spec_int(spec_arg(s, 0)) {
            Err(e) => (Err(e), 1),
            Ok(m) => if m < 0 || m > usize::MAX {
                (Err(TuiError::NegativeNumber), 1)
            } else if s.len() < 2 {
                (Err(TuiError::StackUnderflow), 1)
            } else {
                match spec_decode_string(spec_arg(s, 1)) {
                    Err(e) => (Err(e), 2),
                    Ok(t) => if spec_utf8_len(t) > m as usize {
                        (Err(TuiError::TextTooLong), 2)
                    } else {
                        let (r, n) = spec_rect_app_args(spec_popped(s, 2));
                        match r {
                            Err(e) => (Err(e), n + 2),
                            Ok(rect) => (Ok((m as usize, t, rect)), n + 2),
                        }
                    },
                }
            },
        }
    }
}

/// Arguments of `CreateListBox(App, Bounds, Items, CommandId)`.
pub open spec fn spec_create_list_box_args(s: Seq<Value>) -> (Result<(u16, Seq<Seq<char>>, TvRect), TuiError>, int) {
    if s.len() < 1 {
        (Err(TuiError::StackUnderflow), 0)
    } else {
        match spec_u16_arg(spec_arg(s, 0)) {
            Err(e) => (Err(e), 1),
            Ok(c) => if s.len() < 2 {
                (Err(TuiError::StackUnderflow), 1)
            } else {
                match spec_decode_string_array(spec_arg(s, 1)) {
                    Err(e) => (Err(e), 2),
                    Ok(items) => {
                        let (r, n) = spec_rect_app_args(spec_popped(s, 2));
                        match r {
                            Err(e) => (Err(e), n + 2),
                            Ok(rect) => (Ok((c, items, rect)), n + 2),
                        }
                    },
                }
            },
        }
    }
}

/// Arguments of `CreateCheckBox(App, Bounds, Text, Checked)`.
pub open spec fn spec_create_check_box_args(s: Seq<Value>) -> (Result<(bool, Seq<char>, TvRect), TuiError>, int) {
    if s.len() < 1 {
        (Err(TuiError::StackUnderflow), 0)
    } else {
        match spec_bool(spec_arg(s, 0)) {
            Err(e) => (Err(e), 1),
            Ok(b) => {
                let (r, n) = spec_text_rect_app_args(spec_popped(s, 1));
                match r {
                    Err(e) => (Err(e), n + 1),
                    Ok((t, rect)) => (Ok((b, t, rect)), n + 1),
                }
            },
        }
    }
}

/// Arguments of `CreateRadioButton(App, Bounds, Text, GroupId, Selected)`.
pub open spec fn spec_create_radio_button_args(s: Seq<Value>) -> (Result<(bool, u16, Seq<char>, TvRect), TuiError>, int) {
    if s.len() < 1 {
        (Err(TuiError::StackUnderflow), 0)
    } else {
        match spec_bool(spec_arg(s, 0)) {
            Err(e) => (Err(e), 1),
            Ok(b) => if s.len() < 2 {
                (Err(TuiError::StackUnderflow), 1)
            } else {
                match spec_u16_arg(spec_arg(s, 1)) {
                    Err(e) => (Err(e), 2),
                    Ok(g) => {
                        let (r, n) = spec_text_rect_app_args(spec_popped(s, 2));
                        match r {
                            Err(e) => (Err(e), n + 2),
                            Ok((t, rect)) => (Ok((b, g, t, rect)), n + 2),
                        }
                    },
                }
            },
        }
    }
}

impl Worker {
    /// `CreateStaticText`, `CreateMemo`, `CreateTextViewer` (all marking the
    /// tree dirty) and `CreateDialog` (which does not): pop text, bounds and
    /// the application, store the object, push its handle.
    pub fn turbo_vision_create_text_object(&mut self, kind: TextObjectKind) -> (r: Result<(), TuiError>)
        requires
            old(self).wf(),
        ensures
            final(self).wf(),
            spec_same_session(*final(self), *old(self)),
            final(self).input_line_view_bindings == old(self).input_line_view_bindings,
            match spec_text_rect_app_args(old(self).stack@).0 {
                Err(e) => r == Err::<(), TuiError>(e) && final(self).tui == old(self).tui
                    && final(self).stack@ == spec_popped(old(self).stack@, spec_text_rect_app_args(old(self).stack@).1),
                Ok((t, rect)) => r is Ok && {
                    let h = old(self).tui.turbo_vision.next_handle;
                    &&& spec_allocated(old(self).tui.turbo_vision, final(self).tui.turbo_vision, h)
                    &&& spec_new_text_object(final(self).tui.turbo_vision.spec_objects()[h], kind, t, rect)
                    &&& final(self).tui.turbo_vision.pending_reconcile == (kind != TextObjectKind::Dialog
                        || old(self).tui.turbo_vision.pending_reconcile)
                    &&& spec_pushed_handle(
                        spec_popped(old(self).stack@, spec_text_rect_app_args(old(self).stack@).1),
                        final(self).stack@,
                        spec_text_kind_type(kind),
                        h,
                    )
                },
            },
    {
        let (text, bounds) = self.pop_text_rect_app()?;
        let (object, ty) = match kind {
            TextObjectKind::StaticText => (
                TurboVisionObject::StaticText(TurboVisionStaticText { bounds, text, attached: false }),
                TUI_STATIC_TEXT_TYPE,
            ),
            TextObjectKind::Memo => (TurboVisionObject::Memo(TurboVisionMemo { bounds, text, attached: false }), TUI_MEMO_TYPE),
            TextObjectKind::TextViewer => (
                TurboVisionObject::TextViewer(TurboVisionTextViewer { bounds, text, attached: false }),
                TUI_TEXT_VIEWER_TYPE,
            ),
            TextObjectKind::Dialog => (
                TurboVisionObject::Dialog(TurboVisionDialog { bounds, title: text, children: Vec::new() }),
                TUI_DIALOG_TYPE,
            ),
        };
        let dirty = match kind {
            TextObjectKind::Dialog => false,
            _ => true,
        };
        self.finish_create(object, ty, dirty);
        Ok(())
    }

    /// `Application.CreateStaticText(App, Bounds, Text)`.
    pub fn turbo_vision_create_static_text(&mut self) -> (r: Result<(), TuiError>)
        requires
            old(self).wf(),
        ensures
            final(self).wf(),
            spec_same_session(*final(self), *old(self)),
            final(self).input_line_view_bindings == old(self).input_line_view_bindings,
            match spec_text_rect_app_args(old(self).stack@).0 {
                Err(e) => r == Err::<(), TuiError>(e) && final(self).tui == old(self).tui
                    && final(self).stack@ == spec_popped(old(self).stack@, spec_text_rect_app_args(old(self).stack@).1),
                Ok((t, rect)) => r is Ok && {
                    let h = old(self).tui.turbo_vision.next_handle;
                    &&& spec_allocated(old(self).tui.turbo_vision, final(self).tui.turbo_vision, h)
                    &&& spec_new_text_object(final(self).tui.turbo_vision.spec_objects()[h], TextObjectKind::StaticText, t, rect)
                    &&& final(self).tui.turbo_vision.pending_reconcile
                    &&& spec_pushed_handle(
                        spec_popped(old(self).stack@, spec_text_rect_app_args(old(self).stack@).1),
                        final(self).stack@,
                        TUI_STATIC_TEXT_TYPE@,
                        h,
                    )
                },
            },
    {
        self.turbo_vision_create_text_object(TextObjectKind::StaticText)
    }

    /// `Application.CreateButton(App, Bounds, Text, CommandId)`.
    pub fn turbo_vision_create_button(&mut self) -> (r: Result<(), TuiError>)
        requires
            old(self).wf(),
        ensures
            final(self).wf(),
            spec_same_session(*final(self), *old(self)),
            final(self).input_line_view_bindings == old(self).input_line_view_bindings,
            match spec_create_button_args(old(self).stack@).0 {
                Err(e) => r == Err::<(), TuiError>(e) && final(self).tui == old(self).tui
                    && final(self).stack@ == spec_popped(old(self).stack@, spec_create_button_args(old(self).stack@).1),
                Ok((c, t, rect)) => r is Ok && {
                    let h = old(self).tui.turbo_vision.next_handle;
                    &&& spec_allocated(old(self).tui.turbo_vision, final(self).tui.turbo_vision, h)
                    &&& final(self).tui.turbo_vision.spec_objects()[h] is Button
                    &&& final(self).tui.turbo_vision.spec_objects()[h]->Button_0.text@ == t
                    &&& final(self).tui.turbo_vision.spec_objects()[h]->Button_0.bounds == rect
                    &&& final(self).tui.turbo_vision.spec_objects()[h]->Button_0.command_id == c
                    &&& !final(self).tui.turbo_vision.spec_objects()[h]->Button_0.attached
                    &&& final(self).tui.turbo_vision.pending_reconcile
                    &&& spec_pushed_handle(
                        spec_popped(old(self).stack@, spec_create_button_args(old(self).stack@).1),
                        final(self).stack@,
                        TUI_BUTTON_TYPE@,
                        h,
                    )
                },
            },
    {
        proof {
            lemma_popped_compose(self.stack@, 0);
            if self.stack@.len() >= 1 {
                lemma_popped_compose(self.stack@, 1);
            }
            if self.stack@.len() >= 2 {
                lemma_popped_compose(self.stack@, 2);
            }
        }
        let command_id = self.pop_u16_id()?;
        let (text, bounds) = self.pop_text_rect_app()?;
        self.finish_create(
            TurboVisionObject::Button(TurboVisionButton { bounds, text, command_id, attached: false }),
            TUI_BUTTON_TYPE,
            true,
        );
        Ok(())
    }

    /// `Application.CreateInputLine(App, Bounds, Text, MaxLength)`.
    pub fn turbo_vision_create_input_line(&mut self) -> (r: Result<(), TuiError>)
        requires
            old(self).wf(),
        ensures
            final(self).wf(),
            spec_same_session(*final(self), *old(self)),
            final(self).input_line_view_bindings == old(self).input_line_view_bindings,
            match spec_create_input_line_args(old(self).stack@).0 {
                Err(e) => r == Err::<(), TuiError>(e) && final(self).tui == old(self).tui
                    && final(self).stack@ == spec_popped(old(self).stack@, spec_create_input_line_args(old(self).stack@).1),
                Ok((m, t, rect)) => r is Ok && {
                    let h = old(self).tui.turbo_vision.next_handle;
                    &&& spec_allocated(old(self).tui.turbo_vision, final(self).tui.turbo_vision, h)
                    &&& final(self).tui.turbo_vision.spec_objects()[h] is InputLine
                    &&& final(self).tui.turbo_vision.spec_objects()[h]->InputLine_0.text@ == t
                    &&& final(self).tui.turbo_vision.spec_objects()[h]->InputLine_0.bounds == rect
                    &&& final(self).tui.turbo_vision.spec_objects()[h]->InputLine_0.max_length == m
                    &&& !final(self).tui.turbo_vision.spec_objects()[h]->InputLine_0.attached
                    &&& final(self).tui.turbo_vision.pending_reconcile
                    &&& spec_pushed_handle(
                        spec_popped(old(self).stack@, spec_create_input_line_args(old(self).stack@).1),
                        final(self).stack@,
                        TUI_INPUT_LINE_TYPE@,
                        h,
                    )
                },
            },
    {
        proof {
            lemma_popped_compose(self.stack@, 0);
            if self.stack@.len() >= 1 {
                lemma_popped_compose(self.stack@, 1);
            }
            if self.stack@.len() >= 2 {
                lemma_popped_compose(self.stack@, 2);
            }
        }
        let max_length = self.pop_int()?;
        if max_length < 0 || max_length as i128 > usize::MAX as i128 {
            return Err(TuiError::NegativeNumber);
        }
        let max_length = max_length as usize;
        let text = self.pop_turbo_vision_string()?;
        if text.as_str().len() > max_length {
            return Err(TuiError::TextTooLong);
        }
        let bounds = self.pop_rect_app()?;
        self.finish_create(
            TurboVisionObject::InputLine(TurboVisionInputLine { bounds, max_length, text, attached: false }),
            TUI_INPUT_LINE_TYPE,
            true,
        );
        Ok(())
    }

    /// `Application.CreateListBox(App, Bounds, Items, CommandId)`.
    pub fn turbo_vision_create_list_box(&mut self) -> (r: Result<(), TuiError>)
        requires
            old(self).wf(),
        ensures
            final(self).wf(),
            spec_same_session(*final(self), *old(self)),
            final(self).input_line_view_bindings == old(self).input_line_view_bindings,
            match spec_create_list_box_args(old(self).stack@).0 {
                Err(e) => r == Err::<(), TuiError>(e) && final(self).tui == old(self).tui
                    && final(self).stack@ == spec_popped(old(self).stack@, spec_create_list_box_args(old(self).stack@).1),
                Ok((c, items, rect)) => r is Ok && {
                    let h = old(self).tui.turbo_vision.next_handle;
                    &&& spec_allocated(old(self).tui.turbo_vision, final(self).tui.turbo_vision, h)
                    &&& final(self).tui.turbo_vision.spec_objects()[h] is ListBox
                    &&& final(self).tui.turbo_vision.spec_objects()[h]->ListBox_0.items@.map_values(|s: String| s@) == items
                    &&& final(self).tui.turbo_vision.spec_objects()[h]->ListBox_0.selection == spec_initial_list_selection(items.len())
                    &&& final(self).tui.turbo_vision.spec_objects()[h]->ListBox_0.bounds == rect
                    &&& final(self).tui.turbo_vision.spec_objects()[h]->ListBox_0.command_id == c
                    &&& !final(self).tui.turbo_vision.spec_objects()[h]->ListBox_0.attached
                    &&& final(self).tui.turbo_vision.pending_reconcile
                    &&& spec_pushed_handle(
                        spec_popped(old(self).stack@, spec_create_list_box_args(old(self).stack@).1),
                        final(self).stack@,
                        TUI_LIST_BOX_TYPE@,
                        h,
                    )
                },
            },
    {
        proof {
            lemma_popped_compose(self.stack@, 0);
            if self.stack@.len() >= 1 {
                lemma_popped_compose(self.stack@, 1);
            }
            if self.stack@.len() >= 2 {
                lemma_popped_compose(self.stack@, 2);
            }
        }
        let command_id = self.pop_u16_id()?;
        let items = self.pop_turbo_vision_string_array()?;
        let bounds = self.pop_rect_app()?;
        let selection = initial_list_selection(&items);
        self.finish_create(
            TurboVisionObject::ListBox(TurboVisionListBox { bounds, items, selection, command_id, attached: false }),
            TUI_LIST_BOX_TYPE,
            true,
        );
        Ok(())
    }

    /// `Application.CreateCheckBox(App, Bounds, Text, Checked)`.
    pub fn turbo_vision_create_check_box(&mut self) -> (r: Result<(), TuiError>)
        requires
            old(self).wf(),
        ensures
            final(self).wf(),
            spec_same_session(*final(self), *old(self)),
            final(self).input_line_view_bindings == old(self).input_line_view_bindings,
            match spec_create_check_box_args(old(self).stack@).0 {
                Err(e) => r == Err::<(), TuiError>(e) && final(self).tui == old(self).tui
                    && final(self).stack@ == spec_popped(old(self).stack@, spec_create_check_box_args(old(self).stack@).1),
                Ok((b, t, rect)) => r is Ok && {
                    let h = old(self).tui.turbo_vision.next_handle;
                    &&& spec_allocated(old(self).tui.turbo_vision, final(self).tui.turbo_vision, h)
                    &&& final(self).tui.turbo_vision.spec_objects()[h] is CheckBox
                    &&& final(self).tui.turbo_vision.spec_objects()[h]->CheckBox_0.text@ == t
                    &&& final(self).tui.turbo_vision.spec_objects()[h]->CheckBox_0.bounds == rect
                    &&& final(self).tui.turbo_vision.spec_objects()[h]->CheckBox_0.checked == b
                    &&& !final(self).tui.turbo_vision.spec_objects()[h]->CheckBox_0.attached
                    &&& final(self).tui.turbo_vision.pending_reconcile
                    &&& spec_pushed_handle(
                        spec_popped(old(self).stack@, spec_create_check_box_args(old(self).stack@).1),
                        final(self).stack@,
                        TUI_CHECK_BOX_TYPE@,
                        h,
                    )
                },
            },
    {
        proof {
            lemma_popped_compose(self.stack@, 0);
            if self.stack@.len() >= 1 {
                lemma_popped_compose(self.stack@, 1);
            }
            if self.stack@.len() >= 2 {
                lemma_popped_compose(self.stack@, 2);
            }
        }
        let checked = self.pop_bool()?;
        let (text, bounds) = self.pop_text_rect_app()?;
        self.finish_create(
            TurboVisionObject::CheckBox(TurboVisionCheckBox { bounds, text, checked, attached: false }),
            TUI_CHECK_BOX_TYPE,
            true,
        );
        Ok(())
    }

    /// `Application.CreateRadioButton(App, Bounds, Text, GroupId, Selected)`.
    pub fn turbo_vision_create_radio_button(&mut self) -> (r: Result<(), TuiError>)
        requires
            old(self).wf(),
        ensures
            final(self).wf(),
            spec_same_session(*final(self), *old(self)),
            final(self).input_line_view_bindings == old(self).input_line_view_bindings,
            match spec_create_radio_button_args(old(self).stack@).0 {
                Err(e) => r == Err::<(), TuiError>(e) && final(self).tui == old(self).tui
                    && final(self).stack@ == spec_popped(old(self).stack@, spec_create_radio_button_args(old(self).stack@).1),
                Ok((b, g, t, rect)) => r is Ok && {
                    let h = old(self).tui.turbo_vision.next_handle;
                    &&& spec_allocated(old(self).tui.turbo_vision, final(self).tui.turbo_vision, h)
                    &&& final(self).tui.turbo_vision.spec_objects()[h] is RadioButton
                    &&& final(self).tui.turbo_vision.spec_objects()[h]->RadioButton_0.text@ == t
                    &&& final(self).tui.turbo_vision.spec_objects()[h]->RadioButton_0.bounds == rect
                    &&& final(self).tui.turbo_vision.spec_objects()[h]->RadioButton_0.group_id == g
                    &&& final(self).tui.turbo_vision.spec_objects()[h]->RadioButton_0.selected == b
                    &&& !final(self).tui.turbo_vision.spec_objects()[h]->RadioButton_0.attached
                    &&& final(self).tui.turbo_vision.pending_reconcile
                    &&& spec_pushed_handle(
                        spec_popped(old(self).stack@, spec_create_radio_button_args(old(self).stack@).1),
                        final(self).stack@,
                        TUI_RADIO_BUTTON_TYPE@,
                        h,
                    )
                },
            },
    {
        proof {
            lemma_popped_compose(self.stack@, 0);
            if self.stack@.len() >= 1 {
                lemma_popped_compose(self.stack@, 1);
            }
            if self.stack@.len() >= 2 {
                lemma_popped_compose(self.stack@, 2);
            }
        }
        let selected = self.pop_bool()?;
        let group_id = self.pop_u16_id()?;
        let (text, bounds) = self.pop_text_rect_app()?;
        self.finish_create(
            TurboVisionObject::RadioButton(TurboVisionRadioButton { bounds, text, group_id, selected, attached: false }),
            TUI_RADIO_BUTTON_TYPE,
            true,
        );
        Ok(())
    }
}

} // verus!
