//! The `Std.Tui` Turbo Vision intrinsics that change or read existing
//! objects: they pop their arguments from the VM stack, act on the object
//! store and push their results.
use vstd::prelude::*;
use crate::controls::{
    spec_agree_except, spec_same_bookkeeping, spec_set_checked, spec_set_checked_effect, spec_set_text,
    spec_text_replaced, spec_initial_list_selection, spec_list_refilled,
};
use crate::decode::{
    CheckedControlHandle, TurboVisionChildHandle, TUI_LIST_BOX_TYPE, TUI_MENU_BAR_TYPE, TUI_STATUS_LINE_TYPE,
    TUI_BUTTON_TYPE, TUI_DIALOG_TYPE, TUI_DIALOG_RESULT_TYPE, TUI_INPUT_LINE_TYPE, TUI_CHECK_BOX_TYPE,
    TUI_RADIO_BUTTON_TYPE, TUI_OUTLINE_TYPE, spec_is_record_of, spec_record_fields, spec_required_record_field,
    decode_turbo_vision_handle,
    spec_decode_checked_control_handle, spec_decode_child_handle,
    spec_decode_handle, spec_decode_string, spec_decode_string_array,
};
use crate::error::TuiError;
use crate::live_patch::LiveDataMutation;
use crate::store::{TurboVisionObject, TurboVisionState};
use crate::commands::{spec_set_chrome, spec_chrome_marked, spec_menu_command, spec_button_command};
use crate::readback::spec_outline_selected_text;
use crate::value::{Field, Value};
use crate::worker::{spec_arg, spec_bool, spec_int, spec_is_application, spec_popped, spec_same_but_stack, spec_same_session, lemma_popped_compose, TuiState, Worker};
use crate::value::str_eq;

verus! {

broadcast use vstd::std_specs::hash::group_hash_axioms;

/// A handle record of type `ty` on top of `s`, the `Application` below it,
/// and how many values are popped deciding them.
pub open spec fn spec_handle_app_args(s: Seq<Value>, ty: Seq<char>) -> (Result<u32, TuiError>, int) {
    if s.len() < 1 {
        (Err(TuiError::StackUnderflow), 0)
    } else {
        match spec_decode_handle(spec_arg(s, 0), ty) {
            Err(e) => (Err(e), 1),
            Ok(h) => if s.len() < 2 {
                (Err(TuiError::StackUnderflow), 1)
            } else if !spec_is_application(spec_arg(s, 1)) {
                (Err(TuiError::WrongRecordType), 2)
            } else {
                (Ok(h), 2)
            },
        }
    }
}

/// Arguments of `SetText(App, Control, Text)`.
pub open spec fn spec_set_text_args(s: Seq<Value>) -> (Result<(Seq<char>, TurboVisionChildHandle), TuiError>, int) {
    if s.len() < 1 {
        (Err(TuiError::StackUnderflow), 0)
    } else {
        match spec_decode_string(spec_arg(s, 0)) {
            Err(e) => (Err(e), 1),
            Ok(t) => if s.len() < 2 {
                (Err(TuiError::StackUnderflow), 1)
            } else {
                match spec_decode_child_handle(spec_arg(s, 1)) {
                    Err(e) => (Err(e), 2),
                    Ok(c) => if s.len() < 3 {
                        (Err(TuiError::StackUnderflow), 2)
                    } else if !spec_is_application(spec_arg(s, 2)) {
                        (Err(TuiError::WrongRecordType), 3)
                    } else {
                        (Ok((t, c)), 3)
                    },
                }
            },
        }
    }
}

/// Arguments of `SetChecked(App, Control, Checked)`.
pub open spec fn spec_set_checked_args(s: Seq<Value>) -> (Result<(bool, CheckedControlHandle), TuiError>, int) {
    if s.len() < 1 {
        (Err(TuiError::StackUnderflow), 0)
    } else {
        match spec_bool(spec_arg(s, 0)) {
            Err(e) => (Err(e), 1),
            Ok(b) => if s.len() < 2 {
                (Err(TuiError::StackUnderflow), 1)
            } else {
                match spec_decode_checked_control_handle(spec_arg(s, 1)) {
                    Err(e) => (Err(e), 2),
                    Ok(c) => if s.len() < 3 {
                        (Err(TuiError::StackUnderflow), 2)
                    } else if !spec_is_application(spec_arg(s, 2)) {
                        (Err(TuiError::WrongRecordType), 3)
                    } else {
                        (Ok((b, c)), 3)
                    },
                }
            },
        }
    }
}

/// Arguments of `SetItems(App, ListBox, Items)`.
pub open spec fn spec_set_items_args(s: Seq<Value>) -> (Result<(Seq<Seq<char>>, u32), TuiError>, int) {
    if s.len() < 1 {
        (Err(TuiError::StackUnderflow), 0)
    } else {
        match spec_decode_string_array(spec_arg(s, 0)) {
            Err(e) => (Err(e), 1),
            Ok(items) => {
                let (r, n) = spec_handle_app_args(spec_popped(s, 1), TUI_LIST_BOX_TYPE@);
                match r {
                    Err(e) => (Err(e), n + 1),
                    Ok(h) => (Ok((items, h)), n + 1),
                }
            },
        }
    }
}

/// The child-control handle of a checked control.
pub open spec fn spec_checked_handle(c: CheckedControlHandle) -> u32 {
    match c {
        CheckedControlHandle::CheckBox(h) => h,
        CheckedControlHandle::RadioButton(h) => h,
    }
}

impl Worker {
    /// Pop a handle record of type `ty`.
    pub fn pop_turbo_vision_handle(&mut self, ty: &str) -> (r: Result<u32, TuiError>)
        ensures
            spec_same_but_stack(*final(self), *old(self)),
            old(self).stack@.len() == 0 ==> r == Err::<u32, TuiError>(TuiError::StackUnderflow)
                && final(self).stack@ == old(self).stack@,
            old(self).stack@.len() > 0 ==> final(self).stack@ == spec_popped(old(self).stack@, 1)
                && r == spec_decode_handle(spec_arg(old(self).stack@, 0), ty@),
    {
        let v = self.pop()?;
        decode_turbo_vision_handle(&v, ty)
    }

    /// Pop a handle record of type `ty` and then the `Application`.
    pub fn pop_handle_app(&mut self, ty: &str) -> (r: Result<u32, TuiError>)
        ensures
            spec_same_but_stack(*final(self), *old(self)),
            r == spec_handle_app_args(old(self).stack@, ty@).0,
            final(self).stack@ == spec_popped(old(self).stack@, spec_handle_app_args(old(self).stack@, ty@).1),
    {
        proof {
            lemma_popped_compose(self.stack@, 0);
            if self.stack@.len() >= 1 {
                lemma_popped_compose(self.stack@, 1);
            }
        }
        let h = self.pop_turbo_vision_handle(ty)?;
        self.pop_tui_application()?;
        Ok(h)
    }

    /// `Application.SetText(App, Control, Text)`: replace the text of a
    /// button, static text, memo, text viewer, input line, check box or
    /// radio button. For an input line the text also goes to its live
    /// binding. Returns the mutation to mirror into the shown views.
    pub fn turbo_vision_set_text(&mut self) -> (r: Result<LiveDataMutation, TuiError>)
        requires
            old(self).wf(),
        ensures
            final(self).wf(),
            spec_same_session(*final(self), *old(self)),
            final(self).stack@ == spec_popped(old(self).stack@, spec_set_text_args(old(self).stack@).1),
            spec_same_bookkeeping(final(self).tui.turbo_vision, old(self).tui.turbo_vision),
            final(self).tui.turbo_vision.pending_reconcile == old(self).tui.turbo_vision.pending_reconcile,
            match spec_set_text_args(old(self).stack@).0 {
                Err(e) => r matches Err(e2) && e2 == e && final(self).tui == old(self).tui
                    && final(self).input_line_view_bindings == old(self).input_line_view_bindings,
                Ok((t, c)) => {
                    let h = c.spec_handle();
                    let m = old(self).tui.turbo_vision.spec_objects();
                    match spec_set_text(m, h, t) {
                        Err(e) => r matches Err(e2) && e2 == e && final(self).tui == old(self).tui
                            && final(self).input_line_view_bindings == old(self).input_line_view_bindings,
                        Ok(_) => {
                            &&& r matches Ok(LiveDataMutation::SetText { handle }) && handle == h
                            &&& spec_agree_except(m, final(self).tui.turbo_vision.spec_objects(), h, h)
                            &&& spec_text_replaced(m[h], final(self).tui.turbo_vision.spec_objects()[h], t)
                            &&& (m[h] is InputLine && old(self).input_line_view_bindings@.contains_key(h))
                                ==> final(self).input_line_view_bindings@ == old(self).input_line_view_bindings@.insert(
                                h,
                                final(self).input_line_view_bindings@[h],
                            ) && final(self).input_line_view_bindings@[h]@ == t
                            &&& !(m[h] is InputLine && old(self).input_line_view_bindings@.contains_key(h))
                                ==> final(self).input_line_view_bindings@ == old(self).input_line_view_bindings@
                        },
                    }
                },
            },
    {
        proof {
            lemma_popped_compose(self.stack@, 0);
            if self.stack@.len() >= 1 {
                lemma_popped_compose(self.stack@, 1);
            }
            if self.stack@.len() >= 2 {
                lemma_popped_compose(self.stack@, 2);
            }
        }
        let text = self.pop_turbo_vision_string()?;
        let control = self.pop_turbo_vision_child_handle()?;
        self.pop_tui_application()?;
        let handle = control.handle();
        let is_input_line = match self.tui.turbo_vision.object(handle) {
            Some(TurboVisionObject::InputLine(_)) => true,
            _ => false,
        };
        self.tui.turbo_vision.set_text(handle, text.clone())?;
        if is_input_line {
            self.turbo_vision_sync_input_line_view_binding(handle, text.as_str());
        }
        Ok(LiveDataMutation::SetText { handle })
    }

    /// `Application.SetChecked(App, Control, Checked)`: set a check box, or
    /// select / deselect a radio button (selecting clears the rest of its
    /// group). Returns the mutation to mirror into the shown views.
    pub fn turbo_vision_set_checked(&mut self) -> (r: Result<LiveDataMutation, TuiError>)
        requires
            old(self).wf(),
        ensures
            final(self).wf(),
            spec_same_session(*final(self), *old(self)),
            final(self).input_line_view_bindings == old(self).input_line_view_bindings,
            final(self).stack@ == spec_popped(old(self).stack@, spec_set_checked_args(old(self).stack@).1),
            spec_same_bookkeeping(final(self).tui.turbo_vision, old(self).tui.turbo_vision),
            final(self).tui.turbo_vision.pending_reconcile == old(self).tui.turbo_vision.pending_reconcile,
            match spec_set_checked_args(old(self).stack@).0 {
                Err(e) => r matches Err(e2) && e2 == e && final(self).tui == old(self).tui,
                Ok((b, c)) => {
                    let m = old(self).tui.turbo_vision.spec_objects();
                    match spec_set_checked(m, c) {
                        Err(e) => r matches Err(e2) && e2 == e && final(self).tui == old(self).tui,
                        Ok(_) => r matches Ok(LiveDataMutation::SetChecked { handle }) && handle == spec_checked_handle(c)
                            && spec_set_checked_effect(m, final(self).tui.turbo_vision.spec_objects(), c, b),
                    }
                },
            },
    {
        proof {
            lemma_popped_compose(self.stack@, 0);
            if self.stack@.len() >= 1 {
                lemma_popped_compose(self.stack@, 1);
            }
            if self.stack@.len() >= 2 {
                lemma_popped_compose(self.stack@, 2);
            }
        }
        let v = self.pop()?;
        let checked = match v {
            Value::Boolean(b) => b,
            _ => {
                return Err(TuiError::WrongValueKind);
            },
        };
        let control = self.pop_turbo_vision_checked_control_handle()?;
        self.pop_tui_application()?;
        self.tui.turbo_vision.set_checked(control, checked)?;
        let handle = match control {
            CheckedControlHandle::CheckBox(h) => h,
            CheckedControlHandle::RadioButton(h) => h,
        };
        Ok(LiveDataMutation::SetChecked { handle })
    }

    /// `Application.SetItems(App, ListBox, Items)`: replace the items of a
    /// list box and select the first one (none when empty). Returns the
    /// mutation to mirror into the shown views.
    pub fn turbo_vision_set_items(&mut self) -> (r: Result<LiveDataMutation, TuiError>)
        requires
            old(self).wf(),
        ensures
            final(self).wf(),
            spec_same_session(*final(self), *old(self)),
            final(self).input_line_view_bindings == old(self).input_line_view_bindings,
            final(self).stack@ == spec_popped(old(self).stack@, spec_set_items_args(old(self).stack@).1),
            spec_same_bookkeeping(final(self).tui.turbo_vision, old(self).tui.turbo_vision),
            final(self).tui.turbo_vision.pending_reconcile == old(self).tui.turbo_vision.pending_reconcile,
            match spec_set_items_args(old(self).stack@).0 {
                Err(e) => r matches Err(e2) && e2 == e && final(self).tui == old(self).tui,
                Ok((items, h)) => {
                    let m = old(self).tui.turbo_vision.spec_objects();
                    if m.contains_key(h) && m[h] is ListBox {
                        r matches Ok(LiveDataMutation::SetListItems { handle, items: its, selection })
                            && handle == h && crate::outline::spec_views(its@) == items
                            && selection == spec_initial_list_selection(items.len())
                            && spec_agree_except(m, final(self).tui.turbo_vision.spec_objects(), h, h)
                            && spec_list_refilled(m[h], final(self).tui.turbo_vision.spec_objects()[h], items, selection)
                    } else {
                        r matches Err(e2) && e2 == TuiError::UnknownHandle { handle: h } && final(self).tui
                            == old(self).tui
                    }
                },
            },
    {
        proof {
            lemma_popped_compose(self.stack@, 0);
            if self.stack@.len() >= 1 {
                lemma_popped_compose(self.stack@, 1);
            }
        }
        let items = self.pop_turbo_vision_string_array()?;
        let handle = self.pop_handle_app(TUI_LIST_BOX_TYPE)?;
        let copy = crate::live_patch::clone_strings(&items);
        let selection = self.tui.turbo_vision.set_items(handle, items)?;
        Ok(LiveDataMutation::SetListItems { handle, items: copy, selection })
    }
}


// ---------------------------------------------------------------- chrome and commands

/// How an `ExecDialog` call continues.
#[derive(Debug, Clone, Copy, PartialEq, Eq, Structural)]
pub enum DialogRun {
    /// Headless: the queued test result closed the dialog at once; its
    /// `DialogResult` has been pushed.
    Finished { command: i64 },
    /// The dialog must run modally in the live session.
    RunLive { dialog: u32 },
}

/// Which `Application` handler a registration sets.
#[derive(Debug, Clone, Copy, PartialEq, Eq, Structural)]
pub enum HandlerSlot {
    OnCommand,
    OnKey,
    OnMouse,
}

/// Arguments of an intrinsic that pops only the `Application`.
pub open spec fn spec_app_args(s: Seq<Value>) -> (Result<(), TuiError>, int) {
    if s.len() < 1 {
        (Err(TuiError::StackUnderflow), 0)
    } else if !spec_is_application(spec_arg(s, 0)) {
        (Err(TuiError::WrongRecordType), 1)
    } else {
        (Ok(()), 1)
    }
}

/// Arguments of a handler registration `(App, Handler)`: the handler value
/// on top, the `Application` below it.
pub open spec fn spec_handler_args(s: Seq<Value>) -> (Result<Value, TuiError>, int) {
    if s.len() < 1 {
        (Err(TuiError::StackUnderflow), 0)
    } else if s.len() < 2 {
        (Err(TuiError::StackUnderflow), 1)
    } else if !spec_is_application(spec_arg(s, 1)) {
        (Err(TuiError::WrongRecordType), 2)
    } else {
        (Ok(spec_arg(s, 0)), 2)
    }
}

/// A non-negative index argument.
pub open spec fn spec_index_arg(v: Value) -> Result<usize, TuiError> {
    match spec_int(v) {
        Ok(n) => if 0 <= n && n <= usize::MAX {
            Ok(n as usize)
        } else {
            Err(TuiError::NegativeNumber)
        },
        Err(e) => Err(e),
    }
}

/// Arguments of `TestDispatchMenuCommand(App, MenuBar, MenuIndex, ItemIndex)`.
pub open spec fn spec_menu_dispatch_args(s: Seq<Value>) -> (Result<(u32, usize, usize), TuiError>, int) {
    if s.len() < 1 {
        (Err(TuiError::StackUnderflow), 0)
    } else {
        match spec_index_arg(spec_arg(s, 0)) {
            Err(e) => (Err(e), 1),
            Ok(item) => if s.len() < 2 {
                (Err(TuiError::StackUnderflow), 1)
            } else {
                match spec_index_arg(spec_arg(s, 1)) {
                    Err(e) => (Err(e), 2),
                    Ok(menu) => {
                        let (r, n) = spec_handle_app_args(spec_popped(s, 2), TUI_MENU_BAR_TYPE@);
                        match r {
                            Err(e) => (Err(e), n + 2),
                            Ok(h) => (Ok((h, menu, item)), n + 2),
                        }
                    },
                }
            },
        }
    }
}

/// Arguments of an intrinsic taking one integer after the `Application`.
pub open spec fn spec_int_app_args(s: Seq<Value>) -> (Result<i64, TuiError>, int) {
    if s.len() < 1 {
        (Err(TuiError::StackUnderflow), 0)
    } else {
        match spec_int(spec_arg(s, 0)) {
            Err(e) => (Err(e), 1),
            Ok(n) => if s.len() < 2 {
                (Err(TuiError::StackUnderflow), 1)
            } else if !spec_is_application(spec_arg(s, 1)) {
                (Err(TuiError::WrongRecordType), 2)
            } else {
                (Ok(n), 2)
            },
        }
    }
}

/// The arity declared for the function `name`, if it is declared (the
/// first declaration wins).
pub open spec fn spec_function_arity(functions: Seq<(String, u8)>, name: Seq<char>) -> Option<u8>
    decreases functions.len(),
{
    if functions.len() == 0 {
        None
    } else if functions[0].0@ == name {
        Some(functions[0].1)
    } else {
        spec_function_arity(functions.drop_first(), name)
    }
}

/// Whether `func` may serve as a handler of `arity` parameters.
pub open spec fn spec_validate_handler(functions: Seq<(String, u8)>, func: Value, arity: u8) -> Result<(), TuiError> {
    match func {
        Value::Function { name } => match spec_function_arity(functions, name@) {
            None => Err(TuiError::UndefinedFunction),
            Some(found) => if found != arity {
                Err(TuiError::WrongArity { expected: arity, found })
            } else {
                Ok(())
            },
        },
        _ => Err(TuiError::NotAFunction),
    }
}

/// The handler stored in `slot`.
pub open spec fn spec_handler(tui: TuiState, slot: HandlerSlot) -> Option<Value> {
    match slot {
        HandlerSlot::OnCommand => tui.on_command,
        HandlerSlot::OnKey => tui.turbo_vision_on_key,
        HandlerSlot::OnMouse => tui.turbo_vision_on_mouse,
    }
}

/// `b` equals `a` except for the handler in `slot`.
pub open spec fn spec_handlers_agree_except(a: TuiState, b: TuiState, slot: HandlerSlot) -> bool {
    &&& (slot != HandlerSlot::OnCommand ==> b.on_command == a.on_command)
    &&& (slot != HandlerSlot::OnKey ==> b.turbo_vision_on_key == a.turbo_vision_on_key)
    &&& (slot != HandlerSlot::OnMouse ==> b.turbo_vision_on_mouse == a.turbo_vision_on_mouse)
    &&& b.host == a.host
    &&& b.headless == a.headless
    &&& b.quit_requested == a.quit_requested
    &&& b.run_active == a.run_active
    &&& b.host_stop_requested == a.host_stop_requested
    &&& b.turbo_vision == a.turbo_vision
    &&& b.headless_repaint_requested == a.headless_repaint_requested
    &&& b.live_view_ids == a.live_view_ids
    &&& b.live_child_root_view_ids == a.live_child_root_view_ids
}

impl Worker {
    /// Look up the arity declared for the function `name`.
    fn lookup_function_entry(&self, name: &str) -> (arity: Option<u8>)
        ensures
            arity == spec_function_arity(self.functions@, name@),
    {
        let mut i: usize = 0;
        assert(self.functions@.subrange(0, self.functions@.len() as int) =~= self.functions@);
        while i < self.functions.len()
            invariant
                0 <= i <= self.functions@.len(),
                spec_function_arity(self.functions@, name@) == spec_function_arity(
                    self.functions@.subrange(i as int, self.functions@.len() as int),
                    name@,
                ),
            decreases self.functions.len() - i,
        {
            let ghost rest = self.functions@.subrange(i as int, self.functions@.len() as int);
            assert(rest.drop_first() =~= self.functions@.subrange(i + 1, self.functions@.len() as int));
            if str_eq(self.functions[i].0.as_str(), name) {
                return Some(self.functions[i].1);
            }
            i = i + 1;
        }
        None
    }

    /// Check that `func` is a declared function of `arity` parameters.
    pub fn validate_host_handler_function(&self, func: &Value, arity: u8) -> (r: Result<(), TuiError>)
        ensures
            r == spec_validate_handler(self.functions@, *func, arity),
    {
        match func {
            Value::Function { name } => match self.lookup_function_entry(name.as_str()) {
                None => Err(TuiError::UndefinedFunction),
                Some(found) => if found != arity {
                    Err(TuiError::WrongArity { expected: arity, found })
                } else {
                    Ok(())
                },
            },
            _ => Err(TuiError::NotAFunction),
        }
    }

    /// Pop a handler function and the `Application`, check the handler's
    /// arity, then store it in `slot`.
    pub fn register_tui_handler(&mut self, arity: u8, slot: HandlerSlot) -> (r: Result<(), TuiError>)
        ensures
            final(self).live_turbo_vision_app == old(self).live_turbo_vision_app,
            final(self).headless_tv_app == old(self).headless_tv_app,
            final(self).input_line_view_bindings == old(self).input_line_view_bindings,
            final(self).functions == old(self).functions,
            final(self).current_task_id == old(self).current_task_id,
            final(self).test_console_events == old(self).test_console_events,
            final(self).stack@ == spec_popped(old(self).stack@, spec_handler_args(old(self).stack@).1),
            match spec_handler_args(old(self).stack@).0 {
                    Err(e) => r == Err::<(), TuiError>(e) && final(self).tui == old(self).tui,
                    Ok(func) => match spec_validate_handler(old(self).functions@, func, arity) {
                        Err(e) => r == Err::<(), TuiError>(e) && final(self).tui == old(self).tui,
                        Ok(_) => r is Ok && spec_handler(final(self).tui, slot) == Some(func)
                            && spec_handlers_agree_except(old(self).tui, final(self).tui, slot),
                    },
            },
    {
        proof {
            lemma_popped_compose(self.stack@, 0);
            if self.stack@.len() >= 1 {
                lemma_popped_compose(self.stack@, 1);
            }
        }
        let func = self.pop()?;
        self.pop_tui_application()?;
        self.validate_host_handler_function(&func, arity)?;
        match slot {
            HandlerSlot::OnCommand => {
                self.tui.on_command = Some(func);
            },
            HandlerSlot::OnKey => {
                self.tui.turbo_vision_on_key = Some(func);
            },
            HandlerSlot::OnMouse => {
                self.tui.turbo_vision_on_mouse = Some(func);
            },
        }
        Ok(())
    }

    /// `Application.OnCommand(App, Handler)`: a `procedure (Application,
    /// integer)` that receives dispatched commands.
    pub fn turbo_vision_register_on_command(&mut self) -> (r: Result<(), TuiError>)
        ensures
            final(self).functions == old(self).functions,
            final(self).stack@ == spec_popped(old(self).stack@, spec_handler_args(old(self).stack@).1),
            match spec_handler_args(old(self).stack@).0 {
                    Err(e) => r == Err::<(), TuiError>(e) && final(self).tui == old(self).tui,
                    Ok(func) => match spec_validate_handler(old(self).functions@, func, 2) {
                        Err(e) => r == Err::<(), TuiError>(e) && final(self).tui == old(self).tui,
                        Ok(_) => r is Ok && final(self).tui.on_command == Some(func)
                            && spec_handlers_agree_except(old(self).tui, final(self).tui, HandlerSlot::OnCommand),
                    },
            },
    {
        self.register_tui_handler(2, HandlerSlot::OnCommand)
    }

    /// `Application.OnKey(App, Handler)`: a `function (Application,
    /// KeyEvent): boolean` that sees unhandled keys.
    pub fn turbo_vision_register_on_key(&mut self) -> (r: Result<(), TuiError>)
        ensures
            final(self).functions == old(self).functions,
            final(self).stack@ == spec_popped(old(self).stack@, spec_handler_args(old(self).stack@).1),
            match spec_handler_args(old(self).stack@).0 {
                    Err(e) => r == Err::<(), TuiError>(e) && final(self).tui == old(self).tui,
                    Ok(func) => match spec_validate_handler(old(self).functions@, func, 2) {
                        Err(e) => r == Err::<(), TuiError>(e) && final(self).tui == old(self).tui,
                        Ok(_) => r is Ok && final(self).tui.turbo_vision_on_key == Some(func)
                            && spec_handlers_agree_except(old(self).tui, final(self).tui, HandlerSlot::OnKey),
                    },
            },
    {
        self.register_tui_handler(2, HandlerSlot::OnKey)
    }

    /// `Application.OnMouse(App, Handler)`: a `procedure (Application,
    /// Event)` that sees unhandled mouse events.
    pub fn turbo_vision_register_on_mouse(&mut self) -> (r: Result<(), TuiError>)
        ensures
            final(self).functions == old(self).functions,
            final(self).stack@ == spec_popped(old(self).stack@, spec_handler_args(old(self).stack@).1),
            match spec_handler_args(old(self).stack@).0 {
                    Err(e) => r == Err::<(), TuiError>(e) && final(self).tui == old(self).tui,
                    Ok(func) => match spec_validate_handler(old(self).functions@, func, 2) {
                        Err(e) => r == Err::<(), TuiError>(e) && final(self).tui == old(self).tui,
                        Ok(_) => r is Ok && final(self).tui.turbo_vision_on_mouse == Some(func)
                            && spec_handlers_agree_except(old(self).tui, final(self).tui, HandlerSlot::OnMouse),
                    },
            },
    {
        self.register_tui_handler(2, HandlerSlot::OnMouse)
    }
}


/// The store after `TurboVisionState::set_chrome`-style installation of
/// `h` as menu bar (`menu_bar`) or status line.
pub open spec fn spec_chrome_outcome(old: TurboVisionState, new: TurboVisionState, h: u32, menu_bar: bool, r: Result<(), TuiError>) -> bool {
    let current = if menu_bar { old.menu_bar } else { old.status_line };
    &&& r == spec_set_chrome(old.spec_objects(), current, h, menu_bar)
    &&& new.next_handle == old.next_handle
    &&& new.pending_commands@ == old.pending_commands@
    &&& new.quit_requested == old.quit_requested
    &&& new.test_dialog_result == old.test_dialog_result
    &&& new.pending_reconcile == old.pending_reconcile
    &&& (menu_bar ==> new.status_line == old.status_line)
    &&& (!menu_bar ==> new.menu_bar == old.menu_bar)
    &&& (r is Ok ==> spec_agree_except(old.spec_objects(), new.spec_objects(), h, h)
        && new.spec_objects()[h] == spec_chrome_marked(old.spec_objects()[h])
        && (menu_bar ==> new.menu_bar == Some(h))
        && (!menu_bar ==> new.status_line == Some(h)))
    &&& (r is Err ==> new.spec_objects() == old.spec_objects() && new.menu_bar == old.menu_bar
        && new.status_line == old.status_line)
}

/// The store after queueing a command decided by `decided`.
pub open spec fn spec_queue_outcome(old: TurboVisionState, new: TurboVisionState, decided: Result<u16, TuiError>, r: Result<(), TuiError>) -> bool {
    &&& new.objects@ == old.objects@
    &&& new.next_handle == old.next_handle
    &&& new.menu_bar == old.menu_bar
    &&& new.status_line == old.status_line
    &&& new.quit_requested == old.quit_requested
    &&& new.pending_reconcile == old.pending_reconcile
    &&& new.test_dialog_result == old.test_dialog_result
    &&& match decided {
        Ok(c) => r is Ok && new.pending_commands@ == old.pending_commands@.push(c),
        Err(e) => r == Err::<(), TuiError>(e) && new.pending_commands@ == old.pending_commands@,
    }
}

/// `v` is a `DialogResult` record carrying `command`.
pub open spec fn spec_is_dialog_result(v: Value, command: i64) -> bool {
    &&& spec_is_record_of(v, TUI_DIALOG_RESULT_TYPE@)
    &&& spec_record_fields(v).len() == 1
    &&& spec_record_fields(v)[0].0@ == DIALOG_RESULT_COMMAND_FIELD@
    &&& spec_record_fields(v)[0].1 == Value::Integer(command)
}

/// Name of the command field of a `DialogResult` record.
pub const DIALOG_RESULT_COMMAND_FIELD: &'static str = "command";

impl Worker {
    /// `Application.SetMenuBar(App, MenuBar)`: install the menu bar as the
    /// application's only menu bar.
    pub fn turbo_vision_set_menu_bar(&mut self) -> (r: Result<(), TuiError>)
        requires
            old(self).wf(),
        ensures
            final(self).wf(),
            spec_same_session(*final(self), *old(self)),
            final(self).input_line_view_bindings == old(self).input_line_view_bindings,
            final(self).stack@ == spec_popped(old(self).stack@, spec_handle_app_args(old(self).stack@, TUI_MENU_BAR_TYPE@).1),
            match spec_handle_app_args(old(self).stack@, TUI_MENU_BAR_TYPE@).0 {
                Err(e) => r == Err::<(), TuiError>(e) && final(self).tui == old(self).tui,
                Ok(h) => spec_chrome_outcome(old(self).tui.turbo_vision, final(self).tui.turbo_vision, h, true, r),
            },
    {
        let h = self.pop_handle_app(TUI_MENU_BAR_TYPE)?;
        self.tui.turbo_vision.set_menu_bar(h)
    }

    /// `Application.SetStatusLine(App, StatusLine)`: install the status
    /// line as the application's only status line.
    pub fn turbo_vision_set_status_line(&mut self) -> (r: Result<(), TuiError>)
        requires
            old(self).wf(),
        ensures
            final(self).wf(),
            spec_same_session(*final(self), *old(self)),
            final(self).input_line_view_bindings == old(self).input_line_view_bindings,
            final(self).stack@ == spec_popped(old(self).stack@, spec_handle_app_args(old(self).stack@, TUI_STATUS_LINE_TYPE@).1),
            match spec_handle_app_args(old(self).stack@, TUI_STATUS_LINE_TYPE@).0 {
                Err(e) => r == Err::<(), TuiError>(e) && final(self).tui == old(self).tui,
                Ok(h) => spec_chrome_outcome(old(self).tui.turbo_vision, final(self).tui.turbo_vision, h, false, r),
            },
    {
        let h = self.pop_handle_app(TUI_STATUS_LINE_TYPE)?;
        self.tui.turbo_vision.set_status_line(h)
    }

    /// `Application.TestClickButton(App, Button)`: queue the button's
    /// command as if it had been clicked.
    pub fn turbo_vision_test_click_button(&mut self) -> (r: Result<(), TuiError>)
        requires
            old(self).wf(),
        ensures
            final(self).wf(),
            spec_same_session(*final(self), *old(self)),
            final(self).input_line_view_bindings == old(self).input_line_view_bindings,
            final(self).stack@ == spec_popped(old(self).stack@, spec_handle_app_args(old(self).stack@, TUI_BUTTON_TYPE@).1),
            match spec_handle_app_args(old(self).stack@, TUI_BUTTON_TYPE@).0 {
                Err(e) => r == Err::<(), TuiError>(e) && final(self).tui == old(self).tui,
                Ok(h) => spec_queue_outcome(
                    old(self).tui.turbo_vision,
                    final(self).tui.turbo_vision,
                    spec_button_command(old(self).tui.turbo_vision.spec_objects(), h),
                    r,
                ),
            },
    {
        let h = self.pop_handle_app(TUI_BUTTON_TYPE)?;
        self.tui.turbo_vision.test_click_button(h)
    }

    /// `Application.TestDispatchMenuCommand(App, MenuBar, MenuIndex,
    /// ItemIndex)`: queue a menu item's command as if it had been chosen.
    pub fn turbo_vision_test_dispatch_menu_command(&mut self) -> (r: Result<(), TuiError>)
        requires
            old(self).wf(),
        ensures
            final(self).wf(),
            spec_same_session(*final(self), *old(self)),
            final(self).input_line_view_bindings == old(self).input_line_view_bindings,
            final(self).stack@ == spec_popped(old(self).stack@, spec_menu_dispatch_args(old(self).stack@).1),
            match spec_menu_dispatch_args(old(self).stack@).0 {
                Err(e) => r == Err::<(), TuiError>(e) && final(self).tui == old(self).tui,
                Ok((h, menu, item)) => spec_queue_outcome(
                    old(self).tui.turbo_vision,
                    final(self).tui.turbo_vision,
                    spec_menu_command(old(self).tui.turbo_vision.spec_objects(), h, menu, item),
                    r,
                ),
            },
    {
        proof {
            lemma_popped_compose(self.stack@, 0);
            if self.stack@.len() >= 1 {
                lemma_popped_compose(self.stack@, 1);
            }
            if self.stack@.len() >= 2 {
                lemma_popped_compose(self.stack@, 2);
            }
        }
        let item = self.pop_int()?;
        if item < 0 || item as i128 > usize::MAX as i128 {
            return Err(TuiError::NegativeNumber);
        }
        let menu = self.pop_int()?;
        if menu < 0 || menu as i128 > usize::MAX as i128 {
            return Err(TuiError::NegativeNumber);
        }
        let h = self.pop_handle_app(TUI_MENU_BAR_TYPE)?;
        self.tui.turbo_vision.test_dispatch_menu_command(h, menu as usize, item as usize)
    }

    /// `Application.Pump(App)`: take the next queued command for dispatch to
    /// the `OnCommand` handler; none after a quit request or when the queue
    /// is empty.
    pub fn turbo_vision_pump(&mut self) -> (r: Result<Option<u16>, TuiError>)
        requires
            old(self).wf(),
        ensures
            final(self).wf(),
            spec_same_session(*final(self), *old(self)),
            final(self).input_line_view_bindings == old(self).input_line_view_bindings,
            final(self).stack@ == spec_popped(old(self).stack@, spec_app_args(old(self).stack@).1),
            match spec_app_args(old(self).stack@).0 {
                Err(e) => r == Err::<Option<u16>, TuiError>(e) && final(self).tui == old(self).tui,
                Ok(_) => {
                    let tv = old(self).tui.turbo_vision;
                    let tv2 = final(self).tui.turbo_vision;
                    &&& tv2.objects@ == tv.objects@
                    &&& tv2.next_handle == tv.next_handle
                    &&& tv2.menu_bar == tv.menu_bar
                    &&& tv2.status_line == tv.status_line
                    &&& tv2.quit_requested == tv.quit_requested
                    &&& tv2.pending_reconcile == tv.pending_reconcile
                    &&& tv2.test_dialog_result == tv.test_dialog_result
                    &&& if tv.quit_requested || tv.pending_commands@.len() == 0 {
                        r == Ok::<Option<u16>, TuiError>(None) && tv2.pending_commands@ == tv.pending_commands@
                    } else {
                        r == Ok::<Option<u16>, TuiError>(Some(tv.pending_commands@[0]))
                            && tv2.pending_commands@ == tv.pending_commands@.drop_first()
                    }
                },
            },
    {
        self.pop_tui_application()?;
        Ok(self.tui.turbo_vision.pump_next_command())
    }

    /// `Application.Quit(App)`: request the session and its command pump to
    /// stop.
    pub fn turbo_vision_quit(&mut self) -> (r: Result<(), TuiError>)
        requires
            old(self).wf(),
        ensures
            final(self).wf(),
            final(self).stack@ == spec_popped(old(self).stack@, spec_app_args(old(self).stack@).1),
            match spec_app_args(old(self).stack@).0 {
                Err(e) => r == Err::<(), TuiError>(e) && *final(self) == (Worker { stack: final(self).stack, ..*old(self) }),
                Ok(_) => r is Ok && *final(self) == (Worker {
                    stack: final(self).stack,
                    tui: TuiState {
                        quit_requested: true,
                        turbo_vision: TurboVisionState { quit_requested: true, ..old(self).tui.turbo_vision },
                        ..old(self).tui
                    },
                    ..*old(self)
                }),
            },
    {
        self.pop_tui_application()?;
        self.tui.quit_requested = true;
        self.tui.turbo_vision.quit_requested = true;
        Ok(())
    }

    /// `Application.TestSetDialogResult(App, Command)`: the command that
    /// closes the next headless `ExecDialog`.
    pub fn turbo_vision_test_set_dialog_result(&mut self) -> (r: Result<(), TuiError>)
        requires
            old(self).wf(),
        ensures
            final(self).wf(),
            final(self).stack@ == spec_popped(old(self).stack@, spec_int_app_args(old(self).stack@).1),
            match spec_int_app_args(old(self).stack@).0 {
                Err(e) => r == Err::<(), TuiError>(e) && *final(self) == (Worker { stack: final(self).stack, ..*old(self) }),
                Ok(c) => r is Ok && *final(self) == (Worker {
                    stack: final(self).stack,
                    tui: TuiState {
                        turbo_vision: TurboVisionState { test_dialog_result: Some(c), ..old(self).tui.turbo_vision },
                        ..old(self).tui
                    },
                    ..*old(self)
                }),
            },
    {
        proof {
            lemma_popped_compose(self.stack@, 0);
            if self.stack@.len() >= 1 {
                lemma_popped_compose(self.stack@, 1);
            }
        }
        let c = self.pop_int()?;
        self.pop_tui_application()?;
        self.tui.turbo_vision.test_dialog_result = Some(c);
        Ok(())
    }

    /// Push a `DialogResult` record carrying `command`.
    pub fn push_dialog_result(&mut self, command: i64)
        ensures
            spec_same_but_stack(*final(self), *old(self)),
            final(self).stack@.len() == old(self).stack@.len() + 1,
            final(self).stack@.subrange(0, old(self).stack@.len() as int) == old(self).stack@,
            spec_is_dialog_result(final(self).stack@.last(), command),
    {
        let mut fields: Vec<Field> = Vec::new();
        fields.push((String::from_str(DIALOG_RESULT_COMMAND_FIELD), Value::Integer(command)));
        let ghost s0 = self.stack@;
        self.push(Value::Record { record_type: String::from_str(TUI_DIALOG_RESULT_TYPE), fields });
        assert(self.stack@.subrange(0, s0.len() as int) =~= s0);
    }

    /// `Application.ExecDialog(App, Dialog)`: only on the main task. A
    /// headless session closes the dialog at once with the queued test
    /// result (`0` when none) and pushes its `DialogResult`; a live session
    /// runs the dialog modally.
    pub fn turbo_vision_exec_dialog(&mut self) -> (r: Result<DialogRun, TuiError>)
        requires
            old(self).wf(),
        ensures
            final(self).wf(),
            match spec_handle_app_args(old(self).stack@, TUI_DIALOG_TYPE@).0 {
                Err(e) => r == Err::<DialogRun, TuiError>(e) && *final(self) == (Worker { stack: final(self).stack, ..*old(self) })
                    && final(self).stack@ == spec_popped(old(self).stack@, spec_handle_app_args(old(self).stack@, TUI_DIALOG_TYPE@).1),
                Ok(h) => {
                    let popped = spec_popped(old(self).stack@, 2);
                    if old(self).current_task_id != 0 {
                        r == Err::<DialogRun, TuiError>(TuiError::NotMainTask) && *final(self) == (Worker { stack: final(self).stack, ..*old(self) })
                            && final(self).stack@ == popped
                    } else if old(self).tui.headless {
                        let c = match old(self).tui.turbo_vision.test_dialog_result {
                            Some(c) => c,
                            None => 0,
                        };
                        &&& r == Ok::<DialogRun, TuiError>(DialogRun::Finished { command: c })
                        &&& final(self).stack@.len() == popped.len() + 1
                        &&& final(self).stack@.subrange(0, popped.len() as int) == popped
                        &&& spec_is_dialog_result(final(self).stack@.last(), c)
                        &&& *final(self) == (Worker {
                            stack: final(self).stack,
                            tui: TuiState {
                                turbo_vision: TurboVisionState { test_dialog_result: None, ..old(self).tui.turbo_vision },
                                ..old(self).tui
                            },
                            ..*old(self)
                        })
                    } else {
                        r == Ok::<DialogRun, TuiError>(DialogRun::RunLive { dialog: h })
                            && *final(self) == (Worker { stack: final(self).stack, ..*old(self) })
                            && final(self).stack@ == popped
                    }
                },
            },
    {
        let h = self.pop_handle_app(TUI_DIALOG_TYPE)?;
        if self.current_task_id != 0 {
            return Err(TuiError::NotMainTask);
        }
        if self.tui.headless {
            let c = match self.tui.turbo_vision.test_dialog_result {
                Some(c) => c,
                None => 0,
            };
            self.tui.turbo_vision.test_dialog_result = None;
            self.push_dialog_result(c);
            return Ok(DialogRun::Finished { command: c });
        }
        Ok(DialogRun::RunLive { dialog: h })
    }

    /// `Application.InputText(App, InputLine)`: push the input line's text.
    pub fn turbo_vision_input_text(&mut self) -> (r: Result<(), TuiError>)
        requires
            old(self).wf(),
        ensures
            final(self).wf(),
            spec_same_but_stack(*final(self), *old(self)),
            match spec_handle_app_args(old(self).stack@, TUI_INPUT_LINE_TYPE@).0 {
                Err(e) => r == Err::<(), TuiError>(e)
                    && final(self).stack@ == spec_popped(old(self).stack@, spec_handle_app_args(old(self).stack@, TUI_INPUT_LINE_TYPE@).1),
                Ok(h) => {
                    let m = old(self).tui.turbo_vision.spec_objects();
                    let popped = spec_popped(old(self).stack@, 2);
                    if m.contains_key(h) && m[h] is InputLine {
                        r is Ok && final(self).stack@.len() == popped.len() + 1
                            && final(self).stack@.subrange(0, popped.len() as int) == popped
                            && (final(self).stack@.last() matches Value::Str(t) && t@ == m[h]->InputLine_0.text@)
                    } else {
                        r == Err::<(), TuiError>(TuiError::UnknownHandle { handle: h }) && final(self).stack@ == popped
                    }
                },
            },
    {
        let h = self.pop_handle_app(TUI_INPUT_LINE_TYPE)?;
        let t = self.tui.turbo_vision.input_line_text(h)?;
        let ghost s0 = self.stack@;
        self.push(Value::Str(t));
        assert(self.stack@.subrange(0, s0.len() as int) =~= s0);
        Ok(())
    }

    /// `Application.Checked(App, CheckBox)`: push the check box's state.
    pub fn turbo_vision_checked(&mut self) -> (r: Result<(), TuiError>)
        requires
            old(self).wf(),
        ensures
            final(self).wf(),
            spec_same_but_stack(*final(self), *old(self)),
            match spec_handle_app_args(old(self).stack@, TUI_CHECK_BOX_TYPE@).0 {
                Err(e) => r == Err::<(), TuiError>(e)
                    && final(self).stack@ == spec_popped(old(self).stack@, spec_handle_app_args(old(self).stack@, TUI_CHECK_BOX_TYPE@).1),
                Ok(h) => {
                    let m = old(self).tui.turbo_vision.spec_objects();
                    let popped = spec_popped(old(self).stack@, 2);
                    if m.contains_key(h) && m[h] is CheckBox {
                        r is Ok && final(self).stack@ == popped.push(Value::Boolean(m[h]->CheckBox_0.checked))
                    } else {
                        r == Err::<(), TuiError>(TuiError::UnknownHandle { handle: h }) && final(self).stack@ == popped
                    }
                },
            },
    {
        let h = self.pop_handle_app(TUI_CHECK_BOX_TYPE)?;
        let b = self.tui.turbo_vision.check_box_checked(h)?;
        self.push(Value::Boolean(b));
        Ok(())
    }

    /// `Application.Selected(App, RadioButton)`: push the radio button's
    /// state.
    pub fn turbo_vision_selected(&mut self) -> (r: Result<(), TuiError>)
        requires
            old(self).wf(),
        ensures
            final(self).wf(),
            spec_same_but_stack(*final(self), *old(self)),
            match spec_handle_app_args(old(self).stack@, TUI_RADIO_BUTTON_TYPE@).0 {
                Err(e) => r == Err::<(), TuiError>(e)
                    && final(self).stack@ == spec_popped(old(self).stack@, spec_handle_app_args(old(self).stack@, TUI_RADIO_BUTTON_TYPE@).1),
                Ok(h) => {
                    let m = old(self).tui.turbo_vision.spec_objects();
                    let popped = spec_popped(old(self).stack@, 2);
                    if m.contains_key(h) && m[h] is RadioButton {
                        r is Ok && final(self).stack@ == popped.push(Value::Boolean(m[h]->RadioButton_0.selected))
                    } else {
                        r == Err::<(), TuiError>(TuiError::UnknownHandle { handle: h }) && final(self).stack@ == popped
                    }
                },
            },
    {
        let h = self.pop_handle_app(TUI_RADIO_BUTTON_TYPE)?;
        let b = self.tui.turbo_vision.radio_button_selected(h)?;
        self.push(Value::Boolean(b));
        Ok(())
    }

    /// `Application.OutlineSelection(App, Outline)`: push the flat index of
    /// the selected node, `-1` when none is selected.
    pub fn turbo_vision_outline_selection(&mut self) -> (r: Result<(), TuiError>)
        requires
            old(self).wf(),
        ensures
            final(self).wf(),
            spec_same_but_stack(*final(self), *old(self)),
            match spec_handle_app_args(old(self).stack@, TUI_OUTLINE_TYPE@).0 {
                Err(e) => r == Err::<(), TuiError>(e)
                    && final(self).stack@ == spec_popped(old(self).stack@, spec_handle_app_args(old(self).stack@, TUI_OUTLINE_TYPE@).1),
                Ok(h) => {
                    let m = old(self).tui.turbo_vision.spec_objects();
                    let popped = spec_popped(old(self).stack@, 2);
                    if m.contains_key(h) && m[h] is Outline {
                        r is Ok && final(self).stack@ == popped.push(Value::Integer(match m[h]->Outline_0.selection {
                            Some(i) => i as i64,
                            None => -1i64,
                        }))
                    } else {
                        r == Err::<(), TuiError>(TuiError::UnknownHandle { handle: h }) && final(self).stack@ == popped
                    }
                },
            },
    {
        let h = self.pop_handle_app(TUI_OUTLINE_TYPE)?;
        let v = self.tui.turbo_vision.outline_selection(h)?;
        self.push(Value::Integer(v));
        Ok(())
    }

    /// `Application.OutlineSelectedText(App, Outline)`: push the label of
    /// the selected node, empty when none is selected.
    pub fn turbo_vision_outline_selected_text(&mut self) -> (r: Result<(), TuiError>)
        requires
            old(self).wf(),
        ensures
            final(self).wf(),
            spec_same_but_stack(*final(self), *old(self)),
            match spec_handle_app_args(old(self).stack@, TUI_OUTLINE_TYPE@).0 {
                Err(e) => r == Err::<(), TuiError>(e)
                    && final(self).stack@ == spec_popped(old(self).stack@, spec_handle_app_args(old(self).stack@, TUI_OUTLINE_TYPE@).1),
                Ok(h) => {
                    let m = old(self).tui.turbo_vision.spec_objects();
                    let popped = spec_popped(old(self).stack@, 2);
                    if m.contains_key(h) && m[h] is Outline {
                        r is Ok && final(self).stack@.len() == popped.len() + 1
                            && final(self).stack@.subrange(0, popped.len() as int) == popped
                            && (final(self).stack@.last() matches Value::Str(t) && t@ == spec_outline_selected_text(m[h]))
                    } else {
                        r == Err::<(), TuiError>(TuiError::UnknownHandle { handle: h }) && final(self).stack@ == popped
                    }
                },
            },
    {
        let h = self.pop_handle_app(TUI_OUTLINE_TYPE)?;
        let t = self.tui.turbo_vision.outline_selected_text(h)?;
        let ghost s0 = self.stack@;
        self.push(Value::Str(t));
        assert(self.stack@.subrange(0, s0.len() as int) =~= s0);
        Ok(())
    }
}

/// Name of the record `Application.Configure` takes.
pub const TUI_APPLICATION_HANDLERS_TYPE: &'static str = "Std.Tui.ApplicationHandlers";

/// An optional handler field of an `ApplicationHandlers` record.
pub open spec fn spec_optional_handler_field(
    functions: Seq<(String, u8)>,
    fields: Seq<Field>,
    name: Seq<char>,
    arity: u8,
) -> Result<Option<Value>, TuiError> {
    match spec_required_record_field(fields, name) {
        Err(e) => Err(e),
        Ok(Value::OptionNone) => Ok(None),
        Ok(Value::OptionSome(inner)) => match spec_validate_handler(functions, *inner, arity) {
            Err(e) => Err(e),
            Ok(_) => Ok(Some(*inner)),
        },
        Ok(_) => Err(TuiError::WrongOptionOperand),
    }
}

impl Worker {
    /// Pop the fields of an `ApplicationHandlers` record.
    pub fn pop_tui_application_handlers(&mut self) -> (r: Result<Vec<Field>, TuiError>)
        ensures
            spec_same_but_stack(*final(self), *old(self)),
            old(self).stack@.len() == 0 ==> r == Err::<Vec<Field>, TuiError>(TuiError::StackUnderflow)
                && final(self).stack@ == old(self).stack@,
            old(self).stack@.len() > 0 ==> final(self).stack@ == spec_popped(old(self).stack@, 1) && match r {
                Ok(f) => spec_is_record_of(spec_arg(old(self).stack@, 0), TUI_APPLICATION_HANDLERS_TYPE@)
                    && f@ == spec_record_fields(spec_arg(old(self).stack@, 0)),
                Err(e) => e == TuiError::WrongRecordType && !spec_is_record_of(
                    spec_arg(old(self).stack@, 0),
                    TUI_APPLICATION_HANDLERS_TYPE@,
                ),
            },
    {
        match self.pop()? {
            Value::Record { record_type, fields } => if str_eq(record_type.as_str(), TUI_APPLICATION_HANDLERS_TYPE) {
                Ok(fields)
            } else {
                Err(TuiError::WrongRecordType)
            },
            _ => Err(TuiError::WrongRecordType),
        }
    }

    /// Read an optional handler (`None` or `Some(handler)`) from a handler
    /// record, checking the handler's arity.
    pub fn optional_host_handler_field(&self, fields: &Vec<Field>, name: &str, arity: u8) -> (r: Result<Option<Value>, TuiError>)
        ensures
            r == spec_optional_handler_field(self.functions@, fields@, name@, arity),
    {
        match crate::decode::required_record_field(fields, name)? {
            Value::OptionNone => Ok(None),
            Value::OptionSome(inner) => {
                self.validate_host_handler_function(inner, arity)?;
                match &**inner {
                    Value::Function { name } => Ok(Some(Value::Function { name: name.clone() })),
                    _ => Err(TuiError::NotAFunction),
                }
            },
            _ => Err(TuiError::WrongOptionOperand),
        }
    }
}

} // verus!
