//! The hosted event loop's registration intrinsics: `TuiHostRegisterOn*`,
//! `TuiHostRegisterOnIdle`, `TuiHostRequestQuit`, and the reset of the host
//! state when the application closes. Polling the console and calling the
//! handlers happen outside the library.
use vstd::prelude::*;
use crate::error::TuiError;
use crate::intrinsics::{spec_app_args, spec_handler_args, spec_validate_handler};
use crate::value::Value;
use crate::worker::{
    HostHandlers, TuiState, Worker, lemma_popped_compose, spec_arg, spec_int, spec_is_application,
    spec_no_host_handlers, spec_popped, spec_same_but_stack,
};

verus! {

/// Which hosted-loop handler a registration sets.
#[derive(Debug, Clone, Copy, PartialEq, Eq, Structural)]
pub enum HostHandlerSlot {
    /// `function (Application, Std.Console.KeyEvent): boolean`.
    OnKeyPressed,
    /// `procedure (Application, Std.Tui.Size)`.
    OnResize,
    /// `procedure (Application)`.
    OnPaint,
    /// `procedure (Application, Std.Tui.ExitReason)`.
    OnExit,
    /// `procedure (Application, Std.Console.Event)`.
    OnMouse,
    /// `procedure (Application, Std.Console.Event)`.
    OnPaste,
    /// `procedure (Application, Std.Console.Event)`.
    OnFocusGained,
    /// `procedure (Application, Std.Console.Event)`.
    OnFocusLost,
    /// `procedure (Application)`.
    OnActivate,
    /// `procedure (Application)`.
    OnDeactivate,
    /// `procedure (Application, integer)`, shared with `Application.OnCommand`.
    OnCommand,
}

/// The number of parameters the handler of `slot` takes.
pub open spec fn spec_host_handler_arity(slot: HostHandlerSlot) -> u8 {
    match slot {
        HostHandlerSlot::OnPaint | HostHandlerSlot::OnActivate | HostHandlerSlot::OnDeactivate => 1,
        _ => 2,
    }
}

/// The number of parameters the handler of `slot` takes.
pub fn host_handler_arity(slot: HostHandlerSlot) -> (arity: u8)
    ensures
        arity == spec_host_handler_arity(slot),
{
    match slot {
        HostHandlerSlot::OnPaint | HostHandlerSlot::OnActivate | HostHandlerSlot::OnDeactivate => 1,
        _ => 2,
    }
}

/// `tui` with the handler of `slot` set to `h`, everything else kept.
pub open spec fn spec_with_host_handler(tui: TuiState, slot: HostHandlerSlot, h: Option<Value>) -> TuiState {
    match slot {
        HostHandlerSlot::OnKeyPressed => TuiState { host: HostHandlers { on_key_pressed: h, ..tui.host }, ..tui },
        HostHandlerSlot::OnResize => TuiState { host: HostHandlers { on_resize: h, ..tui.host }, ..tui },
        HostHandlerSlot::OnPaint => TuiState { host: HostHandlers { on_paint: h, ..tui.host }, ..tui },
        HostHandlerSlot::OnExit => TuiState { host: HostHandlers { on_exit: h, ..tui.host }, ..tui },
        HostHandlerSlot::OnMouse => TuiState { host: HostHandlers { on_mouse: h, ..tui.host }, ..tui },
        HostHandlerSlot::OnPaste => TuiState { host: HostHandlers { on_paste: h, ..tui.host }, ..tui },
        HostHandlerSlot::OnFocusGained => TuiState { host: HostHandlers { on_focus_gained: h, ..tui.host }, ..tui },
        HostHandlerSlot::OnFocusLost => TuiState { host: HostHandlers { on_focus_lost: h, ..tui.host }, ..tui },
        HostHandlerSlot::OnActivate => TuiState { host: HostHandlers { on_activate: h, ..tui.host }, ..tui },
        HostHandlerSlot::OnDeactivate => TuiState { host: HostHandlers { on_deactivate: h, ..tui.host }, ..tui },
        HostHandlerSlot::OnCommand => TuiState { on_command: h, ..tui },
    }
}

/// Arguments of `TuiHostRegisterOnIdle(App, Milliseconds, Handler)`: the
/// handler on top, then the interval, then the `Application`; and how many
/// values were popped.
pub open spec fn spec_idle_handler_args(s: Seq<Value>) -> (Result<(Value, i64), TuiError>, int) {
    if s.len() < 1 {
        (Err(TuiError::StackUnderflow), 0)
    } else if s.len() < 2 {
        (Err(TuiError::StackUnderflow), 1)
    } else {
        match spec_int(spec_arg(s, 1)) {
            Err(e) => (Err(e), 2),
            Ok(ms) => if s.len() < 3 {
                (Err(TuiError::StackUnderflow), 2)
            } else if !spec_is_application(spec_arg(s, 2)) {
                (Err(TuiError::WrongRecordType), 3)
            } else {
                (Ok((spec_arg(s, 0), ms)), 3)
            },
        }
    }
}

impl Worker {
    /// `TuiHostRegisterOn*(App, Handler)`: pop the handler and the
    /// `Application`, check that the handler is a declared function of the
    /// slot's arity, and store it; nothing else changes.
    pub fn register_host_handler(&mut self, slot: HostHandlerSlot) -> (r: Result<(), TuiError>)
        ensures
            spec_same_but_stack(*final(self), Worker { tui: final(self).tui, ..*old(self) }),
            final(self).stack@ == spec_popped(old(self).stack@, spec_handler_args(old(self).stack@).1),
            match spec_handler_args(old(self).stack@).0 {
                Err(e) => r == Err::<(), TuiError>(e) && final(self).tui == old(self).tui,
                Ok(func) => match spec_validate_handler(old(self).functions@, func, spec_host_handler_arity(slot)) {
                    Err(e) => r == Err::<(), TuiError>(e) && final(self).tui == old(self).tui,
                    Ok(_) => r is Ok && final(self).tui == spec_with_host_handler(old(self).tui, slot, Some(func)),
                },
            },
    {
        proof {
            lemma_popped_compose(self.stack@, 0);
            if self.stack@.len() >= 1 {
                lemma_popped_compose(self.stack@, 1);
            }
        }
        let func = self.pop()?;
        self.pop_tui_application()?;
        self.validate_host_handler_function(&func, host_handler_arity(slot))?;
        match slot {
            HostHandlerSlot::OnKeyPressed => {
                self.tui.host.on_key_pressed = Some(func);
            },
            HostHandlerSlot::OnResize => {
                self.tui.host.on_resize = Some(func);
            },
            HostHandlerSlot::OnPaint => {
                self.tui.host.on_paint = Some(func);
            },
            HostHandlerSlot::OnExit => {
                self.tui.host.on_exit = Some(func);
            },
            HostHandlerSlot::OnMouse => {
                self.tui.host.on_mouse = Some(func);
            },
            HostHandlerSlot::OnPaste => {
                self.tui.host.on_paste = Some(func);
            },
            HostHandlerSlot::OnFocusGained => {
                self.tui.host.on_focus_gained = Some(func);
            },
            HostHandlerSlot::OnFocusLost => {
                self.tui.host.on_focus_lost = Some(func);
            },
            HostHandlerSlot::OnActivate => {
                self.tui.host.on_activate = Some(func);
            },
            HostHandlerSlot::OnDeactivate => {
                self.tui.host.on_deactivate = Some(func);
            },
            HostHandlerSlot::OnCommand => {
                self.tui.on_command = Some(func);
            },
        }
        Ok(())
    }

    /// `TuiHostRegisterOnIdle(App, Milliseconds, Handler)`: pop the handler,
    /// the interval and the `Application`, check that the handler is a
    /// declared `procedure (Application)`, and store it with the interval
    /// (a negative interval counts as `0`).
    pub fn register_host_idle_handler(&mut self) -> (r: Result<(), TuiError>)
        ensures
            spec_same_but_stack(*final(self), Worker { tui: final(self).tui, ..*old(self) }),
            final(self).stack@ == spec_popped(old(self).stack@, spec_idle_handler_args(old(self).stack@).1),
            match spec_idle_handler_args(old(self).stack@).0 {
                Err(e) => r == Err::<(), TuiError>(e) && final(self).tui == old(self).tui,
                Ok((func, ms)) => match spec_validate_handler(old(self).functions@, func, 1) {
                    Err(e) => r == Err::<(), TuiError>(e) && final(self).tui == old(self).tui,
                    Ok(_) => r is Ok && final(self).tui == (TuiState {
                        host: HostHandlers {
                            on_idle: Some(func),
                            idle_interval_ms: if ms < 0 { 0 } else { ms },
                            ..old(self).tui.host
                        },
                        ..old(self).tui
                    }),
                },
            },
    {
        proof {
            lemma_popped_compose(self.stack@, 0);
            if self.stack@.len() >= 1 {
                lemma_popped_compose(self.stack@, 1);
            }
            if self.stack@.len() >= 2 {
                lemma_popped_compose(self.stack@, 2);
            }
        }
        let func = self.pop()?;
        let ms = self.pop_int()?;
        let ms = if ms < 0 { 0 } else { ms };
        self.pop_tui_application()?;
        self.validate_host_handler_function(&func, 1)?;
        self.tui.host.on_idle = Some(func);
        self.tui.host.idle_interval_ms = ms;
        Ok(())
    }

    /// `TuiHostRequestQuit(App)`: the hosted loop stops at its next turn.
    pub fn tui_host_request_quit(&mut self) -> (r: Result<(), TuiError>)
        ensures
            spec_same_but_stack(*final(self), Worker { tui: final(self).tui, ..*old(self) }),
            final(self).stack@ == spec_popped(old(self).stack@, spec_app_args(old(self).stack@).1),
            match spec_app_args(old(self).stack@).0 {
                Err(e) => r == Err::<(), TuiError>(e) && final(self).tui == old(self).tui,
                Ok(_) => r is Ok && final(self).tui == (TuiState { quit_requested: true, ..old(self).tui }),
            },
    {
        self.pop_tui_application()?;
        self.tui.quit_requested = true;
        Ok(())
    }

    /// The host state an application leaves behind when it closes: no
    /// handler registered, no idle interval, no quit or stop pending and no
    /// run active. (The caller closes the console session itself.)
    pub fn close_tui_application_state(&mut self)
        ensures
            *final(self) == (Worker {
                tui: TuiState {
                    host: final(self).tui.host,
                    on_command: None,
                    quit_requested: false,
                    host_stop_requested: false,
                    run_active: false,
                    ..old(self).tui
                },
                ..*old(self)
            }),
            spec_no_host_handlers(final(self).tui.host),
    {
        self.tui.host = HostHandlers::new();
        self.tui.on_command = None;
        self.tui.quit_requested = false;
        self.tui.host_stop_requested = false;
        self.tui.run_active = false;
    }
}

} // verus!
