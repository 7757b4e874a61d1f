//! Session bookkeeping of one `Application.Open` … `Close` cycle: quit and
//! stop requests, the live and headless Turbo Vision sessions, live view
//! ids, and what follows a data mutation.
use vstd::prelude::*;
use std::collections::HashMap;
use crate::store::TurboVisionState;
use crate::worker::{HeadlessTvApp, LiveApp, TuiState, Worker};
use crate::tv_bridge::TvEventKind;

verus! {

broadcast use vstd::std_specs::hash::group_hash_axioms;

/// Where a handle's live view sits in the desktop tree.
#[derive(Debug, Clone, Copy, PartialEq, Eq, Structural)]
pub enum LiveViewLocation {
    /// The view is a desktop root (window or dialog).
    DesktopRoot { view_id: u16 },
    /// The view is a child of the desktop root `root_view_id`.
    DesktopChild { root_view_id: u16, view_id: u16 },
}

/// Where the view of `handle` sits, from the two id maps.
pub open spec fn spec_locate_live_view(
    view_ids: Map<u32, u16>,
    child_root_view_ids: Map<u32, u16>,
    handle: u32,
) -> Option<LiveViewLocation> {
    if !view_ids.contains_key(handle) {
        None
    } else if child_root_view_ids.contains_key(handle) {
        Some(LiveViewLocation::DesktopChild { root_view_id: child_root_view_ids[handle], view_id: view_ids[handle] })
    } else {
        Some(LiveViewLocation::DesktopRoot { view_id: view_ids[handle] })
    }
}

/// Locate the live view of `handle`: none without a registered view id, a
/// desktop child when a root view id is registered for it, a desktop root
/// otherwise.
pub fn locate_live_view(
    view_ids: &HashMap<u32, u16>,
    child_root_view_ids: &HashMap<u32, u16>,
    handle: u32,
) -> (location: Option<LiveViewLocation>)
    ensures
        location == spec_locate_live_view(view_ids@, child_root_view_ids@, handle),
{
    let view_id = match view_ids.get(&handle) {
        Some(v) => *v,
        None => return None,
    };
    match child_root_view_ids.get(&handle) {
        Some(root) => Some(LiveViewLocation::DesktopChild { root_view_id: *root, view_id }),
        None => Some(LiveViewLocation::DesktopRoot { view_id }),
    }
}

/// A fresh, empty Turbo Vision session state.
pub open spec fn spec_fresh_state(s: TurboVisionState) -> bool {
    &&& s.objects@.len() == 0
    &&& s.next_handle == 1
    &&& s.menu_bar is None
    &&& s.status_line is None
    &&& s.pending_commands@.len() == 0
    &&& !s.quit_requested
    &&& !s.pending_reconcile
    &&& s.test_dialog_result is None
}

impl Worker {
    /// Mutable access to the session's `Std.Tui` state.
    pub fn with_tui(&mut self) -> (tui: &mut TuiState)
        ensures
            *tui == old(self).tui,
            *final(self) == (Worker { tui: *final(tui), ..*old(self) }),
    {
        &mut self.tui
    }

    /// Clear a pending quit request, saying whether one was pending; a
    /// later hosted run then does not stop at once.
    pub fn take_tui_host_quit_requested(&mut self) -> (was_requested: bool)
        ensures
            was_requested == old(self).tui.quit_requested,
            *final(self) == (Worker { tui: TuiState { quit_requested: false, ..old(self).tui }, ..*old(self) }),
    {
        let tui = self.with_tui();
        if tui.quit_requested {
            tui.quit_requested = false;
            true
        } else {
            false
        }
    }

    /// `Application.Close` while `Application.Run` is active becomes a stop
    /// request for that run; says whether a run was active.
    pub fn request_tui_host_stop_for_active_run(&mut self) -> (run_active: bool)
        ensures
            run_active == old(self).tui.run_active,
            run_active ==> *final(self) == (Worker {
                tui: TuiState { host_stop_requested: true, ..old(self).tui },
                ..*old(self)
            }),
            !run_active ==> *final(self) == *old(self),
    {
        if self.tui.run_active {
            self.tui.host_stop_requested = true;
            true
        } else {
            false
        }
    }

    /// Clear all Turbo Vision state before a new application session: both
    /// Turbo Vision sessions end, handlers and the quit request are
    /// dropped, and the object store starts empty.
    pub fn reset_tui_session_state(&mut self)
        ensures
            final(self).live_turbo_vision_app is None,
            final(self).headless_tv_app is None,
            final(self).tui.turbo_vision_on_key is None,
            final(self).tui.turbo_vision_on_mouse is None,
            final(self).tui.on_command is None,
            !final(self).tui.quit_requested,
            final(self).tui.turbo_vision.wf(),
            spec_fresh_state(final(self).tui.turbo_vision),
            final(self).tui.headless == old(self).tui.headless,
            final(self).tui.run_active == old(self).tui.run_active,
            final(self).tui.host_stop_requested == old(self).tui.host_stop_requested,
            final(self).tui.host == old(self).tui.host,
            final(self).stack == old(self).stack,
            final(self).input_line_view_bindings == old(self).input_line_view_bindings,
            final(self).functions == old(self).functions,
            final(self).current_task_id == old(self).current_task_id,
            final(self).test_console_events == old(self).test_console_events,
    {
        self.turbo_vision_shutdown_live_app();
        self.turbo_vision_shutdown_headless_app();
        self.tui.turbo_vision_on_key = None;
        self.tui.turbo_vision_on_mouse = None;
        self.tui.on_command = None;
        self.tui.quit_requested = false;
        self.tui.turbo_vision = TurboVisionState::new();
    }

    /// End the live Turbo Vision session, if any.
    pub fn turbo_vision_shutdown_live_app(&mut self)
        ensures
            *final(self) == (Worker { live_turbo_vision_app: None, ..*old(self) }),
    {
        self.live_turbo_vision_app = None;
    }

    /// End the headless Turbo Vision session, if any.
    pub fn turbo_vision_shutdown_headless_app(&mut self)
        ensures
            *final(self) == (Worker { headless_tv_app: None, ..*old(self) }),
    {
        self.headless_tv_app = None;
    }

    /// Make sure a headless session of `width` x `height` exists; says
    /// whether a new one had to be made (none existed, or one of another
    /// size).
    pub fn turbo_vision_ensure_headless_app(&mut self, width: u16, height: u16) -> (needs_new: bool)
        ensures
            needs_new == match old(self).headless_tv_app {
                None => true,
                Some(app) => app.width != width || app.height != height,
            },
            *final(self) == (Worker {
                headless_tv_app: Some(HeadlessTvApp { width, height }),
                ..*old(self)
            }),
    {
        let needs_new = match self.headless_tv_app {
            None => true,
            Some(app) => app.width != width || app.height != height,
        };
        if needs_new {
            self.turbo_vision_shutdown_headless_app();
            self.headless_tv_app = Some(HeadlessTvApp { width, height });
        }
        needs_new
    }

    /// Whether the headless terminal buffer is exported to the console:
    /// exactly when a headless session exists.
    pub fn turbo_vision_export_headless_to_console(&self) -> (exports: bool)
        ensures
            exports == self.headless_tv_app is Some,
    {
        self.headless_tv_app.is_some()
    }

    /// A live Turbo Vision session is active.
    pub fn turbo_vision_live_app_active(&self) -> (active: bool)
        ensures
            active == self.live_turbo_vision_app is Some,
    {
        self.live_turbo_vision_app.is_some()
    }

    /// The live session exists and its event loop is running.
    pub fn turbo_vision_live_app_running(&self) -> (running: bool)
        ensures
            running == match self.live_turbo_vision_app {
                Some(app) => app.running,
                None => false,
            },
    {
        match &self.live_turbo_vision_app {
            Some(app) => app.running,
            None => false,
        }
    }

    /// Set the running flag of the live session, if there is one.
    pub fn turbo_vision_set_live_app_running(&mut self, running: bool)
        ensures
            *final(self) == (Worker {
                live_turbo_vision_app: match old(self).live_turbo_vision_app {
                    Some(_) => Some(LiveApp { running }),
                    None => None,
                },
                ..*old(self)
            }),
    {
        if let Some(app) = &mut self.live_turbo_vision_app {
            app.running = running;
        }
    }

    /// The library's side of rebuilding the live desktop: the host rebuilds
    /// the desktop of its live Turbo Vision application from the FPAS
    /// objects; nothing the library holds changes, and the step never fails.
    pub fn turbo_vision_rebuild_live_app_out_of_lock(&mut self) -> (r: Result<(), crate::error::TuiError>)
        ensures
            r is Ok,
            *final(self) == *old(self),
    {
        let app = self.live_turbo_vision_app.take();
        self.live_turbo_vision_app = app;
        Ok(())
    }

    /// The library's side of the housekeeping after one interactive loop
    /// turn: the host removes closed windows and handles moved ones on its
    /// live desktop (`LiveSession::after_step` in the host); nothing the
    /// library holds changes.
    pub fn turbo_vision_live_after_step(&mut self)
        ensures
            *final(self) == *old(self),
    {
        let app = self.live_turbo_vision_app.take();
        self.live_turbo_vision_app = app;
    }

    /// Record that the FPAS object tree changed and must be mirrored.
    pub fn mark_turbo_vision_tree_dirty(&mut self)
        ensures
            *final(self) == (Worker {
                tui: TuiState {
                    turbo_vision: TurboVisionState { pending_reconcile: true, ..old(self).tui.turbo_vision },
                    ..old(self).tui
                },
                ..*old(self)
            }),
    {
        self.tui.turbo_vision.pending_reconcile = true;
    }

    /// Reset the reconcile flag at the start of `Application.Run`.
    pub fn turbo_vision_begin_run(&mut self)
        ensures
            *final(self) == (Worker {
                tui: TuiState {
                    turbo_vision: TurboVisionState { pending_reconcile: false, ..old(self).tui.turbo_vision },
                    ..old(self).tui
                },
                ..*old(self)
            }),
    {
        self.tui.turbo_vision.pending_reconcile = false;
    }

    /// Forget every registered live view id and `InputLine` binding.
    pub fn turbo_vision_clear_live_view_ids(&mut self)
        ensures
            final(self).input_line_view_bindings@ == Map::<u32, String>::empty(),
            final(self).tui.live_view_ids@ == Map::<u32, u16>::empty(),
            final(self).tui.live_child_root_view_ids@ == Map::<u32, u16>::empty(),
            final(self).tui.turbo_vision == old(self).tui.turbo_vision,
            final(self).tui.headless_repaint_requested == old(self).tui.headless_repaint_requested,
            final(self).tui.quit_requested == old(self).tui.quit_requested,
            final(self).stack == old(self).stack,
            final(self).live_turbo_vision_app == old(self).live_turbo_vision_app,
            final(self).headless_tv_app == old(self).headless_tv_app,
    {
        self.input_line_view_bindings.clear();
        self.tui.live_view_ids.clear();
        self.tui.live_child_root_view_ids.clear();
    }

    /// Register the live view id of a desktop root.
    pub fn turbo_vision_register_live_view_id(&mut self, handle: u32, view_id: u16)
        ensures
            final(self).tui.live_view_ids@ == old(self).tui.live_view_ids@.insert(handle, view_id),
            final(self).tui.live_child_root_view_ids@ == old(self).tui.live_child_root_view_ids@,
            final(self).tui.turbo_vision == old(self).tui.turbo_vision,
            final(self).stack == old(self).stack,
            final(self).input_line_view_bindings == old(self).input_line_view_bindings,
    {
        self.tui.live_view_ids.insert(handle, view_id);
    }

    /// Register the live view id of a child and of the desktop root that
    /// holds it.
    pub fn turbo_vision_register_live_child_view(&mut self, handle: u32, root_view_id: u16, view_id: u16)
        ensures
            final(self).tui.live_view_ids@ == old(self).tui.live_view_ids@.insert(handle, view_id),
            final(self).tui.live_child_root_view_ids@ == old(self).tui.live_child_root_view_ids@.insert(
                handle,
                root_view_id,
            ),
            final(self).tui.turbo_vision == old(self).tui.turbo_vision,
            final(self).stack == old(self).stack,
            final(self).input_line_view_bindings == old(self).input_line_view_bindings,
    {
        self.tui.live_view_ids.insert(handle, view_id);
        self.tui.live_child_root_view_ids.insert(handle, root_view_id);
    }

    /// Remember the text binding of the live `InputLine` view of `handle`.
    pub fn turbo_vision_register_input_line_view_binding(&mut self, handle: u32, binding: String)
        ensures
            final(self).input_line_view_bindings@ == old(self).input_line_view_bindings@.insert(handle, binding),
            *final(self) == (Worker { input_line_view_bindings: final(self).input_line_view_bindings, ..*old(self) }),
    {
        self.input_line_view_bindings.insert(handle, binding);
    }

    /// Mirror `text` into the live `InputLine` binding of `handle`, when
    /// one is registered.
    pub fn turbo_vision_sync_input_line_view_binding(&mut self, handle: u32, text: &str)
        ensures
            old(self).input_line_view_bindings@.contains_key(handle) ==> final(self).input_line_view_bindings@
                == old(self).input_line_view_bindings@.insert(handle, final(self).input_line_view_bindings@[handle])
                && final(self).input_line_view_bindings@[handle]@ == text@,
            !old(self).input_line_view_bindings@.contains_key(handle) ==> final(self).input_line_view_bindings@
                == old(self).input_line_view_bindings@,
            *final(self) == (Worker { input_line_view_bindings: final(self).input_line_view_bindings, ..*old(self) }),
    {
        if self.input_line_view_bindings.contains_key(&handle) {
            self.input_line_view_bindings.insert(handle, text.to_owned());
        }
    }
}

/// What the session does after a loop turn to mirror FPAS-side changes.
#[derive(Debug, Clone, Copy, PartialEq, Eq, Structural)]
pub enum ReconcileAction {
    /// Headless: repaint the headless desktop.
    PaintHeadless,
    /// Live, with a dirty tree: rebuild the live desktop.
    RebuildDesktop,
    /// Live, nothing changed.
    Nothing,
}

/// What one turn of the interactive run loop does.
#[derive(Debug, Clone, Copy, PartialEq, Eq, Structural)]
pub enum LoopAction {
    /// The session stopped running or a quit was requested.
    Stop,
    /// No event to dispatch; only the after-step housekeeping runs.
    AfterStep,
    /// A command: dispatch it to `OnCommand`, then reconcile.
    DispatchCommand,
    /// Another input event: offer it to the `OnKey` / `OnMouse` handlers.
    DispatchUnhandledInput,
}

impl Worker {
    /// After a run step: a headless session repaints; a live one takes the
    /// dirty flag and rebuilds its desktop when it was set.
    pub fn turbo_vision_reconcile_after_step(&mut self) -> (action: ReconcileAction)
        ensures
            old(self).tui.headless ==> action == ReconcileAction::PaintHeadless && *final(self) == *old(self),
            !old(self).tui.headless ==> action == (if old(self).tui.turbo_vision.pending_reconcile {
                ReconcileAction::RebuildDesktop
            } else {
                ReconcileAction::Nothing
            }) && *final(self) == (Worker {
                tui: TuiState {
                    turbo_vision: TurboVisionState { pending_reconcile: false, ..old(self).tui.turbo_vision },
                    ..old(self).tui
                },
                ..*old(self)
            }),
    {
        if self.tui.headless {
            return ReconcileAction::PaintHeadless;
        }
        let dirty = self.tui.turbo_vision.pending_reconcile;
        self.tui.turbo_vision.pending_reconcile = false;
        if dirty {
            ReconcileAction::RebuildDesktop
        } else {
            ReconcileAction::Nothing
        }
    }

    /// Live reconcile after a loop turn: takes the dirty flag; the live
    /// desktop is rebuilt when it was set.
    pub fn turbo_vision_live_reconcile(&mut self) -> (rebuild: bool)
        ensures
            rebuild == old(self).tui.turbo_vision.pending_reconcile,
            *final(self) == (Worker {
                tui: TuiState {
                    turbo_vision: TurboVisionState { pending_reconcile: false, ..old(self).tui.turbo_vision },
                    ..old(self).tui
                },
                ..*old(self)
            }),
    {
        let dirty = self.tui.turbo_vision.pending_reconcile;
        self.tui.turbo_vision.pending_reconcile = false;
        dirty
    }

    /// One turn of the interactive run loop: stop when the session no
    /// longer runs or a quit was requested; otherwise dispatch by the kind
    /// of the next event.
    pub fn turbo_vision_interactive_step(&self, session_running: bool, event: Option<TvEventKind>) -> (action: LoopAction)
        ensures
            action == if !session_running || self.tui.quit_requested || self.tui.turbo_vision.quit_requested {
                LoopAction::Stop
            } else {
                match event {
                    None => LoopAction::AfterStep,
                    Some(TvEventKind::Nothing) => LoopAction::AfterStep,
                    Some(TvEventKind::Command) => LoopAction::DispatchCommand,
                    Some(_) => LoopAction::DispatchUnhandledInput,
                }
            },
    {
        if !session_running || self.tui.quit_requested || self.tui.turbo_vision.quit_requested {
            return LoopAction::Stop;
        }
        match event {
            None => LoopAction::AfterStep,
            Some(TvEventKind::Nothing) => LoopAction::AfterStep,
            Some(TvEventKind::Command) => LoopAction::DispatchCommand,
            Some(_) => LoopAction::DispatchUnhandledInput,
        }
    }

    /// Whether a live session must be opened: not in a headless session,
    /// and none is open yet.
    pub fn turbo_vision_needs_live_app(&self) -> (needed: bool)
        ensures
            needed == (!self.tui.headless && self.live_turbo_vision_app is None),
    {
        !self.tui.headless && !self.turbo_vision_live_app_active()
    }

    /// Whether interactive work may use the live session: not in a headless
    /// session (`HeadlessSession`), and with the session open
    /// (`LiveSessionMissing`).
    pub fn turbo_vision_live_app_check(&self) -> (r: Result<(), crate::error::TuiError>)
        ensures
            r == if self.tui.headless {
                Err(crate::error::TuiError::HeadlessSession)
            } else if self.live_turbo_vision_app is None {
                Err(crate::error::TuiError::LiveSessionMissing)
            } else {
                Ok(())
            },
    {
        if self.tui.headless {
            return Err(crate::error::TuiError::HeadlessSession);
        }
        if self.live_turbo_vision_app.is_none() {
            return Err(crate::error::TuiError::LiveSessionMissing);
        }
        Ok(())
    }
}

} // verus!
