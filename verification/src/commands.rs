//! Application chrome and the headless command queue.
use vstd::prelude::*;
use crate::controls::{spec_agree_except, spec_same_bookkeeping};
use crate::error::TuiError;
use crate::store::{TurboVisionState, TurboVisionObject, TurboVisionMenuBar, TurboVisionStatusLine};

verus! {

/// The `attached` flag of a menu bar or status line.
pub open spec fn spec_chrome_attached(o: TurboVisionObject) -> bool {
    match o {
        TurboVisionObject::MenuBar(m) => m.attached,
        TurboVisionObject::StatusLine(s) => s.attached,
        _ => false,
    }
}

/// A menu bar or status line with its `attached` flag set.
pub open spec fn spec_chrome_marked(o: TurboVisionObject) -> TurboVisionObject {
    match o {
        TurboVisionObject::MenuBar(m) => TurboVisionObject::MenuBar(TurboVisionMenuBar { attached: true, ..m }),
        TurboVisionObject::StatusLine(s) => TurboVisionObject::StatusLine(TurboVisionStatusLine { attached: true, ..s }),
        _ => o,
    }
}

/// `Application.SetMenuBar` / `SetStatusLine`: whether installing `handle`
/// as the application's (only) menu bar, resp. status line, succeeds.
pub open spec fn spec_set_chrome(
    m: Map<u32, TurboVisionObject>,
    current: Option<u32>,
    handle: u32,
    menu_bar: bool,
) -> Result<(), TuiError> {
    if !m.contains_key(handle) || (menu_bar && !(m[handle] is MenuBar)) || (!menu_bar && !(m[handle] is StatusLine)) {
        Err(TuiError::UnknownHandle { handle })
    } else if spec_chrome_attached(m[handle]) {
        Err(TuiError::ChromeAlreadyAttached { handle })
    } else if current is Some {
        Err(TuiError::ChromeAlreadySet)
    } else {
        Ok(())
    }
}

/// The command a headless menu dispatch queues, or why it cannot.
pub open spec fn spec_menu_command(
    m: Map<u32, TurboVisionObject>,
    handle: u32,
    menu_index: usize,
    item_index: usize,
) -> Result<u16, TuiError> {
    if !m.contains_key(handle) || !(m[handle] is MenuBar) {
        Err(TuiError::UnknownHandle { handle })
    } else {
        let bar = m[handle]->MenuBar_0;
        if menu_index >= bar.menus@.len() {
            Err(TuiError::MenuIndexOutOfRange)
        } else if item_index >= bar.menus@[menu_index as int].items@.len() {
            Err(TuiError::MenuItemIndexOutOfRange)
        } else if bar.menus@[menu_index as int].items@[item_index as int].command_id == 0 {
            Err(TuiError::SeparatorDispatch)
        } else {
            Ok(bar.menus@[menu_index as int].items@[item_index as int].command_id)
        }
    }
}

/// The command a headless button click queues, or why it cannot.
pub open spec fn spec_button_command(m: Map<u32, TurboVisionObject>, handle: u32) -> Result<u16, TuiError> {
    if m.contains_key(handle) && m[handle] is Button {
        Ok(m[handle]->Button_0.command_id)
    } else {
        Err(TuiError::UnknownHandle { handle })
    }
}

/// Mark a menu bar or status line as installed chrome.
fn mark_chrome(o: TurboVisionObject) -> (r: TurboVisionObject)
    ensures
        r == spec_chrome_marked(o),
{
    match o {
        TurboVisionObject::MenuBar(mut b) => {
            b.attached = true;
            TurboVisionObject::MenuBar(b)
        },
        TurboVisionObject::StatusLine(mut s) => {
            s.attached = true;
            TurboVisionObject::StatusLine(s)
        },
        other => other,
    }
}

impl TurboVisionState {
    /// Install the menu bar or status line `handle` as application chrome.
    fn set_chrome(&mut self, handle: u32, menu_bar: bool) -> (r: Result<(), TuiError>)
        requires
            old(self).wf(),
        ensures
            final(self).wf(),
            final(self).next_handle == old(self).next_handle,
            final(self).pending_commands@ == old(self).pending_commands@,
            final(self).quit_requested == old(self).quit_requested,
            final(self).test_dialog_result == old(self).test_dialog_result,
            final(self).pending_reconcile == old(self).pending_reconcile,
            r == spec_set_chrome(
                old(self).spec_objects(),
                if menu_bar { old(self).menu_bar } else { old(self).status_line },
                handle,
                menu_bar,
            ),
            r is Ok ==> spec_agree_except(old(self).spec_objects(), final(self).spec_objects(), handle, handle)
                && final(self).spec_objects()[handle] == spec_chrome_marked(old(self).spec_objects()[handle])
                && (menu_bar ==> final(self).menu_bar == Some(handle) && final(self).status_line == old(self).status_line)
                && (!menu_bar ==> final(self).status_line == Some(handle) && final(self).menu_bar == old(self).menu_bar),
            r is Err ==> final(self).spec_objects() == old(self).spec_objects() && final(self).menu_bar
                == old(self).menu_bar && final(self).status_line == old(self).status_line,
    {
        let i = match self.object_index(handle) {
            Some(i) => i,
            None => {
                return Err(TuiError::UnknownHandle { handle });
            },
        };
        let attached = match &self.objects[i].1 {
            TurboVisionObject::MenuBar(b) => if menu_bar {
                Some(b.attached)
            } else {
                None
            },
            TurboVisionObject::StatusLine(s) => if !menu_bar {
                Some(s.attached)
            } else {
                None
            },
            _ => None,
        };
        let attached = match attached {
            Some(a) => a,
            None => {
                return Err(TuiError::UnknownHandle { handle });
            },
        };
        if attached {
            return Err(TuiError::ChromeAlreadyAttached { handle });
        }
        let current = if menu_bar { self.menu_bar } else { self.status_line };
        if current.is_some() {
            return Err(TuiError::ChromeAlreadySet);
        }
        let ghost m0 = self.spec_objects();
        let p = Self::placeholder_object();
        let o = self.swap_out(i, p);
        let n = mark_chrome(o);
        let ghost g = n;
        self.replace_at(i, n);
        if menu_bar {
            self.menu_bar = Some(handle);
        } else {
            self.status_line = Some(handle);
        }
        assert(self.spec_objects() =~= m0.insert(handle, g));
        assert(self.spec_objects().dom() =~= m0.dom());
        Ok(())
    }

    /// `Application.SetMenuBar`: install the application's only menu bar.
    pub fn set_menu_bar(&mut self, handle: u32) -> (r: Result<(), TuiError>)
        requires
            old(self).wf(),
        ensures
            final(self).wf(),
            final(self).next_handle == old(self).next_handle,
            final(self).pending_commands@ == old(self).pending_commands@,
            final(self).quit_requested == old(self).quit_requested,
            final(self).test_dialog_result == old(self).test_dialog_result,
            final(self).pending_reconcile == old(self).pending_reconcile,
            final(self).status_line == old(self).status_line,
            r == spec_set_chrome(old(self).spec_objects(), old(self).menu_bar, handle, true),
            r is Ok ==> spec_agree_except(old(self).spec_objects(), final(self).spec_objects(), handle, handle)
                && final(self).spec_objects()[handle] == spec_chrome_marked(old(self).spec_objects()[handle])
                && final(self).menu_bar == Some(handle),
            r is Err ==> final(self).spec_objects() == old(self).spec_objects() && final(self).menu_bar
                == old(self).menu_bar,
    {
        self.set_chrome(handle, true)
    }

    /// `Application.SetStatusLine`: install the application's only status line.
    pub fn set_status_line(&mut self, handle: u32) -> (r: Result<(), TuiError>)
        requires
            old(self).wf(),
        ensures
            final(self).wf(),
            final(self).next_handle == old(self).next_handle,
            final(self).pending_commands@ == old(self).pending_commands@,
            final(self).quit_requested == old(self).quit_requested,
            final(self).test_dialog_result == old(self).test_dialog_result,
            final(self).pending_reconcile == old(self).pending_reconcile,
            final(self).menu_bar == old(self).menu_bar,
            r == spec_set_chrome(old(self).spec_objects(), old(self).status_line, handle, false),
            r is Ok ==> spec_agree_except(old(self).spec_objects(), final(self).spec_objects(), handle, handle)
                && final(self).spec_objects()[handle] == spec_chrome_marked(old(self).spec_objects()[handle])
                && final(self).status_line == Some(handle),
            r is Err ==> final(self).spec_objects() == old(self).spec_objects() && final(self).status_line
                == old(self).status_line,
    {
        self.set_chrome(handle, false)
    }

    /// `Application.TestClickButton`: queue the button's command.
    pub fn test_click_button(&mut self, handle: u32) -> (r: Result<(), TuiError>)
        requires
            old(self).wf(),
        ensures
            final(self).wf(),
            final(self).objects@ == old(self).objects@,
            final(self).next_handle == old(self).next_handle,
            final(self).menu_bar == old(self).menu_bar,
            final(self).status_line == old(self).status_line,
            final(self).quit_requested == old(self).quit_requested,
            final(self).pending_reconcile == old(self).pending_reconcile,
            final(self).test_dialog_result == old(self).test_dialog_result,
            match spec_button_command(old(self).spec_objects(), handle) {
                Ok(c) => r is Ok && final(self).pending_commands@ == old(self).pending_commands@.push(c),
                Err(e) => r == Err::<(), TuiError>(e) && final(self).pending_commands@ == old(self).pending_commands@,
            },
    {
        match self.object(handle) {
            Some(TurboVisionObject::Button(b)) => {
                let c = b.command_id;
                self.pending_commands.push(c);
                Ok(())
            },
            _ => Err(TuiError::UnknownHandle { handle }),
        }
    }

    /// `Application.TestDispatchMenuCommand`: queue the command of a menu item.
    pub fn test_dispatch_menu_command(&mut self, handle: u32, menu_index: usize, item_index: usize) -> (r: Result<(), TuiError>)
        requires
            old(self).wf(),
        ensures
            final(self).wf(),
            final(self).objects@ == old(self).objects@,
            final(self).next_handle == old(self).next_handle,
            final(self).menu_bar == old(self).menu_bar,
            final(self).status_line == old(self).status_line,
            final(self).quit_requested == old(self).quit_requested,
            final(self).pending_reconcile == old(self).pending_reconcile,
            final(self).test_dialog_result == old(self).test_dialog_result,
            match spec_menu_command(old(self).spec_objects(), handle, menu_index, item_index) {
                Ok(c) => r is Ok && final(self).pending_commands@ == old(self).pending_commands@.push(c),
                Err(e) => r == Err::<(), TuiError>(e) && final(self).pending_commands@ == old(self).pending_commands@,
            },
    {
        let command = match self.object(handle) {
            Some(TurboVisionObject::MenuBar(bar)) => {
                if menu_index >= bar.menus.len() {
                    return Err(TuiError::MenuIndexOutOfRange);
                }
                let menu = &bar.menus[menu_index];
                if item_index >= menu.items.len() {
                    return Err(TuiError::MenuItemIndexOutOfRange);
                }
                let item = &menu.items[item_index];
                if item.command_id == 0 {
                    return Err(TuiError::SeparatorDispatch);
                }
                item.command_id
            },
            _ => {
                return Err(TuiError::UnknownHandle { handle });
            },
        };
        self.pending_commands.push(command);
        Ok(())
    }

    /// The next queued command, unless the application is quitting.
    pub fn pump_next_command(&mut self) -> (command: Option<u16>)
        requires
            old(self).wf(),
        ensures
            final(self).wf(),
            final(self).objects@ == old(self).objects@,
            final(self).next_handle == old(self).next_handle,
            final(self).menu_bar == old(self).menu_bar,
            final(self).status_line == old(self).status_line,
            final(self).quit_requested == old(self).quit_requested,
            final(self).pending_reconcile == old(self).pending_reconcile,
            final(self).test_dialog_result == old(self).test_dialog_result,
            old(self).quit_requested || old(self).pending_commands@.len() == 0 ==> command is None
                && final(self).pending_commands@ == old(self).pending_commands@,
            !old(self).quit_requested && old(self).pending_commands@.len() > 0 ==> command == Some(
                old(self).pending_commands@[0],
            ) && final(self).pending_commands@ == old(self).pending_commands@.drop_first(),
    {
        if self.quit_requested || self.pending_commands.len() == 0 {
            return None;
        }
        let c = self.pending_commands.remove(0);
        assert(self.pending_commands@ =~= old(self).pending_commands@.drop_first());
        Some(c)
    }
}

} // verus!
