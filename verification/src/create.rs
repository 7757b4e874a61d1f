//! The remaining `Create*` intrinsics: memo, text viewer, dialog, menu bar
//! and status line.
use vstd::prelude::*;
use crate::decode::{TUI_MEMO_TYPE, TUI_TEXT_VIEWER_TYPE, TUI_DIALOG_TYPE, TUI_MENU_BAR_TYPE, TUI_STATUS_LINE_TYPE, TvRect};
use crate::error::TuiError;
use crate::records::{
    decode_menus, decode_status_items, spec_decode_menus, spec_decode_status_items, spec_menu_views,
    spec_status_item_views,
};
use crate::store::{TurboVisionMenu, TurboVisionMenuBar, TurboVisionObject, TurboVisionStatusItem, TurboVisionStatusLine};
use crate::value::Value;
use crate::worker::{
    TextObjectKind, Worker, lemma_popped_compose, spec_allocated, spec_arg, spec_new_text_object, spec_popped,
    spec_pushed_handle, spec_rect_app_args, spec_text_rect_app_args, spec_same_session, spec_same_but_stack,
};

verus! {

/// Arguments of `CreateMenuBar(App, Bounds, Menus)`.
pub open spec fn spec_create_menu_bar_args(s: Seq<Value>) -> (Result<(Seq<(Seq<char>, Seq<(Seq<char>, u16)>)>, TvRect), TuiError>, int) {
    if s.len() < 1 {
        (Err(TuiError::StackUnderflow), 0)
    } else {
        match spec_decode_menus(spec_arg(s, 0)) {
            Err(e) => (Err(e), 1),
            Ok(menus) => {
                let (r, n) = spec_rect_app_args(spec_popped(s, 1));
                match r {
                    Err(e) => (Err(e), n + 1),
                    Ok(rect) => (Ok((menus, rect)), n + 1),
                }
            },
        }
    }
}

/// Arguments of `CreateStatusLine(App, Bounds, Items)`.
pub open spec fn spec_create_status_line_args(s: Seq<Value>) -> (Result<(Seq<(Seq<char>, u16, u16)>, TvRect), TuiError>, int) {
    if s.len() < 1 {
        (Err(TuiError::StackUnderflow), 0)
    } else {
        match spec_decode_status_items(spec_arg(s, 0)) {
            Err(e) => (Err(e), 1),
            Ok(items) => {
                let (r, n) = spec_rect_app_args(spec_popped(s, 1));
                match r {
                    Err(e) => (Err(e), n + 1),
                    Ok(rect) => (Ok((items, rect)), n + 1),
                }
            },
        }
    }
}

impl Worker {
    /// `Application.CreateMemo(App, Bounds, Text)`.
    pub fn turbo_vision_create_memo(&mut self) -> (r: Result<(), TuiError>)
        requires
            old(self).wf(),
        ensures
            final(self).wf(),
            spec_same_session(*final(self), *old(self)),
            final(self).input_line_view_bindings == old(self).input_line_view_bindings,
            match spec_text_rect_app_args(old(self).stack@).0 {
                Err(e) => r == Err::<(), TuiError>(e) && final(self).tui == old(self).tui
                    && final(self).stack@ == spec_popped(old(self).stack@, spec_text_rect_app_args(old(self).stack@).1),
                Ok((t, rect)) => r is Ok && {
                    let h = old(self).tui.turbo_vision.next_handle;
                    &&& spec_allocated(old(self).tui.turbo_vision, final(self).tui.turbo_vision, h)
                    &&& spec_new_text_object(final(self).tui.turbo_vision.spec_objects()[h], TextObjectKind::Memo, t, rect)
                    &&& final(self).tui.turbo_vision.pending_reconcile
                    &&& spec_pushed_handle(
                        spec_popped(old(self).stack@, spec_text_rect_app_args(old(self).stack@).1),
                        final(self).stack@,
                        TUI_MEMO_TYPE@,
                        h,
                    )
                },
            },
    {
        self.turbo_vision_create_text_object(TextObjectKind::Memo)
    }

    /// `Application.CreateTextViewer(App, Bounds, Text)`.
    pub fn turbo_vision_create_text_viewer(&mut self) -> (r: Result<(), TuiError>)
        requires
            old(self).wf(),
        ensures
            final(self).wf(),
            spec_same_session(*final(self), *old(self)),
            final(self).input_line_view_bindings == old(self).input_line_view_bindings,
            match spec_text_rect_app_args(old(self).stack@).0 {
                Err(e) => r == Err::<(), TuiError>(e) && final(self).tui == old(self).tui
                    && final(self).stack@ == spec_popped(old(self).stack@, spec_text_rect_app_args(old(self).stack@).1),
                Ok((t, rect)) => r is Ok && {
                    let h = old(self).tui.turbo_vision.next_handle;
                    &&& spec_allocated(old(self).tui.turbo_vision, final(self).tui.turbo_vision, h)
                    &&& spec_new_text_object(final(self).tui.turbo_vision.spec_objects()[h], TextObjectKind::TextViewer, t, rect)
                    &&& final(self).tui.turbo_vision.pending_reconcile
                    &&& spec_pushed_handle(
                        spec_popped(old(self).stack@, spec_text_rect_app_args(old(self).stack@).1),
                        final(self).stack@,
                        TUI_TEXT_VIEWER_TYPE@,
                        h,
                    )
                },
            },
    {
        self.turbo_vision_create_text_object(TextObjectKind::TextViewer)
    }

    /// `Application.CreateDialog(App, Bounds, Title)`: an empty dialog; the
    /// object tree is not marked dirty (a dialog is shown only when run).
    pub fn turbo_vision_create_dialog(&mut self) -> (r: Result<(), TuiError>)
        requires
            old(self).wf(),
        ensures
            final(self).wf(),
            spec_same_session(*final(self), *old(self)),
            final(self).input_line_view_bindings == old(self).input_line_view_bindings,
            match spec_text_rect_app_args(old(self).stack@).0 {
                Err(e) => r == Err::<(), TuiError>(e) && final(self).tui == old(self).tui
                    && final(self).stack@ == spec_popped(old(self).stack@, spec_text_rect_app_args(old(self).stack@).1),
                Ok((t, rect)) => r is Ok && {
                    let h = old(self).tui.turbo_vision.next_handle;
                    &&& spec_allocated(old(self).tui.turbo_vision, final(self).tui.turbo_vision, h)
                    &&& spec_new_text_object(final(self).tui.turbo_vision.spec_objects()[h], TextObjectKind::Dialog, t, rect)
                    &&& final(self).tui.turbo_vision.pending_reconcile == old(self).tui.turbo_vision.pending_reconcile
                    &&& spec_pushed_handle(
                        spec_popped(old(self).stack@, spec_text_rect_app_args(old(self).stack@).1),
                        final(self).stack@,
                        TUI_DIALOG_TYPE@,
                        h,
                    )
                },
            },
    {
        self.turbo_vision_create_text_object(TextObjectKind::Dialog)
    }

    /// `Application.CreateMenuBar(App, Bounds, Menus)`: a menu bar that is
    /// not yet installed as chrome.
    pub fn turbo_vision_create_menu_bar(&mut self) -> (r: Result<(), TuiError>)
        requires
            old(self).wf(),
        ensures
            final(self).wf(),
            spec_same_session(*final(self), *old(self)),
            final(self).input_line_view_bindings == old(self).input_line_view_bindings,
            match spec_create_menu_bar_args(old(self).stack@).0 {
                Err(e) => r == Err::<(), TuiError>(e) && final(self).tui == old(self).tui
                    && final(self).stack@ == spec_popped(old(self).stack@, spec_create_menu_bar_args(old(self).stack@).1),
                Ok((menus, rect)) => r is Ok && {
                    let h = old(self).tui.turbo_vision.next_handle;
                    let o = final(self).tui.turbo_vision.spec_objects()[h];
                    &&& spec_allocated(old(self).tui.turbo_vision, final(self).tui.turbo_vision, h)
                    &&& o is MenuBar
                    &&& spec_menu_views(o->MenuBar_0.menus@) == menus
                    &&& o->MenuBar_0.bounds == rect
                    &&& !o->MenuBar_0.attached
                    &&& final(self).tui.turbo_vision.pending_reconcile == old(self).tui.turbo_vision.pending_reconcile
                    &&& spec_pushed_handle(
                        spec_popped(old(self).stack@, spec_create_menu_bar_args(old(self).stack@).1),
                        final(self).stack@,
                        TUI_MENU_BAR_TYPE@,
                        h,
                    )
                },
            },
    {
        proof {
            lemma_popped_compose(self.stack@, 0);
            if self.stack@.len() >= 1 {
                lemma_popped_compose(self.stack@, 1);
            }
        }
        let menus = self.pop_turbo_vision_menus()?;
        let bounds = self.pop_rect_app()?;
        self.finish_create(
            TurboVisionObject::MenuBar(TurboVisionMenuBar { bounds, menus, attached: false }),
            TUI_MENU_BAR_TYPE,
            false,
        );
        Ok(())
    }

    /// `Application.CreateStatusLine(App, Bounds, Items)`: a status line
    /// that is not yet installed as chrome.
    pub fn turbo_vision_create_status_line(&mut self) -> (r: Result<(), TuiError>)
        requires
            old(self).wf(),
        ensures
            final(self).wf(),
            spec_same_session(*final(self), *old(self)),
            final(self).input_line_view_bindings == old(self).input_line_view_bindings,
            match spec_create_status_line_args(old(self).stack@).0 {
                Err(e) => r == Err::<(), TuiError>(e) && final(self).tui == old(self).tui
                    && final(self).stack@ == spec_popped(old(self).stack@, spec_create_status_line_args(old(self).stack@).1),
                Ok((items, rect)) => r is Ok && {
                    let h = old(self).tui.turbo_vision.next_handle;
                    let o = final(self).tui.turbo_vision.spec_objects()[h];
                    &&& spec_allocated(old(self).tui.turbo_vision, final(self).tui.turbo_vision, h)
                    &&& o is StatusLine
                    &&& spec_status_item_views(o->StatusLine_0.items@) == items
                    &&& o->StatusLine_0.bounds == rect
                    &&& !o->StatusLine_0.attached
                    &&& final(self).tui.turbo_vision.pending_reconcile == old(self).tui.turbo_vision.pending_reconcile
                    &&& spec_pushed_handle(
                        spec_popped(old(self).stack@, spec_create_status_line_args(old(self).stack@).1),
                        final(self).stack@,
                        TUI_STATUS_LINE_TYPE@,
                        h,
                    )
                },
            },
    {
        proof {
            lemma_popped_compose(self.stack@, 0);
            if self.stack@.len() >= 1 {
                lemma_popped_compose(self.stack@, 1);
            }
        }
        let items = self.pop_turbo_vision_status_items()?;
        let bounds = self.pop_rect_app()?;
        self.finish_create(
            TurboVisionObject::StatusLine(TurboVisionStatusLine { bounds, items, attached: false }),
            TUI_STATUS_LINE_TYPE,
            false,
        );
        Ok(())
    }
}


impl Worker {
    /// Pop the `Menus` argument of `CreateMenuBar`.
    pub fn pop_turbo_vision_menus(&mut self) -> (r: Result<Vec<TurboVisionMenu>, TuiError>)
        ensures
            spec_same_but_stack(*final(self), *old(self)),
            old(self).stack@.len() == 0 ==> r == Err::<Vec<TurboVisionMenu>, TuiError>(TuiError::StackUnderflow)
                && final(self).stack@ == old(self).stack@,
            old(self).stack@.len() > 0 ==> final(self).stack@ == spec_popped(old(self).stack@, 1)
                && match r {
                Ok(ms) => spec_decode_menus(spec_arg(old(self).stack@, 0))
                    == Ok::<Seq<(Seq<char>, Seq<(Seq<char>, u16)>)>, TuiError>(spec_menu_views(ms@)),
                Err(e) => spec_decode_menus(spec_arg(old(self).stack@, 0))
                    == Err::<Seq<(Seq<char>, Seq<(Seq<char>, u16)>)>, TuiError>(e),
            },
    {
        let v = self.pop()?;
        decode_menus(&v)
    }

    /// Pop the `Items` argument of `CreateStatusLine`.
    pub fn pop_turbo_vision_status_items(&mut self) -> (r: Result<Vec<TurboVisionStatusItem>, TuiError>)
        ensures
            spec_same_but_stack(*final(self), *old(self)),
            old(self).stack@.len() == 0 ==> r == Err::<Vec<TurboVisionStatusItem>, TuiError>(TuiError::StackUnderflow)
                && final(self).stack@ == old(self).stack@,
            old(self).stack@.len() > 0 ==> final(self).stack@ == spec_popped(old(self).stack@, 1)
                && match r {
                Ok(items) => spec_decode_status_items(spec_arg(old(self).stack@, 0))
                    == Ok::<Seq<(Seq<char>, u16, u16)>, TuiError>(spec_status_item_views(items@)),
                Err(e) => spec_decode_status_items(spec_arg(old(self).stack@, 0))
                    == Err::<Seq<(Seq<char>, u16, u16)>, TuiError>(e),
            },
    {
        let v = self.pop()?;
        decode_status_items(&v)
    }
}

} // verus!
