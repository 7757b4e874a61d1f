//! In-place updates of shown Turbo Vision views after an FPAS data
//! mutation: which views to patch and with what, and what the session does
//! when the desktop could not take the patch.
use vstd::prelude::*;
use crate::readback::{spec_group_members, spec_text_for_set_text};
use crate::session::{LiveViewLocation, locate_live_view, spec_locate_live_view};
use crate::store::TurboVisionObject;
use crate::outline::spec_views;
use crate::worker::{TuiState, Worker};

verus! {

broadcast use vstd::std_specs::hash::group_hash_axioms;

/// A data mutation that may be mirrored into the shown view tree.
#[derive(Debug)]
pub enum LiveDataMutation {
    SetTitle { handle: u32, title: String },
    SetChecked { handle: u32 },
    SetListItems { handle: u32, items: Vec<String>, selection: Option<usize> },
    SetText { handle: u32 },
}

/// What to do to one located view.
#[derive(Debug)]
pub enum LivePatchAction {
    /// Retitle a window or dialog.
    SetTitle { title: String },
    /// Set the checked state of a check box or radio button to the one the
    /// FPAS object holds.
    SetChecked { checked: bool },
    /// Replace the items and selection of a list box.
    SetListItems { items: Vec<String>, selection: Option<usize> },
    /// Replace the text of a static text, memo or text viewer.
    SetText { text: String },
}

/// The mathematical content of a patch action.
pub enum PatchActionView {
    SetTitle(Seq<char>),
    SetChecked(bool),
    SetListItems(Seq<Seq<char>>, Option<usize>),
    SetText(Seq<char>),
}

impl LivePatchAction {
    pub open spec fn view(self) -> PatchActionView {
        match self {
            LivePatchAction::SetTitle { title } => PatchActionView::SetTitle(title@),
            LivePatchAction::SetChecked { checked } => PatchActionView::SetChecked(checked),
            LivePatchAction::SetListItems { items, selection } => PatchActionView::SetListItems(
                spec_views(items@),
                selection,
            ),
            LivePatchAction::SetText { text } => PatchActionView::SetText(text@),
        }
    }
}

/// One view to patch and the patch.
#[derive(Debug)]
pub struct LivePatch {
    pub location: LiveViewLocation,
    pub action: LivePatchAction,
}

/// The patches of a plan, as values.
pub open spec fn spec_patch_views(patches: Seq<LivePatch>) -> Seq<(LiveViewLocation, PatchActionView)> {
    patches.map_values(|p: LivePatch| (p.location, p.action.view()))
}

/// Where the view of `handle` sits in the session's desktop.
pub open spec fn spec_locate(tui: TuiState, handle: u32) -> Option<LiveViewLocation> {
    spec_locate_live_view(tui.live_view_ids@, tui.live_child_root_view_ids@, handle)
}

/// The handles whose checked state a `SetChecked` mirror touches: the whole
/// radio group of `handle`, or `handle` alone when it has none.
pub open spec fn spec_checked_targets(tui: TuiState, handle: u32) -> Seq<u32> {
    let members = match tui.turbo_vision.spec_objects().get(handle) {
        Some(TurboVisionObject::RadioButton(r)) => spec_group_members(tui.turbo_vision.objects@, r.group_id),
        _ => Seq::empty(),
    };
    if members.len() == 0 {
        seq![handle]
    } else {
        members
    }
}

/// The checked state the FPAS object under `handle` holds: a check box's
/// `checked`, a radio button's `selected`.
pub open spec fn spec_checked_state(tui: TuiState, handle: u32) -> bool {
    match tui.turbo_vision.spec_objects().get(handle) {
        Some(TurboVisionObject::CheckBox(c)) => c.checked,
        Some(TurboVisionObject::RadioButton(r)) => r.selected,
        _ => false,
    }
}

/// For each of `targets`, its located view set to its checked state.
pub open spec fn spec_checked_patches(tui: TuiState, targets: Seq<u32>) -> Seq<(LiveViewLocation, PatchActionView)> {
    targets.map_values(|t: u32| (spec_locate(tui, t)->0, PatchActionView::SetChecked(spec_checked_state(tui, t))))
}

/// Every target has a located view.
pub open spec fn spec_all_located(tui: TuiState, targets: Seq<u32>) -> bool {
    forall|i: int| 0 <= i < targets.len() ==> (#[trigger] spec_locate(tui, targets[i])) is Some
}

/// The patches that mirror `mutation`, or `None` when some view to patch
/// is not shown (the tree is then rebuilt instead).
pub open spec fn spec_live_patch_plan(tui: TuiState, mutation: LiveDataMutation) -> Option<
    Seq<(LiveViewLocation, PatchActionView)>,
> {
    match mutation {
        LiveDataMutation::SetTitle { handle, title } => match spec_locate(tui, handle) {
            Some(l) => Some(seq![(l, PatchActionView::SetTitle(title@))]),
            None => None,
        },
        LiveDataMutation::SetChecked { handle } => {
            let targets = spec_checked_targets(tui, handle);
            if spec_all_located(tui, targets) {
                Some(spec_checked_patches(tui, targets))
            } else {
                None
            }
        },
        LiveDataMutation::SetListItems { handle, items, selection } => match spec_locate(tui, handle) {
            Some(l) => Some(seq![(l, PatchActionView::SetListItems(spec_views(items@), selection))]),
            None => None,
        },
        LiveDataMutation::SetText { handle } => {
            let m = tui.turbo_vision.spec_objects();
            if m.contains_key(handle) && m[handle] is InputLine {
                // The input line's binding already carries the text.
                match spec_locate(tui, handle) {
                    Some(_) => Some(Seq::empty()),
                    None => None,
                }
            } else {
                match (spec_text_for_set_text(m, handle), spec_locate(tui, handle)) {
                    (Some(t), Some(l)) => Some(seq![(l, PatchActionView::SetText(t))]),
                    _ => None,
                }
            }
        },
    }
}

/// Copy a list of strings.
pub(crate) fn clone_strings(items: &Vec<String>) -> (out: Vec<String>)
    ensures
        spec_views(out@) == spec_views(items@),
{
    let mut out: Vec<String> = Vec::new();
    let mut i: usize = 0;
    while i < items.len()
        invariant
            0 <= i <= items@.len(),
            spec_views(out@) == spec_views(items@.subrange(0, i as int)),
        decreases items.len() - i,
    {
        let s = items[i].clone();
        let ghost before = out@;
        out.push(s);
        assert(items@.subrange(0, i + 1) =~= items@.subrange(0, i as int).push(items@[i as int]));
        assert(spec_views(out@) =~= spec_views(before).push(s@));
        assert(spec_views(items@.subrange(0, i + 1)) =~= spec_views(items@.subrange(0, i as int)).push(items@[i as int]@));
        i = i + 1;
    }
    assert(items@.subrange(0, items@.len() as int) =~= items@);
    out
}

impl Worker {
    /// The text a live `SetText` patch shows for `handle`.
    pub fn turbo_vision_text_for_set_text(&self, handle: u32) -> (text: Option<String>)
        requires
            self.wf(),
        ensures
            match text {
                Some(t) => spec_text_for_set_text(self.tui.turbo_vision.spec_objects(), handle) == Some(t@),
                None => spec_text_for_set_text(self.tui.turbo_vision.spec_objects(), handle) is None,
            },
    {
        self.tui.turbo_vision.text_for_set_text(handle)
    }

    /// The radio buttons of the group of `handle`, in handle order; empty
    /// when `handle` is not a radio button.
    pub fn turbo_vision_radio_group_handles(&self, handle: u32) -> (members: Vec<u32>)
        requires
            self.wf(),
        ensures
            members@ == match self.tui.turbo_vision.spec_objects().get(handle) {
                Some(TurboVisionObject::RadioButton(r)) => spec_group_members(self.tui.turbo_vision.objects@, r.group_id),
                _ => Seq::empty(),
            },
    {
        self.tui.turbo_vision.radio_group_handles(handle)
    }

    /// The view patches that mirror `mutation` into the shown desktop, or
    /// `None` when one of the views to patch is not shown.
    pub fn turbo_vision_live_patch_plan(&self, mutation: &LiveDataMutation) -> (plan: Option<Vec<LivePatch>>)
        requires
            self.wf(),
        ensures
            match plan {
                Some(p) => spec_live_patch_plan(self.tui, *mutation) == Some(spec_patch_views(p@)),
                None => spec_live_patch_plan(self.tui, *mutation) is None,
            },
    {
        let view_ids = &self.tui.live_view_ids;
        let roots = &self.tui.live_child_root_view_ids;
        match mutation {
            LiveDataMutation::SetTitle { handle, title } => match locate_live_view(view_ids, roots, *handle) {
                Some(location) => {
                    let mut v: Vec<LivePatch> = Vec::new();
                    v.push(LivePatch { location, action: LivePatchAction::SetTitle { title: title.clone() } });
                    assert(spec_patch_views(v@) =~= seq![(location, PatchActionView::SetTitle(title@))]);
                    Some(v)
                },
                None => None,
            },
            LiveDataMutation::SetChecked { handle } => {
                let members = self.turbo_vision_radio_group_handles(*handle);
                let mut targets = members;
                if targets.len() == 0 {
                    targets.push(*handle);
                }
                let ghost t = spec_checked_targets(self.tui, *handle);
                assert(targets@ =~= t);
                let mut v: Vec<LivePatch> = Vec::new();
                let mut i: usize = 0;
                while i < targets.len()
                    invariant
                        targets@ == t,
                        t == spec_checked_targets(self.tui, *handle),
                        *mutation matches LiveDataMutation::SetChecked { handle: hh } && hh == *handle,
                        0 <= i <= t.len(),
                        view_ids == &self.tui.live_view_ids,
                        roots == &self.tui.live_child_root_view_ids,
                        self.wf(),
                        spec_all_located(self.tui, t.subrange(0, i as int)),
                        spec_patch_views(v@) == spec_checked_patches(self.tui, t.subrange(0, i as int)),
                    decreases t.len() - i,
                {
                    let h = targets[i];
                    match locate_live_view(view_ids, roots, h) {
                        Some(location) => {
                            let checked = match self.tui.turbo_vision.object(h) {
                                Some(TurboVisionObject::CheckBox(c)) => c.checked,
                                Some(TurboVisionObject::RadioButton(r)) => r.selected,
                                _ => false,
                            };
                            let ghost before = v@;
                            v.push(LivePatch { location, action: LivePatchAction::SetChecked { checked } });
                            assert(checked == spec_checked_state(self.tui, h));
                            assert(t.subrange(0, i + 1) =~= t.subrange(0, i as int).push(h));
                            assert(spec_patch_views(v@) =~= spec_patch_views(before).push(
                                (location, PatchActionView::SetChecked(checked)),
                            ));
                            assert(spec_checked_patches(self.tui, t.subrange(0, i + 1)) =~= spec_checked_patches(
                                self.tui,
                                t.subrange(0, i as int),
                            ).push((location, PatchActionView::SetChecked(checked))));
                            assert(spec_all_located(self.tui, t.subrange(0, i + 1))) by {
                                assert forall|j: int| 0 <= j < i + 1 implies (#[trigger] spec_locate(
                                    self.tui,
                                    t.subrange(0, i + 1)[j],
                                )) is Some by {
                                    if j < i {
                                        assert(t.subrange(0, i + 1)[j] == t.subrange(0, i as int)[j]);
                                    }
                                }
                            }
                        },
                        None => {
                            assert(!spec_all_located(self.tui, t)) by {
                                assert(spec_locate(self.tui, t[i as int]) is None);
                            }
                            return None;
                        },
                    }
                    i = i + 1;
                }
                assert(t.subrange(0, t.len() as int) =~= t);
                Some(v)
            },
            LiveDataMutation::SetListItems { handle, items, selection } => match locate_live_view(
                view_ids,
                roots,
                *handle,
            ) {
                Some(location) => {
                    let mut v: Vec<LivePatch> = Vec::new();
                    let copy = clone_strings(items);
                    v.push(LivePatch { location, action: LivePatchAction::SetListItems { items: copy, selection: *selection } });
                    assert(spec_patch_views(v@) =~= seq![
                        (location, PatchActionView::SetListItems(spec_views(items@), *selection)),
                    ]);
                    Some(v)
                },
                None => None,
            },
            LiveDataMutation::SetText { handle } => {
                let is_input_line = match self.tui.turbo_vision.object(*handle) {
                    Some(TurboVisionObject::InputLine(_)) => true,
                    _ => false,
                };
                if is_input_line {
                    match locate_live_view(view_ids, roots, *handle) {
                        Some(_) => {
                            let v: Vec<LivePatch> = Vec::new();
                            assert(spec_patch_views(v@) =~= Seq::<(LiveViewLocation, PatchActionView)>::empty());
                            Some(v)
                        },
                        None => None,
                    }
                } else {
                    let text = match self.turbo_vision_text_for_set_text(*handle) {
                        Some(t) => t,
                        None => return None,
                    };
                    match locate_live_view(view_ids, roots, *handle) {
                        Some(location) => {
                            let ghost tv = text@;
                            let mut v: Vec<LivePatch> = Vec::new();
                            v.push(LivePatch { location, action: LivePatchAction::SetText { text } });
                            assert(spec_patch_views(v@) =~= seq![(location, PatchActionView::SetText(tv))]);
                            Some(v)
                        },
                        None => None,
                    }
                }
            },
        }
    }

    /// Whether the headless desktop took a patch: only with a headless
    /// session, and then as the desktop answered.
    pub fn turbo_vision_try_headless_data_mutation(&self, desktop_patched: bool) -> (applied: bool)
        ensures
            applied == (self.headless_tv_app is Some && desktop_patched),
    {
        self.headless_tv_app.is_some() && desktop_patched
    }

    /// Whether the live desktop took a patch: only with a live session, and
    /// then as the desktop answered.
    pub fn turbo_vision_try_live_data_mutation(&self, desktop_patched: bool) -> (applied: bool)
        ensures
            applied == (self.live_turbo_vision_app is Some && desktop_patched),
    {
        self.turbo_vision_live_app_active() && desktop_patched
    }

    /// After a data mutation: a patched headless desktop asks for a
    /// repaint; a desktop that could not take the patch (or no desktop)
    /// makes the tree dirty so that it is rebuilt.
    pub fn turbo_vision_after_data_mutation(&mut self, desktop_patched: bool)
        ensures
            final(self).stack == old(self).stack,
            final(self).live_turbo_vision_app == old(self).live_turbo_vision_app,
            final(self).headless_tv_app == old(self).headless_tv_app,
            final(self).input_line_view_bindings == old(self).input_line_view_bindings,
            final(self).tui.turbo_vision.objects == old(self).tui.turbo_vision.objects,
            final(self).tui.turbo_vision.next_handle == old(self).tui.turbo_vision.next_handle,
            final(self).tui.turbo_vision.pending_commands == old(self).tui.turbo_vision.pending_commands,
            final(self).tui.quit_requested == old(self).tui.quit_requested,
            final(self).tui.headless == old(self).tui.headless,
            ({
                let applied = if old(self).tui.headless {
                    old(self).headless_tv_app is Some && desktop_patched
                } else {
                    old(self).live_turbo_vision_app is Some && desktop_patched
                };
                &&& final(self).tui.turbo_vision.pending_reconcile == (old(self).tui.turbo_vision.pending_reconcile
                    || !applied)
                &&& final(self).tui.headless_repaint_requested == (old(self).tui.headless_repaint_requested || (
                old(self).tui.headless && applied))
            }),
    {
        if self.tui.headless {
            if self.turbo_vision_try_headless_data_mutation(desktop_patched) {
                self.tui.headless_repaint_requested = true;
            } else {
                self.mark_turbo_vision_tree_dirty();
            }
            return ;
        }
        if !self.turbo_vision_try_live_data_mutation(desktop_patched) {
            self.mark_turbo_vision_tree_dirty();
        }
    }
}

} // verus!
