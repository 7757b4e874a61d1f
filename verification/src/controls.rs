//! Child attachment and mutable control state of the object store.
use vstd::prelude::*;
use crate::decode::{TurboVisionChildHandle, TurboVisionParentHandle, CheckedControlHandle};
use crate::error::TuiError;
use crate::store::{lemma_lookup_at, TurboVisionMenuBar, TurboVisionStatusLine, TurboVisionState, TurboVisionObject, TurboVisionButton, TurboVisionStaticText, TurboVisionMemo, TurboVisionTextViewer, TurboVisionInputLine, TurboVisionListBox, TurboVisionCheckBox, TurboVisionRadioButton, TurboVisionDialog, TurboVisionWindow};

verus! {

/// The stored object is of the kind that `child` names (outlines are not
/// attachable children).
pub open spec fn spec_child_kind_matches(o: TurboVisionObject, child: TurboVisionChildHandle) -> bool {
    match (o, child) {
        (TurboVisionObject::Button(_), TurboVisionChildHandle::Button(_)) => true,
        (TurboVisionObject::StaticText(_), TurboVisionChildHandle::StaticText(_)) => true,
        (TurboVisionObject::Memo(_), TurboVisionChildHandle::Memo(_)) => true,
        (TurboVisionObject::TextViewer(_), TurboVisionChildHandle::TextViewer(_)) => true,
        (TurboVisionObject::InputLine(_), TurboVisionChildHandle::InputLine(_)) => true,
        (TurboVisionObject::ListBox(_), TurboVisionChildHandle::ListBox(_)) => true,
        (TurboVisionObject::CheckBox(_), TurboVisionChildHandle::CheckBox(_)) => true,
        (TurboVisionObject::RadioButton(_), TurboVisionChildHandle::RadioButton(_)) => true,
        _ => false,
    }
}

/// The `attached` flag of an attachable control.
pub open spec fn spec_is_attached(o: TurboVisionObject) -> bool {
    match o {
        TurboVisionObject::Button(b) => b.attached,
        TurboVisionObject::StaticText(b) => b.attached,
        TurboVisionObject::Memo(b) => b.attached,
        TurboVisionObject::TextViewer(b) => b.attached,
        TurboVisionObject::InputLine(b) => b.attached,
        TurboVisionObject::ListBox(b) => b.attached,
        TurboVisionObject::CheckBox(b) => b.attached,
        TurboVisionObject::RadioButton(b) => b.attached,
        _ => false,
    }
}

/// The control with its `attached` flag set.
pub open spec fn spec_mark_attached(o: TurboVisionObject) -> TurboVisionObject {
    match o {
        TurboVisionObject::Button(b) => TurboVisionObject::Button(TurboVisionButton { attached: true, ..b }),
        TurboVisionObject::StaticText(b) => TurboVisionObject::StaticText(TurboVisionStaticText { attached: true, ..b }),
        TurboVisionObject::Memo(b) => TurboVisionObject::Memo(TurboVisionMemo { attached: true, ..b }),
        TurboVisionObject::TextViewer(b) => TurboVisionObject::TextViewer(TurboVisionTextViewer { attached: true, ..b }),
        TurboVisionObject::InputLine(b) => TurboVisionObject::InputLine(TurboVisionInputLine { attached: true, ..b }),
        TurboVisionObject::ListBox(b) => TurboVisionObject::ListBox(TurboVisionListBox { attached: true, ..b }),
        TurboVisionObject::CheckBox(b) => TurboVisionObject::CheckBox(TurboVisionCheckBox { attached: true, ..b }),
        TurboVisionObject::RadioButton(b) => TurboVisionObject::RadioButton(TurboVisionRadioButton { attached: true, ..b }),
        _ => o,
    }
}

/// The stored object is the container kind that `parent` names.
pub open spec fn spec_parent_kind_matches(o: TurboVisionObject, parent: TurboVisionParentHandle) -> bool {
    match (o, parent) {
        (TurboVisionObject::Dialog(_), TurboVisionParentHandle::Dialog(_)) => true,
        (TurboVisionObject::Window(_), TurboVisionParentHandle::Window(_)) => true,
        _ => false,
    }
}

pub open spec fn spec_parent_handle(parent: TurboVisionParentHandle) -> u32 {
    match parent {
        TurboVisionParentHandle::Dialog(h) => h,
        TurboVisionParentHandle::Window(h) => h,
    }
}

/// `new` is the container `old` with `child` appended to its children.
pub open spec fn spec_pushed_child(old: TurboVisionObject, new: TurboVisionObject, child: u32) -> bool {
    match (old, new) {
        (TurboVisionObject::Dialog(d), TurboVisionObject::Dialog(e)) => e.children@ == d.children@.push(child)
            && e.bounds == d.bounds && e.title == d.title,
        (TurboVisionObject::Window(d), TurboVisionObject::Window(e)) => e.children@ == d.children@.push(child)
            && e.bounds == d.bounds && e.title == d.title && e.on_desktop == d.on_desktop,
        _ => false,
    }
}

/// `m2` equals `m` on every handle other than `a` and `b`, with the same domain.
pub open spec fn spec_agree_except(m: Map<u32, TurboVisionObject>, m2: Map<u32, TurboVisionObject>, a: u32, b: u32) -> bool {
    &&& m2.dom() == m.dom()
    &&& forall|h: u32| m.contains_key(h) && h != a && h != b ==> #[trigger] m2[h] == m[h]
}

/// The children of a container, as handles.
pub open spec fn spec_children(o: TurboVisionObject) -> Seq<u32> {
    match o {
        TurboVisionObject::Dialog(d) => d.children@,
        TurboVisionObject::Window(w) => w.children@,
        _ => Seq::empty(),
    }
}

/// `Application.AddChild`: whether attaching `child` to `parent` succeeds.
pub open spec fn spec_add_child(
    m: Map<u32, TurboVisionObject>,
    parent: TurboVisionParentHandle,
    child: TurboVisionChildHandle,
) -> Result<(), TuiError> {
    let ch = child.spec_handle();
    let ph = spec_parent_handle(parent);
    if !m.contains_key(ch) || !spec_child_kind_matches(m[ch], child) {
        Err(TuiError::UnknownHandle { handle: ch })
    } else if spec_is_attached(m[ch]) {
        Err(TuiError::AlreadyAttached { handle: ch })
    } else if !m.contains_key(ph) || !spec_parent_kind_matches(m[ph], parent) {
        Err(TuiError::UnknownHandle { handle: ph })
    } else {
        Ok(())
    }
}

/// The objects after a successful attach: the parent lists the child and the
/// child is marked attached; nothing else changes.
pub open spec fn spec_add_child_effect(
    m: Map<u32, TurboVisionObject>,
    m2: Map<u32, TurboVisionObject>,
    parent: TurboVisionParentHandle,
    child: TurboVisionChildHandle,
) -> bool {
    let ch = child.spec_handle();
    let ph = spec_parent_handle(parent);
    &&& spec_agree_except(m, m2, ch, ph)
    &&& m2[ch] == spec_mark_attached(m[ch])
    &&& spec_pushed_child(m[ph], m2[ph], ch)
}

/// Everything but the object map is unchanged between two states.
pub open spec fn spec_same_bookkeeping(a: TurboVisionState, b: TurboVisionState) -> bool {
    &&& a.next_handle == b.next_handle
    &&& a.menu_bar == b.menu_bar
    &&& a.status_line == b.status_line
    &&& a.pending_commands@ == b.pending_commands@
    &&& a.quit_requested == b.quit_requested
    &&& a.test_dialog_result == b.test_dialog_result
}

impl TurboVisionState {
    /// Attach `child` to `parent`; on success the tree is marked dirty.
    pub fn add_child(&mut self, parent: TurboVisionParentHandle, child: TurboVisionChildHandle) -> (r: Result<(), TuiError>)
        requires
            old(self).wf(),
        ensures
            final(self).wf(),
            spec_same_bookkeeping(*final(self), *old(self)),
            r == spec_add_child(old(self).spec_objects(), parent, child),
            r is Ok ==> spec_add_child_effect(old(self).spec_objects(), final(self).spec_objects(), parent, child)
                && final(self).pending_reconcile,
            r is Err ==> final(self).spec_objects() == old(self).spec_objects()
                && final(self).pending_reconcile == old(self).pending_reconcile,
    {
        let ch = child.handle();
        let ci = match self.object_index(ch) {
            Some(i) => i,
            None => {
                return Err(TuiError::UnknownHandle { handle: ch });
            },
        };
        let attached = match (&self.objects[ci].1, child) {
            (TurboVisionObject::Button(b), TurboVisionChildHandle::Button(_)) => b.attached,
            (TurboVisionObject::StaticText(b), TurboVisionChildHandle::StaticText(_)) => b.attached,
            (TurboVisionObject::Memo(b), TurboVisionChildHandle::Memo(_)) => b.attached,
            (TurboVisionObject::TextViewer(b), TurboVisionChildHandle::TextViewer(_)) => b.attached,
            (TurboVisionObject::InputLine(b), TurboVisionChildHandle::InputLine(_)) => b.attached,
            (TurboVisionObject::ListBox(b), TurboVisionChildHandle::ListBox(_)) => b.attached,
            (TurboVisionObject::CheckBox(b), TurboVisionChildHandle::CheckBox(_)) => b.attached,
            (TurboVisionObject::RadioButton(b), TurboVisionChildHandle::RadioButton(_)) => b.attached,
            _ => {
                return Err(TuiError::UnknownHandle { handle: ch });
            },
        };
        if attached {
            return Err(TuiError::AlreadyAttached { handle: ch });
        }
        let ph = match parent {
            TurboVisionParentHandle::Dialog(h) => h,
            TurboVisionParentHandle::Window(h) => h,
        };
        let pi = match self.object_index(ph) {
            Some(i) => i,
            None => {
                return Err(TuiError::UnknownHandle { handle: ph });
            },
        };
        let parent_ok = match (&self.objects[pi].1, parent) {
            (TurboVisionObject::Dialog(_), TurboVisionParentHandle::Dialog(_)) => true,
            (TurboVisionObject::Window(_), TurboVisionParentHandle::Window(_)) => true,
            _ => false,
        };
        if !parent_ok {
            return Err(TuiError::UnknownHandle { handle: ph });
        }
        let ghost m0 = self.spec_objects();
        let old_parent = self.swap_out(pi, Self::placeholder_object());
        let new_parent = match old_parent {
            TurboVisionObject::Dialog(mut d) => {
                d.children.push(ch);
                TurboVisionObject::Dialog(d)
            },
            TurboVisionObject::Window(mut w) => {
                w.children.push(ch);
                TurboVisionObject::Window(w)
            },
            other => other,
        };
        assert(spec_pushed_child(m0[ph], new_parent, ch));
        self.replace_at(pi, new_parent);
        let old_child = self.swap_out(ci, Self::placeholder_object());
        let new_child = match old_child {
            TurboVisionObject::Button(mut b) => {
                b.attached = true;
                TurboVisionObject::Button(b)
            },
            TurboVisionObject::StaticText(mut b) => {
                b.attached = true;
                TurboVisionObject::StaticText(b)
            },
            TurboVisionObject::Memo(mut b) => {
                b.attached = true;
                TurboVisionObject::Memo(b)
            },
            TurboVisionObject::TextViewer(mut b) => {
                b.attached = true;
                TurboVisionObject::TextViewer(b)
            },
            TurboVisionObject::InputLine(mut b) => {
                b.attached = true;
                TurboVisionObject::InputLine(b)
            },
            TurboVisionObject::ListBox(mut b) => {
                b.attached = true;
                TurboVisionObject::ListBox(b)
            },
            TurboVisionObject::CheckBox(mut b) => {
                b.attached = true;
                TurboVisionObject::CheckBox(b)
            },
            TurboVisionObject::RadioButton(mut b) => {
                b.attached = true;
                TurboVisionObject::RadioButton(b)
            },
            other => other,
        };
        assert(new_child == spec_mark_attached(m0[ch]));
        self.replace_at(ci, new_child);
        self.pending_reconcile = true;
        assert(self.spec_objects().dom() =~= m0.dom());
        Ok(())
    }
}


// ---------------------------------------------------------------- SetText

/// Byte length of the UTF-8 encoding of `s`.
pub open spec fn spec_utf8_len(s: Seq<char>) -> usize {
    vstd::utf8::encode_utf8(s).len() as usize
}

/// `Application.SetText`: whether replacing the text of `handle` succeeds.
pub open spec fn spec_set_text(m: Map<u32, TurboVisionObject>, handle: u32, text: Seq<char>) -> Result<(), TuiError> {
    if !m.contains_key(handle) {
        Err(TuiError::UnknownHandle { handle })
    } else {
        match m[handle] {
            TurboVisionObject::Memo(_) => Ok(()),
            TurboVisionObject::TextViewer(_) => Ok(()),
            TurboVisionObject::Button(_) => Ok(()),
            TurboVisionObject::StaticText(_) => Ok(()),
            TurboVisionObject::CheckBox(_) => Ok(()),
            TurboVisionObject::RadioButton(_) => Ok(()),
            TurboVisionObject::InputLine(i) => if spec_utf8_len(text) > i.max_length {
                Err(TuiError::TextTooLong)
            } else {
                Ok(())
            },
            TurboVisionObject::ListBox(_) => Err(TuiError::SetTextOnListBox),
            _ => Err(TuiError::UnknownHandle { handle }),
        }
    }
}

/// `new` is `old` with its text replaced by `text`, all else equal.
pub open spec fn spec_text_replaced(old: TurboVisionObject, new: TurboVisionObject, text: Seq<char>) -> bool {
    match (old, new) {
        (TurboVisionObject::Memo(a), TurboVisionObject::Memo(b)) => b.text@ == text && b.bounds == a.bounds
            && b.attached == a.attached,
        (TurboVisionObject::TextViewer(a), TurboVisionObject::TextViewer(b)) => b.text@ == text && b.bounds
            == a.bounds && b.attached == a.attached,
        (TurboVisionObject::Button(a), TurboVisionObject::Button(b)) => b.text@ == text && b.bounds == a.bounds
            && b.attached == a.attached && b.command_id == a.command_id,
        (TurboVisionObject::StaticText(a), TurboVisionObject::StaticText(b)) => b.text@ == text && b.bounds
            == a.bounds && b.attached == a.attached,
        (TurboVisionObject::CheckBox(a), TurboVisionObject::CheckBox(b)) => b.text@ == text && b.bounds
            == a.bounds && b.attached == a.attached && b.checked == a.checked,
        (TurboVisionObject::RadioButton(a), TurboVisionObject::RadioButton(b)) => b.text@ == text && b.bounds
            == a.bounds && b.attached == a.attached && b.group_id == a.group_id && b.selected == a.selected,
        (TurboVisionObject::InputLine(a), TurboVisionObject::InputLine(b)) => b.text@ == text && b.bounds
            == a.bounds && b.attached == a.attached && b.max_length == a.max_length,
        _ => false,
    }
}

/// Replace the text of a text-bearing control.
pub fn replace_text(o: TurboVisionObject, text: String) -> (r: TurboVisionObject)
    requires
        o is Memo || o is TextViewer || o is Button || o is StaticText || o is CheckBox || o is RadioButton
            || o is InputLine,
    ensures
        spec_text_replaced(o, r, text@),
{
    match o {
        TurboVisionObject::Memo(mut b) => {
            b.text = text;
            TurboVisionObject::Memo(b)
        },
        TurboVisionObject::TextViewer(mut b) => {
            b.text = text;
            TurboVisionObject::TextViewer(b)
        },
        TurboVisionObject::Button(mut b) => {
            b.text = text;
            TurboVisionObject::Button(b)
        },
        TurboVisionObject::StaticText(mut b) => {
            b.text = text;
            TurboVisionObject::StaticText(b)
        },
        TurboVisionObject::CheckBox(mut b) => {
            b.text = text;
            TurboVisionObject::CheckBox(b)
        },
        TurboVisionObject::RadioButton(mut b) => {
            b.text = text;
            TurboVisionObject::RadioButton(b)
        },
        TurboVisionObject::InputLine(mut b) => {
            b.text = text;
            TurboVisionObject::InputLine(b)
        },
        other => other,
    }
}

// ---------------------------------------------------------------- SetChecked

/// `Application.SetChecked`: whether the control exists with the named kind.
pub open spec fn spec_set_checked(m: Map<u32, TurboVisionObject>, control: CheckedControlHandle) -> Result<(), TuiError> {
    match control {
        CheckedControlHandle::CheckBox(h) => if m.contains_key(h) && m[h] is CheckBox {
            Ok(())
        } else {
            Err(TuiError::UnknownHandle { handle: h })
        },
        CheckedControlHandle::RadioButton(h) => if m.contains_key(h) && m[h] is RadioButton {
            Ok(())
        } else {
            Err(TuiError::UnknownHandle { handle: h })
        },
    }
}

/// The radio group id of a radio button.
pub open spec fn spec_group(o: TurboVisionObject) -> Option<u16> {
    match o {
        TurboVisionObject::RadioButton(r) => Some(r.group_id),
        _ => None,
    }
}

/// A radio button with its selected state set to `selected`.
pub open spec fn spec_with_selected(o: TurboVisionObject, selected: bool) -> TurboVisionObject {
    match o {
        TurboVisionObject::RadioButton(r) => TurboVisionObject::RadioButton(TurboVisionRadioButton { selected, ..r }),
        _ => o,
    }
}

/// A check box with its checked state set to `checked`.
pub open spec fn spec_with_checked(o: TurboVisionObject, checked: bool) -> TurboVisionObject {
    match o {
        TurboVisionObject::CheckBox(c) => TurboVisionObject::CheckBox(TurboVisionCheckBox { checked, ..c }),
        _ => o,
    }
}

/// Deselect `o` when it is a radio button of group `g`.
pub open spec fn spec_deselect_in_group(o: TurboVisionObject, g: u16) -> TurboVisionObject {
    if spec_group(o) == Some(g) {
        spec_with_selected(o, false)
    } else {
        o
    }
}

/// The objects after a successful `SetChecked`.
///
/// A check box takes the new state. Checking a radio button first clears
/// every radio button of its group, then selects it; unchecking touches only
/// that button.
pub open spec fn spec_set_checked_effect(
    m: Map<u32, TurboVisionObject>,
    m2: Map<u32, TurboVisionObject>,
    control: CheckedControlHandle,
    checked: bool,
) -> bool {
    &&& m2.dom() == m.dom()
    &&& match control {
        CheckedControlHandle::CheckBox(h) => m2[h] == spec_with_checked(m[h], checked)
            && forall|k: u32| m.contains_key(k) && k != h ==> #[trigger] m2[k] == m[k],
        CheckedControlHandle::RadioButton(h) => m2[h] == spec_with_selected(m[h], checked)
            && forall|k: u32| m.contains_key(k) && k != h ==> #[trigger] m2[k] == if checked {
                spec_deselect_in_group(m[k], spec_group(m[h]).unwrap())
            } else {
                m[k]
            },
    }
}

/// Set the checked state of a check box.
pub fn with_checked(o: TurboVisionObject, checked: bool) -> (r: TurboVisionObject)
    ensures
        r == spec_with_checked(o, checked),
{
    match o {
        TurboVisionObject::CheckBox(mut c) => {
            c.checked = checked;
            TurboVisionObject::CheckBox(c)
        },
        other => other,
    }
}

/// Set the selected state of a radio button.
pub fn with_selected(o: TurboVisionObject, selected: bool) -> (r: TurboVisionObject)
    ensures
        r == spec_with_selected(o, selected),
{
    match o {
        TurboVisionObject::RadioButton(mut c) => {
            c.selected = selected;
            TurboVisionObject::RadioButton(c)
        },
        other => other,
    }
}

// ---------------------------------------------------------------- list items

/// The initial selection of a list with these items: the first item, if any.
pub open spec fn spec_initial_list_selection(len: nat) -> Option<usize> {
    if len == 0 {
        None
    } else {
        Some(0usize)
    }
}

/// `new` is the list box `old` holding `items` with selection `sel`.
pub open spec fn spec_list_refilled(old: TurboVisionObject, new: TurboVisionObject, items: Seq<Seq<char>>, sel: Option<usize>) -> bool {
    match (old, new) {
        (TurboVisionObject::ListBox(a), TurboVisionObject::ListBox(b)) => crate::outline::spec_views(b.items@) == items && b.selection == sel
            && b.bounds == a.bounds && b.command_id == a.command_id && b.attached == a.attached,
        _ => false,
    }
}

/// The selection a newly filled list box starts with.
pub fn initial_list_selection(items: &Vec<String>) -> (selection: Option<usize>)
    ensures
        selection == spec_initial_list_selection(items@.len()),
{
    if items.len() == 0 {
        None
    } else {
        Some(0)
    }
}

impl TurboVisionState {
    /// `Application.SetText`: replace the text of a text-bearing control.
    pub fn set_text(&mut self, handle: u32, text: String) -> (r: Result<(), TuiError>)
        requires
            old(self).wf(),
        ensures
            final(self).wf(),
            spec_same_bookkeeping(*final(self), *old(self)),
            final(self).pending_reconcile == old(self).pending_reconcile,
            r == spec_set_text(old(self).spec_objects(), handle, text@),
            r is Ok ==> spec_agree_except(old(self).spec_objects(), final(self).spec_objects(), handle, handle)
                && spec_text_replaced(old(self).spec_objects()[handle], final(self).spec_objects()[handle], text@),
            r is Err ==> *final(self) == *old(self),
    {
        let i = match self.object_index(handle) {
            Some(i) => i,
            None => {
                return Err(TuiError::UnknownHandle { handle });
            },
        };
        let ok = match &self.objects[i].1 {
            TurboVisionObject::Memo(_) => Ok(()),
            TurboVisionObject::TextViewer(_) => Ok(()),
            TurboVisionObject::Button(_) => Ok(()),
            TurboVisionObject::StaticText(_) => Ok(()),
            TurboVisionObject::CheckBox(_) => Ok(()),
            TurboVisionObject::RadioButton(_) => Ok(()),
            TurboVisionObject::InputLine(input) => {
                if text.as_str().len() > input.max_length {
                    Err(TuiError::TextTooLong)
                } else {
                    Ok(())
                }
            },
            TurboVisionObject::ListBox(_) => Err(TuiError::SetTextOnListBox),
            _ => Err(TuiError::UnknownHandle { handle }),
        };
        if ok.is_err() {
            return ok;
        }
        let ghost m0 = self.spec_objects();
        let p = Self::placeholder_object();
        let old_object = self.swap_out(i, p);
        let new_object = replace_text(old_object, text);
        let ghost g = new_object;
        self.replace_at(i, new_object);
        assert(self.spec_objects() =~= m0.insert(handle, g));
        assert(self.spec_objects().dom() =~= m0.dom());
        Ok(())
    }

    /// Clear the selected state of every radio button of group `g`.
    fn deselect_radio_group(&mut self, g: u16)
        requires
            old(self).wf(),
        ensures
            final(self).wf(),
            spec_same_bookkeeping(*final(self), *old(self)),
            final(self).pending_reconcile == old(self).pending_reconcile,
            final(self).spec_objects().dom() == old(self).spec_objects().dom(),
            forall|k: u32| #[trigger] old(self).spec_objects().contains_key(k) ==> final(self).spec_objects()[k]
                == spec_deselect_in_group(old(self).spec_objects()[k], g),
    {
        let ghost orig = self.objects@;
        let mut i: usize = 0;
        while i < self.objects.len()
            invariant
                self.wf(),
                spec_same_bookkeeping(*self, *old(self)),
                self.pending_reconcile == old(self).pending_reconcile,
                orig == old(self).objects@,
                self.objects@.len() == orig.len(),
                0 <= i <= orig.len(),
                forall|j: int| 0 <= j < orig.len() ==> (#[trigger] self.objects@[j]).0 == orig[j].0,
                forall|j: int| 0 <= j < i ==> (#[trigger] self.objects@[j]).1 == spec_deselect_in_group(orig[j].1, g),
                forall|j: int| i <= j < orig.len() ==> (#[trigger] self.objects@[j]).1 == orig[j].1,
            decreases orig.len() - i,
        {
            let is_member = match &self.objects[i].1 {
                TurboVisionObject::RadioButton(r) => r.group_id == g,
                _ => false,
            };
            if is_member {
                let p = Self::placeholder_object();
                let o = self.swap_out(i, p);
                let n = with_selected(o, false);
                self.replace_at(i, n);
            }
            i = i + 1;
        }
        proof {
            let after = self.objects@;
            assert forall|k: u32| #[trigger] old(self).spec_objects().contains_key(k)
                implies self.spec_objects().contains_key(k) && self.spec_objects()[k]
                == spec_deselect_in_group(old(self).spec_objects()[k], g) by {
                let j = choose|j: int| 0 <= j < orig.len() && orig[j].0 == k;
                lemma_lookup_at(orig, j);
                assert(after[j].0 == k);
                lemma_lookup_at(after, j);
            }
            assert forall|k: u32| #[trigger] self.spec_objects().contains_key(k)
                implies old(self).spec_objects().contains_key(k) by {
                let j = choose|j: int| 0 <= j < after.len() && after[j].0 == k;
                assert(orig[j].0 == k);
            }
            assert(self.spec_objects().dom() =~= old(self).spec_objects().dom());
        }
    }

    /// `Application.SetChecked`: set a check box, or select / deselect a
    /// radio button (selecting clears the rest of its group).
    pub fn set_checked(&mut self, control: CheckedControlHandle, checked: bool) -> (r: Result<(), TuiError>)
        requires
            old(self).wf(),
        ensures
            final(self).wf(),
            spec_same_bookkeeping(*final(self), *old(self)),
            final(self).pending_reconcile == old(self).pending_reconcile,
            r == spec_set_checked(old(self).spec_objects(), control),
            r is Ok ==> spec_set_checked_effect(old(self).spec_objects(), final(self).spec_objects(), control, checked),
            r is Err ==> *final(self) == *old(self),
    {
        match control {
            CheckedControlHandle::CheckBox(h) => {
                let i = match self.object_index(h) {
                    Some(i) => i,
                    None => {
                        return Err(TuiError::UnknownHandle { handle: h });
                    },
                };
                if !matches!(&self.objects[i].1, TurboVisionObject::CheckBox(_)) {
                    return Err(TuiError::UnknownHandle { handle: h });
                }
                let ghost m0 = self.spec_objects();
                let p = Self::placeholder_object();
                let o = self.swap_out(i, p);
                let n = with_checked(o, checked);
                let ghost g = n;
                self.replace_at(i, n);
                assert(self.spec_objects() =~= m0.insert(h, g));
                assert(self.spec_objects().dom() =~= m0.dom());
                Ok(())
            },
            CheckedControlHandle::RadioButton(h) => {
                let i0 = match self.object_index(h) {
                    Some(i) => i,
                    None => {
                        return Err(TuiError::UnknownHandle { handle: h });
                    },
                };
                let group_id = match &self.objects[i0].1 {
                    TurboVisionObject::RadioButton(r) => r.group_id,
                    _ => {
                        return Err(TuiError::UnknownHandle { handle: h });
                    },
                };
                let ghost m0 = self.spec_objects();
                if checked {
                    self.deselect_radio_group(group_id);
                }
                let ghost m1 = self.spec_objects();
                let i = match self.object_index(h) {
                    Some(i) => i,
                    None => {
                        return Err(TuiError::UnknownHandle { handle: h });
                    },
                };
                let p = Self::placeholder_object();
                let o = self.swap_out(i, p);
                let n = with_selected(o, checked);
                let ghost g = n;
                self.replace_at(i, n);
                assert(self.spec_objects() =~= m1.insert(h, g));
                proof {
                    assert(self.spec_objects().dom() =~= m0.dom());
                    assert(self.spec_objects()[h] == spec_with_selected(m0[h], checked));
                    assert(spec_group(m0[h]) == Some(group_id));
                    assert forall|k: u32| m0.contains_key(k) && k != h implies #[trigger] self.spec_objects()[k]
                        == if checked {
                        spec_deselect_in_group(m0[k], spec_group(m0[h]).unwrap())
                    } else {
                        m0[k]
                    } by {
                        assert(self.spec_objects()[k] == m1[k]);
                    }
                }
                Ok(())
            },
        }
    }

    /// `Application.SetItems`: replace the items of a list box and reset its
    /// selection to the first item (none when empty); returns that selection.
    pub fn set_items(&mut self, handle: u32, items: Vec<String>) -> (r: Result<Option<usize>, TuiError>)
        requires
            old(self).wf(),
        ensures
            final(self).wf(),
            spec_same_bookkeeping(*final(self), *old(self)),
            final(self).pending_reconcile == old(self).pending_reconcile,
            (r is Ok) == (old(self).spec_objects().contains_key(handle) && old(self).spec_objects()[handle] is ListBox),
            r is Err ==> r == Err::<Option<usize>, TuiError>(TuiError::UnknownHandle { handle })
                && *final(self) == *old(self),
            r matches Ok(sel) ==> sel == spec_initial_list_selection(items@.len())
                && spec_agree_except(old(self).spec_objects(), final(self).spec_objects(), handle, handle)
                && spec_list_refilled(old(self).spec_objects()[handle], final(self).spec_objects()[handle], crate::outline::spec_views(items@), sel),
    {
        let i = match self.object_index(handle) {
            Some(i) => i,
            None => {
                return Err(TuiError::UnknownHandle { handle });
            },
        };
        if !matches!(&self.objects[i].1, TurboVisionObject::ListBox(_)) {
            return Err(TuiError::UnknownHandle { handle });
        }
        let selection = initial_list_selection(&items);
        let ghost m0 = self.spec_objects();
        let ghost gi = items@;
        let p = Self::placeholder_object();
        let o = self.swap_out(i, p);
        let n = match o {
            TurboVisionObject::ListBox(mut l) => {
                l.items = items;
                l.selection = selection;
                TurboVisionObject::ListBox(l)
            },
            other => other,
        };
        let ghost g = n;
        assert(spec_list_refilled(m0[handle], g, crate::outline::spec_views(gi), selection));
        self.replace_at(i, n);
        assert(self.spec_objects() =~= m0.insert(handle, g));
        assert(self.spec_objects().dom() =~= m0.dom());
        Ok(selection)
    }
}

} // verus!
